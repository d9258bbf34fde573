use role_playing_guild::shutdown::{Interrupt, ShutdownSignal, Wait};

#[test]
fn armed_signal_has_not_fired() {
    let (signal, listener) = ShutdownSignal::arm();
    assert!(!signal.is_fired());
    assert!(!listener.is_triggered());
}

#[test]
fn fire_triggers_listener() {
    let (mut signal, listener) = ShutdownSignal::arm();
    let copy = listener.clone();
    assert!(signal.fire().is_empty());
    assert!(signal.is_fired());
    assert!(listener.is_triggered());
    assert!(copy.is_triggered());
}

#[test]
fn one_fire_wakes_both_waiters() {
    let (mut signal, _listener) = ShutdownSignal::arm();
    assert_eq!(signal.listen(1), Wait::Parked);
    assert_eq!(signal.listen(2), Wait::Parked);
    assert_eq!(signal.fire(), vec![1, 2]);
}

#[test]
fn repeated_fire_wakes_once() {
    let (mut signal, _listener) = ShutdownSignal::arm();
    signal.listen(4);
    assert_eq!(signal.fire(), vec![4]);
    assert!(signal.fire().is_empty());
    assert!(signal.on_interrupt(Interrupt::CtrlC).is_empty());
    assert!(signal.is_fired());
}

#[test]
fn waiting_after_fire_is_immediate() {
    let (mut signal, _listener) = ShutdownSignal::arm();
    signal.fire();
    assert_eq!(signal.listen(3), Wait::Ready);
    assert!(signal.fire().is_empty());
}

#[test]
fn interrupts_have_the_same_effect() {
    let (mut a, la) = ShutdownSignal::arm();
    let (mut b, lb) = ShutdownSignal::arm();
    a.listen(1);
    b.listen(1);
    assert_eq!(a.on_interrupt(Interrupt::Terminate), b.on_interrupt(Interrupt::CtrlC));
    assert_eq!(a.is_fired(), b.is_fired());
    assert!(la.is_triggered() && lb.is_triggered());
}
