use vstd::prelude::*;

verus! {

/// The trigger side of a `triggered` pair, opaque here.
#[verifier::external_type_specification]
#[verifier::external_body]
pub struct ExTrigger(triggered::Trigger);

/// The listener side of a `triggered` pair, opaque here; the serving loop awaits it.
#[verifier::external_type_specification]
#[verifier::external_body]
pub struct ExListener(triggered::Listener);

/// Whether a trigger has been pulled; once pulled, it stays so.
pub uninterp spec fn trigger_pulled(t: triggered::Trigger) -> bool;

/// Whether a listener is bound to a trigger, so that pulling the trigger
/// completes every wait on the listener.
pub uninterp spec fn listens_to(l: triggered::Listener, t: triggered::Trigger) -> bool;

/// Relies on triggered::trigger: a trigger that has not been pulled, and a
/// listener built on the same shared state.
#[verifier::external_body]
fn new_trigger() -> (r: (triggered::Trigger, triggered::Listener))
    ensures
        listens_to(r.1, r.0),
        !trigger_pulled(r.0),
{
    triggered::trigger()
}

/// Relies on triggered::Trigger::trigger: marks the trigger pulled (a flag
/// that is only ever set) and wakes every listener bound to it; any later wait
/// on them returns at once. The listeners stay bound.
#[verifier::external_body]
fn pull(trigger: &mut triggered::Trigger)
    ensures
        trigger_pulled(*final(trigger)),
        forall|l: triggered::Listener| listens_to(l, *old(trigger)) ==> #[trigger] listens_to(l, *final(trigger)),
{
    trigger.trigger()
}

/// An operating-system interrupt that asks the service to stop.
#[derive(Clone, Copy, Debug, PartialEq, Eq, Structural)]
pub enum Interrupt {
    /// The termination signal.
    Terminate,
    /// The interactive interrupt (Ctrl-C).
    CtrlC,
}

/// What a listener that waits for the signal does next.
#[derive(Clone, Copy, Debug, PartialEq, Eq, Structural)]
pub enum Wait {
    /// The signal has fired: go on at once.
    Ready,
    /// The signal is armed: sleep until it fires.
    Parked,
}

/// The single-fire shutdown signal: the trigger side, whether it has fired,
/// and the listeners parked until it does.
pub struct ShutdownSignal {
    trigger: triggered::Trigger,
    fired: bool,
    parked: Vec<u64>,
}

/// The meaning of a `ShutdownSignal`.
pub struct ShutdownModel {
    pub fired: bool,
    pub parked: Seq<u64>,
}

impl View for ShutdownSignal {
    type V = ShutdownModel;

    closed spec fn view(&self) -> ShutdownModel {
        ShutdownModel { fired: trigger_pulled(self.trigger), parked: self.parked@ }
    }
}

/// A freshly armed signal.
pub open spec fn armed() -> ShutdownModel {
    ShutdownModel { fired: false, parked: Seq::empty() }
}

/// Firing: while armed, the signal becomes fired and wakes every parked
/// listener, in the order they parked; once fired, nothing changes and no one
/// is woken.
pub open spec fn fire_step(m: ShutdownModel) -> (ShutdownModel, Seq<u64>) {
    if m.fired {
        (m, Seq::empty())
    } else {
        (ShutdownModel { fired: true, parked: Seq::empty() }, m.parked)
    }
}

/// Waiting: after firing, a listener goes on at once; before, it is parked.
pub open spec fn listen_step(m: ShutdownModel, listener: u64) -> (ShutdownModel, Wait) {
    if m.fired {
        (m, Wait::Ready)
    } else {
        (ShutdownModel { fired: false, parked: m.parked.push(listener) }, Wait::Parked)
    }
}

/// An interrupt fires the signal; which interrupt it was plays no part.
pub open spec fn interrupt_step(m: ShutdownModel, source: Interrupt) -> (ShutdownModel, Seq<u64>) {
    fire_step(m)
}

impl ShutdownSignal {
    /// The signal's own record of firing agrees with its trigger.
    pub closed spec fn wf(&self) -> bool {
        self.fired == trigger_pulled(self.trigger)
    }

    /// Whether pulling this signal's trigger completes every wait on `l`.
    pub closed spec fn heard_by(&self, l: triggered::Listener) -> bool {
        listens_to(l, self.trigger)
    }

    /// Arms a new signal, with the listener that the serving loop awaits: it is
    /// bound to the signal's trigger, which has not been pulled.
    pub fn arm() -> (r: (ShutdownSignal, triggered::Listener))
        ensures
            r.0.wf(),
            r.0@ == armed(),
            r.0.heard_by(r.1),
    {
        let (trigger, listener) = new_trigger();
        (ShutdownSignal { trigger, fired: false, parked: Vec::new() }, listener)
    }

    pub fn is_fired(&self) -> (r: bool)
        requires
            self.wf(),
        ensures
            r == self@.fired,
    {
        self.fired
    }

    /// A listener starts to wait for the signal.
    pub fn listen(&mut self, listener: u64) -> (r: Wait)
        requires
            old(self).wf(),
        ensures
            final(self).wf(),
            forall|l: triggered::Listener| old(self).heard_by(l) ==> #[trigger] final(self).heard_by(l),
            (final(self)@, r) == listen_step(old(self)@, listener),
    {
        if self.fired {
            Wait::Ready
        } else {
            self.parked.push(listener);
            Wait::Parked
        }
    }

    /// Fires the signal, and returns the listeners that this wakes. Only the
    /// first call pulls the trigger; afterwards it is pulled, and every
    /// listener bound to it before is still bound.
    pub fn fire(&mut self) -> (r: Vec<u64>)
        requires
            old(self).wf(),
        ensures
            final(self).wf(),
            final(self)@.fired,
            forall|l: triggered::Listener| old(self).heard_by(l) ==> #[trigger] final(self).heard_by(l),
            (final(self)@, r@) == fire_step(old(self)@),
    {
        let mut woken: Vec<u64> = Vec::new();
        if !self.fired {
            pull(&mut self.trigger);
            self.fired = true;
            core::mem::swap(&mut woken, &mut self.parked);
        }
        woken
    }

    /// Handles an interrupt of either kind by firing the signal.
    pub fn on_interrupt(&mut self, source: Interrupt) -> (r: Vec<u64>)
        requires
            old(self).wf(),
        ensures
            final(self).wf(),
            final(self)@.fired,
            forall|l: triggered::Listener| old(self).heard_by(l) ==> #[trigger] final(self).heard_by(l),
            (final(self)@, r@) == interrupt_step(old(self)@, source),
    {
        self.fire()
    }
}

/// Firing takes effect at most once: every listener parked before the first
/// fire is woken by it, a second fire changes nothing and wakes no one, and a
/// listener that waits after the fire goes on at once without parking.
pub proof fn lemma_fires_once(m: ShutdownModel, listener: u64)
    requires
        !m.fired,
    ensures
        fire_step(m).1 == m.parked,
        fire_step(m).0.fired,
        fire_step(fire_step(m).0) == (fire_step(m).0, Seq::<u64>::empty()),
        listen_step(fire_step(m).0, listener) == (fire_step(m).0, Wait::Ready),
{
}

/// Both interrupts have the same effect on any signal.
pub proof fn lemma_interrupts_alike(m: ShutdownModel, a: Interrupt, b: Interrupt)
    ensures
        interrupt_step(m, a) == interrupt_step(m, b),
{
}

} // verus!
