use vstd::prelude::*;

verus! {

/// A signing key pair in its serialized form: 64 bytes that the key-pair
/// parser accepts. A generated one is a 32-byte seed followed by its public key.
pub struct KeyMaterial {
    bytes: Vec<u8>,
}

impl View for KeyMaterial {
    type V = Seq<u8>;

    closed spec fn view(&self) -> Seq<u8> {
        self.bytes@
    }
}

impl KeyMaterial {
    /// Holds a key pair: the bytes have the length of one.
    #[verifier::type_invariant]
    spec fn wf(&self) -> bool {
        keypair_accepted(self.bytes@)
    }

    /// The serialized key pair, as it is written to the key file.
    pub fn as_bytes(&self) -> (r: &Vec<u8>)
        ensures
            r@ == self@,
            keypair_accepted(r@),
    {
        proof {
            use_type_invariant(self);
        }
        &self.bytes
    }
}

/// Why the stored key could not be used.
#[derive(Clone, Copy, Debug, PartialEq, Eq, Structural)]
pub enum KeyError {
    /// The key file holds bytes that do not form a key pair.
    Corrupt,
}

/// A key pair handed back by `load_or_create`. Where `generated` holds, the
/// caller writes the bytes to the key file before using them.
pub struct KeyLoad {
    pub material: KeyMaterial,
    pub generated: bool,
}

/// The meaning of a `KeyLoad`.
pub struct KeyOutcome {
    pub key: Seq<u8>,
    pub generated: bool,
}

impl View for KeyLoad {
    type V = KeyOutcome;

    open spec fn view(&self) -> KeyOutcome {
        KeyOutcome { key: self.material@, generated: self.generated }
    }
}

/// Whether bytes form a serialized key pair: exactly the length of one.
pub open spec fn keypair_accepted(b: Seq<u8>) -> bool {
    b.len() == 64
}

/// What the contents of the key file (none where there is no file) lead to.
pub enum KeyDecision {
    Load(Seq<u8>),
    Corrupt,
    Generate,
}

/// A missing or empty file means a key is still to be made; other contents
/// are the key, or corruption.
pub open spec fn key_decision(stored: Option<Seq<u8>>) -> KeyDecision {
    match stored {
        Some(b) => if b.len() == 0 {
            KeyDecision::Generate
        } else if keypair_accepted(b) {
            KeyDecision::Load(b)
        } else {
            KeyDecision::Corrupt
        },
        None => KeyDecision::Generate,
    }
}

/// The result of `load_or_create` on stored contents, where `fresh` is the
/// key pair that generation would give.
pub open spec fn load_outcome(stored: Option<Seq<u8>>, fresh: Seq<u8>) -> Result<KeyOutcome, KeyError> {
    match key_decision(stored) {
        KeyDecision::Load(b) => Ok(KeyOutcome { key: b, generated: false }),
        KeyDecision::Corrupt => Err(KeyError::Corrupt),
        KeyDecision::Generate => Ok(KeyOutcome { key: fresh, generated: true }),
    }
}

/// The contents of the key file once the caller has written what `out` asks for.
pub open spec fn stored_after(stored: Option<Seq<u8>>, out: Result<KeyOutcome, KeyError>) -> Option<Seq<u8>> {
    match out {
        Ok(o) => if o.generated {
            Some(o.key)
        } else {
            stored
        },
        Err(_) => stored,
    }
}

/// The contents of the key file as bytes.
pub open spec fn stored_view(stored: Option<Vec<u8>>) -> Option<Seq<u8>> {
    match stored {
        Some(b) => Some(b@),
        None => None,
    }
}

/// Relies on jwt_simple::Ed25519KeyPair::from_bytes, which hands the bytes to
/// ed25519_compact::KeyPair::from_slice: it accepts exactly 64 bytes and
/// checks nothing else.
#[verifier::external_body]
fn keypair_parses(bytes: &Vec<u8>) -> (r: bool)
    ensures
        r == keypair_accepted(bytes@),
{
    jwt_simple::prelude::Ed25519KeyPair::from_bytes(bytes).is_ok()
}

/// The Ed25519 public key that a 32-byte seed derives; it depends on the seed alone.
pub uninterp spec fn public_of(seed: Seq<u8>) -> Seq<u8>;

/// Whether every byte is zero.
pub open spec fn all_zero(b: Seq<u8>) -> bool {
    forall|i: int| 0 <= i < b.len() ==> b[i] == 0
}

/// Whether bytes are a seed that is not all zero, followed by the public key
/// it derives.
pub open spec fn seed_then_public(b: Seq<u8>) -> bool {
    &&& !all_zero(b.subrange(0, 32))
    &&& b.subrange(32, 64) == public_of(b.subrange(0, 32))
}

/// Relies on jwt_simple::Ed25519KeyPair::generate, serialized by its
/// `to_bytes`: a random seed and the public key derived from it
/// (ed25519_compact::KeyPair::from_seed, which refuses an all-zero seed), as
/// 64 bytes.
#[verifier::external_body]
fn generate_keypair() -> (r: Vec<u8>)
    ensures
        keypair_accepted(r@),
        !all_zero(r@.subrange(0, 32)),
        r@.subrange(32, 64) == public_of(r@.subrange(0, 32)),
{
    jwt_simple::prelude::Ed25519KeyPair::generate().to_bytes()
}

/// Loads the signing key from the contents of the key file (`None` where
/// there is no file), or generates one where the file is missing or empty.
/// Bytes that are not a key pair are an error, never replaced.
pub fn load_or_create(stored: Option<Vec<u8>>) -> (r: Result<KeyLoad, KeyError>)
    ensures
        match r {
            Ok(l) => load_outcome(stored_view(stored), l.material@) == Ok::<KeyOutcome, KeyError>(l@)
                && keypair_accepted(l.material@) && (l.generated ==> seed_then_public(l.material@)),
            Err(e) => load_outcome(stored_view(stored), Seq::empty()) == Err::<KeyOutcome, KeyError>(e),
        },
{
    match stored {
        Some(bytes) => {
            if bytes.len() > 0 {
                if keypair_parses(&bytes) {
                    return Ok(KeyLoad { material: KeyMaterial { bytes }, generated: false });
                } else {
                    return Err(KeyError::Corrupt);
                }
            }
        },
        None => {},
    }
    Ok(KeyLoad { material: KeyMaterial { bytes: generate_keypair() }, generated: true })
}


/// Loading is idempotent: on a file that holds a key pair, every call returns
/// those same bytes, generates nothing and leaves the file as it was.
pub proof fn lemma_load_idempotent(stored: Seq<u8>, fresh1: Seq<u8>, fresh2: Seq<u8>)
    requires
        stored.len() > 0,
        keypair_accepted(stored),
    ensures
        load_outcome(Some(stored), fresh1) == Ok::<KeyOutcome, KeyError>(KeyOutcome { key: stored, generated: false }),
        load_outcome(Some(stored), fresh1) == load_outcome(Some(stored), fresh2),
        stored_after(Some(stored), load_outcome(Some(stored), fresh1)) == Some(stored),
{
}

/// A key is generated at most once per file: once the first call's result is
/// written, a second call returns the same bytes and generates nothing.
pub proof fn lemma_generate_once(stored: Option<Seq<u8>>, fresh1: Seq<u8>, fresh2: Seq<u8>)
    requires
        keypair_accepted(fresh1),
        load_outcome(stored, fresh1) is Ok,
    ensures
        load_outcome(stored_after(stored, load_outcome(stored, fresh1)), fresh2) == Ok::<KeyOutcome, KeyError>(
            KeyOutcome { key: load_outcome(stored, fresh1)->Ok_0.key, generated: false },
        ),
{
}

/// An empty key file is treated as a missing one, while a non-empty file that
/// is not a key pair fails and is never replaced.
pub proof fn lemma_empty_versus_garbage(garbage: Seq<u8>, fresh: Seq<u8>)
    requires
        garbage.len() > 0,
        !keypair_accepted(garbage),
    ensures
        load_outcome(Some(Seq::empty()), fresh) == load_outcome(None, fresh),
        load_outcome(None, fresh) == Ok::<KeyOutcome, KeyError>(KeyOutcome { key: fresh, generated: true }),
        load_outcome(Some(garbage), fresh) == Err::<KeyOutcome, KeyError>(KeyError::Corrupt),
        stored_after(Some(garbage), load_outcome(Some(garbage), fresh)) == Some(garbage),
{
}

} // verus!
