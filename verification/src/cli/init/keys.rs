//! Ed25519 keys as bytes.

use vstd::prelude::*;

verus! {

/// An ed25519 secret key with its public key.
#[derive(Debug, Clone, Copy, PartialEq, Eq)]
pub struct KeyPair {
    pub secret: [u8; 32],
    pub public: [u8; 32],
}

/// The ed25519 public key that belongs to a secret key.
pub uninterp spec fn ed25519_public_key(secret: Seq<u8>) -> Seq<u8>;

/// `everscale_crypto::ed25519::PublicKey::from(&SecretKey)`, between the
/// bytes of the two keys: the public key is a function of the secret key.
#[verifier::external_body]
fn public_key(secret: &[u8; 32]) -> (public: [u8; 32])
    ensures
        public@ == ed25519_public_key(secret@),
{
    let secret = everscale_crypto::ed25519::SecretKey::from_bytes(*secret);
    everscale_crypto::ed25519::PublicKey::from(&secret).to_bytes()
}

/// `everscale_crypto::ed25519::SecretKey::generate` on `rand::thread_rng()`:
/// the bytes of a new secret key. Nothing is claimed of them.
#[verifier::external_body]
fn generate_secret() -> (secret: [u8; 32]) {
    everscale_crypto::ed25519::SecretKey::generate(&mut rand::thread_rng()).to_bytes()
}

impl KeyPair {
    /// Whether the public key is the one that belongs to the secret key.
    pub open spec fn wf(self) -> bool {
        self.public@ == ed25519_public_key(self.secret@)
    }

    /// The pair of a secret key.
    pub fn new(secret: [u8; 32]) -> (pair: Self)
        ensures
            pair.secret == secret,
            pair.wf(),
    {
        KeyPair { secret, public: public_key(&secret) }
    }

    /// A pair with a new secret key.
    pub fn generate() -> (pair: Self)
        ensures
            pair.wf(),
    {
        KeyPair::new(generate_secret())
    }
}

/// Whether two keys are the same bytes.
pub(crate) fn same_key(a: &[u8; 32], b: &[u8; 32]) -> (same: bool)
    ensures
        same == (a@ == b@),
{
    let mut at: usize = 0;
    while at < 32
        invariant
            at <= 32,
            forall|i: int| 0 <= i < at ==> a[i] == b[i],
        decreases 32 - at,
    {
        if a[at] != b[at] {
            return false;
        }
        at += 1;
    }
    assert(a@ =~= b@);
    true
}

} // verus!
