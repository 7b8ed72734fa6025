//! Ed25519 public keys and signatures, as the bytes that travel with an event.
use vstd::prelude::*;

verus! {

/// An Ed25519 public key. Its view is the sequence of its 32 bytes.
#[derive(Clone, Copy, Debug, PartialEq, Eq)]
pub struct PublicKey {
    pub bytes: [u8; 32],
}

impl View for PublicKey {
    type V = Seq<u8>;

    open spec fn view(&self) -> Seq<u8> {
        self.bytes@
    }
}

/// An Ed25519 signature. Its view is the sequence of its 64 bytes.
#[derive(Clone, Copy, Debug, PartialEq, Eq)]
pub struct Signature {
    pub bytes: [u8; 64],
}

impl View for Signature {
    type V = Seq<u8>;

    open spec fn view(&self) -> Seq<u8> {
        self.bytes@
    }
}

/// Whether Ed25519 accepts `signature` as a signature of `message` under
/// `public_key`.
pub uninterp spec fn ed25519_accepts(public_key: Seq<u8>, message: Seq<u8>, signature: Seq<u8>) -> bool;

/// Checks a signature with `ring::signature::UnparsedPublicKey::verify` under
/// `ring::signature::ED25519`. The verdict is a function of the three byte
/// strings alone; a malformed key or signature is rejected, not a failure. The
/// contract gives the verdict its name and claims nothing else of it.
#[verifier::external_body]
fn ed25519_verify(public_key: &[u8], message: &[u8], signature: &[u8]) -> (accepted: bool)
    ensures
        accepted == ed25519_accepts(public_key@, message@, signature@),
{
    ring::signature::UnparsedPublicKey::new(&ring::signature::ED25519, public_key)
        .verify(message, signature)
        .is_ok()
}

impl Signature {
    /// Whether this is a signature of `message` by the holder of `from`.
    pub open spec fn signs(&self, from: PublicKey, message: Seq<u8>) -> bool {
        ed25519_accepts(from@, message, self@)
    }

    /// Checks that this is a signature of `message` by the holder of `from`.
    pub fn verify(&self, from: &PublicKey, message: &[u8]) -> (accepted: bool)
        ensures
            accepted == self.signs(*from, message@),
    {
        ed25519_verify(from.bytes.as_slice(), message, self.bytes.as_slice())
    }
}

} // verus!
