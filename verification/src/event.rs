//! The events that an entry stamps into the chain.
use vstd::prelude::*;
use vstd::bytes::{spec_u64_to_le_bytes, u64_to_le_bytes};
use crate::signature::{PublicKey, Signature};

verus! {

/// A signed transfer. `data` is the content that `from` signed.
#[derive(Clone, Debug, PartialEq, Eq)]
pub struct Transaction {
    pub from: PublicKey,
    pub data: Vec<u8>,
    pub sig: Signature,
}

impl Transaction {
    /// Whether the signature is one of `data` by `from`.
    pub open spec fn valid(&self) -> bool {
        self.sig.signs(self.from, self.data@)
    }

    /// Checks the signature over `data`.
    pub fn verify(&self) -> (ok: bool)
        ensures
            ok == self.valid(),
    {
        self.sig.verify(&self.from, self.data.as_slice())
    }
}

/// Something that happened at a point of the chain.
#[derive(Clone, Debug, PartialEq, Eq)]
pub enum Event {
    /// A signed transaction.
    Transaction(Transaction),
    /// A witness's signature over the signature `tx_sig` of a transaction.
    Signature { from: PublicKey, tx_sig: Signature, sig: Signature },
    /// A witness's signature over a time in seconds since the Unix epoch,
    /// signed as its eight bytes, the least significant first.
    Timestamp { from: PublicKey, dt: u64, sig: Signature },
}

impl Event {
    /// The byte that tells the variant in hashed data.
    pub open spec fn tag(&self) -> u8 {
        match *self {
            Event::Transaction(_) => 0u8,
            Event::Signature { .. } => 1u8,
            Event::Timestamp { .. } => 2u8,
        }
    }

    /// The signature that the event carries.
    pub open spec fn sig(&self) -> Signature {
        match *self {
            Event::Transaction(tr) => tr.sig,
            Event::Signature { sig, .. } => sig,
            Event::Timestamp { sig, .. } => sig,
        }
    }

    /// What the event contributes to the data an entry hashes: its tag, then
    /// the 64 bytes of its signature.
    pub open spec fn data(&self) -> Seq<u8> {
        seq![self.tag()] + self.sig()@
    }

    /// Whether the event's signature is one of its content by its signer.
    pub open spec fn valid(&self) -> bool {
        match *self {
            Event::Transaction(tr) => tr.valid(),
            Event::Signature { from, tx_sig, sig } => sig.signs(from, tx_sig@),
            Event::Timestamp { from, dt, sig } => sig.signs(from, spec_u64_to_le_bytes(dt)),
        }
    }

    /// Checks the event's own signature.
    pub fn verify(&self) -> (ok: bool)
        ensures
            ok == self.valid(),
    {
        match self {
            Event::Transaction(tr) => tr.verify(),
            Event::Signature { from, tx_sig, sig } => sig.verify(from, tx_sig.bytes.as_slice()),
            Event::Timestamp { from, dt, sig } => {
                let message = u64_to_le_bytes(*dt);
                sig.verify(from, message.as_slice())
            },
        }
    }
}

} // verus!
