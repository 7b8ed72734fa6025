//! SHA-256 identifiers: the links of the chain.
use vstd::prelude::*;
use vstd::std_specs::cmp::PartialEqSpecImpl;

verus! {

/// What SHA-256 yields for a byte string.
pub uninterp spec fn sha256(data: Seq<u8>) -> Seq<u8>;

/// Computes SHA-256 with `sha2::Sha256::digest`. The digest is a function of
/// the input bytes alone; the contract gives it its name and claims nothing
/// else of it. Its width of 32 bytes is fixed by the return type.
#[verifier::external_body]
fn sha256_digest(data: &[u8]) -> (digest: [u8; 32])
    ensures
        digest@ == sha256(data@),
{
    <sha2::Sha256 as sha2::Digest>::digest(data).into()
}

/// A fixed-width digest that identifies a position in the chain.
///
/// Its view is the sequence of its 32 bytes.
#[derive(Clone, Copy, Debug)]
pub struct Hash {
    pub bytes: [u8; 32],
}

impl View for Hash {
    type V = Seq<u8>;

    open spec fn view(&self) -> Seq<u8> {
        self.bytes@
    }
}

impl Hash {
    /// The identifier made of the given bytes.
    pub fn new(bytes: [u8; 32]) -> (id: Hash)
        ensures
            id.bytes == bytes,
            id@ == bytes@,
    {
        Hash { bytes }
    }

    /// Two identifiers with the same bytes are the same identifier.
    pub proof fn lemma_view_injective(a: Hash, b: Hash)
        ensures
            a@ == b@ <==> a == b,
            a@.len() == 32,
    {
        if a@ == b@ {
            assert(a.bytes == b.bytes);
        }
    }
}

impl Default for Hash {
    /// The identifier whose bytes are all zero.
    fn default() -> (id: Hash)
        ensures
            id@ == Seq::new(32, |i: int| 0u8),
    {
        let id = Hash { bytes: [0u8; 32] };
        assert(id@ =~= Seq::new(32, |i: int| 0u8));
        id
    }
}

impl PartialEq for Hash {
    fn eq(&self, other: &Hash) -> (same: bool) {
        let mut i: usize = 0;
        while i < 32
            invariant
                i <= 32,
                forall|j: int| 0 <= j < i ==> self.bytes@[j] == other.bytes@[j],
            decreases 32 - i,
        {
            if self.bytes[i] != other.bytes[i] {
                return false;
            }
            i += 1;
        }
        assert(self.bytes@ =~= other.bytes@);
        true
    }
}

impl Eq for Hash {

}

impl PartialEqSpecImpl for Hash {
    open spec fn obeys_eq_spec() -> bool {
        true
    }

    open spec fn eq_spec(&self, other: &Hash) -> bool {
        self@ == other@
    }
}

/// The SHA-256 digest of `val`.
pub fn hash(val: &[u8]) -> (id: Hash)
    ensures
        id@ == sha256(val@),
{
    Hash { bytes: sha256_digest(val) }
}

/// What mixing `val` into `id` yields: the digest of the identifier's bytes
/// followed by `val`.
pub open spec fn mix(id: Seq<u8>, val: Seq<u8>) -> Seq<u8> {
    sha256(id + val)
}

/// The digest of `id` extended with `val`.
pub fn extend_and_hash(id: &Hash, val: &[u8]) -> (mixed: Hash)
    ensures
        mixed@ == mix(id@, val@),
{
    let mut hash_data: Vec<u8> = Vec::new();
    hash_data.extend_from_slice(id.bytes.as_slice());
    hash_data.extend_from_slice(val);
    assert(hash_data@ =~= id@ + val@);
    hash(hash_data.as_slice())
}

} // verus!
