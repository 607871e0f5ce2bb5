use vstd::prelude::*;
use sha2::Digest;

verus! {

/// The SHA-256 digest of a byte string.
pub uninterp spec fn sha256(data: Seq<u8>) -> Seq<u8>;

/// Computes the SHA-256 digest of `data` with the `sha2` crate.
#[verifier::external_body]
pub(crate) fn sha256_digest(data: &[u8]) -> (d: [u8; 32])
    ensures
        d@ == sha256(data@),
{
    sha2::Sha256::digest(data).into()
}

/// A 32-byte hash identifying blocks, transactions and states.
#[derive(Clone, Copy, Debug, Eq, Hash)]
pub struct Hash(pub [u8; 32]);

impl View for Hash {
    type V = Seq<u8>;

    open spec fn view(&self) -> Seq<u8> {
        self.0@
    }
}

/// The all-zero hash.
pub open spec fn zero_hash() -> Seq<u8> {
    Seq::new(32, |i: int| 0u8)
}

impl Hash {
    /// The all-zero hash, used for genesis.
    pub fn zero() -> (h: Hash)
        ensures
            h@ == zero_hash(),
    {
        let h = Hash([0u8; 32]);
        assert(h@ =~= zero_hash());
        h
    }

    /// Hashes an arbitrary byte string with SHA-256.
    pub fn from_bytes(data: &[u8]) -> (h: Hash)
        ensures
            h@ == sha256(data@),
    {
        Hash(sha256_digest(data))
    }

    /// The raw bytes of the hash.
    pub fn as_bytes(&self) -> (b: &[u8; 32])
        ensures
            b@ == self@,
    {
        &self.0
    }

    /// Whether two hashes are equal.
    pub fn equals(&self, other: &Hash) -> (r: bool)
        ensures
            r == (self@ == other@),
    {
        let mut i: usize = 0;
        while i < 32
            invariant
                i <= 32,
                forall|j: int| 0 <= j < i ==> self.0@[j] == other.0@[j],
            decreases 32 - i,
        {
            if self.0[i] != other.0[i] {
                return false;
            }
            i = i + 1;
        }
        assert(self@ =~= other@);
        true
    }
}

impl PartialEq for Hash {
    fn eq(&self, other: &Hash) -> (r: bool) {
        self.equals(other)
    }
}

impl vstd::std_specs::cmp::PartialEqSpecImpl for Hash {
    open spec fn obeys_eq_spec() -> bool {
        true
    }

    open spec fn eq_spec(&self, other: &Hash) -> bool {
        self@ == other@
    }
}

impl From<[u8; 32]> for Hash {
    fn from(bytes: [u8; 32]) -> (h: Hash) {
        Hash(bytes)
    }
}

impl vstd::std_specs::convert::FromSpecImpl<[u8; 32]> for Hash {
    open spec fn obeys_from_spec() -> bool {
        true
    }

    open spec fn from_spec(bytes: [u8; 32]) -> Hash {
        Hash(bytes)
    }
}

} // verus!
