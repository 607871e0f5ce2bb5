use vstd::prelude::*;
use crate::types::bytes::{append_bytes, bytes_equal, copy_bytes};
use crate::types::hash::{sha256, sha256_digest};

verus! {

/// The mathematical value of a transaction.
pub struct TransactionView {
    pub id: Seq<char>,
    pub data: Seq<u8>,
}

/// A client transaction: an identifier and an opaque payload.
#[derive(Debug, Eq)]
pub struct Transaction {
    pub id: String,
    pub data: Vec<u8>,
}

impl View for Transaction {
    type V = TransactionView;

    open spec fn view(&self) -> TransactionView {
        TransactionView { id: self.id@, data: self.data@ }
    }
}

/// The bytes that the transaction hash is computed over: the UTF-8 identifier, then the payload.
pub open spec fn transaction_preimage(tx: TransactionView) -> Seq<u8> {
    vstd::utf8::encode_utf8(tx.id) + tx.data
}

/// The hash of a transaction: the SHA-256 digest of its preimage, hashed once more into a `Hash`.
pub open spec fn transaction_hash(tx: TransactionView) -> Seq<u8> {
    sha256(sha256(transaction_preimage(tx)))
}

impl Transaction {
    /// Builds a transaction from its identifier and payload.
    pub fn new(id: String, data: Vec<u8>) -> (tx: Transaction)
        ensures
            tx@.id == id@,
            tx@.data == data@,
    {
        Transaction { id, data }
    }

    /// The bytes of the transaction as a pool holds it: the UTF-8 identifier, then the payload.
    pub fn encoded(&self) -> (bytes: Vec<u8>)
        ensures
            bytes@ == transaction_preimage(self@),
    {
        let mut input: Vec<u8> = Vec::new();
        append_bytes(&mut input, self.id.as_str().as_bytes());
        append_bytes(&mut input, self.data.as_slice());
        assert(input@ =~= transaction_preimage(self@));
        input
    }

    /// Calculates the hash of the transaction.
    pub fn hash(&self) -> (h: crate::types::hash::Hash)
        ensures
            h@ == transaction_hash(self@),
    {
        let input = self.encoded();
        let digest = sha256_digest(input.as_slice());
        crate::types::hash::Hash::from_bytes(&digest)
    }
}

impl Clone for Transaction {
    fn clone(&self) -> (tx: Transaction)
        ensures
            tx@ == self@,
    {
        Transaction { id: self.id.clone(), data: copy_bytes(self.data.as_slice()) }
    }
}

impl PartialEq for Transaction {
    fn eq(&self, other: &Transaction) -> (r: bool) {
        self.id == other.id && bytes_equal(self.data.as_slice(), other.data.as_slice())
    }
}

impl vstd::std_specs::cmp::PartialEqSpecImpl for Transaction {
    open spec fn obeys_eq_spec() -> bool {
        true
    }

    open spec fn eq_spec(&self, other: &Transaction) -> bool {
        self@ == other@
    }
}

/// Copies a list of transactions.
pub fn clone_transactions(txs: &Vec<Transaction>) -> (out: Vec<Transaction>)
    ensures
        out@.map_values(|t: Transaction| t@) == txs@.map_values(|t: Transaction| t@),
{
    let mut out: Vec<Transaction> = Vec::new();
    let mut i: usize = 0;
    while i < txs.len()
        invariant
            i <= txs@.len(),
            out@.len() == i,
            forall|j: int| 0 <= j < i ==> #[trigger] out@[j]@ == txs@[j]@,
        decreases txs@.len() - i,
    {
        out.push(txs[i].clone());
        i = i + 1;
    }
    assert(out@.map_values(|t: Transaction| t@) =~= txs@.map_values(|t: Transaction| t@));
    out
}

} // verus!
