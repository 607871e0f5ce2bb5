use vstd::prelude::*;
use crate::types::bytes::copy_bytes;

verus! {

/// The mathematical value of a signature.
pub struct SignatureView {
    pub signer: u64,
    pub data: Seq<u8>,
}

/// A signature by one node over some consensus data.
#[derive(Debug)]
pub struct Signature {
    pub signer: u64,
    pub data: Vec<u8>,
}

impl View for Signature {
    type V = SignatureView;

    open spec fn view(&self) -> SignatureView {
        SignatureView { signer: self.signer, data: self.data@ }
    }
}

impl Signature {
    /// Builds a signature from its signer and bytes.
    pub fn new(signer: u64, data: Vec<u8>) -> (s: Signature)
        ensures
            s@.signer == signer,
            s@.data == data@,
    {
        Signature { signer, data }
    }
}

impl Clone for Signature {
    fn clone(&self) -> (s: Signature)
        ensures
            s@ == self@,
    {
        Signature { signer: self.signer, data: copy_bytes(self.data.as_slice()) }
    }
}

/// Copies a list of signatures.
pub fn clone_signatures(sigs: &Vec<Signature>) -> (out: Vec<Signature>)
    ensures
        out@.map_values(|s: Signature| s@) == sigs@.map_values(|s: Signature| s@),
{
    let mut out: Vec<Signature> = Vec::new();
    let mut i: usize = 0;
    while i < sigs.len()
        invariant
            i <= sigs@.len(),
            out@.len() == i,
            forall|j: int| 0 <= j < i ==> #[trigger] out@[j]@ == sigs@[j]@,
        decreases sigs@.len() - i,
    {
        out.push(sigs[i].clone());
        i = i + 1;
    }
    assert(out@.map_values(|s: Signature| s@) =~= sigs@.map_values(|s: Signature| s@));
    out
}

} // verus!
