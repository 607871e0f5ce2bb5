use vstd::prelude::*;
use crate::crypto::bls_threshold::{bls_signature_valid, verify_bls_signature, BlsPublicKey, BlsSignature};
use crate::types::signature::{clone_signatures, Signature, SignatureView};
use crate::types::timestamp::Timestamp;

verus! {

/// The mathematical value of a quorum certificate.
pub struct QuorumCertView {
    pub block_hash: Seq<u8>,
    pub height: u64,
    pub timestamp: u64,
    pub signatures: Seq<SignatureView>,
    pub threshold_signature: Option<Seq<u8>>,
}

/// A certificate that a quorum of nodes voted for a block.
#[derive(Debug)]
pub struct QuorumCert {
    pub block_hash: crate::types::hash::Hash,
    pub height: u64,
    pub timestamp: Timestamp,
    /// Individual signatures from different nodes.
    pub signatures: Vec<Signature>,
    /// An aggregated BLS threshold signature, when one was formed.
    pub threshold_signature: Option<BlsSignature>,
}

impl View for QuorumCert {
    type V = QuorumCertView;

    open spec fn view(&self) -> QuorumCertView {
        QuorumCertView {
            block_hash: self.block_hash@,
            height: self.height,
            timestamp: self.timestamp.0,
            signatures: self.signatures@.map_values(|s: Signature| s@),
            threshold_signature: match self.threshold_signature {
                Some(s) => Some(s.point@),
                None => None,
            },
        }
    }
}

/// The nodes that signed, each counted once.
pub open spec fn signers(sigs: Seq<SignatureView>) -> Set<u64> {
    sigs.map_values(|s: SignatureView| s.signer).to_set()
}

/// Whether a certificate vouches for `block_hash` with signatures from at least `threshold`
/// distinct nodes, a threshold signature being trusted as it stands.
pub open spec fn qc_verifies(qc: QuorumCertView, block_hash: Seq<u8>, threshold: nat) -> bool {
    &&& qc.block_hash == block_hash
    &&& (qc.threshold_signature is Some || signers(qc.signatures).len() >= threshold)
}

/// Whether a certificate vouches for `block_hash`: its threshold signature must verify under
/// `public_key`, or, without one, it must hold signatures from at least `threshold` distinct
/// nodes.
pub open spec fn qc_verifies_with_key(
    qc: QuorumCertView,
    block_hash: Seq<u8>,
    threshold: nat,
    public_key: Seq<u8>,
) -> bool {
    &&& qc.block_hash == block_hash
    &&& match qc.threshold_signature {
        Some(sig) => bls_signature_valid(block_hash, sig, public_key),
        None => signers(qc.signatures).len() >= threshold,
    }
}

/// The number of distinct nodes among the signers of `sigs`.
pub fn distinct_signer_count(sigs: &Vec<Signature>) -> (n: usize)
    ensures
        n == signers(sigs@.map_values(|s: Signature| s@)).len(),
{
    let ghost views = sigs@.map_values(|s: Signature| s@);
    let mut seen: Vec<u64> = Vec::new();
    let mut i: usize = 0;
    while i < sigs.len()
        invariant
            i <= sigs@.len(),
            views == sigs@.map_values(|s: Signature| s@),
            seen@.no_duplicates(),
            seen@.to_set() == signers(views.subrange(0, i as int)),
            seen@.len() <= i,
        decreases sigs@.len() - i,
    {
        let signer = sigs[i].signer;
        let ghost prefix = views.subrange(0, i as int);
        proof {
            let next = views.subrange(0, i + 1);
            assert(next =~= prefix.push(views[i as int]));
            assert(next.map_values(|s: SignatureView| s.signer)
                =~= prefix.map_values(|s: SignatureView| s.signer).push(signer));
            prefix.map_values(|s: SignatureView| s.signer).lemma_push_to_set_commute(signer);
        }
        let mut found = false;
        let mut j: usize = 0;
        while j < seen.len()
            invariant
                j <= seen@.len(),
                found <==> exists|t: int| 0 <= t < j && seen@[t] == signer,
            decreases seen@.len() - j,
        {
            if seen[j] == signer {
                found = true;
            }
            j = j + 1;
        }
        if !found {
            let ghost old_seen = seen@;
            seen.push(signer);
            proof {
                old_seen.lemma_push_to_set_commute(signer);
                assert forall|a: int, b: int| 0 <= a < b < seen@.len() implies seen@[a] != seen@[b] by {
                    if b == old_seen.len() {
                        assert(old_seen[a] == seen@[a]);
                    }
                }
            }
        } else {
            proof {
                let t = choose|t: int| 0 <= t < seen@.len() && seen@[t] == signer;
                assert(seen@.contains(signer));
                assert(seen@.to_set().contains(signer));
                assert(seen@.to_set().insert(signer) =~= seen@.to_set());
            }
        }
        i = i + 1;
    }
    proof {
        assert(views.subrange(0, sigs@.len() as int) =~= views);
        seen@.unique_seq_to_set();
    }
    seen.len()
}

/// The number of signers a certificate counts: at least one with a threshold signature.
pub open spec fn qc_signer_count(qc: QuorumCertView) -> nat {
    if qc.threshold_signature is Some {
        if qc.signatures.len() >= 1 { qc.signatures.len() } else { 1 }
    } else {
        qc.signatures.len()
    }
}

impl QuorumCert {
    /// A certificate made of individual signatures, stamped with the current time.
    pub fn new(block_hash: crate::types::hash::Hash, height: u64, signatures: Vec<Signature>) -> (qc: QuorumCert)
        ensures
            qc@.block_hash == block_hash@,
            qc@.height == height,
            qc@.signatures == signatures@.map_values(|s: Signature| s@),
            qc@.threshold_signature is None,
    {
        QuorumCert {
            block_hash,
            height,
            timestamp: Timestamp::now(),
            signatures,
            threshold_signature: None,
        }
    }

    /// A certificate carried by a threshold signature alone, stamped with the current time.
    pub fn new_with_threshold_sig(
        block_hash: crate::types::hash::Hash,
        height: u64,
        threshold_signature: BlsSignature,
    ) -> (qc: QuorumCert)
        ensures
            qc@.block_hash == block_hash@,
            qc@.height == height,
            qc@.signatures.len() == 0,
            qc@.threshold_signature == Some(threshold_signature.point@),
    {
        QuorumCert {
            block_hash,
            height,
            timestamp: Timestamp::now(),
            signatures: Vec::new(),
            threshold_signature: Some(threshold_signature),
        }
    }

    /// Checks that the certificate is for `block_hash` and carries signatures from enough
    /// distinct nodes; a threshold signature is accepted without a key to check it against.
    pub fn verify(&self, block_hash: crate::types::hash::Hash, threshold: usize) -> (ok: bool)
        ensures
            ok == qc_verifies(self@, block_hash@, threshold as nat),
    {
        if self.block_hash != block_hash {
            return false;
        }
        if self.threshold_signature.is_some() {
            return true;
        }
        if distinct_signer_count(&self.signatures) < threshold {
            return false;
        }
        true
    }

    /// Checks that the certificate is for `block_hash`, verifying its threshold signature
    /// against `aggregate_public_key`, or counting the distinct nodes among its signers.
    pub fn verify_with_bls_key(
        &self,
        block_hash: crate::types::hash::Hash,
        threshold: usize,
        aggregate_public_key: &BlsPublicKey,
    ) -> (ok: bool)
        ensures
            ok == qc_verifies_with_key(self@, block_hash@, threshold as nat, aggregate_public_key.point@),
    {
        if self.block_hash != block_hash {
            return false;
        }
        match &self.threshold_signature {
            Some(threshold_sig) => {
                verify_bls_signature(block_hash.as_bytes(), threshold_sig, aggregate_public_key)
            },
            None => {
                if distinct_signer_count(&self.signatures) < threshold {
                    return false;
                }
                true
            },
        }
    }

    /// Whether the certificate uses the more efficient threshold signature.
    pub fn uses_threshold_signature(&self) -> (b: bool)
        ensures
            b == self@.threshold_signature is Some,
    {
        self.threshold_signature.is_some()
    }

    /// The number of signers; a threshold signature counts for at least one.
    pub fn signer_count(&self) -> (n: usize)
        ensures
            n == qc_signer_count(self@),
    {
        if self.threshold_signature.is_some() {
            if self.signatures.len() >= 1 {
                self.signatures.len()
            } else {
                1
            }
        } else {
            self.signatures.len()
        }
    }
}

impl Clone for QuorumCert {
    fn clone(&self) -> (qc: QuorumCert)
        ensures
            qc@ == self@,
    {
        QuorumCert {
            block_hash: self.block_hash,
            height: self.height,
            timestamp: self.timestamp,
            signatures: clone_signatures(&self.signatures),
            threshold_signature: self.threshold_signature,
        }
    }
}

} // verus!
