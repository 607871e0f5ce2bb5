use vstd::prelude::*;
use group::Curve;
use crate::crypto::bls_threshold::{
    bls_scalar_input, bls_signature_valid, decodes_g1, g1_generator_mul, g1_generator_times, g1_point_decodes,
    g2_point_decodes, scalar_input, verify_bls_signature, BlsPublicKey, BlsSignature,
};
use crate::error::{ErrorKind, HotStuffError};
use crate::testing::stress_test::{random_byte, thread_rng};

verus! {

// ---------------------------------------------------------------------------------------
// Scalars and points of `bls12_381`, carried as their canonical byte encodings.

/// Whether the 32 bytes are the canonical encoding of a scalar (`Scalar::from_bytes`).
pub uninterp spec fn scalar_decodes(bytes: Seq<u8>) -> bool;

/// The encoding of the scalar that 64 bytes reduce to (`Scalar::from_bytes_wide`).
pub uninterp spec fn scalar_of_wide(wide: Seq<u8>) -> Seq<u8>;

/// The encoding of the scalar of an integer (`Scalar::from(u64)`).
pub uninterp spec fn scalar_of_u64(x: u64) -> Seq<u8>;

/// The encoding of the sum of two scalars.
pub uninterp spec fn scalar_sum(a: Seq<u8>, b: Seq<u8>) -> Seq<u8>;

/// The encoding of the difference of two scalars.
pub uninterp spec fn scalar_difference(a: Seq<u8>, b: Seq<u8>) -> Seq<u8>;

/// The encoding of the product of two scalars.
pub uninterp spec fn scalar_product(a: Seq<u8>, b: Seq<u8>) -> Seq<u8>;

/// The encoding of the inverse of a scalar, none for zero (`Scalar::invert`).
pub uninterp spec fn scalar_inverse(a: Seq<u8>) -> Option<Seq<u8>>;

/// The compressed G2 generator multiplied by a scalar.
pub uninterp spec fn g2_generator_mul(s: Seq<u8>) -> Seq<u8>;

/// The compressed G1 point `p` multiplied by the scalar `s`.
pub uninterp spec fn g1_mul(p: Seq<u8>, s: Seq<u8>) -> Seq<u8>;

/// The compressed sum of two G1 points.
pub uninterp spec fn g1_sum(p: Seq<u8>, q: Seq<u8>) -> Seq<u8>;

/// `Scalar::from_bytes(..).is_some()`.
#[verifier::external_body]
fn decodes_scalar(bytes: &[u8; 32]) -> (ok: bool)
    ensures
        ok == scalar_decodes(bytes@),
{
    bool::from(bls12_381::Scalar::from_bytes(bytes).is_some())
}

/// `Scalar::from_bytes_wide`, encoded; an encoding decodes again.
#[verifier::external_body]
fn wide_scalar(wide: &[u8; 64]) -> (s: [u8; 32])
    ensures
        s@ == scalar_of_wide(wide@),
        scalar_decodes(s@),
{
    bls12_381::Scalar::from_bytes_wide(wide).to_bytes()
}

/// `Scalar::from(x)`, encoded.
#[verifier::external_body]
fn u64_scalar(x: u64) -> (s: [u8; 32])
    ensures
        s@ == scalar_of_u64(x),
        scalar_decodes(s@),
{
    bls12_381::Scalar::from(x).to_bytes()
}

/// `a + b` on scalars.
#[verifier::external_body]
fn add_scalars(a: &[u8; 32], b: &[u8; 32]) -> (s: [u8; 32])
    requires
        scalar_decodes(a@),
        scalar_decodes(b@),
    ensures
        s@ == scalar_sum(a@, b@),
        scalar_decodes(s@),
{
    (bls12_381::Scalar::from_bytes(a).unwrap() + bls12_381::Scalar::from_bytes(b).unwrap()).to_bytes()
}

/// `a - b` on scalars.
#[verifier::external_body]
fn sub_scalars(a: &[u8; 32], b: &[u8; 32]) -> (s: [u8; 32])
    requires
        scalar_decodes(a@),
        scalar_decodes(b@),
    ensures
        s@ == scalar_difference(a@, b@),
        scalar_decodes(s@),
{
    (bls12_381::Scalar::from_bytes(a).unwrap() - bls12_381::Scalar::from_bytes(b).unwrap()).to_bytes()
}

/// `a * b` on scalars.
#[verifier::external_body]
fn mul_scalars(a: &[u8; 32], b: &[u8; 32]) -> (s: [u8; 32])
    requires
        scalar_decodes(a@),
        scalar_decodes(b@),
    ensures
        s@ == scalar_product(a@, b@),
        scalar_decodes(s@),
{
    (bls12_381::Scalar::from_bytes(a).unwrap() * bls12_381::Scalar::from_bytes(b).unwrap()).to_bytes()
}

/// `Scalar::invert`, encoded; none for zero.
#[verifier::external_body]
fn invert_scalar(a: &[u8; 32]) -> (s: Option<[u8; 32]>)
    requires
        scalar_decodes(a@),
    ensures
        s matches Some(v) ==> scalar_decodes(v@),
        scalar_inverse(a@) == match s {
            Some(v) => Some(v@),
            None => None::<Seq<u8>>,
        },
{
    let inverse = bls12_381::Scalar::from_bytes(a).unwrap().invert();
    if bool::from(inverse.is_some()) {
        Some(inverse.unwrap().to_bytes())
    } else {
        None
    }
}

/// `G2Projective::generator() * s`, compressed; it decodes again.
#[verifier::external_body]
fn g2_generator_times(s: &[u8; 32]) -> (p: [u8; 96])
    requires
        scalar_decodes(s@),
    ensures
        p@ == g2_generator_mul(s@),
        g2_point_decodes(p@),
{
    (bls12_381::G2Projective::generator() * bls12_381::Scalar::from_bytes(s).unwrap()).to_affine().to_compressed()
}

/// `p * s` on a G1 point, compressed; it decodes again.
#[verifier::external_body]
fn g1_times(p: &[u8; 48], s: &[u8; 32]) -> (q: [u8; 48])
    requires
        g1_point_decodes(p@),
        scalar_decodes(s@),
    ensures
        q@ == g1_mul(p@, s@),
        g1_point_decodes(q@),
{
    (bls12_381::G1Affine::from_compressed(p).unwrap() * bls12_381::Scalar::from_bytes(s).unwrap()).to_affine().to_compressed()
}

/// `p + q` on G1 points, compressed; it decodes again.
#[verifier::external_body]
fn g1_add(p: &[u8; 48], q: &[u8; 48]) -> (r: [u8; 48])
    requires
        g1_point_decodes(p@),
        g1_point_decodes(q@),
    ensures
        r@ == g1_sum(p@, q@),
        g1_point_decodes(r@),
{
    (bls12_381::G1Projective::from(bls12_381::G1Affine::from_compressed(p).unwrap())
        + bls12_381::G1Affine::from_compressed(q).unwrap()).to_affine().to_compressed()
}

// ---------------------------------------------------------------------------------------
// Threshold keys: Shamir shares of a secret scalar, with the public key in G2.

/// The value at `x` of the polynomial whose coefficients are `coeffs`, constant term first.
pub open spec fn poly_eval(coeffs: Seq<Seq<u8>>, x: Seq<u8>) -> Seq<u8>
    decreases coeffs.len(),
{
    if coeffs.len() <= 1 {
        coeffs[0]
    } else {
        scalar_sum(coeffs[0], scalar_product(x, poly_eval(coeffs.drop_first(), x)))
    }
}

/// The point at which the share of node `id` is taken: the scalar `id + 1`.
pub open spec fn node_point(id: u64) -> Seq<u8> {
    scalar_sum(scalar_of_u64(id), scalar_of_u64(1))
}

/// The public key of a threshold group.
#[derive(Debug, Clone, Copy)]
pub struct ThresholdPublicKey {
    /// How many partial signatures make a signature.
    pub threshold: usize,
    pub total_nodes: usize,
    /// The G2 generator times the shared secret.
    pub aggregate: BlsPublicKey,
}

/// One node's share of the group secret.
#[derive(Debug, Clone, Copy)]
pub struct ThresholdSecretKey {
    pub node_id: u64,
    /// The share, a scalar in its canonical encoding.
    pub share: [u8; 32],
}

/// Whether `secret_keys` and `aggregate` are the shares and the public key of the polynomial
/// with coefficients `coeffs`: node `i` holds its value at `node_point(i)`, and the public key
/// is the G2 generator times its constant term.
pub open spec fn keys_of(coeffs: Seq<Seq<u8>>, threshold: nat, aggregate: Seq<u8>, secret_keys: Seq<ThresholdSecretKey>) -> bool {
    &&& coeffs.len() == threshold
    &&& forall|j: int| 0 <= j < coeffs.len() ==> #[trigger] scalar_decodes(coeffs[j])
    &&& aggregate == g2_generator_mul(coeffs[0])
    &&& forall|i: int| 0 <= i < secret_keys.len() ==> {
        &&& #[trigger] secret_keys[i].node_id == i
        &&& secret_keys[i].share@ == poly_eval(coeffs, node_point(i as u64))
    }
}

/// A scalar drawn from 64 random bytes.
fn random_scalar(rng: &mut rand::rngs::ThreadRng) -> (s: [u8; 32])
    ensures
        scalar_decodes(s@),
{
    let mut wide = [0u8; 64];
    let mut i: usize = 0;
    while i < 64
        invariant
            i <= 64,
            wide@.len() == 64,
        decreases 64 - i,
    {
        wide[i] = random_byte(rng);
        i = i + 1;
    }
    wide_scalar(&wide)
}

/// Evaluates the polynomial `coeffs` at `x` by Horner's rule.
fn evaluate(coeffs: &Vec<[u8; 32]>, x: &[u8; 32]) -> (v: [u8; 32])
    requires
        coeffs@.len() >= 1,
        forall|j: int| 0 <= j < coeffs@.len() ==> #[trigger] scalar_decodes(coeffs@[j]@),
        scalar_decodes(x@),
    ensures
        v@ == poly_eval(coeffs@.map_values(|c: [u8; 32]| c@), x@),
        scalar_decodes(v@),
{
    let ghost cs = coeffs@.map_values(|c: [u8; 32]| c@);
    let n = coeffs.len();
    let mut acc = coeffs[n - 1];
    let mut k: usize = n - 1;
    assert(cs.subrange(k as int, n as int).len() == 1);
    assert(cs.subrange(k as int, n as int)[0] == acc@);
    while k > 0
        invariant
            1 <= n == coeffs@.len(),
            k < n,
            cs == coeffs@.map_values(|c: [u8; 32]| c@),
            forall|j: int| 0 <= j < coeffs@.len() ==> #[trigger] scalar_decodes(coeffs@[j]@),
            scalar_decodes(x@),
            scalar_decodes(acc@),
            acc@ == poly_eval(cs.subrange(k as int, n as int), x@),
        decreases k,
    {
        let prod = mul_scalars(x, &acc);
        acc = add_scalars(&coeffs[k - 1], &prod);
        proof {
            let longer = cs.subrange(k - 1, n as int);
            assert(longer.drop_first() =~= cs.subrange(k as int, n as int));
            assert(longer[0] == coeffs@[k - 1]@);
        }
        k = k - 1;
    }
    assert(cs.subrange(0, n as int) =~= cs);
    acc
}

// ---------------------------------------------------------------------------------------
// Partial signatures and their combination.

/// One node's signature share of a message.
#[derive(Debug, Clone, Copy)]
pub struct PartialSignature {
    pub signer_id: u64,
    pub signature: BlsSignature,
}

/// A signature combined from `threshold` partial signatures of the listed signers.
#[derive(Debug, Clone)]
pub struct ThresholdSignature {
    pub signers: Vec<u64>,
    pub signature: BlsSignature,
    pub threshold: usize,
}

impl ThresholdSignature {
    /// Whether enough signers took part.
    pub fn is_valid_threshold(&self) -> (ok: bool)
        ensures
            ok == (self.signers@.len() >= self.threshold),
    {
        self.signers.len() >= self.threshold
    }
}

/// The partial signature of `message` under the share `share`: the message's G1 point times
/// the share.
pub open spec fn partial_signature_of(message: Seq<u8>, share: Seq<u8>) -> Seq<u8> {
    g1_mul(g1_generator_mul(bls_scalar_input(message)), share)
}

/// The signature share recorded last for `message` from `signer` in `recorded`, a list of
/// (message, signer, signature) triples.
pub open spec fn partial_from(recorded: Seq<(Seq<u8>, u64, Seq<u8>)>, message: Seq<u8>, signer: u64) -> Option<Seq<u8>>
    decreases recorded.len(),
{
    if recorded.len() == 0 {
        None
    } else if recorded.last().0 == message && recorded.last().1 == signer {
        Some(recorded.last().2)
    } else {
        partial_from(recorded.drop_last(), message, signer)
    }
}

/// The signers a combination uses: going through `ids` in order, each one that has a recorded
/// share of `message` and was not taken yet, until `threshold` are taken.
pub open spec fn chosen_signers(ids: Seq<u64>, recorded: Seq<(Seq<u8>, u64, Seq<u8>)>, message: Seq<u8>, threshold: nat) -> Seq<u64>
    decreases ids.len(),
{
    if ids.len() == 0 {
        Seq::empty()
    } else {
        let taken = chosen_signers(ids.drop_last(), recorded, message, threshold);
        let id = ids.last();
        if taken.len() < threshold && partial_from(recorded, message, id) is Some && !taken.contains(id) {
            taken.push(id)
        } else {
            taken
        }
    }
}

/// The product of `xs[j]` over `j < k`, `j != i`, starting from one.
pub open spec fn lagrange_numerator(xs: Seq<Seq<u8>>, i: int, k: int) -> Seq<u8>
    decreases k,
{
    if k <= 0 {
        scalar_of_u64(1)
    } else if k - 1 == i {
        lagrange_numerator(xs, i, k - 1)
    } else {
        scalar_product(lagrange_numerator(xs, i, k - 1), xs[k - 1])
    }
}

/// The product of `xs[j] - xs[i]` over `j < k`, `j != i`, starting from one.
pub open spec fn lagrange_denominator(xs: Seq<Seq<u8>>, i: int, k: int) -> Seq<u8>
    decreases k,
{
    if k <= 0 {
        scalar_of_u64(1)
    } else if k - 1 == i {
        lagrange_denominator(xs, i, k - 1)
    } else {
        scalar_product(lagrange_denominator(xs, i, k - 1), scalar_difference(xs[k - 1], xs[i]))
    }
}

/// The Lagrange coefficient at zero of the `i`-th of the points `xs`; none when its
/// denominator has no inverse.
pub open spec fn lagrange_coefficient(xs: Seq<Seq<u8>>, i: int) -> Option<Seq<u8>> {
    match scalar_inverse(lagrange_denominator(xs, i, xs.len() as int)) {
        Some(inv) => Some(scalar_product(lagrange_numerator(xs, i, xs.len() as int), inv)),
        None => None,
    }
}

/// Whether the shares `sigmas` at the points `xs` can be combined: every share decodes and
/// every Lagrange coefficient exists.
pub open spec fn combinable(sigmas: Seq<Seq<u8>>, xs: Seq<Seq<u8>>) -> bool {
    &&& forall|i: int| 0 <= i < sigmas.len() ==> #[trigger] g1_point_decodes(sigmas[i])
    &&& forall|i: int| 0 <= i < xs.len() ==> #[trigger] lagrange_coefficient(xs, i) is Some
}

/// The sum of the first `k` shares, each times its Lagrange coefficient.
pub open spec fn combined(sigmas: Seq<Seq<u8>>, xs: Seq<Seq<u8>>, k: int) -> Seq<u8>
    decreases k,
{
    if k <= 1 {
        g1_mul(sigmas[0], lagrange_coefficient(xs, 0)->Some_0)
    } else {
        g1_sum(combined(sigmas, xs, k - 1), g1_mul(sigmas[k - 1], lagrange_coefficient(xs, k - 1)->Some_0))
    }
}

/// The view of a recorded partial signature.
pub open spec fn recorded_view(entry: (Vec<u8>, PartialSignature)) -> (Seq<u8>, u64, Seq<u8>) {
    (entry.0@, entry.1.signer_id, entry.1.signature.point@)
}

/// A node's threshold signer: its share, the group's public key, and the partial signatures it
/// has collected.
pub struct ThresholdSigner {
    secret: ThresholdSecretKey,
    public: ThresholdPublicKey,
    partials: Vec<(Vec<u8>, PartialSignature)>,
}

impl ThresholdSigner {
    /// The node's share.
    pub closed spec fn secret(&self) -> ThresholdSecretKey {
        self.secret
    }

    /// The group's public key.
    pub closed spec fn public(&self) -> ThresholdPublicKey {
        self.public
    }

    /// The collected partial signatures, as (message, signer, signature) triples, oldest first.
    pub closed spec fn recorded(&self) -> Seq<(Seq<u8>, u64, Seq<u8>)> {
        self.partials@.map_values(|e: (Vec<u8>, PartialSignature)| recorded_view(e))
    }

    /// Deals keys for `total_nodes` nodes of which `threshold` can sign together: the shares of
    /// a random polynomial of degree `threshold - 1`, and the public key of its constant term.
    /// The threshold must lie in `1..=total_nodes`.
    pub fn generate_keys(threshold: usize, total_nodes: usize) -> (r: Result<(ThresholdPublicKey, Vec<ThresholdSecretKey>), HotStuffError>)
        requires
            total_nodes < u64::MAX,
        ensures
            r is Err <==> threshold == 0 || threshold > total_nodes,
            r is Err ==> r->Err_0.kind() == ErrorKind::Consensus
                && r->Err_0.message() == "Invalid threshold parameters"@,
            r matches Ok((pk, sks)) ==> {
                &&& pk.threshold == threshold
                &&& pk.total_nodes == total_nodes
                &&& sks@.len() == total_nodes
                &&& exists|coeffs: Seq<Seq<u8>>| #[trigger] keys_of(coeffs, threshold as nat, pk.aggregate.point@, sks@)
            },
    {
        if threshold == 0 || threshold > total_nodes {
            return Err(HotStuffError::consensus("Invalid threshold parameters"));
        }
        let mut rng = thread_rng();
        let mut coeffs: Vec<[u8; 32]> = Vec::new();
        while coeffs.len() < threshold
            invariant
                coeffs@.len() <= threshold,
                forall|j: int| 0 <= j < coeffs@.len() ==> #[trigger] scalar_decodes(coeffs@[j]@),
            decreases threshold - coeffs@.len(),
        {
            let c = random_scalar(&mut rng);
            coeffs.push(c);
        }
        let ghost cs = coeffs@.map_values(|c: [u8; 32]| c@);
        let aggregate = BlsPublicKey { point: g2_generator_times(&coeffs[0]) };
        let one = u64_scalar(1);
        let mut secret_keys: Vec<ThresholdSecretKey> = Vec::new();
        let mut i: usize = 0;
        while i < total_nodes
            invariant
                i <= total_nodes < u64::MAX,
                coeffs@.len() == threshold >= 1,
                cs == coeffs@.map_values(|c: [u8; 32]| c@),
                forall|j: int| 0 <= j < coeffs@.len() ==> #[trigger] scalar_decodes(coeffs@[j]@),
                one@ == scalar_of_u64(1),
                scalar_decodes(one@),
                secret_keys@.len() == i,
                forall|k: int| 0 <= k < i ==> {
                    &&& #[trigger] secret_keys@[k].node_id == k
                    &&& secret_keys@[k].share@ == poly_eval(cs, node_point(k as u64))
                },
            decreases total_nodes - i,
        {
            let id = i as u64;
            let n = u64_scalar(id);
            let x = add_scalars(&n, &one);
            let share = evaluate(&coeffs, &x);
            assert(x@ == node_point(id));
            let ghost before = secret_keys@;
            secret_keys.push(ThresholdSecretKey { node_id: id, share });
            proof {
                assert forall|k: int| 0 <= k < i + 1 implies {
                    &&& #[trigger] secret_keys@[k].node_id == k
                    &&& secret_keys@[k].share@ == poly_eval(cs, node_point(k as u64))
                } by {
                    if k < i {
                        assert(secret_keys@[k] == before[k]);
                    } else {
                        assert(k as u64 == id);
                    }
                }
            }
            i = i + 1;
        }
        let pk = ThresholdPublicKey { threshold, total_nodes, aggregate };
        assert(keys_of(cs, threshold as nat, pk.aggregate.point@, secret_keys@));
        Ok((pk, secret_keys))
    }

    /// A signer with no partial signature collected yet.
    pub fn new(secret: ThresholdSecretKey, public: ThresholdPublicKey) -> (s: ThresholdSigner)
        ensures
            s.secret() == secret,
            s.public() == public,
            s.recorded() == Seq::<(Seq<u8>, u64, Seq<u8>)>::empty(),
    {
        let s = ThresholdSigner { secret, public, partials: Vec::new() };
        assert(s.recorded() =~= Seq::<(Seq<u8>, u64, Seq<u8>)>::empty());
        s
    }

    /// This node's partial signature of `message`; fails when the share is not a scalar.
    pub fn sign_partial(&self, message: &[u8]) -> (r: Result<PartialSignature, HotStuffError>)
        ensures
            r is Err <==> !scalar_decodes(self.secret().share@),
            r is Err ==> r->Err_0.kind() == ErrorKind::Consensus
                && r->Err_0.message() == "Invalid secret key share"@,
            r matches Ok(p) ==> {
                &&& p.signer_id == self.secret().node_id
                &&& p.signature.point@ == partial_signature_of(message@, self.secret().share@)
            },
    {
        if !decodes_scalar(&self.secret.share) {
            return Err(HotStuffError::consensus("Invalid secret key share"));
        }
        let wide = scalar_input(message);
        let point = g1_generator_times(&wide);
        let signature = g1_times(&point, &self.secret.share);
        Ok(PartialSignature { signer_id: self.secret.node_id, signature: BlsSignature { point: signature } })
    }

    /// Records a partial signature of `message`; a later one from the same signer for the same
    /// message takes the place of the earlier one when signatures are combined.
    pub fn add_partial_signature(&mut self, message: &[u8], partial: PartialSignature) -> (r: Result<(), HotStuffError>)
        ensures
            r is Ok,
            final(self).secret() == old(self).secret(),
            final(self).public() == old(self).public(),
            final(self).recorded() == old(self).recorded().push((message@, partial.signer_id, partial.signature.point@)),
    {
        let copy = crate::types::bytes::copy_bytes(message);
        self.partials.push((copy, partial));
        assert(self.recorded() =~= old(self).recorded().push((message@, partial.signer_id, partial.signature.point@)));
        Ok(())
    }

    /// The share of `message` recorded last from `signer`.
    fn lookup(&self, message: &[u8], signer: u64) -> (r: Option<[u8; 48]>)
        ensures
            match r {
                Some(p) => partial_from(self.recorded(), message@, signer) == Some(p@),
                None => partial_from(self.recorded(), message@, signer) is None,
            },
    {
        let ghost all = self.recorded();
        let mut r: Option<[u8; 48]> = None;
        let mut i: usize = 0;
        while i < self.partials.len()
            invariant
                i <= self.partials@.len(),
                all == self.recorded(),
                all.len() == self.partials@.len(),
                match r {
                    Some(p) => partial_from(all.subrange(0, i as int), message@, signer) == Some(p@),
                    None => partial_from(all.subrange(0, i as int), message@, signer) is None,
                },
            decreases self.partials@.len() - i,
        {
            proof {
                assert(all.subrange(0, i + 1).drop_last() =~= all.subrange(0, i as int));
                assert(all.subrange(0, i + 1).last() == recorded_view(self.partials@[i as int]));
            }
            if self.partials[i].1.signer_id == signer
                && crate::types::bytes::bytes_equal(self.partials[i].0.as_slice(), message) {
                r = Some(self.partials[i].1.signature.point);
            }
            i = i + 1;
        }
        assert(all.subrange(0, all.len() as int) =~= all);
        r
    }

    /// Combines the partial signatures of `message` from the signers listed in `signer_ids`:
    /// the first `threshold` listed signers that have a share recorded (each once), each share
    /// weighted by its Lagrange coefficient at zero. Too few such signers give `None`; a share
    /// that is not a point, or a coefficient that cannot be computed, is an error.
    pub fn try_combine(&self, message: &[u8], signer_ids: &[u64]) -> (r: Result<Option<ThresholdSignature>, HotStuffError>)
        ensures
            ({
                let t = self.public().threshold as nat;
                let chosen = chosen_signers(signer_ids@, self.recorded(), message@, t);
                let xs = chosen.map_values(|id: u64| node_point(id));
                let sigmas = chosen.map_values(|id: u64| partial_from(self.recorded(), message@, id)->Some_0);
                &&& t == 0 ==> r is Err && r->Err_0.kind() == ErrorKind::Consensus
                    && r->Err_0.message() == "Invalid threshold parameters"@
                &&& t > 0 && chosen.len() < t ==> (r matches Ok(None))
                &&& t > 0 && chosen.len() >= t && !combinable(sigmas, xs) ==> r is Err
                    && r->Err_0.kind() == ErrorKind::Consensus
                    && r->Err_0.message() == "Failed to combine partial signatures"@
                &&& t > 0 && chosen.len() >= t && combinable(sigmas, xs) ==> {
                    &&& r matches Ok(Some(sig))
                    &&& r->Ok_0->Some_0.signers@ == chosen
                    &&& r->Ok_0->Some_0.threshold == t
                    &&& r->Ok_0->Some_0.signature.point@ == combined(sigmas, xs, t as int)
                }
            }),
    {
        let t = self.public.threshold;
        if t == 0 {
            return Err(HotStuffError::consensus("Invalid threshold parameters"));
        }
        let ghost rec = self.recorded();
        let ghost m = message@;
        let mut chosen: Vec<u64> = Vec::new();
        let mut sigs: Vec<[u8; 48]> = Vec::new();
        let mut k: usize = 0;
        while k < signer_ids.len()
            invariant
                k <= signer_ids@.len(),
                rec == self.recorded(),
                m == message@,
                t == self.public().threshold,
                chosen@ == chosen_signers(signer_ids@.subrange(0, k as int), rec, m, t as nat),
                chosen@.len() <= t,
                sigs@.len() == chosen@.len(),
                forall|j: int| 0 <= j < chosen@.len() ==>
                    partial_from(rec, m, #[trigger] chosen@[j]) == Some(sigs@[j]@),
            decreases signer_ids@.len() - k,
        {
            let id = signer_ids[k];
            proof {
                assert(signer_ids@.subrange(0, k + 1).drop_last() =~= signer_ids@.subrange(0, k as int));
                assert(signer_ids@.subrange(0, k + 1).last() == id);
            }
            if chosen.len() < t && !contains_id(&chosen, id) {
                match self.lookup(message, id) {
                    Some(p) => {
                        chosen.push(id);
                        sigs.push(p);
                    },
                    None => {},
                }
            }
            k = k + 1;
        }
        assert(signer_ids@.subrange(0, signer_ids@.len() as int) =~= signer_ids@);
        if chosen.len() < t {
            return Ok(None);
        }
        let ghost sigv = chosen@.map_values(|id: u64| partial_from(rec, m, id)->Some_0);
        let ghost xsv = chosen@.map_values(|id: u64| node_point(id));
        let one = u64_scalar(1);
        let mut xs: Vec<[u8; 32]> = Vec::new();
        let mut i: usize = 0;
        while i < t
            invariant
                i <= t == chosen@.len(),
                one@ == scalar_of_u64(1),
                scalar_decodes(one@),
                xsv == chosen@.map_values(|id: u64| node_point(id)),
                xs@.len() == i,
                forall|j: int| 0 <= j < i ==> #[trigger] xs@[j]@ == xsv[j] && scalar_decodes(xs@[j]@),
            decreases t - i,
        {
            let n = u64_scalar(chosen[i]);
            let x = add_scalars(&n, &one);
            xs.push(x);
            i = i + 1;
        }
        let mut i: usize = 0;
        while i < t
            invariant
                i <= t == chosen@.len() == sigs@.len(),
                chosen@ == chosen_signers(signer_ids@, rec, m, t as nat),
                rec == self.recorded(),
                m == message@,
                t == self.public().threshold,
                sigv == chosen@.map_values(|id: u64| partial_from(rec, m, id)->Some_0),
                xsv == chosen@.map_values(|id: u64| node_point(id)),
                forall|j: int| 0 <= j < chosen@.len() ==>
                    partial_from(rec, m, #[trigger] chosen@[j]) == Some(sigs@[j]@),
                forall|j: int| 0 <= j < i ==> #[trigger] g1_point_decodes(sigv[j]),
            decreases t - i,
        {
            assert(sigv[i as int] == sigs@[i as int]@);
            if !decodes_g1(&sigs[i]) {
                assert(!combinable(sigv, xsv));
                return Err(HotStuffError::consensus("Failed to combine partial signatures"));
            }
            i = i + 1;
        }
        let mut acc: [u8; 48] = sigs[0];
        let mut i: usize = 0;
        while i < t
            invariant
                i <= t == chosen@.len() == sigs@.len() == xs@.len(),
                t > 0,
                chosen@ == chosen_signers(signer_ids@, rec, m, t as nat),
                rec == self.recorded(),
                m == message@,
                t == self.public().threshold,
                sigv == chosen@.map_values(|id: u64| partial_from(rec, m, id)->Some_0),
                xsv == chosen@.map_values(|id: u64| node_point(id)),
                forall|j: int| 0 <= j < chosen@.len() ==>
                    partial_from(rec, m, #[trigger] chosen@[j]) == Some(sigs@[j]@),
                forall|j: int| 0 <= j < t ==> #[trigger] g1_point_decodes(sigv[j]),
                forall|j: int| 0 <= j < t ==> #[trigger] xs@[j]@ == xsv[j] && scalar_decodes(xs@[j]@),
                one@ == scalar_of_u64(1),
                scalar_decodes(one@),
                forall|j: int| 0 <= j < i ==> #[trigger] lagrange_coefficient(xsv, j) is Some,
                i > 0 ==> acc@ == combined(sigv, xsv, i as int) && g1_point_decodes(acc@),
            decreases t - i,
        {
            let mut num = one;
            let mut den = one;
            let mut j: usize = 0;
            while j < t
                invariant
                    j <= t == xs@.len(),
                    i < t,
                    xsv.len() == t,
                    forall|q: int| 0 <= q < t ==> #[trigger] xs@[q]@ == xsv[q] && scalar_decodes(xs@[q]@),
                    num@ == lagrange_numerator(xsv, i as int, j as int),
                    den@ == lagrange_denominator(xsv, i as int, j as int),
                    scalar_decodes(num@),
                    scalar_decodes(den@),
                decreases t - j,
            {
                if j != i {
                    num = mul_scalars(&num, &xs[j]);
                    let diff = sub_scalars(&xs[j], &xs[i]);
                    den = mul_scalars(&den, &diff);
                }
                j = j + 1;
            }
            let inv = match invert_scalar(&den) {
                Some(v) => v,
                None => {
                    assert(!combinable(sigv, xsv)) by {
                        assert(lagrange_coefficient(xsv, i as int) is None);
                    }
                    return Err(HotStuffError::consensus("Failed to combine partial signatures"));
                },
            };
            let lambda = mul_scalars(&num, &inv);
            assert(lagrange_coefficient(xsv, i as int) == Some(lambda@));
            assert(sigv[i as int] == sigs@[i as int]@);
            let term = g1_times(&sigs[i], &lambda);
            if i == 0 {
                acc = term;
            } else {
                acc = g1_add(&acc, &term);
            }
            i = i + 1;
        }
        proof {
            assert(combinable(sigv, xsv));
        }
        Ok(Some(ThresholdSignature { signers: chosen, signature: BlsSignature { point: acc }, threshold: t }))
    }

    /// Verifies a combined signature of `message`: enough signers took part and the signature
    /// verifies under the group's public key.
    pub fn verify_threshold(&self, message: &[u8], signature: &ThresholdSignature) -> (r: Result<bool, HotStuffError>)
        ensures
            r is Ok,
            r->Ok_0 == (signature.signers@.len() >= signature.threshold
                && bls_signature_valid(message@, signature.signature.point@, self.public().aggregate.point@)),
    {
        if !signature.is_valid_threshold() {
            return Ok(false);
        }
        Ok(verify_bls_signature(message, &signature.signature, &self.public.aggregate))
    }
}

/// Whether `id` is in `ids`.
fn contains_id(ids: &Vec<u64>, id: u64) -> (r: bool)
    ensures
        r == ids@.contains(id),
{
    let mut i: usize = 0;
    while i < ids.len()
        invariant
            i <= ids@.len(),
            forall|j: int| 0 <= j < i ==> ids@[j] != id,
        decreases ids@.len() - i,
    {
        if ids[i] == id {
            assert(ids@[i as int] == id);
            return true;
        }
        i = i + 1;
    }
    false
}

} // verus!
