//! The trusted boundary to the external curve-arithmetic engine and its
//! random-number sources.  Everything here is a declaration of an outside
//! type, a name for what an outside call returns, or a thin wrapper whose
//! contract states what the engine's source shows; nothing here is verified.

use vstd::prelude::*;
use crate::field::{BaseField, ScalarField, Scalar, limbs_value, bytes_value};
use ark_std::UniformRand;
use ark_ff::PrimeField;
use rand::SeedableRng;

verus! {

#[verifier::external_type_specification]
#[verifier::external_body]
pub struct ExBigInteger256(ark_ff::BigInteger256);

#[verifier::external_type_specification]
#[verifier::external_body]
#[verifier::reject_recursive_types(P)]
pub struct ExFp256<P>(ark_ff::Fp256<P>);

#[verifier::external_type_specification]
#[verifier::external_body]
pub struct ExFqParameters(ark_bn254::FqParameters);

#[verifier::external_type_specification]
#[verifier::external_body]
pub struct ExFrParameters(ark_bn254::FrParameters);

/// One native projective (Jacobian) point of the engine, held opaquely: the
/// engine's point structs are generic over a curve-parameters trait that
/// cannot be declared here, so the value sits in a field Verus never reads.
#[derive(Debug)]
#[verifier::external_body]
pub struct EnginePoint {
    pub p: ark_bn254::G1Projective,
}

/// One native affine point of the engine, held opaquely for the same reason
/// as `EnginePoint`.
#[derive(Debug)]
#[verifier::external_body]
pub struct EngineAffine {
    pub p: ark_bn254::G1Affine,
}

#[verifier::external_type_specification]
#[verifier::external_body]
pub struct ExStdRng(rand::rngs::StdRng);

#[verifier::external_type_specification]
#[verifier::external_body]
pub struct ExThreadRng(rand::rngs::ThreadRng);

/// The order of the base field of the configured curve.
pub open spec fn fq_modulus() -> nat {
    0x30644e72e131a029b85045b68181585d97816a916871ca8d3c208c16d87cfd47nat
}

/// The order of the scalar field of the configured curve.
pub open spec fn fr_modulus() -> nat {
    0x30644e72e131a029b85045b68181585d2833e84879b9709143e1f593f0000001nat
}

/// `w` is the multiplicative inverse of `a` in the base field.
pub open spec fn is_fq_inverse(a: nat, w: nat) -> bool {
    w < fq_modulus() && (a * w) % fq_modulus() == 1
}

/// The limbs a `BigInteger256` holds, least-significant first.
pub uninterp spec fn bigint_limbs(b: ark_ff::BigInteger256) -> Seq<u64>;

/// The integer value of a native base-field element's canonical
/// representation: what `PrimeField::into_repr` returns for it.
pub uninterp spec fn fq_value(f: ark_bn254::Fq) -> nat;

/// The integer value of a native scalar-field element's canonical
/// representation: what `PrimeField::into_repr` returns for it.
pub uninterp spec fn fr_value(f: ark_bn254::Fr) -> nat;

/// Whether a native base-field element's internal representation is
/// reduced below the field order.  Every element this module's wrappers
/// return has this property; `Fq::new` preserves whatever representation
/// it is handed, so an element built from out-of-range limbs lacks it, and
/// the engine's arithmetic misbehaves (or, for inversion, fails to
/// terminate) on such an element.
pub uninterp spec fn fq_canonical(f: ark_bn254::Fq) -> bool;

/// Whether a native scalar-field element's internal representation is
/// reduced below the field order.  The engine's samplers only produce such
/// elements; `Fr::new` preserves whatever representation it is handed, so
/// an element built from out-of-range limbs lacks this property.
pub uninterp spec fn fr_canonical(f: ark_bn254::Fr) -> bool;

/// The raw limbs a native scalar-field element holds, as `Fr::new` stores
/// them: its internal representation, not its canonical value.
pub uninterp spec fn fr_raw_limbs(f: ark_bn254::Fr) -> Seq<u64>;

/// The value (as `fq_value`) of the `x` coordinate a native projective
/// point holds.
pub uninterp spec fn g1_proj_x(p: EnginePoint) -> nat;

/// The value (as `fq_value`) of the `y` coordinate a native projective
/// point holds.
pub uninterp spec fn g1_proj_y(p: EnginePoint) -> nat;

/// The value (as `fq_value`) of the `z` coordinate a native projective
/// point holds.
pub uninterp spec fn g1_proj_z(p: EnginePoint) -> nat;

/// Whether all three coordinates of a native projective point have reduced
/// internal representations.  Points the engine produces have this
/// property; one assembled by hand from out-of-range coordinate
/// representations does not.
pub uninterp spec fn g1_proj_canonical(p: EnginePoint) -> bool;

/// The value (as `fq_value`) of the `x` coordinate a native affine point
/// holds.
pub uninterp spec fn g1_affine_x(p: EngineAffine) -> nat;

/// The value (as `fq_value`) of the `y` coordinate a native affine point
/// holds.
pub uninterp spec fn g1_affine_y(p: EngineAffine) -> nat;

/// Whether a native affine point carries the point-at-infinity flag.
pub uninterp spec fn g1_affine_infinity(p: EngineAffine) -> bool;

/// The deterministic generator state that a given seed produces.
pub uninterp spec fn rng_from_seed(seed: u64) -> rand::rngs::StdRng;

/// The point that one draw of `G1Projective::rand` returns on a given
/// deterministic generator state.  The generator is a pure value and the
/// sampler consults nothing else, so the draw is a function of the state
/// alone.
pub uninterp spec fn rand_point_of(rng: rand::rngs::StdRng) -> EnginePoint;

/// The generator state left behind by that same draw.
pub uninterp spec fn rand_point_next(rng: rand::rngs::StdRng) -> rand::rngs::StdRng;

/// The element that one draw of `Fr::rand` returns on a given
/// deterministic generator state; a function of the state alone, as above.
pub uninterp spec fn rand_fr_of(rng: rand::rngs::StdRng) -> ark_bn254::Fr;

/// The generator state left behind by that same draw.
pub uninterp spec fn rand_fr_next(rng: rand::rngs::StdRng) -> rand::rngs::StdRng;

impl BaseField {
    /// Relies on `ark_ff::BigInteger256::new`: it stores the given limb
    /// array unchanged, least-significant limb first.
    #[verifier::external_body]
    pub fn to_ark(&self) -> (r: ark_ff::BigInteger256)
        ensures
            bigint_limbs(r) == self.s@,
    {
        ark_ff::BigInteger256::new(self.s)
    }

    /// Relies on `ark_ff::BigInteger256` being a public wrapper over its
    /// limb array, least-significant limb first.
    #[verifier::external_body]
    pub fn from_ark_base(ark: ark_ff::BigInteger256) -> (r: BaseField)
        ensures
            r.s@ == bigint_limbs(ark),
    {
        BaseField { s: ark.0 }
    }
}

impl ScalarField {
    /// Relies on `ark_ff::BigInteger256` being a public wrapper over its
    /// limb array, least-significant limb first.
    #[verifier::external_body]
    pub fn from_ark_scalar(ark: ark_ff::BigInteger256) -> (r: ScalarField)
        ensures
            r.s@ == bigint_limbs(ark),
    {
        ScalarField { s: ark.0 }
    }
}

impl Scalar {
    /// Relies on `Fr::into_repr`: it returns the element's canonical
    /// representation, which is below the field order whenever the
    /// element's own representation is reduced.  (On an element built from
    /// out-of-range limbs the Montgomery reduction omits the final
    /// subtraction, so no unconditional bound holds.)
    #[verifier::external_body]
    pub fn from_scalar(v: &ark_bn254::Fr) -> (r: Scalar)
        ensures
            limbs_value(r.s.s@) == fr_value(*v),
            fr_canonical(*v) ==> limbs_value(r.s.s@) < fr_modulus(),
    {
        Scalar { s: ScalarField { s: v.into_repr().0 } }
    }

    /// Relies on `Fr::new`: it stores the given representation unchanged as
    /// the element's internal limbs.  No reduction is performed here, and
    /// the engine leaves an out-of-range value's behaviour undefined, so a
    /// value below the field order is required of the caller.
    #[verifier::external_body]
    pub fn to_ark_mod_p(&self) -> (r: ark_bn254::Fr)
        requires
            limbs_value(self.s.s@) < fr_modulus(),
        ensures
            fr_raw_limbs(r) == self.s.s@,
    {
        ark_bn254::Fr::new(ark_ff::BigInteger256::new(self.s.s))
    }
}

/// Relies on `Fq::from_repr`: it returns `Some` exactly when the
/// representation is below the field order, and then the element with that
/// canonical value (built by a reducing multiplication, so reduced).
#[verifier::external_body]
pub(crate) fn fq_from_base(b: &BaseField) -> (r: Option<ark_bn254::Fq>)
    ensures
        r is Some <==> limbs_value(b.s@) < fq_modulus(),
        r is Some ==> fq_value(r->0) == limbs_value(b.s@) && fq_canonical(r->0),
{
    ark_bn254::Fq::from_repr(ark_ff::BigInteger256::new(b.s))
}

/// Relies on `Fq::into_repr`: on an element whose own representation is
/// reduced, it returns the canonical representation, below the field
/// order.  (The Montgomery reduction it performs has no final subtraction,
/// so on an element built from out-of-range limbs the bound would fail;
/// such elements are excluded here.)
#[verifier::external_body]
pub(crate) fn fq_to_base(f: &ark_bn254::Fq) -> (r: BaseField)
    requires
        fq_canonical(*f),
    ensures
        limbs_value(r.s@) == fq_value(*f),
        limbs_value(r.s@) < fq_modulus(),
{
    BaseField { s: f.into_repr().0 }
}

/// Relies on `Fq::from_le_bytes_mod_order`: it interprets the bytes as a
/// little-endian integer and reduces it modulo the field order; the
/// element is assembled by the engine's own reducing arithmetic.
#[verifier::external_body]
pub(crate) fn fq_from_le_bytes(b: &Vec<u8>) -> (r: ark_bn254::Fq)
    ensures
        fq_value(r) == bytes_value(b@) % fq_modulus(),
        fq_canonical(r),
{
    ark_bn254::Fq::from_le_bytes_mod_order(b.as_slice())
}

/// Relies on `ark_ff::Field::inverse` for `Fq`: on an element whose own
/// representation is reduced it returns `None` exactly on the zero
/// element, and otherwise the multiplicative inverse, reduced.  (On an
/// element built from out-of-range limbs the extended-Euclid loop need not
/// terminate, so such elements are excluded here.)
#[verifier::external_body]
pub(crate) fn fq_inverse(f: &ark_bn254::Fq) -> (r: Option<ark_bn254::Fq>)
    requires
        fq_canonical(*f),
    ensures
        r is None <==> fq_value(*f) == 0,
        r is Some ==> is_fq_inverse(fq_value(*f), fq_value(r->0)) && fq_canonical(r->0),
{
    ark_ff::Field::inverse(f)
}

/// Relies on `Fq`'s field multiplication: on elements whose own
/// representations are reduced, the product modulo the field order,
/// reduced by the final conditional subtraction.  (Out-of-range
/// representations overflow that single subtraction, so they are excluded
/// here.)
#[verifier::external_body]
pub(crate) fn fq_mul(a: &ark_bn254::Fq, b: &ark_bn254::Fq) -> (r: ark_bn254::Fq)
    requires
        fq_canonical(*a),
        fq_canonical(*b),
    ensures
        fq_value(r) == (fq_value(*a) * fq_value(*b)) % fq_modulus(),
        fq_value(r) < fq_modulus(),
        fq_canonical(r),
{
    *a * *b
}

/// Relies on the public `x` field of a native projective point.
#[verifier::external_body]
pub(crate) fn proj_x(p: &EnginePoint) -> (r: ark_bn254::Fq)
    ensures
        fq_value(r) == g1_proj_x(*p),
        g1_proj_canonical(*p) ==> fq_canonical(r),
{
    p.p.x
}

/// Relies on the public `y` field of a native projective point.
#[verifier::external_body]
pub(crate) fn proj_y(p: &EnginePoint) -> (r: ark_bn254::Fq)
    ensures
        fq_value(r) == g1_proj_y(*p),
        g1_proj_canonical(*p) ==> fq_canonical(r),
{
    p.p.y
}

/// Relies on the public `z` field of a native projective point.
#[verifier::external_body]
pub(crate) fn proj_z(p: &EnginePoint) -> (r: ark_bn254::Fq)
    ensures
        fq_value(r) == g1_proj_z(*p),
        g1_proj_canonical(*p) ==> fq_canonical(r),
{
    p.p.z
}

/// Relies on `GroupAffine::new`: it stores the two coordinates and the
/// infinity flag unchanged.
#[verifier::external_body]
pub(crate) fn g1_affine_new(x: ark_bn254::Fq, y: ark_bn254::Fq) -> (r: EngineAffine)
    ensures
        g1_affine_x(r) == fq_value(x),
        g1_affine_y(r) == fq_value(y),
        !g1_affine_infinity(r),
{
    EngineAffine { p: ark_bn254::G1Affine::new(x, y, false) }
}

/// Relies on `AffineCurve::into_projective`: a finite affine point becomes
/// the projective point `(x, y, 1)`.
#[verifier::external_body]
pub(crate) fn affine_to_projective(a: &EngineAffine) -> (r: EnginePoint)
    ensures
        !g1_affine_infinity(*a) ==> g1_proj_x(r) == g1_affine_x(*a) && g1_proj_y(r)
            == g1_affine_y(*a) && g1_proj_z(r) == 1,
{
    EnginePoint { p: ark_ec::AffineCurve::into_projective(&a.p) }
}

/// Relies on `G1Projective::rand`: a random curve point drawn from the
/// given generator, which it advances; both the point and the new state
/// are functions of the old state alone.  The sampler retries until a
/// point on the curve is found and scales it by the cofactor, which is one
/// for this group, so it never yields the point at infinity: the result's
/// `z` is nonzero.  Its coordinates come out of the engine's own reducing
/// arithmetic, so they are canonical.
#[verifier::external_body]
pub(crate) fn rand_projective_seeded(rng: rand::rngs::StdRng) -> (r: (
    EnginePoint,
    rand::rngs::StdRng,
))
    ensures
        r.0 == rand_point_of(rng),
        r.1 == rand_point_next(rng),
        g1_proj_z(r.0) != 0,
        g1_proj_canonical(r.0),
{
    let mut rng = rng;
    let p = ark_bn254::G1Projective::rand(&mut rng);
    (EnginePoint { p }, rng)
}

/// Relies on `G1Projective::rand`: a random curve point drawn from the
/// process-level generator, which it advances.  As with the seeded draw,
/// the sampler never yields the point at infinity and its coordinates are
/// canonical; nothing else is promised of the outcome.
#[verifier::external_body]
pub(crate) fn rand_projective_entropy(rng: rand::rngs::ThreadRng) -> (r: (
    EnginePoint,
    rand::rngs::ThreadRng,
))
    ensures
        g1_proj_z(r.0) != 0,
        g1_proj_canonical(r.0),
{
    let mut rng = rng;
    let p = ark_bn254::G1Projective::rand(&mut rng);
    (EnginePoint { p }, rng)
}

/// Relies on `Fr::rand`: a random scalar-field element drawn from the
/// given generator, which it advances; both the element and the new state
/// are functions of the old state alone.  The sampler retries until the
/// drawn representation is below the field order, so the result is
/// canonical.
#[verifier::external_body]
pub(crate) fn rand_fr_seeded(rng: rand::rngs::StdRng) -> (r: (
    ark_bn254::Fr,
    rand::rngs::StdRng,
))
    ensures
        r.0 == rand_fr_of(rng),
        r.1 == rand_fr_next(rng),
        fr_canonical(r.0),
{
    let mut rng = rng;
    let v = ark_bn254::Fr::rand(&mut rng);
    (v, rng)
}

/// Relies on `Fr::rand`: a random scalar-field element drawn from the
/// process-level generator, which it advances.  As with the seeded draw,
/// the result's representation is canonical; nothing else is promised of
/// the outcome.
#[verifier::external_body]
pub(crate) fn rand_fr_entropy(rng: rand::rngs::ThreadRng) -> (r: (
    ark_bn254::Fr,
    rand::rngs::ThreadRng,
))
    ensures
        fr_canonical(r.0),
{
    let mut rng = rng;
    let v = ark_bn254::Fr::rand(&mut rng);
    (v, rng)
}

/// Relies on `StdRng::seed_from_u64`: the generator state is a
/// deterministic function of the seed alone.
#[verifier::external_body]
pub(crate) fn seed_rng(seed: u64) -> (r: rand::rngs::StdRng)
    ensures
        r == rng_from_seed(seed),
{
    rand::rngs::StdRng::seed_from_u64(seed)
}

/// Relies on `rand::thread_rng`: a non-reproducible process-level
/// generator.  Nothing is promised of its state.
#[verifier::external_body]
pub(crate) fn entropy_rng() -> (r: rand::rngs::ThreadRng) {
    rand::thread_rng()
}

} // verus!
