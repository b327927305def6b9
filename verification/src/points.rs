//! Deterministic or entropy-backed batch generation of random points and
//! scalars for benchmarking the engine's multi-scalar multiplication.

use vstd::prelude::*;
use crate::field::{
    AffinePoint, ProjectivePoint, Scalar, lemma_limbs_value_injective, limbs_value,
};
use crate::convert::lemma_fq_inverse_unique;
use crate::engine::{
    EnginePoint, entropy_rng, fq_modulus, fr_canonical, fr_modulus, g1_proj_canonical,
    g1_proj_x, g1_proj_y, g1_proj_z, is_fq_inverse, rand_fr_entropy, rand_fr_next,
    rand_fr_of, rand_fr_seeded, rand_point_next, rand_point_of, rand_projective_entropy,
    rand_projective_seeded, rng_from_seed, seed_rng,
};
use crate::engine::fr_value;

verus! {

/// A source of randomness for sample generation: either a deterministic,
/// reproducible generator derived from a seed, or the non-reproducible
/// process-level generator.
pub enum SampleRng {
    Seeded(rand::rngs::StdRng),
    Entropy(rand::rngs::ThreadRng),
}

/// The deterministic generator state after `n` point draws from `rng`.
pub open spec fn point_rng_after(rng: rand::rngs::StdRng, n: nat) -> rand::rngs::StdRng
    decreases n,
{
    if n == 0 {
        rng
    } else {
        rand_point_next(point_rng_after(rng, (n - 1) as nat))
    }
}

/// The deterministic generator state after `n` scalar draws from `rng`.
pub open spec fn fr_rng_after(rng: rand::rngs::StdRng, n: nat) -> rand::rngs::StdRng
    decreases n,
{
    if n == 0 {
        rng
    } else {
        rand_fr_next(fr_rng_after(rng, (n - 1) as nat))
    }
}

/// Selects the random source: a seed gives a deterministic, reproducible
/// generator that is a function of the seed alone, no seed gives the
/// process-level entropy source.
pub fn get_rng(seed: Option<u64>) -> (r: SampleRng)
    ensures
        seed matches Some(s) ==> r == SampleRng::Seeded(rng_from_seed(s)),
        seed is None ==> r is Entropy,
{
    match seed {
        Some(s) => SampleRng::Seeded(seed_rng(s)),
        None => SampleRng::Entropy(entropy_rng()),
    }
}

/// Draws one native projective point, advancing whichever generator the
/// source holds; either sampler yields a finite point with canonical
/// coordinates, so `z` is nonzero.  On the seeded source both the point
/// and the advanced source are functions of the incoming state.
fn sample_projective(rng: SampleRng) -> (r: (EnginePoint, SampleRng))
    ensures
        g1_proj_z(r.0) != 0,
        g1_proj_canonical(r.0),
        rng matches SampleRng::Seeded(st) ==> r.0 == rand_point_of(st) && r.1
            == SampleRng::Seeded(rand_point_next(st)),
{
    match rng {
        SampleRng::Seeded(r) => {
            let (p, r2) = rand_projective_seeded(r);
            (p, SampleRng::Seeded(r2))
        },
        SampleRng::Entropy(r) => {
            let (p, r2) = rand_projective_entropy(r);
            (p, SampleRng::Entropy(r2))
        },
    }
}

/// Draws one native scalar-field element, advancing whichever generator
/// the source holds; either sampler yields a canonical element.  On the
/// seeded source both the element and the advanced source are functions of
/// the incoming state.
fn sample_fr(rng: SampleRng) -> (r: (ark_bn254::Fr, SampleRng))
    ensures
        fr_canonical(r.0),
        rng matches SampleRng::Seeded(st) ==> r.0 == rand_fr_of(st) && r.1
            == SampleRng::Seeded(rand_fr_next(st)),
{
    match rng {
        SampleRng::Seeded(r) => {
            let (v, r2) = rand_fr_seeded(r);
            (v, SampleRng::Seeded(r2))
        },
        SampleRng::Entropy(r) => {
            let (v, r2) = rand_fr_entropy(r);
            (v, SampleRng::Entropy(r2))
        },
    }
}

/// The affine pair `a` holds the normalized coordinates of the engine
/// point `e`: canonical limbs denoting `x * (z^-1)^2` and `y * (z^-1)^3`
/// for the unique inverse of `e`'s nonzero `z`.
pub open spec fn is_normalized_form(a: AffinePoint, e: EnginePoint) -> bool {
    exists|zi: nat|
        {
            &&& #[trigger] is_fq_inverse(g1_proj_z(e), zi)
            &&& limbs_value(a.x.s@) == (g1_proj_x(e) * ((zi * zi) % fq_modulus()))
                % fq_modulus()
            &&& limbs_value(a.y.s@) == (g1_proj_y(e) * ((((zi * zi) % fq_modulus()) * zi)
                % fq_modulus())) % fq_modulus()
        }
}

/// Produces `count` affine points by sampling `count` random native
/// projective points and normalizing each; output order is sampling order.
/// Every returned coordinate is canonical (below the base-field order).
/// Because the sampler never yields the point at infinity, normalization
/// cannot fail here.  On the seeded source, element `i` is exactly the
/// normalized form of the `i`-th draw, which is a function of the seed
/// state alone.
pub fn generate_projective_points(count: usize, rng: SampleRng) -> (r: Vec<AffinePoint>)
    ensures
        r@.len() == count,
        forall|j: int|
            0 <= j < count ==> limbs_value(#[trigger] r@[j].x.s@) < fq_modulus()
                && limbs_value(r@[j].y.s@) < fq_modulus(),
        rng matches SampleRng::Seeded(st) ==> forall|j: int|
            0 <= j < count ==> is_normalized_form(
                #[trigger] r@[j],
                rand_point_of(point_rng_after(st, j as nat)),
            ),
{
    let ghost rng0 = rng;
    let mut cur = rng;
    let mut out: Vec<AffinePoint> = Vec::new();
    let mut i: usize = 0;
    while i < count
        invariant
            i <= count,
            out@.len() == i,
            forall|j: int|
                0 <= j < i ==> limbs_value(#[trigger] out@[j].x.s@) < fq_modulus()
                    && limbs_value(out@[j].y.s@) < fq_modulus(),
            rng0 matches SampleRng::Seeded(st) ==> cur == SampleRng::Seeded(
                point_rng_after(st, i as nat),
            ),
            rng0 matches SampleRng::Seeded(st) ==> forall|j: int|
                0 <= j < i ==> is_normalized_form(
                    #[trigger] out@[j],
                    rand_point_of(point_rng_after(st, j as nat)),
                ),
        decreases count - i,
    {
        let (p, next) = sample_projective(cur);
        cur = next;
        let normalized = match ProjectivePoint::from_projective(p) {
            Ok(n) => n,
            Err(_) => {
                return vstd::pervasive::unreached();
            },
        };
        let af = normalized.affine_form();
        proof {
            assert(is_normalized_form(af, p));
        }
        out.push(af);
        i = i + 1;
    }
    out
}

/// Produces `count` scalars by sampling native scalar-field elements and
/// exposing their canonical limbs; output order is sampling order, and
/// every returned scalar is below the scalar-field order.  On the seeded
/// source, element `i` carries exactly the value of the `i`-th draw, which
/// is a function of the seed state alone.
pub fn generate_scalars(count: usize, rng: SampleRng) -> (r: Vec<Scalar>)
    ensures
        r@.len() == count,
        forall|j: int| 0 <= j < count ==> limbs_value(#[trigger] r@[j].s.s@) < fr_modulus(),
        rng matches SampleRng::Seeded(st) ==> forall|j: int|
            0 <= j < count ==> limbs_value(#[trigger] r@[j].s.s@) == fr_value(
                rand_fr_of(fr_rng_after(st, j as nat)),
            ),
{
    let ghost rng0 = rng;
    let mut cur = rng;
    let mut out: Vec<Scalar> = Vec::new();
    let mut i: usize = 0;
    while i < count
        invariant
            i <= count,
            out@.len() == i,
            forall|j: int| 0 <= j < i ==> limbs_value(#[trigger] out@[j].s.s@) < fr_modulus(),
            rng0 matches SampleRng::Seeded(st) ==> cur == SampleRng::Seeded(
                fr_rng_after(st, i as nat),
            ),
            rng0 matches SampleRng::Seeded(st) ==> forall|j: int|
                0 <= j < i ==> limbs_value(#[trigger] out@[j].s.s@) == fr_value(
                    rand_fr_of(fr_rng_after(st, j as nat)),
                ),
        decreases count - i,
    {
        let (v, next) = sample_fr(cur);
        cur = next;
        out.push(Scalar::from_scalar(&v));
        i = i + 1;
    }
    out
}

/// Reproducibility of seeded point generation: any two outputs that
/// satisfy `generate_projective_points`' contract for the same seeded
/// state are the same sequence of points, because each element is pinned
/// to the corresponding draw up to the uniqueness of the field inverse.
pub proof fn lemma_seeded_points_reproducible(
    st: rand::rngs::StdRng,
    count: nat,
    out1: Seq<AffinePoint>,
    out2: Seq<AffinePoint>,
)
    requires
        out1.len() == count,
        out2.len() == count,
        forall|j: int|
            0 <= j < count ==> is_normalized_form(
                #[trigger] out1[j],
                rand_point_of(point_rng_after(st, j as nat)),
            ),
        forall|j: int|
            0 <= j < count ==> is_normalized_form(
                #[trigger] out2[j],
                rand_point_of(point_rng_after(st, j as nat)),
            ),
    ensures
        out1 =~= out2,
{
    assert forall|j: int| 0 <= j < count implies out1[j] == out2[j] by {
        let e = rand_point_of(point_rng_after(st, j as nat));
        let a1 = out1[j];
        let a2 = out2[j];
        let zi1 = choose|zi: nat|
            {
                &&& #[trigger] is_fq_inverse(g1_proj_z(e), zi)
                &&& limbs_value(a1.x.s@) == (g1_proj_x(e) * ((zi * zi) % fq_modulus()))
                    % fq_modulus()
                &&& limbs_value(a1.y.s@) == (g1_proj_y(e) * ((((zi * zi) % fq_modulus())
                    * zi) % fq_modulus())) % fq_modulus()
            };
        let zi2 = choose|zi: nat|
            {
                &&& #[trigger] is_fq_inverse(g1_proj_z(e), zi)
                &&& limbs_value(a2.x.s@) == (g1_proj_x(e) * ((zi * zi) % fq_modulus()))
                    % fq_modulus()
                &&& limbs_value(a2.y.s@) == (g1_proj_y(e) * ((((zi * zi) % fq_modulus())
                    * zi) % fq_modulus())) % fq_modulus()
            };
        lemma_fq_inverse_unique(g1_proj_z(e), zi1, zi2);
        lemma_limbs_value_injective(a1.x.s@, a2.x.s@);
        lemma_limbs_value_injective(a1.y.s@, a2.y.s@);
        assert(a1.x.s == a2.x.s);
        assert(a1.y.s == a2.y.s);
    }
}

/// Reproducibility of seeded scalar generation: any two outputs that
/// satisfy `generate_scalars`' contract for the same seeded state are the
/// same sequence of scalars, because place value is injective.
pub proof fn lemma_seeded_scalars_reproducible(
    st: rand::rngs::StdRng,
    count: nat,
    out1: Seq<Scalar>,
    out2: Seq<Scalar>,
)
    requires
        out1.len() == count,
        out2.len() == count,
        forall|j: int|
            0 <= j < count ==> limbs_value(#[trigger] out1[j].s.s@) == fr_value(
                rand_fr_of(fr_rng_after(st, j as nat)),
            ),
        forall|j: int|
            0 <= j < count ==> limbs_value(#[trigger] out2[j].s.s@) == fr_value(
                rand_fr_of(fr_rng_after(st, j as nat)),
            ),
    ensures
        out1 =~= out2,
{
    assert forall|j: int| 0 <= j < count implies out1[j] == out2[j] by {
        lemma_limbs_value_injective(out1[j].s.s@, out2[j].s.s@);
        assert(out1[j].s.s == out2[j].s.s);
    }
}

} // verus!
