//! Verified conversion and normalization logic between the library's limb
//! representation and the engine's native points: projective-to-affine
//! normalization, and the two independent reconstruction routes into native
//! form.

use vstd::prelude::*;
use crate::field::{
    AffinePoint, BaseField, Error, LIMBS, ProjectivePoint, lemma_bytes_value_of_le_bytes,
    limbs_value, one_limbs,
};
use crate::engine::{
    EngineAffine, EnginePoint, affine_to_projective, fq_from_base, fq_from_le_bytes,
    fq_inverse, fq_modulus, fq_mul, fq_to_base, g1_affine_infinity, g1_affine_new,
    g1_affine_x, g1_affine_y, g1_proj_canonical, g1_proj_x, g1_proj_y, g1_proj_z,
    is_fq_inverse, proj_x, proj_y, proj_z,
};

verus! {

impl ProjectivePoint {
    /// Normalizes a native projective point: with `z` nonzero, the result
    /// holds `x * (z^-1)^2` and `y * (z^-1)^3` as canonical limbs and `z`
    /// equal to the multiplicative identity, so `affine_form` is its affine
    /// form.  A zero `z` (the point at infinity) is rejected with
    /// `NonInvertible`, never silently mapped to a finite point.  The point
    /// must come from the engine with reduced coordinate representations:
    /// on a hand-assembled point with out-of-range representations the
    /// engine's inversion is not even guaranteed to terminate.
    pub fn from_projective(ark: EnginePoint) -> (r: Result<ProjectivePoint, Error>)
        requires
            g1_proj_canonical(ark),
        ensures
            r is Err <==> g1_proj_z(ark) == 0,
            r is Err ==> r->Err_0 == Error::NonInvertible,
            r is Ok ==> ({
                let pt = r->Ok_0;
                &&& pt.z.s@ == one_limbs(LIMBS as nat)
                &&& limbs_value(pt.x.s@) < fq_modulus()
                &&& limbs_value(pt.y.s@) < fq_modulus()
                &&& exists|zi: nat|
                    {
                        &&& #[trigger] is_fq_inverse(g1_proj_z(ark), zi)
                        &&& limbs_value(pt.x.s@) == (g1_proj_x(ark) * ((zi * zi)
                            % fq_modulus())) % fq_modulus()
                        &&& limbs_value(pt.y.s@) == (g1_proj_y(ark) * ((((zi * zi)
                            % fq_modulus()) * zi) % fq_modulus())) % fq_modulus()
                    }
            }),
    {
        let zf = proj_z(&ark);
        let z_inv = match fq_inverse(&zf) {
            Some(v) => v,
            None => {
                return Err(Error::NonInvertible);
            },
        };
        let z_invsq = fq_mul(&z_inv, &z_inv);
        let z_invq3 = fq_mul(&z_invsq, &z_inv);
        let xf = proj_x(&ark);
        let yf = proj_y(&ark);
        let x = fq_to_base(&fq_mul(&xf, &z_invsq));
        let y = fq_to_base(&fq_mul(&yf, &z_invq3));
        let result = ProjectivePoint { x, y, z: BaseField::one() };
        proof {
            let zi = crate::engine::fq_value(z_inv);
            assert(is_fq_inverse(g1_proj_z(ark), zi));
            assert(limbs_value(result.x.s@) == (g1_proj_x(ark) * ((zi * zi) % fq_modulus()))
                % fq_modulus());
            assert(limbs_value(result.y.s@) == (g1_proj_y(ark) * ((((zi * zi) % fq_modulus())
                * zi) % fq_modulus())) % fq_modulus());
        }
        Ok(result)
    }

    /// Reconstructs a native projective point from this value's limbs via
    /// `to_ark_affine`; the result has `z = 1`.  Fails with `NonInvertible`
    /// exactly when `z`'s value is zero in the base field.
    pub fn to_ark(&self) -> (r: Result<EnginePoint, Error>)
        ensures
            r is Err <==> limbs_value(self.z.s@) % fq_modulus() == 0,
            r is Err ==> r->Err_0 == Error::NonInvertible,
            r is Ok ==> ({
                &&& g1_proj_z(r->Ok_0) == 1
                &&& exists|zi: nat|
                    {
                        &&& #[trigger] is_fq_inverse(limbs_value(self.z.s@) % fq_modulus(), zi)
                        &&& g1_proj_x(r->Ok_0) == ((limbs_value(self.x.s@) % fq_modulus())
                            * zi) % fq_modulus()
                        &&& g1_proj_y(r->Ok_0) == ((limbs_value(self.y.s@) % fq_modulus())
                            * zi) % fq_modulus()
                    }
            }),
    {
        match self.to_ark_affine() {
            Ok(a) => Ok(affine_to_projective(&a)),
            Err(e) => Err(e),
        }
    }

    /// Reconstructs a native affine point by re-parsing `x`, `y` and `z`
    /// from their little-endian bytes in the base field and multiplying `x`
    /// and `y` by the inverse of `z`.  Fails with `NonInvertible` exactly
    /// when `z`'s bytes decode to zero in the base field.
    pub fn to_ark_affine(&self) -> (r: Result<EngineAffine, Error>)
        ensures
            r is Err <==> limbs_value(self.z.s@) % fq_modulus() == 0,
            r is Err ==> r->Err_0 == Error::NonInvertible,
            r is Ok ==> ({
                let a = r->Ok_0;
                &&& !g1_affine_infinity(a)
                &&& exists|zi: nat|
                    {
                        &&& #[trigger] is_fq_inverse(limbs_value(self.z.s@) % fq_modulus(), zi)
                        &&& g1_affine_x(a) == ((limbs_value(self.x.s@) % fq_modulus()) * zi)
                            % fq_modulus()
                        &&& g1_affine_y(a) == ((limbs_value(self.y.s@) % fq_modulus()) * zi)
                            % fq_modulus()
                    }
            }),
    {
        let xb = self.x.to_bytes_le();
        let yb = self.y.to_bytes_le();
        let zb = self.z.to_bytes_le();
        proof {
            lemma_bytes_value_of_le_bytes(self.x.s@);
            lemma_bytes_value_of_le_bytes(self.y.s@);
            lemma_bytes_value_of_le_bytes(self.z.s@);
        }
        let proj_x_field = fq_from_le_bytes(&xb);
        let proj_y_field = fq_from_le_bytes(&yb);
        let proj_z_field = fq_from_le_bytes(&zb);
        let inverse_z = match fq_inverse(&proj_z_field) {
            Some(v) => v,
            None => {
                return Err(Error::NonInvertible);
            },
        };
        let aff_x = fq_mul(&proj_x_field, &inverse_z);
        let aff_y = fq_mul(&proj_y_field, &inverse_z);
        let result = g1_affine_new(aff_x, aff_y);
        proof {
            let zi = crate::engine::fq_value(inverse_z);
            assert(is_fq_inverse(limbs_value(self.z.s@) % fq_modulus(), zi));
        }
        Ok(result)
    }
}

/// A base-field value has at most one multiplicative inverse below the
/// field order.
pub proof fn lemma_fq_inverse_unique(a: nat, w1: nat, w2: nat)
    requires
        is_fq_inverse(a, w1),
        is_fq_inverse(a, w2),
    ensures
        w1 == w2,
{
    let p = fq_modulus() as int;
    let ai = a as int;
    let x = w1 as int;
    let y = w2 as int;
    vstd::arithmetic::div_mod::lemma_small_mod(w1, fq_modulus());
    vstd::arithmetic::div_mod::lemma_small_mod(w2, fq_modulus());
    assert((ai * y) % p == 1);
    assert((ai * x) % p == 1);
    assert(x * ((ai * y) % p) % p == (x * (ai * y)) % p) by {
        vstd::arithmetic::div_mod::lemma_mul_mod_noop_right(x, ai * y, p);
    }
    assert(x * (ai * y) == (ai * x) * y) by {
        vstd::arithmetic::mul::lemma_mul_is_associative(x, ai, y);
        vstd::arithmetic::mul::lemma_mul_is_associative(ai, x, y);
    }
    assert(((ai * x) % p) * y % p == (ai * x) * y % p) by {
        vstd::arithmetic::div_mod::lemma_mul_mod_noop_left(ai * x, y, p);
    }
    assert(x == (x * (ai * y)) % p);
    assert(y == ((ai * x) * y) % p);
}

/// Agreement of the two conversion routes after proper normalization: on a
/// point whose `z` is the multiplicative identity and whose coordinates are
/// canonical — exactly what `from_projective` returns — any native affine
/// point satisfying `to_ark_affine`'s success contract holds the very limbs
/// that `affine_form` returns verbatim.
pub proof fn lemma_normalized_routes_agree(pt: ProjectivePoint, a: EngineAffine)
    requires
        pt.z.s@ == one_limbs(LIMBS as nat),
        limbs_value(pt.x.s@) < fq_modulus(),
        limbs_value(pt.y.s@) < fq_modulus(),
        exists|zi: nat|
            {
                &&& #[trigger] is_fq_inverse(limbs_value(pt.z.s@) % fq_modulus(), zi)
                &&& g1_affine_x(a) == ((limbs_value(pt.x.s@) % fq_modulus()) * zi)
                    % fq_modulus()
                &&& g1_affine_y(a) == ((limbs_value(pt.y.s@) % fq_modulus()) * zi)
                    % fq_modulus()
            },
    ensures
        g1_affine_x(a) == limbs_value(pt.x.s@),
        g1_affine_y(a) == limbs_value(pt.y.s@),
{
    crate::field::lemma_limbs_value_one(LIMBS as nat);
    let zi = choose|zi: nat|
        {
            &&& #[trigger] is_fq_inverse(limbs_value(pt.z.s@) % fq_modulus(), zi)
            &&& g1_affine_x(a) == ((limbs_value(pt.x.s@) % fq_modulus()) * zi)
                % fq_modulus()
            &&& g1_affine_y(a) == ((limbs_value(pt.y.s@) % fq_modulus()) * zi)
                % fq_modulus()
        };
    vstd::arithmetic::div_mod::lemma_small_mod(1nat, fq_modulus());
    assert((1nat * zi) % fq_modulus() == 1);
    assert(1nat * zi == zi);
    vstd::arithmetic::div_mod::lemma_small_mod(zi, fq_modulus());
    assert(zi == 1);
    vstd::arithmetic::div_mod::lemma_small_mod(limbs_value(pt.x.s@), fq_modulus());
    vstd::arithmetic::div_mod::lemma_small_mod(limbs_value(pt.y.s@), fq_modulus());
    assert(limbs_value(pt.x.s@) * 1nat == limbs_value(pt.x.s@));
    assert(limbs_value(pt.y.s@) * 1nat == limbs_value(pt.y.s@));
}

impl AffinePoint {
    /// Builds the native affine point with exactly these `x` and `y`
    /// values.  Both coordinates must already be canonical, that is below
    /// the base-field order; this is the caller contract the admission
    /// boundary documents.
    pub fn to_ark_repr(&self) -> (r: EngineAffine)
        requires
            limbs_value(self.x.s@) < fq_modulus(),
            limbs_value(self.y.s@) < fq_modulus(),
        ensures
            g1_affine_x(r) == limbs_value(self.x.s@),
            g1_affine_y(r) == limbs_value(self.y.s@),
            !g1_affine_infinity(r),
    {
        let xf = match fq_from_base(&self.x) {
            Some(v) => v,
            None => {
                return vstd::pervasive::unreached();
            },
        };
        let yf = match fq_from_base(&self.y) {
            Some(v) => v,
            None => {
                return vstd::pervasive::unreached();
            },
        };
        g1_affine_new(xf, yf)
    }
}

} // verus!
