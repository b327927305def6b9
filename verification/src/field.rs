//! Fixed-width multi-limb field-element containers, the affine and
//! projective point types built from them, and the byte-level interchange
//! format shared with the external curve-arithmetic engine.

use vstd::prelude::*;
use vstd::bytes::{spec_u64_to_le_bytes, u64_to_le_bytes};

verus! {

/// Number of 64-bit limbs of a base-field or scalar-field element.
pub const LIMBS: usize = 4;

/// Errors surfaced by admission and normalization.
#[derive(Debug, PartialEq, Eq, Structural, Copy, Clone)]
pub enum Error {
    /// More limbs were supplied than the fixed width supports.
    LengthOverflow,
    /// A zero field element was about to be inverted.
    NonInvertible,
}

/// The unsigned integer value of a little-endian limb sequence.
pub open spec fn limbs_value(s: Seq<u64>) -> nat
    decreases s.len(),
{
    if s.len() == 0 {
        0
    } else {
        (s[0] + limbs_value(s.drop_first()) * 0x1_0000_0000_0000_0000) as nat
    }
}

/// The unsigned integer value of a little-endian byte sequence.
pub open spec fn bytes_value(s: Seq<u8>) -> nat
    decreases s.len(),
{
    if s.len() == 0 {
        0
    } else {
        (s[0] + bytes_value(s.drop_first()) * 0x100) as nat
    }
}

/// A sequence of `n` zero limbs.
pub open spec fn zero_limbs(n: nat) -> Seq<u64> {
    Seq::new(n, |i: int| 0u64)
}

/// A sequence of `n` limbs representing the integer 1.
pub open spec fn one_limbs(n: nat) -> Seq<u64> {
    Seq::new(n, |i: int| if i == 0 { 1u64 } else { 0u64 })
}

/// The little-endian byte serialization of a limb sequence: limb 0's bytes
/// first, each limb least-significant-byte first.
pub open spec fn le_bytes_of(s: Seq<u64>) -> Seq<u8>
    decreases s.len(),
{
    if s.len() == 0 {
        Seq::empty()
    } else {
        spec_u64_to_le_bytes(s[0]) + le_bytes_of(s.drop_first())
    }
}

/// One field element as `N` unsigned 64-bit limbs, least-significant limb
/// first, representing an integer in `[0, 2^(64 N))`.  This is a pure bit
/// container: no reduction modulo a field order is ever applied, and
/// equality is exact limb-wise comparison, so two non-canonical encodings of
/// the same field element need not be equal.
#[derive(Debug, PartialEq, Copy, Clone)]
pub struct Field<const N: usize> {
    pub s: [u64; N],
}

impl<const N: usize> Field<N> {
    /// The all-zero element.
    pub fn zero() -> (r: Self)
        ensures
            r.s@ == zero_limbs(N as nat),
    {
        let s = vstd::array::array_fill_for_copy_types::<u64, N>(0u64);
        proof {
            assert(s@ =~= zero_limbs(N as nat));
        }
        Field { s }
    }

    /// The element whose least-significant limb is 1 and whose other limbs
    /// are 0.
    pub fn one() -> (r: Self)
        requires
            N >= 1,
        ensures
            r.s@ == one_limbs(N as nat),
    {
        let mut s = vstd::array::array_fill_for_copy_types::<u64, N>(0u64);
        s[0] = 1;
        proof {
            assert(s@ =~= one_limbs(N as nat));
        }
        Field { s }
    }

    /// Admission of externally sourced limb data: a slice shorter than `N`
    /// is padded with zero limbs on the high end, a slice of length `N` is
    /// copied exactly, and a longer slice is rejected with `LengthOverflow`.
    pub fn get_fixed_limbs(val: &[u64]) -> (r: Result<[u64; N], Error>)
        ensures
            r is Err <==> val@.len() > N,
            r is Err ==> r->Err_0 == Error::LengthOverflow,
            r is Ok ==> r->Ok_0@ == val@ + zero_limbs((N - val@.len()) as nat),
    {
        if val.len() > N {
            return Err(Error::LengthOverflow);
        }
        let mut padded = vstd::array::array_fill_for_copy_types::<u64, N>(0u64);
        let mut i: usize = 0;
        while i < val.len()
            invariant
                i <= val@.len() <= N,
                padded@.len() == N,
                forall|j: int| 0 <= j < i ==> padded@[j] == val@[j],
                forall|j: int| i <= j < N ==> padded@[j] == 0u64,
            decreases val@.len() - i,
        {
            padded[i] = val[i];
            i = i + 1;
        }
        proof {
            assert(padded@ =~= val@ + zero_limbs((N - val@.len()) as nat));
        }
        Ok(padded)
    }

    /// Serializes the limbs to exactly `8 * N` bytes, limb 0 first, each
    /// limb little-endian.  This is the interchange format used when the
    /// engine's native types are built from bytes rather than limbs.
    pub fn to_bytes_le(&self) -> (r: Vec<u8>)
        ensures
            r@ == le_bytes_of(self.s@),
            r@.len() == 8 * N,
    {
        let mut out: Vec<u8> = Vec::new();
        let mut i: usize = 0;
        while i < N
            invariant
                i <= N,
                out@ == le_bytes_of(self.s@.take(i as int)),
                out@.len() == 8 * i,
            decreases N - i,
        {
            let mut limb_bytes = u64_to_le_bytes(self.s[i]);
            out.append(&mut limb_bytes);
            proof {
                lemma_le_bytes_of_push(self.s@.take(i as int), self.s@[i as int]);
                assert(self.s@.take(i as int).push(self.s@[i as int]) =~= self.s@.take(
                    i + 1,
                ));
            }
            i = i + 1;
        }
        proof {
            assert(self.s@.take(N as int) =~= self.s@);
        }
        out
    }
}

impl<const N: usize> Default for Field<N> {
    /// The default element is the all-zero element.
    fn default() -> (r: Self)
        ensures
            r.s@ == zero_limbs(N as nat),
    {
        Field::zero()
    }
}

/// Serializing one more limb appends that limb's eight little-endian bytes.
pub proof fn lemma_le_bytes_of_push(s: Seq<u64>, x: u64)
    ensures
        le_bytes_of(s.push(x)) == le_bytes_of(s) + spec_u64_to_le_bytes(x),
    decreases s.len(),
{
    vstd::bytes::lemma_auto_spec_u64_to_from_le_bytes();
    if s.len() == 0 {
        assert(s.push(x).drop_first() =~= Seq::<u64>::empty());
        assert(s.push(x)[0] == x);
        assert(le_bytes_of(s.push(x)) =~= spec_u64_to_le_bytes(x) + le_bytes_of(
            Seq::<u64>::empty(),
        ));
        assert(le_bytes_of(s.push(x)) =~= spec_u64_to_le_bytes(x));
        assert(le_bytes_of(s) + spec_u64_to_le_bytes(x) =~= spec_u64_to_le_bytes(x));
    } else {
        lemma_le_bytes_of_push(s.drop_first(), x);
        assert(s.push(x).drop_first() =~= s.drop_first().push(x));
        assert(le_bytes_of(s.push(x)) =~= spec_u64_to_le_bytes(s[0]) + le_bytes_of(
            s.drop_first().push(x),
        ));
        assert(spec_u64_to_le_bytes(s[0]) + (le_bytes_of(s.drop_first())
            + spec_u64_to_le_bytes(x)) =~= le_bytes_of(s) + spec_u64_to_le_bytes(x));
    }
}

/// All-zero limbs denote the integer 0.
pub proof fn lemma_limbs_value_zero(n: nat)
    ensures
        limbs_value(zero_limbs(n)) == 0,
    decreases n,
{
    if n > 0 {
        lemma_limbs_value_zero((n - 1) as nat);
        assert(zero_limbs(n).drop_first() =~= zero_limbs((n - 1) as nat));
    }
}

/// The limbs of the multiplicative identity denote the integer 1.
pub proof fn lemma_limbs_value_one(n: nat)
    requires
        n >= 1,
    ensures
        limbs_value(one_limbs(n)) == 1,
{
    lemma_limbs_value_zero((n - 1) as nat);
    assert(one_limbs(n).drop_first() =~= zero_limbs((n - 1) as nat));
}

/// Little-endian place value is injective: equal-length limb sequences
/// denoting the same integer are the same sequence.
pub proof fn lemma_limbs_value_injective(a: Seq<u64>, b: Seq<u64>)
    requires
        a.len() == b.len(),
        limbs_value(a) == limbs_value(b),
    ensures
        a =~= b,
    decreases a.len(),
{
    if a.len() > 0 {
        let base: int = 0x1_0000_0000_0000_0000;
        vstd::arithmetic::div_mod::lemma_fundamental_div_mod_converse(
            limbs_value(a) as int,
            base,
            limbs_value(a.drop_first()) as int,
            a[0] as int,
        );
        vstd::arithmetic::div_mod::lemma_fundamental_div_mod_converse(
            limbs_value(b) as int,
            base,
            limbs_value(b.drop_first()) as int,
            b[0] as int,
        );
        assert(a[0] == b[0]);
        lemma_limbs_value_injective(a.drop_first(), b.drop_first());
        assert forall|i: int| 0 <= i < a.len() implies a[i] == b[i] by {
            if i > 0 {
                assert(a[i] == a.drop_first()[i - 1]);
                assert(b[i] == b.drop_first()[i - 1]);
                assert(a.drop_first()[i - 1] == b.drop_first()[i - 1]);
            }
        }
        assert(a =~= b);
    }
}

/// 256 raised to the power `n`: the place value of byte `n` of a
/// little-endian byte sequence.
pub open spec fn pow256(n: nat) -> nat
    decreases n,
{
    if n == 0 {
        1
    } else {
        256 * pow256((n - 1) as nat)
    }
}

/// Concatenated byte sequences denote `value(a) + 256^|a| * value(b)`.
pub proof fn lemma_bytes_value_concat(a: Seq<u8>, b: Seq<u8>)
    ensures
        bytes_value(a + b) == bytes_value(a) + pow256(a.len()) * bytes_value(b),
    decreases a.len(),
{
    if a.len() == 0 {
        assert(a + b =~= b);
        assert(pow256(a.len()) == 1);
        assert(bytes_value(a + b) == bytes_value(a) + pow256(a.len()) * bytes_value(b));
    } else {
        lemma_bytes_value_concat(a.drop_first(), b);
        assert((a + b).drop_first() =~= a.drop_first() + b);
        assert((a + b)[0] == a[0]);
        let d = bytes_value(a.drop_first());
        let p = pow256((a.len() - 1) as nat);
        let v = bytes_value(b);
        assert(bytes_value(a + b) == a[0] + (d + p * v) * 0x100);
        assert(bytes_value(a) == a[0] + d * 0x100);
        assert((d + p * v) * 0x100 == d * 0x100 + (0x100 * p) * v) by (nonlinear_arith);
        assert(pow256(a.len()) == 0x100 * p);
        assert(pow256(a.len()) * v == (0x100 * p) * v);
        assert(bytes_value(a + b) == a[0] + d * 0x100 + (0x100 * p) * v);
        assert(bytes_value(a + b) == bytes_value(a) + pow256(a.len()) * v);
    }
}

/// The eight little-endian bytes of a limb denote the limb's value.
pub proof fn lemma_bytes_value_u64(x: u64)
    ensures
        bytes_value(spec_u64_to_le_bytes(x)) == x,
{
    vstd::bytes::lemma_auto_spec_u64_to_from_le_bytes();
    vstd::bytes::spec_u64_to_le_bytes_to_open(x);
    let s = spec_u64_to_le_bytes(x);
    assert(x & 0xff < 0x100 && (x >> 8) & 0xff < 0x100 && (x >> 16) & 0xff < 0x100 && (x
        >> 24) & 0xff < 0x100 && (x >> 32) & 0xff < 0x100 && (x >> 40) & 0xff < 0x100 && (x
        >> 48) & 0xff < 0x100 && (x >> 56) & 0xff < 0x100) by (bit_vector);
    assert(s[0] == (x & 0xff) as u8 && s[1] == ((x >> 8) & 0xff) as u8 && s[2] == ((x
        >> 16) & 0xff) as u8 && s[3] == ((x >> 24) & 0xff) as u8 && s[4] == ((x >> 32)
        & 0xff) as u8 && s[5] == ((x >> 40) & 0xff) as u8 && s[6] == ((x >> 48) & 0xff) as u8
        && s[7] == ((x >> 56) & 0xff) as u8);
    assert(bytes_value(s) == s[0] + 0x100 * (s[1] + 0x100 * (s[2] + 0x100 * (s[3] + 0x100
        * (s[4] + 0x100 * (s[5] + 0x100 * (s[6] + 0x100 * (s[7] + 0x100 * 0)))))))) by {
        reveal_with_fuel(bytes_value, 10);
        assert(s.drop_first().drop_first().drop_first().drop_first().drop_first().drop_first().drop_first().drop_first()
            =~= Seq::<u8>::empty());
    }
    assert(x == (x & 0xff) + 0x100 * (((x >> 8) & 0xff) + 0x100 * (((x >> 16) & 0xff)
        + 0x100 * (((x >> 24) & 0xff) + 0x100 * (((x >> 32) & 0xff) + 0x100 * (((x >> 40)
        & 0xff) + 0x100 * (((x >> 48) & 0xff) + 0x100 * (((x >> 56) & 0xff) + 0x100
        * 0)))))))) by (bit_vector);
}

/// The byte serialization of a limb sequence denotes the same integer as
/// the limb sequence itself.
pub proof fn lemma_bytes_value_of_le_bytes(s: Seq<u64>)
    ensures
        bytes_value(le_bytes_of(s)) == limbs_value(s),
    decreases s.len(),
{
    if s.len() > 0 {
        lemma_bytes_value_of_le_bytes(s.drop_first());
        vstd::bytes::lemma_auto_spec_u64_to_from_le_bytes();
        lemma_bytes_value_concat(spec_u64_to_le_bytes(s[0]), le_bytes_of(s.drop_first()));
        lemma_bytes_value_u64(s[0]);
        assert(pow256(8) == 0x1_0000_0000_0000_0000) by {
            reveal_with_fuel(pow256, 9);
        }
        assert(le_bytes_of(s) == spec_u64_to_le_bytes(s[0]) + le_bytes_of(s.drop_first()));
        assert(bytes_value(le_bytes_of(s)) == s[0] + 0x1_0000_0000_0000_0000 * limbs_value(
            s.drop_first(),
        ));
        assert(limbs_value(s) == s[0] + limbs_value(s.drop_first())
            * 0x1_0000_0000_0000_0000);
    }
}

/// The base field: coordinates of curve points.
pub type BaseField = Field<LIMBS>;

impl BaseField {
    /// The limbs of this base-field element, least-significant first.
    pub fn base_limbs(&self) -> (r: [u64; LIMBS])
        ensures
            r@ == self.s@,
    {
        self.s
    }

    /// Builds a base-field element from externally sourced limbs, padding
    /// or rejecting as `get_fixed_limbs` does.
    pub fn from_limbs(value: &[u64]) -> (r: Result<BaseField, Error>)
        ensures
            r is Err <==> value@.len() > LIMBS,
            r is Err ==> r->Err_0 == Error::LengthOverflow,
            r is Ok ==> r->Ok_0.s@ == value@ + zero_limbs((LIMBS - value@.len()) as nat),
    {
        match Self::get_fixed_limbs(value) {
            Ok(s) => Ok(BaseField { s }),
            Err(e) => Err(e),
        }
    }
}

/// The scalar field: multipliers for multi-scalar multiplication.  The bit
/// layout is that of the base field; the distinction is semantic.
pub type ScalarField = Field<LIMBS>;

impl ScalarField {
    /// The limbs of this scalar-field element, least-significant first.
    pub fn scalar_limbs(&self) -> (r: [u64; LIMBS])
        ensures
            r@ == self.s@,
    {
        self.s
    }
}

/// A curve point as a direct `(x, y)` coordinate pair over the base field.
/// Callers must only construct points that lie on the configured curve and
/// are not the point at infinity; the default `(0, 0)` is an uninitialized
/// sentinel, not a valid curve point.
#[derive(Debug, PartialEq, Copy, Clone)]
pub struct AffinePoint {
    pub x: BaseField,
    pub y: BaseField,
}

impl Default for AffinePoint {
    /// The `(0, 0)` sentinel.
    fn default() -> (r: Self)
        ensures
            r.x.s@ == zero_limbs(LIMBS as nat),
            r.y.s@ == zero_limbs(LIMBS as nat),
    {
        AffinePoint { x: BaseField::zero(), y: BaseField::zero() }
    }
}

impl AffinePoint {
    /// Builds a point from externally sourced limb slices, applying the
    /// admission rules to `x` and `y` independently.
    pub fn from_limbs(x: &[u64], y: &[u64]) -> (r: Result<Self, Error>)
        ensures
            r is Err <==> x@.len() > LIMBS || y@.len() > LIMBS,
            r is Err ==> r->Err_0 == Error::LengthOverflow,
            r is Ok ==> r->Ok_0.x.s@ == x@ + zero_limbs((LIMBS - x@.len()) as nat)
                && r->Ok_0.y.s@ == y@ + zero_limbs((LIMBS - y@.len()) as nat),
    {
        let xs = match Field::get_fixed_limbs(x) {
            Ok(s) => s,
            Err(e) => {
                return Err(e);
            },
        };
        let ys = match Field::get_fixed_limbs(y) {
            Ok(s) => s,
            Err(e) => {
                return Err(e);
            },
        };
        Ok(AffinePoint { x: BaseField { s: xs }, y: BaseField { s: ys } })
    }
}

/// A curve point as a triple `(x, y, z)` over the base field with Jacobian
/// scaling: when `z != 0` it stands for the affine point
/// `(x / z^2, y / z^3)`; `z == 0` would be the point at infinity, which this
/// library never constructs.
#[derive(Debug, PartialEq, Copy, Clone)]
pub struct ProjectivePoint {
    pub x: BaseField,
    pub y: BaseField,
    pub z: BaseField,
}

impl Default for ProjectivePoint {
    /// The `(0, 0, 0)` sentinel.
    fn default() -> (r: Self)
        ensures
            r.x.s@ == zero_limbs(LIMBS as nat),
            r.y.s@ == zero_limbs(LIMBS as nat),
            r.z.s@ == zero_limbs(LIMBS as nat),
    {
        ProjectivePoint {
            x: BaseField::zero(),
            y: BaseField::zero(),
            z: BaseField::zero(),
        }
    }
}

impl ProjectivePoint {
    /// Returns `(x, y)` verbatim, without dividing by `z`.  This is only
    /// the affine form of the point when `z` is already the multiplicative
    /// identity, as established by `from_projective`; on any other point it
    /// is a structurally valid but geometrically wrong pair, so callers
    /// must normalize first.
    pub fn affine_form(&self) -> (r: AffinePoint)
        ensures
            r.x == self.x,
            r.y == self.y,
    {
        AffinePoint { x: self.x, y: self.y }
    }
}

/// A scalar-field element used as an MSM multiplier.  Whether its value is
/// reduced modulo the scalar-field order is a caller contract enforced at
/// the engine conversion boundary, not by this type.
#[derive(Debug, PartialEq, Copy, Clone)]
pub struct Scalar {
    pub s: ScalarField,
}

impl Scalar {
    /// The scalar 1.
    pub fn one() -> (r: Self)
        ensures
            r.s.s@ == one_limbs(LIMBS as nat),
    {
        Scalar { s: ScalarField::one() }
    }

    /// The scalar 0.
    pub fn zero() -> (r: Self)
        ensures
            r.s.s@ == zero_limbs(LIMBS as nat),
    {
        Scalar { s: ScalarField::zero() }
    }
}

} // verus!
