//! Unsigned 256-bit integers, held as four little-endian 64-bit limbs.
use alloy_primitives::U256;
use vstd::arithmetic::div_mod::lemma_fundamental_div_mod_converse;
use vstd::prelude::*;

verus! {

/// One limb's range: every limb is below this base.
pub open spec fn limb_base() -> int {
    0x1_0000_0000_0000_0000
}

/// The number of values a 256-bit integer can take.
pub open spec fn word_modulus() -> int {
    limb_base() * limb_base() * limb_base() * limb_base()
}

/// An unsigned 256-bit integer.
#[derive(Clone, Copy, Debug)]
pub struct Uint256 {
    pub limbs: [u64; 4],
}

impl Uint256 {
    /// The number this value stands for.
    pub open spec fn value(self) -> nat {
        (self.limbs@[0] + limb_base() * (self.limbs@[1] + limb_base() * (self.limbs@[2]
            + limb_base() * self.limbs@[3]))) as nat
    }

    /// Builds a value from four 64-bit limbs, the least significant first.
    pub fn from_limbs(limbs: [u64; 4]) -> (r: Self)
        ensures
            r.limbs@ == limbs@,
            r.value() == limbs@[0] + limb_base() * (limbs@[1] + limb_base() * (limbs@[2]
                + limb_base() * limbs@[3])),
    {
        Uint256 { limbs }
    }

    /// The four 64-bit limbs, the least significant first.
    pub fn as_limbs(&self) -> (r: [u64; 4])
        ensures
            r@ == self.limbs@,
    {
        self.limbs
    }

    pub fn zero() -> (r: Self)
        ensures
            r == Self::spec_zero(),
            r.value() == 0,
    {
        Uint256 { limbs: [0, 0, 0, 0] }
    }

    pub fn from_u64(x: u64) -> (r: Self)
        ensures
            r.value() == x,
    {
        Uint256 { limbs: [x, 0, 0, 0] }
    }

    pub fn from_u128(x: u128) -> (r: Self)
        ensures
            r.value() == x,
    {
        let lo = x as u64;
        let hi = (x >> 64u32) as u64;
        assert(lo == x % 0x1_0000_0000_0000_0000 && hi == x / 0x1_0000_0000_0000_0000) by (bit_vector)
            requires
                lo == x as u64,
                hi == (x >> 64u32) as u64,
        ;
        Uint256 { limbs: [lo, hi, 0, 0] }
    }

    pub fn is_zero(&self) -> (r: bool)
        ensures
            r == (self.value() == 0),
    {
        proof {
            lemma_limbs_determine_value(*self, Self::spec_zero());
        }
        self.limbs[0] == 0 && self.limbs[1] == 0 && self.limbs[2] == 0 && self.limbs[3] == 0
    }

    pub open spec fn spec_zero() -> Self {
        Uint256 { limbs: [0, 0, 0, 0] }
    }

    /// Whether two values stand for the same number.
    pub fn same_as(&self, other: &Self) -> (r: bool)
        ensures
            r == (self.value() == other.value()),
    {
        proof {
            lemma_limbs_determine_value(*self, *other);
        }
        self.limbs[0] == other.limbs[0] && self.limbs[1] == other.limbs[1] && self.limbs[2]
            == other.limbs[2] && self.limbs[3] == other.limbs[3]
    }
}

impl PartialEq for Uint256 {
    fn eq(&self, other: &Self) -> (r: bool) {
        self.same_as(other)
    }
}

impl vstd::std_specs::cmp::PartialEqSpecImpl for Uint256 {
    open spec fn obeys_eq_spec() -> bool {
        true
    }

    open spec fn eq_spec(&self, other: &Self) -> bool {
        self.value() == other.value()
    }
}

impl Eq for Uint256 {

}

/// A value and its limbs determine each other: equal numbers have equal limbs.
pub proof fn lemma_limbs_determine_value(a: Uint256, b: Uint256)
    ensures
        a.value() == b.value() <==> a.limbs@ == b.limbs@,
{
    let base = limb_base();
    if a.value() == b.value() {
        let ra2 = a.limbs@[2] + base * a.limbs@[3];
        let rb2 = b.limbs@[2] + base * b.limbs@[3];
        let ra1 = a.limbs@[1] + base * ra2;
        let rb1 = b.limbs@[1] + base * rb2;
        assert(ra2 >= 0 && rb2 >= 0) by (nonlinear_arith)
            requires
                ra2 == a.limbs@[2] + base * a.limbs@[3],
                rb2 == b.limbs@[2] + base * b.limbs@[3],
                base > 0,
                a.limbs@[2] >= 0,
                a.limbs@[3] >= 0,
                b.limbs@[2] >= 0,
                b.limbs@[3] >= 0,
        ;
        assert(ra1 >= 0 && rb1 >= 0) by (nonlinear_arith)
            requires
                ra1 == a.limbs@[1] + base * ra2,
                rb1 == b.limbs@[1] + base * rb2,
                base > 0,
                ra2 >= 0,
                rb2 >= 0,
                a.limbs@[1] >= 0,
                b.limbs@[1] >= 0,
        ;
        let v = a.value() as int;
        lemma_fundamental_div_mod_converse(v, base, ra1, a.limbs@[0] as int);
        lemma_fundamental_div_mod_converse(v, base, rb1, b.limbs@[0] as int);
        lemma_fundamental_div_mod_converse(ra1, base, ra2, a.limbs@[1] as int);
        lemma_fundamental_div_mod_converse(ra1, base, rb2, b.limbs@[1] as int);
        lemma_fundamental_div_mod_converse(ra2, base, a.limbs@[3] as int, a.limbs@[2] as int);
        lemma_fundamental_div_mod_converse(ra2, base, b.limbs@[3] as int, b.limbs@[2] as int);
        assert(a.limbs@ =~= b.limbs@);
    }
}

/// Every value is below the word modulus.
pub proof fn lemma_value_in_range(a: Uint256)
    ensures
        a.value() < word_modulus(),
{
    let base = limb_base();
    let (x0, x1, x2, x3) = (
        a.limbs@[0] as int,
        a.limbs@[1] as int,
        a.limbs@[2] as int,
        a.limbs@[3] as int,
    );
    assert(x2 + base * x3 < base * base) by (nonlinear_arith)
        requires
            0 <= x2 < base,
            0 <= x3 < base,
    ;
    assert(x1 + base * (x2 + base * x3) < base * base * base) by (nonlinear_arith)
        requires
            0 <= x1 < base,
            0 <= x2 + base * x3 < base * base,
    ;
    assert(x0 + base * (x1 + base * (x2 + base * x3)) < base * base * base * base)
        by (nonlinear_arith)
        requires
            0 <= x0 < base,
            0 <= x1 + base * (x2 + base * x3) < base * base * base,
    ;
}

/// Relies on ruint's `Uint::checked_mul`: the exact product, or `None` when it
/// does not fit in 256 bits.
#[verifier::external_body]
pub(crate) fn checked_mul(a: &Uint256, b: &Uint256) -> (r: Option<Uint256>)
    ensures
        r is Some <==> a.value() * b.value() < word_modulus(),
        r matches Some(p) ==> p.value() == a.value() * b.value(),
{
    U256::from_limbs(a.limbs).checked_mul(U256::from_limbs(b.limbs)).map(
        |p| Uint256 { limbs: p.into_limbs() },
    )
}

/// Relies on ruint's `Uint::checked_div`: the truncated quotient, or `None`
/// when the divisor is zero.
#[verifier::external_body]
pub(crate) fn checked_div(a: &Uint256, b: &Uint256) -> (r: Option<Uint256>)
    ensures
        r is Some <==> b.value() != 0,
        r matches Some(q) ==> q.value() == a.value() / b.value(),
{
    U256::from_limbs(a.limbs).checked_div(U256::from_limbs(b.limbs)).map(
        |q| Uint256 { limbs: q.into_limbs() },
    )
}

} // verus!
