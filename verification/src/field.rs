//! Arithmetic in the prime field of order `p = 2^64 - 2^32 + 1`.
//!
//! An element is held as its canonical representative in `[0, p)`. The
//! contracts speak of elements through their view, an integer, and of
//! the operations through the residue functions below.

use vstd::arithmetic::div_mod::*;
use vstd::arithmetic::mul::*;
use vstd::arithmetic::power::*;
use vstd::prelude::*;

verus! {

/// The field modulus `p = 2^64 - 2^32 + 1`.
pub const MODULUS: u64 = 0xffff_ffff_0000_0001;

/// The modulus as a mathematical integer.
pub open spec fn modulus() -> int {
    0xffff_ffff_0000_0001
}

/// The residue of an integer, in `[0, p)`.
pub open spec fn residue(x: int) -> int {
    x % modulus()
}

/// Sum of two residues.
pub open spec fn add_mod(a: int, b: int) -> int {
    residue(a + b)
}

/// Difference of two residues.
pub open spec fn sub_mod(a: int, b: int) -> int {
    residue(a - b)
}

/// Product of two residues.
pub open spec fn mul_mod(a: int, b: int) -> int {
    residue(a * b)
}

/// A residue raised to a power.
pub open spec fn pow_mod(a: int, e: nat) -> int {
    residue(pow(a, e))
}

/// Every residue lies in `[0, p)`, and a value in that range is its own residue.
pub proof fn lemma_residue_range(x: int)
    ensures
        0 <= residue(x) < modulus(),
        0 <= x < modulus() ==> residue(x) == x,
{
    lemma_mod_bound(x, modulus());
    if 0 <= x < modulus() {
        lemma_small_mod(x as nat, modulus() as nat);
    }
}

/// Reducing a summand first does not change the residue of a sum.
pub proof fn lemma_residue_add(x: int, y: int)
    ensures
        residue(residue(x) + residue(y)) == residue(x + y),
        residue(x + residue(y)) == residue(x + y),
        residue(residue(x) + y) == residue(x + y),
{
    lemma_add_mod_noop(x, y, modulus());
    lemma_add_mod_noop_right(x, y, modulus());
    lemma_add_mod_noop_right(y, x, modulus());
}

/// Reducing an operand first does not change the residue of a difference.
pub proof fn lemma_residue_sub(x: int, y: int)
    ensures
        residue(residue(x) - residue(y)) == residue(x - y),
        residue(x - residue(y)) == residue(x - y),
        residue(residue(x) - y) == residue(x - y),
{
    lemma_sub_mod_noop(x, y, modulus());
    lemma_sub_mod_noop_right(x, y, modulus());
    lemma_mod_bound(x, modulus());
    lemma_mod_bound(y, modulus());
    lemma_mod_twice(y, modulus());
    lemma_sub_mod_noop(x % modulus(), y, modulus());
    lemma_mod_twice(x, modulus());
}

/// Reducing a factor first does not change the residue of a product.
pub proof fn lemma_residue_mul(x: int, y: int)
    ensures
        residue(residue(x) * residue(y)) == residue(x * y),
        residue(x * residue(y)) == residue(x * y),
        residue(residue(x) * y) == residue(x * y),
{
    lemma_mul_mod_noop_general(x, y, modulus());
}

/// An integer and its successor lie in different residue classes.
pub proof fn lemma_residue_successor(x: int)
    ensures
        residue(x + 1) != residue(x),
{
    let p = modulus();
    lemma_fundamental_div_mod(x, p);
    lemma_fundamental_div_mod(x + 1, p);
    let q = x / p;
    let r = (x + 1) / p;
    if residue(x + 1) == residue(x) {
        assert(p * r - p * q == 1);
        assert(p * (r - q) == 1) by (nonlinear_arith)
            requires
                p * r - p * q == 1,
        ;
        assert(false) by (nonlinear_arith)
            requires
                p * (r - q) == 1,
                p > 1,
        ;
    }
}

/// An element of the field, held as its canonical representative in `[0, p)`.
#[derive(Clone, Copy, Debug, PartialEq, Eq, Structural)]
pub struct Fp {
    value: u64,
}

impl View for Fp {
    type V = int;

    closed spec fn view(&self) -> int {
        self.value as int
    }
}

/// The views of a sequence of elements.
pub open spec fn values(s: Seq<Fp>) -> Seq<int> {
    Seq::new(s.len(), |i: int| s[i]@)
}

/// Two elements with the same view are the same element.
pub proof fn lemma_view_injective(a: Fp, b: Fp)
    ensures
        a@ == b@ <==> a == b,
{
}

impl Default for Fp {
    fn default() -> (r: Fp)
        ensures
            r@ == 0,
    {
        Fp { value: 0 }
    }
}

impl Fp {
    #[verifier::type_invariant]
    spec fn canonical(self) -> bool {
        self.value < MODULUS
    }

    /// The element congruent to `value`.
    pub fn new(value: u64) -> (r: Fp)
        ensures
            r@ == residue(value as int),
    {
        if value >= MODULUS {
            proof {
                lemma_mod_add_multiples_vanish(value - modulus(), modulus());
                lemma_small_mod((value - modulus()) as nat, modulus() as nat);
            }
            Fp { value: value - MODULUS }
        } else {
            proof {
                lemma_small_mod(value as nat, modulus() as nat);
            }
            Fp { value }
        }
    }

    /// The additive identity.
    pub fn zero() -> (r: Fp)
        ensures
            r@ == 0,
    {
        Fp { value: 0 }
    }

    /// The multiplicative identity.
    pub fn one() -> (r: Fp)
        ensures
            r@ == 1,
    {
        Fp { value: 1 }
    }

    /// The canonical representative of the element.
    pub fn to_u64(self) -> (r: u64)
        ensures
            r as int == self@,
            r < MODULUS,
    {
        proof {
            use_type_invariant(&self);
        }
        self.value
    }

    /// Whether the element is the additive identity.
    pub fn is_zero(self) -> (r: bool)
        ensures
            r == (self@ == 0),
    {
        self.value == 0
    }

    /// Field addition.
    pub fn add(self, rhs: Fp) -> (r: Fp)
        ensures
            r@ == add_mod(self@, rhs@),
    {
        proof {
            use_type_invariant(&self);
            use_type_invariant(&rhs);
        }
        let sum: u128 = self.value as u128 + rhs.value as u128;
        let reduced: u128 = sum % (MODULUS as u128);
        Fp { value: reduced as u64 }
    }

    /// Field subtraction.
    pub fn sub(self, rhs: Fp) -> (r: Fp)
        ensures
            r@ == sub_mod(self@, rhs@),
    {
        proof {
            use_type_invariant(&self);
            use_type_invariant(&rhs);
        }
        if self.value >= rhs.value {
            proof {
                lemma_small_mod((self.value - rhs.value) as nat, modulus() as nat);
            }
            Fp { value: self.value - rhs.value }
        } else {
            proof {
                let d = self.value - rhs.value;
                lemma_mod_add_multiples_vanish(d, modulus());
                lemma_small_mod((d + modulus()) as nat, modulus() as nat);
            }
            Fp { value: MODULUS - rhs.value + self.value }
        }
    }

    /// Field multiplication.
    pub fn mul(self, rhs: Fp) -> (r: Fp)
        ensures
            r@ == mul_mod(self@, rhs@),
    {
        proof {
            use_type_invariant(&self);
            use_type_invariant(&rhs);
            assert(self.value as int * rhs.value as int <= 0xffff_ffff_0000_0000
                * 0xffff_ffff_0000_0000) by (nonlinear_arith)
                requires
                    self.value <= 0xffff_ffff_0000_0000,
                    rhs.value <= 0xffff_ffff_0000_0000,
            ;
        }
        let product: u128 = self.value as u128 * rhs.value as u128;
        let reduced: u128 = product % (MODULUS as u128);
        Fp { value: reduced as u64 }
    }

    /// The square of the element.
    pub fn square(self) -> (r: Fp)
        ensures
            r@ == mul_mod(self@, self@),
    {
        self.mul(self)
    }

    /// The product of the element and a small integer.
    pub fn mul_by_u32(self, rhs: u32) -> (r: Fp)
        ensures
            r@ == residue(self@ * rhs),
    {
        proof {
            use_type_invariant(&self);
            assert(self.value as int * rhs as int <= 0xffff_ffff_0000_0000 * 0xffff_ffff)
                by (nonlinear_arith)
                requires
                    self.value <= 0xffff_ffff_0000_0000,
                    rhs <= 0xffff_ffff,
            ;
        }
        let product: u128 = self.value as u128 * rhs as u128;
        let reduced: u128 = product % (MODULUS as u128);
        Fp { value: reduced as u64 }
    }

    /// The element raised to the power `exponent`, by repeated squaring.
    pub fn pow(self, exponent: u64) -> (r: Fp)
        ensures
            r@ == pow_mod(self@, exponent as nat),
    {
        let mut result = Fp::one();
        let mut base = self;
        let mut rest: u64 = exponent;
        assert(residue(1 * pow(self@, exponent as nat)) == pow_mod(self@, exponent as nat));
        while rest > 0
            invariant
                residue(result@ * pow(base@, rest as nat)) == pow_mod(
                    self@,
                    exponent as nat,
                ),
            decreases rest,
        {
            proof {
                lemma_pow_mod_step(result@, base@, rest as nat);
            }
            if rest % 2 == 1 {
                result = result.mul(base);
            }
            base = base.square();
            rest = rest / 2;
        }
        proof {
            lemma_pow0(base@);
            use_type_invariant(&result);
            lemma_small_mod(result@ as nat, modulus() as nat);
        }
        result
    }

    /// The eight bytes of the canonical representative, least significant first.
    pub fn to_bytes(self) -> (bytes: [u8; 8])
        ensures
            bytes@ == encode_element(self@),
            decode_element(bytes@) == Some(self@),
    {
        proof {
            use_type_invariant(&self);
            lemma_element_round_trip(self@);
        }
        let le = vstd::bytes::u64_to_le_bytes(self.value);
        let mut bytes = [0u8; 8];
        let mut i: usize = 0;
        while i < 8
            invariant
                i <= 8,
                le@.len() == 8,
                forall|k: int| 0 <= k < i ==> bytes@[k] == le@[k],
            decreases 8 - i,
        {
            bytes[i] = le[i];
            i += 1;
        }
        assert(bytes@ =~= le@);
        bytes
    }

    /// The element whose canonical representative has the given eight bytes,
    /// least significant first; `None` where they spell a value outside `[0, p)`.
    pub fn from_bytes(bytes: &[u8; 8]) -> (r: Option<Fp>)
        ensures
            r.is_some() == decode_element(bytes@).is_some(),
            r.is_some() ==> r.unwrap()@ == decode_element(bytes@).unwrap(),
    {
        let value = vstd::bytes::u64_from_le_bytes(bytes.as_slice());
        if value < MODULUS {
            Some(Fp { value })
        } else {
            None
        }
    }
}

/// The eight-byte encoding of a canonical representative.
pub open spec fn encode_element(v: int) -> Seq<u8> {
    vstd::bytes::spec_u64_to_le_bytes(v as u64)
}

/// The representative that eight bytes spell, where it is canonical.
pub open spec fn decode_element(bytes: Seq<u8>) -> Option<int> {
    let v = vstd::bytes::spec_u64_from_le_bytes(bytes);
    if v < modulus() {
        Some(v as int)
    } else {
        None
    }
}

/// Decoding the encoding of a canonical representative gives it back.
pub proof fn lemma_element_round_trip(v: int)
    requires
        0 <= v < modulus(),
    ensures
        encode_element(v).len() == 8,
        decode_element(encode_element(v)) == Some(v),
{
    vstd::bytes::lemma_auto_spec_u64_to_from_le_bytes();
}

/// Reduces a value below `2^96` to the element it is congruent to.
pub fn reduce_u96(x: u128) -> (r: Fp)
    requires
        x < 0x1_0000_0000_0000_0000_0000_0000,
    ensures
        r@ == residue(x as int),
{
    let reduced: u128 = x % (MODULUS as u128);
    Fp { value: reduced as u64 }
}

/// One step of square-and-multiply keeps `result * base^rest` in its residue class.
proof fn lemma_pow_mod_step(result: int, base: int, rest: nat)
    requires
        rest > 0,
    ensures
        rest % 2 == 1 ==> residue(mul_mod(result, base) * pow(mul_mod(base, base), rest / 2))
            == residue(result * pow(base, rest)),
        rest % 2 == 0 ==> residue(result * pow(mul_mod(base, base), rest / 2)) == residue(
            result * pow(base, rest),
        ),
{
    let b = base;
    let half = rest / 2;
    let sq = mul_mod(base, base);
    // pow(sq, half) is congruent to pow(b * b, half) = pow(b, 2 * half)
    lemma_pow_mod_noop(b * b, half, modulus());
    assert(pow(sq, half) % modulus() == pow(b * b, half) % modulus());
    lemma_pow_distributes(b, b, half);
    lemma_pow_adds(b, half, half);
    assert(pow(b * b, half) == pow(b, half + half));
    let tail = pow(b, half + half);
    if rest % 2 == 1 {
        assert(rest == half + half + 1);
        lemma_pow_adds(b, 1, half + half);
        lemma_pow1(b);
        assert(pow(b, rest) == b * tail);
        // residue(mul_mod(result, base) * pow(sq, half)) == residue(result * b * tail)
        lemma_residue_mul(result * b, pow(sq, half));
        lemma_residue_mul(result * b, tail);
        lemma_residue_mul(result * b, pow(b * b, half));
        assert(residue(mul_mod(result, base) * pow(sq, half)) == residue((result * b) * pow(
            sq,
            half,
        )));
        assert(residue((result * b) * pow(sq, half)) == residue((result * b) * residue(
            pow(sq, half),
        )));
        assert(residue(pow(sq, half)) == residue(tail));
        assert(residue((result * b) * tail) == residue((result * b) * residue(tail)));
        assert((result * b) * tail == result * (b * tail)) by {
            lemma_mul_is_associative(result, b, tail);
        }
    } else {
        assert(rest == half + half);
        lemma_residue_mul(result, pow(sq, half));
        lemma_residue_mul(result, tail);
        assert(residue(pow(sq, half)) == residue(tail));
    }
}

} // verus!
