//! Double-precision values as the 64 bits that encode them.
//!
//! Every slot of the ray block holds one IEEE 754 double. This library never
//! calculates with doubles itself. It carries each one as its bit pattern,
//! recognises the few values its rules depend on, and leaves sums, differences,
//! products and quotients to an arithmetic that the caller supplies: a function
//! from an [`Operation`] and two operands to the result, all as bit patterns.

use vstd::arithmetic::power2::{lemma2_to64_rest, pow2};
use vstd::prelude::*;

verus! {

/// The bits of `+0.0`.
pub const POSITIVE_ZERO: u64 = 0;

/// The sign bit of a double; alone it encodes `-0.0`.
pub const SIGN_BIT: u64 = 0x8000_0000_0000_0000;

/// The bits of `1.0`.
pub const ONE: u64 = 0x3FF0_0000_0000_0000;

/// One of the four basic operations on two doubles.
#[derive(Clone, Copy, Debug, PartialEq, Eq, Structural)]
pub enum Operation {
    /// `left + right`
    Add,
    /// `left - right`
    Subtract,
    /// `left * right`
    Multiply,
    /// `left / right`
    Divide,
}

/// Whether `arithmetic` accepts every operation on every pair of operands.
pub open spec fn total<A: Fn(Operation, u64, u64) -> u64>(arithmetic: A) -> bool {
    forall|operation: Operation, left: u64, right: u64|
        arithmetic.requires((operation, left, right))
}

/// Whether `arithmetic`, asked for `left operation right`, can answer `result`.
///
/// Nothing is assumed of the arithmetic: what the library computes with it is
/// stated through this relation, for whatever the arithmetic answers.
pub open spec fn performs<A: Fn(Operation, u64, u64) -> u64>(
    arithmetic: A,
    operation: Operation,
    left: u64,
    right: u64,
    result: u64,
) -> bool {
    arithmetic.ensures((operation, left, right), result)
}

/// Whether `arithmetic` can answer `sum` for `left + right`.
pub open spec fn is_sum<A: Fn(Operation, u64, u64) -> u64>(
    arithmetic: A,
    left: u64,
    right: u64,
    sum: u64,
) -> bool {
    performs(arithmetic, Operation::Add, left, right, sum)
}

/// Whether `arithmetic` can answer `difference` for `left - right`.
pub open spec fn is_difference<A: Fn(Operation, u64, u64) -> u64>(
    arithmetic: A,
    left: u64,
    right: u64,
    difference: u64,
) -> bool {
    performs(arithmetic, Operation::Subtract, left, right, difference)
}

/// Whether `arithmetic` can answer `product` for `left * right`.
pub open spec fn is_product<A: Fn(Operation, u64, u64) -> u64>(
    arithmetic: A,
    left: u64,
    right: u64,
    product: u64,
) -> bool {
    performs(arithmetic, Operation::Multiply, left, right, product)
}

/// Whether `arithmetic` can answer `quotient` for `left / right`.
pub open spec fn is_quotient<A: Fn(Operation, u64, u64) -> u64>(
    arithmetic: A,
    left: u64,
    right: u64,
    quotient: u64,
) -> bool {
    performs(arithmetic, Operation::Divide, left, right, quotient)
}

/// The double equals zero: it is `+0.0` or `-0.0`.
pub open spec fn spec_is_zero(bits: u64) -> bool {
    bits == POSITIVE_ZERO || bits == SIGN_BIT
}

/// The double equals one: it is `1.0`.
pub open spec fn spec_is_one(bits: u64) -> bool {
    bits == ONE
}

/// The bits of the absolute value: the same double with its sign bit cleared.
pub open spec fn spec_magnitude(bits: u64) -> u64 {
    if bits >= SIGN_BIT {
        (bits - SIGN_BIT) as u64
    } else {
        bits
    }
}

/// Tells whether the double equals zero, of either sign.
#[verifier::when_used_as_spec(spec_is_zero)]
pub fn is_zero(bits: u64) -> (zero: bool)
    ensures
        zero == spec_is_zero(bits),
{
    bits == POSITIVE_ZERO || bits == SIGN_BIT
}

/// Tells whether the double equals one.
#[verifier::when_used_as_spec(spec_is_one)]
pub fn is_one(bits: u64) -> (one: bool)
    ensures
        one == spec_is_one(bits),
{
    bits == ONE
}

/// Returns the absolute value of a double, as bits: the sign bit is cleared and
/// every other bit kept, also where the bits encode an infinity or a NaN.
#[verifier::when_used_as_spec(spec_magnitude)]
pub fn magnitude(bits: u64) -> (cleared: u64)
    ensures
        cleared == spec_magnitude(bits),
        cleared < SIGN_BIT,
{
    let cleared: u64 = bits & 0x7FFF_FFFF_FFFF_FFFF;
    assert(cleared == if bits >= 0x8000_0000_0000_0000u64 {
        (bits - 0x8000_0000_0000_0000u64) as u64
    } else {
        bits
    }) by (bit_vector)
        requires
            cleared == bits & 0x7FFF_FFFF_FFFF_FFFFu64,
    ;
    cleared
}

/// The exponent field of a double: the eleven bits below the sign bit.
pub open spec fn exponent_field(bits: u64) -> int {
    ((bits / 0x10_0000_0000_0000) % 0x800) as int
}

/// The significand of a normal double, with its leading one: the low 52 bits
/// of the double, and `2^52`.
pub open spec fn significand(bits: u64) -> int {
    0x10_0000_0000_0000 + bits % 0x10_0000_0000_0000
}

/// Whether the double is the fraction `numerator / denominator`, rounded: the
/// double is positive and normal, with the value
/// `significand / 2^(1075 - exponent_field)`, and that value is within half a
/// unit of the significand's last place of the fraction.
pub open spec fn is_rounded(bits: u64, numerator: nat, denominator: nat) -> bool {
    let scale = pow2((1075 - exponent_field(bits)) as nat);
    let excess = significand(bits) * denominator - numerator * scale;
    &&& bits < SIGN_BIT
    &&& 1 <= exponent_field(bits) <= 1075
    &&& denominator > 0
    &&& -denominator <= 2 * excess <= denominator
}

/// [`ONE`] is the double `1`: with the denominator one, nothing is rounded
/// away.
pub proof fn lemma_one_is_one()
    ensures
        is_rounded(ONE, 1, 1),
{
    lemma2_to64_rest();
    assert(exponent_field(ONE) == 1023);
    assert(significand(ONE) == 0x10_0000_0000_0000);
}

} // verus!
