//! The two helpers of the plugin: C strings for the host, and the share of the
//! power that one diffraction order carries.

use vstd::prelude::*;
use vstd::string::StringSliceAdditionalSpecFns;
use crate::double::{
    is_difference, is_quotient, is_sum, magnitude, spec_magnitude, total, Operation, ONE,
};

verus! {

/// The characters of the C string that holds `bytes`: each byte as a C
/// character, then the terminating NUL.
pub open spec fn c_string(bytes: Seq<u8>) -> Seq<i8> {
    Seq::new(
        bytes.len() + 1,
        |index: int|
            if index < bytes.len() {
                bytes[index] as i8
            } else {
                0i8
            },
    )
}

/// Converts a string to the characters of a C string: the bytes of `s`,
/// followed by the terminating NUL.
///
/// A string that holds a NUL byte has no C string, and is not accepted.
pub fn str_to_mut_i8_ptr(s: &str) -> (characters: Vec<i8>)
    requires
        !s.spec_bytes().contains(0u8),
    ensures
        characters@ == c_string(s.spec_bytes()),
{
    let bytes = s.as_bytes();
    let mut characters: Vec<i8> = Vec::new();
    let mut index: usize = 0;
    while index < bytes.len()
        invariant
            index <= bytes.len(),
            characters@.len() == index,
            forall|at: int| 0 <= at < index ==> characters@[at] == bytes@[at] as i8,
        decreases bytes.len() - index,
    {
        characters.push(#[verifier::truncate] (bytes[index] as i8));
        index += 1;
    }
    characters.push(0i8);
    assert(characters@ =~= c_string(bytes@));
    characters
}

/// Whether `power` is the share of one order among those from
/// `starting_order` to `ending_order`, as `arithmetic` computes it:
/// `1 / (|ending_order - starting_order| + 1)`.
pub open spec fn is_total_power<A: Fn(Operation, u64, u64) -> u64>(
    arithmetic: A,
    starting_order: u64,
    ending_order: u64,
    power: u64,
) -> bool {
    exists|difference: u64, orders: u64|
        #![trigger
            is_difference(arithmetic, ending_order, starting_order, difference),
            is_quotient(arithmetic, ONE, orders, power)
        ]
        {
            &&& is_difference(arithmetic, ending_order, starting_order, difference)
            &&& is_sum(arithmetic, spec_magnitude(difference), ONE, orders)
            &&& is_quotient(arithmetic, ONE, orders, power)
        }
}

/// Calculates the total power of one order as one over the number of orders
/// defined: `1 / (|ending_order - starting_order| + 1)`.
///
/// The orders and the result are doubles, as bits. The difference, the sum
/// and the quotient are asked of `arithmetic`, in that order; the absolute
/// value is taken here.
pub fn get_total_power<A: Fn(Operation, u64, u64) -> u64>(
    starting_order: u64,
    ending_order: u64,
    arithmetic: &A,
) -> (power: u64)
    requires
        total(*arithmetic),
    ensures
        is_total_power(*arithmetic, starting_order, ending_order, power),
{
    let difference = arithmetic(Operation::Subtract, ending_order, starting_order);
    let orders = arithmetic(Operation::Add, magnitude(difference), ONE);
    let power = arithmetic(Operation::Divide, ONE, orders);
    assert(is_difference(*arithmetic, ending_order, starting_order, difference));
    assert(is_quotient(*arithmetic, ONE, orders, power));
    power
}

/// Whether, in `arithmetic`, a difference keeps its magnitude when its
/// operands change places.
pub open spec fn difference_mirrors<A: Fn(Operation, u64, u64) -> u64>(arithmetic: A) -> bool {
    forall|left: u64, right: u64, difference: u64|
        #[trigger] is_difference(arithmetic, left, right, difference) ==> exists|mirrored: u64|
            #[trigger] is_difference(arithmetic, right, left, mirrored)
                && spec_magnitude(mirrored) == spec_magnitude(difference)
}

/// The total power does not depend on which of the two orders is called the
/// starting order, in any arithmetic whose differences keep their magnitude
/// when their operands change places.
pub proof fn lemma_total_power_symmetric<A: Fn(Operation, u64, u64) -> u64>(
    arithmetic: A,
    starting_order: u64,
    ending_order: u64,
    power: u64,
)
    requires
        difference_mirrors(arithmetic),
        is_total_power(arithmetic, starting_order, ending_order, power),
    ensures
        is_total_power(arithmetic, ending_order, starting_order, power),
{
    let (difference, orders) = choose|difference: u64, orders: u64|
        #![trigger
            is_difference(arithmetic, ending_order, starting_order, difference),
            is_quotient(arithmetic, ONE, orders, power)
        ]
        {
            &&& is_difference(arithmetic, ending_order, starting_order, difference)
            &&& is_sum(arithmetic, spec_magnitude(difference), ONE, orders)
            &&& is_quotient(arithmetic, ONE, orders, power)
        };
    let mirrored = choose|mirrored: u64|
        #[trigger] is_difference(arithmetic, starting_order, ending_order, mirrored)
            && spec_magnitude(mirrored) == spec_magnitude(difference);
    assert(is_difference(arithmetic, starting_order, ending_order, mirrored));
    assert(is_quotient(arithmetic, ONE, orders, power));
}

} // verus!
