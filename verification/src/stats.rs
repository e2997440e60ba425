//! Statistics over a list of IEEE-754 binary64 values, given as bit patterns.
//!
//! The selection of minimum and maximum is decided here and verified: it
//! mirrors a fold with the IEEE maximum/minimum, which skips NaN elements and
//! starts from the matching infinity. The sum and the average require
//! floating-point arithmetic and are computed by the unverified shell; this
//! module only carries them through, and owns the policy that an empty input
//! yields an all-zero result.
use vstd::prelude::*;
use crate::fpbits::{is_nan, order_key, nan_bits, le_bits};
use crate::fpbits::{POS_ZERO_BITS, POS_INFINITY_BITS, NEG_INFINITY_BITS};

verus! {

/// The aggregate a list of numbers is reduced to. Each field is the bit
/// pattern of a binary64 value.
#[derive(Clone, Copy, PartialEq, Eq, Structural, Debug)]
pub struct Statistics {
    pub sum: u64,
    pub average: u64,
    pub max: u64,
    pub min: u64,
}

/// `m` is the maximum of `s` in the IEEE sense: no smaller than any non-NaN
/// element, itself an element unless every element is NaN, and negative
/// infinity for an all-NaN (or empty) list.
pub open spec fn is_max_of(s: Seq<u64>, m: u64) -> bool {
    &&& !is_nan(m)
    &&& forall|i: int| 0 <= i < s.len() && !is_nan(s[i]) ==> order_key(s[i]) <= order_key(m)
    &&& if exists|i: int| 0 <= i < s.len() && !is_nan(s[i]) {
        exists|i: int| 0 <= i < s.len() && !is_nan(s[i]) && m == s[i]
    } else {
        m == NEG_INFINITY_BITS
    }
}

/// `m` is the minimum of `s` in the IEEE sense; positive infinity for an
/// all-NaN (or empty) list.
pub open spec fn is_min_of(s: Seq<u64>, m: u64) -> bool {
    &&& !is_nan(m)
    &&& forall|i: int| 0 <= i < s.len() && !is_nan(s[i]) ==> order_key(m) <= order_key(s[i])
    &&& if exists|i: int| 0 <= i < s.len() && !is_nan(s[i]) {
        exists|i: int| 0 <= i < s.len() && !is_nan(s[i]) && m == s[i]
    } else {
        m == POS_INFINITY_BITS
    }
}

/// The largest value of the list.
pub fn max_bits(numbers: &Vec<u64>) -> (r: u64)
    ensures
        is_max_of(numbers@, r),
{
    let mut best: u64 = NEG_INFINITY_BITS;
    let mut i: usize = 0;
    while i < numbers.len()
        invariant
            i <= numbers@.len(),
            !is_nan(best),
            forall|j: int|
                0 <= j < i && !is_nan(numbers@[j]) ==> order_key(numbers@[j]) <= order_key(best),
            if exists|j: int| 0 <= j < i && !is_nan(numbers@[j]) {
                exists|j: int| 0 <= j < i && !is_nan(numbers@[j]) && best == numbers@[j]
            } else {
                best == NEG_INFINITY_BITS
            },
        decreases numbers@.len() - i,
    {
        let x = numbers[i];
        if !nan_bits(x) && le_bits(best, x) {
            best = x;
        }
        i += 1;
    }
    best
}

/// The smallest value of the list.
pub fn min_bits(numbers: &Vec<u64>) -> (r: u64)
    ensures
        is_min_of(numbers@, r),
{
    let mut best: u64 = POS_INFINITY_BITS;
    let mut i: usize = 0;
    while i < numbers.len()
        invariant
            i <= numbers@.len(),
            !is_nan(best),
            forall|j: int|
                0 <= j < i && !is_nan(numbers@[j]) ==> order_key(best) <= order_key(numbers@[j]),
            if exists|j: int| 0 <= j < i && !is_nan(numbers@[j]) {
                exists|j: int| 0 <= j < i && !is_nan(numbers@[j]) && best == numbers@[j]
            } else {
                best == POS_INFINITY_BITS
            },
        decreases numbers@.len() - i,
    {
        let x = numbers[i];
        if !nan_bits(x) && le_bits(x, best) {
            best = x;
        }
        i += 1;
    }
    best
}

/// Reduce a list of numbers to its statistics. An empty list yields the
/// all-zero aggregate by policy, whatever `sum_bits` and `average_bits` hold;
/// otherwise the sum and average computed by the shell are carried through
/// and the extremes are selected here.
pub fn process_numbers(numbers: &Vec<u64>, sum_bits: u64, average_bits: u64) -> (r: Statistics)
    ensures
        numbers@.len() == 0 ==> r == (Statistics {
            sum: POS_ZERO_BITS,
            average: POS_ZERO_BITS,
            max: POS_ZERO_BITS,
            min: POS_ZERO_BITS,
        }),
        numbers@.len() > 0 ==> r.sum == sum_bits && r.average == average_bits && is_max_of(
            numbers@,
            r.max,
        ) && is_min_of(numbers@, r.min),
{
    if numbers.len() == 0 {
        return Statistics {
            sum: POS_ZERO_BITS,
            average: POS_ZERO_BITS,
            max: POS_ZERO_BITS,
            min: POS_ZERO_BITS,
        };
    }
    Statistics { sum: sum_bits, average: average_bits, max: max_bits(numbers), min: min_bits(numbers) }
}

} // verus!
