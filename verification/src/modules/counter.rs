//! Counters that only grow, and what they grew by.

use std::collections::BTreeMap;

use vstd::prelude::*;

verus! {

/// What a counter grew by; nothing where it started anew.
pub open spec fn growth(current: u64, previous: u64) -> u64 {
    if current >= previous {
        (current - previous) as u64
    } else {
        0
    }
}

/// The sum of two counts, held at the greatest count there is.
pub open spec fn capped_sum(a: u64, b: u64) -> u64 {
    if a + b > u64::MAX {
        u64::MAX
    } else {
        (a + b) as u64
    }
}

/// The product of two counts, held at the greatest count there is.
pub open spec fn capped_product(a: u64, b: u64) -> u64 {
    if a * b > u64::MAX {
        u64::MAX
    } else {
        (a * b) as u64
    }
}

/// The sum of two signed counts, held within the range of signed counts.
pub open spec fn capped_signed_sum(a: i64, b: i64) -> i64 {
    if a + b > i64::MAX {
        i64::MAX
    } else if a + b < i64::MIN {
        i64::MIN
    } else {
        (a + b) as i64
    }
}

/// Multiplies two counts, up to the greatest count there is.
pub fn multiply_capped(a: u64, b: u64) -> (r: u64)
    ensures
        r == capped_product(a, b),
{
    match a.checked_mul(b) {
        Some(product) => product,
        None => u64::MAX,
    }
}

/// Adds two signed counts, within the range of signed counts.
pub fn add_signed_capped(a: i64, b: i64) -> (r: i64)
    ensures
        r == capped_signed_sum(a, b),
{
    let sum: i128 = a as i128 + b as i128;
    if sum > i64::MAX as i128 {
        i64::MAX
    } else if sum < i64::MIN as i128 {
        i64::MIN
    } else {
        sum as i64
    }
}

/// Puts a value under a number, and gives back the one that stood there.
pub fn remember<V>(map: &mut BTreeMap<u64, V>, key: u64, value: V) -> (r: Option<V>)
    ensures
        final(map)@ == old(map)@.insert(key, value),
        match r {
            Some(v) => old(map)@.contains_key(key) && v == old(map)@[key],
            None => !old(map)@.contains_key(key),
        },
{
    broadcast use vstd::laws_cmp::group_laws_cmp;

    map.insert(key, value)
}

/// While a counter does not start anew, what it grew by from reading to reading
/// adds up to what it grew by from the first to the last.
pub proof fn law_growth_adds_up(first: u64, second: u64, third: u64)
    requires
        first <= second <= third,
    ensures
        growth(second, first) + growth(third, second) == growth(third, first),
{
}

/// What a counter grew by is the difference of two readings, and is nothing where
/// the counter started anew.
pub proof fn law_growth_is_the_difference(current: u64, previous: u64)
    ensures
        previous <= current ==> previous + growth(current, previous) == current,
        current < previous ==> growth(current, previous) == 0,
{
}

/// A sum or a product that can be counted is counted exactly; one that cannot is
/// held at the bound that it passes.
pub proof fn law_counts_are_exact_up_to_their_bounds(a: u64, b: u64, c: i64, d: i64)
    ensures
        a + b <= u64::MAX ==> capped_sum(a, b) == a + b,
        a + b > u64::MAX ==> capped_sum(a, b) == u64::MAX,
        a * b <= u64::MAX ==> capped_product(a, b) == a * b,
        a * b > u64::MAX ==> capped_product(a, b) == u64::MAX,
        i64::MIN <= c + d <= i64::MAX ==> capped_signed_sum(c, d) == c + d,
        c + d > i64::MAX ==> capped_signed_sum(c, d) == i64::MAX,
        c + d < i64::MIN ==> capped_signed_sum(c, d) == i64::MIN,
{
    assert(a * b >= 0) by (nonlinear_arith)
        requires
            a >= 0,
            b >= 0,
    ;
}

} // verus!
