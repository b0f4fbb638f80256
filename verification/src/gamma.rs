//! The response curve of the button: the magnitude of a distance raised to
//! the power 1 / 2.2, in exact integer arithmetic.
use vstd::prelude::*;
use crate::exposure::MICRO;
use crate::wide::{
    at_most, lemma_power_add, lemma_power_grows, lemma_power_monotone,
    lemma_power_strict, one, power, radix, times_power, value, LIMBS,
};

verus! {

/// The absolute value of a distance.
pub open spec fn magnitude(distance: int) -> nat {
    if distance < 0 {
        (-distance) as nat
    } else {
        distance as nat
    }
}

/// Whether `y` millionths is `x` millionths raised to the power 5 / 11, which
/// is 1 / 2.2, rounded down: `(y / 10^6)^11 <= (x / 10^6)^5 < ((y + 1) / 10^6)^11`
/// with the denominators cleared.
pub open spec fn is_gamma_of(x: nat, y: nat) -> bool {
    &&& power(y, 11) <= power(x, 5) * power(MICRO as nat, 6)
    &&& power(x, 5) * power(MICRO as nat, 6) < power(y + 1, 11)
}

/// `x` millionths raised to the power 1 / 2.2, in millionths, rounded down.
pub open spec fn gamma(x: nat) -> nat {
    choose|y: nat| is_gamma_of(x, y)
}

/// At most one value is the rounded-down power of a given input.
pub proof fn lemma_gamma_unique(x: nat, y1: nat, y2: nat)
    requires
        is_gamma_of(x, y1),
        is_gamma_of(x, y2),
    ensures
        y1 == y2,
{
    if y1 < y2 {
        lemma_power_monotone(y1 + 1, y2, 11);
    }
    if y2 < y1 {
        lemma_power_monotone(y2 + 1, y1, 11);
    }
}

/// The magnitude of `distance` as an unsigned number.
pub fn magnitude_of(distance: i64) -> (r: u64)
    ensures
        r == magnitude(distance as int),
{
    if distance >= 0 {
        distance as u64
    } else if distance == i64::MIN {
        0x8000_0000_0000_0000u64
    } else {
        (-distance) as u64
    }
}

/// The gamma-corrected magnitude of a distance: `|distance|` micrometres
/// raised to the power 1 / 2.2, in millionths, rounded down.
pub fn gamma_corrected(distance: i64) -> (r: u64)
    ensures
        is_gamma_of(magnitude(distance as int), r as nat),
        r == gamma(magnitude(distance as int)),
{
    let x: u64 = magnitude_of(distance);
    let ghost goal: nat = power(x as nat, 5) * power(MICRO as nat, 6);
    proof {
        lemma_power_strict(x as nat, radix(), 5);
        lemma_power_monotone(MICRO as nat, radix(), 6);
        lemma_power_add(radix(), 5, 6);
        lemma_power_grows(radix(), 5, LIMBS as nat);
        lemma_power_grows(radix(), 11, LIMBS as nat);
        assert(goal < power(radix(), 5) * power(radix(), 6)) by (nonlinear_arith)
            requires
                goal == power(x as nat, 5) * power(MICRO as nat, 6),
                power(x as nat, 5) < power(radix(), 5),
                power(MICRO as nat, 6) <= power(radix(), 6),
        ;
        assert(1 * power(x as nat, 5) == power(x as nat, 5)) by (nonlinear_arith);
    }
    let fifth: Vec<u64> = times_power(one(), x, 5);
    let target: Vec<u64> = times_power(fifth, MICRO, 6);
    let mut lo: u128 = 0;
    let mut hi: u128 = 0x1_0000_0000_0000_0000u128;
    proof {
        assert(power(0, 11) == 0) by {
            reveal_with_fuel(power, 2);
        }
    }
    while hi - lo > 1
        invariant
            lo < hi <= 0x1_0000_0000_0000_0000u128,
            target.len() == LIMBS,
            value(target@) == goal,
            power(lo as nat, 11) <= goal,
            goal < power(hi as nat, 11),
        decreases hi - lo,
    {
        let mid: u128 = lo + (hi - lo) / 2;
        proof {
            lemma_power_strict(mid as nat, radix(), 11);
            lemma_power_grows(radix(), 11, LIMBS as nat);
            assert(1 * power(mid as nat, 11) == power(mid as nat, 11)) by (nonlinear_arith);
        }
        let trial: Vec<u64> = times_power(one(), mid as u64, 11);
        if at_most(&trial, &target) {
            lo = mid;
        } else {
            hi = mid;
        }
    }
    proof {
        assert(hi == lo + 1);
        assert(is_gamma_of(x as nat, lo as nat));
        lemma_gamma_unique(x as nat, lo as nat, gamma(x as nat));
    }
    lo as u64
}

} // verus!
