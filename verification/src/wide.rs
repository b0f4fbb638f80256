//! Fixed-width natural numbers wide enough to compare small powers of 64-bit
//! values exactly.
use vstd::prelude::*;

verus! {

/// `b` multiplied by itself `e` times.
pub open spec fn power(b: nat, e: nat) -> nat
    decreases e,
{
    if e == 0 {
        1
    } else {
        b * power(b, (e - 1) as nat)
    }
}

/// A larger base gives no smaller a power.
pub proof fn lemma_power_monotone(a: nat, b: nat, e: nat)
    requires
        a <= b,
    ensures
        power(a, e) <= power(b, e),
    decreases e,
{
    if e > 0 {
        lemma_power_monotone(a, b, (e - 1) as nat);
        assert(a * power(a, (e - 1) as nat) <= b * power(b, (e - 1) as nat))
            by (nonlinear_arith)
            requires
                a <= b,
                power(a, (e - 1) as nat) <= power(b, (e - 1) as nat),
        ;
    }
}

/// A strictly larger base gives a strictly larger power, for a positive
/// exponent.
pub proof fn lemma_power_strict(a: nat, b: nat, e: nat)
    requires
        a < b,
        e > 0,
    ensures
        power(a, e) < power(b, e),
    decreases e,
{
    lemma_power_monotone(a, b, (e - 1) as nat);
    lemma_power_positive(b, (e - 1) as nat);
    assert(a * power(a, (e - 1) as nat) < b * power(b, (e - 1) as nat)) by (nonlinear_arith)
        requires
            a < b,
            power(a, (e - 1) as nat) <= power(b, (e - 1) as nat),
            power(b, (e - 1) as nat) > 0,
    ;
}

/// A power of a positive base is positive.
pub proof fn lemma_power_positive(b: nat, e: nat)
    requires
        b > 0,
    ensures
        power(b, e) > 0,
    decreases e,
{
    if e > 0 {
        lemma_power_positive(b, (e - 1) as nat);
        assert(b * power(b, (e - 1) as nat) > 0) by (nonlinear_arith)
            requires
                b > 0,
                power(b, (e - 1) as nat) > 0,
        ;
    }
}

/// Exponents add when powers of one base are multiplied.
pub proof fn lemma_power_add(b: nat, m: nat, n: nat)
    ensures
        power(b, m + n) == power(b, m) * power(b, n),
    decreases m,
{
    if m == 0 {
        assert(power(b, 0) * power(b, n) == power(b, n)) by (nonlinear_arith)
            requires
                power(b, 0) == 1,
        ;
    } else {
        lemma_power_add(b, (m - 1) as nat, n);
        assert((m + n - 1) as nat == (m - 1) as nat + n);
        assert(b * (power(b, (m - 1) as nat) * power(b, n)) == (b * power(b, (m - 1) as nat))
            * power(b, n)) by (nonlinear_arith);
    }
}

/// With a base of at least one, a larger exponent gives no smaller a power.
pub proof fn lemma_power_grows(b: nat, m: nat, n: nat)
    requires
        b >= 1,
        m <= n,
    ensures
        power(b, m) <= power(b, n),
{
    lemma_power_add(b, m, (n - m) as nat);
    lemma_power_positive(b, (n - m) as nat);
    assert(power(b, m) <= power(b, m) * power(b, (n - m) as nat)) by (nonlinear_arith)
        requires
            power(b, (n - m) as nat) >= 1,
    ;
}

/// Number of 64-bit limbs in a wide number.
pub const LIMBS: usize = 12;

/// The weight of one limb position relative to the one below it.
pub open spec fn radix() -> nat {
    0x1_0000_0000_0000_0000
}

/// The number that the limbs `s` stand for, least significant limb first.
pub open spec fn value(s: Seq<u64>) -> nat
    decreases s.len(),
{
    if s.len() == 0 {
        0
    } else {
        value(s.drop_last()) + (s.last() as nat) * power(radix(), (s.len() - 1) as nat)
    }
}

/// A number of `n` limbs is below the `n`-th power of the radix.
pub proof fn lemma_value_bound(s: Seq<u64>)
    ensures
        value(s) < power(radix(), s.len()),
    decreases s.len(),
{
    if s.len() > 0 {
        lemma_value_bound(s.drop_last());
        let w = power(radix(), (s.len() - 1) as nat);
        assert(value(s.drop_last()) + (s.last() as nat) * w < radix() * w) by (nonlinear_arith)
            requires
                value(s.drop_last()) < w,
                (s.last() as nat) < radix(),
        ;
    }
}

/// Appending a limb adds it at the weight of its position.
pub proof fn lemma_value_push(s: Seq<u64>, d: u64)
    ensures
        value(s.push(d)) == value(s) + (d as nat) * power(radix(), s.len()),
{
    assert(s.push(d).drop_last() =~= s);
}

/// The first `i + 1` limbs are the first `i` limbs and limb `i` on top.
pub proof fn lemma_value_take(s: Seq<u64>, i: int)
    requires
        0 <= i < s.len(),
    ensures
        value(s.take(i + 1)) == value(s.take(i)) + (s[i] as nat) * power(radix(), i as nat),
{
    assert(s.take(i + 1).drop_last() =~= s.take(i));
}

/// The wide number one.
pub fn one() -> (r: Vec<u64>)
    ensures
        r.len() == LIMBS,
        value(r@) == 1,
{
    let mut r: Vec<u64> = Vec::new();
    r.push(1);
    proof {
        lemma_value_push(Seq::<u64>::empty(), 1);
        assert(r@ =~= Seq::<u64>::empty().push(1));
    }
    while r.len() < LIMBS
        invariant
            1 <= r.len() <= LIMBS,
            value(r@) == 1,
        decreases LIMBS - r.len(),
    {
        proof {
            lemma_value_push(r@, 0);
        }
        r.push(0);
    }
    r
}

/// The wide number `a` times `m`, where the product still fits.
pub fn times(a: &Vec<u64>, m: u64) -> (r: Vec<u64>)
    requires
        a.len() == LIMBS,
        value(a@) * m < power(radix(), LIMBS as nat),
    ensures
        r.len() == LIMBS,
        value(r@) == value(a@) * m,
{
    let mut r: Vec<u64> = Vec::new();
    let mut carry: u64 = 0;
    let mut i: usize = 0;
    proof {
        assert(r@.len() == 0);
        assert(a@.take(0).len() == 0);
        assert(value(r@) == 0);
        assert(value(a@.take(0)) == 0);
        assert(0 * power(radix(), 0) == 0) by (nonlinear_arith);
        assert(0 * (m as nat) == 0) by (nonlinear_arith);
    }
    while i < LIMBS
        invariant
            a.len() == LIMBS,
            i <= LIMBS,
            r.len() == i,
            value(r@) + (carry as nat) * power(radix(), i as nat) == value(a@.take(i as int)) * m,
        decreases LIMBS - i,
    {
        let limb: u64 = a[i];
        assert((limb as int) * (m as int) + (carry as int) <= u128::MAX as int)
            by (nonlinear_arith)
            requires
                0 <= limb as int <= u64::MAX as int,
                0 <= m as int <= u64::MAX as int,
                0 <= carry as int <= u64::MAX as int,
        ;
        let t: u128 = (limb as u128) * (m as u128) + (carry as u128);
        let low: u128 = t % 0x1_0000_0000_0000_0000u128;
        let high: u128 = t / 0x1_0000_0000_0000_0000u128;
        proof {
            let w = power(radix(), i as nat);
            lemma_value_push(r@, low as u64);
            lemma_value_take(a@, i as int);
            assert(power(radix(), (i + 1) as nat) == radix() * w);
            assert(t as nat == low as nat + (high as nat) * radix());
            assert(value(r@) + (low as nat) * w + (high as nat) * (radix() * w) == (value(
                a@.take(i as int),
            ) + (limb as nat) * w) * m) by (nonlinear_arith)
                requires
                    value(r@) + (carry as nat) * w == value(a@.take(i as int)) * m,
                    (limb as nat) * (m as nat) + (carry as nat) == low as nat + (high as nat)
                        * radix(),
            ;
        }
        r.push(low as u64);
        carry = high as u64;
        i = i + 1;
    }
    proof {
        assert(a@.take(LIMBS as int) =~= a@);
        lemma_value_bound(r@);
        let w = power(radix(), LIMBS as nat);
        assert(carry == 0) by (nonlinear_arith)
            requires
                value(r@) + (carry as nat) * w < w,
                carry >= 0,
        ;
        assert((carry as nat) * w == 0) by (nonlinear_arith)
            requires
                carry == 0,
        ;
    }
    r
}

/// The wide number `a` times the `e`-th power of `m`, where the product still
/// fits.
pub fn times_power(a: Vec<u64>, m: u64, e: usize) -> (r: Vec<u64>)
    requires
        a.len() == LIMBS,
        value(a@) * power(m as nat, e as nat) < power(radix(), LIMBS as nat),
    ensures
        r.len() == LIMBS,
        value(r@) == value(a@) * power(m as nat, e as nat),
{
    let mut r: Vec<u64> = a;
    let mut i: usize = 0;
    proof {
        assert(value(a@) * power(m as nat, 0) == value(a@)) by (nonlinear_arith)
            requires
                power(m as nat, 0) == 1,
        ;
    }
    while i < e
        invariant
            i <= e,
            r.len() == LIMBS,
            value(r@) == value(a@) * power(m as nat, i as nat),
            value(a@) * power(m as nat, e as nat) < power(radix(), LIMBS as nat),
        decreases e - i,
    {
        proof {
            let next = power(m as nat, (i + 1) as nat);
            assert(next == (m as nat) * power(m as nat, i as nat));
            assert(value(r@) * m == value(a@) * next) by (nonlinear_arith)
                requires
                    value(r@) == value(a@) * power(m as nat, i as nat),
                    next == (m as nat) * power(m as nat, i as nat),
            ;
            if m >= 1 {
                lemma_power_grows(m as nat, (i + 1) as nat, e as nat);
                assert(value(a@) * next <= value(a@) * power(m as nat, e as nat))
                    by (nonlinear_arith)
                    requires
                        next <= power(m as nat, e as nat),
                ;
            } else {
                assert(next == 0) by (nonlinear_arith)
                    requires
                        next == (m as nat) * power(m as nat, i as nat),
                        m == 0,
                ;
                assert(value(a@) * next == 0) by (nonlinear_arith)
                    requires
                        next == 0,
                ;
                lemma_power_positive(radix(), LIMBS as nat);
            }
        }
        r = times(&r, m);
        i = i + 1;
    }
    r
}

/// Whether the wide number `a` is at most the wide number `b`.
pub fn at_most(a: &Vec<u64>, b: &Vec<u64>) -> (r: bool)
    requires
        a.len() == LIMBS,
        b.len() == LIMBS,
    ensures
        r == (value(a@) <= value(b@)),
{
    let mut i: usize = LIMBS;
    proof {
        assert(a@.take(LIMBS as int) =~= a@);
        assert(b@.take(LIMBS as int) =~= b@);
    }
    while i > 0
        invariant
            a.len() == LIMBS,
            b.len() == LIMBS,
            i <= LIMBS,
            (value(a@) <= value(b@)) == (value(a@.take(i as int)) <= value(b@.take(i as int))),
        decreases i,
    {
        i = i - 1;
        let x: u64 = a[i];
        let y: u64 = b[i];
        proof {
            let w = power(radix(), i as nat);
            lemma_value_take(a@, i as int);
            lemma_value_take(b@, i as int);
            lemma_value_bound(a@.take(i as int));
            lemma_value_bound(b@.take(i as int));
            if x < y {
                assert(value(a@.take(i as int)) + (x as nat) * w <= value(b@.take(i as int)) + (
                y as nat) * w) by (nonlinear_arith)
                    requires
                        value(a@.take(i as int)) < w,
                        x < y,
                ;
            }
            if x > y {
                assert(value(a@.take(i as int)) + (x as nat) * w > value(b@.take(i as int)) + (
                y as nat) * w) by (nonlinear_arith)
                    requires
                        value(b@.take(i as int)) < w,
                        x > y,
                ;
            }
        }
        if x < y {
            return true;
        }
        if x > y {
            return false;
        }
    }
    true
}

} // verus!
