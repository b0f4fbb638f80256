//! The exposure accumulator: a scalar that cools over time and is raised by
//! input, like metal heating up or film being exposed.
use vstd::prelude::*;

verus! {

/// Number of millionths in one.
pub const MICRO: u64 = 1_000_000;

/// One whole unit of exposure in the accumulator's resolution of 10^-12.
pub const UNIT: u64 = 1_000_000_000_000;

/// An accumulator that cools at a fixed rate and is raised by input.
#[derive(Clone, Copy, Debug)]
pub struct Exposure {
    /// How exposed this currently is, in steps of 10^-12.
    pub exposure: u128,
    /// How much the exposure decreases per second, in millionths.
    pub cooling: u64,
    /// Cap applied when cooling and when exposing, in steps of 10^-12.
    pub max: u64,
}

/// The value left of `exposure` after cooling at `cooling` for `delta`
/// microseconds, held within `0..=max`.
pub open spec fn cooled(exposure: int, cooling: int, max: int, delta: int) -> int {
    let raw = exposure - cooling * delta;
    if raw < 0 {
        0
    } else if raw > max {
        max
    } else {
        raw
    }
}

/// The value of `exposure` after it is raised by `amount * delta`, the raise
/// stopping at `max`. A value already at or above `max` is left as it is.
pub open spec fn exposed(exposure: int, max: int, amount: int, delta: int) -> int {
    if exposure >= max {
        exposure
    } else if exposure + amount * delta >= max {
        max
    } else {
        exposure + amount * delta
    }
}

impl Exposure {
    /// Cools the accumulator for `delta` microseconds.
    pub fn update(&mut self, delta: u64)
        ensures
            final(self).exposure == cooled(
                old(self).exposure as int,
                old(self).cooling as int,
                old(self).max as int,
                delta as int,
            ),
            final(self).exposure <= old(self).max,
            final(self).cooling == old(self).cooling,
            final(self).max == old(self).max,
    {
        assert(self.cooling as int * delta as int <= u128::MAX as int) by (nonlinear_arith)
            requires
                0 <= self.cooling as int <= u64::MAX as int,
                0 <= delta as int <= u64::MAX as int,
        ;
        let loss: u128 = (self.cooling as u128) * (delta as u128);
        if loss >= self.exposure {
            self.exposure = 0;
        } else {
            let raw: u128 = self.exposure - loss;
            if raw > self.max as u128 {
                self.exposure = self.max as u128;
            } else {
                self.exposure = raw;
            }
        }
    }

    /// Raises the accumulator by `amount` millionths per second sustained for
    /// `delta` microseconds, stopping at the cap.
    pub fn expose(&mut self, amount: u128, delta: u64)
        ensures
            final(self).exposure == exposed(
                old(self).exposure as int,
                old(self).max as int,
                amount as int,
                delta as int,
            ),
            final(self).cooling == old(self).cooling,
            final(self).max == old(self).max,
    {
        if self.exposure >= self.max as u128 || delta == 0 || amount == 0 {
            assert(amount as int * delta as int >= 0) by (nonlinear_arith)
                requires
                    amount >= 0,
                    delta >= 0,
            ;
            assert(delta == 0 || amount == 0 ==> amount as int * delta as int == 0)
                by (nonlinear_arith);
            return ;
        }
        let room: u128 = self.max as u128 - self.exposure;
        let most: u128 = room / (delta as u128);
        if amount > most {
            assert(amount as int * delta as int >= room as int) by (nonlinear_arith)
                requires
                    amount as int >= most as int + 1,
                    most as int == room as int / delta as int,
                    delta > 0,
                    room >= 0,
            ;
            self.exposure = self.max as u128;
        } else {
            assert(amount as int * delta as int <= room as int) by (nonlinear_arith)
                requires
                    0 <= amount as int <= most as int,
                    most as int == room as int / delta as int,
                    delta > 0,
                    room >= 0,
            ;
            let gain: u128 = amount * (delta as u128);
            if gain >= room {
                self.exposure = self.max as u128;
            } else {
                self.exposure = self.exposure + gain;
            }
        }
    }

    /// Adds `amount` at once, in steps of 10^-12, with no cap.
    pub fn expose_flash(&mut self, amount: u128)
        requires
            old(self).exposure + amount <= u128::MAX,
        ensures
            final(self).exposure == old(self).exposure + amount,
            final(self).cooling == old(self).cooling,
            final(self).max == old(self).max,
    {
        self.exposure = self.exposure + amount;
    }
}

} // verus!
