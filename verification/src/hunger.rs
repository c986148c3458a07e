//! Hunger: the need for food that builds up in an ant with every tick.
//!
//! Hunger is counted in whole units, [`HUNGER_UNITS_PER_POINT`] to the point, so that
//! every comparison and every transfer is exact.

use crate::story_time::DEFAULT_TICKS_PER_SECOND;
use vstd::prelude::*;

verus! {

/// Number of hunger units in one hunger point.
pub const HUNGER_UNITS_PER_POINT: u64 = 1_000_000_000;

/// Capacity of a newly made ant: one hundred points.
pub const DEFAULT_HUNGER_MAX: u64 = 100_000_000_000;

/// What a [`Hunger`] stands for: how hungry, how hungry at most, how much hungrier per tick.
pub struct HungerView {
    pub value: nat,
    pub max: nat,
    pub rate: nat,
}

/// A bounded accumulator of need. It rises by `rate` with every tick and never leaves
/// the range from zero to `max`.
#[derive(Clone, Copy, Debug, PartialEq, Eq, Structural)]
pub struct Hunger {
    value: u64,
    max: u64,
    rate: u64,
}

impl View for Hunger {
    type V = HungerView;

    closed spec fn view(&self) -> HungerView {
        HungerView { value: self.value as nat, max: self.max as nat, rate: self.rate as nat }
    }
}

/// The smaller of two amounts.
pub open spec fn least(a: nat, b: nat) -> nat {
    if a <= b {
        a
    } else {
        b
    }
}

/// The rate at which an ant that starves after `max_time_seconds` grows hungry, in
/// units per tick, at the default number of ticks per second. An ant given no time at
/// all starves on its first tick, and an ant given less than none never grows hungry.
pub open spec fn starving_rate(max_time_seconds: int) -> nat {
    if max_time_seconds > 0 {
        (DEFAULT_HUNGER_MAX as int / (max_time_seconds * DEFAULT_TICKS_PER_SECOND as int)) as nat
    } else if max_time_seconds == 0 {
        DEFAULT_HUNGER_MAX as nat
    } else {
        0
    }
}

impl HungerView {
    /// The clamp invariant: a positive capacity and a value within it, all held in 64 bits.
    pub open spec fn wf(self) -> bool {
        &&& 0 < self.max <= u64::MAX
        &&& self.value <= self.max
        &&& self.rate <= u64::MAX
    }

    /// Below a quarter of capacity.
    pub open spec fn is_full(self) -> bool {
        4 * self.value < self.max
    }

    /// At or above a quarter of capacity.
    pub open spec fn is_peckish(self) -> bool {
        4 * self.value >= self.max
    }

    /// At or above half of capacity.
    pub open spec fn is_hungry(self) -> bool {
        2 * self.value >= self.max
    }

    /// At or above three quarters of capacity.
    pub open spec fn is_starving(self) -> bool {
        4 * self.value >= 3 * self.max
    }

    /// At capacity.
    pub open spec fn is_starved(self) -> bool {
        self.value >= self.max
    }

    /// A fifth of capacity, rounded down to a whole unit, or all there is if that is less:
    /// what one meal takes away and what one feeding hands over.
    pub open spec fn portion(self) -> nat {
        least(self.max / 5, self.value)
    }

    /// One tick later.
    pub open spec fn tick(self) -> HungerView {
        HungerView { value: least(self.value + self.rate, self.max), ..self }
    }

    /// With `amount` taken away, stopping at zero.
    pub open spec fn decrease(self, amount: nat) -> HungerView {
        HungerView { value: (self.value - least(amount, self.value)) as nat, ..self }
    }

    /// With `amount` added, stopping at capacity.
    pub open spec fn increase(self, amount: nat) -> HungerView {
        HungerView { value: least(self.value + amount, self.max), ..self }
    }
}

impl Default for Hunger {
    /// Not hungry, with a capacity of one hundred points, growing hungrier by one point per tick.
    fn default() -> (hunger: Hunger)
        ensures
            hunger@ == (HungerView {
                value: 0,
                max: DEFAULT_HUNGER_MAX as nat,
                rate: HUNGER_UNITS_PER_POINT as nat,
            }),
            hunger.wf(),
    {
        Hunger { value: 0, max: DEFAULT_HUNGER_MAX, rate: HUNGER_UNITS_PER_POINT }
    }
}

impl Hunger {
    /// Every hunger made by this library is well formed; see [`HungerView::wf`].
    pub open spec fn wf(&self) -> bool {
        self@.wf()
    }

    /// A sated ant that starves after `max_time_seconds` seconds without food.
    pub fn new(max_time_seconds: isize) -> (hunger: Hunger)
        ensures
            hunger@ == (HungerView {
                value: 0,
                max: DEFAULT_HUNGER_MAX as nat,
                rate: starving_rate(max_time_seconds as int),
            }),
            hunger.wf(),
    {
        let rate: u64 = if max_time_seconds > 0 {
            let ticks: u128 = (max_time_seconds as u128) * (DEFAULT_TICKS_PER_SECOND as u128);
            if ticks > DEFAULT_HUNGER_MAX as u128 {
                assert(DEFAULT_HUNGER_MAX as int / ticks as int == 0) by (nonlinear_arith)
                    requires
                        ticks > DEFAULT_HUNGER_MAX,
                        DEFAULT_HUNGER_MAX >= 0,
                ;
                0
            } else {
                DEFAULT_HUNGER_MAX / (ticks as u64)
            }
        } else if max_time_seconds == 0 {
            DEFAULT_HUNGER_MAX
        } else {
            0
        };
        Hunger { value: 0, max: DEFAULT_HUNGER_MAX, rate }
    }

    /// Rebuilds a hunger from its three numbers. There is none with an empty capacity or
    /// with a value beyond it.
    pub fn from_parts(value: u64, max: u64, rate: u64) -> (hunger: Option<Hunger>)
        ensures
            hunger is Some <==> 0 < max && value <= max,
            hunger matches Some(h) ==> h.wf() && h@ == (HungerView {
                value: value as nat,
                max: max as nat,
                rate: rate as nat,
            }),
    {
        if max == 0 || value > max {
            None
        } else {
            Some(Hunger { value, max, rate })
        }
    }

    pub fn value(&self) -> (value: u64)
        ensures
            value == self@.value,
    {
        self.value
    }

    pub fn max(&self) -> (max: u64)
        ensures
            max == self@.max,
    {
        self.max
    }

    pub fn rate(&self) -> (rate: u64)
        ensures
            rate == self@.rate,
    {
        self.rate
    }

    /// Grows hungrier by one tick's worth, stopping at capacity.
    pub fn tick(&mut self)
        requires
            old(self).wf(),
        ensures
            final(self)@ == old(self)@.tick(),
            final(self).wf(),
    {
        let room: u64 = self.max - self.value;
        if self.rate >= room {
            self.value = self.max;
        } else {
            self.value = self.value + self.rate;
        }
    }

    pub fn is_full(&self) -> (full: bool)
        ensures
            full == self@.is_full(),
    {
        (self.value as u128) * 4 < self.max as u128
    }

    pub fn is_peckish(&self) -> (peckish: bool)
        ensures
            peckish == self@.is_peckish(),
    {
        (self.value as u128) * 4 >= self.max as u128
    }

    pub fn is_hungry(&self) -> (hungry: bool)
        ensures
            hungry == self@.is_hungry(),
    {
        (self.value as u128) * 2 >= self.max as u128
    }

    pub fn is_starving(&self) -> (starving: bool)
        ensures
            starving == self@.is_starving(),
    {
        (self.value as u128) * 4 >= (self.max as u128) * 3
    }

    pub fn is_starved(&self) -> (starved: bool)
        ensures
            starved == self@.is_starved(),
    {
        self.value >= self.max
    }

    /// Sates the ant completely.
    pub fn reset(&mut self)
        ensures
            final(self)@ == (HungerView { value: 0, ..old(self)@ }),
            old(self).wf() ==> final(self).wf(),
    {
        self.value = 0;
    }

    /// The amount that one meal takes away and one feeding hands over.
    pub fn portion(&self) -> (amount: u64)
        ensures
            amount == self@.portion(),
    {
        let fifth: u64 = self.max / 5;
        if fifth <= self.value {
            fifth
        } else {
            self.value
        }
    }

    /// Takes `amount` away, stopping at zero.
    pub fn decrease(&mut self, amount: u64)
        ensures
            final(self)@ == old(self)@.decrease(amount as nat),
            old(self).wf() ==> final(self).wf(),
    {
        if amount >= self.value {
            self.value = 0;
        } else {
            self.value = self.value - amount;
        }
    }

    /// Adds `amount`, stopping at capacity.
    pub fn increase(&mut self, amount: u64)
        requires
            old(self).wf(),
        ensures
            final(self)@ == old(self)@.increase(amount as nat),
            final(self).wf(),
    {
        let room: u64 = self.max - self.value;
        if amount >= room {
            self.value = self.max;
        } else {
            self.value = self.value + amount;
        }
    }
}

/// Whatever is done to a hunger, it stays within its capacity.
pub proof fn lemma_hunger_stays_clamped(hunger: HungerView, amount: nat)
    requires
        hunger.wf(),
    ensures
        hunger.tick().wf(),
        hunger.decrease(amount).wf(),
        hunger.increase(amount).wf(),
        hunger.tick().value >= hunger.value,
        hunger.portion() <= hunger.value,
        hunger.decrease(hunger.portion()).value + hunger.portion() == hunger.value,
{
}

/// The tiers are nested: a starved ant is starving, a starving ant is hungry, a hungry
/// ant is peckish, and an ant is full exactly when it is not peckish.
pub proof fn lemma_hunger_tiers_nest(hunger: HungerView)
    requires
        hunger.wf(),
    ensures
        hunger.is_starved() ==> hunger.is_starving(),
        hunger.is_starving() ==> hunger.is_hungry(),
        hunger.is_hungry() ==> hunger.is_peckish(),
        hunger.is_full() <==> !hunger.is_peckish(),
{
}

} // verus!
