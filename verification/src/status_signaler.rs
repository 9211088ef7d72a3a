//! The status indicator: a row of green lights that shows a number in binary,
//! and one red light that marks an error.
//!
//! The signaler holds what the lights are to show; the caller sets the
//! outputs accordingly.

use vstd::prelude::*;
use vstd::arithmetic::power2::pow2;
use vstd::arithmetic::power2::lemma_pow2_pos;
use vstd::arithmetic::power2::lemma_pow2_unfold;
use vstd::arithmetic::div_mod::lemma_div_denominator;

verus! {

/// Binary digit `i` of `num`.
pub open spec fn bit_of(num: u8, i: nat) -> bool {
    (num as int / pow2(i) as int) % 2 == 1
}

/// The digits of `num` on `count` lights, the lowest digit first.
pub open spec fn digits(num: u8, count: nat) -> Seq<bool> {
    Seq::new(count, |i: int| bit_of(num, i as nat))
}

/// The state of the lights.
#[derive(Clone, Debug, PartialEq, Eq)]
pub struct StatusSignaler {
    red: bool,
    green: Vec<bool>,
}

impl StatusSignaler {
    /// Whether the red light is on.
    pub closed spec fn red(&self) -> bool {
        self.red
    }

    /// The green lights, each on or off.
    pub closed spec fn green(&self) -> Seq<bool> {
        self.green@
    }

    /// A signaler with `green_count` green lights, all lights off.
    pub fn new(green_count: usize) -> (signaler: StatusSignaler)
        ensures
            !signaler.red(),
            signaler.green() == Seq::new(green_count as nat, |i: int| false),
    {
        let mut green: Vec<bool> = Vec::new();
        let mut i: usize = 0;
        while i < green_count
            invariant
                i <= green_count,
                green@ == Seq::new(i as nat, |k: int| false),
            decreases green_count - i,
        {
            green.push(false);
            i += 1;
            assert(green@ =~= Seq::new(i as nat, |k: int| false));
        }
        StatusSignaler { red: false, green }
    }

    /// Whether the red light is on.
    pub fn is_red(&self) -> (on: bool)
        ensures
            on == self.red(),
    {
        self.red
    }

    /// The green lights, each on or off.
    pub fn greens(&self) -> (lights: Vec<bool>)
        ensures
            lights@ == self.green(),
    {
        let mut lights: Vec<bool> = Vec::new();
        let mut i: usize = 0;
        while i < self.green.len()
            invariant
                i <= self.green@.len(),
                lights@ == self.green@.subrange(0, i as int),
            decreases self.green@.len() - i,
        {
            lights.push(self.green[i]);
            i += 1;
            assert(lights@ =~= self.green@.subrange(0, i as int));
        }
        assert(self.green@.subrange(0, i as int) =~= self.green@);
        lights
    }

    /// Turns the red light on. The green lights stay as they are.
    pub fn error_led_on(&mut self)
        ensures
            final(self).red(),
            final(self).green() == old(self).green(),
    {
        self.red = true;
    }

    /// Shows `num` in binary on the green lights, the lowest digit on the
    /// first light. The red light stays as it is.
    pub fn set_green_numer(&mut self, num: u8)
        ensures
            final(self).red() == old(self).red(),
            final(self).green() == digits(num, old(self).green().len()),
    {
        let count = self.green.len();
        let mut rest: u8 = num;
        let mut i: usize = 0;
        proof {
            reveal_with_fuel(pow2, 1);
            assert(pow2(0) == 1) by {
                vstd::arithmetic::power2::lemma2_to64();
            }
        }
        while i < count
            invariant
                i <= count,
                count == self.green@.len(),
                self.red == old(self).red,
                rest as int == num as int / pow2(i as nat) as int,
                forall|k: int| 0 <= k < i ==> self.green@[k] == bit_of(num, k as nat),
            decreases count - i,
        {
            self.green.set(i, rest % 2 == 1);
            proof {
                lemma_pow2_pos(i as nat);
                lemma_pow2_unfold((i + 1) as nat);
                lemma_div_denominator(num as int, pow2(i as nat) as int, 2);
                assert(pow2(i as nat) as int * 2 == pow2((i + 1) as nat) as int);
            }
            rest = rest / 2;
            i += 1;
        }
        assert(self.green@ =~= digits(num, old(self).green().len()));
    }

    /// Turns every green light on. The red light stays as it is.
    pub fn set_full_green(&mut self)
        ensures
            final(self).red() == old(self).red(),
            final(self).green() == Seq::new(old(self).green().len(), |i: int| true),
    {
        let count = self.green.len();
        let mut i: usize = 0;
        while i < count
            invariant
                i <= count,
                count == self.green@.len(),
                self.red == old(self).red,
                forall|k: int| 0 <= k < i ==> self.green@[k],
            decreases count - i,
        {
            self.green.set(i, true);
            i += 1;
        }
        assert(self.green@ =~= Seq::new(old(self).green().len(), |i: int| true));
    }

    /// Turns every light off.
    pub fn off(&mut self)
        ensures
            !final(self).red(),
            final(self).green() == Seq::new(old(self).green().len(), |i: int| false),
    {
        let count = self.green.len();
        let mut i: usize = 0;
        while i < count
            invariant
                i <= count,
                count == self.green@.len(),
                forall|k: int| 0 <= k < i ==> !self.green@[k],
            decreases count - i,
        {
            self.green.set(i, false);
            i += 1;
        }
        self.red = false;
        assert(self.green@ =~= Seq::new(old(self).green().len(), |i: int| false));
    }
}

} // verus!
