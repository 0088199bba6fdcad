use bevy_turborand::DelegatedRng;
use bevy_turborand::RngComponent;
use std::ops::Range;
use vstd::prelude::*;

verus! {

#[verifier::external_type_specification]
#[verifier::external_body]
pub struct ExRngComponent(RngComponent);

/// Draws a number from `start..end` with `RngComponent::u32` of bevy_turborand
/// (delegated to `TurboRand::u32`). The value is random; what holds of every
/// outcome is that it lies in the half-open range. turborand panics on an
/// empty range, which `requires` leaves out.
#[verifier::external_body]
fn random_u32_in(rng: &mut RngComponent, start: u32, end: u32) -> (value: u32)
    requires
        start < end,
    ensures
        start <= value < end,
{
    rng.u32(start..end)
}

/// A countdown that restarts from a fixed value after it reaches zero.
#[derive(Clone, Copy, Debug)]
pub struct Countdown {
    pub initial_value: u32,
    pub current_value: u32,
}

impl Countdown {
    pub fn new(initial_value: u32) -> (countdown: Self)
        ensures
            countdown.initial_value == initial_value,
            countdown.current_value == initial_value,
    {
        Self { initial_value, current_value: initial_value }
    }

    /// Advances the countdown by one tick; yields `true` on the tick that
    /// finds it at zero, and then restarts it.
    pub fn tick_yield(&mut self) -> (yielded: bool)
        ensures
            (*final(self), yielded) == countdown_tick(*old(self)),
            yielded == (old(self).current_value == 0),
            final(self).initial_value == old(self).initial_value,
            final(self).current_value == if old(self).current_value == 0 {
                old(self).initial_value
            } else {
                (old(self).current_value - 1) as u32
            },
    {
        if self.current_value == 0 {
            self.current_value = self.initial_value;
            true
        } else {
            self.current_value = self.current_value - 1;
            false
        }
    }
}

/// One tick of a countdown: the countdown after it, and whether it yielded.
pub open spec fn countdown_tick(c: Countdown) -> (Countdown, bool) {
    if c.current_value == 0 {
        (Countdown { initial_value: c.initial_value, current_value: c.initial_value }, true)
    } else {
        (Countdown { initial_value: c.initial_value, current_value: (c.current_value - 1) as u32 }, false)
    }
}

/// A countdown after `k` ticks.
pub open spec fn countdown_after(c: Countdown, k: nat) -> Countdown
    decreases k,
{
    if k == 0 {
        c
    } else {
        countdown_tick(countdown_after(c, (k - 1) as nat)).0
    }
}

proof fn lemma_countdown_after_fresh(n: u32, k: nat)
    requires
        k <= n,
    ensures
        countdown_after(Countdown { initial_value: n, current_value: n }, k)
            == (Countdown { initial_value: n, current_value: (n - k) as u32 }),
    decreases k,
{
    if k > 0 {
        lemma_countdown_after_fresh(n, (k - 1) as nat);
    }
}

/// A countdown started at `n` yields on exactly one tick out of every `n + 1`:
/// the first `n` ticks do not yield, tick `n + 1` yields, and after it the
/// countdown is as it started.
pub proof fn law_countdown_period(n: u32)
    ensures
        forall|k: nat|
            k <= n ==> #[trigger] countdown_tick(countdown_after(Countdown { initial_value: n, current_value: n }, k)).1
                == (k == n),
        countdown_after(Countdown { initial_value: n, current_value: n }, (n + 1) as nat)
            == (Countdown { initial_value: n, current_value: n }),
{
    assert forall|k: nat|
        k <= n implies #[trigger] countdown_tick(countdown_after(Countdown { initial_value: n, current_value: n }, k)).1
            == (k == n) by {
        lemma_countdown_after_fresh(n, k);
    }
    lemma_countdown_after_fresh(n, n as nat);
}

/// A countdown that restarts from a random value drawn from `range`.
#[derive(Clone, Copy, Debug)]
pub struct VariableCountdown {
    pub range_start: u32,
    pub range_end: u32,
    pub current_value: u32,
    pub pristine: bool,
}

impl VariableCountdown {
    pub fn new(range: Range<u32>) -> (countdown: Self)
        requires
            range.start >= 1,
        ensures
            countdown.range_start == range.start,
            countdown.range_end == range.end,
            countdown.current_value == 0,
            countdown.pristine,
    {
        Self { range_start: range.start, range_end: range.end, current_value: 0, pristine: true }
    }

    /// Advances the countdown by one tick. When it is at zero a new value is
    /// drawn from the range; the very first draw only starts the countdown
    /// (one tick already spent), every later one yields `true`.
    pub fn tick_yield(&mut self, rng: &mut RngComponent) -> (yielded: bool)
        requires
            1 <= old(self).range_start < old(self).range_end,
        ensures
            final(self).range_start == old(self).range_start,
            final(self).range_end == old(self).range_end,
            old(self).current_value > 0 ==> {
                &&& !yielded
                &&& final(self).current_value == old(self).current_value - 1
                &&& final(self).pristine == old(self).pristine
            },
            old(self).current_value == 0 ==> {
                &&& !final(self).pristine
                &&& yielded == !old(self).pristine
                &&& old(self).range_start <= final(self).current_value + (if old(self).pristine { 1int } else { 0int })
                &&& final(self).current_value + (if old(self).pristine { 1int } else { 0int }) < old(self).range_end
            },
    {
        if self.current_value > 0 {
            self.current_value = self.current_value - 1;
            return false;
        } else {
            let initial_value = random_u32_in(rng, self.range_start, self.range_end);
            self.current_value = initial_value;
            if self.pristine {
                self.pristine = false;
                self.current_value = self.current_value - 1;
                return false;
            }
            return true;
        }
    }
}

} // verus!
