//! The countdown state machine: a mode, elapsed time, an activity flag
//! and a one-shot finish edge, all measured in whole milliseconds.

use vstd::prelude::*;

verus! {

/// How the displayed number advances while counting down.
#[derive(Clone, Copy, PartialEq, Eq, Structural, Debug)]
pub enum CountdownMode {
    /// Even pace: the number is the ceiling of the remaining seconds.
    Normal,
    /// Ten dwell steps that shorten linearly from 1.8 s down to 1.3 s.
    Accelerated,
    /// Ten dwell steps that lengthen linearly from 1.3 s up to 1.8 s.
    Decelerated,
}

impl Default for CountdownMode {
    fn default() -> (r: Self)
        ensures
            r == CountdownMode::Normal,
    {
        CountdownMode::Normal
    }
}

/// Total running time of the ten dwell steps, in milliseconds.
pub const TOTAL_STEP_MS: u64 = 15500;

/// Largest Normal-mode duration, chosen so that the displayed number
/// (a count of seconds) always fits an `i32`.
pub const MAX_DURATION_MS: u64 = 2_147_483_647_000;

/// Dwell time in milliseconds of step `i` (0 shows the number 10, 9 shows
/// the number 1) in accelerated mode: 1800 ms at the first step, 1300 ms
/// at the last, interpolated linearly and rounded to the nearest
/// millisecond.
pub open spec fn spec_accel_dwell(i: int) -> int {
    1800 - (1000 * i + 9) / 18
}

/// Dwell time of step `i` in decelerated mode: the mirror image of the
/// accelerated profile, from 1300 ms up to 1800 ms.
pub open spec fn spec_decel_dwell(i: int) -> int {
    1300 + (1000 * i + 9) / 18
}

/// Dwell time of step `i` for a stepped mode.
pub open spec fn spec_step_dwell(accel: bool, i: int) -> int {
    if accel {
        spec_accel_dwell(i)
    } else {
        spec_decel_dwell(i)
    }
}

/// Total dwell time of the first `k` steps.
pub open spec fn spec_step_cum(accel: bool, k: int) -> int
    decreases k,
{
    if k <= 0 {
        0
    } else {
        spec_step_cum(accel, k - 1) + spec_step_dwell(accel, k - 1)
    }
}

/// Dwell time of step `i`, executable form.
pub fn step_dwell(accel: bool, i: u64) -> (d: u64)
    requires
        i < 10,
    ensures
        d == spec_step_dwell(accel, i as int),
        1300 <= d <= 1800,
{
    let off = (1000 * i + 9) / 18;
    assert(off <= 500) by {
        assert(18 * off <= 1000 * i + 9 <= 9009);
    }
    if accel {
        1800 - off
    } else {
        1300 + off
    }
}

/// The number shown in a stepped mode after `elapsed_ms` of counting,
/// examined from step `k` on: 10 minus the count of fully elapsed dwell
/// steps, reaching 0 once all ten have passed.
pub open spec fn spec_step_number_from(accel: bool, elapsed_ms: int, k: int) -> int
    decreases 10 - k,
{
    if k >= 10 {
        0
    } else if elapsed_ms < spec_step_cum(accel, k + 1) {
        10 - k
    } else {
        spec_step_number_from(accel, elapsed_ms, k + 1)
    }
}

/// The number shown in a stepped mode after `elapsed_ms` of counting.
pub open spec fn spec_step_number(accel: bool, elapsed_ms: int) -> int {
    spec_step_number_from(accel, elapsed_ms, 0)
}

/// The number shown in Normal mode: the ceiling of the remaining
/// seconds, and 0 once the duration has elapsed.
pub open spec fn spec_normal_number(duration_ms: int, elapsed_ms: int) -> int {
    if elapsed_ms >= duration_ms {
        0
    } else {
        (duration_ms - elapsed_ms + 999) / 1000
    }
}

/// The countdown: inactive until started, then counting down under its
/// mode until the finish condition holds, which raises the one-shot
/// `just_finished` edge and deactivates.
#[derive(Clone, Copy, PartialEq, Eq, Structural, Debug)]
pub struct CountdownTimer {
    /// Total duration of a Normal-mode run, in milliseconds.
    pub duration_ms: u64,
    /// Time spent counting since the last start, in milliseconds.
    pub total_elapsed_ms: u64,
    /// The elapsed time at which the displayed number last changed.
    pub current_number_start_ms: u64,
    pub is_active: bool,
    /// The number most recently displayed; -1 before any display.
    pub last_displayed_number: i32,
    /// Edge flag: set by the finishing tick, consumed exactly once.
    pub just_finished: bool,
    pub mode: CountdownMode,
}

impl CountdownTimer {
    /// The duration keeps the displayed number inside `i32`.
    pub open spec fn wf(&self) -> bool {
        self.duration_ms <= MAX_DURATION_MS
    }

    /// The number this timer displays at its current elapsed time.
    pub open spec fn spec_number(&self) -> int {
        match self.mode {
            CountdownMode::Normal => spec_normal_number(
                self.duration_ms as int,
                self.total_elapsed_ms as int,
            ),
            CountdownMode::Accelerated => spec_step_number(true, self.total_elapsed_ms as int),
            CountdownMode::Decelerated => spec_step_number(false, self.total_elapsed_ms as int),
        }
    }

    /// Whether the current elapsed time has reached the finish line:
    /// the fixed ten-step total in the stepped modes, the configured
    /// duration in Normal mode.
    pub open spec fn spec_finished(&self) -> bool {
        if self.mode == CountdownMode::Normal {
            self.total_elapsed_ms >= self.duration_ms
        } else {
            self.total_elapsed_ms >= TOTAL_STEP_MS
        }
    }

    /// A fresh, inactive timer.
    pub fn new(duration_ms: u64, mode: CountdownMode) -> (t: Self)
        requires
            duration_ms <= MAX_DURATION_MS,
        ensures
            t == (CountdownTimer {
                duration_ms,
                total_elapsed_ms: 0,
                current_number_start_ms: 0,
                is_active: false,
                last_displayed_number: -1i32,
                just_finished: false,
                mode,
            }),
    {
        CountdownTimer {
            duration_ms,
            total_elapsed_ms: 0,
            current_number_start_ms: 0,
            is_active: false,
            last_displayed_number: -1i32,
            just_finished: false,
            mode,
        }
    }

    /// Starts (or restarts) the countdown: elapsed time returns to zero
    /// and the timer becomes active; the finish edge is re-armed.
    pub fn start(&mut self)
        ensures
            *final(self) == (CountdownTimer {
                duration_ms: old(self).duration_ms,
                total_elapsed_ms: 0,
                current_number_start_ms: 0,
                is_active: true,
                last_displayed_number: -1i32,
                just_finished: false,
                mode: old(self).mode,
            }),
    {
        self.is_active = true;
        self.last_displayed_number = -1;
        self.just_finished = false;
        self.current_number_start_ms = 0;
        self.total_elapsed_ms = 0;
    }

    /// Deactivates and clears all per-run state; duration and mode stay.
    pub fn stop(&mut self)
        ensures
            *final(self) == (CountdownTimer {
                duration_ms: old(self).duration_ms,
                total_elapsed_ms: 0,
                current_number_start_ms: 0,
                is_active: false,
                last_displayed_number: -1i32,
                just_finished: false,
                mode: old(self).mode,
            }),
    {
        self.is_active = false;
        self.last_displayed_number = -1;
        self.just_finished = false;
        self.current_number_start_ms = 0;
        self.total_elapsed_ms = 0;
    }

    /// Milliseconds left in a Normal-mode run; an inactive timer reports
    /// its full duration.
    pub fn remaining_ms(&self) -> (r: u64)
        ensures
            r == (if self.is_active {
                if self.total_elapsed_ms < self.duration_ms {
                    self.duration_ms - self.total_elapsed_ms
                } else {
                    0
                }
            } else {
                self.duration_ms as int
            }),
    {
        if self.is_active {
            if self.total_elapsed_ms < self.duration_ms {
                self.duration_ms - self.total_elapsed_ms
            } else {
                0
            }
        } else {
            self.duration_ms
        }
    }

    /// Whole seconds left, rounded up; an inactive timer reports its
    /// full duration.  The Normal-mode display counts these seconds.
    pub fn remaining_seconds(&self) -> (r: u64)
        requires
            self.wf(),
        ensures
            r == (if self.is_active {
                spec_normal_number(self.duration_ms as int, self.total_elapsed_ms as int)
            } else {
                (self.duration_ms + 999) / 1000
            }),
    {
        let rem = self.remaining_ms();
        (rem + 999) / 1000
    }

    /// The number to display at the current elapsed time, under the
    /// current mode.
    pub fn get_accelerated_number(&self) -> (n: i32)
        requires
            self.wf(),
        ensures
            n == self.spec_number(),
            0 <= n,
    {
        match self.mode {
            CountdownMode::Normal => {
                if self.total_elapsed_ms >= self.duration_ms {
                    0
                } else {
                    ((self.duration_ms - self.total_elapsed_ms + 999) / 1000) as i32
                }
            },
            CountdownMode::Accelerated => self.step_number(true),
            CountdownMode::Decelerated => self.step_number(false),
        }
    }

    /// The stepped-mode number: walks the dwell steps until the one the
    /// elapsed time falls into.
    fn step_number(&self, accel: bool) -> (n: i32)
        ensures
            n == spec_step_number(accel, self.total_elapsed_ms as int),
            0 <= n <= 10,
    {
        let elapsed = self.total_elapsed_ms;
        let mut acc: u64 = 0;
        let mut i: u64 = 0;
        while i < 10
            invariant
                i <= 10,
                elapsed == self.total_elapsed_ms,
                acc == spec_step_cum(accel, i as int),
                acc <= 1800 * i,
                elapsed >= acc,
                spec_step_number(accel, elapsed as int) == spec_step_number_from(
                    accel,
                    elapsed as int,
                    i as int,
                ),
            decreases 10 - i,
        {
            let d = step_dwell(accel, i);
            acc = acc + d;
            proof {
                assert(acc == spec_step_cum(accel, i + 1));
            }
            if elapsed < acc {
                proof {
                    assert(spec_step_number_from(accel, elapsed as int, i as int) == 10 - i);
                }
                return (10 - i) as i32;
            }
            i = i + 1;
        }
        0
    }

    /// The state one tick of `delta` milliseconds leads to: an inactive
    /// timer is untouched; an active one advances, redraws its number,
    /// and on reaching the finish line stops with the finish edge set.
    pub open spec fn spec_after_tick(t: CountdownTimer, delta: int) -> CountdownTimer {
        if !t.is_active {
            t
        } else {
            let advanced = CountdownTimer {
                total_elapsed_ms: (t.total_elapsed_ms + delta) as u64,
                ..t
            };
            let num = advanced.spec_number();
            if advanced.spec_finished() {
                CountdownTimer {
                    duration_ms: t.duration_ms,
                    total_elapsed_ms: 0,
                    current_number_start_ms: 0,
                    is_active: false,
                    last_displayed_number: -1i32,
                    just_finished: true,
                    mode: t.mode,
                }
            } else {
                CountdownTimer {
                    duration_ms: t.duration_ms,
                    total_elapsed_ms: advanced.total_elapsed_ms,
                    current_number_start_ms: (if num != t.last_displayed_number {
                        advanced.total_elapsed_ms
                    } else {
                        t.current_number_start_ms
                    }),
                    is_active: true,
                    last_displayed_number: num as i32,
                    just_finished: t.just_finished,
                    mode: t.mode,
                }
            }
        }
    }

    /// The display update one tick of `delta` milliseconds produces:
    /// the newly shown number when it changed, and nothing otherwise.
    pub open spec fn spec_tick_display(t: CountdownTimer, delta: int) -> Option<i32> {
        if !t.is_active {
            None
        } else {
            let advanced = CountdownTimer {
                total_elapsed_ms: (t.total_elapsed_ms + delta) as u64,
                ..t
            };
            let num = advanced.spec_number();
            if num != t.last_displayed_number {
                Some(num as i32)
            } else {
                None
            }
        }
    }

    /// One tick of counting.  An inactive timer ignores the tick.  An
    /// active one advances its elapsed time by `delta_ms`, and when the
    /// newly displayed number differs from the last one it is returned
    /// so the display layer can redraw.  When the finish line is reached
    /// the timer stops and raises the one-shot `just_finished` edge.
    pub fn tick(&mut self, delta_ms: u64) -> (display: Option<i32>)
        requires
            old(self).wf(),
            old(self).total_elapsed_ms + delta_ms <= u64::MAX,
        ensures
            final(self).wf(),
            *final(self) == Self::spec_after_tick(*old(self), delta_ms as int),
            display == Self::spec_tick_display(*old(self), delta_ms as int),
    {
        if !self.is_active {
            return None;
        }
        self.total_elapsed_ms = self.total_elapsed_ms + delta_ms;
        let num = self.get_accelerated_number();
        let display = if num != self.last_displayed_number {
            self.last_displayed_number = num;
            self.current_number_start_ms = self.total_elapsed_ms;
            Some(num)
        } else {
            None
        };
        let finished = if match self.mode {
            CountdownMode::Normal => true,
            _ => false,
        } {
            self.total_elapsed_ms >= self.duration_ms
        } else {
            self.total_elapsed_ms >= TOTAL_STEP_MS
        };
        if finished {
            self.stop();
            self.just_finished = true;
        }
        display
    }

    /// Consumes the finish edge: reports whether the countdown has just
    /// finished and clears the flag, so each activation's finish is
    /// observed at most once.
    pub fn take_finished(&mut self) -> (fin: bool)
        ensures
            fin == old(self).just_finished,
            *final(self) == (CountdownTimer { just_finished: false, ..*old(self) }),
    {
        if self.just_finished {
            self.just_finished = false;
            true
        } else {
            false
        }
    }
}

/// Law: the accelerated dwell steps fall strictly from exactly 1800 ms to
/// exactly 1300 ms and sum to exactly 15500 ms; the decelerated profile is
/// the mirror image (step `i` pairs with step `9 - i`), rising strictly
/// from 1300 ms to 1800 ms with the same total.
pub proof fn lemma_dwell_profile()
    ensures
        spec_accel_dwell(0) == 1800,
        spec_accel_dwell(9) == 1300,
        forall|i: int| 0 <= i < 9 ==> #[trigger] spec_accel_dwell(i + 1) < spec_accel_dwell(i),
        spec_step_cum(true, 10) == TOTAL_STEP_MS,
        spec_decel_dwell(0) == 1300,
        spec_decel_dwell(9) == 1800,
        forall|i: int| 0 <= i < 9 ==> #[trigger] spec_decel_dwell(i + 1) > spec_decel_dwell(i),
        spec_step_cum(false, 10) == TOTAL_STEP_MS,
        forall|i: int| 0 <= i < 10 ==> #[trigger] spec_decel_dwell(i) == spec_accel_dwell(9 - i),
{
    assert(spec_accel_dwell(0) == 1800);
    assert(spec_accel_dwell(1) == 1744);
    assert(spec_accel_dwell(2) == 1689);
    assert(spec_accel_dwell(3) == 1633);
    assert(spec_accel_dwell(4) == 1578);
    assert(spec_accel_dwell(5) == 1522);
    assert(spec_accel_dwell(6) == 1467);
    assert(spec_accel_dwell(7) == 1411);
    assert(spec_accel_dwell(8) == 1356);
    assert(spec_accel_dwell(9) == 1300);
    assert(spec_decel_dwell(0) == 1300);
    assert(spec_decel_dwell(1) == 1356);
    assert(spec_decel_dwell(2) == 1411);
    assert(spec_decel_dwell(3) == 1467);
    assert(spec_decel_dwell(4) == 1522);
    assert(spec_decel_dwell(5) == 1578);
    assert(spec_decel_dwell(6) == 1633);
    assert(spec_decel_dwell(7) == 1689);
    assert(spec_decel_dwell(8) == 1744);
    assert(spec_decel_dwell(9) == 1800);
    assert forall|i: int| 0 <= i < 9 implies #[trigger] spec_accel_dwell(i + 1) < spec_accel_dwell(i) by {
        if i == 0 {
        } else if i == 1 {
        } else if i == 2 {
        } else if i == 3 {
        } else if i == 4 {
        } else if i == 5 {
        } else if i == 6 {
        } else if i == 7 {
        } else {
            assert(i == 8);
        }
    }
    assert forall|i: int| 0 <= i < 9 implies #[trigger] spec_decel_dwell(i + 1) > spec_decel_dwell(i) by {
        if i == 0 {
        } else if i == 1 {
        } else if i == 2 {
        } else if i == 3 {
        } else if i == 4 {
        } else if i == 5 {
        } else if i == 6 {
        } else if i == 7 {
        } else {
            assert(i == 8);
        }
    }
    assert forall|i: int| 0 <= i < 10 implies #[trigger] spec_decel_dwell(i) == spec_accel_dwell(9 - i) by {
        if i == 0 {
        } else if i == 1 {
        } else if i == 2 {
        } else if i == 3 {
        } else if i == 4 {
        } else if i == 5 {
        } else if i == 6 {
        } else if i == 7 {
        } else if i == 8 {
        } else {
            assert(i == 9);
        }
    }
    assert(spec_step_cum(true, 0) == 0);
    assert(spec_step_cum(true, 1) == 1800);
    assert(spec_step_cum(true, 2) == 3544);
    assert(spec_step_cum(true, 3) == 5233);
    assert(spec_step_cum(true, 4) == 6866);
    assert(spec_step_cum(true, 5) == 8444);
    assert(spec_step_cum(true, 6) == 9966);
    assert(spec_step_cum(true, 7) == 11433);
    assert(spec_step_cum(true, 8) == 12844);
    assert(spec_step_cum(true, 9) == 14200);
    assert(spec_step_cum(true, 10) == 15500);
    assert(spec_step_cum(false, 0) == 0);
    assert(spec_step_cum(false, 1) == 1300);
    assert(spec_step_cum(false, 2) == 2656);
    assert(spec_step_cum(false, 3) == 4067);
    assert(spec_step_cum(false, 4) == 5534);
    assert(spec_step_cum(false, 5) == 7056);
    assert(spec_step_cum(false, 6) == 8634);
    assert(spec_step_cum(false, 7) == 10267);
    assert(spec_step_cum(false, 8) == 11956);
    assert(spec_step_cum(false, 9) == 13700);
    assert(spec_step_cum(false, 10) == 15500);
}

} // verus!
