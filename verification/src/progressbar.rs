//! A progress tracker: a percentage advanced in fixed steps from a
//! configured range, with a fixed-width textual bar.
//!
//! Percentages are held in an exact fixed-point representation: an `i64`
//! counts units of one ten-thousandth of a percent, so `PERCENT_UNIT` is
//! one percent and `HUNDRED_PERCENT` is completion. Callers that measure
//! their range in floating point scale into these units at the boundary.

use vstd::prelude::*;

verus! {

/// One percent, in the fixed-point representation of percentages.
pub const PERCENT_UNIT: i64 = 10_000;

/// One hundred percent: the completion threshold.
pub const HUNDRED_PERCENT: i64 = 100 * PERCENT_UNIT;

/// `a + b` saturated to the range of `i64`.
pub open spec fn sat_add_i64(a: int, b: int) -> int {
    if a + b > i64::MAX as int {
        i64::MAX as int
    } else if a + b < i64::MIN as int {
        i64::MIN as int
    } else {
        a + b
    }
}

/// The step a tracking session advances by: one hundredth of the configured
/// range. Truncating division, as the magnitudes divide.
pub open spec fn step_of(min: int, max: int) -> int {
    if max >= min {
        (max - min) / 100
    } else {
        -((min - max) / 100)
    }
}

/// One progress-tracking session: a current percentage, the fixed step each
/// advance adds, and the width of the rendered bar in characters.
pub struct ProgressBar {
    /// Current percentage, in units of one ten-thousandth of a percent.
    pub percent: i64,
    /// What each advance adds; negative when the range was given reversed.
    pub percent_step: i64,
    /// Width of the rendered bar, in characters.
    pub nb_of_char: i32,
}

impl ProgressBar {
    /// The session counts as complete once the percentage reaches one hundred.
    pub open spec fn done(self) -> bool {
        self.percent >= HUNDRED_PERCENT
    }

    /// Starts a session over the range `[min, max]`, scaled by `PERCENT_UNIT`:
    /// the step is one hundredth of the range, the percentage starts at zero.
    /// A reversed range is accepted and yields a negative step.
    pub fn new(min: i64, max: i64, nb_of_char: i32) -> (bar: ProgressBar)
        requires
            max - min <= i64::MAX,
            min - max <= i64::MAX,
        ensures
            bar.percent == 0,
            bar.percent_step == step_of(min as int, max as int),
            bar.nb_of_char == nb_of_char,
    {
        let step: i64 = if max >= min {
            (((max - min) as u64) / 100) as i64
        } else {
            -((((min - max) as u64) / 100) as i64)
        };
        ProgressBar { percent: 0, percent_step: step, nb_of_char }
    }

    /// The session after one advance: complete sessions are left untouched,
    /// any other has the step added to its percentage, saturated to `i64`.
    pub open spec fn after_advance(self) -> ProgressBar {
        if self.done() {
            self
        } else {
            ProgressBar {
                percent: sat_add_i64(self.percent as int, self.percent_step as int) as i64,
                ..self
            }
        }
    }

    /// What one advance reports: a complete session reports one hundred
    /// percent, any other its newly advanced percentage.
    pub open spec fn advance_result(self) -> int {
        if self.done() {
            HUNDRED_PERCENT as int
        } else {
            sat_add_i64(self.percent as int, self.percent_step as int)
        }
    }

    /// The session after a reset: the percentage back at zero, the step and
    /// the bar width untouched, so the session can be reused.
    pub open spec fn after_reset(self) -> ProgressBar {
        ProgressBar { percent: 0, ..self }
    }

    /// Advances the session by one step and returns the new percentage. Once
    /// the session is complete, further advances return one hundred percent
    /// exactly and alter nothing. On the advance that crosses the threshold
    /// the overshot value itself is returned, uncapped.
    pub fn get_next(&mut self) -> (r: i64)
        ensures
            *final(self) == old(self).after_advance(),
            r as int == old(self).advance_result(),
            old(self).done() ==> r == HUNDRED_PERCENT && *final(self) == *old(self),
            old(self).percent_step >= 0 ==> final(self).percent >= old(self).percent,
    {
        if self.is_done() {
            return HUNDRED_PERCENT;
        }
        let p = self.percent;
        let s = self.percent_step;
        let np: i64 = if s >= 0 {
            if p <= i64::MAX - s {
                p + s
            } else {
                i64::MAX
            }
        } else {
            if p >= i64::MIN - s {
                p + s
            } else {
                i64::MIN
            }
        };
        self.percent = np;
        np
    }

    /// Sets the percentage back to zero; the step and the bar width are
    /// untouched, so the session can be reused.
    pub fn reset(&mut self)
        ensures
            *final(self) == old(self).after_reset(),
    {
        self.percent = 0;
    }

    /// Completion test. Mutable access is taken for parity with the other
    /// session operations, but nothing is altered.
    pub fn is_done(&mut self) -> (r: bool)
        ensures
            r == old(self).done(),
            *final(self) == *old(self),
    {
        self.percent >= HUNDRED_PERCENT
    }

    /// The width of the rendered bar: the configured character count, with a
    /// negative configuration rendering nothing.
    pub open spec fn width(self) -> nat {
        if self.nb_of_char >= 0 {
            self.nb_of_char as nat
        } else {
            0
        }
    }

    /// The percentage as rendered, held to the range of zero to one hundred.
    pub open spec fn clamped_percent(self) -> int {
        if self.percent < 0 {
            0
        } else if self.percent > HUNDRED_PERCENT {
            HUNDRED_PERCENT as int
        } else {
            self.percent as int
        }
    }

    /// How many leading cells of the bar are filled: the completed share of
    /// the width, rounded down.
    pub open spec fn filled_cells(self) -> int {
        self.clamped_percent() * self.width() / (HUNDRED_PERCENT as int)
    }

    /// The rendered bar: one filled glyph per completed cell, the remainder
    /// not-done glyphs, `width` characters in all.
    pub open spec fn bar_view(self) -> Seq<char> {
        Seq::new(
            self.width(),
            |i: int|
                if i < self.filled_cells() {
                    '■'
                } else {
                    '□'
                },
        )
    }

    /// Renders the bar as a fixed-width line of text: the completed share of
    /// the width filled, the rest left empty. The fill rounds down, so no
    /// partially-filled glyph arises.
    pub fn show(&self) -> (r: String)
        ensures
            r@ == self.bar_view(),
    {
        let width: u64 = if self.nb_of_char >= 0 {
            self.nb_of_char as u64
        } else {
            0
        };
        let clamped: u64 = if self.percent < 0 {
            0
        } else if self.percent > HUNDRED_PERCENT {
            HUNDRED_PERCENT as u64
        } else {
            self.percent as u64
        };
        assert(clamped * width <= 1_000_000 * 0x8000_0000) by (nonlinear_arith)
            requires
                clamped <= 1_000_000,
                width <= 0x8000_0000,
        ;
        let filled: u64 = (clamped * width) / (HUNDRED_PERCENT as u64);
        let mut bar = String::new();
        let mut i: u64 = 0;
        while i < width
            invariant
                i <= width,
                bar@.len() == i as nat,
                filled == self.filled_cells(),
                width == self.width(),
                forall|j: int| 0 <= j < i ==> bar@[j] == self.bar_view()[j],
            decreases width - i,
        {
            proof {
                reveal_strlit("■");
                reveal_strlit("□");
            }
            if i < filled {
                bar.append("■");
            } else {
                bar.append("□");
            }
            i = i + 1;
        }
        proof {
            assert(bar@ =~= self.bar_view());
        }
        bar
    }
}

/// A session whose step is exactly one percent reaches completion after
/// exactly one hundred advances: after `k` of them the stored percentage is
/// `k` percent, the next advance reports `k + 1` percent, and completion
/// holds afterwards exactly when `k + 1` is one hundred.
pub proof fn lemma_unit_step_progress(bar: ProgressBar, k: int)
    requires
        bar.percent_step == PERCENT_UNIT,
        0 <= k < 100,
        bar.percent == k * PERCENT_UNIT,
    ensures
        !bar.done(),
        bar.advance_result() == (k + 1) * PERCENT_UNIT,
        bar.after_advance().percent == (k + 1) * PERCENT_UNIT,
        bar.after_advance().done() <==> k + 1 == 100,
{
}

/// The session after `n` advances.
pub open spec fn after_advances(bar: ProgressBar, n: nat) -> ProgressBar
    decreases n,
{
    if n == 0 {
        bar
    } else {
        after_advances(bar, (n - 1) as nat).after_advance()
    }
}

/// A session started at zero percent with a step of exactly one percent is
/// complete after exactly one hundred advances: after `n` of them the stored
/// percentage is `n` percent, and completion holds exactly when `n` has
/// reached one hundred.
pub proof fn lemma_done_after_exactly_hundred_advances(bar: ProgressBar, n: nat)
    requires
        bar.percent == 0,
        bar.percent_step == PERCENT_UNIT,
        n <= 100,
    ensures
        after_advances(bar, n).percent == n * PERCENT_UNIT,
        after_advances(bar, n).percent_step == PERCENT_UNIT,
        after_advances(bar, n).done() <==> n == 100,
    decreases n,
{
    if n > 0 {
        lemma_done_after_exactly_hundred_advances(bar, (n - 1) as nat);
        lemma_unit_step_progress(after_advances(bar, (n - 1) as nat), n - 1);
    }
}

/// A reset restarts the session: afterwards it is not complete, and the next
/// advance reports exactly the step, not one hundred percent plus the step.
pub proof fn lemma_reset_restarts(bar: ProgressBar)
    ensures
        !bar.after_reset().done(),
        bar.after_reset().advance_result() == bar.percent_step,
{
}

} // verus!
