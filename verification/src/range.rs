//! The visible window into the loaded series: two slider positions
//! `low` and `high`, kept at least two indices apart so the charted
//! x-axis never degenerates to a single point or a zero-width span.

use vstd::prelude::*;

verus! {

/// Width of the default trailing window shown after a load: the most
/// recent 60 readings, or the whole series if it is shorter.
pub const DEFAULT_WINDOW: usize = 60;

/// The two slider positions selecting the charted sub-range
/// `[low, high]` of a series of `length` readings.
#[derive(Clone, Copy, Debug, PartialEq, Eq, Structural)]
pub struct RangeSelector {
    pub low: usize,
    pub high: usize,
    pub length: usize,
}

/// The default trailing window start for a series of `length` readings.
pub open spec fn spec_default_low(length: int) -> int {
    if length >= DEFAULT_WINDOW { length - DEFAULT_WINDOW } else { 0 }
}

/// Where `set_low` puts `low`: the requested value, clamped to
/// `[0, high - 2]`.
pub open spec fn spec_clamp_low(v: int, high: int) -> int {
    if v > high - 2 { high - 2 } else { v }
}

/// Where `set_high` puts `high`: the requested value, clamped to
/// `[low + 2, length - 1]`.
pub open spec fn spec_clamp_high(v: int, low: int, length: int) -> int {
    if v < low + 2 { low + 2 } else if v > length - 1 { length - 1 } else { v }
}

impl RangeSelector {
    /// Both positions are valid indices and the window spans at least
    /// three readings.
    pub open spec fn wf(self) -> bool {
        self.low + 2 <= self.high && self.high < self.length
    }

    /// The selector after `set_low(v)`; `high` and `length` are untouched.
    pub open spec fn spec_with_low(self, v: int) -> RangeSelector {
        RangeSelector { low: spec_clamp_low(v, self.high as int) as usize, ..self }
    }

    /// The selector after `set_high(v)`; `low` and `length` are untouched.
    pub open spec fn spec_with_high(self, v: int) -> RangeSelector {
        RangeSelector {
            high: spec_clamp_high(v, self.low as int, self.length as int) as usize,
            ..self
        }
    }

    /// The default trailing window over a series of `length` readings.
    pub open spec fn spec_default(length: int) -> RangeSelector {
        RangeSelector {
            low: spec_default_low(length) as usize,
            high: (length - 1) as usize,
            length: length as usize,
        }
    }

    /// Open the default trailing window over a freshly loaded series.
    /// A series shorter than three readings admits no valid window, so
    /// the caller rejects it first.
    pub fn new(length: usize) -> (s: RangeSelector)
        requires
            3 <= length,
        ensures
            s == RangeSelector::spec_default(length as int),
            s.low == spec_default_low(length as int),
            s.high == length - 1,
            s.length == length,
            s.wf(),
    {
        let low: usize = if length >= DEFAULT_WINDOW { length - DEFAULT_WINDOW } else { 0 };
        RangeSelector { low, high: length - 1, length }
    }

    /// Recompute the default trailing window after the series was
    /// replaced by a new load of `length` readings.
    pub fn reinitialize(&mut self, length: usize)
        requires
            3 <= length,
        ensures
            *final(self) == RangeSelector::spec_default(length as int),
            final(self).low == spec_default_low(length as int),
            final(self).high == length - 1,
            final(self).length == length,
            final(self).wf(),
    {
        *self = RangeSelector::new(length);
    }

    /// Move the lower slider. The request is clamped to `[0, high - 2]`;
    /// `high` never changes, and the minimum gap survives any input.
    pub fn set_low(&mut self, v: usize)
        requires
            old(self).wf(),
        ensures
            *final(self) == old(self).spec_with_low(v as int),
            final(self).low == spec_clamp_low(v as int, old(self).high as int),
            final(self).high == old(self).high,
            final(self).length == old(self).length,
            final(self).wf(),
    {
        let bound: usize = self.high - 2;
        self.low = if v > bound { bound } else { v };
    }

    /// Move the upper slider. The request is clamped to
    /// `[low + 2, length - 1]`; `low` never changes, and the minimum gap
    /// survives any input.
    pub fn set_high(&mut self, v: usize)
        requires
            old(self).wf(),
        ensures
            *final(self) == old(self).spec_with_high(v as int),
            final(self).high == spec_clamp_high(
                v as int,
                old(self).low as int,
                old(self).length as int,
            ),
            final(self).low == old(self).low,
            final(self).length == old(self).length,
            final(self).wf(),
    {
        let lo_bound: usize = self.low + 2;
        let hi_bound: usize = self.length - 1;
        self.high = if v < lo_bound {
            lo_bound
        } else if v > hi_bound {
            hi_bound
        } else {
            v
        };
    }
}

/// One slider event, as fed to the selector by the event intake.
#[derive(Clone, Copy, Debug, PartialEq, Eq, Structural)]
pub enum RangeOp {
    Low(usize),
    High(usize),
}

/// The selector after one slider event.
pub open spec fn spec_apply_op(s: RangeSelector, op: RangeOp) -> RangeSelector {
    match op {
        RangeOp::Low(v) => s.spec_with_low(v as int),
        RangeOp::High(v) => s.spec_with_high(v as int),
    }
}

/// The selector after a whole sequence of slider events, applied in order.
pub open spec fn spec_apply_ops(s: RangeSelector, ops: Seq<RangeOp>) -> RangeSelector
    decreases ops.len(),
{
    if ops.len() == 0 {
        s
    } else {
        spec_apply_ops(spec_apply_op(s, ops[0]), ops.subrange(1, ops.len() as int))
    }
}

/// Law: the default trailing window over any series of `length >= 3`
/// readings is valid: `low` is in range, the minimum gap holds, `high` is
/// the last index, and the window is no wider than the series.
pub proof fn lemma_default_window_valid(length: int)
    requires
        3 <= length <= usize::MAX,
    ensures
        RangeSelector::spec_default(length).wf(),
        0 <= RangeSelector::spec_default(length).low,
        RangeSelector::spec_default(length).low + 2 <= RangeSelector::spec_default(length).high,
        RangeSelector::spec_default(length).high == length - 1,
        RangeSelector::spec_default(length).high - RangeSelector::spec_default(length).low + 1
            <= length,
{
}

/// Law: `set_low` is idempotent — clamping the same request a second time
/// moves nothing, so the `(low, high)` pair is the same after one
/// application and after two.
pub proof fn lemma_set_low_idempotent(s: RangeSelector, v: usize)
    requires
        s.wf(),
    ensures
        s.spec_with_low(v as int).spec_with_low(v as int) == s.spec_with_low(v as int),
{
}

/// Law: `set_high` is idempotent — clamping the same request a second
/// time moves nothing, so the `(low, high)` pair is the same after one
/// application and after two.
pub proof fn lemma_set_high_idempotent(s: RangeSelector, v: usize)
    requires
        s.wf(),
    ensures
        s.spec_with_high(v as int).spec_with_high(v as int) == s.spec_with_high(v as int),
{
}

/// `set_low` keeps the minimum gap, whatever the request.
pub proof fn lemma_set_low_preserves_gap(s: RangeSelector, v: usize)
    requires
        s.wf(),
    ensures
        s.spec_with_low(v as int).wf(),
{
}

/// `set_high` keeps the minimum gap, whatever the request.
pub proof fn lemma_set_high_preserves_gap(s: RangeSelector, v: usize)
    requires
        s.wf(),
    ensures
        s.spec_with_high(v as int).wf(),
{
}

/// Law: the minimum-gap invariant `low + 2 <= high` survives every
/// sequence of slider events, however far out of range each request is.
pub proof fn lemma_gap_invariant_any_sequence(s: RangeSelector, ops: Seq<RangeOp>)
    requires
        s.wf(),
    ensures
        spec_apply_ops(s, ops).wf(),
    decreases ops.len(),
{
    if ops.len() > 0 {
        match ops[0] {
            RangeOp::Low(v) => lemma_set_low_preserves_gap(s, v),
            RangeOp::High(v) => lemma_set_high_preserves_gap(s, v),
        }
        lemma_gap_invariant_any_sequence(spec_apply_op(s, ops[0]), ops.subrange(1, ops.len() as int));
    }
}

} // verus!
