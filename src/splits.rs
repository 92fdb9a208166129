use vstd::prelude::*;

verus! {

/// How a segment went, for choosing its colour.
#[derive(Clone, Copy, Debug, PartialEq, Eq, Structural)]
pub enum SplitClass {
    /// A new best segment.
    Gold,
    /// Ahead of the comparison, and this segment no slower than its own.
    AheadGaining,
    /// Ahead of the comparison, but this segment slower than its own.
    AheadLosing,
    /// Behind the comparison, but this segment no slower than its own.
    BehindGaining,
    /// Behind the comparison, and this segment slower than its own.
    BehindLosing,
    /// Exactly even with the comparison.
    Even,
}

/// The class of a segment whose own comparison duration is `comparison`,
/// whose own duration so far is `split`, which stands `diff` from the
/// comparison, and whose best recorded duration is `gold` (zero: none yet).
/// A finished segment (`!running`) is gold when no best is recorded or it beat
/// the best; otherwise the sign of `diff` says ahead or behind, and `split`
/// against `comparison` says gaining or losing.
pub open spec fn classification(
    comparison: int,
    split: int,
    diff: int,
    gold: int,
    running: bool,
) -> SplitClass {
    if !running && (gold == 0 || split < gold) {
        SplitClass::Gold
    } else if diff < 0 {
        if split <= comparison {
            SplitClass::AheadGaining
        } else {
            SplitClass::AheadLosing
        }
    } else if diff > 0 {
        if split <= comparison {
            SplitClass::BehindGaining
        } else {
            SplitClass::BehindLosing
        }
    } else {
        SplitClass::Even
    }
}

/// Classifies a segment; durations are in milliseconds (see
/// [`classification`]).
pub fn classify_split_label(
    comparison_duration: i64,
    split_duration: i64,
    diff: i64,
    gold_duration: i64,
    running: bool,
) -> (r: SplitClass)
    ensures
        r == classification(
            comparison_duration as int,
            split_duration as int,
            diff as int,
            gold_duration as int,
            running,
        ),
{
    if !running && (gold_duration == 0 || split_duration < gold_duration) {
        return SplitClass::Gold;
    }
    if diff < 0 {
        if split_duration <= comparison_duration {
            SplitClass::AheadGaining
        } else {
            SplitClass::AheadLosing
        }
    } else if diff > 0 {
        if split_duration <= comparison_duration {
            SplitClass::BehindGaining
        } else {
            SplitClass::BehindLosing
        }
    } else {
        SplitClass::Even
    }
}

/// A finished segment with no best recorded is always gold, whatever its
/// other durations.
pub proof fn lemma_unrecorded_best_is_gold(comparison: int, split: int, diff: int)
    ensures
        classification(comparison, split, diff, 0, false) == SplitClass::Gold,
{
}


/// `a - b`, or zero where the difference does not fit in an `i64`.
pub open spec fn sub_or_zero(a: int, b: int) -> int {
    if i64::MIN <= a - b <= i64::MAX {
        a - b
    } else {
        0
    }
}

/// The absolute value of `x`, saturated at `i64::MAX`.
pub open spec fn abs_saturated(x: int) -> int {
    if x >= 0 {
        x
    } else if -x > i64::MAX {
        i64::MAX as int
    } else {
        -x
    }
}

/// `a - b`, or zero where the difference overflows.
fn sub_or_zero_i64(a: i64, b: i64) -> (r: i64)
    ensures
        r == sub_or_zero(a as int, b as int),
{
    a.checked_sub(b).unwrap_or(0)
}

/// The absolute value of `x`, saturated at `i64::MAX`.
fn abs_saturated_i64(x: i64) -> (r: i64)
    ensures
        r == abs_saturated(x as int),
{
    if x >= 0 {
        x
    } else if x == i64::MIN {
        i64::MAX
    } else {
        -x
    }
}

/// What a panel about the previous segment shows after a refresh.
#[derive(Clone, Copy, Debug, PartialEq, Eq, Structural)]
pub enum PanelUpdate {
    /// The segment has no split time: show nothing.
    Clear,
    /// There is no baseline to measure against: leave the panel as it is.
    Keep,
    /// Show the signed difference `diff`, coloured by `class`.
    Show { diff: i64, class: SplitClass },
}

/// The update of a panel about a finished segment, measured against a
/// baseline (the comparison, or the best times). All values are cumulative
/// times in milliseconds, zero where unknown: `baseline` is the baseline's
/// time at the end of the segment and `previous_baseline` at its start;
/// `split_time` is when the segment ended in this attempt, `diff_origin` the
/// start from which its difference is taken and `split_origin` the start from
/// which its duration is taken; `gold` is the best segment duration.
pub open spec fn panel_update(
    baseline: int,
    previous_baseline: int,
    diff_origin: int,
    split_origin: int,
    split_time: int,
    gold: int,
) -> PanelUpdate {
    let segment_baseline = abs_saturated(sub_or_zero(baseline, previous_baseline));
    let diff = sub_or_zero(sub_or_zero(split_time, diff_origin), segment_baseline);
    if split_time == 0 {
        PanelUpdate::Clear
    } else if baseline == 0 {
        PanelUpdate::Keep
    } else {
        PanelUpdate::Show {
            diff: diff as i64,
            class: classification(
                segment_baseline,
                sub_or_zero(split_time, split_origin),
                diff,
                gold,
                false,
            ),
        }
    }
}

/// Computes the update of a panel about a finished segment (see
/// [`panel_update`]).
pub fn previous_segment_update(
    baseline: i64,
    previous_baseline: i64,
    diff_origin: i64,
    split_origin: i64,
    split_time: i64,
    gold: i64,
) -> (r: PanelUpdate)
    ensures
        r == panel_update(
            baseline as int,
            previous_baseline as int,
            diff_origin as int,
            split_origin as int,
            split_time as int,
            gold as int,
        ),
{
    let segment_baseline = abs_saturated_i64(sub_or_zero_i64(baseline, previous_baseline));
    if split_time == 0 {
        return PanelUpdate::Clear;
    }
    if baseline == 0 {
        return PanelUpdate::Keep;
    }
    let diff = sub_or_zero_i64(sub_or_zero_i64(split_time, diff_origin), segment_baseline);
    let split_duration = sub_or_zero_i64(split_time, split_origin);
    PanelUpdate::Show {
        diff,
        class: classify_split_label(segment_baseline, split_duration, diff, gold, false),
    }
}


/// The times behind one row of the splits list, in milliseconds, zero where
/// unknown.
#[derive(Clone, Copy, Debug, PartialEq, Eq, Structural)]
pub struct RowTimes {
    /// The comparison's time at the end of this segment.
    pub comparison: i64,
    /// The comparison's time at the end of the previous segment.
    pub previous_comparison: i64,
    /// This attempt's split time of the previous segment.
    pub previous_split: i64,
    /// This attempt's split time of this segment.
    pub split_time: i64,
    /// The best recorded duration of this segment.
    pub gold: i64,
}

/// What the value column of a row shows.
#[derive(Clone, Copy, Debug, PartialEq, Eq, Structural)]
pub enum RowValue {
    /// The comparison's time for the segment.
    Comparison,
    /// This attempt's split time for the segment.
    SplitTime,
    /// The signed difference to the comparison.
    Diff(i64),
}

/// How a row of the splits list is drawn.
#[derive(Clone, Copy, Debug, PartialEq, Eq, Structural)]
pub struct RowStatus {
    /// The row is the segment in progress.
    pub current: bool,
    pub value: RowValue,
    /// The colour of the value, if any.
    pub class: Option<SplitClass>,
}

/// The status of row `index` when segment `current` is in progress (`None`:
/// no attempt), the attempt has run for `now` milliseconds, and
/// `show_split_time` asks finished rows for their split time rather than their
/// difference.
///
/// A row with no attempt in progress, or not yet reached, shows the
/// comparison. The row in progress is marked current; it shows its
/// difference, coloured, once it is behind or has run at least as long as its
/// best segment, and the comparison before that. A finished row is coloured
/// and shows its difference or its split time.
pub open spec fn row_status(
    index: int,
    current: Option<usize>,
    t: RowTimes,
    now: int,
    show_split_time: bool,
) -> RowStatus {
    let segment_comparison = abs_saturated(sub_or_zero(t.comparison as int, t.previous_comparison as int));
    match current {
        None => RowStatus { current: false, value: RowValue::Comparison, class: None },
        Some(c) => if c == index {
            let diff = sub_or_zero(now, t.comparison as int);
            let running_time = if index == 0 {
                now
            } else {
                sub_or_zero(now, t.previous_split as int)
            };
            if diff > 0 || (t.gold != 0 && running_time >= t.gold) {
                RowStatus {
                    current: true,
                    value: RowValue::Diff(diff as i64),
                    class: Some(
                        classification(segment_comparison, running_time, diff, t.gold as int, true),
                    ),
                }
            } else {
                RowStatus { current: true, value: RowValue::Comparison, class: None }
            }
        } else if c > index {
            let diff = sub_or_zero(t.split_time as int, t.comparison as int);
            RowStatus {
                current: false,
                value: if show_split_time {
                    RowValue::SplitTime
                } else {
                    RowValue::Diff(diff as i64)
                },
                class: Some(
                    classification(
                        segment_comparison,
                        sub_or_zero(t.split_time as int, t.previous_split as int),
                        diff,
                        t.gold as int,
                        false,
                    ),
                ),
            }
        } else {
            RowStatus { current: false, value: RowValue::Comparison, class: None }
        },
    }
}

/// Computes how row `index` of the splits list is drawn (see
/// [`row_status`]).
pub fn split_row_status(
    index: usize,
    current: Option<usize>,
    times: RowTimes,
    now: i64,
    show_split_time: bool,
) -> (r: RowStatus)
    ensures
        r == row_status(index as int, current, times, now as int, show_split_time),
{
    let segment_comparison = abs_saturated_i64(
        sub_or_zero_i64(times.comparison, times.previous_comparison),
    );
    let idle = RowStatus { current: false, value: RowValue::Comparison, class: None };
    let c = match current {
        Some(c) => c,
        None => return idle,
    };
    if c == index {
        let diff = sub_or_zero_i64(now, times.comparison);
        let running_time = if index == 0 {
            now
        } else {
            sub_or_zero_i64(now, times.previous_split)
        };
        if diff > 0 || (times.gold != 0 && running_time >= times.gold) {
            let class = classify_split_label(segment_comparison, running_time, diff, times.gold, true);
            RowStatus { current: true, value: RowValue::Diff(diff), class: Some(class) }
        } else {
            RowStatus { current: true, value: RowValue::Comparison, class: None }
        }
    } else if c > index {
        let diff = sub_or_zero_i64(times.split_time, times.comparison);
        let split_duration = sub_or_zero_i64(times.split_time, times.previous_split);
        let class = classify_split_label(segment_comparison, split_duration, diff, times.gold, false);
        let value = if show_split_time {
            RowValue::SplitTime
        } else {
            RowValue::Diff(diff)
        };
        RowStatus { current: false, value, class: Some(class) }
    } else {
        idle
    }
}

} // verus!
