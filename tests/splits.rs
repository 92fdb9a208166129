use tuxsplit::splits::{
    PanelUpdate, RowStatus, RowTimes, RowValue, SplitClass, classify_split_label,
    previous_segment_update, split_row_status,
};

#[test]
fn unrecorded_best_is_always_gold() {
    assert_eq!(classify_split_label(10_000, 11_000, 500, 0, false), SplitClass::Gold);
    assert_eq!(classify_split_label(0, 0, 0, 0, false), SplitClass::Gold);
    assert_eq!(classify_split_label(-5, 99_999, -7, 0, false), SplitClass::Gold);
}

#[test]
fn ahead_and_gaining_but_not_gold() {
    assert_eq!(
        classify_split_label(10_000, 9_000, -1_000, 8_000, false),
        SplitClass::AheadGaining
    );
}

#[test]
fn behind_and_losing() {
    assert_eq!(
        classify_split_label(10_000, 11_000, 500, 9_000, false),
        SplitClass::BehindLosing
    );
    assert_eq!(
        classify_split_label(10_000, 11_000, 500, 9_000, true),
        SplitClass::BehindLosing
    );
}

#[test]
fn beating_the_best_is_gold() {
    assert_eq!(classify_split_label(10_000, 7_999, 3_000, 8_000, false), SplitClass::Gold);
    assert_eq!(classify_split_label(10_000, 8_000, -2_000, 8_000, false), SplitClass::AheadGaining);
}

#[test]
fn running_segment_is_never_gold() {
    assert_eq!(classify_split_label(10_000, 5_000, -1, 0, true), SplitClass::AheadGaining);
    assert_eq!(classify_split_label(10_000, 5_000, 0, 8_000, true), SplitClass::Even);
}

#[test]
fn remaining_classes() {
    assert_eq!(classify_split_label(10_000, 10_001, -1, 9_000, false), SplitClass::AheadLosing);
    assert_eq!(classify_split_label(10_000, 10_000, 1, 9_000, false), SplitClass::BehindGaining);
    assert_eq!(classify_split_label(10_000, 12_000, 0, 9_000, false), SplitClass::Even);
}

#[test]
fn panel_clears_without_split_time() {
    assert_eq!(previous_segment_update(30_000, 20_000, 19_000, 19_000, 0, 9_000), PanelUpdate::Clear);
}

#[test]
fn panel_keeps_without_baseline() {
    assert_eq!(previous_segment_update(0, 20_000, 19_000, 19_000, 31_000, 9_000), PanelUpdate::Keep);
}

#[test]
fn panel_shows_segment_difference() {
    // Segment baseline 10 s, this attempt's segment 12 s: 2 s behind.
    assert_eq!(
        previous_segment_update(30_000, 20_000, 19_000, 19_000, 31_000, 9_000),
        PanelUpdate::Show { diff: 2_000, class: SplitClass::BehindLosing }
    );
    // A segment of 8 s against a best of 9 s is gold.
    assert_eq!(
        previous_segment_update(30_000, 20_000, 19_000, 19_000, 27_000, 9_000),
        PanelUpdate::Show { diff: -2_000, class: SplitClass::Gold }
    );
}

#[test]
fn panel_takes_segment_baseline_by_magnitude() {
    assert_eq!(
        previous_segment_update(20_000, 30_000, 0, 0, 10_000, 5_000),
        PanelUpdate::Show { diff: 0, class: SplitClass::Even }
    );
}

#[test]
fn panel_difference_is_zero_on_overflow() {
    assert_eq!(
        previous_segment_update(30_000, 20_000, i64::MIN, 0, 31_000, 9_000),
        PanelUpdate::Show { diff: -10_000, class: SplitClass::AheadLosing }
    );
}

fn times() -> RowTimes {
    RowTimes {
        comparison: 30_000,
        previous_comparison: 20_000,
        previous_split: 19_000,
        split_time: 31_000,
        gold: 9_000,
    }
}

#[test]
fn row_without_attempt_shows_comparison() {
    assert_eq!(
        split_row_status(1, None, times(), 0, false),
        RowStatus { current: false, value: RowValue::Comparison, class: None }
    );
}

#[test]
fn row_not_reached_shows_comparison() {
    assert_eq!(
        split_row_status(3, Some(1), times(), 25_000, false),
        RowStatus { current: false, value: RowValue::Comparison, class: None }
    );
}

#[test]
fn current_row_waits_until_behind_or_past_best() {
    assert_eq!(
        split_row_status(1, Some(1), times(), 25_000, false),
        RowStatus { current: true, value: RowValue::Comparison, class: None }
    );
    assert_eq!(
        split_row_status(1, Some(1), times(), 28_000, false),
        RowStatus {
            current: true,
            value: RowValue::Diff(-2_000),
            class: Some(SplitClass::AheadGaining),
        }
    );
    assert_eq!(
        split_row_status(1, Some(1), times(), 32_000, false),
        RowStatus {
            current: true,
            value: RowValue::Diff(2_000),
            class: Some(SplitClass::BehindLosing),
        }
    );
}

#[test]
fn first_row_runs_from_the_start() {
    let t = RowTimes { comparison: 10_000, previous_comparison: 0, previous_split: 0, split_time: 0, gold: 9_000 };
    assert_eq!(
        split_row_status(0, Some(0), t, 9_500, false),
        RowStatus {
            current: true,
            value: RowValue::Diff(-500),
            class: Some(SplitClass::AheadGaining),
        }
    );
}

#[test]
fn finished_row_shows_difference_or_split_time() {
    assert_eq!(
        split_row_status(1, Some(2), times(), 40_000, false),
        RowStatus {
            current: false,
            value: RowValue::Diff(1_000),
            class: Some(SplitClass::BehindLosing),
        }
    );
    assert_eq!(
        split_row_status(1, Some(2), times(), 40_000, true),
        RowStatus {
            current: false,
            value: RowValue::SplitTime,
            class: Some(SplitClass::BehindLosing),
        }
    );
}
