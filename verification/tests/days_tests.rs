use dashbook::api::days::{
    base_to_shift, day_parts, day_stamps, day_start, is_today, label_of, shift_date, start_of, DayParts, DayStamps, DayWalk, WalkStep,
    FALLBACK_DAY_START, FALLBACK_YEAR, SECONDS_PER_DAY,
};

#[test]
fn day_constants() {
    assert_eq!(SECONDS_PER_DAY, 86_400);
    assert_eq!(FALLBACK_YEAR, 2026);
    assert_eq!(FALLBACK_DAY_START, 1_767_225_600);
    assert_eq!(day_start("2026-01-01"), FALLBACK_DAY_START);
}

#[test]
fn a_day_starts_at_midnight_utc() {
    assert_eq!(day_start("1970-01-01"), 0);
    assert_eq!(day_start("1970-01-02"), 86_400);
    assert_eq!(day_start("2024-01-01"), 1_704_067_200);
    assert_eq!(day_start("2024-02-29"), 1_709_164_800);
    assert_eq!(day_start("2024-3-5"), 1_709_596_800);
    assert_eq!(day_start("+2024-+03-+05"), 1_709_596_800);
}

#[test]
fn a_text_that_names_no_date_starts_at_zero() {
    assert_eq!(day_start(""), 0);
    assert_eq!(day_start("2024-01"), 0);
    assert_eq!(day_start("2024-01-01-01"), 0);
    assert_eq!(day_start("-2024-01-01"), 0);
    assert_eq!(day_start("20240101"), 0);
}

#[test]
fn unreadable_fields_and_impossible_dates_fall_back() {
    assert_eq!(day_parts("x-y-z"), Some(DayParts { year: 2026, month: 1, day: 1 }));
    assert_eq!(day_parts("2024-xx-09"), Some(DayParts { year: 2024, month: 1, day: 9 }));
    assert_eq!(day_parts("2024--"), Some(DayParts { year: 2024, month: 1, day: 1 }));
    assert_eq!(day_parts("2024-1"), None);
    assert_eq!(day_start("x-y-z"), FALLBACK_DAY_START);
    assert_eq!(day_start("2023-02-29"), FALLBACK_DAY_START);
    assert_eq!(day_start("2024-13-01"), FALLBACK_DAY_START);
    assert_eq!(day_start("2024-00-10"), FALLBACK_DAY_START);
    assert_eq!(day_start("99999999999-01-01"), FALLBACK_DAY_START);
}

#[test]
fn a_date_before_the_epoch_wraps() {
    assert_eq!(day_start("1969-12-31"), u64::MAX - 86_399);
}

#[test]
fn dates_are_shifted_by_days() {
    assert_eq!(shift_date("2024-02-28", 1), "2024-02-29");
    assert_eq!(shift_date("2024-03-01", -1), "2024-02-29");
    assert_eq!(shift_date("2023-12-31", 1), "2024-01-01");
    assert_eq!(shift_date("2024-1-9", 1), "2024-01-10");
    assert_eq!(shift_date("2024-01-01", 0), "2024-01-01");
    assert_eq!(shift_date("2024-01-01", 366), "2025-01-01");
}

#[test]
fn a_shift_of_what_names_no_date_gives_the_text_back() {
    assert_eq!(shift_date("yesterday", 1), "yesterday");
    assert_eq!(shift_date("2024-01", -1), "2024-01");
}

#[test]
fn a_shift_of_an_impossible_date_shifts_the_fallback_day() {
    assert_eq!(shift_date("2023-02-30", 1), "2026-01-02");
    assert_eq!(shift_date("a-b-c", -1), "2025-12-31");
}

#[test]
fn a_shift_out_of_the_calendar_gives_the_text_back() {
    assert_eq!(shift_date("262142-12-31", 1), "262142-12-31");
}

#[test]
fn the_walk_lists_the_blocks_of_the_day() {
    let start = 1_704_067_200;
    let mut walk = DayWalk::begin(start, 200, 105);
    let times = [
        (105, start + 90_000, WalkStep::Skip),
        (104, start + 86_400, WalkStep::Skip),
        (103, start + 86_399, WalkStep::Include),
        (102, start + 10, WalkStep::Include),
        (101, start, WalkStep::Include),
        (100, start - 1, WalkStep::Stop),
    ];
    for (height, time, step) in times {
        assert_eq!(walk.next_height(), Some(height));
        assert_eq!(walk.observe(time), step);
    }
    assert_eq!(walk.next_height(), None);
    assert_eq!(walk.listed, 3);
}

#[test]
fn the_walk_ends_at_its_limit_and_above_the_genesis_block() {
    let mut full = DayWalk::begin(0, 2, 10);
    assert_eq!(full.next_height(), Some(10));
    assert_eq!(full.observe(5), WalkStep::Include);
    assert_eq!(full.observe(4), WalkStep::Include);
    assert_eq!(full.next_height(), None);
    let mut low = DayWalk::begin(0, 200, 2);
    assert_eq!(low.observe(5), WalkStep::Include);
    assert_eq!(low.observe(4), WalkStep::Include);
    assert_eq!(low.next_height(), None);
    assert_eq!(DayWalk::begin(0, 200, 0).next_height(), None);
    assert_eq!(DayWalk::begin(0, 0, 9).next_height(), None);
}

#[test]
fn the_stamps_of_a_day() {
    assert_eq!(day_stamps(1_704_067_200), DayStamps { current_ts: 1_704_153_599, more_ts: 1_704_153_600 });
    assert_eq!(day_stamps(0), DayStamps { current_ts: 86_399, more_ts: 86_400 });
    assert_eq!(day_stamps(u64::MAX - 86_399), DayStamps { current_ts: u64::MAX, more_ts: 0 });
}

#[test]
fn today_is_recognised_by_its_text() {
    assert!(is_today("2024-05-01", "2024-05-01"));
    assert!(!is_today("2024-5-1", "2024-05-01"));
}

#[test]
fn the_start_of_a_day_follows_from_its_midnight() {
    assert_eq!(start_of(Some(0)), 0);
    assert_eq!(start_of(Some(1_704_067_200)), 1_704_067_200);
    assert_eq!(start_of(Some(i64::MAX)), i64::MAX as u64);
    assert_eq!(start_of(Some(-1)), u64::MAX);
    assert_eq!(start_of(Some(-86_400)), u64::MAX - 86_399);
    assert_eq!(start_of(Some(i64::MIN)), 1u64 << 63);
    assert_eq!(start_of(None), FALLBACK_DAY_START);
}

#[test]
fn a_date_that_the_calendar_lacks_is_shifted_from_the_fallback_day() {
    let parts = DayParts { year: 2023, month: 2, day: 30 };
    assert_eq!(base_to_shift(parts, true), parts);
    assert_eq!(base_to_shift(parts, false), DayParts { year: 2026, month: 1, day: 1 });
}

#[test]
fn a_shift_that_leaves_the_calendar_gives_the_text_back() {
    assert_eq!(label_of("2024-01-01", Some("2024-01-02".to_string())), "2024-01-02");
    assert_eq!(label_of("262142-12-31", None), "262142-12-31");
    assert_eq!(label_of("", None), "");
}
