//! The day's block list: which day a request means, where that day begins,
//! and how the walk down from the tip collects the blocks of the day.
//! Calendar arithmetic is `chrono`'s.

use vstd::prelude::*;
use vstd::string::*;
use crate::text::{fields_of, i32_of, parse_i32, parse_u32, same_text, split_fields, texts, u32_of};

verus! {

/// Seconds in a day.
pub const SECONDS_PER_DAY: u64 = 86_400;

/// Year taken for a date whose year cannot be read.
pub const FALLBACK_YEAR: i32 = 2026;

/// Midnight UTC of the first of January of `FALLBACK_YEAR`, in seconds
/// since the epoch: the day taken for a date that does not exist.
pub const FALLBACK_DAY_START: u64 = 1_767_225_600;

/// Midnight UTC of a civil date in seconds since the epoch; none for a
/// date that the calendar does not have.
pub uninterp spec fn midnight_utc(year: int, month: int, day: int) -> Option<i64>;

/// The date `days` days from a civil date, written as year, month and
/// day; none where either date is outside the calendar.
pub uninterp spec fn shifted_label(year: int, month: int, day: int, days: int) -> Option<Seq<char>>;

/// Computes the start of a civil date.
///
/// Trusted: calls `chrono::NaiveDate::from_ymd_opt`, which gives no date
/// for a month or day that the calendar does not have, then `and_time`
/// with midnight, `and_utc` and `timestamp`. The result depends on the
/// three numbers alone; the contract names it.
#[verifier::external_body]
fn midnight_of(year: i32, month: u32, day: u32) -> (r: Option<i64>)
    ensures
        r == midnight_utc(year as int, month as int, day as int),
{
    match chrono::NaiveDate::from_ymd_opt(year, month, day) {
        Some(date) => Some(date.and_time(chrono::NaiveTime::MIN).and_utc().timestamp()),
        None => None,
    }
}

/// Shifts a civil date by a number of days and writes the result.
///
/// Trusted: calls `chrono::NaiveDate::from_ymd_opt`, then
/// `checked_add_signed` with `chrono::TimeDelta::days`, which gives no date
/// beyond the calendar's range, then `format` with year, month and day.
/// The result depends on the four numbers alone; the contract names it.
#[verifier::external_body]
fn shift_of(year: i32, month: u32, day: u32, days: i32) -> (r: Option<String>)
    ensures
        r matches Some(label) ==> shifted_label(
            year as int,
            month as int,
            day as int,
            days as int,
        ) == Some(label@),
        r is None ==> shifted_label(year as int, month as int, day as int, days as int) is None,
{
    match chrono::NaiveDate::from_ymd_opt(year, month, day) {
        Some(date) => match date.checked_add_signed(chrono::TimeDelta::days(days as i64)) {
            Some(shifted) => Some(shifted.format("%Y-%m-%d").to_string()),
            None => None,
        },
        None => None,
    }
}

/// Year, month and day that a date text names.
#[derive(Debug, Clone, Copy, PartialEq, Eq, Structural)]
pub struct DayParts {
    pub year: i32,
    pub month: u32,
    pub day: u32,
}

/// The parts of a date text of three fields separated by hyphens; a field
/// that is no number counts as `FALLBACK_YEAR` for the year and as one for
/// month and day. A text of any other number of fields names no date.
pub open spec fn parts_of(date: Seq<char>) -> Option<DayParts> {
    let fields = fields_of(date, '-');
    if fields.len() != 3 {
        None
    } else {
        Some(
            DayParts {
                year: match i32_of(fields[0]) {
                    Some(y) => y,
                    None => FALLBACK_YEAR,
                },
                month: match u32_of(fields[1]) {
                    Some(m) => m,
                    None => 1,
                },
                day: match u32_of(fields[2]) {
                    Some(d) => d,
                    None => 1,
                },
            },
        )
    }
}

/// Reads the parts of a date text.
pub fn day_parts(date: &str) -> (r: Option<DayParts>)
    ensures
        r == parts_of(date@),
{
    let fields = split_fields(date, '-');
    if fields.len() != 3 {
        return None;
    }
    assert(texts(fields@)[0] == fields@[0]@);
    assert(texts(fields@)[1] == fields@[1]@);
    assert(texts(fields@)[2] == fields@[2]@);
    let year: i32 = match parse_i32(fields[0].as_str()) {
        Some(y) => y,
        None => FALLBACK_YEAR,
    };
    let month: u32 = match parse_u32(fields[1].as_str()) {
        Some(m) => m,
        None => 1,
    };
    let day: u32 = match parse_u32(fields[2].as_str()) {
        Some(d) => d,
        None => 1,
    };
    Some(DayParts { year, month, day })
}

/// A count of seconds as an unsigned number of 64 bits; a negative count
/// wraps around.
pub open spec fn wrapped(t: i64) -> u64 {
    if t >= 0 {
        t as u64
    } else {
        (t + 0x1_0000_0000_0000_0000) as u64
    }
}

/// Start of a day given the midnight that the calendar has for it: that
/// midnight, and `FALLBACK_DAY_START` for a date that the calendar does
/// not have.
pub open spec fn start_from(midnight: Option<i64>) -> u64 {
    match midnight {
        Some(t) => wrapped(t),
        None => FALLBACK_DAY_START,
    }
}

/// Computes the start of a day from what the calendar gave for its date.
pub fn start_of(midnight: Option<i64>) -> (start: u64)
    ensures
        start == start_from(midnight),
{
    match midnight {
        Some(t) => {
            if t >= 0 {
                t as u64
            } else {
                (t as i128 + 0x1_0000_0000_0000_0000) as u64
            }
        },
        None => FALLBACK_DAY_START,
    }
}

/// Start of the day that a date text names: zero for a text that names no
/// date, and `FALLBACK_DAY_START` for a date that the calendar does not
/// have.
pub open spec fn day_start_of(date: Seq<char>) -> u64 {
    match parts_of(date) {
        None => 0,
        Some(p) => start_from(midnight_utc(p.year as int, p.month as int, p.day as int)),
    }
}

/// Computes the start of the day that a date text names.
pub fn day_start(date: &str) -> (start: u64)
    ensures
        start == day_start_of(date@),
{
    match day_parts(date) {
        None => 0,
        Some(p) => start_of(midnight_of(p.year, p.month, p.day)),
    }
}

/// The date that is shifted for the parts of a date text: the date itself
/// where the calendar has it, and the first of January of `FALLBACK_YEAR`
/// where it has not.
pub open spec fn shift_base(parts: DayParts, known: bool) -> DayParts {
    if known {
        parts
    } else {
        DayParts { year: FALLBACK_YEAR, month: 1, day: 1 }
    }
}

/// Chooses the date to shift, given whether the calendar has the date.
pub fn base_to_shift(parts: DayParts, known: bool) -> (base: DayParts)
    ensures
        base == shift_base(parts, known),
{
    if known {
        parts
    } else {
        DayParts { year: FALLBACK_YEAR, month: 1, day: 1 }
    }
}

/// The text of a shifted date given what the calendar gave for the shift:
/// the shifted date, and the text itself where the shift leaves the
/// calendar.
pub open spec fn label_from(date: Seq<char>, shifted: Option<Seq<char>>) -> Seq<char> {
    match shifted {
        Some(label) => label,
        None => date,
    }
}

/// Writes a shifted date from what the calendar gave for the shift.
pub fn label_of(date: &str, shifted: Option<String>) -> (r: String)
    ensures
        shifted matches Some(label) ==> r@ == label@,
        shifted is None ==> r@ == date@,
{
    match shifted {
        Some(label) => label,
        None => String::from_str(date),
    }
}

/// The date text `days` days from the one given: the text itself where it
/// names no date, the shift of the first of January of `FALLBACK_YEAR`
/// where the calendar does not have the date, and the text itself again
/// where the shift leaves the calendar.
pub open spec fn shifted_date_of(date: Seq<char>, days: int) -> Seq<char> {
    match parts_of(date) {
        None => date,
        Some(p) => {
            let known = midnight_utc(p.year as int, p.month as int, p.day as int) is Some;
            let base = shift_base(p, known);
            label_from(
                date,
                shifted_label(base.year as int, base.month as int, base.day as int, days),
            )
        },
    }
}

/// Shifts a date text by a number of days.
pub fn shift_date(date: &str, days: i32) -> (r: String)
    ensures
        r@ == shifted_date_of(date@, days as int),
{
    match day_parts(date) {
        None => String::from_str(date),
        Some(p) => {
            let known = midnight_of(p.year, p.month, p.day).is_some();
            let base = base_to_shift(p, known);
            label_of(date, shift_of(base.year, base.month, base.day, days))
        },
    }
}

/// What the walk does with a block.
#[derive(Debug, Clone, Copy, PartialEq, Eq, Structural)]
pub enum WalkStep {
    /// The block is of the day: list it and go on below it.
    Include,
    /// The block is of a later day: go on below it.
    Skip,
    /// The block is of an earlier day: the walk is over.
    Stop,
}

/// The step for a block of time `time` when the day begins at `start`.
pub open spec fn step_for(start: u64, time: u64) -> WalkStep {
    if time < start {
        WalkStep::Stop
    } else if time < start + SECONDS_PER_DAY {
        WalkStep::Include
    } else {
        WalkStep::Skip
    }
}

/// The walk down from the tip that collects the blocks of one day.
#[derive(Debug, Clone, Copy, PartialEq, Eq)]
pub struct DayWalk {
    /// Start of the day.
    pub start: u64,
    /// Largest number of blocks to list.
    pub limit: u32,
    /// Height of the next block to look at; zero when there is none.
    pub height: u64,
    /// Number of blocks listed so far.
    pub listed: u32,
    /// Whether a block of an earlier day was met.
    pub done: bool,
}

impl DayWalk {
    /// A walk that begins at the tip.
    pub fn begin(start: u64, limit: u32, tip: u64) -> (w: DayWalk)
        ensures
            w == (DayWalk { start, limit, height: tip, listed: 0, done: false }),
    {
        DayWalk { start, limit, height: tip, listed: 0, done: false }
    }

    /// Whether the walk goes on: it has met no block of an earlier day,
    /// has not reached the genesis block, and has room left.
    pub open spec fn goes_on(&self) -> bool {
        !self.done && self.height > 0 && self.listed < self.limit
    }

    /// The height to fetch next, if the walk goes on.
    pub fn next_height(&self) -> (h: Option<u64>)
        ensures
            self.goes_on() ==> h == Some(self.height),
            !self.goes_on() ==> h is None,
    {
        if !self.done && self.height > 0 && self.listed < self.limit {
            Some(self.height)
        } else {
            None
        }
    }

    /// Takes in the time of the block at the height asked for last and
    /// says what to do with the block.
    pub fn observe(&mut self, time: u64) -> (step: WalkStep)
        requires
            old(self).goes_on(),
        ensures
            step == step_for(old(self).start, time),
            final(self).start == old(self).start,
            final(self).limit == old(self).limit,
            step == WalkStep::Stop ==> final(self).done && final(self).height == old(self).height
                && final(self).listed == old(self).listed,
            step != WalkStep::Stop ==> !final(self).done && final(self).height == old(self).height
                - 1,
            step == WalkStep::Include ==> final(self).listed == old(self).listed + 1,
            step == WalkStep::Skip ==> final(self).listed == old(self).listed,
    {
        if time < self.start {
            self.done = true;
            WalkStep::Stop
        } else {
            self.height = self.height - 1;
            let within = time - self.start < SECONDS_PER_DAY;
            if within {
                self.listed = self.listed + 1;
                WalkStep::Include
            } else {
                WalkStep::Skip
            }
        }
    }
}

/// The time stamps that go with a day's list.
#[derive(Debug, Clone, Copy, PartialEq, Eq, Structural)]
pub struct DayStamps {
    /// Last second of the day.
    pub current_ts: u64,
    /// First second of the next day.
    pub more_ts: u64,
}

/// Computes the time stamps of the day that begins at `start`, wrapping
/// around at the end of the range of 64 bits.
pub fn day_stamps(start: u64) -> (s: DayStamps)
    ensures
        s.more_ts as int == (start + SECONDS_PER_DAY) % 0x1_0000_0000_0000_0000,
        s.current_ts as int == (s.more_ts + 0xffff_ffff_ffff_ffff) % 0x1_0000_0000_0000_0000,
{
    let more_ts = start.wrapping_add(SECONDS_PER_DAY);
    let current_ts = more_ts.wrapping_sub(1);
    DayStamps { current_ts, more_ts }
}

/// Whether the day asked for is today.
pub fn is_today(target: &str, today: &str) -> (b: bool)
    ensures
        b == (target@ == today@),
{
    same_text(target, today)
}

} // verus!
