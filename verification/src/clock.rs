//! Moments, and how they are written.
//!
//! A moment is the number of seconds since the beginning of 1970 in Coordinated
//! Universal Time, and the nanoseconds since that second began. `chrono` knows the calendar.

use vstd::prelude::*;

use crate::decimal::digit;

verus! {

/// The first second of the calendar.
pub const FIRST_SECOND: i64 = -8_334_601_228_800;

/// The last second of the calendar.
pub const LAST_SECOND: i64 = 8_210_266_876_799;

/// A moment.
#[derive(Debug, Clone, Copy, PartialEq, Eq, Structural)]
pub struct Moment {
    pub secs: i64,
    pub nanos: u32,
}

/// A moment, written in three ways.
#[derive(Debug, PartialEq, Eq)]
pub struct Timestamp {
    /// Date and time, as RFC 3339 writes them.
    pub iso: String,
    /// The year, the month and the day.
    pub date: String,
    /// The hour, the minute and the second.
    pub time: String,
}

/// What a timestamp says.
pub struct TimestampView {
    pub iso: Seq<char>,
    pub date: Seq<char>,
    pub time: Seq<char>,
}

impl View for Timestamp {
    type V = TimestampView;

    open spec fn view(&self) -> TimestampView {
        TimestampView { iso: self.iso@, date: self.date@, time: self.time@ }
    }
}

impl Moment {
    /// Whether the calendar has this moment.
    pub open spec fn on_calendar(self) -> bool {
        FIRST_SECOND <= self.secs <= LAST_SECOND && self.nanos < 1_000_000_000
    }

    /// The moment so many days earlier.
    pub open spec fn days_earlier(self, days: u32) -> Moment {
        Moment { secs: (self.secs - days * 86_400) as i64, nanos: self.nanos }
    }

    /// The date so many days earlier, where the calendar goes back that far.
    pub open spec fn date_earlier(self, days: u32) -> Option<Seq<char>> {
        if self.days_earlier(days).on_calendar() {
            Some(self.days_earlier(days).written().date)
        } else {
            None
        }
    }

    /// The moment, written in three ways.
    pub open spec fn written(self) -> TimestampView {
        TimestampView {
            iso: rfc3339(self.secs, self.nanos),
            date: strftime(self.secs, self.nanos, "%Y-%m-%d"@),
            time: strftime(self.secs, self.nanos, "%H:%M:%S"@),
        }
    }
}

/// A number below a hundred in two digits.
pub open spec fn two_digits(n: int) -> Seq<char> {
    seq![digit((n / 10) as nat), digit((n % 10) as nat)]
}

/// The hour, the minute and the second of the day.
pub open spec fn time_of_day(secs: i64) -> Seq<char> {
    let s = secs as int % 86_400;
    two_digits(s / 3600) + ":"@ + two_digits(s / 60 % 60) + ":"@ + two_digits(s % 60)
}

/// What `chrono::DateTime::to_rfc3339` writes for a moment.
pub uninterp spec fn rfc3339(secs: i64, nanos: u32) -> Seq<char>;

/// What `chrono::DateTime::format` writes for a moment.
pub uninterp spec fn strftime(secs: i64, nanos: u32, pattern: Seq<char>) -> Seq<char>;

/// `chrono::Utc::now`, taken apart into seconds and nanoseconds: a moment of the calendar.
/// Which one is up to the clock of the machine, so nothing is said of that, nor of how two
/// readings compare.
#[verifier::external_body]
fn read_clock() -> (r: Moment)
    ensures
        r.on_calendar(),
{
    let now = chrono::Utc::now();
    Moment { secs: now.timestamp(), nanos: now.timestamp_subsec_nanos() }
}

/// `chrono::DateTime::to_rfc3339`: what it writes depends on the moment alone.
#[verifier::external_body]
fn format_rfc3339(moment: Moment) -> (r: String)
    requires
        moment.on_calendar(),
    ensures
        r@ == rfc3339(moment.secs, moment.nanos),
{
    let at = chrono::DateTime::<chrono::Utc>::from_timestamp(moment.secs, moment.nanos);
    at.expect("the calendar has the moment").to_rfc3339()
}

/// `chrono::DateTime::format`: what it writes depends on the moment and the pattern alone,
/// and the pattern for the time of day writes it with two digits each.
#[verifier::external_body]
fn format_pattern(moment: Moment, pattern: &str) -> (r: String)
    requires
        moment.on_calendar(),
        pattern@ == "%Y-%m-%d"@ || pattern@ == "%H:%M:%S"@,
    ensures
        r@ == strftime(moment.secs, moment.nanos, pattern@),
        pattern@ == "%H:%M:%S"@ ==> r@ == time_of_day(moment.secs),
{
    let at = chrono::DateTime::<chrono::Utc>::from_timestamp(moment.secs, moment.nanos);
    at.expect("the calendar has the moment").format(pattern).to_string()
}

/// `chrono::DateTime::checked_sub_signed` with so many days: the moment 86400 seconds earlier
/// for each, where the calendar still has it.
#[verifier::external_body]
fn subtract_days(moment: Moment, days: u32) -> (r: Option<Moment>)
    requires
        moment.on_calendar(),
    ensures
        r == if moment.days_earlier(days).on_calendar() {
            Some(moment.days_earlier(days))
        } else {
            None
        },
{
    let at = chrono::DateTime::<chrono::Utc>::from_timestamp(moment.secs, moment.nanos);
    let at = at.expect("the calendar has the moment");
    match at.checked_sub_signed(chrono::Duration::days(days as i64)) {
        Some(t) => Some(Moment { secs: t.timestamp(), nanos: t.timestamp_subsec_nanos() }),
        None => None,
    }
}

impl Moment {
    /// The present moment, as the clock of the machine gives it: any moment of the calendar.
    pub fn now() -> (r: Moment)
        ensures
            r.on_calendar(),
    {
        read_clock()
    }

    /// Whether the calendar has this moment.
    pub fn is_on_calendar(&self) -> (r: bool)
        ensures
            r == self.on_calendar(),
    {
        FIRST_SECOND <= self.secs && self.secs <= LAST_SECOND && self.nanos < 1_000_000_000
    }

    /// The moment, written in three ways.
    pub fn write(&self) -> (r: Timestamp)
        requires
            self.on_calendar(),
        ensures
            r@ == self.written(),
            r.time@ == time_of_day(self.secs),
    {
        Timestamp {
            iso: format_rfc3339(*self),
            date: format_pattern(*self, "%Y-%m-%d"),
            time: format_pattern(*self, "%H:%M:%S"),
        }
    }

    /// The date so many days earlier, where the calendar goes back that far.
    pub fn date_before(&self, days: u32) -> (r: Option<String>)
        requires
            self.on_calendar(),
        ensures
            crate::text::owned_text(r) == self.date_earlier(days),
    {
        match subtract_days(*self, days) {
            Some(then) => Some(format_pattern(then, "%Y-%m-%d")),
            None => None,
        }
    }
}

/// The time of day is written as hours, minutes and seconds, with two digits each, which together
/// make up the seconds since midnight.
pub proof fn the_time_of_day_adds_up(secs: i64)
    ensures
        ({
            let t = time_of_day(secs);
            &&& t.len() == 8
            &&& t[2] == ':' && t[5] == ':'
            &&& (t[0] as int - 48) * 36_000 + (t[1] as int - 48) * 3_600 + (t[3] as int - 48) * 600
                + (t[4] as int - 48) * 60 + (t[6] as int - 48) * 10 + (t[7] as int - 48) == secs
                as int % 86_400
            &&& forall|i: int|
                0 <= i < 8 && i != 2 && i != 5 ==> '0' <= #[trigger] t[i] && t[i] <= '9'
            &&& t[3] < '6' && t[6] < '6'
        }),
{
    reveal_strlit(":");
    assert(":"@.len() == 1 && ":"@[0] == ':');
    let s = secs as int % 86_400;
    let h = s / 3600;
    let m = s / 60 % 60;
    let x = s % 60;
    assert(0 <= h < 24 && 0 <= m < 60 && 0 <= x < 60);
    assert(h * 3600 + m * 60 + x == s);
    let t = time_of_day(secs);
    assert(t =~= two_digits(h) + ":"@ + two_digits(m) + ":"@ + two_digits(x));
    assert(t[0] == digit((h / 10) as nat) && t[1] == digit((h % 10) as nat));
    assert(t[3] == digit((m / 10) as nat) && t[4] == digit((m % 10) as nat));
    assert(t[6] == digit((x / 10) as nat) && t[7] == digit((x % 10) as nat));
}

/// A day earlier is 86400 seconds earlier, and what is written of a moment is its date and time by
/// these patterns.
pub proof fn days_have_so_many_seconds(moment: Moment, days: u32)
    requires
        moment.on_calendar(),
    ensures
        moment.secs - moment.days_earlier(days).secs == 86_400 * days,
        moment.days_earlier(days).nanos == moment.nanos,
        moment.secs - 86_400 * days >= FIRST_SECOND ==> moment.date_earlier(days) == Some(
            strftime((moment.secs - 86_400 * days) as i64, moment.nanos, "%Y-%m-%d"@),
        ),
        moment.secs - 86_400 * days < FIRST_SECOND ==> moment.date_earlier(days) is None,
        moment.written().iso == rfc3339(moment.secs, moment.nanos),
        moment.written().date == strftime(moment.secs, moment.nanos, "%Y-%m-%d"@),
        moment.written().time == strftime(moment.secs, moment.nanos, "%H:%M:%S"@),
{
}

} // verus!
