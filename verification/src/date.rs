use chrono::{Datelike, Timelike};
use vstd::prelude::*;

verus! {

/// A day of the calendar, without a time of day.
#[derive(Clone, Copy, Debug, PartialEq, Eq, Structural)]
pub struct CalendarDate {
    pub year: i32,
    pub month: u32,
    pub day: u32,
}

impl CalendarDate {
    /// The month is one of the twelve and the day one that a month can have.
    pub open spec fn in_range(self) -> bool {
        1 <= self.month <= 12 && 1 <= self.day <= 31
    }

    /// Whether this day is `other` or an earlier one.
    pub open spec fn not_after(self, other: CalendarDate) -> bool {
        self.year < other.year || (self.year == other.year && (self.month < other.month || (
        self.month == other.month && self.day <= other.day)))
    }

    /// Whether this day lies between `start` and `end`, both included.
    pub open spec fn within(self, start: CalendarDate, end: CalendarDate) -> bool {
        start.not_after(self) && self.not_after(end)
    }

    /// Whether this day is `other` or an earlier one.
    pub fn is_not_after(&self, other: &CalendarDate) -> (r: bool)
        ensures
            r == self.not_after(*other),
    {
        if self.year != other.year {
            self.year < other.year
        } else if self.month != other.month {
            self.month < other.month
        } else {
            self.day <= other.day
        }
    }

    /// Whether this day lies between `start` and `end`, both included.
    pub fn is_within(&self, start: &CalendarDate, end: &CalendarDate) -> (r: bool)
        ensures
            r == self.within(*start, *end),
    {
        start.is_not_after(self) && self.is_not_after(end)
    }
}

/// A second of a day: the day and the seconds since its midnight.
#[derive(Clone, Copy, Debug, PartialEq, Eq, Structural)]
pub struct Moment {
    pub date: CalendarDate,
    pub second: u32,
}

impl Moment {
    /// The day is in range and the second is one of the 86400 of a day.
    pub open spec fn in_range(self) -> bool {
        self.date.in_range() && self.second < 86400
    }
}

/// A date and time that was written with an offset from UTC: as written, the
/// same instant in UTC, and the offset in seconds, east of UTC counted up.
#[derive(Clone, Copy, Debug, PartialEq, Eq, Structural)]
pub struct ZonedMoment {
    pub local: Moment,
    pub utc: Moment,
    pub offset: i32,
}

/// What `chrono::DateTime::parse_from_rfc3339` reads from a text.
pub uninterp spec fn rfc3339_moment(text: Seq<char>) -> Option<ZonedMoment>;

/// What `chrono::NaiveDateTime::parse_from_str` reads from a text under a
/// format.
pub uninterp spec fn naive_datetime_moment(text: Seq<char>, format: Seq<char>) -> Option<Moment>;

/// The day that `chrono::NaiveDate::parse_from_str` reads from a text under a
/// format.
pub uninterp spec fn naive_date(text: Seq<char>, format: Seq<char>) -> Option<CalendarDate>;

/// `chrono::DateTime::parse_from_rfc3339`: `None` where the text is no RFC
/// 3339 date and time; else the date and time as written
/// (`DateTime::naive_local`), the same in UTC (`DateTime::naive_utc`) and the
/// offset (`FixedOffset::local_minus_utc`), each in range.
#[verifier::external_body]
fn parse_rfc3339(text: &str) -> (r: Option<ZonedMoment>)
    ensures
        r == rfc3339_moment(text@),
        r matches Some(z) ==> z.local.in_range() && z.utc.in_range(),
{
    match chrono::DateTime::parse_from_rfc3339(text) {
        Ok(at) => {
            let (l, u) = (at.naive_local(), at.naive_utc());
            let local = CalendarDate { year: l.year(), month: l.month(), day: l.day() };
            let utc = CalendarDate { year: u.year(), month: u.month(), day: u.day() };
            Some(ZonedMoment {
                local: Moment { date: local, second: l.num_seconds_from_midnight() },
                utc: Moment { date: utc, second: u.num_seconds_from_midnight() },
                offset: at.offset().local_minus_utc(),
            })
        },
        Err(_) => None,
    }
}

/// `chrono::NaiveDateTime::parse_from_str`: `None` where the text does not
/// follow the format; else the day and the second of the day that were read,
/// in range.
#[verifier::external_body]
fn parse_naive_datetime(text: &str, format: &str) -> (r: Option<Moment>)
    ensures
        r == naive_datetime_moment(text@, format@),
        r matches Some(m) ==> m.in_range(),
{
    match chrono::NaiveDateTime::parse_from_str(text, format) {
        Ok(at) => {
            let date = CalendarDate { year: at.year(), month: at.month(), day: at.day() };
            Some(Moment { date, second: at.num_seconds_from_midnight() })
        },
        Err(_) => None,
    }
}

/// `chrono::NaiveDate::parse_from_str`: `None` where the text does not follow
/// the format; a day that is in range otherwise.
#[verifier::external_body]
fn parse_naive_date(text: &str, format: &str) -> (r: Option<CalendarDate>)
    ensures
        r == naive_date(text@, format@),
        r matches Some(d) ==> d.in_range(),
{
    match chrono::NaiveDate::parse_from_str(text, format) {
        Ok(d) => Some(CalendarDate { year: d.year(), month: d.month(), day: d.day() }),
        Err(_) => None,
    }
}

/// The instant that a timestamp names, in one form whatever its spelling.
/// Three spellings are read, in this order: an RFC 3339 date and time, which
/// counts as the instant in UTC that its offset makes of it; a date and time
/// as `YYYY-MM-DD HH:MM:SS`, taken to be in UTC; a date alone as
/// `YYYY-MM-DD`, taken as its midnight. A text in none of them names no
/// instant.
pub open spec fn moment_of(text: Seq<char>) -> Option<Moment> {
    match rfc3339_moment(text) {
        Some(zoned) => Some(zoned.utc),
        None => match naive_datetime_moment(text, "%Y-%m-%d %H:%M:%S"@) {
            Some(moment) => Some(moment),
            None => match naive_date(text, "%Y-%m-%d"@) {
                Some(date) => Some(Moment { date, second: 0 }),
                None => None,
            },
        },
    }
}

/// The day of the instant that a timestamp names.
pub open spec fn calendar_date_of(text: Seq<char>) -> Option<CalendarDate> {
    match moment_of(text) {
        Some(moment) => Some(moment.date),
        None => None,
    }
}

/// Reads the instant that a timestamp names.
pub fn parse_moment(text: &str) -> (r: Option<Moment>)
    ensures
        r == moment_of(text@),
        r matches Some(m) ==> m.in_range(),
{
    match parse_rfc3339(text) {
        Some(zoned) => Some(zoned.utc),
        None => match parse_naive_datetime(text, "%Y-%m-%d %H:%M:%S") {
            Some(moment) => Some(moment),
            None => match parse_naive_date(text, "%Y-%m-%d") {
                Some(date) => Some(Moment { date, second: 0 }),
                None => None,
            },
        },
    }
}

/// Reads the day of the instant that a timestamp names.
pub fn parse_calendar_date(text: &str) -> (r: Option<CalendarDate>)
    ensures
        r == calendar_date_of(text@),
        r matches Some(d) ==> d.in_range(),
{
    match parse_moment(text) {
        Some(moment) => Some(moment.date),
        None => None,
    }
}

/// What a timestamp holds once it is normalised: the instant it names, or,
/// where it names none, its text.
pub enum TimestampView {
    At(Moment),
    Unreadable(Seq<char>),
}

impl TimestampView {
    /// The instant, where the timestamp names one.
    pub open spec fn moment(self) -> Option<Moment> {
        match self {
            TimestampView::At(moment) => Some(moment),
            TimestampView::Unreadable(_) => None,
        }
    }

    /// The day of the instant, where the timestamp names one.
    pub open spec fn date(self) -> Option<CalendarDate> {
        match self {
            TimestampView::At(moment) => Some(moment.date),
            TimestampView::Unreadable(_) => None,
        }
    }
}

/// The normal form of a timestamp as an endpoint wrote it: the instant that
/// the text names, whatever its spelling, and the text itself only where it
/// names none.
pub open spec fn normalized(text: Seq<char>) -> TimestampView {
    match moment_of(text) {
        Some(moment) => TimestampView::At(moment),
        None => TimestampView::Unreadable(text),
    }
}

/// Two texts that name the same instant have the same normal form, however
/// each of them spells it.
pub proof fn lemma_spellings_of_one_instant_agree(one: Seq<char>, other: Seq<char>)
    requires
        moment_of(one) is Some,
        moment_of(one) == moment_of(other),
    ensures
        normalized(one) == normalized(other),
{
}

#[derive(Debug)]
enum Reading {
    At(Moment),
    Unreadable(String),
}

/// A timestamp in its normal form.
#[derive(Debug)]
pub struct Timestamp {
    reading: Reading,
}

impl View for Timestamp {
    type V = TimestampView;

    closed spec fn view(&self) -> TimestampView {
        match self.reading {
            Reading::At(moment) => TimestampView::At(moment),
            Reading::Unreadable(text) => TimestampView::Unreadable(text@),
        }
    }
}

impl Timestamp {
    #[verifier::type_invariant]
    spec fn kept_text_names_no_instant(&self) -> bool {
        self.reading matches Reading::Unreadable(text) ==> moment_of(text@) is None
    }

    /// Normalises a timestamp as an endpoint wrote it.
    pub fn normalize(text: &str) -> (r: Self)
        ensures
            r@ == normalized(text@),
    {
        match parse_moment(text) {
            Some(moment) => Timestamp { reading: Reading::At(moment) },
            None => Timestamp { reading: Reading::Unreadable(text.to_owned()) },
        }
    }

    /// The timestamp of an instant.
    pub fn at(moment: Moment) -> (r: Self)
        ensures
            r@ == TimestampView::At(moment),
    {
        Timestamp { reading: Reading::At(moment) }
    }

    /// The instant, where the timestamp names one.
    pub fn moment(&self) -> (r: Option<Moment>)
        ensures
            r == self@.moment(),
    {
        match &self.reading {
            Reading::At(moment) => Some(*moment),
            Reading::Unreadable(_) => None,
        }
    }

    /// The day of the instant, where the timestamp names one.
    pub fn date(&self) -> (r: Option<CalendarDate>)
        ensures
            r == self@.date(),
    {
        match &self.reading {
            Reading::At(moment) => Some(moment.date),
            Reading::Unreadable(_) => None,
        }
    }

    /// The text of a timestamp that names no instant: no spelling that is
    /// read makes anything of it.
    pub fn unreadable(&self) -> (r: Option<&str>)
        ensures
            match r {
                Some(text) => self@ == TimestampView::Unreadable(text@) && moment_of(text@) is None,
                None => self@ is At,
            },
    {
        proof {
            use_type_invariant(self);
        }
        match &self.reading {
            Reading::At(_) => None,
            Reading::Unreadable(text) => Some(text.as_str()),
        }
    }
}

impl Clone for Timestamp {
    fn clone(&self) -> (r: Self)
        ensures
            r@ == self@,
    {
        proof {
            use_type_invariant(self);
        }
        match &self.reading {
            Reading::At(moment) => Timestamp { reading: Reading::At(*moment) },
            Reading::Unreadable(text) => Timestamp { reading: Reading::Unreadable(text.clone()) },
        }
    }
}

} // verus!
