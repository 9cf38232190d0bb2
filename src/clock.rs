//! Wall-clock readings as plain values: the weekday, the local date and time,
//! and the text form in which a trigger time is reported.
use vstd::prelude::*;
use crate::text::{push_zero_padded, zero_padded};

verus! {

/// A day of the week.
#[derive(Clone, Copy, Debug, PartialEq, Eq, Structural)]
pub enum Weekday {
    Mon,
    Tue,
    Wed,
    Thu,
    Fri,
    Sat,
    Sun,
}

impl Weekday {
    /// The standard three-letter abbreviation ("Mon").
    pub open spec fn abbrev(self) -> Seq<char> {
        match self {
            Weekday::Mon => seq!['M', 'o', 'n'],
            Weekday::Tue => seq!['T', 'u', 'e'],
            Weekday::Wed => seq!['W', 'e', 'd'],
            Weekday::Thu => seq!['T', 'h', 'u'],
            Weekday::Fri => seq!['F', 'r', 'i'],
            Weekday::Sat => seq!['S', 'a', 't'],
            Weekday::Sun => seq!['S', 'u', 'n'],
        }
    }

    /// The full English name ("Monday").
    pub open spec fn full_name(self) -> Seq<char> {
        match self {
            Weekday::Mon => seq!['M', 'o', 'n', 'd', 'a', 'y'],
            Weekday::Tue => seq!['T', 'u', 'e', 's', 'd', 'a', 'y'],
            Weekday::Wed => seq!['W', 'e', 'd', 'n', 'e', 's', 'd', 'a', 'y'],
            Weekday::Thu => seq!['T', 'h', 'u', 'r', 's', 'd', 'a', 'y'],
            Weekday::Fri => seq!['F', 'r', 'i', 'd', 'a', 'y'],
            Weekday::Sat => seq!['S', 'a', 't', 'u', 'r', 'd', 'a', 'y'],
            Weekday::Sun => seq!['S', 'u', 'n', 'd', 'a', 'y'],
        }
    }

    pub fn short_name(&self) -> (r: &'static str)
        ensures
            r@ == self.abbrev(),
    {
        proof {
            reveal_strlit("Mon");
            reveal_strlit("Tue");
            reveal_strlit("Wed");
            reveal_strlit("Thu");
            reveal_strlit("Fri");
            reveal_strlit("Sat");
            reveal_strlit("Sun");
        }
        let r = match self {
            Weekday::Mon => "Mon",
            Weekday::Tue => "Tue",
            Weekday::Wed => "Wed",
            Weekday::Thu => "Thu",
            Weekday::Fri => "Fri",
            Weekday::Sat => "Sat",
            Weekday::Sun => "Sun",
        };
        assert(r@ =~= self.abbrev());
        r
    }

    pub fn long_name(&self) -> (r: &'static str)
        ensures
            r@ == self.full_name(),
    {
        proof {
            reveal_strlit("Monday");
            reveal_strlit("Tuesday");
            reveal_strlit("Wednesday");
            reveal_strlit("Thursday");
            reveal_strlit("Friday");
            reveal_strlit("Saturday");
            reveal_strlit("Sunday");
        }
        let r = match self {
            Weekday::Mon => "Monday",
            Weekday::Tue => "Tuesday",
            Weekday::Wed => "Wednesday",
            Weekday::Thu => "Thursday",
            Weekday::Fri => "Friday",
            Weekday::Sat => "Saturday",
            Weekday::Sun => "Sunday",
        };
        assert(r@ =~= self.full_name());
        r
    }
}

/// A reading of the local wall clock, to the second.
#[derive(Clone, Copy, Debug, PartialEq, Eq, Structural)]
pub struct LocalTime {
    pub year: i32,
    pub month: u32,
    pub day: u32,
    pub hour: u32,
    pub minute: u32,
    pub second: u32,
    pub weekday: Weekday,
}

impl LocalTime {
    /// The reading's clock fields are in range.
    pub open spec fn wf(self) -> bool {
        self.hour < 24 && self.minute < 60 && self.second < 60
    }
}

/// A time of day at minute resolution.
#[derive(Clone, Copy, Debug, PartialEq, Eq, Structural)]
pub struct TimeOfDay {
    pub hour: u32,
    pub minute: u32,
}

impl TimeOfDay {
    pub open spec fn wf(self) -> bool {
        self.hour < 24 && self.minute < 60
    }
}

/// The year as `%Y` writes it: four digits at least, with a sign outside
/// the years 0 to 9999.
pub open spec fn year_text(y: int) -> Seq<char> {
    if 0 <= y <= 9999 {
        zero_padded(y as nat, 4)
    } else if y < 0 {
        seq!['-'] + zero_padded((-y) as nat, 4)
    } else {
        seq!['+'] + zero_padded(y as nat, 4)
    }
}

/// The reading as `YYYY-MM-DD HH:MM:SS`.
pub open spec fn timestamp_text(t: LocalTime) -> Seq<char> {
    year_text(t.year as int) + seq!['-'] + zero_padded(t.month as nat, 2) + seq!['-']
        + zero_padded(t.day as nat, 2) + seq![' '] + zero_padded(t.hour as nat, 2) + seq![':']
        + zero_padded(t.minute as nat, 2) + seq![':'] + zero_padded(t.second as nat, 2)
}

fn push_sep(s: &mut String, sep: &str)
    ensures
        final(s)@ == old(s)@ + sep@,
{
    s.append(sep);
}

/// Writes a reading as `YYYY-MM-DD HH:MM:SS`.
pub fn format_timestamp(t: &LocalTime) -> (r: String)
    ensures
        r@ == timestamp_text(*t),
{
    proof {
        reveal_strlit("-");
        reveal_strlit("+");
        reveal_strlit(" ");
        reveal_strlit(":");
    }
    let mut s = String::new();
    if 0 <= t.year && t.year <= 9999 {
        push_zero_padded(&mut s, t.year as u64, 4);
    } else if t.year < 0 {
        push_sep(&mut s, "-");
        push_zero_padded(&mut s, (-(t.year as i64)) as u64, 4);
    } else {
        push_sep(&mut s, "+");
        push_zero_padded(&mut s, t.year as u64, 4);
    }
    assert(s@ =~= year_text(t.year as int));
    push_sep(&mut s, "-");
    push_zero_padded(&mut s, t.month as u64, 2);
    push_sep(&mut s, "-");
    push_zero_padded(&mut s, t.day as u64, 2);
    push_sep(&mut s, " ");
    push_zero_padded(&mut s, t.hour as u64, 2);
    push_sep(&mut s, ":");
    push_zero_padded(&mut s, t.minute as u64, 2);
    push_sep(&mut s, ":");
    push_zero_padded(&mut s, t.second as u64, 2);
    assert(s@ =~= timestamp_text(*t));
    s
}

pub const SECONDS_PER_DAY: u64 = 86400;

/// Seconds from the reading to the next time the clock shows `target`; a
/// target equal to the reading is a full day away.
pub open spec fn seconds_until(now: LocalTime, target: TimeOfDay) -> nat {
    let n = now.hour * 3600 + now.minute * 60 + now.second;
    let t = target.hour * 3600 + target.minute * 60;
    if n >= t {
        (SECONDS_PER_DAY - n + t) as nat
    } else {
        (t - n) as nat
    }
}

/// Seconds until the next occurrence of `target`, counted in wall-clock
/// seconds of the reading's day.
pub fn seconds_until_time(now: &LocalTime, target: &TimeOfDay) -> (r: u64)
    requires
        now.wf(),
        target.wf(),
    ensures
        r == seconds_until(*now, *target),
        1 <= r <= SECONDS_PER_DAY,
{
    let n = now.hour as u64 * 3600 + now.minute as u64 * 60 + now.second as u64;
    let t = target.hour as u64 * 3600 + target.minute as u64 * 60;
    if n >= t {
        SECONDS_PER_DAY - n + t
    } else {
        t - n
    }
}

} // verus!
