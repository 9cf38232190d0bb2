//! The alarm model: a schedule entry, the configuration that holds the
//! ordered alarm list, and the predicate that decides when an alarm is due.
use vstd::prelude::*;
use crate::clock::{LocalTime, TimeOfDay, Weekday};
use crate::text::{
    decimal,
    eq_ignore_ascii_case,
    parse_u32,
    push_decimal,
    str_eq_ignore_ascii_case,
    u32_of,
};

verus! {

/// One schedule entry.
#[derive(Clone, Debug, PartialEq, Eq)]
pub struct Alarm {
    /// Display name.
    pub name: String,
    /// Time of day in 24-hour form, `HH:MM`.
    pub time: String,
    /// Weekday tags (`Mon` or `Monday`, any case); empty means every day.
    pub days: Vec<String>,
    /// Whether the alarm may fire.
    pub enabled: bool,
}

/// An alarm as plain values: its texts as character sequences.
pub struct AlarmView {
    pub name: Seq<char>,
    pub time: Seq<char>,
    pub days: Seq<Seq<char>>,
    pub enabled: bool,
}

impl View for Alarm {
    type V = AlarmView;

    open spec fn view(&self) -> AlarmView {
        AlarmView {
            name: self.name@,
            time: self.time@,
            days: self.days@.map_values(|d: String| d@),
            enabled: self.enabled,
        }
    }
}

/// Settings of the management API.
#[derive(Clone, Debug, PartialEq, Eq)]
pub struct WebConfig {
    pub enabled: bool,
    pub bind_addr: String,
    pub port: u16,
    pub password_hash: Option<String>,
}

/// The whole persisted configuration: the ordered alarms and the API settings.
#[derive(Clone, Debug, PartialEq, Eq)]
pub struct AlarmConfig {
    pub alarms: Vec<Alarm>,
    pub web: WebConfig,
}

pub fn default_web_enabled() -> (r: bool)
    ensures
        !r,
{
    false
}

pub fn default_bind_addr() -> (r: String)
    ensures
        r@ == "127.0.0.1"@,
{
    String::from_str("127.0.0.1")
}

pub const DEFAULT_PORT: u16 = 8080;

pub fn default_port() -> (r: u16)
    ensures
        r == DEFAULT_PORT,
{
    DEFAULT_PORT
}

pub fn default_enabled() -> (r: bool)
    ensures
        r,
{
    true
}

impl Default for WebConfig {
    fn default() -> (r: WebConfig)
        ensures
            r.enabled == false,
            r.bind_addr@ == "127.0.0.1"@,
            r.port == DEFAULT_PORT,
            r.password_hash.is_none(),
    {
        WebConfig {
            enabled: default_web_enabled(),
            bind_addr: default_bind_addr(),
            port: default_port(),
            password_hash: None,
        }
    }
}

impl WebConfig {
    /// A copy of the settings.
    pub fn duplicate(&self) -> (r: WebConfig)
        ensures
            r == *self,
    {
        let password_hash = match &self.password_hash {
            Some(h) => Some(h.clone()),
            None => None,
        };
        WebConfig {
            enabled: self.enabled,
            bind_addr: self.bind_addr.clone(),
            port: self.port,
            password_hash,
        }
    }
}

impl AlarmConfig {
    /// A copy of the configuration.
    pub fn duplicate(&self) -> (r: AlarmConfig)
        ensures
            r.alarms@.map_values(|a: Alarm| a@) == self.alarms@.map_values(|a: Alarm| a@),
            r.web == self.web,
    {
        let n = self.alarms.len();
        let mut alarms: Vec<Alarm> = Vec::new();
        let mut i: usize = 0;
        while i < n
            invariant
                n == self.alarms@.len(),
                i <= n,
                alarms@.len() == i,
                forall|j: int| 0 <= j < i ==> (#[trigger] alarms@[j])@ == self.alarms@[j]@,
            decreases n - i,
        {
            alarms.push(self.alarms[i].duplicate());
            i = i + 1;
        }
        assert(alarms@.map_values(|a: Alarm| a@) =~= self.alarms@.map_values(|a: Alarm| a@));
        AlarmConfig { alarms, web: self.web.duplicate() }
    }
}

/// `s` holds exactly one `:`, at index `k`.
pub open spec fn single_colon_at(s: Seq<char>, k: int) -> bool {
    &&& 0 <= k < s.len()
    &&& s[k] == ':'
    &&& forall|i: int| 0 <= i < s.len() && i != k ==> #[trigger] s[i] != ':'
}

/// The two parts of a text split at its one colon.
pub open spec fn colon_split(s: Seq<char>) -> Option<(Seq<char>, Seq<char>)> {
    if exists|k: int| single_colon_at(s, k) {
        let k = choose|k: int| single_colon_at(s, k);
        Some((s.take(k), s.skip(k + 1)))
    } else {
        None
    }
}

/// The time of day that an `HH:MM` text denotes, if any.
pub open spec fn parsed_time(s: Seq<char>) -> Option<TimeOfDay> {
    match colon_split(s) {
        Some((h, m)) => match (u32_of(h), u32_of(m)) {
            (Some(hv), Some(mv)) => if hv < 24 && mv < 60 {
                Some(TimeOfDay { hour: hv, minute: mv })
            } else {
                None
            },
            _ => None,
        },
        None => None,
    }
}

/// The message that explains why a text is not a time of day.
pub open spec fn time_error(s: Seq<char>) -> Seq<char> {
    match colon_split(s) {
        Some((h, m)) => match (u32_of(h), u32_of(m)) {
            (None, _) => "Invalid hour: "@ + h,
            (Some(_), None) => "Invalid minute: "@ + m,
            (Some(hv), Some(mv)) => "Invalid time: "@ + decimal(hv as nat) + seq![':'] + decimal(
                mv as nat,
            ),
        },
        None => "Invalid time format: "@ + s,
    }
}

/// The tag names the weekday, by full name or abbreviation, in any case.
pub open spec fn day_matches(tag: Seq<char>, w: Weekday) -> bool {
    eq_ignore_ascii_case(tag, w.full_name()) || eq_ignore_ascii_case(tag, w.abbrev())
}

/// An alarm with these day tags plays on `w`.
pub open spec fn plays_on(days: Seq<String>, w: Weekday) -> bool {
    days.len() == 0 || exists|i: int| 0 <= i < days.len() && day_matches(#[trigger] days[i]@, w)
}

/// The alarm is due at `now`: enabled, on one of its days, and its time
/// equal to the reading's hour and minute.
pub open spec fn alarm_due(a: Alarm, now: LocalTime) -> bool {
    &&& a.enabled
    &&& plays_on(a.days@, now.weekday)
    &&& parsed_time(a.time@) == Some(TimeOfDay { hour: now.hour, minute: now.minute })
}

/// An alarm that lists days is due only on a weekday that one of its tags
/// names, by full name or three-letter abbreviation, in any case.
pub proof fn lemma_due_only_on_listed_days(a: Alarm, now: LocalTime)
    requires
        a.days@.len() > 0,
        alarm_due(a, now),
    ensures
        exists|i: int| 0 <= i < a.days@.len() && day_matches(#[trigger] a.days@[i]@, now.weekday),
{
}

/// An alarm that lists no days does not depend on the weekday: two readings
/// with the same hour and minute find it due alike.
pub proof fn lemma_no_days_any_weekday(a: Alarm, now: LocalTime, other: LocalTime)
    requires
        a.days@.len() == 0,
        now.hour == other.hour,
        now.minute == other.minute,
    ensures
        alarm_due(a, now) == alarm_due(a, other),
{
}

/// An alarm is due only at its exact hour and minute: a reading at any other
/// hour or minute, one minute before or after included, finds it not due.
pub proof fn lemma_due_at_exact_minute(a: Alarm, now: LocalTime, other: LocalTime)
    requires
        alarm_due(a, now),
        other.hour != now.hour || other.minute != now.minute,
    ensures
        !alarm_due(a, other),
{
}

/// Relies on chrono::NaiveTime::from_hms_opt, which gives a time exactly
/// when the hour is below 24 and the minute below 60 (second 0).
#[verifier::external_body]
fn clock_time_exists(hour: u32, minute: u32) -> (r: bool)
    ensures
        r == (hour < 24 && minute < 60),
{
    chrono::NaiveTime::from_hms_opt(hour, minute, 0).is_some()
}

fn message(prefix: &str, tail: &str) -> (r: String)
    ensures
        r@ == prefix@ + tail@,
{
    let mut r = String::from_str(prefix);
    r.append(tail);
    r
}

/// Finds the index of the only colon of `s`, if it has exactly one.
fn find_single_colon(s: &str) -> (r: Option<usize>)
    ensures
        r is Some ==> single_colon_at(s@, r->Some_0 as int),
        r is None ==> !exists|k: int| single_colon_at(s@, k),
{
    let len = s.unicode_len();
    let mut found: Option<usize> = None;
    let mut i: usize = 0;
    while i < len
        invariant
            len == s@.len(),
            i <= len,
            found is None ==> forall|j: int| 0 <= j < i ==> #[trigger] s@[j] != ':',
            found is Some ==> {
                let k = found->Some_0 as int;
                &&& 0 <= k < i
                &&& s@[k] == ':'
                &&& forall|j: int| 0 <= j < i && j != k ==> #[trigger] s@[j] != ':'
            },
        decreases len - i,
    {
        if s.get_char(i) == ':' {
            match found {
                Some(k) => {
                    proof {
                        assert forall|x: int| single_colon_at(s@, x) implies false by {
                            if x != k as int {
                                assert(s@[k as int] != ':');
                            } else {
                                assert(s@[i as int] != ':');
                            }
                        }
                    }
                    return None;
                },
                None => {
                    found = Some(i);
                },
            }
        }
        i = i + 1;
    }
    proof {
        if found is None {
            assert forall|x: int| single_colon_at(s@, x) implies false by {
                assert(s@[x] != ':');
            }
        }
    }
    found
}

impl Alarm {
    /// Reads the alarm's `HH:MM` time.
    pub fn parse_time(&self) -> (r: Result<TimeOfDay, String>)
        ensures
            r is Ok <==> parsed_time(self.time@) is Some,
            r is Ok ==> Some(r->Ok_0) == parsed_time(self.time@),
            r is Err ==> r->Err_0@ == time_error(self.time@),
    {
        let s = self.time.as_str();
        let len = s.unicode_len();
        let k = match find_single_colon(s) {
            Some(k) => k,
            None => {
                return Err(message("Invalid time format: ", s));
            },
        };
        let ghost t = s@;
        proof {
            assert(single_colon_at(t, k as int));
            let c = choose|x: int| single_colon_at(t, x);
            assert(c == k as int) by {
                if c != k as int {
                    assert(t[c] != ':');
                }
            }
        }
        let hour_text = s.substring_char(0, k);
        let minute_text = s.substring_char(k + 1, len);
        assert(hour_text@ =~= t.take(k as int));
        assert(minute_text@ =~= t.skip(k + 1));
        let hour = match parse_u32(hour_text) {
            Some(h) => h,
            None => {
                return Err(message("Invalid hour: ", hour_text));
            },
        };
        let minute = match parse_u32(minute_text) {
            Some(m) => m,
            None => {
                return Err(message("Invalid minute: ", minute_text));
            },
        };
        if clock_time_exists(hour, minute) {
            Ok(TimeOfDay { hour, minute })
        } else {
            let mut e = String::from_str("Invalid time: ");
            push_decimal(&mut e, hour as u64);
            proof {
                reveal_strlit(":");
            }
            e.append(":");
            push_decimal(&mut e, minute as u64);
            assert(e@ =~= time_error(t));
            Err(e)
        }
    }

    /// Whether the alarm plays on `weekday`: always when it lists no days,
    /// else when one of its tags names the day.
    pub fn should_play_on(&self, weekday: Weekday) -> (r: bool)
        ensures
            r == plays_on(self.days@, weekday),
    {
        let n = self.days.len();
        if n == 0 {
            return true;
        }
        let full = weekday.long_name();
        let short = weekday.short_name();
        let mut i: usize = 0;
        while i < n
            invariant
                n == self.days@.len(),
                i <= n,
                full@ == weekday.full_name(),
                short@ == weekday.abbrev(),
                forall|j: int| 0 <= j < i ==> !day_matches(#[trigger] self.days@[j]@, weekday),
            decreases n - i,
        {
            let tag = self.days[i].as_str();
            if str_eq_ignore_ascii_case(tag, full) || str_eq_ignore_ascii_case(tag, short) {
                return true;
            }
            i = i + 1;
        }
        false
    }

    /// Whether the alarm is due at `now`. An alarm whose time does not read
    /// as `HH:MM` is never due.
    pub fn is_due(&self, now: &LocalTime) -> (r: bool)
        ensures
            r == alarm_due(*self, *now),
    {
        if !self.enabled || !self.should_play_on(now.weekday) {
            return false;
        }
        match self.parse_time() {
            Ok(t) => t.hour == now.hour && t.minute == now.minute,
            Err(_) => false,
        }
    }

    /// A copy of the alarm.
    pub fn duplicate(&self) -> (r: Alarm)
        ensures
            r@ == self@,
    {
        let n = self.days.len();
        let mut days: Vec<String> = Vec::new();
        let mut i: usize = 0;
        while i < n
            invariant
                n == self.days@.len(),
                i <= n,
                days@ == self.days@.take(i as int),
            decreases n - i,
        {
            days.push(self.days[i].clone());
            i = i + 1;
            assert(days@ =~= self.days@.take(i as int));
        }
        assert(days@ =~= self.days@);
        assert(days@.map_values(|d: String| d@) =~= self.days@.map_values(|d: String| d@));
        Alarm { name: self.name.clone(), time: self.time.clone(), days, enabled: self.enabled }
    }
}

} // verus!
