//! What each management API request does to the shared state and what it
//! answers, as HTTP status codes and bodies. The transport takes the state's
//! lock around each call and, after a successful edit, writes the whole
//! configuration to storage; a failed write is answered with `save_failure`.
use vstd::prelude::*;
use crate::alarm::{
    Alarm,
    AlarmConfig,
    day_matches,
    parsed_time,
    time_error,
};
use crate::clock::{Weekday, format_timestamp, timestamp_text};
use crate::state::{AppState, alarm_views, index_error, index_error_message, toggled};
use crate::text::{decimal, push_decimal, str_eq_ignore_ascii_case};

verus! {

pub const OK: u16 = 200;

pub const CREATED: u16 = 201;

pub const NO_CONTENT: u16 = 204;

pub const BAD_REQUEST: u16 = 400;

pub const NOT_FOUND: u16 = 404;

pub const INTERNAL_SERVER_ERROR: u16 = 500;

/// The body of a failed request.
#[derive(Clone, Debug, PartialEq, Eq)]
pub struct ErrorResponse {
    pub error: String,
}

/// A failed request: its status code and body.
pub type Failure = (u16, ErrorResponse);

/// The answer to a status query.
#[derive(Clone, Debug, PartialEq, Eq)]
pub struct SystemStatus {
    pub alarm_count: usize,
    pub enabled_count: usize,
    /// The name of the alarm that last played and when, as
    /// `YYYY-MM-DD HH:MM:SS`.
    pub last_trigger: Option<(String, String)>,
}

/// The tag names a day of the week.
pub open spec fn names_weekday(tag: Seq<char>) -> bool {
    exists|w: Weekday| day_matches(tag, w)
}

/// `i` is the first day tag that names no weekday.
pub open spec fn is_first_bad_day(days: Seq<String>, i: int) -> bool {
    &&& 0 <= i < days.len()
    &&& !names_weekday(days[i]@)
    &&& forall|j: int| 0 <= j < i ==> names_weekday(#[trigger] days[j]@)
}

/// Why an alarm sent to the API is refused, if it is: a time that is not
/// `HH:MM`, an empty name, or a day tag that names no weekday.
pub open spec fn input_error(a: Alarm) -> Option<Seq<char>> {
    if parsed_time(a.time@) is None {
        Some(time_error(a.time@))
    } else if a.name@.len() == 0 {
        Some("Alarm name must not be empty"@)
    } else if exists|i: int| is_first_bad_day(a.days@, i) {
        let i = choose|i: int| is_first_bad_day(a.days@, i);
        Some("Invalid day: "@ + a.days@[i]@)
    } else {
        None
    }
}

/// The message for a lookup of an index that names no alarm.
pub open spec fn not_found_error(index: usize) -> Seq<char> {
    "Alarm at index "@ + decimal(index as nat) + " not found"@
}

/// The number of enabled alarms.
pub open spec fn enabled_count(alarms: Seq<Alarm>) -> nat
    decreases alarms.len(),
{
    if alarms.len() == 0 {
        0
    } else {
        enabled_count(alarms.drop_last()) + if alarms.last().enabled {
            1nat
        } else {
            0nat
        }
    }
}

fn names_day(tag: &str, w: Weekday) -> (r: bool)
    ensures
        r == day_matches(tag@, w),
{
    str_eq_ignore_ascii_case(tag, w.long_name()) || str_eq_ignore_ascii_case(tag, w.short_name())
}

/// Whether the tag names a day of the week.
pub fn is_weekday_tag(tag: &str) -> (r: bool)
    ensures
        r == names_weekday(tag@),
{
    let r = names_day(tag, Weekday::Mon) || names_day(tag, Weekday::Tue) || names_day(
        tag,
        Weekday::Wed,
    ) || names_day(tag, Weekday::Thu) || names_day(tag, Weekday::Fri) || names_day(
        tag,
        Weekday::Sat,
    ) || names_day(tag, Weekday::Sun);
    proof {
        if !r {
            assert forall|w: Weekday| !day_matches(tag@, w) by {
                match w {
                    Weekday::Mon => {},
                    Weekday::Tue => {},
                    Weekday::Wed => {},
                    Weekday::Thu => {},
                    Weekday::Fri => {},
                    Weekday::Sat => {},
                    Weekday::Sun => {},
                }
            }
        }
    }
    r
}

/// Checks an alarm sent to the API before any state is touched.
pub fn validate_alarm(alarm: &Alarm) -> (r: Result<(), String>)
    ensures
        r is Ok <==> input_error(*alarm) is None,
        r is Err ==> input_error(*alarm) == Some(r->Err_0@),
{
    match alarm.parse_time() {
        Ok(_) => {},
        Err(e) => {
            return Err(e);
        },
    }
    if alarm.name.as_str().unicode_len() == 0 {
        return Err(String::from_str("Alarm name must not be empty"));
    }
    let n = alarm.days.len();
    let mut i: usize = 0;
    while i < n
        invariant
            n == alarm.days@.len(),
            i <= n,
            parsed_time(alarm.time@) is Some,
            alarm.name@.len() != 0,
            forall|j: int| 0 <= j < i ==> names_weekday(#[trigger] alarm.days@[j]@),
        decreases n - i,
    {
        let tag = alarm.days[i].as_str();
        if !is_weekday_tag(tag) {
            proof {
                assert(is_first_bad_day(alarm.days@, i as int));
                let c = choose|c: int| is_first_bad_day(alarm.days@, c);
                assert(c == i as int) by {
                    if c < i as int {
                        assert(names_weekday(alarm.days@[c]@));
                    } else if c > i as int {
                        assert(!names_weekday(alarm.days@[i as int]@));
                    }
                }
            }
            let mut e = String::from_str("Invalid day: ");
            e.append(tag);
            return Err(e);
        }
        i = i + 1;
    }
    proof {
        assert(!exists|c: int| is_first_bad_day(alarm.days@, c));
    }
    Ok(())
}

fn failure(status: u16, error: String) -> (r: Failure)
    ensures
        r.0 == status,
        r.1.error == error,
{
    (status, ErrorResponse { error })
}

/// The answer to a request whose edit succeeded in memory but could not be
/// written to storage. The edit stays in memory.
pub fn save_failure(e: &str) -> (r: Failure)
    ensures
        r.0 == INTERNAL_SERVER_ERROR,
        r.1.error@ == "Failed to save config: "@ + e@,
{
    let mut m = String::from_str("Failed to save config: ");
    m.append(e);
    failure(INTERNAL_SERVER_ERROR, m)
}

/// The whole configuration.
pub fn list_alarms(state: &AppState) -> (r: AlarmConfig)
    ensures
        alarm_views(r.alarms@) == alarm_views(state.config.alarms@),
        r.web == state.config.web,
{
    state.config.duplicate()
}

/// The alarm at `index`, or 404.
pub fn get_alarm(state: &AppState, index: usize) -> (r: Result<Alarm, Failure>)
    ensures
        r is Ok <==> index < state.config.alarms@.len(),
        r is Ok ==> r->Ok_0@ == state.config.alarms@[index as int]@,
        r is Err ==> r->Err_0.0 == NOT_FOUND && r->Err_0.1.error@ == not_found_error(index),
{
    match state.get_alarm(index) {
        Some(a) => Ok(a),
        None => {
            let mut m = String::from_str("Alarm at index ");
            push_decimal(&mut m, index as u64);
            m.append(" not found");
            Err(failure(NOT_FOUND, m))
        },
    }
}

/// Appends a new alarm, answering 201 with a copy of it; a refused alarm is
/// answered 400 and leaves the state as it was.
pub fn create_alarm(state: &mut AppState, alarm: Alarm) -> (r: Result<(u16, Alarm), Failure>)
    ensures
        r is Ok <==> input_error(alarm) is None,
        r is Ok ==> {
            &&& r->Ok_0.0 == CREATED
            &&& r->Ok_0.1@ == alarm@
            &&& final(state).config.alarms@ == old(state).config.alarms@.push(alarm)
            &&& final(state).config.web == old(state).config.web
            &&& final(state).config_path == old(state).config_path
            &&& final(state).last_alarm_trigger == old(state).last_alarm_trigger
        },
        r is Err ==> {
            &&& r->Err_0.0 == BAD_REQUEST
            &&& input_error(alarm) == Some(r->Err_0.1.error@)
            &&& *final(state) == *old(state)
        },
{
    match validate_alarm(&alarm) {
        Ok(()) => {},
        Err(e) => {
            return Err(failure(BAD_REQUEST, e));
        },
    }
    let copy = alarm.duplicate();
    state.add_alarm(alarm);
    Ok((CREATED, copy))
}

/// Replaces the alarm at `index`, answering with a copy of the new alarm. A
/// refused alarm is answered 400 and an index that names no alarm 404, and
/// both leave the state as it was.
pub fn update_alarm(state: &mut AppState, index: usize, alarm: Alarm) -> (r: Result<Alarm, Failure>)
    ensures
        r is Ok <==> input_error(alarm) is None && index < old(state).config.alarms@.len(),
        r is Ok ==> {
            &&& r->Ok_0@ == alarm@
            &&& final(state).config.alarms@ == old(state).config.alarms@.update(index as int, alarm)
            &&& final(state).config.web == old(state).config.web
            &&& final(state).config_path == old(state).config_path
            &&& final(state).last_alarm_trigger == old(state).last_alarm_trigger
        },
        r is Err ==> *final(state) == *old(state),
        r is Err && input_error(alarm) is Some ==> r->Err_0.0 == BAD_REQUEST && input_error(alarm)
            == Some(r->Err_0.1.error@),
        r is Err && input_error(alarm) is None ==> r->Err_0.0 == NOT_FOUND && r->Err_0.1.error@
            == index_error(index),
{
    match validate_alarm(&alarm) {
        Ok(()) => {},
        Err(e) => {
            return Err(failure(BAD_REQUEST, e));
        },
    }
    if index >= state.config.alarms.len() {
        return Err(failure(NOT_FOUND, index_error_message(index)));
    }
    let copy = alarm.duplicate();
    let _ = state.update_alarm(index, alarm);
    Ok(copy)
}

/// Removes the alarm at `index`, answering 204; an index that names no
/// alarm is answered 404 and leaves the state as it was.
pub fn delete_alarm(state: &mut AppState, index: usize) -> (r: Result<u16, Failure>)
    ensures
        r is Ok <==> index < old(state).config.alarms@.len(),
        r is Ok ==> {
            &&& r->Ok_0 == NO_CONTENT
            &&& final(state).config.alarms@ == old(state).config.alarms@.remove(index as int)
            &&& final(state).config.web == old(state).config.web
            &&& final(state).config_path == old(state).config_path
            &&& final(state).last_alarm_trigger == old(state).last_alarm_trigger
        },
        r is Err ==> {
            &&& r->Err_0.0 == NOT_FOUND
            &&& r->Err_0.1.error@ == index_error(index)
            &&& *final(state) == *old(state)
        },
{
    if index >= state.config.alarms.len() {
        return Err(failure(NOT_FOUND, index_error_message(index)));
    }
    let _ = state.delete_alarm(index);
    assert(state.config.alarms@ =~= old(state).config.alarms@.remove(index as int));
    Ok(NO_CONTENT)
}

/// Flips the `enabled` flag of the alarm at `index`, answering with a copy
/// of the alarm as it now stands; an index that names no alarm is answered
/// 404 and leaves the state as it was.
pub fn toggle_alarm(state: &mut AppState, index: usize) -> (r: Result<Alarm, Failure>)
    ensures
        r is Ok <==> index < old(state).config.alarms@.len(),
        r is Ok ==> {
            &&& r->Ok_0@ == toggled(old(state).config.alarms@[index as int])@
            &&& final(state).config.alarms@ == old(state).config.alarms@.update(
                index as int,
                toggled(old(state).config.alarms@[index as int]),
            )
            &&& final(state).config.web == old(state).config.web
            &&& final(state).config_path == old(state).config_path
            &&& final(state).last_alarm_trigger == old(state).last_alarm_trigger
        },
        r is Err ==> {
            &&& r->Err_0.0 == NOT_FOUND
            &&& r->Err_0.1.error@ == index_error(index)
            &&& *final(state) == *old(state)
        },
{
    if index >= state.config.alarms.len() {
        return Err(failure(NOT_FOUND, index_error_message(index)));
    }
    match state.toggle_alarm(index) {
        Ok(a) => Ok(a),
        Err(e) => Err(failure(NOT_FOUND, e)),
    }
}

/// Whether a request may proceed: the root page is public, every path is
/// open while no secret is configured, and otherwise the secret presented
/// with the request must equal the configured one.
pub fn request_admitted(path: &str, secret: &Option<String>, presented: &str) -> (r: bool)
    ensures
        r == (path@ == "/"@ || secret is None || secret->Some_0@ == presented@),
{
    proof {
        reveal_strlit("/");
    }
    if path.unicode_len() == 1 && path.get_char(0) == '/' {
        assert(path@ =~= "/"@);
        return true;
    }
    match secret {
        None => true,
        Some(s) => String::from_str(presented) == *s,
    }
}

/// Counts the enabled alarms.
pub fn count_enabled(alarms: &Vec<Alarm>) -> (r: usize)
    ensures
        r == enabled_count(alarms@),
{
    let n = alarms.len();
    let mut count: usize = 0;
    let mut i: usize = 0;
    while i < n
        invariant
            n == alarms@.len(),
            i <= n,
            count == enabled_count(alarms@.take(i as int)),
            count <= i,
        decreases n - i,
    {
        let ghost prev = alarms@.take(i as int);
        let ghost next = alarms@.take(i + 1);
        assert(next.drop_last() =~= prev);
        if alarms[i].enabled {
            count = count + 1;
        }
        i = i + 1;
    }
    assert(alarms@.take(n as int) =~= alarms@);
    count
}

/// The number of alarms, how many are enabled, and the last successful
/// trigger with its time.
pub fn get_status(state: &AppState) -> (r: SystemStatus)
    ensures
        r.alarm_count == state.config.alarms@.len(),
        r.enabled_count == enabled_count(state.config.alarms@),
        r.last_trigger is Some <==> state.last_alarm_trigger is Some,
        r.last_trigger is Some ==> {
            let (name, at) = state.last_alarm_trigger->Some_0;
            let (n, t) = r.last_trigger->Some_0;
            n@ == name@ && t@ == timestamp_text(at)
        },
{
    let last_trigger = match &state.last_alarm_trigger {
        Some((name, at)) => Some((name.clone(), format_timestamp(at))),
        None => None,
    };
    SystemStatus {
        alarm_count: state.config.alarms.len(),
        enabled_count: count_enabled(&state.config.alarms),
        last_trigger,
    }
}

} // verus!
