use spotify_alarm::alarm::{Alarm, AlarmConfig, WebConfig};
use spotify_alarm::clock::{LocalTime, Weekday};
use spotify_alarm::routes::{
    count_enabled, create_alarm, delete_alarm, get_alarm, get_status, is_weekday_tag,
    list_alarms, request_admitted, save_failure, toggle_alarm, update_alarm, validate_alarm,
    BAD_REQUEST, CREATED, INTERNAL_SERVER_ERROR, NOT_FOUND, NO_CONTENT,
};
use spotify_alarm::state::{index_error_message, AppState};

fn alarm(name: &str, time: &str, days: &[&str], enabled: bool) -> Alarm {
    Alarm {
        name: name.to_string(),
        time: time.to_string(),
        days: days.iter().map(|d| d.to_string()).collect(),
        enabled,
    }
}

fn state_with(alarms: Vec<Alarm>) -> AppState {
    AppState {
        config: AlarmConfig { alarms, web: WebConfig::default() },
        config_path: "alarms.json".to_string(),
        last_alarm_trigger: None,
    }
}

fn three() -> AppState {
    state_with(vec![
        alarm("A", "06:00", &[], true),
        alarm("B", "07:00", &["Mon"], false),
        alarm("C", "08:00", &["Tue", "Wed"], true),
    ])
}

fn names(s: &AppState) -> Vec<String> {
    s.config.alarms.iter().map(|a| a.name.clone()).collect()
}

#[test]
fn delete_shifts_later_alarms_down() {
    let mut s = three();
    assert_eq!(s.delete_alarm(1), Ok(()));
    assert_eq!(names(&s), vec!["A", "C"]);
    assert_eq!(s.config.alarms[1], alarm("C", "08:00", &["Tue", "Wed"], true));
    let mut t = three();
    assert_eq!(t.delete_alarm(0), Ok(()));
    assert_eq!(names(&t), vec!["B", "C"]);
    let mut u = three();
    assert_eq!(u.delete_alarm(2), Ok(()));
    assert_eq!(names(&u), vec!["A", "B"]);
}

#[test]
fn toggle_flips_only_enabled() {
    let mut s = three();
    let before = s.config.alarms.clone();
    let t = s.toggle_alarm(1).unwrap();
    assert_eq!(t, alarm("B", "07:00", &["Mon"], true));
    assert_eq!(s.config.alarms[0], before[0]);
    assert_eq!(s.config.alarms[1], t);
    assert_eq!(s.config.alarms[2], before[2]);
    s.toggle_alarm(1).unwrap();
    assert_eq!(s.config.alarms, before);
}

#[test]
fn state_index_errors() {
    let mut s = three();
    assert_eq!(s.delete_alarm(3), Err("Index 3 out of bounds".to_string()));
    assert_eq!(s.toggle_alarm(7), Err("Index 7 out of bounds".to_string()));
    assert_eq!(
        s.update_alarm(10, alarm("X", "01:00", &[], true)),
        Err("Index 10 out of bounds".to_string())
    );
    assert_eq!(s.get_alarm(3), None);
    assert_eq!(s.config.alarms, three().config.alarms);
    assert_eq!(index_error_message(0), "Index 0 out of bounds");
}

#[test]
fn state_edits() {
    let mut s = three();
    s.add_alarm(alarm("D", "09:00", &[], true));
    assert_eq!(names(&s), vec!["A", "B", "C", "D"]);
    assert_eq!(s.update_alarm(0, alarm("Z", "05:00", &[], false)), Ok(()));
    assert_eq!(s.get_alarm(0), Some(alarm("Z", "05:00", &[], false)));
    assert_eq!(s.get_alarms().len(), 4);
    assert_eq!(s.get_alarms()[3], alarm("D", "09:00", &[], true));
}

#[test]
fn create_with_bad_time_is_refused_and_changes_nothing() {
    let mut s = three();
    let r = create_alarm(&mut s, alarm("Late", "25:00", &[], true));
    let (status, body) = r.unwrap_err();
    assert_eq!(status, BAD_REQUEST);
    assert_eq!(body.error, "Invalid time: 25:0");
    assert_eq!(s.config.alarms, three().config.alarms);
}

#[test]
fn create_appends() {
    let mut s = three();
    let (status, a) = create_alarm(&mut s, alarm("New", "10:30", &["sat"], true)).unwrap();
    assert_eq!(status, CREATED);
    assert_eq!(a, alarm("New", "10:30", &["sat"], true));
    assert_eq!(names(&s), vec!["A", "B", "C", "New"]);
}

#[test]
fn create_refuses_empty_name_and_unknown_days() {
    let mut s = three();
    let (status, body) = create_alarm(&mut s, alarm("", "10:30", &[], true)).unwrap_err();
    assert_eq!(status, BAD_REQUEST);
    assert_eq!(body.error, "Alarm name must not be empty");
    let (status, body) =
        create_alarm(&mut s, alarm("X", "10:30", &["Mon", "Funday", "Nope"], true)).unwrap_err();
    assert_eq!(status, BAD_REQUEST);
    assert_eq!(body.error, "Invalid day: Funday");
    assert_eq!(s.config.alarms.len(), 3);
    assert_eq!(validate_alarm(&alarm("Y", "1:2", &["FRIDAY", "sun"], true)), Ok(()));
    assert!(is_weekday_tag("thursday"));
    assert!(!is_weekday_tag("thurs"));
}

#[test]
fn delete_beyond_the_list_is_not_found() {
    let mut s = three();
    let (status, body) = delete_alarm(&mut s, 3).unwrap_err();
    assert_eq!(status, NOT_FOUND);
    assert_eq!(body.error, "Index 3 out of bounds");
    assert_eq!(s.config.alarms, three().config.alarms);
    assert_eq!(delete_alarm(&mut s, 2), Ok(NO_CONTENT));
    assert_eq!(names(&s), vec!["A", "B"]);
}

#[test]
fn update_route() {
    let mut s = three();
    let (status, body) = update_alarm(&mut s, 9, alarm("X", "99:00", &[], true)).unwrap_err();
    assert_eq!(status, BAD_REQUEST);
    assert_eq!(body.error, "Invalid time: 99:0");
    let (status, body) = update_alarm(&mut s, 9, alarm("X", "09:00", &[], true)).unwrap_err();
    assert_eq!(status, NOT_FOUND);
    assert_eq!(body.error, "Index 9 out of bounds");
    assert_eq!(s.config.alarms, three().config.alarms);
    let a = update_alarm(&mut s, 2, alarm("X", "09:00", &[], true)).unwrap();
    assert_eq!(a, alarm("X", "09:00", &[], true));
    assert_eq!(names(&s), vec!["A", "B", "X"]);
}

#[test]
fn toggle_and_get_routes() {
    let mut s = three();
    let a = toggle_alarm(&mut s, 0).unwrap();
    assert!(!a.enabled);
    let (status, body) = toggle_alarm(&mut s, 5).unwrap_err();
    assert_eq!(status, NOT_FOUND);
    assert_eq!(body.error, "Index 5 out of bounds");
    assert_eq!(get_alarm(&s, 0).unwrap(), alarm("A", "06:00", &[], false));
    let (status, body) = get_alarm(&s, 3).unwrap_err();
    assert_eq!(status, NOT_FOUND);
    assert_eq!(body.error, "Alarm at index 3 not found");
    let listed = list_alarms(&s);
    assert_eq!(listed, s.config);
}

#[test]
fn status_counts_and_last_trigger() {
    let mut s = three();
    let st = get_status(&s);
    assert_eq!(st.alarm_count, 3);
    assert_eq!(st.enabled_count, 2);
    assert_eq!(st.last_trigger, None);
    assert_eq!(count_enabled(&s.config.alarms), 2);
    let at = LocalTime { year: 2025, month: 11, day: 3, hour: 7, minute: 0, second: 4, weekday: Weekday::Mon };
    s.record_trigger("A".to_string(), at);
    let st = get_status(&s);
    assert_eq!(st.last_trigger, Some(("A".to_string(), "2025-11-03 07:00:04".to_string())));
    assert_eq!(get_status(&state_with(vec![])).enabled_count, 0);
}

#[test]
fn save_failure_is_a_server_error() {
    let (status, body) = save_failure("disk full");
    assert_eq!(status, INTERNAL_SERVER_ERROR);
    assert_eq!(body.error, "Failed to save config: disk full");
}

#[test]
fn request_gate() {
    let secret = Some("s3cret".to_string());
    assert!(request_admitted("/", &secret, ""));
    assert!(request_admitted("/api/alarms", &None, ""));
    assert!(request_admitted("/api/alarms", &secret, "s3cret"));
    assert!(!request_admitted("/api/alarms", &secret, "wrong"));
    assert!(!request_admitted("/api/status", &secret, ""));
}
