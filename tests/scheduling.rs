use spotify_alarm::alarm::Alarm;
use spotify_alarm::clock::{LocalTime, TimeOfDay, Weekday};
use spotify_alarm::scheduler::{Scheduler, TickAction};

fn alarm(name: &str, time: &str, days: &[&str], enabled: bool) -> Alarm {
    Alarm {
        name: name.to_string(),
        time: time.to_string(),
        days: days.iter().map(|d| d.to_string()).collect(),
        enabled,
    }
}

fn at(weekday: Weekday, hour: u32, minute: u32, second: u32) -> LocalTime {
    LocalTime { year: 2024, month: 1, day: 1, hour, minute, second, weekday }
}

#[test]
fn first_tick_after_start_is_evaluated() {
    let mut s = Scheduler::new();
    assert_eq!(s.last_checked_minute, None);
    let alarms = vec![alarm("A", "07:00", &[], true)];
    let d = s.tick(&alarms, &at(Weekday::Mon, 7, 0, 42));
    assert_eq!(d.action, TickAction::Fire { index: 0 });
    assert_eq!(s.last_checked_minute, Some(TimeOfDay { hour: 7, minute: 0 }));
}

#[test]
fn earlier_alarm_wins_when_two_are_due() {
    let mut s = Scheduler::new();
    let alarms = vec![
        alarm("Off", "07:00", &[], false),
        alarm("First", "07:00", &["Mon"], true),
        alarm("Second", "07:00", &[], true),
    ];
    let d = s.tick(&alarms, &at(Weekday::Mon, 7, 0, 0));
    assert_eq!(d.action, TickAction::Fire { index: 1 });
    let again = s.tick(&alarms, &at(Weekday::Mon, 7, 0, 1));
    assert_eq!(again.action, TickAction::Wait);
}

#[test]
fn at_most_one_fire_per_minute() {
    let mut s = Scheduler::new();
    let alarms = vec![alarm("A", "07:00", &[], true)];
    let mut fires = 0;
    for second in 0..60 {
        let d = s.tick(&alarms, &at(Weekday::Mon, 7, 0, second));
        if let TickAction::Fire { .. } = d.action {
            fires += 1;
        }
    }
    assert_eq!(fires, 1);
}

#[test]
fn failed_playback_is_tried_again_next_due_minute() {
    let mut s = Scheduler::new();
    let alarms = vec![alarm("A", "07:00", &[], true), alarm("B", "07:01", &[], true)];
    assert_eq!(s.tick(&alarms, &at(Weekday::Mon, 7, 0, 0)).action, TickAction::Fire { index: 0 });
    // the playback failed: nothing is reported back to the scheduler
    assert_eq!(s.tick(&alarms, &at(Weekday::Mon, 7, 0, 30)).action, TickAction::Wait);
    assert_eq!(s.tick(&alarms, &at(Weekday::Mon, 7, 1, 0)).action, TickAction::Fire { index: 1 });
    assert_eq!(s.tick(&alarms, &at(Weekday::Tue, 7, 0, 0)).action, TickAction::Fire { index: 0 });
}

#[test]
fn monday_alarm_scenario() {
    let alarms = vec![alarm("A", "07:00", &["Mon"], true)];
    let mut s = Scheduler::new();
    assert_eq!(s.tick(&alarms, &at(Weekday::Mon, 7, 0, 0)).action, TickAction::Fire { index: 0 });
    assert_eq!(alarms[0].name, "A");
    let next = s.tick(&alarms, &at(Weekday::Mon, 7, 1, 0)).action;
    assert!(!matches!(next, TickAction::Fire { .. }));
    assert_eq!(next, TickAction::Idle);
    let mut fresh = Scheduler::new();
    assert_eq!(fresh.tick(&alarms, &at(Weekday::Tue, 7, 0, 0)).action, TickAction::Idle);
}

#[test]
fn unreadable_alarms_are_skipped_and_reported() {
    let alarms = vec![
        alarm("Bad", "7h", &[], true),
        alarm("Off", "x", &[], false),
        alarm("Sunday", "y", &["Sun"], true),
        alarm("Good", "07:00", &[], true),
        alarm("Late", "z", &[], true),
    ];
    let mut s = Scheduler::new();
    let d = s.tick(&alarms, &at(Weekday::Mon, 7, 0, 0));
    assert_eq!(d.action, TickAction::Fire { index: 3 });
    assert_eq!(d.skipped, vec![0]);
    let e = s.tick(&alarms, &at(Weekday::Mon, 8, 0, 0));
    assert_eq!(e.action, TickAction::Idle);
    assert_eq!(e.skipped, vec![0, 4]);
}

#[test]
fn waiting_tick_reports_nothing() {
    let alarms = vec![alarm("Bad", "7h", &[], true)];
    let mut s = Scheduler::new();
    s.tick(&alarms, &at(Weekday::Mon, 9, 0, 0));
    let d = s.tick(&alarms, &at(Weekday::Mon, 9, 0, 5));
    assert_eq!(d.action, TickAction::Wait);
    assert!(d.skipped.is_empty());
}
