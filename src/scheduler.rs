//! The scheduler's decisions, one clock tick at a time.
//!
//! The scheduler remembers only the hour and minute it last examined. A tick
//! in that same minute waits; a tick in a new minute examines the alarms in
//! list order and fires the first one that is due. When several alarms are
//! due in the same minute only the earliest in the list fires: this is the
//! tie-break, not an accident. What playback returns does not enter the
//! scheduler's state, so a failed playback never blocks a later minute.
use vstd::prelude::*;
use crate::alarm::{Alarm, alarm_due, parsed_time, plays_on};
use crate::clock::{LocalTime, TimeOfDay};

verus! {

/// What a tick asks the caller to do.
#[derive(Clone, Copy, Debug, PartialEq, Eq, Structural)]
pub enum TickAction {
    /// The minute was already examined: sleep and tick again.
    Wait,
    /// The minute was examined and no alarm is due.
    Idle,
    /// Start playback for the alarm at this index of the snapshot.
    Fire { index: usize },
}

/// The outcome of one tick.
pub struct TickDecision {
    pub action: TickAction,
    /// Indices of enabled alarms for today whose time does not read as
    /// `HH:MM`, met before the scan stopped; each is skipped.
    pub skipped: Vec<usize>,
}

/// The scheduler's state: the hour and minute it last examined.
#[derive(Clone, Copy, Debug, PartialEq, Eq, Structural)]
pub struct Scheduler {
    pub last_checked_minute: Option<TimeOfDay>,
}

/// The hour and minute of a reading.
pub open spec fn minute_of(now: LocalTime) -> TimeOfDay {
    TimeOfDay { hour: now.hour, minute: now.minute }
}

/// `i` is the first index of `alarms` whose alarm is due at `now`.
pub open spec fn is_first_due(alarms: Seq<Alarm>, now: LocalTime, i: int) -> bool {
    &&& 0 <= i < alarms.len()
    &&& alarm_due(alarms[i], now)
    &&& forall|j: int| 0 <= j < i ==> !alarm_due(#[trigger] alarms[j], now)
}

/// The first index whose alarm is due at `now`, if any alarm is.
pub open spec fn first_due(alarms: Seq<Alarm>, now: LocalTime) -> Option<int> {
    if exists|i: int| is_first_due(alarms, now, i) {
        Some(choose|i: int| is_first_due(alarms, now, i))
    } else {
        None
    }
}

/// What a tick at `now` does, given the minute last examined.
pub open spec fn tick_action(marker: Option<TimeOfDay>, alarms: Seq<Alarm>, now: LocalTime) -> TickAction {
    if marker == Some(minute_of(now)) {
        TickAction::Wait
    } else {
        match first_due(alarms, now) {
            Some(i) => TickAction::Fire { index: i as usize },
            None => TickAction::Idle,
        }
    }
}

/// An enabled alarm for today whose time cannot be read.
pub open spec fn unreadable(a: Alarm, now: LocalTime) -> bool {
    a.enabled && plays_on(a.days@, now.weekday) && parsed_time(a.time@) is None
}

/// The indices below `bound` whose alarms are unreadable at `now`, ascending.
pub open spec fn unreadable_below(alarms: Seq<Alarm>, now: LocalTime, bound: int) -> Seq<usize>
    decreases bound,
{
    if bound <= 0 {
        Seq::empty()
    } else if unreadable(alarms[bound - 1], now) {
        unreadable_below(alarms, now, bound - 1).push((bound - 1) as usize)
    } else {
        unreadable_below(alarms, now, bound - 1)
    }
}

/// The indices that a tick reports as skipped: those met before it stopped.
pub open spec fn tick_skipped(marker: Option<TimeOfDay>, alarms: Seq<Alarm>, now: LocalTime) -> Seq<usize> {
    match tick_action(marker, alarms, now) {
        TickAction::Wait => Seq::empty(),
        TickAction::Idle => unreadable_below(alarms, now, alarms.len() as int),
        TickAction::Fire { index } => unreadable_below(alarms, now, index as int),
    }
}

/// The actions of consecutive ticks, each with its snapshot and reading.
pub open spec fn run_actions(marker: Option<TimeOfDay>, ticks: Seq<(Seq<Alarm>, LocalTime)>) -> Seq<
    TickAction,
>
    decreases ticks.len(),
{
    if ticks.len() == 0 {
        Seq::empty()
    } else {
        seq![tick_action(marker, ticks[0].0, ticks[0].1)] + run_actions(
            Some(minute_of(ticks[0].1)),
            ticks.skip(1),
        )
    }
}

/// How many of the actions start a playback.
pub open spec fn fire_count(actions: Seq<TickAction>) -> nat
    decreases actions.len(),
{
    if actions.len() == 0 {
        0
    } else {
        (if actions[0] is Fire { 1nat } else { 0nat }) + fire_count(actions.skip(1))
    }
}

proof fn lemma_first_due_is(alarms: Seq<Alarm>, now: LocalTime, i: int)
    requires
        is_first_due(alarms, now, i),
    ensures
        first_due(alarms, now) == Some(i),
{
    let c = choose|k: int| is_first_due(alarms, now, k);
    assert(is_first_due(alarms, now, c));
    if c < i {
        assert(!alarm_due(alarms[c], now));
    } else if c > i {
        assert(!alarm_due(alarms[i], now));
    }
}

proof fn lemma_first_due_exists(alarms: Seq<Alarm>, now: LocalTime, i: int)
    requires
        0 <= i < alarms.len(),
        alarm_due(alarms[i], now),
    ensures
        exists|k: int| k <= i && is_first_due(alarms, now, k),
    decreases i,
{
    if exists|j: int| 0 <= j < i && alarm_due(#[trigger] alarms[j], now) {
        let j = choose|j: int| 0 <= j < i && alarm_due(#[trigger] alarms[j], now);
        lemma_first_due_exists(alarms, now, j);
    } else {
        assert(is_first_due(alarms, now, i));
    }
}

/// When two alarms are due in the same new minute, the tick fires exactly
/// one alarm, and not the later of the two: the first due alarm of the list.
pub proof fn lemma_earlier_alarm_wins(
    marker: Option<TimeOfDay>,
    alarms: Seq<Alarm>,
    now: LocalTime,
    i: int,
    j: int,
)
    requires
        0 <= i < j < alarms.len(),
        alarms.len() <= usize::MAX,
        alarm_due(alarms[i], now),
        alarm_due(alarms[j], now),
        marker != Some(minute_of(now)),
    ensures
        tick_action(marker, alarms, now) is Fire,
        ({
            let k = tick_action(marker, alarms, now)->Fire_index as int;
            k <= i && k != j && is_first_due(alarms, now, k)
        }),
{
    lemma_first_due_exists(alarms, now, i);
    let k = choose|k: int| k <= i && is_first_due(alarms, now, k);
    lemma_first_due_is(alarms, now, k);
}

proof fn lemma_fire_count_cons(x: TickAction, rest: Seq<TickAction>)
    ensures
        fire_count(seq![x] + rest) == (if x is Fire { 1nat } else { 0nat }) + fire_count(rest),
{
    let s = seq![x] + rest;
    assert(s[0] == x);
    assert(s.skip(1) =~= rest);
}

proof fn lemma_same_minute_waits(ticks: Seq<(Seq<Alarm>, LocalTime)>, minute: TimeOfDay)
    requires
        forall|k: int| 0 <= k < ticks.len() ==> minute_of(#[trigger] ticks[k].1) == minute,
    ensures
        fire_count(run_actions(Some(minute), ticks)) == 0,
    decreases ticks.len(),
{
    if ticks.len() > 0 {
        let rest = ticks.skip(1);
        assert forall|k: int| 0 <= k < rest.len() implies minute_of(#[trigger] rest[k].1)
            == minute by {
            assert(rest[k] == ticks[k + 1]);
        }
        assert(minute_of(ticks[0].1) == minute);
        lemma_same_minute_waits(rest, minute);
        lemma_fire_count_cons(
            tick_action(Some(minute), ticks[0].0, ticks[0].1),
            run_actions(Some(minute), rest),
        );
    }
}

/// However often the scheduler ticks within one minute, and whatever the
/// snapshots hold, at most one of those ticks starts a playback.
pub proof fn lemma_one_fire_per_minute(
    marker: Option<TimeOfDay>,
    ticks: Seq<(Seq<Alarm>, LocalTime)>,
    minute: TimeOfDay,
)
    requires
        forall|k: int| 0 <= k < ticks.len() ==> minute_of(#[trigger] ticks[k].1) == minute,
    ensures
        fire_count(run_actions(marker, ticks)) <= 1,
{
    if ticks.len() > 0 {
        let rest = ticks.skip(1);
        assert forall|k: int| 0 <= k < rest.len() implies minute_of(#[trigger] rest[k].1)
            == minute by {
            assert(rest[k] == ticks[k + 1]);
        }
        assert(minute_of(ticks[0].1) == minute);
        lemma_same_minute_waits(rest, minute);
        lemma_fire_count_cons(
            tick_action(marker, ticks[0].0, ticks[0].1),
            run_actions(Some(minute), rest),
        );
    }
}

/// The marker after a run of ticks: the minute of the last one.
pub open spec fn marker_after(marker: Option<TimeOfDay>, ticks: Seq<(Seq<Alarm>, LocalTime)>) -> Option<
    TimeOfDay,
> {
    if ticks.len() == 0 {
        marker
    } else {
        Some(minute_of(ticks.last().1))
    }
}

proof fn lemma_run_push(
    marker: Option<TimeOfDay>,
    ticks: Seq<(Seq<Alarm>, LocalTime)>,
    next: (Seq<Alarm>, LocalTime),
)
    ensures
        run_actions(marker, ticks.push(next)) == run_actions(marker, ticks).push(
            tick_action(marker_after(marker, ticks), next.0, next.1),
        ),
    decreases ticks.len(),
{
    let all = ticks.push(next);
    if ticks.len() == 0 {
        assert(all.skip(1) =~= Seq::<(Seq<Alarm>, LocalTime)>::empty());
        assert(run_actions(marker, ticks) =~= Seq::<TickAction>::empty());
        assert(run_actions(Some(minute_of(next.1)), all.skip(1)) =~= Seq::<TickAction>::empty());
        assert(all[0] == next);
        assert(run_actions(marker, all) =~= seq![tick_action(marker, next.0, next.1)]);
    } else {
        let m = Some(minute_of(ticks[0].1));
        assert(all[0] == ticks[0]);
        assert(all.skip(1) =~= ticks.skip(1).push(next));
        lemma_run_push(m, ticks.skip(1), next);
        if ticks.len() > 1 {
            assert(ticks.skip(1).last() == ticks.last());
        }
        assert(marker_after(m, ticks.skip(1)) == marker_after(marker, ticks));
        assert(run_actions(marker, all) =~= run_actions(marker, ticks).push(
            tick_action(marker_after(marker, ticks), next.0, next.1),
        ));
    }
}

/// A playback's outcome does not enter the scheduler's state: after any run
/// of ticks, whether its playbacks failed or not, the first tick in a new
/// minute in which an alarm is due fires that alarm again.
pub proof fn lemma_failure_not_sticky(
    marker: Option<TimeOfDay>,
    ticks: Seq<(Seq<Alarm>, LocalTime)>,
    alarms: Seq<Alarm>,
    later: LocalTime,
    i: int,
)
    requires
        ticks.len() > 0,
        minute_of(later) != minute_of(ticks.last().1),
        is_first_due(alarms, later, i),
    ensures
        run_actions(marker, ticks.push((alarms, later))).last() == (TickAction::Fire {
            index: i as usize,
        }),
{
    lemma_run_push(marker, ticks, (alarms, later));
    lemma_first_due_is(alarms, later, i);
}

impl Scheduler {
    /// A scheduler that has examined no minute yet, so that the first tick
    /// after start is evaluated.
    pub fn new() -> (r: Scheduler)
        ensures
            r.last_checked_minute is None,
    {
        Scheduler { last_checked_minute: None }
    }

    /// One tick at `now` over a snapshot of the alarm list.
    pub fn tick(&mut self, alarms: &Vec<Alarm>, now: &LocalTime) -> (d: TickDecision)
        ensures
            final(self).last_checked_minute == Some(minute_of(*now)),
            d.action == tick_action(old(self).last_checked_minute, alarms@, *now),
            d.skipped@ == tick_skipped(old(self).last_checked_minute, alarms@, *now),
    {
        let current = TimeOfDay { hour: now.hour, minute: now.minute };
        let seen = match self.last_checked_minute {
            Some(t) => t.hour == now.hour && t.minute == now.minute,
            None => false,
        };
        if seen {
            return TickDecision { action: TickAction::Wait, skipped: Vec::new() };
        }
        self.last_checked_minute = Some(current);
        let n = alarms.len();
        let mut skipped: Vec<usize> = Vec::new();
        let mut i: usize = 0;
        while i < n
            invariant
                n == alarms@.len(),
                i <= n,
                self.last_checked_minute == Some(minute_of(*now)),
                old(self).last_checked_minute != Some(minute_of(*now)),
                forall|j: int| 0 <= j < i ==> !alarm_due(#[trigger] alarms@[j], *now),
                skipped@ == unreadable_below(alarms@, *now, i as int),
            decreases n - i,
        {
            let a = &alarms[i];
            if a.enabled && a.should_play_on(now.weekday) {
                match a.parse_time() {
                    Ok(t) => {
                        if t.hour == now.hour && t.minute == now.minute {
                            proof {
                                assert(is_first_due(alarms@, *now, i as int));
                                lemma_first_due_is(alarms@, *now, i as int);
                            }
                            return TickDecision { action: TickAction::Fire { index: i }, skipped };
                        }
                    },
                    Err(_) => {
                        skipped.push(i);
                    },
                }
            }
            i = i + 1;
        }
        proof {
            assert(!exists|k: int| is_first_due(alarms@, *now, k));
        }
        TickDecision { action: TickAction::Idle, skipped }
    }
}

} // verus!
