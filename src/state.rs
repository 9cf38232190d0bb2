//! The process's single shared state and the operations that edit it.
//!
//! Alarms are addressed by their index in the ordered list. An index is only
//! meaningful for the list it was taken from: an insertion or a deletion
//! before it shifts it.
use vstd::prelude::*;
use crate::alarm::{Alarm, AlarmConfig, AlarmView};
use crate::clock::LocalTime;
use crate::text::{decimal, push_decimal};

verus! {

/// The configuration in use, where it is stored, and the alarm that last
/// played successfully with the time it fired.
pub struct AppState {
    pub config: AlarmConfig,
    pub config_path: String,
    pub last_alarm_trigger: Option<(String, LocalTime)>,
}

/// The views of a list of alarms.
pub open spec fn alarm_views(alarms: Seq<Alarm>) -> Seq<AlarmView> {
    alarms.map_values(|a: Alarm| a@)
}

/// The alarm with its `enabled` flag flipped and every other field kept.
pub open spec fn toggled(a: Alarm) -> Alarm {
    Alarm { name: a.name, time: a.time, days: a.days, enabled: !a.enabled }
}

/// The message for an index that names no alarm.
pub open spec fn index_error(index: usize) -> Seq<char> {
    "Index "@ + decimal(index as nat) + " out of bounds"@
}

/// Builds the message for an index that names no alarm.
pub fn index_error_message(index: usize) -> (r: String)
    ensures
        r@ == index_error(index),
{
    let mut r = String::from_str("Index ");
    push_decimal(&mut r, index as u64);
    r.append(" out of bounds");
    r
}

impl AppState {
    /// Copies of all alarms, in order.
    pub fn get_alarms(&self) -> (r: Vec<Alarm>)
        ensures
            alarm_views(r@) == alarm_views(self.config.alarms@),
    {
        let n = self.config.alarms.len();
        let mut r: Vec<Alarm> = Vec::new();
        let mut i: usize = 0;
        while i < n
            invariant
                n == self.config.alarms@.len(),
                i <= n,
                r@.len() == i,
                forall|j: int| 0 <= j < i ==> (#[trigger] r@[j])@ == self.config.alarms@[j]@,
            decreases n - i,
        {
            r.push(self.config.alarms[i].duplicate());
            i = i + 1;
        }
        assert(alarm_views(r@) =~= alarm_views(self.config.alarms@));
        r
    }

    /// A copy of the alarm at `index`, if there is one.
    pub fn get_alarm(&self, index: usize) -> (r: Option<Alarm>)
        ensures
            r is Some <==> index < self.config.alarms@.len(),
            r is Some ==> r->Some_0@ == self.config.alarms@[index as int]@,
    {
        if index < self.config.alarms.len() {
            Some(self.config.alarms[index].duplicate())
        } else {
            None
        }
    }

    /// Replaces the alarm at `index`.
    pub fn update_alarm(&mut self, index: usize, alarm: Alarm) -> (r: Result<(), String>)
        ensures
            r is Ok <==> index < old(self).config.alarms@.len(),
            r is Ok ==> final(self).config.alarms@ == old(self).config.alarms@.update(
                index as int,
                alarm,
            ),
            r is Err ==> final(self).config.alarms@ == old(self).config.alarms@ && r->Err_0@
                == index_error(index),
            final(self).config.web == old(self).config.web,
            final(self).config_path == old(self).config_path,
            final(self).last_alarm_trigger == old(self).last_alarm_trigger,
    {
        if index >= self.config.alarms.len() {
            return Err(index_error_message(index));
        }
        self.config.alarms.set(index, alarm);
        Ok(())
    }

    /// Appends an alarm to the end of the list.
    pub fn add_alarm(&mut self, alarm: Alarm)
        ensures
            final(self).config.alarms@ == old(self).config.alarms@.push(alarm),
            final(self).config.web == old(self).config.web,
            final(self).config_path == old(self).config_path,
            final(self).last_alarm_trigger == old(self).last_alarm_trigger,
    {
        self.config.alarms.push(alarm);
    }

    /// Removes the alarm at `index`. The alarms before it keep their
    /// indices; those after it move down by one.
    pub fn delete_alarm(&mut self, index: usize) -> (r: Result<(), String>)
        ensures
            r is Ok <==> index < old(self).config.alarms@.len(),
            r is Ok ==> {
                let before = old(self).config.alarms@;
                let after = final(self).config.alarms@;
                &&& after.len() == before.len() - 1
                &&& forall|i: int| 0 <= i < index ==> #[trigger] after[i] == before[i]
                &&& forall|i: int| index <= i < after.len() ==> #[trigger] after[i] == before[i + 1]
            },
            r is Err ==> final(self).config.alarms@ == old(self).config.alarms@ && r->Err_0@
                == index_error(index),
            final(self).config.web == old(self).config.web,
            final(self).config_path == old(self).config_path,
            final(self).last_alarm_trigger == old(self).last_alarm_trigger,
    {
        if index >= self.config.alarms.len() {
            return Err(index_error_message(index));
        }
        self.config.alarms.remove(index);
        Ok(())
    }

    /// Flips the `enabled` flag of the alarm at `index` and returns a copy of
    /// the alarm as it now stands. Nothing else changes.
    pub fn toggle_alarm(&mut self, index: usize) -> (r: Result<Alarm, String>)
        ensures
            r is Ok <==> index < old(self).config.alarms@.len(),
            r is Ok ==> {
                &&& final(self).config.alarms@ == old(self).config.alarms@.update(
                    index as int,
                    toggled(old(self).config.alarms@[index as int]),
                )
                &&& r->Ok_0@ == toggled(old(self).config.alarms@[index as int])@
            },
            r is Err ==> final(self).config.alarms@ == old(self).config.alarms@ && r->Err_0@
                == index_error(index),
            final(self).config.web == old(self).config.web,
            final(self).config_path == old(self).config_path,
            final(self).last_alarm_trigger == old(self).last_alarm_trigger,
    {
        if index >= self.config.alarms.len() {
            return Err(index_error_message(index));
        }
        let flipped = !self.config.alarms[index].enabled;
        self.config.alarms[index].enabled = flipped;
        Ok(self.config.alarms[index].duplicate())
    }

    /// Records that `name` played successfully at `at`.
    pub fn record_trigger(&mut self, name: String, at: LocalTime)
        ensures
            final(self).last_alarm_trigger == Some((name, at)),
            final(self).config == old(self).config,
            final(self).config_path == old(self).config_path,
    {
        self.last_alarm_trigger = Some((name, at));
    }
}

} // verus!
