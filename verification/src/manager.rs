//! The rules over a whole collection of activities: starting one stops the
//! others, stopping halts all, and a report sums them up.

use vstd::prelude::*;
use vstd::string::*;
use std::path::PathBuf;
use crate::activity::Activity;
use crate::activity::ActivityModel;
use crate::activity::ActivitySerial;
use crate::activity::ActivitySerialModel;
use crate::clock::date_at;
use crate::clock::stamp_at;
use crate::clock::utc_date_text;
use crate::clock::utc_stamp_text;
use crate::text::hours_minutes;
use crate::text::hours_minutes_padded;
use crate::text::push_hours_minutes;
use crate::text::time_line;
use crate::utils::add_capped;
use crate::utils::elapsed_until;
use crate::utils::span_secs;
use crate::utils::sys_now_secs;
use crate::utils::SecType;
use crate::utils::DAY_LENGTH_SECS;

verus! {

/// `std::path::PathBuf`, carried through as it is.
#[verifier::external_type_specification]
#[verifier::external_body]
pub struct ExPathBuf(PathBuf);

/// `PathBuf::clone` gives a path equal to the one it was called on.
pub assume_specification[ <PathBuf as Clone>::clone ](path: &PathBuf) -> (copy: PathBuf)
    ensures
        copy == *path,
;

/// The plain values of a sequence of activities.
pub open spec fn models(activities: Seq<Activity>) -> Seq<ActivityModel> {
    activities.map_values(|a: Activity| a@)
}

/// Whether an activity named `name` is among `activities`.
pub open spec fn has_name(activities: Seq<ActivityModel>, name: Seq<char>) -> bool {
    exists|i: int| 0 <= i < activities.len() && (#[trigger] activities[i]).name == name
}

/// No two activities share a name.
pub open spec fn names_distinct(activities: Seq<ActivityModel>) -> bool {
    forall|i: int, j: int|
        0 <= i < activities.len() && 0 <= j < activities.len() && i != j ==> (
        #[trigger] activities[i]).name != (#[trigger] activities[j]).name
}

/// No two activities are active.
pub open spec fn at_most_one_active(activities: Seq<ActivityModel>) -> bool {
    forall|i: int, j: int|
        0 <= i < activities.len() && 0 <= j < activities.len() && (
        #[trigger] activities[i]).is_active() && (#[trigger] activities[j]).is_active() ==> i == j
}

/// No activity is active.
pub open spec fn none_active(activities: Seq<ActivityModel>) -> bool {
    forall|i: int| 0 <= i < activities.len() ==> !(#[trigger] activities[i]).is_active()
}

/// What a start of `name` at the reading `now` makes of one activity: the
/// named one is activated, every other one stopped.
pub open spec fn switched(
    activity: ActivityModel,
    name: Seq<char>,
    now: SecType,
    stamp: Seq<char>,
    date: Seq<char>,
) -> ActivityModel {
    if activity.name == name {
        activity.started(now, stamp, date)
    } else {
        activity.stopped(now)
    }
}

/// The collection with an activity named `name` in it: a fresh one is
/// appended where none has the name.
pub open spec fn with_named(
    activities: Seq<ActivityModel>,
    name: Seq<char>,
    now: SecType,
    stamp: Seq<char>,
    date: Seq<char>,
) -> Seq<ActivityModel> {
    if has_name(activities, name) {
        activities
    } else {
        activities.push(ActivityModel::fresh(name, now, stamp, date))
    }
}

/// The collection after a start of `name` at the reading `now`.
pub open spec fn after_start(
    activities: Seq<ActivityModel>,
    name: Seq<char>,
    now: SecType,
    stamp: Seq<char>,
    date: Seq<char>,
) -> Seq<ActivityModel> {
    with_named(activities, name, now, stamp, date).map_values(
        |a: ActivityModel| switched(a, name, now, stamp, date),
    )
}

/// The collection after a stop at the reading `now`.
pub open spec fn after_stop(activities: Seq<ActivityModel>, now: SecType) -> Seq<ActivityModel> {
    activities.map_values(|a: ActivityModel| a.stopped(now))
}

/// The collection after a stop of the activities named `name` at the reading
/// `now`: every other one is left as it is.
pub open spec fn after_stop_of(
    activities: Seq<ActivityModel>,
    name: Seq<char>,
    now: SecType,
) -> Seq<ActivityModel> {
    activities.map_values(
        |a: ActivityModel|
            if a.name == name {
                a.stopped(now)
            } else {
                a
            },
    )
}

/// One operation that changes a collection.
pub enum Step {
    Start { name: Seq<char>, now: SecType, stamp: Seq<char>, date: Seq<char> },
    StopAll { now: SecType },
    StopOne { name: Seq<char>, now: SecType },
}

/// The collection after one operation.
pub open spec fn after_step(activities: Seq<ActivityModel>, step: Step) -> Seq<ActivityModel> {
    match step {
        Step::Start { name, now, stamp, date } => after_start(activities, name, now, stamp, date),
        Step::StopAll { now } => after_stop(activities, now),
        Step::StopOne { name, now } => after_stop_of(activities, name, now),
    }
}

/// The collection after the operations `steps`, one after the other.
pub open spec fn after_steps(activities: Seq<ActivityModel>, steps: Seq<Step>) -> Seq<
    ActivityModel,
>
    decreases steps.len(),
{
    if steps.len() == 0 {
        activities
    } else {
        after_step(after_steps(activities, steps.drop_last()), steps.last())
    }
}

/// The time spent on all of `activities` up to the reading `now`.
pub open spec fn total_elapsed(activities: Seq<ActivityModel>, now: SecType) -> nat
    decreases activities.len(),
{
    if activities.len() == 0 {
        0
    } else {
        total_elapsed(activities.drop_last(), now) + activities.last().elapsed(now)
    }
}

/// `secs`, held at the largest `SecType`.
pub open spec fn capped(secs: nat) -> nat {
    if secs <= u64::MAX {
        secs
    } else {
        u64::MAX as nat
    }
}

/// The activities that were activated on the calendar date `date`, in
/// their order.
pub open spec fn active_on(activities: Seq<ActivityModel>, date: Seq<char>) -> Seq<ActivityModel>
    decreases activities.len(),
{
    if activities.len() == 0 {
        activities
    } else {
        let before = active_on(activities.drop_last(), date);
        if activities.last().active_days.contains(date) {
            before.push(activities.last())
        } else {
            before
        }
    }
}

/// The plain values of a sequence of records.
pub open spec fn serial_models(records: Seq<ActivitySerial>) -> Seq<ActivitySerialModel> {
    records.map_values(|r: ActivitySerial| r@)
}

/// The records of `activities` at the reading `now`.
pub open spec fn records_of(activities: Seq<ActivityModel>, now: SecType) -> Seq<
    ActivitySerialModel,
> {
    activities.map_values(|a: ActivityModel| a.serial(now))
}

/// `a - b`, or nothing where `b` is the larger.
pub open spec fn floored_diff(a: nat, b: nat) -> nat {
    if b <= a {
        (a - b) as nat
    } else {
        0
    }
}

/// The line of one activity in the listing: a mark that tells an active one,
/// then its name and time.
pub open spec fn listing_line(activity: ActivityModel, now: SecType) -> Seq<char> {
    let mark = if activity.is_active() {
        seq!['>', ' ']
    } else {
        seq![' ', ' ']
    };
    mark + time_line(activity.name, activity.elapsed(now))
}

/// The lines of all activities, in their order, with a line break between
/// each two.
pub open spec fn listing(activities: Seq<ActivityModel>, now: SecType) -> Seq<char>
    decreases activities.len(),
{
    if activities.len() == 0 {
        Seq::empty()
    } else if activities.len() == 1 {
        listing_line(activities[0], now)
    } else {
        listing(activities.drop_last(), now) + seq!['\n'] + listing_line(activities.last(), now)
    }
}

/// The overview at the reading `now`: when the session started, how long it
/// has lasted, the time spent on all activities, and the listing.
pub open spec fn pretty_text(
    manager: ManagerModel,
    activities: Seq<ActivityModel>,
    now: SecType,
) -> Seq<char> {
    "start time:         "@ + manager.start_time_pretty + "\nelapsed day:        "@
        + hours_minutes(span_secs(manager.start_time, now)) + "\ntotal acivity time: "@
        + hours_minutes(capped(total_elapsed(activities, now))) + seq!['\n'] + listing(
        activities,
        now,
    ) + seq!['\n']
}

/// What a report is, as plain values.
pub struct ReportModel {
    pub date: Seq<char>,
    pub activities: Seq<ActivityModel>,
    pub start_time_pretty: Seq<char>,
    pub tasks: Seq<ActivitySerialModel>,
    pub elapsed_day: Seq<char>,
    pub elapsed_day_secs: SecType,
    pub total_activity_time: Seq<char>,
    pub total_activity_secs: SecType,
    pub time_difference: Seq<char>,
    pub time_difference_secs: SecType,
    pub start_time: SecType,
    pub display: Seq<char>,
    pub day_length: Seq<char>,
    pub day_length_secs: SecType,
    pub time_left: Seq<char>,
    pub time_left_secs: SecType,
}

/// The report of the manager on `activities` at the reading `now`, for the
/// calendar date `date`.
pub open spec fn report_of(
    manager: ManagerModel,
    activities: Seq<ActivityModel>,
    now: SecType,
    date: Seq<char>,
) -> ReportModel {
    let total = capped(total_elapsed(activities, now));
    let session = span_secs(manager.start_time, now);
    let difference = floored_diff(session, total);
    let left = floored_diff(DAY_LENGTH_SECS as nat, total);
    ReportModel {
        date,
        activities,
        start_time_pretty: "start time:         "@ + manager.start_time_pretty,
        tasks: records_of(active_on(activities, date), now),
        elapsed_day: hours_minutes(session),
        elapsed_day_secs: session as SecType,
        total_activity_time: hours_minutes(total),
        total_activity_secs: total as SecType,
        time_difference: hours_minutes(difference),
        time_difference_secs: difference as SecType,
        start_time: manager.start_time,
        display: pretty_text(manager, activities, now),
        day_length: hours_minutes(DAY_LENGTH_SECS as nat),
        day_length_secs: DAY_LENGTH_SECS,
        time_left: hours_minutes(left),
        time_left_secs: left as SecType,
    }
}

/// The summary of a day: every duration as a second count and as hours and
/// minutes.
#[derive(Debug, Clone)]
pub struct ActivityManagerSerial {
    /// The calendar date that the report is on.
    pub date: String,
    /// All activities.
    pub activities: Vec<Activity>,
    pub start_time_pretty: String,
    /// The records of the activities that were activated on `date`.
    pub tasks: Vec<ActivitySerial>,
    /// How long the session has lasted.
    pub elapsed_day: String,
    pub elapsed_day_secs: SecType,
    /// The time spent on all activities.
    pub total_activity_time: String,
    pub total_activity_secs: SecType,
    /// The part of the session that was spent on no activity.
    pub time_difference: String,
    pub time_difference_secs: SecType,
    pub start_time: SecType,
    /// The overview as text.
    pub display: String,
    pub day_length: String,
    pub day_length_secs: SecType,
    /// What is left of the day's length once the time spent on all
    /// activities is taken off: nothing where more than a day's length was
    /// spent.
    pub time_left: String,
    pub time_left_secs: SecType,
}

impl View for ActivityManagerSerial {
    type V = ReportModel;

    open spec fn view(&self) -> ReportModel {
        ReportModel {
            date: self.date@,
            activities: models(self.activities@),
            start_time_pretty: self.start_time_pretty@,
            tasks: serial_models(self.tasks@),
            elapsed_day: self.elapsed_day@,
            elapsed_day_secs: self.elapsed_day_secs,
            total_activity_time: self.total_activity_time@,
            total_activity_secs: self.total_activity_secs,
            time_difference: self.time_difference@,
            time_difference_secs: self.time_difference_secs,
            start_time: self.start_time,
            display: self.display@,
            day_length: self.day_length@,
            day_length_secs: self.day_length_secs,
            time_left: self.time_left@,
            time_left_secs: self.time_left_secs,
        }
    }
}

/// What a manager is, as plain values.
pub struct ManagerModel {
    pub path: PathBuf,
    pub start_time_pretty: Seq<char>,
    pub start_time: SecType,
}

/// Keeps the rule that at most one activity is active. It holds no
/// activities itself: each operation takes the collection as it was loaded
/// and leaves it as it is to be saved.
#[derive(Debug, Eq, PartialEq)]
pub struct TaskManager {
    path: PathBuf,
    start_time_pretty: String,
    start_time: SecType,
}

impl View for TaskManager {
    type V = ManagerModel;

    closed spec fn view(&self) -> ManagerModel {
        ManagerModel {
            path: self.path,
            start_time_pretty: self.start_time_pretty@,
            start_time: self.start_time,
        }
    }
}

impl Clone for TaskManager {
    fn clone(&self) -> (copy: Self)
        ensures
            copy@ == self@,
    {
        TaskManager {
            path: self.path.clone(),
            start_time_pretty: self.start_time_pretty.clone(),
            start_time: self.start_time,
        }
    }
}

/// Whether an activity named `name` is in `data`.
pub fn name_known(data: &Vec<Activity>, name: &str) -> (known: bool)
    ensures
        known == has_name(models(data@), name@),
{
    let wanted = name.to_owned();
    let mut i: usize = 0;
    while i < data.len()
        invariant
            i <= data.len(),
            wanted@ == name@,
            forall|k: int| 0 <= k < i ==> (#[trigger] models(data@)[k]).name != name@,
        decreases data.len() - i,
    {
        if data[i].name() == wanted {
            assert(models(data@)[i as int].name == name@);
            return true;
        }
        i += 1;
    }
    false
}

/// Whether no two activities in `data` share a name, as the name is the key
/// by which an activity is found.
pub fn names_are_distinct(data: &Vec<Activity>) -> (distinct: bool)
    ensures
        distinct == names_distinct(models(data@)),
{
    let mut i: usize = 0;
    while i < data.len()
        invariant
            i <= data.len(),
            forall|a: int, b: int|
                0 <= a < i && a < b < data.len() ==> (#[trigger] models(data@)[a]).name != (
                #[trigger] models(data@)[b]).name,
        decreases data.len() - i,
    {
        let name = data[i].name();
        let mut j: usize = i + 1;
        while j < data.len()
            invariant
                i < j <= data.len(),
                name@ == models(data@)[i as int].name,
                forall|b: int| i < b < j ==> (#[trigger] models(data@)[b]).name != name@,
            decreases data.len() - j,
        {
            if data[j].name() == name {
                assert(models(data@)[i as int].name == models(data@)[j as int].name);
                return false;
            }
            j += 1;
        }
        i += 1;
    }
    true
}

impl TaskManager {
    /// A manager for the store at `path`, whose session starts at the present
    /// reading of the clock.
    pub fn new(path: PathBuf) -> (manager: Self)
        ensures
            manager@.path == path,
            manager@.start_time_pretty == stamp_at(manager@.start_time),
    {
        let start_time = sys_now_secs();
        let start_time_pretty = utc_stamp_text(start_time);
        TaskManager::new_at(path, start_time, start_time_pretty)
    }

    /// A manager for the store at `path`, whose session started at the
    /// reading `start_time`, shown as `start_time_pretty`.
    pub fn new_at(path: PathBuf, start_time: SecType, start_time_pretty: String) -> (manager: Self)
        ensures
            manager@ == (ManagerModel { path, start_time_pretty: start_time_pretty@, start_time }),
    {
        TaskManager { path, start_time_pretty, start_time }
    }

    /// Where the activities are stored.
    pub fn path(&self) -> (path: &PathBuf)
        ensures
            *path == self@.path,
    {
        &self.path
    }

    /// The reading of the clock at which the session started.
    pub fn start_time(&self) -> (start_time: SecType)
        ensures
            start_time == self@.start_time,
    {
        self.start_time
    }

    /// Starts `name` at the present reading of the clock, and gives back the
    /// name of the activity that is now active.
    pub fn start_activity(&self, data: &mut Vec<Activity>, name: &str) -> (started: String)
        ensures
            started@ == name@,
            exists|now: SecType|
                models(final(data)@) == #[trigger] after_start(
                    models(old(data)@),
                    name@,
                    now,
                    stamp_at(now),
                    date_at(now),
                ),
            has_name(models(final(data)@), name@),
            names_distinct(models(old(data)@)) ==> names_distinct(models(final(data)@))
                && at_most_one_active(models(final(data)@)),
    {
        let now = sys_now_secs();
        let stamp = utc_stamp_text(now);
        let date = utc_date_text(now);
        self.start_activity_at(data, name, now, &stamp, &date)
    }

    /// Starts `name` at the reading `now`: an activity of that name is
    /// created where there is none, then every activity of that name is
    /// activated and every other one is stopped. The result is the name of
    /// the activity that is now active.
    pub fn start_activity_at(
        &self,
        data: &mut Vec<Activity>,
        name: &str,
        now: SecType,
        stamp: &String,
        date: &String,
    ) -> (started: String)
        ensures
            started@ == name@,
            models(final(data)@) == after_start(models(old(data)@), name@, now, stamp@, date@),
            has_name(models(final(data)@), name@),
            names_distinct(models(old(data)@)) ==> names_distinct(models(final(data)@))
                && at_most_one_active(models(final(data)@)),
    {
        proof {
            lemma_start_keeps_names(models(old(data)@), name@, now, stamp@, date@);
            lemma_start_is_exclusive(models(old(data)@), name@, now, stamp@, date@);
        }
        if !name_known(data, name) {
            data.push(Activity::new_at(name, now, stamp.clone(), date.clone()));
            assert(models(data@) =~= models(old(data)@).push(
                ActivityModel::fresh(name@, now, stamp@, date@),
            ));
        }
        let ghost named = models(data@);
        let wanted = name.to_owned();
        let mut i: usize = 0;
        while i < data.len()
            invariant
                i <= data.len(),
                wanted@ == name@,
                data@.len() == named.len(),
                forall|k: int|
                    0 <= k < i ==> (#[trigger] data@[k])@ == switched(
                        named[k],
                        name@,
                        now,
                        stamp@,
                        date@,
                    ),
                forall|k: int| i <= k < data.len() ==> (#[trigger] data@[k])@ == named[k],
            decreases data.len() - i,
        {
            if data[i].name() == wanted {
                data[i].start_at(now, stamp.clone(), date.clone());
            } else {
                data[i].stop_at(now);
            }
            i += 1;
        }
        wanted
    }

    /// Stops every activity at the present reading of the clock.
    pub fn stop(&self, data: &mut Vec<Activity>)
        ensures
            exists|now: SecType|
                models(final(data)@) == #[trigger] after_stop(models(old(data)@), now),
            none_active(models(final(data)@)),
    {
        let now = sys_now_secs();
        self.stop_at(data, now);
    }

    /// Stops every activity at the reading `now`, whether it is active or
    /// not.
    pub fn stop_at(&self, data: &mut Vec<Activity>, now: SecType)
        ensures
            models(final(data)@) == after_stop(models(old(data)@), now),
            none_active(models(final(data)@)),
    {
        let mut i: usize = 0;
        while i < data.len()
            invariant
                i <= data.len(),
                data@.len() == old(data)@.len(),
                forall|k: int| 0 <= k < i ==> (#[trigger] data@[k])@ == old(data)@[k]@.stopped(now),
                forall|k: int| i <= k < data.len() ==> (#[trigger] data@[k])@ == old(data)@[k]@,
            decreases data.len() - i,
        {
            data[i].stop_at(now);
            i += 1;
        }
    }

    /// Stops the activities named `name` at the present reading of the clock,
    /// and tells whether there was one.
    pub fn stop_activity(&self, data: &mut Vec<Activity>, name: &str) -> (found: bool)
        ensures
            found == has_name(models(old(data)@), name@),
            exists|now: SecType|
                models(final(data)@) == #[trigger] after_stop_of(models(old(data)@), name@, now),
    {
        let now = sys_now_secs();
        self.stop_activity_at(data, name, now)
    }

    /// Stops the activities named `name` at the reading `now` and leaves the
    /// others as they are. Where none has the name nothing changes, and the
    /// result says so.
    pub fn stop_activity_at(&self, data: &mut Vec<Activity>, name: &str, now: SecType) -> (found:
        bool)
        ensures
            found == has_name(models(old(data)@), name@),
            models(final(data)@) == after_stop_of(models(old(data)@), name@, now),
    {
        let wanted = name.to_owned();
        let mut found = false;
        let mut i: usize = 0;
        while i < data.len()
            invariant
                i <= data.len(),
                wanted@ == name@,
                data@.len() == old(data)@.len(),
                found == has_name(models(old(data)@).take(i as int), name@),
                forall|k: int|
                    0 <= k < i ==> (#[trigger] data@[k])@ == if old(data)@[k]@.name == name@ {
                        old(data)@[k]@.stopped(now)
                    } else {
                        old(data)@[k]@
                    },
                forall|k: int| i <= k < data.len() ==> (#[trigger] data@[k])@ == old(data)@[k]@,
            decreases data.len() - i,
        {
            let ghost seen = models(old(data)@).take(i as int);
            let ghost upto = models(old(data)@).take(i + 1);
            if data[i].name() == wanted {
                data[i].stop_at(now);
                found = true;
                assert(upto[i as int].name == name@);
            } else {
                assert(has_name(upto, name@) == has_name(seen, name@)) by {
                    if has_name(upto, name@) {
                        let at = choose|k: int|
                            0 <= k < upto.len() && (#[trigger] upto[k]).name == name@;
                        assert(seen[at].name == name@);
                    }
                    if has_name(seen, name@) {
                        let at = choose|k: int|
                            0 <= k < seen.len() && (#[trigger] seen[k]).name == name@;
                        assert(upto[at].name == name@);
                    }
                }
            }
            i += 1;
        }
        assert(models(old(data)@).take(i as int) =~= models(old(data)@));
        found
    }

    /// The time spent on all of `data` up to the reading `now`, held at the
    /// largest `SecType`.
    pub fn total_activity_time_at(&self, data: &Vec<Activity>, now: SecType) -> (total: SecType)
        ensures
            total as nat == capped(total_elapsed(models(data@), now)),
    {
        let mut total: SecType = 0;
        let mut i: usize = 0;
        while i < data.len()
            invariant
                i <= data.len(),
                total as nat == capped(total_elapsed(models(data@).take(i as int), now)),
            decreases data.len() - i,
        {
            proof {
                let upto = models(data@).take(i + 1);
                assert(upto.drop_last() =~= models(data@).take(i as int));
            }
            total = add_capped(total, data[i].secs_since_creation_at(now));
            i += 1;
        }
        assert(models(data@).take(i as int) =~= models(data@));
        total
    }

    /// The overview at the present reading of the clock.
    pub fn pretty(&self, data: &Vec<Activity>) -> (overview: String)
        ensures
            exists|now: SecType| overview@ == #[trigger] pretty_text(self@, models(data@), now),
    {
        let now = sys_now_secs();
        self.pretty_at(data, now)
    }

    /// The overview at the reading `now`.
    pub fn pretty_at(&self, data: &Vec<Activity>, now: SecType) -> (overview: String)
        ensures
            overview@ == pretty_text(self@, models(data@), now),
    {
        let mut overview = String::new();
        overview.append("start time:         ");
        overview.append(self.start_time_pretty.as_str());
        overview.append("\nelapsed day:        ");
        push_hours_minutes(&mut overview, elapsed_until(self.start_time, now));
        overview.append("\ntotal acivity time: ");
        push_hours_minutes(&mut overview, self.total_activity_time_at(data, now));
        overview.push('\n');
        let ghost head = overview@;
        assert(head =~= "start time:         "@ + self@.start_time_pretty
            + "\nelapsed day:        "@ + hours_minutes(span_secs(self@.start_time, now))
            + "\ntotal acivity time: "@ + hours_minutes(
            capped(total_elapsed(models(data@), now)),
        ) + seq!['\n']);
        let mut i: usize = 0;
        while i < data.len()
            invariant
                i <= data.len(),
                overview@ =~= head + listing(models(data@).take(i as int), now),
            decreases data.len() - i,
        {
            proof {
                let upto = models(data@).take(i + 1);
                assert(upto.drop_last() =~= models(data@).take(i as int));
            }
            if i > 0 {
                overview.push('\n');
            }
            if data[i].is_active() {
                overview.push('>');
            } else {
                overview.push(' ');
            }
            overview.push(' ');
            let line = data[i].time_text_at(now);
            overview.append(line.as_str());
            i += 1;
        }
        assert(models(data@).take(i as int) =~= models(data@));
        overview.push('\n');
        overview
    }

    /// The report on today, as the clock reads it now.
    pub fn today_times(&self, data: &Vec<Activity>) -> (report: ActivityManagerSerial)
        ensures
            exists|now: SecType|
                report@ == #[trigger] report_of(self@, models(data@), now, date_at(now)),
    {
        let now = sys_now_secs();
        let date = utc_date_text(now);
        self.today_times_at(data, now, date)
    }

    /// The report on the calendar date `date`, as the clock reads now.
    pub fn get_activities_by_date(&self, data: &Vec<Activity>, date: String) -> (report:
        ActivityManagerSerial)
        ensures
            exists|now: SecType|
                report@ == #[trigger] report_of(self@, models(data@), now, date@),
    {
        let now = sys_now_secs();
        self.today_times_at(data, now, date)
    }

    /// The report at the reading `now` on the calendar date `date`: the
    /// totals over all of `data`, and the records of the activities that were
    /// activated on `date`.
    pub fn today_times_at(&self, data: &Vec<Activity>, now: SecType, date: String) -> (report:
        ActivityManagerSerial)
        ensures
            report@ == report_of(self@, models(data@), now, date@),
    {
        let total = self.total_activity_time_at(data, now);
        let session = elapsed_until(self.start_time, now);
        let difference = session.saturating_sub(total);
        let left = DAY_LENGTH_SECS.saturating_sub(total);
        let mut start_time_pretty = String::new();
        start_time_pretty.append("start time:         ");
        start_time_pretty.append(self.start_time_pretty.as_str());
        let mut activities: Vec<Activity> = Vec::new();
        let mut tasks: Vec<ActivitySerial> = Vec::new();
        let mut i: usize = 0;
        while i < data.len()
            invariant
                i <= data.len(),
                models(activities@) =~= models(data@).take(i as int),
                serial_models(tasks@) =~= records_of(
                    active_on(models(data@).take(i as int), date@),
                    now,
                ),
            decreases data.len() - i,
        {
            proof {
                let upto = models(data@).take(i + 1);
                assert(upto.drop_last() =~= models(data@).take(i as int));
            }
            let ghost before = active_on(models(data@).take(i as int), date@);
            let ghost item = data@[i as int]@;
            if data[i].was_active_on(&date) {
                tasks.push(ActivitySerial::from_activity_at(data[i].clone(), now));
                assert(records_of(before.push(item), now) =~= records_of(before, now).push(
                    item.serial(now),
                ));
            }
            assert(active_on(models(data@).take(i + 1), date@) == if item.active_days.contains(
                date@,
            ) {
                before.push(item)
            } else {
                before
            });
            activities.push(data[i].clone());
            i += 1;
        }
        let report = ActivityManagerSerial {
            date,
            activities,
            start_time_pretty,
            tasks,
            elapsed_day: hours_minutes_padded(session),
            elapsed_day_secs: session,
            total_activity_time: hours_minutes_padded(total),
            total_activity_secs: total,
            time_difference: hours_minutes_padded(difference),
            time_difference_secs: difference,
            start_time: self.start_time,
            display: self.pretty_at(data, now),
            day_length: hours_minutes_padded(DAY_LENGTH_SECS),
            day_length_secs: DAY_LENGTH_SECS,
            time_left: hours_minutes_padded(left),
            time_left_secs: left,
        };
        assert(report@.activities == models(data@));
        report
    }
}

/// A start of `name` leaves active the activities of that name and no other.
/// Where no two activities share a name, at most one is active afterwards.
pub proof fn lemma_start_is_exclusive(
    activities: Seq<ActivityModel>,
    name: Seq<char>,
    now: SecType,
    stamp: Seq<char>,
    date: Seq<char>,
)
    ensures
        forall|i: int|
            0 <= i < after_start(activities, name, now, stamp, date).len() ==> ((
            #[trigger] after_start(activities, name, now, stamp, date)[i]).is_active()
                <==> after_start(activities, name, now, stamp, date)[i].name == name),
        names_distinct(activities) ==> at_most_one_active(
            after_start(activities, name, now, stamp, date),
        ),
{
    lemma_start_keeps_names(activities, name, now, stamp, date);
}

/// A start of `name` creates an activity only where none has the name: the
/// collection holds the name afterwards, every activity keeps its name and
/// its place, and names that were distinct stay so.
pub proof fn lemma_start_keeps_names(
    activities: Seq<ActivityModel>,
    name: Seq<char>,
    now: SecType,
    stamp: Seq<char>,
    date: Seq<char>,
)
    ensures
        has_name(after_start(activities, name, now, stamp, date), name),
        after_start(activities, name, now, stamp, date).len() == if has_name(activities, name) {
            activities.len()
        } else {
            activities.len() + 1
        },
        forall|i: int|
            0 <= i < activities.len() ==> (#[trigger] after_start(
                activities,
                name,
                now,
                stamp,
                date,
            )[i]).name == activities[i].name,
        names_distinct(activities) ==> names_distinct(
            after_start(activities, name, now, stamp, date),
        ),
{
    let named = with_named(activities, name, now, stamp, date);
    let after = after_start(activities, name, now, stamp, date);
    assert forall|i: int| 0 <= i < after.len() implies (#[trigger] after[i]).name
        == named[i].name by {}
    if has_name(activities, name) {
        let at = choose|i: int| 0 <= i < activities.len() && (#[trigger] activities[i]).name == name;
        assert(after[at].name == name);
    } else {
        assert(after[activities.len() as int].name == name);
    }
    if names_distinct(activities) {
        assert forall|i: int, j: int|
            0 <= i < after.len() && 0 <= j < after.len() && i != j implies (#[trigger] after[i]).name
            != (#[trigger] after[j]).name by {}
    }
}

/// A second start of the same name creates nothing.
pub proof fn lemma_start_again_adds_nothing(
    activities: Seq<ActivityModel>,
    name: Seq<char>,
    now: SecType,
    stamp: Seq<char>,
    date: Seq<char>,
    again: SecType,
    again_stamp: Seq<char>,
    again_date: Seq<char>,
)
    ensures
        after_start(
            after_start(activities, name, now, stamp, date),
            name,
            again,
            again_stamp,
            again_date,
        ).len() == after_start(activities, name, now, stamp, date).len(),
{
    lemma_start_keeps_names(activities, name, now, stamp, date);
}

/// A stop leaves no activity active, and every activity keeps its name, its
/// place and the time it had at the stop.
pub proof fn lemma_stop_halts_all(activities: Seq<ActivityModel>, now: SecType, later: SecType)
    ensures
        after_stop(activities, now).len() == activities.len(),
        none_active(after_stop(activities, now)),
        forall|i: int|
            0 <= i < activities.len() ==> (#[trigger] after_stop(activities, now)[i]).name
                == activities[i].name,
        forall|i: int|
            0 <= i < activities.len() ==> (#[trigger] after_stop(activities, now)[i]).elapsed(later)
                == activities[i].elapsed(now),
        at_most_one_active(after_stop(activities, now)),
        names_distinct(activities) ==> names_distinct(after_stop(activities, now)),
{
}

/// A stop of one name leaves every other activity as it was, and no
/// activity of that name active. Names that were distinct stay so, and so
/// does the rule that at most one activity is active.
pub proof fn lemma_stop_of_one(activities: Seq<ActivityModel>, name: Seq<char>, now: SecType)
    ensures
        after_stop_of(activities, name, now).len() == activities.len(),
        forall|i: int|
            0 <= i < activities.len() && activities[i].name != name ==> (#[trigger] after_stop_of(
                activities,
                name,
                now,
            )[i]) == activities[i],
        forall|i: int|
            0 <= i < activities.len() && activities[i].name == name ==> !(#[trigger] after_stop_of(
                activities,
                name,
                now,
            )[i]).is_active(),
        !has_name(activities, name) ==> after_stop_of(activities, name, now) == activities,
        names_distinct(activities) ==> names_distinct(after_stop_of(activities, name, now)),
        at_most_one_active(activities) ==> at_most_one_active(
            after_stop_of(activities, name, now),
        ),
{
}

/// Whatever operations follow one another, on a collection in which no two
/// activities share a name and at most one is active, both stay true after
/// each of them. The empty collection is such a one.
pub proof fn lemma_steps_keep_the_rule(activities: Seq<ActivityModel>, steps: Seq<Step>)
    requires
        names_distinct(activities),
        at_most_one_active(activities),
    ensures
        names_distinct(after_steps(activities, steps)),
        at_most_one_active(after_steps(activities, steps)),
        names_distinct(Seq::<ActivityModel>::empty()),
        at_most_one_active(Seq::<ActivityModel>::empty()),
    decreases steps.len(),
{
    if steps.len() > 0 {
        lemma_steps_keep_the_rule(activities, steps.drop_last());
        let before = after_steps(activities, steps.drop_last());
        match steps.last() {
            Step::Start { name, now, stamp, date } => {
                lemma_start_keeps_names(before, name, now, stamp, date);
                lemma_start_is_exclusive(before, name, now, stamp, date);
            },
            Step::StopAll { now } => {
                lemma_stop_halts_all(before, now, now);
            },
            Step::StopOne { name, now } => {
                lemma_stop_of_one(before, name, now);
            },
        }
    }
}

/// Where the time spent on all activities reaches the length of a day,
/// nothing is left of the day; the time left is never more than a day.
pub proof fn lemma_time_left_floor(
    manager: ManagerModel,
    activities: Seq<ActivityModel>,
    now: SecType,
    date: Seq<char>,
)
    ensures
        report_of(manager, activities, now, date).time_left_secs <= DAY_LENGTH_SECS,
        total_elapsed(activities, now) >= DAY_LENGTH_SECS ==> report_of(
            manager,
            activities,
            now,
            date,
        ).time_left_secs == 0,
        total_elapsed(activities, now) < DAY_LENGTH_SECS ==> report_of(
            manager,
            activities,
            now,
            date,
        ).time_left_secs == DAY_LENGTH_SECS - total_elapsed(activities, now),
{
}

/// With no activities there is nothing to report: no time spent, the whole
/// day left, and no records.
pub proof fn lemma_report_of_nothing(manager: ManagerModel, now: SecType, date: Seq<char>)
    ensures
        report_of(manager, Seq::empty(), now, date).total_activity_secs == 0,
        report_of(manager, Seq::empty(), now, date).time_left_secs == DAY_LENGTH_SECS,
        report_of(manager, Seq::empty(), now, date).tasks.len() == 0,
        report_of(manager, Seq::empty(), now, date).activities.len() == 0,
{
}

} // verus!
