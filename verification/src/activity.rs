//! A single named timer: its state, its two transitions and what it reports.

use vstd::prelude::*;
use crate::clock::date_at;
use crate::clock::stamp_at;
use crate::clock::utc_date_text;
use crate::clock::utc_stamp_text;
use vstd::std_specs::convert::FromSpecImpl;
use crate::text::hours_minutes;
use crate::text::hours_minutes_padded;
use crate::text::time_line;
use crate::text::time_line_text;
use crate::utils::add_capped;
use crate::utils::capped_sum;
use crate::utils::elapsed_until;
use crate::utils::span_secs;
use crate::utils::sys_now_secs;
use crate::utils::SecType;

verus! {

/// Whether a timer runs, and since which second.
#[derive(Clone, Copy, PartialEq, Eq, Debug, Structural)]
pub enum Status {
    ActiveSince(SecType),
    Idle,
}

impl Status {
    /// The length of the open interval at the reading `now`: nothing for an
    /// idle timer, and nothing while the clock reads earlier than the start.
    pub open spec fn open_secs(self, now: SecType) -> nat {
        match self {
            Status::ActiveSince(since) => span_secs(since, now),
            Status::Idle => 0,
        }
    }

    /// The seconds of the open interval at the reading `now`.
    pub fn elapsed_at(&self, now: SecType) -> (secs: SecType)
        ensures
            secs as nat == self.open_secs(now),
    {
        match self {
            Status::ActiveSince(since) => elapsed_until(*since, now),
            Status::Idle => 0,
        }
    }
}

/// What an activity is, as plain values: every contract on `Activity` speaks
/// of this.
pub struct ActivityModel {
    /// When the activity was created.
    pub added_at: Seq<char>,
    /// One stamp for each activation, oldest first.
    pub started_at: Seq<Seq<char>>,
    /// The calendar dates on which the activity was activated, in the order
    /// in which they first occurred.
    pub active_days: Seq<Seq<char>>,
    pub status: Status,
    /// The seconds of all closed intervals.
    pub logged_secs: SecType,
    pub name: Seq<char>,
}

impl ActivityModel {
    /// The activity that comes into being at the reading `now`: active from
    /// that second on, with nothing logged.
    pub open spec fn fresh(name: Seq<char>, now: SecType, stamp: Seq<char>, date: Seq<char>) -> Self {
        ActivityModel {
            added_at: stamp,
            started_at: seq![stamp],
            active_days: seq![date],
            status: Status::ActiveSince(now),
            logged_secs: 0,
            name,
        }
    }

    pub open spec fn is_active(self) -> bool {
        self.status != Status::Idle
    }

    /// All the time spent on the activity up to the reading `now`: what is
    /// logged and the open interval, held at the largest `SecType`.
    pub open spec fn elapsed(self, now: SecType) -> nat {
        capped_sum(self.logged_secs as nat, self.status.open_secs(now))
    }

    /// The dates with `date` among them: appended where it is new.
    pub open spec fn days_with(self, date: Seq<char>) -> Seq<Seq<char>> {
        if self.active_days.contains(date) {
            self.active_days
        } else {
            self.active_days.push(date)
        }
    }

    /// The activity after an activation at the reading `now`: the open
    /// interval is logged before the new one opens.
    pub open spec fn started(self, now: SecType, stamp: Seq<char>, date: Seq<char>) -> Self {
        ActivityModel {
            started_at: self.started_at.push(stamp),
            active_days: self.days_with(date),
            status: Status::ActiveSince(now),
            logged_secs: self.elapsed(now) as SecType,
            ..self
        }
    }

    /// The activity after a stop at the reading `now`.
    pub open spec fn stopped(self, now: SecType) -> Self {
        ActivityModel {
            status: Status::Idle,
            logged_secs: self.elapsed(now) as SecType,
            ..self
        }
    }

    /// No date is recorded twice.
    pub open spec fn days_distinct(self) -> bool {
        self.active_days.no_duplicates()
    }

    /// The record of the activity as it is stored and shown at the reading
    /// `now`.
    pub open spec fn serial(self, now: SecType) -> ActivitySerialModel {
        ActivitySerialModel { activity: self, logged_pretty: hours_minutes(self.elapsed(now)) }
    }
}

/// What a record of an activity is, as plain values.
pub struct ActivitySerialModel {
    pub activity: ActivityModel,
    /// The time spent on the activity when the record was made, as hours and
    /// minutes.
    pub logged_pretty: Seq<char>,
}

/// The views of a sequence of strings.
pub open spec fn texts(strings: Seq<String>) -> Seq<Seq<char>> {
    strings.map_values(|s: String| s@)
}

/// Whether `date` is among `days`.
pub fn holds_text(days: &Vec<String>, date: &String) -> (found: bool)
    ensures
        found == texts(days@).contains(date@),
{
    let mut i: usize = 0;
    while i < days.len()
        invariant
            i <= days.len(),
            forall|k: int| 0 <= k < i ==> texts(days@)[k] != date@,
        decreases days.len() - i,
    {
        if days[i] == *date {
            assert(texts(days@)[i as int] == date@);
            return true;
        }
        i += 1;
    }
    false
}

/// A copy of `strings`, text for text.
pub fn copy_texts(strings: &Vec<String>) -> (copy: Vec<String>)
    ensures
        texts(copy@) == texts(strings@),
{
    let mut copy: Vec<String> = Vec::new();
    let mut i: usize = 0;
    while i < strings.len()
        invariant
            i <= strings.len(),
            copy@.len() == i,
            forall|k: int| 0 <= k < i ==> copy@[k]@ == strings@[k]@,
        decreases strings.len() - i,
    {
        copy.push(strings[i].clone());
        i += 1;
    }
    copy
}

/// A named timer. An active one has an open interval, which began at the
/// second its status holds; every closed interval is part of the logged
/// seconds.
#[derive(Debug, PartialEq)]
pub struct Activity {
    added_at: String,
    started_at: Vec<String>,
    active_days: Vec<String>,
    status: Status,
    logged_secs: SecType,
    name: String,
}

impl View for Activity {
    type V = ActivityModel;

    closed spec fn view(&self) -> ActivityModel {
        ActivityModel {
            added_at: self.added_at@,
            started_at: texts(self.started_at@),
            active_days: texts(self.active_days@),
            status: self.status,
            logged_secs: self.logged_secs,
            name: self.name@,
        }
    }
}

impl Clone for Activity {
    fn clone(&self) -> (copy: Self)
        ensures
            copy@ == self@,
    {
        Activity {
            added_at: self.added_at.clone(),
            started_at: copy_texts(&self.started_at),
            active_days: copy_texts(&self.active_days),
            status: self.status,
            logged_secs: self.logged_secs,
            name: self.name.clone(),
        }
    }
}

impl Activity {
    /// Creates the activity `name` and activates it at the present reading of
    /// the clock. Every name is taken, the empty one too.
    pub fn new(name: &str) -> (activity: Self)
        ensures
            exists|now: SecType|
                activity@ == #[trigger] ActivityModel::fresh(
                    name@,
                    now,
                    stamp_at(now),
                    date_at(now),
                ),
    {
        let now = sys_now_secs();
        let stamp = utc_stamp_text(now);
        let date = utc_date_text(now);
        Activity::new_at(name, now, stamp, date)
    }

    /// Creates the activity `name`, active since the reading `now`, which the
    /// caller also hands over as the stamp `stamp` and the calendar date
    /// `date`.
    pub fn new_at(name: &str, now: SecType, stamp: String, date: String) -> (activity: Self)
        ensures
            activity@ == ActivityModel::fresh(name@, now, stamp@, date@),
            activity@.elapsed(now) == 0,
            activity@.days_distinct(),
    {
        let mut started_at: Vec<String> = Vec::new();
        started_at.push(stamp.clone());
        let mut active_days: Vec<String> = Vec::new();
        active_days.push(date);
        let activity = Activity {
            added_at: stamp,
            started_at,
            active_days,
            status: Status::ActiveSince(now),
            logged_secs: 0,
            name: name.to_owned(),
        };
        assert(activity@.started_at =~= seq![stamp@]);
        assert(activity@.active_days =~= seq![date@]);
        activity
    }

    pub fn name(&self) -> (name: String)
        ensures
            name@ == self@.name,
    {
        self.name.clone()
    }

    /// The stamp of the creation.
    pub fn added_at(&self) -> (stamp: &String)
        ensures
            stamp@ == self@.added_at,
    {
        &self.added_at
    }

    /// The stamps of the activations, oldest first.
    pub fn started_at(&self) -> (stamps: &Vec<String>)
        ensures
            texts(stamps@) == self@.started_at,
    {
        &self.started_at
    }

    /// The calendar dates of the activations, each once.
    pub fn active_days(&self) -> (days: &Vec<String>)
        ensures
            texts(days@) == self@.active_days,
    {
        &self.active_days
    }

    pub fn status(&self) -> (status: Status)
        ensures
            status == self@.status,
    {
        self.status
    }

    /// The seconds of all closed intervals.
    pub fn logged_secs(&self) -> (secs: SecType)
        ensures
            secs == self@.logged_secs,
    {
        self.logged_secs
    }

    /// Activates the activity at the present reading of the clock.
    pub fn start(&mut self)
        ensures
            exists|now: SecType|
                final(self)@ == #[trigger] old(self)@.started(now, stamp_at(now), date_at(now)),
    {
        let now = sys_now_secs();
        let stamp = utc_stamp_text(now);
        let date = utc_date_text(now);
        self.start_at(now, stamp, date);
    }

    /// Activates the activity at the reading `now`. An open interval is
    /// logged first, so that activating an active timer loses no time; then a
    /// new interval opens at `now`, `stamp` joins the activations, and `date`
    /// joins the dates unless it is among them.
    pub fn start_at(&mut self, now: SecType, stamp: String, date: String)
        ensures
            final(self)@ == old(self)@.started(now, stamp@, date@),
            old(self)@.days_distinct() ==> final(self)@.days_distinct(),
    {
        proof {
            lemma_start_records_date(old(self)@, now, stamp@, date@);
        }
        self.logged_secs = add_capped(self.logged_secs, self.status.elapsed_at(now));
        self.status = Status::ActiveSince(now);
        if !holds_text(&self.active_days, &date) {
            self.active_days.push(date);
            assert(texts(self.active_days@) =~= texts(old(self).active_days@).push(date@));
        }
        self.started_at.push(stamp);
        assert(texts(self.started_at@) =~= texts(old(self).started_at@).push(stamp@));
    }

    /// Stops the activity at the present reading of the clock.
    pub fn stop(&mut self)
        ensures
            exists|now: SecType| final(self)@ == #[trigger] old(self)@.stopped(now),
    {
        let now = sys_now_secs();
        self.stop_at(now);
    }

    /// Stops the activity at the reading `now`: the open interval is logged
    /// and the timer is idle. An idle timer stays as it is.
    pub fn stop_at(&mut self, now: SecType)
        ensures
            final(self)@ == old(self)@.stopped(now),
    {
        self.logged_secs = add_capped(self.logged_secs, self.status.elapsed_at(now));
        self.status = Status::Idle;
    }

    /// The time spent on the activity up to the present reading of the clock:
    /// never less than what is logged, and just that for an idle timer.
    pub fn secs_since_creation(&self) -> (secs: SecType)
        ensures
            exists|now: SecType| secs as nat == #[trigger] self@.elapsed(now),
    {
        let now = sys_now_secs();
        self.secs_since_creation_at(now)
    }

    /// The time spent on the activity up to the reading `now`.
    pub fn secs_since_creation_at(&self, now: SecType) -> (secs: SecType)
        ensures
            secs as nat == self@.elapsed(now),
    {
        add_capped(self.logged_secs, self.status.elapsed_at(now))
    }

    /// The line that shows the activity in a listing, for the present reading
    /// of the clock.
    pub fn time_text(&self) -> (line: String)
        ensures
            exists|now: SecType| line@ == #[trigger] time_line(self@.name, self@.elapsed(now)),
    {
        let now = sys_now_secs();
        self.time_text_at(now)
    }

    /// The line that shows the activity in a listing, for the reading `now`.
    pub fn time_text_at(&self, now: SecType) -> (line: String)
        ensures
            line@ == time_line(self@.name, self@.elapsed(now)),
    {
        time_line_text(&self.name, self.secs_since_creation_at(now))
    }

    pub fn is_active(&self) -> (active: bool)
        ensures
            active == self@.is_active(),
    {
        self.status != Status::Idle
    }

    /// Whether the activity was activated on the calendar date `date`.
    pub fn was_active_on(&self, date: &String) -> (found: bool)
        ensures
            found == self@.active_days.contains(date@),
    {
        holds_text(&self.active_days, date)
    }
}

/// The record of an activity: its fields as they are stored, and the time
/// spent on it as text.
#[derive(Debug, PartialEq)]
pub struct ActivitySerial {
    pub added_at: String,
    pub started_at: Vec<String>,
    pub active_days: Vec<String>,
    pub status: Status,
    pub logged_secs: SecType,
    pub name: String,
    pub logged_pretty: String,
}

impl View for ActivitySerial {
    type V = ActivitySerialModel;

    open spec fn view(&self) -> ActivitySerialModel {
        ActivitySerialModel {
            activity: ActivityModel {
                added_at: self.added_at@,
                started_at: texts(self.started_at@),
                active_days: texts(self.active_days@),
                status: self.status,
                logged_secs: self.logged_secs,
                name: self.name@,
            },
            logged_pretty: self.logged_pretty@,
        }
    }
}

impl Clone for ActivitySerial {
    fn clone(&self) -> (copy: Self)
        ensures
            copy@ == self@,
    {
        ActivitySerial {
            added_at: self.added_at.clone(),
            started_at: copy_texts(&self.started_at),
            active_days: copy_texts(&self.active_days),
            status: self.status,
            logged_secs: self.logged_secs,
            name: self.name.clone(),
            logged_pretty: self.logged_pretty.clone(),
        }
    }
}

impl ActivitySerial {
    /// The record of `activity` at the reading `now`.
    pub fn from_activity_at(activity: Activity, now: SecType) -> (serial: Self)
        ensures
            serial@ == activity@.serial(now),
    {
        let logged_pretty = hours_minutes_padded(activity.secs_since_creation_at(now));
        ActivitySerial {
            added_at: activity.added_at,
            started_at: activity.started_at,
            active_days: activity.active_days,
            status: activity.status,
            logged_secs: activity.logged_secs,
            name: activity.name,
            logged_pretty,
        }
    }

    pub fn get_active_dates(&self) -> (dates: &Vec<String>)
        ensures
            texts(dates@) == self@.activity.active_days,
    {
        &self.active_days
    }
}

impl From<Activity> for ActivitySerial {
    /// The record of `activity` at the present reading of the clock.
    fn from(activity: Activity) -> (serial: Self)
        ensures
            exists|now: SecType| serial@ == #[trigger] activity@.serial(now),
    {
        let now = sys_now_secs();
        ActivitySerial::from_activity_at(activity, now)
    }
}

impl FromSpecImpl<Activity> for ActivitySerial {
    /// The record depends on the clock as well as on the activity.
    open spec fn obeys_from_spec() -> bool {
        false
    }

    open spec fn from_spec(activity: Activity) -> Self {
        arbitrary()
    }
}

impl From<ActivitySerial> for Activity {
    /// The activity that `serial` records; the text of the time spent is
    /// dropped.
    fn from(serial: ActivitySerial) -> (activity: Self)
        ensures
            activity@ == serial@.activity,
    {
        Activity {
            added_at: serial.added_at,
            started_at: serial.started_at,
            active_days: serial.active_days,
            status: serial.status,
            logged_secs: serial.logged_secs,
            name: serial.name,
        }
    }
}

impl FromSpecImpl<ActivitySerial> for Activity {
    open spec fn obeys_from_spec() -> bool {
        true
    }

    closed spec fn from_spec(serial: ActivitySerial) -> Self {
        Activity {
            added_at: serial.added_at,
            started_at: serial.started_at,
            active_days: serial.active_days,
            status: serial.status,
            logged_secs: serial.logged_secs,
            name: serial.name,
        }
    }
}

/// An activity has no time on it at the reading at which it was created.
pub proof fn lemma_fresh_has_no_time(name: Seq<char>, now: SecType, stamp: Seq<char>, date: Seq<char>)
    ensures
        ActivityModel::fresh(name, now, stamp, date).elapsed(now) == 0,
        ActivityModel::fresh(name, now, stamp, date).is_active(),
        ActivityModel::fresh(name, now, stamp, date).days_distinct(),
{
}

/// Between two readings of the clock with no transition in between, the time
/// spent on an activity does not shrink.
pub proof fn lemma_elapsed_grows(activity: ActivityModel, earlier: SecType, later: SecType)
    requires
        earlier <= later,
    ensures
        activity.elapsed(earlier) <= activity.elapsed(later),
        activity.elapsed(earlier) >= activity.logged_secs,
{
}

/// Once stopped, an activity is idle and its time stays what it was at the
/// stop, whatever the clock reads.
pub proof fn lemma_stopped_stays(activity: ActivityModel, at: SecType, later: SecType)
    ensures
        !activity.stopped(at).is_active(),
        activity.stopped(at).elapsed(later) == activity.elapsed(at),
{
}

/// Stopping an idle activity changes nothing.
pub proof fn lemma_stop_of_idle(activity: ActivityModel, now: SecType)
    requires
        !activity.is_active(),
    ensures
        activity.stopped(now) == activity,
{
}

/// An activity that is stopped and later started again goes on from the time
/// it had at the stop: the idle time in between is not counted.
pub proof fn lemma_restart_resumes(
    activity: ActivityModel,
    stop: SecType,
    start: SecType,
    later: SecType,
    stamp: Seq<char>,
    date: Seq<char>,
)
    requires
        start <= later,
    ensures
        activity.stopped(stop).started(start, stamp, date).elapsed(start) == activity.elapsed(stop),
        activity.stopped(stop).started(start, stamp, date).elapsed(later) == capped_sum(
            activity.elapsed(stop),
            (later - start) as nat,
        ),
{
}

/// Activating an active activity again neither resets its time nor counts
/// any of it twice: at every later reading the time is what it would have
/// been without the second activation.
pub proof fn lemma_reactivation_keeps_time(
    activity: ActivityModel,
    since: SecType,
    again: SecType,
    later: SecType,
    stamp: Seq<char>,
    date: Seq<char>,
)
    requires
        activity.status == Status::ActiveSince(since),
        since <= again <= later,
    ensures
        activity.started(again, stamp, date).is_active(),
        activity.started(again, stamp, date).elapsed(later) == activity.elapsed(later),
{
}

/// Neither transition touches what an activity is: its name and the stamp of
/// its creation stay, a stop leaves the activations and the dates as they
/// are, and a start only adds to them.
pub proof fn lemma_transitions_keep_identity(
    activity: ActivityModel,
    now: SecType,
    stamp: Seq<char>,
    date: Seq<char>,
)
    ensures
        activity.started(now, stamp, date).name == activity.name,
        activity.started(now, stamp, date).added_at == activity.added_at,
        activity.started(now, stamp, date).started_at == activity.started_at.push(stamp),
        activity.active_days.is_prefix_of(activity.started(now, stamp, date).active_days),
        activity.stopped(now).name == activity.name,
        activity.stopped(now).added_at == activity.added_at,
        activity.stopped(now).started_at == activity.started_at,
        activity.stopped(now).active_days == activity.active_days,
{
}

/// An activation records its date once: it is among the dates afterwards,
/// and dates that were distinct stay so.
pub proof fn lemma_start_records_date(
    activity: ActivityModel,
    now: SecType,
    stamp: Seq<char>,
    date: Seq<char>,
)
    ensures
        activity.started(now, stamp, date).active_days.contains(date),
        activity.days_distinct() ==> activity.started(now, stamp, date).days_distinct(),
        activity.started(now, stamp, date).started_at.len() == activity.started_at.len() + 1,
{
    let days = activity.active_days;
    if !days.contains(date) {
        assert(days.push(date)[days.len() as int] == date);
    }
}

} // verus!
