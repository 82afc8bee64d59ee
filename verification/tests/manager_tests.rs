use activitytracker::activity::Activity;
use activitytracker::activity::ActivitySerial;
use activitytracker::activity::Status;
use activitytracker::manager::name_known;
use activitytracker::manager::names_are_distinct;
use activitytracker::manager::ActivityManagerSerial;
use activitytracker::manager::TaskManager;
use activitytracker::requests::ActivityDate;
use activitytracker::requests::StartJson;
use activitytracker::utils::sys_now_secs;
use activitytracker::utils::DAY_LENGTH_SECS;
use std::path::PathBuf;

fn stamp() -> String {
    String::from("2024-03-01 08:00:00")
}

fn day() -> String {
    String::from("2024-03-01")
}

fn manager_at(start_time: u64) -> TaskManager {
    TaskManager::new_at(PathBuf::from("activities.json"), start_time, stamp())
}

fn names(data: &Vec<Activity>) -> Vec<String> {
    data.iter().map(|activity| activity.name()).collect()
}

fn active_names(data: &Vec<Activity>) -> Vec<String> {
    data.iter().filter(|activity| activity.is_active()).map(|activity| activity.name()).collect()
}

fn with_logged_secs(activity: Activity, logged_secs: u64) -> Activity {
    let mut serial = ActivitySerial::from_activity_at(activity, 0);
    serial.logged_secs = logged_secs;
    Activity::from(serial)
}

#[test]
fn activitymanager_add_task() {
    let tm = manager_at(0);
    let mut data: Vec<Activity> = Vec::new();
    let task_name = "task";
    tm.start_activity_at(&mut data, task_name, 10, &stamp(), &day());
    assert_eq!(data.len(), 1);
    assert_eq!(data[0].name(), task_name);
    assert_eq!(data[0].secs_since_creation_at(10), 0);
    assert_eq!(data[0].secs_since_creation_at(11), 1);
    assert_eq!(data[0].secs_since_creation_at(11), 1);
    assert_eq!(data[0].secs_since_creation_at(11), 1);
    assert_eq!(data[0].secs_since_creation_at(12), 2);
    assert_eq!(data[0].secs_since_creation_at(12), 2);
    tm.stop_at(&mut data, 12);
    assert_eq!(data[0].secs_since_creation_at(12), 2);
    assert_eq!(data[0].secs_since_creation_at(12), 2);
    assert_eq!(data[0].secs_since_creation_at(14), 2);
    tm.start_activity_at(&mut data, task_name, 14, &stamp(), &day());
    assert_eq!(data[0].secs_since_creation_at(14), 2);
    assert_eq!(data[0].secs_since_creation_at(15), 3);
}

#[test]
fn activitymanager_multiple_tasks() {
    let task_1 = "alpha";
    let task_2 = "beta";
    let tm = manager_at(0);
    let mut data: Vec<Activity> = Vec::new();
    tm.start_activity_at(&mut data, task_1, 100, &stamp(), &day());
    assert_eq!(data[0].secs_since_creation_at(101), 1);
    tm.start_activity_at(&mut data, task_2, 101, &stamp(), &day());
    assert_eq!(data[0].secs_since_creation_at(102), 1);
    assert_eq!(data[1].secs_since_creation_at(102), 1);
    assert_eq!(data[0].secs_since_creation_at(103), 1);
    assert_eq!(data[1].secs_since_creation_at(103), 2);
    assert_eq!(data[0].secs_since_creation_at(104), 1);
    assert_eq!(data[1].secs_since_creation_at(104), 3);
    tm.start_activity_at(&mut data, task_2, 104, &stamp(), &day());
    assert_eq!(data[0].secs_since_creation_at(104), 1);
    assert_eq!(data[1].secs_since_creation_at(104), 3);
    assert_eq!(data[0].secs_since_creation_at(105), 1);
    assert_eq!(data[1].secs_since_creation_at(105), 4);
    tm.start_activity_at(&mut data, task_1, 105, &stamp(), &day());
    assert_eq!(data[0].secs_since_creation_at(105), 1);
    assert_eq!(data[1].secs_since_creation_at(105), 4);
    assert_eq!(data[0].secs_since_creation_at(106), 2);
    assert_eq!(data[1].secs_since_creation_at(106), 4);
    assert_eq!(data[0].secs_since_creation_at(107), 3);
    assert_eq!(data[1].secs_since_creation_at(107), 4);
}

#[test]
fn activitymanager_no_duplicate_task_names() {
    let tm = manager_at(0);
    let mut data: Vec<Activity> = Vec::new();
    tm.start_activity_at(&mut data, "a", 1, &stamp(), &day());
    tm.start_activity_at(&mut data, "a", 2, &stamp(), &day());
    tm.start_activity_at(&mut data, "a", 3, &stamp(), &day());
    tm.start_activity_at(&mut data, "a", 4, &stamp(), &day());
    assert_eq!(names(&data), vec!["a"]);
}

#[test]
fn no_duplicate_names_with_the_clock() {
    let tm = TaskManager::new(PathBuf::from("activities.json"));
    let mut data: Vec<Activity> = Vec::new();
    assert_eq!(tm.start_activity(&mut data, "a"), "a");
    tm.start_activity(&mut data, "a");
    tm.start_activity(&mut data, "b");
    tm.start_activity(&mut data, "a");
    assert_eq!(names(&data), vec!["a", "b"]);
    assert_eq!(active_names(&data), vec!["a"]);
    tm.stop(&mut data);
    assert_eq!(names(&data), vec!["a", "b"]);
    assert!(active_names(&data).is_empty());
}

#[test]
fn starting_one_stops_the_others() {
    let tm = manager_at(0);
    let mut data: Vec<Activity> = Vec::new();
    assert_eq!(tm.start_activity_at(&mut data, "a", 1, &stamp(), &day()), "a");
    assert_eq!(active_names(&data), vec!["a"]);
    assert_eq!(tm.start_activity_at(&mut data, "b", 2, &stamp(), &day()), "b");
    assert_eq!(active_names(&data), vec!["b"]);
    tm.start_activity_at(&mut data, "a", 3, &stamp(), &day());
    assert_eq!(active_names(&data), vec!["a"]);
    assert_eq!(names(&data), vec!["a", "b"]);
    tm.start_activity_at(&mut data, "c", 4, &stamp(), &day());
    assert_eq!(active_names(&data), vec!["c"]);
    assert_eq!(names(&data), vec!["a", "b", "c"]);
}

#[test]
fn names_are_told_apart_by_case() {
    let tm = manager_at(0);
    let mut data: Vec<Activity> = Vec::new();
    tm.start_activity_at(&mut data, "Read", 1, &stamp(), &day());
    tm.start_activity_at(&mut data, "read", 2, &stamp(), &day());
    assert_eq!(names(&data), vec!["Read", "read"]);
    assert_eq!(active_names(&data), vec!["read"]);
}

#[test]
fn a_new_activity_is_created_and_then_activated() {
    let tm = manager_at(0);
    let mut data: Vec<Activity> = Vec::new();
    tm.start_activity_at(&mut data, "a", 7, &stamp(), &day());
    let serial = ActivitySerial::from_activity_at(data[0].clone(), 7);
    assert_eq!(serial.added_at, stamp());
    assert_eq!(serial.started_at, vec![stamp(), stamp()]);
    assert_eq!(serial.active_days, vec![day()]);
    assert_eq!(serial.status, Status::ActiveSince(7));
    assert_eq!(serial.logged_secs, 0);
}

#[test]
fn stop_halts_all() {
    let tm = manager_at(0);
    let mut data: Vec<Activity> = Vec::new();
    tm.stop_at(&mut data, 5);
    assert!(data.is_empty());
    tm.start_activity_at(&mut data, "a", 10, &stamp(), &day());
    tm.start_activity_at(&mut data, "b", 20, &stamp(), &day());
    tm.stop_at(&mut data, 50);
    assert!(active_names(&data).is_empty());
    assert_eq!(data[0].secs_since_creation_at(1_000), 10);
    assert_eq!(data[1].secs_since_creation_at(1_000), 30);
    let before = data.clone();
    tm.stop_at(&mut data, 2_000);
    assert_eq!(data, before);
}

#[test]
fn total_is_the_sum_over_all_activities() {
    let tm = manager_at(0);
    let mut data: Vec<Activity> = Vec::new();
    assert_eq!(tm.total_activity_time_at(&data, 99), 0);
    tm.start_activity_at(&mut data, "a", 10, &stamp(), &day());
    tm.start_activity_at(&mut data, "b", 20, &stamp(), &day());
    tm.start_activity_at(&mut data, "c", 50, &stamp(), &day());
    assert_eq!(tm.total_activity_time_at(&data, 50), 40);
    assert_eq!(tm.total_activity_time_at(&data, 75), 65);
}

#[test]
fn total_is_held_at_the_largest_value() {
    let tm = manager_at(0);
    let data = vec![
        with_logged_secs(Activity::new_at("a", 0, stamp(), day()), u64::MAX - 3),
        with_logged_secs(Activity::new_at("b", 0, stamp(), day()), 10),
    ];
    assert_eq!(tm.total_activity_time_at(&data, 0), u64::MAX);
    let report = tm.today_times_at(&data, 0, day());
    assert_eq!(report.total_activity_secs, u64::MAX);
    assert_eq!(report.time_left_secs, 0);
    assert_eq!(report.time_difference_secs, 0);
}

#[test]
fn report_on_an_empty_store() {
    let tm = manager_at(1_000);
    let data: Vec<Activity> = Vec::new();
    let report: ActivityManagerSerial = tm.today_times_at(&data, 1_000 + 3_660, day());
    assert_eq!(report.date, day());
    assert!(report.activities.is_empty());
    assert!(report.tasks.is_empty());
    assert_eq!(report.total_activity_secs, 0);
    assert_eq!(report.total_activity_time, "00h:00m");
    assert_eq!(report.elapsed_day_secs, 3_660);
    assert_eq!(report.elapsed_day, "01h:01m");
    assert_eq!(report.time_difference_secs, 3_660);
    assert_eq!(report.time_difference, "01h:01m");
    assert_eq!(report.day_length_secs, DAY_LENGTH_SECS);
    assert_eq!(report.day_length, "07h:30m");
    assert_eq!(report.time_left_secs, DAY_LENGTH_SECS);
    assert_eq!(report.time_left, "07h:30m");
    assert_eq!(report.start_time, 1_000);
    assert_eq!(report.start_time_pretty, "start time:         2024-03-01 08:00:00");
    assert_eq!(
        report.display,
        "start time:         2024-03-01 08:00:00\nelapsed day:        01h:01m\ntotal acivity time: 00h:00m\n\n"
    );
}

#[test]
fn report_on_an_empty_store_with_the_clock() {
    let tm = TaskManager::new(PathBuf::from("activities.json"));
    let before = sys_now_secs();
    assert!(tm.start_time() <= before);
    let data: Vec<Activity> = Vec::new();
    let report = tm.today_times(&data);
    assert_eq!(report.total_activity_secs, 0);
    assert_eq!(report.total_activity_time, "00h:00m");
    assert_eq!(report.time_left_secs, DAY_LENGTH_SECS);
    assert!(report.tasks.is_empty());
    assert!(report.activities.is_empty());
    assert_eq!(report.date.len(), 10);
    assert_eq!(report.start_time, tm.start_time());
    assert!(report.elapsed_day_secs <= 5);
}

#[test]
fn no_time_is_left_once_a_day_is_spent() {
    let tm = manager_at(0);
    let mut data: Vec<Activity> = Vec::new();
    tm.start_activity_at(&mut data, "a", 0, &stamp(), &day());
    let report = tm.today_times_at(&data, DAY_LENGTH_SECS - 60, day());
    assert_eq!(report.time_left_secs, 60);
    assert_eq!(report.time_left, "00h:01m");
    let report = tm.today_times_at(&data, DAY_LENGTH_SECS, day());
    assert_eq!(report.time_left_secs, 0);
    assert_eq!(report.time_left, "00h:00m");
    let report = tm.today_times_at(&data, DAY_LENGTH_SECS + 3_600, day());
    assert_eq!(report.total_activity_secs, DAY_LENGTH_SECS + 3_600);
    assert_eq!(report.total_activity_time, "08h:30m");
    assert_eq!(report.time_left_secs, 0);
    assert_eq!(report.time_left, "00h:00m");
}

#[test]
fn the_difference_to_the_session_is_floored_at_zero() {
    let tm = manager_at(1_000);
    let data = vec![with_logged_secs(Activity::new_at("a", 1_000, stamp(), day()), 7_200)];
    let report = tm.today_times_at(&data, 1_600, day());
    assert_eq!(report.elapsed_day_secs, 600);
    assert_eq!(report.total_activity_secs, 7_800);
    assert_eq!(report.time_difference_secs, 0);
    assert_eq!(report.time_difference, "00h:00m");
    let report = tm.today_times_at(&data, 500, day());
    assert_eq!(report.elapsed_day_secs, 0);
    assert_eq!(report.total_activity_secs, 7_200);
}

#[test]
fn report_keeps_the_records_of_the_date() {
    let tm = manager_at(0);
    let mut data: Vec<Activity> = Vec::new();
    let next_day = String::from("2024-03-02");
    tm.start_activity_at(&mut data, "a", 100, &stamp(), &day());
    tm.start_activity_at(&mut data, "b", 200, &stamp(), &day());
    tm.start_activity_at(&mut data, "c", 4_000, &String::from("2024-03-02 07:00:00"), &next_day);
    tm.start_activity_at(&mut data, "a", 4_100, &String::from("2024-03-02 07:01:40"), &next_day);

    let report = tm.today_times_at(&data, 4_100 + 3_600, next_day.clone());
    assert_eq!(report.date, next_day);
    assert_eq!(report.activities, data);
    let task_names: Vec<String> = report.tasks.iter().map(|task| task.name.clone()).collect();
    assert_eq!(task_names, vec!["a", "c"]);
    assert_eq!(report.tasks[0].logged_pretty, "01h:01m");
    assert_eq!(report.tasks[0].logged_secs, 100);
    assert_eq!(report.tasks[0].status, Status::ActiveSince(4_100));
    assert_eq!(report.tasks[1].logged_pretty, "00h:01m");
    assert_eq!(report.tasks[1].status, Status::Idle);
    assert_eq!(report.total_activity_secs, 3_700 + 3_800 + 100);

    let report = tm.today_times_at(&data, 4_100, day());
    let task_names: Vec<String> = report.tasks.iter().map(|task| task.name.clone()).collect();
    assert_eq!(task_names, vec!["a", "b"]);

    let report = tm.today_times_at(&data, 4_100, String::from("2024-03-03"));
    assert!(report.tasks.is_empty());
    assert_eq!(report.activities.len(), 3);
}

#[test]
fn overview_lists_every_activity() {
    let tm = manager_at(0);
    let mut data: Vec<Activity> = Vec::new();
    tm.start_activity_at(&mut data, "alpha", 0, &stamp(), &day());
    tm.start_activity_at(&mut data, "beta", 3_600, &stamp(), &day());
    let overview = tm.pretty_at(&data, 3_600 + 125);
    let expected = format!(
        "start time:         {}\nelapsed day:        {:02}h:{:02}m\ntotal acivity time: {:02}h:{:02}m\n  {:>45}: {}h:{:02}m\n> {:>45}: {}h:{:02}m\n",
        stamp(),
        1,
        2,
        1,
        2,
        "alpha",
        1,
        0,
        "beta",
        0,
        2
    );
    assert_eq!(overview, expected);
    let report = tm.today_times_at(&data, 3_600 + 125, day());
    assert_eq!(report.display, expected);
}

#[test]
fn overview_of_one_activity() {
    let tm = manager_at(10);
    let mut data: Vec<Activity> = Vec::new();
    tm.start_activity_at(&mut data, "solo", 10, &stamp(), &day());
    tm.stop_at(&mut data, 70);
    let expected = format!(
        "start time:         {}\nelapsed day:        00h:01m\ntotal acivity time: 00h:01m\n  {:>45}: 0h:01m\n",
        stamp(),
        "solo"
    );
    assert_eq!(tm.pretty_at(&data, 100), expected);
    let with_clock = tm.pretty(&data);
    assert!(with_clock.starts_with("start time:         2024-03-01 08:00:00\nelapsed day:        "));
    assert!(with_clock.ends_with(&format!("total acivity time: 00h:01m\n  {:>45}: 0h:01m\n", "solo")));
}

#[test]
fn a_manager_keeps_its_path_and_start() {
    let path = PathBuf::from("some/where/activities.json");
    let tm = TaskManager::new_at(path.clone(), 42, stamp());
    assert_eq!(tm.path(), &path);
    assert_eq!(tm.start_time(), 42);
    let copy = tm.clone();
    assert_eq!(copy, tm);
    assert_eq!(copy.path(), &path);
    let clocked = TaskManager::new(path.clone());
    assert_eq!(clocked.path(), &path);
    assert!(clocked.start_time() > 1_600_000_000);
}

#[test]
fn requests_carry_their_text() {
    let start = StartJson { name: String::from("test_name_01") };
    assert_eq!(start.name, "test_name_01");
    assert_eq!(start.clone(), start);
    let date = ActivityDate { date: day() };
    assert_eq!(date.date, "2024-03-01");
    assert_eq!(date.clone(), date);
}

#[test]
fn shared_names_are_found() {
    let mut data: Vec<Activity> = Vec::new();
    assert!(names_are_distinct(&data));
    assert!(!name_known(&data, "a"));
    data.push(Activity::new_at("a", 1, stamp(), day()));
    assert!(names_are_distinct(&data));
    assert!(name_known(&data, "a"));
    assert!(!name_known(&data, "A"));
    data.push(Activity::new_at("b", 2, stamp(), day()));
    data.push(Activity::new_at("c", 3, stamp(), day()));
    assert!(names_are_distinct(&data));
    data.push(Activity::new_at("b", 4, stamp(), day()));
    assert!(!names_are_distinct(&data));
    assert!(name_known(&data, "c"));
}

#[test]
fn a_start_activates_every_activity_of_the_name() {
    let tm = manager_at(0);
    let mut data = vec![
        Activity::new_at("a", 1, stamp(), day()),
        Activity::new_at("b", 2, stamp(), day()),
        Activity::new_at("a", 3, stamp(), day()),
    ];
    tm.start_activity_at(&mut data, "a", 10, &stamp(), &day());
    assert_eq!(names(&data), vec!["a", "b", "a"]);
    assert_eq!(active_names(&data), vec!["a", "a"]);
    tm.start_activity_at(&mut data, "b", 20, &stamp(), &day());
    assert_eq!(active_names(&data), vec!["b"]);
}

#[test]
fn report_on_a_given_date_with_the_clock() {
    let tm = manager_at(0);
    let mut data: Vec<Activity> = Vec::new();
    tm.start_activity_at(&mut data, "a", 100, &stamp(), &day());
    tm.start_activity_at(&mut data, "b", 200, &stamp(), &String::from("2024-03-02"));
    tm.stop_at(&mut data, 260);
    let report = tm.get_activities_by_date(&data, String::from("2024-03-02"));
    assert_eq!(report.date, "2024-03-02");
    assert_eq!(report.activities, data);
    assert_eq!(report.tasks.len(), 1);
    assert_eq!(report.tasks[0].name, "b");
    assert_eq!(report.tasks[0].logged_secs, 60);
    assert_eq!(report.tasks[0].logged_pretty, "00h:01m");
    assert_eq!(report.total_activity_secs, 160);
    assert_eq!(report.time_left_secs, DAY_LENGTH_SECS - 160);
    let report = tm.get_activities_by_date(&data, String::from("1999-01-01"));
    assert!(report.tasks.is_empty());
}
