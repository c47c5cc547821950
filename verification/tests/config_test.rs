use chronsync::commands::{core_check_config, load_source, ConfigSource};
use chronsync::config::{
    load_config, Config, RawConfig, RawTask, Task, TaskError, TaskField,
};
use std::collections::HashMap;

fn raw_task(name: &str, schedule: &str, command: &str) -> RawTask {
    RawTask {
        name: Some(name.to_string()),
        cron_schedule: Some(schedule.to_string()),
        command: Some(command.to_string()),
        args: None,
        timeout: None,
        webhook_url: None,
        cwd: None,
        env: None,
    }
}

#[test]
fn test_valid_config_deserialization() {
    let mut task = raw_task("test_task", "*/5 * * * * *", "echo");
    task.args = Some(vec!["hello".to_string()]);
    task.timeout = Some(10);
    let config: Config =
        load_config(RawConfig { tasks: vec![task] }).expect("Should deserialize valid config");
    assert_eq!(config.tasks.len(), 1);
    assert_eq!(config.tasks[0].name, "test_task");
    assert_eq!(config.tasks[0].timeout, Some(10));
}

#[test]
fn test_invalid_cron_schedule() {
    let task = raw_task("bad_cron", "INVALID_CRON_STRING", "echo");
    let result = load_config(RawConfig { tasks: vec![task] });
    assert!(result.is_err(), "Should fail on invalid cron schedule");
}

#[test]
fn test_missing_command_field() {
    let mut task = raw_task("missing_command", "* * * * * *", "echo");
    task.command = None;
    let result = load_config(RawConfig { tasks: vec![task] });
    assert!(
        result.is_err(),
        "Should fail when mandatory field 'command' is missing"
    );
}

#[test]
fn test_check_command_with_valid_file() {
    let mut task = raw_task("valid_task", "* * * * * *", "echo");
    task.args = Some(vec!["ok".to_string()]);
    let source = ConfigSource::Parsed(RawConfig { tasks: vec![task] });
    assert_eq!(core_check_config("/tmp/config.json", &source), Ok(()));
}

#[test]
fn test_check_command_with_invalid_file() {
    let task = raw_task("invalid_task", "INVALID_CRON", "echo");
    let source = ConfigSource::Parsed(RawConfig { tasks: vec![task] });
    let error = core_check_config("/tmp/config.json", &source).unwrap_err();
    assert!(error.contains("Validation failed"));
    assert!(error.starts_with("Validation failed: Invalid JSON or Cron Schedule.\n  Details: "));
}

#[test]
fn check_reports_missing_file_with_its_path() {
    let error = core_check_config("/etc/nowhere.json", &ConfigSource::Missing).unwrap_err();
    assert_eq!(error, "Configuration file not found at: /etc/nowhere.json");
}

#[test]
fn check_reports_unreadable_file_with_the_reason() {
    let source = ConfigSource::Unreadable { reason: "expected value at line 1 column 1".to_string() };
    let error = core_check_config("c.json", &source).unwrap_err();
    assert_eq!(
        error,
        "Validation failed: Invalid JSON or Cron Schedule.\n  Details: expected value at line 1 column 1"
    );
}

#[test]
fn check_and_load_agree() {
    let good = || RawConfig { tasks: vec![raw_task("a", "0 0 0 * * *", "true")] };
    let bad = || RawConfig { tasks: vec![raw_task("a", "0 0 0 * * *", "true"), raw_task("b", "nope", "true")] };
    assert!(core_check_config("p", &ConfigSource::Parsed(good())).is_ok());
    assert!(load_source("p", ConfigSource::Parsed(good())).is_ok());
    let checked = core_check_config("p", &ConfigSource::Parsed(bad())).unwrap_err();
    let loaded = load_source("p", ConfigSource::Parsed(bad())).unwrap_err();
    assert_eq!(checked, loaded);
    assert_eq!(load_source("p", ConfigSource::Missing).unwrap_err(), "Configuration file not found at: p");
}

#[test]
fn load_keeps_every_field_and_the_order() {
    let mut first = raw_task("first", "*/10 * * * * *", "/bin/sh");
    first.args = Some(vec!["-c".to_string(), "echo hi".to_string()]);
    first.timeout = Some(0);
    first.webhook_url = Some("https://hooks.example/x".to_string());
    first.cwd = Some("/tmp".to_string());
    let mut env = HashMap::new();
    env.insert("K".to_string(), "V".to_string());
    first.env = Some(env.clone());
    let second = raw_task("second", "0 30 9 * * Mon", "true");
    let config = load_config(RawConfig { tasks: vec![first, second] }).unwrap();
    assert_eq!(config.tasks.len(), 2);
    let task: &Task = &config.tasks[0];
    assert_eq!(task.name, "first");
    assert_eq!(task.cron_schedule, "*/10 * * * * *");
    assert_eq!(task.command, "/bin/sh");
    assert_eq!(task.args, Some(vec!["-c".to_string(), "echo hi".to_string()]));
    assert_eq!(task.timeout, Some(0));
    assert_eq!(task.webhook_url.as_deref(), Some("https://hooks.example/x"));
    assert_eq!(task.cwd.as_deref(), Some("/tmp"));
    assert_eq!(task.env, Some(env));
    assert_eq!(config.tasks[1].name, "second");
    assert_eq!(config.tasks[1].args, None);
}

#[test]
fn load_accepts_no_tasks() {
    let config = load_config(RawConfig { tasks: vec![] }).unwrap();
    assert!(config.tasks.is_empty());
}

#[test]
fn load_reports_the_first_task_that_is_wrong() {
    let good = raw_task("good", "* * * * * *", "true");
    let mut nameless = raw_task("x", "* * * * * *", "true");
    nameless.name = None;
    let bad_cron = raw_task("bad", "not a schedule", "true");
    let error = load_config(RawConfig { tasks: vec![good, nameless, bad_cron] }).unwrap_err();
    assert_eq!(error.task, 1);
    assert!(matches!(error.error, TaskError::MissingField { field: TaskField::Name }));
    assert_eq!(error.error.message(), "missing field `name`");
}

#[test]
fn each_missing_field_is_named() {
    let mut no_schedule = raw_task("a", "* * * * * *", "true");
    no_schedule.cron_schedule = None;
    let error = Task::from_raw(no_schedule).unwrap_err();
    assert!(matches!(error, TaskError::MissingField { field: TaskField::CronSchedule }));
    assert_eq!(error.message(), "missing field `cron_schedule`");
    let mut no_command = raw_task("a", "* * * * * *", "true");
    no_command.command = None;
    let error = no_command.check().unwrap_err();
    assert!(matches!(error, TaskError::MissingField { field: TaskField::Command }));
    assert_eq!(error.message(), "missing field `command`");
}

#[test]
fn a_bad_schedule_is_found_before_a_missing_field() {
    let mut task = raw_task("a", "61 * * * * *", "true");
    task.name = None;
    task.command = None;
    let error = Task::from_raw(task).unwrap_err();
    match error {
        TaskError::InvalidSchedule { reason } => assert!(!reason.is_empty()),
        other => panic!("unexpected {:?}", other),
    }
}

#[test]
fn schedules_go_by_the_cron_grammar() {
    for good in ["* * * * * *", "0 30 9,12,15 1,15 May-Aug Mon,Wed,Fri 2018/2", "@daily", "0 0 0 1 1 * 1999"] {
        assert!(raw_task("t", good, "true").check().is_ok(), "{}", good);
    }
    for bad in ["", "* * * *", "INVALID_CRON", "60 * * * * *", "* * * * * * * *"] {
        assert!(raw_task("t", bad, "true").check().is_err(), "{}", bad);
    }
}

#[test]
fn find_task_takes_the_first_of_a_name() {
    let tasks = vec![
        raw_task("a", "* * * * * *", "one"),
        raw_task("b", "* * * * * *", "two"),
        raw_task("b", "* * * * * *", "three"),
    ];
    let config = load_config(RawConfig { tasks }).unwrap();
    assert_eq!(config.find_task("a"), Some(0));
    assert_eq!(config.find_task("b"), Some(1));
    assert_eq!(config.find_task("c"), None);
    assert_eq!(config.find_task(""), None);
    assert_eq!(config.task_names(), vec!["a".to_string(), "b".to_string(), "b".to_string()]);
}
