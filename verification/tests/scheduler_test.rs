use chronsync::commands::{daemon_step, DaemonEvent};
use chronsync::config::{load_config, Config, RawConfig, RawTask, Task};
use chronsync::executor::{ExecAction, ExecEvent, ExecutionResult, ExitStatus};
use chronsync::job_loop::{JobAction, JobEvent, JobLoop};
use chronsync::scheduler::{JobHandle, SchedulerAction, TaskScheduler};
use std::collections::{HashMap, HashSet};
use std::sync::{Arc, Mutex};
use tokio::process::Command;
use tokio::task::JoinHandle;
use tokio::time::{sleep, Duration};

fn config_of(names: &[&str]) -> Config {
    let tasks = names
        .iter()
        .map(|name| RawTask {
            name: Some(name.to_string()),
            cron_schedule: Some("* * * * * *".to_string()),
            command: Some("echo".to_string()),
            args: Some(vec![name.to_string()]),
            timeout: None,
            webhook_url: None,
            cwd: None,
            env: None,
        })
        .collect();
    load_config(RawConfig { tasks }).unwrap()
}

fn cancelled(plan: &[SchedulerAction]) -> Vec<JobHandle> {
    plan.iter()
        .filter_map(|action| match action {
            SchedulerAction::Cancel(handle) => Some(*handle),
            _ => None,
        })
        .collect()
}

fn started(plan: &[SchedulerAction]) -> Vec<(JobHandle, String)> {
    plan.iter()
        .filter_map(|action| match action {
            SchedulerAction::Start { handle, task } => Some((*handle, task.name.clone())),
            _ => None,
        })
        .collect()
}

#[test]
fn a_new_scheduler_is_idle() {
    let scheduler = TaskScheduler::new();
    assert_eq!(scheduler.job_count(), 0);
}

#[test]
fn a_reload_starts_one_job_for_each_task() {
    let mut scheduler = TaskScheduler::new();
    let plan = scheduler.reload_tasks(config_of(&["a", "b", "c"]));
    assert_eq!(plan.len(), 3);
    assert!(cancelled(&plan).is_empty());
    let jobs = started(&plan);
    let names: Vec<&str> = jobs.iter().map(|(_, name)| name.as_str()).collect();
    assert_eq!(names, vec!["a", "b", "c"]);
    let handles: HashSet<JobHandle> = jobs.iter().map(|(handle, _)| *handle).collect();
    assert_eq!(handles.len(), 3, "no two jobs share a handle");
    assert_eq!(scheduler.job_count(), 3);
}

#[test]
fn tasks_of_one_name_each_get_a_job() {
    let mut scheduler = TaskScheduler::new();
    let plan = scheduler.reload_tasks(config_of(&["twin", "twin"]));
    let jobs = started(&plan);
    assert_eq!(jobs.len(), 2);
    assert_ne!(jobs[0].0, jobs[1].0);
    assert_eq!(scheduler.job_count(), 2);
}

#[test]
fn a_reload_carries_the_tasks_whole() {
    let mut raw = RawTask {
        name: Some("full".to_string()),
        cron_schedule: Some("0 * * * * *".to_string()),
        command: Some("sh".to_string()),
        args: Some(vec!["-c".to_string(), "true".to_string()]),
        timeout: Some(3),
        webhook_url: Some("http://w".to_string()),
        cwd: Some("/tmp".to_string()),
        env: None,
    };
    let mut env = HashMap::new();
    env.insert("A".to_string(), "1".to_string());
    raw.env = Some(env.clone());
    let config = load_config(RawConfig { tasks: vec![raw] }).unwrap();
    let mut scheduler = TaskScheduler::new();
    let mut plan = scheduler.reload_tasks(config);
    match plan.remove(0) {
        SchedulerAction::Start { task, .. } => {
            let task: Task = task;
            assert_eq!(task.name, "full");
            assert_eq!(task.cron_schedule, "0 * * * * *");
            assert_eq!(task.command, "sh");
            assert_eq!(task.args, Some(vec!["-c".to_string(), "true".to_string()]));
            assert_eq!(task.timeout, Some(3));
            assert_eq!(task.webhook_url.as_deref(), Some("http://w"));
            assert_eq!(task.cwd.as_deref(), Some("/tmp"));
            assert_eq!(task.env, Some(env));
        }
        other => panic!("unexpected {:?}", other),
    }
}

#[test]
fn a_second_reload_cancels_all_of_the_first_before_it_starts_its_own() {
    let mut scheduler = TaskScheduler::new();
    let first = scheduler.reload_tasks(config_of(&["a", "b", "c"]));
    let first_handles: Vec<JobHandle> = started(&first).into_iter().map(|(h, _)| h).collect();
    let second = scheduler.reload_tasks(config_of(&["x", "y"]));
    assert_eq!(second.len(), 5);
    assert_eq!(cancelled(&second), first_handles);
    for (position, action) in second.iter().enumerate() {
        assert_eq!(matches!(action, SchedulerAction::Cancel(_)), position < 3);
    }
    let jobs = started(&second);
    assert_eq!(jobs.iter().map(|(_, n)| n.as_str()).collect::<Vec<_>>(), vec!["x", "y"]);
    for (handle, _) in &jobs {
        assert!(!first_handles.contains(handle), "no handle of the first reload is held");
    }
    assert_eq!(scheduler.job_count(), 2);
}

#[test]
fn a_reload_of_the_same_configuration_still_replaces_every_job() {
    let mut scheduler = TaskScheduler::new();
    let first = started(&scheduler.reload_tasks(config_of(&["a"])));
    let plan = scheduler.reload_tasks(config_of(&["a"]));
    assert_eq!(cancelled(&plan), vec![first[0].0]);
    let second = started(&plan);
    assert_eq!(second.len(), 1);
    assert_ne!(second[0].0, first[0].0);
}

#[test]
fn a_reload_to_nothing_stops_everything() {
    let mut scheduler = TaskScheduler::new();
    let first = started(&scheduler.reload_tasks(config_of(&["a", "b"])));
    let plan = scheduler.reload_tasks(config_of(&[]));
    assert_eq!(plan.len(), 2);
    assert_eq!(cancelled(&plan), first.iter().map(|(h, _)| *h).collect::<Vec<_>>());
    assert_eq!(scheduler.job_count(), 0);
    assert!(scheduler.reload_tasks(config_of(&[])).is_empty());
}

#[test]
fn the_daemon_turns_down_a_configuration_that_did_not_load() {
    let mut scheduler = TaskScheduler::new();
    let step = daemon_step(&mut scheduler, DaemonEvent::ConfigChanged(Ok(config_of(&["a", "b"]))));
    assert!(step.running);
    assert_eq!(step.rejected, None);
    assert_eq!(started(&step.plan).len(), 2);
    let step = daemon_step(
        &mut scheduler,
        DaemonEvent::ConfigChanged(Err("Validation failed".to_string())),
    );
    assert!(step.running);
    assert!(step.plan.is_empty(), "the jobs that run go on running");
    assert_eq!(step.rejected.as_deref(), Some("Validation failed"));
    assert_eq!(scheduler.job_count(), 2);
}

#[test]
fn an_interrupt_stops_every_job_and_ends_the_daemon() {
    let mut scheduler = TaskScheduler::new();
    let first = daemon_step(&mut scheduler, DaemonEvent::ConfigChanged(Ok(config_of(&["a", "b"]))));
    let step = daemon_step(&mut scheduler, DaemonEvent::Interrupted);
    assert!(!step.running);
    assert_eq!(step.rejected, None);
    assert_eq!(
        cancelled(&step.plan),
        started(&first.plan).into_iter().map(|(h, _)| h).collect::<Vec<_>>()
    );
    assert!(started(&step.plan).is_empty());
    assert_eq!(scheduler.job_count(), 0);
}

/// Runs the job loop of `task` for real and notes each run's output.
async fn job(task: Task, runs: Arc<Mutex<Vec<String>>>) {
    let mut job = JobLoop::new(&task.cron_schedule).unwrap();
    let mut action = JobAction::Compute;
    loop {
        let event = match action {
            JobAction::Compute => job.consult_schedule(),
            JobAction::Sleep(delay) => {
                sleep(Duration::new(delay.secs, delay.nanos)).await;
                JobEvent::Woke
            }
            JobAction::Execute => {
                let (mut execution, first) = task.execute();
                let invocation = match first {
                    ExecAction::Spawn(invocation) => invocation,
                    other => panic!("unexpected {:?}", other),
                };
                execution.step(ExecEvent::Spawned { pid: None }).unwrap();
                let output =
                    Command::new(invocation.command).args(invocation.args).output().await.unwrap();
                let finished = execution
                    .step(ExecEvent::Exited {
                        status: ExitStatus {
                            code: output.status.code(),
                            description: output.status.to_string(),
                        },
                        stdout: output.stdout,
                        stderr: output.stderr,
                    })
                    .unwrap();
                match finished {
                    ExecAction::Finish(ExecutionResult::Completed { stdout, .. }) => {
                        runs.lock().unwrap().push(stdout.trim().to_string());
                    }
                    other => panic!("unexpected {:?}", other),
                }
                JobEvent::Executed
            }
            JobAction::Stop => return,
        };
        action = job.step(event).unwrap();
    }
}

fn carry_out(
    plan: Vec<SchedulerAction>,
    running: &mut HashMap<JobHandle, JoinHandle<()>>,
    runs: &Arc<Mutex<Vec<String>>>,
) {
    for action in plan {
        match action {
            SchedulerAction::Cancel(handle) => {
                running.remove(&handle).expect("a job that was started").abort();
            }
            SchedulerAction::Start { handle, task } => {
                let previous = running.insert(handle, tokio::spawn(job(task, runs.clone())));
                assert!(previous.is_none());
            }
        }
    }
}

#[test]
fn jobs_of_a_replaced_configuration_run_no_more() {
    let runtime = tokio::runtime::Builder::new_current_thread().enable_all().build().unwrap();
    runtime.block_on(async {
        let runs = Arc::new(Mutex::new(Vec::new()));
        let mut running = HashMap::new();
        let mut scheduler = TaskScheduler::new();
        carry_out(scheduler.reload_tasks(config_of(&["one", "uno"])), &mut running, &runs);
        assert_eq!(running.len(), 2);
        sleep(Duration::from_millis(2300)).await;
        carry_out(scheduler.reload_tasks(config_of(&["two"])), &mut running, &runs);
        assert_eq!(running.len(), 1);
        let seen = runs.lock().unwrap().len();
        {
            let so_far = runs.lock().unwrap();
            assert!(so_far.iter().filter(|r| r.as_str() == "one").count() >= 1);
            assert!(so_far.iter().filter(|r| r.as_str() == "uno").count() >= 1);
            assert!(so_far.iter().all(|r| r != "two"));
        }
        sleep(Duration::from_millis(2300)).await;
        carry_out(scheduler.reload_tasks(config_of(&[])), &mut running, &runs);
        assert!(running.is_empty());
        let after_stop = runs.lock().unwrap().len();
        sleep(Duration::from_millis(1500)).await;
        let all = runs.lock().unwrap();
        assert_eq!(all.len(), after_stop, "nothing runs after the reload to nothing");
        assert!(all[seen..].iter().all(|r| r == "two"), "only the new configuration runs");
        assert!(all[seen..].len() >= 1);
    });
}
