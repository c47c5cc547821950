use chronsync::job_loop::{JobAction, JobEvent, JobLoop, JobPhase};
use chronsync::schedule::{delay_until, Delay, Instant};
use std::str::FromStr;

fn at(secs: i64, nanos: u32) -> Instant {
    Instant { secs, nanos }
}

#[test]
fn the_delay_is_the_time_between_two_instants() {
    assert_eq!(delay_until(at(10, 500_000_000), at(12, 0)), Delay { secs: 1, nanos: 500_000_000 });
    assert_eq!(delay_until(at(10, 0), at(10, 1)), Delay { secs: 0, nanos: 1 });
    assert_eq!(delay_until(at(0, 999_999_999), at(1, 0)), Delay { secs: 0, nanos: 1 });
    assert_eq!(delay_until(at(-5, 0), at(5, 250), ), Delay { secs: 10, nanos: 250 });
    assert_eq!(
        delay_until(at(1_700_000_000, 123_456_789), at(1_700_003_600, 0)),
        Delay { secs: 3599, nanos: 876_543_211 }
    );
}

#[test]
fn an_occurrence_that_is_past_is_due_at_once() {
    let zero = Delay { secs: 0, nanos: 0 };
    assert_eq!(delay_until(at(10, 0), at(10, 0)), zero);
    assert_eq!(delay_until(at(10, 1), at(10, 0)), zero);
    assert_eq!(delay_until(at(11, 0), at(10, 999_999_999)), zero);
    assert_eq!(delay_until(at(i64::MAX, 0), at(i64::MIN, 0)), zero);
}

#[test]
fn the_delay_is_whole_at_the_ends_of_time() {
    assert_eq!(
        delay_until(at(i64::MIN, 0), at(i64::MAX, 999_999_999)),
        Delay { secs: u64::MAX, nanos: 999_999_999 }
    );
    assert_eq!(
        delay_until(at(i64::MIN, 0), at(i64::MAX, u32::MAX)),
        Delay { secs: u64::MAX, nanos: 999_999_999 }
    );
    assert_eq!(delay_until(at(0, 0), at(0, 3_000_000_001)), Delay { secs: 3, nanos: 1 });
    assert_eq!(delay_until(at(0, 2_000_000_000), at(3, 0)), Delay { secs: 1, nanos: 0 });
}

#[test]
fn a_loop_begins_computing() {
    let job = JobLoop::new("*/5 * * * * *").unwrap();
    assert_eq!(job.phase(), JobPhase::Computing);
}

#[test]
fn a_loop_is_refused_in_the_words_of_the_parser() {
    for bad in ["INVALID_CRON_STRING", "", "* * *", "99 * * * * *"] {
        let reason = match JobLoop::new(bad) {
            Err(reason) => reason,
            Ok(_) => panic!("{} was taken", bad),
        };
        let expected = cron::Schedule::from_str(bad).unwrap_err().to_string();
        assert_eq!(reason, expected);
        assert_ne!(reason, bad);
    }
}

#[test]
fn the_cycle_is_compute_wait_run() {
    let mut job = JobLoop::new("* * * * * *").unwrap();
    for round in 0..3 {
        let now = at(100 + round, 250_000_000);
        let next = at(101 + round, 0);
        let action = job.step(JobEvent::Scheduled { now, next: Some(next) });
        assert_eq!(action, Some(JobAction::Sleep(Delay { secs: 0, nanos: 750_000_000 })));
        assert_eq!(job.phase(), JobPhase::Waiting);
        assert_eq!(job.step(JobEvent::Woke), Some(JobAction::Execute));
        assert_eq!(job.phase(), JobPhase::Running);
        assert_eq!(job.step(JobEvent::Executed), Some(JobAction::Compute));
        assert_eq!(job.phase(), JobPhase::Computing);
    }
}

#[test]
fn job_events_out_of_turn_change_nothing() {
    let mut job = JobLoop::new("* * * * * *").unwrap();
    assert_eq!(job.step(JobEvent::Woke), None);
    assert_eq!(job.step(JobEvent::Executed), None);
    assert_eq!(job.phase(), JobPhase::Computing);
    job.step(JobEvent::Scheduled { now: at(0, 0), next: Some(at(1, 0)) }).unwrap();
    assert_eq!(job.step(JobEvent::Scheduled { now: at(0, 0), next: Some(at(1, 0)) }), None);
    assert_eq!(job.step(JobEvent::Executed), None);
    assert_eq!(job.phase(), JobPhase::Waiting);
    job.step(JobEvent::Woke).unwrap();
    assert_eq!(job.step(JobEvent::Woke), None);
    assert_eq!(job.step(JobEvent::Scheduled { now: at(0, 0), next: None }), None);
    assert_eq!(job.phase(), JobPhase::Running);
}

#[test]
fn a_late_occurrence_runs_at_once() {
    let mut job = JobLoop::new("* * * * * *").unwrap();
    let action = job.step(JobEvent::Scheduled { now: at(50, 0), next: Some(at(49, 0)) });
    assert_eq!(action, Some(JobAction::Sleep(Delay { secs: 0, nanos: 0 })));
    assert_eq!(job.step(JobEvent::Woke), Some(JobAction::Execute));
}

#[test]
fn an_exhausted_schedule_ends_the_loop_without_a_run() {
    let mut job = JobLoop::new("0 0 0 1 1 * 2000").unwrap();
    let event = job.consult_schedule();
    match event {
        JobEvent::Scheduled { next, .. } => assert_eq!(next, None),
        other => panic!("unexpected {:?}", other),
    }
    let mut executions = 0;
    let mut action = job.step(event);
    assert_eq!(action, Some(JobAction::Stop));
    assert_eq!(job.phase(), JobPhase::Ended);
    for event in [JobEvent::Woke, JobEvent::Executed, job.consult_schedule(), JobEvent::Cancelled] {
        action = job.step(event);
        if action == Some(JobAction::Execute) {
            executions += 1;
        }
        assert_eq!(action, None);
        assert_eq!(job.phase(), JobPhase::Ended);
    }
    assert_eq!(executions, 0);
}

#[test]
fn a_cancelled_loop_stops_where_it_stands() {
    let reach = |phase: JobPhase| {
        let mut job = JobLoop::new("* * * * * *").unwrap();
        if phase != JobPhase::Computing {
            job.step(JobEvent::Scheduled { now: at(0, 0), next: Some(at(1, 0)) }).unwrap();
        }
        if phase == JobPhase::Running {
            job.step(JobEvent::Woke).unwrap();
        }
        assert_eq!(job.phase(), phase);
        job
    };
    for phase in [JobPhase::Computing, JobPhase::Waiting, JobPhase::Running] {
        let mut job = reach(phase);
        assert_eq!(job.step(JobEvent::Cancelled), Some(JobAction::Stop));
        assert_eq!(job.phase(), JobPhase::Ended);
        assert_eq!(job.step(JobEvent::Woke), None);
        assert_eq!(job.step(JobEvent::Executed), None);
        assert_eq!(job.step(JobEvent::Cancelled), None);
    }
}

#[test]
fn the_schedule_names_the_next_second() {
    let job = JobLoop::new("* * * * * *").unwrap();
    let real = chrono::Utc::now().timestamp();
    match job.consult_schedule() {
        JobEvent::Scheduled { now, next: Some(next) } => {
            assert!((now.secs - real).abs() <= 2, "the clock is the machine's");
            assert!(now.nanos < 1_000_000_000);
            assert_eq!(next.nanos, 0);
            assert!(next.secs > now.secs || (next.secs == now.secs && next.nanos > now.nanos));
            assert!(next.secs - now.secs <= 2);
            let delay = delay_until(now, next);
            assert!(delay.secs <= 1);
        }
        other => panic!("unexpected {:?}", other),
    }
}

#[test]
fn a_yearly_schedule_is_far_off_but_there() {
    let job = JobLoop::new("0 0 0 1 1 *").unwrap();
    match job.consult_schedule() {
        JobEvent::Scheduled { now, next: Some(next) } => {
            let delay = delay_until(now, next);
            assert!(delay.secs <= 367 * 86_400);
            assert!(delay.nanos < 1_000_000_000);
        }
        other => panic!("unexpected {:?}", other),
    }
}
