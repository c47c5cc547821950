//! The cycle of one task: compute the next occurrence, wait for it, run the
//! command, and begin again, until the schedule has nothing more to offer.

use vstd::prelude::*;

use crate::schedule::{
    cron_rejection, current_time, delay_until, next_occurrence, parse_schedule, wait_between,
    Delay, Instant,
};

verus! {

/// Where a job loop stands.
#[derive(Clone, Copy, Debug, PartialEq, Eq, Structural)]
pub enum JobPhase {
    /// About to ask the schedule for its next occurrence.
    Computing,
    /// Asleep until the next occurrence.
    Waiting,
    /// The command runs.
    Running,
    /// The schedule is exhausted. The loop is over, and that is no error.
    Ended,
}

/// What the caller reports to a job loop.
#[derive(Clone, Copy, Debug, PartialEq, Eq, Structural)]
pub enum JobEvent {
    /// The schedule was asked at `now` and named `next`, or nothing.
    Scheduled { now: Instant, next: Option<Instant> },
    /// The wait is over.
    Woke,
    /// The command has run, however it ended.
    Executed,
    /// The scheduler has cancelled the loop.
    Cancelled,
}

/// The one thing the caller is to do next.
#[derive(Clone, Copy, Debug, PartialEq, Eq, Structural)]
pub enum JobAction {
    /// Ask the schedule for its next occurrence.
    Compute,
    /// Sleep for this long.
    Sleep(Delay),
    /// Run the command, and report back when it is over.
    Execute,
    /// Leave the loop.
    Stop,
}

/// The job loop's rules: the phase and the action that follow `event` in
/// `phase`, or `None` where `event` answers nothing that `phase` asked for.
///
/// The next occurrence is asked for only after the last run is over, so no
/// task has two runs in flight, and an occurrence that passes while the
/// command runs is skipped. A cancelled loop ends where it stands; a command
/// that it has running is not its to kill.
pub open spec fn job_step(phase: JobPhase, event: JobEvent) -> Option<(JobPhase, JobAction)> {
    match (phase, event) {
        (JobPhase::Ended, _) => None,
        (_, JobEvent::Cancelled) => Some((JobPhase::Ended, JobAction::Stop)),
        (JobPhase::Computing, JobEvent::Scheduled { now, next: Some(next) }) => Some(
            (JobPhase::Waiting, JobAction::Sleep(wait_between(now, next))),
        ),
        (JobPhase::Computing, JobEvent::Scheduled { now, next: None }) => Some(
            (JobPhase::Ended, JobAction::Stop),
        ),
        (JobPhase::Waiting, JobEvent::Woke) => Some((JobPhase::Running, JobAction::Execute)),
        (JobPhase::Running, JobEvent::Executed) => Some((JobPhase::Computing, JobAction::Compute)),
        _ => None,
    }
}

/// What a job loop answers to `events`, handed to it one after another in
/// `phase`: the phase it ends in and its actions in order. An event that it
/// does not take leaves no trace.
pub open spec fn job_run(phase: JobPhase, events: Seq<JobEvent>) -> (JobPhase, Seq<JobAction>)
    decreases events.len(),
{
    if events.len() == 0 {
        (phase, Seq::empty())
    } else {
        match job_step(phase, events[0]) {
            Some((next, action)) => {
                let rest = job_run(next, events.drop_first());
                (rest.0, seq![action] + rest.1)
            },
            None => job_run(phase, events.drop_first()),
        }
    }
}

/// One task's loop.
pub struct JobLoop {
    schedule: cron::Schedule,
    phase: JobPhase,
}

impl JobLoop {
    /// The phase the loop is in.
    pub closed spec fn spec_phase(&self) -> JobPhase {
        self.phase
    }

    /// Begins the loop of a task with this cron expression.
    ///
    /// Fails, with the parser's own words, exactly where the expression is
    /// none that the `cron` crate accepts.
    pub fn new(cron_schedule: &str) -> (made: Result<JobLoop, String>)
        ensures
            match made {
                Ok(job) => cron_rejection(cron_schedule@) is None && job.spec_phase()
                    == JobPhase::Computing,
                Err(reason) => cron_rejection(cron_schedule@) == Some(reason@),
            },
    {
        match parse_schedule(cron_schedule) {
            Ok(schedule) => Ok(JobLoop { schedule, phase: JobPhase::Computing }),
            Err(reason) => Err(reason),
        }
    }

    /// The phase the loop is in.
    #[verifier::when_used_as_spec(spec_phase)]
    pub fn phase(&self) -> (phase: JobPhase)
        ensures
            phase == self.spec_phase(),
    {
        self.phase
    }

    /// Reads the clock and asks the schedule for its next occurrence in the
    /// machine's local time. The answer is for `step`.
    pub fn consult_schedule(&self) -> (event: JobEvent)
        ensures
            event is Scheduled,
    {
        let now = current_time();
        let next = next_occurrence(&self.schedule);
        JobEvent::Scheduled { now, next }
    }

    /// Takes in what happened and says what to do next.
    ///
    /// An event that answers nothing the loop asked for changes nothing and
    /// is answered with `None`.
    pub fn step(&mut self, event: JobEvent) -> (action: Option<JobAction>)
        ensures
            match job_step(old(self).spec_phase(), event) {
                Some((next, act)) => final(self).spec_phase() == next && action == Some(act),
                None => final(self).spec_phase() == old(self).spec_phase() && action is None,
            },
    {
        if let JobPhase::Ended = self.phase {
            return None;
        }
        if let JobEvent::Cancelled = event {
            self.phase = JobPhase::Ended;
            return Some(JobAction::Stop);
        }
        match self.phase {
            JobPhase::Computing => match event {
                JobEvent::Scheduled { now, next: Some(next) } => {
                    self.phase = JobPhase::Waiting;
                    Some(JobAction::Sleep(delay_until(now, next)))
                },
                JobEvent::Scheduled { now, next: None } => {
                    self.phase = JobPhase::Ended;
                    Some(JobAction::Stop)
                },
                _ => None,
            },
            JobPhase::Waiting => match event {
                JobEvent::Woke => {
                    self.phase = JobPhase::Running;
                    Some(JobAction::Execute)
                },
                _ => None,
            },
            JobPhase::Running => match event {
                JobEvent::Executed => {
                    self.phase = JobPhase::Computing;
                    Some(JobAction::Compute)
                },
                _ => None,
            },
            JobPhase::Ended => None,
        }
    }
}

/// How many times `actions` ask for the command to be run.
pub open spec fn executions(actions: Seq<JobAction>) -> nat
    decreases actions.len(),
{
    if actions.len() == 0 {
        0
    } else {
        (if actions[0] is Execute {
            1nat
        } else {
            0nat
        }) + executions(actions.drop_first())
    }
}

/// Whether the schedule named no occurrence in any of `events`.
pub open spec fn schedule_is_silent(events: Seq<JobEvent>) -> bool {
    forall|i: int|
        0 <= i < events.len() ==> !(#[trigger] events[i] matches JobEvent::Scheduled {
            next: Some(_),
            ..
        })
}

proof fn lemma_executions_prepend(action: JobAction, rest: Seq<JobAction>)
    ensures
        executions(seq![action] + rest) == (if action is Execute {
            1nat
        } else {
            0nat
        }) + executions(rest),
{
    let all = seq![action] + rest;
    assert(all[0] == action);
    assert(all.drop_first() == rest);
}

proof fn lemma_silent_run(phase: JobPhase, events: Seq<JobEvent>)
    requires
        schedule_is_silent(events),
        phase == JobPhase::Computing || phase == JobPhase::Ended,
    ensures
        executions(job_run(phase, events).1) == 0,
        job_run(phase, events).0 == JobPhase::Computing || job_run(phase, events).0
            == JobPhase::Ended,
    decreases events.len(),
{
    if events.len() > 0 {
        let rest = events.drop_first();
        assert forall|i: int| 0 <= i < rest.len() implies !(#[trigger] rest[i] matches JobEvent::Scheduled {
            next: Some(_),
            ..
        }) by {
            assert(rest[i] == events[i + 1]);
        }
        let first = events[0];
        match job_step(phase, first) {
            Some((next, action)) => {
                lemma_silent_run(next, rest);
                lemma_executions_prepend(action, job_run(next, rest).1);
            },
            None => {
                lemma_silent_run(phase, rest);
            },
        }
    }
}

/// A task whose schedule never names an occurrence never has its command
/// run: whatever else is reported to its loop, the loop asks for no
/// execution.
pub proof fn lemma_silent_schedule_never_executes(events: Seq<JobEvent>)
    requires
        schedule_is_silent(events),
    ensures
        executions(job_run(JobPhase::Computing, events).1) == 0,
{
    lemma_silent_run(JobPhase::Computing, events);
}

/// The first time a schedule has nothing to offer ends the loop, and a loop
/// that has ended takes no further report.
pub proof fn lemma_exhaustion_ends_loop(now: Instant, event: JobEvent)
    ensures
        job_step(JobPhase::Computing, JobEvent::Scheduled { now, next: None }) == Some(
            (JobPhase::Ended, JobAction::Stop),
        ),
        job_step(JobPhase::Ended, event) is None,
{
}

/// How many times `events` report that the command has run.
pub open spec fn completions(events: Seq<JobEvent>) -> nat
    decreases events.len(),
{
    if events.len() == 0 {
        0
    } else {
        (if events[0] is Executed {
            1nat
        } else {
            0nat
        }) + completions(events.drop_first())
    }
}

/// How many runs a loop in `phase` may ask for before one is reported over.
pub open spec fn runs_open(phase: JobPhase) -> nat {
    match phase {
        JobPhase::Computing | JobPhase::Waiting => 1,
        JobPhase::Running | JobPhase::Ended => 0,
    }
}

proof fn lemma_runs_follow_completions(phase: JobPhase, events: Seq<JobEvent>)
    ensures
        executions(job_run(phase, events).1) <= completions(events) + runs_open(phase),
        phase == JobPhase::Ended ==> executions(job_run(phase, events).1) == 0,
    decreases events.len(),
{
    if events.len() > 0 {
        let rest = events.drop_first();
        match job_step(phase, events[0]) {
            Some((next, action)) => {
                lemma_runs_follow_completions(next, rest);
                lemma_executions_prepend(action, job_run(next, rest).1);
            },
            None => {
                lemma_runs_follow_completions(phase, rest);
            },
        }
    }
}

/// No task has two runs in flight: a loop never asks for more runs than have
/// been reported over, but for the one that may still be running.
pub proof fn lemma_runs_never_overlap(events: Seq<JobEvent>)
    ensures
        executions(job_run(JobPhase::Computing, events).1) <= completions(events) + 1,
{
    lemma_runs_follow_completions(JobPhase::Computing, events);
}

/// A cancelled loop never has its command run again: whatever is reported
/// to it after the cancellation, it asks for no execution.
pub proof fn lemma_cancelled_loop_never_executes(phase: JobPhase, events: Seq<JobEvent>)
    ensures
        executions(job_run(phase, seq![JobEvent::Cancelled] + events).1) == 0,
{
    let all = seq![JobEvent::Cancelled] + events;
    assert(all[0] == JobEvent::Cancelled);
    assert(all.drop_first() == events);
    lemma_runs_follow_completions(JobPhase::Ended, events);
    if phase != JobPhase::Ended {
        lemma_executions_prepend(JobAction::Stop, job_run(JobPhase::Ended, events).1);
    }
}

} // verus!
