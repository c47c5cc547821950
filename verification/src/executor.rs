//! Running one command: the executor.
//!
//! An [`Execution`] follows one run of one command from the request to spawn
//! it to its classified outcome. It starts no process itself. Each
//! [`ExecAction`] names the one thing to do next, and the [`ExecEvent`] that
//! reports how it went moves the execution on.

use std::collections::HashMap;
use vstd::prelude::*;
use vstd::string::StringExecFns;

use crate::config::Task;
use crate::scheduler::TaskScheduler;
use crate::text::{decode_lossy, lossy_text, texts, trim, trimmed};

verus! {

/// How a process ended.
#[derive(Debug)]
pub struct ExitStatus {
    /// The exit code, or `None` where the process was ended by a signal.
    pub code: Option<i32>,
    /// The status as the platform words it.
    pub description: String,
}

/// An exit status, with its text as characters.
pub struct ExitStatusView {
    pub code: Option<i32>,
    pub description: Seq<char>,
}

impl ExitStatusView {
    /// A process succeeded exactly if it exited by itself with code zero.
    pub open spec fn success(self) -> bool {
        self.code == Some(0i32)
    }
}

impl View for ExitStatus {
    type V = ExitStatusView;

    open spec fn view(&self) -> ExitStatusView {
        ExitStatusView { code: self.code, description: self.description@ }
    }
}

impl ExitStatus {
    /// Whether the process succeeded.
    pub fn success(&self) -> (ok: bool)
        ensures
            ok == self@.success(),
    {
        match self.code {
            Some(code) => code == 0,
            None => false,
        }
    }
}

/// The outcome of one run of a command.
#[derive(Debug)]
pub enum ExecutionResult {
    /// The process ran and ended by itself.
    Completed { exit_status: ExitStatus, stdout: String, stderr: String },
    /// The process outlived its deadline.
    TimedOut,
    /// No process came of the command, or its end could not be collected.
    SpawnFailed { error: String },
}

/// An outcome, with its texts as characters.
pub enum ExecutionResultView {
    Completed { exit_status: ExitStatusView, stdout: Seq<char>, stderr: Seq<char> },
    TimedOut,
    SpawnFailed { error: Seq<char> },
}

impl ExecutionResultView {
    /// The process ran to its end and reported a failure.
    pub open spec fn failed(self) -> bool {
        self matches ExecutionResultView::Completed { exit_status, .. } && !exit_status.success()
    }
}

impl View for ExecutionResult {
    type V = ExecutionResultView;

    open spec fn view(&self) -> ExecutionResultView {
        match self {
            ExecutionResult::Completed { exit_status, stdout, stderr } => {
                ExecutionResultView::Completed {
                    exit_status: exit_status@,
                    stdout: stdout@,
                    stderr: stderr@,
                }
            },
            ExecutionResult::TimedOut => ExecutionResultView::TimedOut,
            ExecutionResult::SpawnFailed { error } => ExecutionResultView::SpawnFailed {
                error: error@,
            },
        }
    }
}

/// The view of an optional text.
pub open spec fn optional_text(text: Option<&str>) -> Option<Seq<char>> {
    match text {
        Some(t) => Some(t@),
        None => None,
    }
}

/// What to start: the program, its arguments, and what it inherits changed.
#[derive(Debug)]
pub struct Invocation<'a> {
    /// The program's name or path.
    pub command: &'a str,
    /// The arguments, in order.
    pub args: &'a [String],
    /// The child's working directory, where it is not the caller's own.
    pub cwd: Option<&'a str>,
    /// Variables added to the inherited environment; a key given here
    /// replaces an inherited one of the same name.
    pub env: Option<&'a HashMap<String, String>>,
}

/// An invocation, with its texts as characters.
pub struct InvocationView {
    pub command: Seq<char>,
    pub args: Seq<Seq<char>>,
    pub cwd: Option<Seq<char>>,
    pub env: Option<Map<String, String>>,
}

impl<'a> View for Invocation<'a> {
    type V = InvocationView;

    open spec fn view(&self) -> InvocationView {
        InvocationView {
            command: self.command@,
            args: texts(self.args@),
            cwd: optional_text(self.cwd),
            env: match self.env {
                Some(env) => Some(env@),
                None => None,
            },
        }
    }
}

/// One notification of a failed run, ready to be posted.
#[derive(Debug)]
pub struct Alert<'a> {
    /// Where to post it.
    pub webhook_url: &'a str,
    /// The task that failed.
    pub task_name: &'a str,
    /// The text of the notification, which is the whole body of the request.
    pub text: String,
}

/// A notification, with its texts as characters.
pub struct AlertView {
    pub webhook_url: Seq<char>,
    pub task_name: Seq<char>,
    pub text: Seq<char>,
}

impl<'a> View for Alert<'a> {
    type V = AlertView;

    open spec fn view(&self) -> AlertView {
        AlertView { webhook_url: self.webhook_url@, task_name: self.task_name@, text: self.text@ }
    }
}

/// What the caller reports back after carrying out an [`ExecAction`].
#[derive(Debug)]
pub enum ExecEvent {
    /// No process could be started.
    SpawnFailed { error: String },
    /// The process runs, under this identifier where the platform gave one.
    Spawned { pid: Option<u32> },
    /// The process ended by itself; the streams are what it wrote.
    Exited { status: ExitStatus, stdout: Vec<u8>, stderr: Vec<u8> },
    /// Waiting for the process failed.
    WaitFailed { error: String },
    /// The deadline passed and the process still runs.
    DeadlineElapsed,
    /// The kill was attempted; `success` says whether it took.
    KillAttempted { success: bool },
    /// The notification was attempted; `delivered` says whether it arrived.
    AlertAttempted { delivered: bool },
}

/// An event, with its texts as characters and its streams as bytes.
pub enum ExecEventView {
    SpawnFailed { error: Seq<char> },
    Spawned { pid: Option<u32> },
    Exited { status: ExitStatusView, stdout: Seq<u8>, stderr: Seq<u8> },
    WaitFailed { error: Seq<char> },
    DeadlineElapsed,
    KillAttempted { success: bool },
    AlertAttempted { delivered: bool },
}

impl View for ExecEvent {
    type V = ExecEventView;

    open spec fn view(&self) -> ExecEventView {
        match self {
            ExecEvent::SpawnFailed { error } => ExecEventView::SpawnFailed { error: error@ },
            ExecEvent::Spawned { pid } => ExecEventView::Spawned { pid: *pid },
            ExecEvent::Exited { status, stdout, stderr } => ExecEventView::Exited {
                status: status@,
                stdout: stdout@,
                stderr: stderr@,
            },
            ExecEvent::WaitFailed { error } => ExecEventView::WaitFailed { error: error@ },
            ExecEvent::DeadlineElapsed => ExecEventView::DeadlineElapsed,
            ExecEvent::KillAttempted { success } => ExecEventView::KillAttempted {
                success: *success,
            },
            ExecEvent::AlertAttempted { delivered } => ExecEventView::AlertAttempted {
                delivered: *delivered,
            },
        }
    }
}

/// The one thing the caller is to do next.
#[derive(Debug)]
pub enum ExecAction<'a> {
    /// Start the process.
    Spawn(Invocation<'a>),
    /// Wait for the process to end, for at most `timeout` seconds where one
    /// is given. Zero seconds is a deadline that has already passed, not the
    /// absence of one.
    Wait { timeout: Option<u64> },
    /// Kill the process by force.
    Kill { pid: u32 },
    /// Post the notification; the run's outcome does not depend on its fate.
    Notify(Alert<'a>),
    /// The run is over, with this outcome.
    Finish(ExecutionResult),
}

/// An action, with its texts as characters.
pub enum ExecActionView {
    Spawn(InvocationView),
    Wait { timeout: Option<u64> },
    Kill { pid: u32 },
    Notify(AlertView),
    Finish(ExecutionResultView),
}

impl<'a> View for ExecAction<'a> {
    type V = ExecActionView;

    open spec fn view(&self) -> ExecActionView {
        match self {
            ExecAction::Spawn(invocation) => ExecActionView::Spawn(invocation@),
            ExecAction::Wait { timeout } => ExecActionView::Wait { timeout: *timeout },
            ExecAction::Kill { pid } => ExecActionView::Kill { pid: *pid },
            ExecAction::Notify(alert) => ExecActionView::Notify(alert@),
            ExecAction::Finish(result) => ExecActionView::Finish(result@),
        }
    }
}

/// Where a run stands.
#[derive(Debug)]
pub enum Phase {
    /// The process has been asked for.
    Spawning,
    /// The process runs.
    Awaiting { pid: Option<u32> },
    /// The deadline passed and the kill has been asked for.
    Killing,
    /// The process failed and the notification has been asked for.
    Alerting { result: ExecutionResult },
    /// The outcome has been handed out.
    Finished,
}

/// A phase, with its texts as characters.
pub enum PhaseView {
    Spawning,
    Awaiting { pid: Option<u32> },
    Killing,
    Alerting { result: ExecutionResultView },
    Finished,
}

impl View for Phase {
    type V = PhaseView;

    open spec fn view(&self) -> PhaseView {
        match self {
            Phase::Spawning => PhaseView::Spawning,
            Phase::Awaiting { pid } => PhaseView::Awaiting { pid: *pid },
            Phase::Killing => PhaseView::Killing,
            Phase::Alerting { result } => PhaseView::Alerting { result: result@ },
            Phase::Finished => PhaseView::Finished,
        }
    }
}

/// One run of one command, from the request to spawn it to its outcome.
#[derive(Debug)]
pub struct Execution<'a> {
    name: &'a str,
    webhook_url: Option<&'a str>,
    timeout: Option<u64>,
    phase: Phase,
}

/// What an execution holds: the task it runs for and where the run stands.
pub struct ExecutionView {
    /// The task's name.
    pub name: Seq<char>,
    /// Where failures are reported, if anywhere.
    pub webhook_url: Option<Seq<char>>,
    /// The deadline in seconds, if there is one.
    pub timeout: Option<u64>,
    pub phase: PhaseView,
}

impl<'a> View for Execution<'a> {
    type V = ExecutionView;

    closed spec fn view(&self) -> ExecutionView {
        ExecutionView {
            name: self.name@,
            webhook_url: optional_text(self.webhook_url),
            timeout: self.timeout,
            phase: self.phase@,
        }
    }
}

/// What a failed run reports of itself: its exit status and what it wrote to
/// standard error, without the whitespace around it.
pub open spec fn failure_message(status: ExitStatusView, stderr: Seq<char>) -> Seq<char> {
    "Command exited with status: "@ + status.description + "\nStderr: "@ + trimmed(stderr)
}

/// The text of the notification for `task_name` with the report `message`.
pub open spec fn alert_text(task_name: Seq<char>, message: Seq<char>) -> Seq<char> {
    "**Chronsync Task Failed** \n\n**Task:** `"@ + task_name + "`\n**Error** "@ + message
}

/// The outcome of a process that ended by itself with these streams.
pub open spec fn completion(status: ExitStatusView, stdout: Seq<u8>, stderr: Seq<u8>)
    -> ExecutionResultView {
    ExecutionResultView::Completed {
        exit_status: status,
        stdout: lossy_text(stdout),
        stderr: lossy_text(stderr),
    }
}

/// The executor's rules: the state and the action that follow `event` in
/// state `s`, or `None` where `event` answers nothing that `s` asked for.
///
/// Only a process that ran to its end and failed is reported to the webhook.
/// A process that could not be started, or that was killed at its deadline,
/// is not.
pub open spec fn step_model(s: ExecutionView, event: ExecEventView) -> Option<
    (ExecutionView, ExecActionView),
> {
    match (s.phase, event) {
        (PhaseView::Spawning, ExecEventView::SpawnFailed { error }) => Some(
            (
                ExecutionView { phase: PhaseView::Finished, ..s },
                ExecActionView::Finish(ExecutionResultView::SpawnFailed { error }),
            ),
        ),
        (PhaseView::Spawning, ExecEventView::Spawned { pid }) => Some(
            (
                ExecutionView { phase: PhaseView::Awaiting { pid }, ..s },
                ExecActionView::Wait { timeout: s.timeout },
            ),
        ),
        (PhaseView::Awaiting { pid }, ExecEventView::Exited { status, stdout, stderr }) => {
            let result = completion(status, stdout, stderr);
            if !status.success() && s.webhook_url is Some {
                Some(
                    (
                        ExecutionView { phase: PhaseView::Alerting { result }, ..s },
                        ExecActionView::Notify(
                            AlertView {
                                webhook_url: s.webhook_url->0,
                                task_name: s.name,
                                text: alert_text(
                                    s.name,
                                    failure_message(status, lossy_text(stderr)),
                                ),
                            },
                        ),
                    ),
                )
            } else {
                Some(
                    (
                        ExecutionView { phase: PhaseView::Finished, ..s },
                        ExecActionView::Finish(result),
                    ),
                )
            }
        },
        (PhaseView::Awaiting { pid }, ExecEventView::WaitFailed { error }) => Some(
            (
                ExecutionView { phase: PhaseView::Finished, ..s },
                ExecActionView::Finish(ExecutionResultView::SpawnFailed { error }),
            ),
        ),
        (PhaseView::Awaiting { pid }, ExecEventView::DeadlineElapsed) => {
            if s.timeout is None {
                None
            } else {
                match pid {
                    Some(pid) => Some(
                        (
                            ExecutionView { phase: PhaseView::Killing, ..s },
                            ExecActionView::Kill { pid },
                        ),
                    ),
                    None => Some(
                        (
                            ExecutionView { phase: PhaseView::Finished, ..s },
                            ExecActionView::Finish(ExecutionResultView::TimedOut),
                        ),
                    ),
                }
            }
        },
        (PhaseView::Killing, ExecEventView::KillAttempted { success }) => Some(
            (
                ExecutionView { phase: PhaseView::Finished, ..s },
                ExecActionView::Finish(ExecutionResultView::TimedOut),
            ),
        ),
        (PhaseView::Alerting { result }, ExecEventView::AlertAttempted { delivered }) => Some(
            (ExecutionView { phase: PhaseView::Finished, ..s }, ExecActionView::Finish(result)),
        ),
        _ => None,
    }
}

/// The state in which a run begins.
pub open spec fn initial_execution(
    name: Seq<char>,
    timeout: Option<u64>,
    webhook_url: Option<Seq<char>>,
) -> ExecutionView {
    ExecutionView { name, webhook_url, timeout, phase: PhaseView::Spawning }
}

/// Composes the notification for a failed run of `task_name`.
pub fn compose_alert<'a>(webhook_url: &'a str, task_name: &'a str, message: &str) -> (alert:
    Alert<'a>)
    ensures
        alert@ == (AlertView {
            webhook_url: webhook_url@,
            task_name: task_name@,
            text: alert_text(task_name@, message@),
        }),
{
    let mut text = String::from_str("**Chronsync Task Failed** \n\n**Task:** `");
    text.append(task_name);
    text.append("`\n**Error** ");
    text.append(message);
    Alert { webhook_url, task_name, text }
}

/// Words the report of a failed run.
pub fn describe_failure(status: &ExitStatus, stderr: &str) -> (message: String)
    ensures
        message@ == failure_message(status@, stderr@),
{
    let mut message = String::from_str("Command exited with status: ");
    message.append(status.description.as_str());
    message.append("\nStderr: ");
    message.append(trim(stderr));
    message
}

impl TaskScheduler {
    /// Begins one run of a command.
    ///
    /// The run starts in the phase in which the process is asked for, and the
    /// first thing to do is to spawn it: `command` with `args`, in `cwd` where
    /// one is given, and with `env` added to the environment it inherits. A
    /// run belongs to no scheduler, so a task can be run by hand without one.
    pub fn execute_command<'a>(
        name: &'a str,
        command: &'a str,
        args: &'a [String],
        timeout: Option<u64>,
        webhook_url: Option<&'a str>,
        cwd: Option<&'a str>,
        env: Option<&'a HashMap<String, String>>,
    ) -> (begun: (Execution<'a>, ExecAction<'a>))
        ensures
            begun.0@ == initial_execution(name@, timeout, optional_text(webhook_url)),
            begun.1 == ExecAction::Spawn(Invocation { command, args, cwd, env }),
    {
        (
            Execution { name, webhook_url, timeout, phase: Phase::Spawning },
            ExecAction::Spawn(Invocation { command, args, cwd, env }),
        )
    }
}

/// The arguments of `task`: those it names, or none.
pub open spec fn task_args(task: &Task) -> Seq<String> {
    match task.args {
        Some(args) => args@,
        None => Seq::empty(),
    }
}

/// The view of an optional owned text.
pub open spec fn optional_string(text: Option<String>) -> Option<Seq<char>> {
    match text {
        Some(t) => Some(t@),
        None => None,
    }
}

impl Task {
    /// Begins one run of the command of a task, with the task's own name,
    /// arguments, deadline, webhook, directory and environment.
    pub fn execute<'a>(&'a self) -> (begun: (Execution<'a>, ExecAction<'a>))
        ensures
            begun.0@ == initial_execution(
                self.name@,
                self.timeout,
                optional_string(self.webhook_url),
            ),
            begun.1@ == ExecActionView::Spawn(
                InvocationView {
                    command: self.command@,
                    args: texts(task_args(self)),
                    cwd: optional_string(self.cwd),
                    env: match self.env {
                        Some(env) => Some(env@),
                        None => None,
                    },
                },
            ),
    {
        let no_args: &'a [String] = &[];
        let args: &'a [String] = match &self.args {
            Some(args) => args.as_slice(),
            None => no_args,
        };
        let webhook_url: Option<&'a str> = match &self.webhook_url {
            Some(url) => Some(url.as_str()),
            None => None,
        };
        let cwd: Option<&'a str> = match &self.cwd {
            Some(dir) => Some(dir.as_str()),
            None => None,
        };
        let env: Option<&'a HashMap<String, String>> = match &self.env {
            Some(env) => Some(env),
            None => None,
        };
        assert(args@ == task_args(self));
        assert(optional_text(cwd) == optional_string(self.cwd));
        assert(optional_text(webhook_url) == optional_string(self.webhook_url));
        TaskScheduler::execute_command(
            self.name.as_str(),
            self.command.as_str(),
            args,
            self.timeout,
            webhook_url,
            cwd,
            env,
        )
    }
}

impl<'a> Execution<'a> {
    /// Takes in what happened and says what to do next.
    ///
    /// An event that answers nothing this run asked for changes nothing and
    /// is answered with `None`.
    pub fn step(&mut self, event: ExecEvent) -> (action: Option<ExecAction<'a>>)
        ensures
            match step_model(old(self)@, event@) {
                Some((next, act)) => {
                    &&& final(self)@ == next
                    &&& action matches Some(a)
                    &&& a@ == act
                },
                None => final(self)@ == old(self)@ && action is None,
            },
    {
        let mut phase = Phase::Finished;
        core::mem::swap(&mut self.phase, &mut phase);
        match (phase, event) {
            (Phase::Spawning, ExecEvent::SpawnFailed { error }) => {
                Some(ExecAction::Finish(ExecutionResult::SpawnFailed { error }))
            },
            (Phase::Spawning, ExecEvent::Spawned { pid }) => {
                self.phase = Phase::Awaiting { pid };
                Some(ExecAction::Wait { timeout: self.timeout })
            },
            (Phase::Awaiting { pid }, ExecEvent::Exited { status, stdout, stderr }) => {
                let out = decode_lossy(&stdout);
                let err = decode_lossy(&stderr);
                let report_to = if status.success() {
                    None
                } else {
                    self.webhook_url
                };
                match report_to {
                    Some(url) => {
                        let message = describe_failure(&status, err.as_str());
                        let alert = compose_alert(url, self.name, message.as_str());
                        self.phase = Phase::Alerting {
                            result: ExecutionResult::Completed {
                                exit_status: status,
                                stdout: out,
                                stderr: err,
                            },
                        };
                        Some(ExecAction::Notify(alert))
                    },
                    None => Some(
                        ExecAction::Finish(
                            ExecutionResult::Completed {
                                exit_status: status,
                                stdout: out,
                                stderr: err,
                            },
                        ),
                    ),
                }
            },
            (Phase::Awaiting { pid }, ExecEvent::WaitFailed { error }) => {
                Some(ExecAction::Finish(ExecutionResult::SpawnFailed { error }))
            },
            (Phase::Awaiting { pid }, ExecEvent::DeadlineElapsed) => {
                if self.timeout.is_none() {
                    self.phase = Phase::Awaiting { pid };
                    None
                } else {
                    match pid {
                        Some(pid) => {
                            self.phase = Phase::Killing;
                            Some(ExecAction::Kill { pid })
                        },
                        None => Some(ExecAction::Finish(ExecutionResult::TimedOut)),
                    }
                }
            },
            (Phase::Killing, ExecEvent::KillAttempted { success }) => {
                Some(ExecAction::Finish(ExecutionResult::TimedOut))
            },
            (Phase::Alerting { result }, ExecEvent::AlertAttempted { delivered }) => {
                Some(ExecAction::Finish(result))
            },
            (phase, _) => {
                self.phase = phase;
                None
            },
        }
    }
}

/// Whether the webhook took a notification: it did if its answer has a
/// status from 200 to 299. An answer with another status, and no answer at
/// all, are failures; either is only ever logged.
pub fn alert_delivered(response: &Result<u16, String>) -> (delivered: bool)
    ensures
        delivered == (response matches Ok(status) && 200 <= *status < 300),
{
    match response {
        Ok(status) => 200 <= *status && *status < 300,
        Err(_) => false,
    }
}

/// What the executor answers to `events`, handed to it one after another from
/// state `s`: the state it ends in and its actions in order. An event that it
/// does not take leaves no trace.
pub open spec fn run_model(s: ExecutionView, events: Seq<ExecEventView>) -> (
    ExecutionView,
    Seq<ExecActionView>,
)
    decreases events.len(),
{
    if events.len() == 0 {
        (s, Seq::empty())
    } else {
        match step_model(s, events[0]) {
            Some((next, action)) => {
                let rest = run_model(next, events.drop_first());
                (rest.0, seq![action] + rest.1)
            },
            None => run_model(s, events.drop_first()),
        }
    }
}

/// How many notifications `actions` ask for.
pub open spec fn notifications(actions: Seq<ExecActionView>) -> nat
    decreases actions.len(),
{
    if actions.len() == 0 {
        0
    } else {
        (if actions[0] is Notify {
            1nat
        } else {
            0nat
        }) + notifications(actions.drop_first())
    }
}

/// The outcome that `actions` hand out: that of their first `Finish`.
pub open spec fn outcome(actions: Seq<ExecActionView>) -> Option<ExecutionResultView>
    decreases actions.len(),
{
    if actions.len() == 0 {
        None
    } else {
        match actions[0] {
            ExecActionView::Finish(result) => Some(result),
            _ => outcome(actions.drop_first()),
        }
    }
}

/// What holds of the actions of a run that starts in phase `phase`.
pub open spec fn run_accounts(s: ExecutionView, actions: Seq<ExecActionView>) -> bool {
    let sent = notifications(actions);
    match s.phase {
        PhaseView::Spawning | PhaseView::Awaiting { .. } => {
            &&& sent <= 1
            &&& sent == 1 ==> s.webhook_url is Some
            &&& outcome(actions) matches Some(result) ==> (sent == 1 <==> result.failed()
                && s.webhook_url is Some)
        },
        PhaseView::Killing => {
            &&& sent == 0
            &&& outcome(actions) matches Some(result) ==> result == ExecutionResultView::TimedOut
        },
        PhaseView::Alerting { result: pending } => {
            &&& sent == 0
            &&& outcome(actions) matches Some(result) ==> result == pending
        },
        PhaseView::Finished => actions.len() == 0,
    }
}

proof fn lemma_prepend(action: ExecActionView, rest: Seq<ExecActionView>)
    ensures
        notifications(seq![action] + rest) == (if action is Notify {
            1nat
        } else {
            0nat
        }) + notifications(rest),
        outcome(seq![action] + rest) == (match action {
            ExecActionView::Finish(result) => Some(result),
            _ => outcome(rest),
        }),
{
    let all = seq![action] + rest;
    assert(all[0] == action);
    assert(all.drop_first() == rest);
}

/// Whatever is reported to an execution, in whatever order, the actions it
/// answers with account for its notifications as `run_accounts` says.
pub proof fn lemma_run_accounts(s: ExecutionView, events: Seq<ExecEventView>)
    ensures
        run_accounts(s, run_model(s, events).1),
    decreases events.len(),
{
    if events.len() > 0 {
        let rest = events.drop_first();
        match step_model(s, events[0]) {
            Some((next, action)) => {
                lemma_run_accounts(next, rest);
                lemma_prepend(action, run_model(next, rest).1);
            },
            None => {
                lemma_run_accounts(s, rest);
            },
        }
    }
}

/// A run that fails with a webhook configured asks for exactly one
/// notification; every other run asks for none.
///
/// For every task, every deadline and every sequence of reports: the run asks
/// for at most one notification; it asks for none where no webhook is
/// configured; and once it has handed out its outcome, it has asked for one
/// exactly if that outcome is a process that ran to its end and failed, and a
/// webhook is configured. A process that timed out or could not be started is
/// never reported.
pub proof fn lemma_one_alert_per_failure(
    name: Seq<char>,
    timeout: Option<u64>,
    webhook_url: Option<Seq<char>>,
    events: Seq<ExecEventView>,
)
    ensures
        ({
            let actions = run_model(initial_execution(name, timeout, webhook_url), events).1;
            let sent = notifications(actions);
            &&& sent <= 1
            &&& webhook_url is None ==> sent == 0
            &&& outcome(actions) matches Some(result) ==> (sent == 1 <==> result.failed()
                && webhook_url is Some)
        }),
{
    lemma_run_accounts(initial_execution(name, timeout, webhook_url), events);
}

/// Every notification that a run asks for goes to the task's webhook, names
/// the task, and carries the exit status and the trimmed standard error of
/// the process that failed.
pub proof fn lemma_alert_names_task(s: ExecutionView, event: ExecEventView)
    ensures
        step_model(s, event) matches Some((_, ExecActionView::Notify(alert))) ==> {
            &&& event matches ExecEventView::Exited { status, stdout, stderr }
            &&& !status.success()
            &&& s.webhook_url == Some(alert.webhook_url)
            &&& alert.task_name == s.name
            &&& alert.text == alert_text(s.name, failure_message(status, lossy_text(stderr)))
        },
{
}

/// A process that outlives its deadline is killed and the run ends as timed
/// out, whether or not the kill took.
pub proof fn lemma_deadline_ends_run(s: ExecutionView, pid: u32, success: bool)
    requires
        s.phase == (PhaseView::Awaiting { pid: Some(pid) }),
        s.timeout is Some,
    ensures
        run_model(
            s,
            seq![ExecEventView::DeadlineElapsed, ExecEventView::KillAttempted { success }],
        ) == (
            ExecutionView { phase: PhaseView::Finished, ..s },
            seq![
                ExecActionView::Kill { pid },
                ExecActionView::Finish(ExecutionResultView::TimedOut),
            ],
        ),
{
    let events = seq![ExecEventView::DeadlineElapsed, ExecEventView::KillAttempted { success }];
    let killing = ExecutionView { phase: PhaseView::Killing, ..s };
    let finished = ExecutionView { phase: PhaseView::Finished, ..s };
    let tail = events.drop_first();
    assert(tail == seq![ExecEventView::KillAttempted { success }]);
    assert(tail.drop_first() == Seq::<ExecEventView>::empty());
    assert(run_model(finished, tail.drop_first()) == (finished, Seq::<ExecActionView>::empty()));
    assert(step_model(killing, tail[0]) == Some(
        (finished, ExecActionView::Finish(ExecutionResultView::TimedOut)),
    ));
    assert(run_model(killing, tail).1 == seq![
        ExecActionView::Finish(ExecutionResultView::TimedOut),
    ]);
    assert(step_model(s, events[0]) == Some((killing, ExecActionView::Kill { pid })));
    assert(run_model(s, events).1 == seq![
        ExecActionView::Kill { pid },
        ExecActionView::Finish(ExecutionResultView::TimedOut),
    ]);
}

/// Once a run has handed out its outcome it takes no further report.
pub proof fn lemma_finished_is_final(s: ExecutionView, event: ExecEventView)
    requires
        s.phase == PhaseView::Finished,
    ensures
        step_model(s, event) is None,
{
}

} // verus!
