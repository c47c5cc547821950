//! What the commands of the program decide.
//!
//! Each command reads files, the terminal or the environment, decides, and
//! then writes or runs something. The deciding is here, on plain values: the
//! caller reads, asks, and does what it is told.

use vstd::prelude::*;
use vstd::string::StringExecFns;

use crate::config::{
    first_defect, load_config, task_error_text, task_from, Config, RawConfig, Task,
};
use crate::executor::task_args;
use crate::scheduler::{cancellations, reload_model, SchedulerAction, TaskScheduler};
use crate::text::{
    debug_list, debug_list_text, decimal, lowercase, lowercase_text, render_decimal, same_text,
    texts, trim, trimmed,
};

verus! {

/// What came of reading a configuration file.
#[derive(Debug)]
pub enum ConfigSource {
    /// There is no file at the path.
    Missing,
    /// The file could not be read, or what it holds is no configuration;
    /// `reason` says which in words.
    Unreadable { reason: String },
    /// The file was read, and this is what it says.
    Parsed(RawConfig),
}

/// The words for a configuration file that is not there.
pub open spec fn not_found_text(path: Seq<char>) -> Seq<char> {
    "Configuration file not found at: "@ + path
}

/// The words for a configuration file that is refused, with the reason.
pub open spec fn refused_text(details: Seq<char>) -> Seq<char> {
    "Validation failed: Invalid JSON or Cron Schedule.\n  Details: "@ + details
}

/// What the check of a configuration comes to: nothing to report, or the
/// words of the refusal.
pub open spec fn check_outcome(path: Seq<char>, source: ConfigSource) -> Result<(), Seq<char>> {
    match source {
        ConfigSource::Missing => Err(not_found_text(path)),
        ConfigSource::Unreadable { reason } => Err(refused_text(reason@)),
        ConfigSource::Parsed(raw) => match first_defect(raw.tasks@) {
            Some((_, defect)) => Err(refused_text(task_error_text(defect))),
            None => Ok(()),
        },
    }
}

fn refusal(details: &str) -> (text: String)
    ensures
        text@ == refused_text(details@),
{
    let mut text = String::from_str(
        "Validation failed: Invalid JSON or Cron Schedule.\n  Details: ",
    );
    text.append(details);
    text
}

/// Loads the configuration that was read from the file at `path`.
///
/// A file that is there, can be read, and holds tasks that all name
/// themselves, their command and a schedule that is a cron expression, is
/// loaded, task for task. Anything else is refused in the words of
/// `core_check_config`.
pub fn load_source(path: &str, source: ConfigSource) -> (loaded: Result<Config, String>)
    ensures
        match loaded {
            Ok(config) => {
                &&& check_outcome(path@, source) is Ok
                &&& source matches ConfigSource::Parsed(raw)
                &&& config.valid()
                &&& config.tasks@.len() == raw.tasks@.len()
                &&& forall|i: int|
                    0 <= i < raw.tasks@.len() ==> #[trigger] config.tasks@[i] == task_from(
                        raw.tasks@[i],
                    )
            },
            Err(text) => check_outcome(path@, source) == Err::<(), Seq<char>>(text@),
        },
{
    match source {
        ConfigSource::Missing => {
            let mut text = String::from_str("Configuration file not found at: ");
            text.append(path);
            Err(text)
        },
        ConfigSource::Unreadable { reason } => Err(refusal(reason.as_str())),
        ConfigSource::Parsed(raw) => match load_config(raw) {
            Ok(config) => Ok(config),
            Err(refused) => {
                let details = refused.error.message();
                Err(refusal(details.as_str()))
            },
        },
    }
}

/// Checks the configuration that was read from the file at `path`.
///
/// The check passes exactly where the file is there, could be read, and every
/// task in it can be loaded. Where it fails, the error says why: that the
/// file is missing, or that it is refused, with the reader's reason or with
/// what is wrong with the first task that is wrong.
pub fn core_check_config(path: &str, source: &ConfigSource) -> (checked: Result<(), String>)
    ensures
        match checked {
            Ok(_) => check_outcome(path@, *source) is Ok,
            Err(text) => check_outcome(path@, *source) == Err::<(), Seq<char>>(text@),
        },
{
    match source {
        ConfigSource::Missing => {
            let mut text = String::from_str("Configuration file not found at: ");
            text.append(path);
            Err(text)
        },
        ConfigSource::Unreadable { reason } => Err(refusal(reason.as_str())),
        ConfigSource::Parsed(raw) => match raw.check() {
            Ok(_) => Ok(()),
            Err(refused) => {
                let details = refused.error.message();
                Err(refusal(details.as_str()))
            },
        },
    }
}

/// What running one task by hand comes to.
#[derive(Debug)]
pub enum ManualRun {
    /// The task stands at `at` in the configuration. Run it.
    Run { at: usize },
    /// No task has the name. `message` says so, and `available` lists the
    /// names that there are, in the order of the file.
    NotFound { message: String, available: Vec<String> },
}

/// The words for a task that is not in the configuration.
pub open spec fn task_not_found_text(name: Seq<char>) -> Seq<char> {
    "Task '"@ + name + "' not found in configuration."@
}

impl ManualRun {
    /// The status with which the program ends where nothing else fails:
    /// zero after a run, one where the task is unknown.
    pub fn exit_code(&self) -> (code: i32)
        ensures
            code == (if *self is Run {
                0i32
            } else {
                1i32
            }),
    {
        match self {
            ManualRun::Run { .. } => 0,
            ManualRun::NotFound { .. } => 1,
        }
    }
}

/// Looks up the task to run by hand.
///
/// Where several tasks share the name, the first in the file is meant. An
/// unknown name fails, and no job loop is started or touched on the way:
/// running by hand goes past the scheduler.
pub fn plan_manual_run(config: &Config, task_name: &str) -> (planned: ManualRun)
    ensures
        match planned {
            ManualRun::Run { at } => {
                &&& at < config.tasks@.len()
                &&& config.tasks@[at as int].name@ == task_name@
                &&& forall|i: int|
                    0 <= i < at ==> (#[trigger] config.tasks@[i]).name@ != task_name@
            },
            ManualRun::NotFound { message, available } => {
                &&& forall|i: int|
                    0 <= i < config.tasks@.len() ==> (#[trigger] config.tasks@[i]).name@
                        != task_name@
                &&& message@ == task_not_found_text(task_name@)
                &&& available@.len() == config.tasks@.len()
                &&& forall|i: int|
                    0 <= i < available@.len() ==> (#[trigger] available@[i])@
                        == config.tasks@[i].name@
            },
        },
{
    match config.find_task(task_name) {
        Some(at) => ManualRun::Run { at },
        None => {
            let mut message = String::from_str("Task '");
            message.append(task_name);
            message.append("' not found in configuration.");
            ManualRun::NotFound { message, available: config.task_names() }
        },
    }
}

/// The line that closes the listing of one task.
pub open spec fn listing_rule() -> Seq<char> {
    "-----------------------------"@
}

/// The first line of the listing of `count` tasks.
pub open spec fn listing_header(count: nat) -> Seq<char> {
    "\n--- chronsync Task List ("@ + decimal(count) + " Tasks) ---"@
}

/// The line that names a task and its schedule.
pub open spec fn listing_title(task: Task) -> Seq<char> {
    "- ["@ + task.name@ + "]: "@ + task.cron_schedule@ + "\n"@
}

/// The line that shows a task's command and its arguments.
pub open spec fn listing_command(task: Task) -> Seq<char> {
    "  Command: "@ + task.command@ + " "@ + debug_list_text(texts(task_args(&task)))
}

/// Whether the three lines for the task at `at` stand in their place in
/// `lines`: after the header and the lines of the tasks before it.
pub open spec fn lists_task(lines: Seq<String>, tasks: Seq<Task>, at: int) -> bool {
    &&& lines[1 + 3 * at]@ == listing_title(tasks[at])
    &&& lines[2 + 3 * at]@ == listing_command(tasks[at])
    &&& lines[3 + 3 * at]@ == listing_rule()
}

/// Lists the tasks of a configuration, line by line: a header with their
/// number, then for each task its name and schedule, its command with its
/// arguments, and a rule.
pub fn task_listing(config: &Config) -> (lines: Vec<String>)
    ensures
        lines@.len() == 1 + 3 * config.tasks@.len(),
        lines@[0]@ == listing_header(config.tasks@.len()),
        forall|at: int|
            0 <= at < config.tasks@.len() ==> #[trigger] lists_task(lines@, config.tasks@, at),
{
    let mut lines: Vec<String> = Vec::new();
    let mut header = String::from_str("\n--- chronsync Task List (");
    let count = render_decimal(config.tasks.len());
    header.append(count.as_str());
    header.append(" Tasks) ---");
    lines.push(header);
    let no_args: &[String] = &[];
    let mut index: usize = 0;
    while index < config.tasks.len()
        invariant
            index <= config.tasks@.len(),
            no_args@.len() == 0,
            lines@.len() == 1 + 3 * index,
            lines@[0]@ == listing_header(config.tasks@.len()),
            forall|at: int| 0 <= at < index ==> #[trigger] lists_task(lines@, config.tasks@, at),
        decreases config.tasks@.len() - index,
    {
        let ghost before = lines@;
        let task = &config.tasks[index];
        let mut title = String::from_str("- [");
        title.append(task.name.as_str());
        title.append("]: ");
        title.append(task.cron_schedule.as_str());
        title.append("\n");
        let args: &[String] = match &task.args {
            Some(args) => args.as_slice(),
            None => no_args,
        };
        assert(args@ =~= task_args(task));
        let written = debug_list(args);
        let mut command = String::from_str("  Command: ");
        command.append(task.command.as_str());
        command.append(" ");
        command.append(written.as_str());
        lines.push(title);
        lines.push(command);
        lines.push(String::from_str("-----------------------------"));
        proof {
            assert forall|at: int| 0 <= at < index + 1 implies #[trigger] lists_task(
                lines@,
                config.tasks@,
                at,
            ) by {
                if at < index {
                    assert(lists_task(before, config.tasks@, at));
                    assert(lines@[1 + 3 * at] == before[1 + 3 * at]);
                    assert(lines@[2 + 3 * at] == before[2 + 3 * at]);
                    assert(lines@[3 + 3 * at] == before[3 + 3 * at]);
                }
            }
        }
        index = index + 1;
    }
    lines
}

/// Whether the answer to "overwrite?" is a yes: the letter y, in either
/// case, with nothing but whitespace around it. Anything else is a no.
pub fn overwrite_confirmed(answer: &str) -> (confirmed: bool)
    ensures
        confirmed == (lowercase_text(trimmed(answer@)) == "y"@),
{
    let lowered = lowercase(trim(answer));
    same_text(lowered.as_str(), "y")
}

/// The configuration that `init` writes where there is none: two sample
/// tasks to start from.
pub const INITIAL_CONFIG: &'static str =
    "{{\n        \"tasks\": [\n        {{\n            \"name\": \"sample_ping\",\n            \"cron_schedule\": \"*/10 * * * * *\",\n            \"command\": \"/bin/sh\",\n            \"args\": [\n                \"-c\", \"/bin/echo \\\"[Sample] Check at $(date)\\\"\"\n            ]\n        }},\n        {{\n            \"name\": \"sample_cleanup\",\n            \"cron_schedule\": \"0 0 0 * * *\",\n            \"command\": \"usr/bin/find\",\n            \"args\": [\"/tmp\", \"-type\", \"f\", \"-atime\", \"+7\", \"-delete\"]\n        }}\n        ]\n    }}";

/// The text of the first configuration file.
pub fn initial_config() -> (content: &'static str)
    ensures
        content@ == INITIAL_CONFIG@,
{
    INITIAL_CONFIG
}

/// The editor to open the configuration file with: `$EDITOR`, else `$VISUAL`,
/// else `vi`.
pub open spec fn editor_choice(editor: Option<String>, visual: Option<String>) -> Seq<char> {
    match editor {
        Some(named) => named@,
        None => match visual {
            Some(named) => named@,
            None => "vi"@,
        },
    }
}

/// Picks the editor, given what `$EDITOR` and `$VISUAL` hold, if they are
/// set.
pub fn choose_editor(editor: Option<String>, visual: Option<String>) -> (chosen: String)
    ensures
        chosen@ == editor_choice(editor, visual),
{
    match editor {
        Some(named) => named,
        None => match visual {
            Some(named) => named,
            None => String::from_str("vi"),
        },
    }
}

/// What the daemon is told while it runs.
#[derive(Debug)]
pub enum DaemonEvent {
    /// The configuration file changed and was read again, with this outcome.
    ConfigChanged(Result<Config, String>),
    /// The user asked the daemon to stop.
    Interrupted,
}

/// What the daemon does about an event.
#[derive(Debug)]
pub struct DaemonStep {
    /// The plan to carry out, in order.
    pub plan: Vec<SchedulerAction>,
    /// The reason for which a new configuration was turned down, if one was.
    pub rejected: Option<String>,
    /// Whether the daemon goes on running.
    pub running: bool,
}

/// Decides what the daemon does about `event`.
///
/// A new configuration that loaded replaces every running job. One that did
/// not load is turned down and changes nothing: the jobs that run go on
/// running. An interrupt stops every job and ends the daemon.
pub fn daemon_step(scheduler: &mut TaskScheduler, event: DaemonEvent) -> (step: DaemonStep)
    ensures
        match event {
            DaemonEvent::ConfigChanged(Ok(config)) => {
                &&& final(scheduler)@ == reload_model(old(scheduler)@, config.tasks@).0
                &&& step.plan@ == reload_model(old(scheduler)@, config.tasks@).1
                &&& step.rejected is None
                &&& step.running
            },
            DaemonEvent::ConfigChanged(Err(reason)) => {
                &&& final(scheduler)@ == old(scheduler)@
                &&& step.plan@.len() == 0
                &&& step.rejected == Some(reason)
                &&& step.running
            },
            DaemonEvent::Interrupted => {
                &&& final(scheduler)@ == reload_model(old(scheduler)@, Seq::<Task>::empty()).0
                &&& final(scheduler)@.handles.len() == 0
                &&& step.plan@ == cancellations(old(scheduler)@.handles)
                &&& step.rejected is None
                &&& !step.running
            },
        },
{
    match event {
        DaemonEvent::ConfigChanged(Ok(config)) => {
            let plan = scheduler.reload_tasks(config);
            DaemonStep { plan, rejected: None, running: true }
        },
        DaemonEvent::ConfigChanged(Err(reason)) => {
            DaemonStep { plan: Vec::new(), rejected: Some(reason), running: true }
        },
        DaemonEvent::Interrupted => {
            let ghost before = scheduler@;
            let plan = scheduler.reload_tasks(Config { tasks: Vec::new() });
            proof {
                crate::scheduler::lemma_empty_reload_idles(before);
            }
            DaemonStep { plan, rejected: None, running: false }
        },
    }
}

} // verus!
