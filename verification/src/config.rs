//! Tasks and configurations, and the step from what a configuration file says
//! to a configuration that the engine runs.

use std::collections::HashMap;
use vstd::prelude::*;
use vstd::string::StringExecFns;

use crate::schedule::{cron_rejection, is_cron_expression, parse_schedule};
use crate::text::same_text;

verus! {

/// One command and the schedule it runs on.
///
/// A task is checked once, when it is loaded, and never changed after.
#[derive(Debug, Clone)]
pub struct Task {
    /// The name by which the task is logged and looked up. Two tasks of one
    /// configuration may share a name; both run.
    pub name: String,
    /// The cron expression, with seconds.
    pub cron_schedule: String,
    /// The program's name or path.
    pub command: String,
    /// The arguments in order; absent means none.
    pub args: Option<Vec<String>>,
    /// The deadline in seconds; absent means none. Zero is a deadline.
    pub timeout: Option<u64>,
    /// Where failed runs are reported.
    pub webhook_url: Option<String>,
    /// The working directory of the process.
    pub cwd: Option<String>,
    /// Variables added to the inherited environment.
    pub env: Option<HashMap<String, String>>,
}

impl Task {
    /// A task is valid if its schedule is a cron expression.
    pub open spec fn valid(&self) -> bool {
        is_cron_expression(self.cron_schedule@)
    }
}

/// The tasks of one configuration, in the order of the file.
#[derive(Debug, Clone)]
pub struct Config {
    pub tasks: Vec<Task>,
}

impl Config {
    /// A configuration is valid if each of its tasks is.
    pub open spec fn valid(&self) -> bool {
        forall|i: int| 0 <= i < self.tasks@.len() ==> (#[trigger] self.tasks@[i]).valid()
    }
}

/// A task as a configuration file words it, with nothing checked yet.
#[derive(Debug, Clone)]
pub struct RawTask {
    pub name: Option<String>,
    pub cron_schedule: Option<String>,
    pub command: Option<String>,
    pub args: Option<Vec<String>>,
    pub timeout: Option<u64>,
    pub webhook_url: Option<String>,
    pub cwd: Option<String>,
    pub env: Option<HashMap<String, String>>,
}

/// A configuration as a file words it.
#[derive(Debug, Clone)]
pub struct RawConfig {
    pub tasks: Vec<RawTask>,
}

/// A field that every task must have.
#[derive(Clone, Copy, Debug, PartialEq, Eq, Structural)]
pub enum TaskField {
    Name,
    CronSchedule,
    Command,
}

/// Why a task is refused.
#[derive(Debug)]
pub enum TaskError {
    /// The schedule is no cron expression; `reason` is the parser's.
    InvalidSchedule { reason: String },
    /// A field that every task must have is absent.
    MissingField { field: TaskField },
}

/// A refusal, with its text as characters.
pub enum TaskErrorView {
    InvalidSchedule { reason: Seq<char> },
    MissingField { field: TaskField },
}

impl View for TaskError {
    type V = TaskErrorView;

    open spec fn view(&self) -> TaskErrorView {
        match self {
            TaskError::InvalidSchedule { reason } => TaskErrorView::InvalidSchedule {
                reason: reason@,
            },
            TaskError::MissingField { field } => TaskErrorView::MissingField { field: *field },
        }
    }
}

/// Why a configuration is refused: its first task that is, and why.
#[derive(Debug)]
pub struct ConfigError {
    /// The position of the task in the file, from zero.
    pub task: usize,
    pub error: TaskError,
}

/// What is wrong with `raw`, if anything. A schedule that is no cron
/// expression is found before a field that is absent; absent fields are
/// found in the order name, schedule, command.
pub open spec fn task_defect(raw: RawTask) -> Option<TaskErrorView> {
    if raw.cron_schedule is Some && cron_rejection(raw.cron_schedule->0@) is Some {
        Some(TaskErrorView::InvalidSchedule { reason: cron_rejection(raw.cron_schedule->0@)->0 })
    } else if raw.name is None {
        Some(TaskErrorView::MissingField { field: TaskField::Name })
    } else if raw.cron_schedule is None {
        Some(TaskErrorView::MissingField { field: TaskField::CronSchedule })
    } else if raw.command is None {
        Some(TaskErrorView::MissingField { field: TaskField::Command })
    } else {
        None
    }
}

/// The task that `raw` words, where nothing is wrong with it.
pub open spec fn task_from(raw: RawTask) -> Task {
    Task {
        name: raw.name->0,
        cron_schedule: raw.cron_schedule->0,
        command: raw.command->0,
        args: raw.args,
        timeout: raw.timeout,
        webhook_url: raw.webhook_url,
        cwd: raw.cwd,
        env: raw.env,
    }
}

/// The name of a required field as the file spells it.
pub open spec fn field_name(field: TaskField) -> Seq<char> {
    match field {
        TaskField::Name => "name"@,
        TaskField::CronSchedule => "cron_schedule"@,
        TaskField::Command => "command"@,
    }
}

/// The words for a refusal.
pub open spec fn task_error_text(error: TaskErrorView) -> Seq<char> {
    match error {
        TaskErrorView::InvalidSchedule { reason } => reason,
        TaskErrorView::MissingField { field } => "missing field `"@ + field_name(field) + "`"@,
    }
}

impl TaskError {
    /// The refusal in words.
    pub fn message(&self) -> (text: String)
        ensures
            text@ == task_error_text(self@),
    {
        match self {
            TaskError::InvalidSchedule { reason } => reason.clone(),
            TaskError::MissingField { field } => {
                let mut text = String::from_str("missing field `");
                match field {
                    TaskField::Name => text.append("name"),
                    TaskField::CronSchedule => text.append("cron_schedule"),
                    TaskField::Command => text.append("command"),
                }
                text.append("`");
                text
            },
        }
    }
}

impl RawTask {
    /// Says what is wrong with the task, if anything.
    pub fn check(&self) -> (checked: Result<(), TaskError>)
        ensures
            match checked {
                Ok(_) => task_defect(*self) is None,
                Err(error) => task_defect(*self) == Some(error@),
            },
    {
        if let Some(expression) = &self.cron_schedule {
            if let Err(reason) = parse_schedule(expression.as_str()) {
                return Err(TaskError::InvalidSchedule { reason });
            }
        }
        if self.name.is_none() {
            return Err(TaskError::MissingField { field: TaskField::Name });
        }
        if self.cron_schedule.is_none() {
            return Err(TaskError::MissingField { field: TaskField::CronSchedule });
        }
        if self.command.is_none() {
            return Err(TaskError::MissingField { field: TaskField::Command });
        }
        Ok(())
    }
}

/// The first task of `entries` with something wrong, by its position, and
/// what is wrong with it.
pub open spec fn first_defect(entries: Seq<RawTask>) -> Option<(int, TaskErrorView)>
    decreases entries.len(),
{
    if entries.len() == 0 {
        None
    } else {
        match first_defect(entries.drop_last()) {
            Some(found) => Some(found),
            None => match task_defect(entries.last()) {
                Some(defect) => Some((entries.len() - 1, defect)),
                None => None,
            },
        }
    }
}

/// Entries without a defect have no first defect.
pub proof fn lemma_no_defect(entries: Seq<RawTask>)
    requires
        forall|i: int| 0 <= i < entries.len() ==> task_defect(#[trigger] entries[i]) is None,
    ensures
        first_defect(entries) is None,
    decreases entries.len(),
{
    if entries.len() > 0 {
        let front = entries.drop_last();
        assert forall|i: int| 0 <= i < front.len() implies task_defect(#[trigger] front[i]) is None by {
            assert(front[i] == entries[i]);
        }
        lemma_no_defect(front);
    }
}

/// The first defect is the one before which there is none.
pub proof fn lemma_first_defect(entries: Seq<RawTask>, at: int)
    requires
        0 <= at < entries.len(),
        task_defect(entries[at]) is Some,
        forall|i: int| 0 <= i < at ==> task_defect(#[trigger] entries[i]) is None,
    ensures
        first_defect(entries) == Some((at, task_defect(entries[at])->0)),
    decreases entries.len(),
{
    let front = entries.drop_last();
    if at == entries.len() - 1 {
        assert forall|i: int| 0 <= i < front.len() implies task_defect(#[trigger] front[i]) is None by {
            assert(front[i] == entries[i]);
        }
        lemma_no_defect(front);
    } else {
        assert(front[at] == entries[at]);
        assert forall|i: int| 0 <= i < at implies task_defect(#[trigger] front[i]) is None by {
            assert(front[i] == entries[i]);
        }
        lemma_first_defect(front, at);
    }
}

impl RawConfig {
    /// Whether every task of the file can be loaded.
    pub open spec fn acceptable(&self) -> bool {
        forall|i: int| 0 <= i < self.tasks@.len() ==> task_defect(#[trigger] self.tasks@[i]) is None
    }

    /// Says what `load_config` would refuse, without loading anything.
    pub fn check(&self) -> (checked: Result<(), ConfigError>)
        ensures
            match checked {
                Ok(_) => self.acceptable() && first_defect(self.tasks@) is None,
                Err(refusal) => {
                    &&& refusal.task < self.tasks@.len()
                    &&& first_defect(self.tasks@) == Some((refusal.task as int, refusal.error@))
                    &&& task_defect(self.tasks@[refusal.task as int]) == Some(refusal.error@)
                    &&& forall|i: int|
                        0 <= i < refusal.task ==> task_defect(#[trigger] self.tasks@[i]) is None
                },
            },
    {
        let mut index: usize = 0;
        while index < self.tasks.len()
            invariant
                index <= self.tasks@.len(),
                forall|i: int| 0 <= i < index ==> task_defect(#[trigger] self.tasks@[i]) is None,
            decreases self.tasks@.len() - index,
        {
            if let Err(error) = self.tasks[index].check() {
                proof {
                    lemma_first_defect(self.tasks@, index as int);
                }
                return Err(ConfigError { task: index, error });
            }
            index = index + 1;
        }
        proof {
            lemma_no_defect(self.tasks@);
        }
        Ok(())
    }
}

impl Task {
    /// Checks one task of a configuration file.
    pub fn from_raw(raw: RawTask) -> (checked: Result<Task, TaskError>)
        ensures
            match checked {
                Ok(task) => task_defect(raw) is None && task == task_from(raw) && task.valid(),
                Err(error) => task_defect(raw) == Some(error@),
            },
    {
        let RawTask { name, cron_schedule, command, args, timeout, webhook_url, cwd, env } = raw;
        if let Some(expression) = &cron_schedule {
            if let Err(reason) = parse_schedule(expression.as_str()) {
                return Err(TaskError::InvalidSchedule { reason });
            }
        }
        let name = match name {
            Some(name) => name,
            None => { return Err(TaskError::MissingField { field: TaskField::Name }); },
        };
        let cron_schedule = match cron_schedule {
            Some(cron_schedule) => cron_schedule,
            None => { return Err(TaskError::MissingField { field: TaskField::CronSchedule }); },
        };
        let command = match command {
            Some(command) => command,
            None => { return Err(TaskError::MissingField { field: TaskField::Command }); },
        };
        Ok(Task { name, cron_schedule, command, args, timeout, webhook_url, cwd, env })
    }
}

/// Turns what a configuration file says into a configuration to run.
///
/// Every task must name itself, its schedule and its command, and every
/// schedule must be a cron expression. The first task that does not is
/// reported, and then nothing is loaded.
pub fn load_config(raw: RawConfig) -> (loaded: Result<Config, ConfigError>)
    ensures
        match loaded {
            Ok(config) => {
                &&& first_defect(raw.tasks@) is None
                &&& config.valid()
                &&& config.tasks@.len() == raw.tasks@.len()
                &&& forall|i: int|
                    0 <= i < raw.tasks@.len() ==> task_defect(#[trigger] raw.tasks@[i]) is None
                        && config.tasks@[i] == task_from(raw.tasks@[i])
            },
            Err(refusal) => {
                &&& refusal.task < raw.tasks@.len()
                &&& first_defect(raw.tasks@) == Some((refusal.task as int, refusal.error@))
                &&& task_defect(raw.tasks@[refusal.task as int]) == Some(refusal.error@)
                &&& forall|i: int|
                    0 <= i < refusal.task ==> task_defect(#[trigger] raw.tasks@[i]) is None
            },
        },
{
    let mut tasks: Vec<Task> = Vec::new();
    let mut index: usize = 0;
    let ghost entries = raw.tasks@;
    let count: usize = raw.tasks.len();
    for raw_task in it: raw.tasks
        invariant
            it.seq() == entries,
            entries.len() == count,
            index == it.index(),
            tasks@.len() == index,
            forall|i: int|
                0 <= i < index ==> task_defect(#[trigger] entries[i]) is None && tasks@[i]
                    == task_from(entries[i]),
            forall|i: int| 0 <= i < index ==> (#[trigger] tasks@[i]).valid(),
    {
        match Task::from_raw(raw_task) {
            Ok(task) => {
                tasks.push(task);
            },
            Err(error) => {
                proof {
                    lemma_first_defect(entries, index as int);
                }
                return Err(ConfigError { task: index, error });
            },
        }
        index = index + 1;
    }
    proof {
        lemma_no_defect(entries);
    }
    Ok(Config { tasks })
}

impl Config {
    /// Where the first task called `name` stands.
    pub fn find_task(&self, name: &str) -> (found: Option<usize>)
        ensures
            match found {
                Some(at) => {
                    &&& at < self.tasks@.len()
                    &&& self.tasks@[at as int].name@ == name@
                    &&& forall|i: int| 0 <= i < at ==> (#[trigger] self.tasks@[i]).name@ != name@
                },
                None => forall|i: int|
                    0 <= i < self.tasks@.len() ==> (#[trigger] self.tasks@[i]).name@ != name@,
            },
    {
        let mut index: usize = 0;
        while index < self.tasks.len()
            invariant
                index <= self.tasks@.len(),
                forall|i: int| 0 <= i < index ==> (#[trigger] self.tasks@[i]).name@ != name@,
            decreases self.tasks@.len() - index,
        {
            if same_text(self.tasks[index].name.as_str(), name) {
                return Some(index);
            }
            index = index + 1;
        }
        None
    }

    /// The names of the tasks, in the order of the file.
    pub fn task_names(&self) -> (names: Vec<String>)
        ensures
            names@.len() == self.tasks@.len(),
            forall|i: int| 0 <= i < names@.len() ==> (#[trigger] names@[i])@ == self.tasks@[i].name@,
    {
        let mut names: Vec<String> = Vec::new();
        let mut index: usize = 0;
        while index < self.tasks.len()
            invariant
                index <= self.tasks@.len(),
                names@.len() == index,
                forall|i: int| 0 <= i < index ==> (#[trigger] names@[i])@ == self.tasks@[i].name@,
            decreases self.tasks@.len() - index,
        {
            names.push(self.tasks[index].name.clone());
            index = index + 1;
        }
        names
    }
}

} // verus!
