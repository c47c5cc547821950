//! The command line, as values: what the user asked the program to do.

use std::path::PathBuf;
use vstd::prelude::*;

verus! {

/// One invocation of the program.
#[derive(Debug)]
pub struct Cli {
    /// Log more.
    pub verbose: bool,
    /// The number of worker threads, where the default is not wanted.
    pub worker_threads: Option<usize>,
    pub command: Commands,
}

/// What the program is asked to do.
#[derive(Debug)]
pub enum Commands {
    /// Run the daemon.
    Run(RunArgs),
    /// List the tasks of the configuration.
    List(ListArgs),
    /// Write a first configuration file.
    Init(InitArgs),
    /// Open the configuration file in an editor.
    Edit(EditArgs),
    /// Check the configuration file.
    Check(CheckArgs),
    /// Manage the daemon as a service of the platform.
    Service(ServiceArgs),
    /// Run one task now.
    Exec(ExecArgs),
}

/// What `run` takes.
#[derive(Debug)]
pub struct RunArgs {
    pub config_path: Option<PathBuf>,
}

/// What `list` takes.
#[derive(Debug)]
pub struct ListArgs {
    pub config_path: Option<PathBuf>,
}

/// What `init` takes.
#[derive(Debug)]
pub struct InitArgs {
    pub config_path: Option<PathBuf>,
}

/// What `edit` takes.
#[derive(Debug)]
pub struct EditArgs {
    pub config_path: Option<PathBuf>,
}

/// What `check` takes.
#[derive(Debug)]
pub struct CheckArgs {
    pub config_path: Option<PathBuf>,
}

/// What `service` takes.
#[derive(Debug)]
pub struct ServiceArgs {
    pub action: ServiceAction,
}

/// What to do with the service.
#[derive(Clone, Copy, Debug, PartialEq, Eq, Structural)]
pub enum ServiceAction {
    Install,
    Uninstall,
    Start,
    Stop,
}

/// What `exec` takes.
#[derive(Debug)]
pub struct ExecArgs {
    /// The name of the task to run.
    pub task_name: String,
    pub config_path: Option<PathBuf>,
}

} // verus!
