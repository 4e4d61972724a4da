//! What a run starts from: the roots to scan, and the task that a request
//! asks for.

use crate::cargo::BuildParams;
use vstd::prelude::*;

verus! {

/// The name of the file that lists the roots.
pub const CONFIG_FILE: &'static str = "project-ctl.yaml";

/// Why a run cannot start.
#[derive(Clone, Copy, Debug, PartialEq, Eq, Structural)]
pub enum ConfigurationFault {
    /// The configuration lists no root.
    NoRoots,
}

/// The roots to scan. There is at least one.
#[derive(Debug)]
pub struct ScanRoots {
    paths: Vec<String>,
}

impl View for ScanRoots {
    type V = Seq<String>;

    closed spec fn view(&self) -> Seq<String> {
        self.paths@
    }
}

impl ScanRoots {
    #[verifier::type_invariant]
    spec fn listed(self) -> bool {
        self.paths.len() > 0
    }

    /// Takes the roots that the configuration lists, in its order. An empty
    /// list is a fault.
    pub fn new(paths: Vec<String>) -> (roots: Result<ScanRoots, ConfigurationFault>)
        ensures
            match roots {
                Ok(roots) => paths.len() > 0 && roots@ == paths@,
                Err(fault) => paths.len() == 0 && fault == ConfigurationFault::NoRoots,
            },
    {
        if paths.len() == 0 {
            Err(ConfigurationFault::NoRoots)
        } else {
            Ok(ScanRoots { paths })
        }
    }

    /// The roots, in the order of the configuration.
    pub fn paths(&self) -> (paths: &Vec<String>)
        ensures
            paths@ == self@,
            paths.len() > 0,
    {
        proof {
            use_type_invariant(self);
        }
        &self.paths
    }
}

/// What the command line asks for.
#[derive(Clone, Copy, Debug, PartialEq, Eq, Structural)]
pub enum Request {
    Cargo { debug: bool, cmd: crate::cargo::Command },
    Git { debug: bool, cmd: crate::git::Command },
}

/// What a run does with the roots.
#[derive(Clone, Copy, Debug, PartialEq, Eq)]
pub enum Task {
    /// Report on the projects of every root, after running `action` in each
    /// project where there is one.
    Projects { action: Option<&'static str>, debug: bool },
    /// Cross-compile the project in the working directory.
    BuildWindows { params: BuildParams, debug: bool },
    /// Report the state of the repositories of every root.
    Repositories { all: bool, debug: bool },
}

/// A `Task` with its strings as sequences of characters.
pub enum TaskModel {
    Projects { action: Option<Seq<char>>, debug: bool },
    BuildWindows { params: BuildParams, debug: bool },
    Repositories { all: bool, debug: bool },
}

impl DeepView for Task {
    type V = TaskModel;

    open spec fn deep_view(&self) -> TaskModel {
        match self {
            Task::Projects { action, debug } => TaskModel::Projects {
                action: action.deep_view(),
                debug: *debug,
            },
            Task::BuildWindows { params, debug } => TaskModel::BuildWindows {
                params: *params,
                debug: *debug,
            },
            Task::Repositories { all, debug } => TaskModel::Repositories {
                all: *all,
                debug: *debug,
            },
        }
    }
}

/// The task that a request asks for.
pub open spec fn task_of(request: Request) -> TaskModel {
    match request {
        Request::Cargo { debug, cmd: crate::cargo::Command::BuildWin(params) } => {
            TaskModel::BuildWindows { params, debug }
        },
        Request::Cargo { debug, cmd } => TaskModel::Projects { action: cmd.action_spec(), debug },
        Request::Git { debug, cmd: crate::git::Command::State(state) } => TaskModel::Repositories {
            all: state.all,
            debug,
        },
    }
}

/// Says which task a request asks for.
pub fn route(request: Request) -> (task: Task)
    ensures
        task.deep_view() == task_of(request),
{
    match request {
        Request::Cargo { debug, cmd: crate::cargo::Command::BuildWin(params) } => {
            Task::BuildWindows { params, debug }
        },
        Request::Cargo { debug, cmd } => Task::Projects { action: cmd.action(), debug },
        Request::Git { debug, cmd: crate::git::Command::State(state) } => Task::Repositories {
            all: state.all,
            debug,
        },
    }
}

} // verus!
