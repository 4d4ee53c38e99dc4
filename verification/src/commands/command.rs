//! What every command of the interpreter offers.

use crate::commands::CommandRegistry;
use crate::engine::config::ShellConfig;
use crate::engine::types::{CommandResult, CommandResultView};
use crate::engine::variables::VariableManager;
use vstd::prelude::*;

verus! {

/// Work that a command cannot do itself: it touches the file system or the
/// clock. The caller of the library does the work and hands the outcome to
/// the `finish` function of the command that asked for it.
#[derive(Debug)]
pub enum HostRequest {
    /// List the entries of the directory at `path`.
    ListDirectory { path: String },
    /// Wait for `seconds` seconds.
    Sleep { seconds: u64 },
    /// Read the script at `path` and dispatch its lines.
    RunScript { path: String },
    /// Write `contents` to the file at `path`.
    SaveMemory { path: String, contents: String },
    /// Read the file at `path`.
    LoadMemory { path: String },
}

/// The model of a [`HostRequest`].
pub enum HostRequestView {
    ListDirectory { path: Seq<char> },
    Sleep { seconds: u64 },
    RunScript { path: Seq<char> },
    SaveMemory { path: Seq<char>, contents: Seq<char> },
    LoadMemory { path: Seq<char> },
}

impl View for HostRequest {
    type V = HostRequestView;

    open spec fn view(&self) -> HostRequestView {
        match self {
            HostRequest::ListDirectory { path } => HostRequestView::ListDirectory { path: path@ },
            HostRequest::Sleep { seconds } => HostRequestView::Sleep { seconds: *seconds },
            HostRequest::RunScript { path } => HostRequestView::RunScript { path: path@ },
            HostRequest::SaveMemory { path, contents } => HostRequestView::SaveMemory {
                path: path@,
                contents: contents@,
            },
            HostRequest::LoadMemory { path } => HostRequestView::LoadMemory { path: path@ },
        }
    }
}

/// How far a command came: it finished with a result, or it stands before
/// work that the host has to do for it.
#[derive(Debug)]
pub enum Execution {
    Finished(CommandResult),
    Deferred(HostRequest),
}

/// The model of an [`Execution`].
pub enum ExecutionView {
    Finished(CommandResultView),
    Deferred(HostRequestView),
}

impl View for Execution {
    type V = ExecutionView;

    open spec fn view(&self) -> ExecutionView {
        match self {
            Execution::Finished(result) => ExecutionView::Finished(result@),
            Execution::Deferred(request) => ExecutionView::Deferred(request@),
        }
    }
}

/// The bindings of a variable store as a list of pairs.
pub type Bindings = Seq<(Seq<char>, Seq<char>)>;

/// A command: its name, what it is for, how it is called, and what it does
/// with a list of arguments.
pub trait Command {
    /// The name under which the command is registered and called.
    fn name(&self) -> &'static str;

    /// One line on what the command does.
    fn description(&self) -> &'static str;

    /// How the command is called.
    fn usage(&self) -> &'static str;

    /// Runs the command on `args`.
    fn execute(
        &self,
        args: Vec<String>,
        var_manager: &mut VariableManager,
        config: &ShellConfig,
        command_registry: &CommandRegistry,
    ) -> Execution;
}

} // verus!
