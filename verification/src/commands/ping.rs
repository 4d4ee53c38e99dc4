//! The command `ping`.

use crate::commands::command::{Command, Execution, ExecutionView};
use crate::commands::payload::{single_text, text_object};
use crate::commands::CommandRegistry;
use crate::engine::config::ShellConfig;
use crate::engine::types::{CommandResult, CommandResultView};
use crate::engine::variables::VariableManager;
use vstd::prelude::*;

verus! {

/// Answers `pong`.
#[derive(Debug, Clone, Copy)]
pub struct PingCommand;

impl PingCommand {
    /// What `ping` returns, whatever its arguments.
    pub open spec fn outcome() -> CommandResultView {
        CommandResultView::succeeded(Some("pong"@), Some(text_object("response"@, "pong"@)))
    }
}

impl Command for PingCommand {
    fn name(&self) -> (name: &'static str)
        ensures
            name@ == "ping"@,
    {
        "ping"
    }

    fn description(&self) -> (description: &'static str)
        ensures
            description@ == "Responds with 'pong'."@,
    {
        "Responds with 'pong'."
    }

    fn usage(&self) -> (usage: &'static str)
        ensures
            usage@ == "ping"@,
    {
        "ping"
    }

    fn execute(
        &self,
        args: Vec<String>,
        var_manager: &mut VariableManager,
        config: &ShellConfig,
        command_registry: &CommandRegistry,
    ) -> (execution: Execution)
        ensures
            execution@ == ExecutionView::Finished(PingCommand::outcome()),
            final(var_manager).entries() == old(var_manager).entries(),
    {
        let data = single_text("response", "pong");
        Execution::Finished(CommandResult::success(Some("pong".to_owned()), Some(data)))
    }
}

} // verus!
