//! The command `exit`.

use crate::commands::command::{Command, Execution, ExecutionView};
use crate::commands::CommandRegistry;
use crate::engine::config::ShellConfig;
use crate::engine::types::{CommandResult, CommandResultView};
use crate::engine::variables::VariableManager;
use crate::json::JsonData;
use vstd::prelude::*;

verus! {

/// Tells the front end to leave.
#[derive(Debug, Clone, Copy)]
pub struct ExitCommand;

impl ExitCommand {
    /// What `exit` returns, whatever its arguments: a farewell and no
    /// payload. The front end leaves its loop when it sees this command
    /// succeed.
    pub open spec fn outcome() -> CommandResultView {
        CommandResultView::succeeded(Some("Exiting Shellce. Goodbye!"@), None::<JsonData>)
    }
}

impl Command for ExitCommand {
    fn name(&self) -> (name: &'static str)
        ensures
            name@ == "exit"@,
    {
        "exit"
    }

    fn description(&self) -> (description: &'static str)
        ensures
            description@ == "Exits the Shellce terminal."@,
    {
        "Exits the Shellce terminal."
    }

    fn usage(&self) -> (usage: &'static str)
        ensures
            usage@ == "exit"@,
    {
        "exit"
    }

    fn execute(
        &self,
        args: Vec<String>,
        var_manager: &mut VariableManager,
        config: &ShellConfig,
        command_registry: &CommandRegistry,
    ) -> (execution: Execution)
        ensures
            execution@ == ExecutionView::Finished(ExitCommand::outcome()),
            final(var_manager).entries() == old(var_manager).entries(),
    {
        Execution::Finished(
            CommandResult::success(Some("Exiting Shellce. Goodbye!".to_owned()), None),
        )
    }
}

} // verus!
