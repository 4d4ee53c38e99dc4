//! The command `echo`.

use crate::commands::command::{Command, Execution, ExecutionView};
use crate::commands::payload::{single_text, text_object};
use crate::commands::CommandRegistry;
use crate::engine::config::ShellConfig;
use crate::engine::types::{CommandResult, CommandResultView};
use crate::engine::variables::VariableManager;
use crate::text::{join, spec_join};
use vstd::prelude::*;

verus! {

/// Hands its arguments back as one text.
#[derive(Debug, Clone, Copy)]
pub struct EchoCommand;

impl EchoCommand {
    /// What `echo` returns on `args`: the arguments joined by spaces, as the
    /// message and as the payload. The parser has resolved the variables of
    /// the arguments before.
    pub open spec fn outcome(args: Seq<Seq<char>>) -> CommandResultView {
        let text = spec_join(args, " "@);
        CommandResultView::succeeded(Some(text), Some(text_object("output_text"@, text)))
    }
}

impl Command for EchoCommand {
    fn name(&self) -> (name: &'static str)
        ensures
            name@ == "echo"@,
    {
        "echo"
    }

    fn description(&self) -> (description: &'static str)
        ensures
            description@ == "Prints the given text to the console, resolving variables."@,
    {
        "Prints the given text to the console, resolving variables."
    }

    fn usage(&self) -> (usage: &'static str)
        ensures
            usage@ == "echo [text with {variables}]"@,
    {
        "echo [text with {variables}]"
    }

    fn execute(
        &self,
        args: Vec<String>,
        var_manager: &mut VariableManager,
        config: &ShellConfig,
        command_registry: &CommandRegistry,
    ) -> (execution: Execution)
        ensures
            execution@ == ExecutionView::Finished(EchoCommand::outcome(args.deep_view())),
            final(var_manager).entries() == old(var_manager).entries(),
    {
        let text = join(&args, " ");
        let data = single_text("output_text", text.as_str());
        Execution::Finished(CommandResult::success(Some(text), Some(data)))
    }
}

} // verus!
