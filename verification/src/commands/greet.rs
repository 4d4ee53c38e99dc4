//! The command `greet`.

use crate::commands::command::{Command, Execution, ExecutionView};
use crate::commands::payload::{two_text_object, two_texts};
use crate::commands::CommandRegistry;
use crate::engine::config::ShellConfig;
use crate::engine::types::{CommandResult, CommandResultView};
use crate::engine::variables::VariableManager;
use crate::text::{join, spec_join};
use vstd::prelude::*;

verus! {

/// Greets the one that its arguments name.
#[derive(Debug, Clone, Copy)]
pub struct GreetCommand;

impl GreetCommand {
    /// The name to greet: the arguments joined by spaces, or `World` where
    /// there are none.
    pub open spec fn greeted(args: Seq<Seq<char>>) -> Seq<char> {
        if args.len() == 0 {
            "World"@
        } else {
            spec_join(args, " "@)
        }
    }

    /// The greeting for `name`.
    pub open spec fn greeting(name: Seq<char>) -> Seq<char> {
        "Hello, "@ + name + "! Welcome to Shellce."@
    }

    /// What `greet` returns on `args`: the greeting as the message, and the
    /// greeting and the name as the payload.
    pub open spec fn outcome(args: Seq<Seq<char>>) -> CommandResultView {
        let name = Self::greeted(args);
        let message = Self::greeting(name);
        CommandResultView::succeeded(
            Some(message),
            Some(two_text_object("greeting"@, message, "name"@, name)),
        )
    }
}

impl Command for GreetCommand {
    fn name(&self) -> (name: &'static str)
        ensures
            name@ == "greet"@,
    {
        "greet"
    }

    fn description(&self) -> (description: &'static str)
        ensures
            description@ == "Greets the specified name or a default value."@,
    {
        "Greets the specified name or a default value."
    }

    fn usage(&self) -> (usage: &'static str)
        ensures
            usage@ == "greet [name]"@,
    {
        "greet [name]"
    }

    fn execute(
        &self,
        args: Vec<String>,
        var_manager: &mut VariableManager,
        config: &ShellConfig,
        command_registry: &CommandRegistry,
    ) -> (execution: Execution)
        ensures
            execution@ == ExecutionView::Finished(GreetCommand::outcome(args.deep_view())),
            final(var_manager).entries() == old(var_manager).entries(),
    {
        let name = if args.len() == 0 {
            "World".to_owned()
        } else {
            join(&args, " ")
        };
        let mut message = "Hello, ".to_owned();
        message.append(name.as_str());
        message.append("! Welcome to Shellce.");
        proof {
            reveal_strlit("greeting");
            reveal_strlit("name");
            assert("greeting"@.len() != "name"@.len());
        }
        let data = two_texts("greeting", message.as_str(), "name", name.as_str());
        Execution::Finished(CommandResult::success(Some(message), Some(data)))
    }
}

} // verus!
