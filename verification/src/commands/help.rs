//! The command `help`.

use crate::assoc::{distinct_keys, to_map};
use crate::commands::command::{Command, Execution, ExecutionView};
use crate::commands::payload::{two_text_object, two_texts};
use crate::commands::{
    lemma_listing_distinct, lemma_names_differ, listing, spec_lookup, BuiltinCommand,
    CommandRegistry,
};
use crate::engine::config::ShellConfig;
use crate::engine::types::{CommandResult, CommandResultView};
use crate::engine::variables::VariableManager;
use crate::json::{field_pairs, json_model, object_value, JsonData};
use crate::text::{pad_right, spec_pad_right};
use vstd::prelude::*;

verus! {

/// Tells what the commands do and how they are called.
#[derive(Debug, Clone, Copy)]
pub struct HelpCommand;

impl HelpCommand {
    /// What the payload tells of one command.
    pub open spec fn entry(command: BuiltinCommand) -> JsonData {
        two_text_object(
            "description"@,
            command.spec_description(),
            "usage"@,
            command.spec_usage(),
        )
    }

    /// One line for each command: its name, filled up to 15 characters, and
    /// its description.
    pub open spec fn lines(commands: Seq<BuiltinCommand>) -> Seq<char>
        decreases commands.len(),
    {
        if commands.len() == 0 {
            Seq::empty()
        } else {
            Self::lines(commands.drop_last()) + "  "@ + spec_pad_right(
                commands.last().spec_name(),
                15,
            ) + " - "@ + commands.last().spec_description() + "\n"@
        }
    }

    /// One field for each command, under its name.
    pub open spec fn fields(commands: Seq<BuiltinCommand>) -> Seq<(Seq<char>, JsonData)> {
        Seq::new(commands.len(), |i: int| (commands[i].spec_name(), Self::entry(commands[i])))
    }

    /// What `help` returns without an argument: all registered commands,
    /// sorted by name.
    pub open spec fn overview(registered: Set<BuiltinCommand>) -> CommandResultView {
        let listed = listing(BuiltinCommand::all(), registered);
        CommandResultView::succeeded(
            Some(
                "Available commands:\n"@ + Self::lines(listed)
                    + "\nType 'help <command_name>' for more details."@,
            ),
            Some(JsonData::Object(to_map(Self::fields(listed)))),
        )
    }

    /// What `help` returns on one command.
    pub open spec fn detail(command: BuiltinCommand) -> CommandResultView {
        CommandResultView::succeeded(
            Some(
                "Help for '"@ + command.spec_name() + "':\n"@ + "  Description: "@
                    + command.spec_description() + "\n"@ + "  Usage:       "@
                    + command.spec_usage() + "\n"@,
            ),
            Some(JsonData::Object(to_map(seq![(command.spec_name(), Self::entry(command))]))),
        )
    }

    /// What `help` returns on `args`: the overview where there is no
    /// argument, and else the detail of the command that the first argument
    /// names, or a failure where no command of that name is registered.
    pub open spec fn outcome(args: Seq<Seq<char>>, registered: Set<BuiltinCommand>)
        -> CommandResultView {
        if args.len() == 0 {
            Self::overview(registered)
        } else {
            match spec_lookup(registered, args[0]) {
                Some(command) => Self::detail(command),
                None => CommandResultView::failed("Command '"@ + args[0] + "' not found."@),
            }
        }
    }

    /// The field of the payload that tells of `command`.
    fn field(command: BuiltinCommand) -> (field: (String, serde_json::Value))
        ensures
            field.0@ == command.spec_name(),
            json_model(field.1) == Self::entry(command),
    {
        proof {
            reveal_strlit("description");
            reveal_strlit("usage");
            assert("description"@.len() != "usage"@.len());
        }
        (
            command.name().to_owned(),
            two_texts("description", command.description(), "usage", command.usage()),
        )
    }

    /// The overview of the commands of `command_registry`.
    pub fn list_all(command_registry: &CommandRegistry) -> (result: CommandResult)
        ensures
            result@ == Self::overview(command_registry@),
    {
        let listed = command_registry.commands();
        let mut message = "Available commands:\n".to_owned();
        let ghost head = message@;
        let mut fields: Vec<(String, serde_json::Value)> = Vec::new();
        let mut i: usize = 0;
        assert(listed@.take(0) =~= Seq::<BuiltinCommand>::empty());
        assert(head + Seq::<char>::empty() =~= head);
        assert(field_pairs(fields@) =~= Self::fields(listed@.take(0)));
        while i < listed.len()
            invariant
                i <= listed.len(),
                message@ == head + Self::lines(listed@.take(i as int)),
                fields@.len() == i,
                field_pairs(fields@) == Self::fields(listed@.take(i as int)),
            decreases listed.len() - i,
        {
            let command = listed[i];
            let ghost fields_before = fields@;
            message.append("  ");
            message.append(pad_right(command.name(), 15).as_str());
            message.append(" - ");
            message.append(command.description());
            message.append("\n");
            fields.push(Self::field(command));
            proof {
                let next = listed@.take(i + 1);
                assert(next.drop_last() =~= listed@.take(i as int));
                assert(next.last() == command);
                assert(message@ =~= head + Self::lines(next));
                let target = Self::fields(next);
                assert forall|j: int| 0 <= j < i + 1 implies field_pairs(fields@)[j] == target[j] by {
                    if j < i {
                        assert(fields@[j] == fields_before[j]);
                        assert(field_pairs(fields_before)[j] == Self::fields(
                            listed@.take(i as int),
                        )[j]);
                    }
                }
                assert(field_pairs(fields@) =~= target);
            }
            i += 1;
        }
        message.append("\nType 'help <command_name>' for more details.");
        proof {
            assert(listed@.take(i as int) =~= listed@);
            lemma_listing_distinct(BuiltinCommand::all(), command_registry@);
            let pairs = Self::fields(listed@);
            assert forall|a: int, b: int| 0 <= a < b < pairs.len() implies (#[trigger] pairs[a]).0
                != (#[trigger] pairs[b]).0 by {
                assert(listed@[a] != listed@[b]);
                lemma_names_differ(listed@[a], listed@[b]);
            }
        }
        let data = object_value(fields);
        CommandResult::success(Some(message), Some(data))
    }

    /// The detail of `command`.
    pub fn describe(command: BuiltinCommand) -> (result: CommandResult)
        ensures
            result@ == Self::detail(command),
    {
        let mut message = "Help for '".to_owned();
        message.append(command.name());
        message.append("':\n");
        message.append("  Description: ");
        message.append(command.description());
        message.append("\n");
        message.append("  Usage:       ");
        message.append(command.usage());
        message.append("\n");
        let mut fields: Vec<(String, serde_json::Value)> = Vec::new();
        fields.push(Self::field(command));
        assert(field_pairs(fields@) =~= seq![(command.spec_name(), Self::entry(command))]);
        let data = object_value(fields);
        CommandResult::success(Some(message), Some(data))
    }
}

impl Command for HelpCommand {
    fn name(&self) -> (name: &'static str)
        ensures
            name@ == "help"@,
    {
        "help"
    }

    fn description(&self) -> (description: &'static str)
        ensures
            description@ == "Displays help information for all commands or a specific command."@,
    {
        "Displays help information for all commands or a specific command."
    }

    fn usage(&self) -> (usage: &'static str)
        ensures
            usage@ == "help [command_name]"@,
    {
        "help [command_name]"
    }

    fn execute(
        &self,
        args: Vec<String>,
        var_manager: &mut VariableManager,
        config: &ShellConfig,
        command_registry: &CommandRegistry,
    ) -> (execution: Execution)
        ensures
            execution@ == ExecutionView::Finished(
                HelpCommand::outcome(args.deep_view(), command_registry@),
            ),
            final(var_manager).entries() == old(var_manager).entries(),
    {
        if args.len() == 0 {
            return Execution::Finished(HelpCommand::list_all(command_registry));
        }
        assert(args.deep_view()[0] == args@[0]@);
        match command_registry.get(args[0].as_str()) {
            Some(command) => Execution::Finished(HelpCommand::describe(command)),
            None => {
                let mut message = "Command '".to_owned();
                message.append(args[0].as_str());
                message.append("' not found.");
                Execution::Finished(CommandResult::error(message))
            },
        }
    }
}

} // verus!
