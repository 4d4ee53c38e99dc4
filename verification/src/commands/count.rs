//! The command `count`.

use crate::commands::command::{Command, Execution, ExecutionView};
use crate::commands::payload::{number_object, single_number};
use crate::commands::CommandRegistry;
use crate::engine::config::ShellConfig;
use crate::engine::types::{payload_view, CommandResult, CommandResultView};
use crate::engine::variables::VariableManager;
use crate::json::{array_len, array_length, json_parse, parse, JsonData};
use crate::text::{decimal, same_text, spec_decimal};
use vstd::prelude::*;

verus! {

/// Counts the items of the payload that the stage before it handed on.
#[derive(Debug, Clone, Copy)]
pub struct CountCommand;

impl CountCommand {
    /// What `count` makes of its arguments from the index `from` on, with
    /// `found` the input read so far.
    ///
    /// Every argument has to be `--input-data`, followed by a JSON text. The
    /// last such text is the input. The first argument that is anything
    /// else, that lacks its text, or whose text is no JSON decides the
    /// failure.
    pub open spec fn read_from(args: Seq<Seq<char>>, from: int, found: Option<JsonData>) -> Result<
        Option<JsonData>,
        Seq<char>,
    >
        decreases args.len() - from,
    {
        if from < 0 || from >= args.len() {
            Ok(found)
        } else if args[from] != "--input-data"@ {
            Err(
                "Unknown argument: '"@ + args[from] + "'. Usage: "@
                    + "count [--input-data <json_string>]"@,
            )
        } else if from + 1 >= args.len() {
            Err("Missing JSON string after --input-data."@)
        } else {
            match json_parse(args[from + 1]) {
                Ok(data) => Self::read_from(args, from + 2, Some(data)),
                Err(reason) => Err("Invalid input data: "@ + reason),
            }
        }
    }

    /// The number of items of an input: those of an array, one for any
    /// other value, none where there is no input.
    pub open spec fn spec_item_count(input: Option<JsonData>) -> nat {
        match input {
            None => 0,
            Some(data) => match array_length(data) {
                Some(n) => n,
                None => 1,
            },
        }
    }

    /// The result that reports `count` items.
    pub open spec fn spec_report(count: u64) -> CommandResultView {
        CommandResultView::succeeded(
            Some("Counted "@ + spec_decimal(count as nat) + " items."@),
            Some(number_object("count"@, count)),
        )
    }

    /// What `count` returns on `args`.
    pub open spec fn outcome(args: Seq<Seq<char>>) -> CommandResultView {
        match Self::read_from(args, 0, None) {
            Err(message) => CommandResultView::failed(message),
            Ok(input) => Self::spec_report(Self::spec_item_count(input) as u64),
        }
    }

    /// Reads the input from the arguments; fails with the message of the
    /// failure.
    pub fn read_input(args: &Vec<String>) -> (read: Result<Option<serde_json::Value>, String>)
        ensures
            match read {
                Ok(input) => Self::read_from(args.deep_view(), 0, None) == Ok::<
                    Option<JsonData>,
                    Seq<char>,
                >(payload_view(input)),
                Err(message) => Self::read_from(args.deep_view(), 0, None) == Err::<
                    Option<JsonData>,
                    Seq<char>,
                >(message@),
            },
    {
        let mut input: Option<serde_json::Value> = None;
        let mut i: usize = 0;
        while i < args.len()
            invariant
                i <= args.len(),
                Self::read_from(args.deep_view(), 0, None) == Self::read_from(
                    args.deep_view(),
                    i as int,
                    payload_view(input),
                ),
            decreases args.len() - i,
        {
            assert(args.deep_view()[i as int] == args@[i as int]@);
            if !same_text(args[i].as_str(), "--input-data") {
                let mut message = "Unknown argument: '".to_owned();
                message.append(args[i].as_str());
                message.append("'. Usage: ");
                message.append("count [--input-data <json_string>]");
                return Err(message);
            }
            if i + 1 >= args.len() {
                return Err("Missing JSON string after --input-data.".to_owned());
            }
            assert(args.deep_view()[i + 1] == args@[i + 1]@);
            match parse(args[i + 1].as_str()) {
                Ok(value) => {
                    input = Some(value);
                },
                Err(reason) => {
                    let mut message = "Invalid input data: ".to_owned();
                    message.append(reason.as_str());
                    return Err(message);
                },
            }
            i += 2;
        }
        Ok(input)
    }

    /// The number of items of `input`.
    pub fn item_count(input: &Option<serde_json::Value>) -> (count: usize)
        ensures
            count == Self::spec_item_count(payload_view(*input)),
    {
        match input {
            None => 0,
            Some(value) => match array_len(value) {
                Some(n) => n,
                None => 1,
            },
        }
    }

    /// The result that reports `count` items.
    pub fn report(count: u64) -> (result: CommandResult)
        ensures
            result@ == Self::spec_report(count),
    {
        let mut message = "Counted ".to_owned();
        message.append(decimal(count).as_str());
        message.append(" items.");
        CommandResult::success(Some(message), Some(single_number("count", count)))
    }
}

impl Command for CountCommand {
    fn name(&self) -> (name: &'static str)
        ensures
            name@ == "count"@,
    {
        "count"
    }

    fn description(&self) -> (description: &'static str)
        ensures
            description@ == "Counts items in structured input (e.g., from a pipeline)."@,
    {
        "Counts items in structured input (e.g., from a pipeline)."
    }

    fn usage(&self) -> (usage: &'static str)
        ensures
            usage@ == "count [--input-data <json_string>]"@,
    {
        "count [--input-data <json_string>]"
    }

    fn execute(
        &self,
        args: Vec<String>,
        var_manager: &mut VariableManager,
        config: &ShellConfig,
        command_registry: &CommandRegistry,
    ) -> (execution: Execution)
        ensures
            execution@ == ExecutionView::Finished(CountCommand::outcome(args.deep_view())),
            final(var_manager).entries() == old(var_manager).entries(),
    {
        match CountCommand::read_input(&args) {
            Err(message) => Execution::Finished(CommandResult::error(message)),
            Ok(input) => {
                let count = CountCommand::item_count(&input);
                Execution::Finished(CountCommand::report(count as u64))
            },
        }
    }
}

} // verus!
