//! The command `sleep`.

use crate::commands::command::{
    Command, Execution, ExecutionView, HostRequest, HostRequestView,
};
use crate::commands::payload::{number_object, single_number};
use crate::commands::CommandRegistry;
use crate::engine::config::ShellConfig;
use crate::engine::types::{CommandResult, CommandResultView};
use crate::engine::variables::VariableManager;
use crate::text::{decimal, parse_u64, spec_decimal, spec_parse_u64};
use vstd::prelude::*;

verus! {

/// Waits for a number of seconds.
#[derive(Debug, Clone, Copy)]
pub struct SleepCommand;

impl SleepCommand {
    /// What `sleep` does on `args`: it fails without an argument or where
    /// the first argument is no number of seconds, and else asks the host to
    /// wait that long.
    pub open spec fn outcome(args: Seq<Seq<char>>) -> ExecutionView {
        if args.len() == 0 {
            ExecutionView::Finished(
                CommandResultView::failed("Invalid usage. "@ + "sleep <seconds>"@),
            )
        } else {
            match spec_parse_u64(args[0]) {
                Some(seconds) => ExecutionView::Deferred(HostRequestView::Sleep { seconds }),
                None => ExecutionView::Finished(
                    CommandResultView::failed(
                        "Invalid duration: '"@ + args[0]
                            + "'. Please provide a number of seconds."@,
                    ),
                ),
            }
        }
    }

    /// The result of `sleep` once the host has waited `seconds` seconds.
    pub open spec fn spec_finish(seconds: u64) -> CommandResultView {
        CommandResultView::succeeded(
            Some("Slept for "@ + spec_decimal(seconds as nat) + " seconds."@),
            Some(number_object("duration_seconds"@, seconds)),
        )
    }

    /// The result of `sleep` once the host has waited `seconds` seconds.
    pub fn finish(seconds: u64) -> (result: CommandResult)
        ensures
            result@ == Self::spec_finish(seconds),
    {
        let mut message = "Slept for ".to_owned();
        message.append(decimal(seconds).as_str());
        message.append(" seconds.");
        CommandResult::success(Some(message), Some(single_number("duration_seconds", seconds)))
    }
}

impl Command for SleepCommand {
    fn name(&self) -> (name: &'static str)
        ensures
            name@ == "sleep"@,
    {
        "sleep"
    }

    fn description(&self) -> (description: &'static str)
        ensures
            description@ == "Pauses execution for a specified duration in seconds. (Async)"@,
    {
        "Pauses execution for a specified duration in seconds. (Async)"
    }

    fn usage(&self) -> (usage: &'static str)
        ensures
            usage@ == "sleep <seconds>"@,
    {
        "sleep <seconds>"
    }

    fn execute(
        &self,
        args: Vec<String>,
        var_manager: &mut VariableManager,
        config: &ShellConfig,
        command_registry: &CommandRegistry,
    ) -> (execution: Execution)
        ensures
            execution@ == SleepCommand::outcome(args.deep_view()),
            final(var_manager).entries() == old(var_manager).entries(),
    {
        if args.len() == 0 {
            let mut message = "Invalid usage. ".to_owned();
            message.append(self.usage());
            return Execution::Finished(CommandResult::error(message));
        }
        assert(args.deep_view()[0] == args@[0]@);
        match parse_u64(args[0].as_str()) {
            Some(seconds) => Execution::Deferred(HostRequest::Sleep { seconds }),
            None => {
                let mut message = "Invalid duration: '".to_owned();
                message.append(args[0].as_str());
                message.append("'. Please provide a number of seconds.");
                Execution::Finished(CommandResult::error(message))
            },
        }
    }
}

} // verus!
