//! The command `ls`.

use crate::commands::command::{
    Command, Execution, ExecutionView, HostRequest, HostRequestView,
};
use crate::commands::CommandRegistry;
use crate::engine::config::ShellConfig;
use crate::engine::types::{CommandResult, CommandResultView};
use crate::engine::variables::VariableManager;
use crate::json::JsonData;
use vstd::prelude::*;

verus! {

/// Lists the entries of a directory.
#[derive(Debug, Clone, Copy)]
pub struct FsCommand;

impl FsCommand {
    /// What `ls` does on `args`: it fails without an argument, and else asks
    /// the host for the entries of the directory that the first one names.
    pub open spec fn outcome(args: Seq<Seq<char>>) -> ExecutionView {
        if args.len() == 0 {
            ExecutionView::Finished(CommandResultView::failed("No directory specified"@))
        } else {
            ExecutionView::Deferred(HostRequestView::ListDirectory { path: args[0] })
        }
    }

    /// One line for each entry.
    pub open spec fn entry_lines(names: Seq<Seq<char>>) -> Seq<char>
        decreases names.len(),
    {
        if names.len() == 0 {
            Seq::empty()
        } else {
            Self::entry_lines(names.drop_last()) + " - "@ + names.last() + "\n"@
        }
    }

    /// The text that shows the entries `names` of the directory `path`.
    pub open spec fn spec_listing(path: Seq<char>, names: Seq<Seq<char>>) -> Seq<char> {
        "Contents of "@ + path + ":\n"@ + Self::entry_lines(names)
    }

    /// The result of `ls` once the host has read the directory, or failed
    /// to.
    pub open spec fn spec_finish(listed: bool) -> CommandResultView {
        if listed {
            CommandResultView::succeeded(Some("Listed files"@), None::<JsonData>)
        } else {
            CommandResultView::failed("Failed to read directory"@)
        }
    }

    /// The text that shows the entries `names` of the directory `path`.
    pub fn listing(path: &str, names: &Vec<String>) -> (text: String)
        ensures
            text@ == Self::spec_listing(path@, names.deep_view()),
    {
        let mut text = "Contents of ".to_owned();
        text.append(path);
        text.append(":\n");
        let ghost head = text@;
        let mut i: usize = 0;
        assert(names.deep_view().take(0) =~= Seq::<Seq<char>>::empty());
        assert(head + Seq::<char>::empty() =~= head);
        while i < names.len()
            invariant
                i <= names.len(),
                text@ == head + Self::entry_lines(names.deep_view().take(i as int)),
            decreases names.len() - i,
        {
            text.append(" - ");
            text.append(names[i].as_str());
            text.append("\n");
            proof {
                let next = names.deep_view().take(i + 1);
                assert(next.drop_last() =~= names.deep_view().take(i as int));
                assert(next.last() == names@[i as int]@);
                assert(text@ =~= head + Self::entry_lines(next));
            }
            i += 1;
        }
        assert(names.deep_view().take(i as int) =~= names.deep_view());
        text
    }

    /// The result of `ls` once the host has read the directory (`listed`),
    /// or failed to.
    pub fn finish(listed: bool) -> (result: CommandResult)
        ensures
            result@ == Self::spec_finish(listed),
    {
        if listed {
            CommandResult::success(Some("Listed files".to_owned()), None)
        } else {
            CommandResult::error("Failed to read directory".to_owned())
        }
    }
}

impl Command for FsCommand {
    fn name(&self) -> (name: &'static str)
        ensures
            name@ == "ls"@,
    {
        "ls"
    }

    fn description(&self) -> (description: &'static str)
        ensures
            description@ == "Lists files in a directory."@,
    {
        "Lists files in a directory."
    }

    fn usage(&self) -> (usage: &'static str)
        ensures
            usage@ == "ls <directory>"@,
    {
        "ls <directory>"
    }

    fn execute(
        &self,
        args: Vec<String>,
        var_manager: &mut VariableManager,
        config: &ShellConfig,
        command_registry: &CommandRegistry,
    ) -> (execution: Execution)
        ensures
            execution@ == FsCommand::outcome(args.deep_view()),
            final(var_manager).entries() == old(var_manager).entries(),
    {
        if args.len() == 0 {
            return Execution::Finished(CommandResult::error("No directory specified".to_owned()));
        }
        assert(args.deep_view()[0] == args@[0]@);
        Execution::Deferred(HostRequest::ListDirectory { path: args[0].clone() })
    }
}

} // verus!
