//! The commands `save-memory` and `load-memory`.

use crate::assoc::to_map;
use crate::commands::command::{
    Bindings, Command, Execution, ExecutionView, HostRequest, HostRequestView,
};
use crate::commands::CommandRegistry;
use crate::engine::config::ShellConfig;
use crate::engine::types::{CommandResult, CommandResultView, VariableStore};
use crate::engine::variables::{bind_all, VariableManager};
use crate::json::{json_parse_strings, json_pretty_strings, JsonData};
use crate::storage::{snapshot_view, MemoryStorage};
use crate::text::{debug_text, quoted};
use vstd::prelude::*;

verus! {

/// The file that holds the variables where no argument names one.
pub open spec fn spec_memory_path(args: Seq<Seq<char>>) -> Seq<char> {
    if args.len() == 0 {
        "shellce_memory.json"@
    } else {
        args[0]
    }
}

/// The file that holds the variables: the first argument, or
/// `shellce_memory.json` where there is none.
pub fn memory_path(args: &Vec<String>) -> (path: String)
    ensures
        path@ == spec_memory_path(args.deep_view()),
{
    if args.len() == 0 {
        "shellce_memory.json".to_owned()
    } else {
        assert(args.deep_view()[0] == args@[0]@);
        args[0].clone()
    }
}

/// Writes the variable store to a file.
#[derive(Debug, Clone, Copy)]
pub struct SaveMemoryCommand;

impl SaveMemoryCommand {
    /// What `save-memory` does on `args` with the bindings `bindings`: it
    /// asks the host to write the text of the store to the file, and fails
    /// where the store cannot be turned into text.
    pub open spec fn outcome(args: Seq<Seq<char>>, bindings: Bindings) -> ExecutionView {
        match json_pretty_strings(to_map(bindings)) {
            Ok(contents) => ExecutionView::Deferred(
                HostRequestView::SaveMemory { path: spec_memory_path(args), contents },
            ),
            Err(_) => ExecutionView::Finished(
                CommandResultView::failed(
                    "Failed to save memory: "@ + "Failed to serialize variable store to JSON"@,
                ),
            ),
        }
    }

    /// The result of `save-memory` once the host has written the file
    /// (`written`), or failed to.
    pub open spec fn spec_finish(path: Seq<char>, written: bool) -> CommandResultView {
        if written {
            CommandResultView::succeeded(
                Some("Variables saved to "@ + debug_text(path)),
                None::<JsonData>,
            )
        } else {
            CommandResultView::failed(
                "Failed to save memory: "@ + "Failed to write memory file: "@ + debug_text(path),
            )
        }
    }

    /// What `save-memory` does once the store has been turned into text, or
    /// could not be.
    pub fn request(path: String, encoded: Result<String, String>) -> (execution: Execution)
        ensures
            execution@ == match encoded {
                Ok(contents) => ExecutionView::Deferred(
                    HostRequestView::SaveMemory { path: path@, contents: contents@ },
                ),
                Err(_) => ExecutionView::Finished(
                    CommandResultView::failed(
                        "Failed to save memory: "@
                            + "Failed to serialize variable store to JSON"@,
                    ),
                ),
            },
    {
        match encoded {
            Ok(contents) => Execution::Deferred(HostRequest::SaveMemory { path, contents }),
            Err(_) => {
                let mut message = "Failed to save memory: ".to_owned();
                message.append("Failed to serialize variable store to JSON");
                Execution::Finished(CommandResult::error(message))
            },
        }
    }

    /// The result of `save-memory` once the host has written the file
    /// (`written`), or failed to.
    pub fn finish(path: &str, written: bool) -> (result: CommandResult)
        ensures
            result@ == Self::spec_finish(path@, written),
    {
        if written {
            let mut message = "Variables saved to ".to_owned();
            message.append(quoted(path).as_str());
            CommandResult::success(Some(message), None)
        } else {
            let mut message = "Failed to save memory: ".to_owned();
            message.append("Failed to write memory file: ");
            message.append(quoted(path).as_str());
            CommandResult::error(message)
        }
    }
}

impl Command for SaveMemoryCommand {
    fn name(&self) -> (name: &'static str)
        ensures
            name@ == "save-memory"@,
    {
        "save-memory"
    }

    fn description(&self) -> (description: &'static str)
        ensures
            description@ == "Saves all current variables to a file."@,
    {
        "Saves all current variables to a file."
    }

    fn usage(&self) -> (usage: &'static str)
        ensures
            usage@ == "save-memory [path]"@,
    {
        "save-memory [path]"
    }

    fn execute(
        &self,
        args: Vec<String>,
        var_manager: &mut VariableManager,
        config: &ShellConfig,
        command_registry: &CommandRegistry,
    ) -> (execution: Execution)
        ensures
            execution@ == SaveMemoryCommand::outcome(
                args.deep_view(),
                old(var_manager).entries(),
            ),
            final(var_manager).entries() == old(var_manager).entries(),
    {
        let path = memory_path(&args);
        let store = var_manager.get_all();
        SaveMemoryCommand::request(path, MemoryStorage::encode(&store))
    }
}

/// Reads the variable store from a file.
#[derive(Debug, Clone, Copy)]
pub struct LoadMemoryCommand;

impl LoadMemoryCommand {
    /// What `load-memory` does on `args`: it asks the host to read the file.
    pub open spec fn outcome(args: Seq<Seq<char>>) -> ExecutionView {
        ExecutionView::Deferred(HostRequestView::LoadMemory { path: spec_memory_path(args) })
    }

    /// The result of `load-memory` for what was made of the file: the
    /// bindings that its text holds (`Ok`), the failure to make sense of the
    /// text (`Err`), or nothing, where the file could not be read.
    pub open spec fn spec_install(
        path: Seq<char>,
        decoded: Option<Result<Bindings, Seq<char>>>,
    ) -> CommandResultView {
        match decoded {
            None => CommandResultView::failed(
                "Failed to load memory: "@ + "Failed to read memory file: "@ + debug_text(path),
            ),
            Some(Err(_)) => CommandResultView::failed(
                "Failed to load memory: "@ + "Failed to parse memory file: "@ + debug_text(path),
            ),
            Some(Ok(_)) => CommandResultView::succeeded(
                Some("Variables loaded from "@ + debug_text(path)),
                None::<JsonData>,
            ),
        }
    }

    /// The bindings after `load-memory`: those of the file take the place of
    /// all that were there, and nothing changes where the file gave none.
    pub open spec fn bindings_after(
        decoded: Option<Result<Bindings, Seq<char>>>,
        bindings: Bindings,
    ) -> Bindings {
        match decoded {
            Some(Ok(loaded)) => bind_all(loaded),
            _ => bindings,
        }
    }

    /// What was made of the contents of the file, where it could be read.
    pub open spec fn decoded(contents: Option<Seq<char>>) -> Option<
        Result<Bindings, Seq<char>>,
    > {
        match contents {
            Some(text) => Some(json_parse_strings(text)),
            None => None,
        }
    }

    /// The model of what was made of the file.
    pub open spec fn decoded_view(decoded: Option<Result<VariableStore, String>>) -> Option<
        Result<Bindings, Seq<char>>,
    > {
        match decoded {
            Some(read) => Some(snapshot_view(read)),
            None => None,
        }
    }

    /// Puts the bindings that were read in the place of those of the store,
    /// and reports on it. `decoded` is what was made of the file at `path`:
    /// nothing where it could not be read.
    pub fn install(
        path: &str,
        decoded: Option<Result<VariableStore, String>>,
        var_manager: &mut VariableManager,
    ) -> (result: CommandResult)
        ensures
            result@ == Self::spec_install(path@, Self::decoded_view(decoded)),
            final(var_manager).entries() == Self::bindings_after(
                Self::decoded_view(decoded),
                old(var_manager).entries(),
            ),
    {
        match decoded {
            None => {
                let mut message = "Failed to load memory: ".to_owned();
                message.append("Failed to read memory file: ");
                message.append(quoted(path).as_str());
                CommandResult::error(message)
            },
            Some(Err(_)) => {
                let mut message = "Failed to load memory: ".to_owned();
                message.append("Failed to parse memory file: ");
                message.append(quoted(path).as_str());
                CommandResult::error(message)
            },
            Some(Ok(loaded)) => {
                var_manager.set_all(loaded);
                let mut message = "Variables loaded from ".to_owned();
                message.append(quoted(path).as_str());
                CommandResult::success(Some(message), None)
            },
        }
    }

    /// The result of `load-memory` once the host has read the file at
    /// `path`: `contents` is its text, or nothing where it could not be
    /// read. The bindings that the text holds take the place of all that
    /// were in the store.
    pub fn finish(path: &str, contents: Option<String>, var_manager: &mut VariableManager) -> (result:
        CommandResult)
        ensures
            result@ == Self::spec_install(path@, Self::decoded(contents.deep_view())),
            final(var_manager).entries() == Self::bindings_after(
                Self::decoded(contents.deep_view()),
                old(var_manager).entries(),
            ),
    {
        let decoded = match contents {
            Some(text) => Some(MemoryStorage::decode(text.as_str())),
            None => None,
        };
        Self::install(path, decoded, var_manager)
    }
}

impl Command for LoadMemoryCommand {
    fn name(&self) -> (name: &'static str)
        ensures
            name@ == "load-memory"@,
    {
        "load-memory"
    }

    fn description(&self) -> (description: &'static str)
        ensures
            description@ == "Loads variables from a file, overwriting current ones."@,
    {
        "Loads variables from a file, overwriting current ones."
    }

    fn usage(&self) -> (usage: &'static str)
        ensures
            usage@ == "load-memory [path]"@,
    {
        "load-memory [path]"
    }

    fn execute(
        &self,
        args: Vec<String>,
        var_manager: &mut VariableManager,
        config: &ShellConfig,
        command_registry: &CommandRegistry,
    ) -> (execution: Execution)
        ensures
            execution@ == LoadMemoryCommand::outcome(args.deep_view()),
            final(var_manager).entries() == old(var_manager).entries(),
    {
        Execution::Deferred(HostRequest::LoadMemory { path: memory_path(&args) })
    }
}

} // verus!
