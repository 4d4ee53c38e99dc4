//! The commands of the interpreter and the registry that holds them.

pub mod command;
pub mod count;
pub mod echo;
pub mod exit;
pub mod fs;
pub mod greet;
pub mod help;
pub mod list_vars;
pub mod payload;
pub mod ping;
pub mod remember;
pub mod save_load;
pub mod sleep;
pub mod source;

use crate::commands::command::{Bindings, Command, Execution, ExecutionView};
use crate::commands::count::CountCommand;
use crate::commands::echo::EchoCommand;
use crate::commands::exit::ExitCommand;
use crate::commands::fs::FsCommand;
use crate::commands::greet::GreetCommand;
use crate::commands::help::HelpCommand;
use crate::commands::list_vars::ListVarsCommand;
use crate::commands::ping::PingCommand;
use crate::commands::remember::RememberCommand;
use crate::commands::save_load::{LoadMemoryCommand, SaveMemoryCommand};
use crate::commands::sleep::SleepCommand;
use crate::commands::source::SourceCommand;
use crate::engine::config::ShellConfig;
use crate::engine::variables::VariableManager;
use crate::text::{lex_less, same_text};
use vstd::prelude::*;

verus! {

/// The commands that the interpreter knows, in the order of their names.
#[derive(Debug, Clone, Copy, PartialEq, Eq, Structural)]
pub enum BuiltinCommand {
    Count,
    Echo,
    Exit,
    Greet,
    Help,
    ListVars,
    LoadMemory,
    Ls,
    Ping,
    Remember,
    SaveMemory,
    Sleep,
    Source,
}

impl BuiltinCommand {
    /// The name under which the command is called.
    pub open spec fn spec_name(self) -> Seq<char> {
        match self {
            BuiltinCommand::Count => "count"@,
            BuiltinCommand::Echo => "echo"@,
            BuiltinCommand::Exit => "exit"@,
            BuiltinCommand::Greet => "greet"@,
            BuiltinCommand::Help => "help"@,
            BuiltinCommand::ListVars => "list-vars"@,
            BuiltinCommand::LoadMemory => "load-memory"@,
            BuiltinCommand::Ls => "ls"@,
            BuiltinCommand::Ping => "ping"@,
            BuiltinCommand::Remember => "remember"@,
            BuiltinCommand::SaveMemory => "save-memory"@,
            BuiltinCommand::Sleep => "sleep"@,
            BuiltinCommand::Source => "source"@,
        }
    }

    /// One line on what the command does.
    pub open spec fn spec_description(self) -> Seq<char> {
        match self {
            BuiltinCommand::Count => "Counts items in structured input (e.g., from a pipeline)."@,
            BuiltinCommand::Echo => "Prints the given text to the console, resolving variables."@,
            BuiltinCommand::Exit => "Exits the Shellce terminal."@,
            BuiltinCommand::Greet => "Greets the specified name or a default value."@,
            BuiltinCommand::Help => "Displays help information for all commands or a specific command."@,
            BuiltinCommand::ListVars => "Lists all currently remembered variables and their values."@,
            BuiltinCommand::LoadMemory => "Loads variables from a file, overwriting current ones."@,
            BuiltinCommand::Ls => "Lists files in a directory."@,
            BuiltinCommand::Ping => "Responds with 'pong'."@,
            BuiltinCommand::Remember => "Stores a key-value pair in memory. Usage: remember key = value"@,
            BuiltinCommand::SaveMemory => "Saves all current variables to a file."@,
            BuiltinCommand::Sleep => "Pauses execution for a specified duration in seconds. (Async)"@,
            BuiltinCommand::Source => "Executes commands from a specified Shellce script file (.sf)."@,
        }
    }

    /// How the command is called.
    pub open spec fn spec_usage(self) -> Seq<char> {
        match self {
            BuiltinCommand::Count => "count [--input-data <json_string>]"@,
            BuiltinCommand::Echo => "echo [text with {variables}]"@,
            BuiltinCommand::Exit => "exit"@,
            BuiltinCommand::Greet => "greet [name]"@,
            BuiltinCommand::Help => "help [command_name]"@,
            BuiltinCommand::ListVars => "list-vars"@,
            BuiltinCommand::LoadMemory => "load-memory [path]"@,
            BuiltinCommand::Ls => "ls <directory>"@,
            BuiltinCommand::Ping => "ping"@,
            BuiltinCommand::Remember => "remember <key> = <value>"@,
            BuiltinCommand::SaveMemory => "save-memory [path]"@,
            BuiltinCommand::Sleep => "sleep <seconds>"@,
            BuiltinCommand::Source => "source <file_path>"@,
        }
    }

    /// All commands, in the order of their names.
    pub open spec fn all() -> Seq<BuiltinCommand> {
        seq![
            BuiltinCommand::Count,
            BuiltinCommand::Echo,
            BuiltinCommand::Exit,
            BuiltinCommand::Greet,
            BuiltinCommand::Help,
            BuiltinCommand::ListVars,
            BuiltinCommand::LoadMemory,
            BuiltinCommand::Ls,
            BuiltinCommand::Ping,
            BuiltinCommand::Remember,
            BuiltinCommand::SaveMemory,
            BuiltinCommand::Sleep,
            BuiltinCommand::Source,
        ]
    }

    /// The command that is called `name`, if there is one.
    pub open spec fn named(name: Seq<char>) -> Option<BuiltinCommand> {
        if name == "count"@ {
            Some(BuiltinCommand::Count)
        } else if name == "echo"@ {
            Some(BuiltinCommand::Echo)
        } else if name == "exit"@ {
            Some(BuiltinCommand::Exit)
        } else if name == "greet"@ {
            Some(BuiltinCommand::Greet)
        } else if name == "help"@ {
            Some(BuiltinCommand::Help)
        } else if name == "list-vars"@ {
            Some(BuiltinCommand::ListVars)
        } else if name == "load-memory"@ {
            Some(BuiltinCommand::LoadMemory)
        } else if name == "ls"@ {
            Some(BuiltinCommand::Ls)
        } else if name == "ping"@ {
            Some(BuiltinCommand::Ping)
        } else if name == "remember"@ {
            Some(BuiltinCommand::Remember)
        } else if name == "save-memory"@ {
            Some(BuiltinCommand::SaveMemory)
        } else if name == "sleep"@ {
            Some(BuiltinCommand::Sleep)
        } else if name == "source"@ {
            Some(BuiltinCommand::Source)
        } else {
            None
        }
    }

    /// What the command does on `args`, with the bindings `bindings` in the
    /// store and the commands `registered` in the registry: how far it
    /// comes, and the bindings that it leaves.
    pub open spec fn spec_execute(
        self,
        args: Seq<Seq<char>>,
        bindings: Bindings,
        registered: Set<BuiltinCommand>,
    ) -> (ExecutionView, Bindings) {
        match self {
            BuiltinCommand::Count => (
                ExecutionView::Finished(CountCommand::outcome(args)),
                bindings,
            ),
            BuiltinCommand::Echo => (ExecutionView::Finished(EchoCommand::outcome(args)), bindings),
            BuiltinCommand::Exit => (ExecutionView::Finished(ExitCommand::outcome()), bindings),
            BuiltinCommand::Greet => (
                ExecutionView::Finished(GreetCommand::outcome(args)),
                bindings,
            ),
            BuiltinCommand::Help => (
                ExecutionView::Finished(HelpCommand::outcome(args, registered)),
                bindings,
            ),
            BuiltinCommand::ListVars => (
                ExecutionView::Finished(ListVarsCommand::outcome(bindings)),
                bindings,
            ),
            BuiltinCommand::LoadMemory => (LoadMemoryCommand::outcome(args), bindings),
            BuiltinCommand::Ls => (FsCommand::outcome(args), bindings),
            BuiltinCommand::Ping => (ExecutionView::Finished(PingCommand::outcome()), bindings),
            BuiltinCommand::Remember => (
                ExecutionView::Finished(RememberCommand::outcome(args)),
                RememberCommand::bindings_after(args, bindings),
            ),
            BuiltinCommand::SaveMemory => (SaveMemoryCommand::outcome(args, bindings), bindings),
            BuiltinCommand::Sleep => (SleepCommand::outcome(args), bindings),
            BuiltinCommand::Source => (SourceCommand::outcome(args), bindings),
        }
    }

    /// All commands, in the order of their names.
    pub fn every() -> (commands: Vec<BuiltinCommand>)
        ensures
            commands@ == Self::all(),
    {
        let mut commands: Vec<BuiltinCommand> = Vec::new();
        commands.push(BuiltinCommand::Count);
        commands.push(BuiltinCommand::Echo);
        commands.push(BuiltinCommand::Exit);
        commands.push(BuiltinCommand::Greet);
        commands.push(BuiltinCommand::Help);
        commands.push(BuiltinCommand::ListVars);
        commands.push(BuiltinCommand::LoadMemory);
        commands.push(BuiltinCommand::Ls);
        commands.push(BuiltinCommand::Ping);
        commands.push(BuiltinCommand::Remember);
        commands.push(BuiltinCommand::SaveMemory);
        commands.push(BuiltinCommand::Sleep);
        commands.push(BuiltinCommand::Source);
        assert(commands@ =~= Self::all());
        commands
    }

    /// The command that is called `name`, if there is one.
    pub fn from_name(name: &str) -> (command: Option<BuiltinCommand>)
        ensures
            command == Self::named(name@),
    {
        if same_text(name, "count") {
            Some(BuiltinCommand::Count)
        } else if same_text(name, "echo") {
            Some(BuiltinCommand::Echo)
        } else if same_text(name, "exit") {
            Some(BuiltinCommand::Exit)
        } else if same_text(name, "greet") {
            Some(BuiltinCommand::Greet)
        } else if same_text(name, "help") {
            Some(BuiltinCommand::Help)
        } else if same_text(name, "list-vars") {
            Some(BuiltinCommand::ListVars)
        } else if same_text(name, "load-memory") {
            Some(BuiltinCommand::LoadMemory)
        } else if same_text(name, "ls") {
            Some(BuiltinCommand::Ls)
        } else if same_text(name, "ping") {
            Some(BuiltinCommand::Ping)
        } else if same_text(name, "remember") {
            Some(BuiltinCommand::Remember)
        } else if same_text(name, "save-memory") {
            Some(BuiltinCommand::SaveMemory)
        } else if same_text(name, "sleep") {
            Some(BuiltinCommand::Sleep)
        } else if same_text(name, "source") {
            Some(BuiltinCommand::Source)
        } else {
            None
        }
    }
}

/// Two commands that differ have names that differ, and each command is
/// the one that is called by its name.
pub proof fn lemma_names_differ(a: BuiltinCommand, b: BuiltinCommand)
    ensures
        a != b ==> a.spec_name() != b.spec_name(),
        BuiltinCommand::named(a.spec_name()) == Some(a),
{
    reveal_strlit("count");
    reveal_strlit("echo");
    reveal_strlit("exit");
    reveal_strlit("greet");
    reveal_strlit("help");
    reveal_strlit("list-vars");
    reveal_strlit("load-memory");
    reveal_strlit("ls");
    reveal_strlit("ping");
    reveal_strlit("remember");
    reveal_strlit("save-memory");
    reveal_strlit("sleep");
    reveal_strlit("source");
    assert("count"@.len() == 5 && "greet"@.len() == 5 && "sleep"@.len() == 5);
    assert("echo"@.len() == 4 && "exit"@.len() == 4 && "help"@.len() == 4 && "ping"@.len() == 4);
    assert("list-vars"@.len() == 9 && "ls"@.len() == 2 && "remember"@.len() == 8);
    assert("load-memory"@.len() == 11 && "save-memory"@.len() == 11 && "source"@.len() == 6);
    assert("count"@[0] == 'c' && "greet"@[0] == 'g' && "sleep"@[0] == 's');
    assert("echo"@[0] == 'e' && "exit"@[0] == 'e' && "help"@[0] == 'h' && "ping"@[0] == 'p');
    assert("echo"@[1] == 'c' && "exit"@[1] == 'x');
    assert("load-memory"@[0] == 'l' && "save-memory"@[0] == 's');
}

impl Command for BuiltinCommand {
    fn name(&self) -> (name: &'static str)
        ensures
            name@ == self.spec_name(),
    {
        match self {
            BuiltinCommand::Count => CountCommand.name(),
            BuiltinCommand::Echo => EchoCommand.name(),
            BuiltinCommand::Exit => ExitCommand.name(),
            BuiltinCommand::Greet => GreetCommand.name(),
            BuiltinCommand::Help => HelpCommand.name(),
            BuiltinCommand::ListVars => ListVarsCommand.name(),
            BuiltinCommand::LoadMemory => LoadMemoryCommand.name(),
            BuiltinCommand::Ls => FsCommand.name(),
            BuiltinCommand::Ping => PingCommand.name(),
            BuiltinCommand::Remember => RememberCommand.name(),
            BuiltinCommand::SaveMemory => SaveMemoryCommand.name(),
            BuiltinCommand::Sleep => SleepCommand.name(),
            BuiltinCommand::Source => SourceCommand.name(),
        }
    }

    fn description(&self) -> (description: &'static str)
        ensures
            description@ == self.spec_description(),
    {
        match self {
            BuiltinCommand::Count => CountCommand.description(),
            BuiltinCommand::Echo => EchoCommand.description(),
            BuiltinCommand::Exit => ExitCommand.description(),
            BuiltinCommand::Greet => GreetCommand.description(),
            BuiltinCommand::Help => HelpCommand.description(),
            BuiltinCommand::ListVars => ListVarsCommand.description(),
            BuiltinCommand::LoadMemory => LoadMemoryCommand.description(),
            BuiltinCommand::Ls => FsCommand.description(),
            BuiltinCommand::Ping => PingCommand.description(),
            BuiltinCommand::Remember => RememberCommand.description(),
            BuiltinCommand::SaveMemory => SaveMemoryCommand.description(),
            BuiltinCommand::Sleep => SleepCommand.description(),
            BuiltinCommand::Source => SourceCommand.description(),
        }
    }

    fn usage(&self) -> (usage: &'static str)
        ensures
            usage@ == self.spec_usage(),
    {
        match self {
            BuiltinCommand::Count => CountCommand.usage(),
            BuiltinCommand::Echo => EchoCommand.usage(),
            BuiltinCommand::Exit => ExitCommand.usage(),
            BuiltinCommand::Greet => GreetCommand.usage(),
            BuiltinCommand::Help => HelpCommand.usage(),
            BuiltinCommand::ListVars => ListVarsCommand.usage(),
            BuiltinCommand::LoadMemory => LoadMemoryCommand.usage(),
            BuiltinCommand::Ls => FsCommand.usage(),
            BuiltinCommand::Ping => PingCommand.usage(),
            BuiltinCommand::Remember => RememberCommand.usage(),
            BuiltinCommand::SaveMemory => SaveMemoryCommand.usage(),
            BuiltinCommand::Sleep => SleepCommand.usage(),
            BuiltinCommand::Source => SourceCommand.usage(),
        }
    }

    fn execute(
        &self,
        args: Vec<String>,
        var_manager: &mut VariableManager,
        config: &ShellConfig,
        command_registry: &CommandRegistry,
    ) -> (execution: Execution)
        ensures
            execution@ == self.spec_execute(
                args.deep_view(),
                old(var_manager).entries(),
                command_registry@,
            ).0,
            final(var_manager).entries() == self.spec_execute(
                args.deep_view(),
                old(var_manager).entries(),
                command_registry@,
            ).1,
    {
        match self {
            BuiltinCommand::Count => CountCommand.execute(
                args,
                var_manager,
                config,
                command_registry,
            ),
            BuiltinCommand::Echo => EchoCommand.execute(args, var_manager, config, command_registry),
            BuiltinCommand::Exit => ExitCommand.execute(args, var_manager, config, command_registry),
            BuiltinCommand::Greet => GreetCommand.execute(
                args,
                var_manager,
                config,
                command_registry,
            ),
            BuiltinCommand::Help => HelpCommand.execute(args, var_manager, config, command_registry),
            BuiltinCommand::ListVars => ListVarsCommand.execute(
                args,
                var_manager,
                config,
                command_registry,
            ),
            BuiltinCommand::LoadMemory => LoadMemoryCommand.execute(
                args,
                var_manager,
                config,
                command_registry,
            ),
            BuiltinCommand::Ls => FsCommand.execute(args, var_manager, config, command_registry),
            BuiltinCommand::Ping => PingCommand.execute(args, var_manager, config, command_registry),
            BuiltinCommand::Remember => RememberCommand.execute(
                args,
                var_manager,
                config,
                command_registry,
            ),
            BuiltinCommand::SaveMemory => SaveMemoryCommand.execute(
                args,
                var_manager,
                config,
                command_registry,
            ),
            BuiltinCommand::Sleep => SleepCommand.execute(
                args,
                var_manager,
                config,
                command_registry,
            ),
            BuiltinCommand::Source => SourceCommand.execute(
                args,
                var_manager,
                config,
                command_registry,
            ),
        }
    }
}

/// The command that `name` calls among the commands `registered`.
pub open spec fn spec_lookup(registered: Set<BuiltinCommand>, name: Seq<char>) -> Option<
    BuiltinCommand,
> {
    match BuiltinCommand::named(name) {
        Some(command) => if registered.contains(command) {
            Some(command)
        } else {
            None
        },
        None => None,
    }
}

/// Those of `candidates` that are among `registered`, in their order.
pub open spec fn listing(candidates: Seq<BuiltinCommand>, registered: Set<BuiltinCommand>) -> Seq<
    BuiltinCommand,
>
    decreases candidates.len(),
{
    if candidates.len() == 0 {
        Seq::empty()
    } else if registered.contains(candidates.last()) {
        listing(candidates.drop_last(), registered).push(candidates.last())
    } else {
        listing(candidates.drop_last(), registered)
    }
}

/// The position of a command in the list of all commands.
pub open spec fn rank(command: BuiltinCommand) -> int {
    match command {
        BuiltinCommand::Count => 0,
        BuiltinCommand::Echo => 1,
        BuiltinCommand::Exit => 2,
        BuiltinCommand::Greet => 3,
        BuiltinCommand::Help => 4,
        BuiltinCommand::ListVars => 5,
        BuiltinCommand::LoadMemory => 6,
        BuiltinCommand::Ls => 7,
        BuiltinCommand::Ping => 8,
        BuiltinCommand::Remember => 9,
        BuiltinCommand::SaveMemory => 10,
        BuiltinCommand::Sleep => 11,
        BuiltinCommand::Source => 12,
    }
}

/// Candidates are in rising order when each stands before those of higher
/// rank only.
pub open spec fn rising(candidates: Seq<BuiltinCommand>) -> bool {
    forall|i: int, j: int|
        0 <= i < j < candidates.len() ==> rank(#[trigger] candidates[i]) < rank(
            #[trigger] candidates[j],
        )
}

/// A listing of rising candidates is rising, and holds none of higher rank
/// than its candidates.
pub proof fn lemma_listing_rising(candidates: Seq<BuiltinCommand>, registered: Set<BuiltinCommand>)
    requires
        rising(candidates),
    ensures
        rising(listing(candidates, registered)),
        forall|i: int|
            0 <= i < listing(candidates, registered).len() ==> exists|j: int|
                0 <= j < candidates.len() && candidates[j] == #[trigger] listing(
                    candidates,
                    registered,
                )[i],
    decreases candidates.len(),
{
    if candidates.len() > 0 {
        let front = candidates.drop_last();
        assert(rising(front)) by {
            assert forall|i: int, j: int| 0 <= i < j < front.len() implies rank(
                #[trigger] front[i],
            ) < rank(#[trigger] front[j]) by {
                assert(rank(candidates[i]) < rank(candidates[j]));
            }
        }
        lemma_listing_rising(front, registered);
        let shorter = listing(front, registered);
        let whole = listing(candidates, registered);
        assert forall|i: int| 0 <= i < whole.len() implies exists|j: int|
            0 <= j < candidates.len() && candidates[j] == #[trigger] whole[i] by {
            if i < shorter.len() {
                let j = choose|j: int| 0 <= j < front.len() && front[j] == shorter[i];
                assert(candidates[j] == whole[i]);
            } else {
                assert(candidates[candidates.len() - 1] == whole[i]);
            }
        }
        assert forall|i: int, j: int| 0 <= i < j < whole.len() implies rank(#[trigger] whole[i])
            < rank(#[trigger] whole[j]) by {
            if j < shorter.len() {
                assert(rank(shorter[i]) < rank(shorter[j]));
            } else {
                let k = choose|k: int| 0 <= k < front.len() && front[k] == shorter[i];
                assert(rank(candidates[k]) < rank(candidates[candidates.len() - 1]));
            }
        }
    }
}

/// The list of all commands is in rising order.
pub proof fn lemma_all_rising()
    ensures
        rising(BuiltinCommand::all()),
{
    let candidates = BuiltinCommand::all();
    assert forall|i: int, j: int| 0 <= i < j < candidates.len() implies rank(
        #[trigger] candidates[i],
    ) < rank(#[trigger] candidates[j]) by {
        assert(forall|k: int| 0 <= k < 13 ==> rank(#[trigger] candidates[k]) == k);
    }
}

/// No command stands twice in a listing of all commands.
pub proof fn lemma_listing_distinct(candidates: Seq<BuiltinCommand>, registered: Set<BuiltinCommand>)
    requires
        candidates == BuiltinCommand::all(),
    ensures
        forall|i: int, j: int|
            0 <= i < j < listing(candidates, registered).len() ==> #[trigger] listing(
                candidates,
                registered,
            )[i] != #[trigger] listing(candidates, registered)[j],
{
    lemma_all_rising();
    lemma_listing_rising(candidates, registered);
    let listed = listing(candidates, registered);
    assert forall|i: int, j: int| 0 <= i < j < listed.len() implies #[trigger] listed[i]
        != #[trigger] listed[j] by {
        assert(rank(listed[i]) < rank(listed[j]));
    }
}

/// The commands stand in the order of their names: a command of lower rank
/// has the name that comes first.
pub proof fn lemma_rank_orders_names(a: BuiltinCommand, b: BuiltinCommand)
    requires
        rank(a) < rank(b),
    ensures
        lex_less(a.spec_name(), b.spec_name()),
{
    reveal_with_fuel(lex_less, 3);
    reveal_strlit("count");
    reveal_strlit("echo");
    reveal_strlit("exit");
    reveal_strlit("greet");
    reveal_strlit("help");
    reveal_strlit("list-vars");
    reveal_strlit("load-memory");
    reveal_strlit("ls");
    reveal_strlit("ping");
    reveal_strlit("remember");
    reveal_strlit("save-memory");
    reveal_strlit("sleep");
    reveal_strlit("source");
    let x = a.spec_name();
    let y = b.spec_name();
    assert(x.len() >= 2 && y.len() >= 2);
    assert(x.drop_first()[0] == x[1]);
    assert(y.drop_first()[0] == y[1]);
    assert("count"@[0] == 'c' && "greet"@[0] == 'g' && "help"@[0] == 'h' && "ping"@[0] == 'p'
        && "remember"@[0] == 'r');
    assert("echo"@[0] == 'e' && "echo"@[1] == 'c' && "exit"@[0] == 'e' && "exit"@[1] == 'x');
    assert("list-vars"@[0] == 'l' && "list-vars"@[1] == 'i' && "load-memory"@[0] == 'l'
        && "load-memory"@[1] == 'o' && "ls"@[0] == 'l' && "ls"@[1] == 's');
    assert("save-memory"@[0] == 's' && "save-memory"@[1] == 'a' && "sleep"@[0] == 's' && "sleep"@[1]
        == 'l' && "source"@[0] == 's' && "source"@[1] == 'o');
}

/// The listing of a registry is sorted by name: of two commands in it, the
/// one that stands first has the name that comes first.
pub proof fn lemma_listing_sorted_by_name(registered: Set<BuiltinCommand>, i: int, j: int)
    requires
        0 <= i < j < listing(BuiltinCommand::all(), registered).len(),
    ensures
        lex_less(
            listing(BuiltinCommand::all(), registered)[i].spec_name(),
            listing(BuiltinCommand::all(), registered)[j].spec_name(),
        ),
{
    let candidates = BuiltinCommand::all();
    lemma_all_rising();
    lemma_listing_rising(candidates, registered);
    let listed = listing(candidates, registered);
    assert(rank(listed[i]) < rank(listed[j]));
    lemma_rank_orders_names(listed[i], listed[j]);
}

/// The registry: the commands that can be called, each under its name.
///
/// A command is registered once, however often it is put in, so no name
/// stands for two commands.
#[derive(Debug, Clone)]
pub struct CommandRegistry {
    registered: Vec<BuiltinCommand>,
}

impl View for CommandRegistry {
    type V = Set<BuiltinCommand>;

    /// The commands that are registered.
    closed spec fn view(&self) -> Set<BuiltinCommand> {
        self.registered@.to_set()
    }
}

impl CommandRegistry {
    /// A registry without commands.
    pub fn new() -> (registry: Self)
        ensures
            registry@ == Set::<BuiltinCommand>::empty(),
    {
        let registry = CommandRegistry { registered: Vec::new() };
        assert(registry.registered@.to_set() =~= Set::<BuiltinCommand>::empty());
        registry
    }

    /// Whether `command` is registered.
    pub fn contains(&self, command: BuiltinCommand) -> (found: bool)
        ensures
            found == self@.contains(command),
    {
        let mut i: usize = 0;
        while i < self.registered.len()
            invariant
                i <= self.registered.len(),
                forall|j: int| 0 <= j < i ==> self.registered@[j] != command,
            decreases self.registered.len() - i,
        {
            if self.registered[i] == command {
                assert(self.registered@.contains(command));
                return true;
            }
            i += 1;
        }
        false
    }

    /// Registers `command` under its name. A command that is registered
    /// already stays as it is.
    pub fn register(&mut self, command: BuiltinCommand)
        ensures
            final(self)@ == old(self)@.insert(command),
    {
        if !self.contains(command) {
            self.registered.push(command);
            assert(self.registered@.to_set() =~= old(self).registered@.to_set().insert(command)) by {
                assert forall|c: BuiltinCommand|
                    self.registered@.to_set().contains(c) <==> old(
                        self,
                    ).registered@.to_set().insert(command).contains(c) by {
                    if self.registered@.contains(c) {
                        let j = choose|j: int|
                            0 <= j < self.registered@.len() && self.registered@[j] == c;
                        if j < old(self).registered@.len() {
                            assert(old(self).registered@[j] == c);
                        }
                    }
                    if old(self).registered@.contains(c) {
                        let j = choose|j: int|
                            0 <= j < old(self).registered@.len() && old(self).registered@[j] == c;
                        assert(self.registered@[j] == c);
                    }
                    if c == command {
                        assert(self.registered@[self.registered@.len() - 1] == c);
                    }
                }
            }
        } else {
            assert(old(self)@.insert(command) =~= old(self)@);
        }
    }

    /// The command that `name` calls, if one of that name is registered.
    pub fn get(&self, name: &str) -> (found: Option<BuiltinCommand>)
        ensures
            found == spec_lookup(self@, name@),
    {
        match BuiltinCommand::from_name(name) {
            Some(command) => if self.contains(command) {
                Some(command)
            } else {
                None
            },
            None => None,
        }
    }

    /// The commands that are registered, in the order of their names.
    pub fn commands(&self) -> (listed: Vec<BuiltinCommand>)
        ensures
            listed@ == listing(BuiltinCommand::all(), self@),
    {
        let every = BuiltinCommand::every();
        let mut listed: Vec<BuiltinCommand> = Vec::new();
        let mut i: usize = 0;
        assert(every@.take(0) =~= Seq::<BuiltinCommand>::empty());
        while i < every.len()
            invariant
                i <= every.len(),
                every@ == BuiltinCommand::all(),
                listed@ == listing(every@.take(i as int), self@),
            decreases every.len() - i,
        {
            proof {
                let next = every@.take(i + 1);
                assert(next.drop_last() =~= every@.take(i as int));
                assert(next.last() == every@[i as int]);
            }
            if self.contains(every[i]) {
                listed.push(every[i]);
            }
            i += 1;
        }
        assert(every@.take(i as int) =~= every@);
        listed
    }
}

/// The registry with every command of the interpreter.
pub fn get_command_registry() -> (registry: CommandRegistry)
    ensures
        forall|command: BuiltinCommand| registry@.contains(command),
{
    let mut registry = CommandRegistry::new();
    registry.register(BuiltinCommand::Greet);
    registry.register(BuiltinCommand::Remember);
    registry.register(BuiltinCommand::Echo);
    registry.register(BuiltinCommand::ListVars);
    registry.register(BuiltinCommand::SaveMemory);
    registry.register(BuiltinCommand::LoadMemory);
    registry.register(BuiltinCommand::Help);
    registry.register(BuiltinCommand::Exit);
    registry.register(BuiltinCommand::Source);
    registry.register(BuiltinCommand::Ping);
    registry.register(BuiltinCommand::Sleep);
    registry.register(BuiltinCommand::Ls);
    registry.register(BuiltinCommand::Count);
    registry
}

} // verus!
