//! The command `remember`.

use crate::commands::command::{Bindings, Command, Execution, ExecutionView};
use crate::commands::payload::{two_text_object, two_texts};
use crate::commands::CommandRegistry;
use crate::engine::config::ShellConfig;
use crate::engine::types::{CommandResult, CommandResultView};
use crate::engine::variables::{bind, VariableManager};
use crate::text::same_text;
use vstd::prelude::*;

verus! {

/// Binds a variable: `remember <key> = <value>`.
#[derive(Debug, Clone, Copy)]
pub struct RememberCommand;

/// What `remember` has read of its arguments.
pub struct Remembered {
    /// The arguments before the first `=`, written together.
    pub key: Seq<char>,
    /// The arguments after it, with a space between two of them.
    pub value: Seq<char>,
    /// Whether an argument `=` was seen.
    pub found_equals: bool,
}

impl Remembered {
    /// The state before the first argument.
    pub open spec fn start() -> Remembered {
        Remembered { key: Seq::empty(), value: Seq::empty(), found_equals: false }
    }

    /// The state after the argument `arg`. An argument `=` is never part of
    /// the key or the value. A space is put before an argument that joins a
    /// value which holds something already.
    pub open spec fn step(self, arg: Seq<char>) -> Remembered {
        if arg == "="@ {
            Remembered { found_equals: true, ..self }
        } else if !self.found_equals {
            Remembered { key: self.key + arg, ..self }
        } else if self.value.len() > 0 {
            Remembered { value: self.value + " "@ + arg, ..self }
        } else {
            Remembered { value: arg, ..self }
        }
    }

    /// Whether a key, an `=` and a value were all found.
    pub open spec fn complete(self) -> bool {
        self.key.len() > 0 && self.value.len() > 0 && self.found_equals
    }
}

impl RememberCommand {
    /// What `remember` reads of `args`.
    pub open spec fn read(args: Seq<Seq<char>>) -> Remembered
        decreases args.len(),
    {
        if args.len() == 0 {
            Remembered::start()
        } else {
            Self::read(args.drop_last()).step(args.last())
        }
    }

    /// What `remember` returns on `args`: a failure where the key, the `=`
    /// or the value is missing, and else the binding as message and payload.
    pub open spec fn outcome(args: Seq<Seq<char>>) -> CommandResultView {
        let read = Self::read(args);
        if read.complete() {
            CommandResultView::succeeded(
                Some("Remembered: "@ + read.key + " = "@ + read.value),
                Some(two_text_object("key"@, read.key, "value"@, read.value)),
            )
        } else {
            CommandResultView::failed("Invalid usage. "@ + "remember <key> = <value>"@)
        }
    }

    /// The bindings after `remember` has run on `args`: the key is bound to
    /// the value where both were found, and nothing changes where not.
    pub open spec fn bindings_after(args: Seq<Seq<char>>, bindings: Bindings) -> Bindings {
        let read = Self::read(args);
        if read.complete() {
            bind(bindings, read.key, read.value)
        } else {
            bindings
        }
    }
}

impl Command for RememberCommand {
    fn name(&self) -> (name: &'static str)
        ensures
            name@ == "remember"@,
    {
        "remember"
    }

    fn description(&self) -> (description: &'static str)
        ensures
            description@ == "Stores a key-value pair in memory. Usage: remember key = value"@,
    {
        "Stores a key-value pair in memory. Usage: remember key = value"
    }

    fn usage(&self) -> (usage: &'static str)
        ensures
            usage@ == "remember <key> = <value>"@,
    {
        "remember <key> = <value>"
    }

    fn execute(
        &self,
        args: Vec<String>,
        var_manager: &mut VariableManager,
        config: &ShellConfig,
        command_registry: &CommandRegistry,
    ) -> (execution: Execution)
        ensures
            execution@ == ExecutionView::Finished(RememberCommand::outcome(args.deep_view())),
            final(var_manager).entries() == RememberCommand::bindings_after(
                args.deep_view(),
                old(var_manager).entries(),
            ),
    {
        let mut key = String::new();
        let mut value = String::new();
        let mut found_equals = false;
        let mut i: usize = 0;
        assert(args.deep_view().take(0) =~= Seq::<Seq<char>>::empty());
        while i < args.len()
            invariant
                i <= args.len(),
                RememberCommand::read(args.deep_view().take(i as int)) == (Remembered {
                    key: key@,
                    value: value@,
                    found_equals,
                }),
            decreases args.len() - i,
        {
            proof {
                let next = args.deep_view().take(i + 1);
                assert(next.drop_last() =~= args.deep_view().take(i as int));
                assert(next.last() == args@[i as int]@);
            }
            let arg = args[i].as_str();
            if same_text(arg, "=") {
                found_equals = true;
            } else if !found_equals {
                key.append(arg);
            } else if value.unicode_len() > 0 {
                value.append(" ");
                value.append(arg);
            } else {
                value.append(arg);
                assert(value@ =~= arg@);
            }
            i += 1;
        }
        assert(args.deep_view().take(i as int) =~= args.deep_view());
        if key.unicode_len() == 0 || value.unicode_len() == 0 || !found_equals {
            let mut message = "Invalid usage. ".to_owned();
            message.append(self.usage());
            return Execution::Finished(CommandResult::error(message));
        }
        let mut message = "Remembered: ".to_owned();
        message.append(key.as_str());
        message.append(" = ");
        message.append(value.as_str());
        proof {
            reveal_strlit("key");
            reveal_strlit("value");
            assert("key"@.len() != "value"@.len());
        }
        let data = two_texts("key", key.as_str(), "value", value.as_str());
        var_manager.set(key, value);
        Execution::Finished(CommandResult::success(Some(message), Some(data)))
    }
}

} // verus!
