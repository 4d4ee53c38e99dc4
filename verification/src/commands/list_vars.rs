//! The command `list-vars`.

use crate::assoc::{distinct_keys, to_map};
use crate::commands::command::{Bindings, Command, Execution, ExecutionView};
use crate::commands::CommandRegistry;
use crate::engine::config::ShellConfig;
use crate::engine::types::{CommandResult, CommandResultView};
use crate::engine::variables::VariableManager;
use crate::json::{field_pairs, object_value, text_value, JsonData};
use vstd::prelude::*;

verus! {

/// Lists the variables that are bound.
#[derive(Debug, Clone, Copy)]
pub struct ListVarsCommand;

impl ListVarsCommand {
    /// One line for each binding, in the order of the store.
    pub open spec fn lines(bindings: Bindings) -> Seq<char>
        decreases bindings.len(),
    {
        if bindings.len() == 0 {
            Seq::empty()
        } else {
            Self::lines(bindings.drop_last()) + "  "@ + bindings.last().0 + " = "@
                + bindings.last().1 + "\n"@
        }
    }

    /// The message that lists the bindings.
    pub open spec fn message(bindings: Bindings) -> Seq<char> {
        if bindings.len() == 0 {
            "No variables currently remembered."@
        } else {
            "Remembered variables:\n"@ + Self::lines(bindings)
        }
    }

    /// The bindings as the fields of an object.
    pub open spec fn fields(bindings: Bindings) -> Seq<(Seq<char>, JsonData)> {
        Seq::new(bindings.len(), |i: int| (bindings[i].0, JsonData::Text(bindings[i].1)))
    }

    /// What `list-vars` returns for `bindings`: the list as the message, and
    /// an object with one field for each binding as the payload.
    pub open spec fn outcome(bindings: Bindings) -> CommandResultView {
        CommandResultView::succeeded(
            Some(Self::message(bindings)),
            Some(JsonData::Object(to_map(Self::fields(bindings)))),
        )
    }
}

impl Command for ListVarsCommand {
    fn name(&self) -> (name: &'static str)
        ensures
            name@ == "list-vars"@,
    {
        "list-vars"
    }

    fn description(&self) -> (description: &'static str)
        ensures
            description@ == "Lists all currently remembered variables and their values."@,
    {
        "Lists all currently remembered variables and their values."
    }

    fn usage(&self) -> (usage: &'static str)
        ensures
            usage@ == "list-vars"@,
    {
        "list-vars"
    }

    fn execute(
        &self,
        args: Vec<String>,
        var_manager: &mut VariableManager,
        config: &ShellConfig,
        command_registry: &CommandRegistry,
    ) -> (execution: Execution)
        ensures
            execution@ == ExecutionView::Finished(
                ListVarsCommand::outcome(old(var_manager).entries()),
            ),
            final(var_manager).entries() == old(var_manager).entries(),
    {
        let all_vars = var_manager.get_all();
        let ghost bindings = all_vars.deep_view();
        let mut message = if all_vars.len() == 0 {
            "No variables currently remembered.".to_owned()
        } else {
            "Remembered variables:\n".to_owned()
        };
        let ghost head = message@;
        let mut fields: Vec<(String, serde_json::Value)> = Vec::new();
        let mut i: usize = 0;
        assert(bindings.take(0) =~= Seq::<(Seq<char>, Seq<char>)>::empty());
        assert(head + Seq::<char>::empty() =~= head);
        assert(field_pairs(fields@) =~= ListVarsCommand::fields(bindings.take(0)));
        while i < all_vars.len()
            invariant
                i <= all_vars.len(),
                bindings == all_vars.deep_view(),
                message@ == head + ListVarsCommand::lines(bindings.take(i as int)),
                fields@.len() == i,
                field_pairs(fields@) == ListVarsCommand::fields(bindings.take(i as int)),
            decreases all_vars.len() - i,
        {
            let ghost lines_before = ListVarsCommand::lines(bindings.take(i as int));
            let ghost fields_before = fields@;
            message.append("  ");
            message.append(all_vars[i].0.as_str());
            message.append(" = ");
            message.append(all_vars[i].1.as_str());
            message.append("\n");
            fields.push((all_vars[i].0.clone(), text_value(all_vars[i].1.as_str())));
            proof {
                let next = bindings.take(i + 1);
                assert(next.drop_last() =~= bindings.take(i as int));
                assert(next.last() == (all_vars@[i as int].0@, all_vars@[i as int].1@));
                assert(message@ =~= head + ListVarsCommand::lines(next));
                let target = ListVarsCommand::fields(next);
                assert forall|j: int| 0 <= j < i + 1 implies field_pairs(fields@)[j] == target[j] by {
                    if j < i {
                        assert(fields@[j] == fields_before[j]);
                        assert(field_pairs(fields_before)[j] == ListVarsCommand::fields(
                            bindings.take(i as int),
                        )[j]);
                    }
                }
                assert(field_pairs(fields@) =~= target);
            }
            i += 1;
        }
        proof {
            assert(bindings.take(i as int) =~= bindings);
            let pairs = ListVarsCommand::fields(bindings);
            assert forall|a: int, b: int| 0 <= a < b < pairs.len() implies (#[trigger] pairs[a]).0
                != (#[trigger] pairs[b]).0 by {
                assert(bindings[a].0 != bindings[b].0);
            }
        }
        let data = object_value(fields);
        Execution::Finished(CommandResult::success(Some(message), Some(data)))
    }
}

} // verus!
