//! The dispatcher: from a line of text to the result of its pipeline.
//!
//! A dispatch resolves at most one alias, parses the line, and walks the
//! stages in order. A stage that the library can run is run at once. A
//! stage that needs the host suspends the walk: the caller does the work,
//! lets the command finish, and resumes the walk with the result of the
//! stage. The first stage that fails ends the walk.

use crate::assoc::to_map;
use crate::commands::command::{
    Bindings, Command, Execution, ExecutionView, HostRequest, HostRequestView,
};
use crate::commands::{spec_lookup, BuiltinCommand, CommandRegistry};
use crate::engine::config::ShellConfig;
use crate::engine::types::{
    payload_view, stages_view, CommandResult, CommandResultView, PipelineCommand, StageView,
};
use crate::engine::variables::VariableManager;
use crate::json::{json_model, json_text, to_text, JsonData};
use crate::parser::{parse_pipeline, spec_parse_pipeline};
use crate::text::{from_chars, same_text, starts_with, to_chars};
use vstd::prelude::*;

verus! {

/// Where a dispatch stands when it hands control back.
#[derive(Debug)]
pub enum DispatchStep {
    /// The pipeline is over, with this result.
    Finished(CommandResult),
    /// A stage waits for the host to do `request`; `remaining` holds the
    /// stages after it.
    Suspended { request: HostRequest, remaining: Vec<PipelineCommand> },
}

/// The model of a [`DispatchStep`].
pub enum DispatchStepView {
    Finished(CommandResultView),
    Suspended { request: HostRequestView, remaining: Seq<StageView> },
}

impl View for DispatchStep {
    type V = DispatchStepView;

    open spec fn view(&self) -> DispatchStepView {
        match self {
            DispatchStep::Finished(result) => DispatchStepView::Finished(result@),
            DispatchStep::Suspended { request, remaining } => DispatchStepView::Suspended {
                request: request@,
                remaining: stages_view(remaining@),
            },
        }
    }
}

/// What a dispatcher works with: the commands that are registered, the
/// aliases, and the names of the commands that may run, of which an empty
/// list lets every command run.
pub struct Setting {
    pub registered: Set<BuiltinCommand>,
    pub aliases: Seq<(Seq<char>, Seq<char>)>,
    pub enabled: Seq<Seq<char>>,
}

/// The setting of a dispatcher under a configuration.
pub open spec fn setting_of(dispatcher: &CommandDispatcher, config: &ShellConfig) -> Setting {
    Setting {
        registered: dispatcher.registered(),
        aliases: config.aliases.deep_view(),
        enabled: config.enabled_commands.deep_view(),
    }
}

/// The line after alias resolution: the first alias of the list that the
/// line begins with is replaced, once, by what it stands for. No alias is
/// looked for in what was put in.
pub open spec fn spec_resolve_alias(line: Seq<char>, aliases: Seq<(Seq<char>, Seq<char>)>) -> Seq<
    char,
>
    decreases aliases.len(),
{
    if aliases.len() == 0 {
        line
    } else if aliases[0].0.is_prefix_of(line) {
        aliases[0].1 + line.skip(aliases[0].0.len() as int)
    } else {
        spec_resolve_alias(line, aliases.drop_first())
    }
}

/// The arguments that a stage is run on: its own, followed by
/// `--input-data` and the text of the payload where the stage before it
/// handed one on.
pub open spec fn spec_stage_arguments(args: Seq<Seq<char>>, carried: Option<JsonData>) -> Seq<
    Seq<char>,
> {
    match carried {
        Some(data) => args.push("--input-data"@).push(json_text(data)),
        None => args,
    }
}

/// The command that runs a stage called `name`, or the message of the
/// failure: no command of that name is registered, or the configuration
/// names the commands that may run and this is none of them.
pub open spec fn spec_permit(setting: Setting, name: Seq<char>) -> Result<
    BuiltinCommand,
    Seq<char>,
> {
    match spec_lookup(setting.registered, name) {
        None => Err("Unknown command in pipeline: '"@ + name + "'."@),
        Some(command) => if setting.enabled.len() > 0 && !setting.enabled.contains(name) {
            Err("Command '"@ + name + "' is disabled."@)
        } else {
            Ok(command)
        },
    }
}

/// The result of a pipeline without stages: a success that hands on the
/// payload that was carried.
pub open spec fn spec_nothing_left(carried: Option<JsonData>) -> CommandResultView {
    CommandResultView::succeeded(Some("Pipeline executed successfully."@), carried)
}

/// What walking `stages` comes to, with `carried` the payload of the stage
/// before them and `bindings` the contents of the store: where the walk
/// stops, and the bindings it leaves.
///
/// Each stage is permitted and run on its arguments. A stage that is not
/// permitted, or that fails, ends the walk with its failure. A stage that
/// needs the host suspends it. The last stage ends it with its result. The
/// payload of a stage that succeeded, or none, is carried to the next.
pub open spec fn spec_walk(
    setting: Setting,
    stages: Seq<StageView>,
    carried: Option<JsonData>,
    bindings: Bindings,
) -> (DispatchStepView, Bindings)
    decreases stages.len(),
{
    if stages.len() == 0 {
        (DispatchStepView::Finished(spec_nothing_left(carried)), bindings)
    } else {
        match spec_permit(setting, stages[0].name) {
            Err(message) => (
                DispatchStepView::Finished(CommandResultView::failed(message)),
                bindings,
            ),
            Ok(command) => {
                let ran = command.spec_execute(
                    spec_stage_arguments(stages[0].args, carried),
                    bindings,
                    setting.registered,
                );
                match ran.0 {
                    ExecutionView::Deferred(request) => (
                        DispatchStepView::Suspended { request, remaining: stages.skip(1) },
                        ran.1,
                    ),
                    ExecutionView::Finished(result) => if !result.success || stages.len() == 1 {
                        (DispatchStepView::Finished(result), ran.1)
                    } else {
                        spec_walk(setting, stages.skip(1), result.payload(), ran.1)
                    },
                }
            },
        }
    }
}

/// What a walk comes to once a stage has ended with `outcome` and the
/// stages `remaining` are left: a failure ends it, the last stage ends it,
/// and else the walk goes on with the payload of the outcome.
pub open spec fn spec_after_stage(
    setting: Setting,
    remaining: Seq<StageView>,
    outcome: CommandResultView,
    bindings: Bindings,
) -> (DispatchStepView, Bindings) {
    if !outcome.success || remaining.len() == 0 {
        (DispatchStepView::Finished(outcome), bindings)
    } else {
        spec_walk(setting, remaining, outcome.payload(), bindings)
    }
}

/// What the dispatch of `line` comes to: the failure of the parser, or the
/// walk of the stages of the line after alias resolution.
pub open spec fn spec_dispatch(setting: Setting, line: Seq<char>, bindings: Bindings) -> (
    DispatchStepView,
    Bindings,
) {
    match spec_parse_pipeline(
        spec_resolve_alias(line, setting.aliases),
        to_map(bindings),
    ) {
        Err(error) => (
            DispatchStepView::Finished(
                CommandResultView::failed("Parsing error: "@ + error.message()),
            ),
            bindings,
        ),
        Ok(stages) => spec_walk(setting, stages, None, bindings),
    }
}

/// A stage that fails ends the pipeline: whatever stages are left, the
/// result is the failure of that stage, and the bindings stay as the stage
/// left them.
pub proof fn lemma_failure_ends_pipeline(
    setting: Setting,
    remaining: Seq<StageView>,
    outcome: CommandResultView,
    bindings: Bindings,
)
    requires
        !outcome.success,
    ensures
        spec_after_stage(setting, remaining, outcome, bindings) == (
            DispatchStepView::Finished(outcome),
            bindings,
        ),
{
}

/// A pipeline that fails does so whatever stages follow it: the stages
/// after the one that failed are not run, so the result and the bindings
/// are the same with them as without them.
pub proof fn lemma_fail_fast(
    setting: Setting,
    stages: Seq<StageView>,
    later: Seq<StageView>,
    carried: Option<JsonData>,
    bindings: Bindings,
)
    requires
        stages.len() > 0,
        spec_walk(setting, stages, carried, bindings).0 matches DispatchStepView::Finished(
            result,
        ) && !result.success,
    ensures
        spec_walk(setting, stages + later, carried, bindings) == spec_walk(
            setting,
            stages,
            carried,
            bindings,
        ),
    decreases stages.len(),
{
    let longer = stages + later;
    assert(longer[0] == stages[0]);
    match spec_permit(setting, stages[0].name) {
        Err(_) => {},
        Ok(command) => {
            let ran = command.spec_execute(
                spec_stage_arguments(stages[0].args, carried),
                bindings,
                setting.registered,
            );
            match ran.0 {
                ExecutionView::Deferred(_) => {},
                ExecutionView::Finished(result) => {
                    if result.success && stages.len() > 1 {
                        assert(longer.skip(1) =~= stages.skip(1) + later);
                        lemma_fail_fast(
                            setting,
                            stages.skip(1),
                            later,
                            result.payload(),
                            ran.1,
                        );
                    }
                },
            }
        },
    }
}

/// Every result with which the library ends a pipeline is well formed: a
/// success carries an output and no error message, a failure an error
/// message and no output.
pub proof fn lemma_results_well_formed(
    setting: Setting,
    stages: Seq<StageView>,
    carried: Option<JsonData>,
    bindings: Bindings,
)
    ensures
        spec_walk(setting, stages, carried, bindings).0 matches DispatchStepView::Finished(result)
            ==> result.well_formed(),
    decreases stages.len(),
{
    if stages.len() > 0 {
        match spec_permit(setting, stages[0].name) {
            Err(_) => {},
            Ok(command) => {
                let ran = command.spec_execute(
                    spec_stage_arguments(stages[0].args, carried),
                    bindings,
                    setting.registered,
                );
                match ran.0 {
                    ExecutionView::Deferred(_) => {},
                    ExecutionView::Finished(result) => {
                        assert(result.well_formed());
                        if result.success && stages.len() > 1 {
                            lemma_results_well_formed(
                                setting,
                                stages.skip(1),
                                result.payload(),
                                ran.1,
                            );
                        }
                    },
                }
            },
        }
    }
}

/// Whether `name` is one of `names`.
fn is_listed(names: &Vec<String>, name: &str) -> (listed: bool)
    ensures
        listed == names.deep_view().contains(name@),
{
    let mut i: usize = 0;
    while i < names.len()
        invariant
            i <= names.len(),
            forall|j: int| 0 <= j < i ==> names.deep_view()[j] != name@,
        decreases names.len() - i,
    {
        assert(names.deep_view()[i as int] == names@[i as int]@);
        if same_text(names[i].as_str(), name) {
            return true;
        }
        i += 1;
    }
    false
}

/// Runs the pipelines of the interpreter against a registry of commands.
#[derive(Debug, Clone)]
pub struct CommandDispatcher {
    command_registry: CommandRegistry,
}

impl CommandDispatcher {
    /// The commands that this dispatcher knows.
    pub closed spec fn registered(&self) -> Set<BuiltinCommand> {
        self.command_registry@
    }

    /// A dispatcher for the commands of `command_registry`.
    pub fn new(command_registry: CommandRegistry) -> (dispatcher: Self)
        ensures
            dispatcher.registered() == command_registry@,
    {
        CommandDispatcher { command_registry }
    }

    /// The registry of this dispatcher.
    pub fn registry(&self) -> (command_registry: &CommandRegistry)
        ensures
            command_registry@ == self.registered(),
    {
        &self.command_registry
    }

    /// The line after alias resolution.
    pub fn resolve_alias(command_line: &str, aliases: &Vec<(String, String)>) -> (line: String)
        ensures
            line@ == spec_resolve_alias(command_line@, aliases.deep_view()),
    {
        let chars = to_chars(command_line);
        let mut i: usize = 0;
        assert(aliases.deep_view().skip(0) =~= aliases.deep_view());
        while i < aliases.len()
            invariant
                i <= aliases.len(),
                chars@ == command_line@,
                spec_resolve_alias(command_line@, aliases.deep_view()) == spec_resolve_alias(
                    command_line@,
                    aliases.deep_view().skip(i as int),
                ),
            decreases aliases.len() - i,
        {
            let alias = to_chars(aliases[i].0.as_str());
            proof {
                let rest = aliases.deep_view().skip(i as int);
                assert(rest[0] == (aliases@[i as int].0@, aliases@[i as int].1@));
                assert(rest.drop_first() =~= aliases.deep_view().skip(i + 1));
            }
            if starts_with(&chars, &alias) {
                let mut line = aliases[i].1.clone();
                line.append(from_chars(&chars, alias.len(), chars.len()).as_str());
                assert(chars@.skip(alias@.len() as int) =~= chars@.subrange(
                    alias@.len() as int,
                    chars@.len() as int,
                ));
                return line;
            }
            i += 1;
        }
        command_line.to_owned()
    }

    /// The arguments that a stage is run on.
    pub fn stage_arguments(args: Vec<String>, carried: &Option<serde_json::Value>) -> (extended:
        Vec<String>)
        ensures
            extended.deep_view() == spec_stage_arguments(args.deep_view(), payload_view(*carried)),
    {
        match carried {
            None => args,
            Some(data) => {
                let mut extended = args;
                let ghost before = extended.deep_view();
                extended.push("--input-data".to_owned());
                extended.push(to_text(data));
                assert(extended.deep_view() =~= before.push("--input-data"@).push(
                    json_text(json_model(*data)),
                ));
                extended
            },
        }
    }

    /// The command that runs a stage called `name`, or the result that
    /// tells why none does.
    pub fn permit(&self, name: &str, config: &ShellConfig) -> (permitted: Result<
        BuiltinCommand,
        CommandResult,
    >)
        ensures
            match permitted {
                Ok(command) => spec_permit(
                    setting_of(self, config),
                    name@,
                ) == Ok::<BuiltinCommand, Seq<char>>(command),
                Err(result) => spec_permit(
                    setting_of(self, config),
                    name@,
                ) is Err && result@ == CommandResultView::failed(
                    spec_permit(setting_of(self, config), name@)->Err_0,
                ),
            },
    {
        match self.command_registry.get(name) {
            None => {
                let mut message = "Unknown command in pipeline: '".to_owned();
                message.append(name);
                message.append("'.");
                Err(CommandResult::error(message))
            },
            Some(command) => {
                if config.enabled_commands.len() > 0 && !is_listed(&config.enabled_commands, name) {
                    let mut message = "Command '".to_owned();
                    message.append(name);
                    message.append("' is disabled.");
                    Err(CommandResult::error(message))
                } else {
                    Ok(command)
                }
            },
        }
    }

    /// Walks `stages` with the payload `carried`, until a stage ends the
    /// pipeline or needs the host.
    pub fn walk(
        &self,
        stages: Vec<PipelineCommand>,
        carried: Option<serde_json::Value>,
        var_manager: &mut VariableManager,
        config: &ShellConfig,
    ) -> (step: DispatchStep)
        ensures
            step@ == spec_walk(
                setting_of(self, config),
                stages_view(stages@),
                payload_view(carried),
                old(var_manager).entries(),
            ).0,
            final(var_manager).entries() == spec_walk(
                setting_of(self, config),
                stages_view(stages@),
                payload_view(carried),
                old(var_manager).entries(),
            ).1,
    {
        let ghost setting = setting_of(self, config);
        let ghost target = spec_walk(
            setting,
            stages_view(stages@),
            payload_view(carried),
            var_manager.entries(),
        );
        let mut left = stages;
        let mut payload = carried;
        while left.len() > 0
            invariant
                setting == setting_of(self, config),
                target == spec_walk(
                    setting,
                    stages_view(stages@),
                    payload_view(carried),
                    old(var_manager).entries(),
                ),
                spec_walk(
                    setting,
                    stages_view(left@),
                    payload_view(payload),
                    var_manager.entries(),
                ) == target,
            decreases left.len(),
        {
            let ghost before = stages_view(left@);
            let stage = left.remove(0);
            proof {
                assert(before[0] == stage@);
                assert(stages_view(left@) =~= before.skip(1));
            }
            let PipelineCommand { name, args } = stage;
            let command = match self.permit(name.as_str(), config) {
                Ok(command) => command,
                Err(result) => {
                    return DispatchStep::Finished(result);
                },
            };
            let args = Self::stage_arguments(args, &payload);
            match command.execute(args, var_manager, config, &self.command_registry) {
                Execution::Deferred(request) => {
                    return DispatchStep::Suspended { request, remaining: left };
                },
                Execution::Finished(result) => {
                    if !result.success || left.len() == 0 {
                        return DispatchStep::Finished(result);
                    }
                    let CommandResult { output, .. } = result;
                    payload =
                    match output {
                        Some(shown) => shown.data,
                        None => None,
                    };
                },
            }
        }
        DispatchStep::Finished(
            CommandResult::success(Some("Pipeline executed successfully.".to_owned()), payload),
        )
    }

    /// Takes up a pipeline again after the host has run a stage: `outcome`
    /// is the result of that stage, `remaining` the stages after it.
    pub fn resume(
        &self,
        remaining: Vec<PipelineCommand>,
        outcome: CommandResult,
        var_manager: &mut VariableManager,
        config: &ShellConfig,
    ) -> (step: DispatchStep)
        ensures
            step@ == spec_after_stage(
                setting_of(self, config),
                stages_view(remaining@),
                outcome@,
                old(var_manager).entries(),
            ).0,
            final(var_manager).entries() == spec_after_stage(
                setting_of(self, config),
                stages_view(remaining@),
                outcome@,
                old(var_manager).entries(),
            ).1,
            !outcome.success ==> step@ == DispatchStepView::Finished(outcome@),
            !outcome.success ==> final(var_manager).entries() == old(var_manager).entries(),
    {
        if !outcome.success || remaining.len() == 0 {
            return DispatchStep::Finished(outcome);
        }
        let CommandResult { output, .. } = outcome;
        let carried = match output {
            Some(shown) => shown.data,
            None => None,
        };
        self.walk(remaining, carried, var_manager, config)
    }

    /// Dispatches one line: resolves an alias, parses the line and walks its
    /// stages.
    ///
    /// A line that does not parse ends in a failure that carries the
    /// message of the parser. A stage whose command is not registered, or
    /// may not run, or fails, ends the pipeline with that failure, and no
    /// later stage is run. The result of the last stage is the result of
    /// the pipeline.
    pub fn dispatch_command(
        &self,
        command_line: &str,
        var_manager: &mut VariableManager,
        config: &ShellConfig,
    ) -> (step: DispatchStep)
        ensures
            step@ == spec_dispatch(
                setting_of(self, config),
                command_line@,
                old(var_manager).entries(),
            ).0,
            final(var_manager).entries() == spec_dispatch(
                setting_of(self, config),
                command_line@,
                old(var_manager).entries(),
            ).1,
    {
        let line = Self::resolve_alias(command_line, &config.aliases);
        match parse_pipeline(line.as_str(), var_manager) {
            Err(error) => {
                let mut message = "Parsing error: ".to_owned();
                message.append(error.message().as_str());
                DispatchStep::Finished(CommandResult::error(message))
            },
            Ok(stages) => self.walk(stages, None, var_manager, config),
        }
    }
}

} // verus!
