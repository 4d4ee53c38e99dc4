//! The command `source`.

use crate::commands::command::{
    Bindings, Command, Execution, ExecutionView, HostRequest, HostRequestView,
};
use crate::commands::CommandRegistry;
use crate::engine::config::ShellConfig;
use crate::engine::dispatcher::{
    setting_of, spec_after_stage, spec_dispatch, CommandDispatcher, DispatchStep,
    DispatchStepView, Setting,
};
use crate::engine::types::{
    stages_view, CommandResult, CommandResultView, PipelineCommand, StageView,
};
use crate::engine::variables::VariableManager;
use crate::json::JsonData;
use crate::text::{debug_text, decimal, quoted, spec_decimal, spec_trim, trim};
use vstd::prelude::*;

verus! {

/// Runs the lines of a script, one after the other.
///
/// The host reads the file and hands its lines to [`SourceCommand::run`],
/// which dispatches each line that holds a command, as if it had been
/// typed. A line that fails does not stop the script: the outcome of every
/// line is recorded in a [`ScriptTally`], and the result of the command
/// reports on the whole.
#[derive(Debug, Clone, Copy)]
pub struct SourceCommand;

/// How many lines of a script succeeded and how many failed.
#[derive(Debug, Clone, Copy)]
pub struct ScriptTally {
    succeeded: u64,
    failed: u64,
}

impl ScriptTally {
    #[verifier::type_invariant]
    spec fn total_fits(&self) -> bool {
        self.succeeded + self.failed <= u64::MAX
    }

    /// The number of lines that succeeded.
    pub closed spec fn spec_succeeded(&self) -> nat {
        self.succeeded as nat
    }

    /// The number of lines that failed, or could not be read.
    pub closed spec fn spec_failed(&self) -> nat {
        self.failed as nat
    }

    /// The tally before the first line.
    pub fn new() -> (tally: Self)
        ensures
            tally.spec_succeeded() == 0,
            tally.spec_failed() == 0,
    {
        ScriptTally { succeeded: 0, failed: 0 }
    }

    /// The number of lines that succeeded.
    pub fn succeeded(&self) -> (count: u64)
        ensures
            count == self.spec_succeeded(),
    {
        self.succeeded
    }

    /// The number of lines that failed, or could not be read.
    pub fn failed(&self) -> (count: u64)
        ensures
            count == self.spec_failed(),
    {
        self.failed
    }

    /// Whether one more line can be recorded: the counters have 64 bits.
    pub fn has_room(&self) -> (room: bool)
        ensures
            room == (self.spec_succeeded() + self.spec_failed() < u64::MAX),
    {
        proof {
            use_type_invariant(self);
        }
        self.succeeded < u64::MAX - self.failed
    }

    /// Records the outcome of one line: `success` is whether its dispatch
    /// succeeded; a line that could not be read counts as failed.
    pub fn record(&mut self, success: bool)
        requires
            old(self).spec_succeeded() + old(self).spec_failed() < u64::MAX,
        ensures
            final(self).spec_succeeded() == old(self).spec_succeeded() + if success {
                1nat
            } else {
                0nat
            },
            final(self).spec_failed() == old(self).spec_failed() + if success {
                0nat
            } else {
                1nat
            },
    {
        if success {
            *self = ScriptTally { succeeded: self.succeeded + 1, failed: self.failed };
        } else {
            *self = ScriptTally { succeeded: self.succeeded, failed: self.failed + 1 };
        }
    }
}

/// A script that waits for the host: a line of it is being dispatched, and
/// a stage of that line needs work that the library cannot do.
#[derive(Debug)]
pub struct ScriptRun {
    path: String,
    lines: Vec<Option<String>>,
    next: usize,
    tally: ScriptTally,
}

/// The model of a [`ScriptRun`].
pub struct ScriptRunView {
    /// The path of the script.
    pub path: Seq<char>,
    /// The lines after the one that is being dispatched.
    pub remaining: Seq<Option<Seq<char>>>,
    /// The number of lines that succeeded so far.
    pub succeeded: nat,
    /// The number of lines that failed so far.
    pub failed: nat,
}

impl View for ScriptRun {
    type V = ScriptRunView;

    closed spec fn view(&self) -> ScriptRunView {
        ScriptRunView {
            path: self.path@,
            remaining: self.lines.deep_view().skip(self.next as int),
            succeeded: self.tally.succeeded as nat,
            failed: self.tally.failed as nat,
        }
    }
}

impl ScriptRun {
    #[verifier::type_invariant]
    spec fn line_in_flight(&self) -> bool {
        self.tally.succeeded + self.tally.failed < self.next <= self.lines.len()
    }
}

/// Where a script stands when it hands control back.
#[derive(Debug)]
pub enum ScriptStep {
    /// The script is over, with this result.
    Finished(CommandResult),
    /// A stage of a line waits for the host to do `request`; `remaining`
    /// holds the stages of that line after it, and `run` the rest of the
    /// script.
    Suspended { request: HostRequest, remaining: Vec<PipelineCommand>, run: ScriptRun },
}

/// The model of a [`ScriptStep`].
pub enum ScriptStepView {
    Finished(CommandResultView),
    Suspended { request: HostRequestView, remaining: Seq<StageView>, run: ScriptRunView },
}

impl View for ScriptStep {
    type V = ScriptStepView;

    open spec fn view(&self) -> ScriptStepView {
        match self {
            ScriptStep::Finished(result) => ScriptStepView::Finished(result@),
            ScriptStep::Suspended { request, remaining, run } => ScriptStepView::Suspended {
                request: request@,
                remaining: stages_view(remaining@),
                run: run@,
            },
        }
    }
}

/// The tally with one more outcome.
pub open spec fn tally_with(run: ScriptRunView, success: bool) -> ScriptRunView {
    if success {
        ScriptRunView { succeeded: run.succeeded + 1, ..run }
    } else {
        ScriptRunView { failed: run.failed + 1, ..run }
    }
}

/// What running the rest of a script comes to, with `bindings` in the
/// store: where the script stops, and the bindings it leaves.
///
/// A line that could not be read counts as failed. A line that holds no
/// command is passed over. Every other line is dispatched: its outcome is
/// counted and the next line is taken up, whether it failed or not. A line
/// with a stage that needs the host suspends the script. After the last
/// line the script ends with its report.
pub open spec fn spec_script(setting: Setting, run: ScriptRunView, bindings: Bindings) -> (
    ScriptStepView,
    Bindings,
)
    decreases run.remaining.len(),
{
    if run.remaining.len() == 0 {
        (
            ScriptStepView::Finished(
                SourceCommand::spec_finish(run.path, run.succeeded, run.failed),
            ),
            bindings,
        )
    } else {
        let rest = ScriptRunView { remaining: run.remaining.skip(1), ..run };
        match run.remaining[0] {
            None => spec_script(setting, tally_with(rest, false), bindings),
            Some(raw) => match SourceCommand::spec_script_line(raw) {
                None => spec_script(setting, rest, bindings),
                Some(command) => {
                    let dispatched = spec_dispatch(setting, command, bindings);
                    match dispatched.0 {
                        DispatchStepView::Finished(result) => spec_script(
                            setting,
                            tally_with(rest, result.success),
                            dispatched.1,
                        ),
                        DispatchStepView::Suspended { request, remaining } => (
                            ScriptStepView::Suspended { request, remaining, run: rest },
                            dispatched.1,
                        ),
                    }
                },
            },
        }
    }
}

/// What a script comes to once the dispatch of a line has come to
/// `dispatched`: the script is suspended where the line is, and else the
/// outcome of the line is counted and the script goes on.
pub open spec fn spec_script_after(
    setting: Setting,
    rest: ScriptRunView,
    dispatched: (DispatchStepView, Bindings),
) -> (ScriptStepView, Bindings) {
    match dispatched.0 {
        DispatchStepView::Finished(result) => spec_script(
            setting,
            tally_with(rest, result.success),
            dispatched.1,
        ),
        DispatchStepView::Suspended { request, remaining } => (
            ScriptStepView::Suspended { request, remaining, run: rest },
            dispatched.1,
        ),
    }
}

/// A line that fails does not end the script: the lines after it are run
/// as they would be after a line that succeeded, with one more failure on
/// the tally.
pub proof fn lemma_script_goes_on(
    setting: Setting,
    rest: ScriptRunView,
    outcome: CommandResultView,
    bindings: Bindings,
)
    requires
        !outcome.success,
    ensures
        spec_script_after(setting, rest, (DispatchStepView::Finished(outcome), bindings))
            == spec_script(
            setting,
            ScriptRunView { failed: rest.failed + 1, ..rest },
            bindings,
        ),
{
}

impl SourceCommand {
    /// What `source` does on `args`: it fails without an argument, and else
    /// asks the host to run the script that the first one names.
    pub open spec fn outcome(args: Seq<Seq<char>>) -> ExecutionView {
        if args.len() == 0 {
            ExecutionView::Finished(
                CommandResultView::failed("Invalid usage. "@ + "source <file_path>"@),
            )
        } else {
            ExecutionView::Deferred(HostRequestView::RunScript { path: args[0] })
        }
    }

    /// The command that a line of a script holds: the line without the
    /// white space around it, unless that is empty or begins with `#`.
    pub open spec fn spec_script_line(raw: Seq<char>) -> Option<Seq<char>> {
        let line = spec_trim(raw);
        if line.len() == 0 || line[0] == '#' {
            None
        } else {
            Some(line)
        }
    }

    /// The report on a script of which `succeeded` lines succeeded and
    /// `failed` lines failed: a failure as soon as one line failed.
    pub open spec fn spec_finish(path: Seq<char>, succeeded: nat, failed: nat) -> CommandResultView {
        let message = "Script "@ + debug_text(path) + " finished. Executed "@ + spec_decimal(
            succeeded + failed,
        ) + " commands: "@ + spec_decimal(succeeded) + " successful, "@ + spec_decimal(failed)
            + " failed."@;
        if failed > 0 {
            CommandResultView::failed(message)
        } else {
            CommandResultView::succeeded(Some(message), None::<JsonData>)
        }
    }

    /// The command that the line `raw` of a script holds, if any: blank
    /// lines and lines that begin with `#` hold none.
    pub fn script_line(raw: &str) -> (command: Option<String>)
        ensures
            command.deep_view() == Self::spec_script_line(raw@),
    {
        let line = trim(raw);
        if line.as_str().unicode_len() == 0 {
            return None;
        }
        if line.as_str().get_char(0) == '#' {
            return None;
        }
        Some(line)
    }

    /// Takes up the lines of a script from the line `next` on.
    fn advance(
        path: String,
        lines: Vec<Option<String>>,
        next: usize,
        tally: ScriptTally,
        dispatcher: &CommandDispatcher,
        var_manager: &mut VariableManager,
        config: &ShellConfig,
    ) -> (step: ScriptStep)
        requires
            tally.spec_succeeded() + tally.spec_failed() <= next <= lines.len(),
        ensures
            step@ == spec_script(
                setting_of(dispatcher, config),
                ScriptRunView {
                    path: path@,
                    remaining: lines.deep_view().skip(next as int),
                    succeeded: tally.spec_succeeded(),
                    failed: tally.spec_failed(),
                },
                old(var_manager).entries(),
            ).0,
            final(var_manager).entries() == spec_script(
                setting_of(dispatcher, config),
                ScriptRunView {
                    path: path@,
                    remaining: lines.deep_view().skip(next as int),
                    succeeded: tally.spec_succeeded(),
                    failed: tally.spec_failed(),
                },
                old(var_manager).entries(),
            ).1,
    {
        let ghost setting = setting_of(dispatcher, config);
        let ghost all = lines.deep_view();
        let ghost target = spec_script(
            setting,
            ScriptRunView {
                path: path@,
                remaining: all.skip(next as int),
                succeeded: tally.spec_succeeded(),
                failed: tally.spec_failed(),
            },
            var_manager.entries(),
        );
        let mut counted = tally;
        let mut i: usize = next;
        while i < lines.len()
            invariant
                setting == setting_of(dispatcher, config),
                all == lines.deep_view(),
                counted.spec_succeeded() + counted.spec_failed() <= i <= lines.len(),
                target == spec_script(
                    setting,
                    ScriptRunView {
                        path: path@,
                        remaining: all.skip(next as int),
                        succeeded: tally.spec_succeeded(),
                        failed: tally.spec_failed(),
                    },
                    old(var_manager).entries(),
                ),
                spec_script(
                    setting,
                    ScriptRunView {
                        path: path@,
                        remaining: all.skip(i as int),
                        succeeded: counted.spec_succeeded(),
                        failed: counted.spec_failed(),
                    },
                    var_manager.entries(),
                ) == target,
            decreases lines.len() - i,
        {
            proof {
                assert(all.skip(i as int)[0] == lines@[i as int].deep_view());
                assert(all.skip(i as int).skip(1) =~= all.skip(i + 1));
            }
            let command: Option<Option<String>> = match &lines[i] {
                None => None,
                Some(raw) => Some(Self::script_line(raw.as_str())),
            };
            match command {
                None => {
                    counted.record(false);
                },
                Some(None) => {},
                Some(Some(line)) => {
                    match dispatcher.dispatch_command(line.as_str(), var_manager, config) {
                        DispatchStep::Finished(result) => {
                            counted.record(result.success);
                        },
                        DispatchStep::Suspended { request, remaining } => {
                            let run = ScriptRun { path, lines, next: i + 1, tally: counted };
                            return ScriptStep::Suspended { request, remaining, run };
                        },
                    }
                },
            }
            i += 1;
        }
        ScriptStep::Finished(Self::finish(path.as_str(), &counted))
    }

    /// Runs the script at `path`, of which the host has read the lines: a
    /// line that could not be read stands as nothing. The script runs until
    /// it is over or a stage of a line needs the host.
    pub fn run(
        path: String,
        lines: Vec<Option<String>>,
        dispatcher: &CommandDispatcher,
        var_manager: &mut VariableManager,
        config: &ShellConfig,
    ) -> (step: ScriptStep)
        ensures
            step@ == spec_script(
                setting_of(dispatcher, config),
                ScriptRunView {
                    path: path@,
                    remaining: lines.deep_view(),
                    succeeded: 0,
                    failed: 0,
                },
                old(var_manager).entries(),
            ).0,
            final(var_manager).entries() == spec_script(
                setting_of(dispatcher, config),
                ScriptRunView {
                    path: path@,
                    remaining: lines.deep_view(),
                    succeeded: 0,
                    failed: 0,
                },
                old(var_manager).entries(),
            ).1,
    {
        assert(lines.deep_view().skip(0) =~= lines.deep_view());
        Self::advance(path, lines, 0, ScriptTally::new(), dispatcher, var_manager, config)
    }

    /// Takes up a script again after the host has run a stage of one of its
    /// lines: `outcome` is the result of that stage, `remaining` the stages
    /// of the line after it.
    pub fn resume(
        run: ScriptRun,
        remaining: Vec<PipelineCommand>,
        outcome: CommandResult,
        dispatcher: &CommandDispatcher,
        var_manager: &mut VariableManager,
        config: &ShellConfig,
    ) -> (step: ScriptStep)
        ensures
            step@ == spec_script_after(
                setting_of(dispatcher, config),
                run@,
                spec_after_stage(
                    setting_of(dispatcher, config),
                    stages_view(remaining@),
                    outcome@,
                    old(var_manager).entries(),
                ),
            ).0,
            final(var_manager).entries() == spec_script_after(
                setting_of(dispatcher, config),
                run@,
                spec_after_stage(
                    setting_of(dispatcher, config),
                    stages_view(remaining@),
                    outcome@,
                    old(var_manager).entries(),
                ),
            ).1,
    {
        proof {
            use_type_invariant(&run);
        }
        match dispatcher.resume(remaining, outcome, var_manager, config) {
            DispatchStep::Suspended { request, remaining } => ScriptStep::Suspended {
                request,
                remaining,
                run,
            },
            DispatchStep::Finished(result) => {
                let ScriptRun { path, lines, next, tally } = run;
                let mut counted = tally;
                counted.record(result.success);
                Self::advance(path, lines, next, counted, dispatcher, var_manager, config)
            },
        }
    }

    /// The result of `source` where the script could not be opened, for the
    /// reason `reason`.
    pub fn open_failed(reason: &str) -> (result: CommandResult)
        ensures
            result@ == CommandResultView::failed("Failed to open script file: "@ + reason@),
    {
        let mut message = "Failed to open script file: ".to_owned();
        message.append(reason);
        CommandResult::error(message)
    }

    /// The result of `source` once every line of the script at `path` has
    /// been dealt with.
    pub fn finish(path: &str, tally: &ScriptTally) -> (result: CommandResult)
        ensures
            result@ == Self::spec_finish(path@, tally.spec_succeeded(), tally.spec_failed()),
    {
        proof {
            use_type_invariant(tally);
        }
        let mut message = "Script ".to_owned();
        message.append(quoted(path).as_str());
        message.append(" finished. Executed ");
        message.append(decimal(tally.succeeded + tally.failed).as_str());
        message.append(" commands: ");
        message.append(decimal(tally.succeeded).as_str());
        message.append(" successful, ");
        message.append(decimal(tally.failed).as_str());
        message.append(" failed.");
        if tally.failed > 0 {
            CommandResult::error(message)
        } else {
            CommandResult::success(Some(message), None)
        }
    }
}

impl Command for SourceCommand {
    fn name(&self) -> (name: &'static str)
        ensures
            name@ == "source"@,
    {
        "source"
    }

    fn description(&self) -> (description: &'static str)
        ensures
            description@ == "Executes commands from a specified Shellce script file (.sf)."@,
    {
        "Executes commands from a specified Shellce script file (.sf)."
    }

    fn usage(&self) -> (usage: &'static str)
        ensures
            usage@ == "source <file_path>"@,
    {
        "source <file_path>"
    }

    fn execute(
        &self,
        args: Vec<String>,
        var_manager: &mut VariableManager,
        config: &ShellConfig,
        command_registry: &CommandRegistry,
    ) -> (execution: Execution)
        ensures
            execution@ == SourceCommand::outcome(args.deep_view()),
            final(var_manager).entries() == old(var_manager).entries(),
    {
        if args.len() == 0 {
            let mut message = "Invalid usage. ".to_owned();
            message.append(self.usage());
            return Execution::Finished(CommandResult::error(message));
        }
        assert(args.deep_view()[0] == args@[0]@);
        Execution::Deferred(HostRequest::RunScript { path: args[0].clone() })
    }
}

} // verus!
