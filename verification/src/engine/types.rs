//! The data that passes between the parser, the commands and the dispatcher.

use crate::json::{json_model, JsonData};
use vstd::prelude::*;

verus! {

/// A snapshot of the variable store: its bindings, one pair of a name and a
/// value each.
pub type VariableStore = Vec<(String, String)>;

/// The model of a payload, where there is one.
pub open spec fn payload_view(data: Option<serde_json::Value>) -> Option<JsonData> {
    match data {
        Some(value) => Some(json_model(value)),
        None => None,
    }
}

/// What a command that succeeded has to show.
#[derive(Debug, Clone)]
pub struct CommandOutput {
    /// A message for the reader.
    pub message: Option<String>,
    /// A structured payload for the next stage of a pipeline.
    pub data: Option<serde_json::Value>,
}

/// The model of a [`CommandOutput`].
pub struct CommandOutputView {
    pub message: Option<Seq<char>>,
    pub data: Option<JsonData>,
}

impl View for CommandOutput {
    type V = CommandOutputView;

    open spec fn view(&self) -> CommandOutputView {
        CommandOutputView {
            message: self.message.deep_view(),
            data: payload_view(self.data),
        }
    }
}

/// The outcome of one stage, or of a whole pipeline.
#[derive(Debug)]
pub struct CommandResult {
    /// Whether the command succeeded.
    pub success: bool,
    /// What it has to show, where it succeeded.
    pub output: Option<CommandOutput>,
    /// What went wrong, where it failed.
    pub error_message: Option<String>,
}

/// The model of a [`CommandResult`].
pub struct CommandResultView {
    pub success: bool,
    pub output: Option<CommandOutputView>,
    pub error_message: Option<Seq<char>>,
}

impl CommandResultView {
    /// The result of a command that succeeded with the given message and
    /// payload.
    pub open spec fn succeeded(message: Option<Seq<char>>, data: Option<JsonData>) -> Self {
        CommandResultView {
            success: true,
            output: Some(CommandOutputView { message, data }),
            error_message: None,
        }
    }

    /// The result of a command that failed with the given message.
    pub open spec fn failed(message: Seq<char>) -> Self {
        CommandResultView { success: false, output: None, error_message: Some(message) }
    }

    /// A result is well formed when the success flag decides which side is
    /// filled in: the output on success, the error message on failure.
    pub open spec fn well_formed(self) -> bool {
        if self.success {
            self.output is Some && self.error_message is None
        } else {
            self.output is None && self.error_message is Some
        }
    }

    /// The payload of the result, where it has one.
    pub open spec fn payload(self) -> Option<JsonData> {
        match self.output {
            Some(output) => output.data,
            None => None,
        }
    }
}

impl View for CommandResult {
    type V = CommandResultView;

    open spec fn view(&self) -> CommandResultView {
        CommandResultView {
            success: self.success,
            output: match self.output {
                Some(output) => Some(output@),
                None => None,
            },
            error_message: self.error_message.deep_view(),
        }
    }
}

impl CommandResult {
    /// The result of a command that succeeded.
    pub fn success(message: Option<String>, data: Option<serde_json::Value>) -> (result: Self)
        ensures
            result@ == CommandResultView::succeeded(message.deep_view(), payload_view(data)),
            result.output is Some,
            result.output->0.data == data,
            result@.well_formed(),
    {
        CommandResult {
            success: true,
            output: Some(CommandOutput { message, data }),
            error_message: None,
        }
    }

    /// The result of a command that failed.
    pub fn error(message: String) -> (result: Self)
        ensures
            result@ == CommandResultView::failed(message@),
            result@.well_formed(),
    {
        CommandResult { success: false, output: None, error_message: Some(message) }
    }
}

/// One stage of a pipeline: the name of a command and its arguments, in
/// which every variable reference has been resolved.
#[derive(Debug, Clone)]
pub struct PipelineCommand {
    pub name: String,
    pub args: Vec<String>,
}

/// The model of a [`PipelineCommand`].
pub struct StageView {
    pub name: Seq<char>,
    pub args: Seq<Seq<char>>,
}

impl View for PipelineCommand {
    type V = StageView;

    open spec fn view(&self) -> StageView {
        StageView { name: self.name@, args: self.args.deep_view() }
    }
}

/// The models of the stages of a pipeline.
pub open spec fn stages_view(stages: Seq<PipelineCommand>) -> Seq<StageView> {
    Seq::new(stages.len(), |i: int| stages[i]@)
}

} // verus!
