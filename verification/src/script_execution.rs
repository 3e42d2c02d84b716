//! The process runner: one run of a script, from its command line to what
//! its end means for the slot that waits for it.

use crate::error::{RunError, TaskError};
use crate::handle::Completer;
use crate::picture::Picture;
use crate::script_option::{ImageInput, ScriptOption};
use crate::slot::Delivery;
use crate::text::names;
use vstd::prelude::*;

verus! {

/// One run of a script. It is made when the run is asked for and used up by
/// the background task that performs it.
pub struct Executor {
    /// How the script is started.
    pub script_option: ScriptOption,
    /// The script's path.
    pub script: String,
    /// The path at which the script is to leave its output image.
    pub output: String,
    /// The first input image's path.
    pub image1: Option<String>,
    /// The second input image's path.
    pub image2: Option<String>,
    /// Extra arguments, handed on as one argument unless empty.
    pub other_args: String,
    /// The end over which the run's result is sent.
    pub return_channel: Completer<Delivery>,
}

/// An executable and its arguments.
#[derive(Debug, Clone, PartialEq, Eq)]
pub struct CommandLine {
    /// The executable.
    pub program: String,
    /// The arguments, in order.
    pub arguments: Vec<String>,
}

/// How the process of a run ended.
#[derive(Debug, Clone, PartialEq, Eq)]
pub enum ProcessOutcome {
    /// It could not be started: the reason.
    SpawnFailed(String),
    /// It ran and ended: its exit code, or `None` where it ended without
    /// one.
    Exited(Option<i32>),
}

/// The sequence of `item`, or the empty one.
pub open spec fn optional(item: Option<Seq<char>>) -> Seq<Seq<char>> {
    match item {
        Some(s) => seq![s],
        None => seq![],
    }
}

/// The view of an optional string.
pub open spec fn text_of(item: Option<String>) -> Option<Seq<char>> {
    match item {
        Some(s) => Some(s@),
        None => None,
    }
}

/// What the end of the process means: `Ok` where the output is to be
/// decoded next, and the run's error where it is not.
pub open spec fn verdict(outcome: ProcessOutcome) -> Result<(), RunError> {
    match outcome {
        ProcessOutcome::SpawnFailed(reason) => Err(RunError::ProcessSpawnFailed(reason)),
        ProcessOutcome::Exited(Some(0)) => Ok(()),
        ProcessOutcome::Exited(code) => Err(RunError::ProcessFailed(code)),
    }
}

impl Executor {
    /// The executable of the run: the interpreter, or the script itself.
    pub open spec fn program(&self, windows: bool) -> Seq<char> {
        self.script_option.program(self.script@, windows)
    }

    /// The arguments of the run: the script where it is interpreted, then
    /// the output path, the input paths, and the extra arguments unless
    /// they are empty.
    pub open spec fn arguments(&self) -> Seq<Seq<char>> {
        (if self.script_option.is_interpreted() {
            seq![self.script@]
        } else {
            seq![]
        }) + seq![self.output@] + optional(text_of(self.image1)) + optional(text_of(self.image2))
            + (if self.other_args@.len() > 0 {
            seq![self.other_args@]
        } else {
            seq![]
        })
    }

    /// The number of input paths.
    pub open spec fn inputs(&self) -> nat {
        optional(text_of(self.image1)).len() + optional(text_of(self.image2)).len()
    }

    /// The shape of the run's input, where there is any.
    pub fn image_input(&self) -> (input: Option<ImageInput>)
        ensures
            self.inputs() == 0 <==> input is None,
            input matches Some(shape) ==> shape.files() == self.inputs(),
    {
        match (&self.image1, &self.image2) {
            (None, None) => None,
            (Some(_), Some(_)) => Some(ImageInput::TwoFiles),
            _ => Some(ImageInput::SingleFile),
        }
    }

    /// The command line of the run, on Windows or elsewhere.
    pub fn command_line(&self, windows: bool) -> (line: CommandLine)
        ensures
            line.program@ == self.program(windows),
            names(line.arguments@) == self.arguments(),
    {
        let program: String = self.script_option.executable(self.script.as_str(), windows);
        let mut arguments: Vec<String> = Vec::new();
        if self.script_option.interpreted() {
            arguments.push(self.script.clone());
        }
        arguments.push(self.output.clone());
        match &self.image1 {
            Some(path) => {
                arguments.push(path.clone());
            },
            None => {},
        }
        match &self.image2 {
            Some(path) => {
                arguments.push(path.clone());
            },
            None => {},
        }
        if !self.other_args.as_str().is_empty() {
            arguments.push(self.other_args.clone());
        }
        assert(names(arguments@) =~= self.arguments());
        CommandLine { program, arguments }
    }

    /// What follows the end of the process: the path to decode, where the
    /// process ended with status zero, or the run's error.
    pub fn after_process(&self, outcome: ProcessOutcome) -> (next: Result<String, RunError>)
        ensures
            next == match verdict(outcome) {
                Ok(_) => Ok::<String, RunError>(self.output),
                Err(error) => Err(error),
            },
    {
        match outcome {
            ProcessOutcome::SpawnFailed(reason) => Err(RunError::ProcessSpawnFailed(reason)),
            ProcessOutcome::Exited(code) => {
                match code {
                    Some(0) => Ok(self.output.clone()),
                    _ => Err(RunError::ProcessFailed(code)),
                }
            },
        }
    }

    /// The run's result once the output was looked at: the decoded image,
    /// or `OutputUnreadable` with the output path where there is none.
    pub fn after_decode(&self, decoded: Option<Picture>) -> (result: Result<Picture, RunError>)
        ensures
            result == match decoded {
                Some(picture) => Ok::<Picture, RunError>(picture),
                None => Err(RunError::OutputUnreadable(self.output)),
            },
    {
        match decoded {
            Some(picture) => Ok(picture),
            None => Err(RunError::OutputUnreadable(self.output.clone())),
        }
    }

    /// Sends the run's result to the slot that waits for it. Where the slot
    /// has given the run up, the result comes back and nothing else happens.
    pub fn deliver(self, result: Result<Picture, RunError>) -> (sent: Result<(), Delivery>)
        ensures
            sent matches Err(back) ==> back == delivery_of(result),
    {
        self.return_channel.complete(run_delivery(result))
    }
}

/// A run's result as what is sent to a slot.
pub open spec fn delivery_of(result: Result<Picture, RunError>) -> Delivery {
    match result {
        Ok(picture) => Ok(picture),
        Err(error) => Err(TaskError::Run(error)),
    }
}

/// A run's result as what is sent to a slot.
pub fn run_delivery(result: Result<Picture, RunError>) -> (delivery: Delivery)
    ensures
        delivery == delivery_of(result),
{
    match result {
        Ok(picture) => Ok(picture),
        Err(error) => Err(TaskError::Run(error)),
    }
}

} // verus!
