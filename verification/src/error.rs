//! The failures that the bridge reports.

use crate::step::Step;
use vstd::prelude::*;
use vstd::string::StringExecFns;

verus! {

/// The kind of work in which a failure arose.
#[derive(Debug, Clone, Copy, PartialEq, Eq, Structural)]
pub enum Stage {
    /// SQL text could not be parsed or its names resolved.
    Planning,
    /// A plan or expression could not be mapped between the two forms.
    Conversion,
    /// A message could not be written as bytes, or bytes held no message.
    Codec,
    /// A location could not be read or written.
    Io,
}

/// Why an operation handed nothing back.
#[derive(Debug, PartialEq, Eq)]
pub enum SubstraitError {
    /// A step failed: the stage it belongs to, and the cause in the words
    /// of whoever failed, unchanged.
    Failed { stage: Stage, message: String },
    /// The outcome reported for a step was not one that the step can have:
    /// bytes where it yields none, or none where it yields bytes.
    Misfit { step: Step },
}

impl SubstraitError {
    /// The stage under which the failure is reported: that of the step at
    /// which the operation stopped.
    pub open spec fn spec_stage(self) -> Stage {
        match self {
            SubstraitError::Failed { stage, .. } => stage,
            SubstraitError::Misfit { step } => step.spec_stage(),
        }
    }

    /// The stage under which the failure is reported.
    pub fn stage(&self) -> (stage: Stage)
        ensures
            stage == self.spec_stage(),
    {
        match self {
            SubstraitError::Failed { stage, .. } => *stage,
            SubstraitError::Misfit { step } => step.stage(),
        }
    }

    /// The report of the failure: the stage's name, a colon, and the cause
    /// as it was reported.
    pub open spec fn spec_report(self) -> Seq<char> {
        match self {
            SubstraitError::Failed { stage, message } => stage.spec_name() + ": "@ + message@,
            SubstraitError::Misfit { step } => step.spec_stage().spec_name()
                + ": the step reported no usable outcome"@,
        }
    }

    /// The report of the failure, for whoever asked for the operation.
    pub fn report(&self) -> (text: String)
        ensures
            text@ == self.spec_report(),
    {
        match self {
            SubstraitError::Failed { stage, message } => String::from_str(stage.name()).concat(
                ": ",
            ).concat(message.as_str()),
            SubstraitError::Misfit { step } => String::from_str(step.stage().name()).concat(
                ": the step reported no usable outcome",
            ),
        }
    }

    /// The cause as it was reported, where one was.
    pub fn message(&self) -> (message: Option<&String>)
        ensures
            match *self {
                SubstraitError::Failed { message: reported, .. } => message == Some(&reported),
                SubstraitError::Misfit { .. } => message is None,
            },
    {
        match self {
            SubstraitError::Failed { message, .. } => Some(message),
            SubstraitError::Misfit { .. } => None,
        }
    }
}

impl Stage {
    /// The stage's name, for the head of a report.
    pub open spec fn spec_name(self) -> Seq<char> {
        match self {
            Stage::Planning => "planning"@,
            Stage::Conversion => "conversion"@,
            Stage::Codec => "codec"@,
            Stage::Io => "io"@,
        }
    }

    /// The stage's name, for the head of a report.
    pub fn name(self) -> (name: &'static str)
        ensures
            name@ == self.spec_name(),
    {
        match self {
            Stage::Planning => "planning",
            Stage::Conversion => "conversion",
            Stage::Codec => "codec",
            Stage::Io => "io",
        }
    }
}

} // verus!
