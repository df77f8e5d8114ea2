//! What passes between the steps of an operation. The values themselves
//! stay with the caller; the bridge tracks only their kind.

use crate::operation::Operation;
use crate::run::Run;
use vstd::prelude::*;

verus! {

/// The kind of value that a step leaves behind for the next step, or for
/// the caller.
#[derive(Debug, Clone, Copy, PartialEq, Eq, Structural)]
pub enum Product {
    /// Nothing: the effect was the point.
    Nothing,
    /// A byte sequence.
    Bytes,
    /// A carrier of one decoded interchange plan.
    PlanCarrier,
    /// A carrier of one decoded interchange expression.
    ExpressionCarrier,
    /// A logical plan of the engine.
    LogicalPlan,
    /// A scalar expression of the engine.
    Expression,
    /// A scalar expression of the engine together with the schema that its
    /// field references resolve against.
    ExpressionWithSchema,
    /// A schema of the engine.
    Schema,
}

/// Opens the one operation of a plan carrier. The message that the
/// carrier holds stays with the caller.
#[derive(Debug, Clone, Copy)]
pub struct PyPlan;

impl PyPlan {
    /// A plan carrier to its bytes.
    pub fn encode() -> (run: Run)
        ensures
            run == Run::spec_start(Operation::Encode),
            run.wf(),
    {
        Run::start(Operation::Encode)
    }
}

} // verus!
