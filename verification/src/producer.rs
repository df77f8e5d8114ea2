//! The producer: from the engine's plans and expressions to carriers.

use crate::operation::Operation;
use crate::run::Run;
use vstd::prelude::*;

verus! {

/// An opened run of producing an expression, and the label that the
/// expression is to carry.
#[derive(Debug, PartialEq, Eq)]
pub struct LabelledRun {
    pub run: Run,
    pub label: String,
}

/// Opens the producer's operations. It keeps nothing between calls.
#[derive(Debug, Clone, Copy)]
pub struct PySubstraitProducer;

impl PySubstraitProducer {
    /// The label for an expression whose caller names none.
    pub open spec fn spec_expression_label() -> Seq<char> {
        "datafusion_expression"@
    }

    /// The label for an expression whose caller names none, so that a
    /// reader of the bytes can tell which expression they hold.
    pub fn expression_label() -> (label: &'static str)
        ensures
            label@ == Self::spec_expression_label(),
    {
        "datafusion_expression"
    }

    /// A logical plan to a plan carrier.
    pub fn to_substrait_plan() -> (run: Run)
        ensures
            run == Run::spec_start(Operation::ToSubstraitPlan),
            run.wf(),
    {
        Run::start(Operation::ToSubstraitPlan)
    }

    /// An expression and its schema to an expression carrier tagged with
    /// `label`: the label is kept as it came, for the step that produces
    /// the expression.
    pub fn to_substrait_expr(label: String) -> (opened: LabelledRun)
        ensures
            opened.run == Run::spec_start(Operation::ToSubstraitExpr),
            opened.run.wf(),
            opened.label == label,
    {
        LabelledRun { run: Run::start(Operation::ToSubstraitExpr), label }
    }
}

} // verus!
