//! The consumer: from carriers back to the engine's plans and expressions.

use crate::error::Stage;
use crate::error::SubstraitError;
use crate::operation::Operation;
use crate::run::Run;
use datafusion_common::DFSchema;
use std::sync::Arc;
use vstd::prelude::*;
use vstd::string::StringExecFns;

verus! {

/// Opens the consumer's operations. It keeps nothing between calls.
#[derive(Debug, Clone, Copy)]
pub struct PySubstraitConsumer;

impl PySubstraitConsumer {
    /// The cause reported when an interchange expression holds no
    /// expression.
    pub open spec fn spec_no_expression() -> Seq<char> {
        "the message holds no expression"@
    }

    /// What consuming an interchange expression owes, given the expressions
    /// that the engine rebuilt and the schema that it resolved: the first
    /// expression together with that schema, or, exactly when it rebuilt
    /// none, a conversion failure.
    pub open spec fn yields_single<T>(
        rebuilt: Seq<T>,
        schema: Arc<DFSchema>,
        r: Result<(T, Arc<DFSchema>), SubstraitError>,
    ) -> bool {
        if rebuilt.len() > 0 {
            r == Ok::<(T, Arc<DFSchema>), SubstraitError>((rebuilt[0], schema))
        } else {
            r matches Err(SubstraitError::Failed { stage, message }) && stage == Stage::Conversion
                && message@ == Self::spec_no_expression()
        }
    }

    /// Picks what consuming one interchange expression hands back: the
    /// first of the expressions that the engine rebuilt, and beside it the
    /// schema that the engine resolved. A message that held no expression
    /// is a conversion failure; nothing is made up in its place.
    pub fn single<T>(rebuilt: Vec<T>, schema: Arc<DFSchema>) -> (r: Result<
        (T, Arc<DFSchema>),
        SubstraitError,
    >)
        ensures
            Self::yields_single(rebuilt@, schema, r),
    {
        let mut rebuilt = rebuilt;
        if rebuilt.len() > 0 {
            Ok((rebuilt.swap_remove(0), schema))
        } else {
            Err(
                SubstraitError::Failed {
                    stage: Stage::Conversion,
                    message: String::from_str("the message holds no expression"),
                },
            )
        }
    }

    /// A plan carrier to a logical plan of the engine.
    pub fn from_substrait_plan() -> (run: Run)
        ensures
            run == Run::spec_start(Operation::FromSubstraitPlan),
            run.wf(),
    {
        Run::start(Operation::FromSubstraitPlan)
    }

    /// An expression carrier to an expression of the engine and the schema
    /// that its field references resolve against.
    pub fn from_substrait_expr() -> (run: Run)
        ensures
            run == Run::spec_start(Operation::FromSubstraitExpr),
            run.wf(),
    {
        Run::start(Operation::FromSubstraitExpr)
    }
}

} // verus!
