//! The units of outside work that an operation is made of.

use crate::carrier::Product;
use crate::error::Stage;
use vstd::prelude::*;

verus! {

/// One unit of work that the caller performs on the bridge's behalf.
#[derive(Debug, Clone, Copy, PartialEq, Eq, Structural)]
pub enum Step {
    /// Plan SQL text against the session into a logical plan.
    PlanSql,
    /// Turn the supplied schema into the engine's schema.
    BindSchema,
    /// Parse SQL text as a scalar expression bound to the schema.
    ParseExpression,
    /// Map a logical plan into an interchange plan.
    ProducePlan,
    /// Map a scalar expression and its schema into a labelled interchange
    /// expression.
    ProduceExpression,
    /// Encode an interchange plan as bytes.
    EncodePlan,
    /// Encode an interchange expression as bytes.
    EncodeExpression,
    /// Decode bytes into an interchange plan.
    DecodePlan,
    /// Decode bytes into an interchange expression.
    DecodeExpression,
    /// Rebuild a logical plan from an interchange plan.
    ConsumePlan,
    /// Rebuild a scalar expression, and the schema that its field
    /// references resolve against, from an interchange expression.
    ConsumeExpression,
    /// Read all bytes at the source location.
    Read,
    /// Write the encoded bytes to the destination.
    Write,
}

impl Step {
    /// The stage under which a failure of this step is reported.
    pub open spec fn spec_stage(self) -> Stage {
        match self {
            Step::PlanSql | Step::ParseExpression => Stage::Planning,
            Step::BindSchema
            | Step::ProducePlan
            | Step::ProduceExpression
            | Step::ConsumePlan
            | Step::ConsumeExpression => Stage::Conversion,
            Step::EncodePlan
            | Step::EncodeExpression
            | Step::DecodePlan
            | Step::DecodeExpression => Stage::Codec,
            Step::Read | Step::Write => Stage::Io,
        }
    }

    /// The stage under which a failure of this step is reported.
    pub fn stage(self) -> (stage: Stage)
        ensures
            stage == self.spec_stage(),
    {
        match self {
            Step::PlanSql | Step::ParseExpression => Stage::Planning,
            Step::BindSchema
            | Step::ProducePlan
            | Step::ProduceExpression
            | Step::ConsumePlan
            | Step::ConsumeExpression => Stage::Conversion,
            Step::EncodePlan
            | Step::EncodeExpression
            | Step::DecodePlan
            | Step::DecodeExpression => Stage::Codec,
            Step::Read | Step::Write => Stage::Io,
        }
    }

    /// Whether the step works on a byte sequence.
    pub open spec fn spec_takes_bytes(self) -> bool {
        self == Step::DecodePlan || self == Step::DecodeExpression || self == Step::Write
    }

    /// Whether the step works on a byte sequence.
    pub fn takes_bytes(self) -> (r: bool)
        ensures
            r == self.spec_takes_bytes(),
    {
        match self {
            Step::DecodePlan | Step::DecodeExpression | Step::Write => true,
            _ => false,
        }
    }

    /// What the step leaves behind when it succeeds.
    pub open spec fn spec_product(self) -> Product {
        match self {
            Step::PlanSql | Step::ConsumePlan => Product::LogicalPlan,
            Step::BindSchema => Product::Schema,
            Step::ParseExpression => Product::Expression,
            Step::ConsumeExpression => Product::ExpressionWithSchema,
            Step::ProducePlan | Step::DecodePlan => Product::PlanCarrier,
            Step::ProduceExpression | Step::DecodeExpression => Product::ExpressionCarrier,
            Step::EncodePlan | Step::EncodeExpression | Step::Read => Product::Bytes,
            Step::Write => Product::Nothing,
        }
    }

    /// What the step leaves behind when it succeeds.
    pub fn product(self) -> (product: Product)
        ensures
            product == self.spec_product(),
    {
        match self {
            Step::PlanSql | Step::ConsumePlan => Product::LogicalPlan,
            Step::BindSchema => Product::Schema,
            Step::ParseExpression => Product::Expression,
            Step::ConsumeExpression => Product::ExpressionWithSchema,
            Step::ProducePlan | Step::DecodePlan => Product::PlanCarrier,
            Step::ProduceExpression | Step::DecodeExpression => Product::ExpressionCarrier,
            Step::EncodePlan | Step::EncodeExpression | Step::Read => Product::Bytes,
            Step::Write => Product::Nothing,
        }
    }
}

} // verus!
