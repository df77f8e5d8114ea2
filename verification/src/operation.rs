//! The public operations of the bridge, each as its sequence of steps.

use crate::carrier::Product;
use crate::step::Step;
use vstd::prelude::*;

verus! {

/// An operation that a caller can ask of the bridge.
#[derive(Debug, Clone, Copy, PartialEq, Eq, Structural)]
pub enum Operation {
    /// SQL text to encoded plan bytes, written to a destination.
    Serialize,
    /// SQL text to the plan carrier that the encoded bytes decode to.
    SerializeToPlan,
    /// SQL text to encoded plan bytes.
    SerializeBytes,
    /// SQL text of a scalar expression, bound to a schema, to encoded
    /// expression bytes.
    SerializeSqlExprBytes,
    /// An expression of the engine, bound to a schema, to encoded
    /// expression bytes.
    SerializeDfExprBytes,
    /// The bytes at a location to a plan carrier.
    Deserialize,
    /// Bytes to a plan carrier.
    DeserializeBytes,
    /// Bytes to an expression carrier.
    DeserializeExprBytes,
    /// A logical plan to a plan carrier.
    ToSubstraitPlan,
    /// An expression and its schema to an expression carrier.
    ToSubstraitExpr,
    /// A plan carrier to a logical plan.
    FromSubstraitPlan,
    /// An expression carrier to an expression of the engine and its
    /// resolved schema.
    FromSubstraitExpr,
    /// A plan carrier to its bytes.
    Encode,
}

impl Operation {
    /// The steps of the operation, in the order in which they are taken.
    pub open spec fn steps(self) -> Seq<Step> {
        match self {
            Operation::Serialize => seq![
                Step::PlanSql,
                Step::ProducePlan,
                Step::EncodePlan,
                Step::Write,
            ],
            Operation::SerializeToPlan => seq![
                Step::PlanSql,
                Step::ProducePlan,
                Step::EncodePlan,
                Step::DecodePlan,
            ],
            Operation::SerializeBytes => seq![Step::PlanSql, Step::ProducePlan, Step::EncodePlan],
            Operation::SerializeSqlExprBytes => seq![
                Step::BindSchema,
                Step::ParseExpression,
                Step::ProduceExpression,
                Step::EncodeExpression,
            ],
            Operation::SerializeDfExprBytes => seq![
                Step::BindSchema,
                Step::ProduceExpression,
                Step::EncodeExpression,
            ],
            Operation::Deserialize => seq![Step::Read, Step::DecodePlan],
            Operation::DeserializeBytes => seq![Step::DecodePlan],
            Operation::DeserializeExprBytes => seq![Step::DecodeExpression],
            Operation::ToSubstraitPlan => seq![Step::ProducePlan],
            Operation::ToSubstraitExpr => seq![Step::BindSchema, Step::ProduceExpression],
            Operation::FromSubstraitPlan => seq![Step::ConsumePlan],
            Operation::FromSubstraitExpr => seq![Step::ConsumeExpression],
            Operation::Encode => seq![Step::EncodePlan],
        }
    }

    /// What the operation hands to its caller: what its last step leaves.
    pub open spec fn spec_product(self) -> Product {
        self.steps().last().spec_product()
    }

    /// The number of steps of the operation.
    pub fn step_count(self) -> (count: usize)
        ensures
            count == self.steps().len(),
            1 <= count <= 4,
    {
        match self {
            Operation::Serialize
            | Operation::SerializeToPlan
            | Operation::SerializeSqlExprBytes => 4,
            Operation::SerializeBytes | Operation::SerializeDfExprBytes => 3,
            Operation::Deserialize | Operation::ToSubstraitExpr => 2,
            Operation::DeserializeBytes
            | Operation::DeserializeExprBytes
            | Operation::ToSubstraitPlan
            | Operation::FromSubstraitPlan
            | Operation::FromSubstraitExpr
            | Operation::Encode => 1,
        }
    }

    /// The step at `index`, or `None` past the last step.
    pub fn step_at(self, index: usize) -> (step: Option<Step>)
        ensures
            step == if index < self.steps().len() {
                Some(self.steps()[index as int])
            } else {
                None::<Step>
            },
    {
        match self {
            Operation::Serialize => match index {
                0 => Some(Step::PlanSql),
                1 => Some(Step::ProducePlan),
                2 => Some(Step::EncodePlan),
                3 => Some(Step::Write),
                _ => None,
            },
            Operation::SerializeToPlan => match index {
                0 => Some(Step::PlanSql),
                1 => Some(Step::ProducePlan),
                2 => Some(Step::EncodePlan),
                3 => Some(Step::DecodePlan),
                _ => None,
            },
            Operation::SerializeBytes => match index {
                0 => Some(Step::PlanSql),
                1 => Some(Step::ProducePlan),
                2 => Some(Step::EncodePlan),
                _ => None,
            },
            Operation::SerializeSqlExprBytes => match index {
                0 => Some(Step::BindSchema),
                1 => Some(Step::ParseExpression),
                2 => Some(Step::ProduceExpression),
                3 => Some(Step::EncodeExpression),
                _ => None,
            },
            Operation::SerializeDfExprBytes => match index {
                0 => Some(Step::BindSchema),
                1 => Some(Step::ProduceExpression),
                2 => Some(Step::EncodeExpression),
                _ => None,
            },
            Operation::Deserialize => match index {
                0 => Some(Step::Read),
                1 => Some(Step::DecodePlan),
                _ => None,
            },
            Operation::DeserializeBytes => match index {
                0 => Some(Step::DecodePlan),
                _ => None,
            },
            Operation::DeserializeExprBytes => match index {
                0 => Some(Step::DecodeExpression),
                _ => None,
            },
            Operation::ToSubstraitPlan => match index {
                0 => Some(Step::ProducePlan),
                _ => None,
            },
            Operation::ToSubstraitExpr => match index {
                0 => Some(Step::BindSchema),
                1 => Some(Step::ProduceExpression),
                _ => None,
            },
            Operation::FromSubstraitPlan => match index {
                0 => Some(Step::ConsumePlan),
                _ => None,
            },
            Operation::FromSubstraitExpr => match index {
                0 => Some(Step::ConsumeExpression),
                _ => None,
            },
            Operation::Encode => match index {
                0 => Some(Step::EncodePlan),
                _ => None,
            },
        }
    }

    /// What the operation hands to its caller when every step succeeded.
    pub fn product(self) -> (product: Product)
        ensures
            product == self.spec_product(),
    {
        let count: usize = self.step_count();
        match self.step_at(count - 1) {
            Some(step) => step.product(),
            None => Product::Nothing,
        }
    }

    /// Serialising to a carrier is serialising to bytes and then decoding
    /// those bytes: the same steps, in the same order, and nothing else.
    pub proof fn serialize_to_plan_decodes_serialized_bytes()
        ensures
            Operation::SerializeToPlan.steps() == Operation::SerializeBytes.steps()
                + Operation::DeserializeBytes.steps(),
    {
        assert(Operation::SerializeToPlan.steps() =~= Operation::SerializeBytes.steps()
            + Operation::DeserializeBytes.steps());
    }

    /// Serialising to a destination is serialising to bytes and then
    /// writing; reading from a source is reading and then decoding bytes.
    pub proof fn storage_wraps_the_byte_operations()
        ensures
            Operation::Serialize.steps() == Operation::SerializeBytes.steps().push(Step::Write),
            Operation::Deserialize.steps() == seq![Step::Read]
                + Operation::DeserializeBytes.steps(),
    {
        assert(Operation::Serialize.steps() =~= Operation::SerializeBytes.steps().push(
            Step::Write,
        ));
        assert(Operation::Deserialize.steps() =~= seq![Step::Read]
            + Operation::DeserializeBytes.steps());
    }

    /// Bytes are written only as the last step of an operation, and only
    /// directly after a plan was encoded.
    pub proof fn write_comes_last_after_encoding(op: Operation, index: int)
        requires
            0 <= index < op.steps().len(),
            op.steps()[index] == Step::Write,
        ensures
            index == op.steps().len() - 1,
            index >= 1,
            op.steps()[index - 1] == Step::EncodePlan,
    {
    }

    /// Every step takes what the step before it left: bytes are decoded or
    /// written only after a step that yields bytes, a message is encoded
    /// only after a step that yields its carrier.
    pub proof fn each_step_is_fed(op: Operation, index: int)
        requires
            1 <= index < op.steps().len(),
        ensures
            Self::feeds(op.steps()[index - 1], op.steps()[index]),
    {
    }

    /// Whether `next` can work on what `before` leaves behind.
    pub open spec fn feeds(before: Step, next: Step) -> bool {
        match next {
            Step::PlanSql | Step::BindSchema | Step::Read => false,
            Step::ParseExpression => before.spec_product() == Product::Schema,
            Step::ProducePlan => before.spec_product() == Product::LogicalPlan,
            Step::ConsumePlan => before.spec_product() == Product::PlanCarrier,
            Step::ProduceExpression => before.spec_product() == Product::Expression
                || before.spec_product() == Product::Schema,
            Step::ConsumeExpression => before.spec_product() == Product::ExpressionCarrier,
            Step::EncodePlan => before.spec_product() == Product::PlanCarrier,
            Step::EncodeExpression => before.spec_product() == Product::ExpressionCarrier,
            Step::DecodePlan | Step::DecodeExpression | Step::Write => before.spec_product()
                == Product::Bytes,
        }
    }
}

} // verus!
