//! The serializer: between SQL text, plans and expressions on one side and
//! raw interchange bytes on the other.

use crate::operation::Operation;
use crate::run::Run;
use crate::step::Step;
use vstd::prelude::*;

verus! {

/// Opens the serializer's operations. It keeps nothing between calls.
#[derive(Debug, Clone, Copy)]
pub struct PySubstraitSerializer;

impl PySubstraitSerializer {
    /// SQL text to encoded plan bytes at a destination: plan, map, encode,
    /// and only then write.
    pub fn serialize() -> (run: Run)
        ensures
            run == Run::spec_start(Operation::Serialize),
            run.wf(),
    {
        Run::start(Operation::Serialize)
    }

    /// SQL text to a plan carrier, by way of the encoded bytes.
    pub fn serialize_to_plan() -> (run: Run)
        ensures
            run == Run::spec_start(Operation::SerializeToPlan),
            run.wf(),
    {
        Run::start(Operation::SerializeToPlan)
    }

    /// SQL text to encoded plan bytes.
    pub fn serialize_bytes() -> (run: Run)
        ensures
            run == Run::spec_start(Operation::SerializeBytes),
            run.wf(),
    {
        Run::start(Operation::SerializeBytes)
    }

    /// SQL text of a scalar expression and a schema to encoded expression
    /// bytes.
    pub fn serialize_sqlexpr_bytes() -> (run: Run)
        ensures
            run == Run::spec_start(Operation::SerializeSqlExprBytes),
            run.wf(),
    {
        Run::start(Operation::SerializeSqlExprBytes)
    }

    /// An expression of the engine and a schema to encoded expression bytes.
    pub fn serialize_dfexpr_bytes() -> (run: Run)
        ensures
            run == Run::spec_start(Operation::SerializeDfExprBytes),
            run.wf(),
    {
        Run::start(Operation::SerializeDfExprBytes)
    }

    /// The bytes at a location to a plan carrier.
    pub fn deserialize() -> (run: Run)
        ensures
            run == Run::spec_start(Operation::Deserialize),
            run.wf(),
    {
        Run::start(Operation::Deserialize)
    }

    /// `proto_bytes` to a plan carrier: the bytes are what the decoder is
    /// handed, whole and unchanged.
    pub fn deserialize_bytes(proto_bytes: Vec<u8>) -> (run: Run)
        ensures
            run == Run::spec_start_with(Operation::DeserializeBytes, proto_bytes),
            run.spec_next_step() == Some(Step::DecodePlan),
            run.spec_payload() == Some(proto_bytes),
            run.wf(),
    {
        Run::start_with(Operation::DeserializeBytes, proto_bytes)
    }

    /// `proto_bytes` to an expression carrier: the bytes are what the
    /// decoder is handed, whole and unchanged.
    pub fn deserialize_expr_bytes(proto_bytes: Vec<u8>) -> (run: Run)
        ensures
            run == Run::spec_start_with(Operation::DeserializeExprBytes, proto_bytes),
            run.spec_next_step() == Some(Step::DecodeExpression),
            run.spec_payload() == Some(proto_bytes),
            run.wf(),
    {
        Run::start_with(Operation::DeserializeExprBytes, proto_bytes)
    }
}

} // verus!
