use std::sync::Arc;

use datafusion_common::arrow::datatypes::DataType;
use datafusion_common::arrow::datatypes::Field;
use datafusion_common::arrow::datatypes::Schema;
use datafusion_common::DFSchema;
use substrait_bridge::carrier::Product;
use substrait_bridge::carrier::PyPlan;
use substrait_bridge::consumer::PySubstraitConsumer;
use substrait_bridge::error::Stage;
use substrait_bridge::error::SubstraitError;
use substrait_bridge::operation::Operation;
use substrait_bridge::producer::PySubstraitProducer;
use substrait_bridge::run::Run;
use substrait_bridge::schema::bind_schema;
use substrait_bridge::serializer::PySubstraitSerializer;
use substrait_bridge::step::Step;

fn steps_of(op: Operation) -> Vec<Step> {
    let mut steps = Vec::new();
    let mut index = 0;
    while let Some(step) = op.step_at(index) {
        steps.push(step);
        index += 1;
    }
    steps
}

const ALL: [Operation; 13] = [
    Operation::Serialize,
    Operation::SerializeToPlan,
    Operation::SerializeBytes,
    Operation::SerializeSqlExprBytes,
    Operation::SerializeDfExprBytes,
    Operation::Deserialize,
    Operation::DeserializeBytes,
    Operation::DeserializeExprBytes,
    Operation::ToSubstraitPlan,
    Operation::ToSubstraitExpr,
    Operation::FromSubstraitPlan,
    Operation::FromSubstraitExpr,
    Operation::Encode,
];

#[test]
fn serialize_plans_maps_encodes_then_writes() {
    assert_eq!(
        steps_of(Operation::Serialize),
        vec![Step::PlanSql, Step::ProducePlan, Step::EncodePlan, Step::Write]
    );
    assert_eq!(Operation::Serialize.product(), Product::Nothing);
}

#[test]
fn serialize_bytes_stops_after_encoding() {
    assert_eq!(
        steps_of(Operation::SerializeBytes),
        vec![Step::PlanSql, Step::ProducePlan, Step::EncodePlan]
    );
    assert_eq!(Operation::SerializeBytes.product(), Product::Bytes);
}

#[test]
fn serialize_to_plan_is_serialize_bytes_then_decode() {
    let mut expected = steps_of(Operation::SerializeBytes);
    expected.extend(steps_of(Operation::DeserializeBytes));
    assert_eq!(steps_of(Operation::SerializeToPlan), expected);
    assert_eq!(Operation::SerializeToPlan.product(), Product::PlanCarrier);
}

#[test]
fn storage_operations_wrap_the_byte_operations() {
    let mut stored = steps_of(Operation::SerializeBytes);
    stored.push(Step::Write);
    assert_eq!(steps_of(Operation::Serialize), stored);
    let mut loaded = vec![Step::Read];
    loaded.extend(steps_of(Operation::DeserializeBytes));
    assert_eq!(steps_of(Operation::Deserialize), loaded);
    assert_eq!(Operation::Deserialize.product(), Product::PlanCarrier);
}

#[test]
fn expression_operations_bind_the_schema_first() {
    assert_eq!(
        steps_of(Operation::SerializeSqlExprBytes),
        vec![
            Step::BindSchema,
            Step::ParseExpression,
            Step::ProduceExpression,
            Step::EncodeExpression
        ]
    );
    assert_eq!(
        steps_of(Operation::SerializeDfExprBytes),
        vec![Step::BindSchema, Step::ProduceExpression, Step::EncodeExpression]
    );
    assert_eq!(
        steps_of(Operation::ToSubstraitExpr),
        vec![Step::BindSchema, Step::ProduceExpression]
    );
    assert_eq!(Operation::SerializeSqlExprBytes.product(), Product::Bytes);
    assert_eq!(Operation::SerializeDfExprBytes.product(), Product::Bytes);
    assert_eq!(Operation::ToSubstraitExpr.product(), Product::ExpressionCarrier);
}

#[test]
fn single_step_operations() {
    assert_eq!(steps_of(Operation::DeserializeBytes), vec![Step::DecodePlan]);
    assert_eq!(steps_of(Operation::DeserializeExprBytes), vec![Step::DecodeExpression]);
    assert_eq!(steps_of(Operation::ToSubstraitPlan), vec![Step::ProducePlan]);
    assert_eq!(steps_of(Operation::FromSubstraitPlan), vec![Step::ConsumePlan]);
    assert_eq!(steps_of(Operation::FromSubstraitExpr), vec![Step::ConsumeExpression]);
    assert_eq!(steps_of(Operation::Encode), vec![Step::EncodePlan]);
    assert_eq!(Operation::DeserializeBytes.product(), Product::PlanCarrier);
    assert_eq!(Operation::DeserializeExprBytes.product(), Product::ExpressionCarrier);
    assert_eq!(Operation::ToSubstraitPlan.product(), Product::PlanCarrier);
    assert_eq!(Operation::FromSubstraitPlan.product(), Product::LogicalPlan);
    assert_eq!(Operation::FromSubstraitExpr.product(), Product::ExpressionWithSchema);
    assert_eq!(Operation::Encode.product(), Product::Bytes);
}

#[test]
fn step_count_matches_the_steps() {
    for op in ALL {
        let steps = steps_of(op);
        assert_eq!(op.step_count(), steps.len());
        assert_eq!(op.step_at(steps.len()), None);
        assert_eq!(op.step_at(usize::MAX), None);
        assert_eq!(op.product(), steps[steps.len() - 1].product());
    }
}

#[test]
fn write_is_always_last_and_follows_encoding() {
    for op in ALL {
        let steps = steps_of(op);
        for (index, step) in steps.iter().enumerate() {
            if *step == Step::Write {
                assert_eq!(index, steps.len() - 1);
                assert_eq!(steps[index - 1], Step::EncodePlan);
            }
        }
    }
}

#[test]
fn bytes_are_used_only_after_a_step_that_leaves_bytes() {
    for op in ALL {
        let steps = steps_of(op);
        for index in 1..steps.len() {
            let takes_bytes = matches!(
                steps[index],
                Step::Write | Step::DecodePlan | Step::DecodeExpression
            );
            if takes_bytes {
                assert_eq!(steps[index - 1].product(), Product::Bytes);
            }
        }
    }
}

#[test]
fn every_step_has_its_stage() {
    assert_eq!(Step::PlanSql.stage(), Stage::Planning);
    assert_eq!(Step::ParseExpression.stage(), Stage::Planning);
    assert_eq!(Step::BindSchema.stage(), Stage::Conversion);
    assert_eq!(Step::ProducePlan.stage(), Stage::Conversion);
    assert_eq!(Step::ProduceExpression.stage(), Stage::Conversion);
    assert_eq!(Step::ConsumePlan.stage(), Stage::Conversion);
    assert_eq!(Step::ConsumeExpression.stage(), Stage::Conversion);
    assert_eq!(Step::EncodePlan.stage(), Stage::Codec);
    assert_eq!(Step::EncodeExpression.stage(), Stage::Codec);
    assert_eq!(Step::DecodePlan.stage(), Stage::Codec);
    assert_eq!(Step::DecodeExpression.stage(), Stage::Codec);
    assert_eq!(Step::Read.stage(), Stage::Io);
    assert_eq!(Step::Write.stage(), Stage::Io);
}

#[test]
fn every_step_has_its_product() {
    assert_eq!(Step::PlanSql.product(), Product::LogicalPlan);
    assert_eq!(Step::ConsumePlan.product(), Product::LogicalPlan);
    assert_eq!(Step::BindSchema.product(), Product::Schema);
    assert_eq!(Step::ParseExpression.product(), Product::Expression);
    assert_eq!(Step::ConsumeExpression.product(), Product::ExpressionWithSchema);
    assert_eq!(Step::ProducePlan.product(), Product::PlanCarrier);
    assert_eq!(Step::DecodePlan.product(), Product::PlanCarrier);
    assert_eq!(Step::ProduceExpression.product(), Product::ExpressionCarrier);
    assert_eq!(Step::DecodeExpression.product(), Product::ExpressionCarrier);
    assert_eq!(Step::EncodePlan.product(), Product::Bytes);
    assert_eq!(Step::EncodeExpression.product(), Product::Bytes);
    assert_eq!(Step::Read.product(), Product::Bytes);
    assert_eq!(Step::Write.product(), Product::Nothing);
}

#[test]
fn stage_names() {
    assert_eq!(Stage::Planning.name(), "planning");
    assert_eq!(Stage::Conversion.name(), "conversion");
    assert_eq!(Stage::Codec.name(), "codec");
    assert_eq!(Stage::Io.name(), "io");
}

#[test]
fn each_entry_point_opens_its_own_operation() {
    assert_eq!(PySubstraitSerializer::serialize().op, Operation::Serialize);
    assert_eq!(PySubstraitSerializer::serialize_to_plan().op, Operation::SerializeToPlan);
    assert_eq!(PySubstraitSerializer::serialize_bytes().op, Operation::SerializeBytes);
    assert_eq!(
        PySubstraitSerializer::serialize_sqlexpr_bytes().op,
        Operation::SerializeSqlExprBytes
    );
    assert_eq!(
        PySubstraitSerializer::serialize_dfexpr_bytes().op,
        Operation::SerializeDfExprBytes
    );
    assert_eq!(PySubstraitSerializer::deserialize().op, Operation::Deserialize);
    assert_eq!(PySubstraitSerializer::deserialize_bytes(vec![1]).op, Operation::DeserializeBytes);
    assert_eq!(
        PySubstraitSerializer::deserialize_expr_bytes(vec![1]).op,
        Operation::DeserializeExprBytes
    );
    assert_eq!(PySubstraitProducer::to_substrait_plan().op, Operation::ToSubstraitPlan);
    assert_eq!(
        PySubstraitProducer::to_substrait_expr("total".to_string()).run.op,
        Operation::ToSubstraitExpr
    );
    assert_eq!(PyPlan::encode().op, Operation::Encode);
    assert_eq!(PySubstraitConsumer::from_substrait_plan().op, Operation::FromSubstraitPlan);
    assert_eq!(PySubstraitConsumer::from_substrait_expr().op, Operation::FromSubstraitExpr);
}

#[test]
fn entry_points_open_fresh_runs() {
    let run = PySubstraitSerializer::serialize();
    assert_eq!(run.done, 0);
    assert_eq!(run.bytes, None);
    assert_eq!(run.failure, None);
    assert_eq!(run.next_step(), Some(Step::PlanSql));
    assert_eq!(PySubstraitConsumer::from_substrait_expr().next_step(), Some(Step::ConsumeExpression));
}

#[test]
fn expression_label_is_fixed() {
    assert_eq!(PySubstraitProducer::expression_label(), "datafusion_expression");
}

fn a_and_b() -> Arc<DFSchema> {
    let schema = Schema::new(vec![
        Field::new("a", DataType::Int32, false),
        Field::new("b", DataType::Int32, false),
    ]);
    bind_schema(schema).unwrap()
}

#[test]
fn single_picks_the_first_expression_and_keeps_the_schema() {
    let (expr, schema) =
        PySubstraitConsumer::single(vec!["a + b", "a - b"], a_and_b()).unwrap();
    assert_eq!(expr, "a + b");
    assert_eq!(schema, a_and_b());
    assert_eq!(schema.field_names(), vec!["a".to_string(), "b".to_string()]);
    let (expr, schema) = PySubstraitConsumer::single(vec![7u32], a_and_b()).unwrap();
    assert_eq!(expr, 7u32);
    assert_eq!(schema.field(1).data_type(), &DataType::Int32);
}

#[test]
fn message_without_an_expression_is_a_conversion_failure() {
    let empty = Arc::new(DFSchema::empty());
    let r = PySubstraitConsumer::single(Vec::<u32>::new(), empty);
    assert_eq!(
        r,
        Err(SubstraitError::Failed {
            stage: Stage::Conversion,
            message: "the message holds no expression".to_string()
        })
    );
    let r = PySubstraitConsumer::single(Vec::<String>::new(), a_and_b());
    assert!(r.is_err());
}

#[test]
fn producer_keeps_the_label_that_the_caller_names() {
    let opened = PySubstraitProducer::to_substrait_expr("total".to_string());
    assert_eq!(opened.label, "total");
    assert_eq!(opened.run, Run::start(Operation::ToSubstraitExpr));
    assert_eq!(opened.run.next_step(), Some(Step::BindSchema));
    let opened = PySubstraitProducer::to_substrait_expr(String::new());
    assert_eq!(opened.label, "");
    let named = PySubstraitProducer::expression_label().to_string();
    assert_eq!(PySubstraitProducer::to_substrait_expr(named).label, "datafusion_expression");
}

#[test]
fn failure_report_names_the_stage_and_the_cause() {
    let error = SubstraitError::Failed {
        stage: Stage::Conversion,
        message: "No table named 'orders'".to_string(),
    };
    assert_eq!(error.report(), "conversion: No table named 'orders'");
    let error = SubstraitError::Failed { stage: Stage::Io, message: String::new() };
    assert_eq!(error.report(), "io: ");
    let error = SubstraitError::Failed { stage: Stage::Planning, message: "x".to_string() };
    assert_eq!(error.report(), "planning: x");
    let error = SubstraitError::Misfit { step: Step::EncodePlan };
    assert_eq!(error.report(), "codec: the step reported no usable outcome");
}

#[test]
fn plan_carrier_opens_its_encoding() {
    let run = PyPlan::encode();
    assert_eq!(run.next_step(), Some(Step::EncodePlan));
    assert_eq!(run.payload(), None);
    assert_eq!(run.failure, None);
}

#[test]
fn only_decoding_and_writing_take_bytes() {
    assert!(Step::DecodePlan.takes_bytes());
    assert!(Step::DecodeExpression.takes_bytes());
    assert!(Step::Write.takes_bytes());
    for step in [
        Step::PlanSql,
        Step::BindSchema,
        Step::ParseExpression,
        Step::ProducePlan,
        Step::ProduceExpression,
        Step::EncodePlan,
        Step::EncodeExpression,
        Step::ConsumePlan,
        Step::ConsumeExpression,
        Step::Read,
    ] {
        assert!(!step.takes_bytes());
    }
}

#[test]
fn deserialize_bytes_hands_the_given_bytes_to_the_decoder() {
    let run = PySubstraitSerializer::deserialize_bytes(vec![0x0a, 0x02, 0x08, 0x01]);
    assert_eq!(run.next_step(), Some(Step::DecodePlan));
    assert_eq!(run.payload(), Some(&vec![0x0au8, 0x02, 0x08, 0x01]));
    let run = PySubstraitSerializer::deserialize_expr_bytes(Vec::new());
    assert_eq!(run.next_step(), Some(Step::DecodeExpression));
    assert_eq!(run.payload(), Some(&Vec::new()));
}
