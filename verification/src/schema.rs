//! Binding a caller's schema for the engine.
//!
//! Expression operations take an ordered schema of field names and types.
//! It is read, never changed, and shared with the engine in the engine's
//! own form.

use crate::error::SubstraitError;
use crate::step::Step;
use datafusion_common::arrow::datatypes::Schema;
use datafusion_common::DFSchema;
use datafusion_common::DataFusionError;
use std::sync::Arc;
use vstd::prelude::*;

verus! {

/// The caller's schema: field names and types, in order. Nothing inside it
/// is read here.
#[verifier::external_type_specification]
#[verifier::external_body]
pub struct ExSchema(Schema);

/// The engine's form of a schema. Nothing inside it is read here.
#[verifier::external_type_specification]
#[verifier::external_body]
pub struct ExDFSchema(DFSchema);

/// The engine's error. Nothing inside it is read here.
#[verifier::external_type_specification]
#[verifier::external_body]
pub struct ExDataFusionError(DataFusionError);

/// The engine's form of a caller's schema.
pub uninterp spec fn engine_schema(schema: Schema) -> DFSchema;

/// `DFSchema::try_from` on an arrow `Schema`. It wraps the schema with
/// every field unqualified and checks nothing, so it accepts every schema,
/// and what it builds depends on the schema alone.
#[verifier::external_body]
fn try_bind(schema: Schema) -> (r: Result<DFSchema, DataFusionError>)
    ensures
        r is Ok,
        r matches Ok(bound) ==> bound == engine_schema(schema),
{
    DFSchema::try_from(schema)
}

/// Binds the caller's schema for the engine: the engine's form of it,
/// shared. Every schema binds. Should the engine ever refuse one, that is an
/// outcome which binding cannot have, and it is reported as such.
pub fn bind_schema(schema: Schema) -> (r: Result<Arc<DFSchema>, SubstraitError>)
    ensures
        r matches Ok(shared) && *shared == engine_schema(schema),
{
    match try_bind(schema) {
        Ok(bound) => Ok(Arc::new(bound)),
        Err(_) => Err(SubstraitError::Misfit { step: Step::BindSchema }),
    }
}

} // verus!
