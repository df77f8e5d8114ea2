//! The orchestration of a bridge between a query engine's plans and
//! expressions and their engine-neutral binary interchange form.
//!
//! Planning SQL text, mapping plans, encoding messages and touching files
//! are all work of the engine, the codec or the operating system. This
//! library decides which of them is asked for, in what order, on which
//! bytes, and how a failure of any of them is reported. Each public
//! operation is a fixed sequence of steps; a `Run` walks it one outcome at a
//! time, so the caller performs a step, reports what happened, and is told
//! what comes next. Bytes that one step leaves for the next pass through the
//! run, and a caller's schema is bound for the engine here.

pub mod carrier;
pub mod consumer;
pub mod error;
pub mod operation;
pub mod producer;
pub mod run;
pub mod schema;
pub mod serializer;
pub mod step;
