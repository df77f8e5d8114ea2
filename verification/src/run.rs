//! A run of one operation: which step is due, what bytes are in flight,
//! and how the run ended.

use crate::carrier::Product;
use crate::error::SubstraitError;
use crate::operation::Operation;
use crate::step::Step;
use vstd::prelude::*;

verus! {

/// What the caller reports of the step it performed.
#[derive(Debug, PartialEq, Eq)]
pub enum Outcome {
    /// The step succeeded; what it left is no byte sequence.
    Done,
    /// The step succeeded and left these bytes.
    Bytes(Vec<u8>),
    /// The step failed, for this cause.
    Failed(String),
}

/// How a run stands.
#[derive(Debug, PartialEq, Eq)]
pub enum Status {
    /// A step is due.
    Pending(Step),
    /// Every step succeeded. The caller holds a value of this kind; where
    /// the kind is bytes, these are the bytes.
    Complete(Product, Option<Vec<u8>>),
    /// A step failed; no value is handed back.
    Failed(SubstraitError),
}

/// The progress of one operation. The caller performs the step that is due
/// and reports its outcome; nothing is retried and a failure ends the run.
/// Bytes that one step leaves for the next are held here, so that what is
/// written or decoded is what was encoded or read.
#[derive(Debug, PartialEq, Eq)]
pub struct Run {
    pub op: Operation,
    pub done: usize,
    pub bytes: Option<Vec<u8>>,
    pub failure: Option<SubstraitError>,
}

impl Run {
    /// A run keeps its books: it has taken no more steps than the operation
    /// has; a failure is that of the step at which it stopped and leaves no
    /// bytes behind; otherwise bytes are held exactly when the last step
    /// taken left bytes, or, before the first step, exactly when that step
    /// works on bytes.
    pub open spec fn wf(self) -> bool {
        &&& self.done <= self.op.steps().len()
        &&& self.failure matches Some(error) ==> {
            &&& self.done < self.op.steps().len()
            &&& error.spec_stage() == self.op.steps()[self.done as int].spec_stage()
            &&& self.bytes is None
        }
        &&& self.failure is None ==> if self.done >= 1 {
            self.bytes is Some <==> self.op.steps()[self.done - 1].spec_product() == Product::Bytes
        } else {
            self.bytes is Some <==> self.op.steps()[0].spec_takes_bytes()
        }
    }

    /// The run of `op` before its first step, which is to work on `bytes`.
    /// Where the first step works on no bytes, none are held.
    pub open spec fn spec_start_with(op: Operation, bytes: Vec<u8>) -> Run {
        Run {
            op,
            done: 0,
            bytes: if op.steps()[0].spec_takes_bytes() {
                Some(bytes)
            } else {
                None
            },
            failure: None,
        }
    }

    /// The run of `op` before its first step, with nothing supplied. Where
    /// the first step works on bytes, there is nothing for it to work on:
    /// the run has stopped there, and no step is due.
    pub open spec fn spec_start(op: Operation) -> Run {
        Run {
            op,
            done: 0,
            bytes: None,
            failure: if op.steps()[0].spec_takes_bytes() {
                Some(SubstraitError::Misfit { step: op.steps()[0] })
            } else {
                None
            },
        }
    }

    /// The step that is due: none once a step has failed or all are done.
    pub open spec fn spec_next_step(self) -> Option<Step> {
        if self.failure is None && self.done < self.op.steps().len() {
            Some(self.op.steps()[self.done as int])
        } else {
            None
        }
    }

    /// Whether `outcome` is one that `step` can have: a failure always,
    /// bytes exactly where the step leaves bytes.
    pub open spec fn fits(step: Step, outcome: Outcome) -> bool {
        match outcome {
            Outcome::Failed(_) => true,
            Outcome::Bytes(_) => step.spec_product() == Product::Bytes,
            Outcome::Done => step.spec_product() != Product::Bytes,
        }
    }

    /// The run stopped at the step due, with `error` and nothing in flight.
    pub open spec fn stopped(self, error: SubstraitError) -> Run {
        Run { op: self.op, done: self.done, bytes: None, failure: Some(error) }
    }

    /// The run after the due step's outcome. A success moves on to the next
    /// step, with the bytes that the step left, if any. A failure is
    /// recorded under the step's stage with its cause unchanged. An outcome
    /// that the step cannot have stops the run as well. A run with no step
    /// due stays as it is.
    pub open spec fn spec_advance(self, outcome: Outcome) -> Run {
        match self.spec_next_step() {
            None => self,
            Some(step) => match outcome {
                Outcome::Failed(cause) => self.stopped(
                    SubstraitError::Failed { stage: step.spec_stage(), message: cause },
                ),
                Outcome::Bytes(bytes) => if step.spec_product() == Product::Bytes {
                    Run {
                        op: self.op,
                        done: (self.done + 1) as usize,
                        bytes: Some(bytes),
                        failure: None,
                    }
                } else {
                    self.stopped(SubstraitError::Misfit { step })
                },
                Outcome::Done => if step.spec_product() != Product::Bytes {
                    Run {
                        op: self.op,
                        done: (self.done + 1) as usize,
                        bytes: None,
                        failure: None,
                    }
                } else {
                    self.stopped(SubstraitError::Misfit { step })
                },
            },
        }
    }

    /// The bytes that the step due is to work on: those that the step
    /// before it left, where a step is due at all.
    pub open spec fn spec_payload(self) -> Option<Vec<u8>> {
        if self.spec_next_step() is Some {
            self.bytes
        } else {
            None
        }
    }

    /// Whether every step of the operation has succeeded.
    pub open spec fn spec_is_complete(self) -> bool {
        self.failure is None && self.done >= self.op.steps().len()
    }

    /// How the run stands.
    pub open spec fn spec_status(self) -> Status {
        match self.failure {
            Some(error) => Status::Failed(error),
            None => if self.done < self.op.steps().len() {
                Status::Pending(self.op.steps()[self.done as int])
            } else {
                Status::Complete(self.op.spec_product(), self.bytes)
            },
        }
    }

    /// Opens a run of `op` with nothing supplied. An operation that begins
    /// by working on bytes is opened with `start_with`; opened here, it has
    /// stopped before its first step.
    pub fn start(op: Operation) -> (run: Run)
        ensures
            run == Self::spec_start(op),
            run.wf(),
    {
        let stopped = match op.step_at(0) {
            Some(first) => if first.takes_bytes() {
                Some(SubstraitError::Misfit { step: first })
            } else {
                None
            },
            None => None,
        };
        Run { op, done: 0, bytes: None, failure: stopped }
    }

    /// Opens a run of `op` whose first step is to work on `bytes`.
    pub fn start_with(op: Operation, bytes: Vec<u8>) -> (run: Run)
        ensures
            run == Self::spec_start_with(op, bytes),
            run.wf(),
    {
        let held = match op.step_at(0) {
            Some(first) => if first.takes_bytes() {
                Some(bytes)
            } else {
                None
            },
            None => None,
        };
        Run { op, done: 0, bytes: held, failure: None }
    }

    /// The step that the caller is to perform now, if any.
    pub fn next_step(&self) -> (step: Option<Step>)
        ensures
            step == self.spec_next_step(),
    {
        match self.failure {
            Some(_) => None,
            None => self.op.step_at(self.done),
        }
    }

    /// The bytes that the step due is to decode or write.
    pub fn payload(&self) -> (bytes: Option<&Vec<u8>>)
        ensures
            match bytes {
                Some(held) => self.spec_payload() == Some(*held),
                None => self.spec_payload() is None,
            },
    {
        match self.next_step() {
            Some(_) => self.bytes.as_ref(),
            None => None,
        }
    }

    /// Takes the outcome of the step that was due.
    pub fn advance(self, outcome: Outcome) -> (run: Run)
        ensures
            run == self.spec_advance(outcome),
            self.wf() ==> run.wf(),
    {
        match self.next_step() {
            None => self,
            Some(step) => {
                let leaves_bytes = match step.product() {
                    Product::Bytes => true,
                    _ => false,
                };
                match outcome {
                    Outcome::Failed(cause) => Run {
                        op: self.op,
                        done: self.done,
                        bytes: None,
                        failure: Some(
                            SubstraitError::Failed { stage: step.stage(), message: cause },
                        ),
                    },
                    Outcome::Bytes(bytes) => if leaves_bytes {
                        Run { op: self.op, done: self.done + 1, bytes: Some(bytes), failure: None }
                    } else {
                        Run {
                            op: self.op,
                            done: self.done,
                            bytes: None,
                            failure: Some(SubstraitError::Misfit { step }),
                        }
                    },
                    Outcome::Done => if !leaves_bytes {
                        Run { op: self.op, done: self.done + 1, bytes: None, failure: None }
                    } else {
                        Run {
                            op: self.op,
                            done: self.done,
                            bytes: None,
                            failure: Some(SubstraitError::Misfit { step }),
                        }
                    },
                }
            },
        }
    }

    /// Whether every step of the operation has succeeded.
    pub fn is_complete(&self) -> (r: bool)
        ensures
            r == self.spec_is_complete(),
    {
        match self.failure {
            Some(_) => false,
            None => self.done >= self.op.step_count(),
        }
    }

    /// Ends the run and says how it stands: the step still due, the value
    /// that the finished operation hands back, or the failure.
    pub fn status(self) -> (status: Status)
        ensures
            status == self.spec_status(),
    {
        match self.failure {
            Some(error) => Status::Failed(error),
            None => match self.op.step_at(self.done) {
                Some(step) => Status::Pending(step),
                None => Status::Complete(self.op.product(), self.bytes),
            },
        }
    }

    /// The run after the outcomes in `outcomes`, taken in order.
    pub open spec fn after(self, outcomes: Seq<Outcome>) -> Run
        decreases outcomes.len(),
    {
        if outcomes.len() == 0 {
            self
        } else {
            self.spec_advance(outcomes[0]).after(outcomes.skip(1))
        }
    }

    /// A failure is final: a failed run has no step due, holds no bytes to
    /// write or decode, and no outcome reported afterwards changes it.
    pub proof fn failure_is_final(self, outcomes: Seq<Outcome>)
        requires
            self.failure is Some,
        ensures
            self.spec_next_step() is None,
            self.spec_payload() is None,
            self.after(outcomes) == self,
        decreases outcomes.len(),
    {
        if outcomes.len() > 0 {
            self.failure_is_final(outcomes.skip(1));
        }
    }

    /// A completed run stays as it is whatever is reported afterwards.
    pub proof fn completion_is_final(self, outcome: Outcome)
        requires
            self.spec_is_complete(),
        ensures
            self.spec_advance(outcome) == self,
    {
    }

    /// A failing step yields no value, whatever the operation: the run ends
    /// there, under the stage of that step and with the cause as reported.
    pub proof fn failed_step_ends_the_run(self, cause: String)
        requires
            self.spec_next_step() is Some,
        ensures
            self.spec_advance(Outcome::Failed(cause)).spec_status() == Status::Failed(
                SubstraitError::Failed {
                    stage: self.spec_next_step().unwrap().spec_stage(),
                    message: cause,
                },
            ),
            self.spec_advance(Outcome::Failed(cause)).spec_next_step() is None,
            !self.spec_advance(Outcome::Failed(cause)).spec_is_complete(),
    {
    }

    /// Successes move a run on by their number, and leave in flight what
    /// the last of them left.
    pub proof fn successes_advance(self, outcomes: Seq<Outcome>)
        requires
            self.failure is None,
            outcomes.len() >= 1,
            self.done + outcomes.len() <= self.op.steps().len(),
            forall|i: int|
                0 <= i < outcomes.len() ==> !((#[trigger] outcomes[i]) is Failed) && Self::fits(
                    self.op.steps()[self.done + i],
                    outcomes[i],
                ),
        ensures
            self.after(outcomes) == (Run {
                op: self.op,
                done: (self.done + outcomes.len()) as usize,
                bytes: match outcomes.last() {
                    Outcome::Bytes(bytes) => Some(bytes),
                    _ => None,
                },
                failure: None,
            }),
        decreases outcomes.len(),
    {
        let next = self.spec_advance(outcomes[0]);
        let rest = outcomes.skip(1);
        assert(Self::fits(self.op.steps()[self.done + 0], outcomes[0]));
        assert(self.op.steps().len() <= 4);
        if rest.len() > 0 {
            assert forall|i: int| 0 <= i < rest.len() implies !((#[trigger] rest[i]) is Failed)
                && Self::fits(next.op.steps()[next.done + i], rest[i]) by {
                assert(rest[i] == outcomes[i + 1]);
            }
            next.successes_advance(rest);
            assert(rest.last() == outcomes.last());
        } else {
            assert(next.after(rest) == next);
            assert(outcomes.last() == outcomes[0]);
        }
    }

    /// Serialising to a carrier and decoding the serialised bytes agree.
    /// Fed the same planning, mapping and encoding outcomes, the one run
    /// hands its caller some bytes, and the other asks for exactly those
    /// bytes to be decoded into a plan; a run that decodes the returned
    /// bytes asks for the same, so whatever the decoder answers, the two
    /// end alike.
    pub proof fn serialize_to_plan_decodes_what_serialize_bytes_returns(
        bytes: Vec<u8>,
        decoded: Outcome,
    )
        ensures
            ({
                let outcomes = seq![Outcome::Done, Outcome::Done, Outcome::Bytes(bytes)];
                let to_plan = Self::spec_start(Operation::SerializeToPlan).after(outcomes);
                let to_bytes = Self::spec_start(Operation::SerializeBytes).after(outcomes);
                let decode = Self::spec_start_with(Operation::DeserializeBytes, bytes);
                &&& to_bytes.spec_status() == Status::Complete(Product::Bytes, Some(bytes))
                &&& to_plan.spec_next_step() == Some(Step::DecodePlan)
                &&& to_plan.spec_payload() == Some(bytes)
                &&& decode.spec_next_step() == to_plan.spec_next_step()
                &&& decode.spec_payload() == to_plan.spec_payload()
                &&& decode.spec_advance(decoded).spec_status() == to_plan.spec_advance(
                    decoded,
                ).spec_status()
            }),
    {
        let outcomes = seq![Outcome::Done, Outcome::Done, Outcome::Bytes(bytes)];
        assert(outcomes.last() == Outcome::Bytes(bytes));
        Self::spec_start(Operation::SerializeToPlan).successes_advance(outcomes);
        Self::spec_start(Operation::SerializeBytes).successes_advance(outcomes);
    }

    /// Nothing is written before encoding has fully succeeded, and what is
    /// written is what was encoded: when writing is due, it is the last
    /// step, the step before it encoded the plan, nothing has failed, and
    /// the bytes in flight are there.
    pub proof fn write_waits_for_encoding(self)
        requires
            self.wf(),
            self.spec_next_step() == Some(Step::Write),
        ensures
            self.failure is None,
            self.done >= 1,
            self.op.steps()[self.done - 1] == Step::EncodePlan,
            self.done == self.op.steps().len() - 1,
            self.spec_payload() is Some,
    {
        Operation::write_comes_last_after_encoding(self.op, self.done as int);
    }

    /// A step that works on bytes finds them, and no other step does.
    pub proof fn bytes_are_there_when_needed(self)
        requires
            self.wf(),
            self.spec_next_step() is Some,
        ensures
            self.spec_payload() is Some <==> self.spec_next_step().unwrap().spec_takes_bytes(),
    {
    }

    /// The bytes that a step works on are the bytes that the step before it
    /// reported, untouched.
    pub proof fn payload_is_what_was_left(self, bytes: Vec<u8>)
        requires
            self.spec_next_step() matches Some(step) && step.spec_product() == Product::Bytes,
            self.done + 1 < self.op.steps().len(),
        ensures
            self.spec_advance(Outcome::Bytes(bytes)).spec_payload() == Some(bytes),
    {
    }
}

} // verus!
