use crate::access::{FlagClear, Reply, Request, FLASH_KEY1, FLASH_KEY2};
use crate::bank::Bank;
use crate::clear::error_clears;
use crate::error::Error;
use crate::profile::Family;
use crate::script::{lock_steps, word_bytes, Step};
use crate::status::StatusFlag;
use vstd::prelude::*;

verus! {

/// How far the current step has come.
#[derive(Clone, Copy, PartialEq, Eq, Debug, Structural)]
pub enum Stage {
    /// The step's first access is under way.
    Entry,
    /// Unlocking: the first key is being written.
    FirstKey,
    /// Unlocking: the second key is being written.
    SecondKey,
    /// Unlocking: the lock bit is being read again.
    Verify,
    /// Clearing errors: the clear at this place of the queue is under way.
    Clearing(usize),
    /// The completion bit was found set and is being cleared.
    Acknowledge,
}

/// The state of an operation: its steps, how far it has come, and what it
/// has gathered. Every state has one request that is under way, and moves
/// on when the reply to it comes in.
pub struct Machine {
    /// The variant, which decides how errors are cleared.
    pub family: Family,
    /// The register set that the operation works on.
    pub registers: Bank,
    pub script: Seq<Step>,
    /// Index of the current step; at the length of the script, the
    /// operation has ended.
    pub pc: int,
    pub stage: Stage,
    /// The clears that the current step has yet to carry out.
    pub queue: Seq<FlagClear>,
    /// The result so far.
    pub outcome: Result<(), Error>,
    /// The bytes that were loaded.
    pub data: Seq<u8>,
}

impl Machine {
    /// The state in which an operation with the steps `script` begins.
    pub open spec fn begin(family: Family, registers: Bank, script: Seq<Step>) -> Machine {
        Machine {
            family,
            registers,
            script,
            pc: 0,
            stage: Stage::Entry,
            queue: Seq::empty(),
            outcome: Ok(()),
            data: Seq::empty(),
        }
    }

    pub open spec fn finished(self) -> bool {
        self.pc >= self.script.len()
    }

    /// The stage fits the current step.
    pub open spec fn wf(self) -> bool {
        &&& 0 <= self.pc
        &&& !self.finished() ==> match self.script[self.pc] {
            Step::Unlock => self.stage is Entry || self.stage is FirstKey
                || self.stage is SecondKey || self.stage is Verify,
            Step::ClearErrors => self.stage is Entry || (self.stage matches Stage::Clearing(i)
                && i < self.queue.len() <= usize::MAX),
            Step::ClearIfSet(_) => self.stage is Entry || self.stage is Acknowledge,
            _ => self.stage is Entry,
        }
    }

    /// The request that is under way.
    pub open spec fn request(self) -> Request {
        if self.finished() {
            Request::Finished(self.outcome)
        } else {
            match self.script[self.pc] {
                Step::Unlock => match self.stage {
                    Stage::FirstKey => Request::WriteKey(self.registers, FLASH_KEY1),
                    Stage::SecondKey => Request::WriteKey(self.registers, FLASH_KEY2),
                    _ => Request::ReadLock(self.registers),
                },
                Step::CheckBusy | Step::AwaitClear(_) | Step::AwaitSet(_) => Request::ReadStatus(
                    self.registers,
                ),
                Step::ClearErrors => match self.stage {
                    Stage::Clearing(i) => Request::ClearFlag(self.registers, self.queue[i as int]),
                    _ => Request::ReadStatus(self.registers),
                },
                Step::Control(op) => Request::Control(self.registers, op),
                Step::WriteAddress(value) => Request::WriteAddress(self.registers, value),
                Step::ClearFlag(clear) => Request::ClearFlag(self.registers, clear),
                Step::ClearIfSet(clear) => match self.stage {
                    Stage::Acknowledge => Request::ClearFlag(self.registers, clear),
                    _ => Request::ReadStatus(self.registers),
                },
                Step::Store { address, word } => Request::Store { address, word },
                Step::Load { address } => Request::Load { address },
            }
        }
    }

    /// The current step is done: on to the next.
    pub open spec fn proceed(self) -> Machine {
        Machine { pc: self.pc + 1, stage: Stage::Entry, ..self }
    }

    /// The current step goes on at another stage.
    pub open spec fn at(self, stage: Stage) -> Machine {
        Machine { stage, ..self }
    }

    /// The operation ends here, with the error `error`.
    pub open spec fn fail(self, error: Error) -> Machine {
        Machine { pc: self.script.len() as int, stage: Stage::Entry, outcome: Err(error), ..self }
    }

    /// The operation is given up: nothing is left of it but to lock, and
    /// its result is the error `error`.
    pub open spec fn abort(self, error: Error) -> Machine {
        Machine { script: lock_steps(), pc: 0, stage: Stage::Entry, outcome: Err(error), ..self }
    }

    /// The state after `reply` has come in. A reply of a kind that the
    /// request under way does not call for changes nothing.
    pub open spec fn next(self, reply: Reply) -> Machine {
        if self.finished() {
            self
        } else {
            match self.script[self.pc] {
                Step::Unlock => match (self.stage, reply) {
                    (Stage::FirstKey, Reply::Done) => self.at(Stage::SecondKey),
                    (Stage::SecondKey, Reply::Done) => self.at(Stage::Verify),
                    (Stage::Verify, Reply::Lock(locked)) => if locked {
                        self.fail(Error::Failure)
                    } else {
                        self.proceed()
                    },
                    (Stage::Entry, Reply::Lock(locked)) => if locked {
                        self.at(Stage::FirstKey)
                    } else {
                        self.proceed()
                    },
                    _ => self,
                },
                Step::CheckBusy => match reply {
                    Reply::Status(status) => if status.has(StatusFlag::Bsy) {
                        self.abort(Error::Busy)
                    } else {
                        self.proceed()
                    },
                    _ => self,
                },
                Step::ClearErrors => match (self.stage, reply) {
                    (Stage::Clearing(i), Reply::Done) => if i + 1 < self.queue.len() {
                        self.at(Stage::Clearing((i + 1) as usize))
                    } else {
                        self.proceed()
                    },
                    (Stage::Entry, Reply::Status(status)) => {
                        let queue = error_clears(self.family, status);
                        if queue.len() == 0 {
                            self.proceed()
                        } else {
                            Machine { queue, stage: Stage::Clearing(0), ..self }
                        }
                    },
                    _ => self,
                },
                Step::Control(_) | Step::WriteAddress(_) | Step::ClearFlag(_) | Step::Store {
                    ..
                } => match reply {
                    Reply::Done => self.proceed(),
                    _ => self,
                },
                Step::AwaitClear(flag) => match reply {
                    Reply::Status(status) => if status.has(flag) {
                        self
                    } else {
                        self.proceed()
                    },
                    _ => self,
                },
                Step::AwaitSet(flag) => match reply {
                    Reply::Status(status) => if status.has(flag) {
                        self.proceed()
                    } else {
                        self
                    },
                    _ => self,
                },
                Step::ClearIfSet(clear) => match (self.stage, reply) {
                    (Stage::Acknowledge, Reply::Done) => self.proceed(),
                    (Stage::Entry, Reply::Status(status)) => if status.has(clear.flag) {
                        self.at(Stage::Acknowledge)
                    } else {
                        self.proceed()
                    },
                    _ => self,
                },
                Step::Load { .. } => match reply {
                    Reply::Word(word) => Machine {
                        data: self.data + word_bytes(word),
                        ..self.proceed()
                    },
                    _ => self,
                },
            }
        }
    }
}

} // verus!
