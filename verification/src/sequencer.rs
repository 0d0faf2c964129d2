use crate::access::{FlagClear, Reply, Request, FLASH_KEY1, FLASH_KEY2};
use crate::bank::Bank;
use crate::clear::clear_error_flags;
use crate::error::Error;
use crate::machine::{Machine, Stage};
use crate::profile::Family;
use crate::script::{lock_script, push_word, Step};
use crate::status::StatusFlag;
use vstd::prelude::*;

verus! {

/// Carries an operation out, one register access at a time, without
/// touching the hardware: it says which access to make, takes in what came
/// of it, and decides what follows.
pub struct Sequencer {
    progress: Progress,
    data: Vec<u8>,
}

/// Where an operation stands. At every moment the stage fits the current
/// step.
struct Progress {
    family: Family,
    registers: Bank,
    script: Vec<Step>,
    pc: usize,
    stage: Stage,
    queue: Vec<FlagClear>,
    outcome: Result<(), Error>,
}

impl Progress {
    spec fn machine(&self, data: Seq<u8>) -> Machine {
        Machine {
            family: self.family,
            registers: self.registers,
            script: self.script@,
            pc: self.pc as int,
            stage: self.stage,
            queue: self.queue@,
            outcome: self.outcome,
            data,
        }
    }

    #[verifier::type_invariant]
    spec fn valid(&self) -> bool {
        self.machine(Seq::empty()).wf()
    }
}

/// The 64-bit value that eight bytes hold, lowest byte first.
pub open spec fn le_cell(bytes: Seq<u8>) -> u64 {
    (bytes[0] + 0x100 * bytes[1] + 0x1_0000 * bytes[2] + 0x100_0000 * bytes[3] + 0x1_0000_0000
        * bytes[4] + 0x100_0000_0000 * bytes[5] + 0x1_0000_0000_0000 * bytes[6]
        + 0x100_0000_0000_0000 * bytes[7]) as u64
}

impl View for Sequencer {
    type V = Machine;

    closed spec fn view(&self) -> Machine {
        self.progress.machine(self.data@)
    }
}

impl Sequencer {
    /// A sequencer with no operation in progress.
    pub fn new(family: Family) -> (sequencer: Sequencer)
        ensures
            sequencer@ == Machine::begin(family, Bank::B1, Seq::empty()),
            sequencer@.wf(),
    {
        Sequencer {
            progress: Progress {
                family,
                registers: Bank::B1,
                script: Vec::new(),
                pc: 0,
                stage: Stage::Entry,
                queue: Vec::new(),
                outcome: Ok(()),
            },
            data: Vec::new(),
        }
    }

    /// Begins the operation with the steps `script` on the register set
    /// `registers` of a controller of the variant `family`, in place of
    /// whatever was in progress, and returns its first access.
    pub fn begin(&mut self, family: Family, registers: Bank, script: Vec<Step>) -> (request: Request)
        ensures
            final(self)@ == Machine::begin(family, registers, script@),
            final(self)@.wf(),
            request == final(self)@.request(),
    {
        self.progress.stage = Stage::Entry;
        self.progress.family = family;
        self.progress.registers = registers;
        self.progress.script = script;
        self.progress.pc = 0;
        self.progress.queue = Vec::new();
        self.progress.outcome = Ok(());
        self.data = Vec::new();
        self.request()
    }

    /// The access that the caller is to make now, or `Request::Finished`
    /// with the result where no operation is in progress.
    pub fn request(&self) -> (request: Request)
        ensures
            request == self@.request(),
    {
        proof {
            use_type_invariant(&self.progress);
        }
        if self.progress.pc >= self.progress.script.len() {
            return Request::Finished(self.progress.outcome);
        }
        match self.progress.script[self.progress.pc] {
            Step::Unlock => match self.progress.stage {
                Stage::FirstKey => Request::WriteKey(self.progress.registers, FLASH_KEY1),
                Stage::SecondKey => Request::WriteKey(self.progress.registers, FLASH_KEY2),
                _ => Request::ReadLock(self.progress.registers),
            },
            Step::CheckBusy | Step::AwaitClear(_) | Step::AwaitSet(_) => Request::ReadStatus(
                self.progress.registers,
            ),
            Step::ClearErrors => match self.progress.stage {
                Stage::Clearing(i) => Request::ClearFlag(self.progress.registers, self.progress.queue[i]),
                _ => Request::ReadStatus(self.progress.registers),
            },
            Step::Control(op) => Request::Control(self.progress.registers, op),
            Step::WriteAddress(value) => Request::WriteAddress(self.progress.registers, value),
            Step::ClearFlag(clear) => Request::ClearFlag(self.progress.registers, clear),
            Step::ClearIfSet(clear) => match self.progress.stage {
                Stage::Acknowledge => Request::ClearFlag(self.progress.registers, clear),
                _ => Request::ReadStatus(self.progress.registers),
            },
            Step::Store { address, word } => Request::Store { address, word },
            Step::Load { address } => Request::Load { address },
        }
    }

    fn proceed(&mut self)
        requires
            old(self).progress.pc < old(self).progress.script.len(),
        ensures
            final(self)@ == old(self)@.proceed(),
    {
        self.progress.stage = Stage::Entry;
        self.progress.pc = self.progress.pc + 1;
    }

    fn fail(&mut self, error: Error)
        ensures
            final(self)@ == old(self)@.fail(error),
    {
        self.progress.stage = Stage::Entry;
        self.progress.pc = self.progress.script.len();
        self.progress.outcome = Err(error);
    }

    fn abort(&mut self, error: Error)
        ensures
            final(self)@ == old(self)@.abort(error),
    {
        self.progress.stage = Stage::Entry;
        self.progress.script = lock_script();
        self.progress.pc = 0;
        self.progress.outcome = Err(error);
    }

    /// Takes in what came of the access that was under way and returns the
    /// access to make next. This is where the operation decides: whether
    /// the keys are needed and whether they took effect, whether the
    /// controller is busy, which errors are to be cleared, and whether a
    /// wait is over. A reply of a kind that the access does not call for
    /// is ignored, and the same access is asked for again. Once the
    /// operation has ended, the request stays `Request::Finished`.
    pub fn advance(&mut self, reply: Reply) -> (request: Request)
        ensures
            final(self)@ == old(self)@.next(reply),
            final(self)@.wf(),
            request == final(self)@.request(),
    {
        proof {
            use_type_invariant(&self.progress);
        }
        if self.progress.pc < self.progress.script.len() {
            match self.progress.script[self.progress.pc] {
                Step::Unlock => match (self.progress.stage, reply) {
                    (Stage::FirstKey, Reply::Done) => {
                        self.progress.stage = Stage::SecondKey;
                    },
                    (Stage::SecondKey, Reply::Done) => {
                        self.progress.stage = Stage::Verify;
                    },
                    (Stage::Verify, Reply::Lock(locked)) => {
                        if locked {
                            self.fail(Error::Failure);
                        } else {
                            self.proceed();
                        }
                    },
                    (Stage::Entry, Reply::Lock(locked)) => {
                        if locked {
                            self.progress.stage = Stage::FirstKey;
                        } else {
                            self.proceed();
                        }
                    },
                    _ => {},
                },
                Step::CheckBusy => match reply {
                    Reply::Status(status) => {
                        if status.is_set(StatusFlag::Bsy) {
                            self.abort(Error::Busy);
                        } else {
                            self.proceed();
                        }
                    },
                    _ => {},
                },
                Step::ClearErrors => match (self.progress.stage, reply) {
                    (Stage::Clearing(i), Reply::Done) => {
                        assert(i < self.progress.queue.len());
                        if i + 1 < self.progress.queue.len() {
                            self.progress.stage = Stage::Clearing(i + 1);
                        } else {
                            self.proceed();
                        }
                    },
                    (Stage::Entry, Reply::Status(status)) => {
                        let queue: Vec<FlagClear> = clear_error_flags(self.progress.family, &status);
                        if queue.len() == 0 {
                            self.proceed();
                        } else {
                            self.progress.queue = queue;
                            self.progress.stage = Stage::Clearing(0);
                        }
                    },
                    _ => {},
                },
                Step::Control(_) | Step::WriteAddress(_) | Step::ClearFlag(_) | Step::Store {
                    ..
                } => match reply {
                    Reply::Done => {
                        self.proceed();
                    },
                    _ => {},
                },
                Step::AwaitClear(flag) => match reply {
                    Reply::Status(status) => {
                        if !status.is_set(flag) {
                            self.proceed();
                        }
                    },
                    _ => {},
                },
                Step::AwaitSet(flag) => match reply {
                    Reply::Status(status) => {
                        if status.is_set(flag) {
                            self.proceed();
                        }
                    },
                    _ => {},
                },
                Step::ClearIfSet(clear) => match (self.progress.stage, reply) {
                    (Stage::Acknowledge, Reply::Done) => {
                        self.proceed();
                    },
                    (Stage::Entry, Reply::Status(status)) => {
                        if status.is_set(clear.flag) {
                            self.progress.stage = Stage::Acknowledge;
                        } else {
                            self.proceed();
                        }
                    },
                    _ => {},
                },
                Step::Load { .. } => match reply {
                    Reply::Word(word) => {
                        push_word(&mut self.data, word);
                        self.proceed();
                    },
                    _ => {},
                },
            }
        }
        self.request()
    }

    /// The bytes that the operation has loaded so far, in the order of the
    /// loads.
    pub fn data(&self) -> (data: &Vec<u8>)
        ensures
            data@ == self@.data,
    {
        &self.data
    }

    /// The 64-bit value of the eight bytes that a `read` has loaded, lowest
    /// byte first; `None` unless exactly eight bytes were loaded.
    pub fn cell(&self) -> (cell: Option<u64>)
        ensures
            cell == if self@.data.len() == 8 {
                Some(le_cell(self@.data))
            } else {
                None
            },
    {
        if self.data.len() != 8 {
            return None;
        }
        let mut value: u64 = 0;
        let mut i: usize = 8;
        while i > 0
            invariant
                i <= 8,
                self.data@.len() == 8,
                value == le_cell(self.data@.subrange(i as int, 8) + Seq::new(i as nat, |j: int| 0u8)),
            decreases i,
        {
            i = i - 1;
            value = value * 0x100 + self.data[i] as u64;
        }
        Some(value)
    }
}

} // verus!
