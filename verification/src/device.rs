use crate::access::{ClearIdiom, ControlBit, ControlOp, FlagClear, Reply, Request, FLASH_KEY1, FLASH_KEY2};
use crate::bank::{Bank, DualBank};
use crate::profile::{Family, Layout, Profile};
use crate::script::{le_word, word_bytes};
use crate::status::{Status, StatusFlag};
use vstd::prelude::*;

verus! {

/// How far the key sequence of a register set has come.
pub enum KeyState {
    /// No key was written since the lock was engaged.
    Idle,
    /// The first key was written.
    Half,
    /// A wrong value or order was written: the lock stays until reset.
    Jammed,
}

/// The registers of one register set, as the reference model keeps them.
pub struct Registers {
    /// The lock bit of the control register.
    pub locked: bool,
    pub keys: KeyState,
    /// The bits of the control register that are set, the lock bit aside.
    pub control: Set<ControlBit>,
    /// The unit-number field of the control register.
    pub number: u8,
    /// The bank-select bit of the control register.
    pub bank_select: bool,
    /// The address register.
    pub address: u32,
    /// The error and completion bits of the status register that are set.
    pub status: Set<StatusFlag>,
    /// How many more reads of the status register show the controller
    /// busy, and its queue occupied.
    pub busy: nat,
}

/// A reference model of the controller and of the memory behind it: what
/// the sequencer takes the hardware to do. The laws of this crate are
/// stated of sequencer and model together.
pub struct Device {
    pub profile: Profile,
    pub mode: DualBank,
    /// The register set of the first bank, and the only one where the
    /// banks share their registers.
    pub first: Registers,
    /// The register set of the second bank.
    pub second: Registers,
    /// The byte at each address.
    pub memory: spec_fn(int) -> u8,
    /// How many reads of the status register an operation stays busy for.
    pub latency: nat,
    /// Whether the controller raises the completion bit when an operation
    /// ends.
    pub reports_completion: bool,
}

/// The value of an erased byte.
pub open spec fn erased() -> u8 {
    0xFF
}

impl Registers {
    /// What a read of the status register shows.
    pub open spec fn snapshot(self) -> Status {
        Status {
            bsy: self.busy > 0,
            eop: self.status.contains(StatusFlag::Eop),
            qw: self.busy > 0,
            wrprterr: self.status.contains(StatusFlag::Wrprterr),
            pgerr: self.status.contains(StatusFlag::Pgerr),
            pgserr: self.status.contains(StatusFlag::Pgserr),
            pgperr: self.status.contains(StatusFlag::Pgperr),
            pgaerr: self.status.contains(StatusFlag::Pgaerr),
            wrperr: self.status.contains(StatusFlag::Wrperr),
            operr: self.status.contains(StatusFlag::Operr),
            optverr: self.status.contains(StatusFlag::Optverr),
            rderr: self.status.contains(StatusFlag::Rderr),
            fasterr: self.status.contains(StatusFlag::Fasterr),
            miserr: self.status.contains(StatusFlag::Miserr),
            sizerr: self.status.contains(StatusFlag::Sizerr),
            progerr: self.status.contains(StatusFlag::Progerr),
            dbeccerr: self.status.contains(StatusFlag::Dbeccerr),
            sneccerr: self.status.contains(StatusFlag::Sneccerr),
            rdserr: self.status.contains(StatusFlag::Rdserr),
            rdperr: self.status.contains(StatusFlag::Rdperr),
            incerr: self.status.contains(StatusFlag::Incerr),
            strberr: self.status.contains(StatusFlag::Strberr),
        }
    }

    /// A read of the status register lets time pass.
    pub open spec fn tick(self) -> Registers {
        Registers {
            busy: if self.busy > 0 {
                (self.busy - 1) as nat
            } else {
                0
            },
            ..self
        }
    }

    /// A write to the key register. The two keys, in order, clear the lock
    /// bit; anything else leaves the register locked for good.
    pub open spec fn key(self, value: u32) -> Registers {
        if !self.locked {
            self
        } else {
            match self.keys {
                KeyState::Idle => if value == FLASH_KEY1 {
                    Registers { keys: KeyState::Half, ..self }
                } else {
                    Registers { keys: KeyState::Jammed, ..self }
                },
                KeyState::Half => if value == FLASH_KEY2 {
                    Registers { locked: false, keys: KeyState::Idle, ..self }
                } else {
                    Registers { keys: KeyState::Jammed, ..self }
                },
                KeyState::Jammed => self,
            }
        }
    }

    /// The clearing of a status bit. Writing the register back with the
    /// bit set clears every bit that was set.
    pub open spec fn clear(self, clear: FlagClear) -> Registers {
        match clear.idiom {
            ClearIdiom::ModifyStatus => Registers { status: Set::empty(), ..self },
            _ => Registers { status: self.status.remove(clear.flag), ..self },
        }
    }

    /// An operation has started: the controller is busy for a while, and
    /// raises the completion bit if it reports completion.
    pub open spec fn started(self, latency: nat, reports_completion: bool) -> Registers {
        Registers {
            busy: latency,
            status: if reports_completion {
                self.status.insert(StatusFlag::Eop)
            } else {
                self.status
            },
            ..self
        }
    }

    /// Whether a store to flash memory programs it.
    pub open spec fn programming(self) -> bool {
        !self.locked && self.control.contains(ControlBit::Program)
    }

    /// No operation is selected, none is executing, and the key sequence
    /// has not been spoilt.
    pub open spec fn quiet(self) -> bool {
        &&& self.busy == 0
        &&& self.keys is Idle
        &&& !self.control.contains(ControlBit::Program)
        &&& !self.control.contains(ControlBit::PageErase)
        &&& !self.control.contains(ControlBit::SectorErase)
        &&& !self.control.contains(ControlBit::MassErase)
        &&& !self.control.contains(ControlBit::MassErase1)
        &&& !self.control.contains(ControlBit::MassErase2)
        &&& !self.control.contains(ControlBit::BankErase)
    }
}

impl Device {
    pub open spec fn set(self, bank: Bank) -> Registers {
        match bank {
            Bank::B1 => self.first,
            Bank::B2 => self.second,
        }
    }

    pub open spec fn with_set(self, bank: Bank, registers: Registers) -> Device {
        match bank {
            Bank::B1 => Device { first: registers, ..self },
            Bank::B2 => Device { second: registers, ..self },
        }
    }

    /// Whether `address` lies in the erase unit `index` of `bank`.
    pub open spec fn in_unit(self, bank: Bank, index: int, address: int) -> bool {
        let size = self.profile.unit_bytes(self.mode);
        let start = self.profile.bank_start(self.mode, bank) + index * size;
        start <= address < start + size
    }

    /// Whether `address` lies in `bank`.
    pub open spec fn in_bank(self, bank: Bank, address: int) -> bool {
        let start = self.profile.bank_start(self.mode, bank);
        start <= address < start + self.profile.units * self.profile.unit_bytes(self.mode)
    }

    /// Whether the control register of the register set `set` asks for
    /// the mass erase of `bank`.
    pub open spec fn mass_selected(self, set: Bank, bank: Bank) -> bool {
        let control = self.set(set).control;
        match self.profile.family.layout() {
            Layout::Sectored => control.contains(ControlBit::BankErase) && (set == bank
                || !self.profile.family.banked_registers()),
            Layout::Switchable => match self.mode {
                DualBank::Single => control.contains(ControlBit::MassErase1) && control.contains(
                    ControlBit::MassErase2,
                ),
                DualBank::Dual => match bank {
                    Bank::B1 => control.contains(ControlBit::MassErase1),
                    Bank::B2 => control.contains(ControlBit::MassErase2),
                },
            },
            Layout::Linear => control.contains(ControlBit::MassErase) || control.contains(
                ControlBit::MassErase1,
            ),
        }
    }

    /// The bank that a unit erase through the register set `set` works
    /// on.
    pub open spec fn selected_bank(self, set: Bank) -> Bank {
        if self.profile.family.banked_registers() {
            set
        } else if self.profile.family.banked(self.mode) && self.set(set).bank_select {
            Bank::B2
        } else {
            Bank::B1
        }
    }

    /// The number of the unit that a unit erase through the register set
    /// `set` works on.
    pub open spec fn selected_unit(self, set: Bank) -> int {
        if self.profile.family == Family::F3 {
            self.set(set).address as int
        } else {
            self.set(set).number as int
        }
    }

    /// Whether the operation that the register set `set` selects erases
    /// the byte at `address`. A unit erase goes before a mass erase.
    pub open spec fn erases(self, set: Bank, address: int) -> bool {
        let control = self.set(set).control;
        if control.contains(ControlBit::PageErase) || control.contains(ControlBit::SectorErase) {
            self.in_unit(self.selected_bank(set), self.selected_unit(set), address)
        } else {
            ||| self.mass_selected(set, Bank::B1) && self.in_bank(Bank::B1, address)
            ||| self.mass_selected(set, Bank::B2) && self.in_bank(Bank::B2, address)
        }
    }

    /// The start bit was set in the register set `set`.
    pub open spec fn start(self, set: Bank) -> Device {
        Device {
            memory: |address: int|
                if self.erases(set, address) {
                    erased()
                } else {
                    (self.memory)(address)
                },
            ..self.with_set(set, self.set(set).started(self.latency, self.reports_completion))
        }
    }

    /// An update of the control register of the register set `set`. A
    /// locked register takes no update.
    pub open spec fn control(self, set: Bank, op: ControlOp) -> Device {
        let registers = self.set(set);
        if registers.locked {
            self
        } else {
            match op {
                ControlOp::SetBit(ControlBit::Lock) => self.with_set(
                    set,
                    Registers { locked: true, keys: KeyState::Idle, ..registers },
                ),
                ControlOp::SetBit(ControlBit::Start) => self.start(set),
                ControlOp::SetBit(bit) => self.with_set(
                    set,
                    Registers { control: registers.control.insert(bit), ..registers },
                ),
                ControlOp::ClearBit(ControlBit::Lock) => self,
                ControlOp::ClearBit(bit) => self.with_set(
                    set,
                    Registers { control: registers.control.remove(bit), ..registers },
                ),
                ControlOp::Select { enable, number, bank } => self.with_set(
                    set,
                    Registers {
                        control: registers.control.insert(enable),
                        number,
                        bank_select: match bank {
                            Some(bank) => bank == Bank::B2,
                            None => registers.bank_select,
                        },
                        ..registers
                    },
                ),
            }
        }
    }

    /// The four bytes from `address` on.
    pub open spec fn bytes_at(self, address: int) -> Seq<u8> {
        Seq::new(4, |i: int| (self.memory)(address + i))
    }

    /// Whether the four bytes from `address` on are erased.
    pub open spec fn blank_at(self, address: int) -> bool {
        forall|i: int| 0 <= i < 4 ==> #[trigger] (self.memory)(address + i) == erased()
    }

    /// A store of a word to flash memory. It programs the word where
    /// programming is enabled and the four bytes are erased, and changes
    /// nothing elsewhere.
    pub open spec fn store(self, address: int, word: u32) -> Device {
        if (self.first.programming() || self.second.programming()) && self.blank_at(address) {
            Device {
                first: if self.first.programming() {
                    self.first.started(self.latency, self.reports_completion)
                } else {
                    self.first
                },
                second: if self.second.programming() {
                    self.second.started(self.latency, self.reports_completion)
                } else {
                    self.second
                },
                memory: |a: int|
                    if address <= a < address + 4 {
                        word_bytes(word)[a - address]
                    } else {
                        (self.memory)(a)
                    },
                ..self
            }
        } else {
            self
        }
    }

    /// What the hardware does on a request, and what it answers.
    pub open spec fn respond(self, request: Request) -> (Device, Reply) {
        match request {
            Request::ReadLock(set) => (self, Reply::Lock(self.set(set).locked)),
            Request::ReadStatus(set) => (
                self.with_set(set, self.set(set).tick()),
                Reply::Status(self.set(set).snapshot()),
            ),
            Request::WriteKey(set, value) => (
                self.with_set(set, self.set(set).key(value)),
                Reply::Done,
            ),
            Request::Control(set, op) => (self.control(set, op), Reply::Done),
            Request::WriteAddress(set, value) => (
                if self.set(set).locked {
                    self
                } else {
                    self.with_set(set, Registers { address: value, ..self.set(set) })
                },
                Reply::Done,
            ),
            Request::ClearFlag(set, clear) => (
                self.with_set(set, self.set(set).clear(clear)),
                Reply::Done,
            ),
            Request::Store { address, word } => (self.store(address as int, word), Reply::Done),
            Request::Load { address } => (
                self,
                Reply::Word(le_word(self.bytes_at(address as int), 0)),
            ),
            Request::Finished(_) => (self, Reply::Done),
        }
    }
}

/// A snapshot shows the busy and queue bits while the controller is busy,
/// and the other bits as they are set.
pub proof fn lemma_snapshot(registers: Registers, flag: StatusFlag)
    ensures
        registers.snapshot().has(flag) == if flag == StatusFlag::Bsy || flag == StatusFlag::Qw {
            registers.busy > 0
        } else {
            registers.status.contains(flag)
        },
{
}

} // verus!
