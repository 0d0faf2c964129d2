use crate::bank::Bank;
use crate::error::Error;
use crate::status::{Status, StatusFlag};
use vstd::prelude::*;

verus! {

/// First value of the unlock key sequence.
pub const FLASH_KEY1: u32 = 0x4567_0123;

/// Second value of the unlock key sequence.
pub const FLASH_KEY2: u32 = 0xCDEF_89AB;

/// The named bits of a control register, over all variants.
#[derive(Clone, Copy, PartialEq, Eq, Debug, Structural)]
pub enum ControlBit {
    /// Write protection of the control register.
    Lock,
    /// Starts the operation that the other bits select.
    Start,
    /// Programming is enabled.
    Program,
    /// Erase of the selected page.
    PageErase,
    /// Erase of the selected sector.
    SectorErase,
    /// Erase of the whole memory of a single-bank variant.
    MassErase,
    /// Erase of the first bank.
    MassErase1,
    /// Erase of the second bank.
    MassErase2,
    /// Erase of the bank that the register set belongs to.
    BankErase,
}

/// One update of a control register.
#[derive(Clone, Copy, PartialEq, Eq, Debug)]
pub enum ControlOp {
    /// Sets one bit and keeps the others.
    SetBit(ControlBit),
    /// Clears one bit and keeps the others.
    ClearBit(ControlBit),
    /// Sets the erase-enable bit `enable` and writes `number` to the
    /// unit-number field, and where `bank` is given the bank-select bit, in
    /// one update.
    Select { enable: ControlBit, number: u8, bank: Option<Bank> },
}

/// How a variant clears a bit of its status register.
#[derive(Clone, Copy, PartialEq, Eq, Debug, Structural)]
pub enum ClearIdiom {
    /// Read the status register, set the bit, write the value back.
    ModifyStatus,
    /// Write a value to the status register in which only the bit is set.
    WriteStatus,
    /// Write the bit's counterpart to the clear-control register.
    WriteClearRegister,
}

/// The clearing of one status bit.
#[derive(Clone, Copy, PartialEq, Eq, Debug, Structural)]
pub struct FlagClear {
    pub flag: StatusFlag,
    pub idiom: ClearIdiom,
}

/// What the sequencer asks its caller to do next on the hardware. Each
/// access to a register names the register set it goes to.
#[derive(Clone, Copy, PartialEq, Eq, Debug)]
pub enum Request {
    /// Read the control register and report its lock bit.
    ReadLock(Bank),
    /// Read the status register and report it.
    ReadStatus(Bank),
    /// Write the value to the key register.
    WriteKey(Bank, u32),
    /// Update the control register.
    Control(Bank, ControlOp),
    /// Write the value to the address register.
    WriteAddress(Bank, u32),
    /// Clear a bit of the status register.
    ClearFlag(Bank, FlagClear),
    /// Store a 32-bit word to flash memory.
    Store { address: usize, word: u32 },
    /// Load a 32-bit word from flash memory and report it.
    Load { address: usize },
    /// Nothing: the operation has ended with this result.
    Finished(Result<(), Error>),
}

/// What the hardware answered to a request.
#[derive(Clone, Copy, PartialEq, Eq, Debug)]
pub enum Reply {
    /// A write or an update was carried out.
    Done,
    /// The lock bit that was read: `true` where the register is locked.
    Lock(bool),
    /// The status register that was read.
    Status(Status),
    /// The word that was loaded.
    Word(u32),
}

} // verus!
