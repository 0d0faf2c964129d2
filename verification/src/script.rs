use crate::access::{ClearIdiom, ControlBit, ControlOp, FlagClear};
use crate::address::{scaled_offset, wrapped, wrapping_offset};
use crate::bank::{Bank, DualBank};
use crate::profile::{Family, Layout};
use crate::status::StatusFlag;
use vstd::prelude::*;

verus! {

/// One step of an operation. An operation is a list of steps, carried out
/// in order; a step may take several register accesses.
#[derive(Clone, Copy, PartialEq, Eq, Debug)]
pub enum Step {
    /// Unless the lock bit is clear already: write the two keys, and fail
    /// if the lock bit is still set.
    Unlock,
    /// Read the status register; if the controller is busy, give the
    /// operation up, lock, and report that it was busy.
    CheckBusy,
    /// Read the status register once and clear every error bit that is set.
    ClearErrors,
    /// Update the control register.
    Control(ControlOp),
    /// Write the address register.
    WriteAddress(u32),
    /// Clear a status bit.
    ClearFlag(FlagClear),
    /// Read the status register and clear the bit if it is set.
    ClearIfSet(FlagClear),
    /// Read the status register until the bit is clear.
    AwaitClear(StatusFlag),
    /// Read the status register until the bit is set.
    AwaitSet(StatusFlag),
    /// Store a word to flash memory.
    Store { address: usize, word: u32 },
    /// Load a word from flash memory and append its four bytes, lowest
    /// first, to the data of the operation.
    Load { address: usize },
}

/// The word that four bytes of `bytes` from `at` on hold, lowest byte first.
pub open spec fn le_word(bytes: Seq<u8>, at: int) -> u32 {
    (bytes[at] + 0x100 * bytes[at + 1] + 0x1_0000 * bytes[at + 2] + 0x100_0000 * bytes[at + 3]) as u32
}

/// The four bytes of a word, lowest first.
pub open spec fn word_bytes(word: u32) -> Seq<u8> {
    seq![
        (word % 0x100) as u8,
        (word / 0x100 % 0x100) as u8,
        (word / 0x1_0000 % 0x100) as u8,
        (word / 0x100_0000) as u8,
    ]
}

/// The eight-bit unit-number field holds the low eight bits of an index.
pub open spec fn unit_number(index: usize) -> u8 {
    (index % 0x100) as u8
}

/// What comes before the work of every operation that changes flash
/// memory.
pub open spec fn guard_steps() -> Seq<Step> {
    seq![Step::Unlock, Step::CheckBusy, Step::ClearErrors]
}

/// Locking: wait until the controller is idle, and set the lock bit.
pub open spec fn lock_steps() -> Seq<Step> {
    seq![Step::AwaitClear(StatusFlag::Bsy), Step::Control(ControlOp::SetBit(ControlBit::Lock))]
}

/// The erase-enable bit of a variant's unit erase.
pub open spec fn erase_enable(family: Family) -> ControlBit {
    match family {
        Family::F4 | Family::H7 | Family::H747 => ControlBit::SectorErase,
        _ => ControlBit::PageErase,
    }
}

/// Selects the unit to erase, together with the erase-enable bit.
pub open spec fn select_steps(family: Family, mode: DualBank, index: usize, bank: Bank) -> Seq<
    Step,
> {
    match family {
        Family::F3 => seq![
            Step::Control(ControlOp::SetBit(ControlBit::PageErase)),
            Step::WriteAddress((index as int % 0x1_0000_0000) as u32),
        ],
        Family::G4DualBank => seq![
            Step::Control(
                ControlOp::Select {
                    enable: ControlBit::PageErase,
                    number: unit_number(index),
                    bank: if mode == DualBank::Dual {
                        Some(bank)
                    } else {
                        None
                    },
                },
            ),
        ],
        _ => seq![
            Step::Control(
                ControlOp::Select { enable: erase_enable(family), number: unit_number(index), bank: None },
            ),
        ],
    }
}

/// Starts the selected erase and waits until the controller is idle.
pub open spec fn start_steps() -> Seq<Step> {
    seq![
        Step::Control(ControlOp::SetBit(ControlBit::Start)),
        Step::AwaitClear(StatusFlag::Bsy),
    ]
}

/// What a variant asks for after an erase, beyond the busy bit: to wait for
/// the completion bit and clear it, or to wait until the queue is empty.
pub open spec fn completion_steps(family: Family) -> Seq<Step> {
    match family {
        Family::F3 | Family::F4 => seq![
            Step::AwaitSet(StatusFlag::Eop),
            Step::ClearFlag(FlagClear { flag: StatusFlag::Eop, idiom: ClearIdiom::ModifyStatus }),
        ],
        Family::H7 | Family::H747 => seq![Step::AwaitClear(StatusFlag::Qw)],
        _ => seq![],
    }
}

/// The whole erase of the unit `index` of `bank`.
pub open spec fn erase_unit_steps(family: Family, mode: DualBank, index: usize, bank: Bank) -> Seq<
    Step,
> {
    guard_steps() + select_steps(family, mode, index, bank) + start_steps() + completion_steps(
        family,
    ) + seq![Step::Control(ControlOp::ClearBit(erase_enable(family)))] + lock_steps()
}

/// The mass-erase bits that stand for `bank`. A variant with one bank has
/// one such bit. A switchable variant in single-bank mode asks for both
/// of its banks.
pub open spec fn mass_bits(family: Family, mode: DualBank, bank: Bank) -> Seq<ControlBit> {
    match family {
        Family::F3 | Family::F4 | Family::G0 => seq![ControlBit::MassErase],
        Family::H7 | Family::H747 => seq![ControlBit::BankErase],
        Family::G4DualBank => match mode {
            DualBank::Single => seq![ControlBit::MassErase1, ControlBit::MassErase2],
            DualBank::Dual => match bank {
                Bank::B1 => seq![ControlBit::MassErase1],
                Bank::B2 => seq![ControlBit::MassErase2],
            },
        },
        _ => seq![ControlBit::MassErase1],
    }
}

/// One update for each bit, setting it.
pub open spec fn set_steps(bits: Seq<ControlBit>) -> Seq<Step> {
    bits.map_values(|bit: ControlBit| Step::Control(ControlOp::SetBit(bit)))
}

/// One update for each bit, clearing it.
pub open spec fn clear_steps(bits: Seq<ControlBit>) -> Seq<Step> {
    bits.map_values(|bit: ControlBit| Step::Control(ControlOp::ClearBit(bit)))
}

/// The whole erase of `bank`.
pub open spec fn erase_bank_steps(family: Family, mode: DualBank, bank: Bank) -> Seq<Step> {
    guard_steps() + set_steps(mass_bits(family, mode, bank)) + start_steps() + completion_steps(
        family,
    ) + clear_steps(mass_bits(family, mode, bank)) + lock_steps()
}

/// The stores of the chunk of `data` that begins at `offset`: one store for
/// each of its words, at the same offset from `start`.
pub open spec fn chunk_stores(family: Family, start: usize, data: Seq<u8>, offset: int) -> Seq<
    Step,
> {
    Seq::new(
        (family.chunk_bytes() / 4) as nat,
        |j: int|
            Step::Store {
                address: wrapped(start + offset + 4 * j) as usize,
                word: le_word(data, offset + 4 * j),
            },
    )
}

/// What follows the stores of a chunk: the wait until the controller has
/// taken the chunk, and the clearing of the completion bit if it is set.
pub open spec fn chunk_wait(family: Family) -> Seq<Step> {
    if family.layout() == Layout::Sectored {
        seq![Step::AwaitClear(StatusFlag::Qw)]
    } else {
        seq![
            Step::AwaitClear(StatusFlag::Bsy),
            Step::ClearIfSet(FlagClear { flag: StatusFlag::Eop, idiom: ClearIdiom::ModifyStatus }),
        ]
    }
}

/// The programming of the first `count` chunks of `data`, one after the
/// other.
pub open spec fn chunk_steps(family: Family, start: usize, data: Seq<u8>, count: nat) -> Seq<Step>
    decreases count,
{
    if count == 0 {
        seq![]
    } else {
        chunk_steps(family, start, data, (count - 1) as nat) + chunk_stores(
            family,
            start,
            data,
            (count - 1) * family.chunk_bytes(),
        ) + chunk_wait(family)
    }
}

/// The whole programming of `data` from the address `start` on. Bytes
/// after the last whole chunk are not written.
pub open spec fn program_steps(family: Family, start: usize, data: Seq<u8>) -> Seq<Step> {
    guard_steps() + seq![Step::Control(ControlOp::SetBit(ControlBit::Program))] + chunk_steps(
        family,
        start,
        data,
        (data.len() / family.chunk_bytes() as nat) as nat,
    ) + seq![Step::Control(ControlOp::ClearBit(ControlBit::Program))] + lock_steps()
}

/// Loads of `count` consecutive words from the address `start` on.
pub open spec fn load_steps(start: usize, count: nat) -> Seq<Step> {
    Seq::new(count, |i: int| Step::Load { address: wrapped(start + 4 * i) as usize })
}

/// A word and its four bytes determine each other.
pub proof fn lemma_word_bytes(word: u32, bytes: Seq<u8>, at: int)
    requires
        0 <= at,
        at + 4 <= bytes.len(),
    ensures
        word_bytes(word).len() == 4,
        le_word(word_bytes(word), 0) == word,
        word_bytes(le_word(bytes, at)) == bytes.subrange(at, at + 4),
{
    assert(word % 0x100 + 0x100 * (word / 0x100 % 0x100) + 0x1_0000 * (word / 0x1_0000 % 0x100)
        + 0x100_0000 * (word / 0x100_0000) == word && word / 0x100_0000 < 0x100) by (bit_vector);
    let b0: u8 = bytes[at];
    let b1: u8 = bytes[at + 1];
    let b2: u8 = bytes[at + 2];
    let b3: u8 = bytes[at + 3];
    let sum: u32 = le_word(bytes, at);
    assert(sum == b0 + 0x100 * b1 + 0x1_0000 * b2 + 0x100_0000 * b3);
    assert(sum % 0x100 == b0 && sum / 0x100 % 0x100 == b1 && sum / 0x1_0000 % 0x100 == b2 && sum
        / 0x100_0000 == b3) by (bit_vector)
        requires
            sum == b0 + 0x100 * b1 + 0x1_0000 * b2 + 0x100_0000 * b3,
    ;
    assert(word_bytes(sum) =~= bytes.subrange(at, at + 4));
}

/// Reads the word that four bytes of `data` from `at` on hold, lowest byte
/// first.
pub fn word_at(data: &[u8], at: usize) -> (word: u32)
    requires
        at + 4 <= data@.len(),
    ensures
        word == le_word(data@, at as int),
{
    let b0: u32 = data[at] as u32;
    let b1: u32 = data[at + 1] as u32;
    let b2: u32 = data[at + 2] as u32;
    let b3: u32 = data[at + 3] as u32;
    b0 + 0x100 * b1 + 0x1_0000 * b2 + 0x100_0000 * b3
}

/// Appends the four bytes of `word`, lowest first, to `data`.
pub fn push_word(data: &mut Vec<u8>, word: u32)
    ensures
        final(data)@ == old(data)@ + word_bytes(word),
{
    data.push((word % 0x100) as u8);
    data.push((word / 0x100 % 0x100) as u8);
    data.push((word / 0x1_0000 % 0x100) as u8);
    data.push((word / 0x100_0000) as u8);
}

/// The steps that come before the work of an operation that changes
/// flash memory: unlocking, the busy check, the clearing of stale errors.
pub fn guard_script() -> (script: Vec<Step>)
    ensures
        script@ == guard_steps(),
{
    vec![Step::Unlock, Step::CheckBusy, Step::ClearErrors]
}

/// The steps of locking: the wait until the controller is idle, and the
/// setting of the lock bit.
pub fn lock_script() -> (script: Vec<Step>)
    ensures
        script@ == lock_steps(),
{
    vec![Step::AwaitClear(StatusFlag::Bsy), Step::Control(ControlOp::SetBit(ControlBit::Lock))]
}

fn enable_bit(family: Family) -> (bit: ControlBit)
    ensures
        bit == erase_enable(family),
{
    match family {
        Family::F4 | Family::H7 | Family::H747 => ControlBit::SectorErase,
        _ => ControlBit::PageErase,
    }
}

fn select_script(family: Family, mode: DualBank, index: usize, bank: Bank) -> (script: Vec<Step>)
    ensures
        script@ == select_steps(family, mode, index, bank),
{
    let number: u8 = (index % 0x100) as u8;
    match family {
        Family::F3 => {
            let wide: u64 = index as u64;
            vec![
                Step::Control(ControlOp::SetBit(ControlBit::PageErase)),
                Step::WriteAddress((wide % 0x1_0000_0000) as u32),
            ]
        },
        Family::G4DualBank => {
            let select: Option<Bank> = match mode {
                DualBank::Dual => Some(bank),
                DualBank::Single => None,
            };
            vec![
                Step::Control(
                    ControlOp::Select { enable: ControlBit::PageErase, number, bank: select },
                ),
            ]
        },
        _ => vec![
            Step::Control(ControlOp::Select { enable: enable_bit(family), number, bank: None }),
        ],
    }
}

fn start_script() -> (script: Vec<Step>)
    ensures
        script@ == start_steps(),
{
    vec![Step::Control(ControlOp::SetBit(ControlBit::Start)), Step::AwaitClear(StatusFlag::Bsy)]
}

fn completion_script(family: Family) -> (script: Vec<Step>)
    ensures
        script@ == completion_steps(family),
{
    match family {
        Family::F3 | Family::F4 => vec![
            Step::AwaitSet(StatusFlag::Eop),
            Step::ClearFlag(FlagClear { flag: StatusFlag::Eop, idiom: ClearIdiom::ModifyStatus }),
        ],
        Family::H7 | Family::H747 => vec![Step::AwaitClear(StatusFlag::Qw)],
        _ => Vec::new(),
    }
}

/// Lists the steps of the erase of one page or sector: the guard, the
/// selection of the unit with the erase-enable bit, the start, the wait
/// until the controller is idle and what the variant asks for beyond
/// that, the clearing of the erase-enable bit, and locking.
pub fn erase_unit_script(family: Family, mode: DualBank, index: usize, bank: Bank) -> (script: Vec<
    Step,
>)
    ensures
        script@ == erase_unit_steps(family, mode, index, bank),
{
    let mut script: Vec<Step> = guard_script();
    let mut select: Vec<Step> = select_script(family, mode, index, bank);
    let mut start: Vec<Step> = start_script();
    let mut completion: Vec<Step> = completion_script(family);
    let mut lock: Vec<Step> = lock_script();
    script.append(&mut select);
    script.append(&mut start);
    script.append(&mut completion);
    script.push(Step::Control(ControlOp::ClearBit(enable_bit(family))));
    script.append(&mut lock);
    proof {
        assert(script@ == erase_unit_steps(family, mode, index, bank));
    }
    script
}

fn mass_erase_bits(family: Family, mode: DualBank, bank: Bank) -> (bits: Vec<ControlBit>)
    ensures
        bits@ == mass_bits(family, mode, bank),
{
    match family {
        Family::F3 | Family::F4 | Family::G0 => vec![ControlBit::MassErase],
        Family::H7 | Family::H747 => vec![ControlBit::BankErase],
        Family::G4DualBank => match mode {
            DualBank::Single => vec![ControlBit::MassErase1, ControlBit::MassErase2],
            DualBank::Dual => match bank {
                Bank::B1 => vec![ControlBit::MassErase1],
                Bank::B2 => vec![ControlBit::MassErase2],
            },
        },
        _ => vec![ControlBit::MassErase1],
    }
}

/// One update for each bit: setting it where `value` is true, clearing it
/// where not.
fn bit_script(bits: &Vec<ControlBit>, value: bool) -> (script: Vec<Step>)
    ensures
        script@ == if value {
            set_steps(bits@)
        } else {
            clear_steps(bits@)
        },
{
    let mut script: Vec<Step> = Vec::new();
    let mut i: usize = 0;
    while i < bits.len()
        invariant
            i <= bits.len(),
            script@ == if value {
                set_steps(bits@.take(i as int))
            } else {
                clear_steps(bits@.take(i as int))
            },
        decreases bits.len() - i,
    {
        let bit: ControlBit = bits[i];
        let op: ControlOp = if value {
            ControlOp::SetBit(bit)
        } else {
            ControlOp::ClearBit(bit)
        };
        script.push(Step::Control(op));
        i = i + 1;
    }
    proof {
        assert(bits@.take(i as int) == bits@);
    }
    script
}

/// Lists the steps of the erase of a bank: the guard, the setting of the
/// bank's mass-erase bits, the start, the wait until the controller is
/// idle and what the variant asks for beyond that, the clearing of the
/// bits that were set, and locking.
pub fn erase_bank_script(family: Family, mode: DualBank, bank: Bank) -> (script: Vec<Step>)
    ensures
        script@ == erase_bank_steps(family, mode, bank),
{
    let bits: Vec<ControlBit> = mass_erase_bits(family, mode, bank);
    let mut script: Vec<Step> = guard_script();
    let mut set: Vec<Step> = bit_script(&bits, true);
    let mut start: Vec<Step> = start_script();
    let mut completion: Vec<Step> = completion_script(family);
    let mut clear: Vec<Step> = bit_script(&bits, false);
    let mut lock: Vec<Step> = lock_script();
    script.append(&mut set);
    script.append(&mut start);
    script.append(&mut completion);
    script.append(&mut clear);
    script.append(&mut lock);
    script
}

fn chunk_wait_script(family: Family) -> (script: Vec<Step>)
    ensures
        script@ == chunk_wait(family),
{
    match family {
        Family::H7 | Family::H747 => vec![Step::AwaitClear(StatusFlag::Qw)],
        _ => vec![
            Step::AwaitClear(StatusFlag::Bsy),
            Step::ClearIfSet(FlagClear { flag: StatusFlag::Eop, idiom: ClearIdiom::ModifyStatus }),
        ],
    }
}

fn chunk_store_script(family: Family, start: usize, data: &[u8], offset: usize) -> (script: Vec<
    Step,
>)
    requires
        offset + family.chunk_bytes() <= data@.len(),
    ensures
        script@ == chunk_stores(family, start, data@, offset as int),
{
    let words: usize = family.program_width() / 4;
    let length: usize = data.len();
    let mut script: Vec<Step> = Vec::new();
    let mut j: usize = 0;
    while j < words
        invariant
            j <= words,
            4 * words == family.chunk_bytes(),
            length == data@.len(),
            offset + family.chunk_bytes() <= data@.len(),
            script@ == chunk_stores(family, start, data@, offset as int).take(j as int),
        decreases words - j,
    {
        let at: usize = offset + 4 * j;
        let address: usize = wrapping_offset(start, at);
        let word: u32 = word_at(data, at);
        script.push(Step::Store { address, word });
        j = j + 1;
    }
    script
}

/// Lists the steps that program `data` from the address `start` on: the
/// guard, the setting of the program bit, for each whole chunk of the
/// variant's width its stores and the wait that follows them, the
/// clearing of the program bit, and locking. Bytes after the last whole
/// chunk are left out.
pub fn program_script(family: Family, start: usize, data: &[u8]) -> (script: Vec<Step>)
    ensures
        script@ == program_steps(family, start, data@),
{
    let width: usize = family.program_width();
    let length: usize = data.len();
    let count: usize = length / width;
    let mut script: Vec<Step> = guard_script();
    script.push(Step::Control(ControlOp::SetBit(ControlBit::Program)));
    let ghost head: Seq<Step> = script@;
    let mut k: usize = 0;
    while k < count
        invariant
            k <= count,
            width == family.chunk_bytes(),
            length == data@.len(),
            count == data@.len() / width as nat,
            script@ == head + chunk_steps(family, start, data@, k as nat),
        decreases count - k,
    {
        assert((k + 1) * width <= count * width) by (nonlinear_arith)
            requires
                k + 1 <= count,
                0 <= width,
        ;
        assert((k + 1) * width == k * width + width) by (nonlinear_arith);
        assert(count * width <= data@.len()) by (nonlinear_arith)
            requires
                count == data@.len() / width as nat,
                0 < width,
        ;
        let mut stores: Vec<Step> = chunk_store_script(family, start, data, k * width);
        let mut wait: Vec<Step> = chunk_wait_script(family);
        script.append(&mut stores);
        script.append(&mut wait);
        k = k + 1;
        proof {
            assert(script@ == head + chunk_steps(family, start, data@, k as nat));
        }
    }
    let mut lock: Vec<Step> = lock_script();
    script.push(Step::Control(ControlOp::ClearBit(ControlBit::Program)));
    script.append(&mut lock);
    proof {
        assert(script@ == program_steps(family, start, data@));
    }
    script
}

/// Lists the loads of `count` consecutive words from the address `start`
/// on.
pub fn load_script(start: usize, count: usize) -> (script: Vec<Step>)
    ensures
        script@ == load_steps(start, count as nat),
{
    let mut script: Vec<Step> = Vec::new();
    let mut i: usize = 0;
    while i < count
        invariant
            i <= count,
            script@ == load_steps(start, count as nat).take(i as int),
        decreases count - i,
    {
        let address: usize = scaled_offset(start, i, 4);
        script.push(Step::Load { address });
        i = i + 1;
    }
    script
}

} // verus!
