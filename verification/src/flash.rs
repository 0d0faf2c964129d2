use crate::access::{Reply, Request};
use crate::address::{scaled_offset, wrapped, wrapping_offset};
use crate::bank::{Bank, DualBank};
use crate::machine::Machine;
use crate::profile::{Family, Profile};
use crate::script::{
    erase_bank_script, erase_bank_steps, erase_unit_script, erase_unit_steps, load_script,
    load_steps, lock_script, lock_steps, program_script, program_steps, Step,
};
use crate::sequencer::{le_cell, Sequencer};
use vstd::prelude::*;

verus! {

/// The flash controller of one device, as its driver sees it: the variant,
/// the addressing mode, and the operation that is in progress.
///
/// The driver does not touch the hardware. An operation begins with a call
/// of the method that is named after it, which returns the first access to
/// make. The caller makes that access and hands what came of it to
/// `advance`, which returns the next one, until the request is
/// `Request::Finished` with the result of the operation.
pub struct Flash {
    pub profile: Profile,
    /// Addressing mode of a switchable variant; other variants ignore it.
    pub dual_bank: DualBank,
    /// The operation in progress.
    pub sequencer: Sequencer,
}

/// The steps by which `data` is programmed at the start of the unit
/// `page` of `bank`.
pub open spec fn write_steps(
    profile: Profile,
    mode: DualBank,
    page: usize,
    bank: Bank,
    data: Seq<u8>,
) -> Seq<Step> {
    program_steps(profile.family, profile.unit_address(page, mode, bank) as usize, data)
}

/// The steps by which `length` bytes are read, as whole words, from
/// `offset` bytes after the start of the unit `page` of `bank` on.
pub open spec fn read_steps(
    profile: Profile,
    mode: DualBank,
    page: usize,
    offset: usize,
    length: usize,
    bank: Bank,
) -> Seq<Step> {
    load_steps(
        wrapped(profile.unit_address(page, mode, bank) + offset / 4 * 4) as usize,
        (length / 4) as nat,
    )
}

/// The steps by which the 64-bit cell number `offset` of the unit `page`
/// of `bank` is read.
pub open spec fn cell_steps(
    profile: Profile,
    mode: DualBank,
    page: usize,
    bank: Bank,
    offset: usize,
) -> Seq<Step> {
    load_steps(wrapped(profile.unit_address(page, mode, bank) + offset * 8) as usize, 2)
}

impl View for Flash {
    type V = Machine;

    open spec fn view(&self) -> Machine {
        self.sequencer@
    }
}

impl Flash {
    /// Whether two controllers differ in nothing but the operation in
    /// progress.
    pub open spec fn same_device(self, other: Flash) -> bool {
        self.profile == other.profile && self.dual_bank == other.dual_bank
    }

    /// Creates the driver of a controller of the variant `profile`. A
    /// switchable variant starts in single-bank mode. No operation is in
    /// progress.
    pub fn new(profile: Profile) -> (flash: Flash)
        ensures
            flash.profile == profile,
            flash.dual_bank == DualBank::Single,
            flash@ == Machine::begin(profile.family, Bank::B1, Seq::empty()),
            flash@.wf(),
    {
        Flash { profile, dual_bank: DualBank::Single, sequencer: Sequencer::new(profile.family) }
    }

    /// The access that the caller is to make now, or `Request::Finished`
    /// with the result where no operation is in progress.
    pub fn request(&self) -> (request: Request)
        ensures
            request == self@.request(),
    {
        self.sequencer.request()
    }

    /// Takes in what came of the access that was under way and returns the
    /// access to make next. A reply of a kind that the access does not
    /// call for is ignored, and the same access is asked for again. Once
    /// the operation has ended, the request stays `Request::Finished`.
    pub fn advance(&mut self, reply: Reply) -> (request: Request)
        ensures
            final(self)@ == old(self)@.next(reply),
            final(self)@.wf(),
            final(self).same_device(*old(self)),
            request == final(self)@.request(),
    {
        self.sequencer.advance(reply)
    }

    /// Begins unlocking the control register. If the lock bit is clear
    /// already, the operation ends at once with `Ok`. Otherwise the two
    /// keys are written, in order, and the lock bit is read again: `Ok` if
    /// it is clear, `Error::Failure` if not. The keys are not tried twice.
    pub fn unlock(&mut self) -> (request: Request)
        ensures
            final(self)@ == Machine::begin(old(self).profile.family, Bank::B1, seq![Step::Unlock]),
            final(self)@.wf(),
            final(self).same_device(*old(self)),
            request == final(self)@.request(),
    {
        let script: Vec<Step> = vec![Step::Unlock];
        assert(script@ == seq![Step::Unlock]);
        self.sequencer.begin(self.profile.family, Bank::B1, script)
    }

    /// Begins locking the control register: the status register is read
    /// until the controller is idle, and the lock bit is set. Locking
    /// cannot fail.
    pub fn lock(&mut self) -> (request: Request)
        ensures
            final(self)@ == Machine::begin(old(self).profile.family, Bank::B1, lock_steps()),
            final(self)@.wf(),
            final(self).same_device(*old(self)),
            request == final(self)@.request(),
    {
        self.sequencer.begin(self.profile.family, Bank::B1, lock_script())
    }

    /// Begins the erase of the page `page` of `bank`. The result is `Ok`, or
    /// `Error::Failure` where the control register could not be unlocked,
    /// or `Error::Busy` where the controller was busy when the operation
    /// began; in that case the controller is locked again and nothing is
    /// erased.
    pub fn erase_page(&mut self, page: usize, bank: Bank) -> (request: Request)
        ensures
            final(self)@ == Machine::begin(
                old(self).profile.family,
                old(self).profile.family.register_set(bank),
                erase_unit_steps(old(self).profile.family, old(self).dual_bank, page, bank),
            ),
            final(self)@.wf(),
            final(self).same_device(*old(self)),
            request == final(self)@.request(),
    {
        let family: Family = self.profile.family;
        let script: Vec<Step> = erase_unit_script(family, self.dual_bank, page, bank);
        self.sequencer.begin(family, family.registers(bank), script)
    }

    /// Begins the erase of the sector `sector` of `bank`. A sector is what
    /// the variants with large erase units call a page: this is
    /// `erase_page` under their name for it.
    pub fn erase_sector(&mut self, sector: usize, bank: Bank) -> (request: Request)
        ensures
            final(self)@ == Machine::begin(
                old(self).profile.family,
                old(self).profile.family.register_set(bank),
                erase_unit_steps(old(self).profile.family, old(self).dual_bank, sector, bank),
            ),
            final(self)@.wf(),
            final(self).same_device(*old(self)),
            request == final(self)@.request(),
    {
        self.erase_page(sector, bank)
    }

    /// Begins the erase of the whole of `bank`, called mass erase on the
    /// variants with one bank. The results are those of `erase_page`.
    pub fn erase_bank(&mut self, bank: Bank) -> (request: Request)
        ensures
            final(self)@ == Machine::begin(
                old(self).profile.family,
                old(self).profile.family.register_set(bank),
                erase_bank_steps(old(self).profile.family, old(self).dual_bank, bank),
            ),
            final(self)@.wf(),
            final(self).same_device(*old(self)),
            request == final(self)@.request(),
    {
        let family: Family = self.profile.family;
        let script: Vec<Step> = erase_bank_script(family, self.dual_bank, bank);
        self.sequencer.begin(family, family.registers(bank), script)
    }

    /// Begins the programming of `data` at the start of the page `page` of
    /// `bank`, which must have been erased. The data is written in chunks
    /// of the variant's programming width, and each chunk is waited for
    /// before the next is stored; bytes after the last whole chunk are not
    /// written. Nothing checks that the data ends inside the page. The
    /// results are those of `erase_page`.
    pub fn write_page(&mut self, page: usize, bank: Bank, data: &[u8]) -> (request: Request)
        ensures
            final(self)@ == Machine::begin(
                old(self).profile.family,
                old(self).profile.family.register_set(bank),
                write_steps(old(self).profile, old(self).dual_bank, page, bank, data@),
            ),
            final(self)@.wf(),
            final(self).same_device(*old(self)),
            request == final(self)@.request(),
    {
        let family: Family = self.profile.family;
        let start: usize = self.profile.address(page, self.dual_bank, bank);
        let script: Vec<Step> = program_script(family, start, data);
        self.sequencer.begin(family, family.registers(bank), script)
    }

    /// Begins the erase of the page `page` of `bank` followed by the
    /// programming of `data` at its start: the steps of `erase_page`,
    /// and after them those of `write_page`. An erase that fails ends the
    /// operation with its error, and nothing is programmed; otherwise the
    /// result is that of the programming.
    pub fn erase_write_page(&mut self, page: usize, bank: Bank, data: &[u8]) -> (request: Request)
        ensures
            final(self)@ == Machine::begin(
                old(self).profile.family,
                old(self).profile.family.register_set(bank),
                erase_unit_steps(old(self).profile.family, old(self).dual_bank, page, bank)
                    + write_steps(old(self).profile, old(self).dual_bank, page, bank, data@),
            ),
            final(self)@.wf(),
            final(self).same_device(*old(self)),
            request == final(self)@.request(),
    {
        let family: Family = self.profile.family;
        let start: usize = self.profile.address(page, self.dual_bank, bank);
        let mut script: Vec<Step> = erase_unit_script(family, self.dual_bank, page, bank);
        let mut program: Vec<Step> = program_script(family, start, data);
        script.append(&mut program);
        self.sequencer.begin(family, family.registers(bank), script)
    }

    /// Begins the reading of one 64-bit cell of the page `page` of `bank`:
    /// the cell number `offset`, counted in cells from the start of the
    /// page. No register is touched. Once the operation has ended, `cell`
    /// returns the value.
    pub fn read(&mut self, page: usize, bank: Bank, offset: usize) -> (request: Request)
        ensures
            final(self)@ == Machine::begin(
                old(self).profile.family,
                Bank::B1,
                cell_steps(old(self).profile, old(self).dual_bank, page, bank, offset),
            ),
            final(self)@.wf(),
            final(self).same_device(*old(self)),
            request == final(self)@.request(),
    {
        let start: usize = self.profile.address(page, self.dual_bank, bank);
        let script: Vec<Step> = load_script(scaled_offset(start, offset, 8), 2);
        self.sequencer.begin(self.profile.family, Bank::B1, script)
    }

    /// Begins the reading of `length` bytes of the page `page` of `bank`,
    /// from `offset` bytes after its start on, as whole 32-bit words: the
    /// offset is rounded down to a whole word, and so is the length. No
    /// register is touched. Once the operation has ended, `data` returns
    /// the bytes that were read, each word lowest byte first.
    pub fn read_to_buffer(&mut self, page: usize, offset: usize, length: usize, bank: Bank) -> (request:
        Request)
        ensures
            final(self)@ == Machine::begin(
                old(self).profile.family,
                Bank::B1,
                read_steps(old(self).profile, old(self).dual_bank, page, offset, length, bank),
            ),
            final(self)@.wf(),
            final(self).same_device(*old(self)),
            request == final(self)@.request(),
    {
        let start: usize = self.profile.address(page, self.dual_bank, bank);
        let script: Vec<Step> = load_script(wrapping_offset(start, offset / 4 * 4), length / 4);
        self.sequencer.begin(self.profile.family, Bank::B1, script)
    }

    /// The bytes that the operation has loaded so far, in the order of the
    /// loads.
    pub fn data(&self) -> (data: &Vec<u8>)
        ensures
            data@ == self@.data,
    {
        self.sequencer.data()
    }

    /// The 64-bit value of the eight bytes that a `read` has loaded, lowest
    /// byte first; `None` unless exactly eight bytes were loaded.
    pub fn cell(&self) -> (cell: Option<u64>)
        ensures
            cell == if self@.data.len() == 8 {
                Some(le_cell(self@.data))
            } else {
                None
            },
    {
        self.sequencer.cell()
    }
}

} // verus!
