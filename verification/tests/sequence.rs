use flash_driver::access::{
    ClearIdiom, ControlBit, ControlOp, FlagClear, Reply, Request, FLASH_KEY1, FLASH_KEY2,
};
use flash_driver::bank::{Bank, DualBank};
use flash_driver::error::Error;
use flash_driver::flash::Flash;
use flash_driver::profile::{Family, Profile};
use flash_driver::script::{
    erase_bank_script, erase_unit_script, guard_script, load_script, lock_script, program_script,
    push_word, word_at, Step,
};
use flash_driver::sequencer::Sequencer;
use flash_driver::status::{Status, StatusFlag};

fn idle() -> Reply {
    Reply::Status(Status::empty())
}

fn busy() -> Reply {
    Reply::Status(Status { bsy: true, ..Status::empty() })
}

fn set(bit: ControlBit) -> Step {
    Step::Control(ControlOp::SetBit(bit))
}

fn clear(bit: ControlBit) -> Step {
    Step::Control(ControlOp::ClearBit(bit))
}

fn eop_clear() -> FlagClear {
    FlagClear { flag: StatusFlag::Eop, idiom: ClearIdiom::ModifyStatus }
}

#[test]
fn key_constants() {
    assert_eq!(FLASH_KEY1, 0x4567_0123);
    assert_eq!(FLASH_KEY2, 0xCDEF_89AB);
}

#[test]
fn new_flash_is_idle_in_single_mode() {
    let flash = Flash::new(Profile::new(Family::G4DualBank));
    assert_eq!(flash.dual_bank, DualBank::Single);
    assert_eq!(flash.profile, Profile::new(Family::G4DualBank));
    assert_eq!(flash.request(), Request::Finished(Ok(())));
    assert!(flash.data().is_empty());
}

#[test]
fn unlock_when_already_unlocked_reads_once() {
    let mut flash = Flash::new(Profile::new(Family::L4));
    assert_eq!(flash.unlock(), Request::ReadLock(Bank::B1));
    assert_eq!(flash.advance(Reply::Lock(false)), Request::Finished(Ok(())));
}

#[test]
fn unlock_writes_both_keys_in_order() {
    let mut flash = Flash::new(Profile::new(Family::L4));
    assert_eq!(flash.unlock(), Request::ReadLock(Bank::B1));
    assert_eq!(flash.advance(Reply::Lock(true)), Request::WriteKey(Bank::B1, 0x4567_0123));
    assert_eq!(flash.advance(Reply::Done), Request::WriteKey(Bank::B1, 0xCDEF_89AB));
    assert_eq!(flash.advance(Reply::Done), Request::ReadLock(Bank::B1));
    assert_eq!(flash.advance(Reply::Lock(false)), Request::Finished(Ok(())));
}

#[test]
fn unlock_fails_when_the_keys_do_not_take() {
    let mut flash = Flash::new(Profile::new(Family::F4));
    flash.unlock();
    flash.advance(Reply::Lock(true));
    flash.advance(Reply::Done);
    flash.advance(Reply::Done);
    assert_eq!(flash.advance(Reply::Lock(true)), Request::Finished(Err(Error::Failure)));
    assert_eq!(flash.advance(Reply::Done), Request::Finished(Err(Error::Failure)));
}

#[test]
fn unlock_twice_is_ok_twice() {
    let mut flash = Flash::new(Profile::new(Family::G0));
    flash.unlock();
    flash.advance(Reply::Lock(true));
    flash.advance(Reply::Done);
    flash.advance(Reply::Done);
    assert_eq!(flash.advance(Reply::Lock(false)), Request::Finished(Ok(())));
    assert_eq!(flash.unlock(), Request::ReadLock(Bank::B1));
    assert_eq!(flash.advance(Reply::Lock(false)), Request::Finished(Ok(())));
}

#[test]
fn lock_polls_until_idle() {
    let mut flash = Flash::new(Profile::new(Family::L4));
    assert_eq!(flash.lock(), Request::ReadStatus(Bank::B1));
    assert_eq!(flash.advance(busy()), Request::ReadStatus(Bank::B1));
    assert_eq!(flash.advance(busy()), Request::ReadStatus(Bank::B1));
    assert_eq!(
        flash.advance(idle()),
        Request::Control(Bank::B1, ControlOp::SetBit(ControlBit::Lock))
    );
    assert_eq!(flash.advance(Reply::Done), Request::Finished(Ok(())));
}

#[test]
fn busy_at_start_locks_and_reports_busy() {
    let mut flash = Flash::new(Profile::new(Family::L4));
    assert_eq!(flash.erase_page(3, Bank::B1), Request::ReadLock(Bank::B1));
    assert_eq!(flash.advance(Reply::Lock(false)), Request::ReadStatus(Bank::B1));
    assert_eq!(flash.advance(busy()), Request::ReadStatus(Bank::B1));
    assert_eq!(flash.advance(busy()), Request::ReadStatus(Bank::B1));
    assert_eq!(
        flash.advance(idle()),
        Request::Control(Bank::B1, ControlOp::SetBit(ControlBit::Lock))
    );
    assert_eq!(flash.advance(Reply::Done), Request::Finished(Err(Error::Busy)));
}

#[test]
fn busy_at_start_of_every_mutating_operation() {
    let data: [u8; 8] = [1, 2, 3, 4, 5, 6, 7, 8];
    for kind in 0..5 {
        let mut flash = Flash::new(Profile::new(Family::G4));
        let first: Request = match kind {
            0 => flash.erase_page(1, Bank::B1),
            1 => flash.erase_sector(1, Bank::B1),
            2 => flash.erase_bank(Bank::B1),
            3 => flash.write_page(1, Bank::B1, &data),
            _ => flash.erase_write_page(1, Bank::B1, &data),
        };
        assert_eq!(first, Request::ReadLock(Bank::B1));
        assert_eq!(flash.advance(Reply::Lock(false)), Request::ReadStatus(Bank::B1));
        assert_eq!(flash.advance(busy()), Request::ReadStatus(Bank::B1));
        assert_eq!(
            flash.advance(idle()),
            Request::Control(Bank::B1, ControlOp::SetBit(ControlBit::Lock))
        );
        assert_eq!(flash.advance(Reply::Done), Request::Finished(Err(Error::Busy)));
    }
}

#[test]
fn erase_page_sequence_l4() {
    let mut flash = Flash::new(Profile::new(Family::L4));
    assert_eq!(flash.erase_page(3, Bank::B1), Request::ReadLock(Bank::B1));
    assert_eq!(flash.advance(Reply::Lock(true)), Request::WriteKey(Bank::B1, FLASH_KEY1));
    assert_eq!(flash.advance(Reply::Done), Request::WriteKey(Bank::B1, FLASH_KEY2));
    assert_eq!(flash.advance(Reply::Done), Request::ReadLock(Bank::B1));
    assert_eq!(flash.advance(Reply::Lock(false)), Request::ReadStatus(Bank::B1));
    assert_eq!(flash.advance(idle()), Request::ReadStatus(Bank::B1));
    let stale = Status { progerr: true, wrperr: true, ..Status::empty() };
    assert_eq!(
        flash.advance(Reply::Status(stale)),
        Request::ClearFlag(
            Bank::B1,
            FlagClear { flag: StatusFlag::Wrperr, idiom: ClearIdiom::WriteStatus }
        )
    );
    assert_eq!(
        flash.advance(Reply::Done),
        Request::ClearFlag(
            Bank::B1,
            FlagClear { flag: StatusFlag::Progerr, idiom: ClearIdiom::WriteStatus }
        )
    );
    assert_eq!(
        flash.advance(Reply::Done),
        Request::Control(
            Bank::B1,
            ControlOp::Select { enable: ControlBit::PageErase, number: 3, bank: None }
        )
    );
    assert_eq!(
        flash.advance(Reply::Done),
        Request::Control(Bank::B1, ControlOp::SetBit(ControlBit::Start))
    );
    assert_eq!(flash.advance(Reply::Done), Request::ReadStatus(Bank::B1));
    assert_eq!(flash.advance(busy()), Request::ReadStatus(Bank::B1));
    assert_eq!(
        flash.advance(idle()),
        Request::Control(Bank::B1, ControlOp::ClearBit(ControlBit::PageErase))
    );
    assert_eq!(flash.advance(Reply::Done), Request::ReadStatus(Bank::B1));
    assert_eq!(
        flash.advance(idle()),
        Request::Control(Bank::B1, ControlOp::SetBit(ControlBit::Lock))
    );
    assert_eq!(flash.advance(Reply::Done), Request::Finished(Ok(())));
    assert_eq!(flash.advance(Reply::Done), Request::Finished(Ok(())));
}

#[test]
fn erase_unit_steps_per_family() {
    let select = |enable: ControlBit, bank: Option<Bank>| {
        Step::Control(ControlOp::Select { enable, number: 3, bank })
    };
    let l4 = vec![
        Step::Unlock,
        Step::CheckBusy,
        Step::ClearErrors,
        select(ControlBit::PageErase, None),
        set(ControlBit::Start),
        Step::AwaitClear(StatusFlag::Bsy),
        clear(ControlBit::PageErase),
        Step::AwaitClear(StatusFlag::Bsy),
        set(ControlBit::Lock),
    ];
    for family in [Family::L4, Family::G0, Family::G4, Family::Wl] {
        assert_eq!(erase_unit_script(family, DualBank::Dual, 3, Bank::B2), l4);
    }
    assert_eq!(erase_unit_script(Family::G4DualBank, DualBank::Single, 3, Bank::B2), l4);
    assert_eq!(
        erase_unit_script(Family::G4DualBank, DualBank::Dual, 3, Bank::B2),
        vec![
            Step::Unlock,
            Step::CheckBusy,
            Step::ClearErrors,
            select(ControlBit::PageErase, Some(Bank::B2)),
            set(ControlBit::Start),
            Step::AwaitClear(StatusFlag::Bsy),
            clear(ControlBit::PageErase),
            Step::AwaitClear(StatusFlag::Bsy),
            set(ControlBit::Lock),
        ]
    );
    assert_eq!(
        erase_unit_script(Family::F3, DualBank::Single, 3, Bank::B1),
        vec![
            Step::Unlock,
            Step::CheckBusy,
            Step::ClearErrors,
            set(ControlBit::PageErase),
            Step::WriteAddress(3),
            set(ControlBit::Start),
            Step::AwaitClear(StatusFlag::Bsy),
            Step::AwaitSet(StatusFlag::Eop),
            Step::ClearFlag(eop_clear()),
            clear(ControlBit::PageErase),
            Step::AwaitClear(StatusFlag::Bsy),
            set(ControlBit::Lock),
        ]
    );
    assert_eq!(
        erase_unit_script(Family::F4, DualBank::Single, 3, Bank::B1),
        vec![
            Step::Unlock,
            Step::CheckBusy,
            Step::ClearErrors,
            select(ControlBit::SectorErase, None),
            set(ControlBit::Start),
            Step::AwaitClear(StatusFlag::Bsy),
            Step::AwaitSet(StatusFlag::Eop),
            Step::ClearFlag(eop_clear()),
            clear(ControlBit::SectorErase),
            Step::AwaitClear(StatusFlag::Bsy),
            set(ControlBit::Lock),
        ]
    );
    let h7 = vec![
        Step::Unlock,
        Step::CheckBusy,
        Step::ClearErrors,
        select(ControlBit::SectorErase, None),
        set(ControlBit::Start),
        Step::AwaitClear(StatusFlag::Bsy),
        Step::AwaitClear(StatusFlag::Qw),
        clear(ControlBit::SectorErase),
        Step::AwaitClear(StatusFlag::Bsy),
        set(ControlBit::Lock),
    ];
    assert_eq!(erase_unit_script(Family::H7, DualBank::Single, 3, Bank::B2), h7);
    assert_eq!(erase_unit_script(Family::H747, DualBank::Single, 3, Bank::B1), h7);
}

#[test]
fn unit_number_keeps_the_low_eight_bits() {
    let script = erase_unit_script(Family::L4, DualBank::Single, 0x1234, Bank::B1);
    assert_eq!(
        script[3],
        Step::Control(ControlOp::Select { enable: ControlBit::PageErase, number: 0x34, bank: None })
    );
    let f3 = erase_unit_script(Family::F3, DualBank::Single, 0x1234, Bank::B1);
    assert_eq!(f3[4], Step::WriteAddress(0x1234));
}

#[test]
fn erase_bank_steps_per_family() {
    let around = |bits: Vec<ControlBit>, completion: Vec<Step>| {
        let mut script = vec![Step::Unlock, Step::CheckBusy, Step::ClearErrors];
        for bit in &bits {
            script.push(set(*bit));
        }
        script.push(set(ControlBit::Start));
        script.push(Step::AwaitClear(StatusFlag::Bsy));
        script.extend(completion);
        for bit in &bits {
            script.push(clear(*bit));
        }
        script.push(Step::AwaitClear(StatusFlag::Bsy));
        script.push(set(ControlBit::Lock));
        script
    };
    let eop = vec![Step::AwaitSet(StatusFlag::Eop), Step::ClearFlag(eop_clear())];
    assert_eq!(
        erase_bank_script(Family::F3, DualBank::Single, Bank::B1),
        around(vec![ControlBit::MassErase], eop.clone())
    );
    assert_eq!(
        erase_bank_script(Family::F4, DualBank::Single, Bank::B2),
        around(vec![ControlBit::MassErase], eop)
    );
    assert_eq!(
        erase_bank_script(Family::G0, DualBank::Single, Bank::B1),
        around(vec![ControlBit::MassErase], vec![])
    );
    for family in [Family::L4, Family::G4, Family::Wl] {
        assert_eq!(
            erase_bank_script(family, DualBank::Dual, Bank::B2),
            around(vec![ControlBit::MassErase1], vec![])
        );
    }
    assert_eq!(
        erase_bank_script(Family::G4DualBank, DualBank::Dual, Bank::B1),
        around(vec![ControlBit::MassErase1], vec![])
    );
    assert_eq!(
        erase_bank_script(Family::G4DualBank, DualBank::Dual, Bank::B2),
        around(vec![ControlBit::MassErase2], vec![])
    );
    assert_eq!(
        erase_bank_script(Family::G4DualBank, DualBank::Single, Bank::B1),
        around(vec![ControlBit::MassErase1, ControlBit::MassErase2], vec![])
    );
    assert_eq!(
        erase_bank_script(Family::H7, DualBank::Single, Bank::B2),
        around(vec![ControlBit::BankErase], vec![Step::AwaitClear(StatusFlag::Qw)])
    );
}

#[test]
fn erase_bank_addresses_the_register_set_of_the_bank() {
    let mut h7 = Flash::new(Profile::new(Family::H7));
    assert_eq!(h7.erase_bank(Bank::B2), Request::ReadLock(Bank::B2));
    assert_eq!(h7.erase_sector(1, Bank::B2), Request::ReadLock(Bank::B2));
    assert_eq!(h7.write_page(1, Bank::B2, &[0u8; 32]), Request::ReadLock(Bank::B2));
    let mut single = Flash::new(Profile::new(Family::H747));
    assert_eq!(single.erase_bank(Bank::B2), Request::ReadLock(Bank::B1));
    let mut l4 = Flash::new(Profile::new(Family::L4));
    assert_eq!(l4.erase_bank(Bank::B2), Request::ReadLock(Bank::B1));
}

#[test]
fn program_steps_double_words() {
    let data: Vec<u8> = (1..=19).collect();
    let script = program_script(Family::L4, 0x0800_1800, &data);
    let wait = [Step::AwaitClear(StatusFlag::Bsy), Step::ClearIfSet(eop_clear())];
    let mut expected = vec![Step::Unlock, Step::CheckBusy, Step::ClearErrors, set(ControlBit::Program)];
    expected.push(Step::Store { address: 0x0800_1800, word: 0x0403_0201 });
    expected.push(Step::Store { address: 0x0800_1804, word: 0x0807_0605 });
    expected.extend(wait);
    expected.push(Step::Store { address: 0x0800_1808, word: 0x0C0B_0A09 });
    expected.push(Step::Store { address: 0x0800_180C, word: 0x100F_0E0D });
    expected.extend(wait);
    expected.push(clear(ControlBit::Program));
    expected.push(Step::AwaitClear(StatusFlag::Bsy));
    expected.push(set(ControlBit::Lock));
    assert_eq!(script, expected);
}

#[test]
fn program_steps_flash_words() {
    let data: Vec<u8> = (0..40).collect();
    let script = program_script(Family::H7, 0x0810_0000, &data);
    assert_eq!(script.len(), 4 + 8 + 1 + 3);
    for word in 0..8usize {
        let low: u32 = (4 * word) as u32;
        let expected: u32 = low | (low + 1) << 8 | (low + 2) << 16 | (low + 3) << 24;
        assert_eq!(
            script[4 + word],
            Step::Store { address: 0x0810_0000 + 4 * word, word: expected }
        );
    }
    assert_eq!(script[12], Step::AwaitClear(StatusFlag::Qw));
    assert_eq!(script[13], clear(ControlBit::Program));
}

#[test]
fn program_steps_of_short_data_store_nothing() {
    let script = program_script(Family::L4, 0x0800_0000, &[1, 2, 3, 4, 5, 6, 7]);
    assert_eq!(
        script,
        vec![
            Step::Unlock,
            Step::CheckBusy,
            Step::ClearErrors,
            set(ControlBit::Program),
            clear(ControlBit::Program),
            Step::AwaitClear(StatusFlag::Bsy),
            set(ControlBit::Lock),
        ]
    );
}

#[test]
fn write_page_sequence_clears_completion_when_set() {
    let mut flash = Flash::new(Profile::new(Family::L4));
    let data: [u8; 8] = [0xAA; 8];
    assert_eq!(flash.write_page(3, Bank::B1, &data), Request::ReadLock(Bank::B1));
    assert_eq!(flash.advance(Reply::Lock(false)), Request::ReadStatus(Bank::B1));
    assert_eq!(flash.advance(idle()), Request::ReadStatus(Bank::B1));
    assert_eq!(
        flash.advance(idle()),
        Request::Control(Bank::B1, ControlOp::SetBit(ControlBit::Program))
    );
    assert_eq!(
        flash.advance(Reply::Done),
        Request::Store { address: 0x0800_1800, word: 0xAAAA_AAAA }
    );
    assert_eq!(
        flash.advance(Reply::Done),
        Request::Store { address: 0x0800_1804, word: 0xAAAA_AAAA }
    );
    assert_eq!(flash.advance(Reply::Done), Request::ReadStatus(Bank::B1));
    assert_eq!(flash.advance(busy()), Request::ReadStatus(Bank::B1));
    assert_eq!(flash.advance(idle()), Request::ReadStatus(Bank::B1));
    let done = Status { eop: true, ..Status::empty() };
    assert_eq!(flash.advance(Reply::Status(done)), Request::ClearFlag(Bank::B1, eop_clear()));
    assert_eq!(
        flash.advance(Reply::Done),
        Request::Control(Bank::B1, ControlOp::ClearBit(ControlBit::Program))
    );
    assert_eq!(flash.advance(Reply::Done), Request::ReadStatus(Bank::B1));
    assert_eq!(
        flash.advance(idle()),
        Request::Control(Bank::B1, ControlOp::SetBit(ControlBit::Lock))
    );
    assert_eq!(flash.advance(Reply::Done), Request::Finished(Ok(())));
}

#[test]
fn write_page_uses_the_addressing_mode() {
    let mut flash = Flash::new(Profile::new(Family::G4DualBank));
    flash.dual_bank = DualBank::Dual;
    flash.write_page(2, Bank::B2, &[0x11; 8]);
    flash.advance(Reply::Lock(false));
    flash.advance(idle());
    flash.advance(idle());
    assert_eq!(
        flash.advance(Reply::Done),
        Request::Store { address: 0x0804_1000, word: 0x1111_1111 }
    );
    flash.dual_bank = DualBank::Single;
    flash.write_page(2, Bank::B2, &[0x11; 8]);
    flash.advance(Reply::Lock(false));
    flash.advance(idle());
    flash.advance(idle());
    assert_eq!(
        flash.advance(Reply::Done),
        Request::Store { address: 0x0800_2000, word: 0x1111_1111 }
    );
}

#[test]
fn erase_write_page_is_erase_and_write() {
    let data: [u8; 16] = [7; 16];
    let family = Family::L4;
    let mut expected = erase_unit_script(family, DualBank::Single, 3, Bank::B1);
    expected.extend(program_script(family, 0x0800_1800, &data));
    let mut sequencer = Sequencer::new(family);
    let mut wanted: Vec<Request> = Vec::new();
    let mut request = sequencer.begin(family, Bank::B1, expected);
    while request != Request::Finished(Ok(())) {
        wanted.push(request);
        request = sequencer.advance(reply_to(request));
    }
    let mut flash = Flash::new(Profile::new(family));
    let mut got: Vec<Request> = Vec::new();
    let mut request = flash.erase_write_page(3, Bank::B1, &data);
    while request != Request::Finished(Ok(())) {
        got.push(request);
        request = flash.advance(reply_to(request));
    }
    assert_eq!(got, wanted);
    assert_eq!(got.len(), 9 + 15);
}

fn reply_to(request: Request) -> Reply {
    match request {
        Request::ReadLock(_) => Reply::Lock(false),
        Request::ReadStatus(_) => idle(),
        Request::Load { .. } => Reply::Word(0),
        _ => Reply::Done,
    }
}

#[test]
fn await_set_polls_until_set() {
    let mut flash = Flash::new(Profile::new(Family::F3));
    flash.erase_page(1, Bank::B1);
    flash.advance(Reply::Lock(false));
    flash.advance(idle());
    assert_eq!(
        flash.advance(idle()),
        Request::Control(Bank::B1, ControlOp::SetBit(ControlBit::PageErase))
    );
    assert_eq!(flash.advance(Reply::Done), Request::WriteAddress(Bank::B1, 1));
    assert_eq!(
        flash.advance(Reply::Done),
        Request::Control(Bank::B1, ControlOp::SetBit(ControlBit::Start))
    );
    assert_eq!(flash.advance(Reply::Done), Request::ReadStatus(Bank::B1));
    assert_eq!(flash.advance(idle()), Request::ReadStatus(Bank::B1));
    assert_eq!(flash.advance(idle()), Request::ReadStatus(Bank::B1));
    let done = Status { eop: true, ..Status::empty() };
    assert_eq!(flash.advance(Reply::Status(done)), Request::ClearFlag(Bank::B1, eop_clear()));
    assert_eq!(
        flash.advance(Reply::Done),
        Request::Control(Bank::B1, ControlOp::ClearBit(ControlBit::PageErase))
    );
}

#[test]
fn reply_of_the_wrong_kind_is_ignored() {
    let mut flash = Flash::new(Profile::new(Family::L4));
    assert_eq!(flash.erase_page(0, Bank::B1), Request::ReadLock(Bank::B1));
    assert_eq!(flash.advance(Reply::Done), Request::ReadLock(Bank::B1));
    assert_eq!(flash.advance(idle()), Request::ReadLock(Bank::B1));
    assert_eq!(flash.advance(Reply::Word(5)), Request::ReadLock(Bank::B1));
    assert_eq!(flash.advance(Reply::Lock(false)), Request::ReadStatus(Bank::B1));
    assert_eq!(flash.advance(Reply::Lock(false)), Request::ReadStatus(Bank::B1));
    assert_eq!(flash.request(), Request::ReadStatus(Bank::B1));
}

#[test]
fn read_to_buffer_loads_whole_words() {
    let mut flash = Flash::new(Profile::new(Family::L4));
    assert_eq!(flash.read_to_buffer(3, 0, 10, Bank::B1), Request::Load { address: 0x0800_1800 });
    assert_eq!(flash.advance(Reply::Word(0x0403_0201)), Request::Load { address: 0x0800_1804 });
    assert_eq!(flash.advance(Reply::Word(0xDDCC_BBAA)), Request::Finished(Ok(())));
    assert_eq!(flash.data(), &vec![1, 2, 3, 4, 0xAA, 0xBB, 0xCC, 0xDD]);
}

#[test]
fn read_to_buffer_rounds_the_offset_down() {
    let mut flash = Flash::new(Profile::new(Family::L4));
    assert_eq!(flash.read_to_buffer(1, 8, 4, Bank::B1), Request::Load { address: 0x0800_0808 });
    assert_eq!(flash.read_to_buffer(1, 11, 4, Bank::B1), Request::Load { address: 0x0800_0808 });
    assert_eq!(flash.read_to_buffer(1, 12, 4, Bank::B1), Request::Load { address: 0x0800_080C });
    assert_eq!(flash.read_to_buffer(1, 0, 3, Bank::B1), Request::Finished(Ok(())));
    assert!(flash.data().is_empty());
}

#[test]
fn read_cell_is_little_endian() {
    let mut flash = Flash::new(Profile::new(Family::H7));
    assert_eq!(flash.cell(), None);
    assert_eq!(flash.read(1, Bank::B2, 2), Request::Load { address: 0x0812_0010 });
    assert_eq!(flash.cell(), None);
    assert_eq!(flash.advance(Reply::Word(0x4433_2211)), Request::Load { address: 0x0812_0014 });
    assert_eq!(flash.cell(), None);
    assert_eq!(flash.advance(Reply::Word(0x8877_6655)), Request::Finished(Ok(())));
    assert_eq!(flash.cell(), Some(0x8877_6655_4433_2211));
}

#[test]
fn words_and_bytes() {
    assert_eq!(word_at(&[0x78, 0x56, 0x34, 0x12, 0xFF], 0), 0x1234_5678);
    assert_eq!(word_at(&[0x78, 0x56, 0x34, 0x12, 0xFF], 1), 0xFF12_3456);
    let mut bytes: Vec<u8> = vec![9];
    push_word(&mut bytes, 0x1234_5678);
    assert_eq!(bytes, vec![9, 0x78, 0x56, 0x34, 0x12]);
    push_word(&mut bytes, 0xFFFF_FFFF);
    assert_eq!(word_at(&bytes, 5), 0xFFFF_FFFF);
}

#[test]
fn small_scripts() {
    assert_eq!(guard_script(), vec![Step::Unlock, Step::CheckBusy, Step::ClearErrors]);
    assert_eq!(
        lock_script(),
        vec![Step::AwaitClear(StatusFlag::Bsy), set(ControlBit::Lock)]
    );
    assert_eq!(
        load_script(0x100, 3),
        vec![
            Step::Load { address: 0x100 },
            Step::Load { address: 0x104 },
            Step::Load { address: 0x108 },
        ]
    );
    assert!(load_script(0x100, 0).is_empty());
}
