use flash_driver::access::{
    ClearIdiom, ControlBit, ControlOp, FlagClear, Reply, Request, FLASH_KEY1, FLASH_KEY2,
};
use flash_driver::bank::{Bank, DualBank};
use flash_driver::error::Error;
use flash_driver::flash::Flash;
use flash_driver::profile::{Family, Layout, Profile};
use flash_driver::status::{Status, StatusFlag};
use std::collections::HashMap;

#[derive(Clone, Copy, PartialEq, Debug)]
enum Keys {
    Idle,
    Half,
    Jammed,
}

#[derive(Clone, Debug)]
struct Registers {
    locked: bool,
    keys: Keys,
    control: Vec<ControlBit>,
    number: u8,
    bank_select: bool,
    address: u32,
    status: Status,
    busy: u32,
}

impl Registers {
    fn new() -> Registers {
        Registers {
            locked: true,
            keys: Keys::Idle,
            control: Vec::new(),
            number: 0,
            bank_select: false,
            address: 0,
            status: Status::empty(),
            busy: 0,
        }
    }

    fn has(&self, bit: ControlBit) -> bool {
        self.control.contains(&bit)
    }
}

/// A controller and its memory, simulated: every byte that was never
/// programmed or erased reads as `fill`.
struct Device {
    profile: Profile,
    mode: DualBank,
    sets: [Registers; 2],
    memory: HashMap<usize, u8>,
    fill: u8,
    latency: u32,
    reports_completion: bool,
    log: Vec<Request>,
}

fn slot(bank: Bank) -> usize {
    match bank {
        Bank::B1 => 0,
        Bank::B2 => 1,
    }
}

impl Device {
    fn new(profile: Profile, mode: DualBank) -> Device {
        Device {
            profile,
            mode,
            sets: [Registers::new(), Registers::new()],
            memory: HashMap::new(),
            fill: 0x00,
            latency: 3,
            reports_completion: true,
            log: Vec::new(),
        }
    }

    fn banked(&self) -> bool {
        match self.profile.family {
            Family::H7 => true,
            Family::G4DualBank => self.mode == DualBank::Dual,
            _ => false,
        }
    }

    fn byte(&self, address: usize) -> u8 {
        *self.memory.get(&address).unwrap_or(&self.fill)
    }

    fn unit_bytes(&self) -> usize {
        if self.profile.family.unit_layout() == Layout::Switchable && self.mode == DualBank::Single {
            2 * self.profile.unit_size
        } else {
            self.profile.unit_size
        }
    }

    fn bank_start(&self, bank: Bank) -> usize {
        if self.banked() && bank == Bank::B2 {
            self.profile.bank2_base
        } else {
            self.profile.base
        }
    }

    fn erase_range(&mut self, start: usize, length: usize) {
        for address in start..start + length {
            self.memory.insert(address, 0xFF);
        }
    }

    fn mass_selected(&self, set: Bank, bank: Bank) -> bool {
        let registers = &self.sets[slot(set)];
        match self.profile.family.unit_layout() {
            Layout::Sectored => {
                registers.has(ControlBit::BankErase)
                    && (set == bank || self.profile.family != Family::H7)
            }
            Layout::Switchable => match self.mode {
                DualBank::Single => {
                    registers.has(ControlBit::MassErase1) && registers.has(ControlBit::MassErase2)
                }
                DualBank::Dual => match bank {
                    Bank::B1 => registers.has(ControlBit::MassErase1),
                    Bank::B2 => registers.has(ControlBit::MassErase2),
                },
            },
            Layout::Linear => {
                registers.has(ControlBit::MassErase) || registers.has(ControlBit::MassErase1)
            }
        }
    }

    fn begin_operation(&mut self, set: Bank) {
        let latency: u32 = self.latency;
        let reports: bool = self.reports_completion;
        let registers = &mut self.sets[slot(set)];
        registers.busy = latency;
        if reports {
            registers.status.eop = true;
        }
    }

    fn start(&mut self, set: Bank) {
        let registers = self.sets[slot(set)].clone();
        let size: usize = self.unit_bytes();
        if registers.has(ControlBit::PageErase) || registers.has(ControlBit::SectorErase) {
            let bank: Bank = if self.profile.family == Family::H7 {
                set
            } else if self.banked() && registers.bank_select {
                Bank::B2
            } else {
                Bank::B1
            };
            let unit: usize = if self.profile.family == Family::F3 {
                registers.address as usize
            } else {
                registers.number as usize
            };
            self.erase_range(self.bank_start(bank) + unit * size, size);
        } else {
            for bank in [Bank::B1, Bank::B2] {
                if self.mass_selected(set, bank) {
                    self.erase_range(self.bank_start(bank), self.profile.units * size);
                }
            }
        }
        self.begin_operation(set);
    }

    fn control(&mut self, set: Bank, op: ControlOp) {
        if self.sets[slot(set)].locked {
            return;
        }
        match op {
            ControlOp::SetBit(ControlBit::Lock) => {
                self.sets[slot(set)].locked = true;
                self.sets[slot(set)].keys = Keys::Idle;
            }
            ControlOp::SetBit(ControlBit::Start) => self.start(set),
            ControlOp::SetBit(bit) => {
                if !self.sets[slot(set)].has(bit) {
                    self.sets[slot(set)].control.push(bit);
                }
            }
            ControlOp::ClearBit(ControlBit::Lock) => {}
            ControlOp::ClearBit(bit) => self.sets[slot(set)].control.retain(|other| *other != bit),
            ControlOp::Select { enable, number, bank } => {
                let registers = &mut self.sets[slot(set)];
                if !registers.has(enable) {
                    registers.control.push(enable);
                }
                registers.number = number;
                if let Some(bank) = bank {
                    registers.bank_select = bank == Bank::B2;
                }
            }
        }
    }

    fn key(&mut self, set: Bank, value: u32) {
        let registers = &mut self.sets[slot(set)];
        if !registers.locked {
            return;
        }
        registers.keys = match registers.keys {
            Keys::Idle if value == FLASH_KEY1 => Keys::Half,
            Keys::Half if value == FLASH_KEY2 => {
                registers.locked = false;
                Keys::Idle
            }
            _ => Keys::Jammed,
        };
    }

    fn clear(&mut self, set: Bank, clear: FlagClear) {
        let registers = &mut self.sets[slot(set)];
        match clear.idiom {
            ClearIdiom::ModifyStatus => registers.status = Status::empty(),
            _ => match clear.flag {
                StatusFlag::Eop => registers.status.eop = false,
                StatusFlag::Wrperr => registers.status.wrperr = false,
                StatusFlag::Progerr => registers.status.progerr = false,
                StatusFlag::Pgserr => registers.status.pgserr = false,
                StatusFlag::Operr => registers.status.operr = false,
                other => panic!("unexpected clear of {:?}", other),
            },
        }
    }

    fn store(&mut self, address: usize, word: u32) {
        let enabled: Vec<Bank> = [Bank::B1, Bank::B2]
            .into_iter()
            .filter(|bank| {
                !self.sets[slot(*bank)].locked && self.sets[slot(*bank)].has(ControlBit::Program)
            })
            .collect();
        let blank: bool = (0..4).all(|i| self.byte(address + i) == 0xFF);
        if enabled.is_empty() || !blank {
            return;
        }
        for (i, byte) in word.to_le_bytes().into_iter().enumerate() {
            self.memory.insert(address + i, byte);
        }
        for bank in enabled {
            self.begin_operation(bank);
        }
    }

    fn perform(&mut self, request: Request) -> Reply {
        self.log.push(request);
        match request {
            Request::ReadLock(set) => Reply::Lock(self.sets[slot(set)].locked),
            Request::ReadStatus(set) => {
                let registers = &mut self.sets[slot(set)];
                let mut status: Status = registers.status;
                status.bsy = registers.busy > 0;
                status.qw = registers.busy > 0;
                if registers.busy > 0 {
                    registers.busy -= 1;
                }
                Reply::Status(status)
            }
            Request::WriteKey(set, value) => {
                self.key(set, value);
                Reply::Done
            }
            Request::Control(set, op) => {
                self.control(set, op);
                Reply::Done
            }
            Request::WriteAddress(set, value) => {
                if !self.sets[slot(set)].locked {
                    self.sets[slot(set)].address = value;
                }
                Reply::Done
            }
            Request::ClearFlag(set, clear) => {
                self.clear(set, clear);
                Reply::Done
            }
            Request::Store { address, word } => {
                self.store(address, word);
                Reply::Done
            }
            Request::Load { address } => Reply::Word(u32::from_le_bytes([
                self.byte(address),
                self.byte(address + 1),
                self.byte(address + 2),
                self.byte(address + 3),
            ])),
            Request::Finished(_) => Reply::Done,
        }
    }

    /// Makes the accesses that the driver asks for until the operation has
    /// ended.
    fn run(&mut self, flash: &mut Flash, first: Request) -> Result<(), Error> {
        let mut request: Request = first;
        for _ in 0..1_000_000 {
            if let Request::Finished(result) = request {
                return result;
            }
            let reply: Reply = self.perform(request);
            request = flash.advance(reply);
        }
        panic!("the operation did not end");
    }
}

const FAMILIES: [Family; 9] = [
    Family::F3,
    Family::F4,
    Family::G0,
    Family::G4,
    Family::G4DualBank,
    Family::L4,
    Family::Wl,
    Family::H7,
    Family::H747,
];

fn pair(family: Family, mode: DualBank) -> (Flash, Device) {
    let profile = Profile::new(family);
    let mut flash = Flash::new(profile);
    flash.dual_bank = mode;
    (flash, Device::new(profile, mode))
}

fn read_back(flash: &mut Flash, device: &mut Device, page: usize, length: usize, bank: Bank) -> Vec<u8> {
    let first: Request = flash.read_to_buffer(page, 0, length, bank);
    assert_eq!(device.run(flash, first), Ok(()));
    flash.data().clone()
}

#[test]
fn scenario_erase_write_read_page_three() {
    let (mut flash, mut device) = pair(Family::L4, DualBank::Single);
    let first: Request = flash.erase_page(3, Bank::B1);
    assert_eq!(device.run(&mut flash, first), Ok(()));
    let first: Request = flash.write_page(3, Bank::B1, &[0xAA; 16]);
    assert_eq!(device.run(&mut flash, first), Ok(()));
    let stores: Vec<usize> = device
        .log
        .iter()
        .filter_map(|request| match request {
            Request::Store { address, .. } => Some(*address),
            _ => None,
        })
        .collect();
    assert_eq!(stores, vec![0x0800_1800, 0x0800_1804, 0x0800_1808, 0x0800_180C]);
    let mut buf: [u8; 16] = [0; 16];
    let first: Request = flash.read_to_buffer(3, 0, buf.len(), Bank::B1);
    assert_eq!(first, Request::Load { address: 0x0800_1800 });
    assert_eq!(device.run(&mut flash, first), Ok(()));
    buf.copy_from_slice(flash.data());
    assert_eq!(buf, [0xAA; 16]);
    assert!(device.sets[0].locked);
}

#[test]
fn round_trip_on_every_family() {
    for family in FAMILIES {
        for mode in [DualBank::Dual, DualBank::Single] {
            for bank in [Bank::B1, Bank::B2] {
                let (mut flash, mut device) = pair(family, mode);
                let page: usize = 5;
                let data: Vec<u8> = (0..64u32).map(|i| (i * 7 + 1) as u8).collect();
                let first: Request = flash.erase_page(page, bank);
                assert_eq!(device.run(&mut flash, first), Ok(()));
                let first: Request = flash.write_page(page, bank, &data);
                assert_eq!(device.run(&mut flash, first), Ok(()));
                assert_eq!(read_back(&mut flash, &mut device, page, data.len(), bank), data);
                let set: usize = slot(family.registers(bank));
                assert!(device.sets[set].locked);
                assert!(device.sets[set].control.is_empty());
                assert_eq!(device.sets[set].busy, 0);
            }
        }
    }
}

#[test]
fn writing_without_erasing_stores_nothing() {
    let (mut flash, mut device) = pair(Family::G4, DualBank::Single);
    let first: Request = flash.write_page(2, Bank::B1, &[0x55; 8]);
    assert_eq!(device.run(&mut flash, first), Ok(()));
    assert_eq!(read_back(&mut flash, &mut device, 2, 8, Bank::B1), vec![0x00; 8]);
}

#[test]
fn erase_write_page_round_trip() {
    let (mut flash, mut device) = pair(Family::G4DualBank, DualBank::Dual);
    let data: Vec<u8> = (0..32u8).collect();
    let first: Request = flash.erase_write_page(9, Bank::B2, &data);
    assert_eq!(device.run(&mut flash, first), Ok(()));
    assert_eq!(read_back(&mut flash, &mut device, 9, 32, Bank::B2), data);
    assert_eq!(device.byte(0x0804_0000 + 9 * 2048), 0);
    assert_eq!(device.byte(0x0804_0000 + 9 * 2048 + 32), 0xFF);
    assert_eq!(device.byte(0x0804_0000 + 10 * 2048 - 1), 0xFF);
    assert_eq!(device.byte(0x0804_0000 + 10 * 2048), 0x00);
    assert_eq!(device.byte(0x0800_0000 + 9 * 2048), 0x00);
    assert!(device.sets[0].locked);
}

#[test]
fn erase_write_page_stops_after_a_failed_erase() {
    let (mut flash, mut device) = pair(Family::L4, DualBank::Single);
    device.sets[0].busy = 2;
    let first: Request = flash.erase_write_page(1, Bank::B1, &[1; 8]);
    assert_eq!(device.run(&mut flash, first), Err(Error::Busy));
    assert!(device.log.iter().all(|request| !matches!(request, Request::Store { .. })));
    assert!(device
        .log
        .iter()
        .all(|request| !matches!(request, Request::Control(_, ControlOp::SetBit(ControlBit::Start)))));
    assert!(device.sets[0].locked);
}

#[test]
fn trailing_bytes_are_not_written() {
    let (mut flash, mut device) = pair(Family::L4, DualBank::Single);
    let first: Request = flash.erase_page(0, Bank::B1);
    assert_eq!(device.run(&mut flash, first), Ok(()));
    let first: Request = flash.write_page(0, Bank::B1, &[0x11; 13]);
    assert_eq!(device.run(&mut flash, first), Ok(()));
    let mut expected: Vec<u8> = vec![0x11; 8];
    expected.extend([0xFF; 8]);
    assert_eq!(read_back(&mut flash, &mut device, 0, 16, Bank::B1), expected);
}

#[test]
fn erase_bank_clears_every_unit() {
    for family in FAMILIES {
        for mode in [DualBank::Dual, DualBank::Single] {
            for bank in [Bank::B1, Bank::B2] {
                let (mut flash, mut device) = pair(family, mode);
                let first: Request = flash.erase_bank(bank);
                assert_eq!(device.run(&mut flash, first), Ok(()));
                let size: usize = device.unit_bytes();
                for index in 0..device.profile.units {
                    let start: usize = device.profile.address(index, mode, bank);
                    assert_eq!(device.byte(start), 0xFF);
                    assert_eq!(device.byte(start + size / 2), 0xFF);
                    assert_eq!(device.byte(start + size - 1), 0xFF);
                }
                let start: usize = device.profile.address(0, mode, bank);
                assert_eq!(device.byte(start - 1), 0x00);
                assert_eq!(device.byte(start + device.profile.units * size), 0x00);
                let set: usize = slot(family.registers(bank));
                assert!(device.sets[set].locked);
                assert!(device.sets[set].control.is_empty());
            }
        }
    }
}

#[test]
fn erase_bank_in_dual_mode_leaves_the_other_bank() {
    let (mut flash, mut device) = pair(Family::G4DualBank, DualBank::Dual);
    let first: Request = flash.erase_bank(Bank::B2);
    assert_eq!(device.run(&mut flash, first), Ok(()));
    assert_eq!(device.byte(0x0804_0000), 0xFF);
    assert_eq!(device.byte(0x0807_FFFF), 0xFF);
    assert_eq!(device.byte(0x0800_0000), 0x00);
    assert_eq!(device.byte(0x0803_FFFF), 0x00);
    let (mut flash, mut device) = pair(Family::H7, DualBank::Single);
    let first: Request = flash.erase_bank(Bank::B1);
    assert_eq!(device.run(&mut flash, first), Ok(()));
    assert_eq!(device.byte(0x0800_0000), 0xFF);
    assert_eq!(device.byte(0x080F_FFFF), 0xFF);
    assert_eq!(device.byte(0x0810_0000), 0x00);
    assert!(!device.log.iter().any(|request| matches!(request, Request::ReadStatus(Bank::B2))));
}

#[test]
fn erase_page_erases_one_unit_only() {
    let (mut flash, mut device) = pair(Family::H7, DualBank::Single);
    let first: Request = flash.erase_sector(2, Bank::B2);
    assert_eq!(device.run(&mut flash, first), Ok(()));
    assert_eq!(device.byte(0x0814_0000 - 1), 0x00);
    assert_eq!(device.byte(0x0814_0000), 0xFF);
    assert_eq!(device.byte(0x0816_0000 - 1), 0xFF);
    assert_eq!(device.byte(0x0816_0000), 0x00);
    assert_eq!(device.byte(0x0804_0000), 0x00);
    assert!(device.sets[1].locked);
    assert!(device.sets[0].locked);
}

#[test]
fn busy_controller_gives_busy_and_stays_locked() {
    let data: [u8; 32] = [3; 32];
    for family in FAMILIES {
        for kind in 0..5 {
            let (mut flash, mut device) = pair(family, DualBank::Dual);
            device.sets[0].busy = 4;
            device.sets[1].busy = 4;
            let first: Request = match kind {
                0 => flash.erase_page(1, Bank::B2),
                1 => flash.erase_sector(1, Bank::B2),
                2 => flash.erase_bank(Bank::B2),
                3 => flash.write_page(1, Bank::B2, &data),
                _ => flash.erase_write_page(1, Bank::B2, &data),
            };
            assert_eq!(device.run(&mut flash, first), Err(Error::Busy));
            let set: usize = slot(family.registers(Bank::B2));
            assert!(device.sets[set].locked);
            assert!(device.memory.is_empty());
        }
    }
}

#[test]
fn unlock_is_idempotent_on_the_device() {
    let (mut flash, mut device) = pair(Family::L4, DualBank::Single);
    let first: Request = flash.unlock();
    assert_eq!(device.run(&mut flash, first), Ok(()));
    assert!(!device.sets[0].locked);
    let writes: usize = device.log.len();
    let first: Request = flash.unlock();
    assert_eq!(device.run(&mut flash, first), Ok(()));
    assert!(!device.sets[0].locked);
    assert_eq!(device.log.len(), writes + 1);
    assert_eq!(device.log[writes], Request::ReadLock(Bank::B1));
    let first: Request = flash.lock();
    assert_eq!(device.run(&mut flash, first), Ok(()));
    assert!(device.sets[0].locked);
}

#[test]
fn spoilt_key_sequence_gives_failure() {
    let (mut flash, mut device) = pair(Family::L4, DualBank::Single);
    device.sets[0].keys = Keys::Jammed;
    let first: Request = flash.unlock();
    assert_eq!(device.run(&mut flash, first), Err(Error::Failure));
    assert!(device.sets[0].locked);
    let first: Request = flash.erase_page(0, Bank::B1);
    assert_eq!(device.run(&mut flash, first), Err(Error::Failure));
    assert!(device.memory.is_empty());
}

#[test]
fn stale_errors_are_cleared_before_the_erase() {
    let (mut flash, mut device) = pair(Family::L4, DualBank::Single);
    device.sets[0].status.wrperr = true;
    device.sets[0].status.operr = true;
    let first: Request = flash.erase_page(0, Bank::B1);
    assert_eq!(device.run(&mut flash, first), Ok(()));
    let start: usize = device
        .log
        .iter()
        .position(|request| matches!(request, Request::Control(_, ControlOp::SetBit(ControlBit::Start))))
        .unwrap();
    let clears: Vec<usize> = device
        .log
        .iter()
        .enumerate()
        .filter(|(_, request)| matches!(request, Request::ClearFlag(..)))
        .map(|(at, _)| at)
        .collect();
    assert_eq!(clears.len(), 2);
    assert!(clears.iter().all(|at| *at < start));
    assert!(!device.sets[0].status.wrperr);
    assert!(!device.sets[0].status.operr);
}

#[test]
fn read_cell_from_the_device() {
    let (mut flash, mut device) = pair(Family::L4, DualBank::Single);
    let first: Request = flash.erase_page(1, Bank::B1);
    assert_eq!(device.run(&mut flash, first), Ok(()));
    let data: Vec<u8> = (1..=16u8).collect();
    let first: Request = flash.write_page(1, Bank::B1, &data);
    assert_eq!(device.run(&mut flash, first), Ok(()));
    let first: Request = flash.read(1, Bank::B1, 1);
    assert_eq!(first, Request::Load { address: 0x0800_0808 });
    assert_eq!(device.run(&mut flash, first), Ok(()));
    assert_eq!(flash.cell(), Some(0x100F_0E0D_0C0B_0A09));
    let first: Request = flash.read(1, Bank::B1, 0);
    assert_eq!(device.run(&mut flash, first), Ok(()));
    assert_eq!(flash.cell(), Some(0x0807_0605_0403_0201));
}
