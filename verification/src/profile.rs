use crate::bank::{Bank, DualBank};
use vstd::prelude::*;

verus! {

/// Start of main flash memory, and of its first bank.
pub const FLASH_BASE: usize = 0x0800_0000;

/// Size of a page on the paged variants.
pub const PAGE_SIZE: usize = 2048;

/// Size of a sector on the sectored variants.
pub const SECTOR_SIZE: usize = 0x2_0000;

/// Start of the second bank of a switchable variant in dual-bank mode.
pub const SWITCHABLE_BANK2_BASE: usize = 0x0804_0000;

/// Start of the second bank of a sectored variant.
pub const SECTORED_BANK2_BASE: usize = 0x0810_0000;

/// One past the highest address of the memory map.
pub open spec fn address_limit() -> int {
    0x1_0000_0000
}

/// The silicon variants whose register protocols differ.
#[derive(Clone, Copy, PartialEq, Eq, Debug, Structural)]
pub enum Family {
    F3,
    F4,
    G0,
    G4,
    /// The G4 devices whose two banks can be merged by an option bit.
    G4DualBank,
    L4,
    Wl,
    H7,
    /// The H7 devices on which a core sees the first bank only.
    H747,
}

/// How a variant lays its erase units out in memory.
#[derive(Clone, Copy, PartialEq, Eq, Debug, Structural)]
pub enum Layout {
    /// One linear run of pages.
    Linear,
    /// Two banks of pages that an option bit merges into one run of pages
    /// of twice the size.
    Switchable,
    /// Large sectors, each bank at a start address of its own.
    Sectored,
}

impl Family {
    pub open spec fn layout(self) -> Layout {
        match self {
            Family::G4DualBank => Layout::Switchable,
            Family::H7 | Family::H747 => Layout::Sectored,
            _ => Layout::Linear,
        }
    }

    /// Whether each bank has a register set of its own.
    pub open spec fn banked_registers(self) -> bool {
        self == Family::H7
    }

    /// Whether the bank picks the region of memory that an index refers to.
    pub open spec fn banked(self, mode: DualBank) -> bool {
        self == Family::H7 || (self == Family::G4DualBank && mode == DualBank::Dual)
    }

    /// Bytes taken by one programming step.
    pub open spec fn chunk_bytes(self) -> int {
        if self.layout() == Layout::Sectored {
            32
        } else {
            8
        }
    }

    /// The layout of the variant's erase units.
    pub fn unit_layout(self) -> (layout: Layout)
        ensures
            layout == self.layout(),
    {
        match self {
            Family::G4DualBank => Layout::Switchable,
            Family::H7 | Family::H747 => Layout::Sectored,
            _ => Layout::Linear,
        }
    }

    /// Number of bytes that one programming step writes: a double word, or
    /// a flash word of 256 bits on the sectored variants.
    pub fn program_width(self) -> (bytes: usize)
        ensures
            bytes == self.chunk_bytes(),
    {
        match self {
            Family::H7 | Family::H747 => 32,
            _ => 8,
        }
    }

    /// The register set that an operation on `bank` addresses.
    pub open spec fn register_set(self, bank: Bank) -> Bank {
        if self.banked_registers() {
            bank
        } else {
            Bank::B1
        }
    }

    /// The register set that an operation on `bank` addresses: the bank's
    /// own where each bank has one, the only one elsewhere.
    pub fn registers(self, bank: Bank) -> (set: Bank)
        ensures
            set == self.register_set(bank),
    {
        match self {
            Family::H7 => bank,
            _ => Bank::B1,
        }
    }
}

/// The constants of one variant: its family and its geometry.
#[derive(Clone, Copy, PartialEq, Eq, Debug, Structural)]
pub struct Profile {
    pub family: Family,
    /// Address of the first erase unit of the first bank.
    pub base: usize,
    /// Address of the first erase unit of the second bank, where the bank
    /// picks a region.
    pub bank2_base: usize,
    /// Bytes in a page or sector. In single-bank mode a switchable variant
    /// has pages of twice this size.
    pub unit_size: usize,
    /// Number of erase units in a bank.
    pub units: usize,
}

impl Profile {
    /// The geometry of a typical device of each family.
    pub open spec fn typical(family: Family) -> Profile {
        match family {
            Family::F3 => Profile {
                family,
                base: FLASH_BASE,
                bank2_base: FLASH_BASE,
                unit_size: PAGE_SIZE,
                units: 256,
            },
            Family::F4 => Profile {
                family,
                base: FLASH_BASE,
                bank2_base: FLASH_BASE,
                unit_size: PAGE_SIZE,
                units: 12,
            },
            Family::G0 | Family::G4 => Profile {
                family,
                base: FLASH_BASE,
                bank2_base: FLASH_BASE,
                unit_size: PAGE_SIZE,
                units: 64,
            },
            Family::G4DualBank => Profile {
                family,
                base: FLASH_BASE,
                bank2_base: SWITCHABLE_BANK2_BASE,
                unit_size: PAGE_SIZE,
                units: 128,
            },
            Family::L4 => Profile {
                family,
                base: FLASH_BASE,
                bank2_base: FLASH_BASE,
                unit_size: PAGE_SIZE,
                units: 256,
            },
            Family::Wl => Profile {
                family,
                base: FLASH_BASE,
                bank2_base: FLASH_BASE,
                unit_size: PAGE_SIZE,
                units: 128,
            },
            Family::H7 => Profile {
                family,
                base: FLASH_BASE,
                bank2_base: SECTORED_BANK2_BASE,
                unit_size: SECTOR_SIZE,
                units: 8,
            },
            Family::H747 => Profile {
                family,
                base: FLASH_BASE,
                bank2_base: FLASH_BASE,
                unit_size: SECTOR_SIZE,
                units: 8,
            },
        }
    }

    /// Bytes in one bank.
    pub open spec fn span(self) -> int {
        self.units * self.unit_size
    }

    /// The geometry is consistent: units are not empty, their number fits
    /// the eight bits of the unit-number field, a bank lies inside the
    /// memory map, and two banks that are addressed apart do not overlap.
    pub open spec fn wf(self) -> bool {
        &&& 0 < self.unit_size
        &&& 0 < self.units <= 256
        &&& self.base + self.span() <= address_limit()
        &&& self.family.layout() != Layout::Linear && self.family != Family::H747 ==> {
            &&& self.base + self.span() <= self.bank2_base
            &&& self.bank2_base + self.span() <= address_limit()
        }
    }

    /// Whether the geometry is consistent. A profile that `new` made is; one
    /// that was put together by hand may not be.
    pub fn is_valid(&self) -> (valid: bool)
        ensures
            valid == self.wf(),
    {
        if self.unit_size == 0 || self.units == 0 || self.units > 256 {
            return false;
        }
        assert(self.units * self.unit_size <= 256 * usize::MAX) by (nonlinear_arith)
            requires
                self.units <= 256,
                self.unit_size <= usize::MAX,
        ;
        let span: u128 = self.units as u128 * self.unit_size as u128;
        let limit: u128 = 0x1_0000_0000;
        if self.base as u128 + span > limit {
            return false;
        }
        match self.family {
            Family::G4DualBank | Family::H7 => self.base as u128 + span <= self.bank2_base as u128
                && self.bank2_base as u128 + span <= limit,
            _ => true,
        }
    }

    /// Size of an erase unit under the addressing mode `mode`.
    pub open spec fn unit_bytes(self, mode: DualBank) -> int {
        if self.family.layout() == Layout::Switchable && mode == DualBank::Single {
            2 * self.unit_size
        } else {
            self.unit_size as int
        }
    }

    /// Address of the first unit that `bank` refers to under `mode`.
    pub open spec fn bank_start(self, mode: DualBank, bank: Bank) -> int {
        if self.family.banked(mode) && bank == Bank::B2 {
            self.bank2_base as int
        } else {
            self.base as int
        }
    }

    /// The profile of a typical device of `family`.
    pub fn new(family: Family) -> (profile: Profile)
        ensures
            profile == Profile::typical(family),
            profile.wf(),
    {
        let (bank2_base, unit_size, units): (usize, usize, usize) = match family {
            Family::F3 | Family::L4 => (FLASH_BASE, PAGE_SIZE, 256),
            Family::F4 => (FLASH_BASE, PAGE_SIZE, 12),
            Family::G0 | Family::G4 => (FLASH_BASE, PAGE_SIZE, 64),
            Family::G4DualBank => (SWITCHABLE_BANK2_BASE, PAGE_SIZE, 128),
            Family::Wl => (FLASH_BASE, PAGE_SIZE, 128),
            Family::H7 => (SECTORED_BANK2_BASE, SECTOR_SIZE, 8),
            Family::H747 => (FLASH_BASE, SECTOR_SIZE, 8),
        };
        Profile { family, base: FLASH_BASE, bank2_base, unit_size, units }
    }
}

} // verus!
