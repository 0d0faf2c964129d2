use crate::bank::{Bank, DualBank};
use crate::profile::{address_limit, Family, Layout, Profile};
use vstd::arithmetic::div_mod::{
    lemma_add_mod_noop_right, lemma_mod_sub_multiples_vanish, lemma_mul_mod_noop_right,
    lemma_small_mod,
};
use vstd::prelude::*;

verus! {

/// Address arithmetic wraps at the width of an address.
pub open spec fn wrapped(x: int) -> int {
    x % (usize::MAX + 1)
}

/// Address of the start of page `page` on a paged variant.
pub open spec fn page_address(profile: Profile, page: usize, mode: DualBank, bank: Bank) -> int {
    if profile.family.layout() == Layout::Switchable {
        match mode {
            DualBank::Single => wrapped(profile.base + page * (2 * profile.unit_size)),
            DualBank::Dual => match bank {
                Bank::B1 => wrapped(profile.base + page * profile.unit_size),
                Bank::B2 => wrapped(profile.bank2_base + page * profile.unit_size),
            },
        }
    } else {
        wrapped(profile.base + page * profile.unit_size)
    }
}

/// Address of the start of sector `sector` on a sectored variant.
pub open spec fn sector_address(profile: Profile, sector: usize, bank: Bank) -> int {
    if profile.family.banked_registers() && bank == Bank::B2 {
        wrapped(profile.bank2_base + sector * profile.unit_size)
    } else {
        wrapped(profile.base + sector * profile.unit_size)
    }
}

impl Profile {
    /// Address of the start of the erase unit `index` of `bank`.
    pub open spec fn unit_address(self, index: usize, mode: DualBank, bank: Bank) -> int {
        wrapped(self.bank_start(mode, bank) + index * self.unit_bytes(mode))
    }

    /// Whether `index` names an erase unit of a bank.
    pub open spec fn valid_index(self, index: usize) -> bool {
        index < self.units
    }
}

/// The address `index * size` bytes after `start`, wrapped to the width of
/// an address.
pub fn scaled_offset(start: usize, index: usize, size: usize) -> (address: usize)
    ensures
        address == wrapped(start + index * size),
{
    let modulus: Ghost<int> = Ghost(usize::MAX + 1);
    let product: usize = index.wrapping_mul(size);
    let address: usize = start.wrapping_add(product);
    proof {
        assert(product == (index * size) % modulus@) by {
            assert(index as nat * size as nat == index * size) by (nonlinear_arith);
        }
        assert(address == (start + product) % modulus@) by {
            if start + product > usize::MAX {
                lemma_mod_sub_multiples_vanish(start + product, modulus@);
                lemma_small_mod((start + product - modulus@) as nat, modulus@ as nat);
            } else {
                lemma_small_mod((start + product) as nat, modulus@ as nat);
            }
        }
        lemma_add_mod_noop_right(start as int, index * size, modulus@);
    }
    address
}

/// `start + index * size`, or twice the size where `double` is set, wrapped
/// to the width of an address.
fn offset_address(start: usize, index: usize, size: usize, double: bool) -> (address: usize)
    ensures
        address == wrapped(
            start + index * (if double {
                2 * size
            } else {
                size as int
            }),
        ),
{
    if double {
        let twice: usize = size.wrapping_mul(2);
        let address: usize = scaled_offset(start, index, twice);
        proof {
            let modulus: int = usize::MAX + 1;
            assert(twice == (2 * size) % modulus) by {
                assert(size as nat * 2 == 2 * size) by (nonlinear_arith);
            }
            lemma_mul_mod_noop_right(index as int, 2 * size, modulus);
            lemma_add_mod_noop_right(start as int, index * twice, modulus);
            lemma_add_mod_noop_right(start as int, index * (2 * size), modulus);
        }
        address
    } else {
        scaled_offset(start, index, size)
    }
}

/// The address `bytes` after `start`, wrapped to the width of an address.
pub fn wrapping_offset(start: usize, bytes: usize) -> (address: usize)
    ensures
        address == wrapped(start + bytes),
{
    let address: usize = start.wrapping_add(bytes);
    proof {
        let modulus: int = usize::MAX + 1;
        if start + bytes > usize::MAX {
            lemma_mod_sub_multiples_vanish(start + bytes, modulus);
            lemma_small_mod((start + bytes - modulus) as nat, modulus as nat);
        } else {
            lemma_small_mod((start + bytes) as nat, modulus as nat);
        }
    }
    address
}

/// Calculates the address of the start of a page of a paged variant. A
/// switchable variant in single-bank mode has pages of twice the size and
/// ignores the bank; in dual-bank mode each bank has a start of its own.
/// Any other variant is one linear run of pages.
pub fn page_to_address(profile: &Profile, page: usize, dual_bank: DualBank, bank: Bank) -> (address:
    usize)
    ensures
        address == page_address(*profile, page, dual_bank, bank),
{
    match profile.family.unit_layout() {
        Layout::Switchable => match dual_bank {
            DualBank::Single => offset_address(profile.base, page, profile.unit_size, true),
            DualBank::Dual => match bank {
                Bank::B1 => offset_address(profile.base, page, profile.unit_size, false),
                Bank::B2 => offset_address(profile.bank2_base, page, profile.unit_size, false),
            },
        },
        _ => offset_address(profile.base, page, profile.unit_size, false),
    }
}

/// Calculates the address of the start of a sector of a sectored variant.
/// The second bank starts at an address of its own where it can be reached.
pub fn sector_to_address(profile: &Profile, sector: usize, bank: Bank) -> (address: usize)
    ensures
        address == sector_address(*profile, sector, bank),
{
    let start: usize = match (profile.family, bank) {
        (Family::H7, Bank::B2) => profile.bank2_base,
        _ => profile.base,
    };
    offset_address(start, sector, profile.unit_size, false)
}

impl Profile {
    /// Maps a bank and the index of an erase unit to the unit's address.
    /// Never fails: an index outside the bank gives an address that means
    /// nothing.
    pub fn address(&self, index: usize, dual_bank: DualBank, bank: Bank) -> (address: usize)
        ensures
            address == self.unit_address(index, dual_bank, bank),
    {
        match self.family.unit_layout() {
            Layout::Sectored => sector_to_address(self, index, bank),
            _ => page_to_address(self, index, dual_bank, bank),
        }
    }
}

/// Inside a bank nothing wraps: the address of a valid index is the bank's
/// start plus the index times the unit size, and lies in the memory map
/// together with the whole unit.
pub proof fn lemma_unit_address_exact(profile: Profile, index: usize, mode: DualBank, bank: Bank)
    requires
        profile.wf(),
        profile.valid_index(index),
    ensures
        profile.unit_address(index, mode, bank) == profile.bank_start(mode, bank) + index
            * profile.unit_bytes(mode),
        profile.unit_address(index, mode, bank) + profile.unit_bytes(mode) <= address_limit(),
        address_limit() <= usize::MAX + 1,
{
    let size = profile.unit_bytes(mode);
    let exact = profile.bank_start(mode, bank) + index * size;
    assert((index + 1) * size <= profile.units * size) by (nonlinear_arith)
        requires
            index + 1 <= profile.units,
            0 <= size,
    ;
    assert((index + 1) * size == index * size + size) by (nonlinear_arith);
    assert(0 <= index * size) by (nonlinear_arith)
        requires
            0 <= size,
    ;
    assert(profile.units * (2 * profile.unit_size) == 2 * (profile.units * profile.unit_size))
        by (nonlinear_arith);
    assert(exact + size <= address_limit());
    lemma_small_mod(exact as nat, (usize::MAX + 1) as nat);
}

/// No two distinct valid indices of a bank map to the same address.
pub proof fn law_address_injective(
    profile: Profile,
    mode: DualBank,
    bank: Bank,
    first: usize,
    second: usize,
)
    requires
        profile.wf(),
        profile.valid_index(first),
        profile.valid_index(second),
        first != second,
    ensures
        profile.unit_address(first, mode, bank) != profile.unit_address(second, mode, bank),
{
    lemma_unit_address_exact(profile, first, mode, bank);
    lemma_unit_address_exact(profile, second, mode, bank);
    let size = profile.unit_bytes(mode);
    assert(first * size != second * size) by (nonlinear_arith)
        requires
            first != second,
            0 < size,
    ;
}

/// In dual-bank mode, wherever the bank picks a region, a unit of the first
/// bank and a unit of the second bank share no byte.
pub proof fn law_banks_disjoint(profile: Profile, first: usize, second: usize)
    requires
        profile.wf(),
        profile.family.banked(DualBank::Dual),
        profile.valid_index(first),
        profile.valid_index(second),
    ensures
        profile.unit_address(first, DualBank::Dual, Bank::B1) + profile.unit_bytes(DualBank::Dual)
            <= profile.unit_address(second, DualBank::Dual, Bank::B2),
{
    lemma_unit_address_exact(profile, first, DualBank::Dual, Bank::B1);
    lemma_unit_address_exact(profile, second, DualBank::Dual, Bank::B2);
    let size = profile.unit_bytes(DualBank::Dual);
    assert((first + 1) * size <= profile.units * size) by (nonlinear_arith)
        requires
            first + 1 <= profile.units,
            0 <= size,
    ;
    assert((first + 1) * size == first * size + size) by (nonlinear_arith);
    assert(0 <= second * size) by (nonlinear_arith)
        requires
            0 <= size,
    ;
}

/// In single-bank mode a switchable variant has units of twice the size,
/// and the bank does not enter into the address.
pub proof fn law_single_mode_merges(profile: Profile, index: usize, bank: Bank)
    requires
        profile.family.layout() == Layout::Switchable,
    ensures
        profile.unit_bytes(DualBank::Single) == 2 * profile.unit_bytes(DualBank::Dual),
        profile.unit_address(index, DualBank::Single, bank) == profile.unit_address(
            index,
            DualBank::Single,
            Bank::B1,
        ),
{
}

} // verus!
