use crate::address::{lemma_unit_address_exact, wrapped};
use crate::bank::Bank;
use crate::device::{erased, Device};
use crate::error::Error;
use crate::flash::{read_steps, write_steps};
use crate::compose::law_sequence;
use crate::laws::{at_rest, law_erase_unit, ready};
use crate::machine::Machine;
use crate::profile::Family;
use crate::program::{blank, law_program, other, whole_chunks};
use crate::run::{lemma_run_zero, run, step_load};
use crate::script::{erase_unit_steps, load_steps};
use vstd::arithmetic::div_mod::lemma_small_mod;
use vstd::prelude::*;

verus! {

/// The `length` bytes of memory from `start` on.
pub open spec fn contents(device: Device, start: int, length: int) -> Seq<u8> {
    Seq::new(length as nat, |i: int| (device.memory)(start + i))
}

/// The loads from the word `place` on take one access each and append the
/// words of memory to the data, one after the other.
proof fn lemma_loads(
    begin: Machine,
    origin: Device,
    fuel: nat,
    machine: Machine,
    start: usize,
    count: nat,
    place: int,
)
    requires
        run(begin, origin, fuel) == (machine, origin),
        machine.wf(),
        machine.stage is Entry,
        machine.script == load_steps(start, count),
        0 <= place <= count,
        machine.pc == place,
        start + 4 * count <= usize::MAX + 1,
        machine.data == contents(origin, start as int, 4 * place),
    ensures
        run(begin, origin, (fuel + count - place) as nat) == (
            Machine {
                pc: count as int,
                data: contents(origin, start as int, 4 * (count as int)),
                ..machine
            },
            origin,
        ),
    decreases count - place,
{
    if place < count {
        let address = wrapped(start + 4 * place) as usize;
        lemma_small_mod((start + 4 * place) as nat, (usize::MAX + 1) as nat);
        step_load(begin, origin, fuel, machine, origin, address);
        let (m1, d1) = run(begin, origin, fuel + 1);
        assert(machine.data + origin.bytes_at(address as int) =~= contents(
            origin,
            start as int,
            4 * (place + 1),
        ));
        lemma_loads(begin, origin, fuel + 1, m1, start, count, place + 1);
    }
}

/// Reading ends with `Ok`, after one load for each word, with the bytes
/// of memory from the start address on as its data. It changes nothing.
pub proof fn law_load(family: Family, device: Device, start: usize, count: nat)
    requires
        start + 4 * count <= usize::MAX + 1,
    ensures
        ({
            let (machine, after) = run(
                Machine::begin(family, Bank::B1, load_steps(start, count)),
                device,
                count,
            );
            &&& machine.finished()
            &&& machine.outcome == Ok::<(), Error>(())
            &&& machine.data == contents(device, start as int, 4 * (count as int))
            &&& after == device
        }),
{
    let begin = Machine::begin(family, Bank::B1, load_steps(start, count));
    lemma_run_zero(begin, device);
    assert(begin.data =~= contents(device, start as int, 0));
    lemma_loads(begin, device, 0, begin, start, count, 0);
}

/// Round trip: on a ready register set, the erase of a valid unit, the
/// programming of `data` at its start, and the reading of as many bytes
/// from its start end with `Ok` each, and the data that was read is
/// `data`. This holds of data that is made of whole chunks of the
/// variant's programming width and is no longer than the unit.
pub proof fn law_round_trip(device: Device, index: usize, bank: Bank, data: Seq<u8>) -> (fuel: (
    nat,
    nat,
    nat,
))
    requires
        device.profile.wf(),
        device.profile.valid_index(index),
        ready(device, device.profile.family.register_set(bank)),
        !device.set(other(device.profile.family.register_set(bank))).programming(),
        data.len() % device.profile.family.chunk_bytes() as nat == 0,
        data.len() <= device.profile.unit_bytes(device.mode),
        data.len() <= usize::MAX,
    ensures
        ({
            let profile = device.profile;
            let family = profile.family;
            let set = family.register_set(bank);
            let (erase, erased) = run(
                Machine::begin(family, set, erase_unit_steps(family, device.mode, index, bank)),
                device,
                fuel.0,
            );
            let (write, written) = run(
                Machine::begin(family, set, write_steps(profile, device.mode, index, bank, data)),
                erased,
                fuel.1,
            );
            let (read, after) = run(
                Machine::begin(
                    family,
                    Bank::B1,
                    read_steps(profile, device.mode, index, 0, data.len() as usize, bank),
                ),
                written,
                fuel.2,
            );
            &&& erase.finished() && erase.outcome == Ok::<(), Error>(())
            &&& write.finished() && write.outcome == Ok::<(), Error>(())
            &&& read.finished() && read.outcome == Ok::<(), Error>(())
            &&& read.data == data
        }),
{
    let profile = device.profile;
    let family = profile.family;
    let mode = device.mode;
    let set = family.register_set(bank);
    let width = family.chunk_bytes();
    let length = data.len() as int;
    lemma_unit_address_exact(profile, index, mode, bank);
    let start = profile.unit_address(index, mode, bank) as usize;
    assert(start == profile.bank_start(mode, bank) + index * profile.unit_bytes(mode));
    assert(whole_chunks(family, data) == length) by {
        assert(length / width * width == length) by (nonlinear_arith)
            requires
                length % width == 0,
                0 < width,
        ;
    }
    assert(length / 4 * 4 == length) by {
        assert(width % 4 == 0 && length % width == 0 && 0 < width ==> length % 4 == 0)
            by (nonlinear_arith)
            requires
                width == 8 || width == 32,
        ;
    }
    let n1 = law_erase_unit(device, index, bank);
    let (erase, blanked) = run(
        Machine::begin(family, set, erase_unit_steps(family, mode, index, bank)),
        device,
        n1,
    );
    assert(blank(blanked.memory, start as int, length)) by {
        assert forall|address: int| start <= address < start + length implies #[trigger]
            (blanked.memory)(address) == erased() by {
            assert(device.in_unit(bank, index as int, address));
        }
    }
    let n2 = law_program(blanked, set, start, data);
    let (write, written) = run(
        Machine::begin(family, set, write_steps(profile, mode, index, bank, data)),
        blanked,
        n2,
    );
    lemma_small_mod(start as nat, (usize::MAX + 1) as nat);
    assert(wrapped(start + 0usize / 4 * 4) as usize == start);
    assert(length <= usize::MAX);
    let count = (data.len() as usize / 4) as nat;
    assert(count * 4 == length);
    law_load(family, written, start, count);
    assert(contents(written, start as int, length) =~= data);
    (n1, n2, count)
}

/// The erase of a valid unit and the programming of `data` at its start,
/// as one operation on a ready register set, end with `Ok`; the unit
/// holds `data` at its start, and the register set is left locked. This
/// holds of data that is made of whole chunks of the variant's programming
/// width and is no longer than the unit.
pub proof fn law_erase_write(device: Device, index: usize, bank: Bank, data: Seq<u8>) -> (fuel: nat)
    requires
        device.profile.wf(),
        device.profile.valid_index(index),
        ready(device, device.profile.family.register_set(bank)),
        !device.set(other(device.profile.family.register_set(bank))).programming(),
        data.len() % device.profile.family.chunk_bytes() as nat == 0,
        data.len() <= device.profile.unit_bytes(device.mode),
    ensures
        ({
            let profile = device.profile;
            let family = profile.family;
            let set = family.register_set(bank);
            let (machine, after) = run(
                Machine::begin(
                    family,
                    set,
                    erase_unit_steps(family, device.mode, index, bank) + write_steps(
                        profile,
                        device.mode,
                        index,
                        bank,
                        data,
                    ),
                ),
                device,
                fuel,
            );
            &&& machine.finished()
            &&& machine.outcome == Ok::<(), Error>(())
            &&& contents(
                after,
                profile.unit_address(index, device.mode, bank),
                data.len() as int,
            ) == data
            &&& at_rest(after, set)
        }),
{
    let profile = device.profile;
    let family = profile.family;
    let mode = device.mode;
    let set = family.register_set(bank);
    let width = family.chunk_bytes();
    let length = data.len() as int;
    lemma_unit_address_exact(profile, index, mode, bank);
    let start = profile.unit_address(index, mode, bank) as usize;
    assert(whole_chunks(family, data) == length) by {
        assert(length / width * width == length) by (nonlinear_arith)
            requires
                length % width == 0,
                0 < width,
        ;
    }
    let first = erase_unit_steps(family, mode, index, bank);
    let second = write_steps(profile, mode, index, bank, data);
    let n1 = law_erase_unit(device, index, bank);
    let blanked = run(Machine::begin(family, set, first), device, n1).1;
    assert(blank(blanked.memory, start as int, length)) by {
        assert forall|address: int| start <= address < start + length implies #[trigger]
            (blanked.memory)(address) == erased() by {
            assert(device.in_unit(bank, index as int, address));
        }
    }
    let n2 = law_program(blanked, set, start, data);
    let total = law_sequence(family, set, first, second, device, (n1, n2));
    let after = run(Machine::begin(family, set, first + second), device, total).1;
    assert(contents(after, start as int, length) =~= data);
    total
}

} // verus!
