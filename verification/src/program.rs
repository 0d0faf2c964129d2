use crate::access::{ClearIdiom, ControlBit, ControlOp, FlagClear};
use crate::address::wrapped;
use crate::bank::Bank;
use crate::device::{erased, Device, Registers};
use crate::error::Error;
use crate::laws::{at_rest, lemma_guard, lemma_relock, ready, same_frame};
use crate::machine::Machine;
use crate::profile::{Family, Layout};
use crate::run::{run, step_await_idle, step_clear_if_set, step_control, step_store};
use crate::script::{
    chunk_steps, chunk_stores, chunk_wait, le_word, lemma_word_bytes, program_steps, word_bytes,
    Step,
};
use crate::status::StatusFlag;
use vstd::arithmetic::div_mod::lemma_small_mod;
use vstd::prelude::*;

verus! {

/// Number of steps that the programming of one chunk takes.
pub open spec fn chunk_length(family: Family) -> int {
    family.chunk_bytes() / 4 + chunk_wait(family).len()
}

/// The programming of `count` chunks takes `count` times the steps of
/// one.
pub proof fn lemma_chunk_steps_len(family: Family, start: usize, data: Seq<u8>, count: nat)
    ensures
        chunk_steps(family, start, data, count).len() == count * chunk_length(family),
    decreases count,
{
    if count > 0 {
        lemma_chunk_steps_len(family, start, data, (count - 1) as nat);
        assert(count * chunk_length(family) == (count - 1) * chunk_length(family) + chunk_length(
            family,
        )) by (nonlinear_arith);
    }
}

/// Where the steps of the chunk `chunk` stand among the steps of `count`
/// chunks, and what they are: a store for each word of the chunk, and
/// after them the wait.
pub proof fn lemma_chunk_steps_index(
    family: Family,
    start: usize,
    data: Seq<u8>,
    count: nat,
    chunk: int,
    place: int,
)
    requires
        0 <= chunk < count,
        0 <= place < chunk_length(family),
    ensures
        chunk_steps(family, start, data, count)[chunk * chunk_length(family) + place] == if place
            < family.chunk_bytes() / 4 {
            Step::Store {
                address: wrapped(start + chunk * family.chunk_bytes() + 4 * place) as usize,
                word: le_word(data, chunk * family.chunk_bytes() + 4 * place),
            }
        } else {
            chunk_wait(family)[place - family.chunk_bytes() / 4]
        },
    decreases count,
{
    let length = chunk_length(family);
    let rest = chunk_steps(family, start, data, (count - 1) as nat);
    lemma_chunk_steps_len(family, start, data, (count - 1) as nat);
    assert(0 <= chunk * length && (chunk + 1) * length <= (count - 1) * length + length && (chunk
        + 1) * length == chunk * length + length) by (nonlinear_arith)
        requires
            0 <= chunk < count,
            0 < length,
    ;
    if chunk < count - 1 {
        lemma_chunk_steps_index(family, start, data, (count - 1) as nat, chunk, place);
        assert((chunk + 1) * length <= (count - 1) * length) by (nonlinear_arith)
            requires
                chunk + 1 <= count - 1,
                0 < length,
        ;
    } else {
        let stores = chunk_stores(family, start, data, (count - 1) * family.chunk_bytes());
        assert(chunk_steps(family, start, data, count) == rest + stores + chunk_wait(family));
    }
}

/// Whether `after` is `before` with the first `length` bytes of `data`
/// at the addresses from `start` on.
pub open spec fn programmed(
    before: spec_fn(int) -> u8,
    after: spec_fn(int) -> u8,
    start: int,
    data: Seq<u8>,
    length: int,
) -> bool {
    forall|address: int| #[trigger]
        after(address) == if start <= address < start + length {
            data[address - start]
        } else {
            before(address)
        }
}

/// Whether `length` bytes from `start` on are erased.
pub open spec fn blank(memory: spec_fn(int) -> u8, start: int, length: int) -> bool {
    forall|address: int| start <= address < start + length ==> #[trigger] memory(address) == erased()
}

/// The register set that `set` is not.
pub open spec fn other(set: Bank) -> Bank {
    match set {
        Bank::B1 => Bank::B2,
        Bank::B2 => Bank::B1,
    }
}

/// What holds while the register set `set` programs `data` from `start`
/// on, after `done` bytes: programming is enabled on `set` and there
/// only, and memory holds the bytes that were stored and is unchanged
/// elsewhere. `enabled` is the device as the enabling of programming left
/// it.
pub open spec fn writing(
    enabled: Device,
    device: Device,
    set: Bank,
    start: int,
    data: Seq<u8>,
    done: int,
) -> bool {
    &&& same_frame(enabled, device, set)
    &&& enabled.set(set).programming()
    &&& !enabled.set(other(set)).programming()
    &&& device.set(set) == Registers {
        status: device.set(set).status,
        busy: device.set(set).busy,
        ..enabled.set(set)
    }
    &&& programmed(enabled.memory, device.memory, start, data, done)
}

/// The stores of one chunk, from its word `place` on, put the words of
/// the chunk into memory.
proof fn lemma_stores(
    begin: Machine,
    origin: Device,
    fuel: nat,
    machine: Machine,
    device: Device,
    enabled: Device,
    start: usize,
    data: Seq<u8>,
    chunk: int,
    place: int,
) -> (total: nat)
    requires
        run(begin, origin, fuel) == (machine, device),
        machine.wf(),
        machine.stage is Entry,
        machine.script == program_steps(machine.family, start, data),
        0 <= chunk < data.len() / machine.family.chunk_bytes() as nat,
        0 <= place <= machine.family.chunk_bytes() / 4,
        machine.pc == 4 + chunk * chunk_length(machine.family) + place,
        start + data.len() / machine.family.chunk_bytes() as nat * machine.family.chunk_bytes()
            <= usize::MAX + 1,
        blank(
            enabled.memory,
            start as int,
            data.len() / machine.family.chunk_bytes() as nat * machine.family.chunk_bytes(),
        ),
        writing(
            enabled,
            device,
            machine.registers,
            start as int,
            data,
            chunk * machine.family.chunk_bytes() + 4 * place,
        ),
    ensures
        ({
            let (next, after) = run(begin, origin, total);
            &&& next == Machine {
                pc: 4 + chunk * chunk_length(machine.family) + machine.family.chunk_bytes() / 4,
                ..machine
            }
            &&& writing(
                enabled,
                after,
                machine.registers,
                start as int,
                data,
                (chunk + 1) * machine.family.chunk_bytes(),
            )
        }),
    decreases machine.family.chunk_bytes() / 4 - place,
{
    let family = machine.family;
    let width = family.chunk_bytes();
    let count = data.len() / width as nat;
    let set = machine.registers;
    assert((chunk + 1) * width == chunk * width + width && (chunk + 1) * width <= count * width
        && 0 <= chunk * width) by (nonlinear_arith)
        requires
            0 <= chunk < count,
            0 < width,
    ;
    assert(count * width <= data.len()) by (nonlinear_arith)
        requires
            count == data.len() / width as nat,
            0 < width,
    ;
    if place < width / 4 {
        let offset = chunk * width + 4 * place;
        let address = wrapped(start + offset) as usize;
        let word = le_word(data, offset);
        lemma_chunk_steps_len(family, start, data, count);
        lemma_chunk_steps_index(family, start, data, count, chunk, place);
        assert(0 <= chunk * chunk_length(family) && (chunk + 1) * chunk_length(family) <= count
            * chunk_length(family) && (chunk + 1) * chunk_length(family) == chunk * chunk_length(
            family,
        ) + chunk_length(family)) by (nonlinear_arith)
            requires
                0 <= chunk < count,
                0 < chunk_length(family),
        ;
        assert(machine.script[machine.pc] == chunk_steps(family, start, data, count)[machine.pc
            - 4]);
        assert(machine.script[machine.pc] == (Step::Store { address, word }));
        lemma_small_mod((start + offset) as nat, (usize::MAX + 1) as nat);
        assert(address == start + offset);
        step_store(begin, origin, fuel, machine, device, address, word);
        let (m1, d1) = run(begin, origin, fuel + 1);
        assert(device.blank_at(address as int)) by {
            assert forall|i: int| 0 <= i < 4 implies #[trigger] (device.memory)(address + i)
                == erased() by {
                assert((device.memory)(address + i) == (enabled.memory)(address + i));
            }
        }
        lemma_word_bytes(word, data, offset);
        assert(d1 == device.store(address as int, word));
        assert(programmed(enabled.memory, d1.memory, start as int, data, offset + 4)) by {
            assert forall|a: int| #[trigger]
                (d1.memory)(a) == if start <= a < start + offset + 4 {
                    data[a - start]
                } else {
                    (enabled.memory)(a)
                } by {
                assert((device.memory)(a) == if start <= a < start + offset {
                    data[a - start]
                } else {
                    (enabled.memory)(a)
                });
                if address <= a < address + 4 {
                    assert(word_bytes(word)[a - address] == data.subrange(offset, offset + 4)[a
                        - address]);
                }
            }
        }
        assert(writing(enabled, d1, set, start as int, data, chunk * width + 4 * (place + 1)));
        lemma_stores(begin, origin, fuel + 1, m1, d1, enabled, start, data, chunk, place + 1)
    } else {
        fuel
    }
}

/// The chunks from `chunk` on are programmed one after the other, each
/// waited for before the next.
proof fn lemma_chunks(
    begin: Machine,
    origin: Device,
    fuel: nat,
    machine: Machine,
    device: Device,
    enabled: Device,
    start: usize,
    data: Seq<u8>,
    chunk: int,
) -> (total: nat)
    requires
        run(begin, origin, fuel) == (machine, device),
        machine.wf(),
        machine.stage is Entry,
        machine.script == program_steps(machine.family, start, data),
        0 <= chunk <= data.len() / machine.family.chunk_bytes() as nat,
        machine.pc == 4 + chunk * chunk_length(machine.family),
        start + whole_chunks(machine.family, data) <= usize::MAX + 1,
        blank(enabled.memory, start as int, whole_chunks(machine.family, data)),
        writing(
            enabled,
            device,
            machine.registers,
            start as int,
            data,
            chunk * machine.family.chunk_bytes(),
        ),
        device.set(machine.registers).busy == 0,
    ensures
        ({
            let (next, after) = run(begin, origin, total);
            &&& next == Machine {
                pc: 4 + (data.len() / machine.family.chunk_bytes() as nat) * chunk_length(
                    machine.family,
                ),
                ..machine
            }
            &&& writing(
                enabled,
                after,
                machine.registers,
                start as int,
                data,
                whole_chunks(machine.family, data),
            )
            &&& after.set(machine.registers).busy == 0
        }),
    decreases data.len() / machine.family.chunk_bytes() as nat - chunk,
{
    let family = machine.family;
    let width = family.chunk_bytes();
    let length = chunk_length(family);
    let count = data.len() / width as nat;
    let set = machine.registers;
    if chunk < count {
        let n1 = lemma_stores(begin, origin, fuel, machine, device, enabled, start, data, chunk, 0);
        let (m1, d1) = run(begin, origin, n1);
        lemma_chunk_steps_len(family, start, data, count);
        assert(0 <= chunk * length && (chunk + 1) * length <= count * length && (chunk + 1)
            * length == chunk * length + length) by (nonlinear_arith)
            requires
                0 <= chunk < count,
                0 < length,
        ;
        lemma_chunk_steps_index(family, start, data, count, chunk, width / 4);
        assert(m1.script[m1.pc] == chunk_steps(family, start, data, count)[m1.pc - 4]);
        let n2 = step_await_idle(begin, origin, n1, m1, d1);
        let (m2, d2) = run(begin, origin, n2);
        let n3: nat = if family.layout() == Layout::Sectored {
            n2
        } else {
            let clear = FlagClear { flag: StatusFlag::Eop, idiom: ClearIdiom::ModifyStatus };
            lemma_chunk_steps_index(family, start, data, count, chunk, width / 4 + 1);
            assert(m2.script[m2.pc] == chunk_steps(family, start, data, count)[m2.pc - 4]);
            step_clear_if_set(begin, origin, n2, m2, d2, clear)
        };
        let (m3, d3) = run(begin, origin, n3);
        assert(m3 == Machine { pc: 4 + (chunk + 1) * length, ..machine });
        assert(writing(enabled, d3, set, start as int, data, (chunk + 1) * width));
        lemma_chunks(begin, origin, n3, m3, d3, enabled, start, data, chunk + 1)
    } else {
        fuel
    }
}

/// The bytes of `data` that lie in whole chunks of the variant's
/// programming width.
pub open spec fn whole_chunks(family: Family, data: Seq<u8>) -> int {
    data.len() / family.chunk_bytes() as nat * family.chunk_bytes()
}

/// Programming on a ready register set, into memory that is erased, ends
/// with `Ok`. Memory holds the whole chunks of the data from the start
/// address on, and is unchanged elsewhere; the register set is left
/// locked, with nothing selected or executing.
pub proof fn law_program(device: Device, set: Bank, start: usize, data: Seq<u8>) -> (fuel: nat)
    requires
        ready(device, set),
        !device.set(other(set)).programming(),
        start + whole_chunks(device.profile.family, data) <= usize::MAX + 1,
        blank(device.memory, start as int, whole_chunks(device.profile.family, data)),
    ensures
        ({
            let family = device.profile.family;
            let (machine, after) = run(
                Machine::begin(family, set, program_steps(family, start, data)),
                device,
                fuel,
            );
            &&& machine.finished()
            &&& machine.outcome == Ok::<(), Error>(())
            &&& programmed(
                device.memory,
                after.memory,
                start as int,
                data,
                whole_chunks(family, data),
            )
            &&& at_rest(after, set)
            &&& same_frame(device, after, set)
        }),
{
    let family = device.profile.family;
    let script = program_steps(family, start, data);
    let begin = Machine::begin(family, set, script);
    let count = data.len() / family.chunk_bytes() as nat;
    let length = chunk_length(family);
    lemma_chunk_steps_len(family, start, data, count);
    let body = count * length;
    assert(0 <= body) by (nonlinear_arith)
        requires
            body == count * length,
            0 <= length,
    ;
    assert(script.len() == 7 + body);
    let n3 = lemma_guard(begin, device);
    let (m3, d3) = run(begin, device, n3);
    assert(script[3] == Step::Control(ControlOp::SetBit(ControlBit::Program)));
    step_control(begin, device, n3, m3, d3, ControlOp::SetBit(ControlBit::Program));
    let (m4, d4) = run(begin, device, n3 + 1);
    assert(writing(d4, d4, set, start as int, data, 0));
    let n5 = lemma_chunks(begin, device, n3 + 1, m4, d4, d4, start, data, 0);
    let (m5, d5) = run(begin, device, n5);
    assert(script[4 + body] == Step::Control(ControlOp::ClearBit(ControlBit::Program)));
    step_control(begin, device, n5, m5, d5, ControlOp::ClearBit(ControlBit::Program));
    let (m6, d6) = run(begin, device, n5 + 1);
    assert(script[5 + body] == Step::AwaitClear(StatusFlag::Bsy));
    assert(script[6 + body] == Step::Control(ControlOp::SetBit(ControlBit::Lock)));
    let total = lemma_relock(begin, device, n5 + 1, m6, d6);
    total
}

} // verus!
