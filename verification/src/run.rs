use crate::access::{ControlOp, FlagClear};
use crate::clear::error_clears;
use crate::device::{lemma_snapshot, Device, KeyState, Registers};
use crate::error::Error;
use crate::machine::{Machine, Stage};
use crate::script::{lemma_word_bytes, Step};
use crate::status::StatusFlag;
use vstd::prelude::*;

verus! {

/// The sequencer and the reference model of the hardware, taken together:
/// where they stand after at most `fuel` accesses, each made by the model
/// as the sequencer asks for it. Once the operation has ended nothing
/// changes any more.
#[verifier::opaque]
pub open spec fn run(machine: Machine, device: Device, fuel: nat) -> (Machine, Device)
    decreases fuel,
{
    if fuel == 0 || machine.finished() {
        (machine, device)
    } else {
        let (after, reply) = device.respond(machine.request());
        run(machine.next(reply), after, (fuel - 1) as nat)
    }
}

/// Running for `first + second` accesses is running for `first` and going
/// on for `second`.
pub proof fn lemma_run_split(machine: Machine, device: Device, first: nat, second: nat)
    ensures
        run(machine, device, first + second) == run(
            run(machine, device, first).0,
            run(machine, device, first).1,
            second,
        ),
    decreases first,
{
    reveal_with_fuel(run, 2);
    if first == 0 {
    } else if machine.finished() {
        assert(run(machine, device, second) == (machine, device));
    } else {
        let (after, reply) = device.respond(machine.request());
        lemma_run_split(machine.next(reply), after, (first - 1) as nat, second);
    }
}

/// One more access after `fuel` accesses.
pub proof fn lemma_run_extend(start: Machine, origin: Device, fuel: nat, machine: Machine, device: Device)
    requires
        run(start, origin, fuel) == (machine, device),
        !machine.finished(),
    ensures
        run(start, origin, fuel + 1) == (
            machine.next(device.respond(machine.request()).1),
            device.respond(machine.request()).0,
        ),
{
    lemma_run_split(start, origin, fuel, 1);
    reveal_with_fuel(run, 2);
}

/// Before any access nothing has changed.
pub proof fn lemma_run_zero(machine: Machine, device: Device)
    ensures
        run(machine, device, 0) == (machine, device),
{
    reveal_with_fuel(run, 1);
}

/// An update of the control register takes one access.
pub proof fn step_control(
    start: Machine,
    origin: Device,
    fuel: nat,
    machine: Machine,
    device: Device,
    op: ControlOp,
)
    requires
        run(start, origin, fuel) == (machine, device),
        machine.wf(),
        !machine.finished(),
        machine.script[machine.pc] == Step::Control(op),
    ensures
        run(start, origin, fuel + 1) == (machine.proceed(), device.control(machine.registers, op)),
{
    lemma_run_extend(start, origin, fuel, machine, device);
}

/// A write to the address register takes one access.
pub proof fn step_write_address(
    start: Machine,
    origin: Device,
    fuel: nat,
    machine: Machine,
    device: Device,
    value: u32,
)
    requires
        run(start, origin, fuel) == (machine, device),
        machine.wf(),
        !machine.finished(),
        machine.script[machine.pc] == Step::WriteAddress(value),
        !device.set(machine.registers).locked,
    ensures
        run(start, origin, fuel + 1) == (
            machine.proceed(),
            device.with_set(
                machine.registers,
                Registers { address: value, ..device.set(machine.registers) },
            ),
        ),
{
    lemma_run_extend(start, origin, fuel, machine, device);
}

/// The clearing of a status bit takes one access.
pub proof fn step_clear_flag(
    start: Machine,
    origin: Device,
    fuel: nat,
    machine: Machine,
    device: Device,
    clear: FlagClear,
)
    requires
        run(start, origin, fuel) == (machine, device),
        machine.wf(),
        !machine.finished(),
        machine.script[machine.pc] == Step::ClearFlag(clear),
    ensures
        run(start, origin, fuel + 1) == (
            machine.proceed(),
            device.with_set(machine.registers, device.set(machine.registers).clear(clear)),
        ),
{
    lemma_run_extend(start, origin, fuel, machine, device);
}

/// A store takes one access.
pub proof fn step_store(
    start: Machine,
    origin: Device,
    fuel: nat,
    machine: Machine,
    device: Device,
    address: usize,
    word: u32,
)
    requires
        run(start, origin, fuel) == (machine, device),
        machine.wf(),
        !machine.finished(),
        machine.script[machine.pc] == (Step::Store { address, word }),
    ensures
        run(start, origin, fuel + 1) == (machine.proceed(), device.store(address as int, word)),
{
    lemma_run_extend(start, origin, fuel, machine, device);
}

/// Unlocking takes one access where the register is unlocked already,
/// and four where it is locked; the keys take effect unless the key
/// sequence was spoilt before.
pub proof fn step_unlock(start: Machine, origin: Device, fuel: nat, machine: Machine, device: Device) -> (total:
    nat)
    requires
        run(start, origin, fuel) == (machine, device),
        machine.wf(),
        !machine.finished(),
        machine.script[machine.pc] == Step::Unlock,
        machine.stage is Entry,
    ensures
        ({
            let registers = device.set(machine.registers);
            run(start, origin, total) == if !registers.locked {
                (machine.proceed(), device)
            } else if registers.keys is Idle {
                (
                    machine.proceed(),
                    device.with_set(
                        machine.registers,
                        Registers { locked: false, keys: KeyState::Idle, ..registers },
                    ),
                )
            } else {
                (
                    machine.fail(Error::Failure),
                    device.with_set(
                        machine.registers,
                        Registers { keys: KeyState::Jammed, ..registers },
                    ),
                )
            }
        }),
{
    let registers = device.set(machine.registers);
    lemma_run_extend(start, origin, fuel, machine, device);
    if !registers.locked {
        fuel + 1
    } else {
        let m1 = machine.at(Stage::FirstKey);
        let d1 = device;
        assert(run(start, origin, fuel + 1) == (m1, d1));
        lemma_run_extend(start, origin, fuel + 1, m1, d1);
        let m2 = machine.at(Stage::SecondKey);
        let d2 = d1.respond(m1.request()).0;
        assert(run(start, origin, fuel + 2) == (m2, d2));
        lemma_run_extend(start, origin, fuel + 2, m2, d2);
        let m3 = machine.at(Stage::Verify);
        let d3 = d2.respond(m2.request()).0;
        assert(run(start, origin, fuel + 3) == (m3, d3));
        lemma_run_extend(start, origin, fuel + 3, m3, d3);
        fuel + 4
    }
}

/// The busy check takes one access. A busy controller makes the
/// operation give up.
pub proof fn step_check_busy(start: Machine, origin: Device, fuel: nat, machine: Machine, device: Device)
    requires
        run(start, origin, fuel) == (machine, device),
        machine.wf(),
        !machine.finished(),
        machine.script[machine.pc] == Step::CheckBusy,
    ensures
        ({
            let registers = device.set(machine.registers);
            run(start, origin, fuel + 1) == (
                if registers.busy > 0 {
                    machine.abort(Error::Busy)
                } else {
                    machine.proceed()
                },
                device.with_set(machine.registers, registers.tick()),
            )
        }),
{
    lemma_run_extend(start, origin, fuel, machine, device);
    lemma_snapshot(device.set(machine.registers), StatusFlag::Bsy);
}

/// A wait for the busy bit or the queue bit ends when the controller is
/// busy no more.
pub proof fn step_await_idle(start: Machine, origin: Device, fuel: nat, machine: Machine, device: Device) -> (total:
    nat)
    requires
        run(start, origin, fuel) == (machine, device),
        machine.wf(),
        !machine.finished(),
        machine.script[machine.pc] == Step::AwaitClear(StatusFlag::Bsy) || machine.script[machine.pc]
            == Step::AwaitClear(StatusFlag::Qw),
    ensures
        run(start, origin, total) == (
            machine.proceed(),
            device.with_set(
                machine.registers,
                Registers { busy: 0, ..device.set(machine.registers) },
            ),
        ),
    decreases device.set(machine.registers).busy,
{
    let registers = device.set(machine.registers);
    lemma_run_extend(start, origin, fuel, machine, device);
    lemma_snapshot(registers, StatusFlag::Bsy);
    lemma_snapshot(registers, StatusFlag::Qw);
    let after = device.with_set(machine.registers, registers.tick());
    if registers.busy > 0 {
        assert(run(start, origin, fuel + 1) == (machine, after));
        let total = step_await_idle(start, origin, fuel + 1, machine, after);
        assert(after.with_set(machine.registers, Registers { busy: 0, ..after.set(machine.registers) })
            == device.with_set(machine.registers, Registers { busy: 0, ..registers }));
        total
    } else {
        assert(registers.tick() == Registers { busy: 0, ..registers });
        fuel + 1
    }
}

/// A wait for a bit that is set takes one access.
pub proof fn step_await_set(
    start: Machine,
    origin: Device,
    fuel: nat,
    machine: Machine,
    device: Device,
    flag: StatusFlag,
)
    requires
        run(start, origin, fuel) == (machine, device),
        machine.wf(),
        !machine.finished(),
        machine.script[machine.pc] == Step::AwaitSet(flag),
        device.set(machine.registers).snapshot().has(flag),
    ensures
        run(start, origin, fuel + 1) == (
            machine.proceed(),
            device.with_set(machine.registers, device.set(machine.registers).tick()),
        ),
{
    lemma_run_extend(start, origin, fuel, machine, device);
}

/// The clearing of a completion bit, if it is set, takes one access or
/// two, and leaves the bit clear.
pub proof fn step_clear_if_set(
    start: Machine,
    origin: Device,
    fuel: nat,
    machine: Machine,
    device: Device,
    clear: FlagClear,
) -> (total: nat)
    requires
        run(start, origin, fuel) == (machine, device),
        machine.wf(),
        !machine.finished(),
        machine.script[machine.pc] == Step::ClearIfSet(clear),
        machine.stage is Entry,
    ensures
        ({
            let registers = device.set(machine.registers);
            run(start, origin, total) == (
                machine.proceed(),
                device.with_set(
                    machine.registers,
                    if registers.snapshot().has(clear.flag) {
                        registers.tick().clear(clear)
                    } else {
                        registers.tick()
                    },
                ),
            )
        }),
{
    let registers = device.set(machine.registers);
    lemma_run_extend(start, origin, fuel, machine, device);
    if registers.snapshot().has(clear.flag) {
        let m1 = machine.at(Stage::Acknowledge);
        let d1 = device.with_set(machine.registers, registers.tick());
        assert(run(start, origin, fuel + 1) == (m1, d1));
        lemma_run_extend(start, origin, fuel + 1, m1, d1);
        assert(d1.with_set(machine.registers, d1.set(machine.registers).clear(clear))
            == device.with_set(machine.registers, registers.tick().clear(clear)));
        fuel + 2
    } else {
        fuel + 1
    }
}

/// The registers after the clears of `queue` from the place `from` on.
pub open spec fn cleared(registers: Registers, queue: Seq<FlagClear>, from: int) -> Registers
    decreases queue.len() - from,
{
    if from < 0 || from >= queue.len() {
        registers
    } else {
        cleared(registers.clear(queue[from]), queue, from + 1)
    }
}

/// Clears change the status bits and nothing else.
pub proof fn lemma_cleared_frame(registers: Registers, queue: Seq<FlagClear>, from: int)
    ensures
        cleared(registers, queue, from) == (Registers {
            status: cleared(registers, queue, from).status,
            ..registers
        }),
    decreases queue.len() - from,
{
    if 0 <= from < queue.len() {
        lemma_cleared_frame(registers.clear(queue[from]), queue, from + 1);
    }
}

/// A clear sets no status bit, and the clears of a queue leave no bit set
/// that one of them clears.
pub proof fn lemma_cleared_removes(
    registers: Registers,
    queue: Seq<FlagClear>,
    from: int,
    flag: StatusFlag,
)
    requires
        0 <= from,
    ensures
        !registers.status.contains(flag) ==> !cleared(registers, queue, from).status.contains(flag),
        (exists|j: int| from <= j < queue.len() && (#[trigger] queue[j]).flag == flag) ==> !cleared(
            registers,
            queue,
            from,
        ).status.contains(flag),
    decreases queue.len() - from,
{
    if from < queue.len() {
        let after = registers.clear(queue[from]);
        lemma_cleared_removes(after, queue, from + 1, flag);
        if exists|j: int| from <= j < queue.len() && (#[trigger] queue[j]).flag == flag {
            let j = choose|j: int| from <= j < queue.len() && (#[trigger] queue[j]).flag == flag;
            if j == from {
                assert(!after.status.contains(flag));
            } else {
                assert(from + 1 <= j < queue.len() && queue[j].flag == flag);
            }
        }
    }
}

/// The clears that are left in the queue take one access each.
proof fn step_clearing(start: Machine, origin: Device, fuel: nat, machine: Machine, device: Device) -> (total:
    nat)
    requires
        run(start, origin, fuel) == (machine, device),
        machine.wf(),
        !machine.finished(),
        machine.script[machine.pc] == Step::ClearErrors,
        machine.stage is Clearing,
    ensures
        run(start, origin, total) == (
            machine.proceed(),
            device.with_set(
                machine.registers,
                cleared(device.set(machine.registers), machine.queue, machine.stage->Clearing_0 as int),
            ),
        ),
    decreases machine.queue.len() - machine.stage->Clearing_0,
{
    let i = machine.stage->Clearing_0;
    let registers = device.set(machine.registers);
    lemma_run_extend(start, origin, fuel, machine, device);
    let after = device.with_set(machine.registers, registers.clear(machine.queue[i as int]));
    if i + 1 < machine.queue.len() {
        let m1 = machine.at(Stage::Clearing((i + 1) as usize));
        assert(run(start, origin, fuel + 1) == (m1, after));
        let total = step_clearing(start, origin, fuel + 1, m1, after);
        assert(after.with_set(
            machine.registers,
            cleared(after.set(machine.registers), machine.queue, i + 1),
        ) == device.with_set(machine.registers, cleared(registers, machine.queue, i as int)));
        total
    } else {
        assert(cleared(registers, machine.queue, i as int) == registers.clear(machine.queue[i as int]))
            by {
            reveal_with_fuel(cleared, 2);
        }
        fuel + 1
    }
}

/// The clearing of errors reads the status register once and carries out
/// the clears that the snapshot calls for. It changes status bits and lets
/// time pass, and nothing else.
pub proof fn step_clear_errors(start: Machine, origin: Device, fuel: nat, machine: Machine, device: Device) -> (total:
    nat)
    requires
        run(start, origin, fuel) == (machine, device),
        machine.wf(),
        !machine.finished(),
        machine.script[machine.pc] == Step::ClearErrors,
        machine.stage is Entry,
    ensures
        ({
            let registers = device.set(machine.registers);
            let queue = error_clears(machine.family, registers.snapshot());
            let (machine_after, device_after) = run(start, origin, total);
            &&& machine_after == Machine { queue: machine_after.queue, ..machine.proceed() }
            &&& device_after == device.with_set(
                machine.registers,
                cleared(registers.tick(), queue, 0),
            )
        }),
{
    let registers = device.set(machine.registers);
    let queue = error_clears(machine.family, registers.snapshot());
    lemma_run_extend(start, origin, fuel, machine, device);
    let after = device.with_set(machine.registers, registers.tick());
    if queue.len() == 0 {
        fuel + 1
    } else {
        let m1 = Machine { queue, stage: Stage::Clearing(0), ..machine };
        assert(run(start, origin, fuel + 1) == (m1, after));
        let total = step_clearing(start, origin, fuel + 1, m1, after);
        assert(after.with_set(machine.registers, cleared(after.set(machine.registers), queue, 0))
            == device.with_set(machine.registers, cleared(registers.tick(), queue, 0)));
        total
    }
}

/// A load takes one access and appends the four bytes at its address to
/// the data.
pub proof fn step_load(
    start: Machine,
    origin: Device,
    fuel: nat,
    machine: Machine,
    device: Device,
    address: usize,
)
    requires
        run(start, origin, fuel) == (machine, device),
        machine.wf(),
        !machine.finished(),
        machine.script[machine.pc] == (Step::Load { address }),
    ensures
        run(start, origin, fuel + 1) == (
            Machine { data: machine.data + device.bytes_at(address as int), ..machine.proceed() },
            device,
        ),
{
    lemma_run_extend(start, origin, fuel, machine, device);
    lemma_word_bytes(0, device.bytes_at(address as int), 0);
    assert(device.bytes_at(address as int).subrange(0, 4) == device.bytes_at(address as int));
}

} // verus!
