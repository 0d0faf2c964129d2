use crate::access::{ClearIdiom, ControlBit, ControlOp, FlagClear};
use crate::bank::{Bank, DualBank};
use crate::clear::{error_clears, lemma_clears_cover};
use crate::device::{erased, lemma_snapshot, Device, KeyState, Registers};
use crate::error::Error;
use crate::machine::Machine;
use crate::profile::{Family, Layout};
use crate::run::{
    lemma_cleared_frame, lemma_cleared_removes, lemma_run_extend, lemma_run_zero, run,
    step_await_idle, step_await_set, step_check_busy, step_clear_errors, step_clear_flag,
    step_control, step_unlock, step_write_address,
};
use crate::script::{
    clear_steps, completion_steps, erase_bank_steps, erase_enable, erase_unit_steps, lock_steps,
    mass_bits, program_steps, select_steps, set_steps, Step,
};
use crate::status::StatusFlag;
use vstd::prelude::*;

verus! {

/// Whether a register set can be unlocked: it is unlocked already, or its
/// key sequence has not been spoilt.
pub open spec fn can_unlock(registers: Registers) -> bool {
    !registers.locked || registers.keys is Idle
}

/// Whether an operation begins by unlocking and by checking that the
/// controller is idle.
pub open spec fn guarded(script: Seq<Step>) -> bool {
    script.len() >= 2 && script[0] == Step::Unlock && script[1] == Step::CheckBusy
}

/// Unlocking ends with `Ok` and an unlocked register wherever the register
/// can be unlocked, and with `Error::Failure` and a locked register
/// elsewhere. Nothing but the lock and the key sequence changes.
pub proof fn law_unlock(family: Family, device: Device) -> (fuel: nat)
    ensures
        ({
            let (machine, after) = run(
                Machine::begin(family, Bank::B1, seq![Step::Unlock]),
                device,
                fuel,
            );
            &&& machine.finished()
            &&& can_unlock(device.first) ==> machine.outcome == Ok::<(), Error>(())
                && !after.first.locked
            &&& !can_unlock(device.first) ==> machine.outcome == Err::<(), Error>(Error::Failure)
                && after.first.locked
            &&& after == Device {
                first: Registers {
                    locked: after.first.locked,
                    keys: after.first.keys,
                    ..device.first
                },
                ..device
            }
        }),
{
    let machine = Machine::begin(family, Bank::B1, seq![Step::Unlock]);
    lemma_run_zero(machine, device);
    step_unlock(machine, device, 0, machine, device)
}

/// Unlocking is idempotent: where a first unlocking has ended with `Ok`, a
/// second one, with no locking in between, ends with `Ok` as well, after
/// one read and without a write, and the register is unlocked after
/// each.
pub proof fn law_unlock_idempotent(family: Family, device: Device) -> (fuel: nat)
    requires
        can_unlock(device.first),
    ensures
        ({
            let begin = Machine::begin(family, Bank::B1, seq![Step::Unlock]);
            let (first, between) = run(begin, device, fuel);
            let (second, after) = run(begin, between, 1);
            &&& first.finished() && first.outcome == Ok::<(), Error>(())
            &&& !between.first.locked
            &&& second.finished() && second.outcome == Ok::<(), Error>(())
            &&& after == between
        }),
{
    let begin = Machine::begin(family, Bank::B1, seq![Step::Unlock]);
    lemma_run_zero(begin, device);
    let fuel = step_unlock(begin, device, 0, begin, device);
    let between = run(begin, device, fuel).1;
    lemma_run_zero(begin, between);
    lemma_run_extend(begin, between, 0, begin, between);
    fuel
}

/// Locking ends with `Ok`, once the controller is idle, and leaves the
/// control register locked. It changes no byte of flash memory.
pub proof fn law_lock(family: Family, device: Device) -> (fuel: nat)
    ensures
        ({
            let (machine, after) = run(Machine::begin(family, Bank::B1, lock_steps()), device, fuel);
            &&& machine.finished()
            &&& machine.outcome == Ok::<(), Error>(())
            &&& after.first.locked
            &&& after.first.busy == 0
            &&& after.memory == device.memory
        }),
{
    let begin = Machine::begin(family, Bank::B1, lock_steps());
    lemma_run_zero(begin, device);
    let n1 = step_await_idle(begin, device, 0, begin, device);
    let (m1, d1) = run(begin, device, n1);
    step_control(begin, device, n1, m1, d1, ControlOp::SetBit(ControlBit::Lock));
    n1 + 1
}

/// Every operation that changes flash memory is guarded: the erase of a
/// unit, the erase of a bank, programming, and an erase followed by
/// programming.
pub proof fn law_operations_guarded(
    family: Family,
    mode: DualBank,
    index: usize,
    bank: Bank,
    start: usize,
    data: Seq<u8>,
)
    ensures
        guarded(erase_unit_steps(family, mode, index, bank)),
        guarded(erase_bank_steps(family, mode, bank)),
        guarded(program_steps(family, start, data)),
        guarded(erase_unit_steps(family, mode, index, bank) + program_steps(family, start, data)),
{
}

/// A guarded operation that begins while the controller is busy ends with
/// `Error::Busy`, leaves the control register locked, and changes no
/// byte of flash memory.
pub proof fn law_busy_aborts(family: Family, registers: Bank, script: Seq<Step>, device: Device) -> (fuel:
    nat)
    requires
        guarded(script),
        can_unlock(device.set(registers)),
        device.set(registers).busy > 0,
    ensures
        ({
            let (machine, after) = run(Machine::begin(family, registers, script), device, fuel);
            &&& machine.finished()
            &&& machine.outcome == Err::<(), Error>(Error::Busy)
            &&& after.set(registers).locked
            &&& after.memory == device.memory
        }),
{
    let begin = Machine::begin(family, registers, script);
    lemma_run_zero(begin, device);
    let n1 = step_unlock(begin, device, 0, begin, device);
    let (m1, d1) = run(begin, device, n1);
    step_check_busy(begin, device, n1, m1, d1);
    let (m2, d2) = run(begin, device, n1 + 1);
    assert(m2.script == lock_steps());
    let n3 = step_await_idle(begin, device, n1 + 1, m2, d2);
    let (m3, d3) = run(begin, device, n3);
    step_control(begin, device, n3, m3, d3, ControlOp::SetBit(ControlBit::Lock));
    n3 + 1
}


/// A guarded operation on a register set that cannot be unlocked ends
/// with `Error::Failure`, leaves the control register locked, and changes
/// no byte of flash memory.
pub proof fn law_locked_out(family: Family, registers: Bank, script: Seq<Step>, device: Device) -> (fuel:
    nat)
    requires
        guarded(script),
        !can_unlock(device.set(registers)),
    ensures
        ({
            let (machine, after) = run(Machine::begin(family, registers, script), device, fuel);
            &&& machine.finished()
            &&& machine.outcome == Err::<(), Error>(Error::Failure)
            &&& after.set(registers).locked
            &&& after.memory == device.memory
        }),
{
    let begin = Machine::begin(family, registers, script);
    lemma_run_zero(begin, device);
    step_unlock(begin, device, 0, begin, device)
}

/// Whether two states of the device differ in nothing but memory and the
/// register set `set`.
pub open spec fn same_frame(before: Device, after: Device, set: Bank) -> bool {
    &&& after.profile == before.profile
    &&& after.mode == before.mode
    &&& after.latency == before.latency
    &&& after.reports_completion == before.reports_completion
    &&& set == Bank::B1 ==> after.second == before.second
    &&& set == Bank::B2 ==> after.first == before.first
}

/// Whether the variant waits for the completion bit after an erase.
pub open spec fn awaits_completion(family: Family) -> bool {
    family == Family::F3 || family == Family::F4
}

/// Whether the register set `set` is ready for an operation: it can be
/// unlocked, nothing is selected or executing, and the controller raises
/// the completion bit if the variant waits for it.
pub open spec fn ready(device: Device, set: Bank) -> bool {
    &&& can_unlock(device.set(set))
    &&& device.set(set).quiet()
    &&& awaits_completion(device.profile.family) ==> device.reports_completion
}

/// Whether the register set `set` is as an operation leaves it: locked,
/// with nothing selected or executing.
pub open spec fn at_rest(device: Device, set: Bank) -> bool {
    device.set(set).locked && device.set(set).quiet()
}

/// The guard of an operation on a ready register set takes the sequencer
/// to the operation's fourth step and leaves the register unlocked. It
/// changes nothing else but status bits.
pub proof fn lemma_guard(begin: Machine, device: Device) -> (fuel: nat)
    requires
        begin == Machine::begin(begin.family, begin.registers, begin.script),
        begin.script.len() > 3,
        begin.script[0] == Step::Unlock,
        begin.script[1] == Step::CheckBusy,
        begin.script[2] == Step::ClearErrors,
        can_unlock(device.set(begin.registers)),
        device.set(begin.registers).busy == 0,
    ensures
        ({
            let (machine, after) = run(begin, device, fuel);
            let registers = device.set(begin.registers);
            &&& machine == Machine { pc: 3, queue: machine.queue, ..begin }
            &&& machine.wf()
            &&& after == device.with_set(
                begin.registers,
                Registers {
                    locked: false,
                    keys: if registers.locked {
                        KeyState::Idle
                    } else {
                        registers.keys
                    },
                    status: after.set(begin.registers).status,
                    ..registers
                },
            )
        }),
{
    lemma_run_zero(begin, device);
    let n1 = step_unlock(begin, device, 0, begin, device);
    let (m1, d1) = run(begin, device, n1);
    step_check_busy(begin, device, n1, m1, d1);
    let (m2, d2) = run(begin, device, n1 + 1);
    assert(d2 == d1);
    let n3 = step_clear_errors(begin, device, n1 + 1, m2, d2);
    let registers = d2.set(begin.registers);
    lemma_cleared_frame(
        registers.tick(),
        error_clears(begin.family, registers.snapshot()),
        0,
    );
    n3
}

/// The guard of an operation leaves none of the variant's error bits set:
/// an error that an earlier operation left behind is not there when the
/// work of this one starts. The guard changes no byte of flash memory.
pub proof fn law_guard_clears_errors(
    family: Family,
    registers: Bank,
    script: Seq<Step>,
    device: Device,
    flag: StatusFlag,
) -> (fuel: nat)
    requires
        script.len() > 3,
        script[0] == Step::Unlock,
        script[1] == Step::CheckBusy,
        script[2] == Step::ClearErrors,
        can_unlock(device.set(registers)),
        device.set(registers).busy == 0,
        family.error_flags().contains(flag),
    ensures
        ({
            let (machine, after) = run(Machine::begin(family, registers, script), device, fuel);
            &&& machine.pc == 3
            &&& !after.set(registers).locked
            &&& !after.set(registers).status.contains(flag)
            &&& after.memory == device.memory
        }),
{
    let begin = Machine::begin(family, registers, script);
    lemma_run_zero(begin, device);
    let n1 = step_unlock(begin, device, 0, begin, device);
    let (m1, d1) = run(begin, device, n1);
    step_check_busy(begin, device, n1, m1, d1);
    let (m2, d2) = run(begin, device, n1 + 1);
    let n3 = step_clear_errors(begin, device, n1 + 1, m2, d2);
    let before = d2.set(registers);
    let queue = error_clears(family, before.snapshot());
    lemma_snapshot(before, flag);
    lemma_clears_cover(family.error_flags(), before.snapshot(), family.clear_idiom(), flag);
    lemma_cleared_removes(before.tick(), queue, 0, flag);
    lemma_cleared_frame(before.tick(), queue, 0);
    n3
}

/// The last two steps of an operation, which lock: they leave the register
/// set locked and idle, and end the operation with the result so far.
pub proof fn lemma_relock(begin: Machine, origin: Device, fuel: nat, machine: Machine, device: Device) -> (total:
    nat)
    requires
        run(begin, origin, fuel) == (machine, device),
        machine.wf(),
        machine.pc + 2 == machine.script.len(),
        machine.script[machine.pc] == Step::AwaitClear(StatusFlag::Bsy),
        machine.script[machine.pc + 1] == Step::Control(ControlOp::SetBit(ControlBit::Lock)),
        !device.set(machine.registers).locked,
    ensures
        ({
            let (last, after) = run(begin, origin, total);
            &&& last.finished()
            &&& last.outcome == machine.outcome
            &&& last.data == machine.data
            &&& after == device.with_set(
                machine.registers,
                Registers {
                    locked: true,
                    keys: KeyState::Idle,
                    busy: 0,
                    ..device.set(machine.registers)
                },
            )
        }),
{
    let n1 = step_await_idle(begin, origin, fuel, machine, device);
    let (m1, d1) = run(begin, origin, n1);
    step_control(begin, origin, n1, m1, d1, ControlOp::SetBit(ControlBit::Lock));
    n1 + 1
}

/// What a variant asks for after an erase takes the sequencer past these
/// steps and changes nothing but status bits.
pub proof fn lemma_completion(begin: Machine, origin: Device, fuel: nat, machine: Machine, device: Device) -> (total:
    nat)
    requires
        run(begin, origin, fuel) == (machine, device),
        machine.wf(),
        machine.stage is Entry,
        machine.pc + completion_steps(machine.family).len() < machine.script.len(),
        awaits_completion(machine.family) ==> machine.script[machine.pc] == Step::AwaitSet(
            StatusFlag::Eop,
        ) && machine.script[machine.pc + 1] == Step::ClearFlag(
            FlagClear { flag: StatusFlag::Eop, idiom: ClearIdiom::ModifyStatus },
        ) && device.set(machine.registers).status.contains(StatusFlag::Eop),
        machine.family.layout() == Layout::Sectored ==> machine.script[machine.pc]
            == Step::AwaitClear(StatusFlag::Qw),
        device.set(machine.registers).busy == 0,
    ensures
        ({
            let (next, after) = run(begin, origin, total);
            &&& next == Machine {
                pc: machine.pc + completion_steps(machine.family).len(),
                ..machine
            }
            &&& after == device.with_set(
                machine.registers,
                Registers {
                    status: after.set(machine.registers).status,
                    ..device.set(machine.registers)
                },
            )
        }),
{
    let registers = device.set(machine.registers);
    if awaits_completion(machine.family) {
        lemma_snapshot(registers, StatusFlag::Eop);
        step_await_set(begin, origin, fuel, machine, device, StatusFlag::Eop);
        let (m1, d1) = run(begin, origin, fuel + 1);
        step_clear_flag(
            begin,
            origin,
            fuel + 1,
            m1,
            d1,
            FlagClear { flag: StatusFlag::Eop, idiom: ClearIdiom::ModifyStatus },
        );
        fuel + 2
    } else if machine.family.layout() == Layout::Sectored {
        step_await_idle(begin, origin, fuel, machine, device)
    } else {
        fuel
    }
}

/// Whether `after` is `before` with the unit `index` of `bank` erased.
pub open spec fn unit_erased(before: Device, after: Device, bank: Bank, index: int) -> bool {
    forall|address: int| #[trigger]
        (after.memory)(address) == if before.in_unit(bank, index, address) {
            erased()
        } else {
            (before.memory)(address)
        }
}

/// Whether `after` is `before` with the whole of `bank` erased.
pub open spec fn bank_erased(before: Device, after: Device, bank: Bank) -> bool {
    forall|address: int| #[trigger]
        (after.memory)(address) == if before.in_bank(bank, address) {
            erased()
        } else {
            (before.memory)(address)
        }
}

/// The start of the selected erase, the wait until the controller is idle,
/// and what the variant asks for beyond that: together they carry out the
/// erase that the control register selects, and leave the controller
/// idle.
pub proof fn lemma_start(begin: Machine, origin: Device, fuel: nat, machine: Machine, device: Device) -> (total:
    nat)
    requires
        run(begin, origin, fuel) == (machine, device),
        machine.wf(),
        machine.stage is Entry,
        machine.family == device.profile.family,
        machine.pc + 2 + completion_steps(machine.family).len() < machine.script.len(),
        machine.script[machine.pc] == Step::Control(ControlOp::SetBit(ControlBit::Start)),
        machine.script[machine.pc + 1] == Step::AwaitClear(StatusFlag::Bsy),
        awaits_completion(machine.family) ==> machine.script[machine.pc + 2] == Step::AwaitSet(
            StatusFlag::Eop,
        ) && machine.script[machine.pc + 3] == Step::ClearFlag(
            FlagClear { flag: StatusFlag::Eop, idiom: ClearIdiom::ModifyStatus },
        ) && device.reports_completion,
        machine.family.layout() == Layout::Sectored ==> machine.script[machine.pc + 2]
            == Step::AwaitClear(StatusFlag::Qw),
        !device.set(machine.registers).locked,
    ensures
        ({
            let (next, after) = run(begin, origin, total);
            &&& next == Machine {
                pc: machine.pc + 2 + completion_steps(machine.family).len(),
                ..machine
            }
            &&& after == Device {
                memory: device.start(machine.registers).memory,
                ..device.with_set(
                    machine.registers,
                    Registers {
                        status: after.set(machine.registers).status,
                        busy: 0,
                        ..device.set(machine.registers)
                    },
                )
            }
        }),
{
    step_control(begin, origin, fuel, machine, device, ControlOp::SetBit(ControlBit::Start));
    let (m1, d1) = run(begin, origin, fuel + 1);
    assert(d1 == device.start(machine.registers));
    let n2 = step_await_idle(begin, origin, fuel + 1, m1, d1);
    let (m2, d2) = run(begin, origin, n2);
    let n3 = lemma_completion(begin, origin, n2, m2, d2);
    n3
}

/// The selection of the unit to erase takes the sequencer from the
/// operation's fourth step to the start of the erase, and leaves the
/// control register with the variant's erase-enable bit set and with the
/// unit and its bank selected.
pub proof fn lemma_select(
    begin: Machine,
    origin: Device,
    fuel: nat,
    machine: Machine,
    device: Device,
    index: usize,
    bank: Bank,
) -> (total: nat)
    requires
        run(begin, origin, fuel) == (machine, device),
        machine.wf(),
        machine.stage is Entry,
        machine.pc == 3,
        machine.family == device.profile.family,
        machine.script == erase_unit_steps(machine.family, device.mode, index, bank),
        machine.registers == machine.family.register_set(bank),
        device.profile.valid_index(index),
        device.profile.units <= 256,
        !device.set(machine.registers).locked,
        device.set(machine.registers).quiet(),
    ensures
        ({
            let (next, after) = run(begin, origin, total);
            let registers = device.set(machine.registers);
            let chosen = after.set(machine.registers);
            &&& next == Machine {
                pc: 3 + select_steps(machine.family, device.mode, index, bank).len() as int,
                ..machine
            }
            &&& after == device.with_set(machine.registers, chosen)
            &&& chosen == Registers {
                control: registers.control.insert(erase_enable(machine.family)),
                number: chosen.number,
                address: chosen.address,
                bank_select: chosen.bank_select,
                ..registers
            }
            &&& after.selected_unit(machine.registers) == index
            &&& after.profile.bank_start(after.mode, after.selected_bank(machine.registers))
                == device.profile.bank_start(device.mode, bank)
        }),
{
    let family = machine.family;
    let steps = select_steps(family, device.mode, index, bank);
    assert(machine.script[3] == steps[0]);
    if family == Family::F3 {
        assert(machine.script[4] == steps[1]);
        step_control(
            begin,
            origin,
            fuel,
            machine,
            device,
            ControlOp::SetBit(ControlBit::PageErase),
        );
        let (m1, d1) = run(begin, origin, fuel + 1);
        step_write_address(begin, origin, fuel + 1, m1, d1, (index as int % 0x1_0000_0000) as u32);
        fuel + 2
    } else {
        let op = steps[0]->Control_0;
        step_control(begin, origin, fuel, machine, device, op);
        fuel + 1
    }
}

/// The erase of a valid unit on a ready register set ends with `Ok`. It
/// erases every byte of the unit and changes no other byte, and it leaves
/// the register set locked, with nothing selected or executing.
pub proof fn law_erase_unit(device: Device, index: usize, bank: Bank) -> (fuel: nat)
    requires
        device.profile.wf(),
        device.profile.valid_index(index),
        ready(device, device.profile.family.register_set(bank)),
    ensures
        ({
            let family = device.profile.family;
            let set = family.register_set(bank);
            let (machine, after) = run(
                Machine::begin(family, set, erase_unit_steps(family, device.mode, index, bank)),
                device,
                fuel,
            );
            &&& machine.finished()
            &&& machine.outcome == Ok::<(), Error>(())
            &&& unit_erased(device, after, bank, index as int)
            &&& at_rest(after, set)
            &&& same_frame(device, after, set)
        }),
{
    let family = device.profile.family;
    let set = family.register_set(bank);
    let script = erase_unit_steps(family, device.mode, index, bank);
    let begin = Machine::begin(family, set, script);
    let select = select_steps(family, device.mode, index, bank).len() as int;
    let completion = completion_steps(family).len() as int;
    assert(script.len() == 8 + select + completion);
    let n3 = lemma_guard(begin, device);
    let (m3, d3) = run(begin, device, n3);
    let n5 = lemma_select(begin, device, n3, m3, d3, index, bank);
    let (m5, d5) = run(begin, device, n5);
    assert(script[3 + select] == Step::Control(ControlOp::SetBit(ControlBit::Start)));
    assert(script[4 + select] == Step::AwaitClear(StatusFlag::Bsy));
    assert(awaits_completion(family) ==> script[5 + select] == Step::AwaitSet(StatusFlag::Eop)
        && script[6 + select] == Step::ClearFlag(
        FlagClear { flag: StatusFlag::Eop, idiom: ClearIdiom::ModifyStatus },
    ));
    assert(family.layout() == Layout::Sectored ==> script[5 + select] == Step::AwaitClear(
        StatusFlag::Qw,
    ));
    let n8 = lemma_start(begin, device, n5, m5, d5);
    let (m8, d8) = run(begin, device, n8);
    assert(forall|address: int|
        d5.erases(set, address) == device.in_unit(bank, index as int, address));
    assert(script[5 + select + completion] == Step::Control(
        ControlOp::ClearBit(erase_enable(family)),
    ));
    step_control(begin, device, n8, m8, d8, ControlOp::ClearBit(erase_enable(family)));
    let (m9, d9) = run(begin, device, n8 + 1);
    assert(script[6 + select + completion] == Step::AwaitClear(StatusFlag::Bsy));
    assert(script[7 + select + completion] == Step::Control(
        ControlOp::SetBit(ControlBit::Lock),
    ));
    let total = lemma_relock(begin, device, n8 + 1, m9, d9);
    total
}

/// The control register after each of `bits` was set, or cleared.
pub open spec fn with_bits(control: Set<ControlBit>, bits: Seq<ControlBit>, value: bool) -> Set<
    ControlBit,
> {
    if value {
        control.union(bits.to_set())
    } else {
        control.difference(bits.to_set())
    }
}

/// The updates that set, or clear, the mass-erase bits of a bank take one
/// access each and change these bits only.
pub proof fn lemma_mass_bits(
    begin: Machine,
    origin: Device,
    fuel: nat,
    machine: Machine,
    device: Device,
    bank: Bank,
    value: bool,
) -> (total: nat)
    requires
        run(begin, origin, fuel) == (machine, device),
        machine.wf(),
        machine.stage is Entry,
        machine.family == device.profile.family,
        !device.set(machine.registers).locked,
        ({
            let bits = mass_bits(machine.family, device.mode, bank);
            &&& machine.pc + bits.len() < machine.script.len()
            &&& forall|j: int|
                0 <= j < bits.len() ==> #[trigger] machine.script[machine.pc + j] == Step::Control(
                    if value {
                        ControlOp::SetBit(bits[j])
                    } else {
                        ControlOp::ClearBit(bits[j])
                    },
                )
        }),
    ensures
        ({
            let bits = mass_bits(machine.family, device.mode, bank);
            let (next, after) = run(begin, origin, total);
            let registers = device.set(machine.registers);
            &&& next == Machine { pc: machine.pc + bits.len(), ..machine }
            &&& after == device.with_set(
                machine.registers,
                Registers { control: with_bits(registers.control, bits, value), ..registers },
            )
        }),
{
    let bits = mass_bits(machine.family, device.mode, bank);
    let registers = device.set(machine.registers);
    let first = if value {
        ControlOp::SetBit(bits[0])
    } else {
        ControlOp::ClearBit(bits[0])
    };
    assert(machine.script[machine.pc + 0] == Step::Control(first));
    step_control(begin, origin, fuel, machine, device, first);
    if bits.len() == 1 {
        assert(bits.to_set() =~= set![bits[0]]);
        assert(with_bits(registers.control, bits, value) =~= if value {
            registers.control.insert(bits[0])
        } else {
            registers.control.remove(bits[0])
        });
        fuel + 1
    } else {
        let (m1, d1) = run(begin, origin, fuel + 1);
        let second = if value {
            ControlOp::SetBit(bits[1])
        } else {
            ControlOp::ClearBit(bits[1])
        };
        assert(machine.script[machine.pc + 1] == Step::Control(second));
        step_control(begin, origin, fuel + 1, m1, d1, second);
        assert(bits.to_set() =~= set![bits[0], bits[1]]);
        assert(with_bits(registers.control, bits, value) =~= if value {
            registers.control.insert(bits[0]).insert(bits[1])
        } else {
            registers.control.remove(bits[0]).remove(bits[1])
        });
        fuel + 2
    }
}

/// The erase of a bank on a ready register set ends with `Ok`. It erases
/// every byte of the bank, and with it every unit of the bank, and
/// changes no other byte; it leaves the register set locked, with nothing
/// selected or executing.
pub proof fn law_erase_bank(device: Device, bank: Bank) -> (fuel: nat)
    requires
        device.profile.wf(),
        ready(device, device.profile.family.register_set(bank)),
    ensures
        ({
            let family = device.profile.family;
            let set = family.register_set(bank);
            let (machine, after) = run(
                Machine::begin(family, set, erase_bank_steps(family, device.mode, bank)),
                device,
                fuel,
            );
            &&& machine.finished()
            &&& machine.outcome == Ok::<(), Error>(())
            &&& bank_erased(device, after, bank)
            &&& forall|index: int, address: int|
                0 <= index < device.profile.units && #[trigger] device.in_unit(bank, index, address)
                    ==> (after.memory)(address) == erased()
            &&& at_rest(after, set)
            &&& same_frame(device, after, set)
        }),
{
    let family = device.profile.family;
    let set = family.register_set(bank);
    let script = erase_bank_steps(family, device.mode, bank);
    let begin = Machine::begin(family, set, script);
    let bits = mass_bits(family, device.mode, bank);
    let count = bits.len() as int;
    let completion = completion_steps(family).len() as int;
    assert(script.len() == 7 + 2 * count + completion);
    assert(set_steps(bits).len() == count && clear_steps(bits).len() == count);
    let n3 = lemma_guard(begin, device);
    let (m3, d3) = run(begin, device, n3);
    assert forall|j: int| 0 <= j < count implies #[trigger] script[3 + j] == Step::Control(
        ControlOp::SetBit(bits[j]),
    ) by {
        assert(script[3 + j] == set_steps(bits)[j]);
    }
    let n4 = lemma_mass_bits(begin, device, n3, m3, d3, bank, true);
    let (m4, d4) = run(begin, device, n4);
    assert(script[3 + count] == Step::Control(ControlOp::SetBit(ControlBit::Start)));
    assert(script[4 + count] == Step::AwaitClear(StatusFlag::Bsy));
    assert(awaits_completion(family) ==> script[5 + count] == Step::AwaitSet(StatusFlag::Eop)
        && script[6 + count] == Step::ClearFlag(
        FlagClear { flag: StatusFlag::Eop, idiom: ClearIdiom::ModifyStatus },
    ));
    assert(family.layout() == Layout::Sectored ==> script[5 + count] == Step::AwaitClear(
        StatusFlag::Qw,
    ));
    let n7 = lemma_start(begin, device, n4, m4, d4);
    let (m7, d7) = run(begin, device, n7);
    assert(forall|address: int| d4.erases(set, address) == device.in_bank(bank, address)) by {
        assert(bits.to_set().contains(bits[0]));
        if count == 2 {
            assert(bits.to_set().contains(bits[1]));
        }
    }
    assert forall|j: int| 0 <= j < count implies #[trigger] script[5 + count + completion + j]
        == Step::Control(ControlOp::ClearBit(bits[j])) by {
        assert(script[5 + count + completion + j] == clear_steps(bits)[j]);
    }
    let n8 = lemma_mass_bits(begin, device, n7, m7, d7, bank, false);
    let (m8, d8) = run(begin, device, n8);
    assert(script[5 + 2 * count + completion] == Step::AwaitClear(StatusFlag::Bsy));
    assert(script[6 + 2 * count + completion] == Step::Control(
        ControlOp::SetBit(ControlBit::Lock),
    ));
    let total = lemma_relock(begin, device, n8, m8, d8);
    let after = run(begin, device, total).1;
    assert(after.set(set).quiet()) by {
        assert(bits.to_set().contains(bits[0]));
        if count == 2 {
            assert(bits.to_set().contains(bits[1]));
        }
    }
    assert forall|index: int, address: int|
        0 <= index < device.profile.units && #[trigger] device.in_unit(
            bank,
            index,
            address,
        ) implies (after.memory)(address) == erased() by {
        let size = device.profile.unit_bytes(device.mode);
        assert(0 <= index * size && (index + 1) * size <= device.profile.units * size
            && (index + 1) * size == index * size + size) by (nonlinear_arith)
            requires
                0 <= index < device.profile.units,
                0 < size,
        ;
        assert(device.in_bank(bank, address));
    }
    total
}

} // verus!
