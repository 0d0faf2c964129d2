use crate::bank::Bank;
use crate::device::Device;
use crate::error::Error;
use crate::machine::Machine;
use crate::profile::Family;
use crate::run::{lemma_run_split, run};
use crate::script::Step;
use vstd::prelude::*;

verus! {

/// How an operation with the steps `first` stands to the operation with the
/// steps `first + second` while the steps of `first` are carried out: the
/// two differ in their steps only, until the first is given up or fails,
/// and with it the second.
pub open spec fn leading(alone: Machine, joint: Machine, first: Seq<Step>, second: Seq<Step>) -> bool {
    ||| {
        &&& alone.outcome is Ok
        &&& alone.script == first
        &&& alone.pc <= first.len()
        &&& joint == Machine { script: first + second, ..alone }
    }
    ||| {
        &&& alone.outcome is Err
        &&& joint.outcome == alone.outcome
        &&& joint.data == alone.data
        &&& joint == alone || (alone.finished() && joint.finished())
    }
}

/// How an operation with the steps `second` stands to the operation with
/// the steps `first + second` while the steps of `second` are carried out:
/// the joint operation is as many steps further as `first` is long, and
/// has the data that it gathered before.
pub open spec fn trailing(
    alone: Machine,
    joint: Machine,
    first: Seq<Step>,
    second: Seq<Step>,
    gathered: Seq<u8>,
) -> bool {
    &&& joint.queue == alone.queue || !(alone.stage is Clearing)
    &&& joint.data == gathered + alone.data
    &&& {
        ||| alone.script == second && joint == Machine {
            script: first + second,
            pc: first.len() + alone.pc,
            queue: joint.queue,
            data: joint.data,
            ..alone
        }
        ||| joint == Machine { queue: joint.queue, data: joint.data, ..alone }
    }
}

/// One access keeps the two operations in step while the first part is
/// carried out.
proof fn lemma_leading_step(
    alone: Machine,
    joint: Machine,
    first: Seq<Step>,
    second: Seq<Step>,
    device: Device,
)
    requires
        alone.wf(),
        leading(alone, joint, first, second),
        !alone.finished(),
    ensures
        !joint.finished(),
        joint.wf(),
        joint.request() == alone.request(),
        leading(
            alone.next(device.respond(alone.request()).1),
            joint.next(device.respond(alone.request()).1),
            first,
            second,
        ),
        alone.next(device.respond(alone.request()).1).wf(),
{
    if joint != alone {
        assert(joint.script[joint.pc] == alone.script[alone.pc]);
    }
}

/// One access keeps the two operations in step while the second part is
/// carried out.
proof fn lemma_trailing_step(
    alone: Machine,
    joint: Machine,
    first: Seq<Step>,
    second: Seq<Step>,
    gathered: Seq<u8>,
    device: Device,
)
    requires
        alone.wf(),
        trailing(alone, joint, first, second, gathered),
        !alone.finished(),
    ensures
        !joint.finished(),
        joint.request() == alone.request(),
        trailing(
            alone.next(device.respond(alone.request()).1),
            joint.next(device.respond(alone.request()).1),
            first,
            second,
            gathered,
        ),
        alone.next(device.respond(alone.request()).1).wf(),
{
    let reply = device.respond(alone.request()).1;
    assert(joint.script[joint.pc] == alone.script[alone.pc]);
    assert(joint.next(reply).data =~= gathered + alone.next(reply).data);
}

/// While the first part is carried out, the joint operation does what the
/// first part alone does.
proof fn lemma_leading(
    alone: Machine,
    joint: Machine,
    first: Seq<Step>,
    second: Seq<Step>,
    device: Device,
    fuel: nat,
) -> (taken: nat)
    requires
        alone.wf(),
        leading(alone, joint, first, second),
    ensures
        run(joint, device, taken).1 == run(alone, device, fuel).1,
        leading(run(alone, device, fuel).0, run(joint, device, taken).0, first, second),
    decreases fuel,
{
    reveal_with_fuel(run, 2);
    if fuel == 0 || alone.finished() {
        0
    } else {
        lemma_leading_step(alone, joint, first, second, device);
        let (after, reply) = device.respond(alone.request());
        let taken = lemma_leading(
            alone.next(reply),
            joint.next(reply),
            first,
            second,
            after,
            (fuel - 1) as nat,
        );
        taken + 1
    }
}

/// While the second part is carried out, the joint operation does what the
/// second part alone does.
proof fn lemma_trailing(
    alone: Machine,
    joint: Machine,
    first: Seq<Step>,
    second: Seq<Step>,
    gathered: Seq<u8>,
    device: Device,
    fuel: nat,
)
    requires
        alone.wf(),
        trailing(alone, joint, first, second, gathered),
    ensures
        run(joint, device, fuel).1 == run(alone, device, fuel).1,
        trailing(
            run(alone, device, fuel).0,
            run(joint, device, fuel).0,
            first,
            second,
            gathered,
        ),
        run(alone, device, fuel).0.finished() ==> run(joint, device, fuel).0.finished(),
    decreases fuel,
{
    reveal_with_fuel(run, 2);
    if fuel == 0 || alone.finished() {
    } else {
        lemma_trailing_step(alone, joint, first, second, gathered, device);
        let (after, reply) = device.respond(alone.request());
        lemma_trailing(
            alone.next(reply),
            joint.next(reply),
            first,
            second,
            gathered,
            after,
            (fuel - 1) as nat,
        );
    }
}

/// An operation whose steps are those of one operation followed by those
/// of another does what the two do one after the other, and stops where
/// the first fails: if the first ends with an error, the joint operation
/// ends with that error and leaves the hardware as the first does;
/// otherwise it ends with the result of the second and leaves the hardware
/// as the second does.
pub proof fn law_sequence(
    family: Family,
    registers: Bank,
    first: Seq<Step>,
    second: Seq<Step>,
    device: Device,
    fuel: (nat, nat),
) -> (total: nat)
    requires
        run(Machine::begin(family, registers, first), device, fuel.0).0.finished(),
        run(
            Machine::begin(family, registers, second),
            run(Machine::begin(family, registers, first), device, fuel.0).1,
            fuel.1,
        ).0.finished(),
    ensures
        ({
            let (one, between) = run(Machine::begin(family, registers, first), device, fuel.0);
            let (two, after) = run(Machine::begin(family, registers, second), between, fuel.1);
            let (joint, end) = run(Machine::begin(family, registers, first + second), device, total);
            &&& joint.finished()
            &&& one.outcome is Err ==> joint.outcome == one.outcome && end == between && joint.data
                == one.data
            &&& one.outcome is Ok ==> joint.outcome == two.outcome && end == after && joint.data
                == one.data + two.data
        }),
{
    let alone = Machine::begin(family, registers, first);
    let begin = Machine::begin(family, registers, first + second);
    let taken = lemma_leading(alone, begin, first, second, device, fuel.0);
    let (one, between) = run(alone, device, fuel.0);
    let (middle, same) = run(begin, device, taken);
    if one.outcome is Err {
        taken
    } else {
        let next = Machine::begin(family, registers, second);
        assert(one.data + next.data =~= one.data);
        lemma_finished_at_entry(alone, device, fuel.0);
        lemma_trailing(next, middle, first, second, one.data, between, fuel.1);
        lemma_run_split(begin, device, taken, fuel.1);
        taken + fuel.1
    }
}

/// An operation that has ended stands at the entry of the step after its
/// last, and works on the register set that it began on.
proof fn lemma_finished_at_entry(machine: Machine, device: Device, fuel: nat)
    requires
        machine.wf(),
        machine.finished() ==> machine.stage is Entry,
        machine.outcome is Ok ==> machine.outcome == Ok::<(), Error>(()),
    ensures
        run(machine, device, fuel).0.finished() ==> run(machine, device, fuel).0.stage is Entry,
        run(machine, device, fuel).0.outcome is Ok ==> run(machine, device, fuel).0.outcome == Ok::<
            (),
            Error,
        >(()),
        run(machine, device, fuel).0.wf(),
        run(machine, device, fuel).0.family == machine.family,
        run(machine, device, fuel).0.registers == machine.registers,
    decreases fuel,
{
    reveal_with_fuel(run, 2);
    if fuel == 0 || machine.finished() {
    } else {
        let (after, reply) = device.respond(machine.request());
        lemma_finished_at_entry(machine.next(reply), after, (fuel - 1) as nat);
    }
}

} // verus!
