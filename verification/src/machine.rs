//! The machine: it fetches the instruction at the cursor and executes it, again and
//! again, until no instruction is left.

use crate::fault::{Fault, MemoryFault};
use crate::memory::memory_trait::{conforms, fetch_if_present, Memory, MemoryView};
use crate::types::codec::ReadWriteable;
use crate::types::instruction::{FloatRequest, Instruction};
use crate::types::offset::Offset;
use vstd::prelude::*;

verus! {

/// How the machine stands after it has worked.
#[derive(Debug, Clone, Copy, PartialEq, Eq, Structural)]
pub enum Status {
    /// Every instruction so far is done, and the machine can go on.
    Running,
    /// The cursor stands at or beyond the end of the stored bytes: there is no further
    /// instruction, and the program has ended.
    Halted,
    /// A floating-point instruction has read its operands and waits for its result,
    /// see [`FloatRequest`]. Once the result is stored the machine can go on.
    Suspended(FloatRequest),
}

/// One step of the machine on `memory`: the instruction at the cursor is fetched and
/// executed. Where no byte is left at the cursor the machine halts and the memory
/// stays as it is.
pub open spec fn step_of(memory: MemoryView) -> Result<(Status, MemoryView), Fault<MemoryFault>> {
    match memory.try_read_if_present::<Instruction>() {
        Err(fault) => Err(fault),
        Ok((None, _)) => Ok((Status::Halted, memory)),
        Ok((Some(instruction), behind)) => match instruction.effect(behind) {
            Err(fault) => Err(fault),
            Ok((None, after)) => Ok((Status::Running, after)),
            Ok((Some(request), after)) => Ok((Status::Suspended(request), after)),
        },
    }
}

/// At most `steps` steps of the machine on `memory`: it stops before that where it
/// halts, where a floating-point instruction suspends it, and at a fault.
pub open spec fn run_of(memory: MemoryView, steps: nat) -> Result<
    (Status, MemoryView),
    Fault<MemoryFault>,
>
    decreases steps,
{
    if steps == 0 {
        Ok((Status::Running, memory))
    } else {
        match step_of(memory) {
            Ok((Status::Running, after)) => run_of(after, (steps - 1) as nat),
            stopped => stopped,
        }
    }
}

/// A jump counts from behind the instruction: from an instruction at address `a` with
/// the operand `k`, the machine goes on at `a + 1 + 2 + k`, where that is an address.
pub proof fn lemma_jump_counts_from_behind(memory: MemoryView)
    requires
        memory.holds(3),
        memory.bytes[memory.cursor as int] == Instruction::Jump.opcode_of(),
    ensures
        ({
            let a = memory.cursor as int;
            let k = Offset::decode(memory.bytes.subrange(a + 1, a + 3)).0 as int;
            step_of(memory) == if 0 <= a + 1 + 2 + k <= usize::MAX {
                Ok::<(Status, MemoryView), Fault<MemoryFault>>(
                    (
                        Status::Running,
                        MemoryView { cursor: (a + 1 + 2 + k) as nat, bytes: memory.bytes },
                    ),
                )
            } else {
                Err::<(Status, MemoryView), Fault<MemoryFault>>(
                    Fault::Memory(MemoryFault::OutOfRange),
                )
            }
        }),
{
    let a = memory.cursor as int;
    let behind = memory.advance(1);
    assert(memory.window(1)[0] == memory.bytes[a]);
    assert(behind.window(2) =~= memory.bytes.subrange(a + 1, a + 3));
}

/// A conditional jump whose condition is the byte 0 leaves the cursor behind the
/// instruction, at `a + 1 + 1 + 2`; with any other byte it jumps as `Jump` does, by `k`
/// from there.
pub proof fn lemma_jump_if_counts_from_behind(memory: MemoryView)
    requires
        memory.holds(4),
        memory.bytes[memory.cursor as int] == Instruction::JumpIf.opcode_of(),
    ensures
        ({
            let a = memory.cursor as int;
            let taken = memory.bytes[a + 1] != 0;
            let k = Offset::decode(memory.bytes.subrange(a + 2, a + 4)).0 as int;
            step_of(memory) == if !taken {
                Ok::<(Status, MemoryView), Fault<MemoryFault>>(
                    (Status::Running, MemoryView { cursor: (a + 4) as nat, bytes: memory.bytes }),
                )
            } else if 0 <= a + 4 + k <= usize::MAX {
                Ok::<(Status, MemoryView), Fault<MemoryFault>>(
                    (
                        Status::Running,
                        MemoryView { cursor: (a + 4 + k) as nat, bytes: memory.bytes },
                    ),
                )
            } else {
                Err::<(Status, MemoryView), Fault<MemoryFault>>(
                    Fault::Memory(MemoryFault::OutOfRange),
                )
            }
        }),
{
    let a = memory.cursor as int;
    let behind = memory.advance(1);
    let operands = behind.window(3);
    assert(memory.window(1)[0] == memory.bytes[a]);
    assert(operands.subrange(0, 1)[0] == memory.bytes[a + 1]);
    assert(operands.subrange(1, 3) =~= memory.bytes.subrange(a + 2, a + 4));
}

/// A byte that names no instruction, or names `Noop`, leads one byte further and
/// changes nothing else.
pub proof fn lemma_noop_advances_by_one(memory: MemoryView)
    requires
        memory.holds(1),
        Instruction::named_by(memory.bytes[memory.cursor as int]) == Instruction::Noop,
    ensures
        step_of(memory) == Ok::<(Status, MemoryView), Fault<MemoryFault>>(
            (Status::Running, memory.advance(1)),
        ),
{
    assert(memory.window(1)[0] == memory.bytes[memory.cursor as int]);
}

/// The machine halts where no byte is left at the cursor, and only there; the memory
/// stays as it is.
pub proof fn lemma_halts_at_the_end(memory: MemoryView)
    ensures
        memory.cursor >= memory.bytes.len() ==> step_of(memory) == Ok::<
            (Status, MemoryView),
            Fault<MemoryFault>,
        >((Status::Halted, memory)),
        memory.cursor < memory.bytes.len() ==> !(step_of(memory) matches Ok((Status::Halted, _))),
{
}

/// Running in two parts is running at once: where the machine is still running after
/// `first` steps, `second` more steps from there give what `first + second` steps give,
/// and where it has stopped before, more steps change nothing.
pub proof fn lemma_run_continues(memory: MemoryView, first: nat, second: nat)
    ensures
        run_of(memory, first + second) == match run_of(memory, first) {
            Ok((Status::Running, middle)) => run_of(middle, second),
            stopped => stopped,
        },
    decreases first,
{
    if first > 0 {
        match step_of(memory) {
            Ok((Status::Running, after)) => {
                lemma_run_continues(after, (first - 1) as nat, second);
            },
            _ => {},
        }
    }
}

/// A machine and its memory.
#[derive(Debug, Default)]
pub struct Machine<Mem: Memory> {
    pub memory: Mem,
}

impl<Mem: Memory> Machine<Mem> {
    /// The machine that works on `memory`. It starts where the cursor of `memory`
    /// stands.
    pub fn with_memory(memory: Mem) -> (machine: Self)
        ensures
            machine.memory == memory,
    {
        Machine { memory }
    }

    /// Fetches the instruction at the cursor and executes it, see [`step_of`].
    pub fn step(&mut self) -> (result: Result<Status, Fault<Mem::Error>>)
        ensures
            conforms::<Mem, Status>(result, final(self).memory@, step_of(old(self).memory@)),
    {
        match fetch_if_present::<Mem, Instruction>(&mut self.memory)? {
            None => Ok(Status::Halted),
            Some(instruction) => match instruction.execute(&mut self.memory)? {
                None => Ok(Status::Running),
                Some(request) => Ok(Status::Suspended(request)),
            },
        }
    }

    /// Runs the machine for at most `limit` steps, see [`run_of`]. The answer is
    /// `Halted` when the program has ended, `Suspended` when a floating-point
    /// instruction waits for its result, and `Running` when `limit` steps are done and
    /// the program has not ended; to go on, call `run` again.
    pub fn run(&mut self, limit: u64) -> (result: Result<Status, Fault<Mem::Error>>)
        ensures
            conforms::<Mem, Status>(
                result,
                final(self).memory@,
                run_of(old(self).memory@, limit as nat),
            ),
            limit == 0 ==> result is Ok,
    {
        let mut done: u64 = 0;
        while done < limit
            invariant
                done <= limit,
                run_of(old(self).memory@, limit as nat) == run_of(
                    self.memory@,
                    (limit - done) as nat,
                ),
            decreases limit - done,
        {
            match self.step()? {
                Status::Running => {},
                stopped => {
                    return Ok(stopped);
                },
            }
            done = done + 1;
        }
        Ok(Status::Running)
    }
}

} // verus!
