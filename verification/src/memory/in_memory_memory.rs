//! Memory in a growable buffer.

use crate::fault::{Fault, MemoryFault};
use crate::memory::memory_trait::{
    conforms, displaced, extent, presence, Memory, MemoryView, Presence,
};
use crate::types::codec::{decode_from, ReadWriteable};
use crate::types::instruction::Instruction;
use crate::types::offset::Offset;
use vstd::prelude::*;

verus! {

/// Memory that is held in a vector, which grows when a write ends beyond it and never
/// shrinks. It is the model itself: every operation does exactly what [`MemoryView`]
/// says, and fails exactly where the model refuses, leaving the memory as it was.
#[derive(Debug, Clone, PartialEq, Eq)]
pub struct InMemoryMemory {
    pub pc: usize,
    pub memory: Vec<u8>,
}

impl Default for InMemoryMemory {
    /// The empty memory, with the cursor at 0.
    fn default() -> (memory: Self)
        ensures
            memory@ == (MemoryView { cursor: 0, bytes: Seq::empty() }),
    {
        InMemoryMemory { pc: 0, memory: Vec::new() }
    }
}

impl InMemoryMemory {
    /// The memory that holds `memory`, with the cursor at 0.
    pub fn from_vec(memory: Vec<u8>) -> (result: Self)
        ensures
            result.pc == 0,
            result.memory == memory,
            result@ == (MemoryView { cursor: 0, bytes: memory@ }),
    {
        InMemoryMemory { pc: 0, memory }
    }

    /// A builder that holds no bytes yet.
    pub fn builder() -> (builder: InMemoryBuilder)
        ensures
            builder@ == Seq::<u8>::empty(),
    {
        InMemoryBuilder::new()
    }
}

impl Memory for InMemoryMemory {
    type Error = MemoryFault;

    open spec fn view(&self) -> MemoryView {
        MemoryView { cursor: self.pc as nat, bytes: self.memory@ }
    }

    open spec fn fault_of(error: MemoryFault) -> Option<MemoryFault> {
        Some(error)
    }

    fn read<T: ReadWriteable>(&mut self) -> (result: Result<T, MemoryFault>)
        ensures
            result is Err ==> *final(self) == *old(self),
    {
        proof {
            T::lemma_num_bytes();
        }
        let len = self.memory.len();
        if self.pc > len {
            return Err(MemoryFault::UnexpectedEnd);
        }
        let value = decode_from::<T>(&self.memory[self.pc..len])?;
        proof {
            assert(self.memory@.subrange(self.pc as int, len as int).subrange(
                0,
                T::width() as int,
            ) =~= self@.window(T::width()));
        }
        self.pc = self.pc + T::NUM_BYTES;
        Ok(value)
    }

    fn read_if_present<T: ReadWriteable>(&mut self) -> (result: Result<Option<T>, MemoryFault>)
        ensures
            result is Err ==> *final(self) == *old(self),
    {
        proof {
            T::lemma_num_bytes();
        }
        match presence(self.pc, self.memory.len(), T::NUM_BYTES) {
            Presence::Present => Ok(Some(self.read::<T>()?)),
            Presence::Absent => Ok(None),
            Presence::CutOff => Err(MemoryFault::UnexpectedEnd),
        }
    }

    fn write<T: ReadWriteable>(&mut self, value: T) -> (result: Result<(), MemoryFault>)
        ensures
            result is Err ==> *final(self) == *old(self),
            result is Ok ==> forall|i: int|
                old(self).memory@.len() <= i < old(self).pc ==> final(self).memory@[i] == 0,
    {
        proof {
            T::lemma_num_bytes();
            T::lemma_round_trip(value);
        }
        let end = match extent(self.pc, T::NUM_BYTES) {
            Some(end) => end,
            None => {
                return Err(MemoryFault::OutOfRange);
            },
        };
        if end > self.memory.len() {
            self.memory.resize(end, 0);
        }
        let (_, tail) = self.memory.as_mut_slice().split_at_mut(self.pc);
        value.into_bytes(tail);
        proof {
            assert(self.memory@ =~= old(self)@.write(value.encode()).bytes);
        }
        Ok(())
    }

    fn seek(&mut self, pos: Offset) -> (result: Result<(), MemoryFault>)
        ensures
            result is Err ==> *final(self) == *old(self),
    {
        match displaced(self.pc, pos) {
            Some(pc) => {
                self.pc = pc;
                Ok(())
            },
            None => Err(MemoryFault::OutOfRange),
        }
    }
}

/// Puts a program together, piece by piece: each piece goes behind what is there.
#[derive(Debug, Clone, PartialEq, Eq)]
pub struct InMemoryBuilder {
    memory: Vec<u8>,
}

impl View for InMemoryBuilder {
    type V = Seq<u8>;

    /// The bytes put together so far.
    closed spec fn view(&self) -> Seq<u8> {
        self.memory@
    }
}

impl Default for InMemoryBuilder {
    fn default() -> (builder: Self)
        ensures
            builder@ == Seq::<u8>::empty(),
    {
        InMemoryBuilder::new()
    }
}

impl InMemoryBuilder {
    fn new() -> (builder: Self)
        ensures
            builder@ == Seq::<u8>::empty(),
    {
        InMemoryBuilder { memory: Vec::new() }
    }

    /// Adds an instruction: its opcode, then `args`, its operands, in their encoding.
    pub fn instruction<Rw: ReadWriteable>(self, instruction: Instruction, args: Rw) -> (builder:
        Self)
        requires
            Rw::width() <= usize::MAX,
        ensures
            builder@ == self@.push(instruction.opcode_of()) + args.encode(),
    {
        self.byte(instruction.opcode()).data(args)
    }

    /// Adds `data` in its encoding.
    pub fn data<Rw: ReadWriteable>(self, data: Rw) -> (builder: Self)
        requires
            Rw::width() <= usize::MAX,
        ensures
            builder@ == self@ + data.encode(),
    {
        proof {
            Rw::lemma_num_bytes();
            Rw::lemma_round_trip(data);
        }
        let mut buffer = vec![0u8; Rw::NUM_BYTES];
        data.into_bytes(buffer.as_mut_slice());
        proof {
            assert(buffer@ =~= data.encode());
        }
        self.bytes(buffer.as_slice())
    }

    /// Adds one byte.
    pub fn byte(self, byte: u8) -> (builder: Self)
        ensures
            builder@ == self@.push(byte),
    {
        let mut memory = self.memory;
        memory.push(byte);
        InMemoryBuilder { memory }
    }

    /// Adds `bytes`.
    pub fn bytes(self, bytes: &[u8]) -> (builder: Self)
        ensures
            builder@ == self@ + bytes@,
    {
        let mut memory = self.memory;
        memory.extend_from_slice(bytes);
        proof {
            assert(memory@ =~= self@ + bytes@);
        }
        InMemoryBuilder { memory }
    }

    /// The memory that holds what was put together, with the cursor at 0.
    pub fn build(self) -> (memory: InMemoryMemory)
        ensures
            memory@ == (MemoryView { cursor: 0, bytes: self@ }),
    {
        InMemoryMemory::from_vec(self.memory)
    }
}

/// On this memory every operation returns what the model gives: there is no store
/// behind it that could fail.
pub proof fn lemma_in_memory_is_the_model<T>(
    result: Result<T, Fault<MemoryFault>>,
    after: MemoryView,
    model: Result<(T, MemoryView), Fault<MemoryFault>>,
)
    requires
        conforms::<InMemoryMemory, T>(result, after, model),
    ensures
        model == match result {
            Ok(value) => Ok::<(T, MemoryView), Fault<MemoryFault>>((value, after)),
            Err(fault) => Err::<(T, MemoryView), Fault<MemoryFault>>(fault),
        },
{
}

} // verus!
