//! The instruction set: which byte names which instruction, which operands follow it,
//! and what it does to the memory.
//!
//! An instruction is one opcode byte and, directly behind it, its operands in their
//! encodings. The displacements among the operands count from the cursor as it stands
//! behind the last operand.

use crate::fault::{Fault, MemoryFault};
use crate::memory::memory_trait::{conforms, fetch, jump, put, Memory, MemoryView};
use crate::types::codec::{le_bytes, ReadWriteable};
use crate::types::offset::{Offset, OffsetPair};
use crate::types::word::{IntegerOp, WORD32, WORD64};
use vstd::prelude::*;

verus! {

/// An operation on two floating-point numbers.
#[derive(Debug, Clone, Copy, PartialEq, Eq, Structural)]
pub enum FloatOp {
    Add,
    Subtract,
    Multiply,
    Divide,
    Modulo,
    Power,
}

/// The two operands of a floating-point operation, left and right, as the bit patterns
/// of the numbers.
#[derive(Debug, Clone, Copy, PartialEq, Eq, Structural)]
pub enum FloatOperands {
    /// Numbers of 32 bits.
    Single(u32, u32),
    /// Numbers of 64 bits.
    Double(u64, u64),
}

/// A floating-point instruction whose operands have been read and whose result is
/// still to be computed. Whoever computes it hands the bit pattern of the result, in
/// the width of the operands, to [`OffsetPair::store`] on `output`, with the memory as
/// the instruction left it; that completes the instruction.
#[derive(Debug, Clone, Copy, PartialEq, Eq, Structural)]
pub struct FloatRequest {
    pub op: FloatOp,
    pub operands: FloatOperands,
    pub output: OffsetPair,
}

/// What an instruction does, apart from its name.
#[derive(Debug, Clone, Copy, PartialEq, Eq, Structural)]
pub enum Operation {
    /// Nothing. No operands.
    Noop,
    /// Displaces the cursor. Operand: the displacement.
    Jump,
    /// Displaces the cursor if the condition holds. Operands: the condition, one
    /// byte, and the displacement.
    JumpIf,
    /// Stores the result of an integer operation on 64-bit words. Operands: the two
    /// words and the pair of displacements for the result.
    Integer64(IntegerOp),
    /// The same on 32-bit words.
    Integer32(IntegerOp),
    /// Asks for a floating-point operation on 64-bit numbers. Operands as for the
    /// integer operations.
    Float64(FloatOp),
    /// The same on 32-bit numbers.
    Float32(FloatOp),
    /// Moves as many bytes as it says. Operands: the displacement to the source, and
    /// the displacement from behind the source to the destination.
    Move(u8),
    /// Moves as many bytes as its first operand says. Operands: the count, one byte,
    /// and the two displacements of `Move`.
    MoveN,
}

/// The instructions. Each is encoded in one byte, its opcode.
#[derive(Debug, Clone, Copy, PartialEq, Eq, Structural)]
pub enum Instruction {
    Noop,
    Jump,
    JumpIf,
    AddInteger64,
    SubtractInteger64,
    MultiplyInteger64,
    DivideUnsignedInteger64,
    DivideSignedInteger64,
    ModuloUnsignedInteger64,
    ModuloSignedInteger64,
    AddInteger32,
    SubtractInteger32,
    MultiplyInteger32,
    DivideUnsignedInteger32,
    DivideSignedInteger32,
    ModuloUnsignedInteger32,
    ModuloSignedInteger32,
    AddFloat32,
    SubtractFloat32,
    MultiplyFloat32,
    DivideFloat32,
    ModuloFloat32,
    PowerFloat32,
    AddFloat64,
    SubtractFloat64,
    MultiplyFloat64,
    DivideFloat64,
    ModuloFloat64,
    PowerFloat64,
    Move1,
    Move2,
    Move4,
    Move8,
    MoveN,
}

impl Instruction {
    /// The byte that names this instruction.
    pub open spec fn opcode_of(self) -> u8 {
        match self {
            Instruction::Noop => 0x00,
            Instruction::Jump => 0x01,
            Instruction::JumpIf => 0x02,
            Instruction::AddInteger64 => 0x10,
            Instruction::SubtractInteger64 => 0x11,
            Instruction::MultiplyInteger64 => 0x12,
            Instruction::DivideUnsignedInteger64 => 0x13,
            Instruction::DivideSignedInteger64 => 0x14,
            Instruction::ModuloUnsignedInteger64 => 0x15,
            Instruction::ModuloSignedInteger64 => 0x16,
            Instruction::AddInteger32 => 0x20,
            Instruction::SubtractInteger32 => 0x21,
            Instruction::MultiplyInteger32 => 0x22,
            Instruction::DivideUnsignedInteger32 => 0x23,
            Instruction::DivideSignedInteger32 => 0x24,
            Instruction::ModuloUnsignedInteger32 => 0x25,
            Instruction::ModuloSignedInteger32 => 0x26,
            Instruction::AddFloat32 => 0x30,
            Instruction::SubtractFloat32 => 0x31,
            Instruction::MultiplyFloat32 => 0x32,
            Instruction::DivideFloat32 => 0x33,
            Instruction::ModuloFloat32 => 0x34,
            Instruction::PowerFloat32 => 0x35,
            Instruction::AddFloat64 => 0x36,
            Instruction::SubtractFloat64 => 0x37,
            Instruction::MultiplyFloat64 => 0x38,
            Instruction::DivideFloat64 => 0x39,
            Instruction::ModuloFloat64 => 0x3A,
            Instruction::PowerFloat64 => 0x3B,
            Instruction::Move1 => 0x60,
            Instruction::Move2 => 0x61,
            Instruction::Move4 => 0x62,
            Instruction::Move8 => 0x63,
            Instruction::MoveN => 0x64,
        }
    }

    /// The instruction that `byte` names. A byte that names none stands for `Noop`.
    pub open spec fn named_by(byte: u8) -> Instruction {
        match byte {
            0x01 => Instruction::Jump,
            0x02 => Instruction::JumpIf,
            0x10 => Instruction::AddInteger64,
            0x11 => Instruction::SubtractInteger64,
            0x12 => Instruction::MultiplyInteger64,
            0x13 => Instruction::DivideUnsignedInteger64,
            0x14 => Instruction::DivideSignedInteger64,
            0x15 => Instruction::ModuloUnsignedInteger64,
            0x16 => Instruction::ModuloSignedInteger64,
            0x20 => Instruction::AddInteger32,
            0x21 => Instruction::SubtractInteger32,
            0x22 => Instruction::MultiplyInteger32,
            0x23 => Instruction::DivideUnsignedInteger32,
            0x24 => Instruction::DivideSignedInteger32,
            0x25 => Instruction::ModuloUnsignedInteger32,
            0x26 => Instruction::ModuloSignedInteger32,
            0x30 => Instruction::AddFloat32,
            0x31 => Instruction::SubtractFloat32,
            0x32 => Instruction::MultiplyFloat32,
            0x33 => Instruction::DivideFloat32,
            0x34 => Instruction::ModuloFloat32,
            0x35 => Instruction::PowerFloat32,
            0x36 => Instruction::AddFloat64,
            0x37 => Instruction::SubtractFloat64,
            0x38 => Instruction::MultiplyFloat64,
            0x39 => Instruction::DivideFloat64,
            0x3A => Instruction::ModuloFloat64,
            0x3B => Instruction::PowerFloat64,
            0x60 => Instruction::Move1,
            0x61 => Instruction::Move2,
            0x62 => Instruction::Move4,
            0x63 => Instruction::Move8,
            0x64 => Instruction::MoveN,
            _ => Instruction::Noop,
        }
    }

    /// What this instruction does.
    pub open spec fn operation_of(self) -> Operation {
        match self {
            Instruction::Noop => Operation::Noop,
            Instruction::Jump => Operation::Jump,
            Instruction::JumpIf => Operation::JumpIf,
            Instruction::AddInteger64 => Operation::Integer64(IntegerOp::Add),
            Instruction::SubtractInteger64 => Operation::Integer64(IntegerOp::Subtract),
            Instruction::MultiplyInteger64 => Operation::Integer64(IntegerOp::Multiply),
            Instruction::DivideUnsignedInteger64 => Operation::Integer64(IntegerOp::DivideUnsigned),
            Instruction::DivideSignedInteger64 => Operation::Integer64(IntegerOp::DivideSigned),
            Instruction::ModuloUnsignedInteger64 => Operation::Integer64(IntegerOp::ModuloUnsigned),
            Instruction::ModuloSignedInteger64 => Operation::Integer64(IntegerOp::ModuloSigned),
            Instruction::AddInteger32 => Operation::Integer32(IntegerOp::Add),
            Instruction::SubtractInteger32 => Operation::Integer32(IntegerOp::Subtract),
            Instruction::MultiplyInteger32 => Operation::Integer32(IntegerOp::Multiply),
            Instruction::DivideUnsignedInteger32 => Operation::Integer32(IntegerOp::DivideUnsigned),
            Instruction::DivideSignedInteger32 => Operation::Integer32(IntegerOp::DivideSigned),
            Instruction::ModuloUnsignedInteger32 => Operation::Integer32(IntegerOp::ModuloUnsigned),
            Instruction::ModuloSignedInteger32 => Operation::Integer32(IntegerOp::ModuloSigned),
            Instruction::AddFloat32 => Operation::Float32(FloatOp::Add),
            Instruction::SubtractFloat32 => Operation::Float32(FloatOp::Subtract),
            Instruction::MultiplyFloat32 => Operation::Float32(FloatOp::Multiply),
            Instruction::DivideFloat32 => Operation::Float32(FloatOp::Divide),
            Instruction::ModuloFloat32 => Operation::Float32(FloatOp::Modulo),
            Instruction::PowerFloat32 => Operation::Float32(FloatOp::Power),
            Instruction::AddFloat64 => Operation::Float64(FloatOp::Add),
            Instruction::SubtractFloat64 => Operation::Float64(FloatOp::Subtract),
            Instruction::MultiplyFloat64 => Operation::Float64(FloatOp::Multiply),
            Instruction::DivideFloat64 => Operation::Float64(FloatOp::Divide),
            Instruction::ModuloFloat64 => Operation::Float64(FloatOp::Modulo),
            Instruction::PowerFloat64 => Operation::Float64(FloatOp::Power),
            Instruction::Move1 => Operation::Move(1),
            Instruction::Move2 => Operation::Move(2),
            Instruction::Move4 => Operation::Move(4),
            Instruction::Move8 => Operation::Move(8),
            Instruction::MoveN => Operation::MoveN,
        }
    }

    /// The byte that names this instruction.
    #[verifier::when_used_as_spec(opcode_of)]
    pub fn opcode(self) -> (byte: u8)
        ensures
            byte == self.opcode_of(),
    {
        match self {
            Instruction::Noop => 0x00,
            Instruction::Jump => 0x01,
            Instruction::JumpIf => 0x02,
            Instruction::AddInteger64 => 0x10,
            Instruction::SubtractInteger64 => 0x11,
            Instruction::MultiplyInteger64 => 0x12,
            Instruction::DivideUnsignedInteger64 => 0x13,
            Instruction::DivideSignedInteger64 => 0x14,
            Instruction::ModuloUnsignedInteger64 => 0x15,
            Instruction::ModuloSignedInteger64 => 0x16,
            Instruction::AddInteger32 => 0x20,
            Instruction::SubtractInteger32 => 0x21,
            Instruction::MultiplyInteger32 => 0x22,
            Instruction::DivideUnsignedInteger32 => 0x23,
            Instruction::DivideSignedInteger32 => 0x24,
            Instruction::ModuloUnsignedInteger32 => 0x25,
            Instruction::ModuloSignedInteger32 => 0x26,
            Instruction::AddFloat32 => 0x30,
            Instruction::SubtractFloat32 => 0x31,
            Instruction::MultiplyFloat32 => 0x32,
            Instruction::DivideFloat32 => 0x33,
            Instruction::ModuloFloat32 => 0x34,
            Instruction::PowerFloat32 => 0x35,
            Instruction::AddFloat64 => 0x36,
            Instruction::SubtractFloat64 => 0x37,
            Instruction::MultiplyFloat64 => 0x38,
            Instruction::DivideFloat64 => 0x39,
            Instruction::ModuloFloat64 => 0x3A,
            Instruction::PowerFloat64 => 0x3B,
            Instruction::Move1 => 0x60,
            Instruction::Move2 => 0x61,
            Instruction::Move4 => 0x62,
            Instruction::Move8 => 0x63,
            Instruction::MoveN => 0x64,
        }
    }

    /// The instruction that `byte` names; `Noop` where it names none.
    #[verifier::when_used_as_spec(named_by)]
    pub fn from_opcode(byte: u8) -> (instruction: Instruction)
        ensures
            instruction == Instruction::named_by(byte),
    {
        match byte {
            0x01 => Instruction::Jump,
            0x02 => Instruction::JumpIf,
            0x10 => Instruction::AddInteger64,
            0x11 => Instruction::SubtractInteger64,
            0x12 => Instruction::MultiplyInteger64,
            0x13 => Instruction::DivideUnsignedInteger64,
            0x14 => Instruction::DivideSignedInteger64,
            0x15 => Instruction::ModuloUnsignedInteger64,
            0x16 => Instruction::ModuloSignedInteger64,
            0x20 => Instruction::AddInteger32,
            0x21 => Instruction::SubtractInteger32,
            0x22 => Instruction::MultiplyInteger32,
            0x23 => Instruction::DivideUnsignedInteger32,
            0x24 => Instruction::DivideSignedInteger32,
            0x25 => Instruction::ModuloUnsignedInteger32,
            0x26 => Instruction::ModuloSignedInteger32,
            0x30 => Instruction::AddFloat32,
            0x31 => Instruction::SubtractFloat32,
            0x32 => Instruction::MultiplyFloat32,
            0x33 => Instruction::DivideFloat32,
            0x34 => Instruction::ModuloFloat32,
            0x35 => Instruction::PowerFloat32,
            0x36 => Instruction::AddFloat64,
            0x37 => Instruction::SubtractFloat64,
            0x38 => Instruction::MultiplyFloat64,
            0x39 => Instruction::DivideFloat64,
            0x3A => Instruction::ModuloFloat64,
            0x3B => Instruction::PowerFloat64,
            0x60 => Instruction::Move1,
            0x61 => Instruction::Move2,
            0x62 => Instruction::Move4,
            0x63 => Instruction::Move8,
            0x64 => Instruction::MoveN,
            _ => Instruction::Noop,
        }
    }

    /// What this instruction does.
    #[verifier::when_used_as_spec(operation_of)]
    pub fn operation(self) -> (operation: Operation)
        ensures
            operation == self.operation_of(),
    {
        match self {
            Instruction::Noop => Operation::Noop,
            Instruction::Jump => Operation::Jump,
            Instruction::JumpIf => Operation::JumpIf,
            Instruction::AddInteger64 => Operation::Integer64(IntegerOp::Add),
            Instruction::SubtractInteger64 => Operation::Integer64(IntegerOp::Subtract),
            Instruction::MultiplyInteger64 => Operation::Integer64(IntegerOp::Multiply),
            Instruction::DivideUnsignedInteger64 => Operation::Integer64(IntegerOp::DivideUnsigned),
            Instruction::DivideSignedInteger64 => Operation::Integer64(IntegerOp::DivideSigned),
            Instruction::ModuloUnsignedInteger64 => Operation::Integer64(IntegerOp::ModuloUnsigned),
            Instruction::ModuloSignedInteger64 => Operation::Integer64(IntegerOp::ModuloSigned),
            Instruction::AddInteger32 => Operation::Integer32(IntegerOp::Add),
            Instruction::SubtractInteger32 => Operation::Integer32(IntegerOp::Subtract),
            Instruction::MultiplyInteger32 => Operation::Integer32(IntegerOp::Multiply),
            Instruction::DivideUnsignedInteger32 => Operation::Integer32(IntegerOp::DivideUnsigned),
            Instruction::DivideSignedInteger32 => Operation::Integer32(IntegerOp::DivideSigned),
            Instruction::ModuloUnsignedInteger32 => Operation::Integer32(IntegerOp::ModuloUnsigned),
            Instruction::ModuloSignedInteger32 => Operation::Integer32(IntegerOp::ModuloSigned),
            Instruction::AddFloat32 => Operation::Float32(FloatOp::Add),
            Instruction::SubtractFloat32 => Operation::Float32(FloatOp::Subtract),
            Instruction::MultiplyFloat32 => Operation::Float32(FloatOp::Multiply),
            Instruction::DivideFloat32 => Operation::Float32(FloatOp::Divide),
            Instruction::ModuloFloat32 => Operation::Float32(FloatOp::Modulo),
            Instruction::PowerFloat32 => Operation::Float32(FloatOp::Power),
            Instruction::AddFloat64 => Operation::Float64(FloatOp::Add),
            Instruction::SubtractFloat64 => Operation::Float64(FloatOp::Subtract),
            Instruction::MultiplyFloat64 => Operation::Float64(FloatOp::Multiply),
            Instruction::DivideFloat64 => Operation::Float64(FloatOp::Divide),
            Instruction::ModuloFloat64 => Operation::Float64(FloatOp::Modulo),
            Instruction::PowerFloat64 => Operation::Float64(FloatOp::Power),
            Instruction::Move1 => Operation::Move(1),
            Instruction::Move2 => Operation::Move(2),
            Instruction::Move4 => Operation::Move(4),
            Instruction::Move8 => Operation::Move(8),
            Instruction::MoveN => Operation::MoveN,
        }
    }
}

/// The outcome of an instruction that leaves nothing to compute.
pub open spec fn completed(outcome: Result<((), MemoryView), Fault<MemoryFault>>) -> Result<
    (Option<FloatRequest>, MemoryView),
    Fault<MemoryFault>,
> {
    match outcome {
        Ok((_, memory)) => Ok((None, memory)),
        Err(fault) => Err(fault),
    }
}

impl Operation {
    /// What the operation does to `memory`, whose cursor stands behind the opcode: the
    /// memory that it leaves, with the floating-point operation that is still to be
    /// computed if it asks for one, or the fault that stops it.
    ///
    /// The operands are read first, all of them; an integer operation is computed
    /// before its result is stored, so that a division by zero leaves the memory
    /// unwritten.
    pub open spec fn effect(self, memory: MemoryView) -> Result<
        (Option<FloatRequest>, MemoryView),
        Fault<MemoryFault>,
    > {
        match self {
            Operation::Noop => Ok((None, memory)),
            Operation::Jump => match memory.try_read::<Offset>() {
                Err(fault) => Err(fault),
                Ok((offset, behind)) => completed(behind.try_seek(offset)),
            },
            Operation::JumpIf => match memory.try_read::<(bool, Offset)>() {
                Err(fault) => Err(fault),
                Ok(((condition, offset), behind)) => if condition {
                    completed(behind.try_seek(offset))
                } else {
                    Ok((None, behind))
                },
            },
            Operation::Integer64(op) => match memory.try_read::<(u64, u64, OffsetPair)>() {
                Err(fault) => Err(fault),
                Ok(((left, right, output), behind)) => match op.apply(
                    left as nat,
                    right as nat,
                    WORD64 as nat,
                ) {
                    None => Err(Fault::DivisionByZero),
                    Some(word) => completed(behind.store(output, le_bytes(word, 8))),
                },
            },
            Operation::Integer32(op) => match memory.try_read::<(u32, u32, OffsetPair)>() {
                Err(fault) => Err(fault),
                Ok(((left, right, output), behind)) => match op.apply(
                    left as nat,
                    right as nat,
                    WORD32 as nat,
                ) {
                    None => Err(Fault::DivisionByZero),
                    Some(word) => completed(behind.store(output, le_bytes(word, 4))),
                },
            },
            Operation::Float64(op) => match memory.try_read::<(u64, u64, OffsetPair)>() {
                Err(fault) => Err(fault),
                Ok(((left, right, output), behind)) => {
                    let operands = FloatOperands::Double(left, right);
                    Ok((Some(FloatRequest { op, operands, output }), behind))
                },
            },
            Operation::Float32(op) => match memory.try_read::<(u32, u32, OffsetPair)>() {
                Err(fault) => Err(fault),
                Ok(((left, right, output), behind)) => {
                    let operands = FloatOperands::Single(left, right);
                    Ok((Some(FloatRequest { op, operands, output }), behind))
                },
            },
            Operation::Move(width) => match memory.try_read::<(Offset, Offset)>() {
                Err(fault) => Err(fault),
                Ok(((from, to), behind)) => completed(behind.transfer(width as nat, from, to)),
            },
            Operation::MoveN => match memory.try_read::<(u8, Offset, Offset)>() {
                Err(fault) => Err(fault),
                Ok(((width, from, to), behind)) => completed(
                    behind.transfer(width as nat, from, to),
                ),
            },
        }
    }
}

/// A division or a remainder by zero is a fault, whatever the left operand is: with
/// the operands in reach and a right operand of zero the instruction faults, and the
/// memory is not written.
pub proof fn lemma_division_by_zero_faults(operation: Operation, memory: MemoryView)
    requires
        match operation {
            Operation::Integer64(op) => {
                &&& op.divides()
                &&& memory.holds(20)
                &&& u64::decode(memory.window(20).subrange(8, 16)) == 0
            },
            Operation::Integer32(op) => {
                &&& op.divides()
                &&& memory.holds(12)
                &&& u32::decode(memory.window(12).subrange(4, 8)) == 0
            },
            _ => false,
        },
    ensures
        operation.effect(memory) == Err::<(Option<FloatRequest>, MemoryView), Fault<MemoryFault>>(
            Fault::DivisionByZero,
        ),
{
}

impl OffsetPair {
    /// Stores `value` as a result, see [`MemoryView::store`]: displaces the cursor by
    /// the first member, writes `value` there, and displaces the cursor by the second.
    pub fn store<M: Memory, T: ReadWriteable>(self, memory: &mut M, value: T) -> (result:
        Result<(), Fault<M::Error>>)
        requires
            T::width() <= usize::MAX,
        ensures
            conforms::<M, ()>(result, final(memory)@, old(memory)@.store(self, value.encode())),
    {
        jump(memory, self.0)?;
        put(memory, value)?;
        jump(memory, self.1)
    }
}

/// Moves `width` bytes, see [`MemoryView::transfer`]. The bytes are read and written
/// one by one.
pub(crate) fn transfer<M: Memory>(
    memory: &mut M,
    width: u8,
    from: Offset,
    to: Offset,
) -> (result: Result<(), Fault<M::Error>>)
    ensures
        conforms::<M, ()>(result, final(memory)@, old(memory)@.transfer(width as nat, from, to)),
{
    let ghost model = old(memory)@.transfer(width as nat, from, to);
    jump(memory, from)?;
    let ghost source = memory@;
    let mut data: Vec<u8> = Vec::with_capacity(width as usize);
    while data.len() < width as usize
        invariant
            data.len() <= width,
            data.len() > 0 ==> source.holds(data.len() as nat) && data@ == source.window(
                data.len() as nat,
            ),
            memory@ == source.advance(data.len() as nat),
            old(memory)@.try_seek(from) == Ok::<((), MemoryView), Fault<MemoryFault>>(
                ((), source),
            ),
            model == old(memory)@.transfer(width as nat, from, to),
        decreases width - data.len(),
    {
        let byte = fetch::<M, u8>(memory)?;
        proof {
            assert(source.window((data.len() + 1) as nat) =~= data@.push(byte));
        }
        data.push(byte);
    }
    jump(memory, to)?;
    if width == 0 {
        return Ok(());
    }
    let ghost target = memory@;
    let mut done: u8 = 0;
    while done < width
        invariant
            done <= width,
            data.len() == width,
            done == 0 ==> memory@ == target,
            done > 0 ==> target.admits(done as nat) && memory@ == target.write(
                data@.subrange(0, done as int),
            ).advance(done as nat),
            width > 0,
            model == target.try_write(data@),
            model == old(memory)@.transfer(width as nat, from, to),
        decreases width - done,
    {
        let ghost before = memory@;
        put(memory, data[done as usize])?;
        proof {
            let longer = data@.subrange(0, done + 1);
            assert(before.write(seq![data@[done as int]]).bytes =~= target.write(longer).bytes);
        }
        jump(memory, Offset(1))?;
        done = done + 1;
    }
    proof {
        assert(data@.subrange(0, width as int) =~= data@);
    }
    jump(memory, Offset(-(width as i16)))
}

impl Instruction {
    /// What this instruction does, see [`Operation::effect`].
    pub open spec fn effect(self, memory: MemoryView) -> Result<
        (Option<FloatRequest>, MemoryView),
        Fault<MemoryFault>,
    > {
        self.operation_of().effect(memory)
    }

    /// Executes this instruction on `mem`, whose cursor stands behind its opcode.
    ///
    /// The answer is `Ok(None)` when the instruction is done, and `Ok(Some(request))`
    /// when it is a floating-point instruction: its operands are read then, and it is
    /// for the caller to compute and store the result, see [`FloatRequest`].
    pub fn execute<Mem: Memory>(&self, mem: &mut Mem) -> (result: Result<
        Option<FloatRequest>,
        Fault<Mem::Error>,
    >)
        ensures
            conforms::<Mem, Option<FloatRequest>>(result, final(mem)@, self.effect(old(mem)@)),
            self.operation_of() == Operation::Noop ==> result is Ok,
    {
        match self.operation() {
            Operation::Noop => Ok(None),
            Operation::Jump => {
                let offset = fetch::<Mem, Offset>(mem)?;
                jump(mem, offset)?;
                Ok(None)
            },
            Operation::JumpIf => {
                let (condition, offset) = fetch::<Mem, (bool, Offset)>(mem)?;
                if condition {
                    jump(mem, offset)?;
                }
                Ok(None)
            },
            Operation::Integer64(op) => {
                let (left, right, output) = fetch::<Mem, (u64, u64, OffsetPair)>(mem)?;
                match op.apply64(left, right) {
                    None => Err(Fault::DivisionByZero),
                    Some(word) => {
                        output.store(mem, word)?;
                        Ok(None)
                    },
                }
            },
            Operation::Integer32(op) => {
                let (left, right, output) = fetch::<Mem, (u32, u32, OffsetPair)>(mem)?;
                match op.apply32(left, right) {
                    None => Err(Fault::DivisionByZero),
                    Some(word) => {
                        output.store(mem, word)?;
                        Ok(None)
                    },
                }
            },
            Operation::Float64(op) => {
                let (left, right, output) = fetch::<Mem, (u64, u64, OffsetPair)>(mem)?;
                let operands = FloatOperands::Double(left, right);
                Ok(Some(FloatRequest { op, operands, output }))
            },
            Operation::Float32(op) => {
                let (left, right, output) = fetch::<Mem, (u32, u32, OffsetPair)>(mem)?;
                let operands = FloatOperands::Single(left, right);
                Ok(Some(FloatRequest { op, operands, output }))
            },
            Operation::Move(width) => {
                let (from, to) = fetch::<Mem, (Offset, Offset)>(mem)?;
                transfer(mem, width, from, to)?;
                Ok(None)
            },
            Operation::MoveN => {
                let (width, from, to) = fetch::<Mem, (u8, Offset, Offset)>(mem)?;
                transfer(mem, width, from, to)?;
                Ok(None)
            },
        }
    }
}

impl ReadWriteable for Instruction {
    const NUM_BYTES: usize = 1;

    open spec fn width() -> nat {
        1
    }

    open spec fn decode(bytes: Seq<u8>) -> Self {
        Instruction::named_by(bytes[0])
    }

    open spec fn encode(self) -> Seq<u8> {
        seq![self.opcode_of()]
    }

    proof fn lemma_num_bytes() {
    }

    proof fn lemma_round_trip(value: Self) {
    }

    fn from_bytes(bytes: &[u8]) -> (value: Self) {
        Instruction::from_opcode(bytes[0])
    }

    fn into_bytes(self, bytes: &mut [u8]) {
        bytes[0] = self.opcode();
        assert(bytes@ =~= self.encode() + old(bytes)@.subrange(1, old(bytes)@.len() as int));
    }
}

} // verus!
