use esolang::fault::{Fault, MemoryFault};
use esolang::memory::{InMemoryBuilder, InMemoryMemory, Memory};
use esolang::types::{
    decode_from, FloatOp, Instruction, IntegerOp, Offset, OffsetPair, Operation, ReadWriteable,
};

#[test]
fn test_executing_jump() {
    let mut mem = InMemoryMemory::from_vec(vec![0x03, 0x02]);
    let instruction = Instruction::Jump;
    instruction.execute(&mut mem).unwrap();
    assert_eq!(mem.pc, 0x0205);
}

#[test]
fn test_executing_jump_if_true() {
    let mut mem = InMemoryMemory::from_vec(vec![0x01, 0x03, 0x02]);
    let instruction = Instruction::JumpIf;
    instruction.execute(&mut mem).unwrap();
    assert_eq!(mem.pc, 0x0206);
}

#[test]
fn test_executing_jump_if_false() {
    let mut mem = InMemoryMemory::from_vec(vec![0x00, 0x03, 0x02]);
    let instruction = Instruction::JumpIf;
    instruction.execute(&mut mem).unwrap();
    assert_eq!(mem.pc, 0x03);
}

#[test]
fn test_executing_u32_add_on_zeroes() {
    let mut mem = InMemoryMemory::from_vec(vec![0x00; 12]);
    let instruction = Instruction::AddInteger32;
    instruction.execute(&mut mem).unwrap();

    assert_eq!(mem.pc, 12);
    assert_eq!(mem.read::<u32>().unwrap(), 0);
    assert_eq!(mem.memory.len(), 16);
}

#[test]
fn test_executing_u32_add_on_nonzero_values() {
    let instruction = Instruction::AddInteger32;
    let mut mem = InMemoryMemory::builder()
        .data(5_u32)
        .data(15_u32)
        .data((Offset(0), Offset(0)))
        .build();
    instruction.execute(&mut mem).unwrap();

    assert_eq!(mem.pc, 12);
    assert_eq!(mem.read::<u32>().unwrap(), 20);
    assert_eq!(mem.memory.len(), 16);
}

fn encoded<T: ReadWriteable>(value: T) -> Vec<u8> {
    let mut bytes = vec![0xAA_u8; T::NUM_BYTES + 2];
    value.into_bytes(&mut bytes);
    // the bytes behind the encoding stay as they were
    assert_eq!(bytes[T::NUM_BYTES..], [0xAA, 0xAA]);
    bytes.truncate(T::NUM_BYTES);
    bytes
}

fn decoded<T: ReadWriteable>(bytes: &[u8]) -> T {
    assert_eq!(bytes.len(), T::NUM_BYTES);
    // the bytes behind the encoding are not read
    let mut longer = bytes.to_vec();
    longer.extend_from_slice(&[0x55, 0x55, 0x55]);
    T::from_bytes(&longer)
}

fn round_trip<T: ReadWriteable + Clone + PartialEq + std::fmt::Debug>(value: T) {
    let bytes = encoded(value.clone());
    assert_eq!(decoded::<T>(&bytes), value);
    assert_eq!(T::from_bytes(&bytes), value);
}

#[test]
fn too_few_bytes_are_an_unexpected_end() {
    assert_eq!(decode_from::<u32>(&[1, 2, 3, 4]), Ok(0x0403_0201));
    assert_eq!(decode_from::<u32>(&[1, 2, 3, 4, 5]), Ok(0x0403_0201));
    assert_eq!(decode_from::<u32>(&[1, 2, 3]), Err(MemoryFault::UnexpectedEnd));
    assert_eq!(decode_from::<u32>(&[]), Err(MemoryFault::UnexpectedEnd));
    assert_eq!(decode_from::<()>(&[]), Ok(()));
    assert_eq!(decode_from::<(u8, Offset)>(&[1, 2, 3]), Ok((1, Offset(0x0302))));
    assert_eq!(
        decode_from::<(u8, Offset)>(&[1, 2]),
        Err(MemoryFault::UnexpectedEnd)
    );
    assert_eq!(decode_from::<[u8; 2]>(&[1]), Err(MemoryFault::UnexpectedEnd));
    assert_eq!(decode_from::<Instruction>(&[0x64]), Ok(Instruction::MoveN));
    assert_eq!(decode_from::<Instruction>(&[]), Err(MemoryFault::UnexpectedEnd));
}

#[test]
fn widths_are_fixed() {
    assert_eq!(<u8 as ReadWriteable>::NUM_BYTES, 1);
    assert_eq!(<bool as ReadWriteable>::NUM_BYTES, 1);
    assert_eq!(<() as ReadWriteable>::NUM_BYTES, 0);
    assert_eq!(<u32 as ReadWriteable>::NUM_BYTES, 4);
    assert_eq!(<u64 as ReadWriteable>::NUM_BYTES, 8);
    assert_eq!(<Offset as ReadWriteable>::NUM_BYTES, 2);
    assert_eq!(<OffsetPair as ReadWriteable>::NUM_BYTES, 4);
    assert_eq!(<Instruction as ReadWriteable>::NUM_BYTES, 1);
    assert_eq!(<[u8; 0] as ReadWriteable>::NUM_BYTES, 0);
    assert_eq!(<[u8; 7] as ReadWriteable>::NUM_BYTES, 7);
    assert_eq!(<(u32,) as ReadWriteable>::NUM_BYTES, 4);
    assert_eq!(<(u8, u64) as ReadWriteable>::NUM_BYTES, 9);
    assert_eq!(<(u8, u64, Offset) as ReadWriteable>::NUM_BYTES, 11);
    assert_eq!(<(u8, u64, Offset, bool) as ReadWriteable>::NUM_BYTES, 12);
    assert_eq!(<(u8, u64, Offset, bool, [u8; 3]) as ReadWriteable>::NUM_BYTES, 15);
    assert_eq!(<(u32, u32, (Offset, Offset)) as ReadWriteable>::NUM_BYTES, 12);
}

#[test]
fn integers_are_little_endian() {
    assert_eq!(encoded(0x1234_5678_u32), [0x78, 0x56, 0x34, 0x12]);
    assert_eq!(decoded::<u32>(&[0x78, 0x56, 0x34, 0x12]), 0x1234_5678);
    assert_eq!(
        encoded(0x0102_0304_0506_0708_u64),
        [0x08, 0x07, 0x06, 0x05, 0x04, 0x03, 0x02, 0x01]
    );
    assert_eq!(
        decoded::<u64>(&[0x08, 0x07, 0x06, 0x05, 0x04, 0x03, 0x02, 0x01]),
        0x0102_0304_0506_0708
    );
    assert_eq!(encoded(0xAB_u8), [0xAB]);
    assert_eq!(decoded::<u8>(&[0xAB]), 0xAB);
    assert_eq!(encoded(u32::MAX), [0xFF; 4]);
    assert_eq!(encoded(u64::MAX), [0xFF; 8]);
    assert_eq!(encoded(0_u64), [0x00; 8]);
}

#[test]
fn offsets_are_little_endian_in_twos_complement() {
    assert_eq!(decoded::<Offset>(&[0x03, 0x02]), Offset(515));
    assert_eq!(encoded(Offset(515)), [0x03, 0x02]);
    assert_eq!(decoded::<Offset>(&[0xFC, 0xFF]), Offset(-4));
    assert_eq!(encoded(Offset(-4)), [0xFC, 0xFF]);
    assert_eq!(encoded(Offset(i16::MAX)), [0xFF, 0x7F]);
    assert_eq!(encoded(Offset(i16::MIN)), [0x00, 0x80]);
    assert_eq!(decoded::<Offset>(&[0x00, 0x80]), Offset(i16::MIN));
    assert_eq!(decoded::<Offset>(&[0xFF, 0x7F]), Offset(i16::MAX));
    assert_eq!(encoded(Offset(-1)), [0xFF, 0xFF]);
    assert_eq!(encoded(Offset(0)), [0x00, 0x00]);
    assert_eq!(
        encoded(OffsetPair(Offset(5), Offset(-7))),
        [0x05, 0x00, 0xF9, 0xFF]
    );
    assert_eq!(
        decoded::<OffsetPair>(&[0x05, 0x00, 0xF9, 0xFF]),
        OffsetPair(Offset(5), Offset(-7))
    );
    assert_eq!(Offset::default(), Offset(0));
    assert_eq!(OffsetPair::default(), OffsetPair(Offset(0), Offset(0)));
}

#[test]
fn every_offset_survives_the_round_trip() {
    for value in i16::MIN..=i16::MAX {
        let bytes = encoded(Offset(value));
        assert_eq!(bytes, value.to_le_bytes());
        assert_eq!(decoded::<Offset>(&bytes), Offset(value));
    }
}

#[test]
fn booleans_take_one_byte() {
    assert_eq!(encoded(true), [0x01]);
    assert_eq!(encoded(false), [0x00]);
    assert!(!decoded::<bool>(&[0x00]));
    assert!(decoded::<bool>(&[0x01]));
    assert!(decoded::<bool>(&[0x02]));
    assert!(decoded::<bool>(&[0xFF]));
}

#[test]
fn byte_arrays_are_encoded_as_they_are() {
    assert_eq!(encoded([1_u8, 2, 3]), [1, 2, 3]);
    assert_eq!(decoded::<[u8; 3]>(&[1, 2, 3]), [1, 2, 3]);
    assert_eq!(encoded::<[u8; 0]>([]), [0_u8; 0]);
    assert_eq!(decoded::<[u8; 0]>(&[]), [0_u8; 0]);
    round_trip([0xFF_u8; 16]);
    round_trip([0x00_u8; 1]);
}

#[test]
fn the_unit_takes_no_bytes() {
    assert_eq!(encoded(()), [0_u8; 0]);
    decoded::<()>(&[]);
}

#[test]
fn tuples_are_encoded_member_by_member() {
    assert_eq!(encoded((0x11_u8,)), [0x11]);
    assert_eq!(encoded((0x11_u8, Offset(-2))), [0x11, 0xFE, 0xFF]);
    assert_eq!(
        encoded((0x11_u8, Offset(-2), 0xA1B2C3D4_u32)),
        [0x11, 0xFE, 0xFF, 0xD4, 0xC3, 0xB2, 0xA1]
    );
    assert_eq!(
        encoded((0x11_u8, Offset(-2), 0xA1B2C3D4_u32, true)),
        [0x11, 0xFE, 0xFF, 0xD4, 0xC3, 0xB2, 0xA1, 0x01]
    );
    assert_eq!(
        encoded((0x11_u8, Offset(-2), 0xA1B2C3D4_u32, true, [7_u8, 8])),
        [0x11, 0xFE, 0xFF, 0xD4, 0xC3, 0xB2, 0xA1, 0x01, 0x07, 0x08]
    );
    assert_eq!(
        decoded::<(u8, Offset, u32, bool, [u8; 2])>(&[
            0x11, 0xFE, 0xFF, 0xD4, 0xC3, 0xB2, 0xA1, 0x01, 0x07, 0x08
        ]),
        (0x11, Offset(-2), 0xA1B2C3D4, true, [7, 8])
    );
    assert_eq!(
        decoded::<(u8, Offset, u32, bool)>(&[0x11, 0xFE, 0xFF, 0xD4, 0xC3, 0xB2, 0xA1, 0x00]),
        (0x11, Offset(-2), 0xA1B2C3D4, false)
    );
    assert_eq!(
        decoded::<(u8, Offset, u32)>(&[0x11, 0xFE, 0xFF, 0xD4, 0xC3, 0xB2, 0xA1]),
        (0x11, Offset(-2), 0xA1B2C3D4)
    );
    assert_eq!(
        decoded::<(u8, Offset)>(&[0x11, 0xFE, 0xFF]),
        (0x11, Offset(-2))
    );
    assert_eq!(decoded::<(u64,)>(&[1, 0, 0, 0, 0, 0, 0, 0]), (1,));
    // a tuple within a tuple
    assert_eq!(
        encoded((5_u32, 15_u32, (Offset(1), Offset(2)))),
        [5, 0, 0, 0, 15, 0, 0, 0, 1, 0, 2, 0]
    );
    assert_eq!(encoded(((), 3_u8, ())), [3]);
}

#[test]
fn values_survive_the_round_trip() {
    for value in [0_u8, 1, 0x7F, 0x80, 0xFF] {
        round_trip(value);
        round_trip((value,));
        round_trip([value; 5]);
    }
    for value in [0_u32, 1, 0xFF, 0x100, 0x7FFF_FFFF, 0x8000_0000, u32::MAX] {
        round_trip(value);
        round_trip((value, true));
        round_trip((false, value, Offset(-1)));
    }
    for value in [
        0_u64,
        1,
        0xFFFF_FFFF,
        0x1_0000_0000,
        0x7FFF_FFFF_FFFF_FFFF,
        0x8000_0000_0000_0000,
        u64::MAX,
    ] {
        round_trip(value);
        round_trip((value, value ^ 0x5555, OffsetPair(Offset(i16::MIN), Offset(i16::MAX))));
        round_trip((1_u8, value, 2_u32, [3_u8; 3]));
        round_trip(((), value, (value, (value,)), true, Offset(12)));
    }
    for value in [true, false] {
        round_trip(value);
    }
    for value in [i16::MIN, -1, 0, 1, i16::MAX] {
        round_trip(Offset(value));
        round_trip(OffsetPair(Offset(value), Offset(-1 - value)));
    }
    round_trip(());
}

#[test]
fn floating_point_numbers_travel_as_their_bit_patterns() {
    for value in [0.0_f32, -0.0, 1.0, -1.5, f32::MAX, f32::MIN, f32::MIN_POSITIVE, f32::INFINITY] {
        let bytes = encoded(value.to_bits());
        assert_eq!(bytes, value.to_le_bytes());
        assert_eq!(f32::from_bits(decoded::<u32>(&bytes)).to_bits(), value.to_bits());
    }
    for value in [0.0_f64, -0.0, 1.0, -1.5, f64::MAX, f64::MIN, f64::MIN_POSITIVE, f64::NEG_INFINITY] {
        let bytes = encoded(value.to_bits());
        assert_eq!(bytes, value.to_le_bytes());
        assert_eq!(f64::from_bits(decoded::<u64>(&bytes)).to_bits(), value.to_bits());
    }
    let bytes = encoded(f64::NAN.to_bits());
    assert!(f64::from_bits(decoded::<u64>(&bytes)).is_nan());
}

const OPCODES: [(u8, Instruction); 34] = [
    (0x00, Instruction::Noop),
    (0x01, Instruction::Jump),
    (0x02, Instruction::JumpIf),
    (0x10, Instruction::AddInteger64),
    (0x11, Instruction::SubtractInteger64),
    (0x12, Instruction::MultiplyInteger64),
    (0x13, Instruction::DivideUnsignedInteger64),
    (0x14, Instruction::DivideSignedInteger64),
    (0x15, Instruction::ModuloUnsignedInteger64),
    (0x16, Instruction::ModuloSignedInteger64),
    (0x20, Instruction::AddInteger32),
    (0x21, Instruction::SubtractInteger32),
    (0x22, Instruction::MultiplyInteger32),
    (0x23, Instruction::DivideUnsignedInteger32),
    (0x24, Instruction::DivideSignedInteger32),
    (0x25, Instruction::ModuloUnsignedInteger32),
    (0x26, Instruction::ModuloSignedInteger32),
    (0x30, Instruction::AddFloat32),
    (0x31, Instruction::SubtractFloat32),
    (0x32, Instruction::MultiplyFloat32),
    (0x33, Instruction::DivideFloat32),
    (0x34, Instruction::ModuloFloat32),
    (0x35, Instruction::PowerFloat32),
    (0x36, Instruction::AddFloat64),
    (0x37, Instruction::SubtractFloat64),
    (0x38, Instruction::MultiplyFloat64),
    (0x39, Instruction::DivideFloat64),
    (0x3A, Instruction::ModuloFloat64),
    (0x3B, Instruction::PowerFloat64),
    (0x60, Instruction::Move1),
    (0x61, Instruction::Move2),
    (0x62, Instruction::Move4),
    (0x63, Instruction::Move8),
    (0x64, Instruction::MoveN),
];

#[test]
fn every_instruction_has_its_opcode() {
    for (byte, instruction) in OPCODES {
        assert_eq!(instruction.opcode(), byte);
        assert_eq!(Instruction::from_opcode(byte), instruction);
        assert_eq!(encoded(instruction), [byte]);
        assert_eq!(decoded::<Instruction>(&[byte]), instruction);
        round_trip(instruction);
    }
}

#[test]
fn a_byte_that_names_no_instruction_stands_for_noop() {
    for byte in 0..=u8::MAX {
        let named = OPCODES.iter().find(|(opcode, _)| *opcode == byte);
        let instruction = Instruction::from_opcode(byte);
        match named {
            Some((_, expected)) => assert_eq!(instruction, *expected),
            None => assert_eq!(instruction, Instruction::Noop),
        }
        assert_eq!(decoded::<Instruction>(&[byte]), instruction);
    }
}

#[test]
fn instructions_are_grouped_into_operations() {
    assert_eq!(Instruction::Noop.operation(), Operation::Noop);
    assert_eq!(Instruction::Jump.operation(), Operation::Jump);
    assert_eq!(Instruction::JumpIf.operation(), Operation::JumpIf);
    assert_eq!(
        Instruction::ModuloSignedInteger64.operation(),
        Operation::Integer64(IntegerOp::ModuloSigned)
    );
    assert_eq!(
        Instruction::DivideUnsignedInteger32.operation(),
        Operation::Integer32(IntegerOp::DivideUnsigned)
    );
    assert_eq!(
        Instruction::AddInteger64.operation(),
        Operation::Integer64(IntegerOp::Add)
    );
    assert_eq!(
        Instruction::SubtractInteger64.operation(),
        Operation::Integer64(IntegerOp::Subtract)
    );
    assert_eq!(
        Instruction::MultiplyInteger32.operation(),
        Operation::Integer32(IntegerOp::Multiply)
    );
    assert_eq!(
        Instruction::DivideSignedInteger32.operation(),
        Operation::Integer32(IntegerOp::DivideSigned)
    );
    assert_eq!(
        Instruction::ModuloUnsignedInteger64.operation(),
        Operation::Integer64(IntegerOp::ModuloUnsigned)
    );
    assert_eq!(
        Instruction::PowerFloat32.operation(),
        Operation::Float32(FloatOp::Power)
    );
    assert_eq!(
        Instruction::AddFloat64.operation(),
        Operation::Float64(FloatOp::Add)
    );
    assert_eq!(Instruction::Move1.operation(), Operation::Move(1));
    assert_eq!(Instruction::Move2.operation(), Operation::Move(2));
    assert_eq!(Instruction::Move4.operation(), Operation::Move(4));
    assert_eq!(Instruction::Move8.operation(), Operation::Move(8));
    assert_eq!(Instruction::MoveN.operation(), Operation::MoveN);
}

#[test]
fn sums_differences_and_products_wrap_around() {
    assert_eq!(IntegerOp::Add.apply32(5, 15), Some(20));
    assert_eq!(IntegerOp::Add.apply32(u32::MAX, 2), Some(1));
    assert_eq!(IntegerOp::Add.apply64(u64::MAX, u64::MAX), Some(u64::MAX - 1));
    assert_eq!(IntegerOp::Subtract.apply32(3, 5), Some(u32::MAX - 1));
    assert_eq!(IntegerOp::Subtract.apply64(0, 1), Some(u64::MAX));
    assert_eq!(IntegerOp::Subtract.apply64(9, 4), Some(5));
    assert_eq!(IntegerOp::Multiply.apply32(0x1_0000, 0x1_0000), Some(0));
    assert_eq!(IntegerOp::Multiply.apply32(0x8000_0001, 2), Some(2));
    assert_eq!(IntegerOp::Multiply.apply64(6, 7), Some(42));
    assert_eq!(
        IntegerOp::Multiply.apply64(0xFFFF_FFFF_FFFF_FFFF, 0xFFFF_FFFF_FFFF_FFFF),
        Some(1)
    );
}

#[test]
fn quotients_are_rounded_toward_zero() {
    assert_eq!(IntegerOp::DivideUnsigned.apply32(7, 2), Some(3));
    assert_eq!(IntegerOp::ModuloUnsigned.apply32(7, 2), Some(1));
    assert_eq!(IntegerOp::DivideUnsigned.apply64(u64::MAX, 2), Some(u64::MAX / 2));
    assert_eq!(IntegerOp::ModuloUnsigned.apply64(u64::MAX, 10), Some(5));
    // -7 / 2 is -3, and -1 is left
    assert_eq!(
        IntegerOp::DivideSigned.apply64(-7_i64 as u64, 2),
        Some(-3_i64 as u64)
    );
    assert_eq!(
        IntegerOp::ModuloSigned.apply64(-7_i64 as u64, 2),
        Some(-1_i64 as u64)
    );
    // 7 / -2 is -3, and 1 is left
    assert_eq!(
        IntegerOp::DivideSigned.apply32(7, -2_i32 as u32),
        Some(-3_i32 as u32)
    );
    assert_eq!(IntegerOp::ModuloSigned.apply32(7, -2_i32 as u32), Some(1));
    // -7 / -2 is 3, and -1 is left
    assert_eq!(
        IntegerOp::DivideSigned.apply32(-7_i32 as u32, -2_i32 as u32),
        Some(3)
    );
    assert_eq!(
        IntegerOp::ModuloSigned.apply32(-7_i32 as u32, -2_i32 as u32),
        Some(-1_i32 as u32)
    );
    // the unsigned operations take the same words as large numbers
    assert_eq!(
        IntegerOp::DivideUnsigned.apply32(-7_i32 as u32, 2),
        Some(0x7FFF_FFFC)
    );
}

#[test]
fn the_least_integer_divided_by_minus_one_wraps_around() {
    assert_eq!(
        IntegerOp::DivideSigned.apply64(i64::MIN as u64, -1_i64 as u64),
        Some(i64::MIN as u64)
    );
    assert_eq!(
        IntegerOp::ModuloSigned.apply64(i64::MIN as u64, -1_i64 as u64),
        Some(0)
    );
    assert_eq!(
        IntegerOp::DivideSigned.apply32(i32::MIN as u32, -1_i32 as u32),
        Some(i32::MIN as u32)
    );
    assert_eq!(
        IntegerOp::ModuloSigned.apply32(i32::MIN as u32, -1_i32 as u32),
        Some(0)
    );
}

#[test]
fn only_a_divisor_of_zero_has_no_result() {
    let all = [
        IntegerOp::Add,
        IntegerOp::Subtract,
        IntegerOp::Multiply,
        IntegerOp::DivideUnsigned,
        IntegerOp::DivideSigned,
        IntegerOp::ModuloUnsigned,
        IntegerOp::ModuloSigned,
    ];
    for op in all {
        let divides = matches!(
            op,
            IntegerOp::DivideUnsigned
                | IntegerOp::DivideSigned
                | IntegerOp::ModuloUnsigned
                | IntegerOp::ModuloSigned
        );
        for left in [0, 1, 5, u64::MAX] {
            assert_eq!(op.apply64(left, 0).is_none(), divides);
            assert!(op.apply64(left, 3).is_some());
            assert!(op.apply64(0, left.max(1)).is_some());
            assert_eq!(op.apply32(left as u32, 0).is_none(), divides);
            assert!(op.apply32(left as u32, 3).is_some());
        }
    }
}

const WORDS64: [u64; 12] = [
    0,
    1,
    2,
    3,
    7,
    63,
    64,
    0x7FFF_FFFF_FFFF_FFFF,
    0x8000_0000_0000_0000,
    0x8000_0000_0000_0001,
    0xFFFF_FFFF_FFFF_FFFE,
    0xFFFF_FFFF_FFFF_FFFF,
];

const WORDS32: [u32; 12] = [
    0,
    1,
    2,
    3,
    7,
    31,
    32,
    0x7FFF_FFFF,
    0x8000_0000,
    0x8000_0001,
    0xFFFF_FFFE,
    0xFFFF_FFFF,
];

#[test]
fn the_operations_on_64_bits_agree_with_the_wrapping_operations() {
    for left in WORDS64 {
        for right in WORDS64 {
            assert_eq!(IntegerOp::Add.apply64(left, right), Some(left.wrapping_add(right)));
            assert_eq!(IntegerOp::Subtract.apply64(left, right), Some(left.wrapping_sub(right)));
            assert_eq!(IntegerOp::Multiply.apply64(left, right), Some(left.wrapping_mul(right)));
            assert_eq!(IntegerOp::DivideUnsigned.apply64(left, right), left.checked_div(right));
            assert_eq!(IntegerOp::ModuloUnsigned.apply64(left, right), left.checked_rem(right));
            let signed_quotient = if right == 0 {
                None
            } else {
                Some((left as i64).wrapping_div(right as i64) as u64)
            };
            assert_eq!(IntegerOp::DivideSigned.apply64(left, right), signed_quotient);
            let signed_remainder = if right == 0 {
                None
            } else {
                Some((left as i64).wrapping_rem(right as i64) as u64)
            };
            assert_eq!(IntegerOp::ModuloSigned.apply64(left, right), signed_remainder);
        }
    }
}

#[test]
fn the_operations_on_32_bits_agree_with_the_wrapping_operations() {
    for left in WORDS32 {
        for right in WORDS32 {
            assert_eq!(IntegerOp::Add.apply32(left, right), Some(left.wrapping_add(right)));
            assert_eq!(IntegerOp::Subtract.apply32(left, right), Some(left.wrapping_sub(right)));
            assert_eq!(IntegerOp::Multiply.apply32(left, right), Some(left.wrapping_mul(right)));
            assert_eq!(IntegerOp::DivideUnsigned.apply32(left, right), left.checked_div(right));
            assert_eq!(IntegerOp::ModuloUnsigned.apply32(left, right), left.checked_rem(right));
            let signed_quotient = if right == 0 {
                None
            } else {
                Some((left as i32).wrapping_div(right as i32) as u32)
            };
            assert_eq!(IntegerOp::DivideSigned.apply32(left, right), signed_quotient);
            let signed_remainder = if right == 0 {
                None
            } else {
                Some((left as i32).wrapping_rem(right as i32) as u32)
            };
            assert_eq!(IntegerOp::ModuloSigned.apply32(left, right), signed_remainder);
        }
    }
}

fn execute(instruction: Instruction, operands: InMemoryBuilder) -> InMemoryMemory {
    let mut memory = operands.build();
    assert_eq!(instruction.execute(&mut memory), Ok(None));
    memory
}

#[test]
fn test_executing_noop() {
    let memory = execute(Instruction::Noop, InMemoryMemory::builder().bytes(&[9, 9]));
    assert_eq!(memory.pc, 0);
    assert_eq!(memory.memory, [9, 9]);
    let empty = execute(Instruction::Noop, InMemoryMemory::builder());
    assert_eq!(empty, InMemoryMemory::default());
}

#[test]
fn test_executing_u64_arithmetic() {
    let sum = execute(
        Instruction::AddInteger64,
        InMemoryMemory::builder().data((u64::MAX, 3_u64, (Offset(0), Offset(8)))),
    );
    assert_eq!(sum.pc, 28);
    assert_eq!(sum.memory[20..28], [2, 0, 0, 0, 0, 0, 0, 0]);

    let difference = execute(
        Instruction::SubtractInteger64,
        InMemoryMemory::builder().data((3_u64, 5_u64, (Offset(-20), Offset(20)))),
    );
    assert_eq!(difference.pc, 20);
    assert_eq!(difference.memory.len(), 20);
    assert_eq!(
        difference.memory[0..8],
        [0xFE, 0xFF, 0xFF, 0xFF, 0xFF, 0xFF, 0xFF, 0xFF]
    );

    let product = execute(
        Instruction::MultiplyInteger64,
        InMemoryMemory::builder().data((0x1_0000_0001_u64, 0x10_u64, (Offset(2), Offset(-2)))),
    );
    assert_eq!(product.pc, 20);
    assert_eq!(product.memory[20..30], [0, 0, 0x10, 0, 0, 0, 0x10, 0, 0, 0]);

    let quotient = execute(
        Instruction::DivideSignedInteger64,
        InMemoryMemory::builder().data((-9_i64 as u64, 2_u64, (Offset(0), Offset(0)))),
    );
    assert_eq!(quotient.memory[20..28], (-4_i64).to_le_bytes());

    let remainder = execute(
        Instruction::ModuloSignedInteger64,
        InMemoryMemory::builder().data((-9_i64 as u64, 2_u64, (Offset(0), Offset(0)))),
    );
    assert_eq!(remainder.memory[20..28], (-1_i64).to_le_bytes());

    let quotient = execute(
        Instruction::DivideUnsignedInteger64,
        InMemoryMemory::builder().data((-9_i64 as u64, 2_u64, (Offset(0), Offset(0)))),
    );
    assert_eq!(quotient.memory[20..28], 0x7FFF_FFFF_FFFF_FFFB_u64.to_le_bytes());

    let remainder = execute(
        Instruction::ModuloUnsignedInteger64,
        InMemoryMemory::builder().data((29_u64, 10_u64, (Offset(0), Offset(0)))),
    );
    assert_eq!(remainder.memory[20..28], 9_u64.to_le_bytes());
}

#[test]
fn test_executing_u32_arithmetic() {
    let difference = execute(
        Instruction::SubtractInteger32,
        InMemoryMemory::builder().data((3_u32, 5_u32, (Offset(0), Offset(0)))),
    );
    assert_eq!(difference.pc, 12);
    assert_eq!(difference.memory[12..16], [0xFE, 0xFF, 0xFF, 0xFF]);

    let product = execute(
        Instruction::MultiplyInteger32,
        InMemoryMemory::builder().data((0x8000_0001_u32, 4_u32, (Offset(0), Offset(0)))),
    );
    assert_eq!(product.memory[12..16], [4, 0, 0, 0]);

    let quotient = execute(
        Instruction::DivideSignedInteger32,
        InMemoryMemory::builder().data((-9_i32 as u32, -2_i32 as u32, (Offset(0), Offset(0)))),
    );
    assert_eq!(quotient.memory[12..16], 4_i32.to_le_bytes());

    let remainder = execute(
        Instruction::ModuloSignedInteger32,
        InMemoryMemory::builder().data((-9_i32 as u32, -2_i32 as u32, (Offset(0), Offset(0)))),
    );
    assert_eq!(remainder.memory[12..16], (-1_i32).to_le_bytes());

    let quotient = execute(
        Instruction::DivideUnsignedInteger32,
        InMemoryMemory::builder().data((9_u32, 2_u32, (Offset(0), Offset(0)))),
    );
    assert_eq!(quotient.memory[12..16], [4, 0, 0, 0]);

    let remainder = execute(
        Instruction::ModuloUnsignedInteger32,
        InMemoryMemory::builder().data((9_u32, 2_u32, (Offset(0), Offset(0)))),
    );
    assert_eq!(remainder.memory[12..16], [1, 0, 0, 0]);
}

#[test]
fn test_executing_division_by_zero() {
    let mut memory = InMemoryMemory::builder()
        .data((9_u32, 0_u32, (Offset(0), Offset(0))))
        .build();
    assert_eq!(
        Instruction::DivideSignedInteger32.execute(&mut memory),
        Err(Fault::DivisionByZero)
    );
    assert_eq!(memory.memory.len(), 12);
}

#[test]
fn test_executing_moves() {
    // the byte one behind the operands' end goes to the start, 6 bytes before the place
    // behind it
    let one = execute(
        Instruction::Move1,
        InMemoryMemory::builder()
            .data((Offset(1), Offset(-6)))
            .bytes(&[0x11, 0x22]),
    );
    assert_eq!(one.pc, 0);
    assert_eq!(one.memory, [0x22, 0x00, 0xFA, 0xFF, 0x11, 0x22]);

    let four = execute(
        Instruction::Move4,
        InMemoryMemory::builder()
            .data((Offset(0), Offset(1)))
            .bytes(&[1, 2, 3, 4]),
    );
    assert_eq!(four.pc, 9);
    assert_eq!(four.memory, [0, 0, 1, 0, 1, 2, 3, 4, 0, 1, 2, 3, 4]);

    let eight = execute(
        Instruction::Move8,
        InMemoryMemory::builder()
            .data((Offset(0), Offset(-8)))
            .bytes(&[1, 2, 3, 4, 5, 6, 7, 8]),
    );
    assert_eq!(eight.pc, 4);
    assert_eq!(eight.memory, [0, 0, 0xF8, 0xFF, 1, 2, 3, 4, 5, 6, 7, 8]);

    // the source and the destination overlap: what was read is written
    let overlapping = execute(
        Instruction::Move4,
        InMemoryMemory::builder()
            .data((Offset(0), Offset(-2)))
            .bytes(&[1, 2, 3, 4]),
    );
    assert_eq!(overlapping.pc, 6);
    assert_eq!(overlapping.memory, [0, 0, 0xFE, 0xFF, 1, 2, 1, 2, 3, 4]);
}

#[test]
fn test_executing_move_of_a_given_length() {
    let three = execute(
        Instruction::MoveN,
        InMemoryMemory::builder()
            .data((3_u8, Offset(0), Offset(2)))
            .bytes(&[7, 8, 9]),
    );
    assert_eq!(three.pc, 10);
    assert_eq!(three.memory, [3, 0, 0, 2, 0, 7, 8, 9, 0, 0, 7, 8, 9]);

    let into_place = execute(
        Instruction::MoveN,
        InMemoryMemory::builder()
            .data((2_u8, Offset(0), Offset(-7)))
            .bytes(&[7, 8]),
    );
    assert_eq!(into_place.pc, 0);
    assert_eq!(into_place.memory, [7, 8, 0, 0xF9, 0xFF, 7, 8]);

    // nothing is read or written, only the cursor moves
    let none = execute(
        Instruction::MoveN,
        InMemoryMemory::builder().data((0_u8, Offset(100), Offset(-50))),
    );
    assert_eq!(none.pc, 55);
    assert_eq!(none.memory, [0, 100, 0, 0xCE, 0xFF]);

    let mut long = InMemoryMemory::builder().data((255_u8, Offset(0), Offset(0)));
    for byte in 0..255_u8 {
        long = long.byte(byte);
    }
    let long = execute(Instruction::MoveN, long);
    assert_eq!(long.pc, 5 + 255);
    assert_eq!(long.memory.len(), 5 + 2 * 255);
    assert_eq!(long.memory[5..260], long.memory[260..515]);
    assert_eq!(long.memory[514], 254);
}

#[test]
fn test_executing_move_from_beyond_the_end() {
    let mut memory = InMemoryMemory::builder()
        .data((Offset(0), Offset(0)))
        .bytes(&[1, 2, 3])
        .build();
    assert_eq!(
        Instruction::Move4.execute(&mut memory),
        Err(Fault::Memory(MemoryFault::UnexpectedEnd))
    );
    let mut memory = InMemoryMemory::builder()
        .data((4_u8, Offset(0), Offset(0)))
        .bytes(&[1, 2, 3])
        .build();
    assert_eq!(
        Instruction::MoveN.execute(&mut memory),
        Err(Fault::Memory(MemoryFault::UnexpectedEnd))
    );
    let mut memory = InMemoryMemory::builder()
        .data((Offset(-5), Offset(0)))
        .build();
    assert_eq!(
        Instruction::Move1.execute(&mut memory),
        Err(Fault::Memory(MemoryFault::OutOfRange))
    );
}

#[test]
fn test_storing_a_result() {
    let mut memory = InMemoryMemory::from_vec(vec![1, 2, 3, 4]);
    memory.pc = 3;
    assert_eq!(
        OffsetPair(Offset(-2), Offset(5)).store(&mut memory, 0xBBAA_u32),
        Ok(())
    );
    assert_eq!(memory.memory, [1, 0xAA, 0xBB, 0, 0]);
    assert_eq!(memory.pc, 6);

    let mut memory = InMemoryMemory::from_vec(vec![1, 2, 3, 4]);
    assert_eq!(
        OffsetPair(Offset(-1), Offset(0)).store(&mut memory, 7_u8),
        Err(Fault::Memory(MemoryFault::OutOfRange))
    );
    assert_eq!(
        OffsetPair(Offset(1), Offset(-2)).store(&mut memory, 7_u8),
        Err(Fault::Memory(MemoryFault::OutOfRange))
    );
}
