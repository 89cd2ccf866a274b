use minivm::arith::{compute, ArithFault, Computed, FloatOp, FloatTask, Operator};
use minivm::value::Immediate;

fn value(v: Immediate) -> Result<Computed, ArithFault> {
    Ok(Computed::Value(v))
}

fn all_operators() -> Vec<Operator> {
    vec![
        Operator::Add,
        Operator::Sub,
        Operator::Mul,
        Operator::Div,
        Operator::And,
        Operator::Or,
        Operator::Xor,
        Operator::Shr,
        Operator::Shl,
    ]
}

fn a_value_of_each_kind() -> Vec<Immediate> {
    vec![
        Immediate::Absent(),
        Immediate::U8(1),
        Immediate::I8(1),
        Immediate::U16(1),
        Immediate::I16(1),
        Immediate::U32(1),
        Immediate::I32(1),
        Immediate::U64(1),
        Immediate::I64(1),
        Immediate::F32(1.0f32.to_bits()),
        Immediate::F64(1.0f64.to_bits()),
    ]
}

#[test]
fn operands_of_different_kinds_are_unsupported() {
    let values = a_value_of_each_kind();
    for op in all_operators() {
        for (i, a) in values.iter().enumerate() {
            for (j, b) in values.iter().enumerate() {
                if i != j {
                    assert_eq!(
                        compute(op, *a, *b),
                        Err(ArithFault::Unsupported),
                        "{:?} {:?} {:?}",
                        a,
                        op,
                        b
                    );
                }
            }
        }
    }
}

#[test]
fn absent_operands_are_unsupported() {
    for op in all_operators() {
        assert_eq!(
            compute(op, Immediate::Absent(), Immediate::Absent()),
            Err(ArithFault::Unsupported)
        );
    }
}

#[test]
fn arithmetic_on_u8() {
    assert_eq!(compute(Operator::Add, Immediate::U8(200), Immediate::U8(55)), value(Immediate::U8(200u8 + 55u8)));
    assert_eq!(compute(Operator::Sub, Immediate::U8(200), Immediate::U8(55)), value(Immediate::U8(200u8 - 55u8)));
    assert_eq!(compute(Operator::Mul, Immediate::U8(12), Immediate::U8(10)), value(Immediate::U8(12u8 * 10u8)));
    assert_eq!(compute(Operator::Div, Immediate::U8(200), Immediate::U8(7)), value(Immediate::U8(200u8 / 7u8)));
    assert_eq!(compute(Operator::Div, Immediate::U8(200), Immediate::U8(7)), value(Immediate::U8(28)));
}

#[test]
fn arithmetic_on_i8() {
    assert_eq!(compute(Operator::Add, Immediate::I8(-100), Immediate::I8(-28)), value(Immediate::I8(-128)));
    assert_eq!(compute(Operator::Sub, Immediate::I8(-100), Immediate::I8(27)), value(Immediate::I8(-100i8 - 27i8)));
    assert_eq!(compute(Operator::Mul, Immediate::I8(-16), Immediate::I8(8)), value(Immediate::I8(-16i8 * 8i8)));
    assert_eq!(compute(Operator::Div, Immediate::I8(-7), Immediate::I8(2)), value(Immediate::I8(-7i8 / 2i8)));
    assert_eq!(compute(Operator::Div, Immediate::I8(-7), Immediate::I8(2)), value(Immediate::I8(-3)));
    assert_eq!(compute(Operator::Div, Immediate::I8(7), Immediate::I8(-2)), value(Immediate::I8(-3)));
    assert_eq!(compute(Operator::Div, Immediate::I8(-7), Immediate::I8(-2)), value(Immediate::I8(3)));
    assert_eq!(compute(Operator::Div, Immediate::I8(0), Immediate::I8(-2)), value(Immediate::I8(0)));
}

#[test]
fn arithmetic_on_u16() {
    assert_eq!(compute(Operator::Add, Immediate::U16(65000), Immediate::U16(535)), value(Immediate::U16(65535)));
    assert_eq!(compute(Operator::Sub, Immediate::U16(500), Immediate::U16(499)), value(Immediate::U16(1)));
    assert_eq!(compute(Operator::Mul, Immediate::U16(255), Immediate::U16(257)), value(Immediate::U16(255u16 * 257u16)));
    assert_eq!(compute(Operator::Div, Immediate::U16(65535), Immediate::U16(256)), value(Immediate::U16(65535u16 / 256u16)));
}

#[test]
fn arithmetic_on_i16() {
    assert_eq!(compute(Operator::Add, Immediate::I16(100), Immediate::I16(-2)), value(Immediate::I16(98)));
    assert_eq!(compute(Operator::Sub, Immediate::I16(-2), Immediate::I16(100)), value(Immediate::I16(-102)));
    assert_eq!(compute(Operator::Mul, Immediate::I16(-181), Immediate::I16(181)), value(Immediate::I16(-181i16 * 181i16)));
    assert_eq!(compute(Operator::Div, Immediate::I16(-32768), Immediate::I16(3)), value(Immediate::I16(-32768i16 / 3i16)));
}

#[test]
fn arithmetic_on_u32() {
    assert_eq!(compute(Operator::Add, Immediate::U32(4_000_000_000), Immediate::U32(294_967_295)), value(Immediate::U32(u32::MAX)));
    assert_eq!(compute(Operator::Sub, Immediate::U32(10), Immediate::U32(10)), value(Immediate::U32(0)));
    assert_eq!(compute(Operator::Mul, Immediate::U32(65535), Immediate::U32(65537)), value(Immediate::U32(65535u32 * 65537u32)));
    assert_eq!(compute(Operator::Div, Immediate::U32(u32::MAX), Immediate::U32(10)), value(Immediate::U32(u32::MAX / 10)));
}

#[test]
fn arithmetic_on_i32() {
    assert_eq!(compute(Operator::Add, Immediate::I32(i32::MAX), Immediate::I32(-1)), value(Immediate::I32(i32::MAX - 1)));
    assert_eq!(compute(Operator::Sub, Immediate::I32(i32::MIN), Immediate::I32(-1)), value(Immediate::I32(i32::MIN + 1)));
    assert_eq!(compute(Operator::Mul, Immediate::I32(-46340), Immediate::I32(46340)), value(Immediate::I32(-46340i32 * 46340i32)));
    assert_eq!(compute(Operator::Div, Immediate::I32(i32::MIN), Immediate::I32(7)), value(Immediate::I32(i32::MIN / 7)));
}

#[test]
fn arithmetic_on_u64() {
    assert_eq!(compute(Operator::Add, Immediate::U64(u64::MAX - 1), Immediate::U64(1)), value(Immediate::U64(u64::MAX)));
    assert_eq!(compute(Operator::Sub, Immediate::U64(u64::MAX), Immediate::U64(u64::MAX)), value(Immediate::U64(0)));
    assert_eq!(compute(Operator::Mul, Immediate::U64(0xFFFF_FFFF), Immediate::U64(0x1_0000_0001)), value(Immediate::U64(0xFFFF_FFFFu64 * 0x1_0000_0001u64)));
    assert_eq!(compute(Operator::Div, Immediate::U64(u64::MAX), Immediate::U64(3)), value(Immediate::U64(u64::MAX / 3)));
}

#[test]
fn arithmetic_on_i64() {
    assert_eq!(compute(Operator::Add, Immediate::I64(i64::MIN), Immediate::I64(i64::MAX)), value(Immediate::I64(-1)));
    assert_eq!(compute(Operator::Sub, Immediate::I64(-1), Immediate::I64(i64::MAX)), value(Immediate::I64(i64::MIN)));
    assert_eq!(compute(Operator::Mul, Immediate::I64(-3_037_000_499), Immediate::I64(3_037_000_499)), value(Immediate::I64(-3_037_000_499i64 * 3_037_000_499i64)));
    assert_eq!(compute(Operator::Div, Immediate::I64(i64::MIN), Immediate::I64(-2)), value(Immediate::I64(i64::MIN / -2)));
    assert_eq!(compute(Operator::Div, Immediate::I64(i64::MAX), Immediate::I64(-1)), value(Immediate::I64(-i64::MAX)));
}

#[test]
fn results_that_the_kind_cannot_hold_overflow() {
    let overflow = Err(ArithFault::Overflow);
    assert_eq!(compute(Operator::Add, Immediate::U8(200), Immediate::U8(56)), overflow);
    assert_eq!(compute(Operator::Sub, Immediate::U8(0), Immediate::U8(1)), overflow);
    assert_eq!(compute(Operator::Mul, Immediate::U8(16), Immediate::U8(16)), overflow);
    assert_eq!(compute(Operator::Add, Immediate::I8(127), Immediate::I8(1)), overflow);
    assert_eq!(compute(Operator::Sub, Immediate::I8(-128), Immediate::I8(1)), overflow);
    assert_eq!(compute(Operator::Mul, Immediate::I8(-128), Immediate::I8(-1)), overflow);
    assert_eq!(compute(Operator::Div, Immediate::I8(-128), Immediate::I8(-1)), overflow);
    assert_eq!(compute(Operator::Mul, Immediate::U16(256), Immediate::U16(256)), overflow);
    assert_eq!(compute(Operator::Div, Immediate::I16(i16::MIN), Immediate::I16(-1)), overflow);
    assert_eq!(compute(Operator::Add, Immediate::U32(u32::MAX), Immediate::U32(1)), overflow);
    assert_eq!(compute(Operator::Div, Immediate::I32(i32::MIN), Immediate::I32(-1)), overflow);
    assert_eq!(compute(Operator::Mul, Immediate::U64(u64::MAX), Immediate::U64(u64::MAX)), overflow);
    assert_eq!(compute(Operator::Mul, Immediate::U64(1 << 32), Immediate::U64(1 << 32)), overflow);
    assert_eq!(compute(Operator::Sub, Immediate::U64(0), Immediate::U64(u64::MAX)), overflow);
    assert_eq!(compute(Operator::Add, Immediate::I64(i64::MAX), Immediate::I64(1)), overflow);
    assert_eq!(compute(Operator::Mul, Immediate::I64(i64::MIN), Immediate::I64(i64::MIN)), overflow);
    assert_eq!(compute(Operator::Div, Immediate::I64(i64::MIN), Immediate::I64(-1)), overflow);
}

#[test]
fn division_by_zero() {
    let by_zero = Err(ArithFault::DivideByZero);
    assert_eq!(compute(Operator::Div, Immediate::U8(1), Immediate::U8(0)), by_zero);
    assert_eq!(compute(Operator::Div, Immediate::I8(-1), Immediate::I8(0)), by_zero);
    assert_eq!(compute(Operator::Div, Immediate::U16(0), Immediate::U16(0)), by_zero);
    assert_eq!(compute(Operator::Div, Immediate::I16(5), Immediate::I16(0)), by_zero);
    assert_eq!(compute(Operator::Div, Immediate::U32(5), Immediate::U32(0)), by_zero);
    assert_eq!(compute(Operator::Div, Immediate::I32(i32::MIN), Immediate::I32(0)), by_zero);
    assert_eq!(compute(Operator::Div, Immediate::U64(5), Immediate::U64(0)), by_zero);
    assert_eq!(compute(Operator::Div, Immediate::I64(5), Immediate::I64(0)), by_zero);
}

#[test]
fn bits_of_unsigned_integers() {
    assert_eq!(compute(Operator::And, Immediate::U8(0b1100), Immediate::U8(0b1010)), value(Immediate::U8(0b1100u8 & 0b1010u8)));
    assert_eq!(compute(Operator::Or, Immediate::U8(0b1100), Immediate::U8(0b1010)), value(Immediate::U8(0b1110)));
    assert_eq!(compute(Operator::Xor, Immediate::U8(0b1100), Immediate::U8(0b1010)), value(Immediate::U8(0b0110)));
    assert_eq!(compute(Operator::And, Immediate::U16(0xFF0F), Immediate::U16(0x0FF0)), value(Immediate::U16(0xFF0Fu16 & 0x0FF0u16)));
    assert_eq!(compute(Operator::Or, Immediate::U16(0xFF0F), Immediate::U16(0x0FF0)), value(Immediate::U16(0xFFFF)));
    assert_eq!(compute(Operator::Xor, Immediate::U16(0xFF0F), Immediate::U16(0x0FF0)), value(Immediate::U16(0xFF0Fu16 ^ 0x0FF0u16)));
    assert_eq!(compute(Operator::And, Immediate::U32(0xDEAD_BEEF), Immediate::U32(0xFFFF_0000)), value(Immediate::U32(0xDEAD_0000)));
    assert_eq!(compute(Operator::Or, Immediate::U32(0xDEAD_0000), Immediate::U32(0xBEEF)), value(Immediate::U32(0xDEAD_BEEF)));
    assert_eq!(compute(Operator::Xor, Immediate::U32(u32::MAX), Immediate::U32(0xDEAD_BEEF)), value(Immediate::U32(!0xDEAD_BEEFu32)));
    assert_eq!(compute(Operator::And, Immediate::U64(u64::MAX), Immediate::U64(0x1234)), value(Immediate::U64(0x1234)));
    assert_eq!(compute(Operator::Or, Immediate::U64(1 << 63), Immediate::U64(1)), value(Immediate::U64((1 << 63) | 1)));
    assert_eq!(compute(Operator::Xor, Immediate::U64(u64::MAX), Immediate::U64(1)), value(Immediate::U64(u64::MAX - 1)));
}

#[test]
fn bits_of_signed_integers() {
    assert_eq!(compute(Operator::And, Immediate::I8(-1), Immediate::I8(0x55)), value(Immediate::I8(0x55)));
    assert_eq!(compute(Operator::Or, Immediate::I8(-128), Immediate::I8(1)), value(Immediate::I8(-128i8 | 1i8)));
    assert_eq!(compute(Operator::Xor, Immediate::I8(-1), Immediate::I8(0x55)), value(Immediate::I8(-1i8 ^ 0x55i8)));
    assert_eq!(compute(Operator::And, Immediate::I16(-2), Immediate::I16(0x7FFF)), value(Immediate::I16(0x7FFE)));
    assert_eq!(compute(Operator::Or, Immediate::I16(i16::MIN), Immediate::I16(0x7FFF)), value(Immediate::I16(-1)));
    assert_eq!(compute(Operator::Xor, Immediate::I16(-1), Immediate::I16(-1)), value(Immediate::I16(0)));
    assert_eq!(compute(Operator::And, Immediate::I32(-256), Immediate::I32(0x1FF)), value(Immediate::I32(-256i32 & 0x1FFi32)));
    assert_eq!(compute(Operator::Or, Immediate::I32(i32::MIN), Immediate::I32(5)), value(Immediate::I32(i32::MIN | 5)));
    assert_eq!(compute(Operator::Xor, Immediate::I32(i32::MIN), Immediate::I32(-1)), value(Immediate::I32(i32::MAX)));
    assert_eq!(compute(Operator::And, Immediate::I64(-1), Immediate::I64(i64::MAX)), value(Immediate::I64(i64::MAX)));
    assert_eq!(compute(Operator::Or, Immediate::I64(i64::MIN), Immediate::I64(i64::MAX)), value(Immediate::I64(-1)));
    assert_eq!(compute(Operator::Xor, Immediate::I64(i64::MIN), Immediate::I64(1)), value(Immediate::I64(i64::MIN ^ 1)));
}

#[test]
fn shifts_of_unsigned_integers() {
    assert_eq!(compute(Operator::Shr, Immediate::U8(0x81), Immediate::U8(1)), value(Immediate::U8(0x81u8 >> 1u8)));
    assert_eq!(compute(Operator::Shl, Immediate::U8(0x81), Immediate::U8(1)), value(Immediate::U8(0x81u8 << 1u8)));
    assert_eq!(compute(Operator::Shl, Immediate::U8(0x81), Immediate::U8(1)), value(Immediate::U8(2)));
    assert_eq!(compute(Operator::Shl, Immediate::U8(1), Immediate::U8(7)), value(Immediate::U8(128)));
    assert_eq!(compute(Operator::Shr, Immediate::U8(255), Immediate::U8(7)), value(Immediate::U8(1)));
    assert_eq!(compute(Operator::Shr, Immediate::U8(255), Immediate::U8(0)), value(Immediate::U8(255)));
    assert_eq!(compute(Operator::Shr, Immediate::U16(0x8000), Immediate::U16(15)), value(Immediate::U16(1)));
    assert_eq!(compute(Operator::Shl, Immediate::U16(0xFFFF), Immediate::U16(12)), value(Immediate::U16(0xFFFFu16 << 12u16)));
    assert_eq!(compute(Operator::Shr, Immediate::U32(0xDEAD_BEEF), Immediate::U32(16)), value(Immediate::U32(0xDEAD)));
    assert_eq!(compute(Operator::Shl, Immediate::U32(0xDEAD_BEEF), Immediate::U32(31)), value(Immediate::U32(0xDEAD_BEEFu32 << 31u32)));
    assert_eq!(compute(Operator::Shr, Immediate::U64(u64::MAX), Immediate::U64(63)), value(Immediate::U64(1)));
    assert_eq!(compute(Operator::Shl, Immediate::U64(3), Immediate::U64(63)), value(Immediate::U64(3u64 << 63u64)));
}

#[test]
fn shifts_of_signed_integers() {
    assert_eq!(compute(Operator::Shr, Immediate::I8(-4), Immediate::I8(1)), value(Immediate::I8(-4i8 >> 1i8)));
    assert_eq!(compute(Operator::Shr, Immediate::I8(-4), Immediate::I8(1)), value(Immediate::I8(-2)));
    assert_eq!(compute(Operator::Shr, Immediate::I8(-1), Immediate::I8(7)), value(Immediate::I8(-1)));
    assert_eq!(compute(Operator::Shl, Immediate::I8(-1), Immediate::I8(1)), value(Immediate::I8(-2)));
    assert_eq!(compute(Operator::Shl, Immediate::I8(64), Immediate::I8(1)), value(Immediate::I8(64i8 << 1i8)));
    assert_eq!(compute(Operator::Shl, Immediate::I8(64), Immediate::I8(1)), value(Immediate::I8(-128)));
    assert_eq!(compute(Operator::Shl, Immediate::I8(3), Immediate::I8(7)), value(Immediate::I8(-128)));
    assert_eq!(compute(Operator::Shr, Immediate::I16(i16::MIN), Immediate::I16(15)), value(Immediate::I16(-1)));
    assert_eq!(compute(Operator::Shl, Immediate::I16(0x4001), Immediate::I16(1)), value(Immediate::I16(0x4001i16 << 1i16)));
    assert_eq!(compute(Operator::Shr, Immediate::I32(-1024), Immediate::I32(10)), value(Immediate::I32(-1)));
    assert_eq!(compute(Operator::Shl, Immediate::I32(-1), Immediate::I32(31)), value(Immediate::I32(i32::MIN)));
    assert_eq!(compute(Operator::Shr, Immediate::I64(i64::MIN), Immediate::I64(62)), value(Immediate::I64(-2)));
    assert_eq!(compute(Operator::Shl, Immediate::I64(5), Immediate::I64(62)), value(Immediate::I64(5i64 << 62i64)));
}

#[test]
fn shifts_by_bits_that_the_kind_does_not_have() {
    let range = Err(ArithFault::ShiftRange);
    for op in [Operator::Shr, Operator::Shl] {
        assert_eq!(compute(op, Immediate::U8(1), Immediate::U8(8)), range);
        assert_eq!(compute(op, Immediate::U8(1), Immediate::U8(255)), range);
        assert_eq!(compute(op, Immediate::I8(1), Immediate::I8(8)), range);
        assert_eq!(compute(op, Immediate::I8(1), Immediate::I8(-1)), range);
        assert_eq!(compute(op, Immediate::U16(1), Immediate::U16(16)), range);
        assert_eq!(compute(op, Immediate::I16(1), Immediate::I16(i16::MIN)), range);
        assert_eq!(compute(op, Immediate::U32(1), Immediate::U32(32)), range);
        assert_eq!(compute(op, Immediate::I32(1), Immediate::I32(-32)), range);
        assert_eq!(compute(op, Immediate::U64(1), Immediate::U64(64)), range);
        assert_eq!(compute(op, Immediate::I64(1), Immediate::I64(-1)), range);
    }
}

#[test]
fn arithmetic_on_floats_is_a_task() {
    let a = Immediate::F32(1.5f32.to_bits());
    let b = Immediate::F32(0.25f32.to_bits());
    assert_eq!(
        compute(Operator::Add, a, b),
        Ok(Computed::Float(FloatTask { op: FloatOp::Add, lhs: a, rhs: b }))
    );
    assert_eq!(
        compute(Operator::Sub, a, b),
        Ok(Computed::Float(FloatTask { op: FloatOp::Sub, lhs: a, rhs: b }))
    );
    let c = Immediate::F64(3.0f64.to_bits());
    let d = Immediate::F64(0.0f64.to_bits());
    assert_eq!(
        compute(Operator::Mul, c, d),
        Ok(Computed::Float(FloatTask { op: FloatOp::Mul, lhs: c, rhs: d }))
    );
    assert_eq!(
        compute(Operator::Div, c, d),
        Ok(Computed::Float(FloatTask { op: FloatOp::Div, lhs: c, rhs: d }))
    );
}

#[test]
fn bits_of_floats_are_unsupported() {
    let a = Immediate::F32(1.5f32.to_bits());
    let c = Immediate::F64(3.0f64.to_bits());
    for op in [Operator::And, Operator::Or, Operator::Xor, Operator::Shr, Operator::Shl] {
        assert_eq!(compute(op, a, a), Err(ArithFault::Unsupported));
        assert_eq!(compute(op, c, c), Err(ArithFault::Unsupported));
    }
}

#[test]
fn float_operation_of_each_operator() {
    assert_eq!(Operator::Add.float_op(), Some(FloatOp::Add));
    assert_eq!(Operator::Sub.float_op(), Some(FloatOp::Sub));
    assert_eq!(Operator::Mul.float_op(), Some(FloatOp::Mul));
    assert_eq!(Operator::Div.float_op(), Some(FloatOp::Div));
    assert_eq!(Operator::And.float_op(), None);
    assert_eq!(Operator::Or.float_op(), None);
    assert_eq!(Operator::Xor.float_op(), None);
    assert_eq!(Operator::Shr.float_op(), None);
    assert_eq!(Operator::Shl.float_op(), None);
}
