//! What the binary operators of the machine compute.
//!
//! An operator takes two values of one kind. On two integers it computes in
//! that kind; a result that the kind cannot hold, a division by zero and a
//! shift by a number of bits that the kind does not have are faults. On two
//! floats the four arithmetic operators are left to the host, which is
//! handed a [`FloatTask`] that names the operation and its operands.

use crate::value::{Immediate, Kind};
use vstd::prelude::*;

verus! {

#[derive(Clone, Copy, Debug, PartialEq, Eq, Structural)]
pub enum Operator {
    Add,
    Sub,
    Mul,
    Div,
    And,
    Or,
    Xor,
    Shr,
    Shl,
}

/// Why an operator has no result.
#[derive(Clone, Copy, Debug, PartialEq, Eq, Structural)]
pub enum ArithFault {
    /// The operands differ in kind, are absent, or are floats under an
    /// operator on bits.
    Unsupported,
    /// The kind of the operands cannot hold the result.
    Overflow,
    /// The divisor is zero.
    DivideByZero,
    /// The number of bits to shift by is negative or not below the number of
    /// bits of the kind.
    ShiftRange,
}

/// An arithmetic operator on floats.
#[derive(Clone, Copy, Debug, PartialEq, Eq, Structural)]
pub enum FloatOp {
    Add,
    Sub,
    Mul,
    Div,
}

/// An operation on two floats of one kind, `lhs op rhs`, for the host to
/// carry out.
#[derive(Clone, Copy, Debug, PartialEq, Eq, Structural)]
pub struct FloatTask {
    pub op: FloatOp,
    pub lhs: Immediate,
    pub rhs: Immediate,
}

/// What an operator yields: a value, or work for the host.
#[derive(Clone, Copy, Debug, PartialEq, Eq, Structural)]
pub enum Computed {
    Value(Immediate),
    Float(FloatTask),
}

impl Operator {
    /// The float operation of an arithmetic operator.
    pub open spec fn spec_float_op(self) -> Option<FloatOp> {
        match self {
            Operator::Add => Some(FloatOp::Add),
            Operator::Sub => Some(FloatOp::Sub),
            Operator::Mul => Some(FloatOp::Mul),
            Operator::Div => Some(FloatOp::Div),
            _ => None,
        }
    }

    pub open spec fn is_arithmetic(self) -> bool {
        self.spec_float_op() is Some
    }

    pub open spec fn is_shift(self) -> bool {
        self == Operator::Shr || self == Operator::Shl
    }

    #[verifier::when_used_as_spec(spec_float_op)]
    pub fn float_op(self) -> (r: Option<FloatOp>)
        ensures
            r == self.spec_float_op(),
    {
        match self {
            Operator::Add => Some(FloatOp::Add),
            Operator::Sub => Some(FloatOp::Sub),
            Operator::Mul => Some(FloatOp::Mul),
            Operator::Div => Some(FloatOp::Div),
            _ => None,
        }
    }
}

/// The quotient of two integers, rounded toward zero, for a divisor that is
/// not zero.
pub open spec fn quotient(x: int, y: int) -> int {
    if x >= 0 && y > 0 {
        x / y
    } else if x < 0 && y < 0 {
        (-x) / (-y)
    } else if x < 0 {
        -((-x) / y)
    } else {
        -(x / (-y))
    }
}

/// The number that an arithmetic operator yields on two integers.
pub open spec fn exact(op: Operator, x: int, y: int) -> int {
    match op {
        Operator::Add => x + y,
        Operator::Sub => x - y,
        Operator::Mul => x * y,
        Operator::Div => quotient(x, y),
        _ => 0,
    }
}

/// What an operator on bits yields on two integers of one kind. A shift moves
/// `lhs` by `rhs` bits; a left shift drops the bits that leave the kind.
pub open spec fn bitwise(op: Operator, lhs: Immediate, rhs: Immediate) -> Immediate {
    match (lhs, rhs) {
        (Immediate::U8(x), Immediate::U8(y)) => Immediate::U8(
            match op {
                Operator::And => x & y,
                Operator::Or => x | y,
                Operator::Xor => x ^ y,
                Operator::Shr => x >> y,
                Operator::Shl => x << y,
                _ => x,
            },
        ),
        (Immediate::I8(x), Immediate::I8(y)) => Immediate::I8(
            match op {
                Operator::And => x & y,
                Operator::Or => x | y,
                Operator::Xor => x ^ y,
                Operator::Shr => x >> y,
                Operator::Shl => x << y,
                _ => x,
            },
        ),
        (Immediate::U16(x), Immediate::U16(y)) => Immediate::U16(
            match op {
                Operator::And => x & y,
                Operator::Or => x | y,
                Operator::Xor => x ^ y,
                Operator::Shr => x >> y,
                Operator::Shl => x << y,
                _ => x,
            },
        ),
        (Immediate::I16(x), Immediate::I16(y)) => Immediate::I16(
            match op {
                Operator::And => x & y,
                Operator::Or => x | y,
                Operator::Xor => x ^ y,
                Operator::Shr => x >> y,
                Operator::Shl => x << y,
                _ => x,
            },
        ),
        (Immediate::U32(x), Immediate::U32(y)) => Immediate::U32(
            match op {
                Operator::And => x & y,
                Operator::Or => x | y,
                Operator::Xor => x ^ y,
                Operator::Shr => x >> y,
                Operator::Shl => x << y,
                _ => x,
            },
        ),
        (Immediate::I32(x), Immediate::I32(y)) => Immediate::I32(
            match op {
                Operator::And => x & y,
                Operator::Or => x | y,
                Operator::Xor => x ^ y,
                Operator::Shr => x >> y,
                Operator::Shl => x << y,
                _ => x,
            },
        ),
        (Immediate::U64(x), Immediate::U64(y)) => Immediate::U64(
            match op {
                Operator::And => x & y,
                Operator::Or => x | y,
                Operator::Xor => x ^ y,
                Operator::Shr => x >> y,
                Operator::Shl => x << y,
                _ => x,
            },
        ),
        (Immediate::I64(x), Immediate::I64(y)) => Immediate::I64(
            match op {
                Operator::And => x & y,
                Operator::Or => x | y,
                Operator::Xor => x ^ y,
                Operator::Shr => x >> y,
                Operator::Shl => x << y,
                _ => x,
            },
        ),
        _ => Immediate::Absent(),
    }
}

/// What `lhs op rhs` yields.
pub open spec fn outcome(op: Operator, lhs: Immediate, rhs: Immediate) -> Result<
    Computed,
    ArithFault,
> {
    let kind = lhs.spec_kind();
    if kind != rhs.spec_kind() || kind == Kind::Absent {
        Err(ArithFault::Unsupported)
    } else if kind.is_float() {
        match op.spec_float_op() {
            Some(f) => Ok(Computed::Float(FloatTask { op: f, lhs, rhs })),
            None => Err(ArithFault::Unsupported),
        }
    } else if op.is_arithmetic() {
        if op == Operator::Div && rhs.payload() == 0 {
            Err(ArithFault::DivideByZero)
        } else if kind.holds(exact(op, lhs.payload(), rhs.payload())) {
            Ok(Computed::Value(Immediate::make(kind, exact(op, lhs.payload(), rhs.payload()))))
        } else {
            Err(ArithFault::Overflow)
        }
    } else if op.is_shift() && !(0 <= rhs.payload() < kind.bits()) {
        Err(ArithFault::ShiftRange)
    } else {
        Ok(Computed::Value(bitwise(op, lhs, rhs)))
    }
}

/// The payload of an integer in a type that holds every kind's.
fn widen(v: Immediate) -> (w: i128)
    requires
        v.spec_kind().is_integer(),
    ensures
        w == v.payload(),
{
    match v {
        Immediate::U8(x) => x as i128,
        Immediate::I8(x) => x as i128,
        Immediate::U16(x) => x as i128,
        Immediate::I16(x) => x as i128,
        Immediate::U32(x) => x as i128,
        Immediate::I32(x) => x as i128,
        Immediate::U64(x) => x as i128,
        Immediate::I64(x) => x as i128,
        _ => 0,
    }
}

/// The integer of a kind with a payload, if the kind holds it.
fn narrow(kind: Kind, w: i128) -> (r: Result<Computed, ArithFault>)
    requires
        kind.is_integer(),
    ensures
        r == if kind.holds(w as int) {
            Ok::<Computed, ArithFault>(Computed::Value(Immediate::make(kind, w as int)))
        } else {
            Err::<Computed, ArithFault>(ArithFault::Overflow)
        },
{
    let v: Immediate = match kind {
        Kind::U8 => if 0 <= w && w <= 0xff {
            Immediate::U8(w as u8)
        } else {
            return Err(ArithFault::Overflow);
        },
        Kind::I8 => if -0x80 <= w && w <= 0x7f {
            Immediate::I8(w as i8)
        } else {
            return Err(ArithFault::Overflow);
        },
        Kind::U16 => if 0 <= w && w <= 0xffff {
            Immediate::U16(w as u16)
        } else {
            return Err(ArithFault::Overflow);
        },
        Kind::I16 => if -0x8000 <= w && w <= 0x7fff {
            Immediate::I16(w as i16)
        } else {
            return Err(ArithFault::Overflow);
        },
        Kind::U32 => if 0 <= w && w <= 0xffff_ffff {
            Immediate::U32(w as u32)
        } else {
            return Err(ArithFault::Overflow);
        },
        Kind::I32 => if -0x8000_0000 <= w && w <= 0x7fff_ffff {
            Immediate::I32(w as i32)
        } else {
            return Err(ArithFault::Overflow);
        },
        Kind::U64 => if 0 <= w && w <= 0xffff_ffff_ffff_ffff {
            Immediate::U64(w as u64)
        } else {
            return Err(ArithFault::Overflow);
        },
        _ => if -0x8000_0000_0000_0000 <= w && w <= 0x7fff_ffff_ffff_ffff {
            Immediate::I64(w as i64)
        } else {
            return Err(ArithFault::Overflow);
        },
    };
    Ok(Computed::Value(v))
}

/// An operator on bits, on two integers of one kind.
fn on_bits(op: Operator, lhs: Immediate, rhs: Immediate) -> (v: Immediate)
    requires
        lhs.spec_kind() == rhs.spec_kind(),
        lhs.spec_kind().is_integer(),
        !op.is_arithmetic(),
        op.is_shift() ==> 0 <= rhs.payload() < lhs.spec_kind().bits(),
    ensures
        v == bitwise(op, lhs, rhs),
{
    match (lhs, rhs) {
        (Immediate::U8(x), Immediate::U8(y)) => Immediate::U8(
            match op {
                Operator::And => x & y,
                Operator::Or => x | y,
                Operator::Xor => x ^ y,
                Operator::Shr => x >> y,
                _ => x << y,
            },
        ),
        (Immediate::I8(x), Immediate::I8(y)) => Immediate::I8(
            match op {
                Operator::And => x & y,
                Operator::Or => x | y,
                Operator::Xor => x ^ y,
                Operator::Shr => x >> y,
                _ => x << y,
            },
        ),
        (Immediate::U16(x), Immediate::U16(y)) => Immediate::U16(
            match op {
                Operator::And => x & y,
                Operator::Or => x | y,
                Operator::Xor => x ^ y,
                Operator::Shr => x >> y,
                _ => x << y,
            },
        ),
        (Immediate::I16(x), Immediate::I16(y)) => Immediate::I16(
            match op {
                Operator::And => x & y,
                Operator::Or => x | y,
                Operator::Xor => x ^ y,
                Operator::Shr => x >> y,
                _ => x << y,
            },
        ),
        (Immediate::U32(x), Immediate::U32(y)) => Immediate::U32(
            match op {
                Operator::And => x & y,
                Operator::Or => x | y,
                Operator::Xor => x ^ y,
                Operator::Shr => x >> y,
                _ => x << y,
            },
        ),
        (Immediate::I32(x), Immediate::I32(y)) => Immediate::I32(
            match op {
                Operator::And => x & y,
                Operator::Or => x | y,
                Operator::Xor => x ^ y,
                Operator::Shr => x >> y,
                _ => x << y,
            },
        ),
        (Immediate::U64(x), Immediate::U64(y)) => Immediate::U64(
            match op {
                Operator::And => x & y,
                Operator::Or => x | y,
                Operator::Xor => x ^ y,
                Operator::Shr => x >> y,
                _ => x << y,
            },
        ),
        (Immediate::I64(x), Immediate::I64(y)) => Immediate::I64(
            match op {
                Operator::And => x & y,
                Operator::Or => x | y,
                Operator::Xor => x ^ y,
                Operator::Shr => x >> y,
                _ => x << y,
            },
        ),
        _ => Immediate::Absent(),
    }
}

/// Computes `lhs op rhs`.
pub fn compute(op: Operator, lhs: Immediate, rhs: Immediate) -> (r: Result<Computed, ArithFault>)
    ensures
        r == outcome(op, lhs, rhs),
{
    let kind: Kind = lhs.kind();
    if kind != rhs.kind() || kind == Kind::Absent {
        return Err(ArithFault::Unsupported);
    }
    if kind == Kind::F32 || kind == Kind::F64 {
        return match op.float_op() {
            Some(f) => Ok(Computed::Float(FloatTask { op: f, lhs, rhs })),
            None => Err(ArithFault::Unsupported),
        };
    }
    let x: i128 = widen(lhs);
    let y: i128 = widen(rhs);
    match op {
        Operator::Add => narrow(kind, x + y),
        Operator::Sub => narrow(kind, x - y),
        Operator::Mul => match x.checked_mul(y) {
            Some(p) => narrow(kind, p),
            None => Err(ArithFault::Overflow),
        },
        Operator::Div => match x.checked_div(y) {
            Some(q) => narrow(kind, q),
            None => Err(ArithFault::DivideByZero),
        },
        Operator::And | Operator::Or | Operator::Xor => Ok(Computed::Value(on_bits(op, lhs, rhs))),
        Operator::Shr | Operator::Shl => if 0 <= y && y < 8 * (kind.width() as i128) {
            Ok(Computed::Value(on_bits(op, lhs, rhs)))
        } else {
            Err(ArithFault::ShiftRange)
        },
    }
}

} // verus!
