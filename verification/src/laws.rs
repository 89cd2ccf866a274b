//! What holds of the byte format and of the engine on every input.

use crate::arith::{bitwise, exact, ArithFault, Operator};
use crate::bytecode::{
    encoding, le_bytes, le_value, raw_of, value_at, value_fits, Address, Instruction, Register,
};
use crate::value::{Immediate, Kind};
use crate::vm::{run, Fault, MachineState, Step};
use vstd::prelude::*;

verus! {

/// One more than the largest number that `width` bytes spell.
pub open spec fn limit(width: int) -> int {
    if width == 1 {
        0x100
    } else if width == 2 {
        0x1_0000
    } else if width == 4 {
        0x1_0000_0000
    } else if width == 8 {
        0x1_0000_0000_0000_0000
    } else {
        1
    }
}

proof fn lemma_le_bytes_len(raw: int, width: int)
    requires
        width == 1 || width == 2 || width == 4 || width == 8,
    ensures
        le_bytes(raw, width).len() == width,
    decreases width,
{
    if width == 2 {
        lemma_le_bytes_len(raw % 0x100, 1);
        lemma_le_bytes_len(raw / 0x100, 1);
    } else if width == 4 {
        lemma_le_bytes_len(raw % 0x1_0000, 2);
        lemma_le_bytes_len(raw / 0x1_0000, 2);
    } else if width == 8 {
        lemma_le_bytes_len(raw % 0x1_0000_0000, 4);
        lemma_le_bytes_len(raw / 0x1_0000_0000, 4);
    }
}

/// Bytes that spell a number spell that number, wherever they stand.
proof fn lemma_le_round_trip(bytes: Seq<u8>, at: int, raw: int, width: int)
    requires
        width == 1 || width == 2 || width == 4 || width == 8,
        0 <= raw < limit(width),
        0 <= at,
        at + width <= bytes.len(),
        forall|i: int| 0 <= i < width ==> bytes[at + i] == #[trigger] le_bytes(raw, width)[i],
    ensures
        le_value(bytes, at, width) == raw,
    decreases width,
{
    if width == 1 {
        assert(bytes[at + 0] == le_bytes(raw, width)[0]);
    } else {
        let half = width / 2;
        let m = limit(half);
        let lo = le_bytes(raw % m, half);
        let hi = le_bytes(raw / m, half);
        lemma_le_bytes_len(raw % m, half);
        lemma_le_bytes_len(raw / m, half);
        assert(le_bytes(raw, width) == lo + hi);
        assert forall|i: int| 0 <= i < half implies bytes[at + i] == #[trigger] lo[i] by {
            assert(bytes[at + i] == le_bytes(raw, width)[i]);
        }
        assert forall|i: int| 0 <= i < half implies bytes[at + half + i] == #[trigger] hi[i] by {
            assert(bytes[at + (half + i)] == le_bytes(raw, width)[half + i]);
        }
        lemma_le_round_trip(bytes, at, raw % m, half);
        lemma_le_round_trip(bytes, at + half, raw / m, half);
    }
}

/// A value that is written as its tag and its payload in little-endian
/// order is read back as the same value, of the same kind, wherever in the
/// bytes it stands, and takes one byte more than its payload.
pub proof fn lemma_value_round_trip(v: Immediate, bytes: Seq<u8>, tag_at: int)
    requires
        v.spec_kind() != Kind::Absent,
        0 <= tag_at,
        tag_at + encoding(v).len() <= bytes.len(),
        bytes.subrange(tag_at, tag_at + encoding(v).len()) == encoding(v),
    ensures
        encoding(v).len() == 1 + v.spec_kind().spec_width(),
        Kind::spec_from_tag(bytes[tag_at]) == v.spec_kind(),
        value_fits(bytes, tag_at),
        value_at(bytes, tag_at) == v,
{
    let kind = v.spec_kind();
    let width = kind.spec_width() as int;
    let raw = raw_of(v);
    let window = bytes.subrange(tag_at, tag_at + encoding(v).len());
    lemma_le_bytes_len(raw, width);
    assert(bytes[tag_at] == window[0]);
    assert forall|i: int| 0 <= i < width implies bytes[tag_at + 1 + i] == #[trigger] le_bytes(
        raw,
        width,
    )[i] by {
        assert(bytes[tag_at + 1 + i] == window[1 + i]);
    }
    lemma_le_round_trip(bytes, tag_at + 1, raw, width);
}

/// A tag byte above 9 stands for the absent value, which has no payload.
pub proof fn lemma_unknown_tag(bytes: Seq<u8>, tag_at: int)
    requires
        0 <= tag_at < bytes.len(),
        bytes[tag_at] > 9,
    ensures
        value_fits(bytes, tag_at),
        value_at(bytes, tag_at) == Immediate::Absent(),
        Kind::spec_from_tag(bytes[tag_at]).spec_width() == 0,
{
}

/// An operator and the operands that it is applied to: `lhs op rhs`.
pub struct Operation {
    pub op: Operator,
    pub lhs: Immediate,
    pub rhs: Immediate,
}

/// The operation that an instruction carries out, where the instruction
/// applies an operator to registers that exist.
pub open spec fn operation(s: MachineState, instr: Instruction) -> Option<Operation> {
    match instr {
        Instruction::ADD(a, b) if a < 8 && b < 8 => Some(
            Operation { op: Operator::Add, lhs: s.regs[a as int], rhs: s.regs[b as int] },
        ),
        Instruction::SUB(a, b) if a < 8 && b < 8 => Some(
            Operation { op: Operator::Sub, lhs: s.regs[a as int], rhs: s.regs[b as int] },
        ),
        Instruction::MUL(a, b) if a < 8 && b < 8 => Some(
            Operation { op: Operator::Mul, lhs: s.regs[b as int], rhs: s.regs[a as int] },
        ),
        Instruction::DIV(a, b) if a < 8 && b < 8 => Some(
            Operation { op: Operator::Div, lhs: s.regs[b as int], rhs: s.regs[a as int] },
        ),
        Instruction::AND(a, b) if a < 8 && b < 8 => Some(
            Operation { op: Operator::And, lhs: s.regs[b as int], rhs: s.regs[a as int] },
        ),
        Instruction::OR(a, b) if a < 8 && b < 8 => Some(
            Operation { op: Operator::Or, lhs: s.regs[b as int], rhs: s.regs[a as int] },
        ),
        Instruction::XOR(a, b) if a < 8 && b < 8 => Some(
            Operation { op: Operator::Xor, lhs: s.regs[b as int], rhs: s.regs[a as int] },
        ),
        Instruction::SHR(r, v) if r < 8 => Some(
            Operation { op: Operator::Shr, lhs: v, rhs: s.regs[r as int] },
        ),
        Instruction::SHL(r, v) if r < 8 => Some(
            Operation { op: Operator::Shl, lhs: v, rhs: s.regs[r as int] },
        ),
        _ => None,
    }
}

/// An instruction that applies an operator to two values of different kinds
/// fails, and leaves the state as it was.
pub proof fn lemma_different_kinds_fault(s: MachineState, instr: Instruction)
    requires
        operation(s, instr) matches Some(o) && o.lhs.spec_kind() != o.rhs.spec_kind(),
    ensures
        s.step(instr) == s.fault(Fault::Arithmetic(ArithFault::Unsupported)),
{
}

/// An instruction that applies an arithmetic operator to two integers of one
/// kind pushes the integer of that kind that is the sum, the difference, the
/// product or the quotient rounded toward zero, where the divisor is not
/// zero and the kind holds that number; it changes nothing else.
pub proof fn lemma_same_kind_arithmetic(s: MachineState, instr: Instruction)
    requires
        operation(s, instr) matches Some(o) && {
            &&& o.op.is_arithmetic()
            &&& o.lhs.spec_kind() == o.rhs.spec_kind()
            &&& o.lhs.spec_kind().is_integer()
            &&& !(o.op == Operator::Div && o.rhs.payload() == 0)
            &&& o.lhs.spec_kind().holds(exact(o.op, o.lhs.payload(), o.rhs.payload()))
        },
    ensures
        s.step(instr).result == Ok::<Step, Fault>(Step::Done),
        s.step(instr).state == s.pushed(s.step(instr).state.stack.last()),
        s.step(instr).state.stack.last().spec_kind() == operation(s, instr).unwrap().lhs.spec_kind(),
        s.step(instr).state.stack.last().payload() == exact(
            operation(s, instr).unwrap().op,
            operation(s, instr).unwrap().lhs.payload(),
            operation(s, instr).unwrap().rhs.payload(),
        ),
{
}

/// An instruction that applies an operator on bits to two integers of one
/// kind pushes the integer of that kind with the bits of the result, where a
/// shift is by a number of bits that the kind has; it changes nothing else.
pub proof fn lemma_same_kind_bitwise(s: MachineState, instr: Instruction)
    requires
        operation(s, instr) matches Some(o) && {
            &&& !o.op.is_arithmetic()
            &&& o.lhs.spec_kind() == o.rhs.spec_kind()
            &&& o.lhs.spec_kind().is_integer()
            &&& o.op.is_shift() ==> 0 <= o.rhs.payload() < o.lhs.spec_kind().bits()
        },
    ensures
        s.step(instr) == s.pushed(
            bitwise(
                operation(s, instr).unwrap().op,
                operation(s, instr).unwrap().lhs,
                operation(s, instr).unwrap().rhs,
            ),
        ).done(),
        s.step(instr).state.stack.last().spec_kind() == operation(s, instr).unwrap().lhs.spec_kind(),
{
}

/// A pop from an empty stack fails.
pub proof fn lemma_pop_on_empty_stack(s: MachineState, r: Register)
    requires
        s.stack.len() == 0,
    ensures
        s.step(Instruction::VPOP(r)) == s.fault(Fault::EmptyStack),
{
}

/// A push of a value and then a pop into a register leave the stack as it
/// was and the value in the register, and change nothing else.
pub proof fn lemma_push_then_pop(s: MachineState, v: Immediate, r: Register)
    requires
        s.well_formed(),
        r < 8,
    ensures
        s.step(Instruction::VPUSH(v)).result == Ok::<Step, Fault>(Step::Done),
        s.step(Instruction::VPUSH(v)).state.stack.len() == s.stack.len() + 1,
        s.step(Instruction::VPUSH(v)).state.step(Instruction::VPOP(r)) == s.with_reg(r, v).done(),
        s.regs[r as int] == v ==> s.step(Instruction::VPUSH(v)).state.step(Instruction::VPOP(r))
            == s.done(),
{
    let pushed = s.step(Instruction::VPUSH(v)).state;
    assert(pushed.stack.drop_last() == s.stack);
    assert(pushed.popped().with_reg(r, v) == s.with_reg(r, v));
    if s.regs[r as int] == v {
        assert(s.regs.update(r as int, v) == s.regs);
        assert(s.with_reg(r, v) == s);
    }
}

/// A push of a register and then a pop into the same register leave the
/// state as it was.
pub proof fn lemma_push_register_then_pop(s: MachineState, r: Register)
    requires
        s.well_formed(),
        r < 8,
    ensures
        s.step(Instruction::VPUSHR(r)).result == Ok::<Step, Fault>(Step::Done),
        s.step(Instruction::VPUSHR(r)).state.step(Instruction::VPOP(r)) == s.done(),
{
    let v = s.regs[r as int];
    let pushed = s.step(Instruction::VPUSHR(r)).state;
    assert(pushed.stack.drop_last() == s.stack);
    assert(s.regs.update(r as int, v) == s.regs);
    assert(pushed.popped().with_reg(r, v) == s);
}

/// The heap address that an instruction reads or writes, if it has one.
pub open spec fn address_of(instr: Instruction) -> Option<Address> {
    match instr {
        Instruction::PRINTV(a) => Some(a),
        Instruction::VSTORE(a, _) => Some(a),
        Instruction::VLOAD(a) => Some(a),
        Instruction::VSTORER(a, _) => Some(a),
        Instruction::VLOADR(_, a) => Some(a),
        _ => None,
    }
}

/// The register that an instruction with a heap address names, if it names
/// one.
pub open spec fn register_beside_address(instr: Instruction) -> Option<Register> {
    match instr {
        Instruction::VSTORER(_, r) => Some(r),
        Instruction::VLOADR(r, _) => Some(r),
        _ => None,
    }
}

/// An instruction with a heap address succeeds if the address is below the
/// capacity of the heap, so at the first and at the last cell, and fails
/// with `BadAddress` if it is not; where it names a register, that holds for
/// a register that exists.
pub proof fn lemma_heap_bounds(s: MachineState, instr: Instruction)
    requires
        address_of(instr) is Some,
        register_beside_address(instr) matches Some(r) ==> r < 8,
    ensures
        address_of(instr).unwrap() < s.heap.len() ==> s.step(instr).result is Ok,
        address_of(instr).unwrap() >= s.heap.len() ==> s.step(instr) == s.fault(Fault::BadAddress),
{
}

/// No instruction changes the program, the capacity of the heap or the
/// number of registers.
pub proof fn lemma_step_keeps_shape(s: MachineState, instr: Instruction)
    requires
        s.well_formed(),
    ensures
        s.step(instr).state.code == s.code,
        s.step(instr).state.heap.len() == s.heap.len(),
        s.step(instr).state.regs.len() == s.regs.len(),
{
}

/// No instruction but a comparison changes the flags, and only a jump, a
/// call or a return changes `ip`.
pub proof fn lemma_flags_and_ip(s: MachineState, instr: Instruction)
    ensures
        !(instr is CMP) ==> s.step(instr).state.flag_eq == s.flag_eq && s.step(
            instr,
        ).state.flag_gt == s.flag_gt,
        !(instr is JMP || instr is JE || instr is JNE || instr is JG || instr is JL
            || instr is CALL || instr is RET) ==> s.step(instr).state.ip == s.ip,
{
}

/// A run changes neither the program nor the capacity of the heap nor the
/// number of registers.
pub proof fn lemma_run_keeps_shape(code: Seq<Instruction>, s: MachineState, from: int)
    requires
        s.well_formed(),
    ensures
        run(code, s, from).state.code == s.code,
        run(code, s, from).state.heap.len() == s.heap.len(),
        run(code, s, from).state.regs.len() == s.regs.len(),
    decreases code.len() - from,
{
    if 0 <= from < code.len() {
        let t = s.step(code[from]);
        lemma_step_keeps_shape(s, code[from]);
        if t.result == Ok::<Step, Fault>(Step::Done) {
            lemma_run_keeps_shape(code, t.state, from + 1);
        }
    }
}

} // verus!
