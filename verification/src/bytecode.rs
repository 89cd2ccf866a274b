//! The instruction set and the decoder of its byte format.
//!
//! An instruction is one opcode byte followed by its operands. A register or
//! a heap address is one byte. A value is a tag byte that names its kind,
//! followed by the payload of that kind in little-endian order. An opcode
//! byte that names no instruction stands for `NOP`, and a tag byte that names
//! no kind stands for the absent value, which has no payload.

use crate::value::{Immediate, Kind};
use vstd::prelude::*;

verus! {

pub type Register = usize;

pub type Address = usize;

#[derive(Clone, Copy, Debug, PartialEq, Eq, Structural)]
pub enum Instruction {
    /// Does nothing.
    NOP(),
    /// Puts a value into a register.
    MOV(Register, Immediate),
    /// Copies the second register into the first.
    MOVR(Register, Register),
    /// Jumps to the location held in a register.
    JMP(Register),
    /// Jumps if the last comparison found equality.
    JE(Register),
    /// Jumps unless the last comparison found equality.
    JNE(Register),
    /// Jumps if the last comparison found the first value greater.
    JG(Register),
    /// Jumps unless the last comparison found the first value greater.
    JL(Register),
    /// Compares two registers and sets the flags.
    CMP(Register, Register),
    /// Shows a register.
    PRINTR(Register),
    /// Shows a heap cell.
    PRINTV(Address),
    /// Stores a value into a heap cell.
    VSTORE(Address, Immediate),
    /// Pushes a heap cell.
    VLOAD(Address),
    /// Stores a register into a heap cell.
    VSTORER(Address, Register),
    /// Loads a heap cell into a register.
    VLOADR(Register, Address),
    /// Pushes the sum of two registers.
    ADD(Register, Register),
    /// Pushes the first register minus the second.
    SUB(Register, Register),
    /// Pushes the product of two registers.
    MUL(Register, Register),
    /// Pushes the second register divided by the first.
    DIV(Register, Register),
    /// Pushes the bitwise and of two registers.
    AND(Register, Register),
    /// Pushes the bitwise or of two registers.
    OR(Register, Register),
    /// Pushes the bitwise exclusive or of two registers.
    XOR(Register, Register),
    /// Pushes the value shifted right by as many bits as the register holds.
    SHR(Register, Immediate),
    /// Pushes the value shifted left by as many bits as the register holds.
    SHL(Register, Immediate),
    /// Pushes a value.
    VPUSH(Immediate),
    /// Pushes a register.
    VPUSHR(Register),
    /// Pops the stack into a register.
    VPOP(Register),
    /// Pushes the return address and jumps to the location in a register.
    CALL(Register),
    /// Pops a location and jumps to it.
    RET(),
    /// Clears the running flag.
    HALT(),
}

/// Why a byte sequence is no program.
#[derive(Clone, Copy, Debug, PartialEq, Eq, Structural)]
pub enum DecodeError {
    /// The instruction whose opcode byte is at offset `at` has operands that
    /// reach past the end of the bytes.
    Truncated { at: usize },
}

/// The operands that follow an opcode byte.
#[derive(Clone, Copy, Debug, PartialEq, Eq, Structural)]
pub enum Layout {
    /// No operand.
    Bare,
    /// One register or address.
    Byte,
    /// Two registers or addresses.
    Pair,
    /// One register or address, then a value.
    ByteValue,
    /// A value.
    Value,
}

impl Layout {
    pub open spec fn spec_of(opcode: u8) -> Layout {
        if opcode == 1 || opcode == 9 || opcode == 28 || opcode == 29 {
            Layout::ByteValue
        } else if opcode == 17 {
            Layout::Value
        } else if opcode == 2 || opcode == 6 || (11 <= opcode <= 16) || (25 <= opcode <= 27) {
            Layout::Pair
        } else if opcode == 0 || opcode == 21 || opcode == 22 || opcode >= 30 {
            Layout::Bare
        } else {
            Layout::Byte
        }
    }

    /// Number of bytes up to the tag byte of the value, or up to the end of
    /// the instruction where it has no value: the opcode byte and the
    /// registers and addresses.
    pub open spec fn spec_head(self) -> usize {
        match self {
            Layout::Bare | Layout::Value => 1,
            Layout::Byte | Layout::ByteValue => 2,
            Layout::Pair => 3,
        }
    }

    pub open spec fn spec_has_value(self) -> bool {
        self == Layout::ByteValue || self == Layout::Value
    }

    #[verifier::when_used_as_spec(spec_of)]
    pub fn of(opcode: u8) -> (l: Layout)
        ensures
            l == Layout::spec_of(opcode),
    {
        match opcode {
            1 | 9 | 28 | 29 => Layout::ByteValue,
            17 => Layout::Value,
            2 | 6 | 11 | 12 | 13 | 14 | 15 | 16 | 25 | 26 | 27 => Layout::Pair,
            3 | 4 | 5 | 7 | 8 | 10 | 18 | 19 | 20 | 23 | 24 => Layout::Byte,
            _ => Layout::Bare,
        }
    }

    #[verifier::when_used_as_spec(spec_head)]
    pub fn head(self) -> (n: usize)
        ensures
            n == self.spec_head(),
    {
        match self {
            Layout::Bare | Layout::Value => 1,
            Layout::Byte | Layout::ByteValue => 2,
            Layout::Pair => 3,
        }
    }

    #[verifier::when_used_as_spec(spec_has_value)]
    pub fn has_value(self) -> (b: bool)
        ensures
            b == self.spec_has_value(),
    {
        match self {
            Layout::ByteValue | Layout::Value => true,
            _ => false,
        }
    }
}

/// The number that `width` bytes from offset `at` on spell in little-endian
/// order, for a width of 1, 2, 4 or 8; 0 for any other width.
pub open spec fn le_value(bytes: Seq<u8>, at: int, width: int) -> int
    decreases width,
{
    if width == 1 {
        bytes[at] as int
    } else if width == 2 {
        le_value(bytes, at, 1) + 0x100 * le_value(bytes, at + 1, 1)
    } else if width == 4 {
        le_value(bytes, at, 2) + 0x1_0000 * le_value(bytes, at + 2, 2)
    } else if width == 8 {
        le_value(bytes, at, 4) + 0x1_0000_0000 * le_value(bytes, at + 4, 4)
    } else {
        0
    }
}

/// The bytes that spell `raw` in little-endian order, for a width of 1, 2, 4
/// or 8 and a number that `width` bytes can hold.
pub open spec fn le_bytes(raw: int, width: int) -> Seq<u8>
    decreases width,
{
    if width == 1 {
        seq![raw as u8]
    } else if width == 2 {
        le_bytes(raw % 0x100, 1) + le_bytes(raw / 0x100, 1)
    } else if width == 4 {
        le_bytes(raw % 0x1_0000, 2) + le_bytes(raw / 0x1_0000, 2)
    } else if width == 8 {
        le_bytes(raw % 0x1_0000_0000, 4) + le_bytes(raw / 0x1_0000_0000, 4)
    } else {
        Seq::empty()
    }
}

/// The payload of a value as the unsigned number that its bytes spell: a
/// negative integer is taken in two's complement.
pub open spec fn raw_of(v: Immediate) -> int {
    if v.payload() < 0 {
        v.payload() + 2 * (v.spec_kind().max() + 1)
    } else {
        v.payload()
    }
}

/// The bytes of a value that is not absent: its tag, then its payload.
pub open spec fn encoding(v: Immediate) -> Seq<u8> {
    seq![(v.spec_kind().spec_rank() - 1) as u8] + le_bytes(
        raw_of(v),
        v.spec_kind().spec_width() as int,
    )
}

/// Whether a whole value, tag and payload, lies in the bytes from `tag_at` on.
pub open spec fn value_fits(bytes: Seq<u8>, tag_at: int) -> bool {
    &&& 0 <= tag_at < bytes.len()
    &&& tag_at + 1 + Kind::spec_from_tag(bytes[tag_at]).spec_width() <= bytes.len()
}

/// The value whose tag byte is at `tag_at`.
pub open spec fn value_at(bytes: Seq<u8>, tag_at: int) -> Immediate {
    let kind = Kind::spec_from_tag(bytes[tag_at]);
    Immediate::from_raw(kind, le_value(bytes, tag_at + 1, kind.spec_width() as int))
}

/// Number of bytes of the instruction whose opcode byte is at `at`. Where
/// the bytes end before the tag of its value, the tag is counted and no
/// payload.
pub open spec fn encoded_len(bytes: Seq<u8>, at: int) -> int {
    let layout = Layout::spec_of(bytes[at]);
    let tag_at = at + layout.spec_head();
    if !layout.spec_has_value() {
        layout.spec_head() as int
    } else if tag_at >= bytes.len() {
        layout.spec_head() + 1
    } else {
        layout.spec_head() + 1 + Kind::spec_from_tag(bytes[tag_at]).spec_width()
    }
}

/// Whether the instruction whose opcode byte is at `at` ends within the bytes.
pub open spec fn complete_at(bytes: Seq<u8>, at: int) -> bool {
    0 <= at < bytes.len() && at + encoded_len(bytes, at) <= bytes.len()
}

/// The instruction that an opcode byte and its operands stand for. Each
/// instruction reads the operands that its layout has.
pub open spec fn assemble(opcode: u8, a: usize, b: usize, v: Immediate) -> Instruction {
    if opcode == 1 {
        Instruction::MOV(a, v)
    } else if opcode == 2 {
        Instruction::MOVR(a, b)
    } else if opcode == 3 {
        Instruction::JMP(a)
    } else if opcode == 4 {
        Instruction::JE(a)
    } else if opcode == 5 {
        Instruction::JNE(a)
    } else if opcode == 6 {
        Instruction::CMP(a, b)
    } else if opcode == 7 {
        Instruction::PRINTR(a)
    } else if opcode == 8 {
        Instruction::PRINTV(a)
    } else if opcode == 9 {
        Instruction::VSTORE(a, v)
    } else if opcode == 10 {
        Instruction::VLOAD(a)
    } else if opcode == 11 {
        Instruction::ADD(a, b)
    } else if opcode == 12 {
        Instruction::SUB(a, b)
    } else if opcode == 13 {
        Instruction::MUL(a, b)
    } else if opcode == 14 {
        Instruction::DIV(a, b)
    } else if opcode == 15 {
        Instruction::VSTORER(a, b)
    } else if opcode == 16 {
        Instruction::VLOADR(a, b)
    } else if opcode == 17 {
        Instruction::VPUSH(v)
    } else if opcode == 18 {
        Instruction::VPUSHR(a)
    } else if opcode == 19 {
        Instruction::VPOP(a)
    } else if opcode == 20 {
        Instruction::CALL(a)
    } else if opcode == 21 {
        Instruction::RET()
    } else if opcode == 22 {
        Instruction::HALT()
    } else if opcode == 23 {
        Instruction::JG(a)
    } else if opcode == 24 {
        Instruction::JL(a)
    } else if opcode == 25 {
        Instruction::AND(a, b)
    } else if opcode == 26 {
        Instruction::OR(a, b)
    } else if opcode == 27 {
        Instruction::XOR(a, b)
    } else if opcode == 28 {
        Instruction::SHR(a, v)
    } else if opcode == 29 {
        Instruction::SHL(a, v)
    } else {
        Instruction::NOP()
    }
}

/// The instruction whose opcode byte is at `at`, where it is complete.
pub open spec fn instruction_at(bytes: Seq<u8>, at: int) -> Instruction {
    let layout = Layout::spec_of(bytes[at]);
    assemble(
        bytes[at],
        if layout == Layout::Bare || layout == Layout::Value {
            0
        } else {
            bytes[at + 1] as usize
        },
        if layout == Layout::Pair {
            bytes[at + 2] as usize
        } else {
            0
        },
        if layout.spec_has_value() {
            value_at(bytes, at + layout.spec_head())
        } else {
            Immediate::Absent()
        },
    )
}

/// The instructions that the bytes from `at` on stand for, read from left to
/// right, or the first instruction that is cut short.
pub open spec fn decode_from(bytes: Seq<u8>, at: int) -> Result<Seq<Instruction>, DecodeError>
    decreases bytes.len() - at,
{
    if at < 0 || at >= bytes.len() {
        Ok(Seq::empty())
    } else if !complete_at(bytes, at) {
        Err(DecodeError::Truncated { at: at as usize })
    } else {
        match decode_from(bytes, at + encoded_len(bytes, at)) {
            Ok(rest) => Ok(seq![instruction_at(bytes, at)] + rest),
            Err(e) => Err(e),
        }
    }
}

/// The program that a byte sequence stands for.
pub open spec fn decoding(bytes: Seq<u8>) -> Result<Seq<Instruction>, DecodeError> {
    decode_from(bytes, 0)
}

/// What is decoded once `done` has been read and `rest` is what follows.
pub open spec fn followed_by(
    done: Seq<Instruction>,
    rest: Result<Seq<Instruction>, DecodeError>,
) -> Result<Seq<Instruction>, DecodeError> {
    match rest {
        Ok(r) => Ok(done + r),
        Err(e) => Err(e),
    }
}

proof fn lemma_decode_step(bytes: Seq<u8>, at: int, done: Seq<Instruction>)
    requires
        complete_at(bytes, at),
    ensures
        followed_by(done, decode_from(bytes, at)) == followed_by(
            done.push(instruction_at(bytes, at)),
            decode_from(bytes, at + encoded_len(bytes, at)),
        ),
{
    let next = decode_from(bytes, at + encoded_len(bytes, at));
    if let Ok(rest) = next {
        assert(done + (seq![instruction_at(bytes, at)] + rest) =~= done.push(
            instruction_at(bytes, at),
        ) + rest);
    }
}

fn read2(input: &Vec<u8>, at: usize) -> (raw: u64)
    requires
        at + 2 <= input.len(),
    ensures
        raw == le_value(input@, at as int, 2),
        raw <= 0xffff,
{
    proof {
        reveal_with_fuel(le_value, 2);
    }
    let lo: u64 = input[at] as u64;
    let hi: u64 = input[at + 1] as u64;
    lo + 0x100 * hi
}

fn read4(input: &Vec<u8>, at: usize) -> (raw: u64)
    requires
        at + 4 <= input.len(),
    ensures
        raw == le_value(input@, at as int, 4),
        raw <= 0xffff_ffff,
{
    let lo: u64 = read2(input, at);
    let hi: u64 = read2(input, at + 2);
    lo + 0x1_0000 * hi
}

fn read8(input: &Vec<u8>, at: usize) -> (raw: u64)
    requires
        at + 8 <= input.len(),
    ensures
        raw == le_value(input@, at as int, 8),
{
    let lo: u64 = read4(input, at);
    let hi: u64 = read4(input, at + 4);
    lo + 0x1_0000_0000 * hi
}

/// Reads the payload of a kind as one unsigned number.
fn read_payload(input: &Vec<u8>, at: usize, kind: Kind) -> (raw: u64)
    requires
        at + kind.spec_width() <= input.len(),
    ensures
        raw == le_value(input@, at as int, kind.spec_width() as int),
        kind.spec_width() == 0 ==> raw == 0,
        kind.spec_width() == 1 ==> raw <= 0xff,
        kind.spec_width() == 2 ==> raw <= 0xffff,
        kind.spec_width() == 4 ==> raw <= 0xffff_ffff,
{
    let width: usize = kind.width();
    if width == 1 {
        input[at] as u64
    } else if width == 2 {
        read2(input, at)
    } else if width == 4 {
        read4(input, at)
    } else if width == 8 {
        read8(input, at)
    } else {
        0
    }
}

/// Builds the value of a kind from its payload read as an unsigned number.
fn value_of(kind: Kind, raw: u64) -> (v: Immediate)
    requires
        kind.spec_width() == 0 ==> raw == 0,
        kind.spec_width() == 1 ==> raw <= 0xff,
        kind.spec_width() == 2 ==> raw <= 0xffff,
        kind.spec_width() == 4 ==> raw <= 0xffff_ffff,
    ensures
        v == Immediate::from_raw(kind, raw as int),
{
    match kind {
        Kind::Absent => Immediate::Absent(),
        Kind::U8 => Immediate::U8(raw as u8),
        Kind::I8 => if raw > 0x7f {
            Immediate::I8(((raw - 0x80) as i8) + i8::MIN)
        } else {
            Immediate::I8(raw as i8)
        },
        Kind::U16 => Immediate::U16(raw as u16),
        Kind::I16 => if raw > 0x7fff {
            Immediate::I16(((raw - 0x8000) as i16) + i16::MIN)
        } else {
            Immediate::I16(raw as i16)
        },
        Kind::U32 => Immediate::U32(raw as u32),
        Kind::I32 => if raw > 0x7fff_ffff {
            Immediate::I32(((raw - 0x8000_0000) as i32) + i32::MIN)
        } else {
            Immediate::I32(raw as i32)
        },
        Kind::U64 => Immediate::U64(raw),
        Kind::I64 => if raw > 0x7fff_ffff_ffff_ffff {
            Immediate::I64(((raw - 0x8000_0000_0000_0000) as i64) + i64::MIN)
        } else {
            Immediate::I64(raw as i64)
        },
        Kind::F32 => Immediate::F32(raw as u32),
        Kind::F64 => Immediate::F64(raw),
    }
}

/// Reads the value whose tag byte follows the cursor, and leaves the cursor
/// on the last byte of the value. Returns `None`, and leaves the cursor where
/// it was, where the bytes end before the value does.
pub fn decode_immediate(input: &Vec<u8>, ip: &mut usize) -> (r: Option<Immediate>)
    ensures
        r is Some <==> value_fits(input@, *old(ip) + 1),
        r matches Some(v) ==> {
            &&& v == value_at(input@, *old(ip) + 1)
            &&& *final(ip) == *old(ip) + 1 + Kind::spec_from_tag(
                input@[*old(ip) + 1],
            ).spec_width()
        },
        r is None ==> *final(ip) == *old(ip),
{
    if *ip >= input.len() || *ip + 1 >= input.len() {
        return None;
    }
    let tag_at: usize = *ip + 1;
    let kind: Kind = Kind::from_tag(input[tag_at]);
    let width: usize = kind.width();
    if width > input.len() - tag_at - 1 {
        return None;
    }
    let raw: u64 = read_payload(input, tag_at + 1, kind);
    *ip = tag_at + width;
    Some(value_of(kind, raw))
}

/// Decodes a program: the instructions that the bytes stand for, in order.
/// Fails at the first instruction whose operands reach past the end.
pub fn decode(input: Vec<u8>) -> (r: Result<Vec<Instruction>, DecodeError>)
    ensures
        match r {
            Ok(code) => decoding(input@) == Ok::<Seq<Instruction>, DecodeError>(code@),
            Err(e) => decoding(input@) == Err::<Seq<Instruction>, DecodeError>(e),
        },
{
    let mut ip: usize = 0;
    let mut ret: Vec<Instruction> = Vec::new();
    while ip < input.len()
        invariant
            ip <= input.len(),
            decoding(input@) == followed_by(ret@, decode_from(input@, ip as int)),
        decreases input.len() - ip,
    {
        let start: usize = ip;
        let opcode: u8 = input[start];
        let layout: Layout = Layout::of(opcode);
        let head: usize = layout.head();
        if head > input.len() - start {
            return Err(DecodeError::Truncated { at: start });
        }
        let a: usize = if head >= 2 {
            input[start + 1] as usize
        } else {
            0
        };
        let b: usize = if head >= 3 {
            input[start + 2] as usize
        } else {
            0
        };
        ip = start + head - 1;
        let v: Immediate = if layout.has_value() {
            match decode_immediate(&input, &mut ip) {
                Some(v) => v,
                None => {
                    return Err(DecodeError::Truncated { at: start });
                },
            }
        } else {
            Immediate::Absent()
        };
        let ins: Instruction = match opcode {
            1 => Instruction::MOV(a, v),
            2 => Instruction::MOVR(a, b),
            3 => Instruction::JMP(a),
            4 => Instruction::JE(a),
            5 => Instruction::JNE(a),
            6 => Instruction::CMP(a, b),
            7 => Instruction::PRINTR(a),
            8 => Instruction::PRINTV(a),
            9 => Instruction::VSTORE(a, v),
            10 => Instruction::VLOAD(a),
            11 => Instruction::ADD(a, b),
            12 => Instruction::SUB(a, b),
            13 => Instruction::MUL(a, b),
            14 => Instruction::DIV(a, b),
            15 => Instruction::VSTORER(a, b),
            16 => Instruction::VLOADR(a, b),
            17 => Instruction::VPUSH(v),
            18 => Instruction::VPUSHR(a),
            19 => Instruction::VPOP(a),
            20 => Instruction::CALL(a),
            21 => Instruction::RET(),
            22 => Instruction::HALT(),
            23 => Instruction::JG(a),
            24 => Instruction::JL(a),
            25 => Instruction::AND(a, b),
            26 => Instruction::OR(a, b),
            27 => Instruction::XOR(a, b),
            28 => Instruction::SHR(a, v),
            29 => Instruction::SHL(a, v),
            _ => Instruction::NOP(),
        };
        proof {
            assert(complete_at(input@, start as int));
            assert(ins == instruction_at(input@, start as int));
            assert(ip + 1 == start + encoded_len(input@, start as int));
            lemma_decode_step(input@, start as int, ret@);
        }
        ret.push(ins);
        ip += 1;
    }
    Ok(ret)
}

} // verus!
