//! The value model: a tagged scalar of one of ten numeric kinds, or nothing.
//!
//! Integer payloads are held as the matching Rust integer. The two
//! floating-point kinds hold their IEEE-754 bit pattern, so that a value can
//! be moved, stored and compared without floating-point arithmetic.

use vstd::prelude::*;

verus! {

/// The kind of a value. The variants are listed in rank order: the rank is
/// what orders two values of different kinds.
#[derive(Clone, Copy, Debug, PartialEq, Eq, Structural)]
pub enum Kind {
    Absent,
    U8,
    I8,
    U16,
    I16,
    U32,
    I32,
    U64,
    I64,
    F32,
    F64,
}

impl Kind {
    /// Position of the kind in the rank table.
    pub open spec fn spec_rank(self) -> u8 {
        match self {
            Kind::Absent => 0,
            Kind::U8 => 1,
            Kind::I8 => 2,
            Kind::U16 => 3,
            Kind::I16 => 4,
            Kind::U32 => 5,
            Kind::I32 => 6,
            Kind::U64 => 7,
            Kind::I64 => 8,
            Kind::F32 => 9,
            Kind::F64 => 10,
        }
    }

    /// Number of payload bytes that follow the tag byte in the byte format.
    pub open spec fn spec_width(self) -> usize {
        match self {
            Kind::Absent => 0,
            Kind::U8 | Kind::I8 => 1,
            Kind::U16 | Kind::I16 => 2,
            Kind::U32 | Kind::I32 | Kind::F32 => 4,
            Kind::U64 | Kind::I64 | Kind::F64 => 8,
        }
    }

    /// The kind that a tag byte announces. Tags above 9 announce no value.
    pub open spec fn spec_from_tag(tag: u8) -> Kind {
        if tag == 0 {
            Kind::U8
        } else if tag == 1 {
            Kind::I8
        } else if tag == 2 {
            Kind::U16
        } else if tag == 3 {
            Kind::I16
        } else if tag == 4 {
            Kind::U32
        } else if tag == 5 {
            Kind::I32
        } else if tag == 6 {
            Kind::U64
        } else if tag == 7 {
            Kind::I64
        } else if tag == 8 {
            Kind::F32
        } else if tag == 9 {
            Kind::F64
        } else {
            Kind::Absent
        }
    }

    pub open spec fn is_integer(self) -> bool {
        1 <= self.spec_rank() <= 8
    }

    pub open spec fn is_float(self) -> bool {
        self == Kind::F32 || self == Kind::F64
    }

    pub open spec fn is_signed(self) -> bool {
        self == Kind::I8 || self == Kind::I16 || self == Kind::I32 || self == Kind::I64
    }

    /// Number of bits of a payload of this kind.
    pub open spec fn bits(self) -> int {
        8 * self.spec_width()
    }

    /// Smallest payload of the kind, read as an integer. The payload of a
    /// float is its bit pattern, which is unsigned.
    pub open spec fn min(self) -> int {
        match self {
            Kind::I8 => -0x80,
            Kind::I16 => -0x8000,
            Kind::I32 => -0x8000_0000,
            Kind::I64 => -0x8000_0000_0000_0000,
            _ => 0,
        }
    }

    /// Largest payload of the kind, read as an integer.
    pub open spec fn max(self) -> int {
        match self {
            Kind::Absent => 0,
            Kind::U8 => 0xff,
            Kind::I8 => 0x7f,
            Kind::U16 => 0xffff,
            Kind::I16 => 0x7fff,
            Kind::U32 | Kind::F32 => 0xffff_ffff,
            Kind::I32 => 0x7fff_ffff,
            Kind::U64 | Kind::F64 => 0xffff_ffff_ffff_ffff,
            Kind::I64 => 0x7fff_ffff_ffff_ffff,
        }
    }

    pub open spec fn holds(self, payload: int) -> bool {
        self.min() <= payload <= self.max()
    }

    #[verifier::when_used_as_spec(spec_rank)]
    pub fn rank(self) -> (r: u8)
        ensures
            r == self.spec_rank(),
    {
        match self {
            Kind::Absent => 0,
            Kind::U8 => 1,
            Kind::I8 => 2,
            Kind::U16 => 3,
            Kind::I16 => 4,
            Kind::U32 => 5,
            Kind::I32 => 6,
            Kind::U64 => 7,
            Kind::I64 => 8,
            Kind::F32 => 9,
            Kind::F64 => 10,
        }
    }

    #[verifier::when_used_as_spec(spec_width)]
    pub fn width(self) -> (w: usize)
        ensures
            w == self.spec_width(),
    {
        match self {
            Kind::Absent => 0,
            Kind::U8 | Kind::I8 => 1,
            Kind::U16 | Kind::I16 => 2,
            Kind::U32 | Kind::I32 | Kind::F32 => 4,
            Kind::U64 | Kind::I64 | Kind::F64 => 8,
        }
    }

    #[verifier::when_used_as_spec(spec_from_tag)]
    pub fn from_tag(tag: u8) -> (k: Kind)
        ensures
            k == Kind::spec_from_tag(tag),
    {
        match tag {
            0 => Kind::U8,
            1 => Kind::I8,
            2 => Kind::U16,
            3 => Kind::I16,
            4 => Kind::U32,
            5 => Kind::I32,
            6 => Kind::U64,
            7 => Kind::I64,
            8 => Kind::F32,
            9 => Kind::F64,
            _ => Kind::Absent,
        }
    }
}

/// A value of the machine: nothing, or one scalar of a numeric kind.
///
/// `F32` and `F64` hold the IEEE-754 bit pattern of the number. The derived
/// `==` therefore tells whether two values are the same kind and bits; the
/// comparison that the machine makes is [`Immediate::equals`] and
/// [`Immediate::exceeds`].
#[derive(Clone, Copy, Debug, PartialEq, Eq, Structural)]
pub enum Immediate {
    Absent(),
    U8(u8),
    I8(i8),
    U16(u16),
    I16(i16),
    U32(u32),
    I32(i32),
    U64(u64),
    I64(i64),
    F32(u32),
    F64(u64),
}

/// The value whose sign bit has weight `half`, read as a signed number:
/// the key by which IEEE-754 orders two numbers that are not NaN. Both zeros
/// have the key 0.
pub open spec fn sign_magnitude(bits: int, half: int) -> int {
    if bits >= half {
        half - bits
    } else {
        bits
    }
}

/// Whether a bit pattern is a NaN, where `half` is the weight of the sign bit
/// and `infinity` the pattern of positive infinity.
pub open spec fn pattern_is_nan(bits: int, half: int, infinity: int) -> bool {
    if bits >= half {
        bits - half > infinity
    } else {
        bits > infinity
    }
}

impl Immediate {
    pub open spec fn spec_kind(self) -> Kind {
        match self {
            Immediate::Absent() => Kind::Absent,
            Immediate::U8(_) => Kind::U8,
            Immediate::I8(_) => Kind::I8,
            Immediate::U16(_) => Kind::U16,
            Immediate::I16(_) => Kind::I16,
            Immediate::U32(_) => Kind::U32,
            Immediate::I32(_) => Kind::I32,
            Immediate::U64(_) => Kind::U64,
            Immediate::I64(_) => Kind::I64,
            Immediate::F32(_) => Kind::F32,
            Immediate::F64(_) => Kind::F64,
        }
    }

    /// The payload as an integer: the number itself for an integer kind, the
    /// bit pattern for a float, 0 for the absent value.
    pub open spec fn payload(self) -> int {
        match self {
            Immediate::Absent() => 0,
            Immediate::U8(v) => v as int,
            Immediate::I8(v) => v as int,
            Immediate::U16(v) => v as int,
            Immediate::I16(v) => v as int,
            Immediate::U32(v) => v as int,
            Immediate::I32(v) => v as int,
            Immediate::U64(v) => v as int,
            Immediate::I64(v) => v as int,
            Immediate::F32(v) => v as int,
            Immediate::F64(v) => v as int,
        }
    }

    /// The value of a kind with a payload, for a payload that the kind holds.
    pub open spec fn make(kind: Kind, payload: int) -> Immediate {
        match kind {
            Kind::Absent => Immediate::Absent(),
            Kind::U8 => Immediate::U8(payload as u8),
            Kind::I8 => Immediate::I8(payload as i8),
            Kind::U16 => Immediate::U16(payload as u16),
            Kind::I16 => Immediate::I16(payload as i16),
            Kind::U32 => Immediate::U32(payload as u32),
            Kind::I32 => Immediate::I32(payload as i32),
            Kind::U64 => Immediate::U64(payload as u64),
            Kind::I64 => Immediate::I64(payload as i64),
            Kind::F32 => Immediate::F32(payload as u32),
            Kind::F64 => Immediate::F64(payload as u64),
        }
    }

    /// The value that `width` little-endian payload bytes of value `raw`
    /// stand for: a signed kind reads them in two's complement.
    pub open spec fn from_raw(kind: Kind, raw: int) -> Immediate {
        if kind.is_signed() && raw > kind.max() {
            Immediate::make(kind, raw - 2 * (kind.max() + 1))
        } else {
            Immediate::make(kind, raw)
        }
    }

    /// Whether the value is a float that is not a number.
    pub open spec fn is_nan(self) -> bool {
        match self {
            Immediate::F32(b) => pattern_is_nan(b as int, 0x8000_0000, 0x7f80_0000),
            Immediate::F64(b) => pattern_is_nan(
                b as int,
                0x8000_0000_0000_0000,
                0x7ff0_0000_0000_0000,
            ),
            _ => false,
        }
    }

    /// The integer by which the value is ordered among values of its kind.
    pub open spec fn order_key(self) -> int {
        match self {
            Immediate::F32(b) => sign_magnitude(b as int, 0x8000_0000),
            Immediate::F64(b) => sign_magnitude(b as int, 0x8000_0000_0000_0000),
            _ => self.payload(),
        }
    }

    /// Equality as the machine sees it: the same kind and the same number.
    /// A NaN equals nothing, itself included, and the two zeros of a float
    /// kind are equal.
    pub open spec fn spec_equals(self, other: Immediate) -> bool {
        &&& self.spec_kind() == other.spec_kind()
        &&& !self.is_nan()
        &&& !other.is_nan()
        &&& self.order_key() == other.order_key()
    }

    /// Order as the machine sees it. Two values of one kind are ordered as
    /// numbers, and a NaN is greater than nothing and nothing is greater than
    /// it. Two values of different kinds are ordered by the rank of their
    /// kinds, whatever they hold.
    pub open spec fn spec_exceeds(self, other: Immediate) -> bool {
        if self.spec_kind() == other.spec_kind() {
            !self.is_nan() && !other.is_nan() && self.order_key() > other.order_key()
        } else {
            self.spec_kind().spec_rank() > other.spec_kind().spec_rank()
        }
    }

    #[verifier::when_used_as_spec(spec_kind)]
    pub fn kind(self) -> (k: Kind)
        ensures
            k == self.spec_kind(),
    {
        match self {
            Immediate::Absent() => Kind::Absent,
            Immediate::U8(_) => Kind::U8,
            Immediate::I8(_) => Kind::I8,
            Immediate::U16(_) => Kind::U16,
            Immediate::I16(_) => Kind::I16,
            Immediate::U32(_) => Kind::U32,
            Immediate::I32(_) => Kind::I32,
            Immediate::U64(_) => Kind::U64,
            Immediate::I64(_) => Kind::I64,
            Immediate::F32(_) => Kind::F32,
            Immediate::F64(_) => Kind::F64,
        }
    }

    #[verifier::when_used_as_spec(spec_equals)]
    pub fn equals(self, other: Immediate) -> (r: bool)
        ensures
            r == self.spec_equals(other),
    {
        match (self, other) {
            (Immediate::Absent(), Immediate::Absent()) => true,
            (Immediate::U8(a), Immediate::U8(b)) => a == b,
            (Immediate::I8(a), Immediate::I8(b)) => a == b,
            (Immediate::U16(a), Immediate::U16(b)) => a == b,
            (Immediate::I16(a), Immediate::I16(b)) => a == b,
            (Immediate::U32(a), Immediate::U32(b)) => a == b,
            (Immediate::I32(a), Immediate::I32(b)) => a == b,
            (Immediate::U64(a), Immediate::U64(b)) => a == b,
            (Immediate::I64(a), Immediate::I64(b)) => a == b,
            (Immediate::F32(a), Immediate::F32(b)) => {
                let half: u32 = 0x8000_0000;
                let infinity: u32 = 0x7f80_0000;
                let ma: u32 = if a >= half { a - half } else { a };
                let mb: u32 = if b >= half { b - half } else { b };
                ma <= infinity && mb <= infinity && (a == b || (ma == 0 && mb == 0))
            },
            (Immediate::F64(a), Immediate::F64(b)) => {
                let half: u64 = 0x8000_0000_0000_0000;
                let infinity: u64 = 0x7ff0_0000_0000_0000;
                let ma: u64 = if a >= half { a - half } else { a };
                let mb: u64 = if b >= half { b - half } else { b };
                ma <= infinity && mb <= infinity && (a == b || (ma == 0 && mb == 0))
            },
            _ => false,
        }
    }

    #[verifier::when_used_as_spec(spec_exceeds)]
    pub fn exceeds(self, other: Immediate) -> (r: bool)
        ensures
            r == self.spec_exceeds(other),
    {
        match (self, other) {
            (Immediate::Absent(), Immediate::Absent()) => false,
            (Immediate::U8(a), Immediate::U8(b)) => a > b,
            (Immediate::I8(a), Immediate::I8(b)) => a > b,
            (Immediate::U16(a), Immediate::U16(b)) => a > b,
            (Immediate::I16(a), Immediate::I16(b)) => a > b,
            (Immediate::U32(a), Immediate::U32(b)) => a > b,
            (Immediate::I32(a), Immediate::I32(b)) => a > b,
            (Immediate::U64(a), Immediate::U64(b)) => a > b,
            (Immediate::I64(a), Immediate::I64(b)) => a > b,
            (Immediate::F32(a), Immediate::F32(b)) => {
                let half: u32 = 0x8000_0000;
                let infinity: u32 = 0x7f80_0000;
                let ma: u32 = if a >= half { a - half } else { a };
                let mb: u32 = if b >= half { b - half } else { b };
                ma <= infinity && mb <= infinity && if a >= half {
                    b >= half && ma < mb
                } else {
                    if b >= half { ma > 0 || mb > 0 } else { ma > mb }
                }
            },
            (Immediate::F64(a), Immediate::F64(b)) => {
                let half: u64 = 0x8000_0000_0000_0000;
                let infinity: u64 = 0x7ff0_0000_0000_0000;
                let ma: u64 = if a >= half { a - half } else { a };
                let mb: u64 = if b >= half { b - half } else { b };
                ma <= infinity && mb <= infinity && if a >= half {
                    b >= half && ma < mb
                } else {
                    if b >= half { ma > 0 || mb > 0 } else { ma > mb }
                }
            },
            _ => self.kind().rank() > other.kind().rank(),
        }
    }
}

} // verus!
