//! The register file's naming scheme: eight byte-addressable general
//! registers packed into a 16-byte array, four word-only general registers,
//! four segment registers.  A word view of a general register `r` is the
//! little-endian concatenation of the bytes at indices `r` and `r + 4`.

use vstd::prelude::*;

verus! {

/// The eight byte-addressable general registers, in encoding order.
#[derive(Clone, Copy, Debug, PartialEq, Eq, Structural)]
pub enum GeneralByteReg {
    Al,
    Cl,
    Dl,
    Bl,
    Ah,
    Ch,
    Dh,
    Bh,
}

/// The eight word general registers, in encoding order.
#[derive(Clone, Copy, Debug, PartialEq, Eq, Structural)]
pub enum GeneralWordReg {
    Ax,
    Cx,
    Dx,
    Bx,
    Sp,
    Bp,
    Si,
    Di,
}

/// The four segment registers, in encoding order.
#[derive(Clone, Copy, Debug, PartialEq, Eq, Structural)]
pub enum SegmentReg {
    Es,
    Cs,
    Ss,
    Ds,
}

/// Any register that holds a 16-bit value.
#[derive(Clone, Copy, Debug, PartialEq, Eq, Structural)]
pub enum WordReg {
    General(GeneralWordReg),
    Segment(SegmentReg),
}

/// Any general register, of either width.
#[derive(Clone, Copy, Debug, PartialEq, Eq, Structural)]
pub enum GeneralReg {
    Byte(GeneralByteReg),
    Word(GeneralWordReg),
}

/// Any register a ModR/M `reg` field can name.
#[derive(Clone, Copy, Debug, PartialEq, Eq, Structural)]
pub enum Reg {
    Byte(GeneralByteReg),
    Word(GeneralWordReg),
    Segment(SegmentReg),
}

/// Operand width of a register/memory operand.
#[derive(Clone, Copy, Debug, PartialEq, Eq, Structural)]
pub enum Size {
    Byte,
    Word,
}

/// Index of a byte register in the 16-byte register array.
pub open spec fn breg_idx(r: GeneralByteReg) -> int {
    match r {
        GeneralByteReg::Al => 0,
        GeneralByteReg::Cl => 1,
        GeneralByteReg::Dl => 2,
        GeneralByteReg::Bl => 3,
        GeneralByteReg::Ah => 4,
        GeneralByteReg::Ch => 5,
        GeneralByteReg::Dh => 6,
        GeneralByteReg::Bh => 7,
    }
}

/// Index of the low byte of a word general register in the register array.
/// `Ax..Bx` pair with the byte registers; `Sp..Di` occupy the upper half.
pub open spec fn wreg_lo(r: GeneralWordReg) -> int {
    match r {
        GeneralWordReg::Ax => 0,
        GeneralWordReg::Cx => 1,
        GeneralWordReg::Dx => 2,
        GeneralWordReg::Bx => 3,
        GeneralWordReg::Sp => 8,
        GeneralWordReg::Bp => 9,
        GeneralWordReg::Si => 10,
        GeneralWordReg::Di => 11,
    }
}

/// Index of the high byte of a word general register in the register array.
pub open spec fn wreg_hi(r: GeneralWordReg) -> int {
    wreg_lo(r) + 4
}

/// Index of a segment register in the segment array.
pub open spec fn seg_idx(s: SegmentReg) -> int {
    match s {
        SegmentReg::Es => 0,
        SegmentReg::Cs => 1,
        SegmentReg::Ss => 2,
        SegmentReg::Ds => 3,
    }
}

/// The byte register named by an encoding value below 8.
pub open spec fn breg_of(v: u8) -> GeneralByteReg {
    if v == 0 {
        GeneralByteReg::Al
    } else if v == 1 {
        GeneralByteReg::Cl
    } else if v == 2 {
        GeneralByteReg::Dl
    } else if v == 3 {
        GeneralByteReg::Bl
    } else if v == 4 {
        GeneralByteReg::Ah
    } else if v == 5 {
        GeneralByteReg::Ch
    } else if v == 6 {
        GeneralByteReg::Dh
    } else {
        GeneralByteReg::Bh
    }
}

/// The word register named by an encoding value below 8.
pub open spec fn wreg_of(v: u8) -> GeneralWordReg {
    if v == 0 {
        GeneralWordReg::Ax
    } else if v == 1 {
        GeneralWordReg::Cx
    } else if v == 2 {
        GeneralWordReg::Dx
    } else if v == 3 {
        GeneralWordReg::Bx
    } else if v == 4 {
        GeneralWordReg::Sp
    } else if v == 5 {
        GeneralWordReg::Bp
    } else if v == 6 {
        GeneralWordReg::Si
    } else {
        GeneralWordReg::Di
    }
}

/// The segment register named by an encoding value below 4.
pub open spec fn sreg_of(v: u8) -> SegmentReg {
    if v == 0 {
        SegmentReg::Es
    } else if v == 1 {
        SegmentReg::Cs
    } else if v == 2 {
        SegmentReg::Ss
    } else {
        SegmentReg::Ds
    }
}

impl GeneralByteReg {
    /// Decodes a 3-bit register encoding into a byte register.
    pub fn from_u8(v: u8) -> (r: Option<GeneralByteReg>)
        ensures
            v < 8 ==> r == Some(breg_of(v)),
            v >= 8 ==> r is None,
    {
        match v {
            0 => Some(GeneralByteReg::Al),
            1 => Some(GeneralByteReg::Cl),
            2 => Some(GeneralByteReg::Dl),
            3 => Some(GeneralByteReg::Bl),
            4 => Some(GeneralByteReg::Ah),
            5 => Some(GeneralByteReg::Ch),
            6 => Some(GeneralByteReg::Dh),
            7 => Some(GeneralByteReg::Bh),
            _ => None,
        }
    }

    /// Index of this register in the register array.
    pub fn index(self) -> (i: usize)
        ensures
            i == breg_idx(self),
            i < 16,
    {
        match self {
            GeneralByteReg::Al => 0,
            GeneralByteReg::Cl => 1,
            GeneralByteReg::Dl => 2,
            GeneralByteReg::Bl => 3,
            GeneralByteReg::Ah => 4,
            GeneralByteReg::Ch => 5,
            GeneralByteReg::Dh => 6,
            GeneralByteReg::Bh => 7,
        }
    }
}

impl GeneralWordReg {
    /// Decodes a 3-bit register encoding into a word register.
    pub fn from_u8(v: u8) -> (r: Option<GeneralWordReg>)
        ensures
            v < 8 ==> r == Some(wreg_of(v)),
            v >= 8 ==> r is None,
    {
        match v {
            0 => Some(GeneralWordReg::Ax),
            1 => Some(GeneralWordReg::Cx),
            2 => Some(GeneralWordReg::Dx),
            3 => Some(GeneralWordReg::Bx),
            4 => Some(GeneralWordReg::Sp),
            5 => Some(GeneralWordReg::Bp),
            6 => Some(GeneralWordReg::Si),
            7 => Some(GeneralWordReg::Di),
            _ => None,
        }
    }

    /// Index of this register's low byte in the register array.
    pub fn index_low(self) -> (i: usize)
        ensures
            i == wreg_lo(self),
            i < 12,
    {
        match self {
            GeneralWordReg::Ax => 0,
            GeneralWordReg::Cx => 1,
            GeneralWordReg::Dx => 2,
            GeneralWordReg::Bx => 3,
            GeneralWordReg::Sp => 8,
            GeneralWordReg::Bp => 9,
            GeneralWordReg::Si => 10,
            GeneralWordReg::Di => 11,
        }
    }
}

impl SegmentReg {
    /// Decodes a register encoding into a segment register; only the
    /// values below 4 name one.
    pub fn from_u8(v: u8) -> (r: Option<SegmentReg>)
        ensures
            v < 4 ==> r == Some(sreg_of(v)),
            v >= 4 ==> r is None,
    {
        match v {
            0 => Some(SegmentReg::Es),
            1 => Some(SegmentReg::Cs),
            2 => Some(SegmentReg::Ss),
            3 => Some(SegmentReg::Ds),
            _ => None,
        }
    }

    /// Index of this register in the segment array.
    pub fn index(self) -> (i: usize)
        ensures
            i == seg_idx(self),
            i < 4,
    {
        match self {
            SegmentReg::Es => 0,
            SegmentReg::Cs => 1,
            SegmentReg::Ss => 2,
            SegmentReg::Ds => 3,
        }
    }
}

/// Sign-extension of a byte to 16 bits.
pub open spec fn sign_extend8(b: u8) -> u16 {
    if b < 0x80 {
        b as u16
    } else {
        (b as u16 + 0xFF00) as u16
    }
}

/// Computes the 16-bit sign extension of a byte.
pub fn sext8(b: u8) -> (r: u16)
    ensures
        r == sign_extend8(b),
{
    if b < 0x80 {
        b as u16
    } else {
        b as u16 + 0xFF00
    }
}

} // verus!
