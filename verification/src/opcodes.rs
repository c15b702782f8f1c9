//! Opcode dispatch: the prefix fetch loop, the table from primary opcode
//! byte (plus /digit extension where a byte is shared) to a decoded
//! instruction value, and the dispatch from a decoded instruction to its
//! executor.

use vstd::prelude::*;

use crate::conditionals::Cond;
use crate::cpu::{lemma_wadd_chain, only_ip_changed, Cpu, CpuErr};
use crate::cpu::CpuV;
use crate::modrm::{
    modrm_decode_ok, modrm_disp_len, rm_acc16, rm_acc8, rm_is_byte, rm_is_word, rm_len,
    rm_store16, rm_store8, rm_val16, rm_val8, spec_reg_field, spec_reg_mem, Modrm, ModrmRegType,
    RegMem,
};
use crate::regs::{GeneralByteReg, GeneralWordReg, Reg, SegmentReg, Size, WordReg};

verus! {

/// The prefixes gathered before an opcode: an optional segment override
/// (the last one wins) and the REP flag.
#[derive(Clone, Copy, Debug, PartialEq, Eq, Structural)]
pub struct Prefixes {
    pub segment: Option<SegmentReg>,
    pub rep: bool,
}

impl Prefixes {
    /// The default prefix state before each instruction.
    pub fn new() -> (p: Prefixes)
        ensures
            p.segment is None,
            !p.rep,
    {
        Prefixes { segment: None, rep: false }
    }
}

/// A decoded operation: the mnemonic tag with its decoded operands.
#[derive(Clone, Copy, Debug, PartialEq, Eq, Structural)]
pub enum Op {
    AddRm8R8 { rm: RegMem, reg: GeneralByteReg },
    AddR16Rm16 { reg: GeneralWordReg, rm: RegMem },
    AddAxImm16 { imm: u16 },
    AdcAxImm16 { imm: u16 },
    XorRm16R16 { rm: RegMem, reg: GeneralWordReg },
    CmpAlImm8 { imm: u8 },
    CmpAxImm16 { imm: u16 },
    CmpRm8Imm8 { rm: RegMem, imm: u8 },
    AddRm16Imm8 { rm: RegMem, imm: u8 },
    MovRm8R8 { rm: RegMem, reg: GeneralByteReg },
    MovRm16R16 { rm: RegMem, reg: GeneralWordReg },
    MovR8Rm8 { reg: GeneralByteReg, rm: RegMem },
    MovR16Rm16 { reg: GeneralWordReg, rm: RegMem },
    MovRm16Sreg { rm: RegMem, sreg: SegmentReg },
    MovSregRm16 { sreg: SegmentReg, rm: RegMem },
    MovAlMoffs8 { segment: SegmentReg, offset: u8 },
    MovR8Imm8 { reg: GeneralByteReg, imm: u8 },
    MovR16Imm16 { reg: GeneralWordReg, imm: u16 },
    LesR16M1616 { reg: GeneralWordReg, rm: RegMem },
    PushEs,
    PopEs,
    PushDs,
    PushR16 { reg: GeneralWordReg },
    PopR16 { reg: GeneralWordReg },
    Popa,
    PushImm16 { imm: u16 },
    PushImm8 { imm: u8 },
    Jcond { cond: Cond, disp: u8 },
    Pushf,
    Popf,
    Sahf,
    Lahf,
    Stosb,
    Stosw,
    Ret,
    EnterImm16Imm8 { size: u16, nesting: u8 },
    Jcxz { disp: u8 },
    CallRel16 { rel: u16 },
    JmpPtr1616 { off: u16, seg: u16 },
    InAlImm8 { port: u8 },
    InAxImm8 { port: u8 },
    OutImm8Al { port: u8 },
    OutImm8Ax { port: u8 },
    InAlDx,
    InAxDx,
    OutDxAl,
    OutDxAx,
    Cmc,
    Clc,
    Stc,
    Cli,
    Sti,
    Cld,
    Setd,
}

/// A decoded, self-describing instruction: the operation and the
/// prefixes that were active in front of its opcode.
#[derive(Clone, Copy, Debug, PartialEq, Eq, Structural)]
pub struct Instr {
    pub prefixes: Prefixes,
    pub op: Op,
}

/// Whether the operands of an operation have the widths its executor
/// expects; every instruction the dispatch table builds satisfies it.
pub open spec fn wf_op(op: Op) -> bool {
    match op {
        Op::AddRm8R8 { rm, .. } => rm_is_byte(rm),
        Op::AddR16Rm16 { rm, .. } => rm_is_word(rm),
        Op::XorRm16R16 { rm, .. } => rm_is_word(rm),
        Op::CmpRm8Imm8 { rm, .. } => rm_is_byte(rm),
        Op::AddRm16Imm8 { rm, .. } => rm_is_word(rm),
        Op::MovRm8R8 { rm, .. } => rm_is_byte(rm),
        Op::MovRm16R16 { rm, .. } => rm_is_word(rm),
        Op::MovR8Rm8 { rm, .. } => rm_is_byte(rm),
        Op::MovR16Rm16 { rm, .. } => rm_is_word(rm),
        Op::MovRm16Sreg { rm, .. } => rm_is_word(rm),
        Op::MovSregRm16 { rm, .. } => rm_is_word(rm),
        Op::LesR16M1616 { rm, .. } => rm_is_word(rm),
        _ => true,
    }
}

/// How many operand bytes an operation's decoder consumed after the
/// opcode byte: the ModR/M byte, its displacement, and any immediates.
pub open spec fn op_len(op: Op) -> int {
    match op {
        Op::AddRm8R8 { rm, .. } => 1 + rm_len(rm),
        Op::AddR16Rm16 { rm, .. } => 1 + rm_len(rm),
        Op::AddAxImm16 { .. } => 2,
        Op::AdcAxImm16 { .. } => 2,
        Op::XorRm16R16 { rm, .. } => 1 + rm_len(rm),
        Op::CmpAlImm8 { .. } => 1,
        Op::CmpAxImm16 { .. } => 2,
        Op::CmpRm8Imm8 { rm, .. } => 2 + rm_len(rm),
        Op::AddRm16Imm8 { rm, .. } => 2 + rm_len(rm),
        Op::MovRm8R8 { rm, .. } => 1 + rm_len(rm),
        Op::MovRm16R16 { rm, .. } => 1 + rm_len(rm),
        Op::MovR8Rm8 { rm, .. } => 1 + rm_len(rm),
        Op::MovR16Rm16 { rm, .. } => 1 + rm_len(rm),
        Op::MovRm16Sreg { rm, .. } => 1 + rm_len(rm),
        Op::MovSregRm16 { rm, .. } => 1 + rm_len(rm),
        Op::MovAlMoffs8 { .. } => 1,
        Op::MovR8Imm8 { .. } => 1,
        Op::MovR16Imm16 { .. } => 2,
        Op::LesR16M1616 { rm, .. } => 1 + rm_len(rm),
        Op::PushImm16 { .. } => 2,
        Op::PushImm8 { .. } => 1,
        Op::Jcond { .. } => 1,
        Op::EnterImm16Imm8 { .. } => 3,
        Op::Jcxz { .. } => 1,
        Op::CallRel16 { .. } => 2,
        Op::JmpPtr1616 { .. } => 4,
        Op::InAlImm8 { .. } => 1,
        Op::InAxImm8 { .. } => 1,
        Op::OutImm8Al { .. } => 1,
        Op::OutImm8Ax { .. } => 1,
        _ => 0,
    }
}

/// The condition the low nibble of a 0x70-row opcode encodes.
pub open spec fn spec_cond(n: u8) -> Cond {
    if n == 0 {
        Cond::O
    } else if n == 1 {
        Cond::No
    } else if n == 2 {
        Cond::C
    } else if n == 3 {
        Cond::Nc
    } else if n == 4 {
        Cond::Z
    } else if n == 5 {
        Cond::Nz
    } else if n == 6 {
        Cond::Be
    } else if n == 7 {
        Cond::A
    } else if n == 8 {
        Cond::S
    } else if n == 9 {
        Cond::Ns
    } else if n == 10 {
        Cond::P
    } else if n == 11 {
        Cond::Np
    } else if n == 12 {
        Cond::L
    } else if n == 13 {
        Cond::Ge
    } else if n == 14 {
        Cond::Le
    } else {
        Cond::G
    }
}

/// The opcode rows that take a single byte immediate.
pub open spec fn imm8_operand(b: u8) -> bool {
    ||| b == 0x3C
    ||| b == 0x6A
    ||| (0x70 <= b && b <= 0x7F)
    ||| b == 0xA0
    ||| (0xB0 <= b && b <= 0xB7)
    ||| b == 0xE3
    ||| (0xE4 <= b && b <= 0xE7)
}

/// The opcode rows that take a single word immediate.
pub open spec fn imm16_operand(b: u8) -> bool {
    ||| b == 0x05
    ||| b == 0x15
    ||| b == 0x3D
    ||| b == 0x68
    ||| (0xB8 <= b && b <= 0xBF)
    ||| b == 0xE8
}

/// The opcode rows whose operand is a ModR/M byte with the `reg` field
/// naming a register (the /digit rows 0x80 and 0x83 are not among them).
pub open spec fn modrm_operand(b: u8) -> bool {
    ||| b == 0x00
    ||| b == 0x03
    ||| b == 0x31
    ||| b == 0x88
    ||| b == 0x89
    ||| b == 0x8A
    ||| b == 0x8B
    ||| b == 0x8C
    ||| b == 0x8E
    ||| b == 0xC4
}

/// The register kind a ModR/M row's `reg` field names.
pub open spec fn opcode_reg_type(b: u8) -> Option<ModrmRegType> {
    if b == 0x00 || b == 0x88 || b == 0x8A {
        Some(ModrmRegType::ByteSized)
    } else if b == 0x8C || b == 0x8E {
        Some(ModrmRegType::Segment)
    } else {
        Some(ModrmRegType::WordSized)
    }
}

/// The operand width of a row's register-or-memory operand.
pub open spec fn opcode_rm_size(b: u8) -> Size {
    if b == 0x00 || b == 0x80 || b == 0x88 || b == 0x8A {
        Size::Byte
    } else {
        Size::Word
    }
}

/// When the dispatch table owes a decoded instruction for an opcode
/// byte, with IP resting on its first operand byte: the row must exist,
/// a /digit row must carry its one implemented extension, and every
/// operand byte must lie on mapped memory.
pub open spec fn operands_ok(b: u8, c: CpuV) -> bool {
    if modrm_operand(b) {
        c.acc8(SegmentReg::Cs, c.ip) && modrm_decode_ok(
            c.rd8(SegmentReg::Cs, c.ip),
            opcode_reg_type(b),
            c.with_ip(c.ip.wrapping_add(1)),
        )
    } else if b == 0x80 || b == 0x83 {
        let m = c.rd8(SegmentReg::Cs, c.ip);
        &&& c.acc8(SegmentReg::Cs, c.ip)
        &&& crate::modrm::modrm_r(m) == (if b == 0x80 {
            7u8
        } else {
            0u8
        })
        &&& modrm_decode_ok(m, None, c.with_ip(c.ip.wrapping_add(1)))
        &&& c.acc8(SegmentReg::Cs, c.ip.wrapping_add((1 + modrm_disp_len(m)) as u16))
    } else if imm8_operand(b) {
        c.acc8(SegmentReg::Cs, c.ip)
    } else if imm16_operand(b) {
        c.acc16(SegmentReg::Cs, c.ip)
    } else if b == 0xC8 {
        c.acc16(SegmentReg::Cs, c.ip) && c.acc8(SegmentReg::Cs, c.ip.wrapping_add(2))
    } else if b == 0xEA {
        c.acc16(SegmentReg::Cs, c.ip) && c.acc16(SegmentReg::Cs, c.ip.wrapping_add(2))
    } else {
        known_opcode(b)
    }
}

/// The dispatch table as a function: the instruction an opcode byte
/// decodes to at a state whose IP rests on its first operand byte, under
/// the given prefixes.  Meaningful only where `operands_ok` holds.
pub open spec fn spec_op(b: u8, p: Prefixes, c: CpuV) -> Op {
    let mb = c.rd8(SegmentReg::Cs, c.ip);
    let c1 = c.with_ip(c.ip.wrapping_add(1));
    let i8v = c.rd8(SegmentReg::Cs, c.ip);
    let i16v = c.rd16(SegmentReg::Cs, c.ip);
    if b == 0x00 {
        Op::AddRm8R8 {
            rm: spec_reg_mem(mb, Size::Byte, p.segment, c1),
            reg: crate::regs::breg_of(crate::modrm::modrm_r(mb)),
        }
    } else if b == 0x03 {
        Op::AddR16Rm16 {
            reg: crate::regs::wreg_of(crate::modrm::modrm_r(mb)),
            rm: spec_reg_mem(mb, Size::Word, p.segment, c1),
        }
    } else if b == 0x05 {
        Op::AddAxImm16 { imm: i16v }
    } else if b == 0x06 {
        Op::PushEs
    } else if b == 0x07 {
        Op::PopEs
    } else if b == 0x15 {
        Op::AdcAxImm16 { imm: i16v }
    } else if b == 0x1E {
        Op::PushDs
    } else if b == 0x31 {
        Op::XorRm16R16 {
            rm: spec_reg_mem(mb, Size::Word, p.segment, c1),
            reg: crate::regs::wreg_of(crate::modrm::modrm_r(mb)),
        }
    } else if b == 0x3C {
        Op::CmpAlImm8 { imm: i8v }
    } else if b == 0x3D {
        Op::CmpAxImm16 { imm: i16v }
    } else if 0x50 <= b && b <= 0x57 {
        Op::PushR16 { reg: crate::regs::wreg_of((b - 0x50) as u8) }
    } else if 0x58 <= b && b <= 0x5F {
        Op::PopR16 { reg: crate::regs::wreg_of((b - 0x58) as u8) }
    } else if b == 0x61 {
        Op::Popa
    } else if b == 0x68 {
        Op::PushImm16 { imm: i16v }
    } else if b == 0x6A {
        Op::PushImm8 { imm: i8v }
    } else if 0x70 <= b && b <= 0x7F {
        Op::Jcond { cond: spec_cond((b - 0x70) as u8), disp: i8v }
    } else if b == 0x80 {
        Op::CmpRm8Imm8 {
            rm: spec_reg_mem(mb, Size::Byte, p.segment, c1),
            imm: c.rd8(SegmentReg::Cs, c.ip.wrapping_add((1 + modrm_disp_len(mb)) as u16)),
        }
    } else if b == 0x83 {
        Op::AddRm16Imm8 {
            rm: spec_reg_mem(mb, Size::Word, p.segment, c1),
            imm: c.rd8(SegmentReg::Cs, c.ip.wrapping_add((1 + modrm_disp_len(mb)) as u16)),
        }
    } else if b == 0x88 {
        Op::MovRm8R8 {
            rm: spec_reg_mem(mb, Size::Byte, p.segment, c1),
            reg: crate::regs::breg_of(crate::modrm::modrm_r(mb)),
        }
    } else if b == 0x89 {
        Op::MovRm16R16 {
            rm: spec_reg_mem(mb, Size::Word, p.segment, c1),
            reg: crate::regs::wreg_of(crate::modrm::modrm_r(mb)),
        }
    } else if b == 0x8A {
        Op::MovR8Rm8 {
            reg: crate::regs::breg_of(crate::modrm::modrm_r(mb)),
            rm: spec_reg_mem(mb, Size::Byte, p.segment, c1),
        }
    } else if b == 0x8B {
        Op::MovR16Rm16 {
            reg: crate::regs::wreg_of(crate::modrm::modrm_r(mb)),
            rm: spec_reg_mem(mb, Size::Word, p.segment, c1),
        }
    } else if b == 0x8C {
        Op::MovRm16Sreg {
            rm: spec_reg_mem(mb, Size::Word, p.segment, c1),
            sreg: crate::regs::sreg_of(crate::modrm::modrm_r(mb)),
        }
    } else if b == 0x8E {
        Op::MovSregRm16 {
            sreg: crate::regs::sreg_of(crate::modrm::modrm_r(mb)),
            rm: spec_reg_mem(mb, Size::Word, p.segment, c1),
        }
    } else if b == 0x9C {
        Op::Pushf
    } else if b == 0x9D {
        Op::Popf
    } else if b == 0x9E {
        Op::Sahf
    } else if b == 0x9F {
        Op::Lahf
    } else if b == 0xA0 {
        Op::MovAlMoffs8 {
            segment: (match p.segment {
                Some(s) => s,
                None => SegmentReg::Ds,
            }),
            offset: i8v,
        }
    } else if b == 0xAA {
        Op::Stosb
    } else if b == 0xAB {
        Op::Stosw
    } else if 0xB0 <= b && b <= 0xB7 {
        Op::MovR8Imm8 { reg: crate::regs::breg_of((b - 0xB0) as u8), imm: i8v }
    } else if 0xB8 <= b && b <= 0xBF {
        Op::MovR16Imm16 { reg: crate::regs::wreg_of((b - 0xB8) as u8), imm: i16v }
    } else if b == 0xC3 {
        Op::Ret
    } else if b == 0xC4 {
        Op::LesR16M1616 {
            reg: crate::regs::wreg_of(crate::modrm::modrm_r(mb)),
            rm: spec_reg_mem(mb, Size::Word, p.segment, c1),
        }
    } else if b == 0xC8 {
        Op::EnterImm16Imm8 { size: i16v, nesting: c.rd8(SegmentReg::Cs, c.ip.wrapping_add(2)) }
    } else if b == 0xE3 {
        Op::Jcxz { disp: i8v }
    } else if b == 0xE4 {
        Op::InAlImm8 { port: i8v }
    } else if b == 0xE5 {
        Op::InAxImm8 { port: i8v }
    } else if b == 0xE6 {
        Op::OutImm8Al { port: i8v }
    } else if b == 0xE7 {
        Op::OutImm8Ax { port: i8v }
    } else if b == 0xE8 {
        Op::CallRel16 { rel: i16v }
    } else if b == 0xEA {
        Op::JmpPtr1616 { off: i16v, seg: c.rd16(SegmentReg::Cs, c.ip.wrapping_add(2)) }
    } else if b == 0xEC {
        Op::InAlDx
    } else if b == 0xED {
        Op::InAxDx
    } else if b == 0xEE {
        Op::OutDxAl
    } else if b == 0xEF {
        Op::OutDxAx
    } else if b == 0xF5 {
        Op::Cmc
    } else if b == 0xF8 {
        Op::Clc
    } else if b == 0xF9 {
        Op::Stc
    } else if b == 0xFA {
        Op::Cli
    } else if b == 0xFB {
        Op::Sti
    } else if b == 0xFC {
        Op::Cld
    } else {
        Op::Setd
    }
}

/// Whether a primary opcode byte has a row in the dispatch table.
pub open spec fn known_opcode(b: u8) -> bool {
    ||| b == 0x00
    ||| b == 0x03
    ||| b == 0x05
    ||| b == 0x06
    ||| b == 0x07
    ||| b == 0x15
    ||| b == 0x1E
    ||| b == 0x31
    ||| b == 0x3C
    ||| b == 0x3D
    ||| (0x50 <= b && b <= 0x5F)
    ||| b == 0x61
    ||| b == 0x68
    ||| b == 0x6A
    ||| (0x70 <= b && b <= 0x7F)
    ||| b == 0x80
    ||| b == 0x83
    ||| b == 0x88
    ||| b == 0x89
    ||| b == 0x8A
    ||| b == 0x8B
    ||| b == 0x8C
    ||| b == 0x8E
    ||| (0x9C <= b && b <= 0x9F)
    ||| b == 0xA0
    ||| b == 0xAA
    ||| b == 0xAB
    ||| (0xB0 <= b && b <= 0xBF)
    ||| b == 0xC3
    ||| b == 0xC4
    ||| b == 0xC8
    ||| b == 0xE3
    ||| (0xE4 <= b && b <= 0xE8)
    ||| b == 0xEA
    ||| (0xEC <= b && b <= 0xEF)
    ||| b == 0xF5
    ||| (0xF8 <= b && b <= 0xFD)
}

/// The bytes the fetch loop absorbs before an opcode.
pub open spec fn is_prefix_byte(b: u8) -> bool {
    b == 0x26 || b == 0x2E || b == 0x36 || b == 0x3E || b == 0xF3
}

/// How one prefix byte updates the pending prefix record: an override
/// replaces any earlier one, REP is latched.
pub open spec fn apply_prefix(p: Prefixes, b: u8) -> Prefixes {
    if b == 0x26 {
        Prefixes { segment: Some(SegmentReg::Es), ..p }
    } else if b == 0x2E {
        Prefixes { segment: Some(SegmentReg::Cs), ..p }
    } else if b == 0x36 {
        Prefixes { segment: Some(SegmentReg::Ss), ..p }
    } else if b == 0x3E {
        Prefixes { segment: Some(SegmentReg::Ds), ..p }
    } else {
        Prefixes { rep: true, ..p }
    }
}

/// The prefix fetch loop as a function: starting at CS:IP, consumes
/// prefix bytes while accumulating the prefix record, and yields the
/// state past the opcode byte, the prefixes, and the opcode.  `None`
/// when a fetch leaves mapped memory, or when `fuel` prefixes were not
/// enough to reach an opcode.
pub open spec fn spec_prefix_scan(c: CpuV, p: Prefixes, fuel: nat) -> Option<(CpuV, Prefixes, u8)>
    decreases fuel,
{
    if !c.acc8(SegmentReg::Cs, c.ip) {
        None
    } else {
        let b = c.rd8(SegmentReg::Cs, c.ip);
        let c1 = c.with_ip(c.ip.wrapping_add(1));
        if is_prefix_byte(b) {
            if fuel == 0 {
                None
            } else {
                spec_prefix_scan(c1, apply_prefix(p, b), (fuel - 1) as nat)
            }
        } else {
            Some((c1, p, b))
        }
    }
}

/// When an executor owes success: exactly when every register or memory
/// access of the operation stays on mapped memory and its operand form
/// is architecturally legal.
pub open spec fn exec_ok(op: Op, rep: bool, c: CpuV) -> bool {
    match op {
        Op::AddRm8R8 { rm, .. } => rm_acc8(rm, c),
        Op::AddR16Rm16 { rm, .. } => rm_acc16(rm, c),
        Op::XorRm16R16 { rm, .. } => rm_acc16(rm, c),
        Op::CmpRm8Imm8 { rm, .. } => rm_acc8(rm, c),
        Op::AddRm16Imm8 { rm, .. } => rm_acc16(rm, c),
        Op::MovRm8R8 { rm, .. } => rm_acc8(rm, c),
        Op::MovRm16R16 { rm, .. } => rm_acc16(rm, c),
        Op::MovR8Rm8 { rm, .. } => rm_acc8(rm, c),
        Op::MovR16Rm16 { rm, .. } => rm_acc16(rm, c),
        Op::MovRm16Sreg { rm, .. } => rm_acc16(rm, c),
        Op::MovSregRm16 { sreg, rm } => sreg != SegmentReg::Cs && rm_acc16(rm, c),
        Op::MovAlMoffs8 { segment, offset } => c.acc8(segment, offset as u16),
        Op::LesR16M1616 { rm, .. } => rm matches RegMem::Ptr(p) && c.acc16(
            p.segment,
            crate::modrm::rm_offset(p, c),
        ) && c.acc16(p.segment, crate::modrm::rm_offset(p, c).wrapping_add(2)),
        Op::PushEs => c.push_ok(),
        Op::PushDs => c.push_ok(),
        Op::PushR16 { .. } => c.push_ok(),
        Op::PushImm16 { .. } => c.push_ok(),
        Op::PushImm8 { .. } => c.push_ok(),
        Op::Pushf => c.push_ok(),
        Op::CallRel16 { .. } => c.push_ok(),
        Op::PopEs => c.pop_ok(),
        Op::PopR16 { .. } => c.pop_ok(),
        Op::Popf => c.pop_ok(),
        Op::Ret => c.pop_ok(),
        Op::Popa => crate::stack::popa_ok(c),
        Op::EnterImm16Imm8 { size, nesting } => crate::control::spec_enter(c, size, nesting)
            is Some,
        Op::Stosb => if rep {
            crate::strings::rep_stos8(c, c.wreg(GeneralWordReg::Cx) as nat) is Some
        } else {
            crate::strings::stos8_ok(c)
        },
        Op::Stosw => if rep {
            crate::strings::rep_stos16(c, c.wreg(GeneralWordReg::Cx) as nat) is Some
        } else {
            crate::strings::stos16_ok(c)
        },
        _ => true,
    }
}

/// The state an executed operation leaves, when `exec_ok` holds of the
/// starting state: each arm restates the executor's own contract.
pub open spec fn exec_post(op: Op, rep: bool, c: CpuV) -> CpuV {
    match op {
        Op::AddRm8R8 { rm, reg } => {
            let a = rm_val8(rm, c);
            let b = c.breg(reg);
            let s = ((a + b) % 256) as u8;
            rm_store8(rm, c, s).with_flags(
                crate::flags::flags8(c.flags, crate::flags::FlagOp::Add, a, b, false, s),
            )
        },
        Op::AddR16Rm16 { reg, rm } => {
            let a = c.wreg(reg);
            let b = rm_val16(rm, c);
            let s = ((a + b) % 0x10000) as u16;
            c.with_wreg(reg, s).with_flags(
                crate::flags::flags16(c.flags, crate::flags::FlagOp::Add, a, b, false, s),
            )
        },
        Op::AddAxImm16 { imm } => {
            let a = c.wreg(GeneralWordReg::Ax);
            let s = ((a + imm) % 0x10000) as u16;
            c.with_wreg(GeneralWordReg::Ax, s).with_flags(
                crate::flags::flags16(c.flags, crate::flags::FlagOp::Add, a, imm, false, s),
            )
        },
        Op::AdcAxImm16 { imm } => {
            let a = c.wreg(GeneralWordReg::Ax);
            let cin = crate::flags::flag_cf(c.flags);
            let s = ((a + imm + (if cin {
                1int
            } else {
                0int
            })) % 0x10000) as u16;
            c.with_wreg(GeneralWordReg::Ax, s).with_flags(
                crate::flags::flags16(c.flags, crate::flags::FlagOp::Add, a, imm, cin, s),
            )
        },
        Op::XorRm16R16 { rm, reg } => {
            let a = rm_val16(rm, c);
            let b = c.wreg(reg);
            let s = a ^ b;
            rm_store16(rm, c, s).with_flags(
                crate::flags::flags16(c.flags, crate::flags::FlagOp::Logic, a, b, false, s),
            )
        },
        Op::CmpAlImm8 { imm } => {
            let a = c.breg(GeneralByteReg::Al);
            let s = (((a - imm) % 256 + 256) % 256) as u8;
            c.with_flags(crate::flags::flags8(c.flags, crate::flags::FlagOp::Sub, a, imm, false, s))
        },
        Op::CmpAxImm16 { imm } => {
            let a = c.wreg(GeneralWordReg::Ax);
            let s = (((a - imm) % 0x10000 + 0x10000) % 0x10000) as u16;
            c.with_flags(
                crate::flags::flags16(c.flags, crate::flags::FlagOp::Sub, a, imm, false, s),
            )
        },
        Op::CmpRm8Imm8 { rm, imm } => {
            let a = rm_val8(rm, c);
            let s = (((a - imm) % 256 + 256) % 256) as u8;
            c.with_flags(crate::flags::flags8(c.flags, crate::flags::FlagOp::Sub, a, imm, false, s))
        },
        Op::AddRm16Imm8 { rm, imm } => {
            let a = rm_val16(rm, c);
            let b = crate::regs::sign_extend8(imm);
            let s = ((a + b) % 0x10000) as u16;
            rm_store16(rm, c, s).with_flags(
                crate::flags::flags16(c.flags, crate::flags::FlagOp::Add, a, b, false, s),
            )
        },
        Op::MovRm8R8 { rm, reg } => rm_store8(rm, c, c.breg(reg)),
        Op::MovRm16R16 { rm, reg } => rm_store16(rm, c, c.wreg(reg)),
        Op::MovR8Rm8 { reg, rm } => c.with_breg(reg, rm_val8(rm, c)),
        Op::MovR16Rm16 { reg, rm } => c.with_wreg(reg, rm_val16(rm, c)),
        Op::MovRm16Sreg { rm, sreg } => rm_store16(rm, c, c.seg(sreg)),
        Op::MovSregRm16 { sreg, rm } => c.with_seg(sreg, rm_val16(rm, c)),
        Op::MovAlMoffs8 { segment, offset } => c.with_breg(
            GeneralByteReg::Al,
            c.rd8(segment, offset as u16),
        ),
        Op::MovR8Imm8 { reg, imm } => c.with_breg(reg, imm),
        Op::MovR16Imm16 { reg, imm } => c.with_wreg(reg, imm),
        Op::LesR16M1616 { reg, rm } => match rm {
            RegMem::Ptr(p) => {
                let off = crate::modrm::rm_offset(p, c);
                c.with_wreg(reg, c.rd16(p.segment, off)).with_seg(
                    SegmentReg::Es,
                    c.rd16(p.segment, off.wrapping_add(2)),
                )
            },
            RegMem::Reg(_) => c,
        },
        Op::PushEs => c.spec_push16(c.seg(SegmentReg::Es)),
        Op::PopEs => c.spec_pop16().with_seg(SegmentReg::Es, c.pop_val()),
        Op::PushDs => c.spec_push16(c.seg(SegmentReg::Ds)),
        Op::PushR16 { reg } => c.spec_push16(c.wreg(reg)),
        Op::PopR16 { reg } => c.spec_pop16().with_wreg(reg, c.pop_val()),
        Op::Popa => crate::stack::spec_popa(c),
        Op::PushImm16 { imm } => c.spec_push16(imm),
        Op::PushImm8 { imm } => c.spec_push16(crate::regs::sign_extend8(imm)),
        Op::Jcond { cond, disp } => if crate::conditionals::cond_holds(cond, c.flags) {
            c.with_ip(c.ip.wrapping_add(crate::regs::sign_extend8(disp)))
        } else {
            c
        },
        Op::Pushf => c.spec_push16(c.flags),
        Op::Popf => c.spec_pop16().with_flags(c.pop_val()),
        Op::Sahf => c.with_flags(
            crate::flagops::spec_sahf(c.flags, c.breg(GeneralByteReg::Ah)),
        ),
        Op::Lahf => c.with_breg(GeneralByteReg::Ah, (c.flags & 0xFF) as u8),
        Op::Stosb => if rep {
            match crate::strings::rep_stos8(c, c.wreg(GeneralWordReg::Cx) as nat) {
                Some(c2) => c2,
                None => c,
            }
        } else {
            crate::strings::stos8_step(c)
        },
        Op::Stosw => if rep {
            match crate::strings::rep_stos16(c, c.wreg(GeneralWordReg::Cx) as nat) {
                Some(c2) => c2,
                None => c,
            }
        } else {
            crate::strings::stos16_step(c)
        },
        Op::Ret => c.spec_pop16().with_ip(c.pop_val()),
        Op::EnterImm16Imm8 { size, nesting } => match crate::control::spec_enter(
            c,
            size,
            nesting,
        ) {
            Some(c2) => c2,
            None => c,
        },
        Op::Jcxz { disp } => if c.wreg(GeneralWordReg::Cx) == 0 {
            c.with_ip(c.ip.wrapping_add(crate::regs::sign_extend8(disp)))
        } else {
            c
        },
        Op::CallRel16 { rel } => c.spec_push16(c.ip).with_ip(c.ip.wrapping_add(rel)),
        Op::JmpPtr1616 { off, seg } => c.with_ip(off).with_seg(SegmentReg::Cs, seg),
        Op::InAlImm8 { .. } => c.with_breg(GeneralByteReg::Al, 0xFF),
        Op::InAlDx => c.with_breg(GeneralByteReg::Al, 0xFF),
        Op::InAxImm8 { .. } => c.with_wreg(GeneralWordReg::Ax, 0xFFFF),
        Op::InAxDx => c.with_wreg(GeneralWordReg::Ax, 0xFFFF),
        Op::OutImm8Al { .. } => c,
        Op::OutImm8Ax { .. } => c,
        Op::OutDxAl => c,
        Op::OutDxAx => c,
        Op::Cmc => c.with_flags(c.flags ^ 0x0001),
        Op::Clc => c.with_flags(c.flags & !0x0001),
        Op::Stc => c.with_flags(c.flags | 0x0001),
        Op::Cli => c.with_flags(c.flags & !0x0200),
        Op::Sti => c.with_flags(c.flags | 0x0200),
        Op::Cld => c.with_flags(c.flags & !0x0400),
        Op::Setd => c.with_flags(c.flags | 0x0400),
    }
}

/// The arithmetic, logical and data-transfer operations: the first tier
/// of the execution dispatch.
pub open spec fn data_op(op: Op) -> bool {
    match op {
        Op::AddRm8R8 { .. } | Op::AddR16Rm16 { .. } | Op::AddAxImm16 { .. }
            | Op::AdcAxImm16 { .. } | Op::XorRm16R16 { .. } | Op::CmpAlImm8 { .. }
            | Op::CmpAxImm16 { .. } | Op::CmpRm8Imm8 { .. } | Op::AddRm16Imm8 { .. }
            | Op::MovRm8R8 { .. } | Op::MovRm16R16 { .. } | Op::MovR8Rm8 { .. }
            | Op::MovR16Rm16 { .. } | Op::MovRm16Sreg { .. } | Op::MovSregRm16 { .. }
            | Op::MovAlMoffs8 { .. } | Op::MovR8Imm8 { .. } | Op::MovR16Imm16 { .. }
            | Op::LesR16M1616 { .. } => true,
        _ => false,
    }
}

/// The stack, string and control-flow operations: the second tier of the
/// execution dispatch.
pub open spec fn stack_control_op(op: Op) -> bool {
    match op {
        Op::PushEs | Op::PopEs | Op::PushDs | Op::PushR16 { .. } | Op::PopR16 { .. } | Op::Popa
            | Op::PushImm16 { .. } | Op::PushImm8 { .. } | Op::Jcond { .. } | Op::Pushf
            | Op::Popf | Op::Sahf | Op::Lahf | Op::Stosb | Op::Stosw | Op::Ret
            | Op::EnterImm16Imm8 { .. } | Op::Jcxz { .. } | Op::CallRel16 { .. }
            | Op::JmpPtr1616 { .. } => true,
        _ => false,
    }
}

/// Reads the ModR/M byte at CS:IP and decodes it, consuming any
/// displacement.
fn read_modrm(
    cpu: &mut Cpu,
    reg_type: Option<ModrmRegType>,
    rm_size: Size,
    seg_override: Option<SegmentReg>,
) -> (r: Result<Modrm, CpuErr>)
    requires
        old(cpu).wf(),
    ensures
        final(cpu).wf(),
        only_ip_changed(old(cpu)@, final(cpu)@),
        r is Ok <==> old(cpu)@.acc8(SegmentReg::Cs, old(cpu)@.ip) && modrm_decode_ok(
            old(cpu)@.rd8(SegmentReg::Cs, old(cpu)@.ip),
            reg_type,
            old(cpu)@.with_ip(old(cpu)@.ip.wrapping_add(1)),
        ),
        r matches Ok(d) ==> ({
            let mb = old(cpu)@.rd8(SegmentReg::Cs, old(cpu)@.ip);
            &&& final(cpu)@ == old(cpu)@.with_ip(
                old(cpu)@.ip.wrapping_add((1 + modrm_disp_len(mb)) as u16),
            )
            &&& d.reg == (match reg_type {
                Some(t) => Some(spec_reg_field(t, crate::modrm::modrm_r(mb))),
                None => None::<Reg>,
            })
            &&& d.reg_mem == spec_reg_mem(
                mb,
                rm_size,
                seg_override,
                old(cpu)@.with_ip(old(cpu)@.ip.wrapping_add(1)),
            )
            &&& rm_len(d.reg_mem) == modrm_disp_len(mb)
            &&& rm_size == Size::Byte ==> rm_is_byte(d.reg_mem)
            &&& rm_size == Size::Word ==> rm_is_word(d.reg_mem)
        }),
{
    let m = match cpu.read_mem_8() {
        Ok(v) => v,
        Err(e) => {
            return Err(e);
        },
    };
    let ghost mid = cpu@;
    let d = match Modrm::decode(cpu, m, reg_type, rm_size, seg_override) {
        Ok(d) => d,
        Err(e) => {
            return Err(e);
        },
    };
    proof {
        lemma_wadd_chain(old(cpu)@.ip, 1, (modrm_disp_len(m)) as u16);
        assert(cpu@ =~= old(cpu)@.with_ip(
            old(cpu)@.ip.wrapping_add((1 + modrm_disp_len(m)) as u16),
        ));
    }
    Ok(d)
}

/// The condition encoded by the low nibble of a 0x70-row opcode.
fn cond_from(n: u8) -> (c: Cond)
    ensures
        c == spec_cond(n),
{
    match n {
        0 => Cond::O,
        1 => Cond::No,
        2 => Cond::C,
        3 => Cond::Nc,
        4 => Cond::Z,
        5 => Cond::Nz,
        6 => Cond::Be,
        7 => Cond::A,
        8 => Cond::S,
        9 => Cond::Ns,
        10 => Cond::P,
        11 => Cond::Np,
        12 => Cond::L,
        13 => Cond::Ge,
        14 => Cond::Le,
        _ => Cond::G,
    }
}

/// Reads the `reg` sub-field of the ModR/M byte at CS:IP without
/// consuming it: the /digit extension of a shared opcode byte.
pub fn extension(cpu: &Cpu) -> (r: Result<u8, CpuErr>)
    requires
        cpu.wf(),
    ensures
        cpu@.acc8(SegmentReg::Cs, cpu@.ip) ==> r == Ok::<u8, CpuErr>(
            crate::modrm::modrm_r(cpu@.rd8(SegmentReg::Cs, cpu@.ip)),
        ),
        !cpu@.acc8(SegmentReg::Cs, cpu@.ip) ==> r is Err,
{
    let b = match cpu.peek_mem_8() {
        Ok(v) => v,
        Err(e) => {
            return Err(e);
        },
    };
    Ok((b / 8) % 8)
}

/// The fatal decode fault for an unknown opcode or extension.
pub fn invalid(opcode: u8, ext: Option<u8>) -> (e: CpuErr)
    ensures
        e == (CpuErr::Decode { opcode, extension: ext }),
{
    CpuErr::Decode { opcode, extension: ext }
}

/// The dispatch table: builds the instruction a primary opcode byte (and,
/// for shared bytes, the /digit extension) names, consuming its operand
/// bytes.  Afterwards IP points at the byte just past the instruction's
/// last operand byte, before any control-flow update the instruction
/// itself performs.
pub fn match_opcode(cpu: &mut Cpu, opcode: u8, prefixes: Prefixes) -> (r: Result<Instr, CpuErr>)
    requires
        old(cpu).wf(),
    ensures
        final(cpu).wf(),
        only_ip_changed(old(cpu)@, final(cpu)@),
        r is Ok <==> operands_ok(opcode, old(cpu)@),
        r matches Ok(i) ==> i.prefixes == prefixes && wf_op(i.op) && i.op == spec_op(
            opcode,
            prefixes,
            old(cpu)@,
        ) && final(cpu)@.ip == old(cpu)@.ip.wrapping_add(op_len(i.op) as u16),
        !known_opcode(opcode) ==> r == Err::<Instr, CpuErr>(
            CpuErr::Decode { opcode, extension: None },
        ),
        opcode == 0x80 && old(cpu)@.acc8(SegmentReg::Cs, old(cpu)@.ip) && crate::modrm::modrm_r(
            old(cpu)@.rd8(SegmentReg::Cs, old(cpu)@.ip),
        ) != 7 ==> r == Err::<Instr, CpuErr>(
            CpuErr::Decode {
                opcode,
                extension: Some(crate::modrm::modrm_r(old(cpu)@.rd8(SegmentReg::Cs, old(cpu)@.ip))),
            },
        ) && final(cpu)@ == old(cpu)@,
        opcode == 0x83 && old(cpu)@.acc8(SegmentReg::Cs, old(cpu)@.ip) && crate::modrm::modrm_r(
            old(cpu)@.rd8(SegmentReg::Cs, old(cpu)@.ip),
        ) != 0 ==> r == Err::<Instr, CpuErr>(
            CpuErr::Decode {
                opcode,
                extension: Some(crate::modrm::modrm_r(old(cpu)@.rd8(SegmentReg::Cs, old(cpu)@.ip))),
            },
        ) && final(cpu)@ == old(cpu)@,
{
    let op: Op = match opcode {
        0x00 => {
            let d = match read_modrm(cpu, Some(ModrmRegType::ByteSized), Size::Byte, prefixes.segment) {
                Ok(d) => d,
                Err(e) => {
                    return Err(e);
                },
            };
            let reg = match d.reg {
                Some(Reg::Byte(rr)) => rr,
                _ => {
                    proof {
                        assert(false);
                    }
                    return Err(CpuErr::IllegalOperand);
                },
            };
            Op::AddRm8R8 { rm: d.reg_mem, reg }
        },
        0x03 => {
            let d = match read_modrm(cpu, Some(ModrmRegType::WordSized), Size::Word, prefixes.segment) {
                Ok(d) => d,
                Err(e) => {
                    return Err(e);
                },
            };
            let reg = match d.reg {
                Some(Reg::Word(rr)) => rr,
                _ => {
                    proof {
                        assert(false);
                    }
                    return Err(CpuErr::IllegalOperand);
                },
            };
            Op::AddR16Rm16 { reg, rm: d.reg_mem }
        },
        0x05 => {
            let imm = match cpu.read_mem_16() {
                Ok(v) => v,
                Err(e) => {
                    return Err(e);
                },
            };
            Op::AddAxImm16 { imm }
        },
        0x06 => Op::PushEs,
        0x07 => Op::PopEs,
        0x15 => {
            let imm = match cpu.read_mem_16() {
                Ok(v) => v,
                Err(e) => {
                    return Err(e);
                },
            };
            Op::AdcAxImm16 { imm }
        },
        0x1E => Op::PushDs,
        0x31 => {
            let d = match read_modrm(cpu, Some(ModrmRegType::WordSized), Size::Word, prefixes.segment) {
                Ok(d) => d,
                Err(e) => {
                    return Err(e);
                },
            };
            let reg = match d.reg {
                Some(Reg::Word(rr)) => rr,
                _ => {
                    proof {
                        assert(false);
                    }
                    return Err(CpuErr::IllegalOperand);
                },
            };
            Op::XorRm16R16 { rm: d.reg_mem, reg }
        },
        0x3C => {
            let imm = match cpu.read_mem_8() {
                Ok(v) => v,
                Err(e) => {
                    return Err(e);
                },
            };
            Op::CmpAlImm8 { imm }
        },
        0x3D => {
            let imm = match cpu.read_mem_16() {
                Ok(v) => v,
                Err(e) => {
                    return Err(e);
                },
            };
            Op::CmpAxImm16 { imm }
        },
        0x50..=0x57 => {
            let reg = match GeneralWordReg::from_u8(opcode - 0x50) {
                Some(rr) => rr,
                None => {
                    proof {
                        assert(false);
                    }
                    return Err(CpuErr::IllegalOperand);
                },
            };
            Op::PushR16 { reg }
        },
        0x58..=0x5F => {
            let reg = match GeneralWordReg::from_u8(opcode - 0x58) {
                Some(rr) => rr,
                None => {
                    proof {
                        assert(false);
                    }
                    return Err(CpuErr::IllegalOperand);
                },
            };
            Op::PopR16 { reg }
        },
        0x61 => Op::Popa,
        0x68 => {
            let imm = match cpu.read_mem_16() {
                Ok(v) => v,
                Err(e) => {
                    return Err(e);
                },
            };
            Op::PushImm16 { imm }
        },
        0x6A => {
            let imm = match cpu.read_mem_8() {
                Ok(v) => v,
                Err(e) => {
                    return Err(e);
                },
            };
            Op::PushImm8 { imm }
        },
        0x70..=0x7F => {
            let disp = match cpu.read_mem_8() {
                Ok(v) => v,
                Err(e) => {
                    return Err(e);
                },
            };
            Op::Jcond { cond: cond_from(opcode - 0x70), disp }
        },
        0x80 => {
            let ext = match extension(cpu) {
                Ok(v) => v,
                Err(e) => {
                    return Err(e);
                },
            };
            if ext != 7 {
                return Err(invalid(opcode, Some(ext)));
            }
            let d = match read_modrm(cpu, None, Size::Byte, prefixes.segment) {
                Ok(d) => d,
                Err(e) => {
                    return Err(e);
                },
            };
            let imm = match cpu.read_mem_8() {
                Ok(v) => v,
                Err(e) => {
                    return Err(e);
                },
            };
            proof {
                lemma_wadd_chain(old(cpu)@.ip, (1 + rm_len(d.reg_mem)) as u16, 1);
            }
            Op::CmpRm8Imm8 { rm: d.reg_mem, imm }
        },
        0x83 => {
            let ext = match extension(cpu) {
                Ok(v) => v,
                Err(e) => {
                    return Err(e);
                },
            };
            if ext != 0 {
                return Err(invalid(opcode, Some(ext)));
            }
            let d = match read_modrm(cpu, None, Size::Word, prefixes.segment) {
                Ok(d) => d,
                Err(e) => {
                    return Err(e);
                },
            };
            let imm = match cpu.read_mem_8() {
                Ok(v) => v,
                Err(e) => {
                    return Err(e);
                },
            };
            proof {
                lemma_wadd_chain(old(cpu)@.ip, (1 + rm_len(d.reg_mem)) as u16, 1);
            }
            Op::AddRm16Imm8 { rm: d.reg_mem, imm }
        },
        0x88 => {
            let d = match read_modrm(cpu, Some(ModrmRegType::ByteSized), Size::Byte, prefixes.segment) {
                Ok(d) => d,
                Err(e) => {
                    return Err(e);
                },
            };
            let reg = match d.reg {
                Some(Reg::Byte(rr)) => rr,
                _ => {
                    proof {
                        assert(false);
                    }
                    return Err(CpuErr::IllegalOperand);
                },
            };
            Op::MovRm8R8 { rm: d.reg_mem, reg }
        },
        0x89 => {
            let d = match read_modrm(cpu, Some(ModrmRegType::WordSized), Size::Word, prefixes.segment) {
                Ok(d) => d,
                Err(e) => {
                    return Err(e);
                },
            };
            let reg = match d.reg {
                Some(Reg::Word(rr)) => rr,
                _ => {
                    proof {
                        assert(false);
                    }
                    return Err(CpuErr::IllegalOperand);
                },
            };
            Op::MovRm16R16 { rm: d.reg_mem, reg }
        },
        0x8A => {
            let d = match read_modrm(cpu, Some(ModrmRegType::ByteSized), Size::Byte, prefixes.segment) {
                Ok(d) => d,
                Err(e) => {
                    return Err(e);
                },
            };
            let reg = match d.reg {
                Some(Reg::Byte(rr)) => rr,
                _ => {
                    proof {
                        assert(false);
                    }
                    return Err(CpuErr::IllegalOperand);
                },
            };
            Op::MovR8Rm8 { reg, rm: d.reg_mem }
        },
        0x8B => {
            let d = match read_modrm(cpu, Some(ModrmRegType::WordSized), Size::Word, prefixes.segment) {
                Ok(d) => d,
                Err(e) => {
                    return Err(e);
                },
            };
            let reg = match d.reg {
                Some(Reg::Word(rr)) => rr,
                _ => {
                    proof {
                        assert(false);
                    }
                    return Err(CpuErr::IllegalOperand);
                },
            };
            Op::MovR16Rm16 { reg, rm: d.reg_mem }
        },
        0x8C => {
            let d = match read_modrm(cpu, Some(ModrmRegType::Segment), Size::Word, prefixes.segment) {
                Ok(d) => d,
                Err(e) => {
                    return Err(e);
                },
            };
            let sreg = match d.reg {
                Some(Reg::Segment(rr)) => rr,
                _ => {
                    proof {
                        assert(false);
                    }
                    return Err(CpuErr::IllegalOperand);
                },
            };
            Op::MovRm16Sreg { rm: d.reg_mem, sreg }
        },
        0x8E => {
            let d = match read_modrm(cpu, Some(ModrmRegType::Segment), Size::Word, prefixes.segment) {
                Ok(d) => d,
                Err(e) => {
                    return Err(e);
                },
            };
            let sreg = match d.reg {
                Some(Reg::Segment(rr)) => rr,
                _ => {
                    proof {
                        assert(false);
                    }
                    return Err(CpuErr::IllegalOperand);
                },
            };
            Op::MovSregRm16 { sreg, rm: d.reg_mem }
        },
        0x9C => Op::Pushf,
        0x9D => Op::Popf,
        0x9E => Op::Sahf,
        0x9F => Op::Lahf,
        0xA0 => {
            let offset = match cpu.read_mem_8() {
                Ok(v) => v,
                Err(e) => {
                    return Err(e);
                },
            };
            let segment = match prefixes.segment {
                Some(s) => s,
                None => SegmentReg::Ds,
            };
            Op::MovAlMoffs8 { segment, offset }
        },
        0xAA => Op::Stosb,
        0xAB => Op::Stosw,
        0xB0..=0xB7 => {
            let imm = match cpu.read_mem_8() {
                Ok(v) => v,
                Err(e) => {
                    return Err(e);
                },
            };
            let reg = match GeneralByteReg::from_u8(opcode - 0xB0) {
                Some(rr) => rr,
                None => {
                    proof {
                        assert(false);
                    }
                    return Err(CpuErr::IllegalOperand);
                },
            };
            Op::MovR8Imm8 { reg, imm }
        },
        0xB8..=0xBF => {
            let imm = match cpu.read_mem_16() {
                Ok(v) => v,
                Err(e) => {
                    return Err(e);
                },
            };
            let reg = match GeneralWordReg::from_u8(opcode - 0xB8) {
                Some(rr) => rr,
                None => {
                    proof {
                        assert(false);
                    }
                    return Err(CpuErr::IllegalOperand);
                },
            };
            Op::MovR16Imm16 { reg, imm }
        },
        0xC3 => Op::Ret,
        0xC4 => {
            let d = match read_modrm(cpu, Some(ModrmRegType::WordSized), Size::Word, prefixes.segment) {
                Ok(d) => d,
                Err(e) => {
                    return Err(e);
                },
            };
            let reg = match d.reg {
                Some(Reg::Word(rr)) => rr,
                _ => {
                    proof {
                        assert(false);
                    }
                    return Err(CpuErr::IllegalOperand);
                },
            };
            Op::LesR16M1616 { reg, rm: d.reg_mem }
        },
        0xC8 => {
            let size = match cpu.read_mem_16() {
                Ok(v) => v,
                Err(e) => {
                    return Err(e);
                },
            };
            let nesting = match cpu.read_mem_8() {
                Ok(v) => v,
                Err(e) => {
                    return Err(e);
                },
            };
            proof {
                lemma_wadd_chain(old(cpu)@.ip, 2, 1);
            }
            Op::EnterImm16Imm8 { size, nesting }
        },
        0xE3 => {
            let disp = match cpu.read_mem_8() {
                Ok(v) => v,
                Err(e) => {
                    return Err(e);
                },
            };
            Op::Jcxz { disp }
        },
        0xE4 => {
            let port = match cpu.read_mem_8() {
                Ok(v) => v,
                Err(e) => {
                    return Err(e);
                },
            };
            Op::InAlImm8 { port }
        },
        0xE5 => {
            let port = match cpu.read_mem_8() {
                Ok(v) => v,
                Err(e) => {
                    return Err(e);
                },
            };
            Op::InAxImm8 { port }
        },
        0xE6 => {
            let port = match cpu.read_mem_8() {
                Ok(v) => v,
                Err(e) => {
                    return Err(e);
                },
            };
            Op::OutImm8Al { port }
        },
        0xE7 => {
            let port = match cpu.read_mem_8() {
                Ok(v) => v,
                Err(e) => {
                    return Err(e);
                },
            };
            Op::OutImm8Ax { port }
        },
        0xE8 => {
            let rel = match cpu.read_mem_16() {
                Ok(v) => v,
                Err(e) => {
                    return Err(e);
                },
            };
            Op::CallRel16 { rel }
        },
        0xEA => {
            let offset = match cpu.read_mem_16() {
                Ok(v) => v,
                Err(e) => {
                    return Err(e);
                },
            };
            let segment = match cpu.read_mem_16() {
                Ok(v) => v,
                Err(e) => {
                    return Err(e);
                },
            };
            proof {
                lemma_wadd_chain(old(cpu)@.ip, 2, 2);
            }
            Op::JmpPtr1616 { off: offset, seg: segment }
        },
        0xEC => Op::InAlDx,
        0xED => Op::InAxDx,
        0xEE => Op::OutDxAl,
        0xEF => Op::OutDxAx,
        0xF5 => Op::Cmc,
        0xF8 => Op::Clc,
        0xF9 => Op::Stc,
        0xFA => Op::Cli,
        0xFB => Op::Sti,
        0xFC => Op::Cld,
        0xFD => Op::Setd,
        _ => {
            return Err(invalid(opcode, None));
        },
    };
    Ok(Instr { prefixes, op })
}

/// Fetches and decodes one instruction at CS:IP: absorbs segment-override
/// and REP prefixes (the last override wins, REP on a non-string opcode
/// has no effect), then dispatches on the opcode byte.  Afterwards IP
/// points just past the last consumed operand byte.
#[verifier::loop_isolation(false)]
pub fn decode(cpu: &mut Cpu) -> (r: Result<Instr, CpuErr>)
    requires
        old(cpu).wf(),
    ensures
        final(cpu).wf(),
        only_ip_changed(old(cpu)@, final(cpu)@),
        ({
            let scan = spec_prefix_scan(old(cpu)@, Prefixes { segment: None, rep: false }, 0xFFFF);
            &&& scan is None ==> r is Err
            &&& scan matches Some((c1, p, b)) ==> {
                &&& (r is Ok <==> operands_ok(b, c1))
                &&& r matches Ok(i) ==> i.prefixes == p && i.op == spec_op(b, p, c1) && wf_op(i.op)
                    && final(cpu)@ == c1.with_ip(c1.ip.wrapping_add(op_len(i.op) as u16))
            }
        }),
{
    let mut prefixes = Prefixes::new();
    let mut n: u32 = 0;
    loop
        invariant
            cpu.wf(),
            only_ip_changed(old(cpu)@, cpu@),
            n <= 0xFFFF,
            spec_prefix_scan(old(cpu)@, Prefixes { segment: None, rep: false }, 0xFFFF)
                == spec_prefix_scan(cpu@, prefixes, (0xFFFF - n) as nat),
        decreases 0x10000 - n,
    {
        let ghost pre = cpu@;
        let ghost pre_p = prefixes;
        let b = match cpu.read_mem_8() {
            Ok(v) => v,
            Err(e) => {
                return Err(e);
            },
        };
        match b {
            0x26 => {
                prefixes.segment = Some(SegmentReg::Es);
            },
            0x2E => {
                prefixes.segment = Some(SegmentReg::Cs);
            },
            0x36 => {
                prefixes.segment = Some(SegmentReg::Ss);
            },
            0x3E => {
                prefixes.segment = Some(SegmentReg::Ds);
            },
            0xF3 => {
                prefixes.rep = true;
            },
            _ => {
                let ghost c1 = cpu@;
                proof {
                    assert(spec_prefix_scan(pre, pre_p, (0xFFFF - n) as nat) == Some(
                        (c1, pre_p, b),
                    ));
                }
                let res = match_opcode(cpu, b, prefixes);
                proof {
                    assert(res matches Ok(i) ==> cpu@ =~= c1.with_ip(
                        c1.ip.wrapping_add(op_len(i.op) as u16),
                    ));
                }
                return res;
            },
        }
        if n == 0xFFFF {
            // A full IP cycle of nothing but prefixes can never form an
            // instruction: fail rather than walk the cycle again.
            return Err(CpuErr::PrefixCycle);
        }
        proof {
            assert(prefixes == apply_prefix(pre_p, b));
            assert(spec_prefix_scan(pre, pre_p, (0xFFFF - n) as nat) == spec_prefix_scan(
                cpu@,
                prefixes,
                (0xFFFF - (n + 1)) as nat,
            ));
        }
        n = n + 1;
    }
}

impl Instr {
    /// Executes a decoded instruction against the processor state:
    /// succeeds exactly when `exec_ok` holds of it, and then leaves the
    /// state `exec_post` names.
    pub fn execute(self, cpu: &mut Cpu) -> (r: Result<(), CpuErr>)
        requires
            old(cpu).wf(),
            wf_op(self.op),
        ensures
            final(cpu).wf(),
            r is Ok <==> exec_ok(self.op, self.prefixes.rep, old(cpu)@),
            r matches Ok(_) ==> final(cpu)@ == exec_post(self.op, self.prefixes.rep, old(cpu)@),
    {
        match self.op {
            Op::AddRm8R8 { rm, reg } => crate::arith::add_rm8_r8(cpu, rm, reg),
            Op::AddR16Rm16 { reg, rm } => crate::arith::add_r16_rm16(cpu, reg, rm),
            Op::AddAxImm16 { imm } => {
                crate::arith::add_ax_imm16(cpu, imm);
                Ok(())
            },
            Op::AdcAxImm16 { imm } => {
                crate::arith::adc_ax_imm16(cpu, imm);
                Ok(())
            },
            Op::XorRm16R16 { rm, reg } => crate::arith::xor_rm16_r16(cpu, rm, reg),
            Op::CmpAlImm8 { imm } => {
                crate::arith::cmp_al_imm8(cpu, imm);
                Ok(())
            },
            Op::CmpAxImm16 { imm } => {
                crate::arith::cmp_ax_imm16(cpu, imm);
                Ok(())
            },
            Op::CmpRm8Imm8 { rm, imm } => crate::arith::cmp_rm8_imm8(cpu, rm, imm),
            Op::AddRm16Imm8 { rm, imm } => crate::arith::add_rm16_imm8(cpu, rm, imm),
            Op::MovRm8R8 { rm, reg } => crate::transfer::mov_rm8_r8(cpu, rm, reg),
            Op::MovRm16R16 { rm, reg } => crate::transfer::mov_rm16_r16(cpu, rm, reg),
            Op::MovR8Rm8 { reg, rm } => crate::transfer::mov_r8_rm8(cpu, reg, rm),
            Op::MovR16Rm16 { reg, rm } => crate::transfer::mov_r16_rm16(cpu, reg, rm),
            Op::MovRm16Sreg { rm, sreg } => crate::transfer::mov_rm16_sreg(cpu, rm, sreg),
            Op::MovSregRm16 { sreg, rm } => crate::transfer::mov_sreg_rm16(cpu, sreg, rm),
            Op::MovAlMoffs8 { segment, offset } => crate::transfer::mov_al_moffs8(
                cpu,
                segment,
                offset,
            ),
            Op::MovR8Imm8 { reg, imm } => {
                crate::transfer::mov_r8_imm8(cpu, reg, imm);
                Ok(())
            },
            Op::MovR16Imm16 { reg, imm } => {
                crate::transfer::mov_r16_imm16(cpu, reg, imm);
                Ok(())
            },
            Op::LesR16M1616 { reg, rm } => crate::transfer::les_r16_m16_16(cpu, reg, rm),
            _ => self.execute_stack_control(cpu),
        }
    }

    /// Executes the stack, string and control-flow instructions.
    fn execute_stack_control(self, cpu: &mut Cpu) -> (r: Result<(), CpuErr>)
        requires
            old(cpu).wf(),
            wf_op(self.op),
            !data_op(self.op),
        ensures
            final(cpu).wf(),
            r is Ok <==> exec_ok(self.op, self.prefixes.rep, old(cpu)@),
            r matches Ok(_) ==> final(cpu)@ == exec_post(self.op, self.prefixes.rep, old(cpu)@),
    {
        match self.op {
            Op::PushEs => crate::stack::push_es(cpu),
            Op::PopEs => crate::stack::pop_es(cpu),
            Op::PushDs => crate::stack::push_ds(cpu),
            Op::PushR16 { reg } => crate::stack::push_r16(cpu, reg),
            Op::PopR16 { reg } => crate::stack::pop_r16(cpu, reg),
            Op::Popa => crate::stack::popa(cpu),
            Op::PushImm16 { imm } => crate::stack::push_imm16(cpu, imm),
            Op::PushImm8 { imm } => crate::stack::push_imm8(cpu, imm),
            Op::Jcond { cond, disp } => {
                crate::conditionals::jcond(cpu, cond, disp);
                Ok(())
            },
            Op::Pushf => crate::flagops::pushf(cpu),
            Op::Popf => crate::flagops::popf(cpu),
            Op::Sahf => {
                crate::flagops::sahf(cpu);
                Ok(())
            },
            Op::Lahf => {
                crate::flagops::lahf(cpu);
                Ok(())
            },
            Op::Stosb => crate::strings::stosb(cpu, self.prefixes.rep),
            Op::Stosw => crate::strings::stosw(cpu, self.prefixes.rep),
            Op::Ret => crate::control::ret(cpu),
            Op::EnterImm16Imm8 { size, nesting } => crate::control::enter_imm16_imm8(
                cpu,
                size,
                nesting,
            ),
            Op::Jcxz { disp } => {
                crate::control::jcxz(cpu, disp);
                Ok(())
            },
            Op::CallRel16 { rel } => crate::control::call_rel16(cpu, rel),
            Op::JmpPtr1616 { off, seg } => {
                crate::control::jmp_ptr16_16(cpu, off, seg);
                Ok(())
            },
            _ => self.execute_flags_ports(cpu),
        }
    }

    /// Executes the FLAGS and port instructions.
    fn execute_flags_ports(self, cpu: &mut Cpu) -> (r: Result<(), CpuErr>)
        requires
            old(cpu).wf(),
            wf_op(self.op),
            !data_op(self.op),
            !stack_control_op(self.op),
        ensures
            final(cpu).wf(),
            r is Ok <==> exec_ok(self.op, self.prefixes.rep, old(cpu)@),
            r matches Ok(_) ==> final(cpu)@ == exec_post(self.op, self.prefixes.rep, old(cpu)@),
    {
        match self.op {
            Op::InAlImm8 { port } => {
                crate::ports::in_al(cpu, port as u16);
                Ok(())
            },
            Op::InAxImm8 { port } => {
                crate::ports::in_ax(cpu, port as u16);
                Ok(())
            },
            Op::OutImm8Al { port } => {
                crate::ports::out_al(cpu, port as u16);
                Ok(())
            },
            Op::OutImm8Ax { port } => {
                crate::ports::out_ax(cpu, port as u16);
                Ok(())
            },
            Op::InAlDx => {
                let dx = cpu.get_reg_16(WordReg::General(GeneralWordReg::Dx));
                crate::ports::in_al(cpu, dx);
                Ok(())
            },
            Op::InAxDx => {
                let dx = cpu.get_reg_16(WordReg::General(GeneralWordReg::Dx));
                crate::ports::in_ax(cpu, dx);
                Ok(())
            },
            Op::OutDxAl => {
                let dx = cpu.get_reg_16(WordReg::General(GeneralWordReg::Dx));
                crate::ports::out_al(cpu, dx);
                Ok(())
            },
            Op::OutDxAx => {
                let dx = cpu.get_reg_16(WordReg::General(GeneralWordReg::Dx));
                crate::ports::out_ax(cpu, dx);
                Ok(())
            },
            Op::Cmc => {
                crate::flagops::cmc(cpu);
                Ok(())
            },
            Op::Clc => {
                crate::flagops::clc(cpu);
                Ok(())
            },
            Op::Stc => {
                crate::flagops::stc(cpu);
                Ok(())
            },
            Op::Cli => {
                crate::flagops::cli(cpu);
                Ok(())
            },
            Op::Sti => {
                crate::flagops::sti(cpu);
                Ok(())
            },
            Op::Cld => {
                crate::flagops::cld(cpu);
                Ok(())
            },
            Op::Setd => {
                crate::flagops::setd(cpu);
                Ok(())
            },
            _ => {
                proof {
                    assert(false);
                }
                Ok(())
            },
        }
    }
}

impl Cpu {
    /// One cooperative step of the core: decode the instruction at CS:IP,
    /// then execute it.  A step never suspends; a fatal fault is returned
    /// as the error it names.
    pub fn step(&mut self) -> (r: Result<(), CpuErr>)
        requires
            old(self).wf(),
        ensures
            final(self).wf(),
            ({
                let scan = spec_prefix_scan(
                    old(self)@,
                    Prefixes { segment: None, rep: false },
                    0xFFFF,
                );
                &&& scan is None ==> r is Err
                &&& scan matches Some((c1, p, b)) ==> ({
                    let op = spec_op(b, p, c1);
                    let c2 = c1.with_ip(c1.ip.wrapping_add(op_len(op) as u16));
                    &&& (r is Ok <==> operands_ok(b, c1) && exec_ok(op, p.rep, c2))
                    &&& r is Ok ==> final(self)@ == exec_post(op, p.rep, c2)
                })
            }),
    {
        match self.step_decoded() {
            Ok(_) => Ok(()),
            Err(e) => Err(e),
        }
    }

    /// Like `step`, but hands the decoded instruction back so a host can
    /// trace what ran.
    pub fn step_decoded(&mut self) -> (r: Result<Instr, CpuErr>)
        requires
            old(self).wf(),
        ensures
            final(self).wf(),
            ({
                let scan = spec_prefix_scan(
                    old(self)@,
                    Prefixes { segment: None, rep: false },
                    0xFFFF,
                );
                &&& scan is None ==> r is Err
                &&& scan matches Some((c1, p, b)) ==> ({
                    let op = spec_op(b, p, c1);
                    let c2 = c1.with_ip(c1.ip.wrapping_add(op_len(op) as u16));
                    &&& (r is Ok <==> operands_ok(b, c1) && exec_ok(op, p.rep, c2))
                    &&& r matches Ok(i) ==> i == (Instr { prefixes: p, op }) && final(self)@
                        == exec_post(op, p.rep, c2)
                })
            }),
    {
        let instr = match decode(self) {
            Ok(i) => i,
            Err(e) => {
                return Err(e);
            },
        };
        match instr.execute(self) {
            Ok(()) => Ok(instr),
            Err(e) => Err(e),
        }
    }
}

} // verus!
