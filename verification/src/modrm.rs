//! The ModR/M decoder: from a ModR/M byte, an optional register operand
//! and either a register or a memory operand.  A memory operand is a
//! recipe of up to two base registers plus a displacement, collapsed to
//! `(segment, offset)` by wrapping 16-bit addition at access time.

use vstd::prelude::*;

use crate::cpu::{Cpu, CpuErr, CpuV};
use crate::regs::{
    breg_of, sign_extend8, sreg_of, wreg_of, GeneralByteReg, GeneralReg, GeneralWordReg, Reg,
    SegmentReg, Size,
};

verus! {

/// Which kind of register the ModR/M `reg` field names, chosen by the
/// dispatching opcode.
#[derive(Clone, Copy, Debug, PartialEq, Eq, Structural)]
pub enum ModrmRegType {
    ByteSized,
    WordSized,
    Segment,
}

/// A decoded displacement.  A byte displacement is sign-extended to 16
/// bits before the wrapping offset addition.
#[derive(Clone, Copy, Debug, PartialEq, Eq, Structural)]
pub enum Displacement {
    SignedByte(u8),
    UnsignedWord(u16),
}

/// An effective-address recipe: default segment, up to two base
/// registers, and an optional displacement.
#[derive(Clone, Copy, Debug, PartialEq, Eq, Structural)]
pub struct RmPtr {
    pub segment: SegmentReg,
    pub first_reg: Option<GeneralWordReg>,
    pub second_reg: Option<GeneralWordReg>,
    pub displacement: Option<Displacement>,
}

/// The 16-bit value a displacement contributes to the effective offset.
pub open spec fn disp_value(d: Option<Displacement>) -> u16 {
    match d {
        None => 0,
        Some(Displacement::SignedByte(b)) => sign_extend8(b),
        Some(Displacement::UnsignedWord(w)) => w,
    }
}

/// The wrapping sum of the base registers of a recipe.
pub open spec fn base_sum(p: RmPtr, c: CpuV) -> u16 {
    (match p.first_reg {
        Some(r) => c.wreg(r),
        None => 0,
    }).wrapping_add(
        match p.second_reg {
            Some(r) => c.wreg(r),
            None => 0,
        },
    )
}

/// The effective offset of a recipe: base registers plus displacement,
/// all in wrapping 16-bit addition.
pub open spec fn rm_offset(p: RmPtr, c: CpuV) -> u16 {
    base_sum(p, c).wrapping_add(disp_value(p.displacement))
}

impl RmPtr {
    /// Collapses the recipe against the current register values to the
    /// `(segment, offset)` pair it addresses.
    pub fn to_linear(&self, cpu: &Cpu) -> (r: (SegmentReg, u16))
        requires
            cpu.wf(),
        ensures
            r.0 == self.segment,
            r.1 == rm_offset(*self, cpu@),
    {
        let mut offset: u16 = 0;
        if let Some(reg) = self.first_reg {
            offset = offset.wrapping_add(cpu.get_reg_16(crate::regs::WordReg::General(reg)));
        }
        if let Some(reg) = self.second_reg {
            offset = offset.wrapping_add(cpu.get_reg_16(crate::regs::WordReg::General(reg)));
        }
        let displacement = match self.displacement {
            Some(Displacement::SignedByte(d)) => crate::regs::sext8(d),
            Some(Displacement::UnsignedWord(d)) => d,
            None => 0,
        };
        (self.segment, offset.wrapping_add(displacement))
    }
}

/// A register-or-memory operand.
#[derive(Clone, Copy, Debug, PartialEq, Eq, Structural)]
pub enum RegMem {
    Reg(GeneralReg),
    Ptr(RmPtr),
}

/// Whether an operand can be read or written with byte width.
pub open spec fn rm_is_byte(rm: RegMem) -> bool {
    match rm {
        RegMem::Reg(GeneralReg::Byte(_)) => true,
        RegMem::Reg(GeneralReg::Word(_)) => false,
        RegMem::Ptr(_) => true,
    }
}

/// Whether an operand can be read or written with word width.
pub open spec fn rm_is_word(rm: RegMem) -> bool {
    match rm {
        RegMem::Reg(GeneralReg::Byte(_)) => false,
        RegMem::Reg(GeneralReg::Word(_)) => true,
        RegMem::Ptr(_) => true,
    }
}

/// Whether a byte access through the operand stays on mapped memory.
pub open spec fn rm_acc8(rm: RegMem, c: CpuV) -> bool {
    match rm {
        RegMem::Reg(_) => true,
        RegMem::Ptr(p) => c.acc8(p.segment, rm_offset(p, c)),
    }
}

/// Whether a word access through the operand stays on mapped memory.
pub open spec fn rm_acc16(rm: RegMem, c: CpuV) -> bool {
    match rm {
        RegMem::Reg(_) => true,
        RegMem::Ptr(p) => c.acc16(p.segment, rm_offset(p, c)),
    }
}

/// The byte value a byte-sized operand holds.
pub open spec fn rm_val8(rm: RegMem, c: CpuV) -> u8 {
    match rm {
        RegMem::Reg(GeneralReg::Byte(r)) => c.breg(r),
        RegMem::Reg(GeneralReg::Word(_)) => 0,
        RegMem::Ptr(p) => c.rd8(p.segment, rm_offset(p, c)),
    }
}

/// The word value a word-sized operand holds.
pub open spec fn rm_val16(rm: RegMem, c: CpuV) -> u16 {
    match rm {
        RegMem::Reg(GeneralReg::Byte(_)) => 0,
        RegMem::Reg(GeneralReg::Word(r)) => c.wreg(r),
        RegMem::Ptr(p) => c.rd16(p.segment, rm_offset(p, c)),
    }
}

/// The state after a byte store through the operand.
pub open spec fn rm_store8(rm: RegMem, c: CpuV, v: u8) -> CpuV {
    match rm {
        RegMem::Reg(GeneralReg::Byte(r)) => c.with_breg(r, v),
        RegMem::Reg(GeneralReg::Word(_)) => c,
        RegMem::Ptr(p) => c.wr8(p.segment, rm_offset(p, c), v),
    }
}

/// The state after a word store through the operand.
pub open spec fn rm_store16(rm: RegMem, c: CpuV, v: u16) -> CpuV {
    match rm {
        RegMem::Reg(GeneralReg::Byte(_)) => c,
        RegMem::Reg(GeneralReg::Word(r)) => c.with_wreg(r, v),
        RegMem::Ptr(p) => c.wr16(p.segment, rm_offset(p, c), v),
    }
}

impl RegMem {
    /// Reads the operand with byte width.
    pub fn get_8(&self, cpu: &Cpu) -> (r: Result<u8, CpuErr>)
        requires
            cpu.wf(),
            rm_is_byte(*self),
        ensures
            rm_acc8(*self, cpu@) ==> r == Ok::<u8, CpuErr>(rm_val8(*self, cpu@)),
            !rm_acc8(*self, cpu@) ==> r is Err,
    {
        match self {
            RegMem::Reg(reg) => match reg {
                GeneralReg::Byte(reg) => Ok(cpu.get_reg_8(*reg)),
                GeneralReg::Word(_) => Err(CpuErr::IllegalOperand),
            },
            RegMem::Ptr(ptr) => {
                let (segment, offset) = ptr.to_linear(cpu);
                cpu.get_mem_8(segment, offset)
            },
        }
    }

    /// Reads the operand with word width.
    pub fn get_16(&self, cpu: &Cpu) -> (r: Result<u16, CpuErr>)
        requires
            cpu.wf(),
            rm_is_word(*self),
        ensures
            rm_acc16(*self, cpu@) ==> r == Ok::<u16, CpuErr>(rm_val16(*self, cpu@)),
            !rm_acc16(*self, cpu@) ==> r is Err,
    {
        match self {
            RegMem::Reg(reg) => match reg {
                GeneralReg::Word(reg) => Ok(
                    cpu.get_reg_16(crate::regs::WordReg::General(*reg)),
                ),
                GeneralReg::Byte(_) => Err(CpuErr::IllegalOperand),
            },
            RegMem::Ptr(ptr) => {
                let (segment, offset) = ptr.to_linear(cpu);
                cpu.get_mem_16(segment, offset)
            },
        }
    }

    /// Writes the operand with byte width.
    pub fn set_8(&self, cpu: &mut Cpu, value: u8) -> (r: Result<(), CpuErr>)
        requires
            old(cpu).wf(),
            rm_is_byte(*self),
        ensures
            final(cpu).wf(),
            rm_acc8(*self, old(cpu)@) ==> r == Ok::<(), CpuErr>(()) && final(cpu)@ == rm_store8(
                *self,
                old(cpu)@,
                value,
            ),
            !rm_acc8(*self, old(cpu)@) ==> r is Err && final(cpu)@ == old(cpu)@,
    {
        match self {
            RegMem::Reg(reg) => match reg {
                GeneralReg::Byte(reg) => {
                    cpu.set_reg_8(*reg, value);
                    Ok(())
                },
                GeneralReg::Word(_) => Err(CpuErr::IllegalOperand),
            },
            RegMem::Ptr(ptr) => {
                let (segment, offset) = ptr.to_linear(cpu);
                cpu.set_mem_8(segment, offset, value)
            },
        }
    }

    /// Writes the operand with word width.
    pub fn set_16(&self, cpu: &mut Cpu, value: u16) -> (r: Result<(), CpuErr>)
        requires
            old(cpu).wf(),
            rm_is_word(*self),
        ensures
            final(cpu).wf(),
            rm_acc16(*self, old(cpu)@) ==> r == Ok::<(), CpuErr>(()) && final(cpu)@ == rm_store16(
                *self,
                old(cpu)@,
                value,
            ),
            !rm_acc16(*self, old(cpu)@) ==> r is Err && final(cpu)@ == old(cpu)@,
    {
        match self {
            RegMem::Reg(reg) => match reg {
                GeneralReg::Word(reg) => {
                    cpu.set_reg_16(crate::regs::WordReg::General(*reg), value);
                    Ok(())
                },
                GeneralReg::Byte(_) => Err(CpuErr::IllegalOperand),
            },
            RegMem::Ptr(ptr) => {
                let (segment, offset) = ptr.to_linear(cpu);
                cpu.set_mem_16(segment, offset, value)
            },
        }
    }
}

/// How many displacement bytes a decoded operand consumed.
pub open spec fn rm_len(rm: RegMem) -> int {
    match rm {
        RegMem::Reg(_) => 0,
        RegMem::Ptr(p) => match p.displacement {
            None => 0,
            Some(Displacement::SignedByte(_)) => 1,
            Some(Displacement::UnsignedWord(_)) => 2,
        },
    }
}

/// The `mod` field of a ModR/M byte.
pub open spec fn modrm_x(b: u8) -> u8 {
    (b / 64) % 8
}

/// The `reg` field of a ModR/M byte.
pub open spec fn modrm_r(b: u8) -> u8 {
    (b / 8) % 8
}

/// The `rm` field of a ModR/M byte.
pub open spec fn modrm_m(b: u8) -> u8 {
    b % 8
}

/// How many displacement bytes a ModR/M byte asks for.
pub open spec fn modrm_disp_len(b: u8) -> int {
    if modrm_x(b) == 3 {
        0
    } else if modrm_x(b) == 1 {
        1
    } else if modrm_x(b) == 2 || modrm_m(b) == 6 {
        2
    } else {
        0
    }
}

/// The default segment of a memory form, by the table's base registers:
/// the BP-based rows default to SS, every other row to DS.
pub open spec fn default_segment(x: u8, m: u8) -> SegmentReg {
    if m == 2 || m == 3 || (m == 6 && x != 0) {
        SegmentReg::Ss
    } else {
        SegmentReg::Ds
    }
}

/// The first base register of a memory form.
pub open spec fn first_base(x: u8, m: u8) -> Option<GeneralWordReg> {
    if m == 0 || m == 1 {
        Some(GeneralWordReg::Bx)
    } else if m == 2 || m == 3 {
        Some(GeneralWordReg::Bp)
    } else if m == 4 {
        Some(GeneralWordReg::Si)
    } else if m == 5 {
        Some(GeneralWordReg::Di)
    } else if m == 6 {
        if x == 0 {
            None
        } else {
            Some(GeneralWordReg::Bp)
        }
    } else {
        Some(GeneralWordReg::Bx)
    }
}

/// The second base register of a memory form.
pub open spec fn second_base(m: u8) -> Option<GeneralWordReg> {
    if m == 0 || m == 2 {
        Some(GeneralWordReg::Si)
    } else if m == 1 || m == 3 {
        Some(GeneralWordReg::Di)
    } else {
        None
    }
}

/// Whether decoding a ModR/M byte at the given state succeeds: the
/// `reg` field of a `Segment` kind must name one of the four segment
/// registers, and the displacement bytes must lie on mapped memory at
/// CS:IP.  The register form and the displacement-free memory forms
/// always succeed.
pub open spec fn modrm_decode_ok(modrm: u8, reg_type: Option<ModrmRegType>, c: CpuV) -> bool {
    &&& (reg_type matches Some(ModrmRegType::Segment) ==> modrm_r(modrm) < 4)
    &&& (modrm_x(modrm) == 3 || modrm_disp_len(modrm) == 0 || (modrm_disp_len(modrm) == 1
        && c.acc8(SegmentReg::Cs, c.ip)) || (modrm_disp_len(modrm) == 2 && c.acc16(
        SegmentReg::Cs,
        c.ip,
    )))
}

/// The operand a ModR/M byte decodes to, at a state whose IP rests on
/// the byte after it: `mod` 3 names the register the `rm` field picks at
/// the operand width; the memory forms follow the addressing table, with
/// a segment override replacing the default segment, and take their
/// displacement from the bytes at CS:IP.
pub open spec fn spec_reg_mem(
    modrm: u8,
    rm_size: Size,
    seg_override: Option<SegmentReg>,
    c: CpuV,
) -> RegMem {
    let x = modrm_x(modrm);
    let m = modrm_m(modrm);
    if x == 3 {
        RegMem::Reg(
            match rm_size {
                Size::Byte => GeneralReg::Byte(breg_of(m)),
                Size::Word => GeneralReg::Word(wreg_of(m)),
            },
        )
    } else {
        RegMem::Ptr(
            RmPtr {
                segment: (match seg_override {
                    Some(s) => s,
                    None => default_segment(x, m),
                }),
                first_reg: first_base(x, m),
                second_reg: second_base(m),
                displacement: (if x == 1 {
                    Some(Displacement::SignedByte(c.rd8(SegmentReg::Cs, c.ip)))
                } else if x == 2 || m == 6 {
                    Some(Displacement::UnsignedWord(c.rd16(SegmentReg::Cs, c.ip)))
                } else {
                    None
                }),
            },
        )
    }
}

/// The register the `reg` field names, under the given kind.
pub open spec fn spec_reg_field(t: ModrmRegType, r: u8) -> Reg {
    match t {
        ModrmRegType::ByteSized => Reg::Byte(breg_of(r)),
        ModrmRegType::WordSized => Reg::Word(wreg_of(r)),
        ModrmRegType::Segment => Reg::Segment(sreg_of(r)),
    }
}

/// A fully decoded ModR/M byte.
#[derive(Clone, Copy, Debug, PartialEq, Eq, Structural)]
pub struct Modrm {
    pub reg: Option<Reg>,
    pub reg_mem: RegMem,
}

impl Modrm {
    /// Decodes a ModR/M byte: the `reg` field under the kind the opcode
    /// chose, and the register or memory operand of `rm_size`, consuming
    /// any displacement bytes at CS:IP.  A segment-override prefix
    /// replaces the default segment of a memory operand unconditionally.
    /// The `reg` field of a `Segment` kind only names a register when it
    /// is below 4; otherwise the operand is illegal.
    pub fn decode(
        cpu: &mut Cpu,
        modrm: u8,
        reg_type: Option<ModrmRegType>,
        rm_size: Size,
        seg_override: Option<SegmentReg>,
    ) -> (r: Result<Modrm, CpuErr>)
        requires
            old(cpu).wf(),
        ensures
            final(cpu).wf(),
            r is Ok <==> modrm_decode_ok(modrm, reg_type, old(cpu)@),
            r is Err ==> final(cpu)@ == old(cpu)@,
            reg_type matches Some(ModrmRegType::Segment) && modrm_r(modrm) >= 4 ==> r == Err::<
                Modrm,
                CpuErr,
            >(CpuErr::IllegalOperand),
            r matches Ok(d) ==> {
                &&& d.reg == (match reg_type {
                    Some(t) => Some(spec_reg_field(t, modrm_r(modrm))),
                    None => None::<Reg>,
                })
                &&& d.reg_mem == spec_reg_mem(modrm, rm_size, seg_override, old(cpu)@)
                &&& final(cpu)@ == old(cpu)@.with_ip(
                    old(cpu)@.ip.wrapping_add(modrm_disp_len(modrm) as u16),
                )
            },
    {
        let x = (modrm / 64) % 8;
        let m = modrm % 8;
        let r = (modrm / 8) % 8;

        let reg: Option<Reg> = match reg_type {
            None => None,
            Some(ModrmRegType::ByteSized) => match GeneralByteReg::from_u8(r) {
                Some(reg) => Some(Reg::Byte(reg)),
                None => {
                    proof {
                        assert(false);
                    }
                    return Err(CpuErr::IllegalOperand);
                },
            },
            Some(ModrmRegType::WordSized) => match GeneralWordReg::from_u8(r) {
                Some(reg) => Some(Reg::Word(reg)),
                None => {
                    proof {
                        assert(false);
                    }
                    return Err(CpuErr::IllegalOperand);
                },
            },
            Some(ModrmRegType::Segment) => match SegmentReg::from_u8(r) {
                Some(reg) => Some(Reg::Segment(reg)),
                None => {
                    return Err(CpuErr::IllegalOperand);
                },
            },
        };

        if x == 3 {
            let rm_reg: GeneralReg = match rm_size {
                Size::Byte => match GeneralByteReg::from_u8(m) {
                    Some(reg) => GeneralReg::Byte(reg),
                    None => {
                        proof {
                            assert(false);
                        }
                        return Err(CpuErr::IllegalOperand);
                    },
                },
                Size::Word => match GeneralWordReg::from_u8(m) {
                    Some(reg) => GeneralReg::Word(reg),
                    None => {
                        proof {
                            assert(false);
                        }
                        return Err(CpuErr::IllegalOperand);
                    },
                },
            };
            proof {
                assert(old(cpu)@ =~= old(cpu)@.with_ip(old(cpu)@.ip.wrapping_add(0)));
            }
            return Ok(Modrm { reg, reg_mem: RegMem::Reg(rm_reg) });
        }

        let displacement: Option<Displacement> = if x == 1 {
            match cpu.read_mem_8() {
                Ok(d) => Some(Displacement::SignedByte(d)),
                Err(e) => {
                    return Err(e);
                },
            }
        } else if x == 2 || m == 6 {
            match cpu.read_mem_16() {
                Ok(d) => Some(Displacement::UnsignedWord(d)),
                Err(e) => {
                    return Err(e);
                },
            }
        } else {
            None
        };

        let default_seg: SegmentReg = if m == 2 || m == 3 || (m == 6 && x != 0) {
            SegmentReg::Ss
        } else {
            SegmentReg::Ds
        };
        let first_reg: Option<GeneralWordReg> = if m == 0 || m == 1 {
            Some(GeneralWordReg::Bx)
        } else if m == 2 || m == 3 {
            Some(GeneralWordReg::Bp)
        } else if m == 4 {
            Some(GeneralWordReg::Si)
        } else if m == 5 {
            Some(GeneralWordReg::Di)
        } else if m == 6 {
            if x == 0 {
                None
            } else {
                Some(GeneralWordReg::Bp)
            }
        } else {
            Some(GeneralWordReg::Bx)
        };
        let second_reg: Option<GeneralWordReg> = if m == 0 || m == 2 {
            Some(GeneralWordReg::Si)
        } else if m == 1 || m == 3 {
            Some(GeneralWordReg::Di)
        } else {
            None
        };
        let segment = match seg_override {
            Some(s) => s,
            None => default_seg,
        };

        Ok(
            Modrm {
                reg,
                reg_mem: RegMem::Ptr(RmPtr { segment, first_reg, second_reg, displacement }),
            },
        )
    }
}

} // verus!
