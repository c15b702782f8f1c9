//! Data transfer instruction semantics: the MOV family and LES.  MOV
//! copies bits and never touches the flags; writing CS through MOV is
//! illegal and fatal.

use vstd::prelude::*;

use crate::cpu::{Cpu, CpuErr};
use crate::modrm::{
    rm_acc16, rm_acc8, rm_is_byte, rm_is_word, rm_store16, rm_store8, rm_val16, rm_val8, RegMem,
    RmPtr,
};
use crate::regs::{GeneralByteReg, GeneralWordReg, SegmentReg, WordReg};

verus! {

/// MOV r/m8, r8 (opcode 0x88).
pub fn mov_rm8_r8(cpu: &mut Cpu, rm: RegMem, reg: GeneralByteReg) -> (r: Result<(), CpuErr>)
    requires
        old(cpu).wf(),
        rm_is_byte(rm),
    ensures
        final(cpu).wf(),
        rm_acc8(rm, old(cpu)@) ==> r == Ok::<(), CpuErr>(()) && final(cpu)@ == rm_store8(
            rm,
            old(cpu)@,
            old(cpu)@.breg(reg),
        ),
        !rm_acc8(rm, old(cpu)@) ==> r is Err && final(cpu)@ == old(cpu)@,
{
    let v = cpu.get_reg_8(reg);
    rm.set_8(cpu, v)
}

/// MOV r/m16, r16 (opcode 0x89).
pub fn mov_rm16_r16(cpu: &mut Cpu, rm: RegMem, reg: GeneralWordReg) -> (r: Result<(), CpuErr>)
    requires
        old(cpu).wf(),
        rm_is_word(rm),
    ensures
        final(cpu).wf(),
        rm_acc16(rm, old(cpu)@) ==> r == Ok::<(), CpuErr>(()) && final(cpu)@ == rm_store16(
            rm,
            old(cpu)@,
            old(cpu)@.wreg(reg),
        ),
        !rm_acc16(rm, old(cpu)@) ==> r is Err,
{
    let v = cpu.get_reg_16(WordReg::General(reg));
    rm.set_16(cpu, v)
}

/// MOV r8, r/m8 (opcode 0x8A).
pub fn mov_r8_rm8(cpu: &mut Cpu, reg: GeneralByteReg, rm: RegMem) -> (r: Result<(), CpuErr>)
    requires
        old(cpu).wf(),
        rm_is_byte(rm),
    ensures
        final(cpu).wf(),
        rm_acc8(rm, old(cpu)@) ==> r == Ok::<(), CpuErr>(()) && final(cpu)@ == old(
            cpu,
        )@.with_breg(reg, rm_val8(rm, old(cpu)@)),
        !rm_acc8(rm, old(cpu)@) ==> r is Err && final(cpu)@ == old(cpu)@,
{
    let v = match rm.get_8(cpu) {
        Ok(v) => v,
        Err(e) => {
            return Err(e);
        },
    };
    cpu.set_reg_8(reg, v);
    Ok(())
}

/// MOV r16, r/m16 (opcode 0x8B).
pub fn mov_r16_rm16(cpu: &mut Cpu, reg: GeneralWordReg, rm: RegMem) -> (r: Result<(), CpuErr>)
    requires
        old(cpu).wf(),
        rm_is_word(rm),
    ensures
        final(cpu).wf(),
        rm_acc16(rm, old(cpu)@) ==> r == Ok::<(), CpuErr>(()) && final(cpu)@ == old(
            cpu,
        )@.with_wreg(reg, rm_val16(rm, old(cpu)@)),
        !rm_acc16(rm, old(cpu)@) ==> r is Err && final(cpu)@ == old(cpu)@,
{
    let v = match rm.get_16(cpu) {
        Ok(v) => v,
        Err(e) => {
            return Err(e);
        },
    };
    cpu.set_reg_16(WordReg::General(reg), v);
    Ok(())
}

/// MOV r/m16, sreg (opcode 0x8C).
pub fn mov_rm16_sreg(cpu: &mut Cpu, rm: RegMem, sreg: SegmentReg) -> (r: Result<(), CpuErr>)
    requires
        old(cpu).wf(),
        rm_is_word(rm),
    ensures
        final(cpu).wf(),
        rm_acc16(rm, old(cpu)@) ==> r == Ok::<(), CpuErr>(()) && final(cpu)@ == rm_store16(
            rm,
            old(cpu)@,
            old(cpu)@.seg(sreg),
        ),
        !rm_acc16(rm, old(cpu)@) ==> r is Err,
{
    let v = cpu.get_reg_16(WordReg::Segment(sreg));
    rm.set_16(cpu, v)
}

/// MOV sreg, r/m16 (opcode 0x8E).  CS is not a permitted destination:
/// that form is an illegal operand and fatal.
pub fn mov_sreg_rm16(cpu: &mut Cpu, sreg: SegmentReg, rm: RegMem) -> (r: Result<(), CpuErr>)
    requires
        old(cpu).wf(),
        rm_is_word(rm),
    ensures
        final(cpu).wf(),
        sreg == SegmentReg::Cs ==> r == Err::<(), CpuErr>(CpuErr::IllegalOperand) && final(cpu)@
            == old(cpu)@,
        sreg != SegmentReg::Cs && rm_acc16(rm, old(cpu)@) ==> r == Ok::<(), CpuErr>(())
            && final(cpu)@ == old(cpu)@.with_seg(sreg, rm_val16(rm, old(cpu)@)),
        sreg != SegmentReg::Cs && !rm_acc16(rm, old(cpu)@) ==> r is Err && final(cpu)@ == old(
            cpu,
        )@,
{
    if let SegmentReg::Cs = sreg {
        return Err(CpuErr::IllegalOperand);
    }
    let v = match rm.get_16(cpu) {
        Ok(v) => v,
        Err(e) => {
            return Err(e);
        },
    };
    cpu.set_reg_16(WordReg::Segment(sreg), v);
    Ok(())
}

/// MOV AL, moffs8 (opcode 0xA0): loads AL from a direct offset in the
/// given segment (DS unless a prefix overrode it).
pub fn mov_al_moffs8(cpu: &mut Cpu, segment: SegmentReg, offset: u8) -> (r: Result<(), CpuErr>)
    requires
        old(cpu).wf(),
    ensures
        final(cpu).wf(),
        old(cpu)@.acc8(segment, offset as u16) ==> r == Ok::<(), CpuErr>(()) && final(cpu)@ == old(
            cpu,
        )@.with_breg(GeneralByteReg::Al, old(cpu)@.rd8(segment, offset as u16)),
        !old(cpu)@.acc8(segment, offset as u16) ==> r is Err && final(cpu)@ == old(cpu)@,
{
    let v = match cpu.get_mem_8(segment, offset as u16) {
        Ok(v) => v,
        Err(e) => {
            return Err(e);
        },
    };
    cpu.set_reg_8(GeneralByteReg::Al, v);
    Ok(())
}

/// MOV r8, imm8 (opcodes 0xB0..=0xB7).
pub fn mov_r8_imm8(cpu: &mut Cpu, reg: GeneralByteReg, imm: u8)
    requires
        old(cpu).wf(),
    ensures
        final(cpu).wf(),
        final(cpu)@ == old(cpu)@.with_breg(reg, imm),
{
    cpu.set_reg_8(reg, imm);
}

/// MOV r16, imm16 (opcodes 0xB8..=0xBF).
pub fn mov_r16_imm16(cpu: &mut Cpu, reg: GeneralWordReg, imm: u16)
    requires
        old(cpu).wf(),
    ensures
        final(cpu).wf(),
        final(cpu)@ == old(cpu)@.with_wreg(reg, imm),
{
    cpu.set_reg_16(WordReg::General(reg), imm);
}

/// LES r16, m16:16 (opcode 0xC4): loads the low word of the memory
/// operand into the named register and the high word into ES.  A
/// register operand is illegal.
pub fn les_r16_m16_16(cpu: &mut Cpu, reg: GeneralWordReg, rm: RegMem) -> (r: Result<(), CpuErr>)
    requires
        old(cpu).wf(),
    ensures
        final(cpu).wf(),
        rm is Reg ==> r == Err::<(), CpuErr>(CpuErr::IllegalOperand) && final(cpu)@ == old(cpu)@,
        rm matches RegMem::Ptr(p) ==> {
            let off = crate::modrm::rm_offset(p, old(cpu)@);
            let hi_off = off.wrapping_add(2);
            &&& old(cpu)@.acc16(p.segment, off) && old(cpu)@.acc16(p.segment, hi_off) ==> r
                == Ok::<(), CpuErr>(()) && final(cpu)@ == old(cpu)@.with_wreg(
                reg,
                old(cpu)@.rd16(p.segment, off),
            ).with_seg(SegmentReg::Es, old(cpu)@.rd16(p.segment, hi_off))
            &&& !(old(cpu)@.acc16(p.segment, off) && old(cpu)@.acc16(p.segment, hi_off)) ==> r
                is Err && final(cpu)@ == old(cpu)@
        },
{
    let ptr: RmPtr = match rm {
        RegMem::Ptr(p) => p,
        RegMem::Reg(_) => {
            return Err(CpuErr::IllegalOperand);
        },
    };
    let (segment, offset) = ptr.to_linear(cpu);
    let low = match cpu.get_mem_16(segment, offset) {
        Ok(v) => v,
        Err(e) => {
            return Err(e);
        },
    };
    let high = match cpu.get_mem_16(segment, offset.wrapping_add(2)) {
        Ok(v) => v,
        Err(e) => {
            return Err(e);
        },
    };
    cpu.set_reg_16(WordReg::General(reg), low);
    cpu.set_reg_16(WordReg::Segment(SegmentReg::Es), high);
    proof {
        assert(cpu@ =~= old(cpu)@.with_wreg(reg, low).with_seg(SegmentReg::Es, high));
    }
    Ok(())
}

} // verus!
