//! Stack instruction semantics: PUSH and POP over SS:SP.  PUSH
//! decrements SP by two and stores the word at the new SS:SP; POP reads
//! the word at SS:SP and then increments SP by two.

use vstd::prelude::*;

use crate::cpu::{lemma_wr16_rd16, Cpu, CpuErr, CpuV};
use crate::regs::{sign_extend8, GeneralWordReg, SegmentReg, WordReg};

verus! {

/// PUSH ES (opcode 0x06).
pub fn push_es(cpu: &mut Cpu) -> (r: Result<(), CpuErr>)
    requires
        old(cpu).wf(),
    ensures
        final(cpu).wf(),
        old(cpu)@.push_ok() ==> r == Ok::<(), CpuErr>(()) && final(cpu)@ == old(
            cpu,
        )@.spec_push16(old(cpu)@.seg(SegmentReg::Es)),
        !old(cpu)@.push_ok() ==> r is Err,
{
    let v = cpu.get_reg_16(WordReg::Segment(SegmentReg::Es));
    cpu.push16(v)
}

/// POP ES (opcode 0x07).
pub fn pop_es(cpu: &mut Cpu) -> (r: Result<(), CpuErr>)
    requires
        old(cpu).wf(),
    ensures
        final(cpu).wf(),
        old(cpu)@.pop_ok() ==> r == Ok::<(), CpuErr>(()) && final(cpu)@ == old(
            cpu,
        )@.spec_pop16().with_seg(SegmentReg::Es, old(cpu)@.pop_val()),
        !old(cpu)@.pop_ok() ==> r is Err && final(cpu)@ == old(cpu)@,
{
    let v = match cpu.pop16() {
        Ok(v) => v,
        Err(e) => {
            return Err(e);
        },
    };
    cpu.set_reg_16(WordReg::Segment(SegmentReg::Es), v);
    Ok(())
}

/// PUSH DS (opcode 0x1E).
pub fn push_ds(cpu: &mut Cpu) -> (r: Result<(), CpuErr>)
    requires
        old(cpu).wf(),
    ensures
        final(cpu).wf(),
        old(cpu)@.push_ok() ==> r == Ok::<(), CpuErr>(()) && final(cpu)@ == old(
            cpu,
        )@.spec_push16(old(cpu)@.seg(SegmentReg::Ds)),
        !old(cpu)@.push_ok() ==> r is Err,
{
    let v = cpu.get_reg_16(WordReg::Segment(SegmentReg::Ds));
    cpu.push16(v)
}

/// PUSH r16 (opcodes 0x50..=0x57).
pub fn push_r16(cpu: &mut Cpu, reg: GeneralWordReg) -> (r: Result<(), CpuErr>)
    requires
        old(cpu).wf(),
    ensures
        final(cpu).wf(),
        old(cpu)@.push_ok() ==> r == Ok::<(), CpuErr>(()) && final(cpu)@ == old(
            cpu,
        )@.spec_push16(old(cpu)@.wreg(reg)),
        !old(cpu)@.push_ok() ==> r is Err,
{
    let v = cpu.get_reg_16(WordReg::General(reg));
    cpu.push16(v)
}

/// POP r16 (opcodes 0x58..=0x5F).
pub fn pop_r16(cpu: &mut Cpu, reg: GeneralWordReg) -> (r: Result<(), CpuErr>)
    requires
        old(cpu).wf(),
    ensures
        final(cpu).wf(),
        old(cpu)@.pop_ok() ==> r == Ok::<(), CpuErr>(()) && final(cpu)@ == old(
            cpu,
        )@.spec_pop16().with_wreg(reg, old(cpu)@.pop_val()),
        !old(cpu)@.pop_ok() ==> r is Err && final(cpu)@ == old(cpu)@,
{
    let v = match cpu.pop16() {
        Ok(v) => v,
        Err(e) => {
            return Err(e);
        },
    };
    cpu.set_reg_16(WordReg::General(reg), v);
    Ok(())
}

/// PUSH imm16 (opcode 0x68).
pub fn push_imm16(cpu: &mut Cpu, imm: u16) -> (r: Result<(), CpuErr>)
    requires
        old(cpu).wf(),
    ensures
        final(cpu).wf(),
        old(cpu)@.push_ok() ==> r == Ok::<(), CpuErr>(()) && final(cpu)@ == old(
            cpu,
        )@.spec_push16(imm),
        !old(cpu)@.push_ok() ==> r is Err,
{
    cpu.push16(imm)
}

/// PUSH imm8 (opcode 0x6A): the byte immediate is sign-extended to 16
/// bits before the push.
pub fn push_imm8(cpu: &mut Cpu, imm: u8) -> (r: Result<(), CpuErr>)
    requires
        old(cpu).wf(),
    ensures
        final(cpu).wf(),
        old(cpu)@.push_ok() ==> r == Ok::<(), CpuErr>(()) && final(cpu)@ == old(
            cpu,
        )@.spec_push16(sign_extend8(imm)),
        !old(cpu)@.push_ok() ==> r is Err,
{
    let v = crate::regs::sext8(imm);
    cpu.push16(v)
}

/// Whether all eight words POPA reads lie on mapped memory.
pub open spec fn popa_ok(c: CpuV) -> bool {
    let sp = c.wreg(GeneralWordReg::Sp);
    &&& c.acc16(SegmentReg::Ss, sp)
    &&& c.acc16(SegmentReg::Ss, sp.wrapping_add(2))
    &&& c.acc16(SegmentReg::Ss, sp.wrapping_add(4))
    &&& c.acc16(SegmentReg::Ss, sp.wrapping_add(6))
    &&& c.acc16(SegmentReg::Ss, sp.wrapping_add(8))
    &&& c.acc16(SegmentReg::Ss, sp.wrapping_add(10))
    &&& c.acc16(SegmentReg::Ss, sp.wrapping_add(12))
    &&& c.acc16(SegmentReg::Ss, sp.wrapping_add(14))
}

/// The state POPA leaves: DI, SI, BP, BX, DX, CX and AX restored from
/// the stack in that order, the saved SP slot read and discarded, and SP
/// moved past all eight words.
pub open spec fn spec_popa(c: CpuV) -> CpuV {
    let sp = c.wreg(GeneralWordReg::Sp);
    c.with_wreg(GeneralWordReg::Di, c.rd16(SegmentReg::Ss, sp)).with_wreg(
        GeneralWordReg::Si,
        c.rd16(SegmentReg::Ss, sp.wrapping_add(2)),
    ).with_wreg(GeneralWordReg::Bp, c.rd16(SegmentReg::Ss, sp.wrapping_add(4))).with_wreg(
        GeneralWordReg::Bx,
        c.rd16(SegmentReg::Ss, sp.wrapping_add(8)),
    ).with_wreg(GeneralWordReg::Dx, c.rd16(SegmentReg::Ss, sp.wrapping_add(10))).with_wreg(
        GeneralWordReg::Cx,
        c.rd16(SegmentReg::Ss, sp.wrapping_add(12)),
    ).with_wreg(GeneralWordReg::Ax, c.rd16(SegmentReg::Ss, sp.wrapping_add(14))).with_wreg(
        GeneralWordReg::Sp,
        sp.wrapping_add(16),
    )
}

/// POPA (opcode 0x61).
#[verifier::rlimit(100)]
pub fn popa(cpu: &mut Cpu) -> (r: Result<(), CpuErr>)
    requires
        old(cpu).wf(),
    ensures
        final(cpu).wf(),
        popa_ok(old(cpu)@) ==> r == Ok::<(), CpuErr>(()) && final(cpu)@ == spec_popa(old(cpu)@),
        !popa_ok(old(cpu)@) ==> r is Err,
        final(cpu)@.mem == old(cpu)@.mem,
        final(cpu)@.segs == old(cpu)@.segs,
        final(cpu)@.flags == old(cpu)@.flags,
        final(cpu)@.ip == old(cpu)@.ip,
{
    let sp = cpu.get_reg_16(WordReg::General(GeneralWordReg::Sp));
    let di = match cpu.get_mem_16(SegmentReg::Ss, sp) {
        Ok(v) => v,
        Err(e) => {
            return Err(e);
        },
    };
    let si = match cpu.get_mem_16(SegmentReg::Ss, sp.wrapping_add(2)) {
        Ok(v) => v,
        Err(e) => {
            return Err(e);
        },
    };
    let bp = match cpu.get_mem_16(SegmentReg::Ss, sp.wrapping_add(4)) {
        Ok(v) => v,
        Err(e) => {
            return Err(e);
        },
    };
    // The saved SP slot is read and discarded.
    match cpu.get_mem_16(SegmentReg::Ss, sp.wrapping_add(6)) {
        Ok(_) => {},
        Err(e) => {
            return Err(e);
        },
    }
    let bx = match cpu.get_mem_16(SegmentReg::Ss, sp.wrapping_add(8)) {
        Ok(v) => v,
        Err(e) => {
            return Err(e);
        },
    };
    let dx = match cpu.get_mem_16(SegmentReg::Ss, sp.wrapping_add(10)) {
        Ok(v) => v,
        Err(e) => {
            return Err(e);
        },
    };
    let cx = match cpu.get_mem_16(SegmentReg::Ss, sp.wrapping_add(12)) {
        Ok(v) => v,
        Err(e) => {
            return Err(e);
        },
    };
    let ax = match cpu.get_mem_16(SegmentReg::Ss, sp.wrapping_add(14)) {
        Ok(v) => v,
        Err(e) => {
            return Err(e);
        },
    };
    cpu.set_reg_16(WordReg::General(GeneralWordReg::Di), di);
    cpu.set_reg_16(WordReg::General(GeneralWordReg::Si), si);
    cpu.set_reg_16(WordReg::General(GeneralWordReg::Bp), bp);
    cpu.set_reg_16(WordReg::General(GeneralWordReg::Bx), bx);
    cpu.set_reg_16(WordReg::General(GeneralWordReg::Dx), dx);
    cpu.set_reg_16(WordReg::General(GeneralWordReg::Cx), cx);
    cpu.set_reg_16(WordReg::General(GeneralWordReg::Ax), ax);
    cpu.set_reg_16(WordReg::General(GeneralWordReg::Sp), sp.wrapping_add(16));
    proof {
        assert(cpu@ =~= spec_popa(old(cpu)@));
    }
    Ok(())
}

/// PUSH then POP round-trips: with SS:SP on writable RAM, the popped
/// word is the pushed one and SP returns to its starting value.
pub proof fn lemma_push_pop(c: CpuV, v: u16)
    requires
        c.wf(),
        0 <= c.lin(SegmentReg::Ss, c.wreg(GeneralWordReg::Sp).wrapping_sub(2)) < c.ram_len,
        0 <= c.lin(
            SegmentReg::Ss,
            c.wreg(GeneralWordReg::Sp).wrapping_sub(2).wrapping_add(1),
        ) < c.ram_len,
    ensures
        c.spec_push16(v).pop_ok(),
        c.spec_push16(v).pop_val() == v,
        c.spec_push16(v).spec_pop16().wreg(GeneralWordReg::Sp) == c.wreg(GeneralWordReg::Sp),
{
    let sp = c.wreg(GeneralWordReg::Sp);
    let sp2 = sp.wrapping_sub(2);
    lemma_wr16_rd16(c, SegmentReg::Ss, sp2, v);
    vstd::arithmetic::div_mod::lemma_fundamental_div_mod(sp2 as int, 256);
    vstd::arithmetic::div_mod::lemma_fundamental_div_mod(sp2.wrapping_add(2) as int, 256);
    assert(c.spec_push16(v).wreg(GeneralWordReg::Sp) == sp2);
    assert(c.spec_push16(v).pop_val() == v);
}

} // verus!
