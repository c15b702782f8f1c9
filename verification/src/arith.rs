//! Arithmetic and logical instruction semantics: ADD, ADC, XOR and CMP
//! in their byte and word forms, each routed through the shared flags
//! engine.

use vstd::prelude::*;

use crate::cpu::{Cpu, CpuErr};
use crate::flags::{flag_cf, flags16, flags8, FlagOp};
use crate::modrm::{rm_acc16, rm_acc8, rm_is_byte, rm_is_word, rm_store16, rm_store8, rm_val16, rm_val8, RegMem};
use crate::regs::{GeneralByteReg, GeneralWordReg};

verus! {

/// ADD r/m8, r8 (opcode 0x00).
pub fn add_rm8_r8(cpu: &mut Cpu, rm: RegMem, reg: GeneralByteReg) -> (r: Result<(), CpuErr>)
    requires
        old(cpu).wf(),
        rm_is_byte(rm),
    ensures
        final(cpu).wf(),
        ({
            let a = rm_val8(rm, old(cpu)@);
            let b = old(cpu)@.breg(reg);
            let s = ((a + b) % 256) as u8;
            &&& rm_acc8(rm, old(cpu)@) ==> r == Ok::<(), CpuErr>(()) && final(cpu)@ == rm_store8(
                rm,
                old(cpu)@,
                s,
            ).with_flags(flags8(old(cpu)@.flags, FlagOp::Add, a, b, false, s))
            &&& !rm_acc8(rm, old(cpu)@) ==> r is Err && final(cpu)@ == old(cpu)@
        }),
{
    let a = match rm.get_8(cpu) {
        Ok(v) => v,
        Err(e) => {
            return Err(e);
        },
    };
    let b = cpu.get_reg_8(reg);
    let s = a.wrapping_add(b);
    match rm.set_8(cpu, s) {
        Ok(()) => {},
        Err(e) => {
            return Err(e);
        },
    }
    cpu.set_flags_arith8(FlagOp::Add, a, b, false, s);
    proof {
        assert(cpu@ =~= rm_store8(rm, old(cpu)@, s).with_flags(
            flags8(old(cpu)@.flags, FlagOp::Add, a, b, false, s),
        ));
    }
    Ok(())
}

/// ADD r16, r/m16 (opcode 0x03).
pub fn add_r16_rm16(cpu: &mut Cpu, reg: GeneralWordReg, rm: RegMem) -> (r: Result<(), CpuErr>)
    requires
        old(cpu).wf(),
        rm_is_word(rm),
    ensures
        final(cpu).wf(),
        ({
            let a = old(cpu)@.wreg(reg);
            let b = rm_val16(rm, old(cpu)@);
            let s = ((a + b) % 0x10000) as u16;
            &&& rm_acc16(rm, old(cpu)@) ==> r == Ok::<(), CpuErr>(()) && final(cpu)@ == old(
                cpu,
            )@.with_wreg(reg, s).with_flags(
                flags16(old(cpu)@.flags, FlagOp::Add, a, b, false, s),
            )
            &&& !rm_acc16(rm, old(cpu)@) ==> r is Err && final(cpu)@ == old(cpu)@
        }),
{
    let b = match rm.get_16(cpu) {
        Ok(v) => v,
        Err(e) => {
            return Err(e);
        },
    };
    let a = cpu.get_reg_16(crate::regs::WordReg::General(reg));
    let s = a.wrapping_add(b);
    cpu.set_reg_16(crate::regs::WordReg::General(reg), s);
    cpu.set_flags_arith16(FlagOp::Add, a, b, false, s);
    proof {
        assert(cpu@ =~= old(cpu)@.with_wreg(reg, s).with_flags(
            flags16(old(cpu)@.flags, FlagOp::Add, a, b, false, s),
        ));
    }
    Ok(())
}

/// ADD AX, imm16 (opcode 0x05).
pub fn add_ax_imm16(cpu: &mut Cpu, imm: u16)
    requires
        old(cpu).wf(),
    ensures
        final(cpu).wf(),
        ({
            let a = old(cpu)@.wreg(GeneralWordReg::Ax);
            let s = ((a + imm) % 0x10000) as u16;
            final(cpu)@ == old(cpu)@.with_wreg(GeneralWordReg::Ax, s).with_flags(
                flags16(old(cpu)@.flags, FlagOp::Add, a, imm, false, s),
            )
        }),
{
    let a = cpu.get_reg_16(crate::regs::WordReg::General(GeneralWordReg::Ax));
    let s = a.wrapping_add(imm);
    cpu.set_reg_16(crate::regs::WordReg::General(GeneralWordReg::Ax), s);
    cpu.set_flags_arith16(FlagOp::Add, a, imm, false, s);
    proof {
        assert(cpu@ =~= old(cpu)@.with_wreg(GeneralWordReg::Ax, s).with_flags(
            flags16(old(cpu)@.flags, FlagOp::Add, a, imm, false, s),
        ));
    }
}

/// ADC AX, imm16 (opcode 0x15): addition with the carry flag as carry-in.
pub fn adc_ax_imm16(cpu: &mut Cpu, imm: u16)
    requires
        old(cpu).wf(),
    ensures
        final(cpu).wf(),
        ({
            let a = old(cpu)@.wreg(GeneralWordReg::Ax);
            let cin = flag_cf(old(cpu)@.flags);
            let s = ((a + imm + (if cin { 1int } else { 0int })) % 0x10000) as u16;
            final(cpu)@ == old(cpu)@.with_wreg(GeneralWordReg::Ax, s).with_flags(
                flags16(old(cpu)@.flags, FlagOp::Add, a, imm, cin, s),
            )
        }),
{
    let a = cpu.get_reg_16(crate::regs::WordReg::General(GeneralWordReg::Ax));
    let cin = cpu.flags & 0x0001 != 0;
    let s = a.wrapping_add(imm).wrapping_add(if cin { 1 } else { 0 });
    cpu.set_reg_16(crate::regs::WordReg::General(GeneralWordReg::Ax), s);
    cpu.set_flags_arith16(FlagOp::Add, a, imm, cin, s);
    proof {
        assert(cpu@ =~= old(cpu)@.with_wreg(GeneralWordReg::Ax, s).with_flags(
            flags16(old(cpu)@.flags, FlagOp::Add, a, imm, cin, s),
        ));
    }
}

/// XOR r/m16, r16 (opcode 0x31): CF and OF cleared, AF zeroed, the other
/// arithmetic flags derived from the result.
pub fn xor_rm16_r16(cpu: &mut Cpu, rm: RegMem, reg: GeneralWordReg) -> (r: Result<(), CpuErr>)
    requires
        old(cpu).wf(),
        rm_is_word(rm),
    ensures
        final(cpu).wf(),
        ({
            let a = rm_val16(rm, old(cpu)@);
            let b = old(cpu)@.wreg(reg);
            let s = a ^ b;
            &&& rm_acc16(rm, old(cpu)@) ==> r == Ok::<(), CpuErr>(()) && final(cpu)@ == rm_store16(
                rm,
                old(cpu)@,
                s,
            ).with_flags(flags16(old(cpu)@.flags, FlagOp::Logic, a, b, false, s))
            &&& !rm_acc16(rm, old(cpu)@) ==> r is Err && final(cpu)@ == old(cpu)@
        }),
{
    let a = match rm.get_16(cpu) {
        Ok(v) => v,
        Err(e) => {
            return Err(e);
        },
    };
    let b = cpu.get_reg_16(crate::regs::WordReg::General(reg));
    let s = a ^ b;
    match rm.set_16(cpu, s) {
        Ok(()) => {},
        Err(e) => {
            return Err(e);
        },
    }
    cpu.set_flags_arith16(FlagOp::Logic, a, b, false, s);
    proof {
        assert(cpu@ =~= rm_store16(rm, old(cpu)@, s).with_flags(
            flags16(old(cpu)@.flags, FlagOp::Logic, a, b, false, s),
        ));
    }
    Ok(())
}

/// CMP AL, imm8 (opcode 0x3C): subtraction for flags only.
pub fn cmp_al_imm8(cpu: &mut Cpu, imm: u8)
    requires
        old(cpu).wf(),
    ensures
        final(cpu).wf(),
        ({
            let a = old(cpu)@.breg(GeneralByteReg::Al);
            let s = (((a - imm) % 256 + 256) % 256) as u8;
            final(cpu)@ == old(cpu)@.with_flags(
                flags8(old(cpu)@.flags, FlagOp::Sub, a, imm, false, s),
            )
        }),
{
    let a = cpu.get_reg_8(GeneralByteReg::Al);
    let s = a.wrapping_sub(imm);
    cpu.set_flags_arith8(FlagOp::Sub, a, imm, false, s);
    proof {
        assert(cpu@ =~= old(cpu)@.with_flags(
            flags8(old(cpu)@.flags, FlagOp::Sub, a, imm, false, s),
        ));
    }
}

/// CMP AX, imm16 (opcode 0x3D): subtraction for flags only.
pub fn cmp_ax_imm16(cpu: &mut Cpu, imm: u16)
    requires
        old(cpu).wf(),
    ensures
        final(cpu).wf(),
        ({
            let a = old(cpu)@.wreg(GeneralWordReg::Ax);
            let s = (((a - imm) % 0x10000 + 0x10000) % 0x10000) as u16;
            final(cpu)@ == old(cpu)@.with_flags(
                flags16(old(cpu)@.flags, FlagOp::Sub, a, imm, false, s),
            )
        }),
{
    let a = cpu.get_reg_16(crate::regs::WordReg::General(GeneralWordReg::Ax));
    let s = a.wrapping_sub(imm);
    cpu.set_flags_arith16(FlagOp::Sub, a, imm, false, s);
    proof {
        assert(cpu@ =~= old(cpu)@.with_flags(
            flags16(old(cpu)@.flags, FlagOp::Sub, a, imm, false, s),
        ));
    }
}

/// CMP r/m8, imm8 (opcode 0x80 /7): subtraction for flags only, the
/// destination unchanged.
pub fn cmp_rm8_imm8(cpu: &mut Cpu, rm: RegMem, imm: u8) -> (r: Result<(), CpuErr>)
    requires
        old(cpu).wf(),
        rm_is_byte(rm),
    ensures
        final(cpu).wf(),
        ({
            let a = rm_val8(rm, old(cpu)@);
            let s = (((a - imm) % 256 + 256) % 256) as u8;
            &&& rm_acc8(rm, old(cpu)@) ==> r == Ok::<(), CpuErr>(()) && final(cpu)@ == old(
                cpu,
            )@.with_flags(flags8(old(cpu)@.flags, FlagOp::Sub, a, imm, false, s))
            &&& !rm_acc8(rm, old(cpu)@) ==> r is Err && final(cpu)@ == old(cpu)@
        }),
{
    let a = match rm.get_8(cpu) {
        Ok(v) => v,
        Err(e) => {
            return Err(e);
        },
    };
    let s = a.wrapping_sub(imm);
    cpu.set_flags_arith8(FlagOp::Sub, a, imm, false, s);
    proof {
        assert(cpu@ =~= old(cpu)@.with_flags(
            flags8(old(cpu)@.flags, FlagOp::Sub, a, imm, false, s),
        ));
    }
    Ok(())
}

/// ADD r/m16, imm8 (opcode 0x83 /0): the byte immediate is sign-extended
/// to 16 bits before the addition.
pub fn add_rm16_imm8(cpu: &mut Cpu, rm: RegMem, imm: u8) -> (r: Result<(), CpuErr>)
    requires
        old(cpu).wf(),
        rm_is_word(rm),
    ensures
        final(cpu).wf(),
        ({
            let a = rm_val16(rm, old(cpu)@);
            let b = crate::regs::sign_extend8(imm);
            let s = ((a + b) % 0x10000) as u16;
            &&& rm_acc16(rm, old(cpu)@) ==> r == Ok::<(), CpuErr>(()) && final(cpu)@ == rm_store16(
                rm,
                old(cpu)@,
                s,
            ).with_flags(flags16(old(cpu)@.flags, FlagOp::Add, a, b, false, s))
            &&& !rm_acc16(rm, old(cpu)@) ==> r is Err && final(cpu)@ == old(cpu)@
        }),
{
    let a = match rm.get_16(cpu) {
        Ok(v) => v,
        Err(e) => {
            return Err(e);
        },
    };
    let b = crate::regs::sext8(imm);
    let s = a.wrapping_add(b);
    match rm.set_16(cpu, s) {
        Ok(()) => {},
        Err(e) => {
            return Err(e);
        },
    }
    cpu.set_flags_arith16(FlagOp::Add, a, b, false, s);
    proof {
        assert(cpu@ =~= rm_store16(rm, old(cpu)@, s).with_flags(
            flags16(old(cpu)@.flags, FlagOp::Add, a, b, false, s),
        ));
    }
    Ok(())
}

/// XOR of a register with itself always zeroes it and leaves
/// `ZF = 1`, `CF = 0`, `OF = 0`, `SF = 0`, `PF = 1`.
pub proof fn lemma_xor_same(f: u16, a: u16)
    ensures
        a ^ a == 0,
        crate::flags::flag_zf(flags16(f, FlagOp::Logic, a, a, false, (a ^ a) as u16)),
        !crate::flags::flag_cf(flags16(f, FlagOp::Logic, a, a, false, (a ^ a) as u16)),
        !crate::flags::flag_of(flags16(f, FlagOp::Logic, a, a, false, (a ^ a) as u16)),
        !crate::flags::flag_sf(flags16(f, FlagOp::Logic, a, a, false, (a ^ a) as u16)),
        crate::flags::flag_pf(flags16(f, FlagOp::Logic, a, a, false, (a ^ a) as u16)),
{
    assert(a ^ a == 0) by (bit_vector);
    crate::flags::lemma_flags16_bits(f, FlagOp::Logic, a, a, false, 0);
    assert(crate::flags::spec_pf(0u16 as u8)) by (bit_vector);
    assert(0u16 & 0x8000 == 0) by (bit_vector);
}

} // verus!
