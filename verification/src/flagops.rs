//! FLAGS instruction semantics: PUSHF, POPF, SAHF, LAHF, and the
//! single-flag controls CMC, CLC, STC, CLI, STI, CLD and STD.

use vstd::prelude::*;

use crate::cpu::{Cpu, CpuErr, CpuV};
use crate::flags::{flag_af, flag_cf, flag_pf, flag_sf, flag_zf};
use crate::regs::{GeneralByteReg, GeneralWordReg, SegmentReg};

verus! {

/// PUSHF (opcode 0x9C): pushes FLAGS as a single word.
pub fn pushf(cpu: &mut Cpu) -> (r: Result<(), CpuErr>)
    requires
        old(cpu).wf(),
    ensures
        final(cpu).wf(),
        old(cpu)@.push_ok() ==> r == Ok::<(), CpuErr>(()) && final(cpu)@ == old(
            cpu,
        )@.spec_push16(old(cpu)@.flags),
        !old(cpu)@.push_ok() ==> r is Err,
{
    let f = cpu.flags;
    cpu.push16(f)
}

/// POPF (opcode 0x9D): pops a word into FLAGS.
pub fn popf(cpu: &mut Cpu) -> (r: Result<(), CpuErr>)
    requires
        old(cpu).wf(),
    ensures
        final(cpu).wf(),
        old(cpu)@.pop_ok() ==> r == Ok::<(), CpuErr>(()) && final(cpu)@ == old(
            cpu,
        )@.spec_pop16().with_flags(old(cpu)@.pop_val()),
        !old(cpu)@.pop_ok() ==> r is Err && final(cpu)@ == old(cpu)@,
{
    let f = match cpu.pop16() {
        Ok(v) => v,
        Err(e) => {
            return Err(e);
        },
    };
    cpu.flags = f;
    proof {
        assert(cpu@ =~= old(cpu)@.spec_pop16().with_flags(old(cpu)@.pop_val()));
    }
    Ok(())
}

/// The FLAGS word SAHF produces: CF, PF, AF, ZF and SF are copied from
/// AH, every other bit is preserved.
pub open spec fn spec_sahf(f: u16, ah: u8) -> u16 {
    (f & !0x00D5) | ((ah as u16) & 0x00D5)
}

/// SAHF (opcode 0x9E).
pub fn sahf(cpu: &mut Cpu)
    requires
        old(cpu).wf(),
    ensures
        final(cpu).wf(),
        final(cpu)@ == old(cpu)@.with_flags(
            spec_sahf(old(cpu)@.flags, old(cpu)@.breg(GeneralByteReg::Ah)),
        ),
{
    let ah = cpu.get_reg_8(GeneralByteReg::Ah);
    cpu.flags = (cpu.flags & !0x00D5) | ((ah as u16) & 0x00D5);
    proof {
        assert(cpu@ =~= old(cpu)@.with_flags(
            spec_sahf(old(cpu)@.flags, old(cpu)@.breg(GeneralByteReg::Ah)),
        ));
    }
}

/// LAHF (opcode 0x9F): copies the low byte of FLAGS into AH.
pub fn lahf(cpu: &mut Cpu)
    requires
        old(cpu).wf(),
    ensures
        final(cpu).wf(),
        final(cpu)@ == old(cpu)@.with_breg(GeneralByteReg::Ah, (old(cpu)@.flags & 0xFF) as u8),
{
    let f = cpu.flags;
    cpu.set_reg_8(GeneralByteReg::Ah, (f & 0xFF) as u8);
}

/// LAHF then SAHF restores every flag bit SAHF covers: with AH loaded
/// from FLAGS, storing it back reproduces the FLAGS word it started from.
pub proof fn lemma_lahf_sahf(f: u16)
    ensures
        spec_sahf(f, (f & 0xFF) as u8) == f,
        flag_cf(spec_sahf(f, (f & 0xFF) as u8)) == flag_cf(f),
        flag_pf(spec_sahf(f, (f & 0xFF) as u8)) == flag_pf(f),
        flag_af(spec_sahf(f, (f & 0xFF) as u8)) == flag_af(f),
        flag_zf(spec_sahf(f, (f & 0xFF) as u8)) == flag_zf(f),
        flag_sf(spec_sahf(f, (f & 0xFF) as u8)) == flag_sf(f),
{
    assert((f & !0x00D5) | ((((f & 0xFF) as u8) as u16) & 0x00D5) == f) by (bit_vector);
}

/// PUSHF then POPF is a no-op on FLAGS: with SS:SP on writable RAM, the
/// FLAGS word popped back is exactly the one pushed, and SP returns to
/// its starting value.
pub proof fn lemma_pushf_popf(c: CpuV)
    requires
        c.wf(),
        0 <= c.lin(SegmentReg::Ss, c.wreg(GeneralWordReg::Sp).wrapping_sub(2)) < c.ram_len,
        0 <= c.lin(
            SegmentReg::Ss,
            c.wreg(GeneralWordReg::Sp).wrapping_sub(2).wrapping_add(1),
        ) < c.ram_len,
    ensures
        c.spec_push16(c.flags).pop_ok(),
        c.spec_push16(c.flags).spec_pop16().with_flags(
            c.spec_push16(c.flags).pop_val(),
        ).flags == c.flags,
        c.spec_push16(c.flags).spec_pop16().wreg(GeneralWordReg::Sp) == c.wreg(
            GeneralWordReg::Sp,
        ),
{
    crate::stack::lemma_push_pop(c, c.flags);
}

/// CMC (opcode 0xF5): complements the carry flag.
pub fn cmc(cpu: &mut Cpu)
    requires
        old(cpu).wf(),
    ensures
        final(cpu).wf(),
        final(cpu)@ == old(cpu)@.with_flags(old(cpu)@.flags ^ 0x0001),
{
    cpu.flags = cpu.flags ^ 0x0001;
    proof {
        assert(cpu@ =~= old(cpu)@.with_flags(old(cpu)@.flags ^ 0x0001));
    }
}

/// CLC (opcode 0xF8): clears the carry flag.
pub fn clc(cpu: &mut Cpu)
    requires
        old(cpu).wf(),
    ensures
        final(cpu).wf(),
        final(cpu)@ == old(cpu)@.with_flags(old(cpu)@.flags & !0x0001),
{
    cpu.flags = cpu.flags & !0x0001;
    proof {
        assert(cpu@ =~= old(cpu)@.with_flags(old(cpu)@.flags & !0x0001));
    }
}

/// STC (opcode 0xF9): sets the carry flag.
pub fn stc(cpu: &mut Cpu)
    requires
        old(cpu).wf(),
    ensures
        final(cpu).wf(),
        final(cpu)@ == old(cpu)@.with_flags(old(cpu)@.flags | 0x0001),
{
    cpu.flags = cpu.flags | 0x0001;
    proof {
        assert(cpu@ =~= old(cpu)@.with_flags(old(cpu)@.flags | 0x0001));
    }
}

/// CLI (opcode 0xFA): clears the interrupt-enable flag.
pub fn cli(cpu: &mut Cpu)
    requires
        old(cpu).wf(),
    ensures
        final(cpu).wf(),
        final(cpu)@ == old(cpu)@.with_flags(old(cpu)@.flags & !0x0200),
{
    cpu.flags = cpu.flags & !0x0200;
    proof {
        assert(cpu@ =~= old(cpu)@.with_flags(old(cpu)@.flags & !0x0200));
    }
}

/// STI (opcode 0xFB): sets the interrupt-enable flag.
pub fn sti(cpu: &mut Cpu)
    requires
        old(cpu).wf(),
    ensures
        final(cpu).wf(),
        final(cpu)@ == old(cpu)@.with_flags(old(cpu)@.flags | 0x0200),
{
    cpu.flags = cpu.flags | 0x0200;
    proof {
        assert(cpu@ =~= old(cpu)@.with_flags(old(cpu)@.flags | 0x0200));
    }
}

/// CLD (opcode 0xFC): clears the direction flag.
pub fn cld(cpu: &mut Cpu)
    requires
        old(cpu).wf(),
    ensures
        final(cpu).wf(),
        final(cpu)@ == old(cpu)@.with_flags(old(cpu)@.flags & !0x0400),
{
    cpu.flags = cpu.flags & !0x0400;
    proof {
        assert(cpu@ =~= old(cpu)@.with_flags(old(cpu)@.flags & !0x0400));
    }
}

/// STD (opcode 0xFD): sets the direction flag.
pub fn setd(cpu: &mut Cpu)
    requires
        old(cpu).wf(),
    ensures
        final(cpu).wf(),
        final(cpu)@ == old(cpu)@.with_flags(old(cpu)@.flags | 0x0400),
{
    cpu.flags = cpu.flags | 0x0400;
    proof {
        assert(cpu@ =~= old(cpu)@.with_flags(old(cpu)@.flags | 0x0400));
    }
}

} // verus!
