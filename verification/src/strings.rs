//! String store instruction semantics: STOSB and STOSW, with and
//! without the REP prefix.  The destination segment is architecturally
//! fixed to ES; a segment override does not apply to a string store.

use vstd::prelude::*;

use crate::cpu::{Cpu, CpuErr, CpuV};
use crate::flags::flag_df;
use crate::regs::{GeneralByteReg, GeneralWordReg, SegmentReg, WordReg};

verus! {

/// Whether one byte store at ES:DI stays on mapped memory.
pub open spec fn stos8_ok(c: CpuV) -> bool {
    c.acc8(SegmentReg::Es, c.wreg(GeneralWordReg::Di))
}

/// The state after one STOSB step: AL stored at ES:DI, then DI moved by
/// one in the direction DF chooses.
pub open spec fn stos8_step(c: CpuV) -> CpuV {
    let di = c.wreg(GeneralWordReg::Di);
    c.wr8(SegmentReg::Es, di, c.breg(GeneralByteReg::Al)).with_wreg(
        GeneralWordReg::Di,
        if flag_df(c.flags) {
            di.wrapping_sub(1)
        } else {
            di.wrapping_add(1)
        },
    )
}

/// `n` STOSB steps with CX decremented after each; `None` when a step
/// would store to unmapped memory.
pub open spec fn rep_stos8(c: CpuV, n: nat) -> Option<CpuV>
    decreases n,
{
    if n == 0 {
        Some(c)
    } else if !stos8_ok(c) {
        None
    } else {
        let c2 = stos8_step(c);
        rep_stos8(c2.with_wreg(GeneralWordReg::Cx, c2.wreg(GeneralWordReg::Cx).wrapping_sub(1)), (
        n - 1) as nat)
    }
}

/// Whether one word store at ES:DI stays on mapped memory.
pub open spec fn stos16_ok(c: CpuV) -> bool {
    c.acc16(SegmentReg::Es, c.wreg(GeneralWordReg::Di))
}

/// The state after one STOSW step: AX stored at ES:DI, then DI moved by
/// two in the direction DF chooses.
pub open spec fn stos16_step(c: CpuV) -> CpuV {
    let di = c.wreg(GeneralWordReg::Di);
    c.wr16(SegmentReg::Es, di, c.wreg(GeneralWordReg::Ax)).with_wreg(
        GeneralWordReg::Di,
        if flag_df(c.flags) {
            di.wrapping_sub(2)
        } else {
            di.wrapping_add(2)
        },
    )
}

/// `n` STOSW steps with CX decremented after each; `None` when a step
/// would store to unmapped memory.
pub open spec fn rep_stos16(c: CpuV, n: nat) -> Option<CpuV>
    decreases n,
{
    if n == 0 {
        Some(c)
    } else if !stos16_ok(c) {
        None
    } else {
        let c2 = stos16_step(c);
        rep_stos16(c2.with_wreg(GeneralWordReg::Cx, c2.wreg(GeneralWordReg::Cx).wrapping_sub(1)), (
        n - 1) as nat)
    }
}

/// STOSB (opcode 0xAA).  Without REP it performs one step; with REP it
/// repeats while CX is nonzero, decrementing CX after each step, and
/// leaves CX at zero.
#[verifier::loop_isolation(false)]
pub fn stosb(cpu: &mut Cpu, rep: bool) -> (r: Result<(), CpuErr>)
    requires
        old(cpu).wf(),
    ensures
        final(cpu).wf(),
        !rep ==> {
            &&& stos8_ok(old(cpu)@) ==> r == Ok::<(), CpuErr>(()) && final(cpu)@ == stos8_step(
                old(cpu)@,
            )
            &&& !stos8_ok(old(cpu)@) ==> r is Err && final(cpu)@ == old(cpu)@
        },
        rep ==> {
            &&& rep_stos8(old(cpu)@, old(cpu)@.wreg(GeneralWordReg::Cx) as nat) matches Some(c)
                ==> r == Ok::<(), CpuErr>(()) && final(cpu)@ == c && final(cpu)@.wreg(
                GeneralWordReg::Cx,
            ) == 0
            &&& rep_stos8(old(cpu)@, old(cpu)@.wreg(GeneralWordReg::Cx) as nat) is None ==> r
                is Err
        },
        final(cpu)@.segs == old(cpu)@.segs,
        final(cpu)@.flags == old(cpu)@.flags,
        final(cpu)@.ip == old(cpu)@.ip,
{
    if !rep {
        return stosb_once(cpu);
    }
    let mut cx = cpu.get_reg_16(WordReg::General(GeneralWordReg::Cx));
    while cx != 0
        invariant
            cpu.wf(),
            cx == cpu@.wreg(GeneralWordReg::Cx),
            rep_stos8(old(cpu)@, old(cpu)@.wreg(GeneralWordReg::Cx) as nat) == rep_stos8(
                cpu@,
                cx as nat,
            ),
            cpu@.segs == old(cpu)@.segs,
            cpu@.flags == old(cpu)@.flags,
            cpu@.ip == old(cpu)@.ip,
        decreases cx,
    {
        let ghost pre = cpu@;
        match stosb_once(cpu) {
            Ok(()) => {},
            Err(e) => {
                return Err(e);
            },
        }
        cpu.set_reg_16(WordReg::General(GeneralWordReg::Cx), cx - 1);
        cx = cx - 1;
        proof {
            assert(cpu@ =~= ({
                let c2 = stos8_step(pre);
                c2.with_wreg(GeneralWordReg::Cx, c2.wreg(GeneralWordReg::Cx).wrapping_sub(1))
            }));
        }
    }
    Ok(())
}

/// One STOSB step.
pub fn stosb_once(cpu: &mut Cpu) -> (r: Result<(), CpuErr>)
    requires
        old(cpu).wf(),
    ensures
        final(cpu).wf(),
        stos8_ok(old(cpu)@) ==> r == Ok::<(), CpuErr>(()) && final(cpu)@ == stos8_step(old(cpu)@),
        !stos8_ok(old(cpu)@) ==> r is Err && final(cpu)@ == old(cpu)@,
{
    let di = cpu.get_reg_16(WordReg::General(GeneralWordReg::Di));
    let al = cpu.get_reg_8(GeneralByteReg::Al);
    match cpu.set_mem_8(SegmentReg::Es, di, al) {
        Ok(()) => {},
        Err(e) => {
            return Err(e);
        },
    }
    let down = cpu.flags & 0x0400 != 0;
    let newdi = if down {
        di.wrapping_sub(1)
    } else {
        di.wrapping_add(1)
    };
    cpu.set_reg_16(WordReg::General(GeneralWordReg::Di), newdi);
    proof {
        assert(cpu@ =~= stos8_step(old(cpu)@));
    }
    Ok(())
}

/// STOSW (opcode 0xAB), the word counterpart of STOSB.
#[verifier::loop_isolation(false)]
pub fn stosw(cpu: &mut Cpu, rep: bool) -> (r: Result<(), CpuErr>)
    requires
        old(cpu).wf(),
    ensures
        final(cpu).wf(),
        !rep ==> {
            &&& stos16_ok(old(cpu)@) ==> r == Ok::<(), CpuErr>(()) && final(cpu)@ == stos16_step(
                old(cpu)@,
            )
            &&& !stos16_ok(old(cpu)@) ==> r is Err && final(cpu)@ == old(cpu)@
        },
        rep ==> {
            &&& rep_stos16(old(cpu)@, old(cpu)@.wreg(GeneralWordReg::Cx) as nat) matches Some(c)
                ==> r == Ok::<(), CpuErr>(()) && final(cpu)@ == c && final(cpu)@.wreg(
                GeneralWordReg::Cx,
            ) == 0
            &&& rep_stos16(old(cpu)@, old(cpu)@.wreg(GeneralWordReg::Cx) as nat) is None ==> r
                is Err
        },
        final(cpu)@.segs == old(cpu)@.segs,
        final(cpu)@.flags == old(cpu)@.flags,
        final(cpu)@.ip == old(cpu)@.ip,
{
    if !rep {
        return stosw_once(cpu);
    }
    let mut cx = cpu.get_reg_16(WordReg::General(GeneralWordReg::Cx));
    while cx != 0
        invariant
            cpu.wf(),
            cx == cpu@.wreg(GeneralWordReg::Cx),
            rep_stos16(old(cpu)@, old(cpu)@.wreg(GeneralWordReg::Cx) as nat) == rep_stos16(
                cpu@,
                cx as nat,
            ),
            cpu@.segs == old(cpu)@.segs,
            cpu@.flags == old(cpu)@.flags,
            cpu@.ip == old(cpu)@.ip,
        decreases cx,
    {
        let ghost pre = cpu@;
        match stosw_once(cpu) {
            Ok(()) => {},
            Err(e) => {
                return Err(e);
            },
        }
        cpu.set_reg_16(WordReg::General(GeneralWordReg::Cx), cx - 1);
        cx = cx - 1;
        proof {
            assert(cpu@ =~= ({
                let c2 = stos16_step(pre);
                c2.with_wreg(GeneralWordReg::Cx, c2.wreg(GeneralWordReg::Cx).wrapping_sub(1))
            }));
        }
    }
    Ok(())
}

/// One STOSW step.
pub fn stosw_once(cpu: &mut Cpu) -> (r: Result<(), CpuErr>)
    requires
        old(cpu).wf(),
    ensures
        final(cpu).wf(),
        stos16_ok(old(cpu)@) ==> r == Ok::<(), CpuErr>(()) && final(cpu)@ == stos16_step(
            old(cpu)@,
        ),
        !stos16_ok(old(cpu)@) ==> r is Err && final(cpu)@ == old(cpu)@,
{
    let di = cpu.get_reg_16(WordReg::General(GeneralWordReg::Di));
    let ax = cpu.get_reg_16(WordReg::General(GeneralWordReg::Ax));
    match cpu.set_mem_16(SegmentReg::Es, di, ax) {
        Ok(()) => {},
        Err(e) => {
            return Err(e);
        },
    }
    let down = cpu.flags & 0x0400 != 0;
    let newdi = if down {
        di.wrapping_sub(2)
    } else {
        di.wrapping_add(2)
    };
    cpu.set_reg_16(WordReg::General(GeneralWordReg::Di), newdi);
    proof {
        assert(cpu@ =~= stos16_step(old(cpu)@));
    }
    Ok(())
}

} // verus!
