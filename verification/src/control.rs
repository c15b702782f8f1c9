//! Control-flow instruction semantics: near CALL and RET, the far JMP,
//! JCXZ, and the ENTER frame setup.

use vstd::prelude::*;

use crate::cpu::{Cpu, CpuErr, CpuV};
use crate::regs::{sign_extend8, GeneralWordReg, SegmentReg, WordReg};

verus! {

/// RET (opcode 0xC3): near return, popping IP.
pub fn ret(cpu: &mut Cpu) -> (r: Result<(), CpuErr>)
    requires
        old(cpu).wf(),
    ensures
        final(cpu).wf(),
        old(cpu)@.pop_ok() ==> r == Ok::<(), CpuErr>(()) && final(cpu)@ == old(
            cpu,
        )@.spec_pop16().with_ip(old(cpu)@.pop_val()),
        !old(cpu)@.pop_ok() ==> r is Err && final(cpu)@ == old(cpu)@,
{
    let target = match cpu.pop16() {
        Ok(v) => v,
        Err(e) => {
            return Err(e);
        },
    };
    cpu.ip = target;
    proof {
        assert(cpu@ =~= old(cpu)@.spec_pop16().with_ip(old(cpu)@.pop_val()));
    }
    Ok(())
}

/// CALL rel16 (opcode 0xE8): pushes the IP of the next instruction, then
/// moves IP by the relative word, wrapping.
pub fn call_rel16(cpu: &mut Cpu, rel: u16) -> (r: Result<(), CpuErr>)
    requires
        old(cpu).wf(),
    ensures
        final(cpu).wf(),
        old(cpu)@.push_ok() ==> r == Ok::<(), CpuErr>(()) && final(cpu)@ == old(
            cpu,
        )@.spec_push16(old(cpu)@.ip).with_ip(old(cpu)@.ip.wrapping_add(rel)),
        !old(cpu)@.push_ok() ==> r is Err,
        final(cpu)@.segs == old(cpu)@.segs,
        final(cpu)@.flags == old(cpu)@.flags,
{
    let ip = cpu.ip;
    match cpu.push16(ip) {
        Ok(()) => {},
        Err(e) => {
            return Err(e);
        },
    }
    cpu.ip = ip.wrapping_add(rel);
    proof {
        assert(cpu@ =~= old(cpu)@.spec_push16(old(cpu)@.ip).with_ip(
            old(cpu)@.ip.wrapping_add(rel),
        ));
    }
    Ok(())
}

/// JCXZ (opcode 0xE3): a short jump taken exactly when CX is zero.
pub fn jcxz(cpu: &mut Cpu, disp: u8)
    requires
        old(cpu).wf(),
    ensures
        final(cpu).wf(),
        old(cpu)@.wreg(GeneralWordReg::Cx) == 0 ==> final(cpu)@ == old(cpu)@.with_ip(
            old(cpu)@.ip.wrapping_add(sign_extend8(disp)),
        ),
        old(cpu)@.wreg(GeneralWordReg::Cx) != 0 ==> final(cpu)@ == old(cpu)@,
{
    if cpu.get_reg_16(WordReg::General(GeneralWordReg::Cx)) == 0 {
        crate::conditionals::self_jump(cpu, disp);
    }
}

/// JMP ptr16:16 (opcode 0xEA): loads IP then CS from the immediate far
/// pointer.
pub fn jmp_ptr16_16(cpu: &mut Cpu, offset: u16, segment: u16)
    requires
        old(cpu).wf(),
    ensures
        final(cpu).wf(),
        final(cpu)@ == old(cpu)@.with_ip(offset).with_seg(SegmentReg::Cs, segment),
{
    cpu.ip = offset;
    cpu.set_reg_16(WordReg::Segment(SegmentReg::Cs), segment);
    proof {
        assert(cpu@ =~= old(cpu)@.with_ip(offset).with_seg(SegmentReg::Cs, segment));
    }
}

/// One inner iteration of the ENTER nesting walk: BP moves down a word
/// and the saved BP value it now addresses is pushed; `None` when a read
/// or the push would leave mapped memory.
pub open spec fn enter_levels(c: CpuV, n: nat) -> Option<CpuV>
    decreases n,
{
    if n == 0 {
        Some(c)
    } else {
        let bp2 = c.wreg(GeneralWordReg::Bp).wrapping_sub(2);
        if !c.acc16(SegmentReg::Ss, bp2) {
            None
        } else {
            let c1 = c.with_wreg(GeneralWordReg::Bp, bp2);
            if !c1.push_ok() {
                None
            } else {
                enter_levels(c1.spec_push16(c.rd16(SegmentReg::Ss, bp2)), (n - 1) as nat)
            }
        }
    }
}

/// The state ENTER leaves: BP pushed, the frame pointer taken from SP,
/// the nesting levels walked, BP set to the frame pointer and SP lowered
/// by the frame size; `None` when any stack access leaves mapped memory.
pub open spec fn spec_enter(c: CpuV, size: u16, nesting: u8) -> Option<CpuV> {
    let level = nesting % 32;
    if !c.push_ok() {
        None
    } else {
        let c1 = c.spec_push16(c.wreg(GeneralWordReg::Bp));
        let frame = c1.wreg(GeneralWordReg::Sp);
        let after = if level > 0 {
            match enter_levels(c1, (level - 1) as nat) {
                None => None,
                Some(c2) => if !c2.push_ok() {
                    None
                } else {
                    Some(c2.spec_push16(frame))
                },
            }
        } else {
            Some(c1)
        };
        match after {
            None => None,
            Some(c3) => Some(
                c3.with_wreg(GeneralWordReg::Bp, frame).with_wreg(
                    GeneralWordReg::Sp,
                    c3.wreg(GeneralWordReg::Sp).wrapping_sub(size),
                ),
            ),
        }
    }
}

/// ENTER imm16, imm8 (opcode 0xC8): the standard frame setup.  The
/// nesting depth is taken modulo 32, as the architecture masks it to
/// five bits.
#[verifier::loop_isolation(false)]
pub fn enter_imm16_imm8(cpu: &mut Cpu, size: u16, nesting: u8) -> (r: Result<(), CpuErr>)
    requires
        old(cpu).wf(),
    ensures
        final(cpu).wf(),
        spec_enter(old(cpu)@, size, nesting) matches Some(c) ==> r == Ok::<(), CpuErr>(())
            && final(cpu)@ == c,
        spec_enter(old(cpu)@, size, nesting) is None ==> r is Err,
        final(cpu)@.segs == old(cpu)@.segs,
        final(cpu)@.flags == old(cpu)@.flags,
        final(cpu)@.ip == old(cpu)@.ip,
{
    let bp0 = cpu.get_reg_16(WordReg::General(GeneralWordReg::Bp));
    match cpu.push16(bp0) {
        Ok(()) => {},
        Err(e) => {
            return Err(e);
        },
    }
    let ghost c1 = cpu@;
    let frame = cpu.get_reg_16(WordReg::General(GeneralWordReg::Sp));
    let level = nesting % 32;
    if level > 0 {
        let mut i: u8 = 1;
        while i < level
            invariant
                cpu.wf(),
                1 <= i <= level,
                level == nesting % 32,
                enter_levels(c1, (level - 1) as nat) == enter_levels(cpu@, (level - i) as nat),
                cpu@.segs == c1.segs,
                cpu@.flags == c1.flags,
                cpu@.ip == c1.ip,
            decreases level - i,
        {
            let ghost pre = cpu@;
            let bp2 = cpu.get_reg_16(WordReg::General(GeneralWordReg::Bp)).wrapping_sub(2);
            let saved = match cpu.get_mem_16(SegmentReg::Ss, bp2) {
                Ok(v) => v,
                Err(e) => {
                    return Err(e);
                },
            };
            cpu.set_reg_16(WordReg::General(GeneralWordReg::Bp), bp2);
            match cpu.push16(saved) {
                Ok(()) => {},
                Err(e) => {
                    return Err(e);
                },
            }
            proof {
                assert(cpu@ =~= pre.with_wreg(GeneralWordReg::Bp, bp2).spec_push16(
                    pre.rd16(SegmentReg::Ss, bp2),
                ));
            }
            i += 1;
        }
        match cpu.push16(frame) {
            Ok(()) => {},
            Err(e) => {
                return Err(e);
            },
        }
    }
    cpu.set_reg_16(WordReg::General(GeneralWordReg::Bp), frame);
    let sp = cpu.get_reg_16(WordReg::General(GeneralWordReg::Sp));
    cpu.set_reg_16(WordReg::General(GeneralWordReg::Sp), sp.wrapping_sub(size));
    proof {
        assert(spec_enter(old(cpu)@, size, nesting) matches Some(c) && cpu@ =~= c);
    }
    Ok(())
}

} // verus!
