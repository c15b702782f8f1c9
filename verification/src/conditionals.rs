//! Conditional short jumps (opcodes 0x70..=0x7F): if the condition holds
//! of FLAGS, IP moves by the sign-extended byte displacement after the
//! instruction has been fully consumed; otherwise execution falls
//! through.

use vstd::prelude::*;

use crate::cpu::Cpu;
use crate::flags::{flag_cf, flag_of, flag_pf, flag_sf, flag_zf};
use crate::regs::sign_extend8;

verus! {

/// The sixteen jump conditions, in opcode order from 0x70.
#[derive(Clone, Copy, Debug, PartialEq, Eq, Structural)]
pub enum Cond {
    O,
    No,
    C,
    Nc,
    Z,
    Nz,
    Be,
    A,
    S,
    Ns,
    P,
    Np,
    L,
    Ge,
    Le,
    G,
}

/// Whether a condition holds of a FLAGS word.
pub open spec fn cond_holds(c: Cond, f: u16) -> bool {
    match c {
        Cond::O => flag_of(f),
        Cond::No => !flag_of(f),
        Cond::C => flag_cf(f),
        Cond::Nc => !flag_cf(f),
        Cond::Z => flag_zf(f),
        Cond::Nz => !flag_zf(f),
        Cond::Be => flag_cf(f) || flag_zf(f),
        Cond::A => !(flag_cf(f) || flag_zf(f)),
        Cond::S => flag_sf(f),
        Cond::Ns => !flag_sf(f),
        Cond::P => flag_pf(f),
        Cond::Np => !flag_pf(f),
        Cond::L => flag_sf(f) != flag_of(f),
        Cond::Ge => flag_sf(f) == flag_of(f),
        Cond::Le => flag_zf(f) || (flag_sf(f) != flag_of(f)),
        Cond::G => !(flag_zf(f) || (flag_sf(f) != flag_of(f))),
    }
}

/// The negation of a condition: the paired opcode one higher or lower.
pub open spec fn negate_cond(c: Cond) -> Cond {
    match c {
        Cond::O => Cond::No,
        Cond::No => Cond::O,
        Cond::C => Cond::Nc,
        Cond::Nc => Cond::C,
        Cond::Z => Cond::Nz,
        Cond::Nz => Cond::Z,
        Cond::Be => Cond::A,
        Cond::A => Cond::Be,
        Cond::S => Cond::Ns,
        Cond::Ns => Cond::S,
        Cond::P => Cond::Np,
        Cond::Np => Cond::P,
        Cond::L => Cond::Ge,
        Cond::Ge => Cond::L,
        Cond::Le => Cond::G,
        Cond::G => Cond::Le,
    }
}

/// Replacing a condition with its negation flips taken and not-taken
/// for every FLAGS value.
pub proof fn lemma_cond_negation(c: Cond, f: u16)
    ensures
        cond_holds(negate_cond(c), f) == !cond_holds(c, f),
{
}

/// Evaluates a condition against a FLAGS word.
pub fn cond_eval(c: Cond, f: u16) -> (b: bool)
    ensures
        b == cond_holds(c, f),
{
    match c {
        Cond::O => f & 0x0800 != 0,
        Cond::No => f & 0x0800 == 0,
        Cond::C => f & 0x0001 != 0,
        Cond::Nc => f & 0x0001 == 0,
        Cond::Z => f & 0x0040 != 0,
        Cond::Nz => f & 0x0040 == 0,
        Cond::Be => (f & 0x0001 != 0) || (f & 0x0040 != 0),
        Cond::A => !((f & 0x0001 != 0) || (f & 0x0040 != 0)),
        Cond::S => f & 0x0080 != 0,
        Cond::Ns => f & 0x0080 == 0,
        Cond::P => f & 0x0004 != 0,
        Cond::Np => f & 0x0004 == 0,
        Cond::L => (f & 0x0080 != 0) != (f & 0x0800 != 0),
        Cond::Ge => (f & 0x0080 != 0) == (f & 0x0800 != 0),
        Cond::Le => (f & 0x0040 != 0) || ((f & 0x0080 != 0) != (f & 0x0800 != 0)),
        Cond::G => !((f & 0x0040 != 0) || ((f & 0x0080 != 0) != (f & 0x0800 != 0))),
    }
}

/// A conditional short jump: taken exactly when the condition holds of
/// FLAGS, moving IP by the sign-extended displacement.
pub fn jcond(cpu: &mut Cpu, cond: Cond, disp: u8)
    requires
        old(cpu).wf(),
    ensures
        final(cpu).wf(),
        cond_holds(cond, old(cpu)@.flags) ==> final(cpu)@ == old(cpu)@.with_ip(
            old(cpu)@.ip.wrapping_add(sign_extend8(disp)),
        ),
        !cond_holds(cond, old(cpu)@.flags) ==> final(cpu)@ == old(cpu)@,
{
    if cond_eval(cond, cpu.flags) {
        self_jump(cpu, disp);
    }
}

/// Moves IP by a sign-extended byte displacement.
pub fn self_jump(cpu: &mut Cpu, disp: u8)
    requires
        old(cpu).wf(),
    ensures
        final(cpu).wf(),
        final(cpu)@ == old(cpu)@.with_ip(old(cpu)@.ip.wrapping_add(sign_extend8(disp))),
{
    let d = crate::regs::sext8(disp);
    cpu.ip = cpu.ip.wrapping_add(d);
    proof {
        assert(cpu@ =~= old(cpu)@.with_ip(old(cpu)@.ip.wrapping_add(sign_extend8(disp))));
    }
}

} // verus!
