//! Port I/O instruction semantics.  The core itself binds no devices to
//! the port plane, and a port with no bound device reads as all-ones of
//! the requested width while writes to it are silently discarded; a host
//! that attaches devices does so outside the core.

use vstd::prelude::*;

use crate::cpu::Cpu;
use crate::regs::{GeneralByteReg, GeneralWordReg};

verus! {

/// IN AL, port (opcodes 0xE4 and 0xEC): reads a byte from the port
/// plane; an unbound port yields 0xFF.
pub fn in_al(cpu: &mut Cpu, _port: u16)
    requires
        old(cpu).wf(),
    ensures
        final(cpu).wf(),
        final(cpu)@ == old(cpu)@.with_breg(GeneralByteReg::Al, 0xFF),
{
    cpu.set_reg_8(GeneralByteReg::Al, 0xFF);
}

/// IN AX, port (opcodes 0xE5 and 0xED): reads a word from the port
/// plane; an unbound port yields 0xFFFF.
pub fn in_ax(cpu: &mut Cpu, _port: u16)
    requires
        old(cpu).wf(),
    ensures
        final(cpu).wf(),
        final(cpu)@ == old(cpu)@.with_wreg(GeneralWordReg::Ax, 0xFFFF),
{
    cpu.set_reg_16(crate::regs::WordReg::General(GeneralWordReg::Ax), 0xFFFF);
}

/// OUT port, AL (opcodes 0xE6 and 0xEE): writes a byte to the port
/// plane; a write to an unbound port is discarded.
pub fn out_al(cpu: &mut Cpu, _port: u16)
    requires
        old(cpu).wf(),
    ensures
        final(cpu).wf(),
        final(cpu)@ == old(cpu)@,
{
}

/// OUT port, AX (opcodes 0xE7 and 0xEF): writes a word to the port
/// plane; a write to an unbound port is discarded.
pub fn out_ax(cpu: &mut Cpu, _port: u16)
    requires
        old(cpu).wf(),
    ensures
        final(cpu).wf(),
        final(cpu)@ == old(cpu)@,
{
}

} // verus!
