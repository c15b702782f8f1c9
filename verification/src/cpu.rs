//! The CPU state and the memory bus: the packed register file, the
//! segment registers, FLAGS and IP, and byte/word access to a 1 MiB
//! segmented physical address space with a writable RAM region and a
//! read-only firmware region.

use vstd::prelude::*;

use crate::flags::{flags16, flags8, parity_even, FlagOp};
use crate::regs::{
    breg_idx, seg_idx, wreg_hi, wreg_lo, GeneralByteReg, GeneralWordReg, SegmentReg, WordReg,
};

verus! {

/// A fatal fault of the core.  Write-to-ROM and unmapped ports are not
/// faults: the former is ignored, the latter reads all-ones.
#[derive(Clone, Copy, Debug, PartialEq, Eq)]
pub enum CpuErr {
    /// Unknown opcode, or unknown /digit extension of a shared opcode byte.
    Decode { opcode: u8, extension: Option<u8> },
    /// An operand form the architecture forbids, such as writing CS by MOV.
    IllegalOperand,
    /// An access to an unmapped physical address.
    Bus { linear: usize },
    /// A full IP cycle of prefix bytes with no opcode after them: the
    /// code stream can never form an instruction.
    PrefixCycle,
}

/// The physical address space: a flat 1 MiB byte array, of which
/// `[0, ram_len)` is writable RAM and `[rom_start, 2^20)` is read-only
/// firmware.  Addresses in neither region are unmapped.
pub struct Mem {
    pub bytes: Vec<u8>,
    pub ram_len: usize,
    pub rom_start: usize,
}

/// The mathematical model of the whole machine state.
#[verifier::ext_equal]
pub ghost struct CpuV {
    pub regs: Seq<u8>,
    pub segs: Seq<u16>,
    pub flags: u16,
    pub ip: u16,
    pub mem: Seq<u8>,
    pub ram_len: int,
    pub rom_start: int,
}

impl CpuV {
    pub open spec fn wf(self) -> bool {
        &&& self.regs.len() == 16
        &&& self.segs.len() == 4
        &&& self.mem.len() == 0x100000
        &&& 0 <= self.ram_len <= 0x100000
        &&& 0 <= self.rom_start <= 0x100000
    }

    /// Value of a byte general register.
    pub open spec fn breg(self, r: GeneralByteReg) -> u8 {
        self.regs[breg_idx(r)]
    }

    /// Value of a word general register: little-endian concatenation of
    /// its low and high byte.
    pub open spec fn wreg(self, r: GeneralWordReg) -> u16 {
        (self.regs[wreg_lo(r)] + 256 * self.regs[wreg_hi(r)]) as u16
    }

    /// Value of a segment register.
    pub open spec fn seg(self, s: SegmentReg) -> u16 {
        self.segs[seg_idx(s)]
    }

    /// Value of any 16-bit register.
    pub open spec fn reg16(self, r: WordReg) -> u16 {
        match r {
            WordReg::General(g) => self.wreg(g),
            WordReg::Segment(s) => self.seg(s),
        }
    }

    pub open spec fn with_breg(self, r: GeneralByteReg, v: u8) -> CpuV {
        CpuV { regs: self.regs.update(breg_idx(r), v), ..self }
    }

    pub open spec fn with_wreg(self, r: GeneralWordReg, v: u16) -> CpuV {
        CpuV {
            regs: self.regs.update(wreg_lo(r), (v % 256) as u8).update(
                wreg_hi(r),
                (v / 256) as u8,
            ),
            ..self
        }
    }

    pub open spec fn with_seg(self, s: SegmentReg, v: u16) -> CpuV {
        CpuV { segs: self.segs.update(seg_idx(s), v), ..self }
    }

    pub open spec fn with_reg16(self, r: WordReg, v: u16) -> CpuV {
        match r {
            WordReg::General(g) => self.with_wreg(g, v),
            WordReg::Segment(s) => self.with_seg(s, v),
        }
    }

    pub open spec fn with_flags(self, f: u16) -> CpuV {
        CpuV { flags: f, ..self }
    }

    pub open spec fn with_ip(self, ip: u16) -> CpuV {
        CpuV { ip: ip, ..self }
    }

    /// The linear physical address of `segment:offset`: the segment value
    /// shifted left by four plus the offset, wrapped at 2^20.
    pub open spec fn lin(self, s: SegmentReg, off: u16) -> int {
        (self.seg(s) * 16 + off) % 0x100000
    }

    /// Whether a linear address lies in a mapped region.
    pub open spec fn mapped(self, l: int) -> bool {
        (0 <= l < self.ram_len) || (self.rom_start <= l < 0x100000)
    }

    /// Whether the byte at `segment:offset` is mapped.
    pub open spec fn acc8(self, s: SegmentReg, off: u16) -> bool {
        self.mapped(self.lin(s, off))
    }

    /// Whether both bytes of the word at `segment:offset` are mapped; the
    /// offset of the second byte wraps within the segment.
    pub open spec fn acc16(self, s: SegmentReg, off: u16) -> bool {
        self.acc8(s, off) && self.acc8(s, off.wrapping_add(1))
    }

    /// The byte at `segment:offset`.
    pub open spec fn rd8(self, s: SegmentReg, off: u16) -> u8 {
        self.mem[self.lin(s, off)]
    }

    /// The little-endian word at `segment:offset`.
    pub open spec fn rd16(self, s: SegmentReg, off: u16) -> u16 {
        (self.rd8(s, off) + 256 * self.rd8(s, off.wrapping_add(1))) as u16
    }

    /// The state after a byte store to a linear address: RAM is updated,
    /// a store to the read-only region is ignored.
    pub open spec fn lin_write8(self, l: int, v: u8) -> CpuV {
        if 0 <= l < self.ram_len {
            CpuV { mem: self.mem.update(l, v), ..self }
        } else {
            self
        }
    }

    /// The state after a byte store to `segment:offset`.
    pub open spec fn wr8(self, s: SegmentReg, off: u16, v: u8) -> CpuV {
        self.lin_write8(self.lin(s, off), v)
    }

    /// The state after a little-endian word store to `segment:offset`.
    pub open spec fn wr16(self, s: SegmentReg, off: u16, v: u16) -> CpuV {
        self.wr8(s, off, (v % 256) as u8).wr8(s, off.wrapping_add(1), (v / 256) as u8)
    }

    /// The state after a word push through SS:SP: SP is decremented by
    /// two, then the word is stored at the new SS:SP.
    pub open spec fn spec_push16(self, v: u16) -> CpuV {
        self.wr16(SegmentReg::Ss, self.wreg(GeneralWordReg::Sp).wrapping_sub(2), v).with_wreg(
            GeneralWordReg::Sp,
            self.wreg(GeneralWordReg::Sp).wrapping_sub(2),
        )
    }

    /// Whether a word push through SS:SP stays on mapped memory.
    pub open spec fn push_ok(self) -> bool {
        self.acc16(SegmentReg::Ss, self.wreg(GeneralWordReg::Sp).wrapping_sub(2))
    }

    /// The word a pop through SS:SP returns.
    pub open spec fn pop_val(self) -> u16 {
        self.rd16(SegmentReg::Ss, self.wreg(GeneralWordReg::Sp))
    }

    /// The state after a word pop: SP is incremented by two.
    pub open spec fn spec_pop16(self) -> CpuV {
        self.with_wreg(GeneralWordReg::Sp, self.wreg(GeneralWordReg::Sp).wrapping_add(2))
    }

    /// Whether a word pop through SS:SP reads mapped memory.
    pub open spec fn pop_ok(self) -> bool {
        self.acc16(SegmentReg::Ss, self.wreg(GeneralWordReg::Sp))
    }
}

/// The processor: the register file, flags, IP, and the memory bus it
/// exclusively owns.
pub struct Cpu {
    pub mem: Mem,
    pub regs: Vec<u8>,
    pub segments: Vec<u16>,
    pub flags: u16,
    pub ip: u16,
}

impl View for Cpu {
    type V = CpuV;

    open spec fn view(&self) -> CpuV {
        CpuV {
            regs: self.regs@,
            segs: self.segments@,
            flags: self.flags,
            ip: self.ip,
            mem: self.mem.bytes@,
            ram_len: self.mem.ram_len as int,
            rom_start: self.mem.rom_start as int,
        }
    }
}

impl Mem {
    pub open spec fn wf(self) -> bool {
        &&& self.bytes@.len() == 0x100000
        &&& self.ram_len <= 0x100000
        &&& self.rom_start <= 0x100000
    }

    /// Builds the address space: zeroed RAM of `ram_len` bytes at the
    /// bottom, the firmware image at `[rom_start, 2^20)`, and an unmapped
    /// hole in between.  The gap between the regions, and the tail of the
    /// RAM region, read as zero but only the mapped regions are
    /// accessible through the bus.
    pub fn new(ram_len: usize, rom_start: usize, firmware: &Vec<u8>) -> (m: Mem)
        requires
            ram_len <= 0x100000,
            rom_start <= 0x100000,
            firmware@.len() == 0x100000 - rom_start,
        ensures
            m.wf(),
            m.ram_len == ram_len,
            m.rom_start == rom_start,
            forall|i: int| 0 <= i < rom_start ==> m.bytes@[i] == 0,
            forall|i: int|
                rom_start <= i < 0x100000 ==> m.bytes@[i] == firmware@[i - rom_start],
    {
        let mut bytes: Vec<u8> = vec![0u8; 0x100000];
        let mut i: usize = 0;
        while i < firmware.len()
            invariant
                bytes@.len() == 0x100000,
                firmware@.len() == 0x100000 - rom_start,
                i <= firmware@.len(),
                forall|j: int| 0 <= j < rom_start ==> bytes@[j] == 0,
                forall|j: int| rom_start + i <= j < 0x100000 ==> bytes@[j] == 0,
                forall|j: int|
                    rom_start <= j < rom_start + i ==> bytes@[j] == firmware@[j - rom_start],
            decreases firmware@.len() - i,
        {
            bytes[rom_start + i] = firmware[i];
            i += 1;
        }
        Mem { bytes, ram_len, rom_start }
    }
}

impl Cpu {
    pub open spec fn wf(&self) -> bool {
        self@.wf()
    }

    /// A fresh processor over the given address space, every register,
    /// FLAGS and IP zero.
    pub fn new(mem: Mem) -> (cpu: Cpu)
        requires
            mem.wf(),
        ensures
            cpu.wf(),
            cpu@.flags == 0,
            cpu@.ip == 0,
            forall|i: int| 0 <= i < 16 ==> cpu@.regs[i] == 0,
            forall|i: int| 0 <= i < 4 ==> cpu@.segs[i] == 0,
            cpu@.mem == mem.bytes@,
            cpu@.ram_len == mem.ram_len as int,
            cpu@.rom_start == mem.rom_start as int,
    {
        Cpu { mem, regs: vec![0u8; 16], segments: vec![0u16; 4], flags: 0, ip: 0 }
    }

    pub fn get_reg_8(&self, reg: GeneralByteReg) -> (v: u8)
        requires
            self.wf(),
        ensures
            v == self@.breg(reg),
    {
        self.regs[reg.index()]
    }

    pub fn get_reg_16(&self, reg: WordReg) -> (v: u16)
        requires
            self.wf(),
        ensures
            v == self@.reg16(reg),
    {
        match reg {
            WordReg::General(reg) => {
                let low = self.regs[reg.index_low()];
                let high = self.regs[reg.index_low() + 4];
                low as u16 + 256 * (high as u16)
            },
            WordReg::Segment(reg) => self.segments[reg.index()],
        }
    }

    pub fn set_reg_8(&mut self, reg: GeneralByteReg, value: u8)
        requires
            old(self).wf(),
        ensures
            final(self).wf(),
            final(self)@ == old(self)@.with_breg(reg, value),
    {
        self.regs[reg.index()] = value;
        proof {
            assert(self@ =~= old(self)@.with_breg(reg, value));
        }
    }

    pub fn set_reg_16(&mut self, reg: WordReg, value: u16)
        requires
            old(self).wf(),
        ensures
            final(self).wf(),
            final(self)@ == old(self)@.with_reg16(reg, value),
    {
        match reg {
            WordReg::General(reg) => {
                let low: u8 = (value % 256) as u8;
                let high: u8 = (value / 256) as u8;
                self.regs[reg.index_low()] = low;
                self.regs[reg.index_low() + 4] = high;
            },
            WordReg::Segment(reg) => {
                self.segments[reg.index()] = value;
            },
        }
        proof {
            assert(self@ =~= old(self)@.with_reg16(reg, value));
        }
    }

    /// The linear physical address of `segment:offset`, wrapped at 2^20,
    /// so it never leaves the 1 MiB address space.
    pub fn linear_mem(&self, segment: SegmentReg, offset: u16) -> (l: usize)
        requires
            self.wf(),
        ensures
            l == self@.lin(segment, offset),
            l < 0x100000,
    {
        let s = self.get_reg_16(WordReg::Segment(segment));
        ((s as usize) * 16 + offset as usize) % 0x100000
    }

    pub fn get_mem_8(&self, segment: SegmentReg, offset: u16) -> (r: Result<u8, CpuErr>)
        requires
            self.wf(),
        ensures
            self@.acc8(segment, offset) ==> r == Ok::<u8, CpuErr>(self@.rd8(segment, offset)),
            !self@.acc8(segment, offset) ==> r == Err::<u8, CpuErr>(
                CpuErr::Bus { linear: self@.lin(segment, offset) as usize },
            ),
    {
        let linear = self.linear_mem(segment, offset);
        if linear < self.mem.ram_len || linear >= self.mem.rom_start {
            Ok(self.mem.bytes[linear])
        } else {
            Err(CpuErr::Bus { linear })
        }
    }

    pub fn get_mem_16(&self, segment: SegmentReg, offset: u16) -> (r: Result<u16, CpuErr>)
        requires
            self.wf(),
        ensures
            self@.acc16(segment, offset) ==> r == Ok::<u16, CpuErr>(self@.rd16(segment, offset)),
            !self@.acc16(segment, offset) ==> r is Err,
    {
        let low = match self.get_mem_8(segment, offset) {
            Ok(v) => v,
            Err(e) => {
                return Err(e);
            },
        };
        let high = match self.get_mem_8(segment, offset.wrapping_add(1)) {
            Ok(v) => v,
            Err(e) => {
                return Err(e);
            },
        };
        Ok(low as u16 + 256 * (high as u16))
    }

    pub fn set_mem_8(&mut self, segment: SegmentReg, offset: u16, value: u8) -> (r: Result<
        (),
        CpuErr,
    >)
        requires
            old(self).wf(),
        ensures
            final(self).wf(),
            old(self)@.acc8(segment, offset) ==> r == Ok::<(), CpuErr>(()) && final(self)@ == old(
                self,
            )@.wr8(segment, offset, value),
            !old(self)@.acc8(segment, offset) ==> r is Err && final(self)@ == old(self)@,
    {
        let linear = self.linear_mem(segment, offset);
        if linear < self.mem.ram_len {
            self.mem.bytes[linear] = value;
            proof {
                assert(self@ =~= old(self)@.wr8(segment, offset, value));
            }
            Ok(())
        } else if linear >= self.mem.rom_start {
            // A store to the read-only firmware region is silently ignored.
            Ok(())
        } else {
            Err(CpuErr::Bus { linear })
        }
    }

    pub fn set_mem_16(&mut self, segment: SegmentReg, offset: u16, value: u16) -> (r: Result<
        (),
        CpuErr,
    >)
        requires
            old(self).wf(),
        ensures
            final(self).wf(),
            old(self)@.acc16(segment, offset) ==> r == Ok::<(), CpuErr>(()) && final(self)@ == old(
                self,
            )@.wr16(segment, offset, value),
            !old(self)@.acc16(segment, offset) ==> r is Err && final(self)@ == old(self)@,
    {
        // Both bytes are checked before either is stored, so a word store
        // either happens whole or leaves memory untouched.
        let l1 = self.linear_mem(segment, offset);
        if !(l1 < self.mem.ram_len || l1 >= self.mem.rom_start) {
            return Err(CpuErr::Bus { linear: l1 });
        }
        let l2 = self.linear_mem(segment, offset.wrapping_add(1));
        if !(l2 < self.mem.ram_len || l2 >= self.mem.rom_start) {
            return Err(CpuErr::Bus { linear: l2 });
        }
        let low: u8 = (value % 256) as u8;
        let high: u8 = (value / 256) as u8;
        match self.set_mem_8(segment, offset, low) {
            Ok(()) => {},
            Err(_) => {
                proof {
                    assert(false);
                }
            },
        }
        match self.set_mem_8(segment, offset.wrapping_add(1), high) {
            Ok(()) => {},
            Err(_) => {
                proof {
                    assert(false);
                }
            },
        }
        Ok(())
    }

    /// Fetches the byte at CS:IP and advances IP past it.
    pub fn read_mem_8(&mut self) -> (r: Result<u8, CpuErr>)
        requires
            old(self).wf(),
        ensures
            final(self).wf(),
            old(self)@.acc8(SegmentReg::Cs, old(self)@.ip) ==> r == Ok::<u8, CpuErr>(
                old(self)@.rd8(SegmentReg::Cs, old(self)@.ip),
            ) && final(self)@ == old(self)@.with_ip(old(self)@.ip.wrapping_add(1)),
            !old(self)@.acc8(SegmentReg::Cs, old(self)@.ip) ==> r is Err && final(self)@ == old(
                self,
            )@,
    {
        let value = match self.get_mem_8(SegmentReg::Cs, self.ip) {
            Ok(v) => v,
            Err(e) => {
                return Err(e);
            },
        };
        self.ip = self.ip.wrapping_add(1);
        proof {
            assert(self@ =~= old(self)@.with_ip(old(self)@.ip.wrapping_add(1)));
        }
        Ok(value)
    }

    /// Fetches the word at CS:IP and advances IP past it.
    pub fn read_mem_16(&mut self) -> (r: Result<u16, CpuErr>)
        requires
            old(self).wf(),
        ensures
            final(self).wf(),
            old(self)@.acc16(SegmentReg::Cs, old(self)@.ip) ==> r == Ok::<u16, CpuErr>(
                old(self)@.rd16(SegmentReg::Cs, old(self)@.ip),
            ) && final(self)@ == old(self)@.with_ip(old(self)@.ip.wrapping_add(2)),
            !old(self)@.acc16(SegmentReg::Cs, old(self)@.ip) ==> r is Err && final(self)@ == old(
                self,
            )@,
    {
        let value = match self.get_mem_16(SegmentReg::Cs, self.ip) {
            Ok(v) => v,
            Err(e) => {
                return Err(e);
            },
        };
        self.ip = self.ip.wrapping_add(2);
        proof {
            assert(self@ =~= old(self)@.with_ip(old(self)@.ip.wrapping_add(2)));
        }
        Ok(value)
    }

    /// Reads the byte at CS:IP without consuming it.
    pub fn peek_mem_8(&self) -> (r: Result<u8, CpuErr>)
        requires
            self.wf(),
        ensures
            self@.acc8(SegmentReg::Cs, self@.ip) ==> r == Ok::<u8, CpuErr>(
                self@.rd8(SegmentReg::Cs, self@.ip),
            ),
            !self@.acc8(SegmentReg::Cs, self@.ip) ==> r is Err,
    {
        self.get_mem_8(SegmentReg::Cs, self.ip)
    }

    /// Pushes a word through SS:SP.
    pub fn push16(&mut self, value: u16) -> (r: Result<(), CpuErr>)
        requires
            old(self).wf(),
        ensures
            final(self).wf(),
            old(self)@.push_ok() ==> r == Ok::<(), CpuErr>(()) && final(self)@ == old(
                self,
            )@.spec_push16(value),
            !old(self)@.push_ok() ==> r is Err && final(self)@ == old(self)@,
            final(self)@.segs == old(self)@.segs,
            final(self)@.flags == old(self)@.flags,
            final(self)@.ip == old(self)@.ip,
    {
        let sp = self.get_reg_16(WordReg::General(GeneralWordReg::Sp)).wrapping_sub(2);
        match self.set_mem_16(SegmentReg::Ss, sp, value) {
            Ok(()) => {},
            Err(e) => {
                return Err(e);
            },
        }
        self.set_reg_16(WordReg::General(GeneralWordReg::Sp), sp);
        proof {
            assert(self@ =~= old(self)@.spec_push16(value));
        }
        Ok(())
    }

    /// Pops a word through SS:SP.
    pub fn pop16(&mut self) -> (r: Result<u16, CpuErr>)
        requires
            old(self).wf(),
        ensures
            final(self).wf(),
            old(self)@.pop_ok() ==> r == Ok::<u16, CpuErr>(old(self)@.pop_val()) && final(self)@
                == old(self)@.spec_pop16(),
            !old(self)@.pop_ok() ==> r is Err && final(self)@ == old(self)@,
    {
        let sp = self.get_reg_16(WordReg::General(GeneralWordReg::Sp));
        let value = match self.get_mem_16(SegmentReg::Ss, sp) {
            Ok(v) => v,
            Err(e) => {
                return Err(e);
            },
        };
        self.set_reg_16(WordReg::General(GeneralWordReg::Sp), sp.wrapping_add(2));
        Ok(value)
    }

    /// The centralized 8-bit flag update: derives CF, PF, AF, ZF, SF and
    /// OF from the operation kind, the operands, the carry-in and the
    /// truncated result, preserving every other FLAGS bit.
    pub fn set_flags_arith8(&mut self, op: FlagOp, a: u8, b: u8, cin: bool, r: u8)
        requires
            old(self).wf(),
        ensures
            final(self).wf(),
            final(self)@ == old(self)@.with_flags(flags8(old(self)@.flags, op, a, b, cin, r)),
    {
        let cf = match op {
            FlagOp::Add => (a as u16) + (b as u16) + (if cin { 1u16 } else { 0u16 }) > 0xFF,
            FlagOp::Sub => (a as u16) < (b as u16) + (if cin { 1u16 } else { 0u16 }),
            FlagOp::Logic => false,
        };
        let pf = parity_even(r);
        let af = match op {
            FlagOp::Logic => false,
            _ => (a ^ b ^ r) & 0x10 != 0,
        };
        let zf = r == 0;
        let sf = r & 0x80 != 0;
        let of = match op {
            FlagOp::Add => (a ^ r) & (b ^ r) & 0x80 != 0,
            FlagOp::Sub => (a ^ b) & (a ^ r) & 0x80 != 0,
            FlagOp::Logic => false,
        };
        self.flags = (self.flags & 0xF72A) | (if cf { 0x0001u16 } else { 0u16 }) | (if pf {
            0x0004u16
        } else {
            0u16
        }) | (if af { 0x0010u16 } else { 0u16 }) | (if zf { 0x0040u16 } else { 0u16 }) | (if sf {
            0x0080u16
        } else {
            0u16
        }) | (if of { 0x0800u16 } else { 0u16 });
        proof {
            assert(self@ =~= old(self)@.with_flags(flags8(old(self)@.flags, op, a, b, cin, r)));
        }
    }

    /// The centralized 16-bit flag update; parity is computed over the
    /// low byte of the result only.
    pub fn set_flags_arith16(&mut self, op: FlagOp, a: u16, b: u16, cin: bool, r: u16)
        requires
            old(self).wf(),
        ensures
            final(self).wf(),
            final(self)@ == old(self)@.with_flags(flags16(old(self)@.flags, op, a, b, cin, r)),
    {
        let cf = match op {
            FlagOp::Add => (a as u32) + (b as u32) + (if cin { 1u32 } else { 0u32 }) > 0xFFFF,
            FlagOp::Sub => (a as u32) < (b as u32) + (if cin { 1u32 } else { 0u32 }),
            FlagOp::Logic => false,
        };
        let pf = parity_even(r as u8);
        let af = match op {
            FlagOp::Logic => false,
            _ => (a ^ b ^ r) & 0x10 != 0,
        };
        let zf = r == 0;
        let sf = r & 0x8000 != 0;
        let of = match op {
            FlagOp::Add => (a ^ r) & (b ^ r) & 0x8000 != 0,
            FlagOp::Sub => (a ^ b) & (a ^ r) & 0x8000 != 0,
            FlagOp::Logic => false,
        };
        self.flags = (self.flags & 0xF72A) | (if cf { 0x0001u16 } else { 0u16 }) | (if pf {
            0x0004u16
        } else {
            0u16
        }) | (if af { 0x0010u16 } else { 0u16 }) | (if zf { 0x0040u16 } else { 0u16 }) | (if sf {
            0x0080u16
        } else {
            0u16
        }) | (if of { 0x0800u16 } else { 0u16 });
        proof {
            assert(self@ =~= old(self)@.with_flags(flags16(old(self)@.flags, op, a, b, cin, r)));
        }
    }

    /// The architectural reset state: `CS = 0xFFFF`, the other segment
    /// registers zero, IP zero, the general registers and FLAGS zero, so
    /// the first byte executed is the one at linear `0xFFFF0`.
    pub fn reset(&mut self)
        requires
            old(self).wf(),
        ensures
            final(self).wf(),
            final(self)@.seg(SegmentReg::Cs) == 0xFFFF,
            final(self)@.seg(SegmentReg::Ds) == 0,
            final(self)@.seg(SegmentReg::Es) == 0,
            final(self)@.seg(SegmentReg::Ss) == 0,
            final(self)@.ip == 0,
            final(self)@.flags == 0,
            forall|i: int| 0 <= i < 16 ==> final(self)@.regs[i] == 0,
            final(self)@.mem == old(self)@.mem,
            final(self)@.ram_len == old(self)@.ram_len,
            final(self)@.rom_start == old(self)@.rom_start,
    {
        self.set_reg_16(WordReg::Segment(SegmentReg::Cs), 0xFFFF);
        self.set_reg_16(WordReg::Segment(SegmentReg::Ds), 0x0000);
        self.set_reg_16(WordReg::Segment(SegmentReg::Es), 0x0000);
        self.set_reg_16(WordReg::Segment(SegmentReg::Ss), 0x0000);
        self.regs = vec![0u8; 16];
        self.flags = 0;
        self.ip = 0;
    }
}

/// Whether two states agree on everything but IP: what a decoder may
/// change is the instruction pointer alone.
pub open spec fn only_ip_changed(pre: CpuV, post: CpuV) -> bool {
    &&& post.regs == pre.regs
    &&& post.segs == pre.segs
    &&& post.flags == pre.flags
    &&& post.mem == pre.mem
    &&& post.ram_len == pre.ram_len
    &&& post.rom_start == pre.rom_start
}

/// Chained wrapping additions of small steps collapse to one wrapping
/// addition of their sum.
pub proof fn lemma_wadd_chain(a: u16, b: u16, c: u16)
    requires
        b + c <= 0xFFFF,
    ensures
        a.wrapping_add(b).wrapping_add(c) == a.wrapping_add((b + c) as u16),
{
}

/// The linear address of `segment:offset` is the shifted segment plus the
/// offset, reduced once if it passed the top of the 1 MiB space: it never
/// lies outside `[0, 2^20)`.
pub proof fn lemma_lin_value(c: CpuV, s: SegmentReg, off: u16)
    requires
        c.wf(),
    ensures
        c.lin(s, off) == if c.seg(s) * 16 + off < 0x100000 {
            c.seg(s) * 16 + off
        } else {
            c.seg(s) * 16 + off - 0x100000
        },
        0 <= c.lin(s, off) < 0x100000,
{
    let x = c.seg(s) * 16 + off;
    if x < 0x100000 {
        vstd::arithmetic::div_mod::lemma_small_mod(x as nat, 0x100000);
    } else {
        vstd::arithmetic::div_mod::lemma_mod_multiples_vanish(-1, x, 0x100000);
        vstd::arithmetic::div_mod::lemma_small_mod((x - 0x100000) as nat, 0x100000);
    }
}

/// Distinct offsets within one segment address distinct linear bytes.
pub proof fn lemma_lin_distinct(c: CpuV, s: SegmentReg, o1: u16, o2: u16)
    requires
        c.wf(),
        o1 != o2,
    ensures
        c.lin(s, o1) != c.lin(s, o2),
{
    lemma_lin_value(c, s, o1);
    lemma_lin_value(c, s, o2);
}

/// A word stored to writable RAM reads back exactly, and the store
/// touches neither the registers nor the rest of the state.
pub proof fn lemma_wr16_rd16(c: CpuV, s: SegmentReg, off: u16, v: u16)
    requires
        c.wf(),
        0 <= c.lin(s, off) < c.ram_len,
        0 <= c.lin(s, off.wrapping_add(1)) < c.ram_len,
    ensures
        c.wr16(s, off, v).rd16(s, off) == v,
        c.wr16(s, off, v).regs == c.regs,
        c.wr16(s, off, v).segs == c.segs,
        c.wr16(s, off, v).flags == c.flags,
        c.wr16(s, off, v).ip == c.ip,
{
    lemma_lin_distinct(c, s, off, off.wrapping_add(1));
    vstd::arithmetic::div_mod::lemma_fundamental_div_mod(v as int, 256);
}

/// Byte and word views of a general register alias exactly: after a word
/// store, the paired byte registers read the word's low and high byte,
/// and a word read recomposes exactly what the byte registers hold.
pub proof fn lemma_reg_alias(
    c: CpuV,
    r: GeneralWordReg,
    lo: GeneralByteReg,
    hi: GeneralByteReg,
    v: u16,
    x: u8,
    y: u8,
)
    requires
        c.wf(),
        breg_idx(lo) == wreg_lo(r),
        breg_idx(hi) == wreg_hi(r),
    ensures
        c.with_wreg(r, v).breg(lo) == v & 0xFF,
        c.with_wreg(r, v).breg(hi) == (v >> 8) & 0xFF,
        c.wreg(r) == (c.breg(lo) as u16) + 256 * (c.breg(hi) as u16),
        c.with_breg(lo, x).with_breg(hi, y).wreg(r) == (x as u16) | ((y as u16) << 8),
{
    assert(v & 0xFF == v % 256) by (bit_vector);
    assert((v >> 8) & 0xFF == v / 256) by (bit_vector);
    assert((x as u16) | ((y as u16) << 8) == x as u16 + 256 * (y as u16)) by (bit_vector);
}

} // verus!
