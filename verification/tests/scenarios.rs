// End-to-end scenarios: short programs stepped through the core.

use realmode::cpu::{Cpu, CpuErr, Mem};
use realmode::regs::{GeneralByteReg, GeneralWordReg, SegmentReg, WordReg};

fn machine() -> Cpu {
    Cpu::new(Mem::new(0x100000, 0x100000, &vec![]))
}

fn load(cpu: &mut Cpu, seg: SegmentReg, off: u16, bytes: &[u8]) {
    let mut i: u16 = 0;
    for b in bytes {
        cpu.set_mem_8(seg, off.wrapping_add(i), *b).unwrap();
        i = i.wrapping_add(1);
    }
}

fn wreg(cpu: &Cpu, r: GeneralWordReg) -> u16 {
    cpu.get_reg_16(WordReg::General(r))
}

fn sreg(cpu: &Cpu, r: SegmentReg) -> u16 {
    cpu.get_reg_16(WordReg::Segment(r))
}

#[test]
fn s1_mov_imm_then_add() {
    let mut cpu = machine();
    // MOV AX, 0x1234; ADD AX, 0x0001
    load(&mut cpu, SegmentReg::Cs, 0, &[0xB8, 0x34, 0x12, 0x05, 0x01, 0x00]);
    cpu.step().unwrap();
    assert_eq!(wreg(&cpu, GeneralWordReg::Ax), 0x1234);
    cpu.step().unwrap();
    assert_eq!(wreg(&cpu, GeneralWordReg::Ax), 0x1235);
    assert_eq!(cpu.flags & 0x0040, 0, "ZF clear");
    assert_eq!(cpu.flags & 0x0001, 0, "CF clear");
    assert_eq!(cpu.flags & 0x0800, 0, "OF clear");
    assert_eq!(cpu.flags & 0x0080, 0, "SF clear");
    // 0x35 has four set bits, so its parity is even and PF is set.
    assert_ne!(cpu.flags & 0x0004, 0, "PF set");
}

#[test]
fn s2_cmp_and_jz() {
    let mut cpu = machine();
    cpu.set_reg_8(GeneralByteReg::Al, 5);
    // CMP AL,5; JZ +2; MOV AL,0xFF; MOV AL,0x00
    load(&mut cpu, SegmentReg::Cs, 0, &[0x3C, 0x05, 0x74, 0x02, 0xB0, 0xFF, 0xB0, 0x00]);
    cpu.step().unwrap();
    assert_ne!(cpu.flags & 0x0040, 0, "ZF set after CMP");
    cpu.step().unwrap();
    assert_eq!(cpu.ip, 6, "JZ taken skips MOV AL,0xFF");
    cpu.step().unwrap();
    assert_eq!(cpu.get_reg_8(GeneralByteReg::Al), 0x00);
}

#[test]
fn s3_push_pop_round_trip() {
    let mut cpu = machine();
    cpu.set_reg_16(WordReg::General(GeneralWordReg::Sp), 0x1000);
    // PUSH 0xDEAD; POP AX
    load(&mut cpu, SegmentReg::Cs, 0, &[0x68, 0xAD, 0xDE, 0x58]);
    cpu.step().unwrap();
    assert_eq!(wreg(&cpu, GeneralWordReg::Sp), 0x0FFE);
    cpu.step().unwrap();
    assert_eq!(wreg(&cpu, GeneralWordReg::Ax), 0xDEAD);
    assert_eq!(wreg(&cpu, GeneralWordReg::Sp), 0x1000);
}

#[test]
fn s4_rep_stosb() {
    let mut cpu = machine();
    cpu.set_reg_16(WordReg::Segment(SegmentReg::Es), 0x2000);
    cpu.set_reg_16(WordReg::General(GeneralWordReg::Di), 0x0000);
    cpu.set_reg_8(GeneralByteReg::Al, 0x41);
    cpu.set_reg_16(WordReg::General(GeneralWordReg::Cx), 0x0004);
    load(&mut cpu, SegmentReg::Cs, 0, &[0xF3, 0xAA]);
    cpu.step().unwrap();
    for off in 0..4u16 {
        assert_eq!(cpu.get_mem_8(SegmentReg::Es, off).unwrap(), 0x41);
    }
    assert_eq!(cpu.get_mem_8(SegmentReg::Es, 4).unwrap(), 0x00);
    assert_eq!(wreg(&cpu, GeneralWordReg::Cx), 0);
    assert_eq!(wreg(&cpu, GeneralWordReg::Di), 4);
}

#[test]
fn s5_call_and_ret() {
    let mut cpu = machine();
    cpu.set_reg_16(WordReg::General(GeneralWordReg::Sp), 0x1000);
    cpu.ip = 0x0100;
    // CALL +3; NOP-like filler skipped; RET at 0x0106
    load(
        &mut cpu,
        SegmentReg::Cs,
        0x0100,
        &[0xE8, 0x03, 0x00, 0x90, 0x90, 0x90, 0xC3],
    );
    cpu.step().unwrap();
    assert_eq!(cpu.ip, 0x0106, "CALL lands past the filler");
    assert_eq!(wreg(&cpu, GeneralWordReg::Sp), 0x0FFE);
    assert_eq!(cpu.get_mem_16(SegmentReg::Ss, 0x0FFE).unwrap(), 0x0103);
    cpu.step().unwrap();
    assert_eq!(cpu.ip, 0x0103, "RET returns to the pushed address");
    assert_eq!(wreg(&cpu, GeneralWordReg::Sp), 0x1000);
}

#[test]
fn s6_far_jmp() {
    let mut cpu = machine();
    load(&mut cpu, SegmentReg::Cs, 0, &[0xEA, 0x00, 0x10, 0x34, 0x12]);
    cpu.step().unwrap();
    assert_eq!(cpu.ip, 0x1000);
    assert_eq!(sreg(&cpu, SegmentReg::Cs), 0x1234);
}

#[test]
fn popa_restores_in_order() {
    let mut cpu = machine();
    cpu.set_reg_16(WordReg::General(GeneralWordReg::Sp), 0x1000);
    let words: [u16; 8] = [0x1111, 0x2222, 0x3333, 0x4444, 0x5555, 0x6666, 0x7777, 0x8888];
    for (k, w) in words.iter().enumerate() {
        cpu.set_mem_16(SegmentReg::Ss, 0x1000 + 2 * k as u16, *w).unwrap();
    }
    load(&mut cpu, SegmentReg::Cs, 0, &[0x61]);
    cpu.step().unwrap();
    assert_eq!(wreg(&cpu, GeneralWordReg::Di), 0x1111);
    assert_eq!(wreg(&cpu, GeneralWordReg::Si), 0x2222);
    assert_eq!(wreg(&cpu, GeneralWordReg::Bp), 0x3333);
    // the saved SP slot (0x4444) is read and discarded
    assert_eq!(wreg(&cpu, GeneralWordReg::Bx), 0x5555);
    assert_eq!(wreg(&cpu, GeneralWordReg::Dx), 0x6666);
    assert_eq!(wreg(&cpu, GeneralWordReg::Cx), 0x7777);
    assert_eq!(wreg(&cpu, GeneralWordReg::Ax), 0x8888);
    assert_eq!(wreg(&cpu, GeneralWordReg::Sp), 0x1010);
}

#[test]
fn les_loads_register_and_es() {
    let mut cpu = machine();
    load(&mut cpu, SegmentReg::Ds, 0x0010, &[0x78, 0x56, 0x34, 0x12]);
    // LES AX, [0x0010]
    load(&mut cpu, SegmentReg::Cs, 0, &[0xC4, 0x06, 0x10, 0x00]);
    cpu.step().unwrap();
    assert_eq!(wreg(&cpu, GeneralWordReg::Ax), 0x5678);
    assert_eq!(sreg(&cpu, SegmentReg::Es), 0x1234);
}

#[test]
fn enter_without_nesting() {
    let mut cpu = machine();
    cpu.set_reg_16(WordReg::General(GeneralWordReg::Sp), 0x1000);
    cpu.set_reg_16(WordReg::General(GeneralWordReg::Bp), 0x2222);
    // ENTER 4, 0
    load(&mut cpu, SegmentReg::Cs, 0, &[0xC8, 0x04, 0x00, 0x00]);
    cpu.step().unwrap();
    assert_eq!(cpu.get_mem_16(SegmentReg::Ss, 0x0FFE).unwrap(), 0x2222);
    assert_eq!(wreg(&cpu, GeneralWordReg::Bp), 0x0FFE);
    assert_eq!(wreg(&cpu, GeneralWordReg::Sp), 0x0FFA);
}

#[test]
fn enter_with_one_level() {
    let mut cpu = machine();
    cpu.set_reg_16(WordReg::General(GeneralWordReg::Sp), 0x1000);
    cpu.set_reg_16(WordReg::General(GeneralWordReg::Bp), 0x2222);
    // ENTER 2, 1: pushes BP, then the new frame pointer
    load(&mut cpu, SegmentReg::Cs, 0, &[0xC8, 0x02, 0x00, 0x01]);
    cpu.step().unwrap();
    assert_eq!(cpu.get_mem_16(SegmentReg::Ss, 0x0FFE).unwrap(), 0x2222);
    assert_eq!(cpu.get_mem_16(SegmentReg::Ss, 0x0FFC).unwrap(), 0x0FFE);
    assert_eq!(wreg(&cpu, GeneralWordReg::Bp), 0x0FFE);
    assert_eq!(wreg(&cpu, GeneralWordReg::Sp), 0x0FFA);
}

#[test]
fn segment_override_changes_moffs_segment() {
    let mut cpu = machine();
    cpu.set_reg_16(WordReg::Segment(SegmentReg::Ds), 0x0100);
    cpu.set_reg_16(WordReg::Segment(SegmentReg::Es), 0x0200);
    cpu.set_mem_8(SegmentReg::Ds, 5, 0x11).unwrap();
    cpu.set_mem_8(SegmentReg::Es, 5, 0x77).unwrap();
    // ES: MOV AL, [0x05]
    load(&mut cpu, SegmentReg::Cs, 0, &[0x26, 0xA0, 0x05]);
    cpu.step().unwrap();
    assert_eq!(cpu.get_reg_8(GeneralByteReg::Al), 0x77);
    // without the prefix the default segment is DS
    cpu.ip = 0x0010;
    load(&mut cpu, SegmentReg::Cs, 0x0010, &[0xA0, 0x05]);
    cpu.step().unwrap();
    assert_eq!(cpu.get_reg_8(GeneralByteReg::Al), 0x11);
}

#[test]
fn ip_points_past_operands_after_decode() {
    let mut cpu = machine();
    load(&mut cpu, SegmentReg::Cs, 0, &[0xB8, 0x34, 0x12]);
    cpu.step().unwrap();
    assert_eq!(cpu.ip, 3);
    let mut cpu2 = machine();
    // a prefix byte counts too
    load(&mut cpu2, SegmentReg::Cs, 0, &[0x26, 0xB8, 0x34, 0x12]);
    cpu2.step().unwrap();
    assert_eq!(cpu2.ip, 4);
}

#[test]
fn reset_state_points_at_reset_vector() {
    let mut cpu = machine();
    cpu.set_reg_16(WordReg::General(GeneralWordReg::Ax), 0x5555);
    cpu.flags = 0x0FFF;
    cpu.reset();
    assert_eq!(sreg(&cpu, SegmentReg::Cs), 0xFFFF);
    assert_eq!(sreg(&cpu, SegmentReg::Ds), 0);
    assert_eq!(sreg(&cpu, SegmentReg::Es), 0);
    assert_eq!(sreg(&cpu, SegmentReg::Ss), 0);
    assert_eq!(cpu.ip, 0);
    assert_eq!(cpu.flags, 0);
    assert_eq!(wreg(&cpu, GeneralWordReg::Ax), 0);
    assert_eq!(cpu.linear_mem(SegmentReg::Cs, 0), 0xFFFF0);
}

#[test]
fn unknown_opcode_is_fatal() {
    let mut cpu = machine();
    load(&mut cpu, SegmentReg::Cs, 0, &[0xF4]);
    let e = cpu.step().unwrap_err();
    assert!(matches!(e, CpuErr::Decode { opcode: 0xF4, extension: None }));
}

#[test]
fn unknown_extension_is_fatal() {
    let mut cpu = machine();
    // 0x80 with /0 in the ModR/M reg field: only /7 (CMP) is implemented
    load(&mut cpu, SegmentReg::Cs, 0, &[0x80, 0x00, 0x05]);
    let e = cpu.step().unwrap_err();
    assert!(matches!(e, CpuErr::Decode { opcode: 0x80, extension: Some(0) }));
}

#[test]
fn mov_to_cs_is_fatal() {
    let mut cpu = machine();
    // MOV CS, AX
    load(&mut cpu, SegmentReg::Cs, 0, &[0x8E, 0xC8]);
    let e = cpu.step().unwrap_err();
    assert!(matches!(e, CpuErr::IllegalOperand));
}

#[test]
fn unmapped_address_is_a_bus_error() {
    // 4 KiB of RAM, no firmware: everything above is unmapped.
    let mut cpu = Cpu::new(Mem::new(0x1000, 0x100000, &vec![]));
    cpu.set_reg_16(WordReg::Segment(SegmentReg::Ds), 0x0200);
    load(&mut cpu, SegmentReg::Cs, 0, &[0xA0, 0x05]);
    let e = cpu.step().unwrap_err();
    assert!(matches!(e, CpuErr::Bus { linear: 0x2005 }));
}

#[test]
fn firmware_is_read_only() {
    let firmware = vec![0xAB; 0x10000];
    let mut cpu = Cpu::new(Mem::new(0x1000, 0xF0000, &firmware));
    cpu.set_reg_16(WordReg::Segment(SegmentReg::Ds), 0xF000);
    assert_eq!(cpu.get_mem_8(SegmentReg::Ds, 0).unwrap(), 0xAB);
    // the store is silently ignored
    cpu.set_mem_8(SegmentReg::Ds, 0, 0x00).unwrap();
    assert_eq!(cpu.get_mem_8(SegmentReg::Ds, 0).unwrap(), 0xAB);
}

#[test]
fn unbound_ports_read_all_ones_and_drop_writes() {
    let mut cpu = machine();
    load(
        &mut cpu,
        SegmentReg::Cs,
        0,
        &[0xE4, 0x10, 0xE5, 0x11, 0xE6, 0x12, 0xE7, 0x13, 0xEC, 0xED, 0xEE, 0xEF],
    );
    cpu.step().unwrap();
    assert_eq!(cpu.get_reg_8(GeneralByteReg::Al), 0xFF);
    cpu.step().unwrap();
    assert_eq!(wreg(&cpu, GeneralWordReg::Ax), 0xFFFF);
    for _ in 0..6 {
        cpu.step().unwrap();
    }
    assert_eq!(cpu.ip, 12);
}

#[test]
fn boot_runs_the_reset_vector_from_firmware() {
    let rom_start: usize = 0xC0000;
    let mut firmware = vec![0u8; 0x40000];
    // at 0xC000:0000, MOV AX, 0x1234
    firmware[0] = 0xB8;
    firmware[1] = 0x34;
    firmware[2] = 0x12;
    // the reset vector at linear 0xFFFF0 far-jumps to the program
    let v = 0xFFFF0 - rom_start;
    firmware[v] = 0xEA;
    firmware[v + 1] = 0x00;
    firmware[v + 2] = 0x00;
    firmware[v + 3] = 0x00;
    firmware[v + 4] = 0xC0;
    let mut cpu = Cpu::new(Mem::new(640 * 1024, rom_start, &firmware));
    cpu.reset();
    cpu.step().unwrap();
    assert_eq!(sreg(&cpu, SegmentReg::Cs), 0xC000);
    assert_eq!(cpu.ip, 0);
    cpu.step().unwrap();
    assert_eq!(wreg(&cpu, GeneralWordReg::Ax), 0x1234);
}

#[test]
fn word_access_wraps_within_the_segment() {
    let mut cpu = machine();
    cpu.set_reg_16(WordReg::Segment(SegmentReg::Ds), 0x0100);
    cpu.set_mem_8(SegmentReg::Ds, 0xFFFF, 0x78).unwrap();
    cpu.set_mem_8(SegmentReg::Ds, 0x0000, 0x56).unwrap();
    assert_eq!(cpu.get_mem_16(SegmentReg::Ds, 0xFFFF).unwrap(), 0x5678);
}

#[test]
fn push_wraps_sp_at_zero() {
    let mut cpu = machine();
    cpu.set_reg_16(WordReg::General(GeneralWordReg::Bx), 0x4242);
    // PUSH BX with SP = 0
    load(&mut cpu, SegmentReg::Cs, 0, &[0x53]);
    cpu.step().unwrap();
    assert_eq!(wreg(&cpu, GeneralWordReg::Sp), 0xFFFE);
    assert_eq!(cpu.get_mem_16(SegmentReg::Ss, 0xFFFE).unwrap(), 0x4242);
}

#[test]
fn a_full_cycle_of_prefixes_is_fatal() {
    let mut cpu = machine();
    for i in 0..0x10000u32 {
        cpu.set_mem_8(SegmentReg::Cs, i as u16, 0x26).unwrap();
    }
    let e = cpu.step().unwrap_err();
    assert!(matches!(e, CpuErr::PrefixCycle));
}
