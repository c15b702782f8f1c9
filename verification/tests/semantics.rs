// Unit-level semantics: register aliasing, flag derivation, wrapping
// addresses, and the per-instruction contracts on concrete values.

use realmode::cpu::{Cpu, Mem};
use realmode::modrm::{Displacement, Modrm, ModrmRegType, RegMem, RmPtr};
use realmode::regs::{GeneralByteReg, GeneralWordReg, SegmentReg, Size, WordReg};

fn machine() -> Cpu {
    Cpu::new(Mem::new(0x100000, 0x100000, &vec![]))
}

fn load(cpu: &mut Cpu, seg: SegmentReg, off: u16, bytes: &[u8]) {
    let mut i: u16 = 0;
    for b in bytes {
        cpu.set_mem_8(seg, off.wrapping_add(i), *b).unwrap();
        i = i.wrapping_add(1);
    }
}

fn wreg(cpu: &Cpu, r: GeneralWordReg) -> u16 {
    cpu.get_reg_16(WordReg::General(r))
}

#[test]
fn register_word_and_byte_views_alias() {
    let mut cpu = machine();
    let v: u16 = 0xABCD;
    cpu.set_reg_16(WordReg::General(GeneralWordReg::Ax), v);
    assert_eq!(cpu.get_reg_8(GeneralByteReg::Al) as u16, v & 0xFF);
    assert_eq!(cpu.get_reg_8(GeneralByteReg::Ah) as u16, (v >> 8) & 0xFF);
    cpu.set_reg_8(GeneralByteReg::Al, 0x11);
    cpu.set_reg_8(GeneralByteReg::Ah, 0x22);
    assert_eq!(wreg(&cpu, GeneralWordReg::Ax), 0x2211);
    cpu.set_reg_16(WordReg::General(GeneralWordReg::Bx), 0x7788);
    assert_eq!(cpu.get_reg_8(GeneralByteReg::Bl), 0x88);
    assert_eq!(cpu.get_reg_8(GeneralByteReg::Bh), 0x77);
}

#[test]
fn pointer_registers_do_not_touch_byte_registers() {
    let mut cpu = machine();
    cpu.set_reg_16(WordReg::General(GeneralWordReg::Sp), 0x1234);
    cpu.set_reg_16(WordReg::General(GeneralWordReg::Bp), 0x5678);
    cpu.set_reg_16(WordReg::General(GeneralWordReg::Si), 0x9ABC);
    cpu.set_reg_16(WordReg::General(GeneralWordReg::Di), 0xDEF0);
    for r in [
        GeneralByteReg::Al,
        GeneralByteReg::Cl,
        GeneralByteReg::Dl,
        GeneralByteReg::Bl,
        GeneralByteReg::Ah,
        GeneralByteReg::Ch,
        GeneralByteReg::Dh,
        GeneralByteReg::Bh,
    ] {
        assert_eq!(cpu.get_reg_8(r), 0);
    }
    assert_eq!(wreg(&cpu, GeneralWordReg::Sp), 0x1234);
    assert_eq!(wreg(&cpu, GeneralWordReg::Di), 0xDEF0);
}

#[test]
fn add_flags_follow_the_width_rules() {
    let mut cpu = machine();
    // MOV AL,0xFF; ADD AL,AL -> 0xFE
    load(&mut cpu, SegmentReg::Cs, 0, &[0xB0, 0xFF, 0x00, 0xC0]);
    cpu.step().unwrap();
    cpu.step().unwrap();
    assert_eq!(cpu.get_reg_8(GeneralByteReg::Al), 0xFE);
    assert_ne!(cpu.flags & 0x0001, 0, "CF: unsigned overflow");
    assert_eq!(cpu.flags & 0x0040, 0, "ZF clear");
    assert_ne!(cpu.flags & 0x0080, 0, "SF: top bit of 0xFE");
    assert_eq!(cpu.flags & 0x0004, 0, "PF: 0xFE has odd parity");
    assert_ne!(cpu.flags & 0x0010, 0, "AF: carry out of bit 3");
    assert_eq!(cpu.flags & 0x0800, 0, "OF: negative plus negative stayed negative");
}

#[test]
fn add_to_zero_sets_zf_and_pf() {
    let mut cpu = machine();
    cpu.set_reg_8(GeneralByteReg::Al, 0xFF);
    cpu.set_reg_8(GeneralByteReg::Cl, 0x01);
    // ADD AL, CL -> 0x00
    load(&mut cpu, SegmentReg::Cs, 0, &[0x00, 0xC8]);
    cpu.step().unwrap();
    assert_eq!(cpu.get_reg_8(GeneralByteReg::Al), 0x00);
    assert_ne!(cpu.flags & 0x0040, 0, "ZF set");
    assert_ne!(cpu.flags & 0x0004, 0, "PF: zero has even parity");
    assert_ne!(cpu.flags & 0x0001, 0, "CF set");
    assert_eq!(cpu.flags & 0x0080, 0, "SF clear");
}

#[test]
fn adc_uses_the_carry_in() {
    let mut cpu = machine();
    cpu.set_reg_16(WordReg::General(GeneralWordReg::Ax), 0xFFFF);
    // STC; ADC AX, 1 -> 0x0001 with carry out
    load(&mut cpu, SegmentReg::Cs, 0, &[0xF9, 0x15, 0x01, 0x00]);
    cpu.step().unwrap();
    cpu.step().unwrap();
    assert_eq!(wreg(&cpu, GeneralWordReg::Ax), 0x0001);
    assert_ne!(cpu.flags & 0x0001, 0, "CF set");
    assert_eq!(cpu.flags & 0x0040, 0, "ZF clear");
}

#[test]
fn cmp_leaves_destination_unchanged() {
    let mut cpu = machine();
    cpu.set_reg_16(WordReg::General(GeneralWordReg::Ax), 0x0005);
    // CMP AX, 7: borrow sets CF, result negative
    load(&mut cpu, SegmentReg::Cs, 0, &[0x3D, 0x07, 0x00]);
    cpu.step().unwrap();
    assert_eq!(wreg(&cpu, GeneralWordReg::Ax), 0x0005);
    assert_ne!(cpu.flags & 0x0001, 0, "CF: borrow");
    assert_eq!(cpu.flags & 0x0040, 0, "ZF clear");
    assert_ne!(cpu.flags & 0x0080, 0, "SF set");
}

#[test]
fn cmp_rm8_imm8_extension_seven() {
    let mut cpu = machine();
    cpu.set_reg_8(GeneralByteReg::Al, 5);
    // CMP AL, 5 through 0x80 /7 with a register operand
    load(&mut cpu, SegmentReg::Cs, 0, &[0x80, 0xF8, 0x05]);
    cpu.step().unwrap();
    assert_ne!(cpu.flags & 0x0040, 0, "ZF set on equality");
    assert_eq!(cpu.ip, 3);
}

#[test]
fn add_rm16_imm8_sign_extends() {
    let mut cpu = machine();
    cpu.set_reg_16(WordReg::General(GeneralWordReg::Ax), 0x0005);
    // ADD AX, -1 (0x83 /0 with imm8 0xFF)
    load(&mut cpu, SegmentReg::Cs, 0, &[0x83, 0xC0, 0xFF]);
    cpu.step().unwrap();
    assert_eq!(wreg(&cpu, GeneralWordReg::Ax), 0x0004);
    assert_ne!(cpu.flags & 0x0001, 0, "CF: 5 + 0xFFFF wraps");
}

#[test]
fn xor_register_with_itself_clears_it() {
    let mut cpu = machine();
    cpu.set_reg_16(WordReg::General(GeneralWordReg::Ax), 0x1234);
    cpu.flags = 0x0801;
    // XOR AX, AX
    load(&mut cpu, SegmentReg::Cs, 0, &[0x31, 0xC0]);
    cpu.step().unwrap();
    assert_eq!(wreg(&cpu, GeneralWordReg::Ax), 0);
    assert_ne!(cpu.flags & 0x0040, 0, "ZF = 1");
    assert_eq!(cpu.flags & 0x0001, 0, "CF = 0");
    assert_eq!(cpu.flags & 0x0800, 0, "OF = 0");
    assert_eq!(cpu.flags & 0x0080, 0, "SF = 0");
    assert_ne!(cpu.flags & 0x0004, 0, "PF = 1");
}

#[test]
fn mov_family_moves_both_ways() {
    let mut cpu = machine();
    cpu.set_reg_8(GeneralByteReg::Ah, 0x9A);
    // MOV AL, AH; MOV [0x0040], AL; MOV CX, [0x0040]
    load(
        &mut cpu,
        SegmentReg::Cs,
        0,
        &[0x8A, 0xC4, 0x88, 0x06, 0x40, 0x00, 0x8B, 0x0E, 0x40, 0x00],
    );
    cpu.step().unwrap();
    assert_eq!(cpu.get_reg_8(GeneralByteReg::Al), 0x9A);
    cpu.step().unwrap();
    assert_eq!(cpu.get_mem_8(SegmentReg::Ds, 0x0040).unwrap(), 0x9A);
    cpu.step().unwrap();
    assert_eq!(wreg(&cpu, GeneralWordReg::Cx), 0x009A);
}

#[test]
fn mov_segment_registers_both_ways() {
    let mut cpu = machine();
    cpu.set_reg_16(WordReg::Segment(SegmentReg::Es), 0x4321);
    // MOV AX, ES; MOV DS, AX
    load(&mut cpu, SegmentReg::Cs, 0, &[0x8C, 0xC0, 0x8E, 0xD8]);
    cpu.step().unwrap();
    assert_eq!(wreg(&cpu, GeneralWordReg::Ax), 0x4321);
    cpu.step().unwrap();
    assert_eq!(cpu.get_reg_16(WordReg::Segment(SegmentReg::Ds)), 0x4321);
}

#[test]
fn add_through_memory_operand() {
    let mut cpu = machine();
    cpu.set_reg_16(WordReg::General(GeneralWordReg::Si), 0x0020);
    cpu.set_mem_8(SegmentReg::Ds, 0x0020, 3).unwrap();
    cpu.set_reg_8(GeneralByteReg::Al, 5);
    // ADD [SI], AL
    load(&mut cpu, SegmentReg::Cs, 0, &[0x00, 0x04]);
    cpu.step().unwrap();
    assert_eq!(cpu.get_mem_8(SegmentReg::Ds, 0x0020).unwrap(), 8);
}

#[test]
fn disp8_memory_operand() {
    let mut cpu = machine();
    cpu.set_reg_16(WordReg::General(GeneralWordReg::Si), 0x0020);
    cpu.set_reg_8(GeneralByteReg::Al, 0x5C);
    // MOV [SI+0x10], AL
    load(&mut cpu, SegmentReg::Cs, 0, &[0x88, 0x44, 0x10]);
    cpu.step().unwrap();
    assert_eq!(cpu.get_mem_8(SegmentReg::Ds, 0x0030).unwrap(), 0x5C);
    assert_eq!(cpu.ip, 3);
}

#[test]
fn effective_address_wraps_at_64k() {
    let cpu = {
        let mut c = machine();
        c.set_reg_16(WordReg::General(GeneralWordReg::Bx), 0xF000);
        c.set_reg_16(WordReg::General(GeneralWordReg::Si), 0x0FFE);
        c
    };
    let ptr = RmPtr {
        segment: SegmentReg::Ds,
        first_reg: Some(GeneralWordReg::Bx),
        second_reg: Some(GeneralWordReg::Si),
        displacement: Some(Displacement::SignedByte(0x04)),
    };
    let (seg, off) = ptr.to_linear(&cpu);
    assert_eq!(seg, SegmentReg::Ds);
    assert_eq!(off, 0x0002);
}

#[test]
fn linear_address_wraps_at_1_mib() {
    let mut cpu = machine();
    cpu.set_reg_16(WordReg::Segment(SegmentReg::Ds), 0xF000);
    assert_eq!(cpu.linear_mem(SegmentReg::Ds, 0xFFFF), 0xFFFFF);
    cpu.set_reg_16(WordReg::Segment(SegmentReg::Ds), 0xFFFF);
    assert_eq!(cpu.linear_mem(SegmentReg::Ds, 0x0010), 0x00000);
}

#[test]
fn modrm_decode_picks_bp_forms_from_ss() {
    let mut cpu = machine();
    // mod=1, reg=0, rm=6: [BP+disp8], defaulting to SS
    load(&mut cpu, SegmentReg::Cs, 0, &[0x05]);
    let d = Modrm::decode(&mut cpu, 0x46, Some(ModrmRegType::ByteSized), Size::Byte, None)
        .unwrap();
    match d.reg_mem {
        RegMem::Ptr(p) => {
            assert_eq!(p.segment, SegmentReg::Ss);
            assert_eq!(p.first_reg, Some(GeneralWordReg::Bp));
            assert_eq!(p.second_reg, None);
            assert_eq!(p.displacement, Some(Displacement::SignedByte(0x05)));
        },
        RegMem::Reg(_) => panic!("expected a memory operand"),
    }
    assert_eq!(cpu.ip, 1, "one displacement byte consumed");
}

#[test]
fn pushf_popf_round_trips_flags() {
    let mut cpu = machine();
    cpu.set_reg_16(WordReg::General(GeneralWordReg::Sp), 0x1000);
    cpu.flags = 0x0AD5;
    load(&mut cpu, SegmentReg::Cs, 0, &[0x9C, 0x9D]);
    cpu.step().unwrap();
    cpu.step().unwrap();
    assert_eq!(cpu.flags, 0x0AD5);
    assert_eq!(wreg(&cpu, GeneralWordReg::Sp), 0x1000);
}

#[test]
fn lahf_sahf_round_trips_the_low_flags() {
    let mut cpu = machine();
    cpu.flags = 0x0C55;
    load(&mut cpu, SegmentReg::Cs, 0, &[0x9F, 0x9E]);
    cpu.step().unwrap();
    assert_eq!(cpu.get_reg_8(GeneralByteReg::Ah), 0x55);
    cpu.step().unwrap();
    assert_eq!(cpu.flags, 0x0C55);
}

#[test]
fn single_flag_controls() {
    let mut cpu = machine();
    load(&mut cpu, SegmentReg::Cs, 0, &[0xF9, 0xF5, 0xF8, 0xFB, 0xFA, 0xFD, 0xFC]);
    cpu.step().unwrap();
    assert_ne!(cpu.flags & 0x0001, 0, "STC sets CF");
    cpu.step().unwrap();
    assert_eq!(cpu.flags & 0x0001, 0, "CMC flips CF");
    cpu.step().unwrap();
    assert_eq!(cpu.flags & 0x0001, 0, "CLC keeps CF clear");
    cpu.step().unwrap();
    assert_ne!(cpu.flags & 0x0200, 0, "STI sets IF");
    cpu.step().unwrap();
    assert_eq!(cpu.flags & 0x0200, 0, "CLI clears IF");
    cpu.step().unwrap();
    assert_ne!(cpu.flags & 0x0400, 0, "STD sets DF");
    cpu.step().unwrap();
    assert_eq!(cpu.flags & 0x0400, 0, "CLD clears DF");
}

#[test]
fn conditional_pairs_disagree_on_every_state() {
    // JZ taken exactly when JNZ is not, on the same flags
    for flags in [0x0000u16, 0x0040, 0x0041, 0x08D5] {
        let mut taken = machine();
        taken.flags = flags;
        load(&mut taken, SegmentReg::Cs, 0, &[0x74, 0x02]);
        taken.step().unwrap();
        let mut negated = machine();
        negated.flags = flags;
        load(&mut negated, SegmentReg::Cs, 0, &[0x75, 0x02]);
        negated.step().unwrap();
        assert_ne!(taken.ip == 4, negated.ip == 4, "exactly one of JZ/JNZ is taken");
    }
}

#[test]
fn signed_conditionals_follow_sf_and_of() {
    let mut cpu = machine();
    cpu.set_reg_8(GeneralByteReg::Al, 1);
    // CMP AL, 2 -> SF set, OF clear: JL is taken
    load(&mut cpu, SegmentReg::Cs, 0, &[0x3C, 0x02, 0x7C, 0x02]);
    cpu.step().unwrap();
    cpu.step().unwrap();
    assert_eq!(cpu.ip, 6, "JL taken for 1 < 2");
}

#[test]
fn jcxz_depends_on_cx_alone() {
    let mut cpu = machine();
    cpu.set_reg_16(WordReg::General(GeneralWordReg::Cx), 0);
    load(&mut cpu, SegmentReg::Cs, 0, &[0xE3, 0x02]);
    cpu.step().unwrap();
    assert_eq!(cpu.ip, 4, "taken when CX is zero");
    let mut cpu2 = machine();
    cpu2.set_reg_16(WordReg::General(GeneralWordReg::Cx), 1);
    load(&mut cpu2, SegmentReg::Cs, 0, &[0xE3, 0x02]);
    cpu2.step().unwrap();
    assert_eq!(cpu2.ip, 2, "fallthrough when CX is nonzero");
}

#[test]
fn stosb_honors_the_direction_flag() {
    let mut cpu = machine();
    cpu.set_reg_16(WordReg::General(GeneralWordReg::Di), 0x0010);
    cpu.set_reg_8(GeneralByteReg::Al, 0x7E);
    cpu.flags = 0x0400;
    load(&mut cpu, SegmentReg::Cs, 0, &[0xAA]);
    cpu.step().unwrap();
    assert_eq!(cpu.get_mem_8(SegmentReg::Es, 0x0010).unwrap(), 0x7E);
    assert_eq!(wreg(&cpu, GeneralWordReg::Di), 0x000F, "DF set decrements DI");
}

#[test]
fn stosw_stores_a_word_and_moves_di_by_two() {
    let mut cpu = machine();
    cpu.set_reg_16(WordReg::General(GeneralWordReg::Di), 0x0010);
    cpu.set_reg_16(WordReg::General(GeneralWordReg::Ax), 0xBEEF);
    load(&mut cpu, SegmentReg::Cs, 0, &[0xAB]);
    cpu.step().unwrap();
    assert_eq!(cpu.get_mem_16(SegmentReg::Es, 0x0010).unwrap(), 0xBEEF);
    assert_eq!(wreg(&cpu, GeneralWordReg::Di), 0x0012);
}

#[test]
fn rep_stosw_repeats_cx_times() {
    let mut cpu = machine();
    cpu.set_reg_16(WordReg::Segment(SegmentReg::Es), 0x3000);
    cpu.set_reg_16(WordReg::General(GeneralWordReg::Di), 0);
    cpu.set_reg_16(WordReg::General(GeneralWordReg::Ax), 0x1234);
    cpu.set_reg_16(WordReg::General(GeneralWordReg::Cx), 3);
    load(&mut cpu, SegmentReg::Cs, 0, &[0xF3, 0xAB]);
    cpu.step().unwrap();
    for k in 0..3u16 {
        assert_eq!(cpu.get_mem_16(SegmentReg::Es, 2 * k).unwrap(), 0x1234);
    }
    assert_eq!(wreg(&cpu, GeneralWordReg::Cx), 0);
    assert_eq!(wreg(&cpu, GeneralWordReg::Di), 6);
}

#[test]
fn rep_on_a_non_string_opcode_has_no_effect() {
    let mut cpu = machine();
    // REP MOV AL, 0x42: the prefix is absorbed, the MOV runs once
    load(&mut cpu, SegmentReg::Cs, 0, &[0xF3, 0xB0, 0x42]);
    cpu.step().unwrap();
    assert_eq!(cpu.get_reg_8(GeneralByteReg::Al), 0x42);
    assert_eq!(cpu.ip, 3);
}

#[test]
fn push_and_pop_general_registers() {
    let mut cpu = machine();
    cpu.set_reg_16(WordReg::General(GeneralWordReg::Sp), 0x1000);
    cpu.set_reg_16(WordReg::General(GeneralWordReg::Bx), 0x7777);
    // PUSH BX; POP DX; PUSH ES is exercised with a segment value
    cpu.set_reg_16(WordReg::Segment(SegmentReg::Es), 0x0123);
    load(&mut cpu, SegmentReg::Cs, 0, &[0x53, 0x5A, 0x06, 0x07]);
    cpu.step().unwrap();
    cpu.step().unwrap();
    assert_eq!(wreg(&cpu, GeneralWordReg::Dx), 0x7777);
    assert_eq!(wreg(&cpu, GeneralWordReg::Sp), 0x1000);
    cpu.set_reg_16(WordReg::Segment(SegmentReg::Es), 0x0123);
    cpu.step().unwrap();
    cpu.set_reg_16(WordReg::Segment(SegmentReg::Es), 0x9999);
    cpu.step().unwrap();
    assert_eq!(cpu.get_reg_16(WordReg::Segment(SegmentReg::Es)), 0x0123);
}

#[test]
fn push_imm8_sign_extends() {
    let mut cpu = machine();
    cpu.set_reg_16(WordReg::General(GeneralWordReg::Sp), 0x1000);
    // PUSH -2; POP AX
    load(&mut cpu, SegmentReg::Cs, 0, &[0x6A, 0xFE, 0x58]);
    cpu.step().unwrap();
    cpu.step().unwrap();
    assert_eq!(wreg(&cpu, GeneralWordReg::Ax), 0xFFFE);
}
