//! The flags engine: one shared definition of how the arithmetic and
//! logical instructions derive CF, PF, AF, ZF, SF and OF from the operation
//! kind, the operand width, the operands, the carry-in and the result.

use vstd::prelude::*;

verus! {

/// The operation kind a flag update is derived from.
#[derive(Clone, Copy, Debug, PartialEq, Eq, Structural)]
pub enum FlagOp {
    Add,
    Sub,
    Logic,
}

pub open spec fn flag_cf(f: u16) -> bool {
    f & 0x0001 != 0
}

pub open spec fn flag_pf(f: u16) -> bool {
    f & 0x0004 != 0
}

pub open spec fn flag_af(f: u16) -> bool {
    f & 0x0010 != 0
}

pub open spec fn flag_zf(f: u16) -> bool {
    f & 0x0040 != 0
}

pub open spec fn flag_sf(f: u16) -> bool {
    f & 0x0080 != 0
}

pub open spec fn flag_tf(f: u16) -> bool {
    f & 0x0100 != 0
}

pub open spec fn flag_if(f: u16) -> bool {
    f & 0x0200 != 0
}

pub open spec fn flag_df(f: u16) -> bool {
    f & 0x0400 != 0
}

pub open spec fn flag_of(f: u16) -> bool {
    f & 0x0800 != 0
}

/// Even parity of a byte: the exclusive-or of its eight bits is zero.
pub open spec fn spec_pf(r: u8) -> bool {
    (r ^ (r >> 1) ^ (r >> 2) ^ (r >> 3) ^ (r >> 4) ^ (r >> 5) ^ (r >> 6) ^ (r >> 7)) & 1 == 0
}

/// Carry out of an 8-bit operation: unsigned overflow for additions,
/// borrow for subtractions, always clear for logical operations.
pub open spec fn spec_cf8(op: FlagOp, a: u8, b: u8, cin: bool) -> bool {
    match op {
        FlagOp::Add => a + b + (if cin { 1int } else { 0int }) > 0xFF,
        FlagOp::Sub => a - b - (if cin { 1int } else { 0int }) < 0,
        FlagOp::Logic => false,
    }
}

pub open spec fn spec_cf16(op: FlagOp, a: u16, b: u16, cin: bool) -> bool {
    match op {
        FlagOp::Add => a + b + (if cin { 1int } else { 0int }) > 0xFFFF,
        FlagOp::Sub => a - b - (if cin { 1int } else { 0int }) < 0,
        FlagOp::Logic => false,
    }
}

/// Signed overflow of an 8-bit operation, from the sign bits of the
/// operands and the result.
pub open spec fn spec_of8(op: FlagOp, a: u8, b: u8, r: u8) -> bool {
    match op {
        FlagOp::Add => (a ^ r) & (b ^ r) & 0x80 != 0,
        FlagOp::Sub => (a ^ b) & (a ^ r) & 0x80 != 0,
        FlagOp::Logic => false,
    }
}

pub open spec fn spec_of16(op: FlagOp, a: u16, b: u16, r: u16) -> bool {
    match op {
        FlagOp::Add => (a ^ r) & (b ^ r) & 0x8000 != 0,
        FlagOp::Sub => (a ^ b) & (a ^ r) & 0x8000 != 0,
        FlagOp::Logic => false,
    }
}

/// Auxiliary carry out of bit 3, from a 4-bit add or subtract; zeroed by
/// logical operations.
pub open spec fn spec_af8(op: FlagOp, a: u8, b: u8, r: u8) -> bool {
    match op {
        FlagOp::Logic => false,
        _ => (a ^ b ^ r) & 0x10 != 0,
    }
}

pub open spec fn spec_af16(op: FlagOp, a: u16, b: u16, r: u16) -> bool {
    match op {
        FlagOp::Logic => false,
        _ => (a ^ b ^ r) & 0x10 != 0,
    }
}

/// The FLAGS word after an arithmetic or logical flag update: the six
/// arithmetic flag bits are replaced, every other bit is preserved.
pub open spec fn compose_flags(f: u16, c: bool, p: bool, a: bool, z: bool, s: bool, o: bool) -> u16 {
    (f & 0xF72A) | (if c { 0x0001u16 } else { 0u16 }) | (if p { 0x0004u16 } else { 0u16 })
        | (if a { 0x0010u16 } else { 0u16 }) | (if z { 0x0040u16 } else { 0u16 })
        | (if s { 0x0080u16 } else { 0u16 }) | (if o { 0x0800u16 } else { 0u16 })
}

/// The FLAGS word after an 8-bit operation `op` on `a` and `b` with
/// carry-in `cin` and truncated result `r`, starting from `f`.
pub open spec fn flags8(f: u16, op: FlagOp, a: u8, b: u8, cin: bool, r: u8) -> u16 {
    compose_flags(
        f,
        spec_cf8(op, a, b, cin),
        spec_pf(r),
        spec_af8(op, a, b, r),
        r == 0,
        r & 0x80 != 0,
        spec_of8(op, a, b, r),
    )
}

/// The FLAGS word after a 16-bit operation; parity is computed over the
/// low byte of the result only.
pub open spec fn flags16(f: u16, op: FlagOp, a: u16, b: u16, cin: bool, r: u16) -> u16 {
    compose_flags(
        f,
        spec_cf16(op, a, b, cin),
        spec_pf(r as u8),
        spec_af16(op, a, b, r),
        r == 0,
        r & 0x8000 != 0,
        spec_of16(op, a, b, r),
    )
}

/// Each bit of a composed FLAGS word reads back as the value it was
/// composed from, and the bits outside the arithmetic set are preserved.
pub proof fn lemma_compose_flags(f: u16, c: bool, p: bool, a: bool, z: bool, s: bool, o: bool)
    ensures
        flag_cf(compose_flags(f, c, p, a, z, s, o)) == c,
        flag_pf(compose_flags(f, c, p, a, z, s, o)) == p,
        flag_af(compose_flags(f, c, p, a, z, s, o)) == a,
        flag_zf(compose_flags(f, c, p, a, z, s, o)) == z,
        flag_sf(compose_flags(f, c, p, a, z, s, o)) == s,
        flag_of(compose_flags(f, c, p, a, z, s, o)) == o,
        flag_tf(compose_flags(f, c, p, a, z, s, o)) == flag_tf(f),
        flag_if(compose_flags(f, c, p, a, z, s, o)) == flag_if(f),
        flag_df(compose_flags(f, c, p, a, z, s, o)) == flag_df(f),
{
    assert(flag_cf(compose_flags(f, c, p, a, z, s, o)) == c && flag_pf(
        compose_flags(f, c, p, a, z, s, o),
    ) == p && flag_af(compose_flags(f, c, p, a, z, s, o)) == a && flag_zf(
        compose_flags(f, c, p, a, z, s, o),
    ) == z && flag_sf(compose_flags(f, c, p, a, z, s, o)) == s && flag_of(
        compose_flags(f, c, p, a, z, s, o),
    ) == o && flag_tf(compose_flags(f, c, p, a, z, s, o)) == flag_tf(f) && flag_if(
        compose_flags(f, c, p, a, z, s, o),
    ) == flag_if(f) && flag_df(compose_flags(f, c, p, a, z, s, o)) == flag_df(f)) by (bit_vector);
}

/// For every arithmetic width: ZF is set exactly when the result is zero,
/// SF is the result's top bit, and PF is the even parity of the result's
/// low byte.
pub proof fn lemma_flags8_bits(f: u16, op: FlagOp, a: u8, b: u8, cin: bool, r: u8)
    ensures
        flag_zf(flags8(f, op, a, b, cin, r)) == (r == 0),
        flag_sf(flags8(f, op, a, b, cin, r)) == (r & 0x80 != 0),
        flag_pf(flags8(f, op, a, b, cin, r)) == spec_pf(r),
        flag_cf(flags8(f, op, a, b, cin, r)) == spec_cf8(op, a, b, cin),
        flag_af(flags8(f, op, a, b, cin, r)) == spec_af8(op, a, b, r),
        flag_of(flags8(f, op, a, b, cin, r)) == spec_of8(op, a, b, r),
        flag_tf(flags8(f, op, a, b, cin, r)) == flag_tf(f),
        flag_if(flags8(f, op, a, b, cin, r)) == flag_if(f),
        flag_df(flags8(f, op, a, b, cin, r)) == flag_df(f),
{
    lemma_compose_flags(
        f,
        spec_cf8(op, a, b, cin),
        spec_pf(r),
        spec_af8(op, a, b, r),
        r == 0,
        r & 0x80 != 0,
        spec_of8(op, a, b, r),
    );
}

/// The 16-bit counterpart of `lemma_flags8_bits`.
pub proof fn lemma_flags16_bits(f: u16, op: FlagOp, a: u16, b: u16, cin: bool, r: u16)
    ensures
        flag_zf(flags16(f, op, a, b, cin, r)) == (r == 0),
        flag_sf(flags16(f, op, a, b, cin, r)) == (r & 0x8000 != 0),
        flag_pf(flags16(f, op, a, b, cin, r)) == spec_pf(r as u8),
        flag_cf(flags16(f, op, a, b, cin, r)) == spec_cf16(op, a, b, cin),
        flag_af(flags16(f, op, a, b, cin, r)) == spec_af16(op, a, b, r),
        flag_of(flags16(f, op, a, b, cin, r)) == spec_of16(op, a, b, r),
        flag_tf(flags16(f, op, a, b, cin, r)) == flag_tf(f),
        flag_if(flags16(f, op, a, b, cin, r)) == flag_if(f),
        flag_df(flags16(f, op, a, b, cin, r)) == flag_df(f),
{
    lemma_compose_flags(
        f,
        spec_cf16(op, a, b, cin),
        spec_pf(r as u8),
        spec_af16(op, a, b, r),
        r == 0,
        r & 0x8000 != 0,
        spec_of16(op, a, b, r),
    );
}

/// Computes the even parity of a byte.
pub fn parity_even(r: u8) -> (p: bool)
    ensures
        p == spec_pf(r),
{
    (r ^ (r >> 1) ^ (r >> 2) ^ (r >> 3) ^ (r >> 4) ^ (r >> 5) ^ (r >> 6) ^ (r >> 7)) & 1 == 0
}

} // verus!
