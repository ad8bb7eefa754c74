use vstd::prelude::*;

use crate::cpu::cpu::{Cpu, Xlen};
use crate::cpu::cpu_instruction::{enc_b, enc_i, enc_j, enc_r, enc_s, enc_u};

verus! {

/// The register named in bits 11:7.
pub open spec fn spec_c_reg_hi(w: u32) -> u32 {
    (w >> 7) & 0x1f
}

#[verifier::when_used_as_spec(spec_c_reg_hi)]
pub fn c_reg_hi(w: u32) -> (r: u32)
    ensures
        r == spec_c_reg_hi(w),
{
    (w >> 7) & 0x1f
}

/// The register named in bits 6:2.
pub open spec fn spec_c_reg_lo(w: u32) -> u32 {
    (w >> 2) & 0x1f
}

#[verifier::when_used_as_spec(spec_c_reg_lo)]
pub fn c_reg_lo(w: u32) -> (r: u32)
    ensures
        r == spec_c_reg_lo(w),
{
    (w >> 2) & 0x1f
}

/// The register x8 to x15 named in bits 9:7.
pub open spec fn spec_c_short_hi(w: u32) -> u32 {
    ((w >> 7) & 0x7) | 0x8
}

#[verifier::when_used_as_spec(spec_c_short_hi)]
pub fn c_short_hi(w: u32) -> (r: u32)
    ensures
        r == spec_c_short_hi(w),
{
    ((w >> 7) & 0x7) | 0x8
}

/// The register x8 to x15 named in bits 4:2.
pub open spec fn spec_c_short_lo(w: u32) -> u32 {
    ((w >> 2) & 0x7) | 0x8
}

#[verifier::when_used_as_spec(spec_c_short_lo)]
pub fn c_short_lo(w: u32) -> (r: u32)
    ensures
        r == spec_c_short_lo(w),
{
    ((w >> 2) & 0x7) | 0x8
}

/// The signed 6-bit immediate in bit 12 and bits 6:2, sign-extended to 32 bits.
pub open spec fn spec_c_imm6(w: u32) -> u32 {
    (if w & 0x1000 != 0 {
        0xffff_ffe0u32
    } else {
        0u32
    }) | ((w >> 2) & 0x1f)
}

#[verifier::when_used_as_spec(spec_c_imm6)]
pub fn c_imm6(w: u32) -> (r: u32)
    ensures
        r == spec_c_imm6(w),
{
    (if w & 0x1000 != 0 {
        0xffff_ffe0u32
    } else {
        0u32
    }) | ((w >> 2) & 0x1f)
}

/// The unsigned 6-bit immediate in bit 12 and bits 6:2.
pub open spec fn spec_c_uimm6(w: u32) -> u32 {
    ((w >> 7) & 0x20) | ((w >> 2) & 0x1f)
}

#[verifier::when_used_as_spec(spec_c_uimm6)]
pub fn c_uimm6(w: u32) -> (r: u32)
    ensures
        r == spec_c_uimm6(w),
{
    ((w >> 7) & 0x20) | ((w >> 2) & 0x1f)
}

/// The offset of a word access through a short register: offset bits 5:3
/// in bits 12:10, bit 2 in bit 6, bit 6 in bit 5.
pub open spec fn spec_c_uimm_w(w: u32) -> u32 {
    ((w >> 7) & 0x38) | ((w >> 4) & 0x4) | ((w << 1) & 0x40)
}

#[verifier::when_used_as_spec(spec_c_uimm_w)]
pub fn c_uimm_w(w: u32) -> (r: u32)
    ensures
        r == spec_c_uimm_w(w),
{
    ((w >> 7) & 0x38) | ((w >> 4) & 0x4) | ((w << 1) & 0x40)
}

/// The offset of a doubleword access through a short register: offset bits
/// 5:3 in bits 12:10, bits 7:6 in bits 6:5.
pub open spec fn spec_c_uimm_d(w: u32) -> u32 {
    ((w >> 7) & 0x38) | ((w << 1) & 0xc0)
}

#[verifier::when_used_as_spec(spec_c_uimm_d)]
pub fn c_uimm_d(w: u32) -> (r: u32)
    ensures
        r == spec_c_uimm_d(w),
{
    ((w >> 7) & 0x38) | ((w << 1) & 0xc0)
}

/// The offset of a word load from the stack: offset bit 5 in bit 12, bits
/// 4:2 in bits 6:4, bits 7:6 in bits 3:2.
pub open spec fn spec_c_uimm_lwsp(w: u32) -> u32 {
    ((w >> 7) & 0x20) | ((w >> 2) & 0x1c) | ((w << 4) & 0xc0)
}

#[verifier::when_used_as_spec(spec_c_uimm_lwsp)]
pub fn c_uimm_lwsp(w: u32) -> (r: u32)
    ensures
        r == spec_c_uimm_lwsp(w),
{
    ((w >> 7) & 0x20) | ((w >> 2) & 0x1c) | ((w << 4) & 0xc0)
}

/// The offset of a doubleword load from the stack: offset bit 5 in bit 12,
/// bits 4:3 in bits 6:5, bits 8:6 in bits 4:2.
pub open spec fn spec_c_uimm_ldsp(w: u32) -> u32 {
    ((w >> 7) & 0x20) | ((w >> 2) & 0x18) | ((w << 4) & 0x1c0)
}

#[verifier::when_used_as_spec(spec_c_uimm_ldsp)]
pub fn c_uimm_ldsp(w: u32) -> (r: u32)
    ensures
        r == spec_c_uimm_ldsp(w),
{
    ((w >> 7) & 0x20) | ((w >> 2) & 0x18) | ((w << 4) & 0x1c0)
}

/// The offset of a word store to the stack: offset bits 5:2 in bits 12:9,
/// bits 7:6 in bits 8:7.
pub open spec fn spec_c_uimm_swsp(w: u32) -> u32 {
    ((w >> 7) & 0x3c) | ((w >> 1) & 0xc0)
}

#[verifier::when_used_as_spec(spec_c_uimm_swsp)]
pub fn c_uimm_swsp(w: u32) -> (r: u32)
    ensures
        r == spec_c_uimm_swsp(w),
{
    ((w >> 7) & 0x3c) | ((w >> 1) & 0xc0)
}

/// The offset of a doubleword store to the stack: offset bits 5:3 in bits
/// 12:10, bits 8:6 in bits 9:7.
pub open spec fn spec_c_uimm_sdsp(w: u32) -> u32 {
    ((w >> 7) & 0x38) | ((w >> 1) & 0x1c0)
}

#[verifier::when_used_as_spec(spec_c_uimm_sdsp)]
pub fn c_uimm_sdsp(w: u32) -> (r: u32)
    ensures
        r == spec_c_uimm_sdsp(w),
{
    ((w >> 7) & 0x38) | ((w >> 1) & 0x1c0)
}

/// The jump offset of C.J and C.JAL, sign-extended: offset bit 11 in bit
/// 12, bit 4 in bit 11, bits 9:8 in bits 10:9, bit 10 in bit 8, bit 6 in bit
/// 7, bit 7 in bit 6, bits 3:1 in bits 5:3, bit 5 in bit 2.
pub open spec fn spec_c_j_offset(w: u32) -> u32 {
    (if w & 0x1000 != 0 {
        0xffff_f800u32
    } else {
        0u32
    }) | ((w >> 7) & 0x10) | ((w >> 1) & 0x300) | ((w << 2) & 0x400) | ((w >> 1) & 0x40) | ((w << 1)
        & 0x80) | ((w >> 2) & 0xe) | ((w << 3) & 0x20)
}

#[verifier::when_used_as_spec(spec_c_j_offset)]
pub fn c_j_offset(w: u32) -> (r: u32)
    ensures
        r == spec_c_j_offset(w),
{
    (if w & 0x1000 != 0 {
        0xffff_f800u32
    } else {
        0u32
    }) | ((w >> 7) & 0x10) | ((w >> 1) & 0x300) | ((w << 2) & 0x400) | ((w >> 1) & 0x40) | ((w << 1)
        & 0x80) | ((w >> 2) & 0xe) | ((w << 3) & 0x20)
}

/// The branch offset of C.BEQZ and C.BNEZ, sign-extended: offset bit 8 in
/// bit 12, bits 4:3 in bits 11:10, bits 7:6 in bits 6:5, bits 2:1 in bits
/// 4:3, bit 5 in bit 2.
pub open spec fn spec_c_b_offset(w: u32) -> u32 {
    (if w & 0x1000 != 0 {
        0xffff_ff00u32
    } else {
        0u32
    }) | ((w >> 7) & 0x18) | ((w << 1) & 0xc0) | ((w >> 2) & 0x6) | ((w << 3) & 0x20)
}

#[verifier::when_used_as_spec(spec_c_b_offset)]
pub fn c_b_offset(w: u32) -> (r: u32)
    ensures
        r == spec_c_b_offset(w),
{
    (if w & 0x1000 != 0 {
        0xffff_ff00u32
    } else {
        0u32
    }) | ((w >> 7) & 0x18) | ((w << 1) & 0xc0) | ((w >> 2) & 0x6) | ((w << 3) & 0x20)
}

/// `c.addi4spn rd', uimm` is `addi rd', x2, uimm`; a zero immediate is reserved.
pub open spec fn spec_c_addi4spn(word: u16) -> Result<u32, ()> {
    let w: u32 = word as u32;
    let uimm: u32 = ((w >> 7) & 0x30) | ((w >> 1) & 0x3c0) | ((w >> 4) & 0x4) | ((w >> 2) & 0x8);
    if uimm == 0 {
        Err(())
    } else {
        Ok(enc_i(uimm, 2, 0, c_short_lo(w), 0x13))
    }
}

#[verifier::when_used_as_spec(spec_c_addi4spn)]
pub fn c_addi4spn(word: u16) -> (r: Result<u32, ()>)
    ensures
        r == spec_c_addi4spn(word),
{
    let w: u32 = word as u32;
    let uimm: u32 = ((w >> 7) & 0x30) | ((w >> 1) & 0x3c0) | ((w >> 4) & 0x4) | ((w >> 2) & 0x8);
    if uimm == 0 {
        Err(())
    } else {
        Ok(enc_i(uimm, 2, 0, c_short_lo(w), 0x13))
    }
}

/// `c.ld rd', uimm(rs1')` is `ld rd', uimm(rs1')`.
pub open spec fn spec_c_ld(word: u16) -> Result<u32, ()> {
    let w: u32 = word as u32;
    Ok(enc_i(c_uimm_d(w), c_short_hi(w), 3, c_short_lo(w), 0x03))
}

#[verifier::when_used_as_spec(spec_c_ld)]
pub fn c_ld(word: u16) -> (r: Result<u32, ()>)
    ensures
        r == spec_c_ld(word),
{
    let w: u32 = word as u32;
    Ok(enc_i(c_uimm_d(w), c_short_hi(w), 3, c_short_lo(w), 0x03))
}

/// `c.fld rd', uimm(rs1')` is `fld rd', uimm(rs1')`.
pub open spec fn spec_c_fld(word: u16) -> Result<u32, ()> {
    let w: u32 = word as u32;
    Ok(enc_i(c_uimm_d(w), c_short_hi(w), 3, c_short_lo(w), 0x07))
}

#[verifier::when_used_as_spec(spec_c_fld)]
pub fn c_fld(word: u16) -> (r: Result<u32, ()>)
    ensures
        r == spec_c_fld(word),
{
    let w: u32 = word as u32;
    Ok(enc_i(c_uimm_d(w), c_short_hi(w), 3, c_short_lo(w), 0x07))
}

/// `c.lw rd', uimm(rs1')` is `lw rd', uimm(rs1')`.
pub open spec fn spec_c_lw(word: u16) -> Result<u32, ()> {
    let w: u32 = word as u32;
    Ok(enc_i(c_uimm_w(w), c_short_hi(w), 2, c_short_lo(w), 0x03))
}

#[verifier::when_used_as_spec(spec_c_lw)]
pub fn c_lw(word: u16) -> (r: Result<u32, ()>)
    ensures
        r == spec_c_lw(word),
{
    let w: u32 = word as u32;
    Ok(enc_i(c_uimm_w(w), c_short_hi(w), 2, c_short_lo(w), 0x03))
}

/// `c.flw rd', uimm(rs1')` is `flw rd', uimm(rs1')`.
pub open spec fn spec_c_flw(word: u16) -> Result<u32, ()> {
    let w: u32 = word as u32;
    Ok(enc_i(c_uimm_w(w), c_short_hi(w), 2, c_short_lo(w), 0x07))
}

#[verifier::when_used_as_spec(spec_c_flw)]
pub fn c_flw(word: u16) -> (r: Result<u32, ()>)
    ensures
        r == spec_c_flw(word),
{
    let w: u32 = word as u32;
    Ok(enc_i(c_uimm_w(w), c_short_hi(w), 2, c_short_lo(w), 0x07))
}

/// `c.sd rs2', uimm(rs1')` is `sd rs2', uimm(rs1')`.
pub open spec fn spec_c_sd(word: u16) -> Result<u32, ()> {
    let w: u32 = word as u32;
    Ok(enc_s(c_uimm_d(w), c_short_lo(w), c_short_hi(w), 3, 0x23))
}

#[verifier::when_used_as_spec(spec_c_sd)]
pub fn c_sd(word: u16) -> (r: Result<u32, ()>)
    ensures
        r == spec_c_sd(word),
{
    let w: u32 = word as u32;
    Ok(enc_s(c_uimm_d(w), c_short_lo(w), c_short_hi(w), 3, 0x23))
}

/// `c.fsd rs2', uimm(rs1')` is `fsd rs2', uimm(rs1')`.
pub open spec fn spec_c_fsd(word: u16) -> Result<u32, ()> {
    let w: u32 = word as u32;
    Ok(enc_s(c_uimm_d(w), c_short_lo(w), c_short_hi(w), 3, 0x27))
}

#[verifier::when_used_as_spec(spec_c_fsd)]
pub fn c_fsd(word: u16) -> (r: Result<u32, ()>)
    ensures
        r == spec_c_fsd(word),
{
    let w: u32 = word as u32;
    Ok(enc_s(c_uimm_d(w), c_short_lo(w), c_short_hi(w), 3, 0x27))
}

/// `c.sw rs2', uimm(rs1')` is `sw rs2', uimm(rs1')`.
pub open spec fn spec_c_sw(word: u16) -> Result<u32, ()> {
    let w: u32 = word as u32;
    Ok(enc_s(c_uimm_w(w), c_short_lo(w), c_short_hi(w), 2, 0x23))
}

#[verifier::when_used_as_spec(spec_c_sw)]
pub fn c_sw(word: u16) -> (r: Result<u32, ()>)
    ensures
        r == spec_c_sw(word),
{
    let w: u32 = word as u32;
    Ok(enc_s(c_uimm_w(w), c_short_lo(w), c_short_hi(w), 2, 0x23))
}

/// `c.fsw rs2', uimm(rs1')` is `fsw rs2', uimm(rs1')`.
pub open spec fn spec_c_fsw(word: u16) -> Result<u32, ()> {
    let w: u32 = word as u32;
    Ok(enc_s(c_uimm_w(w), c_short_lo(w), c_short_hi(w), 2, 0x27))
}

#[verifier::when_used_as_spec(spec_c_fsw)]
pub fn c_fsw(word: u16) -> (r: Result<u32, ()>)
    ensures
        r == spec_c_fsw(word),
{
    let w: u32 = word as u32;
    Ok(enc_s(c_uimm_w(w), c_short_lo(w), c_short_hi(w), 2, 0x27))
}

/// `c.nop` is `addi x0, x0, 0`.
pub open spec fn spec_c_nop(_word: u16) -> Result<u32, ()> {
    Ok(0x0000_0013u32)
}

#[verifier::when_used_as_spec(spec_c_nop)]
pub fn c_nop(_word: u16) -> (r: Result<u32, ()>)
    ensures
        r == spec_c_nop(_word),
{
    Ok(0x0000_0013u32)
}

/// `c.addi rd, imm` is `addi rd, rd, imm`.
pub open spec fn spec_c_addi(word: u16) -> Result<u32, ()> {
    let w: u32 = word as u32;
    Ok(enc_i(c_imm6(w), c_reg_hi(w), 0, c_reg_hi(w), 0x13))
}

#[verifier::when_used_as_spec(spec_c_addi)]
pub fn c_addi(word: u16) -> (r: Result<u32, ()>)
    ensures
        r == spec_c_addi(word),
{
    let w: u32 = word as u32;
    Ok(enc_i(c_imm6(w), c_reg_hi(w), 0, c_reg_hi(w), 0x13))
}

/// `c.jal offset` is `jal x1, offset`.
pub open spec fn spec_c_jal(word: u16) -> Result<u32, ()> {
    let w: u32 = word as u32;
    Ok(enc_j(c_j_offset(w), 1, 0x6f))
}

#[verifier::when_used_as_spec(spec_c_jal)]
pub fn c_jal(word: u16) -> (r: Result<u32, ()>)
    ensures
        r == spec_c_jal(word),
{
    let w: u32 = word as u32;
    Ok(enc_j(c_j_offset(w), 1, 0x6f))
}

/// `c.addiw rd, imm` is `addiw rd, rd, imm`; rd = x0 is reserved.
pub open spec fn spec_c_addiw(word: u16) -> Result<u32, ()> {
    let w: u32 = word as u32;
    if c_reg_hi(w) == 0 {
        Err(())
    } else {
        Ok(enc_i(c_imm6(w), c_reg_hi(w), 0, c_reg_hi(w), 0x1b))
    }
}

#[verifier::when_used_as_spec(spec_c_addiw)]
pub fn c_addiw(word: u16) -> (r: Result<u32, ()>)
    ensures
        r == spec_c_addiw(word),
{
    let w: u32 = word as u32;
    if c_reg_hi(w) == 0 {
        Err(())
    } else {
        Ok(enc_i(c_imm6(w), c_reg_hi(w), 0, c_reg_hi(w), 0x1b))
    }
}

/// `c.li rd, imm` is `addi rd, x0, imm`.
pub open spec fn spec_c_li(word: u16) -> Result<u32, ()> {
    let w: u32 = word as u32;
    Ok(enc_i(c_imm6(w), 0, 0, c_reg_hi(w), 0x13))
}

#[verifier::when_used_as_spec(spec_c_li)]
pub fn c_li(word: u16) -> (r: Result<u32, ()>)
    ensures
        r == spec_c_li(word),
{
    let w: u32 = word as u32;
    Ok(enc_i(c_imm6(w), 0, 0, c_reg_hi(w), 0x13))
}

/// `c.addi16sp imm` is `addi x2, x2, imm`, with immediate bit 9 in bit 12,
/// bit 4 in bit 6, bit 6 in bit 5, bits 8:7 in bits 4:3 and bit 5 in bit 2; a
/// zero immediate is reserved.
pub open spec fn spec_c_addi16sp(word: u16) -> Result<u32, ()> {
    let w: u32 = word as u32;
    let imm: u32 = (if w & 0x1000 != 0 {
        0xffff_fe00u32
    } else {
        0u32
    }) | ((w >> 2) & 0x10) | ((w << 1) & 0x40) | ((w << 4) & 0x180) | ((w << 3) & 0x20);
    if imm == 0 {
        Err(())
    } else {
        Ok(enc_i(imm, 2, 0, 2, 0x13))
    }
}

#[verifier::when_used_as_spec(spec_c_addi16sp)]
pub fn c_addi16sp(word: u16) -> (r: Result<u32, ()>)
    ensures
        r == spec_c_addi16sp(word),
{
    let w: u32 = word as u32;
    let imm: u32 = (if w & 0x1000 != 0 {
        0xffff_fe00u32
    } else {
        0u32
    }) | ((w >> 2) & 0x10) | ((w << 1) & 0x40) | ((w << 4) & 0x180) | ((w << 3) & 0x20);
    if imm == 0 {
        Err(())
    } else {
        Ok(enc_i(imm, 2, 0, 2, 0x13))
    }
}

/// `c.lui rd, imm` is `lui rd, imm`, with immediate bit 17 in bit 12 and bits
/// 16:12 in bits 6:2; a zero immediate is reserved.
pub open spec fn spec_c_lui(word: u16) -> Result<u32, ()> {
    let w: u32 = word as u32;
    let imm: u32 = (if w & 0x1000 != 0 {
        0xfffe_0000u32
    } else {
        0u32
    }) | ((w << 10) & 0x1f000);
    if imm == 0 {
        Err(())
    } else {
        Ok(enc_u(imm, c_reg_hi(w), 0x37))
    }
}

#[verifier::when_used_as_spec(spec_c_lui)]
pub fn c_lui(word: u16) -> (r: Result<u32, ()>)
    ensures
        r == spec_c_lui(word),
{
    let w: u32 = word as u32;
    let imm: u32 = (if w & 0x1000 != 0 {
        0xfffe_0000u32
    } else {
        0u32
    }) | ((w << 10) & 0x1f000);
    if imm == 0 {
        Err(())
    } else {
        Ok(enc_u(imm, c_reg_hi(w), 0x37))
    }
}

/// `c.srli rd', shamt` is `srli rd', rd', shamt`.
pub open spec fn spec_c_srli(word: u16) -> Result<u32, ()> {
    let w: u32 = word as u32;
    Ok(enc_i(c_uimm6(w), c_short_hi(w), 5, c_short_hi(w), 0x13))
}

#[verifier::when_used_as_spec(spec_c_srli)]
pub fn c_srli(word: u16) -> (r: Result<u32, ()>)
    ensures
        r == spec_c_srli(word),
{
    let w: u32 = word as u32;
    Ok(enc_i(c_uimm6(w), c_short_hi(w), 5, c_short_hi(w), 0x13))
}

/// `c.srai rd', shamt` is `srai rd', rd', shamt`.
pub open spec fn spec_c_srai(word: u16) -> Result<u32, ()> {
    let w: u32 = word as u32;
    Ok(enc_i(0x400 | c_uimm6(w), c_short_hi(w), 5, c_short_hi(w), 0x13))
}

#[verifier::when_used_as_spec(spec_c_srai)]
pub fn c_srai(word: u16) -> (r: Result<u32, ()>)
    ensures
        r == spec_c_srai(word),
{
    let w: u32 = word as u32;
    Ok(enc_i(0x400 | c_uimm6(w), c_short_hi(w), 5, c_short_hi(w), 0x13))
}

/// `c.andi rd', imm` is `andi rd', rd', imm`.
pub open spec fn spec_c_andi(word: u16) -> Result<u32, ()> {
    let w: u32 = word as u32;
    Ok(enc_i(c_imm6(w), c_short_hi(w), 7, c_short_hi(w), 0x13))
}

#[verifier::when_used_as_spec(spec_c_andi)]
pub fn c_andi(word: u16) -> (r: Result<u32, ()>)
    ensures
        r == spec_c_andi(word),
{
    let w: u32 = word as u32;
    Ok(enc_i(c_imm6(w), c_short_hi(w), 7, c_short_hi(w), 0x13))
}

/// `c.sub rd', rs2'` is `sub rd', rd', rs2'`.
pub open spec fn spec_c_sub(word: u16) -> Result<u32, ()> {
    let w: u32 = word as u32;
    Ok(enc_r(0x20, c_short_lo(w), c_short_hi(w), 0, c_short_hi(w), 0x33))
}

#[verifier::when_used_as_spec(spec_c_sub)]
pub fn c_sub(word: u16) -> (r: Result<u32, ()>)
    ensures
        r == spec_c_sub(word),
{
    let w: u32 = word as u32;
    Ok(enc_r(0x20, c_short_lo(w), c_short_hi(w), 0, c_short_hi(w), 0x33))
}

/// `c.xor rd', rs2'` is `xor rd', rd', rs2'`.
pub open spec fn spec_c_xor(word: u16) -> Result<u32, ()> {
    let w: u32 = word as u32;
    Ok(enc_r(0, c_short_lo(w), c_short_hi(w), 4, c_short_hi(w), 0x33))
}

#[verifier::when_used_as_spec(spec_c_xor)]
pub fn c_xor(word: u16) -> (r: Result<u32, ()>)
    ensures
        r == spec_c_xor(word),
{
    let w: u32 = word as u32;
    Ok(enc_r(0, c_short_lo(w), c_short_hi(w), 4, c_short_hi(w), 0x33))
}

/// `c.or rd', rs2'` is `or rd', rd', rs2'`.
pub open spec fn spec_c_or(word: u16) -> Result<u32, ()> {
    let w: u32 = word as u32;
    Ok(enc_r(0, c_short_lo(w), c_short_hi(w), 6, c_short_hi(w), 0x33))
}

#[verifier::when_used_as_spec(spec_c_or)]
pub fn c_or(word: u16) -> (r: Result<u32, ()>)
    ensures
        r == spec_c_or(word),
{
    let w: u32 = word as u32;
    Ok(enc_r(0, c_short_lo(w), c_short_hi(w), 6, c_short_hi(w), 0x33))
}

/// `c.and rd', rs2'` is `and rd', rd', rs2'`.
pub open spec fn spec_c_and(word: u16) -> Result<u32, ()> {
    let w: u32 = word as u32;
    Ok(enc_r(0, c_short_lo(w), c_short_hi(w), 7, c_short_hi(w), 0x33))
}

#[verifier::when_used_as_spec(spec_c_and)]
pub fn c_and(word: u16) -> (r: Result<u32, ()>)
    ensures
        r == spec_c_and(word),
{
    let w: u32 = word as u32;
    Ok(enc_r(0, c_short_lo(w), c_short_hi(w), 7, c_short_hi(w), 0x33))
}

/// `c.subw rd', rs2'` is `subw rd', rd', rs2'`.
pub open spec fn spec_c_subw(word: u16) -> Result<u32, ()> {
    let w: u32 = word as u32;
    Ok(enc_r(0x20, c_short_lo(w), c_short_hi(w), 0, c_short_hi(w), 0x3b))
}

#[verifier::when_used_as_spec(spec_c_subw)]
pub fn c_subw(word: u16) -> (r: Result<u32, ()>)
    ensures
        r == spec_c_subw(word),
{
    let w: u32 = word as u32;
    Ok(enc_r(0x20, c_short_lo(w), c_short_hi(w), 0, c_short_hi(w), 0x3b))
}

/// `c.addw rd', rs2'` is `addw rd', rd', rs2'`.
pub open spec fn spec_c_addw(word: u16) -> Result<u32, ()> {
    let w: u32 = word as u32;
    Ok(enc_r(0, c_short_lo(w), c_short_hi(w), 0, c_short_hi(w), 0x3b))
}

#[verifier::when_used_as_spec(spec_c_addw)]
pub fn c_addw(word: u16) -> (r: Result<u32, ()>)
    ensures
        r == spec_c_addw(word),
{
    let w: u32 = word as u32;
    Ok(enc_r(0, c_short_lo(w), c_short_hi(w), 0, c_short_hi(w), 0x3b))
}

/// `c.j offset` is `jal x0, offset`.
pub open spec fn spec_c_j(word: u16) -> Result<u32, ()> {
    let w: u32 = word as u32;
    Ok(enc_j(c_j_offset(w), 0, 0x6f))
}

#[verifier::when_used_as_spec(spec_c_j)]
pub fn c_j(word: u16) -> (r: Result<u32, ()>)
    ensures
        r == spec_c_j(word),
{
    let w: u32 = word as u32;
    Ok(enc_j(c_j_offset(w), 0, 0x6f))
}

/// `c.beqz rs1', offset` is `beq rs1', x0, offset`.
pub open spec fn spec_c_beqz(word: u16) -> Result<u32, ()> {
    let w: u32 = word as u32;
    Ok(enc_b(c_b_offset(w), 0, c_short_hi(w), 0, 0x63))
}

#[verifier::when_used_as_spec(spec_c_beqz)]
pub fn c_beqz(word: u16) -> (r: Result<u32, ()>)
    ensures
        r == spec_c_beqz(word),
{
    let w: u32 = word as u32;
    Ok(enc_b(c_b_offset(w), 0, c_short_hi(w), 0, 0x63))
}

/// `c.bnez rs1', offset` is `bne rs1', x0, offset`.
pub open spec fn spec_c_bnez(word: u16) -> Result<u32, ()> {
    let w: u32 = word as u32;
    Ok(enc_b(c_b_offset(w), 0, c_short_hi(w), 1, 0x63))
}

#[verifier::when_used_as_spec(spec_c_bnez)]
pub fn c_bnez(word: u16) -> (r: Result<u32, ()>)
    ensures
        r == spec_c_bnez(word),
{
    let w: u32 = word as u32;
    Ok(enc_b(c_b_offset(w), 0, c_short_hi(w), 1, 0x63))
}

/// `c.slli rd, shamt` is `slli rd, rd, shamt`.
pub open spec fn spec_c_slli(word: u16) -> Result<u32, ()> {
    let w: u32 = word as u32;
    Ok(enc_i(c_uimm6(w), c_reg_hi(w), 1, c_reg_hi(w), 0x13))
}

#[verifier::when_used_as_spec(spec_c_slli)]
pub fn c_slli(word: u16) -> (r: Result<u32, ()>)
    ensures
        r == spec_c_slli(word),
{
    let w: u32 = word as u32;
    Ok(enc_i(c_uimm6(w), c_reg_hi(w), 1, c_reg_hi(w), 0x13))
}

/// `c.fldsp rd, uimm(x2)` is `fld rd, uimm(x2)`.
pub open spec fn spec_c_fldsp(word: u16) -> Result<u32, ()> {
    let w: u32 = word as u32;
    Ok(enc_i(c_uimm_ldsp(w), 2, 3, c_reg_hi(w), 0x07))
}

#[verifier::when_used_as_spec(spec_c_fldsp)]
pub fn c_fldsp(word: u16) -> (r: Result<u32, ()>)
    ensures
        r == spec_c_fldsp(word),
{
    let w: u32 = word as u32;
    Ok(enc_i(c_uimm_ldsp(w), 2, 3, c_reg_hi(w), 0x07))
}

/// `c.lwsp rd, uimm(x2)` is `lw rd, uimm(x2)`; rd = x0 is reserved.
pub open spec fn spec_c_lwsp(word: u16) -> Result<u32, ()> {
    let w: u32 = word as u32;
    if c_reg_hi(w) == 0 {
        Err(())
    } else {
        Ok(enc_i(c_uimm_lwsp(w), 2, 2, c_reg_hi(w), 0x03))
    }
}

#[verifier::when_used_as_spec(spec_c_lwsp)]
pub fn c_lwsp(word: u16) -> (r: Result<u32, ()>)
    ensures
        r == spec_c_lwsp(word),
{
    let w: u32 = word as u32;
    if c_reg_hi(w) == 0 {
        Err(())
    } else {
        Ok(enc_i(c_uimm_lwsp(w), 2, 2, c_reg_hi(w), 0x03))
    }
}

/// `c.flwsp rd, uimm(x2)` is `flw rd, uimm(x2)`.
pub open spec fn spec_c_flwsp(word: u16) -> Result<u32, ()> {
    let w: u32 = word as u32;
    Ok(enc_i(c_uimm_lwsp(w), 2, 2, c_reg_hi(w), 0x07))
}

#[verifier::when_used_as_spec(spec_c_flwsp)]
pub fn c_flwsp(word: u16) -> (r: Result<u32, ()>)
    ensures
        r == spec_c_flwsp(word),
{
    let w: u32 = word as u32;
    Ok(enc_i(c_uimm_lwsp(w), 2, 2, c_reg_hi(w), 0x07))
}

/// `c.ldsp rd, uimm(x2)` is `ld rd, uimm(x2)`; rd = x0 is reserved.
pub open spec fn spec_c_ldsp(word: u16) -> Result<u32, ()> {
    let w: u32 = word as u32;
    if c_reg_hi(w) == 0 {
        Err(())
    } else {
        Ok(enc_i(c_uimm_ldsp(w), 2, 3, c_reg_hi(w), 0x03))
    }
}

#[verifier::when_used_as_spec(spec_c_ldsp)]
pub fn c_ldsp(word: u16) -> (r: Result<u32, ()>)
    ensures
        r == spec_c_ldsp(word),
{
    let w: u32 = word as u32;
    if c_reg_hi(w) == 0 {
        Err(())
    } else {
        Ok(enc_i(c_uimm_ldsp(w), 2, 3, c_reg_hi(w), 0x03))
    }
}

/// `c.jr rs1` is `jalr x0, 0(rs1)`; rs1 = x0 is reserved.
pub open spec fn spec_c_jr(word: u16) -> Result<u32, ()> {
    let w: u32 = word as u32;
    if c_reg_hi(w) == 0 {
        Err(())
    } else {
        Ok(enc_i(0, c_reg_hi(w), 0, 0, 0x67))
    }
}

#[verifier::when_used_as_spec(spec_c_jr)]
pub fn c_jr(word: u16) -> (r: Result<u32, ()>)
    ensures
        r == spec_c_jr(word),
{
    let w: u32 = word as u32;
    if c_reg_hi(w) == 0 {
        Err(())
    } else {
        Ok(enc_i(0, c_reg_hi(w), 0, 0, 0x67))
    }
}

/// `c.mv rd, rs2` is `add rd, x0, rs2`; rs2 = x0 is not a move.
pub open spec fn spec_c_mv(word: u16) -> Result<u32, ()> {
    let w: u32 = word as u32;
    if c_reg_lo(w) == 0 {
        Err(())
    } else {
        Ok(enc_r(0, c_reg_lo(w), 0, 0, c_reg_hi(w), 0x33))
    }
}

#[verifier::when_used_as_spec(spec_c_mv)]
pub fn c_mv(word: u16) -> (r: Result<u32, ()>)
    ensures
        r == spec_c_mv(word),
{
    let w: u32 = word as u32;
    if c_reg_lo(w) == 0 {
        Err(())
    } else {
        Ok(enc_r(0, c_reg_lo(w), 0, 0, c_reg_hi(w), 0x33))
    }
}

/// `c.ebreak` is `ebreak`.
pub open spec fn spec_c_ebreak(_word: u16) -> Result<u32, ()> {
    Ok(0x0010_0073u32)
}

#[verifier::when_used_as_spec(spec_c_ebreak)]
pub fn c_ebreak(_word: u16) -> (r: Result<u32, ()>)
    ensures
        r == spec_c_ebreak(_word),
{
    Ok(0x0010_0073u32)
}

/// `c.jalr rs1` is `jalr x1, 0(rs1)`; rs1 = x0 is not a jump.
pub open spec fn spec_c_jalr(word: u16) -> Result<u32, ()> {
    let w: u32 = word as u32;
    if c_reg_hi(w) == 0 {
        Err(())
    } else {
        Ok(enc_i(0, c_reg_hi(w), 0, 1, 0x67))
    }
}

#[verifier::when_used_as_spec(spec_c_jalr)]
pub fn c_jalr(word: u16) -> (r: Result<u32, ()>)
    ensures
        r == spec_c_jalr(word),
{
    let w: u32 = word as u32;
    if c_reg_hi(w) == 0 {
        Err(())
    } else {
        Ok(enc_i(0, c_reg_hi(w), 0, 1, 0x67))
    }
}

/// `c.add rd, rs2` is `add rd, rd, rs2`; rd = x0 and rs2 = x0 are refused.
pub open spec fn spec_c_add(word: u16) -> Result<u32, ()> {
    let w: u32 = word as u32;
    if c_reg_hi(w) == 0 || c_reg_lo(w) == 0 {
        Err(())
    } else {
        Ok(enc_r(0, c_reg_lo(w), c_reg_hi(w), 0, c_reg_hi(w), 0x33))
    }
}

#[verifier::when_used_as_spec(spec_c_add)]
pub fn c_add(word: u16) -> (r: Result<u32, ()>)
    ensures
        r == spec_c_add(word),
{
    let w: u32 = word as u32;
    if c_reg_hi(w) == 0 || c_reg_lo(w) == 0 {
        Err(())
    } else {
        Ok(enc_r(0, c_reg_lo(w), c_reg_hi(w), 0, c_reg_hi(w), 0x33))
    }
}

/// `c.fsdsp rs2, uimm(x2)` is `fsd rs2, uimm(x2)`.
pub open spec fn spec_c_fsdsp(word: u16) -> Result<u32, ()> {
    let w: u32 = word as u32;
    Ok(enc_s(c_uimm_sdsp(w), c_reg_lo(w), 2, 3, 0x27))
}

#[verifier::when_used_as_spec(spec_c_fsdsp)]
pub fn c_fsdsp(word: u16) -> (r: Result<u32, ()>)
    ensures
        r == spec_c_fsdsp(word),
{
    let w: u32 = word as u32;
    Ok(enc_s(c_uimm_sdsp(w), c_reg_lo(w), 2, 3, 0x27))
}

/// `c.swsp rs2, uimm(x2)` is `sw rs2, uimm(x2)`.
pub open spec fn spec_c_swsp(word: u16) -> Result<u32, ()> {
    let w: u32 = word as u32;
    Ok(enc_s(c_uimm_swsp(w), c_reg_lo(w), 2, 2, 0x23))
}

#[verifier::when_used_as_spec(spec_c_swsp)]
pub fn c_swsp(word: u16) -> (r: Result<u32, ()>)
    ensures
        r == spec_c_swsp(word),
{
    let w: u32 = word as u32;
    Ok(enc_s(c_uimm_swsp(w), c_reg_lo(w), 2, 2, 0x23))
}

/// `c.fswsp rs2, uimm(x2)` is `fsw rs2, uimm(x2)`.
pub open spec fn spec_c_fswsp(word: u16) -> Result<u32, ()> {
    let w: u32 = word as u32;
    Ok(enc_s(c_uimm_swsp(w), c_reg_lo(w), 2, 2, 0x27))
}

#[verifier::when_used_as_spec(spec_c_fswsp)]
pub fn c_fswsp(word: u16) -> (r: Result<u32, ()>)
    ensures
        r == spec_c_fswsp(word),
{
    let w: u32 = word as u32;
    Ok(enc_s(c_uimm_swsp(w), c_reg_lo(w), 2, 2, 0x27))
}

/// `c.sdsp rs2, uimm(x2)` is `sd rs2, uimm(x2)`.
pub open spec fn spec_c_sdsp(word: u16) -> Result<u32, ()> {
    let w: u32 = word as u32;
    Ok(enc_s(c_uimm_sdsp(w), c_reg_lo(w), 2, 3, 0x23))
}

#[verifier::when_used_as_spec(spec_c_sdsp)]
pub fn c_sdsp(word: u16) -> (r: Result<u32, ()>)
    ensures
        r == spec_c_sdsp(word),
{
    let w: u32 = word as u32;
    Ok(enc_s(c_uimm_sdsp(w), c_reg_lo(w), 2, 3, 0x23))
}

/// Quadrant 0: loads and stores through the short registers, and
/// C.ADDI4SPN. Under funct3 3 and 7 the XLEN chooses between the
/// single-precision and the doubleword access.
pub open spec fn spec_opecode_0(xlen: Xlen, word: u16) -> Result<u32, ()> {
    let funct3: u16 = (word >> 13) & 0x7;
    if funct3 == 0 {
        c_addi4spn(word)
    } else if funct3 == 1 {
        c_fld(word)
    } else if funct3 == 2 {
        c_lw(word)
    } else if funct3 == 3 {
        match xlen {
            Xlen::X32 => c_flw(word),
            Xlen::X64 => c_ld(word),
        }
    } else if funct3 == 5 {
        c_fsd(word)
    } else if funct3 == 6 {
        c_sw(word)
    } else if funct3 == 7 {
        match xlen {
            Xlen::X32 => c_fsw(word),
            Xlen::X64 => c_sd(word),
        }
    } else {
        Err(())
    }
}

#[verifier::when_used_as_spec(spec_opecode_0)]
pub fn opecode_0(xlen: Xlen, word: u16) -> (r: Result<u32, ()>)
    ensures
        r == spec_opecode_0(xlen, word),
{
    let funct3: u16 = (word >> 13) & 0x7;
    if funct3 == 0 {
        c_addi4spn(word)
    } else if funct3 == 1 {
        c_fld(word)
    } else if funct3 == 2 {
        c_lw(word)
    } else if funct3 == 3 {
        match xlen {
            Xlen::X32 => c_flw(word),
            Xlen::X64 => c_ld(word),
        }
    } else if funct3 == 5 {
        c_fsd(word)
    } else if funct3 == 6 {
        c_sw(word)
    } else if funct3 == 7 {
        match xlen {
            Xlen::X32 => c_fsw(word),
            Xlen::X64 => c_sd(word),
        }
    } else {
        Err(())
    }
}

/// Quadrant 1: immediates, the register-register operations on the short
/// registers, jumps and branches. Under funct3 1 the XLEN chooses between
/// C.JAL and C.ADDIW; under funct3 3 rd = x2 chooses C.ADDI16SP; under funct3
/// 4 bits 11:10, and then bit 12 and bits 6:5, choose the operation, and the
/// `w` operations exist under XLEN 64 only.
pub open spec fn spec_opecode_1(xlen: Xlen, word: u16) -> Result<u32, ()> {
    let funct3: u16 = (word >> 13) & 0x7;
    if funct3 == 0 {
        if word == 1 {
            c_nop(word)
        } else {
            c_addi(word)
        }
    } else if funct3 == 1 {
        match xlen {
            Xlen::X32 => c_jal(word),
            Xlen::X64 => c_addiw(word),
        }
    } else if funct3 == 2 {
        c_li(word)
    } else if funct3 == 3 {
        if (word >> 7) & 0x1f == 2 {
            c_addi16sp(word)
        } else {
            c_lui(word)
        }
    } else if funct3 == 4 {
        let funct2: u16 = (word >> 10) & 0x3;
        let high: bool = (word >> 12) & 0x1 != 0;
        let low: u16 = (word >> 5) & 0x3;
        if funct2 == 0 {
            c_srli(word)
        } else if funct2 == 1 {
            c_srai(word)
        } else if funct2 == 2 {
            c_andi(word)
        } else if !high {
            if low == 0 {
                c_sub(word)
            } else if low == 1 {
                c_xor(word)
            } else if low == 2 {
                c_or(word)
            } else {
                c_and(word)
            }
        } else {
            match xlen {
                Xlen::X32 => Err(()),
                Xlen::X64 => if low == 0 {
                    c_subw(word)
                } else if low == 1 {
                    c_addw(word)
                } else {
                    Err(())
                },
            }
        }
    } else if funct3 == 5 {
        c_j(word)
    } else if funct3 == 6 {
        c_beqz(word)
    } else {
        c_bnez(word)
    }
}

#[verifier::when_used_as_spec(spec_opecode_1)]
pub fn opecode_1(xlen: Xlen, word: u16) -> (r: Result<u32, ()>)
    ensures
        r == spec_opecode_1(xlen, word),
{
    let funct3: u16 = (word >> 13) & 0x7;
    if funct3 == 0 {
        if word == 1 {
            c_nop(word)
        } else {
            c_addi(word)
        }
    } else if funct3 == 1 {
        match xlen {
            Xlen::X32 => c_jal(word),
            Xlen::X64 => c_addiw(word),
        }
    } else if funct3 == 2 {
        c_li(word)
    } else if funct3 == 3 {
        if (word >> 7) & 0x1f == 2 {
            c_addi16sp(word)
        } else {
            c_lui(word)
        }
    } else if funct3 == 4 {
        let funct2: u16 = (word >> 10) & 0x3;
        let high: bool = (word >> 12) & 0x1 != 0;
        let low: u16 = (word >> 5) & 0x3;
        if funct2 == 0 {
            c_srli(word)
        } else if funct2 == 1 {
            c_srai(word)
        } else if funct2 == 2 {
            c_andi(word)
        } else if !high {
            if low == 0 {
                c_sub(word)
            } else if low == 1 {
                c_xor(word)
            } else if low == 2 {
                c_or(word)
            } else {
                c_and(word)
            }
        } else {
            match xlen {
                Xlen::X32 => Err(()),
                Xlen::X64 => if low == 0 {
                    c_subw(word)
                } else if low == 1 {
                    c_addw(word)
                } else {
                    Err(())
                },
            }
        }
    } else if funct3 == 5 {
        c_j(word)
    } else if funct3 == 6 {
        c_beqz(word)
    } else {
        c_bnez(word)
    }
}

/// Quadrant 2: C.SLLI, the accesses relative to the stack pointer, and under
/// funct3 4 the jumps through a register, C.MV, C.ADD and C.EBREAK, told
/// apart by bit 12 and by which of the two register fields are zero.
pub open spec fn spec_opecode_2(xlen: Xlen, word: u16) -> Result<u32, ()> {
    let funct3: u16 = (word >> 13) & 0x7;
    let high: bool = (word >> 12) & 0x1 != 0;
    let rs1: u16 = (word >> 7) & 0x1f;
    let rs2: u16 = (word >> 2) & 0x1f;
    if funct3 == 0 {
        c_slli(word)
    } else if funct3 == 1 {
        c_fldsp(word)
    } else if funct3 == 2 {
        c_lwsp(word)
    } else if funct3 == 3 {
        match xlen {
            Xlen::X32 => c_flwsp(word),
            Xlen::X64 => c_ldsp(word),
        }
    } else if funct3 == 4 {
        if !high {
            if rs2 == 0 {
                c_jr(word)
            } else {
                c_mv(word)
            }
        } else if rs2 == 0 {
            if rs1 == 0 {
                c_ebreak(word)
            } else {
                c_jalr(word)
            }
        } else {
            c_add(word)
        }
    } else if funct3 == 5 {
        c_fsdsp(word)
    } else if funct3 == 6 {
        c_swsp(word)
    } else {
        match xlen {
            Xlen::X32 => c_fswsp(word),
            Xlen::X64 => c_sdsp(word),
        }
    }
}

#[verifier::when_used_as_spec(spec_opecode_2)]
pub fn opecode_2(xlen: Xlen, word: u16) -> (r: Result<u32, ()>)
    ensures
        r == spec_opecode_2(xlen, word),
{
    let funct3: u16 = (word >> 13) & 0x7;
    let high: bool = (word >> 12) & 0x1 != 0;
    let rs1: u16 = (word >> 7) & 0x1f;
    let rs2: u16 = (word >> 2) & 0x1f;
    if funct3 == 0 {
        c_slli(word)
    } else if funct3 == 1 {
        c_fldsp(word)
    } else if funct3 == 2 {
        c_lwsp(word)
    } else if funct3 == 3 {
        match xlen {
            Xlen::X32 => c_flwsp(word),
            Xlen::X64 => c_ldsp(word),
        }
    } else if funct3 == 4 {
        if !high {
            if rs2 == 0 {
                c_jr(word)
            } else {
                c_mv(word)
            }
        } else if rs2 == 0 {
            if rs1 == 0 {
                c_ebreak(word)
            } else {
                c_jalr(word)
            }
        } else {
            c_add(word)
        }
    } else if funct3 == 5 {
        c_fsdsp(word)
    } else if funct3 == 6 {
        c_swsp(word)
    } else {
        match xlen {
            Xlen::X32 => c_fswsp(word),
            Xlen::X64 => c_sdsp(word),
        }
    }
}

/// The 32-bit instruction that a 16-bit instruction stands for, by its
/// quadrant (bits 1:0) and funct3 (bits 15:13); an error for a reserved
/// encoding, and for a word whose bits 1:0 are both set, which is no 16-bit
/// instruction.
pub open spec fn spec_decompress(xlen: Xlen, word: u16) -> Result<u32, ()> {
    let quadrant: u16 = word & 0x3;
    if quadrant == 0 {
        opecode_0(xlen, word)
    } else if quadrant == 1 {
        opecode_1(xlen, word)
    } else if quadrant == 2 {
        opecode_2(xlen, word)
    } else {
        Err(())
    }
}

#[verifier::when_used_as_spec(spec_decompress)]
pub fn decompress(xlen: Xlen, word: u16) -> (r: Result<u32, ()>)
    ensures
        r == spec_decompress(xlen, word),
{
    let quadrant: u16 = word & 0x3;
    if quadrant == 0 {
        opecode_0(xlen, word)
    } else if quadrant == 1 {
        opecode_1(xlen, word)
    } else if quadrant == 2 {
        opecode_2(xlen, word)
    } else {
        Err(())
    }
}

/// The 32-bit instruction that the low half of `word`, fetched by `cpu`
/// at `instruction_addr`, stands for.
pub fn instruction_decompress(cpu: &Cpu, instruction_addr: u64, word: u32) -> (r: Result<u32, ()>)
    ensures
        r == spec_decompress(cpu.xlen, (word & 0xffff) as u16),
{
    decompress(cpu.xlen, (word & 0xffff) as u16)
}

} // verus!
