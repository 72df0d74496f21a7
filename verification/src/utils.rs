//! Bit-field helpers used by the trap decoder.
use vstd::prelude::*;

use crate::context::{LdStInst, ZoneContext};

verus! {

/// A mask of the `length` least significant bits.
pub open spec fn low_mask(length: u64) -> u64 {
    (((1u64 << length) - 1u64) as u64)
}

/// The value of `length` bits of `inst` starting at bit `offset`.
pub open spec fn field(inst: u64, offset: u64, length: u64) -> u64 {
    (inst >> offset) & low_mask(length)
}

/// Extracts `length` bits of `inst` starting at bit `offset`.
pub fn extract_field(inst: u64, offset: u64, length: u64) -> (r: u64)
    requires
        offset < 64,
        length < 64,
    ensures
        r == field(inst, offset, length),
        r < (1u64 << length),
{
    proof {
        assert(1u64 << length >= 1) by (bit_vector)
            requires
                length < 64,
        ;
        assert((inst >> offset) & (((1u64 << length) - 1u64) as u64) < (1u64 << length))
            by (bit_vector)
            requires
                length < 64,
        ;
    }
    let mask = (1u64 << length) - 1;
    (inst >> offset) & mask
}

/// The sign-extended value of the low 12 bits of `imm12`.
pub open spec fn sext12(imm12: u64) -> int {
    if imm12 & 0x800 == 0 {
        (imm12 & 0xfff) as int
    } else {
        (imm12 & 0xfff) as int - 0x1000
    }
}

/// Sign-extends the 12-bit immediate held in the low bits of `imm12`.
pub fn imm12toi64(imm12: u64) -> (r: i64)
    ensures
        r as int == sext12(imm12),
{
    let imm = imm12 as i64;
    let shifted = imm << 52u64;
    let r = shifted >> 52u64;
    proof {
        assert((((imm12 as i64) << 52u64) >> 52u64) as int == (if imm12 & 0x800 == 0 {
            (imm12 & 0xfff) as int
        } else {
            (imm12 & 0xfff) as int - 0x1000
        })) by (bit_vector);
    }
    r
}

/// Facts about the small powers of two the decoders rely on.
pub proof fn lemma_field_widths()
    ensures
        1u64 << 2u64 == 4,
        1u64 << 3u64 == 8,
        1u64 << 5u64 == 32,
        1u64 << 12u64 == 4096,
        1u64 << 14u64 == 16384,
        1u64 << 15u64 == 32768,
{
    assert(1u64 << 2u64 == 4 && 1u64 << 3u64 == 8 && 1u64 << 5u64 == 32 && 1u64 << 12u64 == 4096
        && 1u64 << 14u64 == 16384 && 1u64 << 15u64 == 32768) by (bit_vector);
}

/// The sign bit of a `size`-bit quantity.
pub open spec fn sign_bit(size: u64) -> u64 {
    1u64 << ((size - 1) as u64)
}

/// `value` read as a `size`-bit two's complement number and widened to 64
/// bits: when the sign bit is set every bit above the field is set.
pub open spec fn sext(value: u64, size: u64) -> u64 {
    if value & sign_bit(size) != 0 {
        value | !low_mask(size)
    } else {
        value
    }
}

/// Whether `signed_ext(value, size)` is defined: the width lies in 1..=64,
/// and a set sign bit needs a width below 64 (the full-width mask would
/// overflow its shift).
pub open spec fn signed_ext_ok(value: u64, size: u64) -> bool {
    &&& 1 <= size <= 64
    &&& value & sign_bit(size) != 0 ==> size < 64
}

/// Sign-extends the `size`-bit value `value` to 64 bits.
pub fn signed_ext(value: u64, size: u64) -> (r: u64)
    requires
        signed_ext_ok(value, size),
    ensures
        r == sext(value, size),
{
    let sign_bit = 1u64 << (size - 1);
    if value & sign_bit != 0 {
        proof {
            assert(1u64 << size >= 1) by (bit_vector)
                requires
                    size < 64,
            ;
        }
        value | !((1u64 << size) - 1)
    } else {
        value
    }
}

/// Whether the top `opcode_length` bits of the 32-bit instruction `inst`
/// spell `opcode`.
pub open spec fn op_matches(inst: u64, opcode: u64, opcode_length: u64) -> bool {
    field(inst, (32 - opcode_length) as u64, opcode_length) == opcode
}

/// Checks the major opcode of a 32-bit instruction word.
pub fn check_op_type(inst: u64, opcode: u64, opcode_length: u64) -> (r: bool)
    requires
        opcode_length <= 32,
    ensures
        r == op_matches(inst, opcode, opcode_length),
{
    proof {
        assert(1u64 << opcode_length >= 1) by (bit_vector)
            requires
                opcode_length <= 32,
        ;
    }
    let mask = (1u64 << opcode_length) - 1;
    let shifted = inst >> (32 - opcode_length);
    (shifted & mask) == opcode
}

/// The name of the exception that `ecode` (and, for the codes that have
/// sub-codes, `esubcode`) denotes.
pub open spec fn ecode_name(ecode: u64, esubcode: u64) -> Seq<char> {
    match ecode {
        0x0 => "INT(Interrupt)"@,
        0x1 => "PIL(Page Illegal Load)"@,
        0x2 => "PIS(Page Illegal Store)"@,
        0x3 => "PIF(Page Illegal Fetch)"@,
        0x4 => "PME(Page Modify Exception)"@,
        0x5 => "PNR(Page Not Readable)"@,
        0x6 => "PNX(Page Not Executable)"@,
        0x7 => "PPI(Page Privilege Illegal)"@,
        0x8 => match esubcode {
            0x0 => "ADEF(Instruction Fetch Address Exception)"@,
            0x1 => "ADEM(Memory Access Address Exception)"@,
            _ => "error_esubcode"@,
        },
        0x9 => "ALE(Address Misaligned Exception)"@,
        0xa => "BCE(Edge Check Exception)"@,
        0xb => "SYS(System Call Exception)"@,
        0xc => "BRK(Breakpoint Exception)"@,
        0xd => "INE(Instruction Not Exist)"@,
        0xe => "IPE(Instruction Privilege Exception)"@,
        0xf => "FPD(Floating Point Disabled)"@,
        0x10 => "SXD(128-bit SIMD Disabled)"@,
        0x11 => "ASXD(256-bit SIMD Disabled)"@,
        0x12 => match esubcode {
            0x0 => "FPE(Floating Point Exception)"@,
            0x1 => "VFPE(Vector Floating Point Exception)"@,
            _ => "error_esubcode"@,
        },
        0x13 => match esubcode {
            0x0 => "WPEF(Watchpoint Exception Fetch)"@,
            0x1 => "WPEM(Watchpoint Exception Memory)"@,
            _ => "error_esubcode"@,
        },
        0x14 => "BTD(Binary Translation Disabled)"@,
        0x15 => "BTE(Binary Translation Exception)"@,
        0x16 => "GSPR(Guest Sensitive Privileged Resource)"@,
        0x17 => "HVC(Hypervisor Call)"@,
        0x18 => match esubcode {
            0x0 => "GCSC(Guest CSR Software Change)"@,
            0x1 => "GCHC(Guest CSR Hardware Change)"@,
            _ => "error_esubcode"@,
        },
        _ => "reserved_ecode"@,
    }
}

/// Translates an exception code to its name.
pub fn ecode2str(ecode: u64, esubcode: u64) -> (r: &'static str)
    ensures
        r@ == ecode_name(ecode, esubcode),
{
    match ecode {
        0x0 => "INT(Interrupt)",
        0x1 => "PIL(Page Illegal Load)",
        0x2 => "PIS(Page Illegal Store)",
        0x3 => "PIF(Page Illegal Fetch)",
        0x4 => "PME(Page Modify Exception)",
        0x5 => "PNR(Page Not Readable)",
        0x6 => "PNX(Page Not Executable)",
        0x7 => "PPI(Page Privilege Illegal)",
        0x8 => match esubcode {
            0x0 => "ADEF(Instruction Fetch Address Exception)",
            0x1 => "ADEM(Memory Access Address Exception)",
            _ => "error_esubcode",
        },
        0x9 => "ALE(Address Misaligned Exception)",
        0xa => "BCE(Edge Check Exception)",
        0xb => "SYS(System Call Exception)",
        0xc => "BRK(Breakpoint Exception)",
        0xd => "INE(Instruction Not Exist)",
        0xe => "IPE(Instruction Privilege Exception)",
        0xf => "FPD(Floating Point Disabled)",
        0x10 => "SXD(128-bit SIMD Disabled)",
        0x11 => "ASXD(256-bit SIMD Disabled)",
        0x12 => match esubcode {
            0x0 => "FPE(Floating Point Exception)",
            0x1 => "VFPE(Vector Floating Point Exception)",
            _ => "error_esubcode",
        },
        0x13 => match esubcode {
            0x0 => "WPEF(Watchpoint Exception Fetch)",
            0x1 => "WPEM(Watchpoint Exception Memory)",
            _ => "error_esubcode",
        },
        0x14 => "BTD(Binary Translation Disabled)",
        0x15 => "BTE(Binary Translation Exception)",
        0x16 => "GSPR(Guest Sensitive Privileged Resource)",
        0x17 => "HVC(Hypervisor Call)",
        0x18 => match esubcode {
            0x0 => "GCSC(Guest CSR Software Change)",
            0x1 => "GCHC(Guest CSR Hardware Change)",
            _ => "error_esubcode",
        },
        _ => "reserved_ecode",
    }
}

/// Major opcode (bits 31..26) of the standard `ld.*`/`st.*` family.
pub const LDST_STD_PREFIX: u64 = 0b001010;

/// Major opcode of the `ldptr.*`/`stptr.*` family.
pub const LDST_PTR_PREFIX: u64 = 0b001001;

/// Major opcode of the indexed `ldx.*`/`stx.*` family.
pub const LDST_EXT_PREFIX: u64 = 0b001110;

/// Access width in bytes that a two-bit size field selects.
pub open spec fn access_size(sz: u64) -> u64 {
    if sz == 0 {
        1
    } else if sz == 1 {
        2
    } else if sz == 2 {
        4
    } else {
        8
    }
}

/// The load/store described by a standard or indexed instruction whose type
/// field is `ty` and size field is `sz`.
pub open spec fn ldst_by_type(rd: u64, ty: u64, sz: u64, x: Seq<u64>) -> LdStInst {
    LdStInst {
        rd: rd as usize,
        size: access_size(sz),
        is_write: ty == 1,
        is_u: ty == 2,
        value: if ty == 1 { x[rd as int] } else { 0 },
    }
}

/// The load/store that `ins` encodes, reading stored values from `x`.
pub open spec fn ldst_spec(ins: u64, x: Seq<u64>) -> LdStInst {
    let rd = field(ins, 0, 5);
    let prefix = field(ins, 26, 6);
    if prefix == LDST_PTR_PREFIX {
        let ty = field(ins, 24, 2);
        let is_write = ty == 1 || ty == 3;
        LdStInst {
            rd: rd as usize,
            size: if ty < 2 { 4 } else { 8 },
            is_write,
            is_u: false,
            value: if is_write { x[rd as int] } else { 0 },
        }
    } else if prefix == LDST_STD_PREFIX {
        ldst_by_type(rd, field(ins, 24, 2), field(ins, 22, 2), x)
    } else {
        ldst_by_type(rd, field(ins, 20, 2), field(ins, 18, 2), x)
    }
}

/// Whether `ins` is a load/store that the decoder understands.
pub open spec fn ldst_decodable(ins: u64) -> bool {
    let prefix = field(ins, 26, 6);
    ||| prefix == LDST_PTR_PREFIX
    ||| prefix == LDST_STD_PREFIX && field(ins, 24, 2) != 3
    ||| prefix == LDST_EXT_PREFIX && field(ins, 20, 2) != 3
}

/// Decodes a faulting load/store instruction.
pub fn decode_ldst(ins: u64, ctx: &ZoneContext) -> (r: LdStInst)
    requires
        ldst_decodable(ins),
    ensures
        r == ldst_spec(ins, ctx.x@),
{
    let prefix6 = extract_field(ins, 26, 6);
    if prefix6 == LDST_STD_PREFIX {
        decode_ldst_std(ins, ctx)
    } else if prefix6 == LDST_PTR_PREFIX {
        decode_ldst_ptr(ins, ctx)
    } else {
        decode_ldst_ext(ins, ctx)
    }
}

fn size_from_field(sz: u64) -> (r: u64)
    ensures
        r == access_size(sz),
{
    if sz == 0 {
        1
    } else if sz == 1 {
        2
    } else if sz == 2 {
        4
    } else {
        8
    }
}

fn decode_by_type(rd: u64, ty: u64, sz: u64, ctx: &ZoneContext) -> (r: LdStInst)
    requires
        rd < 32,
        ty < 3,
    ensures
        r == ldst_by_type(rd, ty, sz, ctx.x@),
{
    let rdi = rd as usize;
    let (is_write, is_u, value) = if ty == 0 {
        (false, false, 0)
    } else if ty == 1 {
        (true, false, ctx.x[rdi])
    } else {
        (false, true, 0)
    };
    LdStInst { rd: rdi, size: size_from_field(sz), is_write, is_u, value }
}

fn decode_ldst_std(ins: u64, ctx: &ZoneContext) -> (r: LdStInst)
    requires
        field(ins, 26, 6) == LDST_STD_PREFIX,
        field(ins, 24, 2) != 3,
    ensures
        r == ldst_spec(ins, ctx.x@),
{
    let rd = extract_field(ins, 0, 5);
    let ty = extract_field(ins, 24, 2);
    let sz = extract_field(ins, 22, 2);
    proof {
        lemma_field_widths();
    }
    decode_by_type(rd, ty, sz, ctx)
}

fn decode_ldst_ptr(ins: u64, ctx: &ZoneContext) -> (r: LdStInst)
    requires
        field(ins, 26, 6) == LDST_PTR_PREFIX,
    ensures
        r == ldst_spec(ins, ctx.x@),
{
    let rd = extract_field(ins, 0, 5);
    let ty = extract_field(ins, 24, 2);
    proof {
        lemma_field_widths();
    }
    let rdi = rd as usize;
    let (is_write, size, value) = if ty == 0 {
        (false, 4, 0)
    } else if ty == 1 {
        (true, 4, ctx.x[rdi])
    } else if ty == 2 {
        (false, 8, 0)
    } else {
        (true, 8, ctx.x[rdi])
    };
    LdStInst { rd: rdi, size, is_write, is_u: false, value }
}

fn decode_ldst_ext(ins: u64, ctx: &ZoneContext) -> (r: LdStInst)
    requires
        field(ins, 26, 6) == LDST_EXT_PREFIX,
        field(ins, 20, 2) != 3,
    ensures
        r == ldst_spec(ins, ctx.x@),
{
    let rd = extract_field(ins, 0, 5);
    let sz = extract_field(ins, 18, 2);
    let ty = extract_field(ins, 20, 2);
    proof {
        lemma_field_widths();
    }
    decode_by_type(rd, ty, sz, ctx)
}

} // verus!
