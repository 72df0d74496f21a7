use hvisor_la64::context::ZoneContext;
use hvisor_la64::utils::{
    check_op_type, decode_ldst, ecode2str, extract_field, imm12toi64, signed_ext,
};

#[test]
fn extract_field_takes_bits() {
    assert_eq!(extract_field(0b1101_0110, 2, 4), 0b0101);
    assert_eq!(extract_field(0xffff_ffff_ffff_ffff, 60, 4), 0xf);
    assert_eq!(extract_field(0x1234, 0, 0), 0);
}

#[test]
fn imm12_sign_extends() {
    assert_eq!(imm12toi64(0x7ff), 2047);
    assert_eq!(imm12toi64(0x800), -2048);
    assert_eq!(imm12toi64(0xfff), -1);
    assert_eq!(imm12toi64(0x1_001), 1);
}

#[test]
fn imm12_agrees_with_signed_ext_at_width_12() {
    for v in [0u64, 1, 0x7ff, 0x800, 0x9ab, 0xfff] {
        assert_eq!(imm12toi64(v), signed_ext(v & 0xfff, 12) as i64);
    }
}

#[test]
fn signed_ext_widths() {
    assert_eq!(signed_ext(0x80, 8), 0xffff_ffff_ffff_ff80);
    assert_eq!(signed_ext(0x7f, 8), 0x7f);
    assert_eq!(signed_ext(0x8000_0000, 32), 0xffff_ffff_8000_0000);
    assert_eq!(signed_ext(0x1234, 16), 0x1234);
    assert_eq!(signed_ext(0x7fff_ffff_ffff_ffff, 64), 0x7fff_ffff_ffff_ffff);
}

#[test]
fn signed_ext_keeps_low_bits_and_is_idempotent() {
    let once = signed_ext(0xa5, 8);
    assert_eq!(once & 0xff, 0xa5);
    assert_eq!(signed_ext(once, 8), once);
}

#[test]
fn check_op_type_matches_top_bits() {
    // ld.b $r4, $r5, 8: opcode 0010100000
    let ins: u64 = (0b0010100000 << 22) | (8 << 10) | (5 << 5) | 4;
    assert!(check_op_type(ins, 0b0010100000, 10));
    assert!(!check_op_type(ins, 0b0010100100, 10));
    assert_eq!(check_op_type(ins, 0b0010100000, 10), extract_field(ins, 22, 10) == 0b0010100000);
}

#[test]
fn ecode_names() {
    assert_eq!(ecode2str(0x0, 0), "INT(Interrupt)");
    assert_eq!(ecode2str(0x8, 1), "ADEM(Memory Access Address Exception)");
    assert_eq!(ecode2str(0x8, 7), "error_esubcode");
    assert_eq!(ecode2str(0x17, 0), "HVC(Hypervisor Call)");
    assert_eq!(ecode2str(0x18, 0), "GCSC(Guest CSR Software Change)");
    assert_eq!(ecode2str(0x40, 0), "reserved_ecode");
}

fn ctx_with(reg: usize, value: u64) -> ZoneContext {
    let mut ctx = ZoneContext::new();
    ctx.x[reg] = value;
    ctx
}

#[test]
fn decode_std_store_word() {
    // st.w $r7, $r8, 0: prefix 001010, ty 01, sz 10
    let ins: u64 = (0b001010 << 26) | (0b01 << 24) | (0b10 << 22) | (8 << 5) | 7;
    let ctx = ctx_with(7, 0xdead_beef);
    let inst = decode_ldst(ins, &ctx);
    assert_eq!(inst.rd, 7);
    assert_eq!(inst.size, 4);
    assert!(inst.is_write);
    assert!(!inst.is_u);
    assert_eq!(inst.value, 0xdead_beef);
}

#[test]
fn decode_std_unsigned_byte_load() {
    // ld.bu $r9: ty 10, sz 00
    let ins: u64 = (0b001010 << 26) | (0b10 << 24) | (0b00 << 22) | 9;
    let inst = decode_ldst(ins, &ctx_with(9, 5));
    assert_eq!((inst.rd, inst.size, inst.is_write, inst.is_u, inst.value), (9, 1, false, true, 0));
}

#[test]
fn decode_ptr_store_double() {
    // stptr.d $r3: prefix 001001, ty 11
    let ins: u64 = (0b001001 << 26) | (0b11 << 24) | 3;
    let inst = decode_ldst(ins, &ctx_with(3, 42));
    assert_eq!((inst.rd, inst.size, inst.is_write, inst.is_u, inst.value), (3, 8, true, false, 42));
}

#[test]
fn decode_ext_halfword_load() {
    // ldx.h $r12: prefix 001110, ty (bits 21..20) 00, sz (bits 19..18) 01
    let ins: u64 = (0b001110 << 26) | (0b00 << 20) | (0b01 << 18) | 12;
    let inst = decode_ldst(ins, &ctx_with(12, 77));
    assert_eq!((inst.rd, inst.size, inst.is_write, inst.is_u, inst.value), (12, 2, false, false, 0));
}
