use hvisor_la64::context::{MMIOAccess, ZoneContext};
use hvisor_la64::emulate::{
    cpucfg_target_index, decode_emulated_op, emulate_cpucfg, emulate_csrx, emulate_instruction,
    emulate_iocsr, emulate_ld_b, iocsr_request, ty2str, EmulatedOp,
};

fn csrrd(rd: u64, csr: u64) -> u64 {
    (0b00000100 << 24) | (csr << 10) | (0 << 5) | rd
}

#[test]
fn csr_access_reads_zero() {
    let mut ctx = ZoneContext::new();
    ctx.x[4] = 99;
    ctx.x[5] = 1;
    emulate_csrx(csrrd(4, 0x5), &mut ctx);
    assert_eq!(ctx.x[4], 0);
    assert_eq!(ctx.x[5], 1);
}

#[test]
fn emulate_instruction_resumes_after_it() {
    let mut ctx = ZoneContext::new();
    ctx.x[6] = 5;
    let op = emulate_instruction(0x9000_0000_0000_1000, csrrd(6, 0x20), &mut ctx);
    assert_eq!(op, EmulatedOp::Csrx);
    assert_eq!(ctx.sepc, 0x9000_0000_0000_1004);
    assert_eq!(ctx.x[6], 0);
}

#[test]
fn opcode_decoding() {
    let cpucfg: u64 = (0b0000000000000000011011 << 10) | (5 << 5) | 4;
    assert_eq!(decode_emulated_op(cpucfg), Some(EmulatedOp::Cpucfg));
    let idle: u64 = 0b0000_0110_0100_1000_1000_0000_0000_0000;
    assert_eq!(decode_emulated_op(idle), Some(EmulatedOp::Idle));
    let cacop: u64 = (0b0000011000 << 22) | 3;
    assert_eq!(decode_emulated_op(cacop), Some(EmulatedOp::Cacop));
    let iocsrwr_w: u64 = (0b0000011001001000000 << 13) | (6 << 10) | (5 << 5) | 4;
    assert_eq!(decode_emulated_op(iocsrwr_w), Some(EmulatedOp::Iocsr));
    assert_eq!(decode_emulated_op((0b0010100100 << 22) | 1), Some(EmulatedOp::StB));
    assert_eq!(decode_emulated_op((0b0010101000 << 22) | 1), Some(EmulatedOp::LdBu));
    assert_eq!(decode_emulated_op(0xffff_ffff), None);
}

#[test]
fn cpucfg_emulation() {
    let ins: u64 = (0b0000000000000000011011 << 10) | (5 << 5) | 4;
    let mut ctx = ZoneContext::new();
    ctx.x[5] = 2;
    assert_eq!(cpucfg_target_index(ins, &ctx), 2);
    emulate_cpucfg(ins, &mut ctx, 0xabc);
    assert_eq!(ctx.x[4], 0xabc);
    ctx.x[5] = 21;
    emulate_cpucfg(ins, &mut ctx, 0xabc);
    assert_eq!(ctx.x[4], 0);
}

#[test]
fn iocsr_read_word_sign_extends() {
    // iocsrrd.w $r4, $r5
    let ins: u64 = (0b0000011001001000000 << 13) | (2 << 10) | (5 << 5) | 4;
    let mut ctx = ZoneContext::new();
    ctx.x[5] = 0x1014;
    let req = iocsr_request(ins, &ctx);
    assert_eq!((req.address, req.size, req.is_write), (0x1fe0_1014, 4, false));
    let done = MMIOAccess { value: 0xaaaa_aaaa_8000_0001, ..req };
    emulate_iocsr(ins, &mut ctx, &done);
    assert_eq!(ctx.x[4], 0xffff_ffff_8000_0001);
}

#[test]
fn iocsr_write_keeps_registers() {
    // iocsrwr.d $r4, $r5
    let ins: u64 = (0b0000011001001000000 << 13) | (7 << 10) | (5 << 5) | 4;
    let mut ctx = ZoneContext::new();
    ctx.x[4] = 0x77;
    ctx.x[5] = 0x20;
    let req = iocsr_request(ins, &ctx);
    assert_eq!((req.address, req.size, req.is_write, req.value), (0x1fe0_0020, 8, true, 0x77));
    emulate_iocsr(ins, &mut ctx, &req);
    assert_eq!(ctx.x[4], 0x77);
}

#[test]
fn iocsr_mnemonics() {
    assert_eq!(ty2str(0), "iocsrrd.b");
    assert_eq!(ty2str(7), "iocsrwr.d");
    assert_eq!(ty2str(8), "unknown");
}

#[test]
fn byte_load_changes_nothing() {
    // ld.b $r4, $r5, -1 with $r5 pointing at the UART
    let ins: u64 = (0b0010100000 << 22) | (0xfff << 10) | (5 << 5) | 4;
    let mut ctx = ZoneContext::new();
    ctx.x[5] = 0x8000_0000_1fe0_01e1;
    ctx.x[4] = 3;
    emulate_ld_b(ins, &mut ctx);
    assert_eq!(ctx.x[4], 3);
    assert_eq!(ctx.x[5], 0x8000_0000_1fe0_01e1);
}

use hvisor_la64::emulate::{complete_iocsr_legacy_read, emulate_iocsr_legacy, LegacyIocsr};
use hvisor_la64::irq::{GlobalInjectionStatus, HostIrqLines, InjectionStatus};
use hvisor_la64::register::{read_gcsr_estat, GuestCsrs};

fn iocsr(ty: u64) -> u64 {
    (0b0000011001001000000 << 13) | (ty << 10) | (5 << 5) | 4
}

#[test]
fn legacy_iocsr_self_ipi_is_injected() {
    let mut ctx = ZoneContext::new();
    ctx.x[5] = 0x1014;
    ctx.x[4] = (2 << 16) | 3;
    let mut csrs = GuestCsrs::new();
    let mut status = GlobalInjectionStatus::new();
    let mut lines = HostIrqLines { hwis: 0, timer_enabled: false };
    assert_eq!(emulate_iocsr_legacy(iocsr(6), &ctx, 2, &mut csrs, &mut status, &mut lines), LegacyIocsr::SelfIpi);
    assert_eq!(read_gcsr_estat(&csrs), 1 << 12);
    assert_eq!(status.cpu_status[2].status, InjectionStatus::Injecting);
    assert!(lines.timer_enabled);
}

#[test]
fn legacy_iocsr_reads_and_writes() {
    let mut ctx = ZoneContext::new();
    ctx.x[5] = 0x20;
    ctx.x[4] = 0x55;
    let mut csrs = GuestCsrs::new();
    let mut status = GlobalInjectionStatus::new();
    let mut lines = HostIrqLines { hwis: 0, timer_enabled: false };
    assert_eq!(emulate_iocsr_legacy(iocsr(1), &ctx, 0, &mut csrs, &mut status, &mut lines), LegacyIocsr::Read { width: 2, port: 0x20 });
    assert_eq!(emulate_iocsr_legacy(iocsr(6), &ctx, 0, &mut csrs, &mut status, &mut lines), LegacyIocsr::Write { width: 4, port: 0x20, value: 0x55 });
    assert_eq!(emulate_iocsr_legacy(iocsr(7), &ctx, 0, &mut csrs, &mut status, &mut lines), LegacyIocsr::Write { width: 8, port: 0x20, value: 0x55 });
    complete_iocsr_legacy_read(iocsr(1), &mut ctx, 0x1234_5678);
    assert_eq!(ctx.x[4], 0x5678);
    complete_iocsr_legacy_read(iocsr(3), &mut ctx, 0x1234_5678_9abc_def0);
    assert_eq!(ctx.x[4], 0x1234_5678_9abc_def0);
    assert_eq!(status.cpu_status[0].status, InjectionStatus::Idle);
    assert!(!lines.timer_enabled);
}
