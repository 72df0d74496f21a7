use hvisor_la64::register::{
    dump_reset_gcsrs, read_gcsr_crmd, read_gcsr_ectl, read_gcsr_eentry, read_gcsr_estat,
    read_gcsr_tcfg, read_gcsr_ticlr, read_gcsr_tlbrrelo0, read_gcsr_tval, write_gcsr_ectl,
    write_gcsr_eentry, write_gcsr_estat, write_gcsr_tcfg, write_gcsr_ticlr, write_gcsr_tval,
    GuestCsrs, GCSR_CRMD, GCSR_DMW3, GCSR_ECTL, GCSR_TLBRELO0,
};

#[test]
fn read_after_write() {
    let mut csrs = GuestCsrs::new();
    write_gcsr_estat(&mut csrs, 0x1234);
    write_gcsr_tcfg(&mut csrs, 0x55);
    write_gcsr_tval(&mut csrs, 0x66);
    write_gcsr_ticlr(&mut csrs, 1);
    assert_eq!(read_gcsr_estat(&csrs), 0x1234);
    assert_eq!(read_gcsr_tcfg(&csrs), 0x55);
    assert_eq!(read_gcsr_tval(&csrs), 0x66);
    assert_eq!(read_gcsr_ticlr(&csrs), 1);
    assert_eq!(read_gcsr_crmd(&csrs), 0);
}

#[test]
fn write_touches_only_its_register() {
    let mut csrs = GuestCsrs::new();
    csrs.regs[GCSR_CRMD] = 7;
    write_gcsr_estat(&mut csrs, 9);
    assert_eq!(read_gcsr_crmd(&csrs), 7);
}

#[test]
fn bit_range_write_sets_only_the_range() {
    let mut csrs = GuestCsrs::new();
    csrs.regs[GCSR_ECTL] = 0xffff_0000_0000_00ff;
    write_gcsr_ectl(&mut csrs, 4..=7, 0b1010);
    assert_eq!(read_gcsr_ectl(&csrs), 0xffff_0000_0000_00af);
    write_gcsr_eentry(&mut csrs, 12..=63, 0x9000_0000_0000_0);
    assert_eq!(read_gcsr_eentry(&csrs), 0x9000_0000_0000_0000);
}

#[test]
fn bit_range_full_word() {
    let mut csrs = GuestCsrs::new();
    csrs.regs[GCSR_ECTL] = 5;
    write_gcsr_ectl(&mut csrs, 0..=63, 0xabcd);
    assert_eq!(read_gcsr_ectl(&csrs), 0xabcd);
}

#[test]
fn dump_copies_every_register() {
    let mut csrs = GuestCsrs::new();
    csrs.regs[GCSR_CRMD] = 0x8;
    csrs.regs[GCSR_TLBRELO0] = 0x77;
    csrs.regs[GCSR_DMW3] = 0x99;
    let ctx = dump_reset_gcsrs(&csrs);
    assert_eq!(ctx.gcsr_crmd, 0x8);
    assert_eq!(ctx.gcsr_tlbrelo0, read_gcsr_tlbrrelo0(&csrs));
    assert_eq!(ctx.gcsr_dmw3, 0x99);
    assert_eq!(ctx.sepc, 0);
    assert!(ctx.x.iter().all(|&r| r == 0));
}

use hvisor_la64::context::ZoneContext;
use hvisor_la64::register::{restore_gcsrs, save_gcsrs, GCSR_ESTAT, GCSR_TVAL};

#[test]
fn save_then_restore_is_identity() {
    let mut csrs = GuestCsrs::new();
    for i in 0..csrs.regs.len() {
        csrs.regs[i] = (i as u64) * 3 + 1;
    }
    let original = csrs;
    let mut ctx = ZoneContext::new();
    save_gcsrs(&csrs, &mut ctx);
    assert_eq!(ctx.gcsr_dmw2, original.regs[0x182]);
    restore_gcsrs(&ctx, &mut csrs);
    assert_eq!(csrs.regs, original.regs);
}

#[test]
fn restore_skips_estat_and_timer() {
    let mut csrs = GuestCsrs::new();
    csrs.regs[GCSR_ESTAT] = 0x800;
    csrs.regs[GCSR_TVAL] = 77;
    let mut ctx = ZoneContext::new();
    ctx.gcsr_crmd = 0x8;
    ctx.gcsr_estat = 1;
    ctx.gcsr_tval = 2;
    restore_gcsrs(&ctx, &mut csrs);
    assert_eq!(read_gcsr_crmd(&csrs), 0x8);
    assert_eq!(read_gcsr_estat(&csrs), 0x800);
    assert_eq!(read_gcsr_tval(&csrs), 77);
}
