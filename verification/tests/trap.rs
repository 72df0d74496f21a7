use hvisor_la64::context::{LdStInst, MMIOAccess, TimerState, TrapContextHelper, ZoneContext};
use hvisor_la64::handler::{
    do_mmio, handle_exception, handle_idle, mmio_request, restore_timer, save_timer, TrapKind,
};
use hvisor_la64::hypercall::{handle_hvc, hvc_arguments};
use hvisor_la64::time::{get_ms_counter, get_us_counter};

#[test]
fn trap_context_helper_update() {
    let mut h = TrapContextHelper::new();
    assert_eq!((h.ecode, h.esubcode, h.is, h.badv, h.badi, h.era), (0, 0, 0, 0, 0, 0));
    h.update(0x16, 1, 0x800, 0x1000, 0x0648_8000, 0x9000_0000_0020_0000);
    assert_eq!((h.ecode, h.esubcode, h.is, h.badv, h.badi, h.era), (0x16, 1, 0x800, 0x1000, 0x0648_8000, 0x9000_0000_0020_0000));
}

#[test]
fn save_timer_records_expiry() {
    let mut ctx = ZoneContext::new();
    ctx.gcsr_tcfg = 1000;
    ctx.gcsr_tval = 300;
    let t = save_timer(&ctx, 5000);
    assert_eq!((t.expire, t.cfg), (5300, 1000));
    ctx.gcsr_tval = 2000;
    let t = save_timer(&ctx, 5000);
    assert_eq!(t.expire, 5000);
}

#[test]
fn restore_disabled_timer() {
    let mut ctx = ZoneContext::new();
    ctx.gcsr_tval = 55;
    ctx.gcsr_tcfg = 9;
    ctx.gcsr_estat = 3;
    restore_timer(&mut ctx, TimerState { expire: 10, cfg: 0 }, 0);
    assert_eq!((ctx.gcsr_tval, ctx.gcsr_tcfg, ctx.gcsr_estat, ctx.gcsr_ticlr), (0, 0, 0, 0));
}

#[test]
fn restore_one_shot_clears_interrupt() {
    let mut ctx = ZoneContext::new();
    ctx.gcsr_tval = 5;
    restore_timer(&mut ctx, TimerState { expire: 10, cfg: 0x101 }, 0);
    assert_eq!((ctx.gcsr_tval, ctx.gcsr_ticlr), (0, 1));
}

#[test]
fn restore_periodic_before_expiry() {
    let mut ctx = ZoneContext::new();
    ctx.gcsr_tval = 0x1000;
    restore_timer(&mut ctx, TimerState { expire: 900, cfg: 0x103 }, 400);
    assert_eq!(ctx.gcsr_tval, 500);
    assert_eq!(400 + ctx.gcsr_tval, 900);
}

#[test]
fn restore_periodic_after_expiry_stays_within_period() {
    let mut ctx = ZoneContext::new();
    ctx.gcsr_tval = 0x1000;
    // period 0x100, expired 0x30 ticks ago
    restore_timer(&mut ctx, TimerState { expire: 1000, cfg: 0x103 }, 1000 + 0x30);
    assert_eq!(ctx.gcsr_tval, 0x100 - 0x30);
    let mut ctx = ZoneContext::new();
    ctx.gcsr_tval = 0x1000;
    restore_timer(&mut ctx, TimerState { expire: 1000, cfg: 0x103 }, 1000 + 0x200);
    assert_eq!(ctx.gcsr_tval, 0x100);
}

#[test]
fn idle_trap_is_skipped() {
    let mut ctx = ZoneContext::new();
    ctx.sepc = 0x100;
    assert!(handle_idle(0x16, 0x0648_8000, &mut ctx));
    assert_eq!(ctx.sepc, 0x104);
    assert!(!handle_idle(0x16, 0x0648_8001, &mut ctx));
    assert!(!handle_idle(0x17, 0x0648_8000, &mut ctx));
    assert_eq!(ctx.sepc, 0x104);
}

#[test]
fn exception_dispatch() {
    assert_eq!(handle_exception(0x0), TrapKind::Interrupt);
    assert_eq!(handle_exception(0x16), TrapKind::EmulateInstruction);
    assert_eq!(handle_exception(0x17), TrapKind::Hypercall);
    assert_eq!(handle_exception(0x1), TrapKind::PageFaultMmio);
    assert_eq!(handle_exception(0x2), TrapKind::PageFaultMmio);
    assert_eq!(handle_exception(0x5), TrapKind::PageFaultMmio);
    assert_eq!(handle_exception(0x3), TrapKind::Unhandled);
}

#[test]
fn mmio_load_sign_and_zero_extension() {
    let load = LdStInst { rd: 10, size: 2, is_write: false, is_u: false, value: 0 };
    let req = mmio_request(&load, 0x1fe0_1000);
    assert_eq!((req.address, req.size, req.is_write), (0x1fe0_1000, 2, false));
    let done = MMIOAccess { value: 0x1234_8001, ..req };
    let mut ctx = ZoneContext::new();
    ctx.sepc = 0x40;
    assert_eq!(do_mmio::<()>(&load, Ok(done), &mut ctx), Ok(()));
    assert_eq!(ctx.x[10], 0xffff_ffff_ffff_8001);
    assert_eq!(ctx.sepc, 0x44);
    let uload = LdStInst { is_u: true, ..load };
    assert_eq!(do_mmio::<()>(&uload, Ok(done), &mut ctx), Ok(()));
    assert_eq!(ctx.x[10], 0x8001);
}

#[test]
fn mmio_store_leaves_registers() {
    let store = LdStInst { rd: 3, size: 4, is_write: true, is_u: false, value: 9 };
    let done = mmio_request(&store, 0x10);
    assert_eq!(done.value, 9);
    let mut ctx = ZoneContext::new();
    ctx.x[3] = 9;
    assert_eq!(do_mmio::<()>(&store, Ok(done), &mut ctx), Ok(()));
    assert_eq!(ctx.x[3], 9);
    assert_eq!(ctx.sepc, 4);
}

#[test]
fn failed_mmio_leaves_context() {
    let load = LdStInst { rd: 10, size: 4, is_write: false, is_u: false, value: 0 };
    let mut ctx = ZoneContext::new();
    ctx.sepc = 0x40;
    ctx.x[10] = 5;
    assert_eq!(do_mmio(&load, Err(22i32), &mut ctx), Err(22));
    assert_eq!((ctx.x[10], ctx.sepc), (5, 0x40));
}

#[test]
fn hypercall_round_trip() {
    let mut ctx = ZoneContext::new();
    ctx.x[4] = 7;
    ctx.x[5] = 8;
    ctx.x[6] = 9;
    ctx.sepc = 0x200;
    assert_eq!(hvc_arguments(&ctx), (7, 8, 9));
    handle_hvc(&mut ctx, Ok(0x55));
    assert_eq!((ctx.x[4], ctx.sepc), (0x55, 0x204));
    handle_hvc(&mut ctx, Err(-22));
    assert_eq!(ctx.x[4], (-22i64) as u64);
    assert_eq!(ctx.x[5], 8);
}

#[test]
fn counter_conversions() {
    assert_eq!(get_ms_counter(200, 100_000_000), 20_000_000);
    assert_eq!(get_us_counter(3, 100_000_000), 300);
    assert_eq!(get_ms_counter(5, 999), 0);
}

use hvisor_la64::handler::vcpu_guest_id;

#[test]
fn guest_ids_skip_zero() {
    assert_eq!(vcpu_guest_id(None), 0);
    assert_eq!(vcpu_guest_id(Some(0)), 1);
    assert_eq!(vcpu_guest_id(Some(3)), 4);
}

use hvisor_la64::emulate::EmulatedOp;
use hvisor_la64::trap::{trap_handler_step, TrapStep};

fn regs(ecode: u64, badi: u64, badv: u64, era: u64, is: u64) -> TrapContextHelper {
    let mut h = TrapContextHelper::new();
    h.update(ecode, 0, is, badv, badi, era);
    h
}

#[test]
fn trap_step_paths() {
    let mut ctx = ZoneContext::new();
    ctx.gcsr_tcfg = 100;
    ctx.gcsr_tval = 30;
    ctx.sepc = 0x1000;
    let (timer, step) = trap_handler_step(&mut ctx, &regs(0x16, 0x0648_8000, 0, 0x1000, 0), 500);
    assert_eq!((timer.expire, timer.cfg), (530, 100));
    assert_eq!(step, TrapStep::ResumeIdle);
    assert_eq!(ctx.sepc, 0x1004);

    let (_, step) = trap_handler_step(&mut ctx, &regs(0x0, 0, 0, 0, 1 << 11), 500);
    assert_eq!(step, TrapStep::Interrupt { is: 1 << 11 });

    ctx.x[6] = 0x77;
    let csrrd6: u64 = (0b00000100 << 24) | (0x5 << 10) | 6;
    let (_, step) = trap_handler_step(&mut ctx, &regs(0x16, csrrd6, 0, 0x2000, 0), 500);
    assert_eq!(step, TrapStep::Emulated { op: EmulatedOp::Csrx });
    assert_eq!((ctx.x[6], ctx.sepc), (0, 0x2004));

    ctx.x[4] = 1;
    ctx.x[5] = 2;
    ctx.x[6] = 3;
    let (_, step) = trap_handler_step(&mut ctx, &regs(0x17, 0, 0, 0, 0), 500);
    assert_eq!(step, TrapStep::Hypercall { code: 1, arg0: 2, arg1: 3 });

    // st.w $r7 faulting at 0x1fe0_1010
    ctx.x[7] = 0xabcd;
    let stw: u64 = (0b001010 << 26) | (0b01 << 24) | (0b10 << 22) | 7;
    let (_, step) = trap_handler_step(&mut ctx, &regs(0x2, stw, 0x1fe0_1010, 0, 0), 500);
    let inst = LdStInst { rd: 7, size: 4, is_write: true, is_u: false, value: 0xabcd };
    assert_eq!(step, TrapStep::Mmio { inst, request: MMIOAccess { address: 0x1fe0_1010, size: 4, is_write: true, value: 0xabcd } });

    let (_, step) = trap_handler_step(&mut ctx, &regs(0x3, 0, 0, 0, 0), 500);
    assert_eq!(step, TrapStep::Unhandled);
}
