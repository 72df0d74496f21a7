//! One step of the trap handler: what happens between a guest trapping into
//! the hypervisor and the work the hypervisor must do outside the library.
use vstd::prelude::*;

use crate::context::{LdStInst, MMIOAccess, TimerState, TrapContextHelper, ZoneContext};
use crate::context::{REG_A0, REG_A1, REG_A2};
use crate::emulate::{emulate_instruction, emulated_op, emulation_effect, emulation_ok, EmulatedOp};
use crate::handler::{
    handle_exception, handle_idle, is_idle_trap, mmio_request, pending_ticks, save_timer,
    trap_kind, TrapKind,
};
use crate::hypercall::hvc_arguments;
use crate::utils::{decode_ldst, ldst_decodable, ldst_spec};

verus! {

/// What is left to do after the library's part of a trap.
#[derive(Clone, Copy, PartialEq, Eq, Structural, Debug)]
pub enum TrapStep {
    /// A trapped `idle 0` was skipped: resume the guest at once, without
    /// restoring the timer.
    ResumeIdle,
    /// An interrupt with pending bits `is`: service it (see
    /// `handle_interrupt_step`), then restore the timer and resume.
    Interrupt { is: u64 },
    /// The instruction `op` was emulated; `cpucfg` and IOCSR accesses are
    /// still to be completed (`emulate_cpucfg`, `emulate_iocsr`). Then
    /// restore the timer and resume.
    Emulated { op: EmulatedOp },
    /// A hypercall with code `code` and arguments `arg0`, `arg1`: dispatch
    /// it and complete it with `handle_hvc`, then restore the timer and
    /// resume.
    Hypercall { code: u64, arg0: u64, arg1: u64 },
    /// A load/store `inst` faulted on a device page: perform `request` and
    /// complete it with `do_mmio`; a failed access is a real page fault and
    /// stops the hypervisor. Otherwise restore the timer and resume.
    Mmio { inst: LdStInst, request: MMIOAccess },
    /// An exception the hypervisor does not handle: it stops.
    Unhandled,
}

/// Whether the library's part of a trap described by `regs`, taken at
/// counter value `now`, runs to its end: the expiry time of the guest timer
/// fits in a word, a skipped `idle` does not overflow the resume address,
/// an emulated instruction is one the emulator knows (see
/// `emulation_ok`), and a faulting load/store is one the decoder knows.
pub open spec fn trap_ok(ctx: ZoneContext, regs: TrapContextHelper, now: u64) -> bool {
    &&& now + pending_ticks(ctx) <= u64::MAX
    &&& is_idle_trap(regs.ecode, regs.badi) ==> ctx.sepc + 4 <= u64::MAX
    &&& !is_idle_trap(regs.ecode, regs.badi) && trap_kind(regs.ecode)
        == TrapKind::EmulateInstruction ==> emulation_ok(regs.era, regs.badi, ctx.x@)
    &&& trap_kind(regs.ecode) == TrapKind::PageFaultMmio ==> ldst_decodable(regs.badi)
}

/// The library's part of a trap described by `regs`, taken at counter value
/// `now`: the guest timer is saved, a trapped `idle 0` is skipped, and
/// otherwise the exception is dispatched on its code: an interrupt is handed
/// on, a sensitive instruction is emulated, a hypercall's arguments are
/// read, and a faulting load/store is decoded into the device access it
/// stands for. Returns the saved timer and what is left to do.
pub fn trap_handler_step(ctx: &mut ZoneContext, regs: &TrapContextHelper, now: u64) -> (r: (
    TimerState,
    TrapStep,
))
    requires
        trap_ok(*old(ctx), *regs, now),
    ensures
        r.0 == (TimerState { expire: (now + pending_ticks(*old(ctx))) as u64, cfg: old(ctx).gcsr_tcfg }),
        is_idle_trap(regs.ecode, regs.badi) ==> r.1 == TrapStep::ResumeIdle && *final(ctx) == (
        ZoneContext { sepc: (old(ctx).sepc + 4) as u64, ..*old(ctx) }),
        !is_idle_trap(regs.ecode, regs.badi) ==> match trap_kind(regs.ecode) {
            TrapKind::Interrupt => r.1 == (TrapStep::Interrupt { is: regs.is }) && *final(ctx)
                == *old(ctx),
            TrapKind::EmulateInstruction => r.1 == (TrapStep::Emulated {
                op: emulated_op(regs.badi).unwrap(),
            }) && emulation_effect(*old(ctx), *final(ctx), regs.era, regs.badi),
            TrapKind::Hypercall => r.1 == (TrapStep::Hypercall {
                code: old(ctx).x@[REG_A0 as int],
                arg0: old(ctx).x@[REG_A1 as int],
                arg1: old(ctx).x@[REG_A2 as int],
            }) && *final(ctx) == *old(ctx),
            TrapKind::PageFaultMmio => r.1 == (TrapStep::Mmio {
                inst: ldst_spec(regs.badi, old(ctx).x@),
                request: MMIOAccess {
                    address: regs.badv,
                    size: ldst_spec(regs.badi, old(ctx).x@).size,
                    is_write: ldst_spec(regs.badi, old(ctx).x@).is_write,
                    value: ldst_spec(regs.badi, old(ctx).x@).value,
                },
            }) && *final(ctx) == *old(ctx),
            TrapKind::Unhandled => r.1 == TrapStep::Unhandled && *final(ctx) == *old(ctx),
        },
{
    let timer = save_timer(ctx, now);
    if handle_idle(regs.ecode, regs.badi, ctx) {
        return (timer, TrapStep::ResumeIdle);
    }
    let step = match handle_exception(regs.ecode) {
        TrapKind::Interrupt => TrapStep::Interrupt { is: regs.is },
        TrapKind::EmulateInstruction => {
            let op = emulate_instruction(regs.era, regs.badi, ctx);
            TrapStep::Emulated { op }
        },
        TrapKind::Hypercall => {
            let (code, arg0, arg1) = hvc_arguments(ctx);
            TrapStep::Hypercall { code, arg0, arg1 }
        },
        TrapKind::PageFaultMmio => {
            let inst = decode_ldst(regs.badi, ctx);
            let request = mmio_request(&inst, regs.badv);
            TrapStep::Mmio { inst, request }
        },
        TrapKind::Unhandled => TrapStep::Unhandled,
    };
    (timer, step)
}

} // verus!
