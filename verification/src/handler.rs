//! The decisions of the trap handler: how the guest timer is saved and
//! re-armed around a trap, which exceptions go where, and how an emulated
//! load or store completes.
use vstd::prelude::*;

use crate::consts::{ECODE_GSPR, ECODE_HVC, ECODE_INT, ECODE_PIL, ECODE_PIS, ECODE_PNR, IDLE_INSTRUCTION};
use crate::context::{LdStInst, MMIOAccess, TimerState, ZoneContext};
use crate::utils::{sext, signed_ext, signed_ext_ok};

verus! {

/// Guest timer configuration bit: timer enabled.
pub const TCFG_EN: u64 = 1;

/// Guest timer configuration bit: periodic mode.
pub const TCFG_PERIODIC: u64 = 2;

/// Ticks the guest timer still had to run when the trap was taken: its
/// count-down value when that lies below the configuration word, else none.
pub open spec fn pending_ticks(ctx: ZoneContext) -> u64 {
    if ctx.gcsr_tval < ctx.gcsr_tcfg {
        ctx.gcsr_tval
    } else {
        0
    }
}

/// Records when the guest timer will expire, given the counter value `now`
/// read on entry to the trap.
pub fn save_timer(ctx: &ZoneContext, now: u64) -> (r: TimerState)
    requires
        now + pending_ticks(*ctx) <= u64::MAX,
    ensures
        r.expire == now + pending_ticks(*ctx),
        r.cfg == ctx.gcsr_tcfg,
{
    let ticks = ctx.gcsr_tval;
    let cfg = ctx.gcsr_tcfg;
    let delta = if ticks < cfg { ticks } else { 0 };
    let expire = now + delta;
    TimerState { expire, cfg }
}

/// The period of a periodic timer configuration (its two flag bits cleared).
pub open spec fn timer_period(cfg: u64) -> u64 {
    cfg & 0xffff_ffff_ffff_fffc
}

/// Whether the timer is re-armed with a computed count-down on return: it is
/// enabled, periodic, and the guest's count-down value exceeds the
/// configuration word.
pub open spec fn timer_rearms(ctx: ZoneContext, timer: TimerState) -> bool {
    &&& timer.cfg & TCFG_EN != 0
    &&& timer.cfg & TCFG_PERIODIC != 0
    &&& ctx.gcsr_tval > timer.cfg
}

/// The count-down the re-armed timer is given at counter value `now`: what is
/// left until expiry, or, once expired, what is left of the current period.
pub open spec fn rearm_ticks(timer: TimerState, now: u64) -> u64 {
    if now < timer.expire {
        (timer.expire - now) as u64
    } else {
        (timer_period(timer.cfg) - ((now - timer.expire) as u64) % timer_period(timer.cfg)) as u64
    }
}

/// Whether `restore_timer` returns normally: an expired periodic timer needs
/// a non-zero period.
pub open spec fn restore_timer_ok(ctx: ZoneContext, timer: TimerState, now: u64) -> bool {
    timer_rearms(ctx, timer) && now >= timer.expire ==> timer_period(timer.cfg) != 0
}

/// The guest context after the timer is restored at counter value `now`.
pub open spec fn restored(ctx: ZoneContext, timer: TimerState, now: u64) -> ZoneContext {
    if timer.cfg & TCFG_EN == 0 {
        ZoneContext { gcsr_tcfg: 0, gcsr_estat: 0, gcsr_tval: 0, ..ctx }
    } else if !timer_rearms(ctx, timer) {
        ZoneContext { gcsr_tcfg: 0, gcsr_estat: 0, gcsr_tval: 0, gcsr_ticlr: 1, ..ctx }
    } else {
        ZoneContext { gcsr_tcfg: 0, gcsr_estat: 0, gcsr_tval: rearm_ticks(timer, now), ..ctx }
    }
}

/// Restores the guest timer before returning to the guest, given the counter
/// value `now`.
pub fn restore_timer(ctx: &mut ZoneContext, timer: TimerState, now: u64)
    requires
        restore_timer_ok(*old(ctx), timer, now),
    ensures
        *final(ctx) == restored(*old(ctx), timer, now),
{
    let cfg = timer.cfg;
    ctx.gcsr_tcfg = 0;
    ctx.gcsr_estat = 0;
    if cfg & TCFG_EN == 0 {
        ctx.gcsr_tval = 0;
    } else {
        let ticks = ctx.gcsr_tval;
        let estat = ctx.gcsr_estat;
        if !((cfg & TCFG_PERIODIC) != 0 && (ticks > cfg)) {
            ctx.gcsr_tval = 0;
            let cpu_timer = 1u64 << 11u64;
            proof {
                assert(0u64 & (1u64 << 11u64) == 0) by (bit_vector);
            }
            if estat & cpu_timer == 0 {
                ctx.gcsr_ticlr = 1;
            }
        } else {
            let mut delta: u64 = 0;
            if now < timer.expire {
                delta = timer.expire - now;
            } else if (cfg & TCFG_PERIODIC) != 0 {
                let period = cfg & 0xffff_ffff_ffff_fffc;
                delta = now - timer.expire;
                delta = period - (delta % period);
            }
            ctx.gcsr_tval = delta;
        }
    }
}

/// Whether a trap is a guest's `idle 0`, which is skipped.
pub open spec fn is_idle_trap(ecode: u64, badi: u64) -> bool {
    ecode == ECODE_GSPR && badi == IDLE_INSTRUCTION
}

/// Skips a trapped `idle 0` by stepping past it; reports whether it did. On
/// `true` the caller resumes the guest at once.
pub fn handle_idle(ecode: u64, badi: u64, ctx: &mut ZoneContext) -> (r: bool)
    requires
        is_idle_trap(ecode, badi) ==> old(ctx).sepc + 4 <= u64::MAX,
    ensures
        r == is_idle_trap(ecode, badi),
        r ==> *final(ctx) == (ZoneContext { sepc: (old(ctx).sepc + 4) as u64, ..*old(ctx) }),
        !r ==> *final(ctx) == *old(ctx),
{
    if ecode == ECODE_GSPR && badi == IDLE_INSTRUCTION {
        ctx.sepc = ctx.sepc + 4;
        true
    } else {
        false
    }
}

/// Where the trap handler sends an exception.
#[derive(Clone, Copy, PartialEq, Eq, Structural, Debug)]
pub enum TrapKind {
    /// An interrupt, dispatched on `ESTAT.IS`.
    Interrupt,
    /// A guest-sensitive instruction, emulated.
    EmulateInstruction,
    /// A hypercall.
    Hypercall,
    /// A load or store that faulted on a device page, emulated as MMIO.
    PageFaultMmio,
    /// Anything else: the hypervisor stops.
    Unhandled,
}

/// The handling an exception code calls for.
pub open spec fn trap_kind(ecode: u64) -> TrapKind {
    if ecode == ECODE_INT {
        TrapKind::Interrupt
    } else if ecode == ECODE_GSPR {
        TrapKind::EmulateInstruction
    } else if ecode == ECODE_HVC {
        TrapKind::Hypercall
    } else if ecode == ECODE_PIL || ecode == ECODE_PIS || ecode == ECODE_PNR {
        TrapKind::PageFaultMmio
    } else {
        TrapKind::Unhandled
    }
}

/// Chooses how an exception is handled.
pub fn handle_exception(ecode: u64) -> (r: TrapKind)
    ensures
        r == trap_kind(ecode),
{
    if ecode == ECODE_INT {
        TrapKind::Interrupt
    } else if ecode == ECODE_GSPR {
        TrapKind::EmulateInstruction
    } else if ecode == ECODE_HVC {
        TrapKind::Hypercall
    } else if ecode == ECODE_PIL || ecode == ECODE_PIS || ecode == ECODE_PNR {
        TrapKind::PageFaultMmio
    } else {
        TrapKind::Unhandled
    }
}

/// The device access that a faulting load/store at `badv` stands for.
pub fn mmio_request(inst: &LdStInst, badv: u64) -> (r: MMIOAccess)
    ensures
        r == (MMIOAccess {
            address: badv,
            size: inst.size,
            is_write: inst.is_write,
            value: inst.value,
        }),
{
    MMIOAccess { address: badv, size: inst.size, is_write: inst.is_write, value: inst.value }
}

/// Mask of the low `size` bytes, for the access widths 1, 2, 4 and 8.
pub open spec fn size_mask(size: u64) -> u64 {
    if size == 1 {
        0xff
    } else if size == 2 {
        0xffff
    } else if size == 4 {
        0xffff_ffff
    } else {
        0xffff_ffff_ffff_ffff
    }
}

/// Whether `size` is a width a device access can have.
pub open spec fn valid_access_size(size: u64) -> bool {
    size == 1 || size == 2 || size == 4 || size == 8
}

/// Mask of the low `size` bytes.
pub fn access_mask(size: u64) -> (r: u64)
    requires
        valid_access_size(size),
    ensures
        r == size_mask(size),
{
    if size == 1 {
        0xff
    } else if size == 2 {
        0xffff
    } else if size == 4 {
        0xffff_ffff
    } else {
        0xffff_ffff_ffff_ffff
    }
}

/// The register value a load of `size` bytes that read `value` yields:
/// zero-extended when `is_u`, else sign-extended.
pub open spec fn loaded_value(value: u64, size: u64, is_u: bool) -> u64 {
    if is_u {
        value & size_mask(size)
    } else {
        sext(value & size_mask(size), (size * 8) as u64)
    }
}

/// Whether a completed load can be written back: a valid width, and a
/// sign extension that is defined.
pub open spec fn load_completes(value: u64, size: u64, is_u: bool) -> bool {
    &&& valid_access_size(size)
    &&& !is_u ==> signed_ext_ok(value & size_mask(size), (size * 8) as u64)
}

/// Whether an emulated load/store can be completed with `outcome`: a
/// successful load has a valid width and a defined sign extension, and the
/// resume address does not overflow.
pub open spec fn mmio_completes<E>(inst: LdStInst, outcome: Result<MMIOAccess, E>, sepc: u64) -> bool {
    match outcome {
        Ok(mmio) => {
            &&& !inst.is_write ==> load_completes(mmio.value, mmio.size, inst.is_u)
            &&& sepc + 4 <= u64::MAX
        },
        Err(_) => true,
    }
}

/// Completes an emulated load/store with the outcome of its device access.
/// A failed access is handed back with the context untouched (the guest
/// would re-run the instruction). After a successful one, a load writes
/// what was read (trimmed to its width, then zero- or sign-extended) to its
/// register, and the guest resumes after the instruction.
pub fn do_mmio<E>(inst: &LdStInst, outcome: Result<MMIOAccess, E>, ctx: &mut ZoneContext) -> (r:
    Result<(), E>)
    requires
        inst.rd < 32,
        mmio_completes(*inst, outcome, old(ctx).sepc),
    ensures
        match outcome {
            Err(e) => r == Err::<(), E>(e) && *final(ctx) == *old(ctx),
            Ok(mmio) => {
                &&& r == Ok::<(), E>(())
                &&& final(ctx).sepc == old(ctx).sepc + 4
                &&& final(ctx).x@ == if inst.is_write {
                    old(ctx).x@
                } else {
                    old(ctx).x@.update(
                        inst.rd as int,
                        loaded_value(mmio.value, mmio.size, inst.is_u),
                    )
                }
                &&& *final(ctx) == (ZoneContext {
                    x: final(ctx).x,
                    sepc: final(ctx).sepc,
                    ..*old(ctx)
                })
            },
        },
{
    let mmio = match outcome {
        Ok(mmio) => mmio,
        Err(e) => {
            return Err(e);
        },
    };
    if !inst.is_write {
        let mask = access_mask(mmio.size);
        let trimmed = mmio.value & mask;
        let extended = if inst.is_u {
            trimmed
        } else {
            signed_ext(trimmed, mmio.size * 8)
        };
        ctx.x[inst.rd] = extended;
    }
    ctx.sepc = ctx.sepc + 4;
    Ok(())
}

/// The hardware guest ID a vCPU runs under: ID 0 belongs to the hypervisor's
/// own TLB entries, so a zone's ID is shifted up by one; with no zone on the
/// CPU the ID is 0.
pub fn vcpu_guest_id(zone_id: Option<u64>) -> (r: u64)
    requires
        zone_id matches Some(id) ==> id < u64::MAX,
    ensures
        r == match zone_id {
            Some(id) => (id + 1) as u64,
            None => 0,
        },
{
    match zone_id {
        Some(id) => id + 1,
        None => 0,
    }
}

} // verus!
