//! Injection of virtual interrupts into the guest and the dispatch of the
//! interrupts the hypervisor itself takes.
use vstd::prelude::*;

use crate::consts::{
    HWI_MASK, INT_HWI0, INT_HWI7, INT_IPI, IPI_BIT, MAX_CPU_NUM, SGI_IPI_ID, TIMER_BIT,
};
use crate::register::{read_gcsr_estat, write_gcsr_estat, GuestCsrs, GCSR_ESTAT};

verus! {

/// Whether a CPU is injecting an interrupt into its guest.
#[derive(Clone, Copy, PartialEq, Eq, Structural, Debug)]
pub enum InjectionStatus {
    Injecting,
    Idle,
}

/// The injection state of one CPU.
#[derive(Clone, Copy)]
pub struct PercpuInjectionStatus {
    pub status: InjectionStatus,
    pub irqs: [u32; 32],
}

/// The injection state of every CPU.
pub struct GlobalInjectionStatus {
    pub cpu_status: [PercpuInjectionStatus; 4],
}

impl GlobalInjectionStatus {
    /// Every CPU idle, with no interrupt recorded.
    pub fn new() -> (r: Self)
        ensures
            forall|c: int|
                0 <= c < MAX_CPU_NUM ==> #[trigger] r.cpu_status@[c].status
                    == InjectionStatus::Idle,
            forall|c: int, i: int|
                0 <= c < MAX_CPU_NUM && 0 <= i < 32 ==> #[trigger] r.cpu_status@[c].irqs@[i] == 0,
    {
        let idle = PercpuInjectionStatus { status: InjectionStatus::Idle, irqs: [0u32; 32] };
        GlobalInjectionStatus { cpu_status: [idle, idle, idle, idle] }
    }
}

/// `status` with CPU `cpu` marked `s`, everything else as it was.
pub open spec fn with_cpu_status(
    status: GlobalInjectionStatus,
    cpu: usize,
    s: InjectionStatus,
) -> Seq<PercpuInjectionStatus> {
    status.cpu_status@.update(
        cpu as int,
        PercpuInjectionStatus { status: s, ..status.cpu_status@[cpu as int] },
    )
}

/// Marks CPU `cpu` as `s`.
fn set_cpu_status(status: &mut GlobalInjectionStatus, cpu: usize, s: InjectionStatus)
    requires
        cpu < MAX_CPU_NUM,
    ensures
        final(status).cpu_status@ == with_cpu_status(*old(status), cpu, s),
{
    let mut entry = status.cpu_status[cpu];
    entry.status = s;
    status.cpu_status[cpu] = entry;
}

/// How an interrupt was injected.
#[derive(Clone, Copy, PartialEq, Eq, Structural, Debug)]
pub enum InjectAction {
    /// The interrupt number is not one a guest can receive; nothing changed.
    Rejected,
    /// A hardware line: the guest interrupt controller's `HWIS` field is set
    /// to `hwis` (one bit per line, line 0 lowest).
    Gintc { hwis: u64 },
    /// Set directly as pending in the guest's `ESTAT`.
    Estat,
}

/// The host-side state of one CPU that injection drives: the `HWIS` field
/// of its guest interrupt controller (`GINTC`), the hardware lines raised in
/// the guest, and whether its host timer is enabled (`TCFG.EN`), which ends
/// an injection when it fires.
#[derive(Clone, Copy, PartialEq, Eq, Structural, Debug)]
pub struct HostIrqLines {
    pub hwis: u64,
    pub timer_enabled: bool,
}

/// Whether interrupt `irq` is one of the eight hardware lines.
pub open spec fn is_hwi(irq: u64) -> bool {
    INT_HWI0 <= irq <= INT_HWI7
}

/// Injects interrupt `irq` into the guest running on CPU `cpu`. Numbers past
/// the IPI are rejected and change nothing. A hardware line is raised by
/// setting the guest interrupt controller's `HWIS` to that line's bit; any
/// other interrupt is made pending in the guest's `ESTAT`. The CPU is then
/// marked as injecting and its host timer started, so that the injection is
/// ended again.
pub fn inject_irq(
    irq: u64,
    is_hardware: bool,
    cpu: usize,
    csrs: &mut GuestCsrs,
    status: &mut GlobalInjectionStatus,
    lines: &mut HostIrqLines,
) -> (r: InjectAction)
    requires
        cpu < MAX_CPU_NUM,
    ensures
        irq > INT_IPI ==> r == InjectAction::Rejected && *final(csrs) == *old(csrs)
            && final(status).cpu_status@ == old(status).cpu_status@ && *final(lines) == *old(lines),
        irq <= INT_IPI && is_hwi(irq) ==> r == (InjectAction::Gintc {
            hwis: (1u64 << irq) >> INT_HWI0,
        }) && *final(csrs) == *old(csrs) && *final(lines) == (HostIrqLines {
            hwis: (1u64 << irq) >> INT_HWI0,
            timer_enabled: true,
        }),
        irq <= INT_IPI && !is_hwi(irq) ==> r == InjectAction::Estat && final(csrs).regs@
            == old(csrs).regs@.update(
            GCSR_ESTAT as int,
            old(csrs).csr(GCSR_ESTAT) | (1u64 << irq),
        ) && *final(lines) == (HostIrqLines { hwis: old(lines).hwis, timer_enabled: true }),
        irq <= INT_IPI ==> final(status).cpu_status@ == with_cpu_status(
            *old(status),
            cpu,
            InjectionStatus::Injecting,
        ),
{
    if irq > INT_IPI {
        return InjectAction::Rejected;
    }
    let bit: u64 = 1u64 << irq;
    let action = if irq >= INT_HWI0 && irq <= INT_HWI7 {
        lines.hwis = bit >> INT_HWI0;
        InjectAction::Gintc { hwis: bit >> INT_HWI0 }
    } else {
        let mut gcsr_estat = read_gcsr_estat(csrs);
        gcsr_estat = gcsr_estat | bit;
        write_gcsr_estat(csrs, gcsr_estat);
        InjectAction::Estat
    };
    set_cpu_status(status, cpu, InjectionStatus::Injecting);
    lines.timer_enabled = true;
    action
}

/// Ends the injection on CPU `cpu`: every hardware line raised in the guest
/// is lowered (`HWIS` cleared), the host timer is stopped, and the CPU is
/// marked idle. The guest's `ESTAT` is not touched.
pub fn clear_hwi_injected_irq(cpu: usize, status: &mut GlobalInjectionStatus, lines: &mut HostIrqLines)
    requires
        cpu < MAX_CPU_NUM,
    ensures
        final(status).cpu_status@ == with_cpu_status(*old(status), cpu, InjectionStatus::Idle),
        *final(lines) == (HostIrqLines { hwis: 0, timer_enabled: false }),
{
    lines.hwis = 0;
    set_cpu_status(status, cpu, InjectionStatus::Idle);
    lines.timer_enabled = false;
}

/// Which interrupt the hypervisor services for an `ESTAT.IS` value.
#[derive(Clone, Copy, PartialEq, Eq, Structural, Debug)]
pub enum InterruptKind {
    /// An inter-processor interrupt.
    Ipi,
    /// The stable timer, which ends a pending injection.
    Timer,
    /// One of the hardware lines.
    Hardware,
    /// None of these.
    Unhandled,
}

/// The interrupt serviced for pending bits `is`: IPIs first, then the
/// timer, then the hardware lines.
pub open spec fn interrupt_kind(is: u64) -> InterruptKind {
    if is & IPI_BIT != 0 {
        InterruptKind::Ipi
    } else if is & TIMER_BIT != 0 {
        InterruptKind::Timer
    } else if is & HWI_MASK != 0 {
        InterruptKind::Hardware
    } else {
        InterruptKind::Unhandled
    }
}

/// Chooses which interrupt to service for pending bits `is`.
pub fn handle_interrupt(is: u64) -> (r: InterruptKind)
    ensures
        r == interrupt_kind(is),
{
    if is & IPI_BIT != 0 {
        InterruptKind::Ipi
    } else if is & TIMER_BIT != 0 {
        InterruptKind::Timer
    } else if is & HWI_MASK != 0 {
        InterruptKind::Hardware
    } else {
        InterruptKind::Unhandled
    }
}

/// What the hypervisor does about the interrupt it services.
#[derive(Clone, Copy, PartialEq, Eq, Structural, Debug)]
pub enum InterruptAction {
    /// An IPI: drain the CPU's pending hypervisor events when
    /// `drain_events`, then reset the IPI status when `reset_ipi`.
    Ipi { drain_events: bool, reset_ipi: bool },
    /// The timer: clear the host timer interrupt (`TICLR`); the injection it
    /// was started for has been ended.
    Timer,
    /// A hardware line: only reported.
    Hardware,
    /// Nothing the hypervisor services: only reported.
    Unhandled,
}

/// Services the interrupt pending in `is` on CPU `cpu`, given the IPI status
/// `ipi_status` read for it. An IPI drains the hypervisor's events exactly
/// when its status is the software-generated IPI, and is always reset; the
/// timer ends the CPU's injection (see `clear_hwi_injected_irq`); hardware
/// lines and anything else change nothing.
pub fn handle_interrupt_step(
    is: u64,
    ipi_status: u64,
    cpu: usize,
    status: &mut GlobalInjectionStatus,
    lines: &mut HostIrqLines,
) -> (r: InterruptAction)
    requires
        cpu < MAX_CPU_NUM,
    ensures
        interrupt_kind(is) == InterruptKind::Ipi ==> r == (InterruptAction::Ipi {
            drain_events: ipi_status == SGI_IPI_ID,
            reset_ipi: true,
        }) && final(status).cpu_status@ == old(status).cpu_status@ && *final(lines) == *old(lines),
        interrupt_kind(is) == InterruptKind::Timer ==> r == InterruptAction::Timer
            && final(status).cpu_status@ == with_cpu_status(*old(status), cpu, InjectionStatus::Idle)
            && *final(lines) == (HostIrqLines { hwis: 0, timer_enabled: false }),
        interrupt_kind(is) == InterruptKind::Hardware ==> r == InterruptAction::Hardware
            && final(status).cpu_status@ == old(status).cpu_status@ && *final(lines) == *old(lines),
        interrupt_kind(is) == InterruptKind::Unhandled ==> r == InterruptAction::Unhandled
            && final(status).cpu_status@ == old(status).cpu_status@ && *final(lines) == *old(lines),
{
    match handle_interrupt(is) {
        InterruptKind::Ipi => InterruptAction::Ipi { drain_events: ipi_status == SGI_IPI_ID, reset_ipi: true },
        InterruptKind::Timer => {
            clear_hwi_injected_irq(cpu, status, lines);
            InterruptAction::Timer
        },
        InterruptKind::Hardware => InterruptAction::Hardware,
        InterruptKind::Unhandled => InterruptAction::Unhandled,
    }
}

} // verus!
