use hvisor_la64::context::MMIOAccess;
use hvisor_la64::irq::{
    clear_hwi_injected_irq, handle_interrupt, handle_interrupt_step, inject_irq,
    GlobalInjectionStatus, HostIrqLines, InjectAction, InjectionStatus, InterruptAction,
    InterruptKind,
};
use hvisor_la64::mmio::{
    handle_extioi_mapping_mmio, handle_extioi_status_mmio, handle_mmio_stats,
    loongarch_generic_mmio_handler, mmio_route, offset, HvError, MMIOAccessKey, MMIOAccessStats,
    MMIOAccessTracker, MmioPlan, MmioRoute, StatsLog, EXTIOI_MAP_CORE_BASE, MMIO_BASE,
};
use hvisor_la64::register::{gintc_with_hwis, read_gcsr_estat, GuestCsrs};

fn access(address: u64, size: u64, is_write: bool, value: u64) -> MMIOAccess {
    MMIOAccess { address, size, is_write, value }
}

#[test]
fn offset_from_base() {
    assert_eq!(offset(MMIO_BASE + 0x1c00), 0x1c00);
}

#[test]
fn routes() {
    assert_eq!(mmio_route(0x1e0), MmioRoute::Uart);
    assert_eq!(mmio_route(0x1e8), MmioRoute::Generic);
    assert_eq!(mmio_route(0x1c00), MmioRoute::ExtioiMapping);
    assert_eq!(mmio_route(0x1cff), MmioRoute::ExtioiMapping);
    assert_eq!(mmio_route(0x1800), MmioRoute::ExtioiStatus);
    assert_eq!(mmio_route(0x1600), MmioRoute::ExtioiEnable);
    assert_eq!(mmio_route(0x1680), MmioRoute::ExtioiBounce);
    assert_eq!(mmio_route(0x14a0), MmioRoute::ExtioiNodeSel);
    assert_eq!(mmio_route(0x1000), MmioRoute::Generic);
}

#[test]
fn status_access_redirected_to_running_core() {
    let mut m = access(0x1808, 8, false, 0);
    handle_extioi_status_mmio(&mut m, 2);
    assert_eq!(m.address, 0x1a08);
    let mut m = access(0x1910, 4, false, 0);
    handle_extioi_status_mmio(&mut m, 3);
    assert_eq!(m.address, 0x1b10);
    // a guest naming a core above the running one is moved down
    let mut m = access(0x1b24, 4, false, 0);
    handle_extioi_status_mmio(&mut m, 1);
    assert_eq!(m.address, 0x1924);
}

#[test]
fn routing_write_rewritten() {
    // 4-byte write covering interrupts 0x40..0x43 (MSI range), node bits kept
    let m = access(0x1c40, 4, true, 0x5f_3e_2d_1c);
    let (writes, result) = handle_extioi_mapping_mmio(&m, EXTIOI_MAP_CORE_BASE, 0x100, 0);
    assert_eq!(result, Ok(()));
    assert_eq!(
        writes,
        vec![
            (EXTIOI_MAP_CORE_BASE + 0x40, 0x11),
            (EXTIOI_MAP_CORE_BASE + 0x41, 0x21),
            (EXTIOI_MAP_CORE_BASE + 0x42, 0x31),
            (EXTIOI_MAP_CORE_BASE + 0x43, 0x51),
        ]
    );
    // interrupt 0xa0 (160) goes to core (160 - 64) / 48 = 2
    let m = access(0x1ca0, 1, true, 0xe7);
    let (writes, _) = handle_extioi_mapping_mmio(&m, EXTIOI_MAP_CORE_BASE, 0x100, 0);
    assert_eq!(writes, vec![(EXTIOI_MAP_CORE_BASE + 0xa0, 0xe4)]);
    // below 64: routed to the running core (the root, core 0)
    let m = access(0x1c05, 1, true, 0x3f);
    let (writes, _) = handle_extioi_mapping_mmio(&m, EXTIOI_MAP_CORE_BASE, 0x100, 0);
    assert_eq!(writes, vec![(EXTIOI_MAP_CORE_BASE + 0x05, 0x31)]);
}

#[test]
fn routing_errors() {
    let m = access(0x1c00, 3, true, 0);
    assert_eq!(
        handle_extioi_mapping_mmio(&m, EXTIOI_MAP_CORE_BASE, 0x100, 0),
        (vec![], Err(HvError::WrongSize))
    );
    let m = access(0x1cfe, 4, true, 0x0000_0000);
    let (writes, result) = handle_extioi_mapping_mmio(&m, EXTIOI_MAP_CORE_BASE, 0x100, 0);
    assert_eq!(writes.len(), 2);
    assert_eq!(result, Err(HvError::WrongIoiNumber));
    assert_eq!(HvError::WrongIoiNumber.code(), 5);
}

#[test]
fn routing_reads_and_nonroot_writes_dropped() {
    let m = access(0x1c00, 1, false, 0xff);
    assert_eq!(handle_extioi_mapping_mmio(&m, EXTIOI_MAP_CORE_BASE, 0x100, 0), (vec![], Ok(())));
    let m = access(0x1c00, 1, true, 0xff);
    assert_eq!(handle_extioi_mapping_mmio(&m, EXTIOI_MAP_CORE_BASE, 0x100, 1), (vec![], Ok(())));
}

#[test]
fn generic_handler_plans() {
    let mut m = access(0x1e0, 1, true, 0x41);
    assert!(matches!(loongarch_generic_mmio_handler(&mut m, 0, 1), MmioPlan::Forward { base: MMIO_BASE, track: false }));
    let mut m = access(0x1600, 4, true, 0);
    assert!(matches!(loongarch_generic_mmio_handler(&mut m, 0, 1), MmioPlan::Ignore));
    let mut m = access(0x1600, 4, true, 0);
    assert!(matches!(loongarch_generic_mmio_handler(&mut m, 0, 0), MmioPlan::Forward { base: MMIO_BASE, track: true }));
    let mut m = access(0x1808, 4, false, 0);
    assert!(matches!(loongarch_generic_mmio_handler(&mut m, 0, 1), MmioPlan::Forward { base: MMIO_BASE, track: true }));
    assert_eq!(m.address, 0x1908);
    let mut m = access(0x1c41, 1, true, 0x10);
    match loongarch_generic_mmio_handler(&mut m, 0, 0) {
        MmioPlan::Program { writes, result } => {
            assert_eq!(writes, vec![(EXTIOI_MAP_CORE_BASE + 0x41, 0x11)]);
            assert_eq!(result, Ok(()));
        }
        _ => panic!("routing write not programmed"),
    }
}

#[test]
fn stats_count_and_compress() {
    let mut t = MMIOAccessTracker::new();
    let m = access(0x1000, 4, false, 7);
    let key: MMIOAccessKey = (0x1000, 4, 0);
    for i in 0..40u64 {
        assert_eq!(handle_mmio_stats(&mut t, &m), StatsLog::Full);
        assert_eq!(t.entries[&key].count, i + 1);
    }
    assert_eq!(handle_mmio_stats(&mut t, &m), StatsLog::Silent);
    assert_eq!(t.entries.len(), 1);
    assert_eq!(t.entries[&key], MMIOAccessStats { count: 41, last_value: 7, is_compressed: 1 });
    let other = access(0x1000, 4, true, 9);
    assert_eq!(handle_mmio_stats(&mut t, &other), StatsLog::Full);
    assert_eq!(t.entries.len(), 2);
    assert_eq!(t.entries[&(0x1000, 4, 1)].count, 1);
    assert_eq!(t.entries[&key].count, 41);
    t.entries.get_mut(&key).unwrap().count = 100000;
    assert_eq!(handle_mmio_stats(&mut t, &m), StatsLog::Compressed { repeats: 100000 });
}

#[test]
fn find_or_insert_is_stable() {
    let mut t = MMIOAccessTracker::new();
    let k: MMIOAccessKey = (4, 1, 0);
    assert_eq!(t.find_or_insert(k), MMIOAccessStats::new());
    assert_eq!(t.entries.len(), 1);
    t.entries.get_mut(&k).unwrap().count = 3;
    assert_eq!(t.find_or_insert(k).count, 3);
    assert_eq!(t.entries.len(), 1);
}

#[test]
fn inject_software_and_hardware_irqs() {
    let mut csrs = GuestCsrs::new();
    let mut status = GlobalInjectionStatus::new();
    let mut lines = HostIrqLines { hwis: 0, timer_enabled: false };
    assert_eq!(inject_irq(12, false, 1, &mut csrs, &mut status, &mut lines), InjectAction::Estat);
    assert_eq!(read_gcsr_estat(&csrs), 1 << 12);
    assert_eq!(lines, HostIrqLines { hwis: 0, timer_enabled: true });
    assert_eq!(status.cpu_status[1].status, InjectionStatus::Injecting);
    assert_eq!(status.cpu_status[0].status, InjectionStatus::Idle);
    assert_eq!(inject_irq(12, false, 1, &mut csrs, &mut status, &mut lines), InjectAction::Estat);
    assert_eq!(read_gcsr_estat(&csrs), 1 << 12);
    assert_eq!(inject_irq(5, true, 2, &mut csrs, &mut status, &mut lines), InjectAction::Gintc { hwis: 1 << 3 });
    assert_eq!(lines, HostIrqLines { hwis: 1 << 3, timer_enabled: true });
    assert_eq!(read_gcsr_estat(&csrs), 1 << 12);
    let mut idle_lines = HostIrqLines { hwis: 0, timer_enabled: false };
    assert_eq!(inject_irq(13, true, 3, &mut csrs, &mut status, &mut idle_lines), InjectAction::Rejected);
    assert_eq!(idle_lines, HostIrqLines { hwis: 0, timer_enabled: false });
    assert_eq!(status.cpu_status[3].status, InjectionStatus::Idle);
    clear_hwi_injected_irq(2, &mut status, &mut lines);
    assert_eq!(lines, HostIrqLines { hwis: 0, timer_enabled: false });
    assert_eq!(status.cpu_status[2].status, InjectionStatus::Idle);
    assert_eq!(status.cpu_status[1].status, InjectionStatus::Injecting);
    assert_eq!(read_gcsr_estat(&csrs), 1 << 12);
}

#[test]
fn interrupt_steps() {
    let mut status = GlobalInjectionStatus::new();
    let mut lines = HostIrqLines { hwis: 0, timer_enabled: false };
    let mut csrs = GuestCsrs::new();
    inject_irq(4, true, 0, &mut csrs, &mut status, &mut lines);
    assert_eq!(
        handle_interrupt_step((1 << 12) | (1 << 11), 7, 0, &mut status, &mut lines),
        InterruptAction::Ipi { drain_events: true, reset_ipi: true }
    );
    assert_eq!(status.cpu_status[0].status, InjectionStatus::Injecting);
    assert_eq!(
        handle_interrupt_step(1 << 12, 0x8, 0, &mut status, &mut lines),
        InterruptAction::Ipi { drain_events: false, reset_ipi: true }
    );
    assert_eq!(handle_interrupt_step(1 << 3, 7, 0, &mut status, &mut lines), InterruptAction::Hardware);
    assert_eq!(lines.hwis, 1 << 2);
    assert_eq!(handle_interrupt_step(1 << 11, 7, 0, &mut status, &mut lines), InterruptAction::Timer);
    assert_eq!(lines, HostIrqLines { hwis: 0, timer_enabled: false });
    assert_eq!(status.cpu_status[0].status, InjectionStatus::Idle);
    assert_eq!(handle_interrupt_step(0, 7, 0, &mut status, &mut lines), InterruptAction::Unhandled);
}

#[test]
fn gintc_hwis_field() {
    assert_eq!(gintc_with_hwis(0xff_ff_ff, 0x08), 0xff_ff_08);
    assert_eq!(gintc_with_hwis(0, 0x80), 0x80);
}

#[test]
fn interrupt_priority() {
    assert_eq!(handle_interrupt((1 << 12) | (1 << 11) | 4), InterruptKind::Ipi);
    assert_eq!(handle_interrupt((1 << 11) | 4), InterruptKind::Timer);
    assert_eq!(handle_interrupt(1 << 9), InterruptKind::Hardware);
    assert_eq!(handle_interrupt(1 << 2), InterruptKind::Hardware);
    assert_eq!(handle_interrupt(0b11), InterruptKind::Unhandled);
}
