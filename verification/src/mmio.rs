//! Emulation of guest accesses to the LS7A2000 / 3A5000 configuration
//! registers around physical `0x1fe0_0000`: which handler an access goes
//! to, how per-core status registers are redirected, how interrupt routing
//! writes are rewritten, and how repeated accesses are counted.
use vstd::prelude::*;

use crate::consts::MAX_CPU_NUM;
use crate::context::MMIOAccess;
use crate::handler::valid_access_size;
use std::collections::BTreeMap;

verus! {

/// Uncached direct-mapped base of the chip configuration registers.
pub const MMIO_BASE: u64 = 0x8000_0000_1fe0_0000;

/// The UART0 registers.
pub const UART0_BASE: u64 = MMIO_BASE + 0x01e0;

/// Size of the UART0 register block.
pub const UART0_SIZE: u64 = 0x8;

/// Legacy interrupt controller routing registers.
pub const LIOINTC_MAP_BASE: u64 = MMIO_BASE + 0x1400;

/// Size of the legacy routing registers.
pub const LIOINTC_MAP_SIZE: u64 = 0x20;

/// The any-send IPI register.
pub const ANYSEND_BASE: u64 = MMIO_BASE + 0x1158;

/// Size of the any-send register.
pub const ANYSEND_SIZE: u64 = 0x10;

/// Extended I/O interrupt routing registers, one byte per interrupt.
pub const EXTIOI_MAP_CORE_BASE: u64 = MMIO_BASE + 0x1c00;

/// Size of the extended I/O interrupt routing registers.
pub const EXTIOI_MAP_CORE_SIZE: u64 = 0x100;

/// Extended I/O interrupt status registers.
pub const EXTIOI_SR_BASE: u64 = MMIO_BASE + 0x1700;

/// Size of the extended I/O interrupt status registers.
pub const EXTIOI_SR_SIZE: u64 = 0x20;

/// Extended I/O interrupt node-selection registers.
pub const EXTIOI_NODE_SEL_BASE: u64 = MMIO_BASE + 0x14a0;

/// Size of the node-selection registers.
pub const EXTIOI_NODE_SEL_SIZE: u64 = 0x20;

/// Per-core extended I/O interrupt status registers, `0x100` bytes per core.
pub const EXTIOI_SR_CORE_BASE: u64 = MMIO_BASE + 0x1800;

/// Size of the per-core status registers of all cores.
pub const EXTIOI_SR_CORE_SIZE: u64 = 0x400;

/// Stride between two cores' status registers.
pub const EXTIOI_SR_CORE_STRIDE: u64 = 0x100;

/// Extended I/O interrupt enable registers.
pub const EXTIOI_ENABLE_BASE: u64 = MMIO_BASE + 0x1600;

/// Size of the enable registers.
pub const EXTIOI_ENABLE_SIZE: u64 = 0x20;

/// Extended I/O interrupt bounce registers.
pub const EXTIOI_BOUNCE_BASE: u64 = MMIO_BASE + 0x1680;

/// Size of the bounce registers.
pub const EXTIOI_BOUNCE_SIZE: u64 = 0x20;

/// Error number of an I/O error.
pub const EIO: i32 = 5;

/// The offset of a chip address from the chip's register base.
pub fn offset(addr: u64) -> (r: u64)
    requires
        addr >= MMIO_BASE,
    ensures
        r == addr - MMIO_BASE,
{
    addr - MMIO_BASE
}

/// Whether the offset `addr` lies in the register block at `base` of `size`
/// bytes.
pub open spec fn in_block(addr: u64, base: u64, size: u64) -> bool {
    base - MMIO_BASE <= addr < base + size - MMIO_BASE
}

/// The register blocks whose accesses are handled apart.
#[derive(Clone, Copy, PartialEq, Eq, Structural, Debug)]
pub enum MmioRoute {
    Uart,
    ExtioiMapping,
    ExtioiStatus,
    ExtioiEnable,
    ExtioiBounce,
    ExtioiNodeSel,
    Generic,
}

/// The block the offset `addr` falls in, tried in the order UART, routing,
/// per-core status, enable, bounce, node selection.
pub open spec fn route_of(addr: u64) -> MmioRoute {
    if in_block(addr, UART0_BASE, UART0_SIZE) {
        MmioRoute::Uart
    } else if in_block(addr, EXTIOI_MAP_CORE_BASE, EXTIOI_MAP_CORE_SIZE) {
        MmioRoute::ExtioiMapping
    } else if in_block(addr, EXTIOI_SR_CORE_BASE, EXTIOI_SR_CORE_SIZE) {
        MmioRoute::ExtioiStatus
    } else if in_block(addr, EXTIOI_ENABLE_BASE, EXTIOI_ENABLE_SIZE) {
        MmioRoute::ExtioiEnable
    } else if in_block(addr, EXTIOI_BOUNCE_BASE, EXTIOI_BOUNCE_SIZE) {
        MmioRoute::ExtioiBounce
    } else if in_block(addr, EXTIOI_NODE_SEL_BASE, EXTIOI_NODE_SEL_SIZE) {
        MmioRoute::ExtioiNodeSel
    } else {
        MmioRoute::Generic
    }
}

fn is_in_mmio_range(addr: u64, base: u64, size: u64) -> (r: bool)
    requires
        base >= MMIO_BASE,
        base + size <= u64::MAX,
    ensures
        r == in_block(addr, base, size),
{
    addr >= offset(base) && addr < offset(base + size)
}

/// Finds the block the offset `addr` falls in.
pub fn mmio_route(addr: u64) -> (r: MmioRoute)
    ensures
        r == route_of(addr),
{
    if is_in_mmio_range(addr, UART0_BASE, UART0_SIZE) {
        MmioRoute::Uart
    } else if is_in_mmio_range(addr, EXTIOI_MAP_CORE_BASE, EXTIOI_MAP_CORE_SIZE) {
        MmioRoute::ExtioiMapping
    } else if is_in_mmio_range(addr, EXTIOI_SR_CORE_BASE, EXTIOI_SR_CORE_SIZE) {
        MmioRoute::ExtioiStatus
    } else if is_in_mmio_range(addr, EXTIOI_ENABLE_BASE, EXTIOI_ENABLE_SIZE) {
        MmioRoute::ExtioiEnable
    } else if is_in_mmio_range(addr, EXTIOI_BOUNCE_BASE, EXTIOI_BOUNCE_SIZE) {
        MmioRoute::ExtioiBounce
    } else if is_in_mmio_range(addr, EXTIOI_NODE_SEL_BASE, EXTIOI_NODE_SEL_SIZE) {
        MmioRoute::ExtioiNodeSel
    } else {
        MmioRoute::Generic
    }
}

/// The core whose status registers the guest addressed at offset `addr`.
pub open spec fn guest_status_core(addr: u64) -> int {
    (addr - (EXTIOI_SR_CORE_BASE - MMIO_BASE)) / EXTIOI_SR_CORE_STRIDE as int
}

/// Whether a status access at offset `addr` can be redirected to core
/// `cpu_id`: it lies at or after the status block, the address of the
/// guest's block fits in a word, and `cpu_id` is a core. The guest may name
/// any core, below or above `cpu_id`.
pub open spec fn status_redirect_ok(addr: u64, cpu_id: usize) -> bool {
    &&& addr >= EXTIOI_SR_CORE_BASE - MMIO_BASE
    &&& EXTIOI_SR_CORE_BASE + (addr - (EXTIOI_SR_CORE_BASE - MMIO_BASE)) <= u64::MAX
    &&& cpu_id < MAX_CPU_NUM
}

/// The offset a status access at `addr` is redirected to on core `cpu_id`:
/// the same register within `cpu_id`'s block.
pub open spec fn redirected_status(addr: u64, cpu_id: usize) -> int {
    addr + (cpu_id - guest_status_core(addr)) * EXTIOI_SR_CORE_STRIDE
}

/// Redirects an access to the per-core interrupt status registers to the
/// registers of the core it runs on: a guest believes it runs on the cores
/// it was given from 0 up, so the register within the block is kept and the
/// block is that of `cpu_id`, whichever core the guest named. The distance
/// between the blocks is taken modulo 2^64, so a guest core above `cpu_id`
/// moves the access down. The access is then performed at `MMIO_BASE`.
pub fn handle_extioi_status_mmio(mmio: &mut MMIOAccess, cpu_id: usize)
    requires
        status_redirect_ok(old(mmio).address, cpu_id),
    ensures
        final(mmio).address == redirected_status(old(mmio).address, cpu_id),
        *final(mmio) == (MMIOAccess { address: final(mmio).address, ..*old(mmio) }),
{
    let this_cpu_id = cpu_id as u64;
    let target_cpu_sr_start = EXTIOI_SR_CORE_BASE + this_cpu_id * 0x100;
    let guest_fake_cpu_id = (mmio.address - offset(EXTIOI_SR_CORE_BASE)) / 0x100;
    let guest_cpu_sr_start = EXTIOI_SR_CORE_BASE + guest_fake_cpu_id * 0x100;
    let compensation_offset = target_cpu_sr_start.wrapping_sub(guest_cpu_sr_start);
    mmio.address = mmio.address.wrapping_add(compensation_offset);
}

/// Why an emulated chip access was refused; both are I/O errors (`EIO`).
#[derive(Clone, Copy, PartialEq, Eq, Structural, Debug)]
pub enum HvError {
    /// A routing write of a width other than 1, 2, 4 or 8 bytes.
    WrongSize,
    /// A routing write that reaches past the last interrupt.
    WrongIoiNumber,
}

impl HvError {
    /// The error number the error is reported with.
    pub fn code(&self) -> (r: i32)
        ensures
            r == EIO,
    {
        EIO
    }
}

/// Byte `i` (little-endian) of `value`.
pub open spec fn byte_of(value: u64, i: int) -> u8 {
    ((value >> ((8 * i) as u64)) & 0xff) as u8
}

/// The core the interrupt `ioi` is routed to: the MSI interrupts from 64 on
/// are spread over the cores 48 at a time; the others go to `cpu_id`.
pub open spec fn route_target_cpu(ioi: int, cpu_id: usize) -> int {
    if ioi >= 64 {
        (ioi - 64) / 48
    } else {
        cpu_id as int
    }
}

/// The routing byte written for interrupt `ioi` when the guest writes
/// `byte`: the guest's node selection (high nibble) is kept, and the target
/// is the one-hot bit of the core chosen by `route_target_cpu`.
pub open spec fn route_byte(byte: u8, ioi: int, cpu_id: usize) -> u8 {
    (byte & 0xf0) | (1u8 << (route_target_cpu(ioi, cpu_id) as u8))
}

/// The first interrupt a routing write at offset `addr` addresses.
pub open spec fn first_ioi(addr: u64, base_addr: u64) -> int {
    addr - (base_addr - MMIO_BASE)
}

/// How many routing bytes of a write are programmed before the write runs
/// past the `size` interrupts.
pub open spec fn routed_count(mmio: MMIOAccess, base_addr: u64, size: u64) -> int {
    let room = size - first_ioi(mmio.address, base_addr);
    if room < 0 {
        0
    } else if room < mmio.size {
        room
    } else {
        mmio.size as int
    }
}

/// Whether a routing write is rewritten at all: it is a write, made by the
/// root (core 0).
pub open spec fn routing_applies(mmio: MMIOAccess, cpu_id: usize) -> bool {
    mmio.is_write && cpu_id == 0
}

/// The routing writes, as (address, byte), that a guest write `mmio` to the
/// routing block at `base_addr` of `size` interrupts turns into.
pub open spec fn mapping_writes(mmio: MMIOAccess, base_addr: u64, size: u64, cpu_id: usize) -> Seq<
    (u64, u8),
> {
    if !routing_applies(mmio, cpu_id) || !valid_access_size(mmio.size) {
        Seq::empty()
    } else {
        Seq::new(
            routed_count(mmio, base_addr, size) as nat,
            |i: int|
                (
                    (base_addr + first_ioi(mmio.address, base_addr) + i) as u64,
                    route_byte(byte_of(mmio.value, i), first_ioi(mmio.address, base_addr) + i, cpu_id),
                ),
        )
    }
}

/// The outcome of a guest write `mmio` to the routing block.
pub open spec fn mapping_result(mmio: MMIOAccess, base_addr: u64, size: u64, cpu_id: usize) -> Result<
    (),
    HvError,
> {
    if !routing_applies(mmio, cpu_id) {
        Ok(())
    } else if !valid_access_size(mmio.size) {
        Err(HvError::WrongSize)
    } else if first_ioi(mmio.address, base_addr) + mmio.size > size {
        Err(HvError::WrongIoiNumber)
    } else {
        Ok(())
    }
}

/// Whether `handle_extioi_mapping_mmio` is defined on its arguments: the
/// access lies at or after the block, the block has at most 256
/// interrupts, and its addresses fit in a word.
pub open spec fn mapping_ok(mmio: MMIOAccess, base_addr: u64, size: u64) -> bool {
    &&& base_addr >= MMIO_BASE
    &&& mmio.address >= base_addr - MMIO_BASE
    &&& size <= 0x100
    &&& base_addr + size <= u64::MAX
}

/// Rewrites a guest write to the interrupt routing registers. Reads, and
/// writes from other cores than the root's, are dropped. Otherwise each
/// byte of the write is turned into the routing byte for its interrupt and
/// returned with the address it goes to, in order, stopping with an error
/// at the first interrupt past the block; a width other than 1, 2, 4 or 8
/// is an error with nothing written.
pub fn handle_extioi_mapping_mmio(
    mmio: &MMIOAccess,
    base_addr: u64,
    size: u64,
    cpu_id: usize,
) -> (r: (Vec<(u64, u8)>, Result<(), HvError>))
    requires
        mapping_ok(*mmio, base_addr, size),
    ensures
        r.0@ == mapping_writes(*mmio, base_addr, size, cpu_id),
        r.1 == mapping_result(*mmio, base_addr, size, cpu_id),
{
    let mut writes: Vec<(u64, u8)> = Vec::new();
    if !mmio.is_write {
        return (writes, Ok(()));
    }
    if cpu_id != 0 {
        return (writes, Ok(()));
    }
    if !(mmio.size == 1 || mmio.size == 2 || mmio.size == 4 || mmio.size == 8) {
        return (writes, Err(HvError::WrongSize));
    }
    let base_ioi_number = mmio.address - offset(base_addr);
    let mut i: u64 = 0;
    while i < mmio.size
        invariant
            mapping_ok(*mmio, base_addr, size),
            routing_applies(*mmio, cpu_id),
            valid_access_size(mmio.size),
            base_ioi_number == first_ioi(mmio.address, base_addr),
            i <= mmio.size,
            i == 0 || base_ioi_number + i <= size,
            writes@.len() == i,
            forall|j: int|
                0 <= j < i ==> #[trigger] writes@[j] == (
                    (base_addr + base_ioi_number + j) as u64,
                    route_byte(byte_of(mmio.value, j), base_ioi_number + j, cpu_id),
                ),
        decreases mmio.size - i,
    {
        let target_ioi_number = base_ioi_number + i;
        if target_ioi_number >= size {
            return (writes, Err(HvError::WrongIoiNumber));
        }
        let byte = #[verifier::truncate] (((mmio.value >> (8 * i)) & 0xff) as u8);
        let target_ioi_node_selection = byte & 0xf0;
        let target_cpu_id: u64 = if target_ioi_number >= 64 {
            (target_ioi_number - 64) / 48
        } else {
            cpu_id as u64
        };
        let new_data = target_ioi_node_selection | (1u8 << (target_cpu_id as u8));
        writes.push((base_addr + target_ioi_number, new_data));
        i = i + 1;
    }
    (writes, Ok(()))
}

/// What is to be done with an access to the chip registers.
pub enum MmioPlan {
    /// Perform the (possibly redirected) access against the registers at
    /// `base`, then count it when `track` holds.
    Forward { base: u64, track: bool },
    /// A non-root write to a shared interrupt register: dropped, not
    /// counted, reported as done.
    Ignore,
    /// Write the routing bytes `writes` (address, byte) in order, count the
    /// access, and report `result`.
    Program { writes: Vec<(u64, u8)>, result: Result<(), HvError> },
}

/// Whether the access `mmio` made on core `cpu_id` can be planned: a status
/// access must be redirectable (see `status_redirect_ok`).
pub open spec fn generic_handler_ok(mmio: MMIOAccess, cpu_id: usize) -> bool {
    &&& cpu_id < MAX_CPU_NUM
    &&& route_of(mmio.address) == MmioRoute::ExtioiStatus ==> status_redirect_ok(mmio.address, cpu_id)
}

/// Whether a write to the shared block `route` from core `cpu_id` is
/// dropped: non-root writes to the enable, bounce and node-selection
/// registers are.
pub open spec fn shared_write_dropped(route: MmioRoute, mmio: MMIOAccess, cpu_id: usize) -> bool {
    &&& route == MmioRoute::ExtioiEnable || route == MmioRoute::ExtioiBounce || route
        == MmioRoute::ExtioiNodeSel
    &&& cpu_id != 0
    &&& mmio.is_write
}

/// The plan `r` made for the access `before` on core `cpu_id`, which leaves
/// the access as `after` (see `loongarch_generic_mmio_handler`).
pub open spec fn generic_plan(before: MMIOAccess, cpu_id: usize, r: MmioPlan, after: MMIOAccess) -> bool {
    let route = route_of(before.address);
    &&& route == MmioRoute::Uart ==> r == (MmioPlan::Forward { base: MMIO_BASE, track: false })
        && after == before
    &&& route == MmioRoute::ExtioiMapping ==> {
        &&& after == before
        &&& r matches MmioPlan::Program { writes, result }
        &&& writes@ == mapping_writes(before, EXTIOI_MAP_CORE_BASE, EXTIOI_MAP_CORE_SIZE, cpu_id)
        &&& result == mapping_result(before, EXTIOI_MAP_CORE_BASE, EXTIOI_MAP_CORE_SIZE, cpu_id)
    }
    &&& route == MmioRoute::ExtioiStatus ==> {
        &&& r == (MmioPlan::Forward { base: MMIO_BASE, track: true })
        &&& after.address == redirected_status(before.address, cpu_id)
        &&& after == (MMIOAccess { address: after.address, ..before })
    }
    &&& shared_write_dropped(route, before, cpu_id) ==> r == MmioPlan::Ignore && after == before
    &&& (route == MmioRoute::Generic || (route == MmioRoute::ExtioiEnable || route
        == MmioRoute::ExtioiBounce || route == MmioRoute::ExtioiNodeSel) && !shared_write_dropped(
        route,
        before,
        cpu_id,
    )) ==> r == (MmioPlan::Forward { base: MMIO_BASE, track: true }) && after == before
}

/// Plans a guest access to the chip registers (its address is an offset
/// from `MMIO_BASE`), as made on core `cpu_id`. UART accesses are forwarded
/// uncounted; routing writes are rewritten (see
/// `handle_extioi_mapping_mmio`); per-core status accesses are redirected
/// to `cpu_id`'s registers (see `handle_extioi_status_mmio`) and forwarded;
/// non-root writes to the shared enable, bounce and node-selection
/// registers are dropped; everything else is forwarded. All but the UART
/// and the dropped writes are counted.
pub fn loongarch_generic_mmio_handler(mmio: &mut MMIOAccess, arg: u64, cpu_id: usize) -> (r:
    MmioPlan)
    requires
        generic_handler_ok(*old(mmio), cpu_id),
    ensures
        generic_plan(*old(mmio), cpu_id, r, *final(mmio)),
{
    let route = mmio_route(mmio.address);
    match route {
        MmioRoute::Uart => MmioPlan::Forward { base: MMIO_BASE, track: false },
        MmioRoute::ExtioiMapping => {
            let (writes, result) = handle_extioi_mapping_mmio(
                mmio,
                EXTIOI_MAP_CORE_BASE,
                EXTIOI_MAP_CORE_SIZE,
                cpu_id,
            );
            MmioPlan::Program { writes, result }
        },
        MmioRoute::ExtioiStatus => {
            handle_extioi_status_mmio(mmio, cpu_id);
            MmioPlan::Forward { base: MMIO_BASE, track: true }
        },
        MmioRoute::ExtioiEnable | MmioRoute::ExtioiBounce | MmioRoute::ExtioiNodeSel => {
            if cpu_id != 0 && mmio.is_write {
                MmioPlan::Ignore
            } else {
                MmioPlan::Forward { base: MMIO_BASE, track: true }
            }
        },
        MmioRoute::Generic => MmioPlan::Forward { base: MMIO_BASE, track: true },
    }
}

/// Accesses counted beyond this many are logged in compressed form.
pub const COMPRESSION_THRESHOLD: u64 = 40;

/// A compressed access is logged once in this many occurrences.
pub const LOG_INTERVAL: u64 = 100000;

/// What identifies a kind of chip access for counting: its offset, its
/// width, and 1 for a write or 0 for a read. Kinds are ordered as these
/// integers are.
pub type MMIOAccessKey = (u64, u64, u8);

/// The count of one kind of access, the last value it carried, and whether
/// its logging has been compressed (1) or not (0).
#[derive(Clone, Copy, PartialEq, Eq, Structural, Debug)]
pub struct MMIOAccessStats {
    pub count: u64,
    pub last_value: u64,
    pub is_compressed: u64,
}

impl MMIOAccessStats {
    /// Statistics of an access not yet seen.
    pub fn new() -> (r: Self)
        ensures
            r == fresh_stats(),
    {
        MMIOAccessStats { count: 0, last_value: 0, is_compressed: 0 }
    }
}

/// Statistics of an access not yet seen.
pub open spec fn fresh_stats() -> MMIOAccessStats {
    MMIOAccessStats { count: 0, last_value: 0, is_compressed: 0 }
}

/// The statistics of every kind of chip access seen so far.
pub struct MMIOAccessTracker {
    pub entries: BTreeMap<MMIOAccessKey, MMIOAccessStats>,
}

/// The statistics `entries` holds for `key`, fresh ones when it holds none.
pub open spec fn stats_of(entries: Map<MMIOAccessKey, MMIOAccessStats>, key: MMIOAccessKey) -> MMIOAccessStats {
    if entries.contains_key(key) {
        entries[key]
    } else {
        fresh_stats()
    }
}

impl MMIOAccessTracker {
    /// A tracker that has seen nothing.
    pub fn new() -> (r: Self)
        ensures
            r.entries@ == Map::<MMIOAccessKey, MMIOAccessStats>::empty(),
    {
        MMIOAccessTracker { entries: BTreeMap::new() }
    }

    /// The statistics of `key`, which are entered fresh when there were none.
    pub fn find_or_insert(&mut self, key: MMIOAccessKey) -> (r: MMIOAccessStats)
        ensures
            final(self).entries@ == old(self).entries@.insert(key, stats_of(old(self).entries@, key)),
            r == stats_of(old(self).entries@, key),
    {
        broadcast use vstd::laws_cmp::group_laws_cmp, vstd::std_specs::btree::group_btree_axioms;

        match self.entries.get(&key) {
            Some(stats) => {
                let found = *stats;
                proof {
                    assert(old(self).entries@.insert(key, found) =~= old(self).entries@);
                }
                found
            },
            None => {
                let fresh = MMIOAccessStats::new();
                self.entries.insert(key, fresh);
                fresh
            },
        }
    }
}

/// How an access is logged.
#[derive(Clone, Copy, PartialEq, Eq, Structural, Debug)]
pub enum StatsLog {
    /// In full.
    Full,
    /// Once more in compressed form, having been repeated `repeats` times.
    Compressed { repeats: u64 },
    /// Not at all.
    Silent,
}

/// How an access of a kind already seen `count` times is logged: the first
/// ones in full, later ones once per `LOG_INTERVAL`.
pub open spec fn stats_log(count: u64) -> StatsLog {
    if count < COMPRESSION_THRESHOLD {
        StatsLog::Full
    } else if count % LOG_INTERVAL == 0 {
        StatsLog::Compressed { repeats: count }
    } else {
        StatsLog::Silent
    }
}

/// The statistics of a kind of access after one more carrying `value`: the
/// count goes up by one (wrapping at the top), the value is remembered, and
/// logging is compressed once the count passed the threshold.
pub open spec fn counted(stats: MMIOAccessStats, value: u64) -> MMIOAccessStats {
    MMIOAccessStats {
        count: if stats.count == u64::MAX {
            0
        } else {
            (stats.count + 1) as u64
        },
        last_value: value,
        is_compressed: if stats.count >= COMPRESSION_THRESHOLD {
            1
        } else {
            stats.is_compressed
        },
    }
}

/// The kind of access `mmio` is.
pub open spec fn access_key(mmio: MMIOAccess) -> MMIOAccessKey {
    (mmio.address, mmio.size, if mmio.is_write { 1u8 } else { 0u8 })
}

/// Counts the access `mmio` and tells how to log it.
pub fn handle_mmio_stats(tracker: &mut MMIOAccessTracker, mmio: &MMIOAccess) -> (r: StatsLog)
    ensures
        final(tracker).entries@ == old(tracker).entries@.insert(
            access_key(*mmio),
            counted(stats_of(old(tracker).entries@, access_key(*mmio)), mmio.value),
        ),
        r == stats_log(stats_of(old(tracker).entries@, access_key(*mmio)).count),
{
    broadcast use vstd::laws_cmp::group_laws_cmp, vstd::std_specs::btree::group_btree_axioms;

    let key: MMIOAccessKey = (mmio.address, mmio.size, if mmio.is_write { 1u8 } else { 0u8 });
    let mut stats = tracker.find_or_insert(key);
    let count = stats.count;
    stats.count = count.wrapping_add(1);
    let log = if count >= COMPRESSION_THRESHOLD {
        stats.is_compressed = 1;
        if count % LOG_INTERVAL == 0 {
            StatsLog::Compressed { repeats: count }
        } else {
            StatsLog::Silent
        }
    } else {
        StatsLog::Full
    };
    stats.last_value = mmio.value;
    tracker.entries.insert(key, stats);
    proof {
        assert(tracker.entries@ =~= old(tracker).entries@.insert(
            access_key(*mmio),
            counted(stats_of(old(tracker).entries@, access_key(*mmio)), mmio.value),
        ));
    }
    log
}

} // verus!
