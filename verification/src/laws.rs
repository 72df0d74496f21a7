//! Properties that hold across the library's operations.
use vstd::prelude::*;

use crate::consts::{
    OPCODE_CACOP, OPCODE_CACOP_LENGTH, OPCODE_CPUCFG, OPCODE_CPUCFG_LENGTH, OPCODE_CSRX,
    OPCODE_CSRX_LENGTH, OPCODE_IDLE, OPCODE_IDLE_LENGTH, OPCODE_IOCSR, OPCODE_IOCSR_LENGTH,
    OPCODE_LD_B, OPCODE_LD_BU, OPCODE_LD_BU_LENGTH, OPCODE_LD_B_LENGTH, OPCODE_ST_B,
    OPCODE_ST_B_LENGTH,
};
use crate::context::{TimerState, ZoneContext};
use crate::consts::IOCSR_BASE_ADDR_PHY;
use crate::context::MMIOAccess;
use crate::emulate::{
    emulated_op, emulation_effect, inst_rd, iocsr_access, iocsr_loaded, iocsr_width, width_mask,
    EmulatedOp,
};
use crate::handler::{
    pending_ticks, loaded_value, rearm_ticks, restored, size_mask, timer_period, trap_kind, valid_access_size,
    TrapKind,
};
use crate::irq::{
    interrupt_kind, with_cpu_status, GlobalInjectionStatus, HostIrqLines, InjectionStatus,
    InterruptKind,
};
use crate::mmio::{
    counted, stats_of, guest_status_core, in_block, redirected_status, route_byte,
    route_target_cpu, status_redirect_ok, byte_of, generic_plan, mapping_ok, mapping_writes,
    mapping_result, route_of, stats_log, HvError, StatsLog, MmioPlan, MmioRoute, MMIO_BASE, MMIOAccessKey, MMIOAccessStats, EXTIOI_SR_CORE_BASE,
    EXTIOI_SR_CORE_SIZE,
};
use crate::register::{
    gintc_hwis_replaced, restored_gcsrs, range_hi, set_bits_ok, with_bits, GuestCsrs, GCSR_ASID, GCSR_BADI,
    GCSR_BADV, GCSR_CNTC, GCSR_CPUID, GCSR_CRMD, GCSR_DMW0, GCSR_DMW1, GCSR_DMW2, GCSR_DMW3,
    GCSR_ECTL, GCSR_EENTRY, GCSR_ERA, GCSR_ESTAT, GCSR_EUEN, GCSR_LLBCTL, GCSR_MISC, GCSR_PGD,
    GCSR_PGDH, GCSR_PGDL, GCSR_PRCFG1, GCSR_PRCFG2, GCSR_PRCFG3, GCSR_PRMD, GCSR_PWCH,
    GCSR_PWCL, GCSR_RAVCFG, GCSR_SAVE0, GCSR_SAVE1, GCSR_SAVE10, GCSR_SAVE11, GCSR_SAVE12,
    GCSR_SAVE13, GCSR_SAVE14, GCSR_SAVE15, GCSR_SAVE2, GCSR_SAVE3, GCSR_SAVE4, GCSR_SAVE5,
    GCSR_SAVE6, GCSR_SAVE7, GCSR_SAVE8, GCSR_SAVE9, GCSR_STLBPS, GCSR_TCFG, GCSR_TICLR,
    GCSR_TID, GCSR_TLBEHI, GCSR_TLBELO0, GCSR_TLBELO1, GCSR_TLBIDX, GCSR_TLBRBADV,
    GCSR_TLBREHI, GCSR_TLBRELO0, GCSR_TLBRELO1, GCSR_TLBRENTRY, GCSR_TLBRERA, GCSR_TLBRPRMD,
    GCSR_TLBRSAVE, GCSR_TVAL,
};
use crate::utils::{access_size, field, lemma_field_widths, ldst_decodable, ldst_spec, low_mask, op_matches, sext, sext12, sign_bit};
use vstd::std_specs::range::RangeInclusiveView;

verus! {

/// A guest CSR reads back the value last written to it, and writing one CSR
/// leaves every other CSR as it was.
pub proof fn law_gcsr_read_after_write(before: GuestCsrs, after: GuestCsrs, num: usize, value: u64)
    requires
        num < 0x184,
        after.regs@ == before.regs@.update(num as int, value),
    ensures
        after.csr(num) == value,
        forall|other: usize| other < 0x184 && other != num ==> #[trigger] after.csr(other) == before.csr(other),
{
}

/// Setting a bit range changes exactly the bits in the range, which take the
/// low bits of the value; every other bit keeps its old value.
pub proof fn law_set_bits(word: u64, range: RangeInclusiveView<usize>, value: u64, i: u64)
    requires
        set_bits_ok(range, value),
        i < 64,
    ensures
        (with_bits(word, range, value) >> i) & 1 == if range.start <= i < range_hi(range) {
            (value >> ((i - range.start) as u64)) & 1
        } else {
            (word >> i) & 1
        },
{
    if range_hi(range) > range.start {
        let lo = range.start as u64;
        let hi = range_hi(range) as u64;
        assert(((((word & !((((!0u64) >> ((64 - hi) as u64)) >> lo) << lo)) | (value << lo)) >> i)
            & 1) == if lo <= i && i < hi {
            (value >> ((i - lo) as u64)) & 1
        } else {
            (word >> i) & 1
        }) by (bit_vector)
            requires
                lo < hi,
                hi <= 64,
                i < 64,
                hi - lo == 64 || value < (1u64 << ((hi - lo) as u64)),
        ;
    }
}

/// Sign extension keeps the low `size` bits of the value.
pub proof fn law_sext_keeps_low_bits(value: u64, size: u64)
    requires
        1 <= size < 64,
    ensures
        sext(value, size) & low_mask(size) == value & low_mask(size),
{
    assert(((if value & (1u64 << ((size - 1) as u64)) != 0 {
        value | !(((1u64 << size) - 1u64) as u64)
    } else {
        value
    }) & (((1u64 << size) - 1u64) as u64)) == value & (((1u64 << size) - 1u64) as u64))
        by (bit_vector)
        requires
            1 <= size < 64,
    ;
}

/// Sign-extending twice is sign-extending once.
pub proof fn law_sext_idempotent(value: u64, size: u64)
    requires
        1 <= size < 64,
    ensures
        sext(sext(value, size), size) == sext(value, size),
{
    let m = (((1u64 << size) - 1u64) as u64);
    let b = 1u64 << ((size - 1) as u64);
    assert(1u64 << size >= 1) by (bit_vector)
        requires
            size < 64,
    ;
    assert({
        let once = if value & b != 0 {
            value | !m
        } else {
            value
        };
        (if once & b != 0 {
            once | !m
        } else {
            once
        }) == once
    }) by (bit_vector)
        requires
            1 <= size < 64,
            m == (((1u64 << size) - 1u64) as u64),
            b == 1u64 << ((size - 1) as u64),
    ;
}

/// A value whose sign bit and higher bits are clear is its own sign
/// extension.
pub proof fn law_sext_of_small_value(value: u64, size: u64)
    requires
        1 <= size <= 64,
        value < sign_bit(size),
    ensures
        sext(value, size) == value,
{
    let b = sign_bit(size);
    assert(value < b ==> value & b == 0) by (bit_vector)
        requires
            b == 1u64 << ((size - 1) as u64),
            1 <= size <= 64,
    ;
}

/// The 12-bit immediate decoder agrees with general sign extension at
/// width 12, read as a signed word.
pub proof fn law_imm12_is_sext(imm12: u64)
    ensures
        (sext(imm12 & 0xfff, 12) as i64) as int == sext12(imm12),
{
    assert(((if (imm12 & 0xfff) & (1u64 << 11u64) != 0 {
        (imm12 & 0xfff) | !(((1u64 << 12u64) - 1u64) as u64)
    } else {
        imm12 & 0xfff
    }) as i64) as int == (if imm12 & 0x800 == 0 {
        (imm12 & 0xfff) as int
    } else {
        (imm12 & 0xfff) as int - 0x1000
    })) by (bit_vector);
}

/// A decoded load/store names one of the 32 registers, has a width of 1, 2,
/// 4 or 8 bytes, carries the register's value when it stores and zero when
/// it loads, and only loads can be zero-extending.
pub proof fn law_decoded_ldst_shape(ins: u64, x: Seq<u64>)
    requires
        ldst_decodable(ins),
    ensures
        ldst_spec(ins, x).rd < 32,
        valid_access_size(ldst_spec(ins, x).size),
        ldst_spec(ins, x).is_write ==> ldst_spec(ins, x).value == x[ldst_spec(ins, x).rd as int]
            && !ldst_spec(ins, x).is_u,
        !ldst_spec(ins, x).is_write ==> ldst_spec(ins, x).value == 0,
{
    assert((ins >> 0u64) & (((1u64 << 5u64) - 1u64) as u64) < 32) by (bit_vector);
}

/// A zero-extending load yields only bits of its width; a sign-extending
/// one of less than 8 bytes keeps the bytes it read.
pub proof fn law_loaded_value_width(value: u64, size: u64)
    requires
        valid_access_size(size),
    ensures
        loaded_value(value, size, true) & !size_mask(size) == 0,
        size < 8 ==> loaded_value(value, size, false) & size_mask(size) == value & size_mask(size),
{
    let m = size_mask(size);
    assert((value & m) & !m == 0) by (bit_vector);
    if size < 8 {
        let bits = (size * 8) as u64;
        assert(m == (((1u64 << bits) - 1u64) as u64)) by {
            assert(0xffu64 == (((1u64 << 8u64) - 1u64) as u64)) by (bit_vector);
            assert(0xffffu64 == (((1u64 << 16u64) - 1u64) as u64)) by (bit_vector);
            assert(0xffff_ffffu64 == (((1u64 << 32u64) - 1u64) as u64)) by (bit_vector);
        }
        law_sext_keeps_low_bits(value & m, bits);
        assert((value & m) & m == value & m) by (bit_vector);
    }
}

/// Before it expires, a re-armed timer counts down exactly to its expiry.
pub proof fn law_rearm_before_expiry(timer: TimerState, now: u64)
    requires
        now < timer.expire,
    ensures
        now + rearm_ticks(timer, now) == timer.expire,
{
}

/// Once expired, a periodic timer is re-armed with a positive count-down of
/// at most one period.
pub proof fn law_rearm_within_period(timer: TimerState, now: u64)
    requires
        now >= timer.expire,
        timer_period(timer.cfg) != 0,
    ensures
        1 <= rearm_ticks(timer, now) <= timer_period(timer.cfg),
{
    let p = timer_period(timer.cfg);
    let d = (now - timer.expire) as u64;
    assert(d % p < p) by (nonlinear_arith)
        requires
            p > 0,
    ;
}

/// A redirected status access addresses the same register within the
/// running core's block.
pub proof fn law_status_redirect_keeps_register(addr: u64, cpu_id: usize)
    requires
        status_redirect_ok(addr, cpu_id),
        in_block(addr, EXTIOI_SR_CORE_BASE, EXTIOI_SR_CORE_SIZE),
    ensures
        redirected_status(addr, cpu_id) % 0x100 == addr % 0x100,
        redirected_status(addr, cpu_id) / 0x100 == 0x18 + cpu_id,
{
    let k = guest_status_core(addr);
    let r = (addr - 0x1800) % 0x100;
    assert(addr - 0x1800 == k * 0x100 + r) by (nonlinear_arith)
        requires
            k == (addr - 0x1800) / 0x100,
            r == (addr - 0x1800) % 0x100,
    ;
    assert(redirected_status(addr, cpu_id) == (0x18 + cpu_id) * 0x100 + r);
    assert(addr == (0x18 + k) * 0x100 + r);
    assert(0 <= r < 0x100);
    assert(((0x18 + cpu_id) * 0x100 + r) % 0x100 == r && ((0x18 + cpu_id) * 0x100 + r) / 0x100
        == 0x18 + cpu_id) by (nonlinear_arith)
        requires
            0 <= r < 0x100,
            cpu_id >= 0,
    ;
    assert(((0x18 + k) * 0x100 + r) % 0x100 == r) by (nonlinear_arith)
        requires
            0 <= r < 0x100,
            k >= 0,
    ;
}

/// A rewritten routing byte keeps the guest's node selection and targets
/// exactly one of the four cores.
pub proof fn law_route_byte_targets_one_core(byte: u8, ioi: int, cpu_id: usize)
    requires
        0 <= route_target_cpu(ioi, cpu_id) < 4,
    ensures
        route_byte(byte, ioi, cpu_id) & 0xf0 == byte & 0xf0,
        route_byte(byte, ioi, cpu_id) & 0x0f == 1u8 << (route_target_cpu(ioi, cpu_id) as u8),
{
    let t = route_target_cpu(ioi, cpu_id) as u8;
    assert(((byte & 0xf0) | (1u8 << t)) & 0xf0 == byte & 0xf0 && ((byte & 0xf0) | (1u8 << t))
        & 0x0f == 1u8 << t) by (bit_vector)
        requires
            t < 4,
    ;
}

/// Whether `ins` carries the opcode of the emulated instruction `op`.
pub open spec fn has_opcode(ins: u64, op: EmulatedOp) -> bool {
    match op {
        EmulatedOp::Cpucfg => op_matches(ins, OPCODE_CPUCFG, OPCODE_CPUCFG_LENGTH),
        EmulatedOp::Cacop => op_matches(ins, OPCODE_CACOP, OPCODE_CACOP_LENGTH),
        EmulatedOp::Idle => op_matches(ins, OPCODE_IDLE, OPCODE_IDLE_LENGTH),
        EmulatedOp::Csrx => op_matches(ins, OPCODE_CSRX, OPCODE_CSRX_LENGTH),
        EmulatedOp::Iocsr => op_matches(ins, OPCODE_IOCSR, OPCODE_IOCSR_LENGTH),
        EmulatedOp::LdB => op_matches(ins, OPCODE_LD_B, OPCODE_LD_B_LENGTH),
        EmulatedOp::StB => op_matches(ins, OPCODE_ST_B, OPCODE_ST_B_LENGTH),
        EmulatedOp::LdBu => op_matches(ins, OPCODE_LD_BU, OPCODE_LD_BU_LENGTH),
    }
}

/// The top `la` bits of an instruction are the top `la` bits of its top `lb`
/// bits.
proof fn lemma_opcode_prefix(ins: u64, la: u64, lb: u64)
    requires
        1 <= la <= lb <= 32,
    ensures
        field(ins, (32 - lb) as u64, lb) >> ((lb - la) as u64) == field(ins, (32 - la) as u64, la),
{
    assert(((ins >> ((32 - lb) as u64)) & (((1u64 << lb) - 1u64) as u64)) >> ((lb - la) as u64)
        == (ins >> ((32 - la) as u64)) & (((1u64 << la) - 1u64) as u64)) by (bit_vector)
        requires
            1 <= la <= lb <= 32,
    ;
}

/// No instruction carries two of the emulated opcodes, so the order in which
/// the emulator tries them does not matter.
pub proof fn law_emulated_opcodes_disjoint(ins: u64, a: EmulatedOp, b: EmulatedOp)
    requires
        has_opcode(ins, a),
        has_opcode(ins, b),
    ensures
        a == b,
{
    lemma_opcode_prefix(ins, OPCODE_CACOP_LENGTH, OPCODE_CPUCFG_LENGTH);
    lemma_opcode_prefix(ins, OPCODE_IDLE_LENGTH, OPCODE_CPUCFG_LENGTH);
    lemma_opcode_prefix(ins, OPCODE_CSRX_LENGTH, OPCODE_CPUCFG_LENGTH);
    lemma_opcode_prefix(ins, OPCODE_IOCSR_LENGTH, OPCODE_CPUCFG_LENGTH);
    lemma_opcode_prefix(ins, OPCODE_LD_B_LENGTH, OPCODE_CPUCFG_LENGTH);
    lemma_opcode_prefix(ins, OPCODE_ST_B_LENGTH, OPCODE_CPUCFG_LENGTH);
    lemma_opcode_prefix(ins, OPCODE_LD_BU_LENGTH, OPCODE_CPUCFG_LENGTH);
    lemma_opcode_prefix(ins, OPCODE_CACOP_LENGTH, OPCODE_IDLE_LENGTH);
    lemma_opcode_prefix(ins, OPCODE_CSRX_LENGTH, OPCODE_CACOP_LENGTH);
    lemma_opcode_prefix(ins, OPCODE_CACOP_LENGTH, OPCODE_IOCSR_LENGTH);
    lemma_opcode_prefix(ins, OPCODE_CACOP_LENGTH, OPCODE_LD_B_LENGTH);
    lemma_opcode_prefix(ins, OPCODE_CACOP_LENGTH, OPCODE_ST_B_LENGTH);
    lemma_opcode_prefix(ins, OPCODE_CACOP_LENGTH, OPCODE_LD_BU_LENGTH);
    lemma_opcode_prefix(ins, OPCODE_CSRX_LENGTH, OPCODE_IDLE_LENGTH);
    lemma_opcode_prefix(ins, OPCODE_IDLE_LENGTH, OPCODE_IOCSR_LENGTH);
    lemma_opcode_prefix(ins, OPCODE_LD_B_LENGTH, OPCODE_IDLE_LENGTH);
    lemma_opcode_prefix(ins, OPCODE_ST_B_LENGTH, OPCODE_IDLE_LENGTH);
    lemma_opcode_prefix(ins, OPCODE_LD_BU_LENGTH, OPCODE_IDLE_LENGTH);
    lemma_opcode_prefix(ins, OPCODE_CSRX_LENGTH, OPCODE_IOCSR_LENGTH);
    lemma_opcode_prefix(ins, OPCODE_CSRX_LENGTH, OPCODE_LD_B_LENGTH);
    lemma_opcode_prefix(ins, OPCODE_CSRX_LENGTH, OPCODE_ST_B_LENGTH);
    lemma_opcode_prefix(ins, OPCODE_CSRX_LENGTH, OPCODE_LD_BU_LENGTH);
    lemma_opcode_prefix(ins, OPCODE_LD_B_LENGTH, OPCODE_IOCSR_LENGTH);
    lemma_opcode_prefix(ins, OPCODE_ST_B_LENGTH, OPCODE_IOCSR_LENGTH);
    lemma_opcode_prefix(ins, OPCODE_LD_BU_LENGTH, OPCODE_IOCSR_LENGTH);
    lemma_opcode_prefix(ins, OPCODE_LD_B_LENGTH, OPCODE_ST_B_LENGTH);
    lemma_opcode_prefix(ins, OPCODE_LD_B_LENGTH, OPCODE_LD_BU_LENGTH);
    lemma_opcode_prefix(ins, OPCODE_ST_B_LENGTH, OPCODE_LD_BU_LENGTH);
    assert(0x1bu64 >> 12u64 != 0x18u64 && 0x1bu64 >> 5u64 != 0xc91u64 && 0x1bu64 >> 14u64 != 0x4u64 && 0x1bu64 >> 3u64 != 0x3240u64 && 0x1bu64 >> 12u64 != 0xa0u64 && 0x1bu64 >> 12u64 != 0xa4u64 && 0x1bu64 >> 12u64 != 0xa8u64 && 0xc91u64 >> 7u64 != 0x18u64 && 0x18u64 >> 2u64 != 0x4u64 && 0x3240u64 >> 9u64 != 0x18u64 && 0xa0u64 >> 0u64 != 0x18u64 && 0xa4u64 >> 0u64 != 0x18u64 && 0xa8u64 >> 0u64 != 0x18u64 && 0xc91u64 >> 9u64 != 0x4u64 && 0x3240u64 >> 2u64 != 0xc91u64 && 0xc91u64 >> 7u64 != 0xa0u64 && 0xc91u64 >> 7u64 != 0xa4u64 && 0xc91u64 >> 7u64 != 0xa8u64 && 0x3240u64 >> 11u64 != 0x4u64 && 0xa0u64 >> 2u64 != 0x4u64 && 0xa4u64 >> 2u64 != 0x4u64 && 0xa8u64 >> 2u64 != 0x4u64 && 0x3240u64 >> 9u64 != 0xa0u64 && 0x3240u64 >> 9u64 != 0xa4u64 && 0x3240u64 >> 9u64 != 0xa8u64 && 0xa4u64 >> 0u64 != 0xa0u64 && 0xa8u64 >> 0u64 != 0xa0u64 && 0xa8u64 >> 0u64 != 0xa4u64) by (bit_vector);
}

/// The emulator identifies an instruction by the one emulated opcode it
/// carries.
pub proof fn law_emulated_op_is_opcode(ins: u64, op: EmulatedOp)
    ensures
        has_opcode(ins, op) <==> emulated_op(ins) == Some(op),
{
    if has_opcode(ins, op) {
        let found = emulated_op(ins).unwrap();
        assert(emulated_op(ins) is Some);
        assert(has_opcode(ins, found));
        law_emulated_opcodes_disjoint(ins, op, found);
    }
}

/// Ending an injection undoes it: the CPU is idle again with its recorded
/// interrupts kept, every hardware line raised in the guest is lowered, the
/// host timer is stopped, and every other CPU is as it was before the
/// injection. (Ending takes no guest CSRs, so the guest's `ESTAT` is left as
/// the injection left it.)
pub proof fn law_inject_then_clear(
    before: GlobalInjectionStatus,
    mid: GlobalInjectionStatus,
    after: GlobalInjectionStatus,
    lines: HostIrqLines,
    cpu: usize,
)
    requires
        cpu < 4,
        mid.cpu_status@ == with_cpu_status(before, cpu, InjectionStatus::Injecting),
        after.cpu_status@ == with_cpu_status(mid, cpu, InjectionStatus::Idle),
        lines == (HostIrqLines { hwis: 0, timer_enabled: false }),
    ensures
        after.cpu_status@[cpu as int].status == InjectionStatus::Idle,
        after.cpu_status@[cpu as int].irqs == before.cpu_status@[cpu as int].irqs,
        forall|other: int|
            0 <= other < 4 && other != cpu ==> #[trigger] after.cpu_status@[other]
                == before.cpu_status@[other],
        lines.hwis == 0,
        !lines.timer_enabled,
{
}

/// Emulating an instruction changes only the resume address, which becomes
/// the next instruction, and at most the instruction's `rd`; every other
/// register and every saved guest CSR is kept.
pub proof fn law_emulation_touches_only_sepc_and_rd(
    before: ZoneContext,
    after: ZoneContext,
    era: u64,
    ins: u64,
)
    requires
        emulation_effect(before, after, era, ins),
    ensures
        after.sepc == era + 4,
        forall|i: int| 0 <= i < 32 && i != inst_rd(ins) ==> #[trigger] after.x@[i] == before.x@[i],
        after.gcsr_crmd == before.gcsr_crmd,
        after.gcsr_prmd == before.gcsr_prmd,
        after.gcsr_euen == before.gcsr_euen,
        after.gcsr_misc == before.gcsr_misc,
        after.gcsr_ectl == before.gcsr_ectl,
        after.gcsr_estat == before.gcsr_estat,
        after.gcsr_era == before.gcsr_era,
        after.gcsr_badv == before.gcsr_badv,
        after.gcsr_badi == before.gcsr_badi,
        after.gcsr_eentry == before.gcsr_eentry,
        after.gcsr_tlbidx == before.gcsr_tlbidx,
        after.gcsr_tlbehi == before.gcsr_tlbehi,
        after.gcsr_tlbelo0 == before.gcsr_tlbelo0,
        after.gcsr_tlbelo1 == before.gcsr_tlbelo1,
        after.gcsr_asid == before.gcsr_asid,
        after.gcsr_pgdl == before.gcsr_pgdl,
        after.gcsr_pgdh == before.gcsr_pgdh,
        after.gcsr_pgd == before.gcsr_pgd,
        after.gcsr_pwcl == before.gcsr_pwcl,
        after.gcsr_pwch == before.gcsr_pwch,
        after.gcsr_stlbps == before.gcsr_stlbps,
        after.gcsr_ravcfg == before.gcsr_ravcfg,
        after.gcsr_cpuid == before.gcsr_cpuid,
        after.gcsr_prcfg1 == before.gcsr_prcfg1,
        after.gcsr_prcfg2 == before.gcsr_prcfg2,
        after.gcsr_prcfg3 == before.gcsr_prcfg3,
        after.gcsr_save0 == before.gcsr_save0,
        after.gcsr_save1 == before.gcsr_save1,
        after.gcsr_save2 == before.gcsr_save2,
        after.gcsr_save3 == before.gcsr_save3,
        after.gcsr_save4 == before.gcsr_save4,
        after.gcsr_save5 == before.gcsr_save5,
        after.gcsr_save6 == before.gcsr_save6,
        after.gcsr_save7 == before.gcsr_save7,
        after.gcsr_save8 == before.gcsr_save8,
        after.gcsr_save9 == before.gcsr_save9,
        after.gcsr_save10 == before.gcsr_save10,
        after.gcsr_save11 == before.gcsr_save11,
        after.gcsr_save12 == before.gcsr_save12,
        after.gcsr_save13 == before.gcsr_save13,
        after.gcsr_save14 == before.gcsr_save14,
        after.gcsr_save15 == before.gcsr_save15,
        after.gcsr_tid == before.gcsr_tid,
        after.gcsr_tcfg == before.gcsr_tcfg,
        after.gcsr_tval == before.gcsr_tval,
        after.gcsr_cntc == before.gcsr_cntc,
        after.gcsr_ticlr == before.gcsr_ticlr,
        after.gcsr_llbctl == before.gcsr_llbctl,
        after.gcsr_tlbrentry == before.gcsr_tlbrentry,
        after.gcsr_tlbrbadv == before.gcsr_tlbrbadv,
        after.gcsr_tlbrera == before.gcsr_tlbrera,
        after.gcsr_tlbrsave == before.gcsr_tlbrsave,
        after.gcsr_tlbrelo0 == before.gcsr_tlbrelo0,
        after.gcsr_tlbrelo1 == before.gcsr_tlbrelo1,
        after.gcsr_tlbrehi == before.gcsr_tlbrehi,
        after.gcsr_tlbrprmd == before.gcsr_tlbrprmd,
        after.gcsr_dmw0 == before.gcsr_dmw0,
        after.gcsr_dmw1 == before.gcsr_dmw1,
        after.gcsr_dmw2 == before.gcsr_dmw2,
        after.gcsr_dmw3 == before.gcsr_dmw3,
{
    assert forall|i: int| 0 <= i < 32 && i != inst_rd(ins) implies #[trigger] after.x@[i]
        == before.x@[i] by {
        assert((ins >> 0u64) & (((1u64 << 5u64) - 1u64) as u64) < 32) by (bit_vector);
        if emulated_op(ins) == Some(EmulatedOp::Csrx) {
            assert(after.x@ == before.x@.update(inst_rd(ins), 0));
        }
    }
}

/// Injecting the same (non-hardware) interrupt again leaves the guest's
/// `ESTAT` as the first injection left it.
pub proof fn law_inject_estat_idempotent(
    before: GuestCsrs,
    mid: GuestCsrs,
    after: GuestCsrs,
    irq: u64,
)
    requires
        irq <= 12,
        mid.regs@ == before.regs@.update(GCSR_ESTAT as int, before.csr(GCSR_ESTAT) | (1u64 << irq)),
        after.regs@ == mid.regs@.update(GCSR_ESTAT as int, mid.csr(GCSR_ESTAT) | (1u64 << irq)),
    ensures
        after.regs@ == mid.regs@,
{
    let e = before.csr(GCSR_ESTAT);
    let b = 1u64 << irq;
    assert((e | b) | b == e | b) by (bit_vector);
    assert(after.regs@ =~= mid.regs@);
}

/// Counting an access raises its kind's count by one (wrapping at the top
/// of the range), remembers its value, and leaves every other kind's
/// statistics alone.
pub proof fn law_stats_count_increments(
    before: Map<MMIOAccessKey, MMIOAccessStats>,
    after: Map<MMIOAccessKey, MMIOAccessStats>,
    key: MMIOAccessKey,
    value: u64,
    other: MMIOAccessKey,
)
    requires
        after == before.insert(key, counted(stats_of(before, key), value)),
        other != key,
    ensures
        stats_of(after, key).count == if stats_of(before, key).count == u64::MAX {
            0
        } else {
            (stats_of(before, key).count + 1) as u64
        },
        stats_of(after, key).last_value == value,
        stats_of(after, other) == stats_of(before, other),
{
}

/// Trap return writes back exactly what trap entry saved: saving the guest
/// CSRs into a context and restoring them from it leaves them unchanged.
pub proof fn law_save_restore_round_trip(csrs: GuestCsrs, ctx: ZoneContext)
    requires
        ctx.gcsr_crmd == csrs.csr(GCSR_CRMD),
        ctx.gcsr_prmd == csrs.csr(GCSR_PRMD),
        ctx.gcsr_euen == csrs.csr(GCSR_EUEN),
        ctx.gcsr_misc == csrs.csr(GCSR_MISC),
        ctx.gcsr_ectl == csrs.csr(GCSR_ECTL),
        ctx.gcsr_estat == csrs.csr(GCSR_ESTAT),
        ctx.gcsr_era == csrs.csr(GCSR_ERA),
        ctx.gcsr_badv == csrs.csr(GCSR_BADV),
        ctx.gcsr_badi == csrs.csr(GCSR_BADI),
        ctx.gcsr_eentry == csrs.csr(GCSR_EENTRY),
        ctx.gcsr_tlbidx == csrs.csr(GCSR_TLBIDX),
        ctx.gcsr_tlbehi == csrs.csr(GCSR_TLBEHI),
        ctx.gcsr_tlbelo0 == csrs.csr(GCSR_TLBELO0),
        ctx.gcsr_tlbelo1 == csrs.csr(GCSR_TLBELO1),
        ctx.gcsr_asid == csrs.csr(GCSR_ASID),
        ctx.gcsr_pgdl == csrs.csr(GCSR_PGDL),
        ctx.gcsr_pgdh == csrs.csr(GCSR_PGDH),
        ctx.gcsr_pgd == csrs.csr(GCSR_PGD),
        ctx.gcsr_pwcl == csrs.csr(GCSR_PWCL),
        ctx.gcsr_pwch == csrs.csr(GCSR_PWCH),
        ctx.gcsr_stlbps == csrs.csr(GCSR_STLBPS),
        ctx.gcsr_ravcfg == csrs.csr(GCSR_RAVCFG),
        ctx.gcsr_cpuid == csrs.csr(GCSR_CPUID),
        ctx.gcsr_prcfg1 == csrs.csr(GCSR_PRCFG1),
        ctx.gcsr_prcfg2 == csrs.csr(GCSR_PRCFG2),
        ctx.gcsr_prcfg3 == csrs.csr(GCSR_PRCFG3),
        ctx.gcsr_save0 == csrs.csr(GCSR_SAVE0),
        ctx.gcsr_save1 == csrs.csr(GCSR_SAVE1),
        ctx.gcsr_save2 == csrs.csr(GCSR_SAVE2),
        ctx.gcsr_save3 == csrs.csr(GCSR_SAVE3),
        ctx.gcsr_save4 == csrs.csr(GCSR_SAVE4),
        ctx.gcsr_save5 == csrs.csr(GCSR_SAVE5),
        ctx.gcsr_save6 == csrs.csr(GCSR_SAVE6),
        ctx.gcsr_save7 == csrs.csr(GCSR_SAVE7),
        ctx.gcsr_save8 == csrs.csr(GCSR_SAVE8),
        ctx.gcsr_save9 == csrs.csr(GCSR_SAVE9),
        ctx.gcsr_save10 == csrs.csr(GCSR_SAVE10),
        ctx.gcsr_save11 == csrs.csr(GCSR_SAVE11),
        ctx.gcsr_save12 == csrs.csr(GCSR_SAVE12),
        ctx.gcsr_save13 == csrs.csr(GCSR_SAVE13),
        ctx.gcsr_save14 == csrs.csr(GCSR_SAVE14),
        ctx.gcsr_save15 == csrs.csr(GCSR_SAVE15),
        ctx.gcsr_tid == csrs.csr(GCSR_TID),
        ctx.gcsr_tcfg == csrs.csr(GCSR_TCFG),
        ctx.gcsr_tval == csrs.csr(GCSR_TVAL),
        ctx.gcsr_cntc == csrs.csr(GCSR_CNTC),
        ctx.gcsr_ticlr == csrs.csr(GCSR_TICLR),
        ctx.gcsr_llbctl == csrs.csr(GCSR_LLBCTL),
        ctx.gcsr_tlbrentry == csrs.csr(GCSR_TLBRENTRY),
        ctx.gcsr_tlbrbadv == csrs.csr(GCSR_TLBRBADV),
        ctx.gcsr_tlbrera == csrs.csr(GCSR_TLBRERA),
        ctx.gcsr_tlbrsave == csrs.csr(GCSR_TLBRSAVE),
        ctx.gcsr_tlbrelo0 == csrs.csr(GCSR_TLBRELO0),
        ctx.gcsr_tlbrelo1 == csrs.csr(GCSR_TLBRELO1),
        ctx.gcsr_tlbrehi == csrs.csr(GCSR_TLBREHI),
        ctx.gcsr_tlbrprmd == csrs.csr(GCSR_TLBRPRMD),
        ctx.gcsr_dmw0 == csrs.csr(GCSR_DMW0),
        ctx.gcsr_dmw1 == csrs.csr(GCSR_DMW1),
        ctx.gcsr_dmw2 == csrs.csr(GCSR_DMW2),
        ctx.gcsr_dmw3 == csrs.csr(GCSR_DMW3),
    ensures
        restored_gcsrs(csrs, ctx) == csrs.regs@,
{
    assert(restored_gcsrs(csrs, ctx) =~= csrs.regs@);
}

/// Trap return never writes the guest's `ESTAT` or timer CSRs.
pub proof fn law_restore_keeps_estat_and_timer(csrs: GuestCsrs, ctx: ZoneContext)
    ensures
        restored_gcsrs(csrs, ctx)[GCSR_ESTAT as int] == csrs.csr(GCSR_ESTAT),
        restored_gcsrs(csrs, ctx)[GCSR_TID as int] == csrs.csr(GCSR_TID),
        restored_gcsrs(csrs, ctx)[GCSR_TCFG as int] == csrs.csr(GCSR_TCFG),
        restored_gcsrs(csrs, ctx)[GCSR_TVAL as int] == csrs.csr(GCSR_TVAL),
        restored_gcsrs(csrs, ctx)[GCSR_CNTC as int] == csrs.csr(GCSR_CNTC),
        restored_gcsrs(csrs, ctx)[GCSR_TICLR as int] == csrs.csr(GCSR_TICLR),
{
}

/// Every interrupt a root write to the routing registers programs gets a
/// byte at its own address that keeps the guest's node selection (high
/// nibble) and targets exactly one of the four cores (low nibble): an MSI
/// interrupt `n` (from 64 on) goes to core `(n - 64) / 48`, any other to
/// the root's core 0.
pub proof fn law_routing_targets_one_core(mmio: MMIOAccess, base_addr: u64, size: u64, i: int)
    requires
        mapping_ok(mmio, base_addr, size),
        mmio.is_write,
        valid_access_size(mmio.size),
        0 <= i < mapping_writes(mmio, base_addr, size, 0).len(),
    ensures
        ({
            let n = mmio.address - (base_addr - MMIO_BASE) + i;
            let (addr, byte) = mapping_writes(mmio, base_addr, size, 0)[i];
            &&& n < size
            &&& addr == base_addr + n
            &&& byte & 0xf0 == ((mmio.value >> ((8 * i) as u64)) as u8) & 0xf0
            &&& byte & 0x0f == if n >= 64 {
                1u8 << (((n - 64) / 48) as u8)
            } else {
                1u8
            }
            &&& (byte & 0x0f == 1 || byte & 0x0f == 2 || byte & 0x0f == 4 || byte & 0x0f == 8)
        }),
{
    let n = mmio.address - (base_addr - MMIO_BASE) + i;
    let v = mmio.value;
    let sh = (8 * i) as u64;
    let b = byte_of(v, i);
    assert(((v >> sh) & 0xff) as u8 & 0xf0 == ((v >> sh) as u8) & 0xf0) by (bit_vector);
    let t: u8 = if n >= 64 { ((n - 64) / 48) as u8 } else { 0u8 };
    assert(t < 4);
    assert(((b & 0xf0) | (1u8 << t)) & 0xf0 == b & 0xf0 && ((b & 0xf0) | (1u8 << t)) & 0x0f == 1u8
        << t && (t == 0 ==> 1u8 << t == 1) && (t == 1 ==> 1u8 << t == 2) && (t == 2 ==> 1u8 << t
        == 4) && (t == 3 ==> 1u8 << t == 8)) by (bit_vector)
        requires
            t < 4,
    ;
}

/// A decoded load/store names register `rd` (bits 4..0). A standard
/// (`ld`/`st`, major opcode `001010`) or indexed (`ldx`/`stx`, `001110`) one
/// accesses `1 << sz` bytes for its size field `sz` (bits 23..22, resp.
/// 19..18), stores when its type field (bits 25..24, resp. 21..20) is 1 and
/// zero-extends when it is 2. A pointer one (`ldptr`/`stptr`, `001001`)
/// accesses 4 bytes for types 0 and 1 and 8 bytes for types 2 and 3, and
/// stores for the odd types. A store carries `rd`'s value.
pub proof fn law_decoded_ldst_fields(ins: u64, x: Seq<u64>)
    requires
        ldst_decodable(ins),
    ensures
        ldst_spec(ins, x).rd == ins & 0x1f,
        (ins >> 26u64) & 0x3f == 0b001010 ==> ldst_spec(ins, x).size == 1u64 << ((ins >> 22u64) & 3),
        (ins >> 26u64) & 0x3f == 0b001010 ==> ldst_spec(ins, x).is_write == ((ins >> 24u64) & 3 == 1),
        (ins >> 26u64) & 0x3f == 0b001010 ==> ldst_spec(ins, x).is_u == ((ins >> 24u64) & 3 == 2),
        (ins >> 26u64) & 0x3f == 0b001110 ==> ldst_spec(ins, x).size == 1u64 << ((ins >> 18u64) & 3),
        (ins >> 26u64) & 0x3f == 0b001110 ==> ldst_spec(ins, x).is_write == ((ins >> 20u64) & 3 == 1),
        (ins >> 26u64) & 0x3f == 0b001110 ==> ldst_spec(ins, x).is_u == ((ins >> 20u64) & 3 == 2),
        (ins >> 26u64) & 0x3f == 0b001001 ==> ldst_spec(ins, x).size == if (ins >> 24u64) & 3 < 2 {
            4u64
        } else {
            8u64
        },
        (ins >> 26u64) & 0x3f == 0b001001 ==> ldst_spec(ins, x).is_write == ((ins >> 24u64) & 1 == 1),
        (ins >> 26u64) & 0x3f == 0b001001 ==> !ldst_spec(ins, x).is_u,
        ldst_spec(ins, x).is_write ==> ldst_spec(ins, x).value == x[(ins & 0x1f) as int],
{
    lemma_field_widths();
    assert(field(ins, 0, 5) == ins & 0x1f && field(ins, 26, 6) == (ins >> 26u64) & 0x3f && field(
        ins,
        22,
        2,
    ) == (ins >> 22u64) & 3 && field(ins, 24, 2) == (ins >> 24u64) & 3 && field(ins, 18, 2) == (
    ins >> 18u64) & 3 && field(ins, 20, 2) == (ins >> 20u64) & 3) by {
        assert((ins >> 0u64) & (((1u64 << 5u64) - 1u64) as u64) == ins & 0x1f && (ins >> 26u64) & (
        ((1u64 << 6u64) - 1u64) as u64) == (ins >> 26u64) & 0x3f && (ins >> 22u64) & (((1u64
            << 2u64) - 1u64) as u64) == (ins >> 22u64) & 3 && (ins >> 24u64) & (((1u64 << 2u64)
            - 1u64) as u64) == (ins >> 24u64) & 3 && (ins >> 18u64) & (((1u64 << 2u64) - 1u64)
            as u64) == (ins >> 18u64) & 3 && (ins >> 20u64) & (((1u64 << 2u64) - 1u64) as u64) == (
        ins >> 20u64) & 3) by (bit_vector);
    }
    assert(forall|f: u64| f < 4 ==> #[trigger] access_size(f) == 1u64 << f) by {
        assert(1u64 << 0u64 == 1 && 1u64 << 1u64 == 2 && 1u64 << 2u64 == 4 && 1u64 << 3u64 == 8)
            by (bit_vector);
    }
    let t = (ins >> 24u64) & 3;
    assert(t < 4 && (ins >> 22u64) & 3 < 4 && (ins >> 18u64) & 3 < 4 && (ins >> 20u64) & 3 < 4
        && ((t == 1 || t == 3) == ((ins >> 24u64) & 1 == 1)) && ins & 0x1f < 32) by (bit_vector)
        requires
            t == (ins >> 24u64) & 3,
    ;
}

/// Emulating an instruction that is not a CSR access (`csrrd`, `csrwr`,
/// `csrxchg`: opcode `00000100` in bits 31..24) leaves every
/// general-purpose register as it was; a CSR access zeroes `rd` (bits 4..0)
/// and only it. Either way the guest resumes at `era + 4`.
pub proof fn law_emulation_registers(before: ZoneContext, after: ZoneContext, era: u64, ins: u64)
    requires
        emulation_effect(before, after, era, ins),
    ensures
        after.sepc == era + 4,
        (ins >> 24u64) & 0xff != 0b00000100 ==> after.x@ == before.x@,
        emulated_op(ins) == Some(EmulatedOp::Csrx) ==> after.x@ == before.x@.update(
            (ins & 0x1f) as int,
            0,
        ),
{
    lemma_field_widths();
    assert((ins >> 24u64) & (((1u64 << 8u64) - 1u64) as u64) == (ins >> 24u64) & 0xff && (ins
        >> 0u64) & (((1u64 << 5u64) - 1u64) as u64) == ins & 0x1f) by (bit_vector);
    if (ins >> 24u64) & 0xff != 0b00000100 {
        assert(!has_opcode(ins, EmulatedOp::Csrx));
        law_emulated_op_is_opcode(ins, EmulatedOp::Csrx);
    }
}

/// The device access an IOCSR instruction of type `t` (bits 12..10) asks
/// for has width `1 << (t % 4)` bytes, is a write exactly when `t >= 4`,
/// addresses the IOCSR space at the offset held in `rj` (bits 9..5), and
/// carries the value of `rd` (bits 4..0).
pub proof fn law_iocsr_access_fields(ins: u64, x: Seq<u64>)
    requires
        IOCSR_BASE_ADDR_PHY + x[((ins >> 5u64) & 0x1f) as int] <= u64::MAX,
    ensures
        ({
            let t = (ins >> 10u64) & 7;
            let a = iocsr_access(ins, x);
            &&& a.size == 1u64 << (t % 4)
            &&& a.is_write == (t >= 4)
            &&& a.address == 0x1fe0_0000 + x[((ins >> 5u64) & 0x1f) as int]
            &&& a.value == x[(ins & 0x1f) as int]
        }),
{
    lemma_field_widths();
    assert((ins >> 10u64) & (((1u64 << 3u64) - 1u64) as u64) == (ins >> 10u64) & 7 && (ins
        >> 5u64) & (((1u64 << 5u64) - 1u64) as u64) == (ins >> 5u64) & 0x1f && (ins >> 0u64) & (
    ((1u64 << 5u64) - 1u64) as u64) == ins & 0x1f && 1u64 << 0u64 == 1 && 1u64 << 1u64 == 2
        && 1u64 << 2u64 == 4 && 1u64 << 3u64 == 8 && (ins >> 10u64) & 7 < 8) by (bit_vector);
}

/// On a core other than the root's (0), a write to the interrupt
/// node-selection (`0x14a0..0x14c0`), enable (`0x1600..0x1620`) or bounce
/// (`0x1680..0x16a0`) registers is dropped: the plan is to ignore it, and
/// the access is left as it was.
pub proof fn law_nonroot_shared_writes_dropped(
    before: MMIOAccess,
    cpu_id: usize,
    r: MmioPlan,
    after: MMIOAccess,
)
    requires
        generic_plan(before, cpu_id, r, after),
        before.is_write,
        cpu_id != 0,
        0x14a0 <= before.address < 0x14c0 || 0x1600 <= before.address < 0x1620 || 0x1680
            <= before.address < 0x16a0,
    ensures
        r == MmioPlan::Ignore,
        after == before,
{
}

/// A root write to the routing registers succeeds exactly when every one of
/// its bytes is routed; otherwise it fails with the interrupt-number error
/// after routing the bytes that fit. Reads, and writes by other cores, route
/// nothing and succeed.
pub proof fn law_routing_all_or_error(mmio: MMIOAccess, base_addr: u64, size: u64, cpu_id: usize)
    requires
        mapping_ok(mmio, base_addr, size),
    ensures
        !mmio.is_write || cpu_id != 0 ==> mapping_writes(mmio, base_addr, size, cpu_id).len() == 0
            && mapping_result(mmio, base_addr, size, cpu_id) is Ok,
        mmio.is_write && cpu_id == 0 && valid_access_size(mmio.size) ==> {
            &&& (mapping_result(mmio, base_addr, size, cpu_id) is Ok <==> mapping_writes(
                mmio,
                base_addr,
                size,
                cpu_id,
            ).len() == mmio.size)
            &&& (mapping_result(mmio, base_addr, size, cpu_id) is Err ==> mapping_result(
                mmio,
                base_addr,
                size,
                cpu_id,
            ) == Err::<(), HvError>(HvError::WrongIoiNumber))
            &&& mapping_writes(mmio, base_addr, size, cpu_id).len() <= mmio.size
        },
        mmio.is_write && cpu_id == 0 && !valid_access_size(mmio.size) ==> mapping_writes(
            mmio,
            base_addr,
            size,
            cpu_id,
        ).len() == 0 && mapping_result(mmio, base_addr, size, cpu_id) == Err::<(), HvError>(
            HvError::WrongSize,
        ),
{
}

/// The chip register blocks by offset: `0x1e0..0x1e8` is the UART,
/// `0x1c00..0x1d00` the interrupt routing, `0x1800..0x1c00` the per-core
/// interrupt status, `0x1600..0x1620` the enable, `0x1680..0x16a0` the
/// bounce and `0x14a0..0x14c0` the node-selection registers; everything
/// else is generic.
pub proof fn law_route_blocks(addr: u64)
    ensures
        0x1e0 <= addr < 0x1e8 <==> route_of(addr) == MmioRoute::Uart,
        0x1c00 <= addr < 0x1d00 <==> route_of(addr) == MmioRoute::ExtioiMapping,
        0x1800 <= addr < 0x1c00 <==> route_of(addr) == MmioRoute::ExtioiStatus,
        0x1600 <= addr < 0x1620 <==> route_of(addr) == MmioRoute::ExtioiEnable,
        0x1680 <= addr < 0x16a0 <==> route_of(addr) == MmioRoute::ExtioiBounce,
        0x14a0 <= addr < 0x14c0 <==> route_of(addr) == MmioRoute::ExtioiNodeSel,
{
}

/// Exceptions by code: 0 is an interrupt, `0x16` a sensitive instruction
/// to emulate, `0x17` a hypercall, 1, 2 and 5 (illegal load, illegal store,
/// not readable) a device access; nothing else is handled.
pub proof fn law_trap_kinds(ecode: u64)
    ensures
        ecode == 0 <==> trap_kind(ecode) == TrapKind::Interrupt,
        ecode == 0x16 <==> trap_kind(ecode) == TrapKind::EmulateInstruction,
        ecode == 0x17 <==> trap_kind(ecode) == TrapKind::Hypercall,
        ecode == 1 || ecode == 2 || ecode == 5 <==> trap_kind(ecode) == TrapKind::PageFaultMmio,
{
}

/// Interrupts are serviced IPI (bit 12) first, then the timer (bit 11),
/// then the hardware lines (bits 9..2).
pub proof fn law_interrupt_priority(is: u64)
    ensures
        (is >> 12u64) & 1 == 1 ==> interrupt_kind(is) == InterruptKind::Ipi,
        (is >> 12u64) & 1 == 0 && (is >> 11u64) & 1 == 1 ==> interrupt_kind(is)
            == InterruptKind::Timer,
        (is >> 11u64) & 3 == 0 && (is >> 2u64) & 0xff != 0 ==> interrupt_kind(is)
            == InterruptKind::Hardware,
        (is >> 11u64) & 3 == 0 && (is >> 2u64) & 0xff == 0 ==> interrupt_kind(is)
            == InterruptKind::Unhandled,
{
    assert(((is >> 12u64) & 1 == 1) == (is & 0x1000 != 0) && ((is >> 11u64) & 1 == 1) == (is
        & 0x800 != 0) && ((is >> 11u64) & 3 == 0) == (is & 0x1000 == 0 && is & 0x800 == 0) && ((is
        >> 2u64) & 0xff != 0) == (is & 0x3fc != 0)) by (bit_vector);
    assert(1u64 << 12u64 == 0x1000 && 1u64 << 11u64 == 0x800) by (bit_vector);
}

/// Restoring the guest timer always clears its configuration and `ESTAT`.
/// A disabled timer (bit 0 of the saved configuration clear) gets no
/// count-down; an enabled one-shot timer, or one whose count-down does not
/// exceed its configuration, gets none either and has its timer interrupt
/// cleared (`TICLR` = 1); otherwise the count-down is the time left until
/// expiry. Nothing else changes.
pub proof fn law_restore_timer_fields(ctx: ZoneContext, timer: TimerState, now: u64)
    ensures
        restored(ctx, timer, now).gcsr_tcfg == 0,
        restored(ctx, timer, now).gcsr_estat == 0,
        timer.cfg & 1 == 0 ==> restored(ctx, timer, now).gcsr_tval == 0 && restored(
            ctx,
            timer,
            now,
        ).gcsr_ticlr == ctx.gcsr_ticlr,
        timer.cfg & 1 == 1 && (timer.cfg & 2 == 0 || ctx.gcsr_tval <= timer.cfg) ==> restored(
            ctx,
            timer,
            now,
        ).gcsr_tval == 0 && restored(ctx, timer, now).gcsr_ticlr == 1,
        timer.cfg & 3 == 3 && ctx.gcsr_tval > timer.cfg && now < timer.expire ==> restored(
            ctx,
            timer,
            now,
        ).gcsr_tval == timer.expire - now && restored(ctx, timer, now).gcsr_ticlr
            == ctx.gcsr_ticlr,
        restored(ctx, timer, now).x == ctx.x,
        restored(ctx, timer, now).sepc == ctx.sepc,
{
    let c = timer.cfg;
    assert((c & 1 == 0) == (c & 1 != 1) && ((c & 2 == 0) == (c & 2 != 2)) && (c & 3 == 3 <==> (c
        & 1 == 1 && c & 2 == 2)) && (c & 2 == 0 || c & 2 == 2) && (c & 1 == 0 || c & 1 == 1))
        by (bit_vector);
}

/// A sign-extended value has every bit above its width set when its sign
/// bit is set, and none otherwise.
pub proof fn law_sext_high_bits(value: u64, size: u64)
    requires
        1 <= size < 64,
        value < (1u64 << size),
    ensures
        sext(value, size) & !low_mask(size) == if (value >> ((size - 1) as u64)) & 1 == 1 {
            !low_mask(size)
        } else {
            0
        },
{
    assert((if value & (1u64 << ((size - 1) as u64)) != 0 {
        value | !(((1u64 << size) - 1u64) as u64)
    } else {
        value
    }) & !(((1u64 << size) - 1u64) as u64) == if (value >> ((size - 1) as u64)) & 1 == 1 {
        !(((1u64 << size) - 1u64) as u64)
    } else {
        0
    }) by (bit_vector)
        requires
            1 <= size < 64,
            value < (1u64 << size),
    ;
}

/// An IOCSR read (types 0..=3) of fewer than 8 bytes yields the bytes read,
/// sign-extended: its low bytes are those read and the bits above are
/// copies of the top bit read. A doubleword read yields the word read.
pub proof fn law_iocsr_read_value(t: u64, value: u64, size: u64)
    requires
        t < 4,
        valid_access_size(size),
        size < 8 || (value >> 63u64) & 1 == 0,
    ensures
        iocsr_loaded(t, value, size) & size_mask(size) == value & size_mask(size),
        size < 8 ==> iocsr_loaded(t, value, size) & !size_mask(size) == if (value >> ((size * 8
            - 1) as u64)) & 1 == 1 {
            !size_mask(size)
        } else {
            0
        },
        size == 8 ==> iocsr_loaded(t, value, size) == value,
{
    let m = size_mask(size);
    if size < 8 {
        let bits = (size * 8) as u64;
        assert(m == (((1u64 << bits) - 1u64) as u64) && (value & m) < (1u64 << bits) && ((value
            & m) >> ((bits - 1) as u64)) & 1 == (value >> ((bits - 1) as u64)) & 1) by {
            assert(0xffu64 == (((1u64 << 8u64) - 1u64) as u64) && 0xffffu64 == (((1u64 << 16u64)
                - 1u64) as u64) && 0xffff_ffffu64 == (((1u64 << 32u64) - 1u64) as u64))
                by (bit_vector);
            assert((value & (((1u64 << bits) - 1u64) as u64)) < (1u64 << bits) && ((value & (((1u64
                << bits) - 1u64) as u64)) >> ((bits - 1) as u64)) & 1 == (value >> ((bits
                - 1) as u64)) & 1) by (bit_vector)
                requires
                    8 <= bits <= 32,
            ;
        }
        law_sext_keeps_low_bits(value & m, bits);
        law_sext_high_bits(value & m, bits);
        assert((value & m) & m == value & m) by (bit_vector);
    } else {
        assert(value & 0xffff_ffff_ffff_ffffu64 == value && value < (1u64 << 63u64)) by (bit_vector)
            requires
                (value >> 63u64) & 1 == 0,
        ;
        law_sext_of_small_value(value, 64);
    }
}

/// Accesses of a kind are logged in full the first 40 times; after that
/// only every 100000th is logged, compressed, and the kind is marked
/// compressed from its 41st access on.
pub proof fn law_stats_logging(stats: MMIOAccessStats, value: u64)
    ensures
        stats.count < 40 ==> stats_log(stats.count) == StatsLog::Full && counted(
            stats,
            value,
        ).is_compressed == stats.is_compressed,
        stats.count >= 40 && stats.count % 100000 == 0 ==> stats_log(stats.count)
            == (StatsLog::Compressed { repeats: stats.count }),
        stats.count >= 40 && stats.count % 100000 != 0 ==> stats_log(stats.count)
            == StatsLog::Silent,
        stats.count >= 40 ==> counted(stats, value).is_compressed == 1,
{
}

/// The guest timer saved on trap entry expires after the count-down it
/// still had, when that lies below its configuration word, and at once
/// otherwise.
pub proof fn law_saved_expiry(ctx: ZoneContext, now: u64)
    ensures
        ctx.gcsr_tval < ctx.gcsr_tcfg ==> now + pending_ticks(ctx) == now + ctx.gcsr_tval,
        ctx.gcsr_tval >= ctx.gcsr_tcfg ==> now + pending_ticks(ctx) == now,
{
}

/// A load of `size` bytes keeps exactly the bytes read: zero-extended it has
/// no bits above them; sign-extended (below 8 bytes) every bit above them is
/// a copy of the top bit read; a doubleword load whose top bit is clear
/// yields the word read.
pub proof fn law_load_extension(value: u64, size: u64)
    requires
        valid_access_size(size),
    ensures
        size < 8 ==> size_mask(size) == (((1u64 << ((size * 8) as u64)) - 1u64) as u64),
        size == 8 ==> size_mask(size) == 0xffff_ffff_ffff_ffff,
        loaded_value(value, size, true) == value & size_mask(size),
        size < 8 ==> loaded_value(value, size, false) & !size_mask(size) == if (value >> ((size
            * 8 - 1) as u64)) & 1 == 1 {
            !size_mask(size)
        } else {
            0
        },
        size == 8 && (value >> 63u64) & 1 == 0 ==> loaded_value(value, size, false) == value,
{
    assert(0xffu64 == (((1u64 << 8u64) - 1u64) as u64) && 0xffffu64 == (((1u64 << 16u64) - 1u64)
        as u64) && 0xffff_ffffu64 == (((1u64 << 32u64) - 1u64) as u64)) by (bit_vector);
    assert(loaded_value(value, size, false) == iocsr_loaded(0, value, size));
    if size < 8 || (value >> 63u64) & 1 == 0 {
        law_iocsr_read_value(0, value, size);
    }
}

/// A load/store instruction is decodable exactly when its major opcode
/// (bits 31..26) is `001001` (pointer family), or `001010` (standard) with
/// type field (bits 25..24) other than 3, or `001110` (indexed) with type
/// field (bits 21..20) other than 3.
pub proof fn law_ldst_decodable(ins: u64)
    ensures
        ldst_decodable(ins) <==> ((ins >> 26u64) & 0x3f == 0b001001 || (ins >> 26u64) & 0x3f
            == 0b001010 && (ins >> 24u64) & 3 != 3 || (ins >> 26u64) & 0x3f == 0b001110 && (ins
            >> 20u64) & 3 != 3),
{
    lemma_field_widths();
    assert((ins >> 26u64) & (((1u64 << 6u64) - 1u64) as u64) == (ins >> 26u64) & 0x3f && (ins
        >> 24u64) & (((1u64 << 2u64) - 1u64) as u64) == (ins >> 24u64) & 3 && (ins >> 20u64) & (
    ((1u64 << 2u64) - 1u64) as u64) == (ins >> 20u64) & 3) by (bit_vector);
}

/// A direct IOCSR access of type `t` moves `1 << (t % 4)` bytes, and a read
/// of `w` bytes keeps exactly its low `8 * w` bits.
pub proof fn law_direct_iocsr_width(t: u64, raw: u64)
    ensures
        iocsr_width(t) == 1u64 << (t % 4),
        iocsr_width(t) < 8 ==> raw & width_mask(iocsr_width(t)) == raw % (1u64 << ((iocsr_width(t)
            * 8) as u64)),
        iocsr_width(t) == 8 ==> raw & width_mask(iocsr_width(t)) == raw,
{
    assert(1u64 << 0u64 == 1 && 1u64 << 1u64 == 2 && 1u64 << 2u64 == 4 && 1u64 << 3u64 == 8
        && raw & 0xff == raw % (1u64 << 8u64) && raw & 0xffff == raw % (1u64 << 16u64) && raw
        & 0xffff_ffff == raw % (1u64 << 32u64) && raw & 0xffff_ffff_ffff_ffff == raw)
        by (bit_vector);
}

/// Raising the hardware lines `hwis` in `GINTC` sets its low 8 bits to
/// `hwis` and keeps every other bit.
pub proof fn law_gintc_hwis(gintc: u64, hwis: u64)
    requires
        hwis < 0x100,
    ensures
        gintc_hwis_replaced(gintc, hwis) & 0xff == hwis,
        gintc_hwis_replaced(gintc, hwis) >> 8u64 == gintc >> 8u64,
{
    assert(((gintc & !0xffu64) | hwis) & 0xff == hwis && ((gintc & !0xffu64) | hwis) >> 8u64
        == gintc >> 8u64) by (bit_vector)
        requires
            hwis < 0x100,
    ;
}

} // verus!
