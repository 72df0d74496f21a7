//! Emulation of the guest instructions that trap with `GSPR`.
use vstd::prelude::*;

use crate::consts::{
    IOCSR_BASE_ADDR_PHY, MAX_CPUCFG_REGS, OPCODE_CACOP, OPCODE_CACOP_LENGTH, OPCODE_CPUCFG,
    OPCODE_CPUCFG_LENGTH, OPCODE_CSRX, OPCODE_CSRX_LENGTH, OPCODE_IDLE, OPCODE_IDLE_LENGTH,
    OPCODE_IOCSR, OPCODE_IOCSR_LENGTH, OPCODE_LD_B, OPCODE_LD_BU, OPCODE_LD_BU_LENGTH,
    OPCODE_LD_B_LENGTH, OPCODE_ST_B, OPCODE_ST_B_LENGTH,
};
use crate::consts::{INT_IPI, MAX_CPU_NUM};
use crate::context::{MMIOAccess, ZoneContext};
use crate::irq::{
    inject_irq, with_cpu_status, GlobalInjectionStatus, HostIrqLines, InjectionStatus,
};
use crate::register::{GuestCsrs, GCSR_ESTAT};
use crate::handler::{access_mask, size_mask, valid_access_size};
use crate::mmio::UART0_BASE;
use crate::utils::{
    check_op_type, extract_field, field, imm12toi64, lemma_field_widths, op_matches, sext, sext12, signed_ext,
    signed_ext_ok,
};

verus! {

/// Register field `rd` (bits 4..0) of an instruction.
pub open spec fn inst_rd(ins: u64) -> int {
    field(ins, 0, 5) as int
}

/// Register field `rj` (bits 9..5) of an instruction.
pub open spec fn inst_rj(ins: u64) -> int {
    field(ins, 5, 5) as int
}

/// The `cpucfg` word a `cpucfg rd, rj` asks for: the value of `rj`.
pub fn cpucfg_target_index(ins: u64, ctx: &ZoneContext) -> (r: u64)
    ensures
        r == ctx.x@[inst_rj(ins)],
{
    proof {
        lemma_field_widths();
    }
    let rj = extract_field(ins, 5, 5);
    ctx.x[rj as usize]
}

/// Emulates `cpucfg rd, rj`: `rd` receives `word`, the hardware's answer for
/// the requested index, or zero when the index names no `cpucfg` word.
pub fn emulate_cpucfg(ins: u64, ctx: &mut ZoneContext, word: u64)
    ensures
        final(ctx).x@ == old(ctx).x@.update(
            inst_rd(ins),
            if old(ctx).x@[inst_rj(ins)] >= MAX_CPUCFG_REGS {
                0
            } else {
                word
            },
        ),
        *final(ctx) == (ZoneContext { x: final(ctx).x, ..*old(ctx) }),
{
    proof {
        lemma_field_widths();
    }
    let rd = extract_field(ins, 0, 5);
    let rj = extract_field(ins, 5, 5);
    let cpucfg_target_idx = ctx.x[rj as usize];
    if cpucfg_target_idx >= MAX_CPUCFG_REGS {
        ctx.x[rd as usize] = 0;
    } else {
        ctx.x[rd as usize] = word;
    }
}

/// Emulates `csrrd`, `csrwr` and `csrxchg`: the guest's CSR is left alone
/// and `rd` reads zero.
pub fn emulate_csrx(ins: u64, ctx: &mut ZoneContext)
    ensures
        final(ctx).x@ == old(ctx).x@.update(inst_rd(ins), 0),
        *final(ctx) == (ZoneContext { x: final(ctx).x, ..*old(ctx) }),
{
    proof {
        lemma_field_widths();
    }
    let ty = extract_field(ins, 5, 5);
    let rd = extract_field(ins, 0, 5);
    let _csr = extract_field(ins, 10, 14);
    if ty == 0 {
        ctx.x[rd as usize] = 0;
    } else if ty == 1 {
        ctx.x[rd as usize] = 0;
    } else {
        ctx.x[rd as usize] = 0;
    }
}

/// Emulates `cacop`: the cache operation is skipped.
pub fn emulate_cacop(ins: u64, ctx: &mut ZoneContext)
    ensures
        *final(ctx) == *old(ctx),
{
}

/// Emulates `idle level`: the guest simply continues.
pub fn emulate_idle(ins: u64, ctx: &mut ZoneContext)
    ensures
        *final(ctx) == *old(ctx),
{
    let _level = extract_field(ins, 0, 15);
}

/// The mnemonic of an IOCSR access of type `ty`.
pub open spec fn iocsr_mnemonic(ty: u64) -> Seq<char> {
    if ty == 0 {
        "iocsrrd.b"@
    } else if ty == 1 {
        "iocsrrd.h"@
    } else if ty == 2 {
        "iocsrrd.w"@
    } else if ty == 3 {
        "iocsrrd.d"@
    } else if ty == 4 {
        "iocsrwr.b"@
    } else if ty == 5 {
        "iocsrwr.h"@
    } else if ty == 6 {
        "iocsrwr.w"@
    } else if ty == 7 {
        "iocsrwr.d"@
    } else {
        "unknown"@
    }
}

/// The mnemonic of an IOCSR access of type `ty`.
pub fn ty2str(ty: u64) -> (r: &'static str)
    ensures
        r@ == iocsr_mnemonic(ty),
{
    if ty == 0 {
        "iocsrrd.b"
    } else if ty == 1 {
        "iocsrrd.h"
    } else if ty == 2 {
        "iocsrrd.w"
    } else if ty == 3 {
        "iocsrrd.d"
    } else if ty == 4 {
        "iocsrwr.b"
    } else if ty == 5 {
        "iocsrwr.h"
    } else if ty == 6 {
        "iocsrwr.w"
    } else if ty == 7 {
        "iocsrwr.d"
    } else {
        "unknown"
    }
}

/// Access type (bits 12..10) of an IOCSR instruction: 0..=3 read and 4..=7
/// write 1, 2, 4 or 8 bytes.
pub open spec fn iocsr_type(ins: u64) -> u64 {
    field(ins, 10, 3)
}

/// The device access an IOCSR instruction stands for: IOCSR offsets are
/// relative to the IOCSR base; a write carries the value of `rd`.
pub open spec fn iocsr_access(ins: u64, x: Seq<u64>) -> MMIOAccess {
    let ty = iocsr_type(ins);
    MMIOAccess {
        address: (IOCSR_BASE_ADDR_PHY + x[inst_rj(ins)]) as u64,
        size: if ty % 4 == 0 {
            1
        } else if ty % 4 == 1 {
            2
        } else if ty % 4 == 2 {
            4
        } else {
            8
        },
        is_write: ty >= 4,
        value: x[inst_rd(ins)],
    }
}

/// Builds the device access an IOCSR instruction stands for.
pub fn iocsr_request(ins: u64, ctx: &ZoneContext) -> (r: MMIOAccess)
    requires
        IOCSR_BASE_ADDR_PHY + ctx.x@[inst_rj(ins)] <= u64::MAX,
    ensures
        r == iocsr_access(ins, ctx.x@),
{
    proof {
        lemma_field_widths();
    }
    let ty = extract_field(ins, 10, 3);
    let rd = extract_field(ins, 0, 5);
    let rj = extract_field(ins, 5, 5);
    let mut mmio_access = MMIOAccess {
        address: IOCSR_BASE_ADDR_PHY + ctx.x[rj as usize],
        size: 0,
        is_write: false,
        value: ctx.x[rd as usize],
    };
    if ty == 0 {
        mmio_access.size = 1;
        mmio_access.is_write = false;
    } else if ty == 1 {
        mmio_access.size = 2;
        mmio_access.is_write = false;
    } else if ty == 2 {
        mmio_access.size = 4;
        mmio_access.is_write = false;
    } else if ty == 3 {
        mmio_access.size = 8;
        mmio_access.is_write = false;
    } else if ty == 4 {
        mmio_access.size = 1;
        mmio_access.is_write = true;
    } else if ty == 5 {
        mmio_access.size = 2;
        mmio_access.is_write = true;
    } else if ty == 6 {
        mmio_access.size = 4;
        mmio_access.is_write = true;
    } else {
        mmio_access.size = 8;
        mmio_access.is_write = true;
    }
    mmio_access
}

/// The value an IOCSR read of type `ty` leaves in `rd`: the bytes read,
/// sign-extended for the reading types.
pub open spec fn iocsr_loaded(ty: u64, value: u64, size: u64) -> u64 {
    if ty < 4 {
        sext(value & size_mask(size), (size * 8) as u64)
    } else {
        value & size_mask(size)
    }
}

/// Whether a finished IOCSR access can be written back.
pub open spec fn iocsr_completes(ins: u64, mmio: MMIOAccess) -> bool {
    !mmio.is_write ==> {
        &&& valid_access_size(mmio.size)
        &&& iocsr_type(ins) < 4 ==> signed_ext_ok(
            mmio.value & size_mask(mmio.size),
            (mmio.size * 8) as u64,
        )
    }
}

/// Completes an emulated IOCSR instruction once its device access `mmio`
/// was performed: a read leaves what was read in `rd`.
pub fn emulate_iocsr(ins: u64, ctx: &mut ZoneContext, mmio: &MMIOAccess)
    requires
        iocsr_completes(ins, *mmio),
    ensures
        final(ctx).x@ == if mmio.is_write {
            old(ctx).x@
        } else {
            old(ctx).x@.update(inst_rd(ins), iocsr_loaded(iocsr_type(ins), mmio.value, mmio.size))
        },
        *final(ctx) == (ZoneContext { x: final(ctx).x, ..*old(ctx) }),
{
    proof {
        lemma_field_widths();
    }
    let ty = extract_field(ins, 10, 3);
    let rd = extract_field(ins, 0, 5);
    if !mmio.is_write {
        let mask = access_mask(mmio.size);
        let trimmed_by_size = mmio.value & mask;
        let extended = if ty < 4 {
            signed_ext(trimmed_by_size, mmio.size * 8)
        } else {
            trimmed_by_size
        };
        ctx.x[rd as usize] = extended;
    }
}

/// `UART0_BASE` as a signed word.
pub open spec fn uart0_base_signed() -> int {
    UART0_BASE as int - 0x1_0000_0000_0000_0000
}

/// The address a byte load/store computes: `rj` plus the sign-extended
/// 12-bit offset (bits 21..10), as signed words.
pub open spec fn byte_access_vaddr(ins: u64, x: Seq<u64>) -> int {
    (x[inst_rj(ins)] as i64) as int + sext12(field(ins, 10, 12))
}

/// Whether emulating a byte load/store stays within signed 64-bit
/// arithmetic, both for its address and for that address's offset from
/// the UART.
pub open spec fn byte_access_ok(ins: u64, x: Seq<u64>) -> bool {
    &&& i64::MIN <= byte_access_vaddr(ins, x) <= i64::MAX
    &&& i64::MIN <= byte_access_vaddr(ins, x) - uart0_base_signed() <= i64::MAX
}

/// The UART register offset a byte access addresses.
fn byte_access_offset(ins: u64, ctx: &ZoneContext) -> (r: u64)
    requires
        byte_access_ok(ins, ctx.x@),
    ensures
        r == (byte_access_vaddr(ins, ctx.x@) - uart0_base_signed()) as u64,
{
    proof {
        lemma_field_widths();
    }
    let _rd = extract_field(ins, 0, 5);
    let rj = extract_field(ins, 5, 5);
    let si12 = extract_field(ins, 10, 12);
    let vaddr = #[verifier::truncate] (ctx.x[rj as usize] as i64) + imm12toi64(si12);
    let base = #[verifier::truncate] (UART0_BASE as i64);
    assert((0x8000_0000_1fe0_01e0u64 as i64) == -0x7fff_ffff_e01f_fe20i64) by (bit_vector);
    let diff = vaddr - base;
    #[verifier::truncate] (diff as u64)
}

/// Emulates `ld.b`: the address is worked out relative to the UART, and
/// nothing else happens.
pub fn emulate_ld_b(ins: u64, ctx: &mut ZoneContext)
    requires
        byte_access_ok(ins, old(ctx).x@),
    ensures
        *final(ctx) == *old(ctx),
{
    let _offset = byte_access_offset(ins, ctx);
}

/// Emulates `st.b`: the address is worked out relative to the UART, and
/// nothing else happens.
pub fn emulate_st_b(ins: u64, ctx: &mut ZoneContext)
    requires
        byte_access_ok(ins, old(ctx).x@),
    ensures
        *final(ctx) == *old(ctx),
{
    let _offset = byte_access_offset(ins, ctx);
}

/// Emulates `ld.bu`: the address is worked out relative to the UART, and
/// nothing else happens.
pub fn emulate_ld_bu(ins: u64, ctx: &mut ZoneContext)
    requires
        byte_access_ok(ins, old(ctx).x@),
    ensures
        *final(ctx) == *old(ctx),
{
    let _offset = byte_access_offset(ins, ctx);
}

/// The instructions the hypervisor emulates for a guest.
#[derive(Clone, Copy, PartialEq, Eq, Structural, Debug)]
pub enum EmulatedOp {
    Cpucfg,
    Cacop,
    Idle,
    Csrx,
    Iocsr,
    LdB,
    StB,
    LdBu,
}

/// The emulated instruction `ins` is, trying the opcodes in the order
/// `cpucfg`, `cacop`, `idle`, CSR access, IOCSR access, `ld.b`, `st.b`,
/// `ld.bu`; none when no opcode matches.
pub open spec fn emulated_op(ins: u64) -> Option<EmulatedOp> {
    if op_matches(ins, OPCODE_CPUCFG, OPCODE_CPUCFG_LENGTH) {
        Some(EmulatedOp::Cpucfg)
    } else if op_matches(ins, OPCODE_CACOP, OPCODE_CACOP_LENGTH) {
        Some(EmulatedOp::Cacop)
    } else if op_matches(ins, OPCODE_IDLE, OPCODE_IDLE_LENGTH) {
        Some(EmulatedOp::Idle)
    } else if op_matches(ins, OPCODE_CSRX, OPCODE_CSRX_LENGTH) {
        Some(EmulatedOp::Csrx)
    } else if op_matches(ins, OPCODE_IOCSR, OPCODE_IOCSR_LENGTH) {
        Some(EmulatedOp::Iocsr)
    } else if op_matches(ins, OPCODE_LD_B, OPCODE_LD_B_LENGTH) {
        Some(EmulatedOp::LdB)
    } else if op_matches(ins, OPCODE_ST_B, OPCODE_ST_B_LENGTH) {
        Some(EmulatedOp::StB)
    } else if op_matches(ins, OPCODE_LD_BU, OPCODE_LD_BU_LENGTH) {
        Some(EmulatedOp::LdBu)
    } else {
        None
    }
}

/// Identifies the emulated instruction `ins` is.
pub fn decode_emulated_op(ins: u64) -> (r: Option<EmulatedOp>)
    ensures
        r == emulated_op(ins),
{
    if check_op_type(ins, OPCODE_CPUCFG, OPCODE_CPUCFG_LENGTH) {
        Some(EmulatedOp::Cpucfg)
    } else if check_op_type(ins, OPCODE_CACOP, OPCODE_CACOP_LENGTH) {
        Some(EmulatedOp::Cacop)
    } else if check_op_type(ins, OPCODE_IDLE, OPCODE_IDLE_LENGTH) {
        Some(EmulatedOp::Idle)
    } else if check_op_type(ins, OPCODE_CSRX, OPCODE_CSRX_LENGTH) {
        Some(EmulatedOp::Csrx)
    } else if check_op_type(ins, OPCODE_IOCSR, OPCODE_IOCSR_LENGTH) {
        Some(EmulatedOp::Iocsr)
    } else if check_op_type(ins, OPCODE_LD_B, OPCODE_LD_B_LENGTH) {
        Some(EmulatedOp::LdB)
    } else if check_op_type(ins, OPCODE_ST_B, OPCODE_ST_B_LENGTH) {
        Some(EmulatedOp::StB)
    } else if check_op_type(ins, OPCODE_LD_BU, OPCODE_LD_BU_LENGTH) {
        Some(EmulatedOp::LdBu)
    } else {
        None
    }
}

/// Whether `emulate_instruction` returns normally on `ins`: it is an
/// emulated instruction, the resume address does not overflow, and a byte
/// load/store keeps its address arithmetic in range.
pub open spec fn emulation_ok(era: u64, ins: u64, x: Seq<u64>) -> bool {
    &&& emulated_op(ins) is Some
    &&& era + 4 <= u64::MAX
    &&& (emulated_op(ins) == Some(EmulatedOp::LdB) || emulated_op(ins) == Some(EmulatedOp::StB)
        || emulated_op(ins) == Some(EmulatedOp::LdBu)) ==> byte_access_ok(ins, x)
}

/// How emulating the instruction `ins` found at `era` changes a guest's
/// context from `before` to `after`: it resumes at the next instruction,
/// a CSR access zeroes `rd`, and nothing else changes (`cpucfg` and IOCSR
/// accesses are completed afterwards).
pub open spec fn emulation_effect(before: ZoneContext, after: ZoneContext, era: u64, ins: u64) -> bool {
    &&& after.sepc == era + 4
    &&& after.x@ == if emulated_op(ins) == Some(EmulatedOp::Csrx) {
        before.x@.update(inst_rd(ins), 0)
    } else {
        before.x@
    }
    &&& after == (ZoneContext { x: after.x, sepc: after.sepc, ..before })
}

/// Emulates the trapped instruction `ins` found at `era`: the guest will
/// resume at the next instruction, and the instruction's effect on the
/// registers is applied. `cpucfg` and IOCSR accesses need the hardware, so
/// for them only the resume address is set and the caller completes them
/// with `emulate_cpucfg` and `emulate_iocsr`; the identified instruction is
/// returned.
pub fn emulate_instruction(era: u64, ins: u64, ctx: &mut ZoneContext) -> (r: EmulatedOp)
    requires
        emulation_ok(era, ins, old(ctx).x@),
    ensures
        Some(r) == emulated_op(ins),
        emulation_effect(*old(ctx), *final(ctx), era, ins),
{
    let pc = era;
    ctx.sepc = pc + 4;
    let op = decode_emulated_op(ins);
    match op {
        Some(EmulatedOp::Cacop) => emulate_cacop(ins, ctx),
        Some(EmulatedOp::Idle) => emulate_idle(ins, ctx),
        Some(EmulatedOp::Csrx) => emulate_csrx(ins, ctx),
        Some(EmulatedOp::LdB) => emulate_ld_b(ins, ctx),
        Some(EmulatedOp::StB) => emulate_st_b(ins, ctx),
        Some(EmulatedOp::LdBu) => emulate_ld_bu(ins, ctx),
        _ => {},
    }
    op.unwrap()
}

/// The IOCSR port a guest sends IPIs through.
pub const IOCSR_IPI_SEND: u64 = 0x1014;

/// The core an IPI-send word (its low 32 bits) targets: bits 25..16.
pub open spec fn ipi_send_target(value: u64) -> u64 {
    ((value & 0xffff_ffff) >> 16u64) & 0x3ff
}

/// The width in bytes of a direct IOCSR access of type `ty`.
pub open spec fn iocsr_width(ty: u64) -> u64 {
    if ty % 4 == 0 {
        1
    } else if ty % 4 == 1 {
        2
    } else if ty % 4 == 2 {
        4
    } else {
        8
    }
}

/// What a directly executed IOCSR instruction does.
#[derive(Clone, Copy, PartialEq, Eq, Structural, Debug)]
pub enum LegacyIocsr {
    /// Read `width` bytes from IOCSR `port`; finish with
    /// `complete_iocsr_legacy_read`.
    Read { width: u64, port: u64 },
    /// Write the low `width` bytes of `value` to IOCSR `port`.
    Write { width: u64, port: u64, value: u64 },
    /// An IPI the guest sent to its own core, already injected.
    SelfIpi,
}

/// Whether an IOCSR instruction is a guest sending an IPI.
pub open spec fn is_ipi_send(ins: u64, x: Seq<u64>) -> bool {
    iocsr_type(ins) == 6 && x[inst_rj(ins)] == IOCSR_IPI_SEND
}

/// Executes an IOCSR instruction directly on the hardware, except that an
/// IPI a guest sends to itself (a word write to port `0x1014` naming the
/// running core) is injected into the guest instead (see `inject_irq`, which
/// also starts the host timer). IPIs to other cores
/// are not supported.
pub fn emulate_iocsr_legacy(
    ins: u64,
    ctx: &ZoneContext,
    cpu_id: usize,
    csrs: &mut GuestCsrs,
    status: &mut GlobalInjectionStatus,
    lines: &mut HostIrqLines,
) -> (r: LegacyIocsr)
    requires
        cpu_id < MAX_CPU_NUM,
        is_ipi_send(ins, ctx.x@) ==> ipi_send_target(ctx.x@[inst_rd(ins)]) == cpu_id,
    ensures
        is_ipi_send(ins, ctx.x@) ==> r == LegacyIocsr::SelfIpi && final(csrs).regs@ == old(
            csrs,
        ).regs@.update(GCSR_ESTAT as int, old(csrs).csr(GCSR_ESTAT) | (1u64 << INT_IPI))
            && final(status).cpu_status@ == with_cpu_status(
            *old(status),
            cpu_id,
            InjectionStatus::Injecting,
        ) && *final(lines) == (HostIrqLines { hwis: old(lines).hwis, timer_enabled: true }),
        !is_ipi_send(ins, ctx.x@) ==> *final(csrs) == *old(csrs) && final(status).cpu_status@
            == old(status).cpu_status@ && *final(lines) == *old(lines) && r == if iocsr_type(ins) < 4 {
            LegacyIocsr::Read { width: iocsr_width(iocsr_type(ins)), port: ctx.x@[inst_rj(ins)] }
        } else {
            LegacyIocsr::Write {
                width: iocsr_width(iocsr_type(ins)),
                port: ctx.x@[inst_rj(ins)],
                value: ctx.x@[inst_rd(ins)],
            }
        },
{
    proof {
        lemma_field_widths();
    }
    let ty = extract_field(ins, 10, 3);
    let rd = extract_field(ins, 0, 5);
    let rj = extract_field(ins, 5, 5);
    let port = ctx.x[rj as usize];
    let value = ctx.x[rd as usize];
    if ty == 0 {
        LegacyIocsr::Read { width: 1, port }
    } else if ty == 1 {
        LegacyIocsr::Read { width: 2, port }
    } else if ty == 2 {
        LegacyIocsr::Read { width: 4, port }
    } else if ty == 3 {
        LegacyIocsr::Read { width: 8, port }
    } else if ty == 4 {
        LegacyIocsr::Write { width: 1, port, value }
    } else if ty == 5 {
        LegacyIocsr::Write { width: 2, port, value }
    } else if ty == 6 {
        if port == IOCSR_IPI_SEND {
            inject_irq(INT_IPI, false, cpu_id, csrs, status, lines);
            LegacyIocsr::SelfIpi
        } else {
            LegacyIocsr::Write { width: 4, port, value }
        }
    } else {
        LegacyIocsr::Write { width: 8, port, value }
    }
}

/// The mask of a direct IOCSR read of `width` bytes.
pub open spec fn width_mask(width: u64) -> u64 {
    if width == 1 {
        0xff
    } else if width == 2 {
        0xffff
    } else if width == 4 {
        0xffff_ffff
    } else {
        0xffff_ffff_ffff_ffff
    }
}

/// Finishes a direct IOCSR read that returned `raw`: `rd` receives the bytes
/// read, zero-extended.
pub fn complete_iocsr_legacy_read(ins: u64, ctx: &mut ZoneContext, raw: u64)
    ensures
        final(ctx).x@ == old(ctx).x@.update(
            inst_rd(ins),
            raw & width_mask(iocsr_width(iocsr_type(ins))),
        ),
        *final(ctx) == (ZoneContext { x: final(ctx).x, ..*old(ctx) }),
{
    proof {
        lemma_field_widths();
    }
    let ty = extract_field(ins, 10, 3);
    let rd = extract_field(ins, 0, 5);
    let value = if ty % 4 == 0 {
        raw & 0xff
    } else if ty % 4 == 1 {
        raw & 0xffff
    } else if ty % 4 == 2 {
        raw & 0xffff_ffff
    } else {
        raw
    };
    assert(raw & 0xffff_ffff_ffff_ffffu64 == raw) by (bit_vector);
    ctx.x[rd as usize] = value;
}

} // verus!
