//! The guest control and status registers (GCSRs) of the LVZ extension,
//! held as a register file indexed by CSR number, and their accessors.
use vstd::prelude::*;

use bit_field::BitField;
use core::ops::RangeInclusive;
use vstd::std_specs::range::RangeInclusiveView;

use crate::context::ZoneContext;

verus! {

/// Number of CSR numbers the guest register file spans (`0x0..=0x183`).
pub const GCSR_COUNT: usize = 0x184;

/// CSR number of guest `CRMD`.
pub const GCSR_CRMD: usize = 0x0;

/// CSR number of guest `PRMD`.
pub const GCSR_PRMD: usize = 0x1;

/// CSR number of guest `EUEN`.
pub const GCSR_EUEN: usize = 0x2;

/// CSR number of guest `MISC`.
pub const GCSR_MISC: usize = 0x3;

/// CSR number of guest `ECTL`.
pub const GCSR_ECTL: usize = 0x4;

/// CSR number of guest `ESTAT`.
pub const GCSR_ESTAT: usize = 0x5;

/// CSR number of guest `ERA`.
pub const GCSR_ERA: usize = 0x6;

/// CSR number of guest `BADV`.
pub const GCSR_BADV: usize = 0x7;

/// CSR number of guest `BADI`.
pub const GCSR_BADI: usize = 0x8;

/// CSR number of guest `EENTRY`.
pub const GCSR_EENTRY: usize = 0xc;

/// CSR number of guest `TLBIDX`.
pub const GCSR_TLBIDX: usize = 0x10;

/// CSR number of guest `TLBEHI`.
pub const GCSR_TLBEHI: usize = 0x11;

/// CSR number of guest `TLBELO0`.
pub const GCSR_TLBELO0: usize = 0x12;

/// CSR number of guest `TLBELO1`.
pub const GCSR_TLBELO1: usize = 0x13;

/// CSR number of guest `ASID`.
pub const GCSR_ASID: usize = 0x18;

/// CSR number of guest `PGDL`.
pub const GCSR_PGDL: usize = 0x19;

/// CSR number of guest `PGDH`.
pub const GCSR_PGDH: usize = 0x1a;

/// CSR number of guest `PGD`.
pub const GCSR_PGD: usize = 0x1b;

/// CSR number of guest `PWCL`.
pub const GCSR_PWCL: usize = 0x1c;

/// CSR number of guest `PWCH`.
pub const GCSR_PWCH: usize = 0x1d;

/// CSR number of guest `STLBPS`.
pub const GCSR_STLBPS: usize = 0x1e;

/// CSR number of guest `RAVCFG`.
pub const GCSR_RAVCFG: usize = 0x1f;

/// CSR number of guest `CPUID`.
pub const GCSR_CPUID: usize = 0x20;

/// CSR number of guest `PRCFG1`.
pub const GCSR_PRCFG1: usize = 0x21;

/// CSR number of guest `PRCFG2`.
pub const GCSR_PRCFG2: usize = 0x22;

/// CSR number of guest `PRCFG3`.
pub const GCSR_PRCFG3: usize = 0x23;

/// CSR number of guest `SAVE0`.
pub const GCSR_SAVE0: usize = 0x30;

/// CSR number of guest `SAVE1`.
pub const GCSR_SAVE1: usize = 0x31;

/// CSR number of guest `SAVE2`.
pub const GCSR_SAVE2: usize = 0x32;

/// CSR number of guest `SAVE3`.
pub const GCSR_SAVE3: usize = 0x33;

/// CSR number of guest `SAVE4`.
pub const GCSR_SAVE4: usize = 0x34;

/// CSR number of guest `SAVE5`.
pub const GCSR_SAVE5: usize = 0x35;

/// CSR number of guest `SAVE6`.
pub const GCSR_SAVE6: usize = 0x36;

/// CSR number of guest `SAVE7`.
pub const GCSR_SAVE7: usize = 0x37;

/// CSR number of guest `SAVE8`.
pub const GCSR_SAVE8: usize = 0x38;

/// CSR number of guest `SAVE9`.
pub const GCSR_SAVE9: usize = 0x39;

/// CSR number of guest `SAVE10`.
pub const GCSR_SAVE10: usize = 0x3a;

/// CSR number of guest `SAVE11`.
pub const GCSR_SAVE11: usize = 0x3b;

/// CSR number of guest `SAVE12`.
pub const GCSR_SAVE12: usize = 0x3c;

/// CSR number of guest `SAVE13`.
pub const GCSR_SAVE13: usize = 0x3d;

/// CSR number of guest `SAVE14`.
pub const GCSR_SAVE14: usize = 0x3e;

/// CSR number of guest `SAVE15`.
pub const GCSR_SAVE15: usize = 0x3f;

/// CSR number of guest `TID`.
pub const GCSR_TID: usize = 0x40;

/// CSR number of guest `TCFG`.
pub const GCSR_TCFG: usize = 0x41;

/// CSR number of guest `TVAL`.
pub const GCSR_TVAL: usize = 0x42;

/// CSR number of guest `CNTC`.
pub const GCSR_CNTC: usize = 0x43;

/// CSR number of guest `TICLR`.
pub const GCSR_TICLR: usize = 0x44;

/// CSR number of guest `LLBCTL`.
pub const GCSR_LLBCTL: usize = 0x60;

/// CSR number of guest `TLBRENTRY`.
pub const GCSR_TLBRENTRY: usize = 0x88;

/// CSR number of guest `TLBRBADV`.
pub const GCSR_TLBRBADV: usize = 0x89;

/// CSR number of guest `TLBRERA`.
pub const GCSR_TLBRERA: usize = 0x8a;

/// CSR number of guest `TLBRSAVE`.
pub const GCSR_TLBRSAVE: usize = 0x8b;

/// CSR number of guest `TLBRELO0`.
pub const GCSR_TLBRELO0: usize = 0x8c;

/// CSR number of guest `TLBRELO1`.
pub const GCSR_TLBRELO1: usize = 0x8d;

/// CSR number of guest `TLBREHI`.
pub const GCSR_TLBREHI: usize = 0x8e;

/// CSR number of guest `TLBRPRMD`.
pub const GCSR_TLBRPRMD: usize = 0x8f;

/// CSR number of guest `DMW0`.
pub const GCSR_DMW0: usize = 0x180;

/// CSR number of guest `DMW1`.
pub const GCSR_DMW1: usize = 0x181;

/// CSR number of guest `DMW2`.
pub const GCSR_DMW2: usize = 0x182;

/// CSR number of guest `DMW3`.
pub const GCSR_DMW3: usize = 0x183;

/// The guest CSRs of one vCPU, indexed by CSR number; numbers that name no
/// register hold whatever was last written there.
#[derive(Clone, Copy)]
pub struct GuestCsrs {
    pub regs: [u64; 0x184],
}

impl GuestCsrs {
    /// A register file in which every register reads zero.
    pub fn new() -> (r: Self)
        ensures
            forall|i: int| 0 <= i < GCSR_COUNT ==> #[trigger] r.regs@[i] == 0,
    {
        GuestCsrs { regs: [0u64; 0x184] }
    }

    /// The value of guest CSR `num`.
    pub open spec fn csr(&self, num: usize) -> u64 {
        self.regs@[num as int]
    }
}

/// Reads guest CSR `num`.
fn read_gcsr(csrs: &GuestCsrs, num: usize) -> (r: u64)
    requires
        num < GCSR_COUNT,
    ensures
        r == csrs.csr(num),
{
    csrs.regs[num]
}

/// Writes guest CSR `num`, leaving the others unchanged.
fn write_gcsr(csrs: &mut GuestCsrs, num: usize, value: u64)
    requires
        num < GCSR_COUNT,
    ensures
        final(csrs).regs@ == old(csrs).regs@.update(num as int, value),
{
    csrs.regs[num] = value;
}

/// Reads guest `CRMD`.
pub fn read_gcsr_crmd(csrs: &GuestCsrs) -> (r: u64)
    ensures
        r == csrs.csr(GCSR_CRMD),
{
    read_gcsr(csrs, GCSR_CRMD)
}

/// Reads guest `PRMD`.
pub fn read_gcsr_prmd(csrs: &GuestCsrs) -> (r: u64)
    ensures
        r == csrs.csr(GCSR_PRMD),
{
    read_gcsr(csrs, GCSR_PRMD)
}

/// Reads guest `EUEN`.
pub fn read_gcsr_euen(csrs: &GuestCsrs) -> (r: u64)
    ensures
        r == csrs.csr(GCSR_EUEN),
{
    read_gcsr(csrs, GCSR_EUEN)
}

/// Reads guest `MISC`.
pub fn read_gcsr_misc(csrs: &GuestCsrs) -> (r: u64)
    ensures
        r == csrs.csr(GCSR_MISC),
{
    read_gcsr(csrs, GCSR_MISC)
}

/// Reads guest `ECTL`.
pub fn read_gcsr_ectl(csrs: &GuestCsrs) -> (r: u64)
    ensures
        r == csrs.csr(GCSR_ECTL),
{
    read_gcsr(csrs, GCSR_ECTL)
}

/// Reads guest `ESTAT`.
pub fn read_gcsr_estat(csrs: &GuestCsrs) -> (r: u64)
    ensures
        r == csrs.csr(GCSR_ESTAT),
{
    read_gcsr(csrs, GCSR_ESTAT)
}

/// Writes guest `ESTAT`.
pub fn write_gcsr_estat(csrs: &mut GuestCsrs, value: u64)
    ensures
        final(csrs).regs@ == old(csrs).regs@.update(GCSR_ESTAT as int, value),
{
    write_gcsr(csrs, GCSR_ESTAT, value)
}

/// Reads guest `ERA`.
pub fn read_gcsr_era(csrs: &GuestCsrs) -> (r: u64)
    ensures
        r == csrs.csr(GCSR_ERA),
{
    read_gcsr(csrs, GCSR_ERA)
}

/// Reads guest `BADV`.
pub fn read_gcsr_badv(csrs: &GuestCsrs) -> (r: u64)
    ensures
        r == csrs.csr(GCSR_BADV),
{
    read_gcsr(csrs, GCSR_BADV)
}

/// Reads guest `BADI`.
pub fn read_gcsr_badi(csrs: &GuestCsrs) -> (r: u64)
    ensures
        r == csrs.csr(GCSR_BADI),
{
    read_gcsr(csrs, GCSR_BADI)
}

/// Reads guest `EENTRY`.
pub fn read_gcsr_eentry(csrs: &GuestCsrs) -> (r: u64)
    ensures
        r == csrs.csr(GCSR_EENTRY),
{
    read_gcsr(csrs, GCSR_EENTRY)
}

/// Reads guest `TLBIDX`.
pub fn read_gcsr_tlbidx(csrs: &GuestCsrs) -> (r: u64)
    ensures
        r == csrs.csr(GCSR_TLBIDX),
{
    read_gcsr(csrs, GCSR_TLBIDX)
}

/// Reads guest `TLBEHI`.
pub fn read_gcsr_tlbehi(csrs: &GuestCsrs) -> (r: u64)
    ensures
        r == csrs.csr(GCSR_TLBEHI),
{
    read_gcsr(csrs, GCSR_TLBEHI)
}

/// Reads guest `TLBELO0`.
pub fn read_gcsr_tlbelo0(csrs: &GuestCsrs) -> (r: u64)
    ensures
        r == csrs.csr(GCSR_TLBELO0),
{
    read_gcsr(csrs, GCSR_TLBELO0)
}

/// Reads guest `TLBELO1`.
pub fn read_gcsr_tlbelo1(csrs: &GuestCsrs) -> (r: u64)
    ensures
        r == csrs.csr(GCSR_TLBELO1),
{
    read_gcsr(csrs, GCSR_TLBELO1)
}

/// Reads guest `ASID`.
pub fn read_gcsr_asid(csrs: &GuestCsrs) -> (r: u64)
    ensures
        r == csrs.csr(GCSR_ASID),
{
    read_gcsr(csrs, GCSR_ASID)
}

/// Reads guest `PGDL`.
pub fn read_gcsr_pgdl(csrs: &GuestCsrs) -> (r: u64)
    ensures
        r == csrs.csr(GCSR_PGDL),
{
    read_gcsr(csrs, GCSR_PGDL)
}

/// Reads guest `PGDH`.
pub fn read_gcsr_pgdh(csrs: &GuestCsrs) -> (r: u64)
    ensures
        r == csrs.csr(GCSR_PGDH),
{
    read_gcsr(csrs, GCSR_PGDH)
}

/// Reads guest `PGD`.
pub fn read_gcsr_pgd(csrs: &GuestCsrs) -> (r: u64)
    ensures
        r == csrs.csr(GCSR_PGD),
{
    read_gcsr(csrs, GCSR_PGD)
}

/// Reads guest `PWCL`.
pub fn read_gcsr_pwcl(csrs: &GuestCsrs) -> (r: u64)
    ensures
        r == csrs.csr(GCSR_PWCL),
{
    read_gcsr(csrs, GCSR_PWCL)
}

/// Reads guest `PWCH`.
pub fn read_gcsr_pwch(csrs: &GuestCsrs) -> (r: u64)
    ensures
        r == csrs.csr(GCSR_PWCH),
{
    read_gcsr(csrs, GCSR_PWCH)
}

/// Reads guest `STLBPS`.
pub fn read_gcsr_stlbps(csrs: &GuestCsrs) -> (r: u64)
    ensures
        r == csrs.csr(GCSR_STLBPS),
{
    read_gcsr(csrs, GCSR_STLBPS)
}

/// Reads guest `RAVCFG`.
pub fn read_gcsr_ravcfg(csrs: &GuestCsrs) -> (r: u64)
    ensures
        r == csrs.csr(GCSR_RAVCFG),
{
    read_gcsr(csrs, GCSR_RAVCFG)
}

/// Reads guest `CPUID`.
pub fn read_gcsr_cpuid(csrs: &GuestCsrs) -> (r: u64)
    ensures
        r == csrs.csr(GCSR_CPUID),
{
    read_gcsr(csrs, GCSR_CPUID)
}

/// Reads guest `PRCFG1`.
pub fn read_gcsr_prcfg1(csrs: &GuestCsrs) -> (r: u64)
    ensures
        r == csrs.csr(GCSR_PRCFG1),
{
    read_gcsr(csrs, GCSR_PRCFG1)
}

/// Reads guest `PRCFG2`.
pub fn read_gcsr_prcfg2(csrs: &GuestCsrs) -> (r: u64)
    ensures
        r == csrs.csr(GCSR_PRCFG2),
{
    read_gcsr(csrs, GCSR_PRCFG2)
}

/// Reads guest `PRCFG3`.
pub fn read_gcsr_prcfg3(csrs: &GuestCsrs) -> (r: u64)
    ensures
        r == csrs.csr(GCSR_PRCFG3),
{
    read_gcsr(csrs, GCSR_PRCFG3)
}

/// Reads guest `SAVE0`.
pub fn read_gcsr_save0(csrs: &GuestCsrs) -> (r: u64)
    ensures
        r == csrs.csr(GCSR_SAVE0),
{
    read_gcsr(csrs, GCSR_SAVE0)
}

/// Reads guest `SAVE1`.
pub fn read_gcsr_save1(csrs: &GuestCsrs) -> (r: u64)
    ensures
        r == csrs.csr(GCSR_SAVE1),
{
    read_gcsr(csrs, GCSR_SAVE1)
}

/// Reads guest `SAVE2`.
pub fn read_gcsr_save2(csrs: &GuestCsrs) -> (r: u64)
    ensures
        r == csrs.csr(GCSR_SAVE2),
{
    read_gcsr(csrs, GCSR_SAVE2)
}

/// Reads guest `SAVE3`.
pub fn read_gcsr_save3(csrs: &GuestCsrs) -> (r: u64)
    ensures
        r == csrs.csr(GCSR_SAVE3),
{
    read_gcsr(csrs, GCSR_SAVE3)
}

/// Reads guest `SAVE4`.
pub fn read_gcsr_save4(csrs: &GuestCsrs) -> (r: u64)
    ensures
        r == csrs.csr(GCSR_SAVE4),
{
    read_gcsr(csrs, GCSR_SAVE4)
}

/// Reads guest `SAVE5`.
pub fn read_gcsr_save5(csrs: &GuestCsrs) -> (r: u64)
    ensures
        r == csrs.csr(GCSR_SAVE5),
{
    read_gcsr(csrs, GCSR_SAVE5)
}

/// Reads guest `SAVE6`.
pub fn read_gcsr_save6(csrs: &GuestCsrs) -> (r: u64)
    ensures
        r == csrs.csr(GCSR_SAVE6),
{
    read_gcsr(csrs, GCSR_SAVE6)
}

/// Reads guest `SAVE7`.
pub fn read_gcsr_save7(csrs: &GuestCsrs) -> (r: u64)
    ensures
        r == csrs.csr(GCSR_SAVE7),
{
    read_gcsr(csrs, GCSR_SAVE7)
}

/// Reads guest `SAVE8`.
pub fn read_gcsr_save8(csrs: &GuestCsrs) -> (r: u64)
    ensures
        r == csrs.csr(GCSR_SAVE8),
{
    read_gcsr(csrs, GCSR_SAVE8)
}

/// Reads guest `SAVE9`.
pub fn read_gcsr_save9(csrs: &GuestCsrs) -> (r: u64)
    ensures
        r == csrs.csr(GCSR_SAVE9),
{
    read_gcsr(csrs, GCSR_SAVE9)
}

/// Reads guest `SAVE10`.
pub fn read_gcsr_save10(csrs: &GuestCsrs) -> (r: u64)
    ensures
        r == csrs.csr(GCSR_SAVE10),
{
    read_gcsr(csrs, GCSR_SAVE10)
}

/// Reads guest `SAVE11`.
pub fn read_gcsr_save11(csrs: &GuestCsrs) -> (r: u64)
    ensures
        r == csrs.csr(GCSR_SAVE11),
{
    read_gcsr(csrs, GCSR_SAVE11)
}

/// Reads guest `SAVE12`.
pub fn read_gcsr_save12(csrs: &GuestCsrs) -> (r: u64)
    ensures
        r == csrs.csr(GCSR_SAVE12),
{
    read_gcsr(csrs, GCSR_SAVE12)
}

/// Reads guest `SAVE13`.
pub fn read_gcsr_save13(csrs: &GuestCsrs) -> (r: u64)
    ensures
        r == csrs.csr(GCSR_SAVE13),
{
    read_gcsr(csrs, GCSR_SAVE13)
}

/// Reads guest `SAVE14`.
pub fn read_gcsr_save14(csrs: &GuestCsrs) -> (r: u64)
    ensures
        r == csrs.csr(GCSR_SAVE14),
{
    read_gcsr(csrs, GCSR_SAVE14)
}

/// Reads guest `SAVE15`.
pub fn read_gcsr_save15(csrs: &GuestCsrs) -> (r: u64)
    ensures
        r == csrs.csr(GCSR_SAVE15),
{
    read_gcsr(csrs, GCSR_SAVE15)
}

/// Reads guest `TID`.
pub fn read_gcsr_tid(csrs: &GuestCsrs) -> (r: u64)
    ensures
        r == csrs.csr(GCSR_TID),
{
    read_gcsr(csrs, GCSR_TID)
}

/// Reads guest `TCFG`.
pub fn read_gcsr_tcfg(csrs: &GuestCsrs) -> (r: u64)
    ensures
        r == csrs.csr(GCSR_TCFG),
{
    read_gcsr(csrs, GCSR_TCFG)
}

/// Writes guest `TCFG`.
pub fn write_gcsr_tcfg(csrs: &mut GuestCsrs, value: u64)
    ensures
        final(csrs).regs@ == old(csrs).regs@.update(GCSR_TCFG as int, value),
{
    write_gcsr(csrs, GCSR_TCFG, value)
}

/// Reads guest `TVAL`.
pub fn read_gcsr_tval(csrs: &GuestCsrs) -> (r: u64)
    ensures
        r == csrs.csr(GCSR_TVAL),
{
    read_gcsr(csrs, GCSR_TVAL)
}

/// Writes guest `TVAL`.
pub fn write_gcsr_tval(csrs: &mut GuestCsrs, value: u64)
    ensures
        final(csrs).regs@ == old(csrs).regs@.update(GCSR_TVAL as int, value),
{
    write_gcsr(csrs, GCSR_TVAL, value)
}

/// Reads guest `CNTC`.
pub fn read_gcsr_cntc(csrs: &GuestCsrs) -> (r: u64)
    ensures
        r == csrs.csr(GCSR_CNTC),
{
    read_gcsr(csrs, GCSR_CNTC)
}

/// Reads guest `TICLR`.
pub fn read_gcsr_ticlr(csrs: &GuestCsrs) -> (r: u64)
    ensures
        r == csrs.csr(GCSR_TICLR),
{
    read_gcsr(csrs, GCSR_TICLR)
}

/// Writes guest `TICLR`.
pub fn write_gcsr_ticlr(csrs: &mut GuestCsrs, value: u64)
    ensures
        final(csrs).regs@ == old(csrs).regs@.update(GCSR_TICLR as int, value),
{
    write_gcsr(csrs, GCSR_TICLR, value)
}

/// Reads guest `LLBCTL`.
pub fn read_gcsr_llbctl(csrs: &GuestCsrs) -> (r: u64)
    ensures
        r == csrs.csr(GCSR_LLBCTL),
{
    read_gcsr(csrs, GCSR_LLBCTL)
}

/// Reads guest `TLBRENTRY`.
pub fn read_gcsr_tlbrentry(csrs: &GuestCsrs) -> (r: u64)
    ensures
        r == csrs.csr(GCSR_TLBRENTRY),
{
    read_gcsr(csrs, GCSR_TLBRENTRY)
}

/// Reads guest `TLBRBADV`.
pub fn read_gcsr_tlbrbadv(csrs: &GuestCsrs) -> (r: u64)
    ensures
        r == csrs.csr(GCSR_TLBRBADV),
{
    read_gcsr(csrs, GCSR_TLBRBADV)
}

/// Reads guest `TLBRERA`.
pub fn read_gcsr_tlbrera(csrs: &GuestCsrs) -> (r: u64)
    ensures
        r == csrs.csr(GCSR_TLBRERA),
{
    read_gcsr(csrs, GCSR_TLBRERA)
}

/// Reads guest `TLBRSAVE`.
pub fn read_gcsr_tlbrsave(csrs: &GuestCsrs) -> (r: u64)
    ensures
        r == csrs.csr(GCSR_TLBRSAVE),
{
    read_gcsr(csrs, GCSR_TLBRSAVE)
}

/// Reads guest `TLBRELO0`.
pub fn read_gcsr_tlbrrelo0(csrs: &GuestCsrs) -> (r: u64)
    ensures
        r == csrs.csr(GCSR_TLBRELO0),
{
    read_gcsr(csrs, GCSR_TLBRELO0)
}

/// Reads guest `TLBRELO1`.
pub fn read_gcsr_tlbrrelo1(csrs: &GuestCsrs) -> (r: u64)
    ensures
        r == csrs.csr(GCSR_TLBRELO1),
{
    read_gcsr(csrs, GCSR_TLBRELO1)
}

/// Reads guest `TLBREHI`.
pub fn read_gcsr_tlbrrehi(csrs: &GuestCsrs) -> (r: u64)
    ensures
        r == csrs.csr(GCSR_TLBREHI),
{
    read_gcsr(csrs, GCSR_TLBREHI)
}

/// Reads guest `TLBRPRMD`.
pub fn read_gcsr_tlbrprmd(csrs: &GuestCsrs) -> (r: u64)
    ensures
        r == csrs.csr(GCSR_TLBRPRMD),
{
    read_gcsr(csrs, GCSR_TLBRPRMD)
}

/// Reads guest `DMW0`.
pub fn read_gcsr_dmw0(csrs: &GuestCsrs) -> (r: u64)
    ensures
        r == csrs.csr(GCSR_DMW0),
{
    read_gcsr(csrs, GCSR_DMW0)
}

/// Reads guest `DMW1`.
pub fn read_gcsr_dmw1(csrs: &GuestCsrs) -> (r: u64)
    ensures
        r == csrs.csr(GCSR_DMW1),
{
    read_gcsr(csrs, GCSR_DMW1)
}

/// Reads guest `DMW2`.
pub fn read_gcsr_dmw2(csrs: &GuestCsrs) -> (r: u64)
    ensures
        r == csrs.csr(GCSR_DMW2),
{
    read_gcsr(csrs, GCSR_DMW2)
}

/// Reads guest `DMW3`.
pub fn read_gcsr_dmw3(csrs: &GuestCsrs) -> (r: u64)
    ensures
        r == csrs.csr(GCSR_DMW3),
{
    read_gcsr(csrs, GCSR_DMW3)
}

/// One past the last bit that an inclusive bit range covers, as `bit_field`
/// computes it from the range's bounds.
pub open spec fn range_hi(range: RangeInclusiveView<usize>) -> int {
    if range.exhausted {
        range.end as int
    } else {
        range.end as int + 1
    }
}

/// The number of bits that an inclusive bit range covers.
pub open spec fn range_width(range: RangeInclusiveView<usize>) -> int {
    range_hi(range) - range.start as int
}

/// Whether `BitField::set_bits(range, value)` on a 64-bit word returns
/// normally: the range lies inside the word and `value` fits in it.
pub open spec fn set_bits_ok(range: RangeInclusiveView<usize>, value: u64) -> bool {
    &&& range.start < 64
    &&& range_hi(range) <= 64
    &&& range.start as int <= range_hi(range)
    &&& if range_width(range) == 0 {
        value == 0
    } else {
        range_width(range) == 64 || value < (1u64 << (range_width(range) as u64))
    }
}

/// The mask of bits `lo..hi` of a 64-bit word, for `lo < hi <= 64`.
pub open spec fn bits_mask(lo: u64, hi: u64) -> u64 {
    (((!0u64) >> ((64 - hi) as u64)) >> lo) << lo
}

/// `word` with the bits that `range` covers replaced by `value`.
pub open spec fn with_bits(word: u64, range: RangeInclusiveView<usize>, value: u64) -> u64 {
    if range_width(range) == 0 {
        word
    } else {
        let lo = range.start as u64;
        let hi = range_hi(range) as u64;
        (word & !bits_mask(lo, hi)) | (value << lo)
    }
}

/// `BitField::set_bits` of the `bit_field` crate on a `u64`. Its contract
/// claims what the crate's source shows: it returns normally exactly when the
/// range lies inside the word and `value` fits the range, and then the bits
/// the range covers hold `value` while the others keep their old values.
#[verifier::external_body]
fn u64_set_bits(word: u64, range: RangeInclusive<usize>, value: u64) -> (r: u64)
    requires
        set_bits_ok(range@, value),
    ensures
        r == with_bits(word, range@, value),
{
    let mut w = word;
    w.set_bits(range, value);
    w
}

/// CSR number of the host's guest interrupt controller (`GINTC`).
pub const CSR_GINTC: usize = 0x52;

/// `gintc` with its `HWIS` field (bits 7..0, the hardware lines raised in the
/// guest) replaced by `hwis`.
pub open spec fn gintc_hwis_replaced(gintc: u64, hwis: u64) -> u64 {
    (gintc & !0xffu64) | hwis
}

/// The `GINTC` value that raises exactly the hardware lines `hwis` in the
/// guest, keeping the other fields of `gintc`.
pub fn gintc_with_hwis(gintc: u64, hwis: u64) -> (r: u64)
    requires
        hwis < 0x100,
    ensures
        r == gintc_hwis_replaced(gintc, hwis),
{
    let range = RangeInclusive::new(0usize, 7usize);
    proof {
        assert(1u64 << 8u64 == 0x100) by (bit_vector);
        assert(range_width(range@) == 8);
    }
    let r = u64_set_bits(gintc, range, hwis);
    proof {
        assert((gintc & !((((!0u64) >> ((64 - 8u64) as u64)) >> 0u64) << 0u64)) | (hwis << 0u64)
            == (gintc & !0xffu64) | hwis) by (bit_vector);
    }
    r
}

/// Sets the bits that `range` covers in guest `ECTL` to `value`.
pub fn write_gcsr_ectl(csrs: &mut GuestCsrs, range: RangeInclusive<usize>, value: u64)
    requires
        set_bits_ok(range@, value),
    ensures
        final(csrs).regs@ == old(csrs).regs@.update(
            GCSR_ECTL as int,
            with_bits(old(csrs).csr(GCSR_ECTL), range@, value),
        ),
{
    let cur = read_gcsr(csrs, GCSR_ECTL);
    let new = u64_set_bits(cur, range, value);
    write_gcsr(csrs, GCSR_ECTL, new);
}

/// Sets the bits that `range` covers in guest `EENTRY` to `value`.
pub fn write_gcsr_eentry(csrs: &mut GuestCsrs, range: RangeInclusive<usize>, value: u64)
    requires
        set_bits_ok(range@, value),
    ensures
        final(csrs).regs@ == old(csrs).regs@.update(
            GCSR_EENTRY as int,
            with_bits(old(csrs).csr(GCSR_EENTRY), range@, value),
        ),
{
    let cur = read_gcsr(csrs, GCSR_EENTRY);
    let new = u64_set_bits(cur, range, value);
    write_gcsr(csrs, GCSR_EENTRY, new);
}


/// Copies every guest CSR into the context, as trap entry does.
pub fn save_gcsrs(csrs: &GuestCsrs, ctx: &mut ZoneContext)
    ensures
        final(ctx).gcsr_crmd == csrs.csr(GCSR_CRMD),
        final(ctx).gcsr_prmd == csrs.csr(GCSR_PRMD),
        final(ctx).gcsr_euen == csrs.csr(GCSR_EUEN),
        final(ctx).gcsr_misc == csrs.csr(GCSR_MISC),
        final(ctx).gcsr_ectl == csrs.csr(GCSR_ECTL),
        final(ctx).gcsr_estat == csrs.csr(GCSR_ESTAT),
        final(ctx).gcsr_era == csrs.csr(GCSR_ERA),
        final(ctx).gcsr_badv == csrs.csr(GCSR_BADV),
        final(ctx).gcsr_badi == csrs.csr(GCSR_BADI),
        final(ctx).gcsr_eentry == csrs.csr(GCSR_EENTRY),
        final(ctx).gcsr_tlbidx == csrs.csr(GCSR_TLBIDX),
        final(ctx).gcsr_tlbehi == csrs.csr(GCSR_TLBEHI),
        final(ctx).gcsr_tlbelo0 == csrs.csr(GCSR_TLBELO0),
        final(ctx).gcsr_tlbelo1 == csrs.csr(GCSR_TLBELO1),
        final(ctx).gcsr_asid == csrs.csr(GCSR_ASID),
        final(ctx).gcsr_pgdl == csrs.csr(GCSR_PGDL),
        final(ctx).gcsr_pgdh == csrs.csr(GCSR_PGDH),
        final(ctx).gcsr_pgd == csrs.csr(GCSR_PGD),
        final(ctx).gcsr_pwcl == csrs.csr(GCSR_PWCL),
        final(ctx).gcsr_pwch == csrs.csr(GCSR_PWCH),
        final(ctx).gcsr_stlbps == csrs.csr(GCSR_STLBPS),
        final(ctx).gcsr_ravcfg == csrs.csr(GCSR_RAVCFG),
        final(ctx).gcsr_cpuid == csrs.csr(GCSR_CPUID),
        final(ctx).gcsr_prcfg1 == csrs.csr(GCSR_PRCFG1),
        final(ctx).gcsr_prcfg2 == csrs.csr(GCSR_PRCFG2),
        final(ctx).gcsr_prcfg3 == csrs.csr(GCSR_PRCFG3),
        final(ctx).gcsr_save0 == csrs.csr(GCSR_SAVE0),
        final(ctx).gcsr_save1 == csrs.csr(GCSR_SAVE1),
        final(ctx).gcsr_save2 == csrs.csr(GCSR_SAVE2),
        final(ctx).gcsr_save3 == csrs.csr(GCSR_SAVE3),
        final(ctx).gcsr_save4 == csrs.csr(GCSR_SAVE4),
        final(ctx).gcsr_save5 == csrs.csr(GCSR_SAVE5),
        final(ctx).gcsr_save6 == csrs.csr(GCSR_SAVE6),
        final(ctx).gcsr_save7 == csrs.csr(GCSR_SAVE7),
        final(ctx).gcsr_save8 == csrs.csr(GCSR_SAVE8),
        final(ctx).gcsr_save9 == csrs.csr(GCSR_SAVE9),
        final(ctx).gcsr_save10 == csrs.csr(GCSR_SAVE10),
        final(ctx).gcsr_save11 == csrs.csr(GCSR_SAVE11),
        final(ctx).gcsr_save12 == csrs.csr(GCSR_SAVE12),
        final(ctx).gcsr_save13 == csrs.csr(GCSR_SAVE13),
        final(ctx).gcsr_save14 == csrs.csr(GCSR_SAVE14),
        final(ctx).gcsr_save15 == csrs.csr(GCSR_SAVE15),
        final(ctx).gcsr_tid == csrs.csr(GCSR_TID),
        final(ctx).gcsr_tcfg == csrs.csr(GCSR_TCFG),
        final(ctx).gcsr_tval == csrs.csr(GCSR_TVAL),
        final(ctx).gcsr_cntc == csrs.csr(GCSR_CNTC),
        final(ctx).gcsr_ticlr == csrs.csr(GCSR_TICLR),
        final(ctx).gcsr_llbctl == csrs.csr(GCSR_LLBCTL),
        final(ctx).gcsr_tlbrentry == csrs.csr(GCSR_TLBRENTRY),
        final(ctx).gcsr_tlbrbadv == csrs.csr(GCSR_TLBRBADV),
        final(ctx).gcsr_tlbrera == csrs.csr(GCSR_TLBRERA),
        final(ctx).gcsr_tlbrsave == csrs.csr(GCSR_TLBRSAVE),
        final(ctx).gcsr_tlbrelo0 == csrs.csr(GCSR_TLBRELO0),
        final(ctx).gcsr_tlbrelo1 == csrs.csr(GCSR_TLBRELO1),
        final(ctx).gcsr_tlbrehi == csrs.csr(GCSR_TLBREHI),
        final(ctx).gcsr_tlbrprmd == csrs.csr(GCSR_TLBRPRMD),
        final(ctx).gcsr_dmw0 == csrs.csr(GCSR_DMW0),
        final(ctx).gcsr_dmw1 == csrs.csr(GCSR_DMW1),
        final(ctx).gcsr_dmw2 == csrs.csr(GCSR_DMW2),
        final(ctx).gcsr_dmw3 == csrs.csr(GCSR_DMW3),
        final(ctx).x == old(ctx).x,
        final(ctx).sepc == old(ctx).sepc,
{
    ctx.gcsr_crmd = csrs.regs[GCSR_CRMD];
    ctx.gcsr_prmd = csrs.regs[GCSR_PRMD];
    ctx.gcsr_euen = csrs.regs[GCSR_EUEN];
    ctx.gcsr_misc = csrs.regs[GCSR_MISC];
    ctx.gcsr_ectl = csrs.regs[GCSR_ECTL];
    ctx.gcsr_estat = csrs.regs[GCSR_ESTAT];
    ctx.gcsr_era = csrs.regs[GCSR_ERA];
    ctx.gcsr_badv = csrs.regs[GCSR_BADV];
    ctx.gcsr_badi = csrs.regs[GCSR_BADI];
    ctx.gcsr_eentry = csrs.regs[GCSR_EENTRY];
    ctx.gcsr_tlbidx = csrs.regs[GCSR_TLBIDX];
    ctx.gcsr_tlbehi = csrs.regs[GCSR_TLBEHI];
    ctx.gcsr_tlbelo0 = csrs.regs[GCSR_TLBELO0];
    ctx.gcsr_tlbelo1 = csrs.regs[GCSR_TLBELO1];
    ctx.gcsr_asid = csrs.regs[GCSR_ASID];
    ctx.gcsr_pgdl = csrs.regs[GCSR_PGDL];
    ctx.gcsr_pgdh = csrs.regs[GCSR_PGDH];
    ctx.gcsr_pgd = csrs.regs[GCSR_PGD];
    ctx.gcsr_pwcl = csrs.regs[GCSR_PWCL];
    ctx.gcsr_pwch = csrs.regs[GCSR_PWCH];
    ctx.gcsr_stlbps = csrs.regs[GCSR_STLBPS];
    ctx.gcsr_ravcfg = csrs.regs[GCSR_RAVCFG];
    ctx.gcsr_cpuid = csrs.regs[GCSR_CPUID];
    ctx.gcsr_prcfg1 = csrs.regs[GCSR_PRCFG1];
    ctx.gcsr_prcfg2 = csrs.regs[GCSR_PRCFG2];
    ctx.gcsr_prcfg3 = csrs.regs[GCSR_PRCFG3];
    ctx.gcsr_save0 = csrs.regs[GCSR_SAVE0];
    ctx.gcsr_save1 = csrs.regs[GCSR_SAVE1];
    ctx.gcsr_save2 = csrs.regs[GCSR_SAVE2];
    ctx.gcsr_save3 = csrs.regs[GCSR_SAVE3];
    ctx.gcsr_save4 = csrs.regs[GCSR_SAVE4];
    ctx.gcsr_save5 = csrs.regs[GCSR_SAVE5];
    ctx.gcsr_save6 = csrs.regs[GCSR_SAVE6];
    ctx.gcsr_save7 = csrs.regs[GCSR_SAVE7];
    ctx.gcsr_save8 = csrs.regs[GCSR_SAVE8];
    ctx.gcsr_save9 = csrs.regs[GCSR_SAVE9];
    ctx.gcsr_save10 = csrs.regs[GCSR_SAVE10];
    ctx.gcsr_save11 = csrs.regs[GCSR_SAVE11];
    ctx.gcsr_save12 = csrs.regs[GCSR_SAVE12];
    ctx.gcsr_save13 = csrs.regs[GCSR_SAVE13];
    ctx.gcsr_save14 = csrs.regs[GCSR_SAVE14];
    ctx.gcsr_save15 = csrs.regs[GCSR_SAVE15];
    ctx.gcsr_tid = csrs.regs[GCSR_TID];
    ctx.gcsr_tcfg = csrs.regs[GCSR_TCFG];
    ctx.gcsr_tval = csrs.regs[GCSR_TVAL];
    ctx.gcsr_cntc = csrs.regs[GCSR_CNTC];
    ctx.gcsr_ticlr = csrs.regs[GCSR_TICLR];
    ctx.gcsr_llbctl = csrs.regs[GCSR_LLBCTL];
    ctx.gcsr_tlbrentry = csrs.regs[GCSR_TLBRENTRY];
    ctx.gcsr_tlbrbadv = csrs.regs[GCSR_TLBRBADV];
    ctx.gcsr_tlbrera = csrs.regs[GCSR_TLBRERA];
    ctx.gcsr_tlbrsave = csrs.regs[GCSR_TLBRSAVE];
    ctx.gcsr_tlbrelo0 = csrs.regs[GCSR_TLBRELO0];
    ctx.gcsr_tlbrelo1 = csrs.regs[GCSR_TLBRELO1];
    ctx.gcsr_tlbrehi = csrs.regs[GCSR_TLBREHI];
    ctx.gcsr_tlbrprmd = csrs.regs[GCSR_TLBRPRMD];
    ctx.gcsr_dmw0 = csrs.regs[GCSR_DMW0];
    ctx.gcsr_dmw1 = csrs.regs[GCSR_DMW1];
    ctx.gcsr_dmw2 = csrs.regs[GCSR_DMW2];
    ctx.gcsr_dmw3 = csrs.regs[GCSR_DMW3];
}

/// The guest CSRs after the context is written back on trap return: every
/// saved CSR but `ESTAT` and the timer CSRs (`TID`, `TCFG`, `TVAL`, `CNTC`,
/// `TICLR`), which keep their current values.
pub open spec fn restored_gcsrs(csrs: GuestCsrs, ctx: ZoneContext) -> Seq<u64> {
    csrs.regs@
        .update(GCSR_CRMD as int, ctx.gcsr_crmd)
        .update(GCSR_PRMD as int, ctx.gcsr_prmd)
        .update(GCSR_EUEN as int, ctx.gcsr_euen)
        .update(GCSR_MISC as int, ctx.gcsr_misc)
        .update(GCSR_ECTL as int, ctx.gcsr_ectl)
        .update(GCSR_ERA as int, ctx.gcsr_era)
        .update(GCSR_BADV as int, ctx.gcsr_badv)
        .update(GCSR_BADI as int, ctx.gcsr_badi)
        .update(GCSR_EENTRY as int, ctx.gcsr_eentry)
        .update(GCSR_TLBIDX as int, ctx.gcsr_tlbidx)
        .update(GCSR_TLBEHI as int, ctx.gcsr_tlbehi)
        .update(GCSR_TLBELO0 as int, ctx.gcsr_tlbelo0)
        .update(GCSR_TLBELO1 as int, ctx.gcsr_tlbelo1)
        .update(GCSR_ASID as int, ctx.gcsr_asid)
        .update(GCSR_PGDL as int, ctx.gcsr_pgdl)
        .update(GCSR_PGDH as int, ctx.gcsr_pgdh)
        .update(GCSR_PGD as int, ctx.gcsr_pgd)
        .update(GCSR_PWCL as int, ctx.gcsr_pwcl)
        .update(GCSR_PWCH as int, ctx.gcsr_pwch)
        .update(GCSR_STLBPS as int, ctx.gcsr_stlbps)
        .update(GCSR_RAVCFG as int, ctx.gcsr_ravcfg)
        .update(GCSR_CPUID as int, ctx.gcsr_cpuid)
        .update(GCSR_PRCFG1 as int, ctx.gcsr_prcfg1)
        .update(GCSR_PRCFG2 as int, ctx.gcsr_prcfg2)
        .update(GCSR_PRCFG3 as int, ctx.gcsr_prcfg3)
        .update(GCSR_SAVE0 as int, ctx.gcsr_save0)
        .update(GCSR_SAVE1 as int, ctx.gcsr_save1)
        .update(GCSR_SAVE2 as int, ctx.gcsr_save2)
        .update(GCSR_SAVE3 as int, ctx.gcsr_save3)
        .update(GCSR_SAVE4 as int, ctx.gcsr_save4)
        .update(GCSR_SAVE5 as int, ctx.gcsr_save5)
        .update(GCSR_SAVE6 as int, ctx.gcsr_save6)
        .update(GCSR_SAVE7 as int, ctx.gcsr_save7)
        .update(GCSR_SAVE8 as int, ctx.gcsr_save8)
        .update(GCSR_SAVE9 as int, ctx.gcsr_save9)
        .update(GCSR_SAVE10 as int, ctx.gcsr_save10)
        .update(GCSR_SAVE11 as int, ctx.gcsr_save11)
        .update(GCSR_SAVE12 as int, ctx.gcsr_save12)
        .update(GCSR_SAVE13 as int, ctx.gcsr_save13)
        .update(GCSR_SAVE14 as int, ctx.gcsr_save14)
        .update(GCSR_SAVE15 as int, ctx.gcsr_save15)
        .update(GCSR_LLBCTL as int, ctx.gcsr_llbctl)
        .update(GCSR_TLBRENTRY as int, ctx.gcsr_tlbrentry)
        .update(GCSR_TLBRBADV as int, ctx.gcsr_tlbrbadv)
        .update(GCSR_TLBRERA as int, ctx.gcsr_tlbrera)
        .update(GCSR_TLBRSAVE as int, ctx.gcsr_tlbrsave)
        .update(GCSR_TLBRELO0 as int, ctx.gcsr_tlbrelo0)
        .update(GCSR_TLBRELO1 as int, ctx.gcsr_tlbrelo1)
        .update(GCSR_TLBREHI as int, ctx.gcsr_tlbrehi)
        .update(GCSR_TLBRPRMD as int, ctx.gcsr_tlbrprmd)
        .update(GCSR_DMW0 as int, ctx.gcsr_dmw0)
        .update(GCSR_DMW1 as int, ctx.gcsr_dmw1)
        .update(GCSR_DMW2 as int, ctx.gcsr_dmw2)
        .update(GCSR_DMW3 as int, ctx.gcsr_dmw3)
}

/// Writes the context's guest CSRs back, as trap return does.
pub fn restore_gcsrs(ctx: &ZoneContext, csrs: &mut GuestCsrs)
    ensures
        final(csrs).regs@ == restored_gcsrs(*old(csrs), *ctx),
{
    write_gcsr(csrs, GCSR_CRMD, ctx.gcsr_crmd);
    write_gcsr(csrs, GCSR_PRMD, ctx.gcsr_prmd);
    write_gcsr(csrs, GCSR_EUEN, ctx.gcsr_euen);
    write_gcsr(csrs, GCSR_MISC, ctx.gcsr_misc);
    write_gcsr(csrs, GCSR_ECTL, ctx.gcsr_ectl);
    write_gcsr(csrs, GCSR_ERA, ctx.gcsr_era);
    write_gcsr(csrs, GCSR_BADV, ctx.gcsr_badv);
    write_gcsr(csrs, GCSR_BADI, ctx.gcsr_badi);
    write_gcsr(csrs, GCSR_EENTRY, ctx.gcsr_eentry);
    write_gcsr(csrs, GCSR_TLBIDX, ctx.gcsr_tlbidx);
    write_gcsr(csrs, GCSR_TLBEHI, ctx.gcsr_tlbehi);
    write_gcsr(csrs, GCSR_TLBELO0, ctx.gcsr_tlbelo0);
    write_gcsr(csrs, GCSR_TLBELO1, ctx.gcsr_tlbelo1);
    write_gcsr(csrs, GCSR_ASID, ctx.gcsr_asid);
    write_gcsr(csrs, GCSR_PGDL, ctx.gcsr_pgdl);
    write_gcsr(csrs, GCSR_PGDH, ctx.gcsr_pgdh);
    write_gcsr(csrs, GCSR_PGD, ctx.gcsr_pgd);
    write_gcsr(csrs, GCSR_PWCL, ctx.gcsr_pwcl);
    write_gcsr(csrs, GCSR_PWCH, ctx.gcsr_pwch);
    write_gcsr(csrs, GCSR_STLBPS, ctx.gcsr_stlbps);
    write_gcsr(csrs, GCSR_RAVCFG, ctx.gcsr_ravcfg);
    write_gcsr(csrs, GCSR_CPUID, ctx.gcsr_cpuid);
    write_gcsr(csrs, GCSR_PRCFG1, ctx.gcsr_prcfg1);
    write_gcsr(csrs, GCSR_PRCFG2, ctx.gcsr_prcfg2);
    write_gcsr(csrs, GCSR_PRCFG3, ctx.gcsr_prcfg3);
    write_gcsr(csrs, GCSR_SAVE0, ctx.gcsr_save0);
    write_gcsr(csrs, GCSR_SAVE1, ctx.gcsr_save1);
    write_gcsr(csrs, GCSR_SAVE2, ctx.gcsr_save2);
    write_gcsr(csrs, GCSR_SAVE3, ctx.gcsr_save3);
    write_gcsr(csrs, GCSR_SAVE4, ctx.gcsr_save4);
    write_gcsr(csrs, GCSR_SAVE5, ctx.gcsr_save5);
    write_gcsr(csrs, GCSR_SAVE6, ctx.gcsr_save6);
    write_gcsr(csrs, GCSR_SAVE7, ctx.gcsr_save7);
    write_gcsr(csrs, GCSR_SAVE8, ctx.gcsr_save8);
    write_gcsr(csrs, GCSR_SAVE9, ctx.gcsr_save9);
    write_gcsr(csrs, GCSR_SAVE10, ctx.gcsr_save10);
    write_gcsr(csrs, GCSR_SAVE11, ctx.gcsr_save11);
    write_gcsr(csrs, GCSR_SAVE12, ctx.gcsr_save12);
    write_gcsr(csrs, GCSR_SAVE13, ctx.gcsr_save13);
    write_gcsr(csrs, GCSR_SAVE14, ctx.gcsr_save14);
    write_gcsr(csrs, GCSR_SAVE15, ctx.gcsr_save15);
    write_gcsr(csrs, GCSR_LLBCTL, ctx.gcsr_llbctl);
    write_gcsr(csrs, GCSR_TLBRENTRY, ctx.gcsr_tlbrentry);
    write_gcsr(csrs, GCSR_TLBRBADV, ctx.gcsr_tlbrbadv);
    write_gcsr(csrs, GCSR_TLBRERA, ctx.gcsr_tlbrera);
    write_gcsr(csrs, GCSR_TLBRSAVE, ctx.gcsr_tlbrsave);
    write_gcsr(csrs, GCSR_TLBRELO0, ctx.gcsr_tlbrelo0);
    write_gcsr(csrs, GCSR_TLBRELO1, ctx.gcsr_tlbrelo1);
    write_gcsr(csrs, GCSR_TLBREHI, ctx.gcsr_tlbrehi);
    write_gcsr(csrs, GCSR_TLBRPRMD, ctx.gcsr_tlbrprmd);
    write_gcsr(csrs, GCSR_DMW0, ctx.gcsr_dmw0);
    write_gcsr(csrs, GCSR_DMW1, ctx.gcsr_dmw1);
    write_gcsr(csrs, GCSR_DMW2, ctx.gcsr_dmw2);
    write_gcsr(csrs, GCSR_DMW3, ctx.gcsr_dmw3);
}

/// A fresh context whose guest-CSR copy holds the guest CSRs as they are
/// now, taken before any guest runs to learn their reset values.
pub fn dump_reset_gcsrs(csrs: &GuestCsrs) -> (r: ZoneContext)
    ensures
        forall|i: int| 0 <= i < 32 ==> #[trigger] r.x@[i] == 0,
        r.sepc == 0,
        r.gcsr_crmd == csrs.csr(GCSR_CRMD),
        r.gcsr_prmd == csrs.csr(GCSR_PRMD),
        r.gcsr_euen == csrs.csr(GCSR_EUEN),
        r.gcsr_misc == csrs.csr(GCSR_MISC),
        r.gcsr_ectl == csrs.csr(GCSR_ECTL),
        r.gcsr_estat == csrs.csr(GCSR_ESTAT),
        r.gcsr_era == csrs.csr(GCSR_ERA),
        r.gcsr_badv == csrs.csr(GCSR_BADV),
        r.gcsr_badi == csrs.csr(GCSR_BADI),
        r.gcsr_eentry == csrs.csr(GCSR_EENTRY),
        r.gcsr_tlbidx == csrs.csr(GCSR_TLBIDX),
        r.gcsr_tlbehi == csrs.csr(GCSR_TLBEHI),
        r.gcsr_tlbelo0 == csrs.csr(GCSR_TLBELO0),
        r.gcsr_tlbelo1 == csrs.csr(GCSR_TLBELO1),
        r.gcsr_asid == csrs.csr(GCSR_ASID),
        r.gcsr_pgdl == csrs.csr(GCSR_PGDL),
        r.gcsr_pgdh == csrs.csr(GCSR_PGDH),
        r.gcsr_pgd == csrs.csr(GCSR_PGD),
        r.gcsr_pwcl == csrs.csr(GCSR_PWCL),
        r.gcsr_pwch == csrs.csr(GCSR_PWCH),
        r.gcsr_stlbps == csrs.csr(GCSR_STLBPS),
        r.gcsr_ravcfg == csrs.csr(GCSR_RAVCFG),
        r.gcsr_cpuid == csrs.csr(GCSR_CPUID),
        r.gcsr_prcfg1 == csrs.csr(GCSR_PRCFG1),
        r.gcsr_prcfg2 == csrs.csr(GCSR_PRCFG2),
        r.gcsr_prcfg3 == csrs.csr(GCSR_PRCFG3),
        r.gcsr_save0 == csrs.csr(GCSR_SAVE0),
        r.gcsr_save1 == csrs.csr(GCSR_SAVE1),
        r.gcsr_save2 == csrs.csr(GCSR_SAVE2),
        r.gcsr_save3 == csrs.csr(GCSR_SAVE3),
        r.gcsr_save4 == csrs.csr(GCSR_SAVE4),
        r.gcsr_save5 == csrs.csr(GCSR_SAVE5),
        r.gcsr_save6 == csrs.csr(GCSR_SAVE6),
        r.gcsr_save7 == csrs.csr(GCSR_SAVE7),
        r.gcsr_save8 == csrs.csr(GCSR_SAVE8),
        r.gcsr_save9 == csrs.csr(GCSR_SAVE9),
        r.gcsr_save10 == csrs.csr(GCSR_SAVE10),
        r.gcsr_save11 == csrs.csr(GCSR_SAVE11),
        r.gcsr_save12 == csrs.csr(GCSR_SAVE12),
        r.gcsr_save13 == csrs.csr(GCSR_SAVE13),
        r.gcsr_save14 == csrs.csr(GCSR_SAVE14),
        r.gcsr_save15 == csrs.csr(GCSR_SAVE15),
        r.gcsr_tid == csrs.csr(GCSR_TID),
        r.gcsr_tcfg == csrs.csr(GCSR_TCFG),
        r.gcsr_tval == csrs.csr(GCSR_TVAL),
        r.gcsr_cntc == csrs.csr(GCSR_CNTC),
        r.gcsr_ticlr == csrs.csr(GCSR_TICLR),
        r.gcsr_llbctl == csrs.csr(GCSR_LLBCTL),
        r.gcsr_tlbrentry == csrs.csr(GCSR_TLBRENTRY),
        r.gcsr_tlbrbadv == csrs.csr(GCSR_TLBRBADV),
        r.gcsr_tlbrera == csrs.csr(GCSR_TLBRERA),
        r.gcsr_tlbrsave == csrs.csr(GCSR_TLBRSAVE),
        r.gcsr_tlbrelo0 == csrs.csr(GCSR_TLBRELO0),
        r.gcsr_tlbrelo1 == csrs.csr(GCSR_TLBRELO1),
        r.gcsr_tlbrehi == csrs.csr(GCSR_TLBREHI),
        r.gcsr_tlbrprmd == csrs.csr(GCSR_TLBRPRMD),
        r.gcsr_dmw0 == csrs.csr(GCSR_DMW0),
        r.gcsr_dmw1 == csrs.csr(GCSR_DMW1),
        r.gcsr_dmw2 == csrs.csr(GCSR_DMW2),
        r.gcsr_dmw3 == csrs.csr(GCSR_DMW3),
{
    let mut ctx = ZoneContext::new();
    ctx.gcsr_crmd = read_gcsr_crmd(csrs);
    ctx.gcsr_prmd = read_gcsr_prmd(csrs);
    ctx.gcsr_euen = read_gcsr_euen(csrs);
    ctx.gcsr_misc = read_gcsr_misc(csrs);
    ctx.gcsr_ectl = read_gcsr_ectl(csrs);
    ctx.gcsr_estat = read_gcsr_estat(csrs);
    ctx.gcsr_era = read_gcsr_era(csrs);
    ctx.gcsr_badv = read_gcsr_badv(csrs);
    ctx.gcsr_badi = read_gcsr_badi(csrs);
    ctx.gcsr_eentry = read_gcsr_eentry(csrs);
    ctx.gcsr_tlbidx = read_gcsr_tlbidx(csrs);
    ctx.gcsr_tlbehi = read_gcsr_tlbehi(csrs);
    ctx.gcsr_tlbelo0 = read_gcsr_tlbelo0(csrs);
    ctx.gcsr_tlbelo1 = read_gcsr_tlbelo1(csrs);
    ctx.gcsr_asid = read_gcsr_asid(csrs);
    ctx.gcsr_pgdl = read_gcsr_pgdl(csrs);
    ctx.gcsr_pgdh = read_gcsr_pgdh(csrs);
    ctx.gcsr_pgd = read_gcsr_pgd(csrs);
    ctx.gcsr_pwcl = read_gcsr_pwcl(csrs);
    ctx.gcsr_pwch = read_gcsr_pwch(csrs);
    ctx.gcsr_stlbps = read_gcsr_stlbps(csrs);
    ctx.gcsr_ravcfg = read_gcsr_ravcfg(csrs);
    ctx.gcsr_cpuid = read_gcsr_cpuid(csrs);
    ctx.gcsr_prcfg1 = read_gcsr_prcfg1(csrs);
    ctx.gcsr_prcfg2 = read_gcsr_prcfg2(csrs);
    ctx.gcsr_prcfg3 = read_gcsr_prcfg3(csrs);
    ctx.gcsr_save0 = read_gcsr_save0(csrs);
    ctx.gcsr_save1 = read_gcsr_save1(csrs);
    ctx.gcsr_save2 = read_gcsr_save2(csrs);
    ctx.gcsr_save3 = read_gcsr_save3(csrs);
    ctx.gcsr_save4 = read_gcsr_save4(csrs);
    ctx.gcsr_save5 = read_gcsr_save5(csrs);
    ctx.gcsr_save6 = read_gcsr_save6(csrs);
    ctx.gcsr_save7 = read_gcsr_save7(csrs);
    ctx.gcsr_save8 = read_gcsr_save8(csrs);
    ctx.gcsr_save9 = read_gcsr_save9(csrs);
    ctx.gcsr_save10 = read_gcsr_save10(csrs);
    ctx.gcsr_save11 = read_gcsr_save11(csrs);
    ctx.gcsr_save12 = read_gcsr_save12(csrs);
    ctx.gcsr_save13 = read_gcsr_save13(csrs);
    ctx.gcsr_save14 = read_gcsr_save14(csrs);
    ctx.gcsr_save15 = read_gcsr_save15(csrs);
    ctx.gcsr_tid = read_gcsr_tid(csrs);
    ctx.gcsr_tcfg = read_gcsr_tcfg(csrs);
    ctx.gcsr_tval = read_gcsr_tval(csrs);
    ctx.gcsr_cntc = read_gcsr_cntc(csrs);
    ctx.gcsr_ticlr = read_gcsr_ticlr(csrs);
    ctx.gcsr_llbctl = read_gcsr_llbctl(csrs);
    ctx.gcsr_tlbrentry = read_gcsr_tlbrentry(csrs);
    ctx.gcsr_tlbrbadv = read_gcsr_tlbrbadv(csrs);
    ctx.gcsr_tlbrera = read_gcsr_tlbrera(csrs);
    ctx.gcsr_tlbrsave = read_gcsr_tlbrsave(csrs);
    ctx.gcsr_tlbrelo0 = read_gcsr_tlbrrelo0(csrs);
    ctx.gcsr_tlbrelo1 = read_gcsr_tlbrrelo1(csrs);
    ctx.gcsr_tlbrehi = read_gcsr_tlbrrehi(csrs);
    ctx.gcsr_tlbrprmd = read_gcsr_tlbrprmd(csrs);
    ctx.gcsr_dmw0 = read_gcsr_dmw0(csrs);
    ctx.gcsr_dmw1 = read_gcsr_dmw1(csrs);
    ctx.gcsr_dmw2 = read_gcsr_dmw2(csrs);
    ctx.gcsr_dmw3 = read_gcsr_dmw3(csrs);
    ctx
}

} // verus!
