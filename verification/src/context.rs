//! The saved state of a guest vCPU and the records a trap is described by.
use vstd::prelude::*;

verus! {

/// Number of general-purpose registers.
pub const NUM_GPRS: usize = 32;

/// Index of argument register `a0` (`$r4`) in the general-purpose registers.
pub const REG_A0: usize = 4;

/// Index of argument register `a1` (`$r5`).
pub const REG_A1: usize = 5;

/// Index of argument register `a2` (`$r6`).
pub const REG_A2: usize = 6;

/// The register state of a guest: its general-purpose registers, the address
/// it resumes at, and a copy of its guest CSRs.
#[derive(Clone, Copy)]
pub struct ZoneContext {
    pub x: [u64; 32],
    pub sepc: u64,
    pub gcsr_crmd: u64,
    pub gcsr_prmd: u64,
    pub gcsr_euen: u64,
    pub gcsr_misc: u64,
    pub gcsr_ectl: u64,
    pub gcsr_estat: u64,
    pub gcsr_era: u64,
    pub gcsr_badv: u64,
    pub gcsr_badi: u64,
    pub gcsr_eentry: u64,
    pub gcsr_tlbidx: u64,
    pub gcsr_tlbehi: u64,
    pub gcsr_tlbelo0: u64,
    pub gcsr_tlbelo1: u64,
    pub gcsr_asid: u64,
    pub gcsr_pgdl: u64,
    pub gcsr_pgdh: u64,
    pub gcsr_pgd: u64,
    pub gcsr_pwcl: u64,
    pub gcsr_pwch: u64,
    pub gcsr_stlbps: u64,
    pub gcsr_ravcfg: u64,
    pub gcsr_cpuid: u64,
    pub gcsr_prcfg1: u64,
    pub gcsr_prcfg2: u64,
    pub gcsr_prcfg3: u64,
    pub gcsr_save0: u64,
    pub gcsr_save1: u64,
    pub gcsr_save2: u64,
    pub gcsr_save3: u64,
    pub gcsr_save4: u64,
    pub gcsr_save5: u64,
    pub gcsr_save6: u64,
    pub gcsr_save7: u64,
    pub gcsr_save8: u64,
    pub gcsr_save9: u64,
    pub gcsr_save10: u64,
    pub gcsr_save11: u64,
    pub gcsr_save12: u64,
    pub gcsr_save13: u64,
    pub gcsr_save14: u64,
    pub gcsr_save15: u64,
    pub gcsr_tid: u64,
    pub gcsr_tcfg: u64,
    pub gcsr_tval: u64,
    pub gcsr_cntc: u64,
    pub gcsr_ticlr: u64,
    pub gcsr_llbctl: u64,
    pub gcsr_tlbrentry: u64,
    pub gcsr_tlbrbadv: u64,
    pub gcsr_tlbrera: u64,
    pub gcsr_tlbrsave: u64,
    pub gcsr_tlbrelo0: u64,
    pub gcsr_tlbrelo1: u64,
    pub gcsr_tlbrehi: u64,
    pub gcsr_tlbrprmd: u64,
    pub gcsr_dmw0: u64,
    pub gcsr_dmw1: u64,
    pub gcsr_dmw2: u64,
    pub gcsr_dmw3: u64,
}

impl ZoneContext {
    /// Every register of the context is zero.
    pub open spec fn is_zeroed(&self) -> bool {
        &&& forall|i: int| 0 <= i < 32 ==> #[trigger] self.x@[i] == 0
        &&& self.sepc == 0
        &&& self.gcsr_crmd == 0
        &&& self.gcsr_prmd == 0
        &&& self.gcsr_euen == 0
        &&& self.gcsr_misc == 0
        &&& self.gcsr_ectl == 0
        &&& self.gcsr_estat == 0
        &&& self.gcsr_era == 0
        &&& self.gcsr_badv == 0
        &&& self.gcsr_badi == 0
        &&& self.gcsr_eentry == 0
        &&& self.gcsr_tlbidx == 0
        &&& self.gcsr_tlbehi == 0
        &&& self.gcsr_tlbelo0 == 0
        &&& self.gcsr_tlbelo1 == 0
        &&& self.gcsr_asid == 0
        &&& self.gcsr_pgdl == 0
        &&& self.gcsr_pgdh == 0
        &&& self.gcsr_pgd == 0
        &&& self.gcsr_pwcl == 0
        &&& self.gcsr_pwch == 0
        &&& self.gcsr_stlbps == 0
        &&& self.gcsr_ravcfg == 0
        &&& self.gcsr_cpuid == 0
        &&& self.gcsr_prcfg1 == 0
        &&& self.gcsr_prcfg2 == 0
        &&& self.gcsr_prcfg3 == 0
        &&& self.gcsr_save0 == 0
        &&& self.gcsr_save1 == 0
        &&& self.gcsr_save2 == 0
        &&& self.gcsr_save3 == 0
        &&& self.gcsr_save4 == 0
        &&& self.gcsr_save5 == 0
        &&& self.gcsr_save6 == 0
        &&& self.gcsr_save7 == 0
        &&& self.gcsr_save8 == 0
        &&& self.gcsr_save9 == 0
        &&& self.gcsr_save10 == 0
        &&& self.gcsr_save11 == 0
        &&& self.gcsr_save12 == 0
        &&& self.gcsr_save13 == 0
        &&& self.gcsr_save14 == 0
        &&& self.gcsr_save15 == 0
        &&& self.gcsr_tid == 0
        &&& self.gcsr_tcfg == 0
        &&& self.gcsr_tval == 0
        &&& self.gcsr_cntc == 0
        &&& self.gcsr_ticlr == 0
        &&& self.gcsr_llbctl == 0
        &&& self.gcsr_tlbrentry == 0
        &&& self.gcsr_tlbrbadv == 0
        &&& self.gcsr_tlbrera == 0
        &&& self.gcsr_tlbrsave == 0
        &&& self.gcsr_tlbrelo0 == 0
        &&& self.gcsr_tlbrelo1 == 0
        &&& self.gcsr_tlbrehi == 0
        &&& self.gcsr_tlbrprmd == 0
        &&& self.gcsr_dmw0 == 0
        &&& self.gcsr_dmw1 == 0
        &&& self.gcsr_dmw2 == 0
        &&& self.gcsr_dmw3 == 0
    }

    /// An all-zero context.
    pub fn new() -> (r: Self)
        ensures
            r.is_zeroed(),
    {
        ZoneContext {
            x: [0u64; 32],
            sepc: 0,
            gcsr_crmd: 0,
            gcsr_prmd: 0,
            gcsr_euen: 0,
            gcsr_misc: 0,
            gcsr_ectl: 0,
            gcsr_estat: 0,
            gcsr_era: 0,
            gcsr_badv: 0,
            gcsr_badi: 0,
            gcsr_eentry: 0,
            gcsr_tlbidx: 0,
            gcsr_tlbehi: 0,
            gcsr_tlbelo0: 0,
            gcsr_tlbelo1: 0,
            gcsr_asid: 0,
            gcsr_pgdl: 0,
            gcsr_pgdh: 0,
            gcsr_pgd: 0,
            gcsr_pwcl: 0,
            gcsr_pwch: 0,
            gcsr_stlbps: 0,
            gcsr_ravcfg: 0,
            gcsr_cpuid: 0,
            gcsr_prcfg1: 0,
            gcsr_prcfg2: 0,
            gcsr_prcfg3: 0,
            gcsr_save0: 0,
            gcsr_save1: 0,
            gcsr_save2: 0,
            gcsr_save3: 0,
            gcsr_save4: 0,
            gcsr_save5: 0,
            gcsr_save6: 0,
            gcsr_save7: 0,
            gcsr_save8: 0,
            gcsr_save9: 0,
            gcsr_save10: 0,
            gcsr_save11: 0,
            gcsr_save12: 0,
            gcsr_save13: 0,
            gcsr_save14: 0,
            gcsr_save15: 0,
            gcsr_tid: 0,
            gcsr_tcfg: 0,
            gcsr_tval: 0,
            gcsr_cntc: 0,
            gcsr_ticlr: 0,
            gcsr_llbctl: 0,
            gcsr_tlbrentry: 0,
            gcsr_tlbrbadv: 0,
            gcsr_tlbrera: 0,
            gcsr_tlbrsave: 0,
            gcsr_tlbrelo0: 0,
            gcsr_tlbrelo1: 0,
            gcsr_tlbrehi: 0,
            gcsr_tlbrprmd: 0,
            gcsr_dmw0: 0,
            gcsr_dmw1: 0,
            gcsr_dmw2: 0,
            gcsr_dmw3: 0,
        }
    }

    /// Argument register `a0`.
    pub fn get_a0(&self) -> (r: u64)
        ensures
            r == self.x@[REG_A0 as int],
    {
        self.x[REG_A0]
    }

    /// Argument register `a1`.
    pub fn get_a1(&self) -> (r: u64)
        ensures
            r == self.x@[REG_A1 as int],
    {
        self.x[REG_A1]
    }

    /// Argument register `a2`.
    pub fn get_a2(&self) -> (r: u64)
        ensures
            r == self.x@[REG_A2 as int],
    {
        self.x[REG_A2]
    }

    /// Writes argument register `a0`, leaving everything else as it was.
    pub fn set_a0(&mut self, value: u64)
        ensures
            *final(self) == (ZoneContext { x: final(self).x, ..*old(self) }),
            final(self).x@ == old(self).x@.update(REG_A0 as int, value),
    {
        self.x[REG_A0] = value;
    }
}

/// What the trap handler recorded of the last trap taken on a CPU.
#[derive(Clone, Copy)]
pub struct TrapContextHelper {
    pub ecode: u64,
    pub esubcode: u64,
    pub is: u64,
    pub badv: u64,
    pub badi: u64,
    pub era: u64,
}

impl TrapContextHelper {
    /// A record with every field zero.
    pub fn new() -> (r: Self)
        ensures
            r == (TrapContextHelper { ecode: 0, esubcode: 0, is: 0, badv: 0, badi: 0, era: 0 }),
    {
        TrapContextHelper { ecode: 0, esubcode: 0, is: 0, badv: 0, badi: 0, era: 0 }
    }

    /// Overwrites every field of the record.
    pub fn update(
        &mut self,
        ecode: u64,
        esubcode: u64,
        is: u64,
        badv: u64,
        badi: u64,
        era: u64,
    )
        ensures
            *final(self) == (TrapContextHelper { ecode, esubcode, is, badv, badi, era }),
    {
        self.ecode = ecode;
        self.esubcode = esubcode;
        self.is = is;
        self.badv = badv;
        self.badi = badi;
        self.era = era;
    }
}

/// The guest timer as saved when a trap is taken: the counter value at which
/// it expires and its configuration word.
#[derive(Clone, Copy)]
pub struct TimerState {
    pub expire: u64,
    pub cfg: u64,
}

/// A decoded load or store: destination/source register, access width in
/// bytes, direction, whether a load zero-extends, and the value to store.
#[derive(Clone, Copy, PartialEq, Eq, Structural, Debug)]
pub struct LdStInst {
    pub rd: usize,
    pub size: u64,
    pub is_write: bool,
    pub is_u: bool,
    pub value: u64,
}

/// One access to an emulated device register.
#[derive(Clone, Copy, PartialEq, Eq, Structural, Debug)]
pub struct MMIOAccess {
    pub address: u64,
    pub size: u64,
    pub is_write: bool,
    pub value: u64,
}

} // verus!
