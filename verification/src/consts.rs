//! Architectural constants of LoongArch64 and the LVZ extension.
use vstd::prelude::*;

verus! {

/// Exception code: interrupt.
pub const ECODE_INT: u64 = 0x0;

/// Exception code: page illegal on load.
pub const ECODE_PIL: u64 = 0x1;

/// Exception code: page illegal on store.
pub const ECODE_PIS: u64 = 0x2;

/// Exception code: page not readable.
pub const ECODE_PNR: u64 = 0x5;

/// Exception code: guest sensitive privileged resource.
pub const ECODE_GSPR: u64 = 0x16;

/// Exception code: hypervisor call.
pub const ECODE_HVC: u64 = 0x17;

/// Interrupt index of software interrupt 0.
pub const INT_SWI0: u64 = 0;

/// Interrupt index of software interrupt 1.
pub const INT_SWI1: u64 = 1;

/// Interrupt index of the first hardware interrupt line.
pub const INT_HWI0: u64 = 2;

/// Interrupt index of the last hardware interrupt line.
pub const INT_HWI7: u64 = 9;

/// Interrupt index of the stable timer.
pub const INT_TIMER: u64 = 11;

/// Interrupt index of the inter-processor interrupt.
pub const INT_IPI: u64 = 12;

/// `ESTAT.IS` bit of the inter-processor interrupt.
pub const IPI_BIT: u64 = 1 << 12;

/// `ESTAT.IS` bit of the stable timer.
pub const TIMER_BIT: u64 = 1 << 11;

/// `ESTAT.IS` bits of the eight hardware interrupt lines.
pub const HWI_MASK: u64 = 0b11_1111_1100;

/// Instruction word of `idle 0`, which a guest traps on with `GSPR`.
pub const IDLE_INSTRUCTION: u64 = 0b0000_0110_0100_1000_1000_0000_0000_0000;

/// Major opcode of `cpucfg`.
pub const OPCODE_CPUCFG: u64 = 0b0000000000000000011011;

/// Length in bits of the `cpucfg` opcode.
pub const OPCODE_CPUCFG_LENGTH: u64 = 22;

/// Major opcode of `cacop`.
pub const OPCODE_CACOP: u64 = 0b0000011000;

/// Length in bits of the `cacop` opcode.
pub const OPCODE_CACOP_LENGTH: u64 = 10;

/// Major opcode of `idle`.
pub const OPCODE_IDLE: u64 = 0b00000_11001_0010001;

/// Length in bits of the `idle` opcode.
pub const OPCODE_IDLE_LENGTH: u64 = 17;

/// Major opcode of `csrrd`/`csrwr`/`csrxchg`.
pub const OPCODE_CSRX: u64 = 0b00000100;

/// Length in bits of the CSR-access opcode.
pub const OPCODE_CSRX_LENGTH: u64 = 8;

/// Major opcode of `iocsrrd.*`/`iocsrwr.*`.
pub const OPCODE_IOCSR: u64 = 0b00000_11001_001000000;

/// Length in bits of the IOCSR-access opcode.
pub const OPCODE_IOCSR_LENGTH: u64 = 19;

/// Major opcode of `ld.b`.
pub const OPCODE_LD_B: u64 = 0b0010100000;

/// Length in bits of the `ld.b` opcode.
pub const OPCODE_LD_B_LENGTH: u64 = 10;

/// Major opcode of `st.b`.
pub const OPCODE_ST_B: u64 = 0b0010100100;

/// Length in bits of the `st.b` opcode.
pub const OPCODE_ST_B_LENGTH: u64 = 10;

/// Major opcode of `ld.bu`.
pub const OPCODE_LD_BU: u64 = 0b0010101000;

/// Length in bits of the `ld.bu` opcode.
pub const OPCODE_LD_BU_LENGTH: u64 = 10;

/// Physical base of the IOCSR space as the MMIO emulation sees it.
pub const IOCSR_BASE_ADDR_PHY: u64 = 0x1fe0_0000;

/// Number of `cpucfg` words the hardware defines.
pub const MAX_CPUCFG_REGS: u64 = 21;

/// Direct-mapped window prefix of cached accesses.
pub const LOONGARCH64_CACHED_DMW_PREFIX: u64 = 0x9000_0000_0000_0000;

/// Direct-mapped window prefix of uncached accesses.
pub const LOONGARCH64_UNCACHED_DMW_PREFIX: u64 = 0x8000_0000_0000_0000;

/// Mask of the physical-address bits of a direct-mapped address.
pub const LOONGARCH64_PHY_ADDR_MASK: u64 = 0x0000_ffff_ffff_ffff;

/// IPI status of the software-generated IPI that carries hypervisor events.
pub const SGI_IPI_ID: u64 = 7;

/// IPI status asking a CPU to start a vCPU.
pub const HVISOR_START_VCPU: u64 = 0x8;

/// Number of CPUs the hypervisor manages.
pub const MAX_CPU_NUM: usize = 4;

} // verus!
