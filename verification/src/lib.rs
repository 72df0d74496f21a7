//! Verified core of the LoongArch64 (LVZ) trap, instruction-emulation and
//! interrupt-controller logic of the hvisor hypervisor.
//!
//! Machine words are `u64`: the hypervisor runs on a 64-bit machine and its
//! direct-mapped addresses need all 64 bits.
use vstd::prelude::*;

pub mod consts;
pub mod context;
pub mod emulate;
pub mod handler;
pub mod hypercall;
pub mod irq;
pub mod laws;
pub mod mm;
pub mod mmio;
pub mod register;
pub mod time;
pub mod trap;
pub mod utils;

verus! {

} // verus!
