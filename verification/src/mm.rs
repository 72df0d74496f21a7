//! Architecture hooks of the memory set-up.
use vstd::prelude::*;

verus! {

/// LoongArch64 has no physical-address range to configure: nothing to do.
pub fn arch_setup_parange() {
}

/// LoongArch64 needs no work once the heap is up: nothing to do.
pub fn arch_post_heap_init(host_dtb: usize) {
}

} // verus!
