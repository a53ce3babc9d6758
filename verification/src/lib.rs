//! Early boot runtime for a RISC-V supervisor-mode kernel.
//!
//! The crate holds the parts of the boot path that can be reasoned about as
//! plain computations, and proves what they promise:
//!
//! - [`paging`]: page table entries and table indices;
//! - [`boot_map`]: the boot tables, which map one frame into three windows;
//! - [`walk`]: what those tables translate, as the hardware walks them;
//! - [`mmu`]: what is committed to switch translation on, and the register
//!   fix-up that follows the switch;
//! - [`boot`]: the boot sequence from the reset vector to the entry routine;
//! - [`entry`]: the steps of the entry routine and their order;
//! - [`initcall`]: drivers registered at link time, and their enumeration.
//!
//! Register writes, firmware calls and raw memory are left to the embedding
//! binary, which carries out what the functions here decide.

use vstd::prelude::*;

pub mod boot;
pub mod boot_map;
pub mod entry;
pub mod initcall;
pub mod mmu;
pub mod paging;
pub mod walk;

verus! {

/// Runtime initialisation hook.  The boot path has already done all the work
/// by the time a kernel's `main` runs, so there is nothing left to set up.
pub fn init() {
}

} // verus!
