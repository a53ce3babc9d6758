//! The boot trampoline, as a computation on plain values: from the state in
//! which the firmware leaves the hart to the state in which the entry
//! routine is entered.
//!
//! The trampoline itself is a handful of instructions that run before any
//! stack exists.  Its register convention: `a0` and `a1` arrive with the hart
//! identifier and the device-tree pointer and are kept in `s0` and `s1`
//! while the tables are built and translation comes on; `sp` is pointed at
//! the top of the boot stack before anything is called; after the switch `sp`
//! and the address to jump to are those of [`Handoff`]; `a0` and `a1` are
//! restored before the jump.  The trampoline does not return.

use vstd::prelude::*;
use crate::boot_map::{
    boot_mapped, boot_slot, entry, frame_aligned, frame_fits, lemma_frame_end, pre_mmu,
    tables_addressable, BLOCK_SIZE, BOOT_TABLES,
};
use crate::mmu::{
    activation, enable_mmu, fixup, lemma_fixup_translates, post_mmu, scheme_for_width,
    scheme_of_width, ConfigError, MmuActivation, Registers,
};
use crate::paging::{Scheme, PAGE_KERNEL_BLOCK, PAGE_TABLE_ENTRIES};
use crate::walk::{translation, Translation};

verus! {

/// Size of the boot stack in bytes.
pub const TASK_STACK_SIZE: u64 = 0x40000;

/// Where the link has put what the trampoline works with.  All addresses are
/// physical.
#[derive(Clone, Copy, Debug, PartialEq, Eq, Structural)]
pub struct BootLayout {
    /// First byte of the boot stack.
    pub boot_stack: u64,
    /// First instruction of the entry routine.
    pub rust_entry: u64,
    /// First byte of the boot tables; the root comes first.
    pub tables_paddr: u64,
    /// First byte of the one-gibibyte frame that holds the kernel image.
    pub phys_base: u64,
}

/// The state in which the entry routine is entered.
#[derive(Clone, Copy, Debug, PartialEq, Eq, Structural)]
pub struct Handoff {
    /// Identifier of the hart, as the firmware passed it.
    pub cpu_id: usize,
    /// Address of the device-tree blob, as the firmware passed it.
    pub dtb: usize,
    /// How translation was switched on.
    pub mmu: MmuActivation,
    /// The stack pointer: the top of the boot stack, in the linear window.
    pub sp: u64,
    /// The address jumped to: the entry routine, in the linear window.
    pub entry: u64,
}

/// The address one past the last byte of the boot stack.
pub open spec fn stack_top(layout: BootLayout) -> u64 {
    ((layout.boot_stack + TASK_STACK_SIZE) % 0x1_0000_0000_0000_0000) as u64
}

/// The address `below` bytes under `sp`, where a push of that size lands.
/// The difference wraps as the processor's does.
pub open spec fn under(sp: u64, below: u64) -> u64 {
    ((sp - below) % 0x1_0000_0000_0000_0000) as u64
}

/// The hand-off that booting with `scheme` ends in.
pub open spec fn handoff(cpu_id: usize, dtb: usize, scheme: Scheme, layout: BootLayout) -> Handoff {
    Handoff {
        cpu_id,
        dtb,
        mmu: activation(scheme, layout.tables_paddr),
        sp: fixup(stack_top(layout)),
        entry: fixup(layout.rust_entry),
    }
}

/// Runs the boot sequence: sets up the stack, builds the boot tables,
/// switches translation on, moves the stack pointer into the linear window
/// and works out where to enter the kernel.
///
/// With an unsupported address width nothing is built and nothing is to be
/// committed.
pub fn start(
    cpu_id: usize,
    dtb: usize,
    va_bits: usize,
    layout: &BootLayout,
    tables: &mut [[u64; 512]; 3],
) -> (outcome: Result<Handoff, ConfigError>)
    requires
        frame_fits(layout.phys_base),
        layout.tables_paddr < 0x100_0000_0000_0000,
    ensures
        match scheme_of_width(va_bits) {
            Some(scheme) => {
                &&& outcome == Ok::<Handoff, ConfigError>(handoff(cpu_id, dtb, scheme, *layout))
                &&& boot_mapped(scheme, *final(tables), layout.tables_paddr, layout.phys_base)
                &&& forall|t: int, i: int|
                    0 <= t < BOOT_TABLES && 0 <= i < PAGE_TABLE_ENTRIES && !boot_slot(
                        scheme,
                        layout.phys_base,
                        t,
                        i,
                    ) ==> #[trigger] entry(*final(tables), t, i) == entry(*old(tables), t, i)
            },
            None => {
                &&& outcome == Err::<Handoff, ConfigError>(ConfigError::UnsupportedWidth(va_bits))
                &&& *final(tables) == *old(tables)
            },
        },
{
    // keep the boot arguments out of the way of the calls
    let saved_cpu_id = cpu_id;
    let saved_dtb = dtb;
    let scheme = match scheme_for_width(va_bits) {
        Ok(scheme) => scheme,
        Err(e) => {
            return Err(e);
        },
    };
    // the stack grows down from the end of its buffer
    let sp: u64 = layout.boot_stack.wrapping_add(TASK_STACK_SIZE);
    pre_mmu(scheme, tables, layout.tables_paddr, layout.phys_base);
    let mmu = match enable_mmu(va_bits, layout.tables_paddr) {
        Ok(mmu) => mmu,
        Err(e) => {
            return Err(e);
        },
    };
    // from here on the stack and the code are reached through the linear
    // window; the next address control goes to is the entry routine's
    let mut regs = Registers { sp, ra: layout.rust_entry };
    post_mmu(&mut regs);
    Ok(Handoff { cpu_id: saved_cpu_id, dtb: saved_dtb, mmu, sp: regs.sp, entry: regs.ra })
}

/// After booting, every byte of the boot stack is reached through the stack
/// pointer that was handed over, provided that the stack lies inside the
/// mapped frame.
pub proof fn lemma_stack_reachable(
    scheme: Scheme,
    tables: [[u64; 512]; 3],
    layout: BootLayout,
    below: u64,
)
    requires
        boot_mapped(scheme, tables, layout.tables_paddr, layout.phys_base),
        frame_fits(layout.phys_base),
        frame_aligned(layout.phys_base),
        tables_addressable(layout.tables_paddr),
        layout.phys_base <= layout.boot_stack,
        layout.boot_stack + TASK_STACK_SIZE <= layout.phys_base + BLOCK_SIZE,
        0 < below <= TASK_STACK_SIZE,
    ensures
        translation(
            scheme,
            tables,
            layout.tables_paddr,
            under(fixup(stack_top(layout)), below),
        ) == Some(
            Translation {
                paddr: (layout.boot_stack + TASK_STACK_SIZE - below) as u64,
                flags: PAGE_KERNEL_BLOCK,
            },
        ),
{
    let addr = (layout.boot_stack + TASK_STACK_SIZE - below) as u64;
    lemma_frame_end(layout.phys_base);
    lemma_fixup_translates(scheme, tables, layout.tables_paddr, layout.phys_base, addr);
    assert(under(fixup(stack_top(layout)), below) == fixup(addr));
}

/// After booting, the address jumped to is that of the entry routine,
/// provided that the routine lies inside the mapped frame.
pub proof fn lemma_entry_reachable(scheme: Scheme, tables: [[u64; 512]; 3], layout: BootLayout)
    requires
        boot_mapped(scheme, tables, layout.tables_paddr, layout.phys_base),
        frame_fits(layout.phys_base),
        frame_aligned(layout.phys_base),
        tables_addressable(layout.tables_paddr),
        layout.phys_base <= layout.rust_entry < layout.phys_base + BLOCK_SIZE,
    ensures
        translation(scheme, tables, layout.tables_paddr, fixup(layout.rust_entry)) == Some(
            Translation { paddr: layout.rust_entry, flags: PAGE_KERNEL_BLOCK },
        ),
{
    lemma_fixup_translates(
        scheme,
        tables,
        layout.tables_paddr,
        layout.phys_base,
        layout.rust_entry,
    );
}

} // verus!
