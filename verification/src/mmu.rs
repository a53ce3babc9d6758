//! Switching translation on: what goes into the translation-control
//! register, and the register fix-up that follows.

use vstd::prelude::*;
use crate::boot_map::{
    boot_mapped, boot_vaddr, frame_aligned, frame_fits, lemma_frame_end, tables_addressable,
    BLOCK_SIZE, PHYS_VIRT_OFFSET,
};
use crate::paging::{Scheme, PAGE_KERNEL_BLOCK, PAGE_SHIFT};
use crate::walk::{lemma_window_translates, translation, Translation};

verus! {

/// The build was configured for an addressing scheme that the boot path
/// cannot set up.
#[derive(Clone, Copy, Debug, PartialEq, Eq, Structural)]
pub enum ConfigError {
    /// The configured virtual address width, in bits, is neither 39 nor 48.
    UnsupportedWidth(usize),
}

impl ConfigError {
    /// The text to halt with.
    pub fn message(&self) -> (text: &'static str)
        ensures
            text@ == "bad feature. Only support sv39 or sv48!"@,
    {
        "bad feature. Only support sv39 or sv48!"
    }
}

/// What is committed to the translation-control register in one write.
#[derive(Clone, Copy, Debug, PartialEq, Eq, Structural)]
pub struct SatpSetting {
    /// The addressing scheme to switch to.
    pub mode: Scheme,
    /// The address-space identifier.
    pub asid: usize,
    /// The frame number of the root table.
    pub ppn: u64,
}

/// Which cached translations to invalidate.
#[derive(Clone, Copy, Debug, PartialEq, Eq, Structural)]
pub enum TlbFlush {
    /// All of them, for every address space.
    All,
    /// Those of one address in one address space.
    Page { asid: usize, addr: usize },
}

/// How translation is switched on: one write to the translation-control
/// register, and right after it a flush, so that nothing cached by an earlier
/// boot stage is seen.
#[derive(Clone, Copy, Debug, PartialEq, Eq, Structural)]
pub struct MmuActivation {
    /// What to write.
    pub satp: SatpSetting,
    /// What to flush once it is written.
    pub flush: TlbFlush,
}

/// How translation is switched on for `scheme`, with the table at
/// `root_paddr` as the root: address space zero, the root's frame number,
/// and a flush of everything.
pub open spec fn activation(scheme: Scheme, root_paddr: u64) -> MmuActivation {
    MmuActivation {
        satp: SatpSetting { mode: scheme, asid: 0, ppn: root_paddr >> 12 },
        flush: TlbFlush::All,
    }
}

/// The scheme with virtual addresses of `va_bits` bits, if it is supported.
pub open spec fn scheme_of_width(va_bits: usize) -> Option<Scheme> {
    if va_bits == 39 {
        Some(Scheme::Sv39)
    } else if va_bits == 48 {
        Some(Scheme::Sv48)
    } else {
        None
    }
}

/// A physical address after the switch: the same byte, seen through the
/// linear window.  The sum wraps as the processor's adder does.
pub open spec fn fixup(addr: u64) -> u64 {
    ((addr + PHYS_VIRT_OFFSET) % 0x1_0000_0000_0000_0000) as u64
}

/// Resolves the configured address width to a scheme.
pub fn scheme_for_width(va_bits: usize) -> (found: Result<Scheme, ConfigError>)
    ensures
        found == match scheme_of_width(va_bits) {
            Some(scheme) => Ok::<Scheme, ConfigError>(scheme),
            None => Err(ConfigError::UnsupportedWidth(va_bits)),
        },
        found matches Ok(scheme) ==> scheme.va_bits() == va_bits,
{
    if va_bits == 39 {
        Ok(Scheme::Sv39)
    } else if va_bits == 48 {
        Ok(Scheme::Sv48)
    } else {
        Err(ConfigError::UnsupportedWidth(va_bits))
    }
}

/// Decides how to switch translation on with the table at `root_paddr` as
/// the root.  An unsupported width is refused, and then nothing may be
/// written.
///
/// The tables must be complete before the write is made.
pub fn enable_mmu(va_bits: usize, root_paddr: u64) -> (outcome: Result<MmuActivation, ConfigError>)
    requires
        root_paddr < 0x100_0000_0000_0000,
    ensures
        outcome == match scheme_of_width(va_bits) {
            Some(scheme) => Ok::<MmuActivation, ConfigError>(activation(scheme, root_paddr)),
            None => Err(ConfigError::UnsupportedWidth(va_bits)),
        },
        outcome matches Ok(a) ==> a.satp.ppn <= 0xfff_ffff_ffff && (root_paddr % 4096 == 0
            ==> a.satp.ppn * 4096 == root_paddr),
{
    let mode = match scheme_for_width(va_bits) {
        Ok(scheme) => scheme,
        Err(e) => {
            return Err(e);
        },
    };
    let page_table_root: u64 = root_paddr >> PAGE_SHIFT;
    assert(root_paddr < 0x100_0000_0000_0000 ==> root_paddr >> 12 <= 0xfff_ffff_ffff)
        by (bit_vector);
    assert(root_paddr % 4096 == 0 && root_paddr < 0x100_0000_0000_0000 ==> (root_paddr >> 12)
        * 4096 == root_paddr) by (bit_vector);
    Ok(
        MmuActivation {
            satp: SatpSetting { mode, asid: 0, ppn: page_table_root },
            flush: TlbFlush::All,
        },
    )
}

/// The two registers that still hold physical addresses when translation
/// comes on.
#[derive(Clone, Copy, Debug, PartialEq, Eq, Structural)]
pub struct Registers {
    /// Stack pointer.
    pub sp: u64,
    /// Return address.
    pub ra: u64,
}

/// Moves the stack pointer and the return address into the linear window.
/// Applied once: a second application would move them again.
pub fn post_mmu(regs: &mut Registers)
    ensures
        final(regs).sp == fixup(old(regs).sp),
        final(regs).ra == fixup(old(regs).ra),
        old(regs).sp + PHYS_VIRT_OFFSET <= u64::MAX ==> final(regs).sp == old(regs).sp
            + PHYS_VIRT_OFFSET,
        old(regs).ra + PHYS_VIRT_OFFSET <= u64::MAX ==> final(regs).ra == old(regs).ra
            + PHYS_VIRT_OFFSET,
{
    regs.sp = regs.sp.wrapping_add(PHYS_VIRT_OFFSET);
    regs.ra = regs.ra.wrapping_add(PHYS_VIRT_OFFSET);
}

/// The offset of the fix-up is the offset of the linear window: an address
/// inside the frame, once fixed up, translates back to itself.
pub proof fn lemma_fixup_translates(
    scheme: Scheme,
    tables: [[u64; 512]; 3],
    tables_paddr: u64,
    phys_base: u64,
    addr: u64,
)
    requires
        boot_mapped(scheme, tables, tables_paddr, phys_base),
        frame_fits(phys_base),
        frame_aligned(phys_base),
        tables_addressable(tables_paddr),
        phys_base <= addr < phys_base + BLOCK_SIZE,
    ensures
        fixup(addr) == addr + PHYS_VIRT_OFFSET,
        translation(scheme, tables, tables_paddr, fixup(addr)) == Some(
            Translation { paddr: addr, flags: PAGE_KERNEL_BLOCK },
        ),
{
    let offset = (addr - phys_base) as u64;
    lemma_frame_end(phys_base);
    lemma_window_translates(scheme, tables, tables_paddr, phys_base, 1, offset);
    assert(boot_vaddr(phys_base, 1) + offset == addr + PHYS_VIRT_OFFSET);
}

} // verus!
