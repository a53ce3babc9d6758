//! Page table entries and table indices for the Sv39 and Sv48 schemes.

use vstd::prelude::*;

verus! {

/// log2 of the size of a base page.
pub const PAGE_SHIFT: usize = 12;

/// Size of a base page, and of one translation table, in bytes.
pub const PAGE_SIZE: u64 = 4096;

/// Number of entries in one translation table: a page of 8-byte entries.
pub const PAGE_TABLE_ENTRIES: usize = 512;

/// Position of the frame number inside an entry.
pub const PAGE_PFN_SHIFT: usize = 10;

/// Entry flag: the entry is valid.
pub const PAGE_PRESENT: u64 = 0x01;

/// Entry flag: the page is readable.
pub const PAGE_READ: u64 = 0x02;

/// Entry flag: the page is writable.
pub const PAGE_WRITE: u64 = 0x04;

/// Entry flag: instructions may be fetched from the page.
pub const PAGE_EXEC: u64 = 0x08;

/// Entry flag: the page is accessible in user mode.
pub const PAGE_USER: u64 = 0x10;

/// Entry flag: the mapping exists in every address space.
pub const PAGE_GLOBAL: u64 = 0x20;

/// Entry flag: the page has been accessed.
pub const PAGE_ACCESSED: u64 = 0x40;

/// Entry flag: the page has been written.
pub const PAGE_DIRTY: u64 = 0x80;

/// Flags of an entry that points to a next-level table: valid, and none of
/// read, write, execute.
pub const PAGE_TABLE: u64 = 0x01;

/// Flags of a kernel block mapping: valid, readable, writable, executable,
/// global, accessed and dirty.
pub const PAGE_KERNEL_BLOCK: u64 = 0xef;

/// Mask of the flag bits of an entry.
pub const PAGE_FLAGS_MASK: u64 = 0x3ff;

/// Mask of a frame number once it is shifted down: 44 bits.
pub const PAGE_PFN_MASK: u64 = 0xfff_ffff_ffff;

/// A supported virtual addressing scheme.
#[derive(Clone, Copy, Debug, PartialEq, Eq, Structural)]
pub enum Scheme {
    /// 39-bit virtual addresses, three levels of tables.
    Sv39,
    /// 48-bit virtual addresses, four levels of tables.
    Sv48,
}

impl Scheme {
    /// Depth of the table tree.
    pub open spec fn level_count(self) -> nat {
        match self {
            Scheme::Sv39 => 3,
            Scheme::Sv48 => 4,
        }
    }

    /// Width of a virtual address in bits.
    pub open spec fn va_bits(self) -> nat {
        match self {
            Scheme::Sv39 => 39,
            Scheme::Sv48 => 48,
        }
    }

    /// Depth of the table tree.
    pub fn levels(self) -> (n: usize)
        ensures
            n == self.level_count(),
    {
        match self {
            Scheme::Sv39 => 3,
            Scheme::Sv48 => 4,
        }
    }
}

/// Number of low address bits below the index of `level`, in a tree of
/// `levels` levels.  Level 0 is the root; each level further down resolves
/// nine bits less.
pub open spec fn level_shift(levels: nat, level: nat) -> nat
    recommends
        level <= levels,
{
    ((levels - level) * 9 + 3) as nat
}

/// The index into the table of `level` at which `addr` is resolved.
pub open spec fn table_index(scheme: Scheme, addr: u64, level: nat) -> nat
    recommends
        level <= scheme.level_count(),
{
    ((addr >> (level_shift(scheme.level_count(), level) as u64)) & 511) as nat
}

/// The entry that maps, or points to, the frame at `paddr` with flags `prot`.
pub open spec fn node(paddr: u64, prot: u64) -> u64 {
    ((paddr >> 12) << 10) | prot
}

/// Frame number field of an entry.
pub open spec fn pte_pfn(pte: u64) -> u64 {
    (pte >> 10) & 0xfff_ffff_ffff
}

/// Flag field of an entry.
pub open spec fn pte_flags(pte: u64) -> u64 {
    pte & 0x3ff
}

/// Physical address that an entry names: its frame number times the page
/// size.
pub open spec fn pte_paddr(pte: u64) -> u64 {
    pte_pfn(pte) << 12
}

/// The entry is valid and grants none of read, write, execute: it points to
/// a next-level table.
pub open spec fn pte_is_branch(pte: u64) -> bool {
    pte & 0x0f == 0x01
}

/// The entry is valid and grants at least one of read, write, execute: it
/// maps memory directly.
pub open spec fn pte_is_leaf(pte: u64) -> bool {
    pte & 0x01 == 0x01 && pte & 0x0e != 0
}

/// The fields of a built entry are those it was built from: the flags as
/// given, and the number of the frame that holds `paddr`.
pub proof fn lemma_node_fields(paddr: u64, prot: u64)
    requires
        prot <= PAGE_FLAGS_MASK,
        paddr < 0x100_0000_0000_0000,
    ensures
        pte_flags(node(paddr, prot)) == prot,
        pte_pfn(node(paddr, prot)) == paddr >> 12,
{
    assert(prot <= 0x3ff ==> (((paddr >> 12) << 10) | prot) & 0x3ff == prot) by (bit_vector);
    assert(prot <= 0x3ff && paddr < 0x100_0000_0000_0000 ==> ((((paddr >> 12) << 10) | prot) >> 10)
        & 0xfff_ffff_ffff == paddr >> 12) by (bit_vector);
}

/// An entry built for a page-aligned address names that address exactly.
pub proof fn lemma_node_paddr(paddr: u64, prot: u64)
    requires
        prot <= PAGE_FLAGS_MASK,
        paddr < 0x100_0000_0000_0000,
        paddr % PAGE_SIZE == 0,
    ensures
        pte_paddr(node(paddr, prot)) == paddr,
{
    assert(prot <= 0x3ff && paddr < 0x100_0000_0000_0000 && paddr % 4096 == 0 ==> (((((paddr >> 12)
        << 10) | prot) >> 10) & 0xfff_ffff_ffff) << 12 == paddr) by (bit_vector);
}

/// An entry built with the block flags is a leaf; one built with the table
/// flag alone is a branch.
pub proof fn lemma_node_kind(paddr: u64)
    ensures
        node(paddr, PAGE_KERNEL_BLOCK) & PAGE_PRESENT != 0,
        pte_is_leaf(node(paddr, PAGE_KERNEL_BLOCK)),
        !pte_is_branch(node(paddr, PAGE_KERNEL_BLOCK)),
        node(paddr, PAGE_TABLE) & PAGE_PRESENT != 0,
        pte_is_branch(node(paddr, PAGE_TABLE)),
        !pte_is_leaf(node(paddr, PAGE_TABLE)),
{
    let leaf = node(paddr, PAGE_KERNEL_BLOCK);
    let branch = node(paddr, PAGE_TABLE);
    assert(leaf == ((paddr >> 12) << 10) | 0xef ==> leaf & 0x01 == 0x01 && leaf & 0x0e != 0 && leaf
        & 0x0f != 0x01) by (bit_vector);
    assert(branch == ((paddr >> 12) << 10) | 0x01 ==> branch & 0x01 == 0x01 && branch & 0x0e == 0
        && branch & 0x0f == 0x01) by (bit_vector);
}

/// A table index always lies inside the table, whatever the address and the
/// level.
pub proof fn lemma_table_index_in_table(scheme: Scheme, addr: u64, level: nat)
    ensures
        table_index(scheme, addr, level) < PAGE_TABLE_ENTRIES,
{
    let shift = level_shift(scheme.level_count(), level) as u64;
    assert((addr >> shift) & 511 < 512) by (bit_vector);
}

/// Computes the index into the table of `level` at which `addr` is resolved.
pub fn vaddr_to_index(scheme: Scheme, addr: u64, level: usize) -> (index: usize)
    requires
        level <= scheme.level_count(),
    ensures
        index == table_index(scheme, addr, level as nat),
        index < PAGE_TABLE_ENTRIES,
{
    let depth: usize = scheme.levels() - level;
    let bits_per_level: usize = PAGE_SHIFT - 3;
    let shift: u64 = (depth * bits_per_level + 3) as u64;
    let index: u64 = (addr >> shift) & 511;
    assert((addr >> shift) & 511 < 512) by (bit_vector);
    index as usize
}

/// Builds the entry that maps, or points to, the frame at `paddr` with flags
/// `prot`.
pub fn make_node(paddr: u64, prot: u64) -> (pte: u64)
    ensures
        pte == node(paddr, prot),
        prot <= PAGE_FLAGS_MASK ==> pte_flags(pte) == prot,
        prot <= PAGE_FLAGS_MASK && paddr < 0x100_0000_0000_0000 ==> pte_pfn(pte) == paddr >> 12,
{
    let pfn: u64 = paddr >> PAGE_SHIFT;
    proof {
        if prot <= PAGE_FLAGS_MASK {
            assert(prot <= 0x3ff ==> (((paddr >> 12) << 10) | prot) & 0x3ff == prot)
                by (bit_vector);
        }
        if prot <= PAGE_FLAGS_MASK && paddr < 0x100_0000_0000_0000 {
            lemma_node_fields(paddr, prot);
        }
    }
    (pfn << PAGE_PFN_SHIFT) | prot
}

} // verus!
