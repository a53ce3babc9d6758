//! The boot mapping: three one-gibibyte windows onto the frame the kernel
//! was loaded into.

use vstd::prelude::*;
use crate::paging::{
    lemma_node_fields, lemma_node_kind, lemma_node_paddr, lemma_table_index_in_table, make_node,
    node, pte_flags, pte_is_branch, pte_is_leaf, pte_paddr, pte_pfn, table_index, vaddr_to_index,
    Scheme, PAGE_KERNEL_BLOCK, PAGE_SIZE, PAGE_TABLE, PAGE_TABLE_ENTRIES,
};

verus! {

/// Distance between a physical address and its alias in the linear window.
pub const PHYS_VIRT_OFFSET: u64 = 0xffff_ffc0_0000_0000;

/// Start of the window at the top of the address space.
pub const KERNEL_BASE: u64 = 0xffff_ffff_c000_0000;

/// Size of one window, and of the frame behind it.
pub const BLOCK_SIZE: u64 = 0x4000_0000;

/// Number of windows.
pub const BOOT_RANGES: usize = 3;

/// Number of translation tables set aside for booting: the root and two
/// second-level tables, laid out back to back.
pub const BOOT_TABLES: usize = 3;

/// A stretch of virtual addresses and what it is mapped to.
#[derive(Clone, Copy, Debug, PartialEq, Eq, Structural)]
pub struct VirtRange {
    /// First virtual address.
    pub vaddr: u64,
    /// Length in bytes.
    pub size: u64,
    /// Physical address that the first virtual address maps to.
    pub paddr: u64,
    /// Flags of the mapping.
    pub flags: u64,
}

/// Entry `i` of table `t`.
pub open spec fn entry(tables: [[u64; 512]; 3], t: int, i: int) -> u64 {
    tables[t][i]
}

/// Physical address of table `t`, given that of the root.
pub open spec fn table_paddr(tables_paddr: u64, t: int) -> u64 {
    (tables_paddr + t * PAGE_SIZE) as u64
}

/// The tables lie inside the address space.
pub open spec fn tables_fit(tables_paddr: u64) -> bool {
    tables_paddr + BOOT_TABLES * PAGE_SIZE <= u64::MAX + 1
}

/// The linear window onto the frame at `phys_base` lies inside the address
/// space.
pub open spec fn frame_fits(phys_base: u64) -> bool {
    phys_base + PHYS_VIRT_OFFSET <= u64::MAX
}

/// The frame at `phys_base` starts on a block boundary.
pub open spec fn frame_aligned(phys_base: u64) -> bool {
    phys_base % BLOCK_SIZE == 0
}

/// The tables start on a page boundary and lie where a frame number can
/// name them.
pub open spec fn tables_addressable(tables_paddr: u64) -> bool {
    &&& tables_paddr % PAGE_SIZE == 0
    &&& tables_paddr + BOOT_TABLES * PAGE_SIZE <= 0x100_0000_0000_0000
}

/// Start of window `k`: the frame's own address, its alias in the linear
/// window, and the fixed window at the top.
pub open spec fn boot_vaddr(phys_base: u64, k: int) -> u64 {
    if k == 0 {
        phys_base
    } else if k == 1 {
        (phys_base + PHYS_VIRT_OFFSET) as u64
    } else {
        KERNEL_BASE
    }
}

/// Window `k`: one block at `boot_vaddr`, mapped to the frame with the block
/// flags.
pub open spec fn boot_range(phys_base: u64, k: int) -> VirtRange {
    VirtRange {
        vaddr: boot_vaddr(phys_base, k),
        size: BLOCK_SIZE,
        paddr: phys_base,
        flags: PAGE_KERNEL_BLOCK,
    }
}

/// The second-level table that serves window `k` in the four-level scheme.
/// The two high windows share a root entry, hence a table.
pub open spec fn boot_child(k: int) -> int {
    if k == 0 {
        1
    } else {
        2
    }
}

/// The tables map the block that `range` starts with: by a leaf in the root
/// under Sv39; under Sv48 by a branch in the root that points to table
/// `child`, and a leaf in that table.
pub open spec fn block_mapped(
    scheme: Scheme,
    tables: [[u64; 512]; 3],
    tables_paddr: u64,
    child: int,
    range: VirtRange,
) -> bool {
    match scheme {
        Scheme::Sv39 => entry(tables, 0, table_index(scheme, range.vaddr, 0) as int) == node(
            range.paddr,
            range.flags,
        ),
        Scheme::Sv48 => {
            &&& entry(tables, 0, table_index(scheme, range.vaddr, 0) as int) == node(
                table_paddr(tables_paddr, child),
                PAGE_TABLE,
            )
            &&& entry(tables, child, table_index(scheme, range.vaddr, 1) as int) == node(
                range.paddr,
                range.flags,
            )
        },
    }
}

/// The root entry through which window `k` resolves.
pub open spec fn root_entry(scheme: Scheme, tables: [[u64; 512]; 3], phys_base: u64, k: int) -> u64 {
    entry(tables, 0, table_index(scheme, boot_vaddr(phys_base, k), 0) as int)
}

/// The entry that holds the leaf of window `k`: the root entry under Sv39,
/// the entry one level down under Sv48.
pub open spec fn leaf_entry(scheme: Scheme, tables: [[u64; 512]; 3], phys_base: u64, k: int) -> u64 {
    match scheme {
        Scheme::Sv39 => root_entry(scheme, tables, phys_base, k),
        Scheme::Sv48 => entry(
            tables,
            boot_child(k),
            table_index(scheme, boot_vaddr(phys_base, k), 1) as int,
        ),
    }
}

/// The leaf of window `k` is a leaf, names the frame at `phys_base` and
/// carries the block flags.
pub open spec fn leaf_in_place(
    scheme: Scheme,
    tables: [[u64; 512]; 3],
    phys_base: u64,
    k: int,
) -> bool {
    let leaf = leaf_entry(scheme, tables, phys_base, k);
    &&& pte_is_leaf(leaf)
    &&& pte_pfn(leaf) == phys_base >> 12
    &&& pte_flags(leaf) == PAGE_KERNEL_BLOCK
}

/// The root entry of window `k` is a branch that names the window's
/// second-level table.
pub open spec fn branch_in_place(
    tables: [[u64; 512]; 3],
    tables_paddr: u64,
    phys_base: u64,
    k: int,
) -> bool {
    let branch = root_entry(Scheme::Sv48, tables, phys_base, k);
    &&& pte_is_branch(branch)
    &&& pte_paddr(branch) == table_paddr(tables_paddr, boot_child(k))
}

/// Entry `i` of table `t` is one that mapping the block at `vaddr` writes.
pub open spec fn block_slot(scheme: Scheme, child: int, vaddr: u64, t: int, i: int) -> bool {
    ||| t == 0 && i == table_index(scheme, vaddr, 0)
    ||| scheme == Scheme::Sv48 && t == child && i == table_index(scheme, vaddr, 1)
}

/// Entry `i` of table `t` is one that the boot mapping writes.
pub open spec fn boot_slot(scheme: Scheme, phys_base: u64, t: int, i: int) -> bool {
    ||| block_slot(scheme, boot_child(0), boot_vaddr(phys_base, 0), t, i)
    ||| block_slot(scheme, boot_child(1), boot_vaddr(phys_base, 1), t, i)
    ||| block_slot(scheme, boot_child(2), boot_vaddr(phys_base, 2), t, i)
}

/// The tables hold the whole boot mapping of the frame at `phys_base`.
pub open spec fn boot_mapped(
    scheme: Scheme,
    tables: [[u64; 512]; 3],
    tables_paddr: u64,
    phys_base: u64,
) -> bool {
    forall|k: int|
        0 <= k < BOOT_RANGES ==> #[trigger] block_mapped(
            scheme,
            tables,
            tables_paddr,
            boot_child(k),
            boot_range(phys_base, k),
        )
}

/// Lists the three windows onto the frame at `phys_base`, lowest first.
pub fn boot_ranges(phys_base: u64) -> (ranges: [VirtRange; 3])
    requires
        frame_fits(phys_base),
    ensures
        forall|k: int| 0 <= k < BOOT_RANGES ==> ranges[k] == boot_range(phys_base, k),
{
    [
        // phys_base .. phys_base + 1G
        VirtRange {
            vaddr: phys_base,
            size: BLOCK_SIZE,
            paddr: phys_base,
            flags: PAGE_KERNEL_BLOCK,
        },
        // the same frame, seen through the linear window
        VirtRange {
            vaddr: phys_base + PHYS_VIRT_OFFSET,
            size: BLOCK_SIZE,
            paddr: phys_base,
            flags: PAGE_KERNEL_BLOCK,
        },
        // the same frame, seen at the top of the address space
        VirtRange {
            vaddr: KERNEL_BASE,
            size: BLOCK_SIZE,
            paddr: phys_base,
            flags: PAGE_KERNEL_BLOCK,
        },
    ]
}

/// Writes the entries that map the one block of `range`, with `child` as the
/// second-level table where the scheme needs one.
fn map_block(
    scheme: Scheme,
    tables: &mut [[u64; 512]; 3],
    tables_paddr: u64,
    child: usize,
    range: &VirtRange,
)
    requires
        1 <= child < BOOT_TABLES,
        tables_fit(tables_paddr),
        range.size == BLOCK_SIZE,
    ensures
        block_mapped(scheme, *final(tables), tables_paddr, child as int, *range),
        forall|t: int, i: int|
            0 <= t < BOOT_TABLES && 0 <= i < PAGE_TABLE_ENTRIES && !block_slot(
                scheme,
                child as int,
                range.vaddr,
                t,
                i,
            ) ==> #[trigger] entry(*final(tables), t, i) == entry(*old(tables), t, i),
{
    let leaf = make_node(range.paddr, range.flags);
    match scheme {
        Scheme::Sv39 => {
            let index = vaddr_to_index(scheme, range.vaddr, 0);
            tables[0][index] = leaf;
        },
        Scheme::Sv48 => {
            let index = vaddr_to_index(scheme, range.vaddr, 0);
            tables[0][index] = make_node(tables_paddr + (child as u64) * PAGE_SIZE, PAGE_TABLE);
            let index = vaddr_to_index(scheme, range.vaddr, 1);
            tables[child][index] = leaf;
        },
    }
}

/// Builds the boot mapping of the one-gibibyte frame at `phys_base`.
///
/// Three windows are mapped onto the frame: the frame's own address, its
/// alias at `PHYS_VIRT_OFFSET`, and the window at `KERNEL_BASE`.  Under Sv39
/// each window is a leaf in the root table.  Under Sv48 the root holds a
/// branch per window and the leaf sits one level down: in table 1 for the low
/// window, in table 2 for the two high ones.  No other entry is touched.
///
/// The frame must lie low enough for its alias in the linear window to
/// exist, and the three tables inside the address space.
pub fn pre_mmu(scheme: Scheme, tables: &mut [[u64; 512]; 3], tables_paddr: u64, phys_base: u64)
    requires
        frame_fits(phys_base),
        tables_fit(tables_paddr),
    ensures
        boot_mapped(scheme, *final(tables), tables_paddr, phys_base),
        forall|k: int|
            0 <= k < BOOT_RANGES ==> #[trigger] leaf_in_place(
                scheme,
                *final(tables),
                phys_base,
                k,
            ),
        scheme == Scheme::Sv48 && tables_addressable(tables_paddr) ==> forall|k: int|
            0 <= k < BOOT_RANGES ==> #[trigger] branch_in_place(
                *final(tables),
                tables_paddr,
                phys_base,
                k,
            ),
        forall|t: int, i: int|
            0 <= t < BOOT_TABLES && 0 <= i < PAGE_TABLE_ENTRIES && !boot_slot(
                scheme,
                phys_base,
                t,
                i,
            ) ==> #[trigger] entry(*final(tables), t, i) == entry(*old(tables), t, i),
{
    let ranges = boot_ranges(phys_base);
    proof {
        lemma_root_indices(phys_base);
        assert(ranges[0] == boot_range(phys_base, 0));
        assert(ranges[1] == boot_range(phys_base, 1));
        assert(ranges[2] == boot_range(phys_base, 2));
    }
    map_block(scheme, tables, tables_paddr, 1, &ranges[0]);
    let ghost low = *tables;
    map_block(scheme, tables, tables_paddr, 2, &ranges[1]);
    let ghost mid = *tables;
    map_block(scheme, tables, tables_paddr, 2, &ranges[2]);
    proof {
        let linear = boot_vaddr(phys_base, 1);
        let root0 = table_index(scheme, phys_base, 0) as int;
        let root1 = table_index(scheme, linear, 0) as int;
        lemma_table_index_in_table(scheme, phys_base, 0);
        lemma_table_index_in_table(scheme, linear, 0);
        lemma_table_index_in_table(scheme, phys_base, 1);
        lemma_table_index_in_table(scheme, linear, 1);
        assert(entry(mid, 0, root0) == entry(low, 0, root0) || root0 == root1);
        assert(entry(*tables, 0, root0) == entry(mid, 0, root0) || root0 == 511);
        assert(entry(*tables, 0, root1) == entry(mid, 0, root1) || root1 == 511);
        if scheme == Scheme::Sv48 {
            let next0 = table_index(scheme, phys_base, 1) as int;
            let next1 = table_index(scheme, linear, 1) as int;
            assert(entry(mid, 1, next0) == entry(low, 1, next0));
            assert(entry(*tables, 1, next0) == entry(mid, 1, next0));
            assert(entry(*tables, 2, next1) == entry(mid, 2, next1) || next1 == table_index(
                scheme,
                KERNEL_BASE,
                1,
            ));
        }
        assert(block_mapped(
            scheme,
            *tables,
            tables_paddr,
            boot_child(0),
            boot_range(phys_base, 0),
        ));
        assert(block_mapped(
            scheme,
            *tables,
            tables_paddr,
            boot_child(1),
            boot_range(phys_base, 1),
        ));
        assert(block_mapped(
            scheme,
            *tables,
            tables_paddr,
            boot_child(2),
            boot_range(phys_base, 2),
        ));
        assert forall|k: int| 0 <= k < BOOT_RANGES implies #[trigger] leaf_in_place(
            scheme,
            *tables,
            phys_base,
            k,
        ) by {
            lemma_leaf_fields(scheme, *tables, tables_paddr, phys_base, k);
        }
        if scheme == Scheme::Sv48 && tables_addressable(tables_paddr) {
            assert forall|k: int| 0 <= k < BOOT_RANGES implies #[trigger] branch_in_place(
                *tables,
                tables_paddr,
                phys_base,
                k,
            ) by {
                lemma_branch_fields(*tables, tables_paddr, phys_base, k);
            }
        }
    }
}

/// Where the boot mapping is in the tables, the leaf of each window has the
/// number of the frame in its frame field and the block flags in its flag
/// field.
pub proof fn lemma_leaf_fields(
    scheme: Scheme,
    tables: [[u64; 512]; 3],
    tables_paddr: u64,
    phys_base: u64,
    k: int,
)
    requires
        boot_mapped(scheme, tables, tables_paddr, phys_base),
        phys_base < 0x100_0000_0000_0000,
        0 <= k < BOOT_RANGES,
    ensures
        leaf_in_place(scheme, tables, phys_base, k),
{
    assert(block_mapped(
        scheme,
        tables,
        tables_paddr,
        boot_child(k),
        boot_range(phys_base, k),
    ));
    lemma_node_kind(phys_base);
    lemma_node_fields(phys_base, PAGE_KERNEL_BLOCK);
}

/// Where the four-level boot mapping is in tables that a frame number can
/// name, the root entry of each window is a branch to the window's
/// second-level table, and the entry below it is the window's leaf.
pub proof fn lemma_branch_fields(
    tables: [[u64; 512]; 3],
    tables_paddr: u64,
    phys_base: u64,
    k: int,
)
    requires
        boot_mapped(Scheme::Sv48, tables, tables_paddr, phys_base),
        tables_addressable(tables_paddr),
        0 <= k < BOOT_RANGES,
    ensures
        branch_in_place(tables, tables_paddr, phys_base, k),
        pte_is_leaf(leaf_entry(Scheme::Sv48, tables, phys_base, k)),
        pte_flags(leaf_entry(Scheme::Sv48, tables, phys_base, k)) == PAGE_KERNEL_BLOCK,
{
    let child_paddr = table_paddr(tables_paddr, boot_child(k));
    assert(block_mapped(
        Scheme::Sv48,
        tables,
        tables_paddr,
        boot_child(k),
        boot_range(phys_base, k),
    ));
    lemma_node_kind(child_paddr);
    lemma_node_paddr(child_paddr, PAGE_TABLE);
    lemma_node_kind(phys_base);
    assert(pte_flags(node(phys_base, PAGE_KERNEL_BLOCK)) == PAGE_KERNEL_BLOCK) by {
        let pte = node(phys_base, PAGE_KERNEL_BLOCK);
        assert(pte == ((phys_base >> 12) << 10) | 0xef ==> pte & 0x3ff == 0xef) by (bit_vector);
    }
}

/// An aligned frame whose linear window fits ends where the window starts
/// at the latest: the whole frame has an alias in the window.
pub proof fn lemma_frame_end(phys_base: u64)
    requires
        frame_fits(phys_base),
        frame_aligned(phys_base),
    ensures
        phys_base + BLOCK_SIZE + PHYS_VIRT_OFFSET <= u64::MAX + 1,
{
    assert(phys_base % 0x4000_0000 == 0 && phys_base < 0x40_0000_0000 ==> phys_base
        <= 0x3f_c000_0000) by (bit_vector);
}

/// Under Sv48 the low window resolves through root entry 0 and both high
/// windows through root entry 511.
pub proof fn lemma_root_indices(phys_base: u64)
    requires
        frame_fits(phys_base),
    ensures
        table_index(Scheme::Sv48, boot_vaddr(phys_base, 0), 0) == 0,
        table_index(Scheme::Sv48, boot_vaddr(phys_base, 1), 0) == 511,
        table_index(Scheme::Sv48, boot_vaddr(phys_base, 2), 0) == 511,
{
    let linear = (phys_base + PHYS_VIRT_OFFSET) as u64;
    assert(phys_base < 0x40_0000_0000);
    assert(phys_base < 0x40_0000_0000 ==> (phys_base >> 39u64) & 511 == 0) by (bit_vector);
    assert(phys_base < 0x40_0000_0000 && linear == phys_base + 0xffff_ffc0_0000_0000 ==> (linear
        >> 39u64) & 511 == 511) by (bit_vector);
    assert((0xffff_ffff_c000_0000u64 >> 39u64) & 511 == 511) by (bit_vector);
}

} // verus!
