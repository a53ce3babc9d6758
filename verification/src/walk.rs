//! What the boot tables translate: a model of the table walk, and a walker
//! that follows it.
//!
//! The model covers what decides the outcome for the boot mapping: whether
//! the address is canonical, which entry each level selects, whether an
//! entry is valid, whether it is a leaf or points further down, and whether
//! a leaf above the last level names an aligned frame.  Permission checks per
//! access kind are not modelled; the flags of the leaf are handed back.

use vstd::prelude::*;
use crate::boot_map::{
    block_mapped, boot_child, boot_mapped, boot_range, boot_slot, boot_vaddr, entry,
    frame_aligned, frame_fits, lemma_root_indices, table_paddr, tables_addressable, tables_fit,
    BLOCK_SIZE, BOOT_RANGES, BOOT_TABLES, PHYS_VIRT_OFFSET,
};
use crate::paging::{
    lemma_node_fields, lemma_node_kind, lemma_node_paddr, lemma_table_index_in_table,
    level_shift, pte_flags, pte_is_leaf, pte_paddr, table_index, vaddr_to_index, Scheme,
    PAGE_EXEC, PAGE_FLAGS_MASK, PAGE_KERNEL_BLOCK, PAGE_PFN_MASK, PAGE_PFN_SHIFT, PAGE_PRESENT,
    PAGE_READ, PAGE_SHIFT, PAGE_SIZE, PAGE_TABLE, PAGE_TABLE_ENTRIES, PAGE_WRITE,
};

verus! {

/// Outcome of a walk that found a mapping.
#[derive(Clone, Copy, Debug, PartialEq, Eq, Structural)]
pub struct Translation {
    /// The physical address behind the virtual one.
    pub paddr: u64,
    /// The flag field of the leaf that maps it.
    pub flags: u64,
}

/// The bits of `vaddr` above the scheme's width all equal its topmost
/// translated bit.
pub open spec fn canonical(scheme: Scheme, vaddr: u64) -> bool {
    match scheme {
        Scheme::Sv39 => vaddr >> 38 == 0 || vaddr >> 38 == 0x3ff_ffff,
        Scheme::Sv48 => vaddr >> 47 == 0 || vaddr >> 47 == 0x1_ffff,
    }
}

/// The boot table that starts at `paddr`, if there is one.
pub open spec fn table_at(tables_paddr: u64, paddr: u64) -> Option<int> {
    if paddr == table_paddr(tables_paddr, 0) {
        Some(0)
    } else if paddr == table_paddr(tables_paddr, 1) {
        Some(1)
    } else if paddr == table_paddr(tables_paddr, 2) {
        Some(2)
    } else {
        None
    }
}

/// Mask of the address bits that a leaf at `level` passes through
/// untranslated.
pub open spec fn span_mask(scheme: Scheme, level: nat) -> u64 {
    ((1u64 << (level_shift(scheme.level_count(), level) as u64)) - 1) as u64
}

/// The walk for `vaddr`, taken up at table `t`, which stands at `level`.
pub open spec fn walk_from(
    scheme: Scheme,
    tables: [[u64; 512]; 3],
    tables_paddr: u64,
    t: int,
    level: nat,
    vaddr: u64,
) -> Option<Translation>
    decreases scheme.level_count() - level,
{
    if level >= scheme.level_count() {
        None
    } else {
        let pte = entry(tables, t, table_index(scheme, vaddr, level) as int);
        let mask = span_mask(scheme, level);
        if pte & PAGE_PRESENT == 0 {
            None
        } else if pte_is_leaf(pte) {
            if pte_paddr(pte) & mask != 0 {
                None
            } else {
                Some(Translation { paddr: pte_paddr(pte) | (vaddr & mask), flags: pte_flags(pte) })
            }
        } else {
            match table_at(tables_paddr, pte_paddr(pte)) {
                Some(next) => walk_from(scheme, tables, tables_paddr, next, level + 1, vaddr),
                None => None,
            }
        }
    }
}

/// What `vaddr` translates to through the boot tables, whose root lies at
/// `tables_paddr`: `None` where the walk faults or leaves the boot tables.
pub open spec fn translation(
    scheme: Scheme,
    tables: [[u64; 512]; 3],
    tables_paddr: u64,
    vaddr: u64,
) -> Option<Translation> {
    if canonical(scheme, vaddr) {
        walk_from(scheme, tables, tables_paddr, 0, 0, vaddr)
    } else {
        None
    }
}

/// `vaddr` lies in window `k`.
pub open spec fn in_window(phys_base: u64, k: int, vaddr: u64) -> bool {
    boot_vaddr(phys_base, k) <= vaddr < boot_vaddr(phys_base, k) + BLOCK_SIZE
}

/// Every entry that the boot mapping does not write is zero, as it is in
/// tables that were blank before the mapping was built.
pub open spec fn blank_elsewhere(scheme: Scheme, tables: [[u64; 512]; 3], phys_base: u64) -> bool {
    forall|t: int, i: int|
        0 <= t < BOOT_TABLES && 0 <= i < PAGE_TABLE_ENTRIES && !boot_slot(scheme, phys_base, t, i)
            ==> #[trigger] entry(tables, t, i) == 0
}

/// Tells whether `vaddr` is canonical under `scheme`.
pub fn is_canonical(scheme: Scheme, vaddr: u64) -> (ok: bool)
    ensures
        ok == canonical(scheme, vaddr),
{
    match scheme {
        Scheme::Sv39 => vaddr >> 38 == 0 || vaddr >> 38 == 0x3ff_ffff,
        Scheme::Sv48 => vaddr >> 47 == 0 || vaddr >> 47 == 0x1_ffff,
    }
}

/// Finds the boot table that starts at `paddr`.
fn find_table(tables_paddr: u64, paddr: u64) -> (found: Option<usize>)
    requires
        tables_fit(tables_paddr),
    ensures
        match found {
            Some(t) => t < BOOT_TABLES && table_at(tables_paddr, paddr) == Some(t as int),
            None => table_at(tables_paddr, paddr) is None,
        },
{
    if paddr == tables_paddr {
        Some(0)
    } else if paddr == tables_paddr + PAGE_SIZE {
        Some(1)
    } else if paddr == tables_paddr + 2 * PAGE_SIZE {
        Some(2)
    } else {
        None
    }
}

/// Walks the boot tables for `vaddr`, as the hardware would once the root at
/// `tables_paddr` is committed.
pub fn translate(
    scheme: Scheme,
    tables: &[[u64; 512]; 3],
    tables_paddr: u64,
    vaddr: u64,
) -> (found: Option<Translation>)
    requires
        tables_fit(tables_paddr),
    ensures
        found == translation(scheme, *tables, tables_paddr, vaddr),
{
    if !is_canonical(scheme, vaddr) {
        return None;
    }
    let levels = scheme.levels();
    let mut t: usize = 0;
    let mut level: usize = 0;
    while level < levels
        invariant
            t < BOOT_TABLES,
            level <= levels,
            levels == scheme.level_count(),
            tables_fit(tables_paddr),
            translation(scheme, *tables, tables_paddr, vaddr) == walk_from(
                scheme,
                *tables,
                tables_paddr,
                t as int,
                level as nat,
                vaddr,
            ),
        decreases levels - level,
    {
        let index = vaddr_to_index(scheme, vaddr, level);
        let pte: u64 = tables[t][index];
        if pte & PAGE_PRESENT == 0 {
            return None;
        }
        let paddr: u64 = ((pte >> PAGE_PFN_SHIFT) & PAGE_PFN_MASK) << PAGE_SHIFT;
        assert(pte & 0x01 != 0 ==> pte & 0x01 == 0x01) by (bit_vector);
        assert(0x02u64 | 0x04 | 0x08 == 0x0e) by (bit_vector);
        if pte & (PAGE_READ | PAGE_WRITE | PAGE_EXEC) != 0 {
            let shift: u64 = ((levels - level) * 9 + 3) as u64;
            assert(shift < 64 ==> (1u64 << shift) >= 1) by (bit_vector);
            let mask: u64 = (1u64 << shift) - 1;
            if paddr & mask != 0 {
                return None;
            }
            return Some(
                Translation { paddr: paddr | (vaddr & mask), flags: pte & PAGE_FLAGS_MASK },
            );
        }
        match find_table(tables_paddr, paddr) {
            Some(next) => {
                t = next;
                level = level + 1;
            },
            None => {
                return None;
            },
        }
    }
    None
}

/// Inside a block, the address bits from 30 up are those of the block's
/// start, and the bits below are the offset.
proof fn lemma_within_block(base: u64, offset: u64, vaddr: u64)
    requires
        base & 0x3fff_ffff == 0,
        offset < BLOCK_SIZE,
        vaddr == base + offset,
    ensures
        vaddr & 0x3fff_ffff == offset,
        (vaddr >> 30) & 511 == (base >> 30) & 511,
        (vaddr >> 39) & 511 == (base >> 39) & 511,
        vaddr >> 38 == base >> 38,
        vaddr >> 47 == base >> 47,
{
    assert(base & 0x3fff_ffff == 0 && offset < 0x4000_0000 && vaddr == base + offset ==> vaddr
        & 0x3fff_ffff == offset && (vaddr >> 30) & 511 == (base >> 30) & 511 && (vaddr >> 39) & 511
        == (base >> 39) & 511 && vaddr >> 38 == base >> 38 && vaddr >> 47 == base >> 47)
        by (bit_vector);
}

/// Each window starts on a block boundary at a canonical address.
proof fn lemma_window_base(scheme: Scheme, phys_base: u64, k: int)
    requires
        frame_fits(phys_base),
        frame_aligned(phys_base),
        0 <= k < BOOT_RANGES,
    ensures
        phys_base & 0x3fff_ffff == 0,
        boot_vaddr(phys_base, k) & 0x3fff_ffff == 0,
        canonical(scheme, boot_vaddr(phys_base, k)),
        boot_vaddr(phys_base, k) + BLOCK_SIZE <= u64::MAX + 1,
{
    let linear = (phys_base + PHYS_VIRT_OFFSET) as u64;
    assert(phys_base < 0x40_0000_0000);
    assert(phys_base % 0x4000_0000 == 0 && phys_base < 0x40_0000_0000 ==> phys_base & 0x3fff_ffff
        == 0 && phys_base >> 38 == 0 && phys_base >> 47 == 0 && phys_base <= 0x3f_c000_0000)
        by (bit_vector);
    assert(phys_base % 0x4000_0000 == 0 && phys_base < 0x40_0000_0000 && linear == phys_base
        + 0xffff_ffc0_0000_0000 ==> linear & 0x3fff_ffff == 0 && linear >> 38 == 0x3ff_ffff
        && linear >> 47 == 0x1_ffff) by (bit_vector);
    assert(0xffff_ffff_c000_0000u64 & 0x3fff_ffff == 0 && 0xffff_ffff_c000_0000u64 >> 38
        == 0x3ff_ffff && 0xffff_ffff_c000_0000u64 >> 47 == 0x1_ffff) by (bit_vector);
}

/// Once the boot mapping is in the tables, every address of every window
/// translates to the byte of the frame at the same offset, with the block
/// flags.  The offset by which the linear window lies above the frame is
/// therefore exactly `PHYS_VIRT_OFFSET`.
pub proof fn lemma_window_translates(
    scheme: Scheme,
    tables: [[u64; 512]; 3],
    tables_paddr: u64,
    phys_base: u64,
    k: int,
    offset: u64,
)
    requires
        boot_mapped(scheme, tables, tables_paddr, phys_base),
        frame_fits(phys_base),
        frame_aligned(phys_base),
        tables_addressable(tables_paddr),
        0 <= k < BOOT_RANGES,
        offset < BLOCK_SIZE,
    ensures
        translation(scheme, tables, tables_paddr, (boot_vaddr(phys_base, k) + offset) as u64)
            == Some(
            Translation { paddr: (phys_base + offset) as u64, flags: PAGE_KERNEL_BLOCK },
        ),
{
    let base = boot_vaddr(phys_base, k);
    let vaddr = (base + offset) as u64;
    let child = boot_child(k);
    let child_paddr = table_paddr(tables_paddr, child);
    lemma_window_base(scheme, phys_base, k);
    lemma_within_block(base, offset, vaddr);
    lemma_node_kind(phys_base);
    lemma_node_fields(phys_base, PAGE_KERNEL_BLOCK);
    lemma_node_paddr(phys_base, PAGE_KERNEL_BLOCK);
    lemma_node_kind(child_paddr);
    lemma_node_paddr(child_paddr, PAGE_TABLE);
    assert(block_mapped(scheme, tables, tables_paddr, child, boot_range(phys_base, k)));
    assert((1u64 << 30u64) - 1 == 0x3fff_ffff) by (bit_vector);
    assert(phys_base & 0x3fff_ffff == 0 && offset < 0x4000_0000 ==> phys_base | offset
        == phys_base + offset) by (bit_vector);
    reveal_with_fuel(walk_from, 3);
    match scheme {
        Scheme::Sv39 => {
            assert(table_index(scheme, vaddr, 0) == table_index(scheme, base, 0));
            assert(span_mask(scheme, 0) == 0x3fff_ffff);
        },
        Scheme::Sv48 => {
            assert(table_index(scheme, vaddr, 0) == table_index(scheme, base, 0));
            assert(table_index(scheme, vaddr, 1) == table_index(scheme, base, 1));
            assert(span_mask(scheme, 1) == 0x3fff_ffff);
            assert(table_at(tables_paddr, child_paddr) == Some(child));
        },
    }
}

/// A canonical address that shares the index bits of a window's start lies
/// in that window.
proof fn lemma_same_block(scheme: Scheme, phys_base: u64, k: int, vaddr: u64)
    requires
        frame_fits(phys_base),
        frame_aligned(phys_base),
        0 <= k < BOOT_RANGES,
        canonical(scheme, vaddr),
        scheme == Scheme::Sv48 ==> table_index(scheme, vaddr, 0) == table_index(
            scheme,
            boot_vaddr(phys_base, k),
            0,
        ),
        table_index(scheme, vaddr, (scheme.level_count() - 3) as nat) == table_index(
            scheme,
            boot_vaddr(phys_base, k),
            (scheme.level_count() - 3) as nat,
        ),
    ensures
        in_window(phys_base, k, vaddr),
{
    let base = boot_vaddr(phys_base, k);
    lemma_window_base(scheme, phys_base, k);
    assert(base & 0x3fff_ffff == 0 && (vaddr >> 38 == 0 || vaddr >> 38 == 0x3ff_ffff) && (base
        >> 38 == 0 || base >> 38 == 0x3ff_ffff) && (vaddr >> 30) & 511 == (base >> 30) & 511
        ==> base <= vaddr && vaddr - base < 0x4000_0000) by (bit_vector);
    assert(base & 0x3fff_ffff == 0 && (vaddr >> 47 == 0 || vaddr >> 47 == 0x1_ffff) && (base
        >> 47 == 0 || base >> 47 == 0x1_ffff) && (vaddr >> 39) & 511 == (base >> 39) & 511
        && (vaddr >> 30) & 511 == (base >> 30) & 511 ==> base <= vaddr && vaddr - base
        < 0x4000_0000) by (bit_vector);
}

/// Once the boot mapping is in tables that were blank, nothing but the three
/// windows is mapped: an address outside them does not translate.
pub proof fn lemma_only_windows(
    scheme: Scheme,
    tables: [[u64; 512]; 3],
    tables_paddr: u64,
    phys_base: u64,
    vaddr: u64,
)
    requires
        boot_mapped(scheme, tables, tables_paddr, phys_base),
        blank_elsewhere(scheme, tables, phys_base),
        frame_fits(phys_base),
        frame_aligned(phys_base),
        tables_addressable(tables_paddr),
        forall|k: int| 0 <= k < BOOT_RANGES ==> !in_window(phys_base, k, vaddr),
    ensures
        translation(scheme, tables, tables_paddr, vaddr) is None,
{
    reveal_with_fuel(walk_from, 3);
    assert(0u64 & 0x01 == 0) by (bit_vector);
    if canonical(scheme, vaddr) {
        let root = table_index(scheme, vaddr, 0) as int;
        lemma_table_index_in_table(scheme, vaddr, 0);
        lemma_table_index_in_table(scheme, vaddr, 1);
        assert(!in_window(phys_base, 0, vaddr));
        assert(!in_window(phys_base, 1, vaddr));
        assert(!in_window(phys_base, 2, vaddr));
        match scheme {
            Scheme::Sv39 => {
                assert forall|k: int| 0 <= k < BOOT_RANGES implies root != table_index(
                    scheme,
                    boot_vaddr(phys_base, k),
                    0,
                ) by {
                    if root == table_index(scheme, boot_vaddr(phys_base, k), 0) {
                        lemma_same_block(scheme, phys_base, k, vaddr);
                    }
                }
                assert(!boot_slot(scheme, phys_base, 0, root));
                assert(entry(tables, 0, root) == 0);
            },
            Scheme::Sv48 => {
                lemma_root_indices(phys_base);
                if root == 0 || root == 511 {
                    let k: int = if root == 0 {
                        0
                    } else {
                        1
                    };
                    let child = boot_child(k);
                    let child_paddr = table_paddr(tables_paddr, child);
                    let next = table_index(scheme, vaddr, 1) as int;
                    assert(block_mapped(
                        scheme,
                        tables,
                        tables_paddr,
                        child,
                        boot_range(phys_base, k),
                    ));
                    lemma_node_kind(child_paddr);
                    lemma_node_paddr(child_paddr, PAGE_TABLE);
                    assert(table_at(tables_paddr, child_paddr) == Some(child));
                    assert forall|j: int|
                        0 <= j < BOOT_RANGES && boot_child(j) == child implies next
                        != table_index(scheme, boot_vaddr(phys_base, j), 1) by {
                        if next == table_index(scheme, boot_vaddr(phys_base, j), 1) {
                            lemma_same_block(scheme, phys_base, j, vaddr);
                        }
                    }
                    assert(!boot_slot(scheme, phys_base, child, next));
                    assert(entry(tables, child, next) == 0);
                } else {
                    assert(!boot_slot(scheme, phys_base, 0, root));
                    assert(entry(tables, 0, root) == 0);
                }
            },
        }
    }
}

} // verus!
