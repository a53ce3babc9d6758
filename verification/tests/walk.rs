use libos::boot_map::{boot_ranges, pre_mmu, BLOCK_SIZE, KERNEL_BASE, PHYS_VIRT_OFFSET};
use libos::paging::{make_node, Scheme, PAGE_KERNEL_BLOCK, PAGE_READ, PAGE_PRESENT, PAGE_TABLE};
use libos::walk::{is_canonical, translate, Translation};

const TABLES_PADDR: u64 = 0x8020_5000;
const PHYS_BASE: u64 = 0x8000_0000;

fn built(scheme: Scheme, phys_base: u64) -> [[u64; 512]; 3] {
    let mut tables = [[0u64; 512]; 3];
    pre_mmu(scheme, &mut tables, TABLES_PADDR, phys_base);
    tables
}

fn block(paddr: u64) -> Option<Translation> {
    Some(Translation { paddr, flags: PAGE_KERNEL_BLOCK })
}

#[test]
fn canonical_addresses_repeat_their_top_bit() {
    assert!(is_canonical(Scheme::Sv39, 0));
    assert!(is_canonical(Scheme::Sv39, 0x3f_ffff_ffff));
    assert!(!is_canonical(Scheme::Sv39, 0x40_0000_0000));
    assert!(!is_canonical(Scheme::Sv39, 0xffff_ffbf_ffff_ffff));
    assert!(is_canonical(Scheme::Sv39, 0xffff_ffc0_0000_0000));
    assert!(is_canonical(Scheme::Sv39, u64::MAX));
    assert!(is_canonical(Scheme::Sv48, 0x40_0000_0000));
    assert!(is_canonical(Scheme::Sv48, 0x7fff_ffff_ffff));
    assert!(!is_canonical(Scheme::Sv48, 0x8000_0000_0000));
    assert!(!is_canonical(Scheme::Sv48, 0xffff_7fff_ffff_ffff));
    assert!(is_canonical(Scheme::Sv48, 0xffff_8000_0000_0000));
    assert!(is_canonical(Scheme::Sv48, u64::MAX));
}

#[test]
fn blank_tables_map_nothing() {
    let tables = [[0u64; 512]; 3];
    for scheme in [Scheme::Sv39, Scheme::Sv48] {
        for vaddr in [0, PHYS_BASE, PHYS_BASE + PHYS_VIRT_OFFSET, KERNEL_BASE, u64::MAX] {
            assert_eq!(translate(scheme, &tables, TABLES_PADDR, vaddr), None);
        }
    }
}

#[test]
fn every_window_reaches_the_frame() {
    let offsets: [u64; 5] = [0, 1, 0x20_0000, 0x1234_5678, BLOCK_SIZE - 1];
    for scheme in [Scheme::Sv39, Scheme::Sv48] {
        for phys_base in [0u64, 0x8000_0000, 0x3f_c000_0000] {
            let tables = built(scheme, phys_base);
            for range in boot_ranges(phys_base) {
                for offset in offsets {
                    assert_eq!(
                        translate(scheme, &tables, TABLES_PADDR, range.vaddr + offset),
                        block(phys_base + offset)
                    );
                }
            }
        }
    }
}

#[test]
fn reference_addresses_translate() {
    for scheme in [Scheme::Sv39, Scheme::Sv48] {
        let tables = built(scheme, PHYS_BASE);
        assert_eq!(translate(scheme, &tables, TABLES_PADDR, 0x8020_0000), block(0x8020_0000));
        assert_eq!(
            translate(scheme, &tables, TABLES_PADDR, 0xffff_ffc0_8020_0000),
            block(0x8020_0000)
        );
        assert_eq!(
            translate(scheme, &tables, TABLES_PADDR, 0xffff_ffff_c020_0000),
            block(0x8020_0000)
        );
    }
}

#[test]
fn nothing_but_the_windows_is_mapped() {
    let outside: [u64; 10] = [
        0,
        PHYS_BASE - 1,
        PHYS_BASE + BLOCK_SIZE,
        0x3f_ffff_ffff,
        0x40_0000_0000,
        0xffff_ffc0_7fff_ffff,
        0xffff_ffc0_c000_0000,
        0xffff_ffff_bfff_ffff,
        0xffff_8000_8000_0000,
        0x0000_7fff_c000_0000,
    ];
    for scheme in [Scheme::Sv39, Scheme::Sv48] {
        let tables = built(scheme, PHYS_BASE);
        for vaddr in outside {
            assert_eq!(translate(scheme, &tables, TABLES_PADDR, vaddr), None);
        }
    }
}

#[test]
fn noncanonical_alias_of_a_window_faults() {
    let tables = built(Scheme::Sv39, PHYS_BASE);
    // same index bits as 0x8000_0000, but bit 39 set
    assert_eq!(translate(Scheme::Sv39, &tables, TABLES_PADDR, 0x80_8000_0000), None);
    let tables = built(Scheme::Sv48, PHYS_BASE);
    assert_eq!(translate(Scheme::Sv48, &tables, TABLES_PADDR, 0x1_0000_8000_0000), None);
}

#[test]
fn misaligned_block_faults() {
    let mut tables = [[0u64; 512]; 3];
    // a leaf in the root whose frame does not start on a block boundary
    tables[0][2] = make_node(0x8020_0000, PAGE_KERNEL_BLOCK);
    assert_eq!(translate(Scheme::Sv39, &tables, TABLES_PADDR, 0x8000_0000), None);
}

#[test]
fn invalid_entry_faults_whatever_else_it_holds() {
    let mut tables = [[0u64; 512]; 3];
    tables[0][2] = make_node(0x8000_0000, PAGE_KERNEL_BLOCK) & !PAGE_PRESENT;
    assert_eq!(translate(Scheme::Sv39, &tables, TABLES_PADDR, 0x8000_0000), None);
}

#[test]
fn branch_out_of_the_boot_tables_is_not_followed() {
    let mut tables = [[0u64; 512]; 3];
    tables[0][2] = make_node(TABLES_PADDR + 3 * 0x1000, PAGE_TABLE);
    assert_eq!(translate(Scheme::Sv39, &tables, TABLES_PADDR, 0x8000_0000), None);
}

#[test]
fn walk_descends_to_the_last_level() {
    let mut tables = [[0u64; 512]; 3];
    // root -> table 1 -> table 2 -> one 4 KiB page
    tables[0][2] = make_node(TABLES_PADDR + 0x1000, PAGE_TABLE);
    tables[1][3] = make_node(TABLES_PADDR + 0x2000, PAGE_TABLE);
    tables[2][4] = make_node(0x1234_5000, PAGE_PRESENT | PAGE_READ);
    let vaddr: u64 = (2 << 30) | (3 << 21) | (4 << 12) | 0x678;
    assert_eq!(
        translate(Scheme::Sv39, &tables, TABLES_PADDR, vaddr),
        Some(Translation { paddr: 0x1234_5678, flags: PAGE_PRESENT | PAGE_READ })
    );
    // a branch at the last level leads nowhere
    tables[2][4] = make_node(TABLES_PADDR, PAGE_TABLE);
    assert_eq!(translate(Scheme::Sv39, &tables, TABLES_PADDR, vaddr), None);
}

#[test]
fn two_megabyte_leaf_passes_twenty_one_bits_through() {
    let mut tables = [[0u64; 512]; 3];
    tables[0][2] = make_node(TABLES_PADDR + 0x1000, PAGE_TABLE);
    tables[1][3] = make_node(0x4020_0000, PAGE_KERNEL_BLOCK);
    let vaddr: u64 = (2 << 30) | (3 << 21) | 0x1f_f000;
    assert_eq!(
        translate(Scheme::Sv39, &tables, TABLES_PADDR, vaddr),
        Some(Translation { paddr: 0x403f_f000, flags: PAGE_KERNEL_BLOCK })
    );
}
