use libos::paging::{
    make_node, vaddr_to_index, Scheme, PAGE_ACCESSED, PAGE_DIRTY, PAGE_EXEC, PAGE_FLAGS_MASK,
    PAGE_GLOBAL, PAGE_KERNEL_BLOCK, PAGE_PFN_MASK, PAGE_PFN_SHIFT, PAGE_PRESENT, PAGE_READ,
    PAGE_SHIFT, PAGE_SIZE, PAGE_TABLE, PAGE_TABLE_ENTRIES, PAGE_USER, PAGE_WRITE,
};

#[test]
fn table_holds_a_page_of_eight_byte_entries() {
    assert_eq!(PAGE_SIZE, 1 << PAGE_SHIFT);
    assert_eq!(PAGE_TABLE_ENTRIES, 1 << (PAGE_SHIFT - 3));
    assert_eq!(PAGE_TABLE_ENTRIES as u64 * 8, PAGE_SIZE);
}

#[test]
fn block_flags_are_all_but_user() {
    assert_eq!(
        PAGE_KERNEL_BLOCK,
        PAGE_PRESENT | PAGE_READ | PAGE_WRITE | PAGE_EXEC | PAGE_GLOBAL | PAGE_ACCESSED | PAGE_DIRTY
    );
    assert_eq!(PAGE_KERNEL_BLOCK & PAGE_USER, 0);
    assert_eq!(PAGE_KERNEL_BLOCK, 0xef);
    assert_eq!(PAGE_TABLE, PAGE_PRESENT);
}

#[test]
fn scheme_depths() {
    assert_eq!(Scheme::Sv39.levels(), 3);
    assert_eq!(Scheme::Sv48.levels(), 4);
}

#[test]
fn make_node_packs_frame_and_flags() {
    assert_eq!(make_node(0x8000_0000, PAGE_KERNEL_BLOCK), (0x80000 << 10) | 0xef);
    assert_eq!(make_node(0x8000_0000, PAGE_KERNEL_BLOCK), 0x2000_00ef);
    assert_eq!(make_node(0x8020_3000, PAGE_TABLE), (0x80203 << 10) | 0x01);
}

#[test]
fn make_node_drops_the_offset_inside_the_page() {
    assert_eq!(make_node(0x8000_0fff, PAGE_TABLE), make_node(0x8000_0000, PAGE_TABLE));
    assert_ne!(make_node(0x8000_1000, PAGE_TABLE), make_node(0x8000_0000, PAGE_TABLE));
}

#[test]
fn make_node_fields_read_back() {
    let bases: [u64; 5] = [0, 0x4000_0000, 0x8000_0000, 0x3f_c000_0000, 0xff_ffff_ffff_f000];
    for paddr in bases {
        let pte = make_node(paddr, PAGE_KERNEL_BLOCK);
        assert_eq!((pte >> PAGE_PFN_SHIFT) & PAGE_PFN_MASK, paddr >> 12);
        assert_eq!(pte & PAGE_FLAGS_MASK, PAGE_KERNEL_BLOCK);
    }
}

#[test]
fn sv39_root_indices_of_the_reference_windows() {
    assert_eq!(vaddr_to_index(Scheme::Sv39, 0x8000_0000, 0), 2);
    assert_eq!(vaddr_to_index(Scheme::Sv39, 0xffff_ffc0_8000_0000, 0), 0x102);
    assert_eq!(vaddr_to_index(Scheme::Sv39, 0xffff_ffff_c000_0000, 0), 511);
}

#[test]
fn sv48_indices_of_the_reference_windows() {
    assert_eq!(vaddr_to_index(Scheme::Sv48, 0x8000_0000, 0), 0);
    assert_eq!(vaddr_to_index(Scheme::Sv48, 0x8000_0000, 1), 2);
    assert_eq!(vaddr_to_index(Scheme::Sv48, 0xffff_ffc0_8000_0000, 0), 511);
    assert_eq!(vaddr_to_index(Scheme::Sv48, 0xffff_ffc0_8000_0000, 1), 0x102);
    assert_eq!(vaddr_to_index(Scheme::Sv48, 0xffff_ffff_c000_0000, 0), 511);
    assert_eq!(vaddr_to_index(Scheme::Sv48, 0xffff_ffff_c000_0000, 1), 511);
}

#[test]
fn index_shift_drops_nine_bits_per_level() {
    // 30, 21, 12 under Sv39; 39, 30, 21, 12 under Sv48
    let addr: u64 = (5 << 39) | (6 << 30) | (7 << 21) | (8 << 12) | (9 << 3);
    assert_eq!(vaddr_to_index(Scheme::Sv39, addr, 0), 6);
    assert_eq!(vaddr_to_index(Scheme::Sv39, addr, 1), 7);
    assert_eq!(vaddr_to_index(Scheme::Sv39, addr, 2), 8);
    assert_eq!(vaddr_to_index(Scheme::Sv39, addr, 3), 9);
    assert_eq!(vaddr_to_index(Scheme::Sv48, addr, 0), 5);
    assert_eq!(vaddr_to_index(Scheme::Sv48, addr, 1), 6);
    assert_eq!(vaddr_to_index(Scheme::Sv48, addr, 2), 7);
    assert_eq!(vaddr_to_index(Scheme::Sv48, addr, 3), 8);
    assert_eq!(vaddr_to_index(Scheme::Sv48, addr, 4), 9);
}

#[test]
fn index_stays_inside_the_table() {
    let addrs: [u64; 6] =
        [0, 1, 0x8000_0000, 0xffff_ffc0_8000_0000, 0xffff_ffff_c000_0000, u64::MAX];
    for scheme in [Scheme::Sv39, Scheme::Sv48] {
        for level in 0..=scheme.levels() {
            for addr in addrs {
                assert!(vaddr_to_index(scheme, addr, level) < PAGE_TABLE_ENTRIES);
            }
        }
    }
    assert_eq!(vaddr_to_index(Scheme::Sv39, u64::MAX, 0), 511);
    assert_eq!(vaddr_to_index(Scheme::Sv48, u64::MAX, 0), 511);
}
