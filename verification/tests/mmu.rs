use libos::boot_map::{pre_mmu, PHYS_VIRT_OFFSET};
use libos::mmu::{
    enable_mmu, post_mmu, scheme_for_width, ConfigError, MmuActivation, Registers, SatpSetting,
    TlbFlush,
};
use libos::paging::{Scheme, PAGE_KERNEL_BLOCK};
use libos::walk::{translate, Translation};

#[test]
fn supported_widths_resolve() {
    assert_eq!(scheme_for_width(39), Ok(Scheme::Sv39));
    assert_eq!(scheme_for_width(48), Ok(Scheme::Sv48));
}

#[test]
fn other_widths_are_configuration_errors() {
    for width in [0usize, 32, 38, 40, 47, 49, 57, 64, usize::MAX] {
        assert_eq!(scheme_for_width(width), Err(ConfigError::UnsupportedWidth(width)));
        assert_eq!(enable_mmu(width, 0x8020_5000), Err(ConfigError::UnsupportedWidth(width)));
    }
}

#[test]
fn configuration_error_text() {
    assert_eq!(
        ConfigError::UnsupportedWidth(57).message(),
        "bad feature. Only support sv39 or sv48!"
    );
}

#[test]
fn activation_commits_root_frame_in_address_space_zero() {
    assert_eq!(
        enable_mmu(39, 0x8020_5000),
        Ok(MmuActivation {
            satp: SatpSetting { mode: Scheme::Sv39, asid: 0, ppn: 0x80205 },
            flush: TlbFlush::All,
        })
    );
    assert_eq!(
        enable_mmu(48, 0x8020_5000),
        Ok(MmuActivation {
            satp: SatpSetting { mode: Scheme::Sv48, asid: 0, ppn: 0x80205 },
            flush: TlbFlush::All,
        })
    );
}

#[test]
fn root_frame_number_fits_its_field() {
    let activation = enable_mmu(39, 0xff_ffff_ffff_f000).unwrap();
    assert_eq!(activation.satp.ppn, 0xfff_ffff_ffff);
    let activation = enable_mmu(39, 0xff_ffff_ffff_ffff).unwrap();
    assert_eq!(activation.satp.ppn, 0xfff_ffff_ffff);
    let activation = enable_mmu(48, 0).unwrap();
    assert_eq!(activation.satp.ppn, 0);
}

#[test]
fn fixup_adds_the_window_offset_once() {
    let mut regs = Registers { sp: 0x8024_8000, ra: 0x8020_0040 };
    post_mmu(&mut regs);
    assert_eq!(regs, Registers { sp: 0xffff_ffc0_8024_8000, ra: 0xffff_ffc0_8020_0040 });
    assert_eq!(regs.sp, 0x8024_8000 + PHYS_VIRT_OFFSET);
    assert_eq!(regs.ra, 0x8020_0040 + PHYS_VIRT_OFFSET);
}

#[test]
fn second_fixup_moves_the_registers_again() {
    let mut regs = Registers { sp: 0x8024_8000, ra: 0x8020_0040 };
    post_mmu(&mut regs);
    let once = regs;
    post_mmu(&mut regs);
    assert_ne!(regs, once);
    assert_eq!(regs.sp, once.sp.wrapping_add(PHYS_VIRT_OFFSET));
    assert_eq!(regs.sp, 0xffff_ff80_8024_8000);
}

#[test]
fn fixup_wraps_like_the_adder() {
    let mut regs = Registers { sp: 0x40_0000_0000, ra: u64::MAX };
    post_mmu(&mut regs);
    assert_eq!(regs, Registers { sp: 0, ra: 0xffff_ffbf_ffff_ffff });
    let mut regs = Registers { sp: 0, ra: 0x3f_ffff_ffff };
    post_mmu(&mut regs);
    assert_eq!(regs, Registers { sp: 0xffff_ffc0_0000_0000, ra: u64::MAX });
}

#[test]
fn fixed_up_registers_reach_what_they_pointed_to() {
    for scheme in [Scheme::Sv39, Scheme::Sv48] {
        let mut tables = [[0u64; 512]; 3];
        pre_mmu(scheme, &mut tables, 0x8020_5000, 0x8000_0000);
        let before = Registers { sp: 0x8024_7ff8, ra: 0x8020_0040 };
        let mut regs = before;
        post_mmu(&mut regs);
        assert_eq!(
            translate(scheme, &tables, 0x8020_5000, regs.sp),
            Some(Translation { paddr: before.sp, flags: PAGE_KERNEL_BLOCK })
        );
        assert_eq!(
            translate(scheme, &tables, 0x8020_5000, regs.ra),
            Some(Translation { paddr: before.ra, flags: PAGE_KERNEL_BLOCK })
        );
    }
}
