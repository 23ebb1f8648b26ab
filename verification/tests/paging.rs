use aarch64_bringup::paging::BootLayout;
use aarch64_bringup::paging::FrameBump;
use aarch64_bringup::paging::IDENTITY_MAP_SIZE;
use aarch64_bringup::paging::KERNEL_IMAGE_MAP_SIZE;
use aarch64_bringup::paging::MapRequest;
use aarch64_bringup::paging::PAGE_SIZE;
use aarch64_bringup::paging::align_down_4k;
use aarch64_bringup::paging::align_up_4k;
use aarch64_bringup::paging::kernel_mapping_plan;
use aarch64_bringup::paging::phys_to_virt;

#[test]
fn page_alignment_rounds_as_expected() {
    assert_eq!(align_down_4k(0x1234), 0x1000);
    assert_eq!(align_down_4k(0x1000), 0x1000);
    assert_eq!(align_down_4k(0xFFF), 0);
    assert_eq!(align_up_4k(0x1001), 0x2000);
    assert_eq!(align_up_4k(0x2000), 0x2000);
    assert_eq!(align_up_4k(1), 0x1000);
}

#[test]
fn the_linear_window_shifts_physical_addresses() {
    assert_eq!(phys_to_virt(0x8000_0000, 0xffff_0000_0000_0000), 0xffff_0000_8000_0000);
}

#[test]
fn frames_are_handed_out_one_page_at_a_time() {
    let mut bump = FrameBump::new(0x8000_0000);
    assert_eq!(bump.alloc_frame(), 0x8000_0000);
    assert_eq!(bump.alloc_frame(), 0x8000_1000);
    assert_eq!(bump.alloc_frame(), 0x8000_2000);
    assert_eq!(bump.tb_range(), (0x8000_0000, 3 * PAGE_SIZE));
}

#[test]
fn a_fresh_frame_area_is_empty() {
    let bump = FrameBump::new(0x4000_0000);
    assert_eq!(bump.tb_range(), (0x4000_0000, 0));
}

#[test]
fn the_mapping_plan_covers_image_identity_ram_and_console() {
    let layout = BootLayout {
        kimage_start_vma: 0xffff_8000_4008_0000,
        kimage_start_lma: 0x4008_0000,
        kcode_offset: 0xffff_8000_0000_0000,
        linear_offset: 0xffff_0000_0000_0000,
        ram_regions: vec![(0x4000_0000usize, 0x8000_0000usize), (0x9000_0000, 0x9000_0800)],
        debug_console_base: Some(0x900_0123),
    };
    let plan = kernel_mapping_plan(&layout);
    assert_eq!(plan.len(), 4);
    assert_eq!(
        plan[0],
        MapRequest {
            vaddr: 0xffff_8000_4008_0000,
            paddr: 0x4008_0000,
            size: KERNEL_IMAGE_MAP_SIZE,
            device: false,
        }
    );
    assert_eq!(
        plan[1],
        MapRequest {
            vaddr: 0x4008_0000,
            paddr: 0x4008_0000,
            size: IDENTITY_MAP_SIZE,
            device: false,
        }
    );
    // the region smaller than one page is skipped
    assert_eq!(
        plan[2],
        MapRequest {
            vaddr: 0xffff_0000_4000_0000,
            paddr: 0x4000_0000,
            size: 0x4000_0000,
            device: false,
        }
    );
    assert_eq!(
        plan[3],
        MapRequest {
            vaddr: 0xffff_0000_0900_0000,
            paddr: 0x900_0000,
            size: PAGE_SIZE,
            device: true,
        }
    );
}

#[test]
fn without_a_console_the_plan_ends_at_the_ram_regions() {
    let layout = BootLayout {
        kimage_start_vma: 0xffff_8000_4008_0000,
        kimage_start_lma: 0x4008_0000,
        kcode_offset: 0xffff_8000_0000_0000,
        linear_offset: 0xffff_0000_0000_0000,
        ram_regions: vec![(0x4000_0000usize, 0x4100_0000usize)],
        debug_console_base: None,
    };
    let plan = kernel_mapping_plan(&layout);
    assert_eq!(plan.len(), 3);
    assert!(!plan[2].device);
}
