//! Kernel mapping plan and boot page-table frame accounting.
//!
//! The boot core maps the kernel image, an identity window over its load
//! area, every usable RAM region into the kernel's linear window, and
//! the debug console page.  Building the page tables is delegated to a
//! generic paging library in the unverified shell; this module decides
//! exactly which mappings are requested and accounts for the physical
//! frames the tables consume.

use vstd::prelude::*;

verus! {

/// One page of 4096 bytes, the granule of every mapping decision here.
pub const PAGE_SIZE: usize = 4096;

/// How much of the kernel image window is mapped.
pub const KERNEL_IMAGE_MAP_SIZE: usize = 0x2000_0000;

/// How much of the kernel load area is identity-mapped.
pub const IDENTITY_MAP_SIZE: usize = 0x4000_0000;

/// Rounds an address down to its page base.
pub fn align_down_4k(addr: usize) -> (r: usize)
    ensures
        r == addr - (addr % PAGE_SIZE),
        r % PAGE_SIZE == 0,
        r <= addr,
{
    addr / PAGE_SIZE * PAGE_SIZE
}

/// Rounds an address up to the next page boundary.
pub fn align_up_4k(addr: usize) -> (r: usize)
    requires
        addr + PAGE_SIZE - 1 <= usize::MAX,
    ensures
        r % PAGE_SIZE == 0,
        addr <= r < addr + PAGE_SIZE,
{
    let rem = addr % PAGE_SIZE;
    if rem == 0 {
        addr
    } else {
        addr - rem + PAGE_SIZE
    }
}

/// Translates a physical address into the kernel's linear window.
pub fn phys_to_virt(paddr: usize, linear_offset: usize) -> (vaddr: usize)
    requires
        paddr + linear_offset <= usize::MAX,
    ensures
        vaddr == paddr + linear_offset,
{
    paddr + linear_offset
}

/// Bump allocator over the physical area right behind the kernel that
/// the boot page tables are built from: frames are handed out one page
/// at a time and never returned.
pub struct FrameBump {
    start: usize,
    next: usize,
}

impl FrameBump {
    /// Where the page-table area begins.
    pub closed spec fn start(&self) -> usize {
        self.start
    }

    /// The first physical address not yet handed out.
    pub closed spec fn next_frame(&self) -> usize {
        self.next
    }

    /// The area never shrinks below its start.
    pub open spec fn wf(&self) -> bool {
        self.start() <= self.next_frame()
    }

    /// A fresh area beginning at `start`: nothing handed out yet.
    pub fn new(start: usize) -> (a: Self)
        ensures
            a.wf(),
            a.start() == start,
            a.next_frame() == start,
    {
        FrameBump { start, next: start }
    }

    /// Hands out the next physical frame.
    pub fn alloc_frame(&mut self) -> (paddr: usize)
        requires
            old(self).wf(),
            old(self).next_frame() + PAGE_SIZE <= usize::MAX,
        ensures
            final(self).wf(),
            paddr == old(self).next_frame(),
            final(self).next_frame() == old(self).next_frame() + PAGE_SIZE,
            final(self).start() == old(self).start(),
    {
        let addr = self.next;
        self.next = self.next + PAGE_SIZE;
        addr
    }

    /// The physical range the boot page tables occupy: its start and the
    /// number of bytes handed out so far.
    pub fn tb_range(&self) -> (r: (usize, usize))
        requires
            self.wf(),
        ensures
            r.0 == self.start(),
            r.1 == self.next_frame() - self.start(),
    {
        (self.start, self.next - self.start)
    }
}

/// One mapping the shell must enter into the boot page table.  A device
/// mapping is read-write device memory; every other mapping is
/// read-write-execute normal memory.
#[derive(Clone, Copy, Debug, PartialEq, Eq, Structural)]
pub struct MapRequest {
    pub vaddr: usize,
    pub paddr: usize,
    pub size: usize,
    pub device: bool,
}

/// What the boot environment reports about the kernel's placement: where
/// the image runs and was loaded, the virtual-to-physical offset of the
/// kernel code, the offset of the linear window, the usable RAM regions
/// as (start, end) pairs, and the debug console's register page, if any.
pub struct BootLayout {
    pub kimage_start_vma: usize,
    pub kimage_start_lma: usize,
    pub kcode_offset: usize,
    pub linear_offset: usize,
    pub ram_regions: Vec<(usize, usize)>,
    pub debug_console_base: Option<usize>,
}

impl BootLayout {
    /// The addresses the mapping plan computes with stay representable:
    /// the image window sits above its code offset, every RAM region is
    /// ordered and fits into the linear window, and so does the console
    /// page.
    pub open spec fn wf(&self) -> bool {
        &&& self.kimage_start_vma >= self.kcode_offset
        &&& forall|i: int|
            0 <= i < self.ram_regions@.len() ==> (#[trigger] self.ram_regions@[i]).0
                <= self.ram_regions@[i].1
        &&& forall|i: int|
            0 <= i < self.ram_regions@.len() ==> (#[trigger] self.ram_regions@[i]).0
                + self.linear_offset <= usize::MAX
        &&& match self.debug_console_base {
            Some(base) => base + self.linear_offset <= usize::MAX,
            None => true,
        }
    }

    /// Tests representability before the plan is computed, so a caller
    /// can refuse a reported layout instead of overflowing on it.
    pub fn check(&self) -> (r: bool)
        ensures
            r == self.wf(),
    {
        if self.kimage_start_vma < self.kcode_offset {
            return false;
        }
        match self.debug_console_base {
            Some(base) => {
                if base > usize::MAX - self.linear_offset {
                    return false;
                }
            },
            None => {},
        }
        let n = self.ram_regions.len();
        let mut i: usize = 0;
        while i < n
            invariant
                n == self.ram_regions@.len(),
                i <= n,
                forall|j: int|
                    0 <= j < i ==> (#[trigger] self.ram_regions@[j]).0 <= self.ram_regions@[j].1,
                forall|j: int|
                    0 <= j < i ==> (#[trigger] self.ram_regions@[j]).0 + self.linear_offset
                        <= usize::MAX,
            decreases n - i,
        {
            let (start, end) = self.ram_regions[i];
            if start > end {
                return false;
            }
            if start > usize::MAX - self.linear_offset {
                return false;
            }
            i = i + 1;
        }
        true
    }
}

/// The linear-window mappings of the usable RAM regions, in report
/// order: a region smaller than one page is skipped, every other region
/// is mapped at its start plus the linear offset.
pub open spec fn spec_ram_mappings(regions: Seq<(usize, usize)>, linear_offset: usize) -> Seq<
    MapRequest,
>
    decreases regions.len(),
{
    if regions.len() == 0 {
        Seq::empty()
    } else {
        let rest = spec_ram_mappings(regions.drop_last(), linear_offset);
        let r = regions.last();
        if r.1 - r.0 < PAGE_SIZE {
            rest
        } else {
            rest.push(
                MapRequest {
                    vaddr: (r.0 + linear_offset) as usize,
                    paddr: r.0,
                    size: (r.1 - r.0) as usize,
                    device: false,
                },
            )
        }
    }
}

/// The mapping of the kernel image window: its running addresses, backed
/// by the physical pages the code offset points at.
pub open spec fn spec_image_mapping(layout: BootLayout) -> MapRequest {
    MapRequest {
        vaddr: layout.kimage_start_vma,
        paddr: (layout.kimage_start_vma - layout.kcode_offset) as usize,
        size: KERNEL_IMAGE_MAP_SIZE,
        device: false,
    }
}

/// The identity mapping over the kernel's load area.
pub open spec fn spec_identity_mapping(layout: BootLayout) -> MapRequest {
    MapRequest {
        vaddr: layout.kimage_start_lma,
        paddr: layout.kimage_start_lma,
        size: IDENTITY_MAP_SIZE,
        device: false,
    }
}

/// The device mapping of the debug console's register page in the linear
/// window, when a console was reported.
pub open spec fn spec_console_mapping(layout: BootLayout) -> Seq<MapRequest> {
    match layout.debug_console_base {
        Some(base) => {
            let page = (base - (base % PAGE_SIZE)) as usize;
            seq![
                MapRequest {
                    vaddr: (page + layout.linear_offset) as usize,
                    paddr: page,
                    size: PAGE_SIZE,
                    device: true,
                },
            ]
        },
        None => Seq::empty(),
    }
}

/// Every mapping the boot page table must hold, in the order the boot
/// core enters them: the kernel image, the identity window, the RAM
/// regions, and last the console page.
pub open spec fn spec_kernel_mappings(layout: BootLayout) -> Seq<MapRequest> {
    seq![spec_image_mapping(layout), spec_identity_mapping(layout)] + spec_ram_mappings(
        layout.ram_regions@,
        layout.linear_offset,
    ) + spec_console_mapping(layout)
}

/// Computes the full mapping plan of the boot page table from the
/// reported kernel placement.
pub fn kernel_mapping_plan(layout: &BootLayout) -> (plan: Vec<MapRequest>)
    requires
        layout.wf(),
    ensures
        plan@ == spec_kernel_mappings(*layout),
{
    let mut plan: Vec<MapRequest> = Vec::new();
    plan.push(
        MapRequest {
            vaddr: layout.kimage_start_vma,
            paddr: layout.kimage_start_vma - layout.kcode_offset,
            size: KERNEL_IMAGE_MAP_SIZE,
            device: false,
        },
    );
    plan.push(
        MapRequest {
            vaddr: layout.kimage_start_lma,
            paddr: layout.kimage_start_lma,
            size: IDENTITY_MAP_SIZE,
            device: false,
        },
    );
    let n = layout.ram_regions.len();
    let mut i: usize = 0;
    while i < n
        invariant
            layout.wf(),
            n == layout.ram_regions@.len(),
            i <= n,
            plan@ == seq![spec_image_mapping(*layout), spec_identity_mapping(*layout)]
                + spec_ram_mappings(layout.ram_regions@.take(i as int), layout.linear_offset),
        decreases n - i,
    {
        let (start, end) = layout.ram_regions[i];
        proof {
            assert(layout.ram_regions@.take(i + 1).drop_last() =~= layout.ram_regions@.take(
                i as int,
            ));
            assert(layout.ram_regions@.take(i + 1).last() == layout.ram_regions@[i as int]);
        }
        if end - start >= PAGE_SIZE {
            plan.push(
                MapRequest {
                    vaddr: start + layout.linear_offset,
                    paddr: start,
                    size: end - start,
                    device: false,
                },
            );
        }
        i = i + 1;
    }
    proof {
        assert(layout.ram_regions@.take(n as int) =~= layout.ram_regions@);
    }
    match layout.debug_console_base {
        Some(base) => {
            let page = align_down_4k(base);
            plan.push(
                MapRequest {
                    vaddr: page + layout.linear_offset,
                    paddr: page,
                    size: PAGE_SIZE,
                    device: true,
                },
            );
        },
        None => {},
    }
    proof {
        assert(plan@ =~= spec_kernel_mappings(*layout));
    }
    plan
}

} // verus!
