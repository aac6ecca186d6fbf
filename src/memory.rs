use vstd::prelude::*;

verus! {

/// Size of a guest page; every memory region is a whole number of pages.
pub const PAGE_SIZE: u64 = 4096;

/// `n` rounded up to the next multiple of the page size.
pub open spec fn page_aligned(n: int) -> int {
    ((n + 4095) / 4096) * 4096
}

/// The size of the region allocated for a request of `requested` bytes:
/// the request rounded up to a whole number of pages. Fails with
/// `VmError::Memory` when that size does not fit in a `u64`.
pub fn region_size(requested: u64) -> (r: Result<u64, crate::error::VmError>)
    ensures
        requested <= u64::MAX - 4095 <==> r is Ok,
        r is Ok ==> r->Ok_0 == page_aligned(requested as int),
        r is Ok ==> r->Ok_0 % 4096 == 0,
        r is Err ==> r->Err_0 == crate::error::VmError::Memory,
{
    if requested > u64::MAX - (PAGE_SIZE - 1) {
        return Err(crate::error::VmError::Memory);
    }
    let pages: u64 = (requested + (PAGE_SIZE - 1)) / PAGE_SIZE;
    assert(pages * 4096 <= requested + 4095) by (nonlinear_arith)
        requires pages == (requested + 4095) / 4096;
    Ok(pages * PAGE_SIZE)
}

/// One registered range of guest-physical memory and the host memory backing it.
#[derive(Clone, Copy, Debug, PartialEq, Eq, Structural)]
pub struct MemoryRegion {
    /// Identifier of the region within its VM context.
    pub slot: u32,
    /// First guest-physical address of the region.
    pub guest_phys_addr: u64,
    /// Length of the region in bytes.
    pub size: u64,
    /// Host virtual address of the backing memory.
    pub host_address: u64,
    /// Registration flags; none are used here.
    pub flags: u32,
}

impl MemoryRegion {
    /// A region is a whole number of pages and ends inside the 64-bit
    /// guest-physical address space.
    pub open spec fn wf(&self) -> bool {
        &&& self.size % 4096 == 0
        &&& self.guest_phys_addr + self.size <= u64::MAX + 1
    }

    /// The single flat region of a guest: slot 0, mapped at guest-physical
    /// address 0, backed by `size` bytes at `host_address`, with no flags.
    pub fn flat(size: u64, host_address: u64) -> (r: MemoryRegion)
        requires
            size % 4096 == 0,
        ensures
            r.wf(),
            r == (MemoryRegion { slot: 0, guest_phys_addr: 0, size, host_address, flags: 0 }),
    {
        MemoryRegion { slot: 0, guest_phys_addr: 0, size, host_address, flags: 0 }
    }

    /// Whether two regions can be registered side by side: distinct slots and
    /// disjoint guest-physical ranges.
    pub open spec fn compatible(&self, other: &MemoryRegion) -> bool {
        &&& self.slot != other.slot
        &&& (self.guest_phys_addr + self.size <= other.guest_phys_addr
            || other.guest_phys_addr + other.size <= self.guest_phys_addr)
    }

    /// Tests whether this region and `other` can both belong to one VM context.
    pub fn can_coexist(&self, other: &MemoryRegion) -> (r: bool)
        requires
            self.wf(),
            other.wf(),
        ensures
            r == self.compatible(other),
    {
        self.slot != other.slot && (self.guest_phys_addr as u128 + self.size as u128
            <= other.guest_phys_addr as u128 || other.guest_phys_addr as u128
            + other.size as u128 <= self.guest_phys_addr as u128)
    }
}

} // verus!
