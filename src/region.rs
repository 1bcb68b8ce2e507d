use vstd::prelude::*;

use crate::error::VmmError;

verus! {

/// Size of a guest page in bytes; region bases and sizes are multiples of it.
pub const PAGE_SIZE: u64 = 4096;

/// A guest-physical memory region, backed by host memory, installed in a VM
/// under a slot number.
#[derive(Clone, Copy, Debug, PartialEq, Eq, Structural)]
pub struct GuestMemoryRegion {
    pub slot: u32,
    pub guest_phys_addr: u64,
    pub size: u64,
    /// Whether the host should track pages the guest writes.
    pub log_dirty_pages: bool,
}

pub open spec fn page_aligned(n: int) -> bool {
    n % (PAGE_SIZE as int) == 0
}

/// A region on its own is acceptable: non-empty, page-aligned, and its end
/// address is representable.
pub open spec fn region_valid(r: GuestMemoryRegion) -> bool {
    &&& r.size > 0
    &&& page_aligned(r.size as int)
    &&& page_aligned(r.guest_phys_addr as int)
    &&& r.guest_phys_addr + r.size <= u64::MAX
}

/// The guest-physical ranges of two regions share at least one byte.
pub open spec fn regions_overlap(a: GuestMemoryRegion, b: GuestMemoryRegion) -> bool {
    &&& a.guest_phys_addr < b.guest_phys_addr + b.size
    &&& b.guest_phys_addr < a.guest_phys_addr + a.size
}

/// `r` may be added to the installed `regions`: it is valid, and it neither
/// reuses a slot nor overlaps any installed region.
pub open spec fn region_admissible(regions: Seq<GuestMemoryRegion>, r: GuestMemoryRegion) -> bool {
    &&& region_valid(r)
    &&& forall|i: int|
        0 <= i < regions.len() ==> regions[i].slot != r.slot && !regions_overlap(
            #[trigger] regions[i],
            r,
        )
}

/// The installed regions of one VM are valid, with pairwise distinct slots and
/// pairwise disjoint ranges.
pub open spec fn regions_wf(regions: Seq<GuestMemoryRegion>) -> bool {
    &&& forall|i: int| 0 <= i < regions.len() ==> region_valid(#[trigger] regions[i])
    &&& forall|i: int, j: int|
        0 <= i < regions.len() && 0 <= j < regions.len() && i != j ==> (#[trigger] regions[i]).slot
            != (#[trigger] regions[j]).slot && !regions_overlap(regions[i], regions[j])
}

pub fn is_page_aligned(n: u64) -> (r: bool)
    ensures
        r == page_aligned(n as int),
{
    n % PAGE_SIZE == 0
}

impl GuestMemoryRegion {
    /// Checks the region on its own: size non-zero, base and size page-aligned,
    /// end within the 64-bit address space.
    pub fn is_valid(&self) -> (r: bool)
        ensures
            r == region_valid(*self),
    {
        self.size > 0 && is_page_aligned(self.size) && is_page_aligned(self.guest_phys_addr)
            && self.size <= u64::MAX - self.guest_phys_addr
    }

    pub fn overlaps(&self, other: &GuestMemoryRegion) -> (r: bool)
        requires
            region_valid(*self),
            region_valid(*other),
        ensures
            r == regions_overlap(*self, *other),
    {
        self.guest_phys_addr < other.guest_phys_addr + other.size && other.guest_phys_addr
            < self.guest_phys_addr + self.size
    }
}

/// The memory regions installed in one VM, in the order they were registered.
pub struct RegionTable {
    regions: Vec<GuestMemoryRegion>,
}

impl View for RegionTable {
    type V = Seq<GuestMemoryRegion>;

    closed spec fn view(&self) -> Seq<GuestMemoryRegion> {
        self.regions@
    }
}

impl RegionTable {
    pub open spec fn wf(&self) -> bool {
        regions_wf(self@)
    }

    pub fn new() -> (r: RegionTable)
        ensures
            r@ == Seq::<GuestMemoryRegion>::empty(),
            r.wf(),
    {
        RegionTable { regions: Vec::new() }
    }

    pub fn len(&self) -> (r: usize)
        ensures
            r == self@.len(),
    {
        self.regions.len()
    }

    /// Whether some installed region uses `slot`.
    pub fn contains_slot(&self, slot: u32) -> (r: bool)
        ensures
            r == exists|i: int| 0 <= i < self@.len() && (#[trigger] self@[i]).slot == slot,
    {
        let mut i: usize = 0;
        while i < self.regions.len()
            invariant
                i <= self@.len(),
                self@ == self.regions@,
                forall|k: int| 0 <= k < i ==> (#[trigger] self@[k]).slot != slot,
            decreases self.regions.len() - i,
        {
            if self.regions[i].slot == slot {
                return true;
            }
            i += 1;
        }
        false
    }

    /// Installs `r`. Succeeds exactly when `r` is admissible next to the
    /// installed regions; otherwise fails with `InvalidMemoryRegion` and leaves
    /// the table as it was.
    pub fn register(&mut self, r: GuestMemoryRegion) -> (res: Result<(), VmmError>)
        requires
            old(self).wf(),
        ensures
            final(self).wf(),
            res is Ok <==> region_admissible(old(self)@, r),
            res is Ok ==> final(self)@ == old(self)@.push(r),
            res is Err ==> final(self)@ == old(self)@ && res == Err::<(), VmmError>(
                VmmError::InvalidMemoryRegion,
            ),
    {
        if !r.is_valid() {
            return Err(VmmError::InvalidMemoryRegion);
        }
        let mut i: usize = 0;
        while i < self.regions.len()
            invariant
                i <= self@.len(),
                self@ == self.regions@,
                region_valid(r),
                regions_wf(self@),
                forall|k: int|
                    0 <= k < i ==> (#[trigger] self@[k]).slot != r.slot && !regions_overlap(
                        self@[k],
                        r,
                    ),
            decreases self.regions.len() - i,
        {
            let cur = self.regions[i];
            if cur.slot == r.slot || cur.overlaps(&r) {
                return Err(VmmError::InvalidMemoryRegion);
            }
            i += 1;
        }
        self.regions.push(r);
        Ok(())
    }
}

/// A page-aligned, non-empty region registers at slot 0 of a VM with no
/// regions; registering any region at the same slot afterwards fails.
pub proof fn lemma_slot_registers_once(r: GuestMemoryRegion, again: GuestMemoryRegion)
    requires
        region_valid(r),
        r.slot == 0,
        again.slot == r.slot,
    ensures
        region_admissible(Seq::<GuestMemoryRegion>::empty(), r),
        regions_wf(Seq::<GuestMemoryRegion>::empty().push(r)),
        !region_admissible(Seq::<GuestMemoryRegion>::empty().push(r), again),
{
    let s = Seq::<GuestMemoryRegion>::empty().push(r);
    assert(s[0] == r);
}

} // verus!
