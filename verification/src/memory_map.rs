//! Scanning the physical memory map handed over at boot and choosing the
//! range that backs the kernel heap.

use vstd::prelude::*;

verus! {

/// What a region of physical memory is used for.
#[derive(Clone, Copy, Debug, PartialEq, Eq)]
pub enum MemoryRegionKind {
    /// Free conventional memory.
    Usable,
    /// Memory occupied by the bootloader's own mappings.
    Bootloader,
    /// A region of unknown purpose reported by UEFI firmware, with its type tag.
    UnknownUefi(u32),
    /// A region of unknown purpose reported by BIOS firmware, with its E820 type.
    UnknownBios(u32),
}

/// One entry of the boot memory map.
#[derive(Clone, Copy, Debug, PartialEq, Eq)]
pub struct MemoryRegion {
    /// Physical start address.
    pub start: u64,
    /// Physical end address.
    pub end: u64,
    /// Purpose of the region.
    pub kind: MemoryRegionKind,
}

/// The virtual address range given to the heap allocator.
#[derive(Clone, Copy, Debug, PartialEq, Eq)]
pub struct HeapRange {
    /// First virtual address of the heap.
    pub start: u64,
    /// Number of bytes in the heap.
    pub size: u64,
}

/// Why no heap range could be chosen.
#[derive(Clone, Copy, Debug, PartialEq, Eq)]
pub enum HeapError {
    /// The memory map holds no region of kind `Bootloader`.
    NoBootloaderRegion,
    /// The heap bounds computed from the map do not fit in 64 bits, or the
    /// heap would end before it starts.
    RangeOverflow,
}

/// Index of the first region of kind `Bootloader`, if there is one.
pub open spec fn first_bootloader(regions: Seq<MemoryRegion>) -> Option<int>
    decreases regions.len(),
{
    if regions.len() == 0 {
        None
    } else if regions[0].kind is Bootloader {
        Some(0)
    } else {
        match first_bootloader(regions.drop_first()) {
            Some(i) => Some(i + 1),
            None => None,
        }
    }
}

/// First heap address for a bootloader region ending at `boot_end`.
pub open spec fn heap_start(boot_end: u64, physical_memory_offset: u64) -> int {
    boot_end + 1 + physical_memory_offset
}

/// Heap size when the map's last region ends at `last_end`.
pub open spec fn heap_size(boot_end: u64, last_end: u64) -> int {
    last_end - (boot_end + 1)
}

/// The heap range that a memory map and a physical-memory offset determine.
pub open spec fn heap_for(regions: Seq<MemoryRegion>, physical_memory_offset: u64) -> Result<
    HeapRange,
    HeapError,
> {
    match first_bootloader(regions) {
        None => Err(HeapError::NoBootloaderRegion),
        Some(i) => {
            let start = heap_start(regions[i].end, physical_memory_offset);
            let size = heap_size(regions[i].end, regions.last().end);
            if start <= u64::MAX && 0 <= size {
                Ok(HeapRange { start: start as u64, size: size as u64 })
            } else {
                Err(HeapError::RangeOverflow)
            }
        },
    }
}

/// `first_bootloader` finds a `Bootloader` region exactly when one exists,
/// and no region before the one it finds is of that kind.
pub proof fn lemma_first_bootloader(regions: Seq<MemoryRegion>)
    ensures
        match first_bootloader(regions) {
            Some(i) => {
                &&& 0 <= i < regions.len()
                &&& regions[i].kind is Bootloader
                &&& forall|j: int| 0 <= j < i ==> !(#[trigger] regions[j].kind is Bootloader)
            },
            None => forall|j: int|
                0 <= j < regions.len() ==> !(#[trigger] regions[j].kind is Bootloader),
        },
    decreases regions.len(),
{
    if regions.len() > 0 && !(regions[0].kind is Bootloader) {
        let rest = regions.drop_first();
        lemma_first_bootloader(rest);
        match first_bootloader(rest) {
            Some(i) => {
                assert forall|j: int| 0 <= j < i + 1 implies !(#[trigger] regions[j].kind
                    is Bootloader) by {
                    if j > 0 {
                        assert(rest[j - 1] == regions[j]);
                    }
                }
            },
            None => {
                assert forall|j: int| 0 <= j < regions.len() implies !(
                #[trigger] regions[j].kind is Bootloader) by {
                    if j > 0 {
                        assert(rest[j - 1] == regions[j]);
                    }
                }
            },
        }
    }
}

/// Among the regions before index `n`, none is of kind `Bootloader`.
spec fn none_before(regions: Seq<MemoryRegion>, n: int) -> bool {
    forall|j: int| 0 <= j < n ==> !(#[trigger] regions[j].kind is Bootloader)
}

/// If the first `Bootloader` region is known by its defining property, it
/// is the one `first_bootloader` returns.
proof fn lemma_first_bootloader_is(regions: Seq<MemoryRegion>, i: int)
    requires
        0 <= i < regions.len(),
        regions[i].kind is Bootloader,
        none_before(regions, i),
    ensures
        first_bootloader(regions) == Some(i),
{
    lemma_first_bootloader(regions);
}

/// The heap between the end of the first `Bootloader` region and the end
/// of the map, if its bounds can be held in 64 bits.
fn heap_between(boot_end: u64, last_end: u64, physical_memory_offset: u64) -> (r: Result<
    HeapRange,
    HeapError,
>)
    ensures
        r == if heap_start(boot_end, physical_memory_offset) <= u64::MAX && 0 <= heap_size(
            boot_end,
            last_end,
        ) {
            Ok::<HeapRange, HeapError>(
                HeapRange {
                    start: heap_start(boot_end, physical_memory_offset) as u64,
                    size: heap_size(boot_end, last_end) as u64,
                },
            )
        } else {
            Err::<HeapRange, HeapError>(HeapError::RangeOverflow)
        },
{
    if boot_end == u64::MAX || physical_memory_offset > u64::MAX - (boot_end + 1) || last_end
        < boot_end + 1 {
        Err(HeapError::RangeOverflow)
    } else {
        Ok(
            HeapRange {
                start: boot_end + 1 + physical_memory_offset,
                size: last_end - (boot_end + 1),
            },
        )
    }
}

/// Picks the heap: it starts one byte past the end of the first
/// `Bootloader` region, shifted by the physical-memory offset, and runs to
/// the end of the last region of the map.
pub fn select_heap(regions: &[MemoryRegion], physical_memory_offset: u64) -> (r: Result<
    HeapRange,
    HeapError,
>)
    ensures
        r == heap_for(regions@, physical_memory_offset),
{
    let n: usize = regions.len();
    let mut i: usize = 0;
    while i < n
        invariant
            n == regions@.len(),
            i <= n,
            none_before(regions@, i as int),
        decreases n - i,
    {
        match regions[i].kind {
            MemoryRegionKind::Bootloader => {
                proof {
                    lemma_first_bootloader_is(regions@, i as int);
                }
                return heap_between(regions[i].end, regions[n - 1].end, physical_memory_offset);
            },
            _ => {},
        }
        i = i + 1;
    }
    proof {
        lemma_first_bootloader(regions@);
    }
    Err(HeapError::NoBootloaderRegion)
}

/// Appending a region keeps the first `Bootloader` region found so far,
/// and finds the new region where none was found before.
pub proof fn lemma_first_bootloader_push(regions: Seq<MemoryRegion>, region: MemoryRegion)
    ensures
        first_bootloader(regions.push(region)) == match first_bootloader(regions) {
            Some(i) => Some(i),
            None => if region.kind is Bootloader {
                Some(regions.len() as int)
            } else {
                None
            },
        },
    decreases regions.len(),
{
    let all = regions.push(region);
    if regions.len() == 0 {
        assert(all.drop_first() =~= Seq::<MemoryRegion>::empty());
        assert(first_bootloader(all.drop_first()) is None);
    } else {
        assert(all[0] == regions[0]);
        assert(all.drop_first() =~= regions.drop_first().push(region));
        lemma_first_bootloader_push(regions.drop_first(), region);
    }
}

/// A scan of the memory map, one region at a time.  It keeps what the
/// heap depends on: the end of the first `Bootloader` region and the end
/// of the last region seen.  It needs no storage for the map.
pub struct HeapScan {
    boot_end: Option<u64>,
    last_end: Option<u64>,
    seen: Ghost<Seq<MemoryRegion>>,
}

impl View for HeapScan {
    type V = Seq<MemoryRegion>;

    /// The regions visited so far, in their order.
    closed spec fn view(&self) -> Seq<MemoryRegion> {
        self.seen@
    }
}

impl HeapScan {
    /// What is kept agrees with the regions visited.
    #[verifier::type_invariant]
    closed spec fn agrees(self) -> bool {
        &&& self.boot_end == match first_bootloader(self.seen@) {
            Some(i) => Some(self.seen@[i].end),
            None => None,
        }
        &&& self.last_end == if self.seen@.len() > 0 {
            Some(self.seen@.last().end)
        } else {
            None
        }
    }

    /// A scan that has visited nothing.
    pub fn new() -> (scan: HeapScan)
        ensures
            scan@ == Seq::<MemoryRegion>::empty(),
    {
        HeapScan { boot_end: None, last_end: None, seen: Ghost(Seq::empty()) }
    }

    /// Visits the next region of the map.
    pub fn visit(&mut self, region: MemoryRegion)
        ensures
            final(self)@ == old(self)@.push(region),
    {
        proof {
            use_type_invariant(&*self);
            lemma_first_bootloader_push(self.seen@, region);
            lemma_first_bootloader(self.seen@);
        }
        let boot_end: Option<u64> = match self.boot_end {
            Some(end) => Some(end),
            None => match region.kind {
                MemoryRegionKind::Bootloader => Some(region.end),
                _ => None,
            },
        };
        let ghost seen = self.seen@.push(region);
        *self = HeapScan { boot_end, last_end: Some(region.end), seen: Ghost(seen) };
    }

    /// The heap that the regions visited determine: what `select_heap`
    /// gives for them.
    pub fn finish(&self, physical_memory_offset: u64) -> (r: Result<HeapRange, HeapError>)
        ensures
            r == heap_for(self@, physical_memory_offset),
    {
        proof {
            use_type_invariant(self);
            lemma_first_bootloader(self.seen@);
        }
        match (self.boot_end, self.last_end) {
            (Some(boot_end), Some(last_end)) => heap_between(
                boot_end,
                last_end,
                physical_memory_offset,
            ),
            _ => Err(HeapError::NoBootloaderRegion),
        }
    }
}

} // verus!
