//! The memory regions of one machine.

use crate::error::Error;
use crate::machine::memory::Region;
use vstd::prelude::*;

verus! {

/// The granularity of memory mappings: base and size of a region are multiples of
/// it.
pub const PAGE_SIZE: u64 = 4096;

/// Whether `region` can be a region of a machine by itself: base and size are
/// multiples of the page size, and the region ends inside the 64-bit address
/// space.
pub open spec fn well_placed(region: Region) -> bool {
    &&& region.base % PAGE_SIZE == 0
    &&& region.size % PAGE_SIZE == 0
    &&& region.base + region.size <= u64::MAX
}

/// Whether `region` can join the regions `present`: it is well placed, its slot
/// is free, and it shares no address with a region that is there already.
pub open spec fn admissible(present: Seq<Region>, region: Region) -> bool {
    &&& well_placed(region)
    &&& forall|i: int|
        0 <= i < present.len() ==> {
            &&& (#[trigger] present[i]).slot != region.slot
            &&& !present[i].overlaps(region)
        }
}

/// Whether `regions` can be the regions of one machine: every one is well placed,
/// no two of them share an address, and no two of them share a slot.
pub open spec fn consistent(regions: Seq<Region>) -> bool {
    &&& forall|i: int| 0 <= i < regions.len() ==> well_placed(#[trigger] regions[i])
    &&& forall|i: int, j: int|
        0 <= i < j < regions.len() ==> {
            &&& (#[trigger] regions[i]).slot != (#[trigger] regions[j]).slot
            &&& !regions[i].overlaps(regions[j])
        }
}

/// The memory regions of one machine, in the order in which they were installed.
#[derive(Debug)]
pub struct MemoryMap {
    regions: Vec<Region>,
}

impl View for MemoryMap {
    type V = Seq<Region>;

    closed spec fn view(&self) -> Seq<Region> {
        self.regions@
    }
}

impl MemoryMap {
    /// Whether the map is in order. Every map that this library hands out is, and
    /// stays so.
    pub open spec fn wf(&self) -> bool {
        consistent(self@)
    }

    /// A map without regions.
    pub fn new() -> (map: MemoryMap)
        ensures
            map.wf(),
            map@ == Seq::<Region>::empty(),
    {
        MemoryMap { regions: Vec::new() }
    }

    /// How many regions the map holds.
    pub fn len(&self) -> (count: usize)
        ensures
            count == self@.len(),
    {
        self.regions.len()
    }

    /// The region at place `index`, if there is one.
    pub fn get(&self, index: usize) -> (region: Option<Region>)
        ensures
            region == if index < self@.len() {
                Some(self@[index as int])
            } else {
                None
            },
    {
        if index < self.regions.len() {
            Some(self.regions[index])
        } else {
            None
        }
    }

    /// Adds a region.
    ///
    /// A region that is not admissible is refused with `MachineOperation`, and the
    /// map stays as it is.
    pub fn push(&mut self, region: Region) -> (added: Result<(), Error>)
        requires
            old(self).wf(),
        ensures
            final(self).wf(),
            match added {
                Ok(_) => admissible(old(self)@, region) && final(self)@ == old(self)@.push(region),
                Err(error) => !admissible(old(self)@, region) && error == Error::MachineOperation
                    && final(self)@ == old(self)@,
            },
    {
        if region.base % PAGE_SIZE != 0 || region.size % PAGE_SIZE != 0 || region.size > u64::MAX
            - region.base {
            return Err(Error::MachineOperation);
        }
        let end: u64 = region.base + region.size;
        let n: usize = self.regions.len();
        let mut i: usize = 0;
        while i < n
            invariant
                n == self.regions@.len(),
                self.regions@ == old(self).regions@,
                consistent(self.regions@),
                i <= n,
                end == region.base + region.size,
                forall|k: int|
                    0 <= k < i ==> {
                        &&& (#[trigger] self.regions@[k]).slot != region.slot
                        &&& !self.regions@[k].overlaps(region)
                    },
            decreases n - i,
        {
            let other = self.regions[i];
            assert(well_placed(self.regions@[i as int]));
            if other.slot == region.slot || (other.base < end && region.base < other.base
                + other.size) {
                return Err(Error::MachineOperation);
            }
            i += 1;
        }
        self.regions.push(region);
        Ok(())
    }
}

/// The regions of a layout can be installed one after another into an empty map
/// whenever the amount of RAM is a multiple of the page size.
pub proof fn lemma_layout_consistent(memory: u64)
    requires
        crate::machine::memory::fits(memory),
        memory % PAGE_SIZE == 0,
    ensures
        consistent(crate::machine::memory::planned(memory)),
{
    let regions = crate::machine::memory::planned(memory);
    assert forall|i: int| 0 <= i < regions.len() implies well_placed(#[trigger] regions[i]) by {}
}

} // verus!
