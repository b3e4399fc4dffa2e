//! Where guest memory goes in the guest-physical address space.
//!
//! The first megabyte is left to the interrupt vector table, the BIOS data area
//! and the legacy devices. The top of the 32-bit address space is left to
//! memory-mapped devices and to the firmware: RAM that would reach into this gap
//! continues above it.

use crate::error::Error;
use crate::sys::structs::{UserspaceMemoryRegion, KVM_MEM_READONLY};
use vstd::prelude::*;

verus! {

/// Where the gap for devices and firmware starts.
pub const MEMORY_GAP_START: u64 = 0xff00_0000;

/// The first address above the gap: the end of the 32-bit address space.
pub const MEMORY_GAP_END: u64 = 0x1_0000_0000;

/// Where RAM starts when it starts above the first megabyte.
pub const MEMORY_RAM_START: u64 = 0x0010_0000;

/// The size of the gap, which is also the largest firmware image that fits.
pub const FIRMWARE_AREA_SIZE: u64 = 0x0100_0000;

/// A range of guest-physical memory that is to be backed by host memory.
#[derive(Debug, Copy, Clone, PartialEq, Eq, Structural)]
pub struct Region {
    /// The number of the memory slot.
    pub slot: u32,
    /// The guest-physical address of the first byte.
    pub base: u64,
    /// The size in bytes.
    pub size: u64,
    /// Whether the guest may only read the range.
    pub readonly: bool,
}

impl Region {
    /// The first address behind the region.
    pub open spec fn end(self) -> int {
        self.base + self.size
    }

    /// Whether the two regions have an address in common.
    pub open spec fn overlaps(self, other: Region) -> bool {
        self.base < other.end() && other.base < self.end()
    }

    /// The region as the kernel wants it described, once host memory at
    /// `userspace_addr` stands behind it.
    pub fn into_sys(self, userspace_addr: u64) -> (sys: UserspaceMemoryRegion)
        ensures
            sys.slot == self.slot,
            sys.flags == if self.readonly {
                KVM_MEM_READONLY
            } else {
                0
            },
            sys.guest_phys_addr == self.base,
            sys.memory_size == self.size,
            sys.userspace_addr == userspace_addr,
    {
        UserspaceMemoryRegion {
            slot: self.slot,
            flags: if self.readonly {
                KVM_MEM_READONLY
            } else {
                0
            },
            guest_phys_addr: self.base,
            memory_size: self.size,
            userspace_addr,
        }
    }
}

/// Whether `memory` bytes of RAM can be laid out at all: they can when the last
/// address of the layout still is a 64-bit number.
pub open spec fn fits(memory: u64) -> bool {
    MEMORY_RAM_START + memory + FIRMWARE_AREA_SIZE <= u64::MAX
}

/// The regions that hold `memory` bytes of RAM.
///
/// RAM that ends at or below the gap is one region that starts at
/// `MEMORY_RAM_START`. RAM that would reach into the gap is two regions: one from
/// address zero up to the gap, and one that starts right behind the gap and holds
/// what the first could not.
pub open spec fn planned(memory: u64) -> Seq<Region> {
    if MEMORY_RAM_START + memory <= MEMORY_GAP_START {
        seq![Region { slot: 0, base: MEMORY_RAM_START, size: memory, readonly: false }]
    } else {
        seq![
            Region { slot: 0, base: 0, size: MEMORY_GAP_START, readonly: false },
            Region {
                slot: 1,
                base: MEMORY_GAP_END,
                size: (MEMORY_RAM_START + memory - MEMORY_GAP_START) as u64,
                readonly: false,
            },
        ]
    }
}

/// Lays out `memory` bytes of RAM.
///
/// Fails with `MemoryMap` exactly when the layout would leave the 64-bit address
/// space.
pub fn layout(memory: u64) -> (regions: Result<Vec<Region>, Error>)
    ensures
        match regions {
            Ok(list) => fits(memory) && list@ == planned(memory),
            Err(error) => !fits(memory) && error == Error::MemoryMap,
        },
{
    if memory > u64::MAX - MEMORY_RAM_START - FIRMWARE_AREA_SIZE {
        return Err(Error::MemoryMap);
    }
    let adjusted: u64 = memory + MEMORY_RAM_START;
    let mut list: Vec<Region> = Vec::new();
    if adjusted > MEMORY_GAP_START {
        list.push(Region { slot: 0, base: 0, size: MEMORY_GAP_START, readonly: false });
        list.push(
            Region {
                slot: 1,
                base: MEMORY_GAP_END,
                size: adjusted - MEMORY_GAP_START,
                readonly: false,
            },
        );
    } else {
        list.push(Region { slot: 0, base: MEMORY_RAM_START, size: memory, readonly: false });
    }
    assert(list@ =~= planned(memory));
    Ok(list)
}

/// The layout splits RAM around the gap and nowhere else.
///
/// RAM that ends at or below the gap is exactly one region, from
/// `MEMORY_RAM_START` on and `memory` bytes long. Otherwise there are exactly two
/// regions: the first runs from zero to the start of the gap, the second starts at
/// the end of the gap and is as long as the part of RAM that did not fit below.
/// The two do not overlap, neither reaches into the gap, and nothing but the gap
/// lies between them.
pub proof fn lemma_layout_split(memory: u64)
    requires
        fits(memory),
    ensures
        MEMORY_RAM_START + memory <= MEMORY_GAP_START ==> {
            &&& planned(memory).len() == 1
            &&& planned(memory)[0].base == MEMORY_RAM_START
            &&& planned(memory)[0].end() == MEMORY_RAM_START + memory
        },
        MEMORY_RAM_START + memory > MEMORY_GAP_START ==> {
            &&& planned(memory).len() == 2
            &&& planned(memory)[0].base == 0
            &&& planned(memory)[0].end() == MEMORY_GAP_START
            &&& planned(memory)[1].base == MEMORY_GAP_END
            &&& planned(memory)[1].end() == MEMORY_GAP_END + (MEMORY_RAM_START + memory
                - MEMORY_GAP_START)
            &&& !planned(memory)[0].overlaps(planned(memory)[1])
            &&& planned(memory)[0].slot != planned(memory)[1].slot
        },
        forall|i: int|
            0 <= i < planned(memory).len() ==> {
                ||| (#[trigger] planned(memory)[i]).end() <= MEMORY_GAP_START
                ||| MEMORY_GAP_END <= planned(memory)[i].base
            },
{
}

/// Where a firmware image of `size` bytes goes: into a read-only region in slot
/// `slot` that ends where the 32-bit address space ends.
///
/// An image that is larger than the firmware area is refused with
/// `InvalidFirmware`.
pub fn firmware_region(slot: u32, size: u64) -> (region: Result<Region, Error>)
    ensures
        match region {
            Ok(found) => size <= FIRMWARE_AREA_SIZE && found == (Region {
                slot,
                base: (MEMORY_GAP_END - size) as u64,
                size,
                readonly: true,
            }),
            Err(error) => size > FIRMWARE_AREA_SIZE && error == Error::InvalidFirmware(
                "firmware is too large",
            ),
        },
{
    if size > FIRMWARE_AREA_SIZE {
        Err(Error::InvalidFirmware("firmware is too large"))
    } else {
        Ok(Region { slot, base: MEMORY_GAP_END - size, size, readonly: true })
    }
}

} // verus!
