use vmm_core::error::Error;
use vmm_core::machine::memory::{
    FIRMWARE_AREA_SIZE, MEMORY_GAP_END, MEMORY_GAP_START, MEMORY_RAM_START,
};
use vmm_core::machine::regions::PAGE_SIZE;
use vmm_core::machine::{firmware_region, layout, MemoryMap, Region};

fn ram(slot: u32, base: u64, size: u64) -> Region {
    Region { slot, base, size, readonly: false }
}

#[test]
fn small_memory_is_one_region_above_the_first_megabyte() {
    assert_eq!(layout(0x4000_0000), Ok(vec![ram(0, 0x0010_0000, 0x4000_0000)]));
    assert_eq!(layout(0), Ok(vec![ram(0, 0x0010_0000, 0)]));
    assert_eq!(layout(1), Ok(vec![ram(0, 0x0010_0000, 1)]));
}

#[test]
fn memory_that_ends_at_the_gap_is_one_region() {
    let memory = MEMORY_GAP_START - MEMORY_RAM_START;
    assert_eq!(memory, 0xfef0_0000);
    assert_eq!(layout(memory), Ok(vec![ram(0, 0x0010_0000, 0xfef0_0000)]));
}

#[test]
fn memory_that_reaches_the_gap_is_split() {
    let memory = MEMORY_GAP_START - MEMORY_RAM_START + 1;
    assert_eq!(
        layout(memory),
        Ok(vec![ram(0, 0, 0xff00_0000), ram(1, 0x1_0000_0000, 1)])
    );
    assert_eq!(
        layout(0x1_0000_0000),
        Ok(vec![ram(0, 0, 0xff00_0000), ram(1, 0x1_0000_0000, 0x0110_0000)])
    );
    assert_eq!(
        layout(1 << 40),
        Ok(vec![ram(0, 0, 0xff00_0000), ram(1, 0x1_0000_0000, (1 << 40) + 0x0010_0000 - 0xff00_0000)])
    );
}

#[test]
fn split_regions_leave_only_the_gap_between_them() {
    let regions = layout(3 << 32).unwrap();
    assert_eq!(regions.len(), 2);
    assert_eq!(regions[0].base + regions[0].size, MEMORY_GAP_START);
    assert_eq!(regions[1].base, MEMORY_GAP_END);
    assert_eq!(regions[0].size + regions[1].size, (3 << 32) + MEMORY_RAM_START);
    assert_ne!(regions[0].slot, regions[1].slot);
}

#[test]
fn memory_that_leaves_the_address_space_is_refused() {
    assert_eq!(layout(u64::MAX), Err(Error::MemoryMap));
    let most = u64::MAX - MEMORY_RAM_START - FIRMWARE_AREA_SIZE;
    assert_eq!(layout(most + 1), Err(Error::MemoryMap));
    let regions = layout(most).unwrap();
    assert_eq!(regions[1].base.checked_add(regions[1].size), Some(u64::MAX));
}

#[test]
fn firmware_ends_where_the_address_space_of_32_bits_ends() {
    assert_eq!(
        firmware_region(2, 0x2_0000),
        Ok(Region { slot: 2, base: 0xfffe_0000, size: 0x2_0000, readonly: true })
    );
    assert_eq!(
        firmware_region(7, FIRMWARE_AREA_SIZE),
        Ok(Region { slot: 7, base: MEMORY_GAP_START, size: 0x0100_0000, readonly: true })
    );
    assert_eq!(
        firmware_region(0, 0),
        Ok(Region { slot: 0, base: 0x1_0000_0000, size: 0, readonly: true })
    );
}

#[test]
fn oversized_firmware_is_refused() {
    assert_eq!(
        firmware_region(2, FIRMWARE_AREA_SIZE + 1),
        Err(Error::InvalidFirmware("firmware is too large"))
    );
    assert_eq!(
        firmware_region(2, u64::MAX),
        Err(Error::InvalidFirmware("firmware is too large"))
    );
}

#[test]
fn regions_describe_themselves_to_the_kernel() {
    let sys = ram(4, 0x1000, 0x2000).into_sys(0x7f00_0000_0000);
    assert_eq!(sys.slot, 4);
    assert_eq!(sys.flags, 0);
    assert_eq!(sys.guest_phys_addr, 0x1000);
    assert_eq!(sys.memory_size, 0x2000);
    assert_eq!(sys.userspace_addr, 0x7f00_0000_0000);
    let firmware = firmware_region(1, 0x1000).unwrap().into_sys(0x1234_0000);
    assert_eq!(firmware.flags, 2);
    assert_eq!(firmware.guest_phys_addr, 0xffff_f000);
}

#[test]
fn memory_map_takes_regions_that_do_not_collide() {
    let mut map = MemoryMap::new();
    assert_eq!(map.len(), 0);
    assert_eq!(map.push(ram(0, 0, 0x1000)), Ok(()));
    assert_eq!(map.push(ram(1, 0x1000, 0x1000)), Ok(()));
    assert_eq!(map.push(ram(2, 0x1_0000_0000, 0x10_0000)), Ok(()));
    assert_eq!(map.len(), 3);
    assert_eq!(map.get(1), Some(ram(1, 0x1000, 0x1000)));
    assert_eq!(map.get(3), None);
}

#[test]
fn memory_map_refuses_overlap_used_slots_and_bad_alignment() {
    let mut map = MemoryMap::new();
    assert_eq!(map.push(ram(0, 0x1000, 0x2000)), Ok(()));
    assert_eq!(map.push(ram(1, 0x2000, 0x1000)), Err(Error::MachineOperation));
    assert_eq!(map.push(ram(1, 0, 0x2000)), Err(Error::MachineOperation));
    assert_eq!(map.push(ram(1, 0, 0x1_0000)), Err(Error::MachineOperation));
    assert_eq!(map.push(ram(0, 0x10_0000, 0x1000)), Err(Error::MachineOperation));
    assert_eq!(map.push(ram(1, 0x3001, 0x1000)), Err(Error::MachineOperation));
    assert_eq!(map.push(ram(1, 0x3000, 0x1001)), Err(Error::MachineOperation));
    assert_eq!(map.push(ram(1, u64::MAX - 0xfff, 0x1000)), Err(Error::MachineOperation));
    assert_eq!(map.len(), 1);
    assert_eq!(map.push(ram(1, 0, 0x1000)), Ok(()));
    assert_eq!(map.push(ram(2, 0x3000, 0x1000)), Ok(()));
    assert_eq!(map.len(), 3);
}

#[test]
fn laid_out_memory_fits_into_a_map() {
    assert_eq!(PAGE_SIZE, 4096);
    for memory in [0x4000_0000u64, 0x1_0000_0000, 1 << 31] {
        let mut map = MemoryMap::new();
        for region in layout(memory).unwrap() {
            assert_eq!(map.push(region), Ok(()));
        }
        let firmware = firmware_region(map.len() as u32, 0x2_0000).unwrap();
        assert_eq!(map.push(firmware), Ok(()));
    }
}
