//! The memory map: documented region layout and in-bounds accessors.

use tic80::memmap::{memory_map, region, MemoryRegion, RegionId};
use tic80::{HEIGHT, WIDTH};

#[test]
fn screen_dimensions() {
    assert_eq!(WIDTH, 240);
    assert_eq!(HEIGHT, 136);
    assert_eq!(tic80::screen_size(), (240, 136));
}

#[test]
fn documented_region_layout() {
    assert_eq!(region(RegionId::Framebuffer), MemoryRegion { base: 0x00000, length: 16320 });
    assert_eq!(region(RegionId::Tiles), MemoryRegion { base: 0x04000, length: 8192 });
    assert_eq!(region(RegionId::Sprites), MemoryRegion { base: 0x06000, length: 8192 });
    assert_eq!(region(RegionId::MapData), MemoryRegion { base: 0x08000, length: 32640 });
    assert_eq!(region(RegionId::Gamepads), MemoryRegion { base: 0x0FF80, length: 4 });
    assert_eq!(region(RegionId::PersistentMemory), MemoryRegion { base: 0x14004, length: 1024 });
    assert_eq!(region(RegionId::FreeRam), MemoryRegion { base: 0x18000, length: 163840 });
}

#[test]
fn map_lists_every_region_in_address_order() {
    let map = memory_map();
    assert_eq!(map.len(), 19);
    for pair in map.windows(2) {
        assert!(pair[0].base + pair[0].length <= pair[1].base, "regions overlap");
    }
}

#[test]
fn byte_addr_stays_in_bounds() {
    let fb = region(RegionId::Framebuffer);
    assert_eq!(fb.byte_addr(0), 0x0000);
    let last = fb.byte_addr(fb.length - 1);
    assert_eq!(last, 16319);
    assert!(last < fb.base + fb.length);
    let pads = region(RegionId::Gamepads);
    assert_eq!(pads.byte_addr(3), 0xFF83);
}

#[test]
fn sub_byte_addrs_scale_the_base() {
    let pads = region(RegionId::Gamepads);
    assert_eq!(pads.nibble_addr(0), 2 * 0xFF80);
    assert_eq!(pads.nibble_addr(7), 2 * 0xFF80 + 7);
    assert_eq!(pads.two_bit_addr(15), 4 * 0xFF80 + 15);
    assert_eq!(pads.bit_addr(31), 8 * 0xFF80 + 31);
}
