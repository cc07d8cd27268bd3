//! The memory map: the fixed table of host-owned regions the guest may
//! address directly, and accessors that compute in-bounds addresses.
//!
//! Every region is a contiguous run of bytes at a fixed absolute address,
//! aliasing storage the host owns for the lifetime of the process. The
//! table is pure data; the accessors here are the only supported way to
//! turn a region and an offset into a raw address, and they never yield
//! an address outside `[base_address, base_address + length_bytes)`.

use vstd::prelude::*;

verus! {

/// The host-owned regions of the guest-visible address space.
#[derive(Clone, Copy, Debug, PartialEq, Eq, Structural)]
pub enum RegionId {
    Framebuffer,
    Tiles,
    Sprites,
    MapData,
    Gamepads,
    Mouse,
    Keyboard,
    SfxState,
    SoundRegisters,
    Waveforms,
    SfxData,
    MusicPatterns,
    MusicTracks,
    SoundState,
    StereoVolume,
    PersistentMemory,
    SpriteFlags,
    SystemFont,
    FreeRam,
}

/// One region of the memory map: a fixed absolute base address and a
/// length in bytes.
#[derive(Clone, Copy, Debug, PartialEq, Eq, Structural)]
pub struct MemoryRegion {
    pub base: u32,
    pub length: u32,
}

impl MemoryRegion {
    /// The region occupies a non-empty, overflow-free span of the
    /// 32-bit address space.
    pub open spec fn well_formed(&self) -> bool {
        &&& self.length > 0
        &&& self.base + self.length <= u32::MAX
    }

    /// Whether an address falls inside the region.
    pub open spec fn contains(&self, addr: int) -> bool {
        self.base <= addr < self.base + self.length
    }

    /// The absolute address of the byte at `offset`. The result always
    /// lies inside the region.
    pub fn byte_addr(&self, offset: u32) -> (r: u32)
        requires
            self.well_formed(),
            offset < self.length,
        ensures
            r == self.base + offset,
            self.contains(r as int),
    {
        self.base + offset
    }

    /// The address of the 4-bit element at `index`, in the nibble-
    /// granular address space the 4-bit read and write primitives use.
    /// The byte the address falls in always lies inside the region.
    pub fn nibble_addr(&self, index: u32) -> (r: u32)
        requires
            self.well_formed(),
            index < 2 * self.length,
            2 * self.base + 2 * self.length <= u32::MAX,
        ensures
            r == 2 * self.base + index,
            self.contains(r as int / 2),
    {
        2 * self.base + index
    }

    /// The address of the 2-bit element at `index`, in the address
    /// space the 2-bit read and write primitives use. The byte the
    /// address falls in always lies inside the region.
    pub fn two_bit_addr(&self, index: u32) -> (r: u32)
        requires
            self.well_formed(),
            index < 4 * self.length,
            4 * self.base + 4 * self.length <= u32::MAX,
        ensures
            r == 4 * self.base + index,
            self.contains(r as int / 4),
    {
        4 * self.base + index
    }

    /// The address of the bit at `index`, in the bit-granular address
    /// space the 1-bit read and write primitives use. The byte the
    /// address falls in always lies inside the region.
    pub fn bit_addr(&self, index: u32) -> (r: u32)
        requires
            self.well_formed(),
            index < 8 * self.length,
            8 * self.base + 8 * self.length <= u32::MAX,
        ensures
            r == 8 * self.base + index,
            self.contains(r as int / 8),
    {
        8 * self.base + index
    }
}

/// The fixed layout of each region, exactly as the host documents it.
pub open spec fn spec_region(id: RegionId) -> MemoryRegion {
    match id {
        RegionId::Framebuffer => MemoryRegion { base: 0x00000u32, length: 16320u32 },
        RegionId::Tiles => MemoryRegion { base: 0x04000u32, length: 8192u32 },
        RegionId::Sprites => MemoryRegion { base: 0x06000u32, length: 8192u32 },
        RegionId::MapData => MemoryRegion { base: 0x08000u32, length: 32640u32 },
        RegionId::Gamepads => MemoryRegion { base: 0x0FF80u32, length: 4u32 },
        RegionId::Mouse => MemoryRegion { base: 0x0FF84u32, length: 4u32 },
        RegionId::Keyboard => MemoryRegion { base: 0x0FF88u32, length: 4u32 },
        RegionId::SfxState => MemoryRegion { base: 0x0FF8Cu32, length: 16u32 },
        RegionId::SoundRegisters => MemoryRegion { base: 0x0FF9Cu32, length: 72u32 },
        RegionId::Waveforms => MemoryRegion { base: 0x0FFE4u32, length: 256u32 },
        RegionId::SfxData => MemoryRegion { base: 0x100E4u32, length: 4224u32 },
        RegionId::MusicPatterns => MemoryRegion { base: 0x11164u32, length: 11520u32 },
        RegionId::MusicTracks => MemoryRegion { base: 0x13E64u32, length: 408u32 },
        RegionId::SoundState => MemoryRegion { base: 0x13FFCu32, length: 4u32 },
        RegionId::StereoVolume => MemoryRegion { base: 0x14000u32, length: 4u32 },
        RegionId::PersistentMemory => MemoryRegion { base: 0x14004u32, length: 1024u32 },
        RegionId::SpriteFlags => MemoryRegion { base: 0x14404u32, length: 512u32 },
        RegionId::SystemFont => MemoryRegion { base: 0x14604u32, length: 2048u32 },
        RegionId::FreeRam => MemoryRegion { base: 0x18000u32, length: 163840u32 },
    }
}

/// Looks a region up in the memory map.
pub fn region(id: RegionId) -> (r: MemoryRegion)
    ensures
        r == spec_region(id),
{
    match id {
        RegionId::Framebuffer => MemoryRegion { base: 0x00000, length: 16320 },
        RegionId::Tiles => MemoryRegion { base: 0x04000, length: 8192 },
        RegionId::Sprites => MemoryRegion { base: 0x06000, length: 8192 },
        RegionId::MapData => MemoryRegion { base: 0x08000, length: 32640 },
        RegionId::Gamepads => MemoryRegion { base: 0x0FF80, length: 4 },
        RegionId::Mouse => MemoryRegion { base: 0x0FF84, length: 4 },
        RegionId::Keyboard => MemoryRegion { base: 0x0FF88, length: 4 },
        RegionId::SfxState => MemoryRegion { base: 0x0FF8C, length: 16 },
        RegionId::SoundRegisters => MemoryRegion { base: 0x0FF9C, length: 72 },
        RegionId::Waveforms => MemoryRegion { base: 0x0FFE4, length: 256 },
        RegionId::SfxData => MemoryRegion { base: 0x100E4, length: 4224 },
        RegionId::MusicPatterns => MemoryRegion { base: 0x11164, length: 11520 },
        RegionId::MusicTracks => MemoryRegion { base: 0x13E64, length: 408 },
        RegionId::SoundState => MemoryRegion { base: 0x13FFC, length: 4 },
        RegionId::StereoVolume => MemoryRegion { base: 0x14000, length: 4 },
        RegionId::PersistentMemory => MemoryRegion { base: 0x14004, length: 1024 },
        RegionId::SpriteFlags => MemoryRegion { base: 0x14404, length: 512 },
        RegionId::SystemFont => MemoryRegion { base: 0x14604, length: 2048 },
        RegionId::FreeRam => MemoryRegion { base: 0x18000, length: 163840 },
    }
}

/// Every region of the map, in address order.
pub open spec fn spec_memory_map() -> Seq<MemoryRegion> {
    seq![
        spec_region(RegionId::Framebuffer),
        spec_region(RegionId::Tiles),
        spec_region(RegionId::Sprites),
        spec_region(RegionId::MapData),
        spec_region(RegionId::Gamepads),
        spec_region(RegionId::Mouse),
        spec_region(RegionId::Keyboard),
        spec_region(RegionId::SfxState),
        spec_region(RegionId::SoundRegisters),
        spec_region(RegionId::Waveforms),
        spec_region(RegionId::SfxData),
        spec_region(RegionId::MusicPatterns),
        spec_region(RegionId::MusicTracks),
        spec_region(RegionId::SoundState),
        spec_region(RegionId::StereoVolume),
        spec_region(RegionId::PersistentMemory),
        spec_region(RegionId::SpriteFlags),
        spec_region(RegionId::SystemFont),
        spec_region(RegionId::FreeRam),
    ]
}

/// Builds the memory map as a vector, in address order.
pub fn memory_map() -> (r: Vec<MemoryRegion>)
    ensures
        r@ == spec_memory_map(),
{
    let mut r: Vec<MemoryRegion> = Vec::new();
    r.push(region(RegionId::Framebuffer));
    r.push(region(RegionId::Tiles));
    r.push(region(RegionId::Sprites));
    r.push(region(RegionId::MapData));
    r.push(region(RegionId::Gamepads));
    r.push(region(RegionId::Mouse));
    r.push(region(RegionId::Keyboard));
    r.push(region(RegionId::SfxState));
    r.push(region(RegionId::SoundRegisters));
    r.push(region(RegionId::Waveforms));
    r.push(region(RegionId::SfxData));
    r.push(region(RegionId::MusicPatterns));
    r.push(region(RegionId::MusicTracks));
    r.push(region(RegionId::SoundState));
    r.push(region(RegionId::StereoVolume));
    r.push(region(RegionId::PersistentMemory));
    r.push(region(RegionId::SpriteFlags));
    r.push(region(RegionId::SystemFont));
    r.push(region(RegionId::FreeRam));
    proof {
        assert(r@ =~= spec_memory_map());
    }
    r
}

/// Every region of the map occupies a valid span.
pub proof fn lemma_memory_map_well_formed()
    ensures
        forall|i: int|
            0 <= i < spec_memory_map().len() ==> (#[trigger] spec_memory_map()[i]).well_formed(),
{
}

/// The regions are laid out in strictly increasing address order, each
/// ending at or before the next one's base: no two regions overlap, so a
/// write kept inside its region can never corrupt another.
pub proof fn lemma_memory_map_disjoint()
    ensures
        forall|i: int, j: int|
            0 <= i < j < spec_memory_map().len() ==> (#[trigger] spec_memory_map()[i]).base
                + spec_memory_map()[i].length <= (#[trigger] spec_memory_map()[j]).base,
{
    assert forall|i: int, j: int| 0 <= i < j < spec_memory_map().len() implies (
    #[trigger] spec_memory_map()[i]).base + spec_memory_map()[i].length <= (
    #[trigger] spec_memory_map()[j]).base by {
        assert(forall|k: int|
            0 <= k < spec_memory_map().len() - 1 ==> (#[trigger] spec_memory_map()[k]).base
                + spec_memory_map()[k].length <= spec_memory_map()[k + 1].base);
        lemma_map_order_transitive(i, j);
    }
}

/// Chains the adjacent-region bounds from `i` up to `j`.
proof fn lemma_map_order_transitive(i: int, j: int)
    requires
        0 <= i < j < spec_memory_map().len(),
    ensures
        spec_memory_map()[i].base + spec_memory_map()[i].length <= spec_memory_map()[j].base,
    decreases j - i,
{
    if j == i + 1 {
    } else {
        lemma_map_order_transitive(i, j - 1);
    }
}

} // verus!
