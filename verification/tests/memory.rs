//! The segmented address space: typed reads and writes, region bounds, and
//! construction from boot-ROM and cartridge images.

use gba_core::Memory;
use gba_core::gba_mem::mem_regions::BusWidth;
use gba_core::gba_mem::mem_regions::ExternRam;
use gba_core::gba_mem::mem_regions::MemRead;
use gba_core::gba_mem::mem_regions::MemWrite;
use gba_core::gba_mem::mem_regions::MemoryRegion;
use gba_core::gba_mem::mem_regions::PakRom;
use gba_core::gba_mem::mem_regions::PalettRam;
use gba_core::gba_mem::mem_regions::RegionName;
use gba_core::gba_mem::mem_regions::SystemRom;
use gba_core::gba_mem::mem_regions::EXT_RAM_LEN;
use gba_core::gba_mem::mem_regions::PAK_ROM_LEN;
use gba_core::gba_mem::mem_regions::SYS_ROM_LEN;

fn fresh_memory(pak: &[u8]) -> Memory {
    let bios = vec![0u8; SYS_ROM_LEN];
    Memory::new(&bios, pak).unwrap()
}

#[test]
fn write32_read_back_bytes() {
    let mut m = fresh_memory(&[]);
    m.write32::<u32>(0x02000000, 0xDEADBEEF);
    // The bus is little-endian: the low byte comes back first.
    let low: u8 = m.read(0x02000000);
    assert_eq!(low, 0xEF);
    let word: u32 = m.read(0x02000000);
    assert_eq!(word, 0xDEADBEEF);
    let half: u16 = m.read(0x02000000);
    assert_eq!(half, 0xBEEF);
    let high_half: u16 = m.read(0x02000002);
    assert_eq!(high_half, 0xDEAD);
    let top: u8 = m.read(0x02000003);
    assert_eq!(top, 0xDE);
}

#[test]
fn signed_reads_reinterpret_the_bits() {
    let mut m = fresh_memory(&[]);
    m.write32::<u32>(0x03000000, 0xFFFF_FF80);
    let sb: i8 = m.read(0x03000000);
    assert_eq!(sb, -128);
    let sh: i16 = m.read(0x03000000);
    assert_eq!(sh, -128);
    let sw: i32 = m.read(0x03000000);
    assert_eq!(sw, -128);
}

#[test]
fn write8_touches_one_byte() {
    let mut m = fresh_memory(&[]);
    m.write32::<u32>(0x02000000, 0x11223344);
    m.write8::<u8>(0x02000001, 0xAB);
    let word: u32 = m.read(0x02000000);
    assert_eq!(word, 0x1122AB44);
}

#[test]
fn write16_to_palette_ram() {
    // Palette RAM refuses 8-bit writes (there is no byte-write
    // implementation to call), but takes 16- and 32-bit ones.
    let mut m = fresh_memory(&[]);
    m.write16::<u16>(0x05000000, 0x7FFF);
    let c: u16 = m.read(0x05000000);
    assert_eq!(c, 0x7FFF);
    m.write32::<u32>(0x050003FC, 0x0123_4567);
    let w: u32 = m.read(0x050003FC);
    assert_eq!(w, 0x0123_4567);
}

#[test]
fn writes_land_in_their_own_region() {
    let mut m = fresh_memory(&[]);
    m.write32::<u32>(0x02000000, 0xAAAAAAAA);
    m.write32::<u32>(0x03000000, 0xBBBBBBBB);
    m.write16::<u16>(0x06000000, 0xCCCC);
    m.write16::<u16>(0x07000000, 0xDDDD);
    let a: u32 = m.read(0x02000000);
    let b: u32 = m.read(0x03000000);
    let c: u16 = m.read(0x06000000);
    let d: u16 = m.read(0x07000000);
    assert_eq!(a, 0xAAAAAAAA);
    assert_eq!(b, 0xBBBBBBBB);
    assert_eq!(c, 0xCCCC);
    assert_eq!(d, 0xDDDD);
}

#[test]
fn boot_rom_image_is_readable() {
    let mut bios = vec![0u8; SYS_ROM_LEN];
    bios[0] = 0x12;
    bios[1] = 0x34;
    bios[SYS_ROM_LEN - 1] = 0x56;
    let m = Memory::new(&bios, &[]).unwrap();
    let first: u16 = m.read(0x00000000);
    assert_eq!(first, 0x3412);
    let last: u8 = m.read(0x0001FFFF);
    assert_eq!(last, 0x56);
}

#[test]
fn cartridge_loads_and_zero_fills() {
    let m = fresh_memory(&[0x01, 0x02, 0x03]);
    let b0: u8 = m.read(0x08000000);
    let b2: u8 = m.read(0x08000002);
    let b3: u8 = m.read(0x08000003);
    assert_eq!(b0, 0x01);
    assert_eq!(b2, 0x03);
    // The shortfall behind the image is zero-filled, to the very end.
    assert_eq!(b3, 0x00);
    let end: u32 = m.read(0x0FFFFFFC);
    assert_eq!(end, 0);
}

#[test]
fn cartridge_is_writable_as_modeled() {
    let mut m = fresh_memory(&[0x01, 0x02, 0x03]);
    m.write8::<u8>(0x08000001, 0x99);
    let b: u8 = m.read(0x08000001);
    assert_eq!(b, 0x99);
}

#[test]
fn oversized_cartridge_is_rejected() {
    let bios = vec![0u8; SYS_ROM_LEN];
    let pak = vec![0u8; PAK_ROM_LEN + 1];
    let err = match Memory::new(&bios, &pak) {
        Ok(_) => panic!("oversized cartridge was accepted"),
        Err(e) => e,
    };
    // The error names the region and carries both sizes.
    assert_eq!(err.region, RegionName::PakRom);
    assert_eq!(err.file_len, PAK_ROM_LEN + 1);
    assert_eq!(err.capacity, PAK_ROM_LEN);
}

#[test]
fn exactly_full_cartridge_is_accepted() {
    let mut pak = vec![0u8; PAK_ROM_LEN];
    pak[PAK_ROM_LEN - 1] = 0x77;
    let m = fresh_memory(&pak);
    let last: u8 = m.read(0x0FFFFFFF);
    assert_eq!(last, 0x77);
}

#[test]
fn region_bounds_and_spans() {
    assert_eq!(SystemRom::lo(), 0x00000000);
    assert_eq!(SystemRom::hi(), 0x0001FFFF);
    assert_eq!(SystemRom::len(), 0x20000);
    assert_eq!(ExternRam::lo(), 0x02000000);
    assert_eq!(ExternRam::hi(), 0x0203FFFF);
    assert_eq!(ExternRam::len(), EXT_RAM_LEN);
    assert_eq!(PakRom::lo(), 0x08000000);
    assert_eq!(PakRom::hi(), 0x0FFFFFFF);
    // The cartridge region spans 128 MiB.
    assert_eq!(PakRom::len(), 128 * 1024 * 1024);
}

#[test]
fn region_containment() {
    assert!(ExternRam::contains(0x02000000));
    assert!(ExternRam::contains(0x0203FFFF));
    assert!(!ExternRam::contains(0x01FFFFFF));
    assert!(!ExternRam::contains(0x02040000));
    assert_eq!(ExternRam::contains_cmp(0x01FFFFFF), -1);
    assert_eq!(ExternRam::contains_cmp(0x02000000), 0);
    assert_eq!(ExternRam::contains_cmp(0x02040000), 1);
}

#[test]
fn bus_widths() {
    assert_eq!(BusWidth::BW16.to_bytes(), 2);
    assert_eq!(BusWidth::BW16.to_bits(), 16);
    assert_eq!(BusWidth::BW32.to_bytes(), 4);
    assert_eq!(BusWidth::BW32.to_bits(), 32);
    assert_eq!(PakRom::bus_width().to_bits(), 16);
    assert_eq!(SystemRom::bus_width().to_bits(), 32);
}

#[test]
fn region_direct_access() {
    let mut r = ExternRam::create_from_array(&vec![0u8; EXT_RAM_LEN]);
    r.write(0x02000010, 0xCAFEBABEu32);
    let w: u32 = r.read(0x02000010);
    assert_eq!(w, 0xCAFEBABE);
    let b: u8 = r.read(0x02000010);
    assert_eq!(b, 0xBE);
}

#[test]
fn region_create_from_buffer_undersized() {
    let r = PalettRam::create_from_buffer(&[0xAA, 0xBB]).unwrap();
    let first: u16 = r.read(0x05000000);
    assert_eq!(first, 0xBBAA);
    let rest: u16 = r.read(0x05000002);
    assert_eq!(rest, 0);
}

#[test]
fn region_create_from_buffer_oversized() {
    let data = vec![0u8; 0x400 + 1];
    let err = match PalettRam::create_from_buffer(&data) {
        Ok(_) => panic!("oversized image was accepted"),
        Err(e) => e,
    };
    assert_eq!(err.region, RegionName::PalettRam);
    assert_eq!(err.file_len, 0x401);
    assert_eq!(err.capacity, 0x400);
}
