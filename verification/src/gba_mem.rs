//! The GBA address space: seven disjoint memory regions and the dispatcher
//! that routes each typed access to the region owning its address.

use vstd::prelude::*;

pub mod buffer;
pub mod mem_regions;

use self::buffer::splice;
use self::mem_regions::ExternRam;
use self::mem_regions::InternRam;
use self::mem_regions::MemRead;
use self::mem_regions::MemWrite;
use self::mem_regions::MemoryRegion;
use self::mem_regions::OAM;
use self::mem_regions::PakRom;
use self::mem_regions::PalettRam;
use self::mem_regions::RegionFileError;
use self::mem_regions::RegionName;
use self::mem_regions::SystemRom;
use self::mem_regions::VisualRam;
use self::mem_regions::EXT_RAM_LO;
use self::mem_regions::INT_RAM_LO;
use self::mem_regions::OAM_LO;
use self::mem_regions::PAK_ROM_LEN;
use self::mem_regions::PAK_ROM_LO;
use self::mem_regions::PAL_RAM_LO;
use self::mem_regions::SYS_ROM_LEN;
use self::mem_regions::VIS_RAM_LO;
use self::mem_regions::region_wf;

verus! {

/// An address on the memory bus.
pub type Address = usize;

/// Whether an access of `w` bytes starting at `addr` lies wholly inside
/// region `R`.
pub open spec fn fits<R: MemoryRegion>(addr: Address, w: int) -> bool {
    R::spec_lo() <= addr <= R::spec_hi() && addr + w - 1 <= R::spec_hi()
}

/// Every byte of a buffer is zero.
pub open spec fn all_zero(s: Seq<u8>) -> bool {
    forall|i: int| 0 <= i < s.len() ==> s[i] == 0u8
}

/// The full address space: one instance of every region. The regions never
/// overlap, so every valid address belongs to exactly one of them; an address
/// outside all seven is a programming error, excluded by precondition and
/// fatal on the unverified path.
pub struct Memory {
    pub sys_rom: SystemRom,
    pub ext_ram: ExternRam,
    pub int_ram: InternRam,
    pub pal_ram: PalettRam,
    pub vis_ram: VisualRam,
    pub oam: OAM,
    pub pak_rom: PakRom,
}

impl Memory {
    /// Every region's buffer matches its span.
    pub open spec fn wf(&self) -> bool {
        &&& region_wf(&self.sys_rom)
        &&& region_wf(&self.ext_ram)
        &&& region_wf(&self.int_ram)
        &&& region_wf(&self.pal_ram)
        &&& region_wf(&self.vis_ram)
        &&& region_wf(&self.oam)
        &&& region_wf(&self.pak_rom)
    }

    /// Builds the address space from the boot-ROM image, which must fill its
    /// region exactly, and the cartridge file contents, which may fall short
    /// of the cartridge region (zero-filled) but must not exceed it. All RAM
    /// starts zeroed.
    pub fn new(bios: &[u8], pak: &[u8]) -> (r: Result<Memory, RegionFileError>)
        requires
            bios@.len() == SYS_ROM_LEN,
        ensures
            pak@.len() > PAK_ROM_LEN ==> (r matches Err(e) && e.region == RegionName::PakRom
                && e.file_len as nat == pak@.len() && e.capacity == PAK_ROM_LEN),
            pak@.len() <= PAK_ROM_LEN ==> (r matches Ok(m) && m.wf() && m.sys_rom.contents()
                == bios@ && m.pak_rom.contents().subrange(0, pak@.len() as int) == pak@ && (
            forall|i: int|
                pak@.len() <= i < PAK_ROM_LEN ==> m.pak_rom.contents()[i] == 0u8) && all_zero(
                m.ext_ram.contents(),
            ) && all_zero(m.int_ram.contents()) && all_zero(m.pal_ram.contents()) && all_zero(
                m.vis_ram.contents(),
            ) && all_zero(m.oam.contents())),
    {
        let pak_rom = match PakRom::create_from_buffer(pak) {
            Ok(p) => p,
            Err(e) => {
                return Err(e);
            },
        };
        Ok(
            Memory {
                sys_rom: SystemRom::create_from_array(bios),
                ext_ram: ExternRam::default(),
                int_ram: InternRam::default(),
                pal_ram: PalettRam::default(),
                vis_ram: VisualRam::default(),
                oam: OAM::default(),
                pak_rom,
            },
        )
    }

    /// Reads a value of type `T` at `addr`, routed to the region whose
    /// bounds contain the access. The whole access must lie inside one
    /// region that supports reads at this width.
    pub fn read<T>(&self, addr: Address) -> (r: T) where
        SystemRom: MemRead<T>,
        ExternRam: MemRead<T>,
        InternRam: MemRead<T>,
        PalettRam: MemRead<T>,
        VisualRam: MemRead<T>,
        OAM: MemRead<T>,
        PakRom: MemRead<T>,

        requires
            self.wf(),
            fits::<SystemRom>(addr, <SystemRom as MemRead<T>>::read_width()) || fits::<ExternRam>(
                addr,
                <ExternRam as MemRead<T>>::read_width(),
            ) || fits::<InternRam>(addr, <InternRam as MemRead<T>>::read_width()) || fits::<
                PalettRam,
            >(addr, <PalettRam as MemRead<T>>::read_width()) || fits::<VisualRam>(
                addr,
                <VisualRam as MemRead<T>>::read_width(),
            ) || fits::<OAM>(addr, <OAM as MemRead<T>>::read_width()) || fits::<PakRom>(
                addr,
                <PakRom as MemRead<T>>::read_width(),
            ),
        ensures
            fits::<SystemRom>(addr, <SystemRom as MemRead<T>>::read_width()) ==> r
                == self.sys_rom.read_spec(addr),
            fits::<ExternRam>(addr, <ExternRam as MemRead<T>>::read_width()) ==> r
                == self.ext_ram.read_spec(addr),
            fits::<InternRam>(addr, <InternRam as MemRead<T>>::read_width()) ==> r
                == self.int_ram.read_spec(addr),
            fits::<PalettRam>(addr, <PalettRam as MemRead<T>>::read_width()) ==> r
                == self.pal_ram.read_spec(addr),
            fits::<VisualRam>(addr, <VisualRam as MemRead<T>>::read_width()) ==> r
                == self.vis_ram.read_spec(addr),
            fits::<OAM>(addr, <OAM as MemRead<T>>::read_width()) ==> r == self.oam.read_spec(addr),
            fits::<PakRom>(addr, <PakRom as MemRead<T>>::read_width()) ==> r
                == self.pak_rom.read_spec(addr),
    {
        if addr >= SystemRom::lo() && addr <= SystemRom::hi() {
            self.sys_rom.read(addr)
        } else if addr >= ExternRam::lo() && addr <= ExternRam::hi() {
            self.ext_ram.read(addr)
        } else if addr >= InternRam::lo() && addr <= InternRam::hi() {
            self.int_ram.read(addr)
        } else if addr >= PalettRam::lo() && addr <= PalettRam::hi() {
            self.pal_ram.read(addr)
        } else if addr >= VisualRam::lo() && addr <= VisualRam::hi() {
            self.vis_ram.read(addr)
        } else if addr >= OAM::lo() && addr <= OAM::hi() {
            self.oam.read(addr)
        } else if addr >= PakRom::lo() && addr <= PakRom::hi() {
            self.pak_rom.read(addr)
        } else {
            unreached()
        }
    }

    /// Writes a value of type `T` at `addr`, at 8-bit granularity: only the
    /// regions that accept byte writes participate. Writing anywhere else is
    /// a programming error, excluded by precondition.
    pub fn write8<T>(&mut self, addr: Address, val: T) where
        ExternRam: MemWrite<T>,
        InternRam: MemWrite<T>,
        PakRom: MemWrite<T>,

        requires
            old(self).wf(),
            fits::<ExternRam>(addr, <ExternRam as MemWrite<T>>::write_width()) || fits::<InternRam>(
                addr,
                <InternRam as MemWrite<T>>::write_width(),
            ) || fits::<PakRom>(addr, <PakRom as MemWrite<T>>::write_width()),
        ensures
            final(self).wf(),
            fits::<ExternRam>(addr, <ExternRam as MemWrite<T>>::write_width()) ==> final(self).ext_ram.contents() == splice(
                old(self).ext_ram.contents(),
                addr - EXT_RAM_LO,
                <ExternRam as MemWrite<T>>::write_bytes(val),
            ),
            !fits::<ExternRam>(addr, <ExternRam as MemWrite<T>>::write_width()) ==> final(self).ext_ram == old(self).ext_ram,
            fits::<InternRam>(addr, <InternRam as MemWrite<T>>::write_width()) ==> final(self).int_ram.contents() == splice(
                old(self).int_ram.contents(),
                addr - INT_RAM_LO,
                <InternRam as MemWrite<T>>::write_bytes(val),
            ),
            !fits::<InternRam>(addr, <InternRam as MemWrite<T>>::write_width()) ==> final(self).int_ram == old(self).int_ram,
            fits::<PakRom>(addr, <PakRom as MemWrite<T>>::write_width()) ==> final(self).pak_rom.contents() == splice(
                old(self).pak_rom.contents(),
                addr - PAK_ROM_LO,
                <PakRom as MemWrite<T>>::write_bytes(val),
            ),
            !fits::<PakRom>(addr, <PakRom as MemWrite<T>>::write_width()) ==> final(self).pak_rom
                == old(self).pak_rom,
            final(self).sys_rom == old(self).sys_rom,
            final(self).pal_ram == old(self).pal_ram,
            final(self).vis_ram == old(self).vis_ram,
            final(self).oam == old(self).oam,
    {
        if addr >= ExternRam::lo() && addr <= ExternRam::hi() {
            self.ext_ram.write(addr, val)
        } else if addr >= InternRam::lo() && addr <= InternRam::hi() {
            self.int_ram.write(addr, val)
        } else if addr >= PakRom::lo() && addr <= PakRom::hi() {
            self.pak_rom.write(addr, val)
        } else {
            unreached()
        }
    }

    /// Writes a value of type `T` at `addr`, at 16-bit or wider granularity:
    /// palette, video, and object-attribute RAM accept these writes though
    /// they refuse 8-bit ones.
    pub fn write16<T>(&mut self, addr: Address, val: T) where
        ExternRam: MemWrite<T>,
        InternRam: MemWrite<T>,
        PalettRam: MemWrite<T>,
        VisualRam: MemWrite<T>,
        OAM: MemWrite<T>,
        PakRom: MemWrite<T>,

        requires
            old(self).wf(),
            fits::<ExternRam>(addr, <ExternRam as MemWrite<T>>::write_width()) || fits::<InternRam>(
                addr,
                <InternRam as MemWrite<T>>::write_width(),
            ) || fits::<PalettRam>(addr, <PalettRam as MemWrite<T>>::write_width()) || fits::<
                VisualRam,
            >(addr, <VisualRam as MemWrite<T>>::write_width()) || fits::<OAM>(
                addr,
                <OAM as MemWrite<T>>::write_width(),
            ) || fits::<PakRom>(addr, <PakRom as MemWrite<T>>::write_width()),
        ensures
            final(self).wf(),
            fits::<ExternRam>(addr, <ExternRam as MemWrite<T>>::write_width()) ==> final(self).ext_ram.contents() == splice(
                old(self).ext_ram.contents(),
                addr - EXT_RAM_LO,
                <ExternRam as MemWrite<T>>::write_bytes(val),
            ),
            !fits::<ExternRam>(addr, <ExternRam as MemWrite<T>>::write_width()) ==> final(self).ext_ram == old(self).ext_ram,
            fits::<InternRam>(addr, <InternRam as MemWrite<T>>::write_width()) ==> final(self).int_ram.contents() == splice(
                old(self).int_ram.contents(),
                addr - INT_RAM_LO,
                <InternRam as MemWrite<T>>::write_bytes(val),
            ),
            !fits::<InternRam>(addr, <InternRam as MemWrite<T>>::write_width()) ==> final(self).int_ram == old(self).int_ram,
            fits::<PalettRam>(addr, <PalettRam as MemWrite<T>>::write_width()) ==> final(self).pal_ram.contents() == splice(
                old(self).pal_ram.contents(),
                addr - PAL_RAM_LO,
                <PalettRam as MemWrite<T>>::write_bytes(val),
            ),
            !fits::<PalettRam>(addr, <PalettRam as MemWrite<T>>::write_width()) ==> final(self).pal_ram == old(self).pal_ram,
            fits::<VisualRam>(addr, <VisualRam as MemWrite<T>>::write_width()) ==> final(self).vis_ram.contents() == splice(
                old(self).vis_ram.contents(),
                addr - VIS_RAM_LO,
                <VisualRam as MemWrite<T>>::write_bytes(val),
            ),
            !fits::<VisualRam>(addr, <VisualRam as MemWrite<T>>::write_width()) ==> final(self).vis_ram == old(self).vis_ram,
            fits::<OAM>(addr, <OAM as MemWrite<T>>::write_width()) ==> final(self).oam.contents()
                == splice(
                old(self).oam.contents(),
                addr - OAM_LO,
                <OAM as MemWrite<T>>::write_bytes(val),
            ),
            !fits::<OAM>(addr, <OAM as MemWrite<T>>::write_width()) ==> final(self).oam == old(self).oam,
            fits::<PakRom>(addr, <PakRom as MemWrite<T>>::write_width()) ==> final(self).pak_rom.contents() == splice(
                old(self).pak_rom.contents(),
                addr - PAK_ROM_LO,
                <PakRom as MemWrite<T>>::write_bytes(val),
            ),
            !fits::<PakRom>(addr, <PakRom as MemWrite<T>>::write_width()) ==> final(self).pak_rom
                == old(self).pak_rom,
            final(self).sys_rom == old(self).sys_rom,
    {
        if addr >= ExternRam::lo() && addr <= ExternRam::hi() {
            self.ext_ram.write(addr, val)
        } else if addr >= InternRam::lo() && addr <= InternRam::hi() {
            self.int_ram.write(addr, val)
        } else if addr >= PalettRam::lo() && addr <= PalettRam::hi() {
            self.pal_ram.write(addr, val)
        } else if addr >= VisualRam::lo() && addr <= VisualRam::hi() {
            self.vis_ram.write(addr, val)
        } else if addr >= OAM::lo() && addr <= OAM::hi() {
            self.oam.write(addr, val)
        } else if addr >= PakRom::lo() && addr <= PakRom::hi() {
            self.pak_rom.write(addr, val)
        } else {
            unreached()
        }
    }

    /// Writes a value of type `T` at `addr`, at 32-bit granularity. The same
    /// regions that accept 16-bit writes accept 32-bit ones, so this routes
    /// exactly as `write16` does.
    pub fn write32<T>(&mut self, addr: Address, val: T) where
        ExternRam: MemWrite<T>,
        InternRam: MemWrite<T>,
        PalettRam: MemWrite<T>,
        VisualRam: MemWrite<T>,
        OAM: MemWrite<T>,
        PakRom: MemWrite<T>,

        requires
            old(self).wf(),
            fits::<ExternRam>(addr, <ExternRam as MemWrite<T>>::write_width()) || fits::<InternRam>(
                addr,
                <InternRam as MemWrite<T>>::write_width(),
            ) || fits::<PalettRam>(addr, <PalettRam as MemWrite<T>>::write_width()) || fits::<
                VisualRam,
            >(addr, <VisualRam as MemWrite<T>>::write_width()) || fits::<OAM>(
                addr,
                <OAM as MemWrite<T>>::write_width(),
            ) || fits::<PakRom>(addr, <PakRom as MemWrite<T>>::write_width()),
        ensures
            final(self).wf(),
            fits::<ExternRam>(addr, <ExternRam as MemWrite<T>>::write_width()) ==> final(self).ext_ram.contents() == splice(
                old(self).ext_ram.contents(),
                addr - EXT_RAM_LO,
                <ExternRam as MemWrite<T>>::write_bytes(val),
            ),
            !fits::<ExternRam>(addr, <ExternRam as MemWrite<T>>::write_width()) ==> final(self).ext_ram == old(self).ext_ram,
            fits::<InternRam>(addr, <InternRam as MemWrite<T>>::write_width()) ==> final(self).int_ram.contents() == splice(
                old(self).int_ram.contents(),
                addr - INT_RAM_LO,
                <InternRam as MemWrite<T>>::write_bytes(val),
            ),
            !fits::<InternRam>(addr, <InternRam as MemWrite<T>>::write_width()) ==> final(self).int_ram == old(self).int_ram,
            fits::<PalettRam>(addr, <PalettRam as MemWrite<T>>::write_width()) ==> final(self).pal_ram.contents() == splice(
                old(self).pal_ram.contents(),
                addr - PAL_RAM_LO,
                <PalettRam as MemWrite<T>>::write_bytes(val),
            ),
            !fits::<PalettRam>(addr, <PalettRam as MemWrite<T>>::write_width()) ==> final(self).pal_ram == old(self).pal_ram,
            fits::<VisualRam>(addr, <VisualRam as MemWrite<T>>::write_width()) ==> final(self).vis_ram.contents() == splice(
                old(self).vis_ram.contents(),
                addr - VIS_RAM_LO,
                <VisualRam as MemWrite<T>>::write_bytes(val),
            ),
            !fits::<VisualRam>(addr, <VisualRam as MemWrite<T>>::write_width()) ==> final(self).vis_ram == old(self).vis_ram,
            fits::<OAM>(addr, <OAM as MemWrite<T>>::write_width()) ==> final(self).oam.contents()
                == splice(
                old(self).oam.contents(),
                addr - OAM_LO,
                <OAM as MemWrite<T>>::write_bytes(val),
            ),
            !fits::<OAM>(addr, <OAM as MemWrite<T>>::write_width()) ==> final(self).oam == old(self).oam,
            fits::<PakRom>(addr, <PakRom as MemWrite<T>>::write_width()) ==> final(self).pak_rom.contents() == splice(
                old(self).pak_rom.contents(),
                addr - PAK_ROM_LO,
                <PakRom as MemWrite<T>>::write_bytes(val),
            ),
            !fits::<PakRom>(addr, <PakRom as MemWrite<T>>::write_width()) ==> final(self).pak_rom
                == old(self).pak_rom,
            final(self).sys_rom == old(self).sys_rom,
    {
        self.write16(addr, val)
    }
}

/// How many of the seven regions contain the given address.
pub open spec fn regions_containing(addr: Address) -> int {
    (if SystemRom::spec_lo() <= addr <= SystemRom::spec_hi() {
        1int
    } else {
        0int
    }) + (if ExternRam::spec_lo() <= addr <= ExternRam::spec_hi() {
        1int
    } else {
        0int
    }) + (if InternRam::spec_lo() <= addr <= InternRam::spec_hi() {
        1int
    } else {
        0int
    }) + (if PalettRam::spec_lo() <= addr <= PalettRam::spec_hi() {
        1int
    } else {
        0int
    }) + (if VisualRam::spec_lo() <= addr <= VisualRam::spec_hi() {
        1int
    } else {
        0int
    }) + (if OAM::spec_lo() <= addr <= OAM::spec_hi() {
        1int
    } else {
        0int
    }) + (if PakRom::spec_lo() <= addr <= PakRom::spec_hi() {
        1int
    } else {
        0int
    })
}

/// The seven regions never overlap: an address lies inside at most one of
/// them, so dispatch by bounds membership is unambiguous.
pub proof fn lemma_regions_disjoint(addr: Address)
    ensures
        regions_containing(addr) <= 1,
{
}

} // verus!
