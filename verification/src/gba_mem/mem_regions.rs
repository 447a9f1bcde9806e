//! The seven fixed memory regions of the GBA address space.
//!
//! Each region has inclusive address bounds, a bus width, a backing buffer
//! sized exactly to its span, and a permission profile. Which widths a region
//! can be read or written at is fixed in hardware; here the profile is the
//! set of `MemRead` / `MemWrite` implementations a region carries, so an
//! unsupported access is rejected at compile time, never discovered at run
//! time. Palette, video, and object-attribute RAM refuse 8-bit writes; the
//! boot ROM refuses all writes.

use vstd::prelude::*;

use vstd::bytes::spec_u16_from_le_bytes;
use vstd::bytes::spec_u16_to_le_bytes;
use vstd::bytes::spec_u32_from_le_bytes;
use vstd::bytes::spec_u32_to_le_bytes;
use vstd::slice::slice_to_vec;

use crate::gba_mem::Address;
use crate::gba_mem::buffer::load16;
use crate::gba_mem::buffer::load32;
use crate::gba_mem::buffer::load8;
use crate::gba_mem::buffer::splice;
use crate::gba_mem::buffer::store16;
use crate::gba_mem::buffer::store32;
use crate::gba_mem::buffer::store8;
use crate::gba_mem::buffer::zero_vec;

verus! {

/// Bits per byte on the bus.
pub const BYTE_WIDTH: u16 = 8;

// Inclusive bounds and spans of the seven regions.
pub const SYS_ROM_LO: Address = 0x00000000;
pub const SYS_ROM_HI: Address = 0x0001FFFF;
pub const SYS_ROM_LEN: Address = SYS_ROM_HI - SYS_ROM_LO + 1;
pub const EXT_RAM_LO: Address = 0x02000000;
pub const EXT_RAM_HI: Address = 0x0203FFFF;
pub const EXT_RAM_LEN: Address = EXT_RAM_HI - EXT_RAM_LO + 1;
pub const INT_RAM_LO: Address = 0x03000000;
pub const INT_RAM_HI: Address = 0x03007FFF;
pub const INT_RAM_LEN: Address = INT_RAM_HI - INT_RAM_LO + 1;
pub const PAL_RAM_LO: Address = 0x05000000;
pub const PAL_RAM_HI: Address = 0x050003FF;
pub const PAL_RAM_LEN: Address = PAL_RAM_HI - PAL_RAM_LO + 1;
pub const VIS_RAM_LO: Address = 0x06000000;
pub const VIS_RAM_HI: Address = 0x06017FFF;
pub const VIS_RAM_LEN: Address = VIS_RAM_HI - VIS_RAM_LO + 1;
pub const OAM_LO: Address = 0x07000000;
pub const OAM_HI: Address = 0x070003FF;
pub const OAM_LEN: Address = OAM_HI - OAM_LO + 1;
pub const PAK_ROM_LO: Address = 0x08000000;
pub const PAK_ROM_HI: Address = 0x0FFFFFFF;
pub const PAK_ROM_LEN: Address = PAK_ROM_HI - PAK_ROM_LO + 1;

/// The access granularity a region is wired for.
#[derive(Clone, Copy, Debug)]
pub enum BusWidth {
    BW16,
    BW32,
}

impl BusWidth {
    #[inline]
    pub fn to_bytes(&self) -> (r: u16)
        ensures
            r == (match *self {
                BusWidth::BW16 => 2u16,
                BusWidth::BW32 => 4u16,
            }),
    {
        match *self {
            BusWidth::BW16 => 2,
            BusWidth::BW32 => 4,
        }
    }

    #[inline]
    pub fn to_bits(&self) -> (r: u16)
        ensures
            r == (match *self {
                BusWidth::BW16 => 16u16,
                BusWidth::BW32 => 32u16,
            }),
    {
        self.to_bytes() * BYTE_WIDTH
    }
}

/// The names of the seven regions, for error reporting.
#[derive(Clone, Copy, Debug, PartialEq, Eq, Structural)]
pub enum RegionName {
    SystemRom,
    ExternRam,
    InternRam,
    PalettRam,
    VisualRam,
    OAM,
    PakRom,
}

/// A file image too large for the region it was meant to fill: carries the
/// region's name, the file's size, and the region's capacity, in bytes.
#[derive(Clone, Copy, Debug, PartialEq, Eq, Structural)]
pub struct RegionFileError {
    pub region: RegionName,
    pub file_len: usize,
    pub capacity: usize,
}

/// A fixed, contiguous slice of the address space with a backing buffer
/// sized exactly to its span.
pub trait MemoryRegion: Sized {
    /// Lowest address of the region.
    spec fn spec_lo() -> Address;

    /// Highest address of the region, inclusive.
    spec fn spec_hi() -> Address;

    /// The bus width the region is wired for.
    spec fn spec_bus_width() -> BusWidth;

    /// The bytes the region currently holds, indexed from `spec_lo()`.
    spec fn contents(&self) -> Seq<u8>;

    /// The bounds are ordered and the span fits comfortably in a `usize`.
    proof fn bounds_ok()
        ensures
            Self::spec_lo() <= Self::spec_hi(),
            Self::spec_hi() < usize::MAX,
    ;

    fn lo() -> (r: Address)
        ensures
            r == Self::spec_lo(),
    ;

    fn hi() -> (r: Address)
        ensures
            r == Self::spec_hi(),
    ;

    fn bus_width() -> (r: BusWidth)
        ensures
            r == Self::spec_bus_width(),
    ;

    /// The region's span in bytes.
    fn len() -> (r: usize)
        ensures
            r == Self::spec_hi() - Self::spec_lo() + 1,
    {
        proof {
            Self::bounds_ok();
        }
        Self::hi() - Self::lo() + 1
    }

    /// Three-way bounds comparison of an address against the region.
    fn contains_cmp(addr: Address) -> (r: isize)
        ensures
            addr < Self::spec_lo() ==> r == -1,
            addr > Self::spec_hi() ==> r == 1,
            Self::spec_lo() <= addr <= Self::spec_hi() ==> r == 0,
    {
        proof {
            Self::bounds_ok();
        }
        if addr < Self::lo() {
            -1
        } else if addr > Self::hi() {
            1
        } else {
            0
        }
    }

    /// Whether an address falls inside the region's bounds.
    fn contains(addr: Address) -> (r: bool)
        ensures
            r == (Self::spec_lo() <= addr <= Self::spec_hi()),
    {
        match Self::contains_cmp(addr) {
            0 => true,
            _ => false,
        }
    }
}

/// Well-formedness of a region: its buffer length equals its span.
pub open spec fn region_wf<R: MemoryRegion>(r: &R) -> bool {
    r.contents().len() == R::spec_hi() - R::spec_lo() + 1
}

/// Read access at one width: the permission profile of a region is the set
/// of these implementations it carries.
pub trait MemRead<T>: MemoryRegion {
    /// Bytes transferred by one read of this width.
    spec fn read_width() -> int;

    /// The value a read returns: the region's little-endian contents at the
    /// given address.
    spec fn read_spec(&self, addr: Address) -> T;

    fn read(&self, addr: Address) -> (r: T)
        requires
            region_wf(self),
            Self::spec_lo() <= addr,
            addr + Self::read_width() - 1 <= Self::spec_hi(),
        ensures
            r == self.read_spec(addr),
    ;
}

/// Write access at one width.
pub trait MemWrite<T>: MemoryRegion {
    /// Bytes transferred by one write of this width.
    spec fn write_width() -> int;

    /// The little-endian bytes one write stores.
    spec fn write_bytes(val: T) -> Seq<u8>;

    fn write(&mut self, addr: Address, val: T)
        requires
            region_wf(old(self)),
            Self::spec_lo() <= addr,
            addr + Self::write_width() - 1 <= Self::spec_hi(),
        ensures
            final(self).contents() == splice(
                old(self).contents(),
                addr - Self::spec_lo(),
                Self::write_bytes(val),
            ),
            final(self).contents().len() == old(self).contents().len(),
    ;
}

/// The backing buffer for a region filled from a file image: rejects an
/// image longer than `span` with an error naming `which` and both sizes;
/// zero-fills whatever the image leaves uncovered.
fn file_buffer(data: &[u8], span: usize, which: RegionName) -> (r: Result<Vec<u8>, RegionFileError>)
    ensures
        data@.len() > span ==> (r matches Err(e) && e.region == which && e.file_len as nat
            == data@.len() && e.capacity == span),
        data@.len() <= span ==> (r matches Ok(v) && v@.len() == span && v@.subrange(
            0,
            data@.len() as int,
        ) == data@ && (forall|i: int| data@.len() <= i < span ==> v@[i] == 0u8)),
{
    if data.len() > span {
        Err(RegionFileError { region: which, file_len: data.len(), capacity: span })
    } else {
        let mut v = slice_to_vec(data);
        v.resize(span, 0u8);
        proof {
            assert forall|i: int| data@.len() <= i < span implies v@[i] == 0u8 by {
                assert(cloned(0u8, v@[i]));
            }
            assert(v@.subrange(0, data@.len() as int) =~= data@);
        }
        Ok(v)
    }
}

/// Backing storage of the SystemRom region.
pub struct SystemRom {
    mem: Vec<u8>,
}

impl MemoryRegion for SystemRom {
    open spec fn spec_lo() -> Address {
        SYS_ROM_LO
    }

    open spec fn spec_hi() -> Address {
        SYS_ROM_HI
    }

    open spec fn spec_bus_width() -> BusWidth {
        BusWidth::BW32
    }

    closed spec fn contents(&self) -> Seq<u8> {
        self.mem@
    }

    proof fn bounds_ok() {
    }

    fn lo() -> Address {
        SYS_ROM_LO
    }

    fn hi() -> Address {
        SYS_ROM_HI
    }

    fn bus_width() -> BusWidth {
        BusWidth::BW32
    }
}

impl SystemRom {
    /// Builds the region from a buffer whose length must equal the region's
    /// span exactly.
    pub fn create_from_array(array: &[u8]) -> (r: SystemRom)
        requires
            array@.len() == SYS_ROM_LEN,
        ensures
            region_wf(&r),
            r.contents() == array@,
    {
        SystemRom { mem: slice_to_vec(array) }
    }

    /// Builds the region from the contents of a file, which may fall short of
    /// the region's span (the remainder is zero-filled) but must not exceed
    /// it; a longer file is rejected with an error naming the region and both
    /// sizes.
    pub fn create_from_buffer(data: &[u8]) -> (r: Result<SystemRom, RegionFileError>)
        ensures
            data@.len() > SYS_ROM_LEN ==> (r matches Err(e) && e.region == RegionName::SystemRom
                && e.file_len as nat == data@.len() && e.capacity == SYS_ROM_LEN),
            data@.len() <= SYS_ROM_LEN ==> (r matches Ok(reg) && region_wf(&reg)
                && reg.contents().subrange(0, data@.len() as int) == data@ && (forall|i: int|
                data@.len() <= i < SYS_ROM_LEN ==> reg.contents()[i] == 0u8)),
    {
        match file_buffer(data, SYS_ROM_LEN, RegionName::SystemRom) {
            Ok(mem) => Ok(SystemRom { mem }),
            Err(e) => Err(e),
        }
    }
}

impl Default for SystemRom {
    /// A zero-filled region.
    fn default() -> (r: SystemRom)
        ensures
            region_wf(&r),
            forall|i: int| 0 <= i < SYS_ROM_LEN ==> r.contents()[i] == 0u8,
    {
        SystemRom { mem: zero_vec(SYS_ROM_LEN) }
    }
}

/// Backing storage of the ExternRam region.
pub struct ExternRam {
    mem: Vec<u8>,
}

impl MemoryRegion for ExternRam {
    open spec fn spec_lo() -> Address {
        EXT_RAM_LO
    }

    open spec fn spec_hi() -> Address {
        EXT_RAM_HI
    }

    open spec fn spec_bus_width() -> BusWidth {
        BusWidth::BW32
    }

    closed spec fn contents(&self) -> Seq<u8> {
        self.mem@
    }

    proof fn bounds_ok() {
    }

    fn lo() -> Address {
        EXT_RAM_LO
    }

    fn hi() -> Address {
        EXT_RAM_HI
    }

    fn bus_width() -> BusWidth {
        BusWidth::BW32
    }
}

impl ExternRam {
    /// Builds the region from a buffer whose length must equal the region's
    /// span exactly.
    pub fn create_from_array(array: &[u8]) -> (r: ExternRam)
        requires
            array@.len() == EXT_RAM_LEN,
        ensures
            region_wf(&r),
            r.contents() == array@,
    {
        ExternRam { mem: slice_to_vec(array) }
    }

    /// Builds the region from the contents of a file, which may fall short of
    /// the region's span (the remainder is zero-filled) but must not exceed
    /// it; a longer file is rejected with an error naming the region and both
    /// sizes.
    pub fn create_from_buffer(data: &[u8]) -> (r: Result<ExternRam, RegionFileError>)
        ensures
            data@.len() > EXT_RAM_LEN ==> (r matches Err(e) && e.region == RegionName::ExternRam
                && e.file_len as nat == data@.len() && e.capacity == EXT_RAM_LEN),
            data@.len() <= EXT_RAM_LEN ==> (r matches Ok(reg) && region_wf(&reg)
                && reg.contents().subrange(0, data@.len() as int) == data@ && (forall|i: int|
                data@.len() <= i < EXT_RAM_LEN ==> reg.contents()[i] == 0u8)),
    {
        match file_buffer(data, EXT_RAM_LEN, RegionName::ExternRam) {
            Ok(mem) => Ok(ExternRam { mem }),
            Err(e) => Err(e),
        }
    }
}

impl Default for ExternRam {
    /// A zero-filled region.
    fn default() -> (r: ExternRam)
        ensures
            region_wf(&r),
            forall|i: int| 0 <= i < EXT_RAM_LEN ==> r.contents()[i] == 0u8,
    {
        ExternRam { mem: zero_vec(EXT_RAM_LEN) }
    }
}

/// Backing storage of the InternRam region.
pub struct InternRam {
    mem: Vec<u8>,
}

impl MemoryRegion for InternRam {
    open spec fn spec_lo() -> Address {
        INT_RAM_LO
    }

    open spec fn spec_hi() -> Address {
        INT_RAM_HI
    }

    open spec fn spec_bus_width() -> BusWidth {
        BusWidth::BW32
    }

    closed spec fn contents(&self) -> Seq<u8> {
        self.mem@
    }

    proof fn bounds_ok() {
    }

    fn lo() -> Address {
        INT_RAM_LO
    }

    fn hi() -> Address {
        INT_RAM_HI
    }

    fn bus_width() -> BusWidth {
        BusWidth::BW32
    }
}

impl InternRam {
    /// Builds the region from a buffer whose length must equal the region's
    /// span exactly.
    pub fn create_from_array(array: &[u8]) -> (r: InternRam)
        requires
            array@.len() == INT_RAM_LEN,
        ensures
            region_wf(&r),
            r.contents() == array@,
    {
        InternRam { mem: slice_to_vec(array) }
    }

    /// Builds the region from the contents of a file, which may fall short of
    /// the region's span (the remainder is zero-filled) but must not exceed
    /// it; a longer file is rejected with an error naming the region and both
    /// sizes.
    pub fn create_from_buffer(data: &[u8]) -> (r: Result<InternRam, RegionFileError>)
        ensures
            data@.len() > INT_RAM_LEN ==> (r matches Err(e) && e.region == RegionName::InternRam
                && e.file_len as nat == data@.len() && e.capacity == INT_RAM_LEN),
            data@.len() <= INT_RAM_LEN ==> (r matches Ok(reg) && region_wf(&reg)
                && reg.contents().subrange(0, data@.len() as int) == data@ && (forall|i: int|
                data@.len() <= i < INT_RAM_LEN ==> reg.contents()[i] == 0u8)),
    {
        match file_buffer(data, INT_RAM_LEN, RegionName::InternRam) {
            Ok(mem) => Ok(InternRam { mem }),
            Err(e) => Err(e),
        }
    }
}

impl Default for InternRam {
    /// A zero-filled region.
    fn default() -> (r: InternRam)
        ensures
            region_wf(&r),
            forall|i: int| 0 <= i < INT_RAM_LEN ==> r.contents()[i] == 0u8,
    {
        InternRam { mem: zero_vec(INT_RAM_LEN) }
    }
}

/// Backing storage of the PalettRam region.
pub struct PalettRam {
    mem: Vec<u8>,
}

impl MemoryRegion for PalettRam {
    open spec fn spec_lo() -> Address {
        PAL_RAM_LO
    }

    open spec fn spec_hi() -> Address {
        PAL_RAM_HI
    }

    open spec fn spec_bus_width() -> BusWidth {
        BusWidth::BW32
    }

    closed spec fn contents(&self) -> Seq<u8> {
        self.mem@
    }

    proof fn bounds_ok() {
    }

    fn lo() -> Address {
        PAL_RAM_LO
    }

    fn hi() -> Address {
        PAL_RAM_HI
    }

    fn bus_width() -> BusWidth {
        BusWidth::BW32
    }
}

impl PalettRam {
    /// Builds the region from a buffer whose length must equal the region's
    /// span exactly.
    pub fn create_from_array(array: &[u8]) -> (r: PalettRam)
        requires
            array@.len() == PAL_RAM_LEN,
        ensures
            region_wf(&r),
            r.contents() == array@,
    {
        PalettRam { mem: slice_to_vec(array) }
    }

    /// Builds the region from the contents of a file, which may fall short of
    /// the region's span (the remainder is zero-filled) but must not exceed
    /// it; a longer file is rejected with an error naming the region and both
    /// sizes.
    pub fn create_from_buffer(data: &[u8]) -> (r: Result<PalettRam, RegionFileError>)
        ensures
            data@.len() > PAL_RAM_LEN ==> (r matches Err(e) && e.region == RegionName::PalettRam
                && e.file_len as nat == data@.len() && e.capacity == PAL_RAM_LEN),
            data@.len() <= PAL_RAM_LEN ==> (r matches Ok(reg) && region_wf(&reg)
                && reg.contents().subrange(0, data@.len() as int) == data@ && (forall|i: int|
                data@.len() <= i < PAL_RAM_LEN ==> reg.contents()[i] == 0u8)),
    {
        match file_buffer(data, PAL_RAM_LEN, RegionName::PalettRam) {
            Ok(mem) => Ok(PalettRam { mem }),
            Err(e) => Err(e),
        }
    }
}

impl Default for PalettRam {
    /// A zero-filled region.
    fn default() -> (r: PalettRam)
        ensures
            region_wf(&r),
            forall|i: int| 0 <= i < PAL_RAM_LEN ==> r.contents()[i] == 0u8,
    {
        PalettRam { mem: zero_vec(PAL_RAM_LEN) }
    }
}

/// Backing storage of the VisualRam region.
pub struct VisualRam {
    mem: Vec<u8>,
}

impl MemoryRegion for VisualRam {
    open spec fn spec_lo() -> Address {
        VIS_RAM_LO
    }

    open spec fn spec_hi() -> Address {
        VIS_RAM_HI
    }

    open spec fn spec_bus_width() -> BusWidth {
        BusWidth::BW16
    }

    closed spec fn contents(&self) -> Seq<u8> {
        self.mem@
    }

    proof fn bounds_ok() {
    }

    fn lo() -> Address {
        VIS_RAM_LO
    }

    fn hi() -> Address {
        VIS_RAM_HI
    }

    fn bus_width() -> BusWidth {
        BusWidth::BW16
    }
}

impl VisualRam {
    /// Builds the region from a buffer whose length must equal the region's
    /// span exactly.
    pub fn create_from_array(array: &[u8]) -> (r: VisualRam)
        requires
            array@.len() == VIS_RAM_LEN,
        ensures
            region_wf(&r),
            r.contents() == array@,
    {
        VisualRam { mem: slice_to_vec(array) }
    }

    /// Builds the region from the contents of a file, which may fall short of
    /// the region's span (the remainder is zero-filled) but must not exceed
    /// it; a longer file is rejected with an error naming the region and both
    /// sizes.
    pub fn create_from_buffer(data: &[u8]) -> (r: Result<VisualRam, RegionFileError>)
        ensures
            data@.len() > VIS_RAM_LEN ==> (r matches Err(e) && e.region == RegionName::VisualRam
                && e.file_len as nat == data@.len() && e.capacity == VIS_RAM_LEN),
            data@.len() <= VIS_RAM_LEN ==> (r matches Ok(reg) && region_wf(&reg)
                && reg.contents().subrange(0, data@.len() as int) == data@ && (forall|i: int|
                data@.len() <= i < VIS_RAM_LEN ==> reg.contents()[i] == 0u8)),
    {
        match file_buffer(data, VIS_RAM_LEN, RegionName::VisualRam) {
            Ok(mem) => Ok(VisualRam { mem }),
            Err(e) => Err(e),
        }
    }
}

impl Default for VisualRam {
    /// A zero-filled region.
    fn default() -> (r: VisualRam)
        ensures
            region_wf(&r),
            forall|i: int| 0 <= i < VIS_RAM_LEN ==> r.contents()[i] == 0u8,
    {
        VisualRam { mem: zero_vec(VIS_RAM_LEN) }
    }
}

/// Backing storage of the OAM region.
pub struct OAM {
    mem: Vec<u8>,
}

impl MemoryRegion for OAM {
    open spec fn spec_lo() -> Address {
        OAM_LO
    }

    open spec fn spec_hi() -> Address {
        OAM_HI
    }

    open spec fn spec_bus_width() -> BusWidth {
        BusWidth::BW32
    }

    closed spec fn contents(&self) -> Seq<u8> {
        self.mem@
    }

    proof fn bounds_ok() {
    }

    fn lo() -> Address {
        OAM_LO
    }

    fn hi() -> Address {
        OAM_HI
    }

    fn bus_width() -> BusWidth {
        BusWidth::BW32
    }
}

impl OAM {
    /// Builds the region from a buffer whose length must equal the region's
    /// span exactly.
    pub fn create_from_array(array: &[u8]) -> (r: OAM)
        requires
            array@.len() == OAM_LEN,
        ensures
            region_wf(&r),
            r.contents() == array@,
    {
        OAM { mem: slice_to_vec(array) }
    }

    /// Builds the region from the contents of a file, which may fall short of
    /// the region's span (the remainder is zero-filled) but must not exceed
    /// it; a longer file is rejected with an error naming the region and both
    /// sizes.
    pub fn create_from_buffer(data: &[u8]) -> (r: Result<OAM, RegionFileError>)
        ensures
            data@.len() > OAM_LEN ==> (r matches Err(e) && e.region == RegionName::OAM
                && e.file_len as nat == data@.len() && e.capacity == OAM_LEN),
            data@.len() <= OAM_LEN ==> (r matches Ok(reg) && region_wf(&reg)
                && reg.contents().subrange(0, data@.len() as int) == data@ && (forall|i: int|
                data@.len() <= i < OAM_LEN ==> reg.contents()[i] == 0u8)),
    {
        match file_buffer(data, OAM_LEN, RegionName::OAM) {
            Ok(mem) => Ok(OAM { mem }),
            Err(e) => Err(e),
        }
    }
}

impl Default for OAM {
    /// A zero-filled region.
    fn default() -> (r: OAM)
        ensures
            region_wf(&r),
            forall|i: int| 0 <= i < OAM_LEN ==> r.contents()[i] == 0u8,
    {
        OAM { mem: zero_vec(OAM_LEN) }
    }
}

/// Backing storage of the PakRom region.
pub struct PakRom {
    mem: Vec<u8>,
}

impl MemoryRegion for PakRom {
    open spec fn spec_lo() -> Address {
        PAK_ROM_LO
    }

    open spec fn spec_hi() -> Address {
        PAK_ROM_HI
    }

    open spec fn spec_bus_width() -> BusWidth {
        BusWidth::BW16
    }

    closed spec fn contents(&self) -> Seq<u8> {
        self.mem@
    }

    proof fn bounds_ok() {
    }

    fn lo() -> Address {
        PAK_ROM_LO
    }

    fn hi() -> Address {
        PAK_ROM_HI
    }

    fn bus_width() -> BusWidth {
        BusWidth::BW16
    }
}

impl PakRom {
    /// Builds the region from a buffer whose length must equal the region's
    /// span exactly.
    pub fn create_from_array(array: &[u8]) -> (r: PakRom)
        requires
            array@.len() == PAK_ROM_LEN,
        ensures
            region_wf(&r),
            r.contents() == array@,
    {
        PakRom { mem: slice_to_vec(array) }
    }

    /// Builds the region from the contents of a file, which may fall short of
    /// the region's span (the remainder is zero-filled) but must not exceed
    /// it; a longer file is rejected with an error naming the region and both
    /// sizes.
    pub fn create_from_buffer(data: &[u8]) -> (r: Result<PakRom, RegionFileError>)
        ensures
            data@.len() > PAK_ROM_LEN ==> (r matches Err(e) && e.region == RegionName::PakRom
                && e.file_len as nat == data@.len() && e.capacity == PAK_ROM_LEN),
            data@.len() <= PAK_ROM_LEN ==> (r matches Ok(reg) && region_wf(&reg)
                && reg.contents().subrange(0, data@.len() as int) == data@ && (forall|i: int|
                data@.len() <= i < PAK_ROM_LEN ==> reg.contents()[i] == 0u8)),
    {
        match file_buffer(data, PAK_ROM_LEN, RegionName::PakRom) {
            Ok(mem) => Ok(PakRom { mem }),
            Err(e) => Err(e),
        }
    }
}

impl Default for PakRom {
    /// A zero-filled region.
    fn default() -> (r: PakRom)
        ensures
            region_wf(&r),
            forall|i: int| 0 <= i < PAK_ROM_LEN ==> r.contents()[i] == 0u8,
    {
        PakRom { mem: zero_vec(PAK_ROM_LEN) }
    }
}

// Access profile of SystemRom.
impl MemRead<i8> for SystemRom {
    open spec fn read_width() -> int {
        1
    }

    open spec fn read_spec(&self, addr: Address) -> i8 {
        self.contents()[addr - Self::spec_lo()] as i8
    }

    fn read(&self, addr: Address) -> i8 {
        #[verifier::truncate] (load8(&self.mem, addr - SYS_ROM_LO) as i8)
    }
}

impl MemRead<u8> for SystemRom {
    open spec fn read_width() -> int {
        1
    }

    open spec fn read_spec(&self, addr: Address) -> u8 {
        self.contents()[addr - Self::spec_lo()]
    }

    fn read(&self, addr: Address) -> u8 {
        load8(&self.mem, addr - SYS_ROM_LO)
    }
}

impl MemRead<i16> for SystemRom {
    open spec fn read_width() -> int {
        2
    }

    open spec fn read_spec(&self, addr: Address) -> i16 {
        spec_u16_from_le_bytes(self.contents().subrange(addr - Self::spec_lo(), addr - Self::spec_lo() + 2)) as i16
    }

    fn read(&self, addr: Address) -> i16 {
        #[verifier::truncate] (load16(&self.mem, addr - SYS_ROM_LO) as i16)
    }
}

impl MemRead<u16> for SystemRom {
    open spec fn read_width() -> int {
        2
    }

    open spec fn read_spec(&self, addr: Address) -> u16 {
        spec_u16_from_le_bytes(self.contents().subrange(addr - Self::spec_lo(), addr - Self::spec_lo() + 2))
    }

    fn read(&self, addr: Address) -> u16 {
        load16(&self.mem, addr - SYS_ROM_LO)
    }
}

impl MemRead<i32> for SystemRom {
    open spec fn read_width() -> int {
        4
    }

    open spec fn read_spec(&self, addr: Address) -> i32 {
        spec_u32_from_le_bytes(self.contents().subrange(addr - Self::spec_lo(), addr - Self::spec_lo() + 4)) as i32
    }

    fn read(&self, addr: Address) -> i32 {
        #[verifier::truncate] (load32(&self.mem, addr - SYS_ROM_LO) as i32)
    }
}

impl MemRead<u32> for SystemRom {
    open spec fn read_width() -> int {
        4
    }

    open spec fn read_spec(&self, addr: Address) -> u32 {
        spec_u32_from_le_bytes(self.contents().subrange(addr - Self::spec_lo(), addr - Self::spec_lo() + 4))
    }

    fn read(&self, addr: Address) -> u32 {
        load32(&self.mem, addr - SYS_ROM_LO)
    }
}

// Access profile of ExternRam.
impl MemRead<i8> for ExternRam {
    open spec fn read_width() -> int {
        1
    }

    open spec fn read_spec(&self, addr: Address) -> i8 {
        self.contents()[addr - Self::spec_lo()] as i8
    }

    fn read(&self, addr: Address) -> i8 {
        #[verifier::truncate] (load8(&self.mem, addr - EXT_RAM_LO) as i8)
    }
}

impl MemRead<u8> for ExternRam {
    open spec fn read_width() -> int {
        1
    }

    open spec fn read_spec(&self, addr: Address) -> u8 {
        self.contents()[addr - Self::spec_lo()]
    }

    fn read(&self, addr: Address) -> u8 {
        load8(&self.mem, addr - EXT_RAM_LO)
    }
}

impl MemRead<i16> for ExternRam {
    open spec fn read_width() -> int {
        2
    }

    open spec fn read_spec(&self, addr: Address) -> i16 {
        spec_u16_from_le_bytes(self.contents().subrange(addr - Self::spec_lo(), addr - Self::spec_lo() + 2)) as i16
    }

    fn read(&self, addr: Address) -> i16 {
        #[verifier::truncate] (load16(&self.mem, addr - EXT_RAM_LO) as i16)
    }
}

impl MemRead<u16> for ExternRam {
    open spec fn read_width() -> int {
        2
    }

    open spec fn read_spec(&self, addr: Address) -> u16 {
        spec_u16_from_le_bytes(self.contents().subrange(addr - Self::spec_lo(), addr - Self::spec_lo() + 2))
    }

    fn read(&self, addr: Address) -> u16 {
        load16(&self.mem, addr - EXT_RAM_LO)
    }
}

impl MemRead<i32> for ExternRam {
    open spec fn read_width() -> int {
        4
    }

    open spec fn read_spec(&self, addr: Address) -> i32 {
        spec_u32_from_le_bytes(self.contents().subrange(addr - Self::spec_lo(), addr - Self::spec_lo() + 4)) as i32
    }

    fn read(&self, addr: Address) -> i32 {
        #[verifier::truncate] (load32(&self.mem, addr - EXT_RAM_LO) as i32)
    }
}

impl MemRead<u32> for ExternRam {
    open spec fn read_width() -> int {
        4
    }

    open spec fn read_spec(&self, addr: Address) -> u32 {
        spec_u32_from_le_bytes(self.contents().subrange(addr - Self::spec_lo(), addr - Self::spec_lo() + 4))
    }

    fn read(&self, addr: Address) -> u32 {
        load32(&self.mem, addr - EXT_RAM_LO)
    }
}

impl MemWrite<i8> for ExternRam {
    open spec fn write_width() -> int {
        1
    }

    open spec fn write_bytes(val: i8) -> Seq<u8> {
        seq![val as u8]
    }

    fn write(&mut self, addr: Address, val: i8) {
        store8(&mut self.mem, addr - EXT_RAM_LO, #[verifier::truncate] (val as u8))
    }
}

impl MemWrite<u8> for ExternRam {
    open spec fn write_width() -> int {
        1
    }

    open spec fn write_bytes(val: u8) -> Seq<u8> {
        seq![val]
    }

    fn write(&mut self, addr: Address, val: u8) {
        store8(&mut self.mem, addr - EXT_RAM_LO, val)
    }
}

impl MemWrite<i16> for ExternRam {
    open spec fn write_width() -> int {
        2
    }

    open spec fn write_bytes(val: i16) -> Seq<u8> {
        spec_u16_to_le_bytes(val as u16)
    }

    fn write(&mut self, addr: Address, val: i16) {
        store16(&mut self.mem, addr - EXT_RAM_LO, #[verifier::truncate] (val as u16))
    }
}

impl MemWrite<u16> for ExternRam {
    open spec fn write_width() -> int {
        2
    }

    open spec fn write_bytes(val: u16) -> Seq<u8> {
        spec_u16_to_le_bytes(val)
    }

    fn write(&mut self, addr: Address, val: u16) {
        store16(&mut self.mem, addr - EXT_RAM_LO, val)
    }
}

impl MemWrite<i32> for ExternRam {
    open spec fn write_width() -> int {
        4
    }

    open spec fn write_bytes(val: i32) -> Seq<u8> {
        spec_u32_to_le_bytes(val as u32)
    }

    fn write(&mut self, addr: Address, val: i32) {
        store32(&mut self.mem, addr - EXT_RAM_LO, #[verifier::truncate] (val as u32))
    }
}

impl MemWrite<u32> for ExternRam {
    open spec fn write_width() -> int {
        4
    }

    open spec fn write_bytes(val: u32) -> Seq<u8> {
        spec_u32_to_le_bytes(val)
    }

    fn write(&mut self, addr: Address, val: u32) {
        store32(&mut self.mem, addr - EXT_RAM_LO, val)
    }
}

// Access profile of InternRam.
impl MemRead<i8> for InternRam {
    open spec fn read_width() -> int {
        1
    }

    open spec fn read_spec(&self, addr: Address) -> i8 {
        self.contents()[addr - Self::spec_lo()] as i8
    }

    fn read(&self, addr: Address) -> i8 {
        #[verifier::truncate] (load8(&self.mem, addr - INT_RAM_LO) as i8)
    }
}

impl MemRead<u8> for InternRam {
    open spec fn read_width() -> int {
        1
    }

    open spec fn read_spec(&self, addr: Address) -> u8 {
        self.contents()[addr - Self::spec_lo()]
    }

    fn read(&self, addr: Address) -> u8 {
        load8(&self.mem, addr - INT_RAM_LO)
    }
}

impl MemRead<i16> for InternRam {
    open spec fn read_width() -> int {
        2
    }

    open spec fn read_spec(&self, addr: Address) -> i16 {
        spec_u16_from_le_bytes(self.contents().subrange(addr - Self::spec_lo(), addr - Self::spec_lo() + 2)) as i16
    }

    fn read(&self, addr: Address) -> i16 {
        #[verifier::truncate] (load16(&self.mem, addr - INT_RAM_LO) as i16)
    }
}

impl MemRead<u16> for InternRam {
    open spec fn read_width() -> int {
        2
    }

    open spec fn read_spec(&self, addr: Address) -> u16 {
        spec_u16_from_le_bytes(self.contents().subrange(addr - Self::spec_lo(), addr - Self::spec_lo() + 2))
    }

    fn read(&self, addr: Address) -> u16 {
        load16(&self.mem, addr - INT_RAM_LO)
    }
}

impl MemRead<i32> for InternRam {
    open spec fn read_width() -> int {
        4
    }

    open spec fn read_spec(&self, addr: Address) -> i32 {
        spec_u32_from_le_bytes(self.contents().subrange(addr - Self::spec_lo(), addr - Self::spec_lo() + 4)) as i32
    }

    fn read(&self, addr: Address) -> i32 {
        #[verifier::truncate] (load32(&self.mem, addr - INT_RAM_LO) as i32)
    }
}

impl MemRead<u32> for InternRam {
    open spec fn read_width() -> int {
        4
    }

    open spec fn read_spec(&self, addr: Address) -> u32 {
        spec_u32_from_le_bytes(self.contents().subrange(addr - Self::spec_lo(), addr - Self::spec_lo() + 4))
    }

    fn read(&self, addr: Address) -> u32 {
        load32(&self.mem, addr - INT_RAM_LO)
    }
}

impl MemWrite<i8> for InternRam {
    open spec fn write_width() -> int {
        1
    }

    open spec fn write_bytes(val: i8) -> Seq<u8> {
        seq![val as u8]
    }

    fn write(&mut self, addr: Address, val: i8) {
        store8(&mut self.mem, addr - INT_RAM_LO, #[verifier::truncate] (val as u8))
    }
}

impl MemWrite<u8> for InternRam {
    open spec fn write_width() -> int {
        1
    }

    open spec fn write_bytes(val: u8) -> Seq<u8> {
        seq![val]
    }

    fn write(&mut self, addr: Address, val: u8) {
        store8(&mut self.mem, addr - INT_RAM_LO, val)
    }
}

impl MemWrite<i16> for InternRam {
    open spec fn write_width() -> int {
        2
    }

    open spec fn write_bytes(val: i16) -> Seq<u8> {
        spec_u16_to_le_bytes(val as u16)
    }

    fn write(&mut self, addr: Address, val: i16) {
        store16(&mut self.mem, addr - INT_RAM_LO, #[verifier::truncate] (val as u16))
    }
}

impl MemWrite<u16> for InternRam {
    open spec fn write_width() -> int {
        2
    }

    open spec fn write_bytes(val: u16) -> Seq<u8> {
        spec_u16_to_le_bytes(val)
    }

    fn write(&mut self, addr: Address, val: u16) {
        store16(&mut self.mem, addr - INT_RAM_LO, val)
    }
}

impl MemWrite<i32> for InternRam {
    open spec fn write_width() -> int {
        4
    }

    open spec fn write_bytes(val: i32) -> Seq<u8> {
        spec_u32_to_le_bytes(val as u32)
    }

    fn write(&mut self, addr: Address, val: i32) {
        store32(&mut self.mem, addr - INT_RAM_LO, #[verifier::truncate] (val as u32))
    }
}

impl MemWrite<u32> for InternRam {
    open spec fn write_width() -> int {
        4
    }

    open spec fn write_bytes(val: u32) -> Seq<u8> {
        spec_u32_to_le_bytes(val)
    }

    fn write(&mut self, addr: Address, val: u32) {
        store32(&mut self.mem, addr - INT_RAM_LO, val)
    }
}

// Access profile of PalettRam.
impl MemRead<i8> for PalettRam {
    open spec fn read_width() -> int {
        1
    }

    open spec fn read_spec(&self, addr: Address) -> i8 {
        self.contents()[addr - Self::spec_lo()] as i8
    }

    fn read(&self, addr: Address) -> i8 {
        #[verifier::truncate] (load8(&self.mem, addr - PAL_RAM_LO) as i8)
    }
}

impl MemRead<u8> for PalettRam {
    open spec fn read_width() -> int {
        1
    }

    open spec fn read_spec(&self, addr: Address) -> u8 {
        self.contents()[addr - Self::spec_lo()]
    }

    fn read(&self, addr: Address) -> u8 {
        load8(&self.mem, addr - PAL_RAM_LO)
    }
}

impl MemRead<i16> for PalettRam {
    open spec fn read_width() -> int {
        2
    }

    open spec fn read_spec(&self, addr: Address) -> i16 {
        spec_u16_from_le_bytes(self.contents().subrange(addr - Self::spec_lo(), addr - Self::spec_lo() + 2)) as i16
    }

    fn read(&self, addr: Address) -> i16 {
        #[verifier::truncate] (load16(&self.mem, addr - PAL_RAM_LO) as i16)
    }
}

impl MemRead<u16> for PalettRam {
    open spec fn read_width() -> int {
        2
    }

    open spec fn read_spec(&self, addr: Address) -> u16 {
        spec_u16_from_le_bytes(self.contents().subrange(addr - Self::spec_lo(), addr - Self::spec_lo() + 2))
    }

    fn read(&self, addr: Address) -> u16 {
        load16(&self.mem, addr - PAL_RAM_LO)
    }
}

impl MemRead<i32> for PalettRam {
    open spec fn read_width() -> int {
        4
    }

    open spec fn read_spec(&self, addr: Address) -> i32 {
        spec_u32_from_le_bytes(self.contents().subrange(addr - Self::spec_lo(), addr - Self::spec_lo() + 4)) as i32
    }

    fn read(&self, addr: Address) -> i32 {
        #[verifier::truncate] (load32(&self.mem, addr - PAL_RAM_LO) as i32)
    }
}

impl MemRead<u32> for PalettRam {
    open spec fn read_width() -> int {
        4
    }

    open spec fn read_spec(&self, addr: Address) -> u32 {
        spec_u32_from_le_bytes(self.contents().subrange(addr - Self::spec_lo(), addr - Self::spec_lo() + 4))
    }

    fn read(&self, addr: Address) -> u32 {
        load32(&self.mem, addr - PAL_RAM_LO)
    }
}

impl MemWrite<i16> for PalettRam {
    open spec fn write_width() -> int {
        2
    }

    open spec fn write_bytes(val: i16) -> Seq<u8> {
        spec_u16_to_le_bytes(val as u16)
    }

    fn write(&mut self, addr: Address, val: i16) {
        store16(&mut self.mem, addr - PAL_RAM_LO, #[verifier::truncate] (val as u16))
    }
}

impl MemWrite<u16> for PalettRam {
    open spec fn write_width() -> int {
        2
    }

    open spec fn write_bytes(val: u16) -> Seq<u8> {
        spec_u16_to_le_bytes(val)
    }

    fn write(&mut self, addr: Address, val: u16) {
        store16(&mut self.mem, addr - PAL_RAM_LO, val)
    }
}

impl MemWrite<i32> for PalettRam {
    open spec fn write_width() -> int {
        4
    }

    open spec fn write_bytes(val: i32) -> Seq<u8> {
        spec_u32_to_le_bytes(val as u32)
    }

    fn write(&mut self, addr: Address, val: i32) {
        store32(&mut self.mem, addr - PAL_RAM_LO, #[verifier::truncate] (val as u32))
    }
}

impl MemWrite<u32> for PalettRam {
    open spec fn write_width() -> int {
        4
    }

    open spec fn write_bytes(val: u32) -> Seq<u8> {
        spec_u32_to_le_bytes(val)
    }

    fn write(&mut self, addr: Address, val: u32) {
        store32(&mut self.mem, addr - PAL_RAM_LO, val)
    }
}

// Access profile of VisualRam.
impl MemRead<i8> for VisualRam {
    open spec fn read_width() -> int {
        1
    }

    open spec fn read_spec(&self, addr: Address) -> i8 {
        self.contents()[addr - Self::spec_lo()] as i8
    }

    fn read(&self, addr: Address) -> i8 {
        #[verifier::truncate] (load8(&self.mem, addr - VIS_RAM_LO) as i8)
    }
}

impl MemRead<u8> for VisualRam {
    open spec fn read_width() -> int {
        1
    }

    open spec fn read_spec(&self, addr: Address) -> u8 {
        self.contents()[addr - Self::spec_lo()]
    }

    fn read(&self, addr: Address) -> u8 {
        load8(&self.mem, addr - VIS_RAM_LO)
    }
}

impl MemRead<i16> for VisualRam {
    open spec fn read_width() -> int {
        2
    }

    open spec fn read_spec(&self, addr: Address) -> i16 {
        spec_u16_from_le_bytes(self.contents().subrange(addr - Self::spec_lo(), addr - Self::spec_lo() + 2)) as i16
    }

    fn read(&self, addr: Address) -> i16 {
        #[verifier::truncate] (load16(&self.mem, addr - VIS_RAM_LO) as i16)
    }
}

impl MemRead<u16> for VisualRam {
    open spec fn read_width() -> int {
        2
    }

    open spec fn read_spec(&self, addr: Address) -> u16 {
        spec_u16_from_le_bytes(self.contents().subrange(addr - Self::spec_lo(), addr - Self::spec_lo() + 2))
    }

    fn read(&self, addr: Address) -> u16 {
        load16(&self.mem, addr - VIS_RAM_LO)
    }
}

impl MemRead<i32> for VisualRam {
    open spec fn read_width() -> int {
        4
    }

    open spec fn read_spec(&self, addr: Address) -> i32 {
        spec_u32_from_le_bytes(self.contents().subrange(addr - Self::spec_lo(), addr - Self::spec_lo() + 4)) as i32
    }

    fn read(&self, addr: Address) -> i32 {
        #[verifier::truncate] (load32(&self.mem, addr - VIS_RAM_LO) as i32)
    }
}

impl MemRead<u32> for VisualRam {
    open spec fn read_width() -> int {
        4
    }

    open spec fn read_spec(&self, addr: Address) -> u32 {
        spec_u32_from_le_bytes(self.contents().subrange(addr - Self::spec_lo(), addr - Self::spec_lo() + 4))
    }

    fn read(&self, addr: Address) -> u32 {
        load32(&self.mem, addr - VIS_RAM_LO)
    }
}

impl MemWrite<i16> for VisualRam {
    open spec fn write_width() -> int {
        2
    }

    open spec fn write_bytes(val: i16) -> Seq<u8> {
        spec_u16_to_le_bytes(val as u16)
    }

    fn write(&mut self, addr: Address, val: i16) {
        store16(&mut self.mem, addr - VIS_RAM_LO, #[verifier::truncate] (val as u16))
    }
}

impl MemWrite<u16> for VisualRam {
    open spec fn write_width() -> int {
        2
    }

    open spec fn write_bytes(val: u16) -> Seq<u8> {
        spec_u16_to_le_bytes(val)
    }

    fn write(&mut self, addr: Address, val: u16) {
        store16(&mut self.mem, addr - VIS_RAM_LO, val)
    }
}

impl MemWrite<i32> for VisualRam {
    open spec fn write_width() -> int {
        4
    }

    open spec fn write_bytes(val: i32) -> Seq<u8> {
        spec_u32_to_le_bytes(val as u32)
    }

    fn write(&mut self, addr: Address, val: i32) {
        store32(&mut self.mem, addr - VIS_RAM_LO, #[verifier::truncate] (val as u32))
    }
}

impl MemWrite<u32> for VisualRam {
    open spec fn write_width() -> int {
        4
    }

    open spec fn write_bytes(val: u32) -> Seq<u8> {
        spec_u32_to_le_bytes(val)
    }

    fn write(&mut self, addr: Address, val: u32) {
        store32(&mut self.mem, addr - VIS_RAM_LO, val)
    }
}

// Access profile of OAM.
impl MemRead<i8> for OAM {
    open spec fn read_width() -> int {
        1
    }

    open spec fn read_spec(&self, addr: Address) -> i8 {
        self.contents()[addr - Self::spec_lo()] as i8
    }

    fn read(&self, addr: Address) -> i8 {
        #[verifier::truncate] (load8(&self.mem, addr - OAM_LO) as i8)
    }
}

impl MemRead<u8> for OAM {
    open spec fn read_width() -> int {
        1
    }

    open spec fn read_spec(&self, addr: Address) -> u8 {
        self.contents()[addr - Self::spec_lo()]
    }

    fn read(&self, addr: Address) -> u8 {
        load8(&self.mem, addr - OAM_LO)
    }
}

impl MemRead<i16> for OAM {
    open spec fn read_width() -> int {
        2
    }

    open spec fn read_spec(&self, addr: Address) -> i16 {
        spec_u16_from_le_bytes(self.contents().subrange(addr - Self::spec_lo(), addr - Self::spec_lo() + 2)) as i16
    }

    fn read(&self, addr: Address) -> i16 {
        #[verifier::truncate] (load16(&self.mem, addr - OAM_LO) as i16)
    }
}

impl MemRead<u16> for OAM {
    open spec fn read_width() -> int {
        2
    }

    open spec fn read_spec(&self, addr: Address) -> u16 {
        spec_u16_from_le_bytes(self.contents().subrange(addr - Self::spec_lo(), addr - Self::spec_lo() + 2))
    }

    fn read(&self, addr: Address) -> u16 {
        load16(&self.mem, addr - OAM_LO)
    }
}

impl MemRead<i32> for OAM {
    open spec fn read_width() -> int {
        4
    }

    open spec fn read_spec(&self, addr: Address) -> i32 {
        spec_u32_from_le_bytes(self.contents().subrange(addr - Self::spec_lo(), addr - Self::spec_lo() + 4)) as i32
    }

    fn read(&self, addr: Address) -> i32 {
        #[verifier::truncate] (load32(&self.mem, addr - OAM_LO) as i32)
    }
}

impl MemRead<u32> for OAM {
    open spec fn read_width() -> int {
        4
    }

    open spec fn read_spec(&self, addr: Address) -> u32 {
        spec_u32_from_le_bytes(self.contents().subrange(addr - Self::spec_lo(), addr - Self::spec_lo() + 4))
    }

    fn read(&self, addr: Address) -> u32 {
        load32(&self.mem, addr - OAM_LO)
    }
}

impl MemWrite<i16> for OAM {
    open spec fn write_width() -> int {
        2
    }

    open spec fn write_bytes(val: i16) -> Seq<u8> {
        spec_u16_to_le_bytes(val as u16)
    }

    fn write(&mut self, addr: Address, val: i16) {
        store16(&mut self.mem, addr - OAM_LO, #[verifier::truncate] (val as u16))
    }
}

impl MemWrite<u16> for OAM {
    open spec fn write_width() -> int {
        2
    }

    open spec fn write_bytes(val: u16) -> Seq<u8> {
        spec_u16_to_le_bytes(val)
    }

    fn write(&mut self, addr: Address, val: u16) {
        store16(&mut self.mem, addr - OAM_LO, val)
    }
}

impl MemWrite<i32> for OAM {
    open spec fn write_width() -> int {
        4
    }

    open spec fn write_bytes(val: i32) -> Seq<u8> {
        spec_u32_to_le_bytes(val as u32)
    }

    fn write(&mut self, addr: Address, val: i32) {
        store32(&mut self.mem, addr - OAM_LO, #[verifier::truncate] (val as u32))
    }
}

impl MemWrite<u32> for OAM {
    open spec fn write_width() -> int {
        4
    }

    open spec fn write_bytes(val: u32) -> Seq<u8> {
        spec_u32_to_le_bytes(val)
    }

    fn write(&mut self, addr: Address, val: u32) {
        store32(&mut self.mem, addr - OAM_LO, val)
    }
}

// Access profile of PakRom.
impl MemRead<i8> for PakRom {
    open spec fn read_width() -> int {
        1
    }

    open spec fn read_spec(&self, addr: Address) -> i8 {
        self.contents()[addr - Self::spec_lo()] as i8
    }

    fn read(&self, addr: Address) -> i8 {
        #[verifier::truncate] (load8(&self.mem, addr - PAK_ROM_LO) as i8)
    }
}

impl MemRead<u8> for PakRom {
    open spec fn read_width() -> int {
        1
    }

    open spec fn read_spec(&self, addr: Address) -> u8 {
        self.contents()[addr - Self::spec_lo()]
    }

    fn read(&self, addr: Address) -> u8 {
        load8(&self.mem, addr - PAK_ROM_LO)
    }
}

impl MemRead<i16> for PakRom {
    open spec fn read_width() -> int {
        2
    }

    open spec fn read_spec(&self, addr: Address) -> i16 {
        spec_u16_from_le_bytes(self.contents().subrange(addr - Self::spec_lo(), addr - Self::spec_lo() + 2)) as i16
    }

    fn read(&self, addr: Address) -> i16 {
        #[verifier::truncate] (load16(&self.mem, addr - PAK_ROM_LO) as i16)
    }
}

impl MemRead<u16> for PakRom {
    open spec fn read_width() -> int {
        2
    }

    open spec fn read_spec(&self, addr: Address) -> u16 {
        spec_u16_from_le_bytes(self.contents().subrange(addr - Self::spec_lo(), addr - Self::spec_lo() + 2))
    }

    fn read(&self, addr: Address) -> u16 {
        load16(&self.mem, addr - PAK_ROM_LO)
    }
}

impl MemRead<i32> for PakRom {
    open spec fn read_width() -> int {
        4
    }

    open spec fn read_spec(&self, addr: Address) -> i32 {
        spec_u32_from_le_bytes(self.contents().subrange(addr - Self::spec_lo(), addr - Self::spec_lo() + 4)) as i32
    }

    fn read(&self, addr: Address) -> i32 {
        #[verifier::truncate] (load32(&self.mem, addr - PAK_ROM_LO) as i32)
    }
}

impl MemRead<u32> for PakRom {
    open spec fn read_width() -> int {
        4
    }

    open spec fn read_spec(&self, addr: Address) -> u32 {
        spec_u32_from_le_bytes(self.contents().subrange(addr - Self::spec_lo(), addr - Self::spec_lo() + 4))
    }

    fn read(&self, addr: Address) -> u32 {
        load32(&self.mem, addr - PAK_ROM_LO)
    }
}

impl MemWrite<i8> for PakRom {
    open spec fn write_width() -> int {
        1
    }

    open spec fn write_bytes(val: i8) -> Seq<u8> {
        seq![val as u8]
    }

    fn write(&mut self, addr: Address, val: i8) {
        store8(&mut self.mem, addr - PAK_ROM_LO, #[verifier::truncate] (val as u8))
    }
}

impl MemWrite<u8> for PakRom {
    open spec fn write_width() -> int {
        1
    }

    open spec fn write_bytes(val: u8) -> Seq<u8> {
        seq![val]
    }

    fn write(&mut self, addr: Address, val: u8) {
        store8(&mut self.mem, addr - PAK_ROM_LO, val)
    }
}

impl MemWrite<i16> for PakRom {
    open spec fn write_width() -> int {
        2
    }

    open spec fn write_bytes(val: i16) -> Seq<u8> {
        spec_u16_to_le_bytes(val as u16)
    }

    fn write(&mut self, addr: Address, val: i16) {
        store16(&mut self.mem, addr - PAK_ROM_LO, #[verifier::truncate] (val as u16))
    }
}

impl MemWrite<u16> for PakRom {
    open spec fn write_width() -> int {
        2
    }

    open spec fn write_bytes(val: u16) -> Seq<u8> {
        spec_u16_to_le_bytes(val)
    }

    fn write(&mut self, addr: Address, val: u16) {
        store16(&mut self.mem, addr - PAK_ROM_LO, val)
    }
}

impl MemWrite<i32> for PakRom {
    open spec fn write_width() -> int {
        4
    }

    open spec fn write_bytes(val: i32) -> Seq<u8> {
        spec_u32_to_le_bytes(val as u32)
    }

    fn write(&mut self, addr: Address, val: i32) {
        store32(&mut self.mem, addr - PAK_ROM_LO, #[verifier::truncate] (val as u32))
    }
}

impl MemWrite<u32> for PakRom {
    open spec fn write_width() -> int {
        4
    }

    open spec fn write_bytes(val: u32) -> Seq<u8> {
        spec_u32_to_le_bytes(val)
    }

    fn write(&mut self, addr: Address, val: u32) {
        store32(&mut self.mem, addr - PAK_ROM_LO, val)
    }
}

} // verus!
