//! The CPU-visible memory bus of the original Game Boy (DMG), without a boot
//! ROM overlay or device timing.
//!
//! | Addresses   | Behavior                                            |
//! | ----------- | --------------------------------------------------- |
//! | `0000–7FFF` | cartridge ROM reads; writes ignored                 |
//! | `8000–9FFF` | VRAM placeholder                                    |
//! | `A000–BFFF` | no external RAM on ROM ONLY: reads `0xFF`, writes ignored |
//! | `C000–DFFF` | 8 KiB work RAM                                      |
//! | `E000–FDFF` | mirror of work RAM at `C000–DDFF`                   |
//! | `FE00–FE9F` | OAM placeholder                                     |
//! | `FEA0–FEFF` | unusable memory placeholder                         |
//! | `FF00–FF7F` | I/O register placeholders                           |
//! | `FF80–FFFE` | 127 bytes of high RAM                               |
//! | `FFFF`      | interrupt enable register placeholder               |
use vstd::prelude::*;
use crate::cartridge::{Cartridge, cartridge_read, NO_RAM_READ_VALUE};

verus! {

/// Temporary value that unfinished devices answer to reads; not an emulation
/// of open-bus behavior.
pub const UNIMPLEMENTED_READ_VALUE: u8 = 0xFF;

/// Bytes of work RAM (`C000–DFFF`).
pub const WORK_RAM_SIZE: usize = 0x2000;

/// Bytes of high RAM (`FF80–FFFE`).
pub const HIGH_RAM_SIZE: usize = 0x7F;

/// The part of the address space an address falls in.
#[derive(Debug, Clone, Copy, PartialEq, Eq, Structural)]
pub enum Region {
    CartridgeRom,
    VideoRam,
    ExternalRam,
    WorkRam,
    EchoRam,
    ObjectAttributeMemory,
    Unusable,
    IoRegisters,
    HighRam,
    InterruptEnable,
}

/// The region of each address, by the memory map.
pub open spec fn region_of(address: u16) -> Region {
    if address <= 0x7FFF {
        Region::CartridgeRom
    } else if address <= 0x9FFF {
        Region::VideoRam
    } else if address <= 0xBFFF {
        Region::ExternalRam
    } else if address <= 0xDFFF {
        Region::WorkRam
    } else if address <= 0xFDFF {
        Region::EchoRam
    } else if address <= 0xFE9F {
        Region::ObjectAttributeMemory
    } else if address <= 0xFEFF {
        Region::Unusable
    } else if address <= 0xFF7F {
        Region::IoRegisters
    } else if address <= 0xFFFE {
        Region::HighRam
    } else {
        Region::InterruptEnable
    }
}

impl Region {
    /// The region that `address` falls in.
    pub fn of(address: u16) -> (region: Region)
        ensures
            region == region_of(address),
    {
        match address {
            0x0000..=0x7FFF => Region::CartridgeRom,
            0x8000..=0x9FFF => Region::VideoRam,
            0xA000..=0xBFFF => Region::ExternalRam,
            0xC000..=0xDFFF => Region::WorkRam,
            0xE000..=0xFDFF => Region::EchoRam,
            0xFE00..=0xFE9F => Region::ObjectAttributeMemory,
            0xFEA0..=0xFEFF => Region::Unusable,
            0xFF00..=0xFF7F => Region::IoRegisters,
            0xFF80..=0xFFFE => Region::HighRam,
            0xFFFF => Region::InterruptEnable,
        }
    }
}

/// The label of a region whose device is still a placeholder (reads give
/// `UNIMPLEMENTED_READ_VALUE`, writes are dropped); `None` for the regions the
/// bus implements.
pub open spec fn placeholder_label(region: Region) -> Option<Seq<char>> {
    match region {
        Region::VideoRam => Some("VRAM"@),
        Region::ObjectAttributeMemory => Some("OAM"@),
        Region::Unusable => Some("unusable memory"@),
        Region::IoRegisters => Some("I/O registers"@),
        Region::InterruptEnable => Some("interrupt enable register"@),
        _ => None,
    }
}

impl Region {
    /// The label under which accesses to this region are reported while its
    /// device is a placeholder; `None` for implemented regions.
    pub fn placeholder_label(self) -> (label: Option<&'static str>)
        ensures
            match label {
                Some(text) => placeholder_label(self) == Some(text@),
                None => placeholder_label(self) is None,
            },
    {
        match self {
            Region::VideoRam => Some("VRAM"),
            Region::ObjectAttributeMemory => Some("OAM"),
            Region::Unusable => Some("unusable memory"),
            Region::IoRegisters => Some("I/O registers"),
            Region::InterruptEnable => Some("interrupt enable register"),
            Region::CartridgeRom => None,
            Region::ExternalRam => None,
            Region::WorkRam => None,
            Region::EchoRam => None,
            Region::HighRam => None,
        }
    }
}

/// Index into work RAM that `address` reaches, directly or through the echo
/// mirror; `None` outside those regions.
pub open spec fn work_ram_index(address: u16) -> Option<int> {
    match region_of(address) {
        Region::WorkRam => Some(address - 0xC000),
        Region::EchoRam => Some(address - 0xE000),
        _ => None,
    }
}

/// Index into high RAM that `address` reaches; `None` outside high RAM.
pub open spec fn high_ram_index(address: u16) -> Option<int> {
    match region_of(address) {
        Region::HighRam => Some(address - 0xFF80),
        _ => None,
    }
}

/// Whether a write to `a` is seen by a read of `b`: both reach the same RAM byte.
pub open spec fn same_cell(a: u16, b: u16) -> bool {
    ||| (work_ram_index(a) is Some && work_ram_index(a) == work_ram_index(b))
    ||| (high_ram_index(a) is Some && high_ram_index(a) == high_ram_index(b))
}

/// What the bus holds: the cartridge image and the two RAMs.
pub struct BusView {
    pub rom: Seq<u8>,
    pub work_ram: Seq<u8>,
    pub high_ram: Seq<u8>,
}

impl BusView {
    /// The RAMs have their sizes.
    pub open spec fn wf(self) -> bool {
        &&& self.work_ram.len() == WORK_RAM_SIZE
        &&& self.high_ram.len() == HIGH_RAM_SIZE
    }

    /// The byte that a read of `address` returns.
    pub open spec fn read(self, address: u16) -> u8 {
        match region_of(address) {
            Region::CartridgeRom | Region::ExternalRam => cartridge_read(self.rom, address),
            Region::WorkRam | Region::EchoRam => self.work_ram[work_ram_index(address).unwrap()],
            Region::HighRam => self.high_ram[high_ram_index(address).unwrap()],
            _ => UNIMPLEMENTED_READ_VALUE,
        }
    }

    /// The state after a write of `value` to `address`: the RAM byte that
    /// `address` reaches takes `value`; writes anywhere else change nothing.
    pub open spec fn write(self, address: u16, value: u8) -> BusView {
        match work_ram_index(address) {
            Some(i) => BusView {
                rom: self.rom,
                work_ram: self.work_ram.update(i, value),
                high_ram: self.high_ram,
            },
            None => match high_ram_index(address) {
                Some(i) => BusView {
                    rom: self.rom,
                    work_ram: self.work_ram,
                    high_ram: self.high_ram.update(i, value),
                },
                None => self,
            },
        }
    }
}

/// Routes CPU reads and writes to the cartridge, the RAMs and device placeholders.
#[derive(Debug)]
pub struct Bus {
    cartridge: Cartridge,
    work_ram: [u8; 0x2000],
    high_ram: [u8; 0x7F],
}

impl View for Bus {
    type V = BusView;

    closed spec fn view(&self) -> BusView {
        BusView { rom: self.cartridge@, work_ram: self.work_ram@, high_ram: self.high_ram@ }
    }
}

impl Bus {
    /// A bus over `cartridge` with both RAMs zeroed. Hardware start-up
    /// contents are not modeled; zero keeps development deterministic.
    pub fn new(cartridge: Cartridge) -> (bus: Bus)
        ensures
            bus@.rom == cartridge@,
            bus@.work_ram == Seq::new(WORK_RAM_SIZE as nat, |i: int| 0u8),
            bus@.high_ram == Seq::new(HIGH_RAM_SIZE as nat, |i: int| 0u8),
    {
        let bus = Bus { cartridge, work_ram: [0u8; 0x2000], high_ram: [0u8; 0x7F] };
        assert(bus@.work_ram =~= Seq::new(WORK_RAM_SIZE as nat, |i: int| 0u8));
        assert(bus@.high_ram =~= Seq::new(HIGH_RAM_SIZE as nat, |i: int| 0u8));
        bus
    }

    /// The byte at `address`.
    pub fn read(&self, address: u16) -> (value: u8)
        ensures
            value == self@.read(address),
    {
        match Region::of(address) {
            Region::CartridgeRom | Region::ExternalRam => self.cartridge.read(address),
            Region::WorkRam => self.work_ram[(address - 0xC000) as usize],
            // The echo maps only C000..=DDFF, not the final 512 bytes of work RAM.
            Region::EchoRam => self.work_ram[(address - 0xE000) as usize],
            Region::HighRam => self.high_ram[(address - 0xFF80) as usize],
            Region::VideoRam => UNIMPLEMENTED_READ_VALUE,
            Region::ObjectAttributeMemory => UNIMPLEMENTED_READ_VALUE,
            Region::Unusable => UNIMPLEMENTED_READ_VALUE,
            Region::IoRegisters => UNIMPLEMENTED_READ_VALUE,
            Region::InterruptEnable => UNIMPLEMENTED_READ_VALUE,
        }
    }

    /// Writes `value` to `address`.
    pub fn write(&mut self, address: u16, value: u8)
        ensures
            final(self)@ == old(self)@.write(address, value),
    {
        match Region::of(address) {
            Region::CartridgeRom | Region::ExternalRam => self.cartridge.write(address, value),
            Region::WorkRam => self.work_ram[(address - 0xC000) as usize] = value,
            Region::EchoRam => self.work_ram[(address - 0xE000) as usize] = value,
            Region::HighRam => self.high_ram[(address - 0xFF80) as usize] = value,
            Region::VideoRam => {},
            Region::ObjectAttributeMemory => {},
            Region::Unusable => {},
            Region::IoRegisters => {},
            Region::InterruptEnable => {},
        }
    }
}


/// The view of every bus has RAMs of their sizes.
pub proof fn lemma_bus_view_wf(bus: &Bus)
    ensures
        bus@.wf(),
{
    assert(bus.work_ram@.len() == WORK_RAM_SIZE);
    assert(bus.high_ram@.len() == HIGH_RAM_SIZE);
}

/// Writes keep the RAM sizes and never change the cartridge image.
pub proof fn lemma_write_keeps_shape(state: BusView, address: u16, value: u8)
    requires
        state.wf(),
    ensures
        state.write(address, value).wf(),
        state.write(address, value).rom == state.rom,
{
}

/// Read over write: after writing `value` to `a`, a read of `b` gives `value`
/// when `a` and `b` reach the same RAM byte, and what it gave before otherwise.
/// In particular a RAM address reads back what was last written to it, and a
/// write to ROM, to the absent external RAM or to an unfinished region changes
/// no read at all.
pub proof fn lemma_read_over_write(state: BusView, a: u16, value: u8, b: u16)
    requires
        state.wf(),
    ensures
        state.write(a, value).read(b) == if same_cell(a, b) {
            value
        } else {
            state.read(b)
        },
{
}

/// Echo RAM `E000–FDFF` mirrors work RAM `C000–DDFF` in both directions: the
/// two addresses reach the same byte, so they always read alike and a write to
/// either is seen at the other.
pub proof fn lemma_echo_mirrors_work_ram(state: BusView, address: u16)
    requires
        0xC000 <= address <= 0xDDFF,
    ensures
        same_cell(address, (address + 0x2000) as u16),
        same_cell((address + 0x2000) as u16, address),
        state.read((address + 0x2000) as u16) == state.read(address),
{
}

/// The last 512 bytes of work RAM (`DE00–DFFF`) have no mirror: no address
/// other than themselves reaches them.
pub proof fn lemma_work_ram_tail_unmirrored(a: u16, b: u16)
    requires
        0xDE00 <= a <= 0xDFFF,
        a != b,
    ensures
        !same_cell(a, b),
        !same_cell(b, a),
{
}

/// Addresses that reach no RAM byte: ROM, absent external RAM and the
/// unfinished regions. Their reads are fixed by the cartridge or the placeholder.
pub proof fn lemma_non_ram_reads(state: BusView, address: u16)
    requires
        work_ram_index(address) is None,
        high_ram_index(address) is None,
    ensures
        forall|b: u16| !#[trigger] same_cell(address, b),
        address <= 0x7FFF ==> state.read(address) == state.rom[address as int],
        0xA000 <= address <= 0xBFFF ==> state.read(address) == NO_RAM_READ_VALUE,
        0x7FFF < address && !(0xA000 <= address <= 0xBFFF) ==> state.read(address)
            == UNIMPLEMENTED_READ_VALUE,
{
}


/// Work RAM `C000–DFFF`: all 8 KiB are stored bytes. Address `a` holds work
/// RAM byte `a - 0xC000`, reads give it, and a write of `v` stores `v` there and
/// nowhere else, so it reads back as `v`.
pub proof fn lemma_work_ram_addresses(state: BusView, address: u16, value: u8)
    requires
        state.wf(),
        0xC000 <= address <= 0xDFFF,
    ensures
        work_ram_index(address) == Some(address - 0xC000),
        state.read(address) == state.work_ram[address - 0xC000],
        state.write(address, value).work_ram == state.work_ram.update(address - 0xC000, value),
        state.write(address, value).high_ram == state.high_ram,
        state.write(address, value).rom == state.rom,
        state.write(address, value).read(address) == value,
{
}

/// Echo RAM `E000–FDFF`: address `a` holds work RAM byte `a - 0xE000`, the
/// same byte as `a - 0x2000`.
pub proof fn lemma_echo_ram_addresses(state: BusView, address: u16, value: u8)
    requires
        state.wf(),
        0xE000 <= address <= 0xFDFF,
    ensures
        work_ram_index(address) == Some(address - 0xE000),
        state.read(address) == state.work_ram[address - 0xE000],
        state.write(address, value).work_ram == state.work_ram.update(address - 0xE000, value),
        state.write(address, value).high_ram == state.high_ram,
        state.write(address, value).rom == state.rom,
        state.write(address, value).read(address) == value,
{
}

/// High RAM `FF80–FFFE`: all 127 bytes are stored. Address `a` holds high RAM
/// byte `a - 0xFF80`, and a write of `v` there reads back as `v`.
pub proof fn lemma_high_ram_addresses(state: BusView, address: u16, value: u8)
    requires
        state.wf(),
        0xFF80 <= address <= 0xFFFE,
    ensures
        high_ram_index(address) == Some(address - 0xFF80),
        work_ram_index(address) is None,
        state.read(address) == state.high_ram[address - 0xFF80],
        state.write(address, value).high_ram == state.high_ram.update(address - 0xFF80, value),
        state.write(address, value).work_ram == state.work_ram,
        state.write(address, value).rom == state.rom,
        state.write(address, value).read(address) == value,
{
}

/// Cartridge ROM `0000–7FFF` reads the image byte at the address; writes there
/// change nothing.
pub proof fn lemma_rom_addresses(state: BusView, address: u16, value: u8)
    requires
        address <= 0x7FFF,
    ensures
        state.read(address) == state.rom[address as int],
        state.write(address, value) == state,
{
}

/// Outside ROM and RAM nothing is stored: the absent external RAM
/// (`A000–BFFF`) reads `0xFF`, the placeholders for VRAM (`8000–9FFF`), OAM
/// and unusable memory (`FE00–FEFF`), I/O registers (`FF00–FF7F`) and the
/// interrupt enable register (`FFFF`) read `UNIMPLEMENTED_READ_VALUE`, and
/// writes to any of them change nothing.
pub proof fn lemma_unstored_addresses(state: BusView, address: u16, value: u8)
    requires
        (0x8000 <= address <= 0xBFFF) || (0xFE00 <= address <= 0xFF7F) || address == 0xFFFF,
    ensures
        0xA000 <= address <= 0xBFFF ==> state.read(address) == 0xFF,
        !(0xA000 <= address <= 0xBFFF) ==> state.read(address) == UNIMPLEMENTED_READ_VALUE,
        UNIMPLEMENTED_READ_VALUE == 0xFF,
        state.write(address, value) == state,
        work_ram_index(address) is None,
        high_ram_index(address) is None,
{
}

} // verus!
