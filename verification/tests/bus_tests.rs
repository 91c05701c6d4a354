use rust_boy_classic::bus::{Bus, Region, UNIMPLEMENTED_READ_VALUE};
use rust_boy_classic::cartridge::Cartridge;

fn bus() -> Bus {
    let mut rom = vec![0; 0x8000];
    for address in [0, 0x2000, 0x3FFF, 0x4000, 0x6000, 0x7FFF] {
        rom[address] = (address / 256) as u8 + 1;
    }
    Bus::new(Cartridge::from_bytes(rom).unwrap())
}

#[test]
fn forwards_cartridge_reads_and_ignores_rom_writes() {
    let mut bus = bus();
    for address in [0, 0x2000, 0x3FFF, 0x4000, 0x6000, 0x7FFF] {
        let expected = (address / 256) as u8 + 1;
        assert_eq!(bus.read(address), expected);
        bus.write(address, 0xEE);
        assert_eq!(bus.read(address), expected);
    }
    for address in [0xA000, 0xB000, 0xBFFF] {
        bus.write(address, 0x42);
        assert_eq!(bus.read(address), 0xFF);
    }
}

#[test]
fn ram_boundaries_and_middle_store_independent_bytes() {
    let mut bus = bus();
    let addresses = [
        0xC000, 0xC800, 0xCFFF, 0xD000, 0xDDFF, 0xDE00, 0xDFFF, 0xFF80, 0xFFBF, 0xFFFE,
    ];
    for (i, &address) in addresses.iter().enumerate() {
        assert_eq!(bus.read(address), 0);
        bus.write(address, i as u8 + 1);
    }
    for (i, address) in addresses.into_iter().enumerate() {
        assert_eq!(bus.read(address), i as u8 + 1);
        bus.write(address, 0xFF);
        assert_eq!(bus.read(address), 0xFF);
        bus.write(address, 0);
        assert_eq!(bus.read(address), 0);
    }
}

#[test]
fn echo_ram_mirrors_work_ram_in_both_directions() {
    let mut bus = bus();
    for address in [0xC000, 0xC800, 0xCFFF, 0xD000, 0xDDFF] {
        bus.write(address, 0x12);
        assert_eq!(bus.read(address + 0x2000), 0x12);
        bus.write(address + 0x2000, 0x34);
        assert_eq!(bus.read(address), 0x34);
    }
}

#[test]
fn unfinished_regions_use_placeholder_without_corrupting_ram() {
    let mut bus = bus();
    for address in [0xDE00, 0xDFFF, 0xFF80, 0xFFFE] {
        bus.write(address, 0x42);
    }
    for address in [
        0x8000, 0x9000, 0x9FFF, 0xFE00, 0xFE50, 0xFE9F, 0xFEA0, 0xFEC0, 0xFEFF, 0xFF00, 0xFF40,
        0xFF7F, 0xFFFF,
    ] {
        assert_eq!(bus.read(address), UNIMPLEMENTED_READ_VALUE);
        bus.write(address, 0xAB);
        assert_eq!(bus.read(address), UNIMPLEMENTED_READ_VALUE);
    }
    for address in [0xDE00, 0xDFFF, 0xFF80, 0xFFFE] {
        assert_eq!(bus.read(address), 0x42);
    }
}

#[test]
fn fresh_bus_reads_zero_ram_and_image_bytes() {
    let bus = bus();
    for address in [0xC000u16, 0xD123, 0xDFFF, 0xE000, 0xFDFF, 0xFF80, 0xFFFE] {
        assert_eq!(bus.read(address), 0);
    }
    assert_eq!(bus.read(0x0000), 1);
    assert_eq!(bus.read(0x0001), 0);
    assert_eq!(bus.read(0x7FFF), 0x80);
}

#[test]
fn write_reaches_only_its_own_cell() {
    let mut bus = bus();
    bus.write(0xC010, 0x77);
    assert_eq!(bus.read(0xC010), 0x77);
    assert_eq!(bus.read(0xE010), 0x77);
    assert_eq!(bus.read(0xC011), 0);
    assert_eq!(bus.read(0xC00F), 0);
    assert_eq!(bus.read(0xFF90), 0);
    bus.write(0xFF90, 0x55);
    assert_eq!(bus.read(0xFF90), 0x55);
    assert_eq!(bus.read(0xC010), 0x77);
    assert_eq!(bus.read(0xFF91), 0);
}

#[test]
fn unmirrored_work_ram_tail_is_not_reached_from_echo() {
    let mut bus = bus();
    bus.write(0xDE00, 0x11);
    bus.write(0xFDFF, 0x22);
    assert_eq!(bus.read(0xDE00), 0x11);
    assert_eq!(bus.read(0xFDFF), 0x22);
    assert_eq!(bus.read(0xDDFF), 0x22);
    assert_eq!(bus.read(0xFE00), UNIMPLEMENTED_READ_VALUE);
}

#[test]
fn regions_follow_the_memory_map_boundaries() {
    let expected = [
        (0x0000u16, Region::CartridgeRom),
        (0x7FFF, Region::CartridgeRom),
        (0x8000, Region::VideoRam),
        (0x9FFF, Region::VideoRam),
        (0xA000, Region::ExternalRam),
        (0xBFFF, Region::ExternalRam),
        (0xC000, Region::WorkRam),
        (0xDFFF, Region::WorkRam),
        (0xE000, Region::EchoRam),
        (0xFDFF, Region::EchoRam),
        (0xFE00, Region::ObjectAttributeMemory),
        (0xFE9F, Region::ObjectAttributeMemory),
        (0xFEA0, Region::Unusable),
        (0xFEFF, Region::Unusable),
        (0xFF00, Region::IoRegisters),
        (0xFF7F, Region::IoRegisters),
        (0xFF80, Region::HighRam),
        (0xFFFE, Region::HighRam),
        (0xFFFF, Region::InterruptEnable),
    ];
    for (address, region) in expected {
        assert_eq!(Region::of(address), region);
    }
}

#[test]
fn placeholder_labels_name_only_unfinished_regions() {
    assert_eq!(Region::VideoRam.placeholder_label(), Some("VRAM"));
    assert_eq!(Region::ObjectAttributeMemory.placeholder_label(), Some("OAM"));
    assert_eq!(Region::Unusable.placeholder_label(), Some("unusable memory"));
    assert_eq!(Region::IoRegisters.placeholder_label(), Some("I/O registers"));
    assert_eq!(
        Region::InterruptEnable.placeholder_label(),
        Some("interrupt enable register")
    );
    for region in [
        Region::CartridgeRom,
        Region::ExternalRam,
        Region::WorkRam,
        Region::EchoRam,
        Region::HighRam,
    ] {
        assert_eq!(region.placeholder_label(), None);
    }
}
