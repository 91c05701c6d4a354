use rust_boy_classic::cartridge::{
    Cartridge, CartridgeError, CartridgeType, Header, HEADER_LEN, NO_RAM_READ_VALUE,
    ROM_ONLY_SIZE,
};

fn rom() -> Vec<u8> {
    let mut bytes = vec![0; ROM_ONLY_SIZE];
    bytes[0x134..0x138].copy_from_slice(b"TEST");
    bytes
}

#[test]
fn parses_rom_only_metadata_and_preserves_bytes() {
    let bytes = rom();
    let cartridge = Cartridge::from_bytes(bytes.clone()).unwrap();
    assert_eq!(
        cartridge.header(),
        &Header {
            title: "TEST".into(),
            cartridge_type: CartridgeType::RomOnly,
            rom_size_bytes: 32768,
            ram_size_bytes: 0,
        }
    );
    assert_eq!(cartridge.rom(), bytes);
}

#[test]
fn rejects_every_truncated_header_length() {
    for actual in 0..HEADER_LEN {
        assert_eq!(
            Cartridge::from_bytes(vec![0; actual]).unwrap_err(),
            CartridgeError::TruncatedHeader { actual }
        );
    }
}

#[test]
fn rejects_all_other_cartridge_types() {
    for code in 1..=255 {
        let mut bytes = rom();
        bytes[0x147] = code;
        assert_eq!(
            Cartridge::from_bytes(bytes).unwrap_err(),
            CartridgeError::UnsupportedType(code)
        );
    }
}

#[test]
fn rejects_short_and_oversized_images() {
    for actual in [HEADER_LEN, ROM_ONLY_SIZE - 1, ROM_ONLY_SIZE + 1] {
        let mut bytes = rom();
        bytes.resize(actual, 0);
        assert_eq!(
            Cartridge::from_bytes(bytes).unwrap_err(),
            CartridgeError::RomSizeMismatch {
                declared: ROM_ONLY_SIZE,
                actual
            }
        );
    }
}

#[test]
fn rejects_unknown_size_codes_and_incompatible_layouts() {
    for (offset, code, expected) in [
        (0x148, 0xff, CartridgeError::InvalidRomSize(0xff)),
        (0x149, 0xff, CartridgeError::InvalidRamSize(0xff)),
        (
            0x148,
            1,
            CartridgeError::UnsupportedLayout {
                rom_size_bytes: 65536,
                ram_size_bytes: 0,
            },
        ),
        (
            0x149,
            2,
            CartridgeError::UnsupportedLayout {
                rom_size_bytes: 32768,
                ram_size_bytes: 8192,
            },
        ),
    ] {
        let mut bytes = rom();
        bytes[offset] = code;
        assert_eq!(Cartridge::from_bytes(bytes).unwrap_err(), expected);
    }
}

#[test]
fn handles_full_titles_color_flags_and_non_printing_bytes() {
    let mut bytes = rom();
    bytes[0x134..0x144].copy_from_slice(b"ABCDEFGHIJKLMNOP");
    assert_eq!(
        Cartridge::from_bytes(bytes.clone()).unwrap().header().title,
        "ABCDEFGHIJKLMNOP"
    );
    bytes[0x143] = 0x80;
    assert_eq!(
        Cartridge::from_bytes(bytes.clone()).unwrap().header().title,
        "ABCDEFGHIJKLMNO"
    );
    bytes[0x134..0x138].copy_from_slice(&[b'A', 0x1b, 0xff, 0]);
    assert_eq!(
        Cartridge::from_bytes(bytes).unwrap().header().title,
        "A\u{fffd}\u{fffd}"
    );
}

#[test]
fn every_rom_size_code_maps_to_its_declared_size() {
    let known: [(u8, usize); 12] = [
        (0, 32768),
        (1, 65536),
        (2, 131072),
        (3, 262144),
        (4, 524288),
        (5, 1048576),
        (6, 2097152),
        (7, 4194304),
        (8, 8388608),
        (0x52, 1179648),
        (0x53, 1310720),
        (0x54, 1572864),
    ];
    for (code, size) in known {
        let mut bytes = rom();
        bytes[0x148] = code;
        bytes[0x149] = 3;
        assert_eq!(
            Cartridge::from_bytes(bytes).unwrap_err(),
            CartridgeError::UnsupportedLayout {
                rom_size_bytes: size,
                ram_size_bytes: 32768,
            }
        );
    }
    for code in [9u8, 0x51, 0x55, 0x80] {
        let mut bytes = rom();
        bytes[0x148] = code;
        assert_eq!(
            Cartridge::from_bytes(bytes).unwrap_err(),
            CartridgeError::InvalidRomSize(code)
        );
    }
}

#[test]
fn every_ram_size_code_maps_to_its_declared_size() {
    let known: [(u8, usize); 5] = [(1, 2048), (2, 8192), (3, 32768), (4, 131072), (5, 65536)];
    for (code, size) in known {
        let mut bytes = rom();
        bytes[0x149] = code;
        assert_eq!(
            Cartridge::from_bytes(bytes).unwrap_err(),
            CartridgeError::UnsupportedLayout {
                rom_size_bytes: 32768,
                ram_size_bytes: size,
            }
        );
    }
    let mut bytes = rom();
    bytes[0x149] = 6;
    assert_eq!(
        Cartridge::from_bytes(bytes).unwrap_err(),
        CartridgeError::InvalidRamSize(6)
    );
}

#[test]
fn checks_come_in_order() {
    // A bad type wins over bad size codes and a bad length.
    let mut bytes = rom();
    bytes[0x147] = 0x01;
    bytes[0x148] = 0xff;
    bytes[0x149] = 0xff;
    bytes.truncate(HEADER_LEN);
    assert_eq!(
        Cartridge::from_bytes(bytes).unwrap_err(),
        CartridgeError::UnsupportedType(1)
    );
    // An unknown ROM code wins over an unknown RAM code.
    let mut bytes = rom();
    bytes[0x148] = 0xff;
    bytes[0x149] = 0xff;
    assert_eq!(
        Cartridge::from_bytes(bytes).unwrap_err(),
        CartridgeError::InvalidRomSize(0xff)
    );
    // A layout error wins over a length mismatch.
    let mut bytes = rom();
    bytes[0x148] = 1;
    bytes.truncate(HEADER_LEN);
    assert_eq!(
        Cartridge::from_bytes(bytes).unwrap_err(),
        CartridgeError::UnsupportedLayout {
            rom_size_bytes: 65536,
            ram_size_bytes: 0
        }
    );
}

#[test]
fn logo_and_checksum_bytes_are_not_checked() {
    let mut bytes = rom();
    for offset in 0x104..0x134 {
        bytes[offset] = 0xA5;
    }
    bytes[0x14D] = 0x12;
    bytes[0x14E] = 0x34;
    bytes[0x14F] = 0x56;
    let cartridge = Cartridge::from_bytes(bytes.clone()).unwrap();
    assert_eq!(cartridge.header().title, "TEST");
    assert_eq!(cartridge.rom(), bytes);
}

#[test]
fn titles_stop_at_zero_and_may_be_empty() {
    let mut bytes = rom();
    bytes[0x134..0x138].copy_from_slice(&[0, b'X', b'Y', b'Z']);
    assert_eq!(Cartridge::from_bytes(bytes).unwrap().header().title, "");
    let mut bytes = rom();
    bytes[0x134..0x13A].copy_from_slice(b"AB CD\x7f");
    assert_eq!(
        Cartridge::from_bytes(bytes).unwrap().header().title,
        "AB CD\u{fffd}"
    );
    let mut bytes = rom();
    bytes[0x134..0x144].copy_from_slice(b"ABCDEFGHIJKLMNOP");
    bytes[0x143] = 0x7F;
    assert_eq!(
        Cartridge::from_bytes(bytes).unwrap().header().title,
        "ABCDEFGHIJKLMNO\u{fffd}"
    );
}

#[test]
fn cartridge_side_reads_rom_and_no_ram() {
    let mut bytes = rom();
    bytes[0x0100] = 0xC3;
    bytes[0x7FFF] = 0x99;
    let mut cartridge = Cartridge::from_bytes(bytes.clone()).unwrap();
    assert_eq!(cartridge.read(0x0100), 0xC3);
    assert_eq!(cartridge.read(0x7FFF), 0x99);
    assert_eq!(cartridge.read(0xA000), NO_RAM_READ_VALUE);
    assert_eq!(cartridge.read(0xBFFF), 0xFF);
    cartridge.write(0x0100, 0x00);
    cartridge.write(0xA000, 0x42);
    assert_eq!(cartridge.read(0x0100), 0xC3);
    assert_eq!(cartridge.read(0xA000), 0xFF);
    assert_eq!(cartridge.rom(), bytes);
}

#[test]
fn cartridge_type_and_errors_have_messages() {
    assert_eq!(CartridgeType::RomOnly.to_string(), "ROM ONLY (0x00)");
    let cases = [
        (
            CartridgeError::TruncatedHeader { actual: 7 },
            "ROM header is truncated: need at least 336 bytes, got 7",
        ),
        (
            CartridgeError::UnsupportedType(0x1b),
            "unsupported cartridge type 0x1B; only ROM ONLY (0x00) is supported",
        ),
        (CartridgeError::InvalidRomSize(0xff), "unknown ROM size code 0xFF"),
        (CartridgeError::InvalidRamSize(0x06), "unknown RAM size code 0x06"),
        (
            CartridgeError::UnsupportedLayout {
                rom_size_bytes: 65536,
                ram_size_bytes: 0,
            },
            "unsupported ROM ONLY layout: declares 65536 ROM bytes and 0 RAM bytes; expected 32768 ROM bytes and no RAM",
        ),
        (
            CartridgeError::RomSizeMismatch {
                declared: 32768,
                actual: 32769,
            },
            "ROM size mismatch: header declares 32768 bytes, file contains 32769",
        ),
    ];
    for (error, message) in cases {
        assert_eq!(error.to_string(), message);
    }
}
