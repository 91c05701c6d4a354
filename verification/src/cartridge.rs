//! Byte-level parsing of original Game Boy cartridge headers.
//!
//! Only ROM ONLY cartridges (type `0x00`) with exactly 32 KiB of ROM and no
//! external RAM are accepted. Logo and checksum validation are deferred, so
//! synthetic images are accepted as long as the fields below are consistent.
use vstd::prelude::*;
use vstd::arithmetic::power2::{pow2, lemma2_to64, lemma_pow2_strictly_increases};
use vstd::bits::lemma_usize_shl_is_mul;

verus! {

/// Bytes the header occupies at the start of every image (`0x0000..=0x014F`).
pub const HEADER_LEN: usize = 0x150;

/// Size of the ROM of a ROM ONLY cartridge: 32 KiB, two unbanked 16 KiB banks.
pub const ROM_ONLY_SIZE: usize = 32 * 1024;

/// First byte of the title field.
pub const TITLE_START: usize = 0x134;

/// Byte that color-capable headers take from the end of the title as a flag.
pub const CGB_FLAG_OFFSET: usize = 0x143;

/// One past the last byte of the full-length title field.
pub const TITLE_END: usize = 0x144;

/// Cartridge type code.
pub const TYPE_OFFSET: usize = 0x147;

/// ROM size code.
pub const ROM_SIZE_OFFSET: usize = 0x148;

/// RAM size code.
pub const RAM_SIZE_OFFSET: usize = 0x149;

/// Shown in place of a title byte that is not printable ASCII.
pub const REPLACEMENT_CHAR: char = '\u{FFFD}';

/// Declared ROM size, in bytes, for a ROM size code; `None` for unknown codes.
pub open spec fn rom_size_for_code(code: u8) -> Option<nat> {
    if code <= 8 {
        Some((ROM_ONLY_SIZE as nat) * pow2(code as nat))
    } else if code == 0x52 {
        Some(72 * 16 * 1024)
    } else if code == 0x53 {
        Some(80 * 16 * 1024)
    } else if code == 0x54 {
        Some(96 * 16 * 1024)
    } else {
        None
    }
}

/// Declared external RAM size, in bytes, for a RAM size code; `None` for unknown codes.
/// Code 1 is otherwise unused; legacy homebrew tools used it for 2 KiB.
pub open spec fn ram_size_for_code(code: u8) -> Option<nat> {
    if code == 0 {
        Some(0)
    } else if code == 1 {
        Some(2 * 1024)
    } else if code == 2 {
        Some(8 * 1024)
    } else if code == 3 {
        Some(32 * 1024)
    } else if code == 4 {
        Some(128 * 1024)
    } else if code == 5 {
        Some(64 * 1024)
    } else {
        None
    }
}


/// Why an image was refused.
#[derive(Debug, Clone, PartialEq, Eq, Structural)]
pub enum CartridgeError {
    /// The image is shorter than the header.
    TruncatedHeader { actual: usize },
    /// The cartridge type code is not ROM ONLY (`0x00`).
    UnsupportedType(u8),
    /// The ROM size code is unknown.
    InvalidRomSize(u8),
    /// The RAM size code is unknown.
    InvalidRamSize(u8),
    /// The declared sizes are known but not 32 KiB of ROM without RAM.
    UnsupportedLayout { rom_size_bytes: usize, ram_size_bytes: usize },
    /// The image is not exactly as long as its declared ROM size.
    RomSizeMismatch { declared: usize, actual: usize },
}

/// The refusal that `Cartridge::from_bytes` gives for an image, or `None`
/// when it accepts it. The checks are made in this order.
pub open spec fn parse_error(bytes: Seq<u8>) -> Option<CartridgeError> {
    if bytes.len() < HEADER_LEN {
        Some(CartridgeError::TruncatedHeader { actual: bytes.len() as usize })
    } else if bytes[TYPE_OFFSET as int] != 0 {
        Some(CartridgeError::UnsupportedType(bytes[TYPE_OFFSET as int]))
    } else {
        match rom_size_for_code(bytes[ROM_SIZE_OFFSET as int]) {
            None => Some(CartridgeError::InvalidRomSize(bytes[ROM_SIZE_OFFSET as int])),
            Some(rom_size) => match ram_size_for_code(bytes[RAM_SIZE_OFFSET as int]) {
                None => Some(CartridgeError::InvalidRamSize(bytes[RAM_SIZE_OFFSET as int])),
                Some(ram_size) => if rom_size != ROM_ONLY_SIZE || ram_size != 0 {
                    Some(
                        CartridgeError::UnsupportedLayout {
                            rom_size_bytes: rom_size as usize,
                            ram_size_bytes: ram_size as usize,
                        },
                    )
                } else if bytes.len() != rom_size {
                    Some(
                        CartridgeError::RomSizeMismatch {
                            declared: rom_size as usize,
                            actual: bytes.len() as usize,
                        },
                    )
                } else {
                    None
                },
            },
        }
    }
}

/// Whether the header sets the color-capable flag (bit 7 of byte `0x143`),
/// which then no longer belongs to the title.
pub open spec fn has_cgb_flag(bytes: Seq<u8>) -> bool {
    bytes[CGB_FLAG_OFFSET as int] >= 0x80
}

/// The bytes that may hold the title: `0x134..0x144`, or `0x134..0x143`
/// when the color-capable flag is set.
pub open spec fn title_field(bytes: Seq<u8>) -> Seq<u8> {
    let end = if has_cgb_flag(bytes) {
        CGB_FLAG_OFFSET
    } else {
        TITLE_END
    };
    bytes.subrange(TITLE_START as int, end as int)
}

/// Index of the first zero byte of `s` at or after `i`, or `s.len()` if there is none.
pub open spec fn first_zero_from(s: Seq<u8>, i: int) -> int
    decreases s.len() - i,
{
    if i < 0 || i >= s.len() {
        s.len() as int
    } else if s[i] == 0 {
        i
    } else {
        first_zero_from(s, i + 1)
    }
}

/// The title bytes: the title field up to its first zero byte.
pub open spec fn title_bytes(bytes: Seq<u8>) -> Seq<u8> {
    title_field(bytes).take(first_zero_from(title_field(bytes), 0))
}

/// Whether a byte is shown as itself: printable ASCII or the space.
pub open spec fn is_shown_as_is(b: u8) -> bool {
    0x20 <= b <= 0x7E
}

/// How a title byte is shown: itself when printable, else U+FFFD.
pub open spec fn title_char(b: u8) -> char {
    if is_shown_as_is(b) {
        b as char
    } else {
        REPLACEMENT_CHAR
    }
}

/// The title as shown: each title byte through `title_char`.
pub open spec fn title_text(bytes: Seq<u8>) -> Seq<char> {
    title_bytes(bytes).map_values(|b: u8| title_char(b))
}


/// The kind of hardware a cartridge carries.
#[derive(Debug, Clone, Copy, PartialEq, Eq, Structural)]
pub enum CartridgeType {
    /// Code `0x00`: 32 KiB of ROM, no mapper, no RAM.
    RomOnly,
}

/// The metadata of an accepted image.
#[derive(Debug, Clone, PartialEq, Eq)]
pub struct Header {
    pub title: String,
    pub cartridge_type: CartridgeType,
    pub rom_size_bytes: usize,
    pub ram_size_bytes: usize,
}

impl Header {
    /// Whether this is the metadata of the accepted image `bytes`.
    pub open spec fn describes(self, bytes: Seq<u8>) -> bool {
        &&& self.title@ == title_text(bytes)
        &&& self.cartridge_type == CartridgeType::RomOnly
        &&& self.rom_size_bytes == ROM_ONLY_SIZE
        &&& self.ram_size_bytes == 0
    }
}

/// An accepted cartridge image with its parsed header.
#[derive(Debug)]
pub struct Cartridge {
    header: Header,
    rom: Vec<u8>,
}

impl View for Cartridge {
    type V = Seq<u8>;

    /// The image bytes, exactly as they were handed to `from_bytes`.
    closed spec fn view(&self) -> Seq<u8> {
        self.rom@
    }
}

/// `String::push`: appends `c` at the end of `s`.
#[verifier::external_body]
fn push_char(s: &mut String, c: char)
    ensures
        final(s)@ == old(s)@.push(c),
{
    s.push(c);
}

/// Shifting the 32 KiB base size left by a ROM size code up to 8 multiplies it
/// by two to the power of the code, without overflow.
proof fn lemma_rom_size_shift(code: u8)
    requires
        code <= 8,
    ensures
        (ROM_ONLY_SIZE << (code as usize)) == (ROM_ONLY_SIZE as nat) * pow2(code as nat),
        (ROM_ONLY_SIZE as nat) * pow2(code as nat) <= 8 * 1024 * 1024,
{
    lemma2_to64();
    let p = pow2(code as nat);
    assert(p <= 256) by {
        if code < 8 {
            lemma_pow2_strictly_increases(code as nat, 8);
        }
    }
    assert((ROM_ONLY_SIZE as nat) * p <= 32768 * 256) by (nonlinear_arith)
        requires
            p <= 256,
            ROM_ONLY_SIZE == 32768,
    ;
    lemma_usize_shl_is_mul(ROM_ONLY_SIZE, code as usize);
}

/// How a title byte is shown: itself when printable ASCII or a space, else U+FFFD.
pub fn to_title_char(b: u8) -> (c: char)
    ensures
        c == title_char(b),
        0x20 <= b <= 0x7E ==> c == b as char,
        !(0x20 <= b <= 0x7E) ==> c == '\u{FFFD}',
{
    if (0x21 <= b && b <= 0x7E) || b == 0x20 {
        b as char
    } else {
        REPLACEMENT_CHAR
    }
}

/// Reads the title out of an image that holds a whole header.
fn parse_title(rom: &Vec<u8>) -> (title: String)
    requires
        rom@.len() >= HEADER_LEN,
    ensures
        title@ == title_text(rom@),
{
    let flag = rom[CGB_FLAG_OFFSET];
    assert(flag & 0x80u8 != 0 <==> flag >= 0x80) by (bit_vector);
    // Color-capable headers reuse the last title byte as a flag.
    let title_end: usize = if flag & 0x80 != 0 {
        CGB_FLAG_OFFSET
    } else {
        TITLE_END
    };
    let ghost field = title_field(rom@);
    assert(field =~= rom@.subrange(TITLE_START as int, title_end as int));
    let field_len: usize = title_end - TITLE_START;
    let mut len: usize = 0;
    while len < field_len && rom[TITLE_START + len] != 0
        invariant
            field_len == field.len(),
            field_len <= 16,
            field =~= rom@.subrange(TITLE_START as int, TITLE_START + field_len),
            TITLE_START + field_len <= rom@.len(),
            len <= field_len,
            first_zero_from(field, 0) == first_zero_from(field, len as int),
        decreases field_len - len,
    {
        len = len + 1;
    }
    assert(first_zero_from(field, len as int) == len);
    let mut title = String::new();
    let mut i: usize = 0;
    while i < len
        invariant
            field_len == field.len(),
            field_len <= 16,
            field =~= rom@.subrange(TITLE_START as int, TITLE_START + field_len),
            TITLE_START + field_len <= rom@.len(),
            len == first_zero_from(field, 0),
            len <= field_len,
            i <= len,
            title@ =~= field.take(i as int).map_values(|b: u8| title_char(b)),
        decreases len - i,
    {
        let c = to_title_char(rom[TITLE_START + i]);
        push_char(&mut title, c);
        assert(field.take(i + 1) =~= field.take(i as int).push(field[i as int]));
        i = i + 1;
    }
    title
}


/// What a ROM ONLY cartridge answers outside its ROM: it has no external RAM.
pub const NO_RAM_READ_VALUE: u8 = 0xFF;

/// What the cartridge answers to a read of `address`: the image byte inside
/// the 32 KiB ROM window, `NO_RAM_READ_VALUE` elsewhere.
pub open spec fn cartridge_read(rom: Seq<u8>, address: u16) -> u8 {
    if address <= 0x7FFF {
        rom[address as int]
    } else {
        NO_RAM_READ_VALUE
    }
}

impl Cartridge {
    #[verifier::type_invariant]
    closed spec fn accepted(self) -> bool {
        &&& parse_error(self.rom@) is None
        &&& self.header.describes(self.rom@)
    }

    /// Parses owned ROM bytes without file I/O.
    ///
    /// Only 32 KiB ROM ONLY cartridges with no external RAM are accepted, and
    /// the image must be exactly as long as its declared ROM size. The first
    /// failing check, in the order of `parse_error`, gives the error.
    pub fn from_bytes(rom: Vec<u8>) -> (res: Result<Cartridge, CartridgeError>)
        ensures
            match res {
                Ok(cartridge) => parse_error(rom@) is None && cartridge@ == rom@,
                Err(error) => parse_error(rom@) == Some(error),
            },
    {
        let actual = rom.len();
        if actual < HEADER_LEN {
            return Err(CartridgeError::TruncatedHeader { actual });
        }
        let type_code = rom[TYPE_OFFSET];
        if type_code != 0 {
            return Err(CartridgeError::UnsupportedType(type_code));
        }
        let rom_code = rom[ROM_SIZE_OFFSET];
        let rom_size_bytes: usize = if rom_code <= 8 {
            proof {
                lemma_rom_size_shift(rom_code);
            }
            ROM_ONLY_SIZE << (rom_code as usize)
        } else if rom_code == 0x52 {
            72 * 16 * 1024
        } else if rom_code == 0x53 {
            80 * 16 * 1024
        } else if rom_code == 0x54 {
            96 * 16 * 1024
        } else {
            return Err(CartridgeError::InvalidRomSize(rom_code));
        };
        let ram_code = rom[RAM_SIZE_OFFSET];
        let ram_size_bytes: usize = if ram_code == 0 {
            0
        } else if ram_code == 1 {
            2 * 1024
        } else if ram_code == 2 {
            8 * 1024
        } else if ram_code == 3 {
            32 * 1024
        } else if ram_code == 4 {
            128 * 1024
        } else if ram_code == 5 {
            64 * 1024
        } else {
            return Err(CartridgeError::InvalidRamSize(ram_code));
        };
        if rom_size_bytes != ROM_ONLY_SIZE || ram_size_bytes != 0 {
            return Err(CartridgeError::UnsupportedLayout { rom_size_bytes, ram_size_bytes });
        }
        if actual != rom_size_bytes {
            return Err(CartridgeError::RomSizeMismatch { declared: rom_size_bytes, actual });
        }
        let title = parse_title(&rom);
        let header = Header {
            title,
            cartridge_type: CartridgeType::RomOnly,
            rom_size_bytes,
            ram_size_bytes,
        };
        Ok(Cartridge { header, rom })
    }

    /// The parsed metadata of this image.
    pub fn header(&self) -> (header: &Header)
        ensures
            header.describes(self@),
            parse_error(self@) is None,
    {
        proof {
            use_type_invariant(self);
        }
        &self.header
    }

    /// The image bytes, unchanged.
    pub fn rom(&self) -> (rom: &[u8])
        ensures
            rom@ == self@,
            parse_error(self@) is None,
    {
        proof {
            use_type_invariant(self);
        }
        self.rom.as_slice()
    }

    /// A read on the cartridge's side of the bus: the ROM byte at `address`
    /// inside `0x0000..=0x7FFF`, `NO_RAM_READ_VALUE` elsewhere (a ROM ONLY
    /// cartridge has no external RAM).
    pub fn read(&self, address: u16) -> (value: u8)
        ensures
            value == cartridge_read(self@, address),
            address <= 0x7FFF ==> value == self@[address as int],
            address > 0x7FFF ==> value == 0xFF,
    {
        proof {
            use_type_invariant(self);
        }
        if address <= 0x7FFF {
            self.rom[address as usize]
        } else {
            NO_RAM_READ_VALUE
        }
    }

    /// A write on the cartridge's side of the bus. ROM cannot be written and a
    /// ROM ONLY cartridge has neither a mapper nor RAM, so nothing changes.
    pub fn write(&mut self, address: u16, value: u8)
        ensures
            final(self)@ == old(self)@,
    {
    }
}


/// An image is accepted exactly when it is 32 KiB long and declares a ROM ONLY
/// cartridge (type `0x00`) with ROM size code `0x00` (32 KiB) and RAM size code
/// `0x00` (no RAM). Logo and checksums play no part.
pub proof fn lemma_accepted_images(bytes: Seq<u8>)
    ensures
        parse_error(bytes) is None <==> {
            &&& bytes.len() == ROM_ONLY_SIZE
            &&& bytes[TYPE_OFFSET as int] == 0
            &&& bytes[ROM_SIZE_OFFSET as int] == 0
            &&& bytes[RAM_SIZE_OFFSET as int] == 0
        },
{
    lemma2_to64();
    if bytes.len() >= HEADER_LEN && bytes[TYPE_OFFSET as int] == 0 {
        let code = bytes[ROM_SIZE_OFFSET as int];
        if 0 < code <= 8 {
            lemma_pow2_strictly_increases(0, code as nat);
        }
    }
}

/// `first_zero_from(s, i)` lies in `i..=s.len()` and no byte before it, from `i`
/// on, is zero.
proof fn lemma_first_zero_from(s: Seq<u8>, i: int)
    requires
        0 <= i <= s.len(),
    ensures
        i <= first_zero_from(s, i) <= s.len(),
        forall|j: int| i <= j < first_zero_from(s, i) ==> s[j] != 0,
        first_zero_from(s, i) < s.len() ==> s[first_zero_from(s, i)] == 0,
    decreases s.len() - i,
{
    if i < s.len() && s[i] != 0 {
        lemma_first_zero_from(s, i + 1);
    }
}

/// The title of an image holding a whole header: it has no zero byte, it is
/// at most 16 characters long, at most 15 when the color-capable flag is set,
/// each character shows its byte when printable and U+FFFD otherwise, and it
/// stops only at the end of the field or at a zero byte.
pub proof fn lemma_title_shape(bytes: Seq<u8>)
    requires
        bytes.len() >= HEADER_LEN,
    ensures
        title_text(bytes).len() == title_bytes(bytes).len(),
        title_bytes(bytes).len() <= 16,
        has_cgb_flag(bytes) ==> title_bytes(bytes).len() <= 15,
        forall|i: int| 0 <= i < title_bytes(bytes).len() ==> #[trigger] title_bytes(bytes)[i] != 0,
        forall|i: int|
            0 <= i < title_bytes(bytes).len() ==> #[trigger] title_text(bytes)[i] == title_char(
                title_bytes(bytes)[i],
            ),
        title_bytes(bytes).len() < title_field(bytes).len() ==> title_field(bytes)[title_bytes(
            bytes,
        ).len() as int] == 0,
{
    let field = title_field(bytes);
    lemma_first_zero_from(field, 0);
}


/// The character of a decimal digit.
pub open spec fn digit_char(d: nat) -> char {
    (48 + d) as char
}

/// The character of a hexadecimal digit, upper case.
pub open spec fn hex_digit_char(d: nat) -> char {
    if d < 10 {
        (48 + d) as char
    } else {
        (55 + d) as char
    }
}

/// `n` in decimal, without leading zeros.
pub open spec fn decimal(n: nat) -> Seq<char>
    decreases n,
{
    if n < 10 {
        seq![digit_char(n)]
    } else {
        decimal(n / 10).push(digit_char(n % 10))
    }
}

/// A byte as two upper-case hexadecimal digits.
pub open spec fn hex_byte(b: u8) -> Seq<char> {
    seq![hex_digit_char(b as nat / 16), hex_digit_char(b as nat % 16)]
}

/// Appends `n` in decimal.
fn push_decimal(s: &mut String, n: usize)
    ensures
        final(s)@ == old(s)@ + decimal(n as nat),
    decreases n,
{
    if n >= 10 {
        push_decimal(s, n / 10);
    }
    let d: u8 = (n % 10) as u8;
    push_char(s, (48 + d) as char);
    assert(final(s)@ =~= old(s)@ + decimal(n as nat));
}

/// Appends a byte as two upper-case hexadecimal digits.
fn push_hex_byte(s: &mut String, b: u8)
    ensures
        final(s)@ == old(s)@ + hex_byte(b),
{
    let high: u8 = b / 16;
    let low: u8 = b % 16;
    push_char(s, if high < 10 { (48 + high) as char } else { (55 + high) as char });
    push_char(s, if low < 10 { (48 + low) as char } else { (55 + low) as char });
    assert(final(s)@ =~= old(s)@ + hex_byte(b));
}

/// How a cartridge type is shown.
pub open spec fn cartridge_type_text(t: CartridgeType) -> Seq<char> {
    match t {
        CartridgeType::RomOnly => "ROM ONLY (0x00)"@,
    }
}

impl CartridgeType {
    /// The text shown for this cartridge type.
    pub fn to_string(&self) -> (text: String)
        ensures
            text@ == cartridge_type_text(*self),
    {
        match self {
            CartridgeType::RomOnly => String::from_str("ROM ONLY (0x00)"),
        }
    }
}

/// The message shown for an error.
pub open spec fn error_text(e: CartridgeError) -> Seq<char> {
    match e {
        CartridgeError::TruncatedHeader { actual } => "ROM header is truncated: need at least "@
            + decimal(HEADER_LEN as nat) + " bytes, got "@ + decimal(actual as nat),
        CartridgeError::UnsupportedType(code) => "unsupported cartridge type 0x"@ + hex_byte(code)
            + "; only ROM ONLY (0x00) is supported"@,
        CartridgeError::InvalidRomSize(code) => "unknown ROM size code 0x"@ + hex_byte(code),
        CartridgeError::InvalidRamSize(code) => "unknown RAM size code 0x"@ + hex_byte(code),
        CartridgeError::UnsupportedLayout { rom_size_bytes, ram_size_bytes } =>
            "unsupported ROM ONLY layout: declares "@ + decimal(rom_size_bytes as nat)
            + " ROM bytes and "@ + decimal(ram_size_bytes as nat)
            + " RAM bytes; expected 32768 ROM bytes and no RAM"@,
        CartridgeError::RomSizeMismatch { declared, actual } =>
            "ROM size mismatch: header declares "@ + decimal(declared as nat)
            + " bytes, file contains "@ + decimal(actual as nat),
    }
}

impl CartridgeError {
    /// The message shown for this error.
    pub fn to_string(&self) -> (text: String)
        ensures
            text@ == error_text(*self),
    {
        let mut s = String::new();
        match self {
            CartridgeError::TruncatedHeader { actual } => {
                s.append("ROM header is truncated: need at least ");
                push_decimal(&mut s, HEADER_LEN);
                s.append(" bytes, got ");
                push_decimal(&mut s, *actual);
            },
            CartridgeError::UnsupportedType(code) => {
                s.append("unsupported cartridge type 0x");
                push_hex_byte(&mut s, *code);
                s.append("; only ROM ONLY (0x00) is supported");
            },
            CartridgeError::InvalidRomSize(code) => {
                s.append("unknown ROM size code 0x");
                push_hex_byte(&mut s, *code);
            },
            CartridgeError::InvalidRamSize(code) => {
                s.append("unknown RAM size code 0x");
                push_hex_byte(&mut s, *code);
            },
            CartridgeError::UnsupportedLayout { rom_size_bytes, ram_size_bytes } => {
                s.append("unsupported ROM ONLY layout: declares ");
                push_decimal(&mut s, *rom_size_bytes);
                s.append(" ROM bytes and ");
                push_decimal(&mut s, *ram_size_bytes);
                s.append(" RAM bytes; expected 32768 ROM bytes and no RAM");
            },
            CartridgeError::RomSizeMismatch { declared, actual } => {
                s.append("ROM size mismatch: header declares ");
                push_decimal(&mut s, *declared);
                s.append(" bytes, file contains ");
                push_decimal(&mut s, *actual);
            },
        }
        assert(s@ =~= error_text(*self));
        s
    }
}


/// The sizes the header codes declare, in bytes: ROM codes `0x00..=0x08` give
/// 32 KiB doubled once per step, `0x52`/`0x53`/`0x54` give 72, 80 and 96 banks
/// of 16 KiB, and no other ROM code is known; RAM codes `0x00..=0x05` give
/// 0, 2, 8, 32, 128 and 64 KiB, and no other RAM code is known.
pub proof fn lemma_declared_sizes(code: u8)
    ensures
        code == 0 ==> rom_size_for_code(code) == Some(32768nat),
        code == 1 ==> rom_size_for_code(code) == Some(65536nat),
        code == 2 ==> rom_size_for_code(code) == Some(131072nat),
        code == 3 ==> rom_size_for_code(code) == Some(262144nat),
        code == 4 ==> rom_size_for_code(code) == Some(524288nat),
        code == 5 ==> rom_size_for_code(code) == Some(1048576nat),
        code == 6 ==> rom_size_for_code(code) == Some(2097152nat),
        code == 7 ==> rom_size_for_code(code) == Some(4194304nat),
        code == 8 ==> rom_size_for_code(code) == Some(8388608nat),
        code == 0x52 ==> rom_size_for_code(code) == Some(1179648nat),
        code == 0x53 ==> rom_size_for_code(code) == Some(1310720nat),
        code == 0x54 ==> rom_size_for_code(code) == Some(1572864nat),
        (8 < code && code != 0x52 && code != 0x53 && code != 0x54) ==> rom_size_for_code(code)
            is None,
        code == 0 ==> ram_size_for_code(code) == Some(0nat),
        code == 1 ==> ram_size_for_code(code) == Some(2048nat),
        code == 2 ==> ram_size_for_code(code) == Some(8192nat),
        code == 3 ==> ram_size_for_code(code) == Some(32768nat),
        code == 4 ==> ram_size_for_code(code) == Some(131072nat),
        code == 5 ==> ram_size_for_code(code) == Some(65536nat),
        code > 5 ==> ram_size_for_code(code) is None,
{
    lemma2_to64();
}

/// The refusals, in the order the checks are made: an image shorter than the
/// header is truncated whatever it holds; otherwise any type other than `0x00`
/// is refused as unsupported whatever the length and size codes (bank-switched
/// cartridges among them); then an unknown ROM size code, then an unknown RAM
/// size code; then known sizes other than 32 KiB of ROM without RAM; and last
/// an image whose length is not 32 KiB.
pub proof fn lemma_refusal_order(bytes: Seq<u8>)
    ensures
        bytes.len() < 0x150 ==> parse_error(bytes) == Some(
            CartridgeError::TruncatedHeader { actual: bytes.len() as usize },
        ),
        bytes.len() >= 0x150 && bytes[0x147] != 0 ==> parse_error(bytes) == Some(
            CartridgeError::UnsupportedType(bytes[0x147]),
        ),
        bytes.len() >= 0x150 && bytes[0x147] == 0 && rom_size_for_code(bytes[0x148]) is None
            ==> parse_error(bytes) == Some(CartridgeError::InvalidRomSize(bytes[0x148])),
        bytes.len() >= 0x150 && bytes[0x147] == 0 && rom_size_for_code(bytes[0x148]) is Some
            && ram_size_for_code(bytes[0x149]) is None ==> parse_error(bytes) == Some(
            CartridgeError::InvalidRamSize(bytes[0x149]),
        ),
        bytes.len() >= 0x150 && bytes[0x147] == 0 && rom_size_for_code(bytes[0x148]) is Some
            && ram_size_for_code(bytes[0x149]) is Some && (bytes[0x148] != 0 || bytes[0x149]
            != 0) ==> parse_error(bytes) == Some(
            CartridgeError::UnsupportedLayout {
                rom_size_bytes: rom_size_for_code(bytes[0x148]).unwrap() as usize,
                ram_size_bytes: ram_size_for_code(bytes[0x149]).unwrap() as usize,
            },
        ),
        bytes.len() >= 0x150 && bytes[0x147] == 0 && bytes[0x148] == 0 && bytes[0x149] == 0
            && bytes.len() != 32768 ==> parse_error(bytes) == Some(
            CartridgeError::RomSizeMismatch { declared: 32768, actual: bytes.len() as usize },
        ),
        bytes.len() == 32768 && bytes[0x147] == 0 && bytes[0x148] == 0 && bytes[0x149] == 0
            ==> parse_error(bytes) is None,
{
    lemma2_to64();
    if bytes.len() >= 0x150 && bytes[0x147] == 0 {
        let code = bytes[0x148];
        if 0 < code <= 8 {
            lemma_pow2_strictly_increases(0, code as nat);
        }
    }
}

/// How each title byte is shown: every printable ASCII byte (`0x21..=0x7E`:
/// digits, punctuation, upper- and lower-case letters) and the space appear as
/// that very character; every other byte appears as U+FFFD.
pub proof fn lemma_title_char(b: u8)
    ensures
        0x20 <= b <= 0x7E ==> title_char(b) == b as char,
        !(0x20 <= b <= 0x7E) ==> title_char(b) == '\u{FFFD}',
{
}

/// The title of an image holding a whole header, in terms of its bytes: it is
/// the bytes from `0x134` on, up to the first zero byte or the end of the field
/// (`0x144`, or `0x143` when bit 7 of byte `0x143` is set), each shown as
/// itself when it is printable ASCII or a space and as U+FFFD otherwise.
pub proof fn lemma_title_from_bytes(bytes: Seq<u8>)
    requires
        bytes.len() >= 0x150,
    ensures
        ({
            let end: int = if bytes[0x143] >= 0x80 {
                0x143
            } else {
                0x144
            };
            let n = title_text(bytes).len() as int;
            &&& 0x134 + n <= end
            &&& forall|j: int| 0 <= j < n ==> #[trigger] bytes[0x134 + j] != 0
            &&& 0x134 + n < end ==> bytes[0x134 + n] == 0
            &&& forall|j: int|
                0 <= j < n ==> {
                    let b = #[trigger] bytes[0x134 + j];
                    &&& 0x20 <= b <= 0x7E ==> title_text(bytes)[j] == b as char
                    &&& !(0x20 <= b <= 0x7E) ==> title_text(bytes)[j] == '\u{FFFD}'
                }
        }),
{
    let field = title_field(bytes);
    lemma_first_zero_from(field, 0);
    let n = title_text(bytes).len() as int;
    assert forall|j: int| 0 <= j < n implies #[trigger] bytes[0x134 + j] == title_bytes(bytes)[j] by {
        assert(title_bytes(bytes)[j] == field[j]);
    }
}


/// The number that a string of decimal digits stands for.
pub open spec fn decimal_value(s: Seq<char>) -> int
    decreases s.len(),
{
    if s.len() == 0 {
        0
    } else {
        decimal_value(s.drop_last()) * 10 + (s.last() as int - 48)
    }
}

/// What a hexadecimal digit character stands for.
pub open spec fn hex_digit_value(c: char) -> int {
    if (c as int) <= 57 {
        c as int - 48
    } else {
        c as int - 55
    }
}

/// Numbers in messages are written in plain decimal: only the digits `0`–`9`,
/// no leading zero, and read back they give the number.
pub proof fn lemma_decimal_digits(n: nat)
    ensures
        decimal(n).len() >= 1,
        forall|i: int| 0 <= i < decimal(n).len() ==> 48 <= (#[trigger] decimal(n)[i]) as int <= 57,
        n >= 1 ==> decimal(n)[0] != '0',
        decimal_value(decimal(n)) == n,
    decreases n,
{
    if n >= 10 {
        lemma_decimal_digits(n / 10);
        let s = decimal(n);
        assert(s.drop_last() =~= decimal(n / 10));
        assert(s[0] == decimal(n / 10)[0]);
        assert(s.last() as int == 48 + n % 10);
        assert((n / 10) * 10 + n % 10 == n) by (nonlinear_arith);
        assert(decimal_value(s.drop_last()) == n / 10);
        assert(decimal_value(s) == decimal_value(s.drop_last()) * 10 + (s.last() as int - 48));
    } else {
        let s = decimal(n);
        assert(s.drop_last() =~= Seq::<char>::empty());
        assert(s.last() as int == 48 + n);
        assert(decimal_value(Seq::<char>::empty()) == 0);
        assert(decimal_value(s) == decimal_value(s.drop_last()) * 10 + (s.last() as int - 48));
    }
}

/// Codes in messages are written as exactly two upper-case hexadecimal
/// digits (`0`–`9`, `A`–`F`) that read back as the byte.
pub proof fn lemma_hex_byte_digits(b: u8)
    ensures
        hex_byte(b).len() == 2,
        forall|i: int|
            0 <= i < 2 ==> {
                let c = (#[trigger] hex_byte(b)[i]) as int;
                (48 <= c <= 57) || (65 <= c <= 70)
            },
        hex_digit_value(hex_byte(b)[0]) * 16 + hex_digit_value(hex_byte(b)[1]) == b,
{
}

} // verus!
