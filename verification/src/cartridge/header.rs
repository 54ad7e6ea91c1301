use vstd::prelude::*;
use vstd::string::StringExecFns;

verus! {

/// The first offset of the image that lies behind the header.
pub const HEADER_END: usize = 0x150;

/// The offset of the image at which the header starts.
pub const HEADER_START: usize = 0x100;

/// The memory bank controllers this emulator knows.
#[derive(Clone, Copy, Debug, PartialEq, Eq, Structural)]
pub enum CartridgeType {
    RomOnly,
    Mbc1,
    Mbc1Ram,
    Mbc1RamBattery,
}

/// The header of a cartridge image: the 80 bytes at offsets 0x100 to 0x14F.
#[derive(Clone, Copy, Debug)]
pub struct CartridgeHeader {
    pub bytes: [u8; 0x50],
}

/// The name of the result of `String::from_utf8_lossy`: the text that the
/// bytes encode in UTF-8, with the replacement character U+FFFD wherever they
/// encode none.
pub uninterp spec fn lossy_text(bytes: Seq<u8>) -> Seq<char>;

/// Whether every byte is below 128.
pub open spec fn all_ascii(bytes: Seq<u8>) -> bool {
    forall|i: int| 0 <= i < bytes.len() ==> bytes[i] < 128
}

/// The bytes read as characters, one for one.
pub open spec fn ascii_text(bytes: Seq<u8>) -> Seq<char> {
    Seq::new(bytes.len(), |i: int| bytes[i] as char)
}

/// The number of bytes that are left when trailing zero bytes are dropped.
pub open spec fn trimmed_len(bytes: Seq<u8>) -> nat
    decreases bytes.len(),
{
    if bytes.len() == 0 || bytes.last() != 0 {
        bytes.len()
    } else {
        trimmed_len(bytes.drop_last())
    }
}

/// The character of a decimal digit.
pub open spec fn digit_char(digit: int) -> char
    recommends
        0 <= digit < 10,
{
    ('0' as int + digit) as char
}

/// A number in decimal notation, without leading zeros.
pub open spec fn decimal_text(n: nat) -> Seq<char>
    decreases n,
{
    if n < 10 {
        seq![digit_char(n as int)]
    } else {
        decimal_text(n / 10).push(digit_char((n % 10) as int))
    }
}

/// The sum that the header checksum is the low byte of: each byte counts
/// as its negative less one.
pub open spec fn checksum_sum(bytes: Seq<u8>) -> int
    decreases bytes.len(),
{
    if bytes.len() == 0 {
        0
    } else {
        checksum_sum(bytes.drop_last()) - bytes.last() - 1
    }
}

/// The text for a cartridge type code.
pub open spec fn type_name_of(code: u8) -> Seq<char> {
    if code == 0x00 {
        "ROM ONLY"@
    } else if code == 0x01 {
        "MBC1"@
    } else if code == 0x02 {
        "MBC1+RAM"@
    } else if code == 0x03 {
        "MBC1+RAM+BATTERY"@
    } else if code == 0x10 {
        "MBC3+TIMER+RAM+BATTERY"@
    } else {
        "Unknown"@
    }
}

/// The text for a RAM size code.
pub open spec fn ram_size_name_of(code: u8) -> Seq<char> {
    if code == 0x00 {
        "No RAM"@
    } else if code == 0x02 {
        "8 KiB"@
    } else if code == 0x03 {
        "32 KiB"@
    } else if code == 0x04 {
        "128 KiB"@
    } else if code == 0x05 {
        "64 KiB"@
    } else {
        "Unknown"@
    }
}

/// The size of the ROM in KiB for a ROM size code: 32 KiB, doubled once for
/// each unit of the code.
pub open spec fn rom_kib_of(code: u8) -> nat
    decreases code,
{
    if code == 0 {
        32
    } else {
        2 * rom_kib_of((code - 1) as u8)
    }
}

/// The largest ROM size code whose size in KiB fits 32 bits.
pub const MAX_ROM_SIZE_CODE: u8 = 26;

/// Calls `String::from_utf8_lossy` and owns the result. The contract names
/// the text and adds the one case that callers rely on: bytes below 128 are
/// valid UTF-8 and decode to themselves.
#[verifier::external_body]
fn utf8_lossy(bytes: &[u8]) -> (text: String)
    ensures
        text@ == lossy_text(bytes@),
        all_ascii(bytes@) ==> text@ == ascii_text(bytes@),
{
    String::from_utf8_lossy(bytes).into_owned()
}

/// Formats a number with `format!("{}", n)`: decimal digits, most
/// significant first, no sign and no padding.
#[verifier::external_body]
fn decimal_string(n: u32) -> (text: String)
    ensures
        text@ == decimal_text(n as nat),
{
    format!("{}", n)
}

impl CartridgeHeader {
    /// The byte of the header that the image holds at `offset`.
    pub open spec fn at(self, offset: int) -> u8
        recommends
            HEADER_START <= offset < HEADER_END,
    {
        self.view()[offset - HEADER_START]
    }

    /// The 80 header bytes.
    pub open spec fn view(self) -> Seq<u8> {
        self.bytes@
    }

    /// The sixteen title bytes, at offsets 0x134 to 0x143.
    pub open spec fn title_bytes(self) -> Seq<u8> {
        self.view().subrange(0x34, 0x44)
    }

    /// The title bytes without the zero bytes that pad them.
    pub open spec fn trimmed_title(self) -> Seq<u8> {
        self.title_bytes().take(trimmed_len(self.title_bytes()) as int)
    }

    /// The cartridge type code, at offset 0x147.
    pub open spec fn type_code(self) -> u8 {
        self.at(0x147)
    }

    /// The ROM size code, at offset 0x148.
    pub open spec fn rom_size_code(self) -> u8 {
        self.at(0x148)
    }

    /// The RAM size code, at offset 0x149.
    pub open spec fn ram_size_code(self) -> u8 {
        self.at(0x149)
    }

    /// The stored header checksum, at offset 0x14D.
    pub open spec fn stored_checksum(self) -> u8 {
        self.at(0x14D)
    }

    /// The bytes that the header checksum covers, at offsets 0x134 to 0x14C.
    pub open spec fn checksummed_bytes(self) -> Seq<u8> {
        self.view().subrange(0x34, 0x4D)
    }

    /// The header checksum as computed from the bytes it covers.
    pub open spec fn computed_checksum(self) -> u8 {
        (checksum_sum(self.checksummed_bytes()) % 256) as u8
    }

    /// Whether the type code names a controller this emulator knows.
    pub open spec fn type_is_known(self) -> bool {
        self.type_code() <= 0x03
    }

    /// Reads the header out of a cartridge image. An image that ends before
    /// the header does is refused.
    pub fn new(data: &[u8]) -> (header: Result<CartridgeHeader, &'static str>)
        ensures
            header is Ok <==> data@.len() >= HEADER_END,
            header matches Ok(h) ==> h@ == data@.subrange(
                HEADER_START as int,
                HEADER_END as int,
            ),
            header matches Err(message) ==> message@
                == "Data is too short for a valid GBC header"@,
    {
        if data.len() < HEADER_END {
            return Err("Data is too short for a valid GBC header");
        }
        let mut bytes = [0u8;0x50];
        let mut i: usize = 0;
        while i < 0x50
            invariant
                i <= 0x50,
                data@.len() >= HEADER_END,
                forall|k: int| 0 <= k < i ==> bytes@[k] == data@[HEADER_START + k],
            decreases 0x50 - i,
        {
            bytes[i] = data[HEADER_START + i];
            i += 1;
        }
        let header = CartridgeHeader { bytes };
        assert(header@ =~= data@.subrange(HEADER_START as int, HEADER_END as int));
        Ok(header)
    }

    /// The byte of the header that the image holds at `offset`.
    pub fn byte_at(&self, offset: usize) -> (byte: u8)
        requires
            HEADER_START <= offset < HEADER_END,
        ensures
            byte == self.at(offset as int),
    {
        self.bytes[offset - HEADER_START]
    }

    /// The title: the title bytes up to the zero bytes that pad them, read as
    /// UTF-8.
    pub fn title(&self) -> (title: String)
        ensures
            title@ == lossy_text(self.trimmed_title()),
            all_ascii(self.trimmed_title()) ==> title@ == ascii_text(self.trimmed_title()),
    {
        let mut end: usize = 0x44;
        assert(self.title_bytes().take(16) =~= self.title_bytes());
        while end > 0x34 && self.bytes[end - 1] == 0
            invariant
                0x34 <= end <= 0x44,
                trimmed_len(self.title_bytes()) == trimmed_len(
                    self.title_bytes().take(end - 0x34),
                ),
            decreases end,
        {
            proof {
                let shorter = self.title_bytes().take(end - 0x34);
                assert(shorter.last() == self.bytes@[end - 1]);
                assert(shorter.drop_last() =~= self.title_bytes().take(end - 1 - 0x34));
            }
            end -= 1;
        }
        proof {
            let kept = self.title_bytes().take(end - 0x34);
            if end > 0x34 {
                assert(kept.last() == self.bytes@[end - 1]);
            }
            assert(trimmed_len(kept) == kept.len());
        }
        let mut kept: Vec<u8> = Vec::new();
        let mut i: usize = 0x34;
        while i < end
            invariant
                0x34 <= i <= end <= 0x44,
                kept@ =~= self.title_bytes().take(i - 0x34),
            decreases end - i,
        {
            kept.push(self.bytes[i]);
            i += 1;
        }
        utf8_lossy(kept.as_slice())
    }

    /// Whether the type code names a controller this emulator knows.
    pub fn has_known_type(&self) -> (known: bool)
        ensures
            known == self.type_is_known(),
    {
        self.bytes[0x47] <= 0x03
    }

    /// The cartridge's controller. A header whose type is not known has
    /// none.
    pub fn cartridge_type(&self) -> (kind: CartridgeType)
        requires
            self.type_is_known(),
        ensures
            kind == match self.type_code() {
                0x00 => CartridgeType::RomOnly,
                0x01 => CartridgeType::Mbc1,
                0x02 => CartridgeType::Mbc1Ram,
                _ => CartridgeType::Mbc1RamBattery,
            },
    {
        match self.bytes[0x47] {
            0x00 => CartridgeType::RomOnly,
            0x01 => CartridgeType::Mbc1,
            0x02 => CartridgeType::Mbc1Ram,
            _ => CartridgeType::Mbc1RamBattery,
        }
    }

    pub fn cartridge_type_name(&self) -> (name: &'static str)
        ensures
            name@ == type_name_of(self.type_code()),
    {
        match self.bytes[0x47] {
            0x00 => "ROM ONLY",
            0x01 => "MBC1",
            0x02 => "MBC1+RAM",
            0x03 => "MBC1+RAM+BATTERY",
            0x10 => "MBC3+TIMER+RAM+BATTERY",
            _ => "Unknown",
        }
    }

    /// The size of the ROM as text: the number of KiB in decimal, a space,
    /// and the unit. The size must fit 32 bits.
    pub fn rom_size_str(&self) -> (text: String)
        requires
            self.rom_size_code() <= MAX_ROM_SIZE_CODE,
        ensures
            text@ == decimal_text(rom_kib_of(self.rom_size_code())) + " Kib"@,
    {
        let code = self.bytes[0x48];
        let mut kib: u32 = 32;
        let mut i: u8 = 0;
        while i < code
            invariant
                i <= code <= MAX_ROM_SIZE_CODE,
                kib == rom_kib_of(i),
                kib <= 32 * pow2_32(i as nat),
            decreases code - i,
        {
            proof {
                lemma_pow2_32_bound(i as nat);
            }
            kib = kib * 2;
            i += 1;
        }
        let mut text = decimal_string(kib);
        text.append(" Kib");
        text
    }

    pub fn ram_size_str(&self) -> (name: &'static str)
        ensures
            name@ == ram_size_name_of(self.ram_size_code()),
    {
        match self.bytes[0x49] {
            0x00 => "No RAM",
            0x02 => "8 KiB",
            0x03 => "32 KiB",
            0x04 => "128 KiB",
            0x05 => "64 KiB",
            _ => "Unknown",
        }
    }

    /// Whether the stored header checksum is the one that the bytes at
    /// offsets 0x134 to 0x14C add up to.
    pub fn validate_header_checksum(&self) -> (valid: bool)
        ensures
            valid == (self.computed_checksum() == self.stored_checksum()),
    {
        let mut sum: u8 = 0;
        let mut i: usize = 0x34;
        while i < 0x4D
            invariant
                0x34 <= i <= 0x4D,
                sum as int == checksum_sum(self@.subrange(0x34, i as int)) % 256,
            decreases 0x4D - i,
        {
            proof {
                let next = self@.subrange(0x34, i + 1);
                assert(next.drop_last() =~= self@.subrange(0x34, i as int));
                assert(next.last() == self.bytes@[i as int]);
            }
            sum = ((sum as u16 + 511 - self.bytes[i] as u16) % 256) as u8;
            i += 1;
        }
        sum == self.bytes[0x4D]
    }
}

/// Two to the power `n`.
pub open spec fn pow2_32(n: nat) -> nat
    decreases n,
{
    if n == 0 {
        1
    } else {
        2 * pow2_32((n - 1) as nat)
    }
}

/// Below the largest ROM size code, doubling the size stays within 32 bits.
pub proof fn lemma_pow2_32_bound(n: nat)
    requires
        n < 26,
    ensures
        64 * pow2_32(n) <= 0xFFFF_FFFF,
    decreases n,
{
    if n > 0 {
        lemma_pow2_32_bound((n - 1) as nat);
    }
    lemma_pow2_32_mono(n, 25);
    assert(pow2_32(25) == 33554432) by {
        lemma_pow2_32_value();
    }
}

proof fn lemma_pow2_32_mono(a: nat, b: nat)
    requires
        a <= b,
    ensures
        pow2_32(a) <= pow2_32(b),
    decreases b,
{
    if a < b {
        lemma_pow2_32_mono(a, (b - 1) as nat);
    }
}

proof fn lemma_pow2_32_value()
    ensures
        pow2_32(25) == 33554432,
{
    reveal_with_fuel(pow2_32, 26);
}

} // verus!
