use vstd::prelude::*;
use vstd::slice::slice_subrange;

verus! {

/// Type to specify a range in memory
#[derive(Debug, Clone, Copy, PartialEq, Eq, Structural)]
pub struct MemRange(pub usize, pub usize);

/// The bytes of a cartridge image.
pub struct CartridgeData(pub Vec<u8>);

pub const TITLE_START: usize = 0x0134;

pub const HEADER_CHECKSUM_AT: usize = 0x014D;

pub const CARTRIDGE_TYPE_AT: usize = 0x0147;

impl MemRange {
    pub fn nintendo_logo() -> (range: MemRange)
        ensures
            range == MemRange(0x0104, 0x0133),
    {
        MemRange(0x0104, 0x0133)
    }

    pub fn title() -> (range: MemRange)
        ensures
            range == MemRange(0x0134, 0x0143),
    {
        MemRange(0x0134, 0x0143)
    }

    pub fn manufacturer_code_old() -> (range: MemRange)
        ensures
            range == MemRange(0x013F, 0x0143),
    {
        MemRange(0x013F, 0x0143)
    }

    pub fn cgb_flag() -> (range: MemRange)
        ensures
            range == MemRange(0x0143, 0x0143),
    {
        MemRange(0x0143, 0x0143)
    }

    pub fn new_licensee_code() -> (range: MemRange)
        ensures
            range == MemRange(0x0144, 0x0145),
    {
        MemRange(0x0144, 0x0145)
    }

    pub fn sgb_flag() -> (range: MemRange)
        ensures
            range == MemRange(0x0146, 0x0146),
    {
        MemRange(0x0146, 0x0146)
    }

    pub fn cartridge_type() -> (range: MemRange)
        ensures
            range == MemRange(0x0147, 0x0147),
    {
        MemRange(0x0147, 0x0147)
    }

    pub fn rom_size() -> (range: MemRange)
        ensures
            range == MemRange(0x0148, 0x0148),
    {
        MemRange(0x0148, 0x0148)
    }

    pub fn ram_size() -> (range: MemRange)
        ensures
            range == MemRange(0x0149, 0x0149),
    {
        MemRange(0x0149, 0x0149)
    }

    pub fn destination_code() -> (range: MemRange)
        ensures
            range == MemRange(0x014a, 0x014a),
    {
        MemRange(0x014a, 0x014a)
    }

    pub fn old_licensee_code() -> (range: MemRange)
        ensures
            range == MemRange(0x014b, 0x014b),
    {
        MemRange(0x014b, 0x014b)
    }

    pub fn rom_version_number() -> (range: MemRange)
        ensures
            range == MemRange(0x014c, 0x014c),
    {
        MemRange(0x014c, 0x014c)
    }

    pub fn header_checksum() -> (range: MemRange)
        ensures
            range == MemRange(0x014d, 0x014d),
    {
        MemRange(0x014d, 0x014d)
    }

    pub fn global_checksum() -> (range: MemRange)
        ensures
            range == MemRange(0x014e, 0x014f),
    {
        MemRange(0x014e, 0x014f)
    }
}

/// The kinds of cartridge that the type byte of the header can name.
#[allow(non_camel_case_types)]
#[derive(Debug, Clone, Copy, PartialEq, Eq, Structural)]
pub enum MBCType {
    ROM_ONLY,
    MBC1,
    MBC1_RAM,
    MBC1_RAM_BATTERY,
    MBC2,
    MBC2_BATTERY,
    ROM_RAM_1,
    ROM_RAM_BATTERY_1,
    MMM01,
    MMM01_RAM,
    MMM01_RAM_BATTERY,
    MBC3_TIMER_BATTERY,
    MBC3_TIMER_RAM_BATTERY_2,
    MBC3,
    MBC3_RAM_2,
    MBC3_RAM_BATTERY_2,
    MBC5,
    MBC5_RAM,
    MBC5_RAM_BATTERY,
    MBC5_RUMBLE,
    MBC5_RUMBLE_RAM,
    MBC5_RUMBLE_RAM_BATTERY,
    MBC6,
    MBC7_SENSOR_RUMBLE_RAM_BATTERY,
    POCKET_CAMERA,
    BANDAI_TAMA5,
    HuC3,
    HuC1_RAM_BATTERY,
}

/// The kind of cartridge that a type byte of the header names; nothing
/// for a byte that names none.
pub open spec fn mbc_type_of(value: u8) -> Option<MBCType> {
    if value == 0x00 {
        Some(MBCType::ROM_ONLY)
    } else if value == 0x01 {
        Some(MBCType::MBC1)
    } else if value == 0x02 {
        Some(MBCType::MBC1_RAM)
    } else if value == 0x03 {
        Some(MBCType::MBC1_RAM_BATTERY)
    } else if value == 0x05 {
        Some(MBCType::MBC2)
    } else if value == 0x06 {
        Some(MBCType::MBC2_BATTERY)
    } else if value == 0x08 {
        Some(MBCType::ROM_RAM_1)
    } else if value == 0x09 {
        Some(MBCType::ROM_RAM_BATTERY_1)
    } else if value == 0x0B {
        Some(MBCType::MMM01)
    } else if value == 0x0C {
        Some(MBCType::MMM01_RAM)
    } else if value == 0x0D {
        Some(MBCType::MMM01_RAM_BATTERY)
    } else if value == 0x0F {
        Some(MBCType::MBC3_TIMER_BATTERY)
    } else if value == 0x10 {
        Some(MBCType::MBC3_TIMER_RAM_BATTERY_2)
    } else if value == 0x11 {
        Some(MBCType::MBC3)
    } else if value == 0x12 {
        Some(MBCType::MBC3_RAM_2)
    } else if value == 0x13 {
        Some(MBCType::MBC3_RAM_BATTERY_2)
    } else if value == 0x19 {
        Some(MBCType::MBC5)
    } else if value == 0x1A {
        Some(MBCType::MBC5_RAM)
    } else if value == 0x1B {
        Some(MBCType::MBC5_RAM_BATTERY)
    } else if value == 0x1C {
        Some(MBCType::MBC5_RUMBLE)
    } else if value == 0x1D {
        Some(MBCType::MBC5_RUMBLE_RAM)
    } else if value == 0x1E {
        Some(MBCType::MBC5_RUMBLE_RAM_BATTERY)
    } else if value == 0x20 {
        Some(MBCType::MBC6)
    } else if value == 0x22 {
        Some(MBCType::MBC7_SENSOR_RUMBLE_RAM_BATTERY)
    } else if value == 0xFC {
        Some(MBCType::POCKET_CAMERA)
    } else if value == 0xFD {
        Some(MBCType::BANDAI_TAMA5)
    } else if value == 0xFE {
        Some(MBCType::HuC3)
    } else if value == 0xFF {
        Some(MBCType::HuC1_RAM_BATTERY)
    } else {
        None
    }
}

impl MBCType {
    /// The kind of cartridge that a type byte names, if it names one.
    pub fn try_from_code(value: u8) -> (kind: Option<MBCType>)
        ensures
            kind == mbc_type_of(value),
    {
        match value {
            0x00 => Some(MBCType::ROM_ONLY),
            0x01 => Some(MBCType::MBC1),
            0x02 => Some(MBCType::MBC1_RAM),
            0x03 => Some(MBCType::MBC1_RAM_BATTERY),
            0x05 => Some(MBCType::MBC2),
            0x06 => Some(MBCType::MBC2_BATTERY),
            0x08 => Some(MBCType::ROM_RAM_1),
            0x09 => Some(MBCType::ROM_RAM_BATTERY_1),
            0x0B => Some(MBCType::MMM01),
            0x0C => Some(MBCType::MMM01_RAM),
            0x0D => Some(MBCType::MMM01_RAM_BATTERY),
            0x0F => Some(MBCType::MBC3_TIMER_BATTERY),
            0x10 => Some(MBCType::MBC3_TIMER_RAM_BATTERY_2),
            0x11 => Some(MBCType::MBC3),
            0x12 => Some(MBCType::MBC3_RAM_2),
            0x13 => Some(MBCType::MBC3_RAM_BATTERY_2),
            0x19 => Some(MBCType::MBC5),
            0x1A => Some(MBCType::MBC5_RAM),
            0x1B => Some(MBCType::MBC5_RAM_BATTERY),
            0x1C => Some(MBCType::MBC5_RUMBLE),
            0x1D => Some(MBCType::MBC5_RUMBLE_RAM),
            0x1E => Some(MBCType::MBC5_RUMBLE_RAM_BATTERY),
            0x20 => Some(MBCType::MBC6),
            0x22 => Some(MBCType::MBC7_SENSOR_RUMBLE_RAM_BATTERY),
            0xFC => Some(MBCType::POCKET_CAMERA),
            0xFD => Some(MBCType::BANDAI_TAMA5),
            0xFE => Some(MBCType::HuC3),
            0xFF => Some(MBCType::HuC1_RAM_BATTERY),
            _ => None,
        }
    }

    /// The kind of cartridge that a type byte names.
    pub fn from(value: u8) -> (kind: MBCType)
        requires
            mbc_type_of(value) is Some,
        ensures
            Some(kind) == mbc_type_of(value),
    {
        match MBCType::try_from_code(value) {
            Some(kind) => kind,
            None => MBCType::ROM_ONLY,
        }
    }
}

impl CartridgeData {
    pub fn get_mbc_type(&self) -> (kind: MBCType)
        requires
            self.0@.len() > CARTRIDGE_TYPE_AT,
            mbc_type_of(self.0@[CARTRIDGE_TYPE_AT as int]) is Some,
        ensures
            Some(kind) == mbc_type_of(self.0@[CARTRIDGE_TYPE_AT as int]),
    {
        MBCType::from(self.0[CARTRIDGE_TYPE_AT])
    }

    /// The kind of cartridge that the header names; nothing if the image
    /// is too short to hold the type byte or the byte names no kind.
    pub fn mbc_type(&self) -> (kind: Option<MBCType>)
        ensures
            kind == if self.0@.len() > CARTRIDGE_TYPE_AT {
                mbc_type_of(self.0@[CARTRIDGE_TYPE_AT as int])
            } else {
                None
            },
    {
        if self.0.len() > CARTRIDGE_TYPE_AT {
            MBCType::try_from_code(self.0[CARTRIDGE_TYPE_AT])
        } else {
            None
        }
    }

    /// The bytes of a field of the header, both ends included; nothing if
    /// the image does not reach the end of the field.
    pub fn field(&self, range: &MemRange) -> (bytes: Option<&[u8]>)
        ensures
            range.0 <= range.1 < self.0@.len() ==> bytes.is_some() && bytes.unwrap()@
                == self.0@.subrange(range.0 as int, range.1 + 1),
            !(range.0 <= range.1 < self.0@.len()) ==> bytes.is_none(),
    {
        if range.0 <= range.1 && range.1 < self.0.len() {
            Some(slice_subrange(self.0.as_slice(), range.0, range.1 + 1))
        } else {
            None
        }
    }
}

/// The checksum of the first `n` bytes of the header from the title on:
/// zero, less each byte, less one for each byte, modulo 256.
pub open spec fn header_checksum_of(rom: Seq<u8>, n: nat) -> u8
    decreases n,
{
    if n == 0 {
        0
    } else {
        ((header_checksum_of(rom, (n - 1) as nat) - rom[0x0134 + n - 1] - 1) % 256) as u8
    }
}

/// Calculate the header checksum and return true if it matched the rom_data
pub fn check_checksum(rom_data: &Vec<u8>) -> (matches: bool)
    requires
        rom_data@.len() > HEADER_CHECKSUM_AT,
    ensures
        matches == (header_checksum_of(rom_data@, 25) == rom_data@[HEADER_CHECKSUM_AT as int]),
{
    let mut checksum = 0u8;
    let mut address: usize = TITLE_START;
    while address <= 0x014C
        invariant
            TITLE_START <= address <= 0x014D,
            rom_data@.len() > HEADER_CHECKSUM_AT,
            checksum == header_checksum_of(rom_data@, (address - TITLE_START) as nat),
        decreases 0x014D - address,
    {
        checksum = checksum.wrapping_sub(rom_data[address]).wrapping_sub(1);
        address += 1;
    }
    checksum == rom_data[HEADER_CHECKSUM_AT]
}

/// Whether the header checksum matches; nothing if the image is too short
/// to hold a header.
pub fn checked_checksum(rom_data: &Vec<u8>) -> (matches: Option<bool>)
    ensures
        rom_data@.len() > HEADER_CHECKSUM_AT ==> matches == Some(
            header_checksum_of(rom_data@, 25) == rom_data@[HEADER_CHECKSUM_AT as int],
        ),
        rom_data@.len() <= HEADER_CHECKSUM_AT ==> matches.is_none(),
{
    if rom_data.len() > HEADER_CHECKSUM_AT {
        Some(check_checksum(rom_data))
    } else {
        None
    }
}

} // verus!
