//! The cartridge-type byte of the header: which memory-bank controller and
//! extras the cartridge carries. 28 values are recognized; any other value
//! makes the header invalid.

use vstd::prelude::*;

verus! {

/// The hardware class of a cartridge, decoded from header byte 0x147.
#[derive(Clone, Copy, Debug, PartialEq, Eq, Structural)]
pub enum CartridgeType {
    RomOnly,
    Mbc1,
    Mbc1Ram,
    Mbc1RamBattery,
    Mbc2,
    Mbc2Battery,
    RomRam,
    RomRamBattery,
    Mmm01,
    Mmm01Ram,
    Mmm01RamBattery,
    Mbc3TimerBattery,
    Mbc3TimerRamBattery,
    Mbc3,
    Mbc3Ram,
    Mbc3RamBattery,
    Mbc5,
    Mbc5Ram,
    Mbc5RamBattery,
    Mbc5Rumble,
    Mbc5RumbleRam,
    Mbc5RumbleRamBattery,
    Mbc6,
    Mbc7SensorRumbleRamBattery,
    PocketCamera,
    BandaiTama5,
    Huc3,
    Huc1RamBattery,
}

/// The decoding of the cartridge-type byte; `None` for the unassigned values.
pub open spec fn cartridge_type_of(value: u8) -> Option<CartridgeType> {
    match value {
        0x00 => Some(CartridgeType::RomOnly),
        0x01 => Some(CartridgeType::Mbc1),
        0x02 => Some(CartridgeType::Mbc1Ram),
        0x03 => Some(CartridgeType::Mbc1RamBattery),
        0x05 => Some(CartridgeType::Mbc2),
        0x06 => Some(CartridgeType::Mbc2Battery),
        0x08 => Some(CartridgeType::RomRam),
        0x09 => Some(CartridgeType::RomRamBattery),
        0x0B => Some(CartridgeType::Mmm01),
        0x0C => Some(CartridgeType::Mmm01Ram),
        0x0D => Some(CartridgeType::Mmm01RamBattery),
        0x0F => Some(CartridgeType::Mbc3TimerBattery),
        0x10 => Some(CartridgeType::Mbc3TimerRamBattery),
        0x11 => Some(CartridgeType::Mbc3),
        0x12 => Some(CartridgeType::Mbc3Ram),
        0x13 => Some(CartridgeType::Mbc3RamBattery),
        0x19 => Some(CartridgeType::Mbc5),
        0x1A => Some(CartridgeType::Mbc5Ram),
        0x1B => Some(CartridgeType::Mbc5RamBattery),
        0x1C => Some(CartridgeType::Mbc5Rumble),
        0x1D => Some(CartridgeType::Mbc5RumbleRam),
        0x1E => Some(CartridgeType::Mbc5RumbleRamBattery),
        0x20 => Some(CartridgeType::Mbc6),
        0x22 => Some(CartridgeType::Mbc7SensorRumbleRamBattery),
        0xFC => Some(CartridgeType::PocketCamera),
        0xFD => Some(CartridgeType::BandaiTama5),
        0xFE => Some(CartridgeType::Huc3),
        0xFF => Some(CartridgeType::Huc1RamBattery),
        _ => None,
    }
}

impl CartridgeType {
    /// Decodes the cartridge-type header byte; `None` for an unassigned
    /// value, which makes the whole header invalid.
    pub fn from_code(value: u8) -> (r: Option<CartridgeType>)
        ensures
            r == cartridge_type_of(value),
    {
        match value {
            0x00 => Some(CartridgeType::RomOnly),
            0x01 => Some(CartridgeType::Mbc1),
            0x02 => Some(CartridgeType::Mbc1Ram),
            0x03 => Some(CartridgeType::Mbc1RamBattery),
            0x05 => Some(CartridgeType::Mbc2),
            0x06 => Some(CartridgeType::Mbc2Battery),
            0x08 => Some(CartridgeType::RomRam),
            0x09 => Some(CartridgeType::RomRamBattery),
            0x0B => Some(CartridgeType::Mmm01),
            0x0C => Some(CartridgeType::Mmm01Ram),
            0x0D => Some(CartridgeType::Mmm01RamBattery),
            0x0F => Some(CartridgeType::Mbc3TimerBattery),
            0x10 => Some(CartridgeType::Mbc3TimerRamBattery),
            0x11 => Some(CartridgeType::Mbc3),
            0x12 => Some(CartridgeType::Mbc3Ram),
            0x13 => Some(CartridgeType::Mbc3RamBattery),
            0x19 => Some(CartridgeType::Mbc5),
            0x1A => Some(CartridgeType::Mbc5Ram),
            0x1B => Some(CartridgeType::Mbc5RamBattery),
            0x1C => Some(CartridgeType::Mbc5Rumble),
            0x1D => Some(CartridgeType::Mbc5RumbleRam),
            0x1E => Some(CartridgeType::Mbc5RumbleRamBattery),
            0x20 => Some(CartridgeType::Mbc6),
            0x22 => Some(CartridgeType::Mbc7SensorRumbleRamBattery),
            0xFC => Some(CartridgeType::PocketCamera),
            0xFD => Some(CartridgeType::BandaiTama5),
            0xFE => Some(CartridgeType::Huc3),
            0xFF => Some(CartridgeType::Huc1RamBattery),
            _ => None,
        }
    }

    /// A short human-readable name of the cartridge type.
    pub fn describe(&self) -> (r: &'static str)
    {
        match self {
            CartridgeType::RomOnly => "ROM Only",
            CartridgeType::Mbc1 => "MBC1",
            CartridgeType::Mbc1Ram => "MBC1 + RAM",
            CartridgeType::Mbc1RamBattery => "MBC1 + RAM + Battery",
            CartridgeType::Mbc2 => "MBC2",
            CartridgeType::Mbc2Battery => "MBC2 + Battery",
            CartridgeType::RomRam => "ROM + RAM",
            CartridgeType::RomRamBattery => "ROM + RAM + Battery",
            CartridgeType::Mmm01 => "MMM01",
            CartridgeType::Mmm01Ram => "MMM01 + RAM",
            CartridgeType::Mmm01RamBattery => "MMM01 + RAM + Battery",
            CartridgeType::Mbc3TimerBattery => "MBC3 + Timer + Battery",
            CartridgeType::Mbc3TimerRamBattery => "MBC3 + Timer + RAM + Battery",
            CartridgeType::Mbc3 => "MBC3",
            CartridgeType::Mbc3Ram => "MBC3 + RAM",
            CartridgeType::Mbc3RamBattery => "MBC3 + RAM + Battery",
            CartridgeType::Mbc5 => "MBC5",
            CartridgeType::Mbc5Ram => "MBC5 + RAM",
            CartridgeType::Mbc5RamBattery => "MBC5 + RAM + Battery",
            CartridgeType::Mbc5Rumble => "MBC5 + Rumble",
            CartridgeType::Mbc5RumbleRam => "MBC5 + Rumble + RAM",
            CartridgeType::Mbc5RumbleRamBattery => "MBC5 + Rumble + RAM + Battery",
            CartridgeType::Mbc6 => "MBC6",
            CartridgeType::Mbc7SensorRumbleRamBattery => "MBC7 + Sensor + Rumble + RAM + Battery",
            CartridgeType::PocketCamera => "Pocket Camera",
            CartridgeType::BandaiTama5 => "Bandai TAMA5",
            CartridgeType::Huc3 => "HuC3",
            CartridgeType::Huc1RamBattery => "HuC1 + RAM + Battery",
        }
    }
}

} // verus!
