//! The destination-code byte of the header: the market a cartridge was sold
//! in.

use vstd::prelude::*;

verus! {

/// The market of a cartridge, decoded from header byte 0x14A.
#[derive(Clone, Copy, Debug, PartialEq, Eq, Structural)]
pub enum Destination {
    Japan,
    Overseas,
    Unknown(u8),
}

/// The decoding of the destination-code byte: 0 is Japan, 1 is Overseas,
/// anything else is kept as an unknown code.
pub open spec fn destination_of(value: u8) -> Destination {
    match value {
        0x00 => Destination::Japan,
        0x01 => Destination::Overseas,
        other => Destination::Unknown(other),
    }
}

impl Destination {
    /// Decodes the destination-code header byte.
    pub fn from_code(value: u8) -> (r: Destination)
        ensures
            r == destination_of(value),
    {
        match value {
            0x00 => Destination::Japan,
            0x01 => Destination::Overseas,
            other => Destination::Unknown(other),
        }
    }

    /// A short human-readable name of the destination.
    pub fn describe(&self) -> (r: &'static str)
    {
        match self {
            Destination::Japan => "Japan",
            Destination::Overseas => "Overseas",
            Destination::Unknown(_) => "Unknown",
        }
    }
}

} // verus!
