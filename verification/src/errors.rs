//! The error taxonomy of the emulator core. No error is recovered locally:
//! a header fault is fatal at startup, an illegal or malformed instruction is
//! fatal during execution.

use vstd::prelude::*;

verus! {

/// A fatal fault of the emulator core.
#[derive(Clone, Copy, Debug, PartialEq, Eq, Structural)]
pub enum EmuError {
    /// Unknown cartridge-type byte, or an image shorter than the 336-byte
    /// header prefix.
    InvalidHeader,
    /// One of the 11 unused opcodes was fetched; carries the offending byte
    /// and the address it was fetched from.
    IllegalOpcode { opcode: u8, pc: u16 },
    /// The byte after a STOP opcode was not 0x00.
    MalformedStop,
}

impl EmuError {
    /// A short human-readable name of the fault.
    pub fn describe(&self) -> (r: &'static str)
    {
        match self {
            EmuError::InvalidHeader => "invalid cartridge header",
            EmuError::IllegalOpcode { .. } => "illegal opcode",
            EmuError::MalformedStop => "malformed stop instruction",
        }
    }
}

} // verus!
