//! The cartridge: a byte image whose 336-byte header prefix is decoded once
//! at load time, and which serves byte reads over the ROM window. Only the
//! plain ROM behaviour is modelled: writes are ignored and external RAM
//! reads float high.

use vstd::prelude::*;

use crate::cartridge_type::CartridgeType;
use crate::cartridge_type::cartridge_type_of;
use crate::destination::Destination;
use crate::destination::destination_of;
use crate::errors::EmuError;

verus! {

/// What a cartridge read returns: the ROM byte under 0x8000 when the image
/// covers it, the open-bus value 0xFF anywhere else.
pub open spec fn cart_read(rom: Seq<u8>, addr: u16) -> u8 {
    if addr < 0x8000 && addr < rom.len() {
        rom[addr as int]
    } else {
        0xFF
    }
}

/// The title field is a NUL-trimmed copy of header bytes 0x134..0x144.
pub open spec fn title_wf(title: Seq<u8>, rom: Seq<u8>) -> bool {
    &&& title.len() <= 16
    &&& forall|j: int|
        0 <= j < title.len() ==> title[j] == rom[0x134 + j] && rom[0x134 + j] != 0
    &&& (title.len() == 16 || rom[0x134 + title.len() as int] == 0)
}

/// A cartridge image with its decoded header fields.
pub struct Cartridge {
    /// The whole image; ROM reads are served from it.
    pub game_data: Vec<u8>,
    /// Title bytes 0x134..0x144, NUL-trimmed.
    pub game_title: Vec<u8>,
    /// Manufacturer code bytes 0x13F..0x143.
    pub manufacturer_code: Vec<u8>,
    /// Colour-capability flag, byte 0x143.
    pub cgb_flag: u8,
    /// New licensee code bytes 0x144..0x146.
    pub licensee_code: Vec<u8>,
    /// Super-capability flag, byte 0x146.
    pub sgb_flag: u8,
    /// Decoded cartridge-type byte 0x147.
    pub cartridge_type: CartridgeType,
    /// ROM-size code, byte 0x148.
    pub rom_size: u8,
    /// RAM-size code, byte 0x149.
    pub ram_size: u8,
    /// Decoded destination byte 0x14A.
    pub destination_code: Destination,
    /// Old licensee code, byte 0x14B.
    pub old_licensee_code: u8,
    /// Mask-ROM version, byte 0x14C.
    pub mask_rom_version_number: u8,
    /// Header checksum, byte 0x14D.
    pub header_checksum: u8,
    /// Global checksum, big-endian bytes 0x14E..0x150.
    pub global_checksum: u16,
}

/// Copies `v[start..end]` into a fresh vector.
fn copy_range(v: &Vec<u8>, start: usize, end: usize) -> (out: Vec<u8>)
    requires
        start <= end <= v@.len(),
    ensures
        out@ == v@.subrange(start as int, end as int),
{
    let mut out: Vec<u8> = Vec::new();
    let mut i: usize = start;
    while i < end
        invariant
            start <= i <= end <= v@.len(),
            out@ == v@.subrange(start as int, i as int),
        decreases end - i,
    {
        out.push(v[i]);
        i = i + 1;
        proof {
            assert(out@ =~= v@.subrange(start as int, i as int));
        }
    }
    out
}

impl Cartridge {
    /// A cartridge holds at least the 336 bytes up to the end of the header,
    /// and its decoded fields match the image.
    pub open spec fn wf(self) -> bool {
        &&& self.game_data@.len() >= 336
        &&& title_wf(self.game_title@, self.game_data@)
    }

    /// Serves a byte read: the ROM byte under 0x8000, open bus elsewhere.
    pub fn read(&self, addr: u16) -> (r: u8)
        ensures
            r == cart_read(self.game_data@, addr),
    {
        if addr < 0x8000 && (addr as usize) < self.game_data.len() {
            self.game_data[addr as usize]
        } else {
            0xFF
        }
    }

    /// Accepts a byte write. Plain ROM ignores every write; bank-switching
    /// controllers are out of scope here.
    pub fn write(&mut self, addr: u16, data: u8)
        ensures
            *final(self) == *old(self),
    {
        let _ = addr;
        let _ = data;
    }

    /// Decodes the header of a raw image. Fails with `InvalidHeader` when
    /// the image is shorter than 336 bytes or the cartridge-type byte is
    /// unassigned; otherwise every header field is extracted exactly.
    pub fn load(value: Vec<u8>) -> (r: Result<Cartridge, EmuError>)
        ensures
            r is Ok <==> value@.len() >= 336 && cartridge_type_of(value@[0x147]) is Some,
            r is Err ==> r == Err::<Cartridge, EmuError>(EmuError::InvalidHeader),
            r matches Ok(c) ==> c.wf() && c.game_data@ == value@,
            r matches Ok(c) ==> title_wf(c.game_title@, value@),
            r matches Ok(c) ==> c.manufacturer_code@ == value@.subrange(0x13F, 0x143)
                && c.licensee_code@ == value@.subrange(0x144, 0x146),
            r matches Ok(c) ==> c.cgb_flag == value@[0x143] && c.sgb_flag == value@[0x146]
                && Some(c.cartridge_type) == cartridge_type_of(value@[0x147])
                && c.rom_size == value@[0x148] && c.ram_size == value@[0x149],
            r matches Ok(c) ==> c.destination_code == destination_of(value@[0x14A])
                && c.old_licensee_code == value@[0x14B]
                && c.mask_rom_version_number == value@[0x14C]
                && c.header_checksum == value@[0x14D]
                && c.global_checksum == value@[0x14E] * 256 + value@[0x14F],
    {
        if value.len() < 336 {
            return Err(EmuError::InvalidHeader);
        }
        let cartridge_type = match CartridgeType::from_code(value[0x147]) {
            Some(t) => t,
            None => {
                return Err(EmuError::InvalidHeader);
            },
        };

        let mut game_title: Vec<u8> = Vec::new();
        let mut i: usize = 0;
        while i < 16 && value[0x134 + i] != 0
            invariant
                i <= 16,
                value@.len() >= 336,
                game_title@.len() == i,
                forall|j: int|
                    0 <= j < i ==> game_title@[j] == value@[0x134 + j] && value@[0x134 + j] != 0,
            decreases 16 - i,
        {
            game_title.push(value[0x134 + i]);
            i = i + 1;
        }

        proof {
            assert(title_wf(game_title@, value@));
        }

        let manufacturer_code = copy_range(&value, 0x13F, 0x143);
        let licensee_code = copy_range(&value, 0x144, 0x146);
        let global_checksum: u16 = value[0x14E] as u16 * 256 + value[0x14F] as u16;

        Ok(Cartridge {
            game_title,
            manufacturer_code,
            cgb_flag: value[0x143],
            licensee_code,
            sgb_flag: value[0x146],
            cartridge_type,
            rom_size: value[0x148],
            ram_size: value[0x149],
            destination_code: Destination::from_code(value[0x14A]),
            old_licensee_code: value[0x14B],
            mask_rom_version_number: value[0x14C],
            header_checksum: value[0x14D],
            global_checksum,
            game_data: value,
        })
    }
}

} // verus!
