//! The machine at power-on: its registers and its memory.

use crate::address_mode::word_le;
use crate::ines::{parse_image, Ines, InesError};
use crate::mapper::{nrom_bytes, nrom_segments, nrom_supports, Mapper, MapperError, NROM};
use crate::memory::Memory;
use crate::register::Registers;
use vstd::prelude::*;

verus! {

/// The address of the reset vector: the word there is where execution starts.
pub const RESET_VECTOR: u16 = 0xFFFC;

/// Why a cartridge cannot be loaded.
#[derive(Debug, Clone, Copy, PartialEq, Eq)]
pub enum LoadError {
    /// The bytes are not an iNES image.
    Format(InesError),
    /// The image cannot be laid out in the address space.
    Mapper(MapperError),
}

/// The processor with its memory.
pub struct CPU {
    pub registers: Registers,
    pub memory: Memory,
}

/// The word at the reset vector.
pub open spec fn reset_target(bytes: Seq<u8>) -> u16 {
    word_le(bytes[RESET_VECTOR as int], bytes[RESET_VECTOR + 1])
}

impl CPU {
    /// The machine at power-on with the cartridge image `image`: the memory is
    /// laid out without bank switching, and the program counter holds the
    /// word at the reset vector.
    pub fn from_image(image: Ines) -> (r: Result<CPU, MapperError>)
        ensures
            r is Ok <==> nrom_supports(image.prg@.len()),
            r is Err ==> r->Err_0 == MapperError::UnsupportedPrgSize,
            r is Ok ==> r->Ok_0.memory.bytes() == nrom_bytes(image.prg@),
            r is Ok ==> r->Ok_0.memory.segments() == nrom_segments(image.prg@.len()),
            r is Ok ==> r->Ok_0.registers == Registers::at_power_on(
                reset_target(nrom_bytes(image.prg@)),
            ),
    {
        let memory = match NROM::map_image(image) {
            Ok(memory) => memory,
            Err(error) => {
                return Err(error);
            },
        };
        let initial_pc = memory.read_u16(RESET_VECTOR);
        let registers = Registers::with_pc(initial_pc);
        Ok(CPU { registers, memory })
    }

    /// The machine at power-on with the cartridge whose iNES image `rom`
    /// holds. Fails when `rom` does not hold an image, and when the image's
    /// program memory is neither one bank nor two.
    pub fn from_bytes(rom: &[u8]) -> (r: Result<CPU, LoadError>)
        ensures
            r is Ok <==> parse_image(rom@) is Ok && nrom_supports(parse_image(rom@)->Ok_0.prg.len()),
            parse_image(rom@) is Err ==> r is Err && r->Err_0 == LoadError::Format(
                parse_image(rom@)->Err_0,
            ),
            parse_image(rom@) is Ok && r is Err ==> r->Err_0 == LoadError::Mapper(
                MapperError::UnsupportedPrgSize,
            ),
            r is Ok ==> r->Ok_0.memory.bytes() == nrom_bytes(parse_image(rom@)->Ok_0.prg),
            r is Ok ==> r->Ok_0.memory.segments() == nrom_segments(
                parse_image(rom@)->Ok_0.prg.len(),
            ),
            r is Ok ==> r->Ok_0.registers == Registers::at_power_on(
                reset_target(nrom_bytes(parse_image(rom@)->Ok_0.prg)),
            ),
    {
        let image = match Ines::parse(rom) {
            Ok(image) => image,
            Err(error) => {
                return Err(LoadError::Format(error));
            },
        };
        match CPU::from_image(image) {
            Ok(cpu) => Ok(cpu),
            Err(error) => Err(LoadError::Mapper(error)),
        }
    }
}

} // verus!
