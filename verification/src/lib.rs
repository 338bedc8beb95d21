//! Decoder, disassembler and address space of a 6502-based cartridge console.
//!
//! The decoder turns bytes into instructions of the 6502 and instructions into
//! text. The address space is 64 KiB of memory with mirrored and read-only
//! ranges, laid out from a cartridge image by a mapper.

pub mod address_mode;
pub mod cpu;
pub mod cursor;
pub mod decode;
pub mod format;
pub mod hex;
pub mod hexdump;
pub mod ines;
pub mod instructions;
pub mod iter;
pub mod layout;
pub mod mapper;
pub mod memory;
pub mod mnemonic;
pub mod opcode;
pub mod range;
pub mod register;
pub mod segment;
pub mod table;

pub use crate::cpu::CPU;
pub use crate::ines::Ines;
pub use crate::instructions::{Instruction, InstructionConstruct};
pub use crate::iter::{dump, opcodes, OpcodeIterator};
pub use crate::mapper::{Mapper, NROM};
pub use crate::memory::{Memory, MemoryBuilder};
pub use crate::opcode::Opcode;
pub use crate::register::Registers;
