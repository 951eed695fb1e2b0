//! The file header of an ELF-32 image.

use crate::memory::{hw_from_bytes, word_from_bytes};
use vstd::prelude::*;

verus! {

/// The little-endian 16-bit number at `at`.
pub open spec fn le_u16(bytes: Seq<u8>, at: int) -> u16 {
    hw_from_bytes(bytes[at], bytes[at + 1])
}

/// The little-endian 32-bit number at `at`.
pub open spec fn le_u32(bytes: Seq<u8>, at: int) -> u32 {
    word_from_bytes(bytes[at], bytes[at + 1], bytes[at + 2], bytes[at + 3])
}

/// Reads the little-endian 16-bit number at `at`, if the image holds it.
pub fn read_u16(bytes: &[u8], at: usize) -> (r: Option<u16>)
    ensures
        r == (if at + 2 <= bytes@.len() {
            Some(le_u16(bytes@, at as int))
        } else {
            None
        }),
{
    if bytes.len() < 2 || at > bytes.len() - 2 {
        return None;
    }
    let b0: u16 = bytes[at] as u16;
    let b1: u16 = (bytes[at + 1] as u16) << 8;
    Some(b0 | b1)
}

/// Reads the little-endian 32-bit number at `at`, if the image holds it.
pub fn read_u32(bytes: &[u8], at: usize) -> (r: Option<u32>)
    ensures
        r == (if at + 4 <= bytes@.len() {
            Some(le_u32(bytes@, at as int))
        } else {
            None
        }),
{
    if bytes.len() < 4 || at > bytes.len() - 4 {
        return None;
    }
    let b0: u32 = bytes[at] as u32;
    let b1: u32 = (bytes[at + 1] as u32) << 8;
    let b2: u32 = (bytes[at + 2] as u32) << 16;
    let b3: u32 = (bytes[at + 3] as u32) << 24;
    Some(b0 | b1 | b2 | b3)
}

/// Why a file header was rejected.
#[derive(Debug, Clone, Copy, PartialEq, Eq, Structural)]
pub enum ELFHeaderError {
    /// The image does not start with the four magic bytes.
    InvalidMagic,
    /// The image is not a 32-bit, little-endian one.
    InvalidClassFormat,
    /// The image is not for RISC-V.
    InvalidISA,
    /// The image ends before the entry point.
    InvalidEntryPoint,
    /// The image ends before the program header offset.
    InvalidProgramHeaderOffset,
    /// The image ends before the program header entry size.
    InvalidProgramHeaderSize,
    /// The image ends before the program header count.
    InvalidProgramHeaderEntityCount,
    /// The image ends before the section header offset.
    InvalidSectionHeaderOffset,
    /// The image ends before the section header entry size.
    InvalidSectionHeaderSize,
    /// The image ends before the section header count.
    InvalidSectionHeaderEntityCount,
    /// The image ends before the index of the section name table.
    InvalidSectionHeaderNamesOffset,
}

/// The fields of the file header that the loader reads.
#[derive(Debug, Clone, Copy, PartialEq, Eq, Structural)]
pub struct ELFHeader {
    pub entry: u32,
    pub phoff: u32,
    pub phentsize: u16,
    pub phnum: u16,
    pub shoff: u32,
    pub shentsize: u16,
    pub shnum: u16,
    pub shstrndx: u16,
}

/// The machine number of RISC-V.
pub const MACHINE_RISCV: u16 = 0xf3;

/// Whether `bytes` is accepted as an ELF-32, little-endian, RISC-V image,
/// and if not, which error rejects it: the first of magic, class and data
/// encoding, and machine that does not fit.
pub open spec fn validity(bytes: Seq<u8>) -> Result<(), ELFHeaderError> {
    if !(bytes.len() >= 4 && bytes[0] == 0x7f && bytes[1] == 0x45 && bytes[2] == 0x4c && bytes[3]
        == 0x46) {
        Err(ELFHeaderError::InvalidMagic)
    } else if !(bytes.len() >= 6 && bytes[4] == 1 && bytes[5] == 1) {
        Err(ELFHeaderError::InvalidClassFormat)
    } else if !(bytes.len() >= 0x14 && le_u16(bytes, 0x12) == MACHINE_RISCV) {
        Err(ELFHeaderError::InvalidISA)
    } else {
        Ok(())
    }
}

/// The header that `bytes` holds, or the error that rejects it: where the
/// image is valid, the first field, in the order entry point, program
/// header offset, entry size and count, section header offset, entry size,
/// count and name table index, that the image is too short for.
pub open spec fn header_spec(bytes: Seq<u8>) -> Result<ELFHeader, ELFHeaderError> {
    if validity(bytes).is_err() {
        Err(validity(bytes)->Err_0)
    } else if bytes.len() < 0x18 + 4 {
        Err(ELFHeaderError::InvalidEntryPoint)
    } else if bytes.len() < 0x1c + 4 {
        Err(ELFHeaderError::InvalidProgramHeaderOffset)
    } else if bytes.len() < 0x2a + 2 {
        Err(ELFHeaderError::InvalidProgramHeaderSize)
    } else if bytes.len() < 0x2c + 2 {
        Err(ELFHeaderError::InvalidProgramHeaderEntityCount)
    } else if bytes.len() < 0x20 + 4 {
        Err(ELFHeaderError::InvalidSectionHeaderOffset)
    } else if bytes.len() < 0x2e + 2 {
        Err(ELFHeaderError::InvalidSectionHeaderSize)
    } else if bytes.len() < 0x30 + 2 {
        Err(ELFHeaderError::InvalidSectionHeaderEntityCount)
    } else if bytes.len() < 0x32 + 2 {
        Err(ELFHeaderError::InvalidSectionHeaderNamesOffset)
    } else {
        Ok(
            ELFHeader {
                entry: le_u32(bytes, 0x18),
                phoff: le_u32(bytes, 0x1c),
                phentsize: le_u16(bytes, 0x2a),
                phnum: le_u16(bytes, 0x2c),
                shoff: le_u32(bytes, 0x20),
                shentsize: le_u16(bytes, 0x2e),
                shnum: le_u16(bytes, 0x30),
                shstrndx: le_u16(bytes, 0x32),
            },
        )
    }
}

impl ELFHeader {
    /// Checks that `executable` is an ELF-32, little-endian, RISC-V image.
    pub fn is_valid(executable: &[u8]) -> (r: Result<(), ELFHeaderError>)
        ensures
            r == validity(executable@),
    {
        if !(executable.len() >= 4 && executable[0] == 0x7f && executable[1] == 0x45
            && executable[2] == 0x4c && executable[3] == 0x46) {
            return Err(ELFHeaderError::InvalidMagic);
        }
        if !(executable.len() >= 6 && executable[4] == 1 && executable[5] == 1) {
            return Err(ELFHeaderError::InvalidClassFormat);
        }
        match read_u16(executable, 0x12) {
            Some(machine) => {
                if machine == MACHINE_RISCV {
                    Ok(())
                } else {
                    Err(ELFHeaderError::InvalidISA)
                }
            },
            None => Err(ELFHeaderError::InvalidISA),
        }
    }

    /// Reads the file header of `executable`.
    pub fn parse(executable: &[u8]) -> (r: Result<Self, ELFHeaderError>)
        ensures
            r == header_spec(executable@),
    {
        match Self::is_valid(executable) {
            Ok(()) => {},
            Err(e) => {
                return Err(e);
            },
        }
        let entry = match read_u32(executable, 0x18) {
            Some(v) => v,
            None => {
                return Err(ELFHeaderError::InvalidEntryPoint);
            },
        };
        let phoff = match read_u32(executable, 0x1c) {
            Some(v) => v,
            None => {
                return Err(ELFHeaderError::InvalidProgramHeaderOffset);
            },
        };
        let phentsize = match read_u16(executable, 0x2a) {
            Some(v) => v,
            None => {
                return Err(ELFHeaderError::InvalidProgramHeaderSize);
            },
        };
        let phnum = match read_u16(executable, 0x2c) {
            Some(v) => v,
            None => {
                return Err(ELFHeaderError::InvalidProgramHeaderEntityCount);
            },
        };
        let shoff = match read_u32(executable, 0x20) {
            Some(v) => v,
            None => {
                return Err(ELFHeaderError::InvalidSectionHeaderOffset);
            },
        };
        let shentsize = match read_u16(executable, 0x2e) {
            Some(v) => v,
            None => {
                return Err(ELFHeaderError::InvalidSectionHeaderSize);
            },
        };
        let shnum = match read_u16(executable, 0x30) {
            Some(v) => v,
            None => {
                return Err(ELFHeaderError::InvalidSectionHeaderEntityCount);
            },
        };
        let shstrndx = match read_u16(executable, 0x32) {
            Some(v) => v,
            None => {
                return Err(ELFHeaderError::InvalidSectionHeaderNamesOffset);
            },
        };
        Ok(ELFHeader { entry, phoff, phentsize, phnum, shoff, shentsize, shnum, shstrndx })
    }
}

} // verus!
