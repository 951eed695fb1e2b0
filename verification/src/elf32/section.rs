//! Section headers, and the two sections that the loader takes: `.text`
//! and `.rodata`.

use super::header::{le_u32, read_u32};
use vstd::prelude::*;
use vstd::string::StringExecFns;

verus! {

/// The longest section name that is read, in bytes.
pub const MAX_NAME_LENGTH: usize = 32;

/// The sections that the loader takes.
#[derive(Debug, Clone, Copy, PartialEq, Eq, Structural)]
pub enum SectionName {
    /// `.text`, the code.
    Text,
    /// `.rodata`, the constant data.
    Rodata,
}

/// Why a section name was not accepted.
#[derive(Debug, Clone, Copy, PartialEq, Eq, Structural)]
pub enum SectionError {
    /// There is no name, or it is empty.
    MissingSectionName,
    /// The image ends before the name does.
    InvalidSectionName,
    /// The name is neither `.text` nor `.rodata`.
    UnknownSectionName,
}

/// Why a section header was rejected: the field that the image is too short
/// for.
#[derive(Debug, Clone, Copy, PartialEq, Eq, Structural)]
pub enum SectionHeaderError {
    TypeError,
    FlagsError,
    AddrError,
    OffsetError,
    SizeError,
    LinkError,
    InfoError,
    AlignError,
    EntrySizeError,
}

/// A section header without its name field.
#[derive(Debug, Clone, Copy, PartialEq, Eq, Structural)]
pub struct SectionHeader {
    pub typ: u32,
    pub flags: u32,
    pub addr: u32,
    pub offset: u32,
    pub size: u32,
    pub link: u32,
    pub info: u32,
    pub align: u32,
    pub entsize: u32,
}

/// The section header that `bytes` holds from byte 0 on, nine little-endian
/// words, or the error of the first field that `bytes` is too short for.
pub open spec fn section_header_spec(bytes: Seq<u8>) -> Result<SectionHeader, SectionHeaderError> {
    if bytes.len() < 4 {
        Err(SectionHeaderError::TypeError)
    }     else if bytes.len() < 8 {
        Err(SectionHeaderError::FlagsError)
    }     else if bytes.len() < 12 {
        Err(SectionHeaderError::AddrError)
    }     else if bytes.len() < 16 {
        Err(SectionHeaderError::OffsetError)
    }     else if bytes.len() < 20 {
        Err(SectionHeaderError::SizeError)
    }     else if bytes.len() < 24 {
        Err(SectionHeaderError::LinkError)
    }     else if bytes.len() < 28 {
        Err(SectionHeaderError::InfoError)
    }     else if bytes.len() < 32 {
        Err(SectionHeaderError::AlignError)
    }     else if bytes.len() < 36 {
        Err(SectionHeaderError::EntrySizeError)
    } else {
        Ok(
            SectionHeader {
                typ: le_u32(bytes, 0),
                flags: le_u32(bytes, 4),
                addr: le_u32(bytes, 8),
                offset: le_u32(bytes, 12),
                size: le_u32(bytes, 16),
                link: le_u32(bytes, 20),
                info: le_u32(bytes, 24),
                align: le_u32(bytes, 28),
                entsize: le_u32(bytes, 32),
            },
        )
    }
}

impl SectionHeader {
    /// Reads a section header, without its name field, from the start of
    /// `executable`.
    pub fn parse(executable: &[u8]) -> (r: Result<Self, SectionHeaderError>)
        ensures
            r == section_header_spec(executable@),
    {
        let typ = match read_u32(executable, 0) {
            Some(v) => v,
            None => {
                return Err(SectionHeaderError::TypeError);
            },
        };
        let flags = match read_u32(executable, 4) {
            Some(v) => v,
            None => {
                return Err(SectionHeaderError::FlagsError);
            },
        };
        let addr = match read_u32(executable, 8) {
            Some(v) => v,
            None => {
                return Err(SectionHeaderError::AddrError);
            },
        };
        let offset = match read_u32(executable, 12) {
            Some(v) => v,
            None => {
                return Err(SectionHeaderError::OffsetError);
            },
        };
        let size = match read_u32(executable, 16) {
            Some(v) => v,
            None => {
                return Err(SectionHeaderError::SizeError);
            },
        };
        let link = match read_u32(executable, 20) {
            Some(v) => v,
            None => {
                return Err(SectionHeaderError::LinkError);
            },
        };
        let info = match read_u32(executable, 24) {
            Some(v) => v,
            None => {
                return Err(SectionHeaderError::InfoError);
            },
        };
        let align = match read_u32(executable, 28) {
            Some(v) => v,
            None => {
                return Err(SectionHeaderError::AlignError);
            },
        };
        let entsize = match read_u32(executable, 32) {
            Some(v) => v,
            None => {
                return Err(SectionHeaderError::EntrySizeError);
            },
        };
        Ok(SectionHeader { typ, flags, addr, offset, size, link, info, align, entsize })
    }
}

impl Default for SectionHeader {
    /// A header with every field zero.
    fn default() -> (h: Self)
        ensures
            h == (SectionHeader {
                typ: 0,
                flags: 0,
                addr: 0,
                offset: 0,
                size: 0,
                link: 0,
                info: 0,
                align: 0,
                entsize: 0,
            }),
    {
        SectionHeader {
            typ: 0,
            flags: 0,
            addr: 0,
            offset: 0,
            size: 0,
            link: 0,
            info: 0,
            align: 0,
            entsize: 0,
        }
    }
}

/// The bytes of the name `.text`.
pub open spec fn text_name() -> Seq<u8> {
    seq![0x2eu8, 0x74, 0x65, 0x78, 0x74]
}

/// The bytes of the name `.rodata`.
pub open spec fn rodata_name() -> Seq<u8> {
    seq![0x2eu8, 0x72, 0x6f, 0x64, 0x61, 0x74, 0x61]
}

/// Where the reading of a name that has come to position `x` stops: at the
/// first NUL byte, at the end of `bytes`, or after 32 bytes.
pub open spec fn name_end(bytes: Seq<u8>, x: int) -> int
    decreases MAX_NAME_LENGTH - x,
{
    if x >= MAX_NAME_LENGTH {
        MAX_NAME_LENGTH as int
    } else if x >= bytes.len() || bytes[x] == 0 {
        x
    } else {
        name_end(bytes, x + 1)
    }
}

/// The section that the NUL-terminated name at the start of `bytes` stands
/// for, or why there is none. A name of 32 bytes needs no NUL.
pub open spec fn section_name_spec(bytes: Seq<u8>) -> Result<SectionName, SectionError> {
    let end = name_end(bytes, 0);
    if bytes.len() == 0 {
        Err(SectionError::MissingSectionName)
    } else if end < MAX_NAME_LENGTH && end >= bytes.len() {
        Err(SectionError::InvalidSectionName)
    } else if end == 0 {
        Err(SectionError::MissingSectionName)
    } else if bytes.take(end) == text_name() {
        Ok(SectionName::Text)
    } else if bytes.take(end) == rodata_name() {
        Ok(SectionName::Rodata)
    } else {
        Err(SectionError::UnknownSectionName)
    }
}

/// The section that the name `name` stands for.
pub open spec fn section_of(name: Seq<char>) -> Result<SectionName, SectionError> {
    if name == ".text"@ {
        Ok(SectionName::Text)
    } else if name == ".rodata"@ {
        Ok(SectionName::Rodata)
    } else {
        Err(SectionError::UnknownSectionName)
    }
}

impl TryFrom<String> for SectionName {
    type Error = SectionError;

    /// The section that the name `s` stands for.
    fn try_from(s: String) -> (r: Result<Self, SectionError>) {
        let text = String::from_str(".text");
        let rodata = String::from_str(".rodata");
        if s == text {
            Ok(SectionName::Text)
        } else if s == rodata {
            Ok(SectionName::Rodata)
        } else {
            Err(SectionError::UnknownSectionName)
        }
    }
}

impl vstd::std_specs::convert::TryFromSpecImpl<String> for SectionName {
    open spec fn obeys_try_from_spec() -> bool {
        true
    }

    open spec fn try_from_spec(s: String) -> Result<Self, SectionError> {
        section_of(s@)
    }
}

/// A named section.
#[derive(Debug, Clone, Copy, PartialEq, Eq, Structural)]
pub struct Section {
    pub name: SectionName,
    pub header: SectionHeader,
}

/// Whether `name` holds exactly the bytes `expected`.
fn name_is(name: &Vec<u8>, expected: &[u8]) -> (same: bool)
    ensures
        same == (name@ == expected@),
{
    if name.len() != expected.len() {
        return false;
    }
    let mut n: usize = 0;
    while n < name.len()
        invariant
            n <= name@.len(),
            name@.len() == expected@.len(),
            forall|k: int| 0 <= k < n ==> name@[k] == expected@[k],
        decreases name.len() - n,
    {
        if name[n] != expected[n] {
            return false;
        }
        n = n + 1;
    }
    assert(name@ =~= expected@);
    true
}

impl Section {
    /// Whether the bytes of the section lie within `bytes`.
    pub open spec fn in_file(self, bytes: Seq<u8>) -> bool {
        self.header.offset + self.header.size <= bytes.len()
    }

    /// The section with header `hdr` whose NUL-terminated name starts
    /// `executable`.
    pub fn parse(hdr: SectionHeader, executable: &[u8]) -> (r: Result<Self, SectionError>)
        ensures
            match r {
                Ok(section) => section_name_spec(executable@) == Ok::<SectionName, SectionError>(
                    section.name,
                ) && section.header == hdr,
                Err(e) => section_name_spec(executable@) == Err::<SectionName, SectionError>(e),
            },
    {
        if executable.len() == 0 {
            return Err(SectionError::MissingSectionName);
        }
        let mut name: Vec<u8> = Vec::new();
        let mut x: usize = 0;
        while x < MAX_NAME_LENGTH
            invariant
                x <= MAX_NAME_LENGTH,
                x <= executable@.len(),
                executable@.len() > 0,
                name@ == executable@.take(x as int),
                name_end(executable@, 0) == name_end(executable@, x as int),
            ensures
                name@ == executable@.take(name_end(executable@, 0)),
                name_end(executable@, 0) <= executable@.len(),
                name@.len() == name_end(executable@, 0),
                !(name_end(executable@, 0) < MAX_NAME_LENGTH && name_end(executable@, 0)
                    >= executable@.len()),
            decreases MAX_NAME_LENGTH - x,
        {
            if x > executable.len() - 1 {
                return Err(SectionError::InvalidSectionName);
            }
            let c = executable[x];
            if c == 0 {
                break ;
            }
            name.push(c);
            assert(name@ =~= executable@.take(x + 1));
            x = x + 1;
        }
        if name.len() == 0 {
            return Err(SectionError::MissingSectionName);
        }
        let text: [u8; 5] = [0x2e, 0x74, 0x65, 0x78, 0x74];
        let rodata: [u8; 7] = [0x2e, 0x72, 0x6f, 0x64, 0x61, 0x74, 0x61];
        assert(text@ =~= text_name());
        assert(rodata@ =~= rodata_name());
        if name_is(&name, text.as_slice()) {
            Ok(Section { name: SectionName::Text, header: hdr })
        } else if name_is(&name, rodata.as_slice()) {
            Ok(Section { name: SectionName::Rodata, header: hdr })
        } else {
            Err(SectionError::UnknownSectionName)
        }
    }

    /// The bytes of the section, in file order, each as a number.
    pub fn get(&self, executable: &[u8]) -> (data: Vec<u32>)
        requires
            self.in_file(executable@),
        ensures
            data@.len() == self.header.size,
            forall|k: int|
                0 <= k < self.header.size ==> data@[k] == executable@[self.header.offset + k],
    {
        let start: usize = self.header.offset as usize;
        let size: usize = self.header.size as usize;
        let total: usize = executable.len();
        let mut data: Vec<u32> = Vec::new();
        let mut n: usize = 0;
        while n < size
            invariant
                n <= size,
                start + size <= total,
                total == executable@.len(),
                start == self.header.offset,
                data@.len() == n,
                forall|k: int| 0 <= k < n ==> data@[k] == executable@[start + k],
            decreases size - n,
        {
            data.push(executable[start + n] as u32);
            n = n + 1;
        }
        data
    }
}

} // verus!
