//! The loader's view of an ELF-32 image: the file header and the sections
//! that hold code and constant data.

pub mod header;
pub mod section;

use header::{header_spec, le_u32, read_u32, ELFHeader, ELFHeaderError};
use section::{
    section_header_spec, section_name_spec, Section, SectionError, SectionHeader,
    SectionHeaderError, SectionName,
};
use vstd::prelude::*;
use vstd::slice::slice_subrange;

verus! {

/// Why an image was not loaded.
#[derive(Debug, Clone, Copy, PartialEq, Eq, Structural)]
pub enum Error {
    /// The file header was rejected.
    HeaderParseError,
    /// A section header or a section name was rejected.
    SectionParseError,
}

/// The error that stands for a rejected file header.
pub open spec fn of_header_error(e: ELFHeaderError) -> Error {
    Error::HeaderParseError
}

impl From<ELFHeaderError> for Error {
    fn from(e: ELFHeaderError) -> (r: Self) {
        let _ = e;
        Error::HeaderParseError
    }
}

impl vstd::std_specs::convert::FromSpecImpl<ELFHeaderError> for Error {
    open spec fn obeys_from_spec() -> bool {
        true
    }

    open spec fn from_spec(e: ELFHeaderError) -> Self {
        of_header_error(e)
    }
}

/// The error that stands for a rejected section header.
pub open spec fn of_section_header_error(e: SectionHeaderError) -> Error {
    Error::SectionParseError
}

impl From<SectionHeaderError> for Error {
    fn from(e: SectionHeaderError) -> (r: Self) {
        let _ = e;
        Error::SectionParseError
    }
}

impl vstd::std_specs::convert::FromSpecImpl<SectionHeaderError> for Error {
    open spec fn obeys_from_spec() -> bool {
        true
    }

    open spec fn from_spec(e: SectionHeaderError) -> Self {
        of_section_header_error(e)
    }
}

/// The error that stands for a rejected section name.
pub open spec fn of_section_error(e: SectionError) -> Error {
    Error::SectionParseError
}

impl From<SectionError> for Error {
    fn from(e: SectionError) -> (r: Self) {
        let _ = e;
        Error::SectionParseError
    }
}

impl vstd::std_specs::convert::FromSpecImpl<SectionError> for Error {
    open spec fn obeys_from_spec() -> bool {
        true
    }

    open spec fn from_spec(e: SectionError) -> Self {
        of_section_error(e)
    }
}

/// Where the header of section `x` starts in the image.
pub open spec fn entry_at(h: ELFHeader, x: int) -> int {
    h.shoff + x * h.shentsize
}

/// The file offset of the section name table: the fifth word of the section
/// header that the file header names. `None` where the image ends before
/// that word.
pub open spec fn names_offset_spec(bytes: Seq<u8>, h: ELFHeader) -> Option<u32> {
    let at = entry_at(h, h.shstrndx as int) + 16;
    if at + 4 <= bytes.len() {
        Some(le_u32(bytes, at))
    } else {
        None
    }
}

/// What the loader makes of section `x`: the section, where its name is
/// `.text` or `.rodata` and its bytes lie within the image; nothing, where
/// its name is another one; an error, where the image is too short for its
/// header, its name or its bytes, or where it has no name.
pub open spec fn section_at(bytes: Seq<u8>, h: ELFHeader, names: u32, x: int) -> Result<
    Option<Section>,
    Error,
> {
    let start = entry_at(h, x);
    if h.shentsize < 4 || start + h.shentsize > bytes.len() {
        Err(Error::SectionParseError)
    } else {
        match section_header_spec(bytes.subrange(start + 4, start + h.shentsize)) {
            Err(_) => Err(Error::SectionParseError),
            Ok(hdr) => {
                let name_at = names + le_u32(bytes, start);
                if name_at > bytes.len() {
                    Err(Error::SectionParseError)
                } else {
                    match section_name_spec(bytes.subrange(name_at, bytes.len() as int)) {
                        Ok(name) => if hdr.offset + hdr.size <= bytes.len() {
                            Ok(Some(Section { name, header: hdr }))
                        } else {
                            Err(Error::SectionParseError)
                        },
                        Err(SectionError::UnknownSectionName) => Ok(None),
                        Err(_) => Err(Error::SectionParseError),
                    }
                }
            },
        }
    }
}

/// The sections that the loader takes from the sections 1 to `count - 1`,
/// in file order, or the error of the first section that has one.
pub open spec fn sections_spec(bytes: Seq<u8>, h: ELFHeader, names: u32, count: int) -> Result<
    Seq<Section>,
    Error,
>
    decreases count,
{
    if count <= 1 {
        Ok(Seq::empty())
    } else {
        match sections_spec(bytes, h, names, count - 1) {
            Err(e) => Err(e),
            Ok(found) => match section_at(bytes, h, names, count - 1) {
                Err(e) => Err(e),
                Ok(None) => Ok(found),
                Ok(Some(section)) => Ok(found.push(section)),
            },
        }
    }
}

/// The header and the sections that the loader reads from `bytes`, or the
/// error that rejects the image.
pub open spec fn elf_spec(bytes: Seq<u8>) -> Result<(ELFHeader, Seq<Section>), Error> {
    match header_spec(bytes) {
        Err(_) => Err(Error::HeaderParseError),
        Ok(h) => if h.shnum == 0 {
            Ok((h, Seq::empty()))
        } else {
            match names_offset_spec(bytes, h) {
                None => Err(Error::SectionParseError),
                Some(names) => match sections_spec(bytes, h, names, h.shnum as int) {
                    Err(e) => Err(e),
                    Ok(found) => Ok((h, found)),
                },
            }
        },
    }
}

/// Every section that the loader takes lies within the image.
pub proof fn lemma_sections_in_file(bytes: Seq<u8>, h: ELFHeader, names: u32, count: int)
    ensures
        match sections_spec(bytes, h, names, count) {
            Ok(found) => forall|k: int| 0 <= k < found.len() ==> (#[trigger] found[k]).in_file(bytes),
            Err(_) => true,
        },
    decreases count,
{
    if count > 1 {
        lemma_sections_in_file(bytes, h, names, count - 1);
    }
}

/// The product of a section index and the size of a section header.
fn scaled(index: u16, size: u16) -> (r: u64)
    ensures
        r == index * size,
        r <= 0xffff * 0xffff,
{
    assert(index * size <= 0xffff * 0xffff) by (nonlinear_arith)
        requires
            index <= 0xffff,
            size <= 0xffff,
    ;
    (index as u64) * (size as u64)
}

/// A parsed image: its file header and its `.text` and `.rodata` sections.
#[derive(Debug)]
pub struct ELF {
    pub header: ELFHeader,
    pub sections: Vec<Section>,
}

impl ELF {
    /// The first section named `s`.
    pub fn get(&self, s: SectionName) -> (r: Option<&Section>)
        ensures
            match r {
                Some(section) => exists|k: int|
                    0 <= k < self.sections@.len() && self.sections@[k] == *section && section.name
                        == s && forall|j: int| 0 <= j < k ==> self.sections@[j].name != s,
                None => forall|j: int| 0 <= j < self.sections@.len() ==> self.sections@[j].name != s,
            },
    {
        let mut n: usize = 0;
        while n < self.sections.len()
            invariant
                n <= self.sections@.len(),
                forall|j: int| 0 <= j < n ==> self.sections@[j].name != s,
            decreases self.sections.len() - n,
        {
            if self.sections[n].name == s {
                return Some(&self.sections[n]);
            }
            n = n + 1;
        }
        None
    }

    /// Reads section `x` of `executable`.
    fn parse_section(executable: &[u8], h: &ELFHeader, names: u32, x: u16) -> (r: Result<
        Option<Section>,
        Error,
    >)
        ensures
            r == section_at(executable@, *h, names, x as int),
    {
        let total: u64 = executable.len() as u64;
        let start: u64 = h.shoff as u64 + scaled(x, h.shentsize);
        if h.shentsize < 4 || start + h.shentsize as u64 > total {
            return Err(Error::SectionParseError);
        }
        let content = slice_subrange(
            executable,
            (start + 4) as usize,
            (start + h.shentsize as u64) as usize,
        );
        let hdr = match SectionHeader::parse(content) {
            Ok(hdr) => hdr,
            Err(e) => {
                return Err(Error::from(e));
            },
        };
        let name_field = match read_u32(executable, start as usize) {
            Some(v) => v,
            None => {
                return Err(Error::SectionParseError);
            },
        };
        let name_at: u64 = names as u64 + name_field as u64;
        if name_at > total {
            return Err(Error::SectionParseError);
        }
        let name_bytes = slice_subrange(executable, name_at as usize, executable.len());
        match Section::parse(hdr, name_bytes) {
            Ok(section) => {
                if hdr.offset as u64 + hdr.size as u64 <= total {
                    Ok(Some(section))
                } else {
                    Err(Error::SectionParseError)
                }
            },
            Err(SectionError::UnknownSectionName) => Ok(None),
            Err(e) => Err(Error::from(e)),
        }
    }

    /// Reads the file header and the `.text` and `.rodata` sections of
    /// `executable`. Sections of other names are passed over.
    pub fn parse(executable: &[u8]) -> (r: Result<Self, Error>)
        ensures
            match r {
                Ok(elf) => elf_spec(executable@) == Ok::<(ELFHeader, Seq<Section>), Error>(
                    (elf.header, elf.sections@),
                ) && forall|k: int|
                    0 <= k < elf.sections@.len() ==> (#[trigger] elf.sections@[k]).in_file(
                        executable@,
                    ),
                Err(e) => elf_spec(executable@) == Err::<(ELFHeader, Seq<Section>), Error>(e),
            },
    {
        let header = match ELFHeader::parse(executable) {
            Ok(h) => h,
            Err(e) => {
                return Err(Error::from(e));
            },
        };
        let mut sections: Vec<Section> = Vec::new();
        if header.shnum > 0 {
            let at: u64 = header.shoff as u64 + scaled(header.shstrndx, header.shentsize) + 16;
            if at + 4 > executable.len() as u64 {
                return Err(Error::SectionParseError);
            }
            let names = match read_u32(executable, at as usize) {
                Some(v) => v,
                None => {
                    return Err(Error::SectionParseError);
                },
            };
            let mut x: u16 = 1;
            while x < header.shnum
                invariant
                    1 <= x <= header.shnum,
                    header_spec(executable@) == Ok::<ELFHeader, ELFHeaderError>(header),
                    names_offset_spec(executable@, header) == Some(names),
                    sections_spec(executable@, header, names, x as int) == Ok::<
                        Seq<Section>,
                        Error,
                    >(sections@),
                decreases header.shnum - x,
            {
                match Self::parse_section(executable, &header, names, x) {
                    Ok(Some(section)) => {
                        sections.push(section);
                    },
                    Ok(None) => {},
                    Err(e) => {
                        proof {
                            lemma_sections_fail(executable@, header, names, x as int + 1, header.shnum as int);
                        }
                        return Err(e);
                    },
                }
                x = x + 1;
            }
            proof {
                lemma_sections_in_file(executable@, header, names, header.shnum as int);
            }
        }
        Ok(ELF { header, sections })
    }
}

/// Once a section fails, so does every longer run of sections, with the
/// same error.
proof fn lemma_sections_fail(bytes: Seq<u8>, h: ELFHeader, names: u32, failed: int, count: int)
    requires
        failed <= count,
        sections_spec(bytes, h, names, failed).is_err(),
    ensures
        sections_spec(bytes, h, names, count) == sections_spec(bytes, h, names, failed),
    decreases count - failed,
{
    if failed < count {
        lemma_sections_fail(bytes, h, names, failed, count - 1);
    }
}

} // verus!
