//! Loading a program into a machine: from a raw code image, byte by byte,
//! or from the `.text` and `.rodata` sections of an ELF-32 image.

use crate::elf32::section::{Section, SectionName};
use crate::elf32::{elf_spec, ELF};
use crate::memory::MemoryError;
use crate::program::Program;
use crate::rv32i::instr::instruction::InstructionError;
use crate::vm::VM;
use vstd::prelude::*;
use vstd::string::StringExecFns;

verus! {

/// Why a program was not loaded or did not run to its end.
#[derive(Debug, Clone, Copy, PartialEq, Eq, Structural)]
pub enum RuntimeError {
    /// No program file was named.
    Usage,
    /// The program file could not be read.
    Read,
    /// The program file is no image that can be loaded.
    Load,
    /// An instruction or a memory access was rejected.
    Execution,
}

/// What a runtime error says of itself.
pub open spec fn runtime_error_text(e: RuntimeError) -> Seq<char> {
    "Runtime error: "@ + (match e {
        RuntimeError::Usage => "unexpected usage"@,
        RuntimeError::Read => "read error"@,
        RuntimeError::Load => "load error"@,
        RuntimeError::Execution => "execution aborted"@,
    })
}

impl RuntimeError {
    /// What the error says of itself.
    pub fn message(&self) -> (s: String)
        ensures
            s@ == runtime_error_text(*self),
    {
        let mut s = String::from_str("Runtime error: ");
        s.append(
            match self {
                RuntimeError::Usage => "unexpected usage",
                RuntimeError::Read => "read error",
                RuntimeError::Load => "load error",
                RuntimeError::Execution => "execution aborted",
            },
        );
        s
    }
}

/// The runtime error that stands for a rejected image.
pub open spec fn of_elf_error(e: crate::elf32::Error) -> RuntimeError {
    RuntimeError::Load
}

impl From<crate::elf32::Error> for RuntimeError {
    fn from(e: crate::elf32::Error) -> (r: Self) {
        let _ = e;
        RuntimeError::Load
    }
}

impl vstd::std_specs::convert::FromSpecImpl<crate::elf32::Error> for RuntimeError {
    open spec fn obeys_from_spec() -> bool {
        true
    }

    open spec fn from_spec(e: crate::elf32::Error) -> Self {
        of_elf_error(e)
    }
}

/// The runtime error that stands for a rejected instruction.
pub open spec fn of_instruction_error(e: InstructionError) -> RuntimeError {
    RuntimeError::Execution
}

impl From<InstructionError> for RuntimeError {
    fn from(e: InstructionError) -> (r: Self) {
        let _ = e;
        RuntimeError::Execution
    }
}

impl vstd::std_specs::convert::FromSpecImpl<InstructionError> for RuntimeError {
    open spec fn obeys_from_spec() -> bool {
        true
    }

    open spec fn from_spec(e: InstructionError) -> Self {
        of_instruction_error(e)
    }
}

/// The runtime error that stands for a rejected memory access.
pub open spec fn of_memory_error(e: MemoryError) -> RuntimeError {
    RuntimeError::Execution
}

impl From<MemoryError> for RuntimeError {
    fn from(e: MemoryError) -> (r: Self) {
        let _ = e;
        RuntimeError::Execution
    }
}

impl vstd::std_specs::convert::FromSpecImpl<MemoryError> for RuntimeError {
    open spec fn obeys_from_spec() -> bool {
        true
    }

    open spec fn from_spec(e: MemoryError) -> Self {
        of_memory_error(e)
    }
}

/// `mem` with its first bytes replaced by `data`.
pub open spec fn overlay(mem: Seq<u8>, data: Seq<u8>) -> Seq<u8> {
    data + mem.skip(data.len() as int)
}

/// The bytes of `section` in the image `bytes`.
pub open spec fn section_bytes(bytes: Seq<u8>, section: Section) -> Seq<u8> {
    bytes.subrange(section.header.offset as int, section.header.offset + section.header.size)
}

/// The first section of `sections` named `name`.
pub open spec fn find_section(sections: Seq<Section>, name: SectionName) -> Option<Section>
    decreases sections.len(),
{
    if sections.len() == 0 {
        None
    } else if sections[0].name == name {
        Some(sections[0])
    } else {
        find_section(sections.skip(1), name)
    }
}

/// The bytes of the first section named `name`, or none where the image has
/// no such section.
pub open spec fn named_bytes(bytes: Seq<u8>, sections: Seq<Section>, name: SectionName) -> Seq<
    u8,
> {
    match find_section(sections, name) {
        Some(section) => section_bytes(bytes, section),
        None => Seq::empty(),
    }
}

/// The word index behind the last of `count` bytes that were written from
/// byte 0 on, or `end` where none was written.
pub open spec fn end_after(end: nat, count: nat) -> nat {
    if count == 0 {
        end
    } else {
        ((count - 1) / 4 + 1) as nat
    }
}

/// `find_section` finds the first section of its name.
proof fn lemma_find_section(sections: Seq<Section>, name: SectionName, k: int)
    requires
        0 <= k < sections.len(),
        sections[k].name == name,
        forall|j: int| 0 <= j < k ==> sections[j].name != name,
    ensures
        find_section(sections, name) == Some(sections[k]),
    decreases k,
{
    if k > 0 {
        let rest = sections.skip(1);
        assert(rest[k - 1] == sections[k]);
        assert forall|j: int| 0 <= j < k - 1 implies rest[j].name != name by {
            assert(rest[j] == sections[j + 1]);
        }
        lemma_find_section(rest, name, k - 1);
    }
}

/// Where no section has the name, `find_section` finds none.
proof fn lemma_find_no_section(sections: Seq<Section>, name: SectionName)
    requires
        forall|j: int| 0 <= j < sections.len() ==> sections[j].name != name,
    ensures
        find_section(sections, name).is_none(),
    decreases sections.len(),
{
    if sections.len() > 0 {
        let rest = sections.skip(1);
        assert forall|j: int| 0 <= j < rest.len() implies rest[j].name != name by {
            assert(rest[j] == sections[j + 1]);
        }
        lemma_find_no_section(rest, name);
    }
}

/// The bytes of the first section of `elf` named `name`.
fn bytes_of(elf: &ELF, executable: &[u8], name: SectionName) -> (data: Vec<u32>)
    requires
        forall|k: int|
            0 <= k < elf.sections@.len() ==> (#[trigger] elf.sections@[k]).in_file(executable@),
    ensures
        data@.len() == named_bytes(executable@, elf.sections@, name).len(),
        data@.len() <= u32::MAX,
        forall|k: int|
            0 <= k < data@.len() ==> data@[k] == named_bytes(executable@, elf.sections@, name)[k],
{
    match elf.get(name) {
        Some(section) => {
            proof {
                let k = choose|k: int|
                    0 <= k < elf.sections@.len() && elf.sections@[k] == *section && section.name
                        == name && forall|j: int| 0 <= j < k ==> elf.sections@[j].name != name;
                lemma_find_section(elf.sections@, name, k);
            }
            section.get(executable)
        },
        None => {
            proof {
                lemma_find_no_section(elf.sections@, name);
            }
            Vec::new()
        },
    }
}

/// The program whose code image holds `bytes` from byte 0 on and which ends
/// behind the word of the last byte. `None` where the code image is too
/// small for `bytes`.
pub fn load_program_from_bytes(bytes: &[u8]) -> (r: Option<Program>)
    ensures
        match r {
            Some(prg) => bytes@.len() <= crate::memory::DEFAULT_MEMORY_POOL_SIZE && prg.rom_spec()
                == overlay(Seq::new(crate::memory::DEFAULT_MEMORY_POOL_SIZE as nat, |i: int| 0u8), bytes@)
                && prg.end_spec() == end_after(0, bytes@.len()),
            None => bytes@.len() > crate::memory::DEFAULT_MEMORY_POOL_SIZE,
        },
{
    let mut prg = Program::default();
    if bytes.len() > crate::memory::DEFAULT_MEMORY_POOL_SIZE as usize {
        return None;
    }
    let ghost blank = prg.rom_spec();
    let mut n: usize = 0;
    while n < bytes.len()
        invariant
            n <= bytes@.len(),
            bytes@.len() <= crate::memory::DEFAULT_MEMORY_POOL_SIZE,
            blank.len() == crate::memory::DEFAULT_MEMORY_POOL_SIZE,
            prg.rom_spec() == overlay(blank, bytes@.take(n as int)),
            prg.end_spec() == end_after(0, n as nat),
        decreases bytes.len() - n,
    {
        prg.write(n as u32, bytes[n]);
        assert(prg.rom_spec() =~= overlay(blank, bytes@.take(n + 1)));
        n = n + 1;
    }
    assert(bytes@.take(n as int) =~= bytes@);
    assert(blank =~= Seq::new(crate::memory::DEFAULT_MEMORY_POOL_SIZE as nat, |i: int| 0u8));
    Some(prg)
}

/// Loads the ELF-32 image `executable`: the bytes of its `.rodata` section
/// go to the memory of `vm` and the bytes of its `.text` section to the code
/// image of `program`, both from byte 0 on, and `program` ends behind the
/// word of the last code byte. An image that is rejected gives `Load`, a
/// `.rodata` section larger than the memory gives `Execution`, a `.text`
/// section larger than the code image gives `Load`; on any of them nothing
/// changes.
pub fn load_execution_set_from_bytes(
    executable: &[u8],
    program: &mut Program,
    vm: &mut VM,
) -> (r: Result<(), RuntimeError>)
    ensures
        final(vm).cpu == old(vm).cpu,
        final(vm).last == old(vm).last,
        match elf_spec(executable@) {
            Err(_) => r == Err::<(), RuntimeError>(RuntimeError::Load) && final(vm).ram@ == old(vm).ram@
                && *final(program) == *old(program),
            Ok((_, sections)) => {
                let rodata = named_bytes(executable@, sections, SectionName::Rodata);
                let text = named_bytes(executable@, sections, SectionName::Text);
                if rodata.len() > old(vm).ram@.len() {
                    r == Err::<(), RuntimeError>(RuntimeError::Execution) && final(vm).ram@ == old(vm).ram@
                        && *final(program) == *old(program)
                } else if text.len() > old(program).rom_spec().len() {
                    r == Err::<(), RuntimeError>(RuntimeError::Load) && final(vm).ram@ == old(vm).ram@
                        && *final(program) == *old(program)
                } else {
                    r.is_ok() && final(vm).ram@ == overlay(old(vm).ram@, rodata)
                        && final(program).rom_spec() == overlay(old(program).rom_spec(), text)
                        && final(program).end_spec() == end_after(
                        old(program).end_spec(),
                        text.len(),
                    )
                }
            },
        },
{
    let elf = match ELF::parse(executable) {
        Ok(elf) => elf,
        Err(e) => {
            return Err(RuntimeError::from(e));
        },
    };
    let rodata = bytes_of(&elf, executable, SectionName::Rodata);
    let text = bytes_of(&elf, executable, SectionName::Text);
    let ghost rodata_bytes = named_bytes(executable@, elf.sections@, SectionName::Rodata);
    let ghost text_bytes = named_bytes(executable@, elf.sections@, SectionName::Text);
    if rodata.len() > vm.ram.capacity() {
        return Err(RuntimeError::Execution);
    }
    if text.len() > program.rom_capacity() {
        return Err(RuntimeError::Load);
    }
    let ghost ram_before = vm.ram@;
    let mut n: usize = 0;
    while n < rodata.len()
        invariant
            n <= rodata@.len(),
            rodata@.len() == rodata_bytes.len(),
            rodata@.len() <= ram_before.len(),
            rodata@.len() <= u32::MAX,
            forall|k: int| 0 <= k < rodata@.len() ==> rodata@[k] == rodata_bytes[k],
            vm.ram@ == overlay(ram_before, rodata_bytes.take(n as int)),
            vm.cpu == old(vm).cpu,
            vm.last == old(vm).last,
        decreases rodata.len() - n,
    {
        let stored = vm.ram.set_byte_at(n as u32, rodata[n] as u8);
        assert(stored.is_ok());
        assert(vm.ram@ =~= overlay(ram_before, rodata_bytes.take(n + 1)));
        n = n + 1;
    }
    assert(rodata_bytes.take(n as int) =~= rodata_bytes);
    let ghost rom_before = program.rom_spec();
    let ghost end_before = program.end_spec();
    let mut m: usize = 0;
    while m < text.len()
        invariant
            m <= text@.len(),
            text@.len() == text_bytes.len(),
            text@.len() <= rom_before.len(),
            text@.len() <= u32::MAX,
            forall|k: int| 0 <= k < text@.len() ==> text@[k] == text_bytes[k],
            program.rom_spec() == overlay(rom_before, text_bytes.take(m as int)),
            program.end_spec() == end_after(end_before, m as nat),
        decreases text.len() - m,
    {
        program.write(m as u32, text[m] as u8);
        assert(program.rom_spec() =~= overlay(rom_before, text_bytes.take(m + 1)));
        m = m + 1;
    }
    assert(text_bytes.take(m as int) =~= text_bytes);
    Ok(())
}

} // verus!
