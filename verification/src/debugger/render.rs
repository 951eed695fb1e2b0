//! The lines that the debugger shows: the memory, the registers, the
//! instruction, the prompt and its messages. Labels are coloured for the
//! terminal; what the colouring adds before and behind a label depends on
//! the terminal settings of the process.

use crate::cpu::Register;
use crate::debug::{number, number_text, padded};
use crate::memory::in_bounds;
use crate::rv32i::instr::instruction::Instruction;
use crate::text::{decimal, push_decimal};
use crate::vm::VM;
use crossterm::style::Stylize;
use vstd::prelude::*;
use vstd::string::{StrSliceExecFns, StringExecFns};

verus! {

/// A place on the screen: column and row.
#[derive(Debug, Clone, Copy, PartialEq, Eq, Structural)]
pub struct Position {
    pub x: u16,
    pub y: u16,
}

/// Whether `out` is `text` with something put before and behind it.
pub open spec fn is_styled(out: Seq<char>, text: Seq<char>) -> bool {
    exists|before: Seq<char>, after: Seq<char>| out == before + text + after
}

/// `Stylize::dark_red` of crossterm on a string slice, and the text of the
/// styled content: the slice as it is, between the escape sequences that
/// set and reset the colour. Which sequences those are depends on whether
/// colours are switched off for the process.
#[verifier::external_body]
fn dark_red(text: &str) -> (s: String)
    ensures
        is_styled(s@, text@),
{
    text.dark_red().to_string()
}

/// `Stylize::dark_yellow` of crossterm on a string slice, and the text of
/// the styled content: the slice as it is, between the escape sequences
/// that set and reset the colour.
#[verifier::external_body]
fn dark_yellow(text: &str) -> (s: String)
    ensures
        is_styled(s@, text@),
{
    text.dark_yellow().to_string()
}

/// `Stylize::dark_green` of crossterm on a string slice, and the text of
/// the styled content: the slice as it is, between the escape sequences
/// that set and reset the colour.
#[verifier::external_body]
fn dark_green(text: &str) -> (s: String)
    ensures
        is_styled(s@, text@),
{
    text.dark_green().to_string()
}

/// `Stylize::dark_grey` of crossterm on a string slice, and the text of the
/// styled content: the slice as it is, between the escape sequences that
/// set and reset the colour.
#[verifier::external_body]
fn dark_grey(text: &str) -> (s: String)
    ensures
        is_styled(s@, text@),
{
    text.dark_grey().to_string()
}

/// `Stylize::white` of crossterm on a string slice, and the text of the
/// styled content: the slice as it is, between the escape sequences that
/// set and reset the colour.
#[verifier::external_body]
fn white(text: &str) -> (s: String)
    ensures
        is_styled(s@, text@),
{
    text.white().to_string()
}

/// `count` spaces.
pub open spec fn spaces(count: nat) -> Seq<char> {
    Seq::new(count, |i: int| ' ')
}

/// `text` with spaces behind it, up to `width` characters.
pub open spec fn padded_right(text: Seq<char>, width: nat) -> Seq<char> {
    if text.len() >= width {
        text
    } else {
        text + spaces((width - text.len()) as nat)
    }
}

/// Whether `line` is the styled `label`, `gap` and `rest`.
pub open spec fn is_labelled(line: Seq<char>, label: Seq<char>, gap: Seq<char>, rest: Seq<char>) -> bool {
    exists|styled: Seq<char>| is_styled(styled, label) && line == styled + gap + rest
}

/// Appends spaces to `text` until it has `width` characters.
fn pad_right(text: &mut String, width: usize)
    ensures
        final(text)@ == padded_right(old(text)@, width as nat),
{
    let len = text.as_str().unicode_len();
    if len < width {
        let mut n: usize = 0;
        while n < width - len
            invariant
                len < width,
                len == old(text)@.len(),
                n <= width - len,
                text@ == old(text)@ + spaces(n as nat),
            decreases width - len - n,
        {
            proof {
                reveal_strlit(" ");
            }
            text.append(" ");
            assert(text@ =~= old(text)@ + spaces((n + 1) as nat));
            n = n + 1;
        }
    } else {
        assert(text@ =~= old(text)@);
    }
}

/// The decimal notation of `n` with zeros in front, up to `width` digits.
fn zero_padded(n: u32, width: usize) -> (s: String)
    ensures
        s@ == padded(decimal(n as nat), width as nat),
{
    let mut digits = String::new();
    push_decimal(&mut digits, n as u64);
    assert(digits@ =~= decimal(n as nat));
    let len = digits.as_str().unicode_len();
    let mut s = String::new();
    if len < width {
        let mut k: usize = 0;
        while k < width - len
            invariant
                len < width,
                k <= width - len,
                s@ == crate::debug::zeros(k as nat),
            decreases width - len - k,
        {
            proof {
                reveal_strlit("0");
            }
            s.append("0");
            assert(s@ =~= crate::debug::zeros((k + 1) as nat));
            k = k + 1;
        }
    }
    s.append(digits.as_str());
    assert(s@ =~= padded(decimal(n as nat), width as nat));
    s
}

/// Whether `lines` is the line that asks for input.
pub open spec fn shows_prompt(lines: Seq<String>) -> bool {
    lines.len() == 1 && lines[0]@ == "> "@
}

/// The line that asks for input.
pub fn prompt() -> (lines: Vec<String>)
    ensures
        shows_prompt(lines@),
{
    let mut lines: Vec<String> = Vec::new();
    lines.push(String::from_str("> "));
    lines
}

/// One line: the styled `label`, a space, and `src`.
fn message(label: String, src: &str) -> (lines: Vec<String>)
    ensures
        lines@.len() == 1,
        lines@[0]@ == label@ + " "@ + src@,
{
    let mut line = label;
    line.append(" ");
    line.append(src);
    let mut lines: Vec<String> = Vec::new();
    lines.push(line);
    lines
}

/// The line that reports the error `src`: `[ERROR]` in dark red, a space,
/// and `src`.
pub fn error(src: &str) -> (lines: Vec<String>)
    ensures
        lines@.len() == 1,
        is_labelled(lines@[0]@, "[ERROR]"@, " "@, src@),
{
    message(dark_red("[ERROR]"), src)
}

/// The line that reports the warning `src`: `[WARNING]` in dark yellow, a
/// space, and `src`.
pub fn warning(src: &str) -> (lines: Vec<String>)
    ensures
        lines@.len() == 1,
        is_labelled(lines@[0]@, "[WARNING]"@, " "@, src@),
{
    message(dark_yellow("[WARNING]"), src)
}

/// The label of a register line: the register's name and a colon, with
/// spaces behind them up to `width` characters.
pub open spec fn register_label(reg: Register, width: nat) -> Seq<char> {
    padded_right(reg.label_spec() + ":"@, width)
}

/// The line of register `reg`: its label in dark green, a space, and what
/// it holds in binary and decimal.
fn register_line(reg: Register, vm: &VM, width: usize) -> (line: String)
    ensures
        is_labelled(
            line@,
            register_label(reg, width as nat),
            " "@,
            number_text(vm.state().regs[reg.index_spec()], vm.state().regs[reg.index_spec()] as int, 32),
        ),
{
    let mut label = reg.label();
    label.append(":");
    pad_right(&mut label, width);
    let mut line = dark_green(label.as_str());
    let ghost styled = line@;
    line.append(" ");
    let value = number(vm.cpu.register.get(reg), 32);
    line.append(value.as_str());
    assert(line@ == styled + " "@ + value@);
    line
}

/// What register `reg` holds.
pub fn register(reg: Register, vm: &VM) -> (lines: Vec<String>)
    ensures
        lines@.len() == 1,
        is_labelled(
            lines@[0]@,
            register_label(reg, 0),
            " "@,
            number_text(vm.state().regs[reg.index_spec()], vm.state().regs[reg.index_spec()] as int, 32),
        ),
{
    let mut lines: Vec<String> = Vec::new();
    lines.push(register_line(reg, vm, 0));
    lines
}

/// The registers that the debugger always shows, below the program
/// counter: the stack pointer `X2`, then `X8`, `X15` and `X14`.
pub open spec fn shown_registers() -> Seq<Register> {
    seq![Register::X2, Register::X8, Register::X15, Register::X14]
}

/// Whether `lines` shows the program counter and, below it, the registers
/// that are always shown, as the registers `regs` hold them.
pub open spec fn shows_registers(lines: Seq<String>, regs: Seq<u32>) -> bool {
    &&& lines.len() == 5
    &&& is_labelled(lines[0]@, "PC: "@, " "@, number_text(regs[32], regs[32] as int, 32))
    &&& forall|k: int|
        0 <= k < 4 ==> is_labelled(
            #[trigger] lines[k + 1]@,
            register_label(shown_registers()[k], 4),
            " "@,
            number_text(
                regs[shown_registers()[k].index_spec()],
                regs[shown_registers()[k].index_spec()] as int,
                32,
            ),
        )
}

/// The program counter and the registers that are always shown, one line
/// each. The program counter's label is `PC: ` in dark yellow.
pub fn registers(vm: &VM) -> (lines: Vec<String>)
    ensures
        shows_registers(lines@, vm.state().regs),
{
    let mut lines: Vec<String> = Vec::new();
    let mut first = dark_yellow("PC: ");
    let ghost styled = first@;
    first.append(" ");
    let value = number(vm.cpu.register.get(Register::PC), 32);
    first.append(value.as_str());
    assert(first@ == styled + " "@ + value@);
    lines.push(first);
    lines.push(register_line(Register::X2, vm, 4));
    lines.push(register_line(Register::X8, vm, 4));
    lines.push(register_line(Register::X15, vm, 4));
    lines.push(register_line(Register::X14, vm, 4));
    assert forall|k: int| 0 <= k < 4 implies is_labelled(
        #[trigger] lines@[k + 1]@,
        register_label(shown_registers()[k], 4),
        " "@,
        number_text(
            vm.state().regs[shown_registers()[k].index_spec()],
            vm.state().regs[shown_registers()[k].index_spec()] as int,
            32,
        ),
    ) by {
        if k == 0 {
        } else if k == 1 {
        } else if k == 2 {
        } else {
        }
    }
    lines
}

/// How an instruction is written out: its opcode, its word in decimal, and
/// its format.
pub open spec fn instruction_text(i: Instruction) -> Seq<char> {
    "Instruction { opcode: "@ + i.opcode.label_spec() + ", raw: "@ + decimal(i.raw as nat)
        + ", format: "@ + i.opcode.format_spec().label_spec() + " }"@
}

/// Whether `lines` shows the instruction `i`: a line with the instruction
/// written out and a line with its word.
pub open spec fn shows_instruction(lines: Seq<String>, i: Instruction) -> bool {
    &&& lines.len() == 2
    &&& is_labelled(lines[0]@, "inst:"@, " "@, instruction_text(i))
    &&& is_labelled(lines[1]@, "raw:"@, "  "@, number_text(i.raw, i.raw as int, 32))
}

/// Two lines for an instruction: `inst:` in dark yellow with the
/// instruction written out, and `raw:` in white with its word in binary and
/// decimal.
pub fn instruction(instr: &Instruction) -> (lines: Vec<String>)
    ensures
        shows_instruction(lines@, *instr),
{
    let mut text = String::from_str("Instruction { opcode: ");
    text.append(instr.opcode.label());
    text.append(", raw: ");
    push_decimal(&mut text, instr.raw as u64);
    text.append(", format: ");
    text.append(instr.format().label());
    text.append(" }");
    let mut first = dark_yellow("inst:");
    let ghost styled_first = first@;
    first.append(" ");
    first.append(text.as_str());
    assert(first@ == styled_first + " "@ + instruction_text(*instr));
    let mut second = white("raw:");
    let ghost styled_second = second@;
    second.append("  ");
    let value = number(instr.raw, 32);
    second.append(value.as_str());
    assert(second@ == styled_second + "  "@ + value@);
    let mut lines: Vec<String> = Vec::new();
    lines.push(first);
    lines.push(second);
    lines
}

/// The label of the memory cell at `pos`: its address in four decimal
/// digits and a colon.
pub open spec fn position_label(pos: u32) -> Seq<char> {
    padded(decimal(pos as nat), 4) + ":"@
}

/// What is shown of the memory cell at `pos`: the byte in binary and
/// decimal, or three dashes where `pos` lies outside the memory.
pub open spec fn cell_text(mem: Seq<u8>, pos: u32) -> Seq<char> {
    if in_bounds(mem, pos, 1) {
        number_text(mem[pos as int] as u32, mem[pos as int] as int, 8)
    } else {
        "---"@
    }
}

/// Whether `entry` shows the memory cell at `pos`: its styled label, a
/// space, and its text in a column of 18 characters.
pub open spec fn is_cell(entry: Seq<char>, mem: Seq<u8>, pos: u32) -> bool {
    is_labelled(entry, position_label(pos), " "@, padded_right(cell_text(mem, pos), 18))
}

/// Whether `line` shows the four memory cells from `first` on.
pub open spec fn is_memory_line(line: Seq<char>, mem: Seq<u8>, first: u32) -> bool {
    exists|a: Seq<char>, b: Seq<char>, c: Seq<char>, d: Seq<char>|
        #![auto]
        is_cell(a, mem, first) && is_cell(b, mem, (first + 1) as u32) && is_cell(
            c,
            mem,
            (first + 2) as u32,
        ) && is_cell(d, mem, (first + 3) as u32) && line == a + b + c + d
}

/// What is shown of the memory cell at `pos`. The label of a cell that
/// holds a byte other than zero is dark red, any other dark grey.
fn cell(pos: u32, vm: &VM) -> (entry: String)
    ensures
        is_cell(entry@, vm.state().mem, pos),
{
    let mut label = zero_padded(pos, 4);
    label.append(":");
    let mut styled = dark_grey(label.as_str());
    let shown = match vm.ram.byte_at(pos) {
        Ok(value) => {
            if value > 0 {
                styled = dark_red(label.as_str());
            }
            number(value as u32, 8)
        },
        Err(_) => String::from_str("---"),
    };
    let mut column = shown;
    pad_right(&mut column, 18);
    let ghost start = styled@;
    styled.append(" ");
    styled.append(column.as_str());
    assert(styled@ == start + " "@ + column@);
    styled
}

/// Whether `lines` shows the memory `mem` from address `start` on: five
/// lines of four cells each.
pub open spec fn shows_memory(lines: Seq<String>, mem: Seq<u8>, start: u32) -> bool {
    &&& lines.len() == 5
    &&& forall|k: int|
        0 <= k < 5 ==> is_memory_line(#[trigger] lines[k]@, mem, (start + 4 * k) as u32)
}

/// The memory from address 0 on.
pub fn memory(vm: &VM) -> (lines: Vec<String>)
    ensures
        shows_memory(lines@, vm.state().mem, 0),
{
    memory_at(0, vm)
}

/// Five lines of four memory cells each, from address `start_addr` on.
pub fn memory_at(start_addr: u32, vm: &VM) -> (lines: Vec<String>)
    requires
        start_addr + 24 <= u32::MAX,
    ensures
        shows_memory(lines@, vm.state().mem, start_addr),
{
    let mut lines: Vec<String> = Vec::new();
    let mut row: u32 = 0;
    while row < 5
        invariant
            row <= 5,
            start_addr + 24 <= u32::MAX,
            lines@.len() == row,
            forall|k: int|
                0 <= k < row ==> is_memory_line(
                    #[trigger] lines@[k]@,
                    vm.state().mem,
                    (start_addr + 4 * k) as u32,
                ),
        decreases 5 - row,
    {
        let first: u32 = start_addr + 4 * row;
        let a = cell(first, vm);
        let b = cell(first + 1, vm);
        let c = cell(first + 2, vm);
        let d = cell(first + 3, vm);
        let mut line = String::new();
        line.append(a.as_str());
        line.append(b.as_str());
        line.append(c.as_str());
        line.append(d.as_str());
        assert(line@ =~= a@ + b@ + c@ + d@);
        assert(is_memory_line(line@, vm.state().mem, first));
        lines.push(line);
        row = row + 1;
    }
    lines
}

/// Lines and the place where the first of them goes.
#[derive(Debug)]
pub struct Block {
    pub at: Position,
    pub lines: Vec<String>,
}

/// The row of the prompt: below the instruction where one is shown, else
/// below the memory.
pub open spec fn prompt_row(running: bool, next: Option<Instruction>) -> u16 {
    if running && next.is_some() {
        8
    } else {
        6
    }
}

/// What the screen holds: where the program still runs, the instruction
/// that comes next; the memory in the top left corner; the registers in
/// column 100; the messages `outcome`, if there are any, below the prompt;
/// and the prompt.
pub open spec fn shows_screen(
    blocks: Seq<Block>,
    running: bool,
    state: crate::vm::MachineState,
    next: Option<Instruction>,
    outcome: Seq<String>,
) -> bool {
    let shown = running && next.is_some();
    let first: int = if shown {
        1
    } else {
        0
    };
    let row = prompt_row(running, next);
    &&& blocks.len() == first + 3 + (if outcome.len() > 0 {
        1int
    } else {
        0int
    })
    &&& shown ==> blocks[0].at == (Position { x: 0, y: 6 }) && shows_instruction(
        blocks[0].lines@,
        next.unwrap(),
    )
    &&& blocks[first].at == (Position { x: 0, y: 0 }) && shows_memory(
        blocks[first].lines@,
        state.mem,
        0,
    )
    &&& blocks[first + 1].at == (Position { x: 100, y: 0 }) && shows_registers(
        blocks[first + 1].lines@,
        state.regs,
    )
    &&& outcome.len() > 0 ==> blocks[first + 2].at == (Position { x: 0, y: (row + 1) as u16 })
        && blocks[first + 2].lines@ == outcome
    &&& blocks.last().at == (Position { x: 0, y: row }) && shows_prompt(blocks.last().lines@)
}

/// The blocks of the screen, in the order in which they are drawn. `vm` is
/// the machine that is shown, `ahead` the one that was stepped once more,
/// whose last instruction is the one that `vm` meets next.
pub fn screen(running: bool, vm: &VM, ahead: &VM, outcome: &Vec<String>) -> (blocks: Vec<Block>)
    ensures
        shows_screen(blocks@, running, vm.state(), ahead.last, outcome@),
{
    let mut blocks: Vec<Block> = Vec::new();
    let mut row: u16 = 6;
    if running {
        match ahead.last() {
            Some(instr) => {
                blocks.push(Block { at: Position { x: 0, y: 6 }, lines: instruction(&instr) });
                row = 8;
            },
            None => {},
        }
    }
    blocks.push(Block { at: Position { x: 0, y: 0 }, lines: memory(vm) });
    blocks.push(Block { at: Position { x: 100, y: 0 }, lines: registers(vm) });
    if outcome.len() > 0 {
        let mut lines: Vec<String> = Vec::new();
        let mut n: usize = 0;
        while n < outcome.len()
            invariant
                n <= outcome@.len(),
                lines@ == outcome@.take(n as int),
            decreases outcome.len() - n,
        {
            lines.push(outcome[n].clone());
            assert(lines@ =~= outcome@.take(n + 1));
            n = n + 1;
        }
        assert(outcome@.take(n as int) =~= outcome@);
        blocks.push(Block { at: Position { x: 0, y: row + 1 }, lines });
    }
    blocks.push(Block { at: Position { x: 0, y: row }, lines: prompt() });
    blocks
}

} // verus!
