//! The commands of the debugger: `!+ <register> <value>` sets a register,
//! `!@ <address> <byte>` sets a byte of the memory.

use crate::cpu::{parse_register, Register};
use crate::text::{decimal_u32, parse_decimal};
use vstd::prelude::*;
use vstd::string::{StrSliceExecFns, StringExecFns};

verus! {

/// What `char::is_alphabetic` returns for `c`.
pub uninterp spec fn char_is_alphabetic(c: char) -> bool;

/// What `char::is_whitespace` returns for `c`.
pub uninterp spec fn char_is_whitespace(c: char) -> bool;

/// `char::is_alphabetic` of the standard library: whether `c` has the
/// Unicode property Alphabetic. Nothing is claimed of the result but that it
/// is the library's answer for `c`.
#[verifier::external_body]
fn is_alphabetic(c: char) -> (b: bool)
    ensures
        b == char_is_alphabetic(c),
{
    c.is_alphabetic()
}

/// `char::is_whitespace` of the standard library: whether `c` has the
/// Unicode property White_Space. Nothing is claimed of the result but that
/// it is the library's answer for `c`.
#[verifier::external_body]
fn is_whitespace(c: char) -> (b: bool)
    ensures
        b == char_is_whitespace(c),
{
    c.is_whitespace()
}

/// A command of the debugger.
#[derive(Debug, Clone, Copy, PartialEq, Eq, Structural)]
pub enum Command {
    /// Sets a register to a value.
    SetRegister(Register, u32),
    /// Sets the byte at an address.
    SetMemory(u32, u8),
}

/// A piece of a command line.
#[derive(Debug, PartialEq)]
pub enum Token {
    Bang,
    Plus,
    At,
    Number(u32),
    Identifier(String),
}

/// A token, its text where it has one as a sequence of characters.
pub enum TokenText {
    Bang,
    Plus,
    At,
    Number(u32),
    Identifier(Seq<char>),
}

impl View for Token {
    type V = TokenText;

    open spec fn view(&self) -> TokenText {
        match self {
            Token::Bang => TokenText::Bang,
            Token::Plus => TokenText::Plus,
            Token::At => TokenText::At,
            Token::Number(n) => TokenText::Number(*n),
            Token::Identifier(name) => TokenText::Identifier(name@),
        }
    }
}

/// Whether `c` is one of `0` to `9`.
pub open spec fn is_digit(c: char) -> bool {
    '0' <= c <= '9'
}

/// The first position from `from` on that holds no white space.
pub open spec fn blank_end(chars: Seq<char>, from: int) -> int
    decreases chars.len() - from,
{
    if from >= chars.len() || !char_is_whitespace(chars[from]) {
        from
    } else {
        blank_end(chars, from + 1)
    }
}

/// The first position from `from` on that holds no digit.
pub open spec fn digits_end(chars: Seq<char>, from: int) -> int
    decreases chars.len() - from,
{
    if from >= chars.len() || !is_digit(chars[from]) {
        from
    } else {
        digits_end(chars, from + 1)
    }
}

/// The first position from `from` on that holds white space.
pub open spec fn word_end(chars: Seq<char>, from: int) -> int
    decreases chars.len() - from,
{
    if from >= chars.len() || char_is_whitespace(chars[from]) {
        from
    } else {
        word_end(chars, from + 1)
    }
}

/// Where reading goes on after a number or a word that ends at `end`: the
/// character that ends it is passed over.
pub open spec fn after_run(chars: Seq<char>, end: int) -> int {
    if end < chars.len() {
        end + 1
    } else {
        end
    }
}

/// The token that starts at or after `pos`, and where reading goes on after
/// it. `!`, `+` and `@` are tokens of their own; a run of digits is a
/// number; a letter starts a word that reaches to the next white space;
/// anything else is passed over. A number that does not fit 32 bits ends the
/// reading.
pub open spec fn next_token(chars: Seq<char>, pos: int) -> (Option<TokenText>, int)
    decreases chars.len() - pos,
{
    if pos < 0 || pos >= chars.len() {
        (None, pos)
    } else if chars[pos] == '!' {
        (Some(TokenText::Bang), pos + 1)
    } else if chars[pos] == '+' {
        (Some(TokenText::Plus), pos + 1)
    } else if chars[pos] == '@' {
        (Some(TokenText::At), pos + 1)
    } else if is_digit(chars[pos]) {
        match decimal_u32(chars.subrange(pos, digits_end(chars, pos))) {
            Some(n) => (Some(TokenText::Number(n)), after_run(chars, digits_end(chars, pos))),
            None => (None, chars.len() as int),
        }
    } else if char_is_alphabetic(chars[pos]) {
        (
            Some(TokenText::Identifier(chars.subrange(pos, word_end(chars, pos + 1)))),
            after_run(chars, word_end(chars, pos + 1)),
        )
    } else {
        next_token(chars, pos + 1)
    }
}

/// The register that the token `t` names: by name, or by its index from 0
/// to 31.
pub open spec fn register_of(t: Option<TokenText>) -> Option<Register> {
    match t {
        Some(TokenText::Identifier(name)) => match parse_register(name) {
            Ok(r) => Some(r),
            Err(_) => None,
        },
        Some(TokenText::Number(n)) => if n <= 31 {
            Some(Register::general(n as int))
        } else {
            None
        },
        _ => None,
    }
}

/// The number that the token `t` is, if it is one.
pub open spec fn number_of(t: Option<TokenText>) -> Option<u32> {
    match t {
        Some(TokenText::Number(n)) => Some(n),
        _ => None,
    }
}

/// The command that the line `input` holds: after leading white space a
/// `!`, then `+`, a register and a value, or `@`, an address and a byte, of
/// which the low eight bits count.
pub open spec fn command_spec(input: Seq<char>) -> Option<Command> {
    let first = next_token(input, blank_end(input, 0));
    let second = next_token(input, first.1);
    let third = next_token(input, second.1);
    let fourth = next_token(input, third.1);
    if first.0 != Some(TokenText::Bang) {
        None
    } else if second.0 == Some(TokenText::Plus) {
        match (register_of(third.0), number_of(fourth.0)) {
            (Some(register), Some(value)) => Some(Command::SetRegister(register, value)),
            _ => None,
        }
    } else if second.0 == Some(TokenText::At) {
        match (number_of(third.0), number_of(fourth.0)) {
            (Some(address), Some(byte)) => Some(Command::SetMemory(address, (byte & 0xff) as u8)),
            _ => None,
        }
    } else {
        None
    }
}

/// A reader of tokens from a command line.
pub struct Tokenizer<'a> {
    source: &'a str,
    length: usize,
    position: usize,
}

impl<'a> Tokenizer<'a> {
    #[verifier::type_invariant]
    spec fn well_formed(self) -> bool {
        self.length == self.source@.len() && self.position <= self.length
    }

    /// The characters of the line.
    pub closed spec fn text(self) -> Seq<char> {
        self.source@
    }

    /// The position that the next token is looked for at.
    pub closed spec fn at(self) -> int {
        self.position as int
    }

    /// A reader of `source` that starts behind its leading white space.
    pub fn new(source: &'a str) -> (t: Self)
        ensures
            t.text() == source@,
            t.at() == blank_end(source@, 0),
    {
        let length = source.unicode_len();
        let mut position: usize = 0;
        while position < length && is_whitespace(source.get_char(position))
            invariant
                position <= length,
                length == source@.len(),
                blank_end(source@, 0) == blank_end(source@, position as int),
            decreases length - position,
        {
            position = position + 1;
        }
        Tokenizer { source, length, position }
    }

    /// The next token, or `None` where the line holds no more.
    pub fn next(&mut self) -> (r: Option<Token>)
        ensures
            final(self).text() == old(self).text(),
            (match r {
                Some(t) => Some(t@),
                None => None,
            }, final(self).at()) == next_token(old(self).text(), old(self).at()),
    {
        proof {
            use_type_invariant(&*self);
        }
        let source = self.source;
        let length = self.length;
        let mut pos = self.position;
        while pos < length
            invariant
                pos <= length,
                length == source@.len(),
                next_token(source@, pos as int) == next_token(old(self).text(), old(self).at()),
                source@ == old(self).text(),
                self.source == source,
                self.length == length,
                self.position <= length,
            decreases length - pos,
        {
            let c = source.get_char(pos);
            if c == '!' {
                self.position = pos + 1;
                return Some(Token::Bang);
            } else if c == '+' {
                self.position = pos + 1;
                return Some(Token::Plus);
            } else if c == '@' {
                self.position = pos + 1;
                return Some(Token::At);
            } else if c >= '0' && c <= '9' {
                let mut end = pos + 1;
                while end < length && Self::digit_at(source, end)
                    invariant
                        pos < end <= length,
                        length == source@.len(),
                        digits_end(source@, pos as int) == digits_end(source@, end as int),
                    decreases length - end,
                {
                    end = end + 1;
                }
                match parse_decimal(source, pos, end) {
                    Some(n) => {
                        self.position = if end < length {
                            end + 1
                        } else {
                            end
                        };
                        return Some(Token::Number(n));
                    },
                    None => {
                        self.position = length;
                        return None;
                    },
                }
            } else if is_alphabetic(c) {
                let mut end = pos + 1;
                while end < length && !is_whitespace(source.get_char(end))
                    invariant
                        pos < end <= length,
                        length == source@.len(),
                        word_end(source@, pos + 1) == word_end(source@, end as int),
                    decreases length - end,
                {
                    end = end + 1;
                }
                let word = String::from_str(source.substring_char(pos, end));
                self.position = if end < length {
                    end + 1
                } else {
                    end
                };
                return Some(Token::Identifier(word));
            }
            pos = pos + 1;
        }
        self.position = pos;
        None
    }

    /// Whether the character at `at` is a digit.
    fn digit_at(source: &str, at: usize) -> (b: bool)
        requires
            at < source@.len(),
        ensures
            b == is_digit(source@[at as int]),
    {
        let c = source.get_char(at);
        c >= '0' && c <= '9'
    }
}

/// The register that the token `t` names.
fn register_from(t: &Option<Token>) -> (r: Option<Register>)
    ensures
        r == register_of(
            match t {
                Some(t) => Some(t@),
                None => None,
            },
        ),
{
    match t {
        Some(Token::Identifier(name)) => match Register::from_name(name.as_str()) {
            Ok(r) => Some(r),
            Err(_) => None,
        },
        Some(Token::Number(n)) => match Register::from_index(*n) {
            Ok(r) => Some(r),
            Err(_) => None,
        },
        _ => None,
    }
}

/// The number that the token `t` is.
fn number_from(t: &Option<Token>) -> (r: Option<u32>)
    ensures
        r == number_of(
            match t {
                Some(t) => Some(t@),
                None => None,
            },
        ),
{
    match t {
        Some(Token::Number(n)) => Some(*n),
        _ => None,
    }
}

/// Reads the command that the line `input` holds, if it holds one.
pub fn parse_command(input: &str) -> (r: Option<Command>)
    ensures
        r == command_spec(input@),
{
    let mut t = Tokenizer::new(input);
    match t.next() {
        Some(Token::Bang) => {},
        _ => {
            return None;
        },
    }
    let second = t.next();
    let third = t.next();
    let fourth = t.next();
    match second {
        Some(Token::Plus) => {
            let register = register_from(&third);
            let value = number_from(&fourth);
            match (register, value) {
                (Some(register), Some(value)) => Some(Command::SetRegister(register, value)),
                _ => None,
            }
        },
        Some(Token::At) => {
            let address = number_from(&third);
            let byte = number_from(&fourth);
            match (address, byte) {
                (Some(address), Some(byte)) => Some(
                    Command::SetMemory(address, #[verifier::truncate] ((byte & 0xff) as u8)),
                ),
                _ => None,
            }
        },
        _ => None,
    }
}

} // verus!

verus! {

/// What the debugger does after a line of input.
#[derive(Debug, PartialEq)]
pub enum Action {
    /// Asks for the next line.
    Input,
    /// Carries out one instruction.
    Step,
    /// Ends the session.
    Quit,
    /// Shows lines, then asks for the next line.
    Inspect(Vec<String>),
}

/// The machine state after the command `cmd`: a register set, or a byte of
/// the memory set where the address lies within the memory.
pub open spec fn command_effect(s: crate::vm::MachineState, cmd: Command) -> crate::vm::MachineState {
    match cmd {
        Command::SetRegister(register, value) => if register == Register::X0 {
            s
        } else {
            crate::vm::MachineState {
                regs: s.regs.update(register.index_spec(), value),
                mem: s.mem,
            }
        },
        Command::SetMemory(address, byte) => if crate::memory::in_bounds(s.mem, address, 1) {
            s.with_mem(crate::memory::write_byte(s.mem, address, byte))
        } else {
            s
        },
    }
}

/// Carries out the command that the line `input` holds. A line that holds
/// no command, and a byte for an address outside the memory, leave `vm` as
/// it is. No command asks for an action of its own.
pub fn apply_command(input: &str, vm: &mut crate::vm::VM) -> (r: Option<Action>)
    ensures
        r.is_none(),
        final(vm).last == old(vm).last,
        final(vm).state() == (match command_spec(input@) {
            Some(cmd) => command_effect(old(vm).state(), cmd),
            None => old(vm).state(),
        }),
{
    match parse_command(input) {
        Some(Command::SetRegister(register, value)) => {
            vm.cpu.register.set(register, value);
        },
        Some(Command::SetMemory(address, byte)) => {
            let _ = vm.ram.set_byte_at(address, byte);
        },
        None => {},
    }
    None
}

/// What a line of input asks of the debugger: a line that starts with `!`
/// is a command, `q` ends the session, an empty line steps; anything else
/// is unknown.
pub open spec fn line_kind(input: Seq<char>) -> Option<Action> {
    if input.len() > 0 && input[0] == 'q' {
        Some(Action::Quit)
    } else if input.len() > 0 && input[0] == '\n' {
        Some(Action::Step)
    } else if input.len() > 0 && input[0] == '!' {
        Some(Action::Input)
    } else {
        None
    }
}

/// Decides what a line of input asks for, and carries out the command of a
/// line that starts with `!`. `None` stands for a line that is not known;
/// such a line changes nothing.
pub fn interpret_line(input: &str, vm: &mut crate::vm::VM) -> (r: Option<Action>)
    ensures
        r == line_kind(input@),
        final(vm).last == old(vm).last,
        final(vm).state() == (if input@.len() > 0 && input@[0] == '!' {
            match command_spec(input@) {
                Some(cmd) => command_effect(old(vm).state(), cmd),
                None => old(vm).state(),
            }
        } else {
            old(vm).state()
        }),
{
    if input.unicode_len() == 0 {
        return None;
    }
    let first = input.get_char(0);
    if first == '!' {
        match apply_command(input, vm) {
            None => Some(Action::Input),
            Some(action) => Some(action),
        }
    } else if first == 'q' {
        Some(Action::Quit)
    } else if first == '\n' {
        Some(Action::Step)
    } else {
        None
    }
}

} // verus!
