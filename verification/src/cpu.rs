//! The register file: 32 general registers and the program counter.
//! Register `X0` is hardwired to zero: it reads as 0 and writes to it are
//! discarded.

use crate::memory::DEFAULT_MEMORY_POOL_SIZE;
use crate::text::{decimal, decimal_u32, parse_decimal, push_decimal};
use vstd::prelude::*;
use vstd::string::{StrSliceExecFns, StringExecFns};

verus! {

/// The distance between two instructions, in bytes.
pub const REGISTER_INCREMENT: u32 = 4;

/// The number of slots in the register file.
pub const REGISTER_COUNT: usize = 33;

/// Why a register could not be named.
#[derive(Debug, Clone, Copy, PartialEq, Eq, Structural)]
pub enum RegisterError {
    /// The index is not one of 0 to 31.
    UnknownRegister,
    /// The text is neither `PC` nor an `x` followed by a number.
    InvalidName,
}

/// A register: `X0` to `X31`, or the program counter.
#[derive(Debug, Clone, Copy, PartialEq, Eq, Structural)]
#[allow(dead_code)]
pub enum Register {
    X0,
    X1,
    X2,
    X3,
    X4,
    X5,
    X6,
    X7,
    X8,
    X9,
    X10,
    X11,
    X12,
    X13,
    X14,
    X15,
    X16,
    X17,
    X18,
    X19,
    X20,
    X21,
    X22,
    X23,
    X24,
    X25,
    X26,
    X27,
    X28,
    X29,
    X30,
    X31,
    PC,
}

impl Register {
    /// The slot of the register: `Xn` has slot n, and `PC` slot 32.
    pub open spec fn index_spec(self) -> int {
        match self {
            Register::X0 => 0,
            Register::X1 => 1,
            Register::X2 => 2,
            Register::X3 => 3,
            Register::X4 => 4,
            Register::X5 => 5,
            Register::X6 => 6,
            Register::X7 => 7,
            Register::X8 => 8,
            Register::X9 => 9,
            Register::X10 => 10,
            Register::X11 => 11,
            Register::X12 => 12,
            Register::X13 => 13,
            Register::X14 => 14,
            Register::X15 => 15,
            Register::X16 => 16,
            Register::X17 => 17,
            Register::X18 => 18,
            Register::X19 => 19,
            Register::X20 => 20,
            Register::X21 => 21,
            Register::X22 => 22,
            Register::X23 => 23,
            Register::X24 => 24,
            Register::X25 => 25,
            Register::X26 => 26,
            Register::X27 => 27,
            Register::X28 => 28,
            Register::X29 => 29,
            Register::X30 => 30,
            Register::X31 => 31,
            Register::PC => 32,
        }
    }

    /// The general register with slot `raw`.
    pub open spec fn general(raw: int) -> Register {
        if raw == 0 {
            Register::X0
        }         else if raw == 1 {
            Register::X1
        }         else if raw == 2 {
            Register::X2
        }         else if raw == 3 {
            Register::X3
        }         else if raw == 4 {
            Register::X4
        }         else if raw == 5 {
            Register::X5
        }         else if raw == 6 {
            Register::X6
        }         else if raw == 7 {
            Register::X7
        }         else if raw == 8 {
            Register::X8
        }         else if raw == 9 {
            Register::X9
        }         else if raw == 10 {
            Register::X10
        }         else if raw == 11 {
            Register::X11
        }         else if raw == 12 {
            Register::X12
        }         else if raw == 13 {
            Register::X13
        }         else if raw == 14 {
            Register::X14
        }         else if raw == 15 {
            Register::X15
        }         else if raw == 16 {
            Register::X16
        }         else if raw == 17 {
            Register::X17
        }         else if raw == 18 {
            Register::X18
        }         else if raw == 19 {
            Register::X19
        }         else if raw == 20 {
            Register::X20
        }         else if raw == 21 {
            Register::X21
        }         else if raw == 22 {
            Register::X22
        }         else if raw == 23 {
            Register::X23
        }         else if raw == 24 {
            Register::X24
        }         else if raw == 25 {
            Register::X25
        }         else if raw == 26 {
            Register::X26
        }         else if raw == 27 {
            Register::X27
        }         else if raw == 28 {
            Register::X28
        }         else if raw == 29 {
            Register::X29
        }         else if raw == 30 {
            Register::X30
        } else {
            Register::X31
        }
    }

    /// The slot of the register.
    pub fn index(self) -> (i: u32)
        ensures
            i == self.index_spec(),
            i <= 32,
    {
        match self {
            Register::X0 => 0,
            Register::X1 => 1,
            Register::X2 => 2,
            Register::X3 => 3,
            Register::X4 => 4,
            Register::X5 => 5,
            Register::X6 => 6,
            Register::X7 => 7,
            Register::X8 => 8,
            Register::X9 => 9,
            Register::X10 => 10,
            Register::X11 => 11,
            Register::X12 => 12,
            Register::X13 => 13,
            Register::X14 => 14,
            Register::X15 => 15,
            Register::X16 => 16,
            Register::X17 => 17,
            Register::X18 => 18,
            Register::X19 => 19,
            Register::X20 => 20,
            Register::X21 => 21,
            Register::X22 => 22,
            Register::X23 => 23,
            Register::X24 => 24,
            Register::X25 => 25,
            Register::X26 => 26,
            Register::X27 => 27,
            Register::X28 => 28,
            Register::X29 => 29,
            Register::X30 => 30,
            Register::X31 => 31,
            Register::PC => 32,
        }
    }

    /// The general register that a 5-bit instruction field names. `PC` has
    /// no index here: only 0 to 31 are accepted.
    pub fn from_index(raw: u32) -> (r: Result<Register, RegisterError>)
        ensures
            match r {
                Ok(reg) => raw <= 31 && reg == Register::general(raw as int) && reg.index_spec()
                    == raw,
                Err(e) => raw > 31 && e == RegisterError::UnknownRegister,
            },
    {
        match raw {
            0 => Ok(Register::X0),
            1 => Ok(Register::X1),
            2 => Ok(Register::X2),
            3 => Ok(Register::X3),
            4 => Ok(Register::X4),
            5 => Ok(Register::X5),
            6 => Ok(Register::X6),
            7 => Ok(Register::X7),
            8 => Ok(Register::X8),
            9 => Ok(Register::X9),
            10 => Ok(Register::X10),
            11 => Ok(Register::X11),
            12 => Ok(Register::X12),
            13 => Ok(Register::X13),
            14 => Ok(Register::X14),
            15 => Ok(Register::X15),
            16 => Ok(Register::X16),
            17 => Ok(Register::X17),
            18 => Ok(Register::X18),
            19 => Ok(Register::X19),
            20 => Ok(Register::X20),
            21 => Ok(Register::X21),
            22 => Ok(Register::X22),
            23 => Ok(Register::X23),
            24 => Ok(Register::X24),
            25 => Ok(Register::X25),
            26 => Ok(Register::X26),
            27 => Ok(Register::X27),
            28 => Ok(Register::X28),
            29 => Ok(Register::X29),
            30 => Ok(Register::X30),
            31 => Ok(Register::X31),
            _ => Err(RegisterError::UnknownRegister),
        }
    }
}

/// The name of a register: `PC`, or `x` and the decimal slot number.
pub open spec fn register_name(r: Register) -> Seq<char> {
    if r == Register::PC {
        seq!['P', 'C']
    } else {
        seq!['x'] + decimal(r.index_spec() as nat)
    }
}

/// The digits of a register name: what follows the leading `x` or `X`, and
/// a plus sign if one comes next.
pub open spec fn name_digits(name: Seq<char>) -> Seq<char> {
    if name.len() >= 2 && name[1] == '+' {
        name.skip(2)
    } else {
        name.skip(1)
    }
}

/// Whether `name` is an `x` or `X` followed by at least one character.
pub open spec fn is_general_name(name: Seq<char>) -> bool {
    name.len() >= 2 && (name[0] == 'x' || name[0] == 'X')
}

/// The register that `name` stands for: `PC` as written, or an `x` in
/// either case followed by a decimal number from 0 to 31, which may have a
/// plus sign and leading zeros.
pub open spec fn parse_register(name: Seq<char>) -> Result<Register, RegisterError> {
    if name == seq!['P', 'C'] {
        Ok(Register::PC)
    } else if !is_general_name(name) {
        Err(RegisterError::InvalidName)
    } else {
        match decimal_u32(name_digits(name)) {
            None => Err(RegisterError::InvalidName),
            Some(index) => if index > 31 {
                Err(RegisterError::UnknownRegister)
            } else {
                Ok(Register::general(index as int))
            },
        }
    }
}

impl Register {
    /// The name of the register.
    pub fn name(self) -> (s: String)
        ensures
            s@ == register_name(self),
    {
        match self {
            Register::PC => {
                proof {
                    reveal_strlit("PC");
                }
                let s = String::from_str("PC");
                assert(s@ =~= seq!['P', 'C']);
                s
            },
            _ => {
                proof {
                    reveal_strlit("x");
                }
                let mut s = String::from_str("x");
                assert(s@ =~= seq!['x']);
                push_decimal(&mut s, self.index() as u64);
                s
            },
        }
    }

    /// The name of the register's variant: `X7`, `PC`.
    pub open spec fn label_spec(self) -> Seq<char> {
        if self == Register::PC {
            seq!['P', 'C']
        } else {
            seq!['X'] + decimal(self.index_spec() as nat)
        }
    }

    /// The name of the register's variant: `X7`, `PC`.
    pub fn label(self) -> (s: String)
        ensures
            s@ == self.label_spec(),
    {
        match self {
            Register::PC => {
                proof {
                    reveal_strlit("PC");
                }
                let s = String::from_str("PC");
                assert(s@ =~= seq!['P', 'C']);
                s
            },
            _ => {
                proof {
                    reveal_strlit("X");
                }
                let mut s = String::from_str("X");
                assert(s@ =~= seq!['X']);
                push_decimal(&mut s, self.index() as u64);
                s
            },
        }
    }

    /// The register that `name` stands for.
    pub fn from_name(name: &str) -> (r: Result<Register, RegisterError>)
        ensures
            r == parse_register(name@),
    {
        let len = name.unicode_len();
        proof {
            reveal_strlit("PC");
        }
        if len == 2 && name.get_char(0) == 'P' && name.get_char(1) == 'C' {
            assert(name@ =~= seq!['P', 'C']);
            return Ok(Register::PC);
        }
        if len < 2 {
            return Err(RegisterError::InvalidName);
        }
        let first = name.get_char(0);
        if first != 'x' && first != 'X' {
            return Err(RegisterError::InvalidName);
        }
        let start: usize = if name.get_char(1) == '+' {
            2
        } else {
            1
        };
        assert(name_digits(name@) =~= name@.subrange(start as int, len as int));
        match parse_decimal(name, start, len) {
            None => Err(RegisterError::InvalidName),
            Some(index) => {
                if index > 31 {
                    Err(RegisterError::UnknownRegister)
                } else {
                    Register::from_index(index)
                }
            },
        }
    }
}

/// The general register with index `raw`.
pub open spec fn register_from_index(raw: u32) -> Result<Register, RegisterError> {
    if raw <= 31 {
        Ok(Register::general(raw as int))
    } else {
        Err(RegisterError::UnknownRegister)
    }
}

impl TryFrom<u32> for Register {
    type Error = RegisterError;

    /// The general register that a 5-bit instruction field names.
    fn try_from(raw: u32) -> (r: Result<Self, RegisterError>) {
        Register::from_index(raw)
    }
}

impl vstd::std_specs::convert::TryFromSpecImpl<u32> for Register {
    open spec fn obeys_try_from_spec() -> bool {
        true
    }

    open spec fn try_from_spec(raw: u32) -> Result<Self, RegisterError> {
        register_from_index(raw)
    }
}

impl TryFrom<String> for Register {
    type Error = RegisterError;

    /// The register that `regname` stands for.
    fn try_from(regname: String) -> (r: Result<Self, RegisterError>) {
        Register::from_name(regname.as_str())
    }
}

impl vstd::std_specs::convert::TryFromSpecImpl<String> for Register {
    open spec fn obeys_try_from_spec() -> bool {
        true
    }

    open spec fn try_from_spec(regname: String) -> Result<Self, RegisterError> {
        parse_register(regname@)
    }
}

/// The 33 register slots.
#[derive(Debug)]
pub struct Registers {
    data: [u32; 33],
}

impl View for Registers {
    type V = Seq<u32>;

    /// What the registers read as, by slot: slot 0 always reads as 0.
    closed spec fn view(&self) -> Seq<u32> {
        Seq::new(
            33,
            |i: int|
                if i == 0 {
                    0u32
                } else {
                    self.data@[i]
                },
        )
    }
}

impl Registers {
    /// What register `key` reads as.
    pub open spec fn get_spec(&self, key: Register) -> u32 {
        self@[key.index_spec()]
    }

    /// The view has one entry for each slot, and `X0` reads as zero.
    pub proof fn lemma_view(&self)
        ensures
            self@.len() == 33,
            self@[0] == 0,
            self.get_spec(Register::X0) == 0,
    {
    }

    /// Sets register `key` to `value`. A write to `X0` is discarded.
    pub fn set(&mut self, key: Register, value: u32)
        ensures
            final(self)@ == (if key == Register::X0 {
                old(self)@
            } else {
                old(self)@.update(key.index_spec(), value)
            }),
            final(self)@.len() == 33,
            final(self)@[0] == 0,
    {
        let slot = key.index();
        if slot != 0 {
            self.data[slot as usize] = value;
        }
        assert(final(self)@ =~= (if key == Register::X0 {
            old(self)@
        } else {
            old(self)@.update(key.index_spec(), value)
        }));
    }

    /// Reads register `key`. `X0` reads as zero.
    pub fn get(&self, key: Register) -> (value: u32)
        ensures
            value == self.get_spec(key),
            key == Register::X0 ==> value == 0,
    {
        let slot = key.index();
        if slot == 0 {
            0
        } else {
            self.data[slot as usize]
        }
    }
}

impl Default for Registers {
    /// All registers zero.
    fn default() -> (r: Self)
        ensures
            r@ == Seq::new(33, |i: int| 0u32),
    {
        let r = Registers { data: [0u32; 33] };
        assert(r@ =~= Seq::new(33, |i: int| 0u32));
        r
    }
}

/// The processor state: the register file.
#[derive(Debug)]
pub struct CPU {
    pub register: Registers,
}

impl CPU {
    /// Advances the program counter by one instruction, modulo 2^32.
    pub fn increment_pc(&mut self)
        ensures
            final(self).register@ == old(self).register@.update(
                32,
                crate::bitops::wrap32(old(self).register@[32] + REGISTER_INCREMENT),
            ),
    {
        proof {
            self.register.lemma_view();
        }
        let pc = self.register.get(Register::PC);
        self.register.set(Register::PC, pc.wrapping_add(REGISTER_INCREMENT));
    }

    /// Points the stack pointer `X2` at the end of a default memory.
    pub fn initialize(&mut self)
        ensures
            final(self).register@ == old(self).register@.update(2, DEFAULT_MEMORY_POOL_SIZE),
    {
        self.register.set(Register::X2, DEFAULT_MEMORY_POOL_SIZE);
    }
}

impl Default for CPU {
    /// All registers zero.
    fn default() -> (c: Self)
        ensures
            c.register@ == Seq::new(33, |i: int| 0u32),
    {
        CPU { register: Registers::default() }
    }
}

} // verus!
