//! The fields of an instruction word. Each field is a run of adjacent bits,
//! given by a mask and by the shift that brings its lowest bit to bit 0.

use vstd::prelude::*;

verus! {

/// A field of an instruction word.
#[derive(Debug, Clone, Copy, PartialEq, Eq, Structural)]
pub enum Part {
    /// No bits.
    Null,
    /// Bits 6..0.
    Opcode,
    /// Bits 11..7, the destination register.
    Dest,
    /// Bits 19..15, the first source register.
    Reg1,
    /// Bits 24..20, the second source register.
    Reg2,
    /// Bits 14..12.
    Funct3,
    /// Bits 31..25.
    Funct7,
    /// Bits 31..20, immediate bits 11..0.
    Imm110,
    /// Bits 31..12, immediate bits 31..12.
    Imm3112,
    /// Bits 11..7, store immediate bits 4..0.
    Imm40,
    /// Bits 11..8, branch immediate bits 4..1.
    Imm41,
    /// Bits 30..25, branch immediate bits 10..5.
    Imm105,
    /// Bits 31..25, store immediate bits 11..5.
    Imm115,
    /// Bits 19..12, jump immediate bits 19..12.
    Imm1912,
    /// Bits 30..21, jump immediate bits 10..1.
    Imm101,
    /// Bit 7, branch immediate bit 11.
    B11b,
    /// Bit 31, branch immediate bit 12.
    B12b,
    /// Bit 20, jump immediate bit 11.
    B11j,
    /// Bit 31, jump immediate bit 20.
    B20j,
}

/// The bits of `word` selected by `mask`, brought down by `shift`.
pub open spec fn extract(word: u32, mask: u32, shift: u32) -> u32 {
    (word & mask) >> shift
}

/// `value` brought up by `shift` and cut to `mask`.
pub open spec fn pack(value: u32, mask: u32, shift: u32) -> u32 {
    (value << shift) & mask
}

impl Part {
    /// The name of the field's variant.
    pub open spec fn label_spec(self) -> Seq<char> {
        match self {
            Part::Null => "Null"@,
            Part::Opcode => "Opcode"@,
            Part::Dest => "Dest"@,
            Part::Reg1 => "Reg1"@,
            Part::Reg2 => "Reg2"@,
            Part::Funct3 => "Funct3"@,
            Part::Funct7 => "Funct7"@,
            Part::Imm110 => "Imm110"@,
            Part::Imm3112 => "Imm3112"@,
            Part::Imm40 => "Imm40"@,
            Part::Imm41 => "Imm41"@,
            Part::Imm105 => "Imm105"@,
            Part::Imm115 => "Imm115"@,
            Part::Imm1912 => "Imm1912"@,
            Part::Imm101 => "Imm101"@,
            Part::B11b => "B11b"@,
            Part::B12b => "B12b"@,
            Part::B11j => "B11j"@,
            Part::B20j => "B20j"@,
        }
    }

    /// The name of the field's variant.
    pub fn label(&self) -> (s: &'static str)
        ensures
            s@ == self.label_spec(),
    {
        match self {
            Part::Null => "Null",
            Part::Opcode => "Opcode",
            Part::Dest => "Dest",
            Part::Reg1 => "Reg1",
            Part::Reg2 => "Reg2",
            Part::Funct3 => "Funct3",
            Part::Funct7 => "Funct7",
            Part::Imm110 => "Imm110",
            Part::Imm3112 => "Imm3112",
            Part::Imm40 => "Imm40",
            Part::Imm41 => "Imm41",
            Part::Imm105 => "Imm105",
            Part::Imm115 => "Imm115",
            Part::Imm1912 => "Imm1912",
            Part::Imm101 => "Imm101",
            Part::B11b => "B11b",
            Part::B12b => "B12b",
            Part::B11j => "B11j",
            Part::B20j => "B20j",
        }
    }

    /// The bits of the word that the field occupies.
    pub open spec fn mask_spec(self) -> u32 {
        match self {
            Part::Null => 0x00000000,
            Part::Opcode => 0x0000007f,
            Part::Dest => 0x00000f80,
            Part::Reg1 => 0x000f8000,
            Part::Reg2 => 0x01f00000,
            Part::Funct3 => 0x00007000,
            Part::Funct7 => 0xfe000000,
            Part::Imm110 => 0xfff00000,
            Part::Imm3112 => 0xfffff000,
            Part::Imm40 => 0x00000f80,
            Part::Imm41 => 0x00000f00,
            Part::Imm105 => 0x7e000000,
            Part::Imm115 => 0xfe000000,
            Part::Imm1912 => 0x000ff000,
            Part::Imm101 => 0x7fe00000,
            Part::B11b => 0x00000080,
            Part::B12b => 0x80000000,
            Part::B11j => 0x00100000,
            Part::B20j => 0x80000000,
        }
    }

    /// The position of the field's lowest bit.
    pub open spec fn shift_spec(self) -> u32 {
        match self {
            Part::Null => 0,
            Part::Opcode => 0,
            Part::Dest => 7,
            Part::Reg1 => 15,
            Part::Reg2 => 20,
            Part::Funct3 => 12,
            Part::Funct7 => 25,
            Part::Imm110 => 20,
            Part::Imm3112 => 12,
            Part::Imm40 => 7,
            Part::Imm41 => 8,
            Part::Imm105 => 25,
            Part::Imm115 => 25,
            Part::Imm1912 => 12,
            Part::Imm101 => 21,
            Part::B11b => 7,
            Part::B12b => 31,
            Part::B11j => 20,
            Part::B20j => 31,
        }
    }

    /// The largest value that fits the field.
    pub open spec fn max_value(self) -> u32 {
        match self {
            Part::Opcode => 0x7f,
            Part::Dest => 0x1f,
            Part::Reg1 => 0x1f,
            Part::Reg2 => 0x1f,
            Part::Funct3 => 0x7,
            Part::Funct7 => 0x7f,
            Part::Imm110 => 0xfff,
            Part::Imm3112 => 0xfffff,
            Part::Imm40 => 0x1f,
            Part::Imm41 => 0xf,
            Part::Imm105 => 0x3f,
            Part::Imm115 => 0x7f,
            Part::Imm1912 => 0xff,
            Part::Imm101 => 0x3ff,
            Part::B11b => 0x1,
            Part::B12b => 0x1,
            Part::B11j => 0x1,
            Part::B20j => 0x1,
            Part::Null => 0x0,
        }
    }

    /// The field's bits of `from`, left in place.
    pub open spec fn get_spec(self, from: u32) -> u32 {
        from & self.mask_spec()
    }

    /// The number that the field of `from` holds.
    pub open spec fn value_spec(self, from: u32) -> u32 {
        extract(from, self.mask_spec(), self.shift_spec())
    }

    /// The bits of the word that the field occupies.
    pub fn mask(&self) -> (m: u32)
        ensures
            m == self.mask_spec(),
    {
        match self {
            Part::Null => 0x00000000,
            Part::Opcode => 0x0000007f,
            Part::Dest => 0x00000f80,
            Part::Reg1 => 0x000f8000,
            Part::Reg2 => 0x01f00000,
            Part::Funct3 => 0x00007000,
            Part::Funct7 => 0xfe000000,
            Part::Imm110 => 0xfff00000,
            Part::Imm3112 => 0xfffff000,
            Part::Imm40 => 0x00000f80,
            Part::Imm41 => 0x00000f00,
            Part::Imm105 => 0x7e000000,
            Part::Imm115 => 0xfe000000,
            Part::Imm1912 => 0x000ff000,
            Part::Imm101 => 0x7fe00000,
            Part::B11b => 0x00000080,
            Part::B12b => 0x80000000,
            Part::B11j => 0x00100000,
            Part::B20j => 0x80000000,
        }
    }

    /// The position of the field's lowest bit.
    pub fn shift(&self) -> (s: u32)
        ensures
            s == self.shift_spec(),
            s < 32,
    {
        match self {
            Part::Null => 0,
            Part::Opcode => 0,
            Part::Dest => 7,
            Part::Reg1 => 15,
            Part::Reg2 => 20,
            Part::Funct3 => 12,
            Part::Funct7 => 25,
            Part::Imm110 => 20,
            Part::Imm3112 => 12,
            Part::Imm40 => 7,
            Part::Imm41 => 8,
            Part::Imm105 => 25,
            Part::Imm115 => 25,
            Part::Imm1912 => 12,
            Part::Imm101 => 21,
            Part::B11b => 7,
            Part::B12b => 31,
            Part::B11j => 20,
            Part::B20j => 31,
        }
    }

    /// The field's bits of `from`, left in place.
    pub fn get(&self, from: u32) -> (bits: u32)
        ensures
            bits == self.get_spec(from),
    {
        from & self.mask()
    }

    /// The number that the field of `from` holds.
    pub fn value(&self, from: u32) -> (v: u32)
        ensures
            v == self.value_spec(from),
    {
        (from & self.mask()) >> self.shift()
    }
}

} // verus!
