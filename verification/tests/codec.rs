use brrrt_core::rv32i::instr::builder::Builder;
use brrrt_core::rv32i::instr::format::Format;
use brrrt_core::rv32i::instr::instruction::{Instruction, InstructionError};
use brrrt_core::rv32i::instr::operation::{Operation, OperationError};
use brrrt_core::rv32i::instr::part::Part;

#[test]
fn upper_immediate_parts() {
    let fmt = Format::UpperImmediate;
    let parts = fmt.get();
    assert_eq!(parts.len(), 3, "got: {}", parts.len());
}

#[test]
fn upper_immediate_parts_extraction() {
    let fmt = Format::UpperImmediate;
    let instr = 224; // 00000000000000000000000011100000;
    for part in fmt.get() {
        match part {
            Part::Opcode => assert_eq!(0b00000000000000000000000001100000, part.get(instr)),
            Part::Dest => assert_eq!(0b00000000000000000000000010000000, part.get(instr)),
            Part::Imm3112 => assert_eq!(0b00000000000000000000000000000000, part.get(instr)),
            _ => assert!(false, "should not happen"),
        }
    }
}

#[test]
fn jump_parts() {
    let fmt = Format::Jump;
    assert_eq!(fmt.get().len(), 6);
}

#[test]
fn format_upper_immediate_parts() {
    assert_eq!(
        Format::UpperImmediate.get(),
        vec![Part::Opcode, Part::Dest, Part::Imm3112]
    );
}

#[test]
fn format_upper_immediate_parts_extraction() {
    let instr = 0xfffff_0b7; // lui x1, 0xfffff
    for part in Format::UpperImmediate.get() {
        match part {
            Part::Opcode => assert_eq!(0b0110111, part.value(instr)),
            Part::Dest => assert_eq!(1, part.value(instr)),
            Part::Imm3112 => assert_eq!(0xfffff, part.value(instr)),
            _ => assert!(false, "should not happen"),
        }
    }
}

#[test]
fn format_jump_parts() {
    assert_eq!(
        Format::Jump.get(),
        vec![
            Part::Opcode,
            Part::Dest,
            Part::Imm1912,
            Part::B11j,
            Part::Imm101,
            Part::B20j
        ]
    );
}

#[test]
fn every_format_lists_its_parts() {
    assert_eq!(
        Format::Register2register.get(),
        vec![
            Part::Opcode,
            Part::Dest,
            Part::Funct3,
            Part::Reg1,
            Part::Reg2,
            Part::Funct7
        ]
    );
    assert_eq!(
        Format::Immediate.get(),
        vec![
            Part::Opcode,
            Part::Dest,
            Part::Funct3,
            Part::Reg1,
            Part::Imm110
        ]
    );
    assert_eq!(
        Format::Store.get(),
        vec![
            Part::Opcode,
            Part::Imm40,
            Part::Funct3,
            Part::Reg1,
            Part::Reg2,
            Part::Imm115
        ]
    );
    assert_eq!(
        Format::Branch.get(),
        vec![
            Part::Opcode,
            Part::B11b,
            Part::Imm41,
            Part::Funct3,
            Part::Reg1,
            Part::Reg2,
            Part::Imm105,
            Part::B12b
        ]
    );
}

#[test]
fn branch() {
    let i = Instruction::parse(
        Builder::opcode(Operation::Branch)
            .pack(Part::B11b, 0)
            .pack(Part::Imm41, 0b1000)
            .pack(Part::Imm105, 0b000000)
            .pack(Part::B12b, 0)
            .build(),
    )
    .expect("should parse");

    // the four pieces, each in its place of the 13-bit offset
    let value = 0
        | (i.value(Part::B12b).expect("invalid B12b") << 12)
        | (i.value(Part::B11b).expect("invalid B11b") << 11)
        | (i.value(Part::Imm105).expect("invalid Imm105") << 5)
        | (i.value(Part::Imm41).expect("invalid Imm41") << 1);

    assert_eq!(value, 0b0000000010000);
    assert_eq!(i.value(Part::Imm41).unwrap(), 0b1000);
}

#[test]
fn lui_extract() {
    let part = Part::Opcode;
    let op = Operation::LUI.code();

    assert_eq!(op, part.get(op));
}

#[test]
fn opcodes_are_bit_exact() {
    assert_eq!(Operation::LUI.code(), 0b0110111);
    assert_eq!(Operation::AUIPC.code(), 0b0010111);
    assert_eq!(Operation::JAL.code(), 0b1101111);
    assert_eq!(Operation::JALR.code(), 0b1100111);
    assert_eq!(Operation::FENCE.code(), 0b0001111);
    assert_eq!(Operation::Branch.code(), 0b1100011);
    assert_eq!(Operation::Load.code(), 0b0000011);
    assert_eq!(Operation::Store.code(), 0b0100011);
    assert_eq!(Operation::ImmediateMath.code(), 0b0010011);
    assert_eq!(Operation::Math.code(), 0b0110011);
    assert_eq!(Operation::Call.code(), 0b1110011);
}

#[test]
fn opcodes_choose_the_format() {
    assert_eq!(Operation::LUI.format(), Format::UpperImmediate);
    assert_eq!(Operation::AUIPC.format(), Format::UpperImmediate);
    assert_eq!(Operation::JAL.format(), Format::Jump);
    assert_eq!(Operation::JALR.format(), Format::Immediate);
    assert_eq!(Operation::FENCE.format(), Format::Immediate);
    assert_eq!(Operation::Branch.format(), Format::Branch);
    assert_eq!(Operation::Load.format(), Format::Immediate);
    assert_eq!(Operation::Store.format(), Format::Store);
    assert_eq!(Operation::ImmediateMath.format(), Format::Immediate);
    assert_eq!(Operation::Math.format(), Format::Register2register);
    assert_eq!(Operation::Call.format(), Format::Immediate);
}

#[test]
fn every_opcode_decodes_to_itself() {
    let all = [
        Operation::LUI,
        Operation::AUIPC,
        Operation::JAL,
        Operation::JALR,
        Operation::FENCE,
        Operation::Branch,
        Operation::Load,
        Operation::Store,
        Operation::ImmediateMath,
        Operation::Math,
        Operation::Call,
    ];
    for op in all {
        assert_eq!(Operation::from_code(op.code()), Ok(op));
        assert_eq!(Operation::from_code(op.code() | 0xffff_ff80), Ok(op));
        assert_eq!(Instruction::parse(op.code()).unwrap().opcode, op);
    }
}

#[test]
fn unknown_opcodes_are_rejected() {
    assert_eq!(
        Operation::from_code(0),
        Err(OperationError::UnknownOpcode(0))
    );
    assert_eq!(
        Operation::from_code(0b1000011),
        Err(OperationError::UnknownOpcode(0b1000011))
    );
    assert_eq!(
        Instruction::parse(0xffff_ffff),
        Err(InstructionError::UnknownOperation(0xffff_ffff))
    );
    let mut known = 0;
    for code in 0..128u32 {
        if Instruction::parse(code).is_ok() {
            known += 1;
        }
    }
    assert_eq!(known, 11);
}

#[test]
fn null_is_zero() {
    let part = Part::Null;
    assert_eq!(part as u32, 0);
    assert_eq!(Part::Null.mask(), 0);
    assert_eq!(Part::Null.value(0xffff_ffff), 0);
}

#[test]
fn part_opcode_extracts_7bit_opcode() {
    let part = Part::Opcode;

    let actual = part.get(1);
    assert_eq!(actual, 1, "actual: {}", actual);

    let actual = part.get(4);
    assert_eq!(actual, 4, "actual: {}", actual);

    let actual = part.get(8);
    assert_eq!(actual, 8, "actual: {}", actual);

    let actual = part.get(16);
    assert_eq!(actual, 16, "actual: {}", actual);

    let actual = part.get(32);
    assert_eq!(actual, 32, "actual: {}", actual);

    let actual = part.get(64);
    assert_eq!(actual, 64, "actual: {}", actual);

    let actual = part.get(127);
    assert_eq!(actual, 127, "actual: {}", actual);
}

#[test]
fn part_opcode_extracts_7bit_opcode_expected_wrap() {
    let part = Part::Opcode;

    // Expect wrap
    let actual = part.get(128);
    assert_eq!(actual, 0, "actual: {}", actual);

    let actual = part.get(129);
    assert_eq!(actual, 1, "actual: {}", actual);
}

#[test]
fn masks_and_shifts_are_bit_exact() {
    let table = [
        (Part::Opcode, 0x0000_007f, 0),
        (Part::Dest, 0x0000_0f80, 7),
        (Part::Funct3, 0x0000_7000, 12),
        (Part::Reg1, 0x000f_8000, 15),
        (Part::Reg2, 0x01f0_0000, 20),
        (Part::Funct7, 0xfe00_0000, 25),
        (Part::Imm110, 0xfff0_0000, 20),
        (Part::Imm3112, 0xffff_f000, 12),
        (Part::Imm40, 0x0000_0f80, 7),
        (Part::Imm115, 0xfe00_0000, 25),
        (Part::B11b, 0x0000_0080, 7),
        (Part::Imm41, 0x0000_0f00, 8),
        (Part::Imm105, 0x7e00_0000, 25),
        (Part::B12b, 0x8000_0000, 31),
        (Part::Imm1912, 0x000f_f000, 12),
        (Part::B11j, 0x0010_0000, 20),
        (Part::Imm101, 0x7fe0_0000, 21),
        (Part::B20j, 0x8000_0000, 31),
    ];
    for (part, mask, shift) in table {
        assert_eq!(part.mask(), mask, "{:?}", part);
        assert_eq!(part.shift(), shift, "{:?}", part);
        assert_eq!(part.value(0xffff_ffff), mask >> shift, "{:?}", part);
        assert_eq!(part.get(0xffff_ffff), mask, "{:?}", part);
    }
}

#[test]
fn test_add_immediate() {
    let raw = 0b011111111111_00010_000_00001_0010011; // ADDI rd=1 rs=2 imm=whatever
    let inst = Instruction::parse(raw).expect("valid instruction");

    assert_eq!(inst.get(Part::Opcode).unwrap(), 0b0010011);
    assert_eq!(inst.value(Part::Opcode).unwrap(), 0b0010011);

    assert_eq!(inst.get(Part::Dest).unwrap(), 0b000001_0000000);
    assert_eq!(inst.value(Part::Dest).unwrap(), 1);

    assert_eq!(inst.get(Part::Funct3).unwrap(), 0b000_000000_0000000);
    assert_eq!(inst.value(Part::Funct3).unwrap(), 0);

    let reg1 = inst.get(Part::Reg1).unwrap();
    let expected = 0b00010_000_00000_0000000;
    assert_eq!(
        reg1, expected,
        "got: {:#034b}, want: {:#034b}",
        reg1, expected
    );
    assert_eq!(inst.value(Part::Reg1).unwrap(), 2);

    assert_eq!(
        inst.get(Part::Imm110).unwrap(),
        0b011111111111_00000_000_00000_0000000
    );
    assert_eq!(inst.value(Part::Imm110).unwrap(), 0b011111111111);
}

#[test]
fn add_immediate() {
    let raw = 0x00d00093; // addi x1, x0, 13
    let inst = Instruction::parse(raw).expect("valid instruction");
    assert_eq!(inst.opcode, Operation::ImmediateMath);
    assert_eq!(inst.raw, raw);
    assert_eq!(inst.format(), Format::Immediate);
    assert_eq!(inst.value(Part::Dest).unwrap(), 1);
    assert_eq!(inst.value(Part::Reg1).unwrap(), 0);
    assert_eq!(inst.value(Part::Funct3).unwrap(), 0);
    assert_eq!(inst.value(Part::Imm110).unwrap(), 13);
}

#[test]
fn fields_outside_the_format_are_refused() {
    let inst = Instruction::parse(0x00d00093).expect("valid instruction");
    assert_eq!(inst.value(Part::Reg2), Err(InstructionError::Value));
    assert_eq!(inst.value(Part::Funct7), Err(InstructionError::Value));
    assert_eq!(inst.value(Part::Imm3112), Err(InstructionError::Value));
    assert_eq!(inst.value(Part::Null), Err(InstructionError::Value));
    assert_eq!(inst.get(Part::Reg2), Err(InstructionError::Get));
    assert_eq!(inst.get(Part::B12b), Err(InstructionError::Get));
}

#[test]
fn test_add_reg2reg() {
    let slt = Builder::opcode(Operation::Math)
        .pack(Part::Dest, 2)
        .pack(Part::Funct3, 0b010)
        .pack(Part::Reg1, 13)
        .pack(Part::Reg2, 12)
        .pack(Part::Funct7, 0)
        .build();
    let inst = Instruction::parse(slt).expect("valid instruction");

    assert_eq!(inst.opcode, Operation::Math);

    assert_eq!(inst.value(Part::Dest).unwrap(), 2);
    assert_eq!(inst.value(Part::Funct3).unwrap(), 0b010);
    assert_eq!(inst.value(Part::Reg1).unwrap(), 13);
    assert_eq!(inst.value(Part::Reg2).unwrap(), 12);
    assert_eq!(inst.value(Part::Funct7).unwrap(), 0);
}

#[test]
fn add_reg2reg() {
    let add = Builder::opcode(Operation::Math)
        .pack(Part::Dest, 1)
        .pack(Part::Funct3, 0b000)
        .pack(Part::Reg1, 2)
        .pack(Part::Reg2, 3)
        .pack(Part::Funct7, 0)
        .build();
    assert_eq!(add, 0x003100b3); // add x1, x2, x3
}

#[test]
fn test_pack_zero_reg1() {
    let i = Builder::opcode(Operation::Math).pack(Part::Reg1, 0).build();
    let p = Instruction::parse(i).unwrap();
    assert_eq!(p.value(Part::Reg1).unwrap(), 0);
}

#[test]
fn test_pack_x1_reg1() {
    let i = Builder::opcode(Operation::Math).pack(Part::Reg1, 1).build();
    let p = Instruction::parse(i).unwrap();
    assert_eq!(p.value(Part::Reg1).unwrap(), 1);
}

#[test]
fn test_pack_x16_reg1() {
    let i = Builder::opcode(Operation::Math)
        .pack(Part::Reg1, 16)
        .build();
    let p = Instruction::parse(i).unwrap();
    assert_eq!(p.value(Part::Reg1).unwrap(), 16);
}

#[test]
fn test_pack_x31_reg1() {
    let i = Builder::opcode(Operation::Math)
        .pack(Part::Reg1, 31)
        .build();
    let p = Instruction::parse(i).unwrap();
    assert_eq!(p.value(Part::Reg1).unwrap(), 31);
}

#[test]
fn test_pack_zero_reg2() {
    let i = Builder::opcode(Operation::Math).pack(Part::Reg2, 0).build();
    let p = Instruction::parse(i).unwrap();
    assert_eq!(p.value(Part::Reg2).unwrap(), 0);
}

#[test]
fn test_pack_x1_reg2() {
    let i = Builder::opcode(Operation::Math).pack(Part::Reg2, 1).build();
    let p = Instruction::parse(i).unwrap();
    assert_eq!(p.value(Part::Reg2).unwrap(), 1);
}

#[test]
fn test_pack_x16_reg2() {
    let i = Builder::opcode(Operation::Math)
        .pack(Part::Reg2, 16)
        .build();
    let p = Instruction::parse(i).unwrap();
    assert_eq!(p.value(Part::Reg2).unwrap(), 16);
}

#[test]
fn test_pack_x31_reg2() {
    let i = Builder::opcode(Operation::Math)
        .pack(Part::Reg2, 31)
        .build();
    let p = Instruction::parse(i).unwrap();
    assert_eq!(p.value(Part::Reg2).unwrap(), 31);
}

#[test]
fn test_pack_zero_reg_dest() {
    let i = Builder::opcode(Operation::Math).pack(Part::Dest, 0).build();
    let p = Instruction::parse(i).unwrap();
    assert_eq!(p.value(Part::Dest).unwrap(), 0);
}

#[test]
fn test_pack_x1_reg_dest() {
    let i = Builder::opcode(Operation::Math).pack(Part::Dest, 1).build();
    let p = Instruction::parse(i).unwrap();
    assert_eq!(p.value(Part::Dest).unwrap(), 1);
}

#[test]
fn test_pack_x16_reg_dest() {
    let i = Builder::opcode(Operation::Math)
        .pack(Part::Dest, 16)
        .build();
    let p = Instruction::parse(i).unwrap();
    assert_eq!(p.value(Part::Dest).unwrap(), 16);
}

#[test]
fn test_pack_x31_reg_dest() {
    let i = Builder::opcode(Operation::Math)
        .pack(Part::Dest, 31)
        .build();
    let p = Instruction::parse(i).unwrap();
    assert_eq!(p.value(Part::Dest).unwrap(), 31);
}

#[test]
fn test_pack_imm110_zero_unsigned() {
    let i = Builder::opcode(Operation::ImmediateMath)
        .pack(Part::Imm110, 0)
        .build();
    let p = Instruction::parse(i).unwrap();
    assert_eq!(p.value(Part::Imm110).unwrap(), 0);
}

#[test]
fn test_pack_imm110_one_unsigned() {
    let i = Builder::opcode(Operation::ImmediateMath)
        .pack(Part::Imm110, 1)
        .build();
    let p = Instruction::parse(i).unwrap();
    assert_eq!(p.value(Part::Imm110).unwrap(), 1);
}

#[test]
fn test_pack_imm110_minus_one_signed() {
    let neg = -1;
    let pos = neg as u32;
    let i = Builder::opcode(Operation::ImmediateMath)
        .pack(Part::Imm110, pos)
        .build();
    let p = Instruction::parse(i).unwrap();

    let pres = p.value(Part::Imm110).unwrap();
    let nres = 4094 - pres as i32;
    assert_eq!(pres, 4095);
    assert_eq!(nres, -1);
}

#[test]
fn set() {
    let i = Builder::opcode(Operation::JAL).pack(Part::B20j, 1).build();
    let p = Instruction::parse(i).unwrap();
    assert_eq!(p.value(Part::B20j).unwrap(), 1);
}

#[test]
fn unset() {
    let i = Builder::opcode(Operation::JAL).pack(Part::B20j, 0).build();
    let p = Instruction::parse(i).unwrap();
    assert_eq!(p.value(Part::B20j).unwrap(), 0);
}

#[test]
fn builder_packs_over_what_is_there() {
    assert_eq!(Builder::new(0x1234).build(), 0x1234);
    assert_eq!(Builder::new(0).pack(Part::Dest, 0b10101).build(), 0b10101 << 7);
    // a value wider than its field is cut to the field
    assert_eq!(Builder::new(0).pack(Part::Dest, 0xffff_ffff).build(), 0xf80);
    // a second value for the same field is merged with the first
    assert_eq!(
        Builder::new(0).pack(Part::Funct3, 0b001).pack(Part::Funct3, 0b100).build(),
        0b101 << 12
    );
}

#[test]
fn every_field_of_every_format_reads_back() {
    let cases: Vec<(Operation, Vec<(Part, u32)>)> = vec![
        (
            Operation::Math,
            vec![
                (Part::Dest, 31),
                (Part::Funct3, 5),
                (Part::Reg1, 17),
                (Part::Reg2, 9),
                (Part::Funct7, 0x7f),
            ],
        ),
        (
            Operation::Load,
            vec![
                (Part::Imm110, 0xabc),
                (Part::Reg1, 1),
                (Part::Funct3, 2),
                (Part::Dest, 30),
            ],
        ),
        (
            Operation::LUI,
            vec![(Part::Imm3112, 0xfedcb), (Part::Dest, 21)],
        ),
        (
            Operation::Store,
            vec![
                (Part::Imm40, 0x15),
                (Part::Imm115, 0x5a),
                (Part::Reg2, 3),
                (Part::Reg1, 28),
                (Part::Funct3, 1),
            ],
        ),
        (
            Operation::Branch,
            vec![
                (Part::B12b, 1),
                (Part::B11b, 0),
                (Part::Imm105, 0x2a),
                (Part::Imm41, 0x9),
                (Part::Reg1, 12),
                (Part::Reg2, 13),
                (Part::Funct3, 7),
            ],
        ),
        (
            Operation::JAL,
            vec![
                (Part::B20j, 1),
                (Part::Imm1912, 0xa5),
                (Part::B11j, 1),
                (Part::Imm101, 0x2aa),
                (Part::Dest, 1),
            ],
        ),
    ];
    for (op, fields) in cases {
        let mut b = Builder::opcode(op);
        for (part, value) in &fields {
            b = b.pack(*part, *value);
        }
        let i = Instruction::parse(b.build()).expect("should parse");
        assert_eq!(i.opcode, op);
        assert_eq!(i.value(Part::Opcode).unwrap(), op.code());
        for (part, value) in &fields {
            assert_eq!(i.value(*part).unwrap(), *value, "{:?} {:?}", op, part);
        }
    }
}

#[test]
fn operations_convert_from_words() {
    assert_eq!(Operation::try_from(0x00d00093u32), Ok(Operation::ImmediateMath));
    assert_eq!(Operation::try_from(0x00282023u32), Ok(Operation::Store));
    assert_eq!(
        Operation::try_from(0x1234_567fu32),
        Err(OperationError::UnknownOpcode(0x1234_567f))
    );
    assert_eq!(
        InstructionError::from(OperationError::UnknownOpcode(9)),
        InstructionError::UnknownOperation(9)
    );
    assert_eq!(
        InstructionError::from(brrrt_core::cpu::RegisterError::UnknownRegister),
        InstructionError::InvalidRegister
    );
    assert_eq!(
        InstructionError::from(brrrt_core::memory::MemoryError::OutOfBounds),
        InstructionError::InvalidMemory
    );
}
