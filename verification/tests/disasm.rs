use brrrt_core::disasm::{branch, disassemble, is_disassemblable, jump, math, memory, upper};
use brrrt_core::rv32i::instr::instruction::Instruction;

fn parse(raw: u32) -> Instruction {
    Instruction::parse(raw).expect("unable to parse")
}

#[test]
fn bne() {
    let raw = 0x00d60463;
    let i = Instruction::parse(raw).expect("unable to parse");
    let expected = "beq\tx12, x13, 8".to_owned(); // skip next (jal)
    assert_eq!(branch::disassemble(i), expected);

    let raw = 0xffdff06f;
    let i = Instruction::parse(raw).expect("unable to parse");
    let expected = "jal x0, -4".to_owned(); // because it'll be added to PC
    assert_eq!(jump::unconditional(i), expected);
}

#[test]
fn bne_12() {
    let raw = 0x00d60463;
    let i = Instruction::parse(raw).expect("unable to parse");
    let expected = "beq\tx12, x13, 8".to_owned(); // skip next (jal)
    assert_eq!(branch::disassemble(i), expected);

    let raw = 0x0080006f;
    let i = Instruction::parse(raw).expect("unable to parse");
    let expected = "jal x0, 8".to_owned(); // because it'll be added to PC
    assert_eq!(jump::unconditional(i), expected);
}

#[test]
fn bne_32() {
    let raw = 0x00d60463;
    let i = Instruction::parse(raw).expect("unable to parse");
    let expected = "beq\tx12, x13, 8".to_owned(); // skip next (jal)
    assert_eq!(branch::disassemble(i), expected);

    let raw = 0x01c0006f;
    let i = Instruction::parse(raw).expect("unable to parse");
    let expected = "jal x0, 28".to_owned(); // because it'll be added to PC
    assert_eq!(jump::unconditional(i), expected);
}

#[test]
fn beq() {
    let raw = 0x00d61463;
    let i = Instruction::parse(raw).expect("unable to parse");
    let expected = "bne\tx12, x13, 8".to_owned(); // skip next (jal)
    assert_eq!(branch::disassemble(i), expected);

    let raw = 0xffdff06f;
    let i = Instruction::parse(raw).expect("unable to parse");
    let expected = "jal x0, -4".to_owned(); // because it'll be added to PC
    assert_eq!(jump::unconditional(i), expected);
}

#[test]
fn beq_32() {
    let raw = 0x00d61463;
    let i = Instruction::parse(raw).expect("unable to parse");
    let expected = "bne\tx12, x13, 8".to_owned(); // skip next (jal)
    assert_eq!(branch::disassemble(i), expected);

    let raw = 0x01c0006f;
    let i = Instruction::parse(raw).expect("unable to parse");
    let expected = "jal x0, 28".to_owned(); // because it'll be added to PC
    assert_eq!(jump::unconditional(i), expected);
}

#[test]
fn blt() {
    let raw = 0x00d65463;
    let i = Instruction::parse(raw).expect("unable to parse");
    let expected = "bge\tx12, x13, 8".to_owned(); // skip next (jal)
    assert_eq!(branch::disassemble(i), expected);

    let raw = 0xffdff06f;
    let i = Instruction::parse(raw).expect("unable to parse");
    let expected = "jal x0, -4".to_owned(); // because it'll be added to PC
    assert_eq!(jump::unconditional(i), expected);
}

#[test]
fn every_branch_has_its_mnemonic() {
    assert_eq!(branch::disassemble(parse(0x00d64463)), "blt\tx12, x13, 8");
    assert_eq!(branch::disassemble(parse(0x00d66463)), "bltu\tx12, x13, 8");
    assert_eq!(branch::disassemble(parse(0x00d67463)), "bgeu\tx12, x13, 8");
    // bne x1, x2, -12
    assert_eq!(branch::disassemble(parse(0xfe209ae3)), "bne\tx1, x2, -12");
    assert_eq!(branch::branch_name(0b010), None);
    assert_eq!(branch::branch_name(0b011), None);
    assert!(!is_disassemblable(&parse(0x00d62463)));
}

#[test]
fn to_zero() {
    let raw = 0x0000006f;
    let i = Instruction::parse(raw).expect("unable to parse");
    let expected = "jal x0, 0".to_owned();
    assert_eq!(jump::unconditional(i), expected);
}

#[test]
fn to_immediate_8() {
    let raw = 0x0080066f;
    let i = Instruction::parse(raw).expect("unable to parse");
    let expected = "jal x12, 8".to_owned();
    assert_eq!(jump::unconditional(i), expected);
}

#[test]
fn to_immediate_16() {
    let raw = 0x0100006f;
    let i = Instruction::parse(raw).expect("unable to parse");
    let expected = "jal x0, 16".to_owned();
    assert_eq!(jump::unconditional(i), expected);
}

#[test]
fn to_immediate_24() {
    let raw = 0x018006ef;
    let i = Instruction::parse(raw).expect("unable to parse");
    let expected = "jal x13, 24".to_owned();
    assert_eq!(jump::unconditional(i), expected);
}

#[test]
fn to_immediate_32() {
    let raw = 0x020006ef;
    let i = Instruction::parse(raw).expect("unable to parse");
    let expected = "jal x13, 32".to_owned();
    assert_eq!(jump::unconditional(i), expected);
}

#[test]
fn to_immediate_48() {
    let raw = 0x030006ef;
    let i = Instruction::parse(raw).expect("unable to parse");
    let expected = "jal x13, 48".to_owned();
    assert_eq!(jump::unconditional(i), expected);
}

#[test]
fn to_immediate_64() {
    let raw = 0x040006ef;
    let i = Instruction::parse(raw).expect("unable to parse");
    let expected = "jal x13, 64".to_owned();
    assert_eq!(jump::unconditional(i), expected);
}

#[test]
fn to_immediate_128() {
    let raw = 0x080006ef;
    let i = Instruction::parse(raw).expect("unable to parse");
    let expected = "jal x13, 128".to_owned();
    assert_eq!(jump::unconditional(i), expected);
}

#[test]
fn jump_to_zero() {
    let raw = 0x000680e7;
    let i = Instruction::parse(raw).expect("unable to parse");
    let expected = "jalr x1, x13, 0".to_owned();
    assert_eq!(jump::register(i), expected);
}

#[test]
fn to_immediate_4() {
    let raw = 0x004680e7;
    let i = Instruction::parse(raw).expect("unable to parse");
    let expected = "jalr x1, x13, 4".to_owned();
    assert_eq!(jump::register(i), expected);
}

#[test]
fn jump_to_immediate_8() {
    let raw = 0x00868667;
    let i = Instruction::parse(raw).expect("unable to parse");
    let expected = "jalr x12, x13, 8".to_owned();
    assert_eq!(jump::register(i), expected);
}

#[test]
fn jump_to_immediate_16() {
    let raw = 0x01068667;
    let i = Instruction::parse(raw).expect("unable to parse");
    let expected = "jalr x12, x13, 16".to_owned();
    assert_eq!(jump::register(i), expected);
}

#[test]
fn to_immediate_162() {
    let raw = 0x0a268667;
    let i = Instruction::parse(raw).expect("unable to parse");
    let expected = "jalr x12, x13, 162".to_owned();
    assert_eq!(jump::register(i), expected);
}

#[test]
fn far_jumps() {
    // the largest and the smallest offset of a jump
    assert_eq!(jump::unconditional(parse(0x7ffff0ef)), "jal x1, 1048574");
    assert_eq!(jump::unconditional(parse(0x800000ef)), "jal x1, 1048576");
    assert_eq!(jump::unconditional(parse(0x801000ef)), "jal x1, -1046528");
    assert_eq!(jump::register(parse(0xfff680e7)), "jalr x1, x13, 4095");
}

#[test]
fn normal() {
    let raw = 0x00d00093; // addi x1, x0, 13
    let i = Instruction::parse(raw).expect("unable to parse");
    let expected = "addi x1, x0, 13".to_owned();
    assert_eq!(math::immediate(i), expected);
}

#[test]
fn shift() {
    let raw = 0x00c09a93; // slli x21, x1, 12
    let i = Instruction::parse(raw).expect("unable to parse");
    let expected = "slli x21, x1, 12".to_owned();
    assert_eq!(math::immediate(i), expected);
}

#[test]
fn disasm_add() {
    let raw = 0x003100b3; // add x1, x2, x3
    let i = Instruction::parse(raw).expect("unable to parse");
    let expected = "add x1, x2, x3".to_owned();
    assert_eq!(math::register(i), expected);
}

#[test]
fn every_operation_has_its_mnemonic() {
    let register = [
        (0x003100b3, "add x1, x2, x3"),
        (0x403100b3, "sub x1, x2, x3"),
        (0x003110b3, "sll x1, x2, x3"),
        (0x003120b3, "slt x1, x2, x3"),
        (0x003130b3, "sltu x1, x2, x3"),
        (0x003140b3, "xor x1, x2, x3"),
        (0x003150b3, "srl x1, x2, x3"),
        (0x403150b3, "sra x1, x2, x3"),
        (0x003160b3, "or x1, x2, x3"),
        (0x003170b3, "and x1, x2, x3"),
    ];
    for (raw, text) in register {
        assert_eq!(math::register(parse(raw)), text);
        assert_eq!(disassemble(parse(raw)), text);
    }
    let immediate = [
        (0x00d00093, "addi x1, x0, 13"),
        (0xfff10113, "addi x2, x2, 4095"),
        (0x00d02093, "slti x1, x0, 13"),
        (0x00d03093, "sltiu x1, x0, 13"),
        (0x00d04093, "xori x1, x0, 13"),
        (0x00d06093, "ori x1, x0, 13"),
        (0x00d07093, "andi x1, x0, 13"),
        (0x00c09a93, "slli x21, x1, 12"),
        (0x00c0da93, "srli x21, x1, 12"),
        (0x40c0da93, "srai x21, x1, 12"),
    ];
    for (raw, text) in immediate {
        assert_eq!(math::immediate(parse(raw)), text);
        assert_eq!(disassemble(parse(raw)), text);
    }
    assert_eq!(math::math_name(0b000, 0b0100000), Some("sub"));
    assert_eq!(math::math_name(0b001, 0b0100000), None);
    assert_eq!(math::immediate_name(0b101, 0b0100000_00011), Some("srai"));
    assert_eq!(math::immediate_name(0b101, 0b0000001_00011), None);
    assert_eq!(math::immediate_name(0b111, 0xfff), Some("andi"));
}

#[test]
fn load_ld_0() {
    let raw = 0x0006b603;
    let i = Instruction::parse(raw).expect("unable to parse");
    let expected = "ld x12, 0(x13)".to_owned();
    assert_eq!(memory::load(i), expected);
}

#[test]
fn load_ld_13() {
    let raw = 0x00c6b603;
    let i = Instruction::parse(raw).expect("unable to parse");
    let expected = "ld x12, 12(x13)".to_owned();
    assert_eq!(memory::load(i), expected);
}

#[test]
fn load_lb_0() {
    let raw = 0x00068603;
    let i = Instruction::parse(raw).expect("unable to parse");
    let expected = "lb x12, 0(x13)".to_owned();
    assert_eq!(memory::load(i), expected);
}

#[test]
fn load_lb_13() {
    let raw = 0x00c68603;
    let i = Instruction::parse(raw).expect("unable to parse");
    let expected = "lb x12, 12(x13)".to_owned();
    assert_eq!(memory::load(i), expected);
}

#[test]
fn test_sd_0() {
    let raw = 0x0100b023;
    let i = Instruction::parse(raw).expect("unable to parse");
    let expected = "sd x16, 0(x1)".to_owned();
    assert_eq!(memory::store(i), expected);
}

#[test]
fn test_sd_32() {
    let raw = 0x0300b023;
    let i = Instruction::parse(raw).expect("unable to parse");
    let expected = "sd x16, 32(x1)".to_owned();
    assert_eq!(memory::store(i), expected);
}

#[test]
fn every_load_and_store_has_its_mnemonic() {
    assert_eq!(memory::load(parse(0x00c69603)), "lh x12, 12(x13)");
    assert_eq!(memory::load(parse(0x00c6a603)), "lw x12, 12(x13)");
    assert_eq!(memory::load(parse(0x00c6c603)), "lbu x12, 12(x13)");
    assert_eq!(memory::load(parse(0x00c6d603)), "lhu x12, 12(x13)");
    assert_eq!(memory::load(parse(0xfe06a603)), "lw x12, 4064(x13)");
    assert_eq!(memory::store(parse(0x00282023)), "sw x2, 0(x16)");
    assert_eq!(memory::store(parse(0x00281023)), "sh x2, 0(x16)");
    assert_eq!(memory::store(parse(0x002806a3)), "sb x2, 13(x16)");
    assert_eq!(memory::store(parse(0xfe282023)), "sw x2, 4064(x16)");
    assert_eq!(memory::load_name(0b110), None);
    assert_eq!(memory::load_name(0b111), None);
    assert_eq!(memory::store_name(0b100), None);
    assert!(!is_disassemblable(&parse(0x00c6e603)));
    assert!(!is_disassemblable(&parse(0x00284023)));
}

#[test]
fn upper_immediate_0() {
    let raw = 0x000000b7;
    let i = Instruction::parse(raw).expect("should parse");
    let expected = "lui x1, 0".to_owned();
    assert_eq!(upper::load(i), expected);
}

#[test]
fn upper_immediate_1312() {
    let raw = 0x005200b7;
    let i = Instruction::parse(raw).expect("should parse");
    let expected = "lui x1, 1312".to_owned();
    assert_eq!(upper::load(i), expected);
}

#[test]
fn upper_immediate_13_12() {
    let raw = 0x0000c6b7;
    let i = Instruction::parse(raw).expect("should parse");
    let expected = "lui x13, 12".to_owned();
    assert_eq!(upper::load(i), expected);
}

#[test]
fn upper_upper_immediate_0() {
    let raw = 0x00000097;
    let i = Instruction::parse(raw).expect("should parse");
    let expected = "auipc x1, 0".to_owned();
    assert_eq!(upper::add(i), expected);
}

#[test]
fn upper_upper_immediate_1312() {
    let raw = 0x00520097;
    let i = Instruction::parse(raw).expect("should parse");
    let expected = "auipc x1, 1312".to_owned();
    assert_eq!(upper::add(i), expected);
}

#[test]
fn upper_upper_immediate_13_12() {
    let raw = 0x0000c697;
    let i = Instruction::parse(raw).expect("should parse");
    let expected = "auipc x13, 12".to_owned();
    assert_eq!(upper::add(i), expected);
}

#[test]
fn a_program_is_disassembled_word_by_word() {
    let code = [
        (0x00300093, "addi x1, x0, 3"),
        (0x00110113, "addi x2, x2, 1"),
        (0xfe209ae3, "bne\tx1, x2, -12"),
        (0x00208133, "add x2, x1, x2"),
        (0x00282023, "sw x2, 0(x16)"),
        (0x0080006f, "jal x0, 8"),
        (0xfffff0b7, "lui x1, 1048575"),
        (0x00008067, "jalr x0, x1, 0"),
    ];
    for (raw, text) in code {
        let i = parse(raw);
        assert!(is_disassemblable(&i));
        assert_eq!(disassemble(i), text);
    }
    // fence, ecall and ebreak have no text
    for raw in [0x0000000f, 0x00000073, 0x00100073] {
        assert!(!is_disassemblable(&parse(raw)));
    }
}
