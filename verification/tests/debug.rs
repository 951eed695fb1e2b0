use brrrt_core::debug::{binary, number, BinaryFormattable};
use brrrt_core::debugger::render;
use brrrt_core::cpu::Register;
use brrrt_core::loader::RuntimeError;
use brrrt_core::rv32i::instr::instruction::{Instruction, InstructionError};
use brrrt_core::rv32i::instr::operation::Operation;
use brrrt_core::rv32i::instr::part::Part;
use brrrt_core::vm::VM;

#[test]
fn binary_groups_by_four() {
    assert_eq!(binary(5u32, 8), "0b0000_0101");
    assert_eq!(binary(5u32, 5), "0b0_0101");
    assert_eq!(binary(5u32, 4), "0b0101");
    assert_eq!(binary(5u32, 3), "0b101");
    assert_eq!(binary(5u32, 0), "0b101");
    assert_eq!(binary(0u32, 0), "0b0");
    assert_eq!(binary(0u32, 12), "0b0000_0000_0000");
    assert_eq!(binary(0x1fu32, 3), "0b1_1111");
    assert_eq!(binary(0x00d00093u32, 32), "0b0000_0000_1101_0000_0000_0000_1001_0011");
    assert_eq!(
        binary(u32::MAX, 40),
        "0b0000_0000_1111_1111_1111_1111_1111_1111_1111_1111"
    );
    assert_eq!(binary(5u32, 8), format!("0b{}", "0000_0101"));
}

#[test]
fn binary_of_signed_numbers() {
    assert_eq!(binary(5i32, 8), "0b0000_0101");
    assert_eq!(binary(-1i32, 8), "0b1111_1111_1111_1111_1111_1111_1111_1111");
    assert_eq!(binary(-6i32, 3), "0b1111_1111_1111_1111_1111_1111_1111_1010");
    assert_eq!(binary(i32::MIN, 0), "0b1000_0000_0000_0000_0000_0000_0000_0000");
    assert_eq!((-6i32).format(4), (0xffff_fffau32).format(4));
    assert_eq!(17u32.format(6), "0b01_0001");
}

#[test]
fn number_adds_the_decimal() {
    assert_eq!(number(5u32, 8), "0b0000_0101 (5)");
    assert_eq!(number(0u32, 3), "0b000 (0)");
    assert_eq!(number(1312u32, 12), "0b0101_0010_0000 (1312)");
    assert_eq!(
        number(u32::MAX, 0),
        "0b1111_1111_1111_1111_1111_1111_1111_1111 (4294967295)"
    );
    assert_eq!(
        number(-6i32, 8),
        "0b1111_1111_1111_1111_1111_1111_1111_1010 (-6)"
    );
    assert_eq!(
        number(i32::MIN, 8),
        "0b1000_0000_0000_0000_0000_0000_0000_0000 (-2147483648)"
    );
    assert_eq!(number(13i32, 5), "0b0_1101 (13)");
    assert_eq!(13i32.decimal(), "13");
    assert_eq!((-13i32).decimal(), "-13");
    assert_eq!(4000000000u32.decimal(), "4000000000");
}

#[test]
fn errors_describe_themselves() {
    assert_eq!(
        InstructionError::InvalidOperation(Operation::Store).message(),
        "Invalid operation: Store"
    );
    assert_eq!(
        InstructionError::InvalidOperation(Operation::ImmediateMath).message(),
        format!("Invalid operation: {:?}", Operation::ImmediateMath)
    );
    assert_eq!(
        InstructionError::InvalidArgument(Part::Imm3112).message(),
        "Unknown argument: Imm3112"
    );
    assert_eq!(
        InstructionError::UnknownOperation(4294967295).message(),
        "Unknown operation: 4294967295"
    );
    assert_eq!(InstructionError::InvalidRegister.message(), "Invalid register");
    assert_eq!(InstructionError::InvalidMemory.message(), "Invalid memory");
    assert_eq!(InstructionError::Value.message(), "Unable to extract value");
    assert_eq!(InstructionError::Get.message(), "Unable to get part");
    assert_eq!(
        InstructionError::Parse.message(),
        "Unable to parse instruction"
    );
    assert_eq!(RuntimeError::Usage.message(), "Runtime error: unexpected usage");
    assert_eq!(RuntimeError::Read.message(), "Runtime error: read error");
    assert_eq!(RuntimeError::Load.message(), "Runtime error: load error");
    assert_eq!(
        RuntimeError::Execution.message(),
        "Runtime error: execution aborted"
    );
}

#[test]
fn labels_are_the_names_of_the_variants() {
    for op in [Operation::LUI, Operation::Math, Operation::Call, Operation::FENCE] {
        assert_eq!(op.label(), format!("{:?}", op));
        assert_eq!(op.format().label(), format!("{:?}", op.format()));
    }
    for part in [Part::Null, Part::Opcode, Part::Imm1912, Part::B20j, Part::B11b] {
        assert_eq!(part.label(), format!("{:?}", part));
    }
}

#[test]
fn the_prompt() {
    assert_eq!(render::prompt(), vec!["> ".to_owned()]);
}

#[test]
fn messages_carry_a_coloured_label() {
    let lines = render::error("unable to read input");
    assert_eq!(lines.len(), 1);
    assert!(lines[0].contains("[ERROR]"));
    assert!(lines[0].ends_with(" unable to read input"));
    // the label is wrapped in escape sequences
    assert_ne!(lines[0], "[ERROR] unable to read input");
    assert!(lines[0].starts_with("\x1b["));

    let lines = render::warning("unknown command");
    assert_eq!(lines.len(), 1);
    assert!(lines[0].contains("[WARNING]"));
    assert!(lines[0].ends_with(" unknown command"));
    assert_ne!(lines[0], "[WARNING] unknown command");
    assert!(lines[0].starts_with("\x1b["));
}

#[test]
fn registers_are_shown_in_binary_and_decimal() {
    let mut vm: VM = Default::default();
    vm.cpu.initialize();
    vm.cpu.register.set(Register::PC, 8);
    vm.cpu.register.set(Register::X14, 7);

    let line = render::register(Register::X2, &vm);
    assert_eq!(line.len(), 1);
    assert!(line[0].contains("X2:"));
    assert!(!line[0].contains("X2: "));
    assert!(line[0].ends_with(" 0b0000_0000_0000_0000_0000_0100_0000_0000 (1024)"));
    assert!(line[0].starts_with("\x1b["));

    let lines = render::registers(&vm);
    assert_eq!(lines.len(), 5);
    assert!(lines[0].contains("PC: "));
    assert!(lines[0].ends_with(" 0b0000_0000_0000_0000_0000_0000_0000_1000 (8)"));
    assert!(lines[1].contains("X2: "));
    assert!(lines[1].ends_with(" (1024)"));
    assert!(lines[2].contains("X8: "));
    assert!(lines[3].contains("X15:"));
    assert!(!lines[3].contains("X15: "));
    assert!(lines[4].contains("X14:"));
    assert!(lines[4].ends_with(" 0b0000_0000_0000_0000_0000_0000_0000_0111 (7)"));
}

#[test]
fn the_instruction_is_shown_with_its_word() {
    let i = Instruction::parse(0x003100b3).unwrap();
    let lines = render::instruction(&i);
    assert_eq!(lines.len(), 2);
    assert!(lines[0].contains("inst:"));
    assert!(lines[0]
        .ends_with(" Instruction { opcode: Math, raw: 3211443, format: Register2register }"));
    assert!(lines[1].contains("raw:"));
    assert!(lines[1].ends_with("  0b0000_0000_0011_0001_0000_0000_1011_0011 (3211443)"));
}

#[test]
fn the_memory_is_shown_in_rows_of_four() {
    let mut vm: VM = Default::default();
    vm.ram.set_byte_at(5, 161).unwrap();
    let lines = render::memory(&vm);
    assert_eq!(lines.len(), 5);
    for (row, line) in lines.iter().enumerate() {
        for col in 0..4 {
            assert!(line.contains(&format!("{:04}:", 4 * row + col)));
        }
        assert!(!line.contains(&format!("{:04}:", 4 * row + 4)));
    }
    // a byte in a column of 18 characters
    assert!(lines[0].contains(" 0b0000_0000 (0)   \x1b"));
    assert!(lines[1].contains(" 0b1010_0001 (161) \x1b"));
    assert!(lines[1].ends_with(" 0b0000_0000 (0)   "));

    let lines = render::memory_at(1016, &vm);
    assert_eq!(lines.len(), 5);
    assert!(lines[0].contains("1016:"));
    assert!(lines[1].contains("1023:"));
    assert!(lines[1].contains("(0)"));
    // behind the end of the memory there is nothing to show
    assert!(lines[2].contains("1024:"));
    assert!(lines[2].contains(" ---               \x1b"));
    assert!(!lines[2].contains("(0)"));
    assert!(lines[4].contains("1035:"));

    let lines = render::memory_at(99998, &vm);
    assert!(lines[0].contains("99998:"));
}

#[test]
fn the_screen_is_laid_out_in_blocks() {
    let mut vm: VM = Default::default();
    let mut ahead: VM = Default::default();
    let none: Vec<String> = Vec::new();

    // nothing was stepped yet: memory, registers, prompt
    let blocks = render::screen(true, &vm, &ahead, &none);
    assert_eq!(blocks.len(), 3);
    assert_eq!(blocks[0].at, render::Position { x: 0, y: 0 });
    assert_eq!(blocks[0].lines.len(), 5);
    assert_eq!(blocks[1].at, render::Position { x: 100, y: 0 });
    assert_eq!(blocks[1].lines.len(), 5);
    assert_eq!(blocks[2].at, render::Position { x: 0, y: 6 });
    assert_eq!(blocks[2].lines, vec!["> ".to_owned()]);

    // the instruction that comes next moves the prompt down
    let i = Instruction::parse(0x00d00093).unwrap();
    ahead.execute(i).unwrap();
    let messages = vec!["one".to_owned(), "two".to_owned()];
    let blocks = render::screen(true, &vm, &ahead, &messages);
    assert_eq!(blocks.len(), 5);
    assert_eq!(blocks[0].at, render::Position { x: 0, y: 6 });
    assert_eq!(blocks[0].lines.len(), 2);
    assert!(blocks[0].lines[0].contains("opcode: ImmediateMath"));
    assert_eq!(blocks[1].at, render::Position { x: 0, y: 0 });
    assert_eq!(blocks[2].at, render::Position { x: 100, y: 0 });
    assert_eq!(blocks[3].at, render::Position { x: 0, y: 9 });
    assert_eq!(blocks[3].lines, messages);
    assert_eq!(blocks[4].at, render::Position { x: 0, y: 8 });
    assert_eq!(blocks[4].lines, vec!["> ".to_owned()]);

    // a program that is done shows no instruction
    vm.cpu.register.set(Register::X2, 5);
    let blocks = render::screen(false, &vm, &ahead, &messages);
    assert_eq!(blocks.len(), 4);
    assert_eq!(blocks[0].at, render::Position { x: 0, y: 0 });
    assert!(blocks[1].lines[1].ends_with(" (5)"));
    assert_eq!(blocks[2].at, render::Position { x: 0, y: 7 });
    assert_eq!(blocks[3].at, render::Position { x: 0, y: 6 });
}
