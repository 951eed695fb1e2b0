use brrrt_core::cpu::Register;
use brrrt_core::rv32i::instr::builder::Builder;
use brrrt_core::rv32i::instr::instruction::{Instruction, InstructionError};
use brrrt_core::rv32i::instr::operation::Operation;
use brrrt_core::rv32i::instr::part::Part;
use brrrt_core::vm::VM;

struct Test {
    funct3: u32,
    left: u32,
    right: u32,
    address: u8,
    expected: u32,
}

fn mkinstr(test: &Test) -> Instruction {
    let a = test.address as u32;
    let im41 = if test.address > 16 {
        (a << 1) & 0b0000_0000_0000_0000_0000_0000_0001_1110
    } else {
        a
    };
    let im105 = if test.address > 16 { a >> 4 } else { 0 };
    Instruction::parse(
        Builder::opcode(Operation::Branch)
            .pack(Part::Funct3, test.funct3)
            .pack(Part::B11b, 0)
            .pack(Part::Imm41, im41)
            .pack(Part::Reg1, Register::X12 as u32)
            .pack(Part::Reg2, Register::X13 as u32)
            .pack(Part::Imm105, im105)
            .pack(Part::B12b, 0)
            .build(),
    )
    .expect("should parse")
}

fn apply(test: Test) {
    let i = mkinstr(&test);
    let mut vm: VM = Default::default();

    vm.cpu.register.set(Register::X12, test.left);
    vm.cpu.register.set(Register::X13, test.right);

    assert_eq!(vm.cpu.register.get(Register::PC), 0);
    vm.execute(i).expect("should execute");

    assert_eq!(vm.cpu.register.get(Register::PC), test.expected);
    assert_eq!(vm.cpu.register.get(Register::X12), test.left);
    assert_eq!(vm.cpu.register.get(Register::X13), test.right);
}

// BEQ

#[test]
fn zero_eq_zero() {
    apply(Test {
        funct3: 0b000,
        left: 0,
        right: 0,
        address: 12,
        expected: 24,
    });
}

#[test]
fn num_eq_num() {
    apply(Test {
        funct3: 0b000,
        left: 161,
        right: 161,
        address: 160,
        expected: 320,
    });
}

#[test]
fn num_neq_num() {
    apply(Test {
        funct3: 0b000,
        left: 13,
        right: 12,
        address: 160,
        expected: 4,
    });
}

// BNE

#[test]
fn branches_zero_eq_zero() {
    apply(Test {
        funct3: 0b001,
        left: 0,
        right: 0,
        address: 12,
        expected: 4,
    });
}

#[test]
fn branches_num_eq_num() {
    apply(Test {
        funct3: 0b001,
        left: 161,
        right: 161,
        address: 160,
        expected: 4,
    });
}

#[test]
fn branches_num_neq_num() {
    apply(Test {
        funct3: 0b001,
        left: 13,
        right: 12,
        address: 160,
        expected: 320,
    });
}

// BLT

#[test]
fn blt_zero_eq_zero() {
    apply(Test {
        funct3: 0b100,
        left: 0,
        right: 0,
        address: 12,
        expected: 4,
    });
}

#[test]
fn pos_neg() {
    let neg = -12;
    apply(Test {
        funct3: 0b100,
        left: neg as u32,
        right: 12,
        address: 12,
        expected: 24,
    });
}

// BLTU

#[test]
fn bltu_zero_eq_zero() {
    apply(Test {
        funct3: 0b110,
        left: 0,
        right: 0,
        address: 12,
        expected: 4,
    });
}

#[test]
fn branches_pos_neg() {
    let neg = -12;
    apply(Test {
        funct3: 0b110,
        left: neg as u32,
        right: 12,
        address: 12,
        expected: 4,
    });
}

// BGE: taken on equal operands too

#[test]
fn bge_zero_eq_zero() {
    apply(Test {
        funct3: 0b101,
        left: 0,
        right: 0,
        address: 12,
        expected: 24,
    });
}

#[test]
fn bge_pos_neg() {
    let neg = -12;
    apply(Test {
        funct3: 0b101,
        left: neg as u32,
        right: 12,
        address: 12,
        expected: 4,
    });
}

#[test]
fn bge_greater() {
    let neg = -12;
    apply(Test {
        funct3: 0b101,
        left: 12,
        right: neg as u32,
        address: 12,
        expected: 24,
    });
}

// BGEU: taken on equal operands too

#[test]
fn bgeu_zero_eq_zero() {
    apply(Test {
        funct3: 0b111,
        left: 0,
        right: 0,
        address: 12,
        expected: 24,
    });
}

#[test]
fn bgeu_pos_neg() {
    let neg = -12;
    apply(Test {
        funct3: 0b111,
        left: neg as u32,
        right: 12,
        address: 12,
        expected: 24,
    });
}

#[test]
fn bgeu_smaller() {
    apply(Test {
        funct3: 0b111,
        left: 11,
        right: 12,
        address: 12,
        expected: 4,
    });
}

// The offset of a branch is twice the number in its pieces, so no piece can
// ask for an odd address: 13 in the low piece is a branch by 26.

#[test]
fn zero_eq_zero_expects_address_multiple_of_2() {
    apply(Test {
        funct3: 0b000,
        left: 0,
        right: 0,
        address: 13,
        expected: 26,
    });
}

#[test]
fn branches_zero_eq_zero_expects_address_multiple_of_2() {
    apply(Test {
        funct3: 0b001,
        left: 0,
        right: 1,
        address: 13,
        expected: 26,
    });
}

#[test]
fn addr_not_multiple_of_2() {
    apply(Test {
        funct3: 0b100,
        left: 0,
        right: 0,
        address: 13,
        expected: 4,
    });
}

#[test]
fn branches_addr_not_multiple_of_2() {
    apply(Test {
        funct3: 0b110,
        left: 0,
        right: 0,
        address: 13,
        expected: 4,
    });
}

#[test]
fn branch_backwards() {
    // bne x1, x2, -12
    let i = Instruction::parse(0xfe209ae3).expect("should parse");
    let mut vm: VM = Default::default();
    vm.cpu.register.set(Register::PC, 24);
    vm.cpu.register.set(Register::X1, 12);
    vm.cpu.register.set(Register::X2, 1);
    vm.execute(i).expect("should execute");
    assert_eq!(vm.cpu.register.get(Register::PC), 12);

    vm.cpu.register.set(Register::PC, 24);
    vm.cpu.register.set(Register::X2, 12);
    vm.execute(i).expect("should execute");
    assert_eq!(vm.cpu.register.get(Register::PC), 28);
}

#[test]
fn branch_with_every_piece_set() {
    let i = Instruction::parse(
        Builder::opcode(Operation::Branch)
            .pack(Part::Funct3, 0b000)
            .pack(Part::B11b, 1)
            .pack(Part::Imm41, 0b0101)
            .pack(Part::Imm105, 0b000011)
            .pack(Part::B12b, 0)
            .build(),
    )
    .expect("should parse");
    let mut vm: VM = Default::default();
    vm.cpu.register.set(Register::PC, 8);
    vm.execute(i).expect("should execute");
    // 1 << 11 | 3 << 5 | 5 << 1
    assert_eq!(vm.cpu.register.get(Register::PC), 8 + 2048 + 96 + 10);
}

#[test]
fn branch_wraps_around_zero() {
    let i = Instruction::parse(0xfe209ae3).expect("should parse");
    let mut vm: VM = Default::default();
    vm.cpu.register.set(Register::X1, 1);
    vm.execute(i).expect("should execute");
    assert_eq!(vm.cpu.register.get(Register::PC), (-12i32) as u32);
}

#[test]
fn unknown_branch_is_rejected() {
    for funct3 in [0b010, 0b011] {
        let i = Instruction::parse(
            Builder::opcode(Operation::Branch)
                .pack(Part::Funct3, funct3)
                .pack(Part::Imm41, 12)
                .build(),
        )
        .expect("should parse");
        let mut vm: VM = Default::default();
        vm.cpu.register.set(Register::PC, 40);
        assert_eq!(
            vm.execute(i),
            Err(InstructionError::InvalidOperation(Operation::Branch))
        );
        assert_eq!(vm.cpu.register.get(Register::PC), 40);
    }
}
