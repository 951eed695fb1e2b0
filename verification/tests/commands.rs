use brrrt_core::cpu::Register;
use brrrt_core::debugger::commands::{
    apply_command, interpret_line, parse_command, Action, Command, Token, Tokenizer,
};
use brrrt_core::vm::VM;

#[test]
fn tokenizer_straightforward() {
    let mut t = Tokenizer::new("!+ 12 whatever @");

    assert_eq!(Some(Token::Bang), t.next());
    assert_eq!(Some(Token::Plus), t.next());
    assert_eq!(Some(Token::Number(12)), t.next());
    assert_eq!(Some(Token::Identifier("whatever".to_string())), t.next());
    assert_eq!(Some(Token::At), t.next());
    assert_eq!(None, t.next());
    assert_eq!(None, t.next());
}

#[test]
fn tokenizer_passes_over_what_is_no_token() {
    let mut t = Tokenizer::new("  \t #-- 7?");
    assert_eq!(Some(Token::Number(7)), t.next());
    assert_eq!(None, t.next());

    let mut t = Tokenizer::new("");
    assert_eq!(None, t.next());
}

#[test]
fn tokenizer_passes_over_the_end_of_a_run() {
    // the character that ends a number or a word is not read again
    let mut t = Tokenizer::new("12+3 ab!");
    assert_eq!(Some(Token::Number(12)), t.next());
    assert_eq!(Some(Token::Number(3)), t.next());
    assert_eq!(Some(Token::Identifier("ab!".to_string())), t.next());
    assert_eq!(None, t.next());
}

#[test]
fn tokenizer_numbers_have_32_bits() {
    let mut t = Tokenizer::new("4294967295 0007");
    assert_eq!(Some(Token::Number(4294967295)), t.next());
    assert_eq!(Some(Token::Number(7)), t.next());

    // a number that is too large ends the reading
    let mut t = Tokenizer::new("4294967296 12");
    assert_eq!(None, t.next());
    assert_eq!(None, t.next());
}

#[test]
fn parser_returns_none_on_bad_command() {
    assert!(parse_command("wat").is_none());
}

#[test]
fn parser_parses_register_number_command() {
    let cmd = parse_command("!+ 1 12");

    assert!(cmd.is_some());
    if let Command::SetRegister(reg, val) = cmd.unwrap() {
        assert_eq!(reg, Register::X1);
        assert_eq!(val, 12);
    } else {
        assert!(false, "unknown command");
    }
}

#[test]
fn parser_parses_register_by_name_command_pc() {
    let cmd = parse_command("!+ PC 13");

    assert!(cmd.is_some());
    if let Command::SetRegister(reg, val) = cmd.unwrap() {
        assert_eq!(reg, Register::PC);
        assert_eq!(val, 13);
    } else {
        assert!(false, "unknown command");
    }
}

#[test]
fn parser_parses_register_by_name_command_x() {
    let cmd = parse_command("!+ X12 13");

    assert!(cmd.is_some());
    if let Command::SetRegister(reg, val) = cmd.unwrap() {
        assert_eq!(reg, Register::X12);
        assert_eq!(val, 13);
    } else {
        assert!(false, "unknown command");
    }
}

#[test]
fn parser_parses_memory_set_command() {
    let cmd = parse_command("! @ 1312 161");

    assert!(cmd.is_some());
    if let Command::SetMemory(address, byte) = cmd.unwrap() {
        assert_eq!(address, 1312);
        assert_eq!(byte, 161);
    } else {
        assert!(false, "unknown command");
    }
}

#[test]
fn parser_returns_none_on_invalid_memory_command() {
    let cmd = parse_command("!@ wat");
    assert!(cmd.is_none());
}

#[test]
fn parser_takes_every_register() {
    assert_eq!(
        parse_command("!+ x0 5\n"),
        Some(Command::SetRegister(Register::X0, 5))
    );
    assert_eq!(
        parse_command("!+ x31 5\n"),
        Some(Command::SetRegister(Register::X31, 5))
    );
    assert_eq!(
        parse_command("!+ 31 5\n"),
        Some(Command::SetRegister(Register::X31, 5))
    );
    assert_eq!(
        parse_command("  !+ 0 4294967295"),
        Some(Command::SetRegister(Register::X0, 4294967295))
    );
    assert_eq!(parse_command("!+ x32 5"), None);
    assert_eq!(parse_command("!+ 32 5"), None);
    assert_eq!(parse_command("!+ pc 5"), None);
    assert_eq!(parse_command("!+ y1 5"), None);
    assert_eq!(parse_command("!+ x 5"), None);
    assert_eq!(parse_command("!+ x1"), None);
    assert_eq!(parse_command("!+ x1 x2"), None);
    assert_eq!(parse_command("!+"), None);
    assert_eq!(parse_command("!"), None);
    assert_eq!(parse_command(""), None);
    assert_eq!(parse_command("+ x1 5"), None);
    assert_eq!(parse_command("!! x1 5"), None);
}

#[test]
fn parser_keeps_the_low_byte() {
    assert_eq!(parse_command("!@ 0 255"), Some(Command::SetMemory(0, 255)));
    assert_eq!(parse_command("!@ 0 256"), Some(Command::SetMemory(0, 0)));
    assert_eq!(parse_command("!@ 7 513"), Some(Command::SetMemory(7, 1)));
    assert_eq!(parse_command("!@ 7"), None);
    assert_eq!(parse_command("!@ x1 7"), None);
}

#[test]
fn apply_set_register_command() {
    let mut vm: VM = Default::default();
    assert_eq!(0, vm.cpu.register.get(Register::PC));

    apply_command("!+ PC 161", &mut vm);
    assert_eq!(161, vm.cpu.register.get(Register::PC));
}

#[test]
fn apply_set_memory_command() {
    let mut vm: VM = Default::default();
    assert_eq!(0, vm.ram.byte_at(161).unwrap());

    apply_command("!@ 161 13", &mut vm);
    assert_eq!(13, vm.ram.byte_at(161).unwrap());
}

#[test]
fn commands_that_do_not_apply_change_nothing() {
    let mut vm: VM = Default::default();
    assert_eq!(apply_command("!@ 1024 13", &mut vm), None);
    assert_eq!(apply_command("!+ x0 13", &mut vm), None);
    assert_eq!(apply_command("!+ x40 13", &mut vm), None);
    assert_eq!(apply_command("hello", &mut vm), None);
    assert_eq!(vm.cpu.register.get(Register::X0), 0);
    for r in 0..256 {
        assert_eq!(vm.ram.word_at(4 * r).unwrap(), 0);
    }
}

#[test]
fn lines_choose_the_action() {
    let mut vm: VM = Default::default();
    assert_eq!(interpret_line("q\n", &mut vm), Some(Action::Quit));
    assert_eq!(interpret_line("quit", &mut vm), Some(Action::Quit));
    assert_eq!(interpret_line("\n", &mut vm), Some(Action::Step));
    assert_eq!(interpret_line("!+ x5 9\n", &mut vm), Some(Action::Input));
    assert_eq!(vm.cpu.register.get(Register::X5), 9);
    assert_eq!(interpret_line("!nonsense\n", &mut vm), Some(Action::Input));
    assert_eq!(interpret_line("step\n", &mut vm), None);
    assert_eq!(interpret_line(" q\n", &mut vm), None);
    assert_eq!(interpret_line("", &mut vm), None);
    assert_eq!(vm.cpu.register.get(Register::X5), 9);
}
