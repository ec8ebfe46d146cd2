use redox_asm::arguments::{try_parse_expression, try_parse_register_id, Argument, AsmError};
use redox_asm::builder::try_build_instruction;
use redox_asm::asm_parser::AsmParser;
use redox_asm::expressions::{Expression, ExpressionArgs, ExpressionOperator};
use redox_asm::immediates::ParseIntError;
use redox_asm::instruction::Instruction;
use redox_asm::op_codes::OpCode;
use redox_asm::registers::RegisterId;
use redox_asm::type_hints::ArgTypeHint;

fn parse_line(line: &str) -> Result<Instruction, AsmError> {
    let mut parser = AsmParser::new();
    parser.try_parse_code_line(line)
}

fn listing(ins: Instruction) -> String {
    ins.to_asm_string()
}

fn times_two() -> Expression {
    Expression::from_args(&[
        ExpressionArgs::Register(RegisterId::ER1),
        ExpressionArgs::Operator(ExpressionOperator::Multiply),
        ExpressionArgs::Immediate(2),
    ])
    .expect("a two-operand expression")
}

#[test]
fn argument_sizes() {
    assert_eq!(Instruction::get_instruction_arg_size_from_op(OpCode::Nop), 0);
    assert_eq!(Instruction::get_instruction_arg_size_from_op(OpCode::Int), 1);
    assert_eq!(
        Instruction::get_instruction_arg_size_from_op(OpCode::ZeroHighBitsByIndexU32Reg),
        3
    );
    assert_eq!(
        Instruction::get_instruction_arg_size_from_op(OpCode::BitScanReverseU32MemU32Mem),
        8
    );
    let add = Instruction::AddU32ImmU32Reg(0x123, RegisterId::ER2);
    assert_eq!(add.get_instruction_arg_size(), 5);
    assert_eq!(add.get_total_instruction_size(), 9);
    assert_eq!(Instruction::Hlt.get_total_instruction_size(), 4);
    assert_eq!(Instruction::Unknown(7).get_instruction_arg_size(), 0);
}

#[test]
fn total_size_is_argument_size_plus_instruction_size() {
    let all = [
        Instruction::Nop,
        Instruction::BitTestU32Mem(3, 0x10),
        Instruction::MovU32RegMemExpr(RegisterId::ER1, 0),
        Instruction::ZeroHighBitsByIndexU32RegU32Imm(4, RegisterId::ER1, RegisterId::ER2),
        Instruction::Mret,
    ];
    for ins in all {
        assert_eq!(
            ins.get_total_instruction_size(),
            ins.get_instruction_arg_size() + 4
        );
        assert_eq!(
            ins.get_instruction_arg_size(),
            Instruction::get_instruction_arg_size_from_op(ins.opcode())
        );
    }
}

#[test]
fn listing_of_simple_instructions() {
    assert_eq!(listing(Instruction::Nop), "nop");
    assert_eq!(listing(Instruction::RetArgsU32), "iret");
    assert_eq!(listing(Instruction::IntRet), "intret");
    assert_eq!(listing(Instruction::Hlt), "hlt");
    assert_eq!(
        listing(Instruction::AddU32ImmU32Reg(0x123, RegisterId::ER1)),
        "add 0x00000123, ER1"
    );
    assert_eq!(
        listing(Instruction::SubU32RegU32Imm(RegisterId::ER3, 0xdeadbeef)),
        "sub ER3, 0xdeadbeef"
    );
    assert_eq!(listing(Instruction::Int(0xff)), "int 255");
    assert_eq!(listing(Instruction::CallU32Reg(RegisterId::EBP)), "call &EBP");
    assert_eq!(listing(Instruction::CallU32Imm(0xdeadbeef)), "call &0xdeadbeef");
    assert_eq!(
        listing(Instruction::ZeroHighBitsByIndexU32RegU32Imm(
            31,
            RegisterId::ER1,
            RegisterId::ER2
        )),
        "zhbi 0x0000001f, ER1, ER2"
    );
    assert_eq!(
        listing(Instruction::BitTestU32Mem(5, 0x10)),
        "bt 5, &0x00000010"
    );
    assert_eq!(
        listing(Instruction::MovU32RegPtrU32RegSimple(
            RegisterId::ER1,
            RegisterId::IDTR
        )),
        "mov.s &ER1, IDTR"
    );
    assert_eq!(listing(Instruction::Unknown(42)), "UNKNOWN! ID = 0000002a");
}

#[test]
fn listing_tells_bit_scans_apart() {
    assert_eq!(
        listing(Instruction::LeftShiftU32RegU32Reg(RegisterId::ER2, RegisterId::ER3)),
        "shl ER2, ER3"
    );
    assert_eq!(
        listing(Instruction::BitScanForwardU32RegMemU32(RegisterId::ER1, 0x20)),
        "bsf ER1, &0x00000020"
    );
    assert_eq!(
        listing(Instruction::BitScanReverseU32RegMemU32(RegisterId::ER1, 0x20)),
        "bsr ER1, &0x00000020"
    );
    assert_eq!(
        listing(Instruction::BitScanForwardU32MemU32Mem(0x123, 0x321)),
        "bsf &0x00000123, &0x00000321"
    );
}

#[test]
fn listing_of_expressions() {
    let packed = times_two().pack();
    assert_eq!(packed, 0x1100_0200);
    assert_eq!(
        listing(Instruction::MovMemExprU32Reg(packed, RegisterId::ER2)),
        "mov.c &[ER1*2], ER2"
    );
    let three = Expression::from_args(&[
        ExpressionArgs::Immediate(8),
        ExpressionArgs::Operator(ExpressionOperator::Add),
        ExpressionArgs::Register(RegisterId::ER4),
        ExpressionArgs::Operator(ExpressionOperator::Subtract),
        ExpressionArgs::Immediate(200),
    ])
    .expect("a three-operand expression");
    assert_eq!(
        listing(Instruction::MovU32ImmMemExpr(0x5, three.pack())),
        "mov.c 0x00000005, &[8+ER4-200]"
    );
    // A value that packs no expression is shown as it is.
    assert_eq!(
        listing(Instruction::MovU32RegMemExpr(RegisterId::ER1, 0xff00_0000)),
        "mov.c ER1, &[0xff000000]"
    );
}

#[test]
fn expressions_round_trip() {
    let e = times_two();
    assert_eq!(Expression::unpack(e.pack()), Some(e));
    assert_eq!(Expression::unpack(0xff00_0000), None);
    assert_eq!(
        Expression::from_args(&[
            ExpressionArgs::Register(RegisterId::ER1),
            ExpressionArgs::Register(RegisterId::ER2),
            ExpressionArgs::Immediate(2),
        ]),
        None
    );
    assert_eq!(
        Expression::from_args(&[ExpressionArgs::Immediate(1), ExpressionArgs::Immediate(2)]),
        None
    );
}

#[test]
fn immediates_in_every_base() {
    assert_eq!(AsmParser::try_parse_u8_immediate("0xFF"), Ok(255));
    assert_eq!(AsmParser::try_parse_u8_immediate("0b101"), Ok(5));
    assert_eq!(AsmParser::try_parse_u8_immediate("0o17"), Ok(15));
    assert_eq!(AsmParser::try_parse_u8_immediate("+12"), Ok(12));
    assert_eq!(AsmParser::try_parse_u32_immediate("4294967295"), Ok(4294967295));
    assert_eq!(AsmParser::try_parse_u32_immediate("0xdeadbeef"), Ok(0xdeadbeef));
}

#[test]
fn immediate_errors() {
    assert_eq!(AsmParser::try_parse_u8_immediate(""), Err(ParseIntError::Empty));
    assert_eq!(AsmParser::try_parse_u8_immediate("0x"), Err(ParseIntError::Empty));
    assert_eq!(AsmParser::try_parse_u8_immediate("+"), Err(ParseIntError::InvalidDigit));
    assert_eq!(AsmParser::try_parse_u8_immediate("256"), Err(ParseIntError::PosOverflow));
    assert_eq!(AsmParser::try_parse_u8_immediate("0b102"), Err(ParseIntError::InvalidDigit));
    assert_eq!(AsmParser::try_parse_u8_immediate("0XFF"), Err(ParseIntError::InvalidDigit));
    assert_eq!(
        AsmParser::try_parse_u32_immediate("4294967296"),
        Err(ParseIntError::PosOverflow)
    );
}

#[test]
fn listing_digits_read_back() {
    for v in [0u32, 1, 0x123, 0xdeadbeef, u32::MAX] {
        let text = listing(Instruction::PushU32Imm(v));
        let digits = &text["push ".len()..];
        assert_eq!(digits.len(), 10);
        assert_eq!(AsmParser::try_parse_u32_immediate(digits), Ok(v));
    }
    for v in [0u8, 9, 10, 31, 255] {
        let text = listing(Instruction::BitTestU32Reg(v, RegisterId::ER1));
        let digits = text["bt ".len()..].split(',').next().unwrap();
        assert_eq!(AsmParser::try_parse_u8_immediate(digits), Ok(v));
    }
}

#[test]
fn instruction_line_segments() {
    assert_eq!(
        AsmParser::parse_instruction_line("mov ER1, ER2 ; a comment"),
        vec!["mov", "ER1", "ER2"]
    );
    assert_eq!(
        AsmParser::parse_instruction_line("add  0x5,,ER1"),
        vec!["add", "0x5", "ER1"]
    );
    // A `;` as the last character is part of the last segment.
    assert_eq!(AsmParser::parse_instruction_line("nop;"), vec!["nop;"]);
    assert_eq!(AsmParser::parse_instruction_line(""), Vec::<String>::new());
}

#[test]
fn instructions_selected_by_argument_kinds() {
    assert_eq!(
        parse_line("mov 5, ER1"),
        Ok(Instruction::MovU32ImmU32Reg(5, RegisterId::ER1))
    );
    assert_eq!(
        parse_line("mov ER2, ER1"),
        Ok(Instruction::MovU32RegU32Reg(RegisterId::ER2, RegisterId::ER1))
    );
    assert_eq!(
        parse_line("bt 5, ER1"),
        Ok(Instruction::BitTestU32Reg(5, RegisterId::ER1))
    );
    assert_eq!(
        parse_line("bt 5, &0x1000"),
        Ok(Instruction::BitTestU32Mem(5, 0x1000))
    );
    assert_eq!(
        parse_line("mov &[ER1*2], ER2"),
        Ok(Instruction::MovMemExprU32Reg(
            times_two().pack(),
            RegisterId::ER2
        ))
    );
    assert_eq!(
        parse_line("  jmp &ER3  "),
        Ok(Instruction::JumpAbsU32Reg(RegisterId::ER3))
    );
    assert_eq!(parse_line("NOP"), Ok(Instruction::Nop));
    assert_eq!(parse_line("int 0x21"), Ok(Instruction::Int(0x21)));
}

#[test]
fn every_parse_error() {
    assert_eq!(parse_line(""), Err(AsmError::EmptyLine));
    assert_eq!(parse_line(":"), Err(AsmError::EmptyLabel));
    assert_eq!(parse_line("call :"), Err(AsmError::EmptyLabel));
    assert_eq!(parse_line("frobnicate ER1"), Err(AsmError::UnknownMnemonic));
    assert_eq!(parse_line("call &"), Err(AsmError::EmptyArgument));
    assert_eq!(parse_line("mov &[ER1*], ER1"), Err(AsmError::InvalidExpression));
    assert_eq!(
        parse_line("mov &[FR1*2], ER1"),
        Err(AsmError::FloatRegisterInExpression)
    );
    assert_eq!(parse_line("call &FR1"), Err(AsmError::FloatRegisterPointer));
    assert_eq!(parse_line("call &1.5"), Err(AsmError::FloatPointer));
    assert_eq!(parse_line("mov 1.5, ER1"), Err(AsmError::FloatArgument));
    assert_eq!(parse_line("call &AAA"), Err(AsmError::InvalidArgument));
    assert_eq!(parse_line("call 0xdeadbeef"), Err(AsmError::NoMatchingInstruction));
    assert_eq!(parse_line("call"), Err(AsmError::MissingArguments));
}

#[test]
fn labels_are_recorded() {
    let mut parser = AsmParser::new();
    assert_eq!(parser.try_parse("nop\ncall :TARGET"), Ok(()));
    assert_eq!(
        parser.parsed_instructions,
        vec![Instruction::Nop, Instruction::CallU32Imm(u32::MAX)]
    );
    assert_eq!(parser.labeled_instructions.len(), 1);
    assert_eq!(
        parser.labeled_instructions.get(&1),
        Some(&(0usize, String::from(":TARGET")))
    );
    assert_eq!(
        parse_line(":START here"),
        Ok(Instruction::Label(String::from(":START")))
    );
}

#[test]
fn failed_parse_keeps_earlier_instructions() {
    let mut parser = AsmParser::default();
    assert_eq!(parser.try_parse("nop\nhlt"), Ok(()));
    assert_eq!(parser.try_parse("nop\nfrobnicate"), Err(AsmError::UnknownMnemonic));
    assert_eq!(parser.parsed_instructions, vec![Instruction::Nop, Instruction::Hlt]);
}

#[test]
fn comments_are_ignored() {
    let mut parser = AsmParser::new();
    assert_eq!(parser.try_parse(";only a comment"), Ok(()));
    assert!(parser.parsed_instructions.is_empty());
    assert_eq!(
        parse_line("push 0x10 ; push sixteen"),
        parse_line("push 0x10")
    );
}

#[test]
fn registers_by_name_and_number() {
    for code in 0u8..19 {
        let r = RegisterId::from_code(code).expect("a register");
        assert_eq!(r.code(), code);
        let name = r.name_chars();
        assert_eq!(RegisterId::from_name(&name), Some(r));
    }
    assert_eq!(RegisterId::from_code(19), None);
    assert_eq!(RegisterId::from_name(&['e', 'r', '1']), None);
    assert!(RegisterId::FR1.is_f32());
    assert!(RegisterId::ER1.is_u32());
}

#[test]
fn listings_read_back() {
    let expr = times_two().pack();
    let all = [
        Instruction::Nop,
        Instruction::AddU32ImmU32Reg(0x123, RegisterId::ER2),
        Instruction::AddU32ImmU32Reg(0x12, RegisterId::ER2),
        Instruction::SubU32RegU32Imm(RegisterId::ER3, 7),
        Instruction::DivU32RegU32Reg(RegisterId::ER1, RegisterId::ESP),
        Instruction::LeftShiftU32RegU32Reg(RegisterId::ER2, RegisterId::ER3),
        Instruction::CallU32Imm(0xdeadbeef),
        Instruction::CallU32Reg(RegisterId::ER4),
        Instruction::RetArgsU32,
        Instruction::Int(0xff),
        Instruction::IntRet,
        Instruction::JumpAbsU32Imm(0),
        Instruction::MovU32ImmU32Reg(5, RegisterId::ER1),
        Instruction::MovU32ImmMemSimple(0x10, 0x20),
        Instruction::MovU32RegPtrU32RegSimple(RegisterId::ER1, RegisterId::ER2),
        Instruction::MovU32ImmMemExpr(0x5, expr),
        Instruction::MovMemExprU32Reg(expr, RegisterId::ER2),
        Instruction::MovU32RegMemExpr(RegisterId::ER2, expr),
        Instruction::ZeroHighBitsByIndexU32Reg(RegisterId::ER1, RegisterId::ER2, RegisterId::ER3),
        Instruction::ZeroHighBitsByIndexU32RegU32Imm(31, RegisterId::ER1, RegisterId::ER2),
        Instruction::PushU32Imm(0x1234),
        Instruction::BitTestU32Reg(3, RegisterId::ER1),
        Instruction::BitTestSetU32Mem(31, 0x40),
        Instruction::BitScanReverseU32RegMemU32(RegisterId::ER1, 0x20),
        Instruction::BitScanForwardU32RegMemU32(RegisterId::ER1, 0x20),
        Instruction::BitScanForwardU32MemU32Mem(0x123, 0x321),
        Instruction::Mret,
        Instruction::Hlt,
    ];
    for ins in all {
        assert_eq!(parse_line(&ins.to_asm_string()), Ok(ins.clone()), "{ins:?}");
    }
    // A f32 register where a u32 register belongs is refused when read back.
    let float = Instruction::IncU32Reg(RegisterId::FR1);
    assert_eq!(
        parse_line(&float.to_asm_string()),
        Err(AsmError::NoMatchingInstruction)
    );
}

#[test]
fn instructions_built_from_fitting_arguments() {
    assert_eq!(
        try_build_instruction(
            OpCode::AddU32ImmU32Reg,
            &[Argument::UnsignedInt(5), Argument::RegisterU32(RegisterId::ER1)]
        ),
        Instruction::AddU32ImmU32Reg(5, RegisterId::ER1)
    );
    assert_eq!(
        try_build_instruction(
            OpCode::BitTestU32Mem,
            &[Argument::UnsignedInt(31), Argument::UnsignedInt(0xdeadbeef)]
        ),
        Instruction::BitTestU32Mem(31, 0xdeadbeef)
    );
    assert_eq!(
        try_build_instruction(
            OpCode::MovMemExprU32Reg,
            &[Argument::Expression(times_two()), Argument::RegisterU32(RegisterId::ER2)]
        ),
        Instruction::MovMemExprU32Reg(0x1100_0200, RegisterId::ER2)
    );
    assert_eq!(try_build_instruction(OpCode::Hlt, &[]), Instruction::Hlt);
}

#[test]
fn strict_readers_on_text_they_accept() {
    let mut parser = AsmParser::new();
    parser.parse("nop\n; a comment\ncall &0x10");
    assert_eq!(
        parser.parsed_instructions,
        vec![Instruction::Nop, Instruction::CallU32Imm(0x10)]
    );
    assert_eq!(
        parser.parse_code_line("mov 5, ER1"),
        Instruction::MovU32ImmU32Reg(5, RegisterId::ER1)
    );
    let text: Vec<char> = "[ER1*2]".chars().collect();
    assert_eq!(
        try_parse_expression(&text, true),
        Some((Argument::Expression(times_two()), ArgTypeHint::ExpressionPointer))
    );
    let plain: Vec<char> = "ER1".chars().collect();
    assert_eq!(try_parse_expression(&plain, false), None);
    assert_eq!(
        try_parse_register_id(&plain, true),
        Some((Argument::RegisterU32(RegisterId::ER1), ArgTypeHint::RegisterU32Pointer))
    );
    let float: Vec<char> = "FR1".chars().collect();
    assert_eq!(
        try_parse_register_id(&float, false),
        Some((Argument::RegisterF32(RegisterId::FR1), ArgTypeHint::RegisterF32))
    );
    assert_eq!(try_parse_register_id(&['A', 'A', 'A'], false), None);
}

#[test]
fn outer_spaces_and_mnemonic_case_are_ignored() {
    assert_eq!(parse_line("  NOP "), parse_line("nop"));
    assert_eq!(parse_line(" MoV 5, ER1  "), parse_line("mov 5, ER1"));
    assert_eq!(parse_line("CALL &0x10"), Ok(Instruction::CallU32Imm(0x10)));
    assert_eq!(parse_line("  FROB ER1"), parse_line("frob ER1"));
}

#[test]
fn listings_parse_back_as_files() {
    for ins in [
        Instruction::Hlt,
        Instruction::AddU32ImmU32Reg(0x123, RegisterId::ER2),
        Instruction::Int(0xff),
        Instruction::MovU32RegMemExpr(RegisterId::ER2, times_two().pack()),
        Instruction::BitScanForwardU32MemU32Mem(0x123, 0x321),
    ] {
        let mut parser = AsmParser::new();
        parser.parse(&ins.to_asm_string());
        assert_eq!(parser.parsed_instructions, vec![ins]);
    }
}
