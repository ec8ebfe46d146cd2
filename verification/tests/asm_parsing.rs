use redox_asm::arguments::DUMMY_LABEL_JUMP_ADDRESS;
use redox_asm::asm_parser::AsmParser;
use redox_asm::instruction::Instruction;

#[derive(Clone)]
struct ParserTest {
    /// The input string to be tested.
    pub input: String,
    /// A vector of [`Instruction`]s that should result from the parsing.
    pub expected_instructions: Vec<Instruction>,
    /// Whether the parser should refuse the input.
    pub should_fail: bool,
    /// A string slice that provides the message to be displayed if the test fails.
    pub fail_message: String,
}

impl ParserTest {
    fn new(
        input: &str,
        expected_instructions: &[Instruction],
        should_fail: bool,
        fail_message: &str,
    ) -> Self {
        Self {
            input: input.to_string(),
            expected_instructions: expected_instructions.to_vec(),
            should_fail,
            fail_message: fail_message.to_string(),
        }
    }

    /// Run this specific test entry.
    pub fn run_test(&self, id: usize) {
        let mut parser = AsmParser::new();
        let result = parser.try_parse(&self.input);

        // Confirm whether the input was refused, and whether that was expected or not.
        let failed = result.is_err();
        assert_eq!(
            failed,
            self.should_fail,
            "{}",
            self.fail_message(id, failed)
        );

        if !failed {
            assert_eq!(parser.parsed_instructions, self.expected_instructions);
        }
    }

    pub fn fail_message(&self, id: usize, failed: bool) -> String {
        format!(
            "Test {id} Failed - Should Fail? {}, Failed? {failed}. Message = {}",
            self.should_fail, self.fail_message
        )
    }
}

fn run_all(tests: &[ParserTest]) {
    for (id, test) in tests.iter().enumerate() {
        test.run_test(id);
    }
}

#[test]
fn code_parser_labels() {
    let tests = [
        ParserTest::new(
            "nop\r\n:LABEL_1",
            &[
                Instruction::Nop,
                Instruction::Label(String::from(":LABEL_1")),
            ],
            false,
            "failed to correctly parse label instruction.",
        ),
        ParserTest::new(
            "call :LABEL_1",
            &[Instruction::CallU32Imm(DUMMY_LABEL_JUMP_ADDRESS as u32)],
            false,
            "failed to correctly parse instruction label.",
        ),
        ParserTest::new(
            ":LABEL_1 EVERYTHING HERE SHOULD BE IGNORED",
            &[Instruction::Label(String::from(":LABEL_1"))],
            false,
            "failed to correctly parse label instruction.",
        ),
        ParserTest::new(":", &[], true, "succeeded in parsing an empty label."),
        ParserTest::new("call :", &[], true, "succeeded in parsing an empty label."),
    ];

    run_all(&tests);
}

#[test]
fn code_parser_comments() {
    let tests = [
        ParserTest::new(
            "call &0xdeadbeef ; this comment should be ignored.",
            &[Instruction::CallU32Imm(0xdeadbeef)],
            false,
            "failed to correctly parse instruction and comment.",
        ),
        ParserTest::new(
            "nop\r\n;this should be ignored\r\nnop",
            &[Instruction::Nop, Instruction::Nop],
            false,
            "failed to correctly parse instruction and comment.",
        ),
        ParserTest::new(
            "nop\r\n;nop\r\nnop",
            &[Instruction::Nop, Instruction::Nop],
            false,
            "failed to correctly parse instruction and comment.",
        ),
    ];

    run_all(&tests);
}

/// Instruction parsing tests - all invalid.
#[test]
fn code_parser_tests_invalid() {
    let tests = [
        // This is invalid because the argument to call must be an integer register or integer immediate pointer.
        ParserTest::new(
            "call 0xdeadbeef",
            &[],
            true,
            "succeeded in parsing instruction with invalid arguments.",
        ),
        // This is invalid because the argument to call must be an integer register or integer immediate pointer.
        ParserTest::new(
            "call ER1",
            &[],
            true,
            "succeeded in parsing instruction with invalid arguments.",
        ),
        // This is invalid because the argument to call must be an integer register or integer immediate pointer.
        ParserTest::new(
            "call 0.1234",
            &[],
            true,
            "succeeded in parsing instruction with invalid arguments.",
        ),
        // This is invalid because the argument to call must be an integer register or integer immediate pointer.
        ParserTest::new(
            "call &FP1",
            &[],
            true,
            "succeeded in parsing instruction with invalid arguments.",
        ),
        // This is invalid because the register ID doesn't exist.
        ParserTest::new(
            "call &AAA",
            &[],
            true,
            "succeeded in parsing instruction with invalid arguments.",
        ),
        // This is invalid because we have an open square bracket (indicating an expression) but no
        // closing one. This is invalid syntax.
        ParserTest::new(
            "mov &[ER1*2, ER1",
            &[],
            true,
            "succeeded in parsing instruction with invalid arguments.",
        ),
        // This is invalid because we have a closing square bracket (indicating an expression) but no
        // opening one. This is invalid syntax.
        ParserTest::new(
            "mov &ER1*2], ER1",
            &[],
            true,
            "succeeded in parsing instruction with invalid arguments.",
        ),
        // This is invalid because the expression containing an invalid register.
        ParserTest::new(
            "mov &[ERQ*2], ER1",
            &[],
            true,
            "succeeded in parsing instruction with invalid arguments.",
        ),
        // This is invalid because the value is larger than supported by a u8 value.
        // In an expression we may only use u8 values.
        ParserTest::new(
            "mov &[ER1*999], ER1",
            &[],
            true,
            "succeeded in parsing instruction with invalid arguments.",
        ),
        // This is invalid because we can't use floats in expressions.
        ParserTest::new(
            "mov &[ER1*1.0], ER1",
            &[],
            true,
            "succeeded in parsing instruction with invalid arguments.",
        ),
        // This is invalid because we have an operator with nothing following it.
        ParserTest::new(
            "mov &[ER1*], ER1",
            &[],
            true,
            "succeeded in parsing instruction with invalid arguments.",
        ),
        // This is invalid because we have an operator with nothing preceding it.
        ParserTest::new(
            "mov &[*ER1], ER1",
            &[],
            true,
            "succeeded in parsing instruction with invalid arguments.",
        ),
        // This is invalid because we have an operator with nothing following it.
        ParserTest::new(
            "mov &[ER1*ER2*], ER1",
            &[],
            true,
            "succeeded in parsing instruction with invalid arguments.",
        ),
        // This is invalid because we have too many arguments within the expression.
        // We may, at most, have three values.
        ParserTest::new(
            "mov &[ER1*ER2*ER3*ER4], ER1",
            &[],
            true,
            "succeeded in parsing instruction with invalid arguments.",
        ),
        // This is invalid because a single period is not a valid floating-point value.
        ParserTest::new(
            "mov ., ER1",
            &[],
            true,
            "succeeded in parsing instruction with invalid arguments.",
        ),
        // This is invalid because a number followed by single period with no following digits
        // is not a valid floating-point value.
        ParserTest::new(
            "mov 1., ER1",
            &[],
            true,
            "succeeded in parsing instruction with invalid arguments.",
        ),
    ];

    run_all(&tests);
}

/// Single instruction parsing tests - with numbers in different bases.
#[test]
fn code_parser_tests_numeric_bases() {
    let tests = [
        ParserTest::new(
            "push 0b1111111111",
            &[Instruction::PushU32Imm(0b1111111111)],
            false,
            "failed to parse instruction with u32 argument - binary edition.",
        ),
        ParserTest::new(
            "push 0o12345",
            &[Instruction::PushU32Imm(0o12345)],
            false,
            "failed to parse instruction with u32 argument - octal edition.",
        ),
        ParserTest::new(
            "push 1234",
            &[Instruction::PushU32Imm(1234)],
            false,
            "failed to parse instruction with u32 argument - decimal edition.",
        ),
        ParserTest::new(
            "push 0x1234",
            &[Instruction::PushU32Imm(0x1234)],
            false,
            "failed to parse instruction with u32 argument - hex edition.",
        ),
    ];

    run_all(&tests);
}
