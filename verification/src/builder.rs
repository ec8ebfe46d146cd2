//! Turning an instruction line into an [`Instruction`].
use vstd::prelude::*;

use crate::arguments::{arg_fits, Argument};
use crate::expressions::packed;
use crate::instruction::{opcode_of, Instruction};
use crate::op_codes::OpCode;
use crate::registers::RegisterId;
use crate::type_hints::{arg_hints, mnemonics};

verus! {

/// The u32 value of an unsigned integer argument.
pub open spec fn u32_of(a: Argument) -> u32 {
    match a {
        Argument::UnsignedInt(v) => v as u32,
        _ => 0,
    }
}

/// The u8 value of an unsigned integer argument.
pub open spec fn u8_of(a: Argument) -> u8 {
    match a {
        Argument::UnsignedInt(v) => v as u8,
        _ => 0,
    }
}

/// The register of a register argument.
pub open spec fn reg_of(a: Argument) -> RegisterId {
    match a {
        Argument::RegisterU32(r) => r,
        Argument::RegisterF32(r) => r,
        _ => RegisterId::ER1,
    }
}

/// The packed form of an expression argument.
pub open spec fn expr_of(a: Argument) -> u32 {
    match a {
        Argument::Expression(e) => packed(e),
        _ => 0,
    }
}

/// The instruction of an operation with the arguments `a0`, `a1` and `a2` (as many as it
/// takes). Operations without a mnemonic are never selected.
pub open spec fn built_from(op: OpCode, a0: Argument, a1: Argument, a2: Argument) -> Instruction {
    match op {
        OpCode::Nop => Instruction::Nop,
        OpCode::AddU32ImmU32Reg => Instruction::AddU32ImmU32Reg(u32_of(a0), reg_of(a1)),
        OpCode::AddU32RegU32Reg => Instruction::AddU32RegU32Reg(reg_of(a0), reg_of(a1)),
        OpCode::SubU32ImmU32Reg => Instruction::SubU32ImmU32Reg(u32_of(a0), reg_of(a1)),
        OpCode::SubU32RegU32Imm => Instruction::SubU32RegU32Imm(reg_of(a0), u32_of(a1)),
        OpCode::SubU32RegU32Reg => Instruction::SubU32RegU32Reg(reg_of(a0), reg_of(a1)),
        OpCode::MulU32ImmU32Reg => Instruction::MulU32ImmU32Reg(u32_of(a0), reg_of(a1)),
        OpCode::MulU32RegU32Reg => Instruction::MulU32RegU32Reg(reg_of(a0), reg_of(a1)),
        OpCode::DivU32ImmU32Reg => Instruction::DivU32ImmU32Reg(u32_of(a0), reg_of(a1)),
        OpCode::DivU32RegU32Imm => Instruction::DivU32RegU32Imm(reg_of(a0), u32_of(a1)),
        OpCode::DivU32RegU32Reg => Instruction::DivU32RegU32Reg(reg_of(a0), reg_of(a1)),
        OpCode::ModU32ImmU32Reg => Instruction::ModU32ImmU32Reg(u32_of(a0), reg_of(a1)),
        OpCode::ModU32RegU32Imm => Instruction::ModU32RegU32Imm(reg_of(a0), u32_of(a1)),
        OpCode::ModU32RegU32Reg => Instruction::ModU32RegU32Reg(reg_of(a0), reg_of(a1)),
        OpCode::IncU32Reg => Instruction::IncU32Reg(reg_of(a0)),
        OpCode::DecU32Reg => Instruction::DecU32Reg(reg_of(a0)),
        OpCode::AndU32ImmU32Reg => Instruction::AndU32ImmU32Reg(u32_of(a0), reg_of(a1)),
        OpCode::LeftShiftU32ImmU32Reg => Instruction::LeftShiftU32ImmU32Reg(u32_of(a0), reg_of(a1)),
        OpCode::LeftShiftU32RegU32Reg => Instruction::LeftShiftU32RegU32Reg(reg_of(a0), reg_of(a1)),
        OpCode::ArithLeftShiftU32ImmU32Reg => Instruction::ArithLeftShiftU32ImmU32Reg(u32_of(a0), reg_of(a1)),
        OpCode::ArithLeftShiftU32RegU32Reg => Instruction::ArithLeftShiftU32RegU32Reg(reg_of(a0), reg_of(a1)),
        OpCode::RightShiftU32ImmU32Reg => Instruction::RightShiftU32ImmU32Reg(u32_of(a0), reg_of(a1)),
        OpCode::RightShiftU32RegU32Reg => Instruction::RightShiftU32RegU32Reg(reg_of(a0), reg_of(a1)),
        OpCode::ArithRightShiftU32ImmU32Reg => Instruction::ArithRightShiftU32ImmU32Reg(u32_of(a0), reg_of(a1)),
        OpCode::ArithRightShiftU32RegU32Reg => Instruction::ArithRightShiftU32RegU32Reg(reg_of(a0), reg_of(a1)),
        OpCode::CallU32Imm => Instruction::CallU32Imm(u32_of(a0)),
        OpCode::CallU32Reg => Instruction::CallU32Reg(reg_of(a0)),
        OpCode::RetArgsU32 => Instruction::RetArgsU32,
        OpCode::Int => Instruction::Int(u8_of(a0)),
        OpCode::IntRet => Instruction::IntRet,
        OpCode::JumpAbsU32Imm => Instruction::JumpAbsU32Imm(u32_of(a0)),
        OpCode::JumpAbsU32Reg => Instruction::JumpAbsU32Reg(reg_of(a0)),
        OpCode::SwapU32RegU32Reg => Instruction::SwapU32RegU32Reg(reg_of(a0), reg_of(a1)),
        OpCode::MovU32ImmU32Reg => Instruction::MovU32ImmU32Reg(u32_of(a0), reg_of(a1)),
        OpCode::MovU32RegU32Reg => Instruction::MovU32RegU32Reg(reg_of(a0), reg_of(a1)),
        OpCode::MovU32ImmMemSimple => Instruction::MovU32ImmMemSimple(u32_of(a0), u32_of(a1)),
        OpCode::MovU32RegMemSimple => Instruction::MovU32RegMemSimple(reg_of(a0), u32_of(a1)),
        OpCode::MovMemU32RegSimple => Instruction::MovMemU32RegSimple(u32_of(a0), reg_of(a1)),
        OpCode::MovU32RegPtrU32RegSimple => Instruction::MovU32RegPtrU32RegSimple(reg_of(a0), reg_of(a1)),
        OpCode::MovU32ImmMemExpr => Instruction::MovU32ImmMemExpr(u32_of(a0), expr_of(a1)),
        OpCode::MovMemExprU32Reg => Instruction::MovMemExprU32Reg(expr_of(a0), reg_of(a1)),
        OpCode::MovU32RegMemExpr => Instruction::MovU32RegMemExpr(reg_of(a0), expr_of(a1)),
        OpCode::ByteSwapU32 => Instruction::ByteSwapU32(reg_of(a0)),
        OpCode::ZeroHighBitsByIndexU32Reg => Instruction::ZeroHighBitsByIndexU32Reg(reg_of(a0), reg_of(a1), reg_of(a2)),
        OpCode::ZeroHighBitsByIndexU32RegU32Imm => Instruction::ZeroHighBitsByIndexU32RegU32Imm(u32_of(a0), reg_of(a1), reg_of(a2)),
        OpCode::PushU32Imm => Instruction::PushU32Imm(u32_of(a0)),
        OpCode::PopU32ImmU32Reg => Instruction::PopU32ImmU32Reg(reg_of(a0)),
        OpCode::BitTestU32Reg => Instruction::BitTestU32Reg(u8_of(a0), reg_of(a1)),
        OpCode::BitTestU32Mem => Instruction::BitTestU32Mem(u8_of(a0), u32_of(a1)),
        OpCode::BitTestResetU32Reg => Instruction::BitTestResetU32Reg(u8_of(a0), reg_of(a1)),
        OpCode::BitTestResetU32Mem => Instruction::BitTestResetU32Mem(u8_of(a0), u32_of(a1)),
        OpCode::BitTestSetU32Reg => Instruction::BitTestSetU32Reg(u8_of(a0), reg_of(a1)),
        OpCode::BitTestSetU32Mem => Instruction::BitTestSetU32Mem(u8_of(a0), u32_of(a1)),
        OpCode::BitScanReverseU32RegU32Reg => Instruction::BitScanReverseU32RegU32Reg(reg_of(a0), reg_of(a1)),
        OpCode::BitScanReverseU32MemU32Reg => Instruction::BitScanReverseU32MemU32Reg(u32_of(a0), reg_of(a1)),
        OpCode::BitScanReverseU32RegMemU32 => Instruction::BitScanReverseU32RegMemU32(reg_of(a0), u32_of(a1)),
        OpCode::BitScanReverseU32MemU32Mem => Instruction::BitScanReverseU32MemU32Mem(u32_of(a0), u32_of(a1)),
        OpCode::BitScanForwardU32RegU32Reg => Instruction::BitScanForwardU32RegU32Reg(reg_of(a0), reg_of(a1)),
        OpCode::BitScanForwardU32MemU32Reg => Instruction::BitScanForwardU32MemU32Reg(u32_of(a0), reg_of(a1)),
        OpCode::BitScanForwardU32RegMemU32 => Instruction::BitScanForwardU32RegMemU32(reg_of(a0), u32_of(a1)),
        OpCode::BitScanForwardU32MemU32Mem => Instruction::BitScanForwardU32MemU32Mem(u32_of(a0), u32_of(a1)),
        OpCode::Mret => Instruction::Mret,
        OpCode::Hlt => Instruction::Hlt,
        OpCode::Reserved1 => Instruction::Unknown(0),
        OpCode::Reserved2 => Instruction::Unknown(0),
        OpCode::Reserved3 => Instruction::Unknown(0),
        OpCode::Reserved4 => Instruction::Unknown(0),
        OpCode::Reserved5 => Instruction::Unknown(0),
        OpCode::Reserved6 => Instruction::Unknown(0),
        OpCode::Reserved7 => Instruction::Unknown(0),
        OpCode::Reserved8 => Instruction::Unknown(0),
        OpCode::Reserved9 => Instruction::Unknown(0),
        OpCode::Label => Instruction::Unknown(0),
        OpCode::Unknown => Instruction::Unknown(0),
    }
}

/// The argument at position `i`, or a zero when there is none.
pub open spec fn arg_at(a: Seq<Argument>, i: int) -> Argument {
    if 0 <= i < a.len() {
        a[i]
    } else {
        Argument::UnsignedInt(0)
    }
}

/// The instruction of an operation with the given arguments, each taken as the kind that
/// the operation asks for.
pub open spec fn built_instruction(op: OpCode, a: Seq<Argument>) -> Instruction {
    built_from(op, arg_at(a, 0), arg_at(a, 1), arg_at(a, 2))
}

/// Whether `args` fit, one by one, the kinds of the arguments of `op`.
pub open spec fn args_fit(op: OpCode, args: Seq<Argument>) -> bool {
    &&& args.len() == arg_hints(op).len()
    &&& forall|i: int| 0 <= i < args.len() ==> #[trigger] arg_fits(arg_hints(op)[i], args[i])
}

fn u32_arg(a: &Argument) -> (v: u32)
    ensures
        v == u32_of(*a),
{
    match a {
        Argument::UnsignedInt(x) => *x as u32,
        _ => 0,
    }
}

fn u8_arg(a: &Argument) -> (v: u8)
    ensures
        v == u8_of(*a),
{
    match a {
        Argument::UnsignedInt(x) => *x as u8,
        _ => 0,
    }
}

fn reg_arg(a: &Argument) -> (r: RegisterId)
    ensures
        r == reg_of(*a),
{
    match a {
        Argument::RegisterU32(r) => *r,
        Argument::RegisterF32(r) => *r,
        _ => RegisterId::ER1,
    }
}

fn expr_arg(a: &Argument) -> (v: u32)
    ensures
        v == expr_of(*a),
{
    match a {
        Argument::Expression(e) => e.pack(),
        _ => 0,
    }
}

/// The value held by one operand of an instruction: a number (u8 values widened, an
/// expression in its packed form) or a register.
#[derive(Clone, Copy, Debug, PartialEq, Eq, Structural)]
pub enum OperandValue {
    /// A number.
    Number(u32),
    /// A register.
    Register(RegisterId),
}

/// The operands of an instruction, in order (none for labels and unknown instructions).
pub open spec fn operand_values(i: Instruction) -> Seq<OperandValue> {
    match i {
        Instruction::Nop => seq![],
        Instruction::AddU32ImmU32Reg(a, b) => seq![OperandValue::Number(a), OperandValue::Register(b)],
        Instruction::AddU32RegU32Reg(a, b) => seq![OperandValue::Register(a), OperandValue::Register(b)],
        Instruction::SubU32ImmU32Reg(a, b) => seq![OperandValue::Number(a), OperandValue::Register(b)],
        Instruction::SubU32RegU32Imm(a, b) => seq![OperandValue::Register(a), OperandValue::Number(b)],
        Instruction::SubU32RegU32Reg(a, b) => seq![OperandValue::Register(a), OperandValue::Register(b)],
        Instruction::MulU32ImmU32Reg(a, b) => seq![OperandValue::Number(a), OperandValue::Register(b)],
        Instruction::MulU32RegU32Reg(a, b) => seq![OperandValue::Register(a), OperandValue::Register(b)],
        Instruction::DivU32ImmU32Reg(a, b) => seq![OperandValue::Number(a), OperandValue::Register(b)],
        Instruction::DivU32RegU32Imm(a, b) => seq![OperandValue::Register(a), OperandValue::Number(b)],
        Instruction::DivU32RegU32Reg(a, b) => seq![OperandValue::Register(a), OperandValue::Register(b)],
        Instruction::ModU32ImmU32Reg(a, b) => seq![OperandValue::Number(a), OperandValue::Register(b)],
        Instruction::ModU32RegU32Imm(a, b) => seq![OperandValue::Register(a), OperandValue::Number(b)],
        Instruction::ModU32RegU32Reg(a, b) => seq![OperandValue::Register(a), OperandValue::Register(b)],
        Instruction::IncU32Reg(a) => seq![OperandValue::Register(a)],
        Instruction::DecU32Reg(a) => seq![OperandValue::Register(a)],
        Instruction::AndU32ImmU32Reg(a, b) => seq![OperandValue::Number(a), OperandValue::Register(b)],
        Instruction::LeftShiftU32ImmU32Reg(a, b) => seq![OperandValue::Number(a), OperandValue::Register(b)],
        Instruction::LeftShiftU32RegU32Reg(a, b) => seq![OperandValue::Register(a), OperandValue::Register(b)],
        Instruction::ArithLeftShiftU32ImmU32Reg(a, b) => seq![OperandValue::Number(a), OperandValue::Register(b)],
        Instruction::ArithLeftShiftU32RegU32Reg(a, b) => seq![OperandValue::Register(a), OperandValue::Register(b)],
        Instruction::RightShiftU32ImmU32Reg(a, b) => seq![OperandValue::Number(a), OperandValue::Register(b)],
        Instruction::RightShiftU32RegU32Reg(a, b) => seq![OperandValue::Register(a), OperandValue::Register(b)],
        Instruction::ArithRightShiftU32ImmU32Reg(a, b) => seq![OperandValue::Number(a), OperandValue::Register(b)],
        Instruction::ArithRightShiftU32RegU32Reg(a, b) => seq![OperandValue::Register(a), OperandValue::Register(b)],
        Instruction::CallU32Imm(a) => seq![OperandValue::Number(a)],
        Instruction::CallU32Reg(a) => seq![OperandValue::Register(a)],
        Instruction::RetArgsU32 => seq![],
        Instruction::Int(a) => seq![OperandValue::Number(a as u32)],
        Instruction::IntRet => seq![],
        Instruction::JumpAbsU32Imm(a) => seq![OperandValue::Number(a)],
        Instruction::JumpAbsU32Reg(a) => seq![OperandValue::Register(a)],
        Instruction::SwapU32RegU32Reg(a, b) => seq![OperandValue::Register(a), OperandValue::Register(b)],
        Instruction::MovU32ImmU32Reg(a, b) => seq![OperandValue::Number(a), OperandValue::Register(b)],
        Instruction::MovU32RegU32Reg(a, b) => seq![OperandValue::Register(a), OperandValue::Register(b)],
        Instruction::MovU32ImmMemSimple(a, b) => seq![OperandValue::Number(a), OperandValue::Number(b)],
        Instruction::MovU32RegMemSimple(a, b) => seq![OperandValue::Register(a), OperandValue::Number(b)],
        Instruction::MovMemU32RegSimple(a, b) => seq![OperandValue::Number(a), OperandValue::Register(b)],
        Instruction::MovU32RegPtrU32RegSimple(a, b) => seq![OperandValue::Register(a), OperandValue::Register(b)],
        Instruction::MovU32ImmMemExpr(a, b) => seq![OperandValue::Number(a), OperandValue::Number(b)],
        Instruction::MovMemExprU32Reg(a, b) => seq![OperandValue::Number(a), OperandValue::Register(b)],
        Instruction::MovU32RegMemExpr(a, b) => seq![OperandValue::Register(a), OperandValue::Number(b)],
        Instruction::ByteSwapU32(a) => seq![OperandValue::Register(a)],
        Instruction::ZeroHighBitsByIndexU32Reg(a, b, c) => seq![OperandValue::Register(a), OperandValue::Register(b), OperandValue::Register(c)],
        Instruction::ZeroHighBitsByIndexU32RegU32Imm(a, b, c) => seq![OperandValue::Number(a), OperandValue::Register(b), OperandValue::Register(c)],
        Instruction::PushU32Imm(a) => seq![OperandValue::Number(a)],
        Instruction::PopU32ImmU32Reg(a) => seq![OperandValue::Register(a)],
        Instruction::BitTestU32Reg(a, b) => seq![OperandValue::Number(a as u32), OperandValue::Register(b)],
        Instruction::BitTestU32Mem(a, b) => seq![OperandValue::Number(a as u32), OperandValue::Number(b)],
        Instruction::BitTestResetU32Reg(a, b) => seq![OperandValue::Number(a as u32), OperandValue::Register(b)],
        Instruction::BitTestResetU32Mem(a, b) => seq![OperandValue::Number(a as u32), OperandValue::Number(b)],
        Instruction::BitTestSetU32Reg(a, b) => seq![OperandValue::Number(a as u32), OperandValue::Register(b)],
        Instruction::BitTestSetU32Mem(a, b) => seq![OperandValue::Number(a as u32), OperandValue::Number(b)],
        Instruction::BitScanReverseU32RegU32Reg(a, b) => seq![OperandValue::Register(a), OperandValue::Register(b)],
        Instruction::BitScanReverseU32MemU32Reg(a, b) => seq![OperandValue::Number(a), OperandValue::Register(b)],
        Instruction::BitScanReverseU32RegMemU32(a, b) => seq![OperandValue::Register(a), OperandValue::Number(b)],
        Instruction::BitScanReverseU32MemU32Mem(a, b) => seq![OperandValue::Number(a), OperandValue::Number(b)],
        Instruction::BitScanForwardU32RegU32Reg(a, b) => seq![OperandValue::Register(a), OperandValue::Register(b)],
        Instruction::BitScanForwardU32MemU32Reg(a, b) => seq![OperandValue::Number(a), OperandValue::Register(b)],
        Instruction::BitScanForwardU32RegMemU32(a, b) => seq![OperandValue::Register(a), OperandValue::Number(b)],
        Instruction::BitScanForwardU32MemU32Mem(a, b) => seq![OperandValue::Number(a), OperandValue::Number(b)],
        Instruction::Mret => seq![],
        Instruction::Hlt => seq![],
        _ => seq![],
    }
}

/// The operand value that an argument gives.
pub open spec fn value_of(a: Argument) -> OperandValue {
    match a {
        Argument::UnsignedInt(v) => OperandValue::Number(v as u32),
        Argument::RegisterU32(r) => OperandValue::Register(r),
        Argument::RegisterF32(r) => OperandValue::Register(r),
        Argument::Expression(e) => OperandValue::Number(packed(e)),
    }
}

/// Whether an operation can be named in assembly text (reserved operations, labels and
/// unknown operations cannot).
pub open spec fn is_selectable(op: OpCode) -> bool {
    mnemonics(op).len() > 0
}

/// Building an instruction from arguments that fit the kinds of a selectable operation
/// gives an instruction of that operation whose operands are the arguments' values, in
/// order, none of them cut down.
#[verifier::rlimit(50)]
pub proof fn lemma_built_operands(op: OpCode, args: Seq<Argument>)
    requires
        is_selectable(op),
        args_fit(op, args),
    ensures
        opcode_of(built_instruction(op, args)) == op,
        operand_values(built_instruction(op, args)) == args.map_values(|a: Argument| value_of(a)),
{
    let b = built_instruction(op, args);
    let vs = args.map_values(|a: Argument| value_of(a));
    if args.len() > 0 {
        assert(arg_fits(arg_hints(op)[0], args[0]));
        assert(arg_at(args, 0) == args[0]);
    }
    if args.len() > 1 {
        assert(arg_fits(arg_hints(op)[1], args[1]));
        assert(arg_at(args, 1) == args[1]);
    }
    if args.len() > 2 {
        assert(arg_fits(arg_hints(op)[2], args[2]));
        assert(arg_at(args, 2) == args[2]);
    }
    match op {
        OpCode::Nop => {
            assert(operand_values(b) =~= vs);
        },
        OpCode::AddU32ImmU32Reg => {
            assert(operand_values(b) =~= vs);
        },
        OpCode::AddU32RegU32Reg => {
            assert(operand_values(b) =~= vs);
        },
        OpCode::SubU32ImmU32Reg => {
            assert(operand_values(b) =~= vs);
        },
        OpCode::SubU32RegU32Imm => {
            assert(operand_values(b) =~= vs);
        },
        OpCode::SubU32RegU32Reg => {
            assert(operand_values(b) =~= vs);
        },
        OpCode::MulU32ImmU32Reg => {
            assert(operand_values(b) =~= vs);
        },
        OpCode::MulU32RegU32Reg => {
            assert(operand_values(b) =~= vs);
        },
        OpCode::DivU32ImmU32Reg => {
            assert(operand_values(b) =~= vs);
        },
        OpCode::DivU32RegU32Imm => {
            assert(operand_values(b) =~= vs);
        },
        OpCode::DivU32RegU32Reg => {
            assert(operand_values(b) =~= vs);
        },
        OpCode::ModU32ImmU32Reg => {
            assert(operand_values(b) =~= vs);
        },
        OpCode::ModU32RegU32Imm => {
            assert(operand_values(b) =~= vs);
        },
        OpCode::ModU32RegU32Reg => {
            assert(operand_values(b) =~= vs);
        },
        OpCode::IncU32Reg => {
            assert(operand_values(b) =~= vs);
        },
        OpCode::DecU32Reg => {
            assert(operand_values(b) =~= vs);
        },
        OpCode::AndU32ImmU32Reg => {
            assert(operand_values(b) =~= vs);
        },
        OpCode::LeftShiftU32ImmU32Reg => {
            assert(operand_values(b) =~= vs);
        },
        OpCode::LeftShiftU32RegU32Reg => {
            assert(operand_values(b) =~= vs);
        },
        OpCode::ArithLeftShiftU32ImmU32Reg => {
            assert(operand_values(b) =~= vs);
        },
        OpCode::ArithLeftShiftU32RegU32Reg => {
            assert(operand_values(b) =~= vs);
        },
        OpCode::RightShiftU32ImmU32Reg => {
            assert(operand_values(b) =~= vs);
        },
        OpCode::RightShiftU32RegU32Reg => {
            assert(operand_values(b) =~= vs);
        },
        OpCode::ArithRightShiftU32ImmU32Reg => {
            assert(operand_values(b) =~= vs);
        },
        OpCode::ArithRightShiftU32RegU32Reg => {
            assert(operand_values(b) =~= vs);
        },
        OpCode::CallU32Imm => {
            assert(operand_values(b) =~= vs);
        },
        OpCode::CallU32Reg => {
            assert(operand_values(b) =~= vs);
        },
        OpCode::RetArgsU32 => {
            assert(operand_values(b) =~= vs);
        },
        OpCode::Int => {
            assert(operand_values(b) =~= vs);
        },
        OpCode::IntRet => {
            assert(operand_values(b) =~= vs);
        },
        OpCode::JumpAbsU32Imm => {
            assert(operand_values(b) =~= vs);
        },
        OpCode::JumpAbsU32Reg => {
            assert(operand_values(b) =~= vs);
        },
        OpCode::SwapU32RegU32Reg => {
            assert(operand_values(b) =~= vs);
        },
        OpCode::MovU32ImmU32Reg => {
            assert(operand_values(b) =~= vs);
        },
        OpCode::MovU32RegU32Reg => {
            assert(operand_values(b) =~= vs);
        },
        OpCode::MovU32ImmMemSimple => {
            assert(operand_values(b) =~= vs);
        },
        OpCode::MovU32RegMemSimple => {
            assert(operand_values(b) =~= vs);
        },
        OpCode::MovMemU32RegSimple => {
            assert(operand_values(b) =~= vs);
        },
        OpCode::MovU32RegPtrU32RegSimple => {
            assert(operand_values(b) =~= vs);
        },
        OpCode::MovU32ImmMemExpr => {
            assert(operand_values(b) =~= vs);
        },
        OpCode::MovMemExprU32Reg => {
            assert(operand_values(b) =~= vs);
        },
        OpCode::MovU32RegMemExpr => {
            assert(operand_values(b) =~= vs);
        },
        OpCode::ByteSwapU32 => {
            assert(operand_values(b) =~= vs);
        },
        OpCode::ZeroHighBitsByIndexU32Reg => {
            assert(operand_values(b) =~= vs);
        },
        OpCode::ZeroHighBitsByIndexU32RegU32Imm => {
            assert(operand_values(b) =~= vs);
        },
        OpCode::PushU32Imm => {
            assert(operand_values(b) =~= vs);
        },
        OpCode::PopU32ImmU32Reg => {
            assert(operand_values(b) =~= vs);
        },
        OpCode::BitTestU32Reg => {
            assert(operand_values(b) =~= vs);
        },
        OpCode::BitTestU32Mem => {
            assert(operand_values(b) =~= vs);
        },
        OpCode::BitTestResetU32Reg => {
            assert(operand_values(b) =~= vs);
        },
        OpCode::BitTestResetU32Mem => {
            assert(operand_values(b) =~= vs);
        },
        OpCode::BitTestSetU32Reg => {
            assert(operand_values(b) =~= vs);
        },
        OpCode::BitTestSetU32Mem => {
            assert(operand_values(b) =~= vs);
        },
        OpCode::BitScanReverseU32RegU32Reg => {
            assert(operand_values(b) =~= vs);
        },
        OpCode::BitScanReverseU32MemU32Reg => {
            assert(operand_values(b) =~= vs);
        },
        OpCode::BitScanReverseU32RegMemU32 => {
            assert(operand_values(b) =~= vs);
        },
        OpCode::BitScanReverseU32MemU32Mem => {
            assert(operand_values(b) =~= vs);
        },
        OpCode::BitScanForwardU32RegU32Reg => {
            assert(operand_values(b) =~= vs);
        },
        OpCode::BitScanForwardU32MemU32Reg => {
            assert(operand_values(b) =~= vs);
        },
        OpCode::BitScanForwardU32RegMemU32 => {
            assert(operand_values(b) =~= vs);
        },
        OpCode::BitScanForwardU32MemU32Mem => {
            assert(operand_values(b) =~= vs);
        },
        OpCode::Mret => {
            assert(operand_values(b) =~= vs);
        },
        OpCode::Hlt => {
            assert(operand_values(b) =~= vs);
        },
        OpCode::Reserved1 => {
            assert(operand_values(b) =~= vs);
        },
        OpCode::Reserved2 => {
            assert(operand_values(b) =~= vs);
        },
        OpCode::Reserved3 => {
            assert(operand_values(b) =~= vs);
        },
        OpCode::Reserved4 => {
            assert(operand_values(b) =~= vs);
        },
        OpCode::Reserved5 => {
            assert(operand_values(b) =~= vs);
        },
        OpCode::Reserved6 => {
            assert(operand_values(b) =~= vs);
        },
        OpCode::Reserved7 => {
            assert(operand_values(b) =~= vs);
        },
        OpCode::Reserved8 => {
            assert(operand_values(b) =~= vs);
        },
        OpCode::Reserved9 => {
            assert(operand_values(b) =~= vs);
        },
        OpCode::Label => {
            assert(operand_values(b) =~= vs);
        },
        OpCode::Unknown => {
            assert(operand_values(b) =~= vs);
        },
    }
}

/// Try to build an [`Instruction`] from an [`OpCode`] and its arguments, each taken as the
/// kind that the operation asks for.
///
/// # Arguments
///
/// * `opcode` - The [`OpCode`] for the instruction.
/// * `args` - The arguments to be used to build the instruction.
pub fn try_build_instruction(opcode: OpCode, args: &[Argument]) -> (ins: Instruction)
    requires
        is_selectable(opcode),
        args_fit(opcode, args@),
    ensures
        ins == built_instruction(opcode, args@),
{
    let x0 = if args.len() > 0 {
        args[0]
    } else {
        Argument::UnsignedInt(0)
    };
    let x1 = if args.len() > 1 {
        args[1]
    } else {
        Argument::UnsignedInt(0)
    };
    let x2 = if args.len() > 2 {
        args[2]
    } else {
        Argument::UnsignedInt(0)
    };
    let u0 = u32_arg(&x0);
    let u1 = u32_arg(&x1);
    let b0 = u8_arg(&x0);
    let r0 = reg_arg(&x0);
    let r1 = reg_arg(&x1);
    let r2 = reg_arg(&x2);
    let e0 = expr_arg(&x0);
    let e1 = expr_arg(&x1);
    match opcode {
        OpCode::Nop => Instruction::Nop,
        OpCode::AddU32ImmU32Reg => Instruction::AddU32ImmU32Reg(u0, r1),
        OpCode::AddU32RegU32Reg => Instruction::AddU32RegU32Reg(r0, r1),
        OpCode::SubU32ImmU32Reg => Instruction::SubU32ImmU32Reg(u0, r1),
        OpCode::SubU32RegU32Imm => Instruction::SubU32RegU32Imm(r0, u1),
        OpCode::SubU32RegU32Reg => Instruction::SubU32RegU32Reg(r0, r1),
        OpCode::MulU32ImmU32Reg => Instruction::MulU32ImmU32Reg(u0, r1),
        OpCode::MulU32RegU32Reg => Instruction::MulU32RegU32Reg(r0, r1),
        OpCode::DivU32ImmU32Reg => Instruction::DivU32ImmU32Reg(u0, r1),
        OpCode::DivU32RegU32Imm => Instruction::DivU32RegU32Imm(r0, u1),
        OpCode::DivU32RegU32Reg => Instruction::DivU32RegU32Reg(r0, r1),
        OpCode::ModU32ImmU32Reg => Instruction::ModU32ImmU32Reg(u0, r1),
        OpCode::ModU32RegU32Imm => Instruction::ModU32RegU32Imm(r0, u1),
        OpCode::ModU32RegU32Reg => Instruction::ModU32RegU32Reg(r0, r1),
        OpCode::IncU32Reg => Instruction::IncU32Reg(r0),
        OpCode::DecU32Reg => Instruction::DecU32Reg(r0),
        OpCode::AndU32ImmU32Reg => Instruction::AndU32ImmU32Reg(u0, r1),
        OpCode::LeftShiftU32ImmU32Reg => Instruction::LeftShiftU32ImmU32Reg(u0, r1),
        OpCode::LeftShiftU32RegU32Reg => Instruction::LeftShiftU32RegU32Reg(r0, r1),
        OpCode::ArithLeftShiftU32ImmU32Reg => Instruction::ArithLeftShiftU32ImmU32Reg(u0, r1),
        OpCode::ArithLeftShiftU32RegU32Reg => Instruction::ArithLeftShiftU32RegU32Reg(r0, r1),
        OpCode::RightShiftU32ImmU32Reg => Instruction::RightShiftU32ImmU32Reg(u0, r1),
        OpCode::RightShiftU32RegU32Reg => Instruction::RightShiftU32RegU32Reg(r0, r1),
        OpCode::ArithRightShiftU32ImmU32Reg => Instruction::ArithRightShiftU32ImmU32Reg(u0, r1),
        OpCode::ArithRightShiftU32RegU32Reg => Instruction::ArithRightShiftU32RegU32Reg(r0, r1),
        OpCode::CallU32Imm => Instruction::CallU32Imm(u0),
        OpCode::CallU32Reg => Instruction::CallU32Reg(r0),
        OpCode::RetArgsU32 => Instruction::RetArgsU32,
        OpCode::Int => Instruction::Int(b0),
        OpCode::IntRet => Instruction::IntRet,
        OpCode::JumpAbsU32Imm => Instruction::JumpAbsU32Imm(u0),
        OpCode::JumpAbsU32Reg => Instruction::JumpAbsU32Reg(r0),
        OpCode::SwapU32RegU32Reg => Instruction::SwapU32RegU32Reg(r0, r1),
        OpCode::MovU32ImmU32Reg => Instruction::MovU32ImmU32Reg(u0, r1),
        OpCode::MovU32RegU32Reg => Instruction::MovU32RegU32Reg(r0, r1),
        OpCode::MovU32ImmMemSimple => Instruction::MovU32ImmMemSimple(u0, u1),
        OpCode::MovU32RegMemSimple => Instruction::MovU32RegMemSimple(r0, u1),
        OpCode::MovMemU32RegSimple => Instruction::MovMemU32RegSimple(u0, r1),
        OpCode::MovU32RegPtrU32RegSimple => Instruction::MovU32RegPtrU32RegSimple(r0, r1),
        OpCode::MovU32ImmMemExpr => Instruction::MovU32ImmMemExpr(u0, e1),
        OpCode::MovMemExprU32Reg => Instruction::MovMemExprU32Reg(e0, r1),
        OpCode::MovU32RegMemExpr => Instruction::MovU32RegMemExpr(r0, e1),
        OpCode::ByteSwapU32 => Instruction::ByteSwapU32(r0),
        OpCode::ZeroHighBitsByIndexU32Reg => Instruction::ZeroHighBitsByIndexU32Reg(r0, r1, r2),
        OpCode::ZeroHighBitsByIndexU32RegU32Imm => Instruction::ZeroHighBitsByIndexU32RegU32Imm(u0, r1, r2),
        OpCode::PushU32Imm => Instruction::PushU32Imm(u0),
        OpCode::PopU32ImmU32Reg => Instruction::PopU32ImmU32Reg(r0),
        OpCode::BitTestU32Reg => Instruction::BitTestU32Reg(b0, r1),
        OpCode::BitTestU32Mem => Instruction::BitTestU32Mem(b0, u1),
        OpCode::BitTestResetU32Reg => Instruction::BitTestResetU32Reg(b0, r1),
        OpCode::BitTestResetU32Mem => Instruction::BitTestResetU32Mem(b0, u1),
        OpCode::BitTestSetU32Reg => Instruction::BitTestSetU32Reg(b0, r1),
        OpCode::BitTestSetU32Mem => Instruction::BitTestSetU32Mem(b0, u1),
        OpCode::BitScanReverseU32RegU32Reg => Instruction::BitScanReverseU32RegU32Reg(r0, r1),
        OpCode::BitScanReverseU32MemU32Reg => Instruction::BitScanReverseU32MemU32Reg(u0, r1),
        OpCode::BitScanReverseU32RegMemU32 => Instruction::BitScanReverseU32RegMemU32(r0, u1),
        OpCode::BitScanReverseU32MemU32Mem => Instruction::BitScanReverseU32MemU32Mem(u0, u1),
        OpCode::BitScanForwardU32RegU32Reg => Instruction::BitScanForwardU32RegU32Reg(r0, r1),
        OpCode::BitScanForwardU32MemU32Reg => Instruction::BitScanForwardU32MemU32Reg(u0, r1),
        OpCode::BitScanForwardU32RegMemU32 => Instruction::BitScanForwardU32RegMemU32(r0, u1),
        OpCode::BitScanForwardU32MemU32Mem => Instruction::BitScanForwardU32MemU32Mem(u0, u1),
        OpCode::Mret => Instruction::Mret,
        OpCode::Hlt => Instruction::Hlt,
        // Not reached: the operations left have no mnemonic.
        _ => Instruction::Unknown(0),
    }
}

} // verus!
