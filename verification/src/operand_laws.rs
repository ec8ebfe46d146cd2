//! Laws that tie the operation tables to the instructions themselves: the encoded size and
//! the argument kinds of each operation follow the types of its instruction's fields, each
//! register has the name its kind and number give it, and the numbers in an expression are
//! read as immediates are read anywhere else.
use vstd::prelude::*;

use crate::arguments::{expr_operand, AsmError};
use crate::builder::operand_values;
use crate::expressions::{unpacked, ExpressionArgs};
use crate::immediates::{immediate_value, lemma_immediate_bound, ParseIntError};
use crate::instruction::{arg_size, opcode_of, operand_layout, operand_width, operands_width, Instruction, OperandKind};
use crate::listing::{decimal_digit, has_listing};
use crate::registers::{is_f32_register, is_u32_register, register_code, register_name, register_named, RegisterId};
use crate::round_trip::{expression_reads_back, listing_reads_back, value_reads_back};
use crate::type_hints::{arg_hints, ArgTypeHint};

verus! {

/// The size of a u32 field, in bytes.
pub open spec fn u32_bytes(_v: u32) -> nat {
    4
}

/// The size of a u8 field, in bytes.
pub open spec fn u8_bytes(_v: u8) -> nat {
    1
}

/// The size of a register field (its identifier), in bytes.
pub open spec fn register_bytes(_r: RegisterId) -> nat {
    1
}

/// The sizes of the fields of an instruction, in order, each given by the field's type.
pub open spec fn field_widths(i: Instruction) -> Seq<nat> {
    match i {
        Instruction::Nop => seq![],
        Instruction::AddU32ImmU32Reg(x0, x1) => seq![u32_bytes(x0), register_bytes(x1)],
        Instruction::AddU32RegU32Reg(x0, x1) => seq![register_bytes(x0), register_bytes(x1)],
        Instruction::SubU32ImmU32Reg(x0, x1) => seq![u32_bytes(x0), register_bytes(x1)],
        Instruction::SubU32RegU32Imm(x0, x1) => seq![register_bytes(x0), u32_bytes(x1)],
        Instruction::SubU32RegU32Reg(x0, x1) => seq![register_bytes(x0), register_bytes(x1)],
        Instruction::MulU32ImmU32Reg(x0, x1) => seq![u32_bytes(x0), register_bytes(x1)],
        Instruction::MulU32RegU32Reg(x0, x1) => seq![register_bytes(x0), register_bytes(x1)],
        Instruction::DivU32ImmU32Reg(x0, x1) => seq![u32_bytes(x0), register_bytes(x1)],
        Instruction::DivU32RegU32Imm(x0, x1) => seq![register_bytes(x0), u32_bytes(x1)],
        Instruction::DivU32RegU32Reg(x0, x1) => seq![register_bytes(x0), register_bytes(x1)],
        Instruction::ModU32ImmU32Reg(x0, x1) => seq![u32_bytes(x0), register_bytes(x1)],
        Instruction::ModU32RegU32Imm(x0, x1) => seq![register_bytes(x0), u32_bytes(x1)],
        Instruction::ModU32RegU32Reg(x0, x1) => seq![register_bytes(x0), register_bytes(x1)],
        Instruction::IncU32Reg(x0) => seq![register_bytes(x0)],
        Instruction::DecU32Reg(x0) => seq![register_bytes(x0)],
        Instruction::AndU32ImmU32Reg(x0, x1) => seq![u32_bytes(x0), register_bytes(x1)],
        Instruction::LeftShiftU32ImmU32Reg(x0, x1) => seq![u32_bytes(x0), register_bytes(x1)],
        Instruction::LeftShiftU32RegU32Reg(x0, x1) => seq![register_bytes(x0), register_bytes(x1)],
        Instruction::ArithLeftShiftU32ImmU32Reg(x0, x1) => seq![u32_bytes(x0), register_bytes(x1)],
        Instruction::ArithLeftShiftU32RegU32Reg(x0, x1) => seq![register_bytes(x0), register_bytes(x1)],
        Instruction::RightShiftU32ImmU32Reg(x0, x1) => seq![u32_bytes(x0), register_bytes(x1)],
        Instruction::RightShiftU32RegU32Reg(x0, x1) => seq![register_bytes(x0), register_bytes(x1)],
        Instruction::ArithRightShiftU32ImmU32Reg(x0, x1) => seq![u32_bytes(x0), register_bytes(x1)],
        Instruction::ArithRightShiftU32RegU32Reg(x0, x1) => seq![register_bytes(x0), register_bytes(x1)],
        Instruction::CallU32Imm(x0) => seq![u32_bytes(x0)],
        Instruction::CallU32Reg(x0) => seq![register_bytes(x0)],
        Instruction::RetArgsU32 => seq![],
        Instruction::Int(x0) => seq![u8_bytes(x0)],
        Instruction::IntRet => seq![],
        Instruction::JumpAbsU32Imm(x0) => seq![u32_bytes(x0)],
        Instruction::JumpAbsU32Reg(x0) => seq![register_bytes(x0)],
        Instruction::SwapU32RegU32Reg(x0, x1) => seq![register_bytes(x0), register_bytes(x1)],
        Instruction::MovU32ImmU32Reg(x0, x1) => seq![u32_bytes(x0), register_bytes(x1)],
        Instruction::MovU32RegU32Reg(x0, x1) => seq![register_bytes(x0), register_bytes(x1)],
        Instruction::MovU32ImmMemSimple(x0, x1) => seq![u32_bytes(x0), u32_bytes(x1)],
        Instruction::MovU32RegMemSimple(x0, x1) => seq![register_bytes(x0), u32_bytes(x1)],
        Instruction::MovMemU32RegSimple(x0, x1) => seq![u32_bytes(x0), register_bytes(x1)],
        Instruction::MovU32RegPtrU32RegSimple(x0, x1) => seq![register_bytes(x0), register_bytes(x1)],
        Instruction::MovU32ImmMemExpr(x0, x1) => seq![u32_bytes(x0), u32_bytes(x1)],
        Instruction::MovMemExprU32Reg(x0, x1) => seq![u32_bytes(x0), register_bytes(x1)],
        Instruction::MovU32RegMemExpr(x0, x1) => seq![register_bytes(x0), u32_bytes(x1)],
        Instruction::ByteSwapU32(x0) => seq![register_bytes(x0)],
        Instruction::ZeroHighBitsByIndexU32Reg(x0, x1, x2) => seq![register_bytes(x0), register_bytes(x1), register_bytes(x2)],
        Instruction::ZeroHighBitsByIndexU32RegU32Imm(x0, x1, x2) => seq![u32_bytes(x0), register_bytes(x1), register_bytes(x2)],
        Instruction::PushU32Imm(x0) => seq![u32_bytes(x0)],
        Instruction::PopU32ImmU32Reg(x0) => seq![register_bytes(x0)],
        Instruction::BitTestU32Reg(x0, x1) => seq![u8_bytes(x0), register_bytes(x1)],
        Instruction::BitTestU32Mem(x0, x1) => seq![u8_bytes(x0), u32_bytes(x1)],
        Instruction::BitTestResetU32Reg(x0, x1) => seq![u8_bytes(x0), register_bytes(x1)],
        Instruction::BitTestResetU32Mem(x0, x1) => seq![u8_bytes(x0), u32_bytes(x1)],
        Instruction::BitTestSetU32Reg(x0, x1) => seq![u8_bytes(x0), register_bytes(x1)],
        Instruction::BitTestSetU32Mem(x0, x1) => seq![u8_bytes(x0), u32_bytes(x1)],
        Instruction::BitScanReverseU32RegU32Reg(x0, x1) => seq![register_bytes(x0), register_bytes(x1)],
        Instruction::BitScanReverseU32MemU32Reg(x0, x1) => seq![u32_bytes(x0), register_bytes(x1)],
        Instruction::BitScanReverseU32RegMemU32(x0, x1) => seq![register_bytes(x0), u32_bytes(x1)],
        Instruction::BitScanReverseU32MemU32Mem(x0, x1) => seq![u32_bytes(x0), u32_bytes(x1)],
        Instruction::BitScanForwardU32RegU32Reg(x0, x1) => seq![register_bytes(x0), register_bytes(x1)],
        Instruction::BitScanForwardU32MemU32Reg(x0, x1) => seq![u32_bytes(x0), register_bytes(x1)],
        Instruction::BitScanForwardU32RegMemU32(x0, x1) => seq![register_bytes(x0), u32_bytes(x1)],
        Instruction::BitScanForwardU32MemU32Mem(x0, x1) => seq![u32_bytes(x0), u32_bytes(x1)],
        Instruction::Mret => seq![],
        Instruction::Hlt => seq![],
        Instruction::Reserved1 => seq![],
        Instruction::Reserved2 => seq![],
        Instruction::Reserved3 => seq![],
        Instruction::Reserved4 => seq![],
        Instruction::Reserved5 => seq![],
        Instruction::Reserved6 => seq![],
        Instruction::Reserved7 => seq![],
        Instruction::Reserved8 => seq![],
        Instruction::Reserved9 => seq![],
        Instruction::Label(_) => seq![],
        Instruction::Unknown(x0) => seq![u32_bytes(x0)],
    }
}

/// The registers held by the fields of an instruction, in order.
pub open spec fn field_registers(i: Instruction) -> Seq<RegisterId> {
    match i {
        Instruction::Nop => seq![],
        Instruction::AddU32ImmU32Reg(_, x1) => seq![x1],
        Instruction::AddU32RegU32Reg(x0, x1) => seq![x0, x1],
        Instruction::SubU32ImmU32Reg(_, x1) => seq![x1],
        Instruction::SubU32RegU32Imm(x0, _) => seq![x0],
        Instruction::SubU32RegU32Reg(x0, x1) => seq![x0, x1],
        Instruction::MulU32ImmU32Reg(_, x1) => seq![x1],
        Instruction::MulU32RegU32Reg(x0, x1) => seq![x0, x1],
        Instruction::DivU32ImmU32Reg(_, x1) => seq![x1],
        Instruction::DivU32RegU32Imm(x0, _) => seq![x0],
        Instruction::DivU32RegU32Reg(x0, x1) => seq![x0, x1],
        Instruction::ModU32ImmU32Reg(_, x1) => seq![x1],
        Instruction::ModU32RegU32Imm(x0, _) => seq![x0],
        Instruction::ModU32RegU32Reg(x0, x1) => seq![x0, x1],
        Instruction::IncU32Reg(x0) => seq![x0],
        Instruction::DecU32Reg(x0) => seq![x0],
        Instruction::AndU32ImmU32Reg(_, x1) => seq![x1],
        Instruction::LeftShiftU32ImmU32Reg(_, x1) => seq![x1],
        Instruction::LeftShiftU32RegU32Reg(x0, x1) => seq![x0, x1],
        Instruction::ArithLeftShiftU32ImmU32Reg(_, x1) => seq![x1],
        Instruction::ArithLeftShiftU32RegU32Reg(x0, x1) => seq![x0, x1],
        Instruction::RightShiftU32ImmU32Reg(_, x1) => seq![x1],
        Instruction::RightShiftU32RegU32Reg(x0, x1) => seq![x0, x1],
        Instruction::ArithRightShiftU32ImmU32Reg(_, x1) => seq![x1],
        Instruction::ArithRightShiftU32RegU32Reg(x0, x1) => seq![x0, x1],
        Instruction::CallU32Imm(_) => seq![],
        Instruction::CallU32Reg(x0) => seq![x0],
        Instruction::RetArgsU32 => seq![],
        Instruction::Int(_) => seq![],
        Instruction::IntRet => seq![],
        Instruction::JumpAbsU32Imm(_) => seq![],
        Instruction::JumpAbsU32Reg(x0) => seq![x0],
        Instruction::SwapU32RegU32Reg(x0, x1) => seq![x0, x1],
        Instruction::MovU32ImmU32Reg(_, x1) => seq![x1],
        Instruction::MovU32RegU32Reg(x0, x1) => seq![x0, x1],
        Instruction::MovU32ImmMemSimple(_, _) => seq![],
        Instruction::MovU32RegMemSimple(x0, _) => seq![x0],
        Instruction::MovMemU32RegSimple(_, x1) => seq![x1],
        Instruction::MovU32RegPtrU32RegSimple(x0, x1) => seq![x0, x1],
        Instruction::MovU32ImmMemExpr(_, _) => seq![],
        Instruction::MovMemExprU32Reg(_, x1) => seq![x1],
        Instruction::MovU32RegMemExpr(x0, _) => seq![x0],
        Instruction::ByteSwapU32(x0) => seq![x0],
        Instruction::ZeroHighBitsByIndexU32Reg(x0, x1, x2) => seq![x0, x1, x2],
        Instruction::ZeroHighBitsByIndexU32RegU32Imm(_, x1, x2) => seq![x1, x2],
        Instruction::PushU32Imm(_) => seq![],
        Instruction::PopU32ImmU32Reg(x0) => seq![x0],
        Instruction::BitTestU32Reg(_, x1) => seq![x1],
        Instruction::BitTestU32Mem(_, _) => seq![],
        Instruction::BitTestResetU32Reg(_, x1) => seq![x1],
        Instruction::BitTestResetU32Mem(_, _) => seq![],
        Instruction::BitTestSetU32Reg(_, x1) => seq![x1],
        Instruction::BitTestSetU32Mem(_, _) => seq![],
        Instruction::BitScanReverseU32RegU32Reg(x0, x1) => seq![x0, x1],
        Instruction::BitScanReverseU32MemU32Reg(_, x1) => seq![x1],
        Instruction::BitScanReverseU32RegMemU32(x0, _) => seq![x0],
        Instruction::BitScanReverseU32MemU32Mem(_, _) => seq![],
        Instruction::BitScanForwardU32RegU32Reg(x0, x1) => seq![x0, x1],
        Instruction::BitScanForwardU32MemU32Reg(_, x1) => seq![x1],
        Instruction::BitScanForwardU32RegMemU32(x0, _) => seq![x0],
        Instruction::BitScanForwardU32MemU32Mem(_, _) => seq![],
        Instruction::Mret => seq![],
        Instruction::Hlt => seq![],
        Instruction::Reserved1 => seq![],
        Instruction::Reserved2 => seq![],
        Instruction::Reserved3 => seq![],
        Instruction::Reserved4 => seq![],
        Instruction::Reserved5 => seq![],
        Instruction::Reserved6 => seq![],
        Instruction::Reserved7 => seq![],
        Instruction::Reserved8 => seq![],
        Instruction::Reserved9 => seq![],
        Instruction::Label(_) => seq![],
        Instruction::Unknown(_) => seq![],
    }
}

/// The packed expressions held by the fields of an instruction: the address field of the
/// three moves through an expression.
pub open spec fn expression_fields(i: Instruction) -> Seq<u32> {
    match i {
        Instruction::MovU32ImmMemExpr(_, e) => seq![e],
        Instruction::MovMemExprU32Reg(e, _) => seq![e],
        Instruction::MovU32RegMemExpr(_, e) => seq![e],
        _ => seq![],
    }
}

/// The sum of a sequence of sizes.
pub open spec fn total(s: Seq<nat>) -> nat
    decreases s.len(),
{
    if s.len() == 0 {
        0
    } else {
        s[0] + total(s.drop_first())
    }
}

/// The size, in bytes, of the field that an argument of a kind fills.
pub open spec fn kind_bytes(h: ArgTypeHint) -> nat {
    match h {
        ArgTypeHint::U8 | ArgTypeHint::U8Pointer => 1,
        ArgTypeHint::U32 | ArgTypeHint::U32Pointer => 4,
        ArgTypeHint::RegisterU32 | ArgTypeHint::RegisterU32Pointer | ArgTypeHint::RegisterF32 => 1,
        ArgTypeHint::Expression | ArgTypeHint::ExpressionPointer => 4,
    }
}

/// Kinds whose widths are the given sizes, one for one, have the sizes' total width.
proof fn lemma_widths_total(ks: Seq<OperandKind>, ws: Seq<nat>)
    requires
        ks.len() == ws.len(),
        forall|k: int| 0 <= k < ks.len() ==> operand_width(#[trigger] ks[k]) == ws[k],
    ensures
        operands_width(ks) == total(ws),
    decreases ks.len(),
{
    if ks.len() > 0 {
        assert forall|k: int| 0 <= k < ks.len() - 1 implies operand_width(
            #[trigger] ks.drop_first()[k],
        ) == ws.drop_first()[k] by {
            assert(ks.drop_first()[k] == ks[k + 1]);
        }
        lemma_widths_total(ks.drop_first(), ws.drop_first());
    }
}

/// The argument size of an instruction's operation is the total size of the instruction's
/// fields, each sized by its type: a u32 field takes 4 bytes, a u8 field 1 and a register 1.
pub proof fn lemma_arg_size_is_field_sizes(i: Instruction)
    requires
        has_listing(i),
        !(i is Unknown),
    ensures
        arg_size(opcode_of(i)) == total(field_widths(i)),
{
    match i {
        Instruction::Nop => {
            assert(operand_layout(opcode_of(i)).len() == 0);
        },
        Instruction::AddU32ImmU32Reg(..) => {
            assert(operand_layout(opcode_of(i)).len() == 2);
            assert(operand_width(operand_layout(opcode_of(i))[0]) == field_widths(i)[0]);
            assert(operand_width(operand_layout(opcode_of(i))[1]) == field_widths(i)[1]);
        },
        Instruction::AddU32RegU32Reg(..) => {
            assert(operand_layout(opcode_of(i)).len() == 2);
            assert(operand_width(operand_layout(opcode_of(i))[0]) == field_widths(i)[0]);
            assert(operand_width(operand_layout(opcode_of(i))[1]) == field_widths(i)[1]);
        },
        Instruction::SubU32ImmU32Reg(..) => {
            assert(operand_layout(opcode_of(i)).len() == 2);
            assert(operand_width(operand_layout(opcode_of(i))[0]) == field_widths(i)[0]);
            assert(operand_width(operand_layout(opcode_of(i))[1]) == field_widths(i)[1]);
        },
        Instruction::SubU32RegU32Imm(..) => {
            assert(operand_layout(opcode_of(i)).len() == 2);
            assert(operand_width(operand_layout(opcode_of(i))[0]) == field_widths(i)[0]);
            assert(operand_width(operand_layout(opcode_of(i))[1]) == field_widths(i)[1]);
        },
        Instruction::SubU32RegU32Reg(..) => {
            assert(operand_layout(opcode_of(i)).len() == 2);
            assert(operand_width(operand_layout(opcode_of(i))[0]) == field_widths(i)[0]);
            assert(operand_width(operand_layout(opcode_of(i))[1]) == field_widths(i)[1]);
        },
        Instruction::MulU32ImmU32Reg(..) => {
            assert(operand_layout(opcode_of(i)).len() == 2);
            assert(operand_width(operand_layout(opcode_of(i))[0]) == field_widths(i)[0]);
            assert(operand_width(operand_layout(opcode_of(i))[1]) == field_widths(i)[1]);
        },
        Instruction::MulU32RegU32Reg(..) => {
            assert(operand_layout(opcode_of(i)).len() == 2);
            assert(operand_width(operand_layout(opcode_of(i))[0]) == field_widths(i)[0]);
            assert(operand_width(operand_layout(opcode_of(i))[1]) == field_widths(i)[1]);
        },
        Instruction::DivU32ImmU32Reg(..) => {
            assert(operand_layout(opcode_of(i)).len() == 2);
            assert(operand_width(operand_layout(opcode_of(i))[0]) == field_widths(i)[0]);
            assert(operand_width(operand_layout(opcode_of(i))[1]) == field_widths(i)[1]);
        },
        Instruction::DivU32RegU32Imm(..) => {
            assert(operand_layout(opcode_of(i)).len() == 2);
            assert(operand_width(operand_layout(opcode_of(i))[0]) == field_widths(i)[0]);
            assert(operand_width(operand_layout(opcode_of(i))[1]) == field_widths(i)[1]);
        },
        Instruction::DivU32RegU32Reg(..) => {
            assert(operand_layout(opcode_of(i)).len() == 2);
            assert(operand_width(operand_layout(opcode_of(i))[0]) == field_widths(i)[0]);
            assert(operand_width(operand_layout(opcode_of(i))[1]) == field_widths(i)[1]);
        },
        Instruction::ModU32ImmU32Reg(..) => {
            assert(operand_layout(opcode_of(i)).len() == 2);
            assert(operand_width(operand_layout(opcode_of(i))[0]) == field_widths(i)[0]);
            assert(operand_width(operand_layout(opcode_of(i))[1]) == field_widths(i)[1]);
        },
        Instruction::ModU32RegU32Imm(..) => {
            assert(operand_layout(opcode_of(i)).len() == 2);
            assert(operand_width(operand_layout(opcode_of(i))[0]) == field_widths(i)[0]);
            assert(operand_width(operand_layout(opcode_of(i))[1]) == field_widths(i)[1]);
        },
        Instruction::ModU32RegU32Reg(..) => {
            assert(operand_layout(opcode_of(i)).len() == 2);
            assert(operand_width(operand_layout(opcode_of(i))[0]) == field_widths(i)[0]);
            assert(operand_width(operand_layout(opcode_of(i))[1]) == field_widths(i)[1]);
        },
        Instruction::IncU32Reg(..) => {
            assert(operand_layout(opcode_of(i)).len() == 1);
            assert(operand_width(operand_layout(opcode_of(i))[0]) == field_widths(i)[0]);
        },
        Instruction::DecU32Reg(..) => {
            assert(operand_layout(opcode_of(i)).len() == 1);
            assert(operand_width(operand_layout(opcode_of(i))[0]) == field_widths(i)[0]);
        },
        Instruction::AndU32ImmU32Reg(..) => {
            assert(operand_layout(opcode_of(i)).len() == 2);
            assert(operand_width(operand_layout(opcode_of(i))[0]) == field_widths(i)[0]);
            assert(operand_width(operand_layout(opcode_of(i))[1]) == field_widths(i)[1]);
        },
        Instruction::LeftShiftU32ImmU32Reg(..) => {
            assert(operand_layout(opcode_of(i)).len() == 2);
            assert(operand_width(operand_layout(opcode_of(i))[0]) == field_widths(i)[0]);
            assert(operand_width(operand_layout(opcode_of(i))[1]) == field_widths(i)[1]);
        },
        Instruction::LeftShiftU32RegU32Reg(..) => {
            assert(operand_layout(opcode_of(i)).len() == 2);
            assert(operand_width(operand_layout(opcode_of(i))[0]) == field_widths(i)[0]);
            assert(operand_width(operand_layout(opcode_of(i))[1]) == field_widths(i)[1]);
        },
        Instruction::ArithLeftShiftU32ImmU32Reg(..) => {
            assert(operand_layout(opcode_of(i)).len() == 2);
            assert(operand_width(operand_layout(opcode_of(i))[0]) == field_widths(i)[0]);
            assert(operand_width(operand_layout(opcode_of(i))[1]) == field_widths(i)[1]);
        },
        Instruction::ArithLeftShiftU32RegU32Reg(..) => {
            assert(operand_layout(opcode_of(i)).len() == 2);
            assert(operand_width(operand_layout(opcode_of(i))[0]) == field_widths(i)[0]);
            assert(operand_width(operand_layout(opcode_of(i))[1]) == field_widths(i)[1]);
        },
        Instruction::RightShiftU32ImmU32Reg(..) => {
            assert(operand_layout(opcode_of(i)).len() == 2);
            assert(operand_width(operand_layout(opcode_of(i))[0]) == field_widths(i)[0]);
            assert(operand_width(operand_layout(opcode_of(i))[1]) == field_widths(i)[1]);
        },
        Instruction::RightShiftU32RegU32Reg(..) => {
            assert(operand_layout(opcode_of(i)).len() == 2);
            assert(operand_width(operand_layout(opcode_of(i))[0]) == field_widths(i)[0]);
            assert(operand_width(operand_layout(opcode_of(i))[1]) == field_widths(i)[1]);
        },
        Instruction::ArithRightShiftU32ImmU32Reg(..) => {
            assert(operand_layout(opcode_of(i)).len() == 2);
            assert(operand_width(operand_layout(opcode_of(i))[0]) == field_widths(i)[0]);
            assert(operand_width(operand_layout(opcode_of(i))[1]) == field_widths(i)[1]);
        },
        Instruction::ArithRightShiftU32RegU32Reg(..) => {
            assert(operand_layout(opcode_of(i)).len() == 2);
            assert(operand_width(operand_layout(opcode_of(i))[0]) == field_widths(i)[0]);
            assert(operand_width(operand_layout(opcode_of(i))[1]) == field_widths(i)[1]);
        },
        Instruction::CallU32Imm(..) => {
            assert(operand_layout(opcode_of(i)).len() == 1);
            assert(operand_width(operand_layout(opcode_of(i))[0]) == field_widths(i)[0]);
        },
        Instruction::CallU32Reg(..) => {
            assert(operand_layout(opcode_of(i)).len() == 1);
            assert(operand_width(operand_layout(opcode_of(i))[0]) == field_widths(i)[0]);
        },
        Instruction::RetArgsU32 => {
            assert(operand_layout(opcode_of(i)).len() == 0);
        },
        Instruction::Int(..) => {
            assert(operand_layout(opcode_of(i)).len() == 1);
            assert(operand_width(operand_layout(opcode_of(i))[0]) == field_widths(i)[0]);
        },
        Instruction::IntRet => {
            assert(operand_layout(opcode_of(i)).len() == 0);
        },
        Instruction::JumpAbsU32Imm(..) => {
            assert(operand_layout(opcode_of(i)).len() == 1);
            assert(operand_width(operand_layout(opcode_of(i))[0]) == field_widths(i)[0]);
        },
        Instruction::JumpAbsU32Reg(..) => {
            assert(operand_layout(opcode_of(i)).len() == 1);
            assert(operand_width(operand_layout(opcode_of(i))[0]) == field_widths(i)[0]);
        },
        Instruction::SwapU32RegU32Reg(..) => {
            assert(operand_layout(opcode_of(i)).len() == 2);
            assert(operand_width(operand_layout(opcode_of(i))[0]) == field_widths(i)[0]);
            assert(operand_width(operand_layout(opcode_of(i))[1]) == field_widths(i)[1]);
        },
        Instruction::MovU32ImmU32Reg(..) => {
            assert(operand_layout(opcode_of(i)).len() == 2);
            assert(operand_width(operand_layout(opcode_of(i))[0]) == field_widths(i)[0]);
            assert(operand_width(operand_layout(opcode_of(i))[1]) == field_widths(i)[1]);
        },
        Instruction::MovU32RegU32Reg(..) => {
            assert(operand_layout(opcode_of(i)).len() == 2);
            assert(operand_width(operand_layout(opcode_of(i))[0]) == field_widths(i)[0]);
            assert(operand_width(operand_layout(opcode_of(i))[1]) == field_widths(i)[1]);
        },
        Instruction::MovU32ImmMemSimple(..) => {
            assert(operand_layout(opcode_of(i)).len() == 2);
            assert(operand_width(operand_layout(opcode_of(i))[0]) == field_widths(i)[0]);
            assert(operand_width(operand_layout(opcode_of(i))[1]) == field_widths(i)[1]);
        },
        Instruction::MovU32RegMemSimple(..) => {
            assert(operand_layout(opcode_of(i)).len() == 2);
            assert(operand_width(operand_layout(opcode_of(i))[0]) == field_widths(i)[0]);
            assert(operand_width(operand_layout(opcode_of(i))[1]) == field_widths(i)[1]);
        },
        Instruction::MovMemU32RegSimple(..) => {
            assert(operand_layout(opcode_of(i)).len() == 2);
            assert(operand_width(operand_layout(opcode_of(i))[0]) == field_widths(i)[0]);
            assert(operand_width(operand_layout(opcode_of(i))[1]) == field_widths(i)[1]);
        },
        Instruction::MovU32RegPtrU32RegSimple(..) => {
            assert(operand_layout(opcode_of(i)).len() == 2);
            assert(operand_width(operand_layout(opcode_of(i))[0]) == field_widths(i)[0]);
            assert(operand_width(operand_layout(opcode_of(i))[1]) == field_widths(i)[1]);
        },
        Instruction::MovU32ImmMemExpr(..) => {
            assert(operand_layout(opcode_of(i)).len() == 2);
            assert(operand_width(operand_layout(opcode_of(i))[0]) == field_widths(i)[0]);
            assert(operand_width(operand_layout(opcode_of(i))[1]) == field_widths(i)[1]);
        },
        Instruction::MovMemExprU32Reg(..) => {
            assert(operand_layout(opcode_of(i)).len() == 2);
            assert(operand_width(operand_layout(opcode_of(i))[0]) == field_widths(i)[0]);
            assert(operand_width(operand_layout(opcode_of(i))[1]) == field_widths(i)[1]);
        },
        Instruction::MovU32RegMemExpr(..) => {
            assert(operand_layout(opcode_of(i)).len() == 2);
            assert(operand_width(operand_layout(opcode_of(i))[0]) == field_widths(i)[0]);
            assert(operand_width(operand_layout(opcode_of(i))[1]) == field_widths(i)[1]);
        },
        Instruction::ByteSwapU32(..) => {
            assert(operand_layout(opcode_of(i)).len() == 1);
            assert(operand_width(operand_layout(opcode_of(i))[0]) == field_widths(i)[0]);
        },
        Instruction::ZeroHighBitsByIndexU32Reg(..) => {
            assert(operand_layout(opcode_of(i)).len() == 3);
            assert(operand_width(operand_layout(opcode_of(i))[0]) == field_widths(i)[0]);
            assert(operand_width(operand_layout(opcode_of(i))[1]) == field_widths(i)[1]);
            assert(operand_width(operand_layout(opcode_of(i))[2]) == field_widths(i)[2]);
        },
        Instruction::ZeroHighBitsByIndexU32RegU32Imm(..) => {
            assert(operand_layout(opcode_of(i)).len() == 3);
            assert(operand_width(operand_layout(opcode_of(i))[0]) == field_widths(i)[0]);
            assert(operand_width(operand_layout(opcode_of(i))[1]) == field_widths(i)[1]);
            assert(operand_width(operand_layout(opcode_of(i))[2]) == field_widths(i)[2]);
        },
        Instruction::PushU32Imm(..) => {
            assert(operand_layout(opcode_of(i)).len() == 1);
            assert(operand_width(operand_layout(opcode_of(i))[0]) == field_widths(i)[0]);
        },
        Instruction::PopU32ImmU32Reg(..) => {
            assert(operand_layout(opcode_of(i)).len() == 1);
            assert(operand_width(operand_layout(opcode_of(i))[0]) == field_widths(i)[0]);
        },
        Instruction::BitTestU32Reg(..) => {
            assert(operand_layout(opcode_of(i)).len() == 2);
            assert(operand_width(operand_layout(opcode_of(i))[0]) == field_widths(i)[0]);
            assert(operand_width(operand_layout(opcode_of(i))[1]) == field_widths(i)[1]);
        },
        Instruction::BitTestU32Mem(..) => {
            assert(operand_layout(opcode_of(i)).len() == 2);
            assert(operand_width(operand_layout(opcode_of(i))[0]) == field_widths(i)[0]);
            assert(operand_width(operand_layout(opcode_of(i))[1]) == field_widths(i)[1]);
        },
        Instruction::BitTestResetU32Reg(..) => {
            assert(operand_layout(opcode_of(i)).len() == 2);
            assert(operand_width(operand_layout(opcode_of(i))[0]) == field_widths(i)[0]);
            assert(operand_width(operand_layout(opcode_of(i))[1]) == field_widths(i)[1]);
        },
        Instruction::BitTestResetU32Mem(..) => {
            assert(operand_layout(opcode_of(i)).len() == 2);
            assert(operand_width(operand_layout(opcode_of(i))[0]) == field_widths(i)[0]);
            assert(operand_width(operand_layout(opcode_of(i))[1]) == field_widths(i)[1]);
        },
        Instruction::BitTestSetU32Reg(..) => {
            assert(operand_layout(opcode_of(i)).len() == 2);
            assert(operand_width(operand_layout(opcode_of(i))[0]) == field_widths(i)[0]);
            assert(operand_width(operand_layout(opcode_of(i))[1]) == field_widths(i)[1]);
        },
        Instruction::BitTestSetU32Mem(..) => {
            assert(operand_layout(opcode_of(i)).len() == 2);
            assert(operand_width(operand_layout(opcode_of(i))[0]) == field_widths(i)[0]);
            assert(operand_width(operand_layout(opcode_of(i))[1]) == field_widths(i)[1]);
        },
        Instruction::BitScanReverseU32RegU32Reg(..) => {
            assert(operand_layout(opcode_of(i)).len() == 2);
            assert(operand_width(operand_layout(opcode_of(i))[0]) == field_widths(i)[0]);
            assert(operand_width(operand_layout(opcode_of(i))[1]) == field_widths(i)[1]);
        },
        Instruction::BitScanReverseU32MemU32Reg(..) => {
            assert(operand_layout(opcode_of(i)).len() == 2);
            assert(operand_width(operand_layout(opcode_of(i))[0]) == field_widths(i)[0]);
            assert(operand_width(operand_layout(opcode_of(i))[1]) == field_widths(i)[1]);
        },
        Instruction::BitScanReverseU32RegMemU32(..) => {
            assert(operand_layout(opcode_of(i)).len() == 2);
            assert(operand_width(operand_layout(opcode_of(i))[0]) == field_widths(i)[0]);
            assert(operand_width(operand_layout(opcode_of(i))[1]) == field_widths(i)[1]);
        },
        Instruction::BitScanReverseU32MemU32Mem(..) => {
            assert(operand_layout(opcode_of(i)).len() == 2);
            assert(operand_width(operand_layout(opcode_of(i))[0]) == field_widths(i)[0]);
            assert(operand_width(operand_layout(opcode_of(i))[1]) == field_widths(i)[1]);
        },
        Instruction::BitScanForwardU32RegU32Reg(..) => {
            assert(operand_layout(opcode_of(i)).len() == 2);
            assert(operand_width(operand_layout(opcode_of(i))[0]) == field_widths(i)[0]);
            assert(operand_width(operand_layout(opcode_of(i))[1]) == field_widths(i)[1]);
        },
        Instruction::BitScanForwardU32MemU32Reg(..) => {
            assert(operand_layout(opcode_of(i)).len() == 2);
            assert(operand_width(operand_layout(opcode_of(i))[0]) == field_widths(i)[0]);
            assert(operand_width(operand_layout(opcode_of(i))[1]) == field_widths(i)[1]);
        },
        Instruction::BitScanForwardU32RegMemU32(..) => {
            assert(operand_layout(opcode_of(i)).len() == 2);
            assert(operand_width(operand_layout(opcode_of(i))[0]) == field_widths(i)[0]);
            assert(operand_width(operand_layout(opcode_of(i))[1]) == field_widths(i)[1]);
        },
        Instruction::BitScanForwardU32MemU32Mem(..) => {
            assert(operand_layout(opcode_of(i)).len() == 2);
            assert(operand_width(operand_layout(opcode_of(i))[0]) == field_widths(i)[0]);
            assert(operand_width(operand_layout(opcode_of(i))[1]) == field_widths(i)[1]);
        },
        Instruction::Mret => {
            assert(operand_layout(opcode_of(i)).len() == 0);
        },
        Instruction::Hlt => {
            assert(operand_layout(opcode_of(i)).len() == 0);
        },
        _ => {},
    }
    lemma_widths_total(operand_layout(opcode_of(i)), field_widths(i));
}

/// The kinds of argument that an instruction's operation takes fill the instruction's
/// fields one for one: as many kinds as fields, and each kind fills a field of its size (a
/// u32 field is taken as a u32, an address or an expression, a u8 field as a u8, a register
/// field as a register).
pub proof fn lemma_arg_kinds_fit_fields(i: Instruction)
    requires
        has_listing(i),
        !(i is Unknown),
    ensures
        arg_hints(opcode_of(i)).len() == field_widths(i).len(),
        forall|k: int|
            0 <= k < field_widths(i).len() ==> kind_bytes(#[trigger] arg_hints(opcode_of(i))[k])
                == field_widths(i)[k],
{
    match i {
        Instruction::Nop => {
        },
        Instruction::AddU32ImmU32Reg(..) => {
            assert(kind_bytes(arg_hints(opcode_of(i))[0]) == field_widths(i)[0]);
            assert(kind_bytes(arg_hints(opcode_of(i))[1]) == field_widths(i)[1]);
        },
        Instruction::AddU32RegU32Reg(..) => {
            assert(kind_bytes(arg_hints(opcode_of(i))[0]) == field_widths(i)[0]);
            assert(kind_bytes(arg_hints(opcode_of(i))[1]) == field_widths(i)[1]);
        },
        Instruction::SubU32ImmU32Reg(..) => {
            assert(kind_bytes(arg_hints(opcode_of(i))[0]) == field_widths(i)[0]);
            assert(kind_bytes(arg_hints(opcode_of(i))[1]) == field_widths(i)[1]);
        },
        Instruction::SubU32RegU32Imm(..) => {
            assert(kind_bytes(arg_hints(opcode_of(i))[0]) == field_widths(i)[0]);
            assert(kind_bytes(arg_hints(opcode_of(i))[1]) == field_widths(i)[1]);
        },
        Instruction::SubU32RegU32Reg(..) => {
            assert(kind_bytes(arg_hints(opcode_of(i))[0]) == field_widths(i)[0]);
            assert(kind_bytes(arg_hints(opcode_of(i))[1]) == field_widths(i)[1]);
        },
        Instruction::MulU32ImmU32Reg(..) => {
            assert(kind_bytes(arg_hints(opcode_of(i))[0]) == field_widths(i)[0]);
            assert(kind_bytes(arg_hints(opcode_of(i))[1]) == field_widths(i)[1]);
        },
        Instruction::MulU32RegU32Reg(..) => {
            assert(kind_bytes(arg_hints(opcode_of(i))[0]) == field_widths(i)[0]);
            assert(kind_bytes(arg_hints(opcode_of(i))[1]) == field_widths(i)[1]);
        },
        Instruction::DivU32ImmU32Reg(..) => {
            assert(kind_bytes(arg_hints(opcode_of(i))[0]) == field_widths(i)[0]);
            assert(kind_bytes(arg_hints(opcode_of(i))[1]) == field_widths(i)[1]);
        },
        Instruction::DivU32RegU32Imm(..) => {
            assert(kind_bytes(arg_hints(opcode_of(i))[0]) == field_widths(i)[0]);
            assert(kind_bytes(arg_hints(opcode_of(i))[1]) == field_widths(i)[1]);
        },
        Instruction::DivU32RegU32Reg(..) => {
            assert(kind_bytes(arg_hints(opcode_of(i))[0]) == field_widths(i)[0]);
            assert(kind_bytes(arg_hints(opcode_of(i))[1]) == field_widths(i)[1]);
        },
        Instruction::ModU32ImmU32Reg(..) => {
            assert(kind_bytes(arg_hints(opcode_of(i))[0]) == field_widths(i)[0]);
            assert(kind_bytes(arg_hints(opcode_of(i))[1]) == field_widths(i)[1]);
        },
        Instruction::ModU32RegU32Imm(..) => {
            assert(kind_bytes(arg_hints(opcode_of(i))[0]) == field_widths(i)[0]);
            assert(kind_bytes(arg_hints(opcode_of(i))[1]) == field_widths(i)[1]);
        },
        Instruction::ModU32RegU32Reg(..) => {
            assert(kind_bytes(arg_hints(opcode_of(i))[0]) == field_widths(i)[0]);
            assert(kind_bytes(arg_hints(opcode_of(i))[1]) == field_widths(i)[1]);
        },
        Instruction::IncU32Reg(..) => {
            assert(kind_bytes(arg_hints(opcode_of(i))[0]) == field_widths(i)[0]);
        },
        Instruction::DecU32Reg(..) => {
            assert(kind_bytes(arg_hints(opcode_of(i))[0]) == field_widths(i)[0]);
        },
        Instruction::AndU32ImmU32Reg(..) => {
            assert(kind_bytes(arg_hints(opcode_of(i))[0]) == field_widths(i)[0]);
            assert(kind_bytes(arg_hints(opcode_of(i))[1]) == field_widths(i)[1]);
        },
        Instruction::LeftShiftU32ImmU32Reg(..) => {
            assert(kind_bytes(arg_hints(opcode_of(i))[0]) == field_widths(i)[0]);
            assert(kind_bytes(arg_hints(opcode_of(i))[1]) == field_widths(i)[1]);
        },
        Instruction::LeftShiftU32RegU32Reg(..) => {
            assert(kind_bytes(arg_hints(opcode_of(i))[0]) == field_widths(i)[0]);
            assert(kind_bytes(arg_hints(opcode_of(i))[1]) == field_widths(i)[1]);
        },
        Instruction::ArithLeftShiftU32ImmU32Reg(..) => {
            assert(kind_bytes(arg_hints(opcode_of(i))[0]) == field_widths(i)[0]);
            assert(kind_bytes(arg_hints(opcode_of(i))[1]) == field_widths(i)[1]);
        },
        Instruction::ArithLeftShiftU32RegU32Reg(..) => {
            assert(kind_bytes(arg_hints(opcode_of(i))[0]) == field_widths(i)[0]);
            assert(kind_bytes(arg_hints(opcode_of(i))[1]) == field_widths(i)[1]);
        },
        Instruction::RightShiftU32ImmU32Reg(..) => {
            assert(kind_bytes(arg_hints(opcode_of(i))[0]) == field_widths(i)[0]);
            assert(kind_bytes(arg_hints(opcode_of(i))[1]) == field_widths(i)[1]);
        },
        Instruction::RightShiftU32RegU32Reg(..) => {
            assert(kind_bytes(arg_hints(opcode_of(i))[0]) == field_widths(i)[0]);
            assert(kind_bytes(arg_hints(opcode_of(i))[1]) == field_widths(i)[1]);
        },
        Instruction::ArithRightShiftU32ImmU32Reg(..) => {
            assert(kind_bytes(arg_hints(opcode_of(i))[0]) == field_widths(i)[0]);
            assert(kind_bytes(arg_hints(opcode_of(i))[1]) == field_widths(i)[1]);
        },
        Instruction::ArithRightShiftU32RegU32Reg(..) => {
            assert(kind_bytes(arg_hints(opcode_of(i))[0]) == field_widths(i)[0]);
            assert(kind_bytes(arg_hints(opcode_of(i))[1]) == field_widths(i)[1]);
        },
        Instruction::CallU32Imm(..) => {
            assert(kind_bytes(arg_hints(opcode_of(i))[0]) == field_widths(i)[0]);
        },
        Instruction::CallU32Reg(..) => {
            assert(kind_bytes(arg_hints(opcode_of(i))[0]) == field_widths(i)[0]);
        },
        Instruction::RetArgsU32 => {
        },
        Instruction::Int(..) => {
            assert(kind_bytes(arg_hints(opcode_of(i))[0]) == field_widths(i)[0]);
        },
        Instruction::IntRet => {
        },
        Instruction::JumpAbsU32Imm(..) => {
            assert(kind_bytes(arg_hints(opcode_of(i))[0]) == field_widths(i)[0]);
        },
        Instruction::JumpAbsU32Reg(..) => {
            assert(kind_bytes(arg_hints(opcode_of(i))[0]) == field_widths(i)[0]);
        },
        Instruction::SwapU32RegU32Reg(..) => {
            assert(kind_bytes(arg_hints(opcode_of(i))[0]) == field_widths(i)[0]);
            assert(kind_bytes(arg_hints(opcode_of(i))[1]) == field_widths(i)[1]);
        },
        Instruction::MovU32ImmU32Reg(..) => {
            assert(kind_bytes(arg_hints(opcode_of(i))[0]) == field_widths(i)[0]);
            assert(kind_bytes(arg_hints(opcode_of(i))[1]) == field_widths(i)[1]);
        },
        Instruction::MovU32RegU32Reg(..) => {
            assert(kind_bytes(arg_hints(opcode_of(i))[0]) == field_widths(i)[0]);
            assert(kind_bytes(arg_hints(opcode_of(i))[1]) == field_widths(i)[1]);
        },
        Instruction::MovU32ImmMemSimple(..) => {
            assert(kind_bytes(arg_hints(opcode_of(i))[0]) == field_widths(i)[0]);
            assert(kind_bytes(arg_hints(opcode_of(i))[1]) == field_widths(i)[1]);
        },
        Instruction::MovU32RegMemSimple(..) => {
            assert(kind_bytes(arg_hints(opcode_of(i))[0]) == field_widths(i)[0]);
            assert(kind_bytes(arg_hints(opcode_of(i))[1]) == field_widths(i)[1]);
        },
        Instruction::MovMemU32RegSimple(..) => {
            assert(kind_bytes(arg_hints(opcode_of(i))[0]) == field_widths(i)[0]);
            assert(kind_bytes(arg_hints(opcode_of(i))[1]) == field_widths(i)[1]);
        },
        Instruction::MovU32RegPtrU32RegSimple(..) => {
            assert(kind_bytes(arg_hints(opcode_of(i))[0]) == field_widths(i)[0]);
            assert(kind_bytes(arg_hints(opcode_of(i))[1]) == field_widths(i)[1]);
        },
        Instruction::MovU32ImmMemExpr(..) => {
            assert(kind_bytes(arg_hints(opcode_of(i))[0]) == field_widths(i)[0]);
            assert(kind_bytes(arg_hints(opcode_of(i))[1]) == field_widths(i)[1]);
        },
        Instruction::MovMemExprU32Reg(..) => {
            assert(kind_bytes(arg_hints(opcode_of(i))[0]) == field_widths(i)[0]);
            assert(kind_bytes(arg_hints(opcode_of(i))[1]) == field_widths(i)[1]);
        },
        Instruction::MovU32RegMemExpr(..) => {
            assert(kind_bytes(arg_hints(opcode_of(i))[0]) == field_widths(i)[0]);
            assert(kind_bytes(arg_hints(opcode_of(i))[1]) == field_widths(i)[1]);
        },
        Instruction::ByteSwapU32(..) => {
            assert(kind_bytes(arg_hints(opcode_of(i))[0]) == field_widths(i)[0]);
        },
        Instruction::ZeroHighBitsByIndexU32Reg(..) => {
            assert(kind_bytes(arg_hints(opcode_of(i))[0]) == field_widths(i)[0]);
            assert(kind_bytes(arg_hints(opcode_of(i))[1]) == field_widths(i)[1]);
            assert(kind_bytes(arg_hints(opcode_of(i))[2]) == field_widths(i)[2]);
        },
        Instruction::ZeroHighBitsByIndexU32RegU32Imm(..) => {
            assert(kind_bytes(arg_hints(opcode_of(i))[0]) == field_widths(i)[0]);
            assert(kind_bytes(arg_hints(opcode_of(i))[1]) == field_widths(i)[1]);
            assert(kind_bytes(arg_hints(opcode_of(i))[2]) == field_widths(i)[2]);
        },
        Instruction::PushU32Imm(..) => {
            assert(kind_bytes(arg_hints(opcode_of(i))[0]) == field_widths(i)[0]);
        },
        Instruction::PopU32ImmU32Reg(..) => {
            assert(kind_bytes(arg_hints(opcode_of(i))[0]) == field_widths(i)[0]);
        },
        Instruction::BitTestU32Reg(..) => {
            assert(kind_bytes(arg_hints(opcode_of(i))[0]) == field_widths(i)[0]);
            assert(kind_bytes(arg_hints(opcode_of(i))[1]) == field_widths(i)[1]);
        },
        Instruction::BitTestU32Mem(..) => {
            assert(kind_bytes(arg_hints(opcode_of(i))[0]) == field_widths(i)[0]);
            assert(kind_bytes(arg_hints(opcode_of(i))[1]) == field_widths(i)[1]);
        },
        Instruction::BitTestResetU32Reg(..) => {
            assert(kind_bytes(arg_hints(opcode_of(i))[0]) == field_widths(i)[0]);
            assert(kind_bytes(arg_hints(opcode_of(i))[1]) == field_widths(i)[1]);
        },
        Instruction::BitTestResetU32Mem(..) => {
            assert(kind_bytes(arg_hints(opcode_of(i))[0]) == field_widths(i)[0]);
            assert(kind_bytes(arg_hints(opcode_of(i))[1]) == field_widths(i)[1]);
        },
        Instruction::BitTestSetU32Reg(..) => {
            assert(kind_bytes(arg_hints(opcode_of(i))[0]) == field_widths(i)[0]);
            assert(kind_bytes(arg_hints(opcode_of(i))[1]) == field_widths(i)[1]);
        },
        Instruction::BitTestSetU32Mem(..) => {
            assert(kind_bytes(arg_hints(opcode_of(i))[0]) == field_widths(i)[0]);
            assert(kind_bytes(arg_hints(opcode_of(i))[1]) == field_widths(i)[1]);
        },
        Instruction::BitScanReverseU32RegU32Reg(..) => {
            assert(kind_bytes(arg_hints(opcode_of(i))[0]) == field_widths(i)[0]);
            assert(kind_bytes(arg_hints(opcode_of(i))[1]) == field_widths(i)[1]);
        },
        Instruction::BitScanReverseU32MemU32Reg(..) => {
            assert(kind_bytes(arg_hints(opcode_of(i))[0]) == field_widths(i)[0]);
            assert(kind_bytes(arg_hints(opcode_of(i))[1]) == field_widths(i)[1]);
        },
        Instruction::BitScanReverseU32RegMemU32(..) => {
            assert(kind_bytes(arg_hints(opcode_of(i))[0]) == field_widths(i)[0]);
            assert(kind_bytes(arg_hints(opcode_of(i))[1]) == field_widths(i)[1]);
        },
        Instruction::BitScanReverseU32MemU32Mem(..) => {
            assert(kind_bytes(arg_hints(opcode_of(i))[0]) == field_widths(i)[0]);
            assert(kind_bytes(arg_hints(opcode_of(i))[1]) == field_widths(i)[1]);
        },
        Instruction::BitScanForwardU32RegU32Reg(..) => {
            assert(kind_bytes(arg_hints(opcode_of(i))[0]) == field_widths(i)[0]);
            assert(kind_bytes(arg_hints(opcode_of(i))[1]) == field_widths(i)[1]);
        },
        Instruction::BitScanForwardU32MemU32Reg(..) => {
            assert(kind_bytes(arg_hints(opcode_of(i))[0]) == field_widths(i)[0]);
            assert(kind_bytes(arg_hints(opcode_of(i))[1]) == field_widths(i)[1]);
        },
        Instruction::BitScanForwardU32RegMemU32(..) => {
            assert(kind_bytes(arg_hints(opcode_of(i))[0]) == field_widths(i)[0]);
            assert(kind_bytes(arg_hints(opcode_of(i))[1]) == field_widths(i)[1]);
        },
        Instruction::BitScanForwardU32MemU32Mem(..) => {
            assert(kind_bytes(arg_hints(opcode_of(i))[0]) == field_widths(i)[0]);
            assert(kind_bytes(arg_hints(opcode_of(i))[1]) == field_widths(i)[1]);
        },
        Instruction::Mret => {
        },
        Instruction::Hlt => {
        },
        _ => {},
    }
}

proof fn lemma_reads_back_part0(i: Instruction)
    requires
        has_listing(i),
        !(i is Unknown),
        forall|k: int|
            0 <= k < field_registers(i).len() ==> is_u32_register(#[trigger] field_registers(i)[k]),
        forall|k: int|
            0 <= k < expression_fields(i).len() ==> (unpacked(#[trigger] expression_fields(i)[k]) matches Some(e)
                && expression_reads_back(e)),
        i is Nop || i is AddU32ImmU32Reg || i is AddU32RegU32Reg || i is SubU32ImmU32Reg || i is SubU32RegU32Imm || i is SubU32RegU32Reg || i is MulU32ImmU32Reg || i is MulU32RegU32Reg,
    ensures
        listing_reads_back(i),
{
    match i {
        Instruction::Nop => {
        },
        Instruction::AddU32ImmU32Reg(..) => {
            assert(is_u32_register(field_registers(i)[0]));
            assert(value_reads_back(arg_hints(opcode_of(i))[0], operand_values(i)[0]));
            assert(value_reads_back(arg_hints(opcode_of(i))[1], operand_values(i)[1]));
        },
        Instruction::AddU32RegU32Reg(..) => {
            assert(is_u32_register(field_registers(i)[0]));
            assert(is_u32_register(field_registers(i)[1]));
            assert(value_reads_back(arg_hints(opcode_of(i))[0], operand_values(i)[0]));
            assert(value_reads_back(arg_hints(opcode_of(i))[1], operand_values(i)[1]));
        },
        Instruction::SubU32ImmU32Reg(..) => {
            assert(is_u32_register(field_registers(i)[0]));
            assert(value_reads_back(arg_hints(opcode_of(i))[0], operand_values(i)[0]));
            assert(value_reads_back(arg_hints(opcode_of(i))[1], operand_values(i)[1]));
        },
        Instruction::SubU32RegU32Imm(..) => {
            assert(is_u32_register(field_registers(i)[0]));
            assert(value_reads_back(arg_hints(opcode_of(i))[0], operand_values(i)[0]));
            assert(value_reads_back(arg_hints(opcode_of(i))[1], operand_values(i)[1]));
        },
        Instruction::SubU32RegU32Reg(..) => {
            assert(is_u32_register(field_registers(i)[0]));
            assert(is_u32_register(field_registers(i)[1]));
            assert(value_reads_back(arg_hints(opcode_of(i))[0], operand_values(i)[0]));
            assert(value_reads_back(arg_hints(opcode_of(i))[1], operand_values(i)[1]));
        },
        Instruction::MulU32ImmU32Reg(..) => {
            assert(is_u32_register(field_registers(i)[0]));
            assert(value_reads_back(arg_hints(opcode_of(i))[0], operand_values(i)[0]));
            assert(value_reads_back(arg_hints(opcode_of(i))[1], operand_values(i)[1]));
        },
        Instruction::MulU32RegU32Reg(..) => {
            assert(is_u32_register(field_registers(i)[0]));
            assert(is_u32_register(field_registers(i)[1]));
            assert(value_reads_back(arg_hints(opcode_of(i))[0], operand_values(i)[0]));
            assert(value_reads_back(arg_hints(opcode_of(i))[1], operand_values(i)[1]));
        },
        _ => {},
    }
}

proof fn lemma_reads_back_part1(i: Instruction)
    requires
        has_listing(i),
        !(i is Unknown),
        forall|k: int|
            0 <= k < field_registers(i).len() ==> is_u32_register(#[trigger] field_registers(i)[k]),
        forall|k: int|
            0 <= k < expression_fields(i).len() ==> (unpacked(#[trigger] expression_fields(i)[k]) matches Some(e)
                && expression_reads_back(e)),
        i is DivU32ImmU32Reg || i is DivU32RegU32Imm || i is DivU32RegU32Reg || i is ModU32ImmU32Reg || i is ModU32RegU32Imm || i is ModU32RegU32Reg || i is IncU32Reg || i is DecU32Reg,
    ensures
        listing_reads_back(i),
{
    match i {
        Instruction::DivU32ImmU32Reg(..) => {
            assert(is_u32_register(field_registers(i)[0]));
            assert(value_reads_back(arg_hints(opcode_of(i))[0], operand_values(i)[0]));
            assert(value_reads_back(arg_hints(opcode_of(i))[1], operand_values(i)[1]));
        },
        Instruction::DivU32RegU32Imm(..) => {
            assert(is_u32_register(field_registers(i)[0]));
            assert(value_reads_back(arg_hints(opcode_of(i))[0], operand_values(i)[0]));
            assert(value_reads_back(arg_hints(opcode_of(i))[1], operand_values(i)[1]));
        },
        Instruction::DivU32RegU32Reg(..) => {
            assert(is_u32_register(field_registers(i)[0]));
            assert(is_u32_register(field_registers(i)[1]));
            assert(value_reads_back(arg_hints(opcode_of(i))[0], operand_values(i)[0]));
            assert(value_reads_back(arg_hints(opcode_of(i))[1], operand_values(i)[1]));
        },
        Instruction::ModU32ImmU32Reg(..) => {
            assert(is_u32_register(field_registers(i)[0]));
            assert(value_reads_back(arg_hints(opcode_of(i))[0], operand_values(i)[0]));
            assert(value_reads_back(arg_hints(opcode_of(i))[1], operand_values(i)[1]));
        },
        Instruction::ModU32RegU32Imm(..) => {
            assert(is_u32_register(field_registers(i)[0]));
            assert(value_reads_back(arg_hints(opcode_of(i))[0], operand_values(i)[0]));
            assert(value_reads_back(arg_hints(opcode_of(i))[1], operand_values(i)[1]));
        },
        Instruction::ModU32RegU32Reg(..) => {
            assert(is_u32_register(field_registers(i)[0]));
            assert(is_u32_register(field_registers(i)[1]));
            assert(value_reads_back(arg_hints(opcode_of(i))[0], operand_values(i)[0]));
            assert(value_reads_back(arg_hints(opcode_of(i))[1], operand_values(i)[1]));
        },
        Instruction::IncU32Reg(..) => {
            assert(is_u32_register(field_registers(i)[0]));
            assert(value_reads_back(arg_hints(opcode_of(i))[0], operand_values(i)[0]));
        },
        Instruction::DecU32Reg(..) => {
            assert(is_u32_register(field_registers(i)[0]));
            assert(value_reads_back(arg_hints(opcode_of(i))[0], operand_values(i)[0]));
        },
        _ => {},
    }
}

proof fn lemma_reads_back_part2(i: Instruction)
    requires
        has_listing(i),
        !(i is Unknown),
        forall|k: int|
            0 <= k < field_registers(i).len() ==> is_u32_register(#[trigger] field_registers(i)[k]),
        forall|k: int|
            0 <= k < expression_fields(i).len() ==> (unpacked(#[trigger] expression_fields(i)[k]) matches Some(e)
                && expression_reads_back(e)),
        i is AndU32ImmU32Reg || i is LeftShiftU32ImmU32Reg || i is LeftShiftU32RegU32Reg || i is ArithLeftShiftU32ImmU32Reg || i is ArithLeftShiftU32RegU32Reg || i is RightShiftU32ImmU32Reg || i is RightShiftU32RegU32Reg || i is ArithRightShiftU32ImmU32Reg,
    ensures
        listing_reads_back(i),
{
    match i {
        Instruction::AndU32ImmU32Reg(..) => {
            assert(is_u32_register(field_registers(i)[0]));
            assert(value_reads_back(arg_hints(opcode_of(i))[0], operand_values(i)[0]));
            assert(value_reads_back(arg_hints(opcode_of(i))[1], operand_values(i)[1]));
        },
        Instruction::LeftShiftU32ImmU32Reg(..) => {
            assert(is_u32_register(field_registers(i)[0]));
            assert(value_reads_back(arg_hints(opcode_of(i))[0], operand_values(i)[0]));
            assert(value_reads_back(arg_hints(opcode_of(i))[1], operand_values(i)[1]));
        },
        Instruction::LeftShiftU32RegU32Reg(..) => {
            assert(is_u32_register(field_registers(i)[0]));
            assert(is_u32_register(field_registers(i)[1]));
            assert(value_reads_back(arg_hints(opcode_of(i))[0], operand_values(i)[0]));
            assert(value_reads_back(arg_hints(opcode_of(i))[1], operand_values(i)[1]));
        },
        Instruction::ArithLeftShiftU32ImmU32Reg(..) => {
            assert(is_u32_register(field_registers(i)[0]));
            assert(value_reads_back(arg_hints(opcode_of(i))[0], operand_values(i)[0]));
            assert(value_reads_back(arg_hints(opcode_of(i))[1], operand_values(i)[1]));
        },
        Instruction::ArithLeftShiftU32RegU32Reg(..) => {
            assert(is_u32_register(field_registers(i)[0]));
            assert(is_u32_register(field_registers(i)[1]));
            assert(value_reads_back(arg_hints(opcode_of(i))[0], operand_values(i)[0]));
            assert(value_reads_back(arg_hints(opcode_of(i))[1], operand_values(i)[1]));
        },
        Instruction::RightShiftU32ImmU32Reg(..) => {
            assert(is_u32_register(field_registers(i)[0]));
            assert(value_reads_back(arg_hints(opcode_of(i))[0], operand_values(i)[0]));
            assert(value_reads_back(arg_hints(opcode_of(i))[1], operand_values(i)[1]));
        },
        Instruction::RightShiftU32RegU32Reg(..) => {
            assert(is_u32_register(field_registers(i)[0]));
            assert(is_u32_register(field_registers(i)[1]));
            assert(value_reads_back(arg_hints(opcode_of(i))[0], operand_values(i)[0]));
            assert(value_reads_back(arg_hints(opcode_of(i))[1], operand_values(i)[1]));
        },
        Instruction::ArithRightShiftU32ImmU32Reg(..) => {
            assert(is_u32_register(field_registers(i)[0]));
            assert(value_reads_back(arg_hints(opcode_of(i))[0], operand_values(i)[0]));
            assert(value_reads_back(arg_hints(opcode_of(i))[1], operand_values(i)[1]));
        },
        _ => {},
    }
}

proof fn lemma_reads_back_part3(i: Instruction)
    requires
        has_listing(i),
        !(i is Unknown),
        forall|k: int|
            0 <= k < field_registers(i).len() ==> is_u32_register(#[trigger] field_registers(i)[k]),
        forall|k: int|
            0 <= k < expression_fields(i).len() ==> (unpacked(#[trigger] expression_fields(i)[k]) matches Some(e)
                && expression_reads_back(e)),
        i is ArithRightShiftU32RegU32Reg || i is CallU32Imm || i is CallU32Reg || i is RetArgsU32 || i is Int || i is IntRet || i is JumpAbsU32Imm || i is JumpAbsU32Reg,
    ensures
        listing_reads_back(i),
{
    match i {
        Instruction::ArithRightShiftU32RegU32Reg(..) => {
            assert(is_u32_register(field_registers(i)[0]));
            assert(is_u32_register(field_registers(i)[1]));
            assert(value_reads_back(arg_hints(opcode_of(i))[0], operand_values(i)[0]));
            assert(value_reads_back(arg_hints(opcode_of(i))[1], operand_values(i)[1]));
        },
        Instruction::CallU32Imm(..) => {
            assert(value_reads_back(arg_hints(opcode_of(i))[0], operand_values(i)[0]));
        },
        Instruction::CallU32Reg(..) => {
            assert(is_u32_register(field_registers(i)[0]));
            assert(value_reads_back(arg_hints(opcode_of(i))[0], operand_values(i)[0]));
        },
        Instruction::RetArgsU32 => {
        },
        Instruction::Int(..) => {
            assert(value_reads_back(arg_hints(opcode_of(i))[0], operand_values(i)[0]));
        },
        Instruction::IntRet => {
        },
        Instruction::JumpAbsU32Imm(..) => {
            assert(value_reads_back(arg_hints(opcode_of(i))[0], operand_values(i)[0]));
        },
        Instruction::JumpAbsU32Reg(..) => {
            assert(is_u32_register(field_registers(i)[0]));
            assert(value_reads_back(arg_hints(opcode_of(i))[0], operand_values(i)[0]));
        },
        _ => {},
    }
}

proof fn lemma_reads_back_part4(i: Instruction)
    requires
        has_listing(i),
        !(i is Unknown),
        forall|k: int|
            0 <= k < field_registers(i).len() ==> is_u32_register(#[trigger] field_registers(i)[k]),
        forall|k: int|
            0 <= k < expression_fields(i).len() ==> (unpacked(#[trigger] expression_fields(i)[k]) matches Some(e)
                && expression_reads_back(e)),
        i is SwapU32RegU32Reg || i is MovU32ImmU32Reg || i is MovU32RegU32Reg || i is MovU32ImmMemSimple || i is MovU32RegMemSimple || i is MovMemU32RegSimple || i is MovU32RegPtrU32RegSimple || i is MovU32ImmMemExpr,
    ensures
        listing_reads_back(i),
{
    match i {
        Instruction::SwapU32RegU32Reg(..) => {
            assert(is_u32_register(field_registers(i)[0]));
            assert(is_u32_register(field_registers(i)[1]));
            assert(value_reads_back(arg_hints(opcode_of(i))[0], operand_values(i)[0]));
            assert(value_reads_back(arg_hints(opcode_of(i))[1], operand_values(i)[1]));
        },
        Instruction::MovU32ImmU32Reg(..) => {
            assert(is_u32_register(field_registers(i)[0]));
            assert(value_reads_back(arg_hints(opcode_of(i))[0], operand_values(i)[0]));
            assert(value_reads_back(arg_hints(opcode_of(i))[1], operand_values(i)[1]));
        },
        Instruction::MovU32RegU32Reg(..) => {
            assert(is_u32_register(field_registers(i)[0]));
            assert(is_u32_register(field_registers(i)[1]));
            assert(value_reads_back(arg_hints(opcode_of(i))[0], operand_values(i)[0]));
            assert(value_reads_back(arg_hints(opcode_of(i))[1], operand_values(i)[1]));
        },
        Instruction::MovU32ImmMemSimple(..) => {
            assert(value_reads_back(arg_hints(opcode_of(i))[0], operand_values(i)[0]));
            assert(value_reads_back(arg_hints(opcode_of(i))[1], operand_values(i)[1]));
        },
        Instruction::MovU32RegMemSimple(..) => {
            assert(is_u32_register(field_registers(i)[0]));
            assert(value_reads_back(arg_hints(opcode_of(i))[0], operand_values(i)[0]));
            assert(value_reads_back(arg_hints(opcode_of(i))[1], operand_values(i)[1]));
        },
        Instruction::MovMemU32RegSimple(..) => {
            assert(is_u32_register(field_registers(i)[0]));
            assert(value_reads_back(arg_hints(opcode_of(i))[0], operand_values(i)[0]));
            assert(value_reads_back(arg_hints(opcode_of(i))[1], operand_values(i)[1]));
        },
        Instruction::MovU32RegPtrU32RegSimple(..) => {
            assert(is_u32_register(field_registers(i)[0]));
            assert(is_u32_register(field_registers(i)[1]));
            assert(value_reads_back(arg_hints(opcode_of(i))[0], operand_values(i)[0]));
            assert(value_reads_back(arg_hints(opcode_of(i))[1], operand_values(i)[1]));
        },
        Instruction::MovU32ImmMemExpr(..) => {
            assert(unpacked(expression_fields(i)[0]) matches Some(e) && expression_reads_back(e));
            assert(value_reads_back(arg_hints(opcode_of(i))[0], operand_values(i)[0]));
            assert(value_reads_back(arg_hints(opcode_of(i))[1], operand_values(i)[1]));
        },
        _ => {},
    }
}

proof fn lemma_reads_back_part5(i: Instruction)
    requires
        has_listing(i),
        !(i is Unknown),
        forall|k: int|
            0 <= k < field_registers(i).len() ==> is_u32_register(#[trigger] field_registers(i)[k]),
        forall|k: int|
            0 <= k < expression_fields(i).len() ==> (unpacked(#[trigger] expression_fields(i)[k]) matches Some(e)
                && expression_reads_back(e)),
        i is MovMemExprU32Reg || i is MovU32RegMemExpr || i is ByteSwapU32 || i is ZeroHighBitsByIndexU32Reg || i is ZeroHighBitsByIndexU32RegU32Imm || i is PushU32Imm || i is PopU32ImmU32Reg || i is BitTestU32Reg,
    ensures
        listing_reads_back(i),
{
    match i {
        Instruction::MovMemExprU32Reg(..) => {
            assert(is_u32_register(field_registers(i)[0]));
            assert(unpacked(expression_fields(i)[0]) matches Some(e) && expression_reads_back(e));
            assert(value_reads_back(arg_hints(opcode_of(i))[0], operand_values(i)[0]));
            assert(value_reads_back(arg_hints(opcode_of(i))[1], operand_values(i)[1]));
        },
        Instruction::MovU32RegMemExpr(..) => {
            assert(is_u32_register(field_registers(i)[0]));
            assert(unpacked(expression_fields(i)[0]) matches Some(e) && expression_reads_back(e));
            assert(value_reads_back(arg_hints(opcode_of(i))[0], operand_values(i)[0]));
            assert(value_reads_back(arg_hints(opcode_of(i))[1], operand_values(i)[1]));
        },
        Instruction::ByteSwapU32(..) => {
            assert(is_u32_register(field_registers(i)[0]));
            assert(value_reads_back(arg_hints(opcode_of(i))[0], operand_values(i)[0]));
        },
        Instruction::ZeroHighBitsByIndexU32Reg(..) => {
            assert(is_u32_register(field_registers(i)[0]));
            assert(is_u32_register(field_registers(i)[1]));
            assert(is_u32_register(field_registers(i)[2]));
            assert(value_reads_back(arg_hints(opcode_of(i))[0], operand_values(i)[0]));
            assert(value_reads_back(arg_hints(opcode_of(i))[1], operand_values(i)[1]));
            assert(value_reads_back(arg_hints(opcode_of(i))[2], operand_values(i)[2]));
        },
        Instruction::ZeroHighBitsByIndexU32RegU32Imm(..) => {
            assert(is_u32_register(field_registers(i)[0]));
            assert(is_u32_register(field_registers(i)[1]));
            assert(value_reads_back(arg_hints(opcode_of(i))[0], operand_values(i)[0]));
            assert(value_reads_back(arg_hints(opcode_of(i))[1], operand_values(i)[1]));
            assert(value_reads_back(arg_hints(opcode_of(i))[2], operand_values(i)[2]));
        },
        Instruction::PushU32Imm(..) => {
            assert(value_reads_back(arg_hints(opcode_of(i))[0], operand_values(i)[0]));
        },
        Instruction::PopU32ImmU32Reg(..) => {
            assert(is_u32_register(field_registers(i)[0]));
            assert(value_reads_back(arg_hints(opcode_of(i))[0], operand_values(i)[0]));
        },
        Instruction::BitTestU32Reg(..) => {
            assert(is_u32_register(field_registers(i)[0]));
            assert(value_reads_back(arg_hints(opcode_of(i))[0], operand_values(i)[0]));
            assert(value_reads_back(arg_hints(opcode_of(i))[1], operand_values(i)[1]));
        },
        _ => {},
    }
}

proof fn lemma_reads_back_part6(i: Instruction)
    requires
        has_listing(i),
        !(i is Unknown),
        forall|k: int|
            0 <= k < field_registers(i).len() ==> is_u32_register(#[trigger] field_registers(i)[k]),
        forall|k: int|
            0 <= k < expression_fields(i).len() ==> (unpacked(#[trigger] expression_fields(i)[k]) matches Some(e)
                && expression_reads_back(e)),
        i is BitTestU32Mem || i is BitTestResetU32Reg || i is BitTestResetU32Mem || i is BitTestSetU32Reg || i is BitTestSetU32Mem || i is BitScanReverseU32RegU32Reg || i is BitScanReverseU32MemU32Reg || i is BitScanReverseU32RegMemU32,
    ensures
        listing_reads_back(i),
{
    match i {
        Instruction::BitTestU32Mem(..) => {
            assert(value_reads_back(arg_hints(opcode_of(i))[0], operand_values(i)[0]));
            assert(value_reads_back(arg_hints(opcode_of(i))[1], operand_values(i)[1]));
        },
        Instruction::BitTestResetU32Reg(..) => {
            assert(is_u32_register(field_registers(i)[0]));
            assert(value_reads_back(arg_hints(opcode_of(i))[0], operand_values(i)[0]));
            assert(value_reads_back(arg_hints(opcode_of(i))[1], operand_values(i)[1]));
        },
        Instruction::BitTestResetU32Mem(..) => {
            assert(value_reads_back(arg_hints(opcode_of(i))[0], operand_values(i)[0]));
            assert(value_reads_back(arg_hints(opcode_of(i))[1], operand_values(i)[1]));
        },
        Instruction::BitTestSetU32Reg(..) => {
            assert(is_u32_register(field_registers(i)[0]));
            assert(value_reads_back(arg_hints(opcode_of(i))[0], operand_values(i)[0]));
            assert(value_reads_back(arg_hints(opcode_of(i))[1], operand_values(i)[1]));
        },
        Instruction::BitTestSetU32Mem(..) => {
            assert(value_reads_back(arg_hints(opcode_of(i))[0], operand_values(i)[0]));
            assert(value_reads_back(arg_hints(opcode_of(i))[1], operand_values(i)[1]));
        },
        Instruction::BitScanReverseU32RegU32Reg(..) => {
            assert(is_u32_register(field_registers(i)[0]));
            assert(is_u32_register(field_registers(i)[1]));
            assert(value_reads_back(arg_hints(opcode_of(i))[0], operand_values(i)[0]));
            assert(value_reads_back(arg_hints(opcode_of(i))[1], operand_values(i)[1]));
        },
        Instruction::BitScanReverseU32MemU32Reg(..) => {
            assert(is_u32_register(field_registers(i)[0]));
            assert(value_reads_back(arg_hints(opcode_of(i))[0], operand_values(i)[0]));
            assert(value_reads_back(arg_hints(opcode_of(i))[1], operand_values(i)[1]));
        },
        Instruction::BitScanReverseU32RegMemU32(..) => {
            assert(is_u32_register(field_registers(i)[0]));
            assert(value_reads_back(arg_hints(opcode_of(i))[0], operand_values(i)[0]));
            assert(value_reads_back(arg_hints(opcode_of(i))[1], operand_values(i)[1]));
        },
        _ => {},
    }
}

proof fn lemma_reads_back_part7(i: Instruction)
    requires
        has_listing(i),
        !(i is Unknown),
        forall|k: int|
            0 <= k < field_registers(i).len() ==> is_u32_register(#[trigger] field_registers(i)[k]),
        forall|k: int|
            0 <= k < expression_fields(i).len() ==> (unpacked(#[trigger] expression_fields(i)[k]) matches Some(e)
                && expression_reads_back(e)),
        i is BitScanReverseU32MemU32Mem || i is BitScanForwardU32RegU32Reg || i is BitScanForwardU32MemU32Reg || i is BitScanForwardU32RegMemU32 || i is BitScanForwardU32MemU32Mem || i is Mret || i is Hlt,
    ensures
        listing_reads_back(i),
{
    match i {
        Instruction::BitScanReverseU32MemU32Mem(..) => {
            assert(value_reads_back(arg_hints(opcode_of(i))[0], operand_values(i)[0]));
            assert(value_reads_back(arg_hints(opcode_of(i))[1], operand_values(i)[1]));
        },
        Instruction::BitScanForwardU32RegU32Reg(..) => {
            assert(is_u32_register(field_registers(i)[0]));
            assert(is_u32_register(field_registers(i)[1]));
            assert(value_reads_back(arg_hints(opcode_of(i))[0], operand_values(i)[0]));
            assert(value_reads_back(arg_hints(opcode_of(i))[1], operand_values(i)[1]));
        },
        Instruction::BitScanForwardU32MemU32Reg(..) => {
            assert(is_u32_register(field_registers(i)[0]));
            assert(value_reads_back(arg_hints(opcode_of(i))[0], operand_values(i)[0]));
            assert(value_reads_back(arg_hints(opcode_of(i))[1], operand_values(i)[1]));
        },
        Instruction::BitScanForwardU32RegMemU32(..) => {
            assert(is_u32_register(field_registers(i)[0]));
            assert(value_reads_back(arg_hints(opcode_of(i))[0], operand_values(i)[0]));
            assert(value_reads_back(arg_hints(opcode_of(i))[1], operand_values(i)[1]));
        },
        Instruction::BitScanForwardU32MemU32Mem(..) => {
            assert(value_reads_back(arg_hints(opcode_of(i))[0], operand_values(i)[0]));
            assert(value_reads_back(arg_hints(opcode_of(i))[1], operand_values(i)[1]));
        },
        Instruction::Mret => {
        },
        Instruction::Hlt => {
        },
        _ => {},
    }
}

/// The listing of an instruction reads back whenever each register it holds is a u32
/// register and each expression it holds packs one of u32 registers: nothing about the
/// numbers it holds, of any size their fields allow, stands in the way.
pub proof fn lemma_listing_reads_back_when(i: Instruction)
    requires
        has_listing(i),
        !(i is Unknown),
        forall|k: int|
            0 <= k < field_registers(i).len() ==> is_u32_register(#[trigger] field_registers(i)[k]),
        forall|k: int|
            0 <= k < expression_fields(i).len() ==> (unpacked(#[trigger] expression_fields(i)[k]) matches Some(e)
                && expression_reads_back(e)),
    ensures
        listing_reads_back(i),
{
    if i is Nop || i is AddU32ImmU32Reg || i is AddU32RegU32Reg || i is SubU32ImmU32Reg || i is SubU32RegU32Imm || i is SubU32RegU32Reg || i is MulU32ImmU32Reg || i is MulU32RegU32Reg {
        lemma_reads_back_part0(i);
    }
    if i is DivU32ImmU32Reg || i is DivU32RegU32Imm || i is DivU32RegU32Reg || i is ModU32ImmU32Reg || i is ModU32RegU32Imm || i is ModU32RegU32Reg || i is IncU32Reg || i is DecU32Reg {
        lemma_reads_back_part1(i);
    }
    if i is AndU32ImmU32Reg || i is LeftShiftU32ImmU32Reg || i is LeftShiftU32RegU32Reg || i is ArithLeftShiftU32ImmU32Reg || i is ArithLeftShiftU32RegU32Reg || i is RightShiftU32ImmU32Reg || i is RightShiftU32RegU32Reg || i is ArithRightShiftU32ImmU32Reg {
        lemma_reads_back_part2(i);
    }
    if i is ArithRightShiftU32RegU32Reg || i is CallU32Imm || i is CallU32Reg || i is RetArgsU32 || i is Int || i is IntRet || i is JumpAbsU32Imm || i is JumpAbsU32Reg {
        lemma_reads_back_part3(i);
    }
    if i is SwapU32RegU32Reg || i is MovU32ImmU32Reg || i is MovU32RegU32Reg || i is MovU32ImmMemSimple || i is MovU32RegMemSimple || i is MovMemU32RegSimple || i is MovU32RegPtrU32RegSimple || i is MovU32ImmMemExpr {
        lemma_reads_back_part4(i);
    }
    if i is MovMemExprU32Reg || i is MovU32RegMemExpr || i is ByteSwapU32 || i is ZeroHighBitsByIndexU32Reg || i is ZeroHighBitsByIndexU32RegU32Imm || i is PushU32Imm || i is PopU32ImmU32Reg || i is BitTestU32Reg {
        lemma_reads_back_part5(i);
    }
    if i is BitTestU32Mem || i is BitTestResetU32Reg || i is BitTestResetU32Mem || i is BitTestSetU32Reg || i is BitTestSetU32Mem || i is BitScanReverseU32RegU32Reg || i is BitScanReverseU32MemU32Reg || i is BitScanReverseU32RegMemU32 {
        lemma_reads_back_part6(i);
    }
    if i is BitScanReverseU32MemU32Mem || i is BitScanForwardU32RegU32Reg || i is BitScanForwardU32MemU32Reg || i is BitScanForwardU32RegMemU32 || i is BitScanForwardU32MemU32Mem || i is Mret || i is Hlt {
        lemma_reads_back_part7(i);
    }
}

/// The names of the special registers, numbers 8 to 16, in the order of their numbers.
pub open spec fn special_register_names() -> Seq<Seq<char>> {
    seq![
        seq!['E', 'I', 'P'],
        seq!['E', 'B', 'P'],
        seq!['E', 'S', 'P'],
        seq!['E', 'F', 'L'],
        seq!['E', 'I', 'M'],
        seq!['I', 'D', 'T', 'R'],
        seq!['E', 'S', 'S'],
        seq!['E', 'C', 'S'],
        seq!['E', 'D', 'S'],
    ]
}

/// The name of each register follows from its number: the general registers, numbers 0 to
/// 7, are `ER` and their number plus one (ER1 to ER8); the f32 registers, numbers 17 and 18,
/// are `FR1` and `FR2`; the special registers, numbers 8 to 16, are EIP, EBP, ESP, EFL,
/// EIM, IDTR, ESS, ECS and EDS in that order. A register holds a f32 exactly when its name
/// starts with `F`.
pub proof fn lemma_register_name_by_number(r: RegisterId)
    ensures
        register_code(r) < 8 ==> register_name(r) == seq![
            'E',
            'R',
            decimal_digit((register_code(r) + 1) as nat),
        ],
        17 <= register_code(r) ==> register_name(r) == seq![
            'F',
            'R',
            decimal_digit((register_code(r) - 16) as nat),
        ],
        8 <= register_code(r) < 17 ==> register_name(r) == special_register_names()[register_code(r)
            - 8],
        is_f32_register(r) <==> register_name(r)[0] == 'F',
{
    match r {
        RegisterId::ER1 => {},
        RegisterId::ER2 => {},
        RegisterId::ER3 => {},
        RegisterId::ER4 => {},
        RegisterId::ER5 => {},
        RegisterId::ER6 => {},
        RegisterId::ER7 => {},
        RegisterId::ER8 => {},
        RegisterId::EIP => {},
        RegisterId::EBP => {},
        RegisterId::ESP => {},
        RegisterId::EFL => {},
        RegisterId::EIM => {},
        RegisterId::IDTR => {},
        RegisterId::ESS => {},
        RegisterId::ECS => {},
        RegisterId::EDS => {},
        RegisterId::FR1 => {},
        RegisterId::FR2 => {},
    }
}

/// An operand of an expression that names no register is read exactly as a u8 immediate is
/// read anywhere else (in binary, octal, decimal or hexadecimal): it is the immediate `v`
/// when the text reads as `v`, and no operand when it does not read.
pub proof fn lemma_expression_immediates(seg: Seq<char>)
    requires
        register_named(seg) is None,
    ensures
        forall|v: u8|
            expr_operand(seg) == Some(Ok::<ExpressionArgs, AsmError>(ExpressionArgs::Immediate(v)))
                <==> #[trigger] immediate_value(seg, 255) == Ok::<nat, ParseIntError>(v as nat),
        expr_operand(seg) is None <==> immediate_value(seg, 255) is Err,
{
    lemma_immediate_bound(seg, 255);
}

} // verus!
