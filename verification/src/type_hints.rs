//! The assembly syntax of each operation: its mnemonics and the kinds of its arguments.
use vstd::prelude::*;

use crate::op_codes::OpCode;

verus! {

/// The kind of an argument as it is written in assembly text.
#[derive(Clone, Copy, Debug, PartialEq, Eq, Hash, Structural)]
pub enum ArgTypeHint {
    /// A u8 immediate, such as `5`.
    U8,
    /// A u8 immediate used as an address, such as `&5`.
    U8Pointer,
    /// A u32 immediate, such as `0x1234`.
    U32,
    /// A u32 immediate used as an address, such as `&0x1234`, or a label.
    U32Pointer,
    /// A u32 register, such as `ER1`.
    RegisterU32,
    /// A u32 register used as an address, such as `&ER1`.
    RegisterU32Pointer,
    /// A f32 register, such as `FR1`.
    RegisterF32,
    /// An expression, such as `[ER1*2]`.
    Expression,
    /// An expression used as an address, such as `&[ER1*2]`.
    ExpressionPointer,
}

/// The number of operation codes.
pub const OPCODE_COUNT: usize = 74;

/// The position of an operation code in the table that the parser searches, which is the
/// order of declaration.
pub open spec fn opcode_index(op: OpCode) -> nat {
    match op {
        OpCode::Nop => 0,
        OpCode::AddU32ImmU32Reg => 1,
        OpCode::AddU32RegU32Reg => 2,
        OpCode::SubU32ImmU32Reg => 3,
        OpCode::SubU32RegU32Imm => 4,
        OpCode::SubU32RegU32Reg => 5,
        OpCode::MulU32ImmU32Reg => 6,
        OpCode::MulU32RegU32Reg => 7,
        OpCode::DivU32ImmU32Reg => 8,
        OpCode::DivU32RegU32Imm => 9,
        OpCode::DivU32RegU32Reg => 10,
        OpCode::ModU32ImmU32Reg => 11,
        OpCode::ModU32RegU32Imm => 12,
        OpCode::ModU32RegU32Reg => 13,
        OpCode::IncU32Reg => 14,
        OpCode::DecU32Reg => 15,
        OpCode::AndU32ImmU32Reg => 16,
        OpCode::LeftShiftU32ImmU32Reg => 17,
        OpCode::LeftShiftU32RegU32Reg => 18,
        OpCode::ArithLeftShiftU32ImmU32Reg => 19,
        OpCode::ArithLeftShiftU32RegU32Reg => 20,
        OpCode::RightShiftU32ImmU32Reg => 21,
        OpCode::RightShiftU32RegU32Reg => 22,
        OpCode::ArithRightShiftU32ImmU32Reg => 23,
        OpCode::ArithRightShiftU32RegU32Reg => 24,
        OpCode::CallU32Imm => 25,
        OpCode::CallU32Reg => 26,
        OpCode::RetArgsU32 => 27,
        OpCode::Int => 28,
        OpCode::IntRet => 29,
        OpCode::JumpAbsU32Imm => 30,
        OpCode::JumpAbsU32Reg => 31,
        OpCode::SwapU32RegU32Reg => 32,
        OpCode::MovU32ImmU32Reg => 33,
        OpCode::MovU32RegU32Reg => 34,
        OpCode::MovU32ImmMemSimple => 35,
        OpCode::MovU32RegMemSimple => 36,
        OpCode::MovMemU32RegSimple => 37,
        OpCode::MovU32RegPtrU32RegSimple => 38,
        OpCode::MovU32ImmMemExpr => 39,
        OpCode::MovMemExprU32Reg => 40,
        OpCode::MovU32RegMemExpr => 41,
        OpCode::ByteSwapU32 => 42,
        OpCode::ZeroHighBitsByIndexU32Reg => 43,
        OpCode::ZeroHighBitsByIndexU32RegU32Imm => 44,
        OpCode::PushU32Imm => 45,
        OpCode::PopU32ImmU32Reg => 46,
        OpCode::BitTestU32Reg => 47,
        OpCode::BitTestU32Mem => 48,
        OpCode::BitTestResetU32Reg => 49,
        OpCode::BitTestResetU32Mem => 50,
        OpCode::BitTestSetU32Reg => 51,
        OpCode::BitTestSetU32Mem => 52,
        OpCode::BitScanReverseU32RegU32Reg => 53,
        OpCode::BitScanReverseU32MemU32Reg => 54,
        OpCode::BitScanReverseU32RegMemU32 => 55,
        OpCode::BitScanReverseU32MemU32Mem => 56,
        OpCode::BitScanForwardU32RegU32Reg => 57,
        OpCode::BitScanForwardU32MemU32Reg => 58,
        OpCode::BitScanForwardU32RegMemU32 => 59,
        OpCode::BitScanForwardU32MemU32Mem => 60,
        OpCode::Mret => 61,
        OpCode::Hlt => 62,
        OpCode::Reserved1 => 63,
        OpCode::Reserved2 => 64,
        OpCode::Reserved3 => 65,
        OpCode::Reserved4 => 66,
        OpCode::Reserved5 => 67,
        OpCode::Reserved6 => 68,
        OpCode::Reserved7 => 69,
        OpCode::Reserved8 => 70,
        OpCode::Reserved9 => 71,
        OpCode::Label => 72,
        OpCode::Unknown => 73,
    }
}

/// The mnemonics (in lower case) by which assembly text names an operation.
pub open spec fn mnemonics(op: OpCode) -> Seq<Seq<char>> {
    match op {
        OpCode::Nop => seq![seq!['n', 'o', 'p']],
        OpCode::AddU32ImmU32Reg => seq![seq!['a', 'd', 'd']],
        OpCode::AddU32RegU32Reg => seq![seq!['a', 'd', 'd']],
        OpCode::SubU32ImmU32Reg => seq![seq!['s', 'u', 'b']],
        OpCode::SubU32RegU32Imm => seq![seq!['s', 'u', 'b']],
        OpCode::SubU32RegU32Reg => seq![seq!['s', 'u', 'b']],
        OpCode::MulU32ImmU32Reg => seq![seq!['m', 'u', 'l']],
        OpCode::MulU32RegU32Reg => seq![seq!['m', 'u', 'l']],
        OpCode::DivU32ImmU32Reg => seq![seq!['d', 'i', 'v']],
        OpCode::DivU32RegU32Imm => seq![seq!['d', 'i', 'v']],
        OpCode::DivU32RegU32Reg => seq![seq!['d', 'i', 'v']],
        OpCode::ModU32ImmU32Reg => seq![seq!['m', 'o', 'd']],
        OpCode::ModU32RegU32Imm => seq![seq!['m', 'o', 'd']],
        OpCode::ModU32RegU32Reg => seq![seq!['m', 'o', 'd']],
        OpCode::IncU32Reg => seq![seq!['i', 'n', 'c']],
        OpCode::DecU32Reg => seq![seq!['d', 'e', 'c']],
        OpCode::AndU32ImmU32Reg => seq![seq!['a', 'n', 'd']],
        OpCode::LeftShiftU32ImmU32Reg => seq![seq!['s', 'h', 'l']],
        OpCode::LeftShiftU32RegU32Reg => seq![seq!['s', 'h', 'l']],
        OpCode::ArithLeftShiftU32ImmU32Reg => seq![seq!['s', 'a', 'l']],
        OpCode::ArithLeftShiftU32RegU32Reg => seq![seq!['s', 'a', 'l']],
        OpCode::RightShiftU32ImmU32Reg => seq![seq!['s', 'h', 'r']],
        OpCode::RightShiftU32RegU32Reg => seq![seq!['s', 'h', 'r']],
        OpCode::ArithRightShiftU32ImmU32Reg => seq![seq!['s', 'a', 'r']],
        OpCode::ArithRightShiftU32RegU32Reg => seq![seq!['s', 'a', 'r']],
        OpCode::CallU32Imm => seq![seq!['c', 'a', 'l', 'l']],
        OpCode::CallU32Reg => seq![seq!['c', 'a', 'l', 'l']],
        OpCode::RetArgsU32 => seq![seq!['i', 'r', 'e', 't']],
        OpCode::Int => seq![seq!['i', 'n', 't']],
        OpCode::IntRet => seq![seq!['i', 'n', 't', 'r', 'e', 't']],
        OpCode::JumpAbsU32Imm => seq![seq!['j', 'm', 'p']],
        OpCode::JumpAbsU32Reg => seq![seq!['j', 'm', 'p']],
        OpCode::SwapU32RegU32Reg => seq![seq!['s', 'w', 'a', 'p']],
        OpCode::MovU32ImmU32Reg => seq![seq!['m', 'o', 'v']],
        OpCode::MovU32RegU32Reg => seq![seq!['m', 'o', 'v']],
        OpCode::MovU32ImmMemSimple => seq![seq!['m', 'o', 'v'], seq!['m', 'o', 'v', '.', 's']],
        OpCode::MovU32RegMemSimple => seq![seq!['m', 'o', 'v'], seq!['m', 'o', 'v', '.', 's']],
        OpCode::MovMemU32RegSimple => seq![seq!['m', 'o', 'v'], seq!['m', 'o', 'v', '.', 's']],
        OpCode::MovU32RegPtrU32RegSimple => seq![seq!['m', 'o', 'v'], seq!['m', 'o', 'v', '.', 's']],
        OpCode::MovU32ImmMemExpr => seq![seq!['m', 'o', 'v'], seq!['m', 'o', 'v', '.', 'c']],
        OpCode::MovMemExprU32Reg => seq![seq!['m', 'o', 'v'], seq!['m', 'o', 'v', '.', 'c']],
        OpCode::MovU32RegMemExpr => seq![seq!['m', 'o', 'v'], seq!['m', 'o', 'v', '.', 'c']],
        OpCode::ByteSwapU32 => seq![seq!['b', 's', 'w', 'a', 'p']],
        OpCode::ZeroHighBitsByIndexU32Reg => seq![seq!['z', 'h', 'b', 'i']],
        OpCode::ZeroHighBitsByIndexU32RegU32Imm => seq![seq!['z', 'h', 'b', 'i']],
        OpCode::PushU32Imm => seq![seq!['p', 'u', 's', 'h']],
        OpCode::PopU32ImmU32Reg => seq![seq!['p', 'o', 'p']],
        OpCode::BitTestU32Reg => seq![seq!['b', 't']],
        OpCode::BitTestU32Mem => seq![seq!['b', 't']],
        OpCode::BitTestResetU32Reg => seq![seq!['b', 't', 'r']],
        OpCode::BitTestResetU32Mem => seq![seq!['b', 't', 'r']],
        OpCode::BitTestSetU32Reg => seq![seq!['b', 't', 's']],
        OpCode::BitTestSetU32Mem => seq![seq!['b', 't', 's']],
        OpCode::BitScanReverseU32RegU32Reg => seq![seq!['b', 's', 'r']],
        OpCode::BitScanReverseU32MemU32Reg => seq![seq!['b', 's', 'r']],
        OpCode::BitScanReverseU32RegMemU32 => seq![seq!['b', 's', 'r']],
        OpCode::BitScanReverseU32MemU32Mem => seq![seq!['b', 's', 'r']],
        OpCode::BitScanForwardU32RegU32Reg => seq![seq!['b', 's', 'f']],
        OpCode::BitScanForwardU32MemU32Reg => seq![seq!['b', 's', 'f']],
        OpCode::BitScanForwardU32RegMemU32 => seq![seq!['b', 's', 'f']],
        OpCode::BitScanForwardU32MemU32Mem => seq![seq!['b', 's', 'f']],
        OpCode::Mret => seq![seq!['m', 'r', 'e', 't']],
        OpCode::Hlt => seq![seq!['h', 'l', 't']],
        OpCode::Reserved1 => seq![],
        OpCode::Reserved2 => seq![],
        OpCode::Reserved3 => seq![],
        OpCode::Reserved4 => seq![],
        OpCode::Reserved5 => seq![],
        OpCode::Reserved6 => seq![],
        OpCode::Reserved7 => seq![],
        OpCode::Reserved8 => seq![],
        OpCode::Reserved9 => seq![],
        OpCode::Label => seq![],
        OpCode::Unknown => seq![],
    }
}

/// The kinds of the arguments that an operation takes, in order.
pub open spec fn arg_hints(op: OpCode) -> Seq<ArgTypeHint> {
    match op {
        OpCode::Nop => seq![],
        OpCode::AddU32ImmU32Reg => seq![ArgTypeHint::U32, ArgTypeHint::RegisterU32],
        OpCode::AddU32RegU32Reg => seq![ArgTypeHint::RegisterU32, ArgTypeHint::RegisterU32],
        OpCode::SubU32ImmU32Reg => seq![ArgTypeHint::U32, ArgTypeHint::RegisterU32],
        OpCode::SubU32RegU32Imm => seq![ArgTypeHint::RegisterU32, ArgTypeHint::U32],
        OpCode::SubU32RegU32Reg => seq![ArgTypeHint::RegisterU32, ArgTypeHint::RegisterU32],
        OpCode::MulU32ImmU32Reg => seq![ArgTypeHint::U32, ArgTypeHint::RegisterU32],
        OpCode::MulU32RegU32Reg => seq![ArgTypeHint::RegisterU32, ArgTypeHint::RegisterU32],
        OpCode::DivU32ImmU32Reg => seq![ArgTypeHint::U32, ArgTypeHint::RegisterU32],
        OpCode::DivU32RegU32Imm => seq![ArgTypeHint::RegisterU32, ArgTypeHint::U32],
        OpCode::DivU32RegU32Reg => seq![ArgTypeHint::RegisterU32, ArgTypeHint::RegisterU32],
        OpCode::ModU32ImmU32Reg => seq![ArgTypeHint::U32, ArgTypeHint::RegisterU32],
        OpCode::ModU32RegU32Imm => seq![ArgTypeHint::RegisterU32, ArgTypeHint::U32],
        OpCode::ModU32RegU32Reg => seq![ArgTypeHint::RegisterU32, ArgTypeHint::RegisterU32],
        OpCode::IncU32Reg => seq![ArgTypeHint::RegisterU32],
        OpCode::DecU32Reg => seq![ArgTypeHint::RegisterU32],
        OpCode::AndU32ImmU32Reg => seq![ArgTypeHint::U32, ArgTypeHint::RegisterU32],
        OpCode::LeftShiftU32ImmU32Reg => seq![ArgTypeHint::U32, ArgTypeHint::RegisterU32],
        OpCode::LeftShiftU32RegU32Reg => seq![ArgTypeHint::RegisterU32, ArgTypeHint::RegisterU32],
        OpCode::ArithLeftShiftU32ImmU32Reg => seq![ArgTypeHint::U32, ArgTypeHint::RegisterU32],
        OpCode::ArithLeftShiftU32RegU32Reg => seq![ArgTypeHint::RegisterU32, ArgTypeHint::RegisterU32],
        OpCode::RightShiftU32ImmU32Reg => seq![ArgTypeHint::U32, ArgTypeHint::RegisterU32],
        OpCode::RightShiftU32RegU32Reg => seq![ArgTypeHint::RegisterU32, ArgTypeHint::RegisterU32],
        OpCode::ArithRightShiftU32ImmU32Reg => seq![ArgTypeHint::U32, ArgTypeHint::RegisterU32],
        OpCode::ArithRightShiftU32RegU32Reg => seq![ArgTypeHint::RegisterU32, ArgTypeHint::RegisterU32],
        OpCode::CallU32Imm => seq![ArgTypeHint::U32Pointer],
        OpCode::CallU32Reg => seq![ArgTypeHint::RegisterU32Pointer],
        OpCode::RetArgsU32 => seq![],
        OpCode::Int => seq![ArgTypeHint::U8],
        OpCode::IntRet => seq![],
        OpCode::JumpAbsU32Imm => seq![ArgTypeHint::U32Pointer],
        OpCode::JumpAbsU32Reg => seq![ArgTypeHint::RegisterU32Pointer],
        OpCode::SwapU32RegU32Reg => seq![ArgTypeHint::RegisterU32, ArgTypeHint::RegisterU32],
        OpCode::MovU32ImmU32Reg => seq![ArgTypeHint::U32, ArgTypeHint::RegisterU32],
        OpCode::MovU32RegU32Reg => seq![ArgTypeHint::RegisterU32, ArgTypeHint::RegisterU32],
        OpCode::MovU32ImmMemSimple => seq![ArgTypeHint::U32, ArgTypeHint::U32Pointer],
        OpCode::MovU32RegMemSimple => seq![ArgTypeHint::RegisterU32, ArgTypeHint::U32Pointer],
        OpCode::MovMemU32RegSimple => seq![ArgTypeHint::U32Pointer, ArgTypeHint::RegisterU32],
        OpCode::MovU32RegPtrU32RegSimple => seq![ArgTypeHint::RegisterU32Pointer, ArgTypeHint::RegisterU32],
        OpCode::MovU32ImmMemExpr => seq![ArgTypeHint::U32, ArgTypeHint::ExpressionPointer],
        OpCode::MovMemExprU32Reg => seq![ArgTypeHint::ExpressionPointer, ArgTypeHint::RegisterU32],
        OpCode::MovU32RegMemExpr => seq![ArgTypeHint::RegisterU32, ArgTypeHint::ExpressionPointer],
        OpCode::ByteSwapU32 => seq![ArgTypeHint::RegisterU32],
        OpCode::ZeroHighBitsByIndexU32Reg => seq![ArgTypeHint::RegisterU32, ArgTypeHint::RegisterU32, ArgTypeHint::RegisterU32],
        OpCode::ZeroHighBitsByIndexU32RegU32Imm => seq![ArgTypeHint::U32, ArgTypeHint::RegisterU32, ArgTypeHint::RegisterU32],
        OpCode::PushU32Imm => seq![ArgTypeHint::U32],
        OpCode::PopU32ImmU32Reg => seq![ArgTypeHint::RegisterU32],
        OpCode::BitTestU32Reg => seq![ArgTypeHint::U8, ArgTypeHint::RegisterU32],
        OpCode::BitTestU32Mem => seq![ArgTypeHint::U8, ArgTypeHint::U32Pointer],
        OpCode::BitTestResetU32Reg => seq![ArgTypeHint::U8, ArgTypeHint::RegisterU32],
        OpCode::BitTestResetU32Mem => seq![ArgTypeHint::U8, ArgTypeHint::U32Pointer],
        OpCode::BitTestSetU32Reg => seq![ArgTypeHint::U8, ArgTypeHint::RegisterU32],
        OpCode::BitTestSetU32Mem => seq![ArgTypeHint::U8, ArgTypeHint::U32Pointer],
        OpCode::BitScanReverseU32RegU32Reg => seq![ArgTypeHint::RegisterU32, ArgTypeHint::RegisterU32],
        OpCode::BitScanReverseU32MemU32Reg => seq![ArgTypeHint::U32Pointer, ArgTypeHint::RegisterU32],
        OpCode::BitScanReverseU32RegMemU32 => seq![ArgTypeHint::RegisterU32, ArgTypeHint::U32Pointer],
        OpCode::BitScanReverseU32MemU32Mem => seq![ArgTypeHint::U32Pointer, ArgTypeHint::U32Pointer],
        OpCode::BitScanForwardU32RegU32Reg => seq![ArgTypeHint::RegisterU32, ArgTypeHint::RegisterU32],
        OpCode::BitScanForwardU32MemU32Reg => seq![ArgTypeHint::U32Pointer, ArgTypeHint::RegisterU32],
        OpCode::BitScanForwardU32RegMemU32 => seq![ArgTypeHint::RegisterU32, ArgTypeHint::U32Pointer],
        OpCode::BitScanForwardU32MemU32Mem => seq![ArgTypeHint::U32Pointer, ArgTypeHint::U32Pointer],
        OpCode::Mret => seq![],
        OpCode::Hlt => seq![],
        OpCode::Reserved1 => seq![],
        OpCode::Reserved2 => seq![],
        OpCode::Reserved3 => seq![],
        OpCode::Reserved4 => seq![],
        OpCode::Reserved5 => seq![],
        OpCode::Reserved6 => seq![],
        OpCode::Reserved7 => seq![],
        OpCode::Reserved8 => seq![],
        OpCode::Reserved9 => seq![],
        OpCode::Label => seq![],
        OpCode::Unknown => seq![],
    }
}

/// The lower-case form of an ASCII letter; any other character is left as it is.
pub open spec fn char_lower(c: char) -> char {
    if 'A' <= c <= 'Z' {
        ((c as u8) + 32) as char
    } else {
        c
    }
}

/// A text with its ASCII letters put in lower case.
pub open spec fn lower_ascii(s: Seq<char>) -> Seq<char> {
    s.map_values(|c: char| char_lower(c))
}

/// Whether the text `name` (in any case) is a mnemonic of `op`.
pub open spec fn mnemonic_matches(op: OpCode, name: Seq<char>) -> bool {
    mnemonics(op).contains(lower_ascii(name))
}

/// No two operation codes share a position, and each position is below the count.
pub proof fn lemma_opcode_index(a: OpCode, b: OpCode)
    ensures
        opcode_index(a) == opcode_index(b) ==> a == b,
        opcode_index(a) < OPCODE_COUNT,
{
}

/// Each of the mnemonics of the operations without arguments names that operation alone.
pub proof fn lemma_argless_mnemonics(o: OpCode)
    ensures
        mnemonics(o).contains(seq!['n', 'o', 'p']) ==> o == OpCode::Nop,
        mnemonics(o).contains(seq!['i', 'r', 'e', 't']) ==> o == OpCode::RetArgsU32,
        mnemonics(o).contains(seq!['i', 'n', 't', 'r', 'e', 't']) ==> o == OpCode::IntRet,
        mnemonics(o).contains(seq!['m', 'r', 'e', 't']) ==> o == OpCode::Mret,
        mnemonics(o).contains(seq!['h', 'l', 't']) ==> o == OpCode::Hlt,
{
    let names = mnemonics(o);
    assert forall|k: int| 0 <= k < names.len() implies {
        let w = #[trigger] names[k];
        &&& w == seq!['n', 'o', 'p'] ==> o == OpCode::Nop
        &&& w == seq!['i', 'r', 'e', 't'] ==> o == OpCode::RetArgsU32
        &&& w == seq!['i', 'n', 't', 'r', 'e', 't'] ==> o == OpCode::IntRet
        &&& w == seq!['m', 'r', 'e', 't'] ==> o == OpCode::Mret
        &&& w == seq!['h', 'l', 't'] ==> o == OpCode::Hlt
    } by {
        let w = names[k];
        if w.len() > 0 {
            assert(w[0] == names[k][0]);
        }
        if w.len() > 1 {
            assert(w[1] == names[k][1]);
        }
        if w.len() > 2 {
            assert(w[2] == names[k][2]);
        }
    }
}

/// The operation code at position `i` of the table, if there is one.
pub fn opcode_at(i: usize) -> (op: Option<OpCode>)
    ensures
        match op {
            Some(o) => opcode_index(o) == i,
            None => i >= OPCODE_COUNT,
        },
{
    match i {
        0 => Some(OpCode::Nop),
        1 => Some(OpCode::AddU32ImmU32Reg),
        2 => Some(OpCode::AddU32RegU32Reg),
        3 => Some(OpCode::SubU32ImmU32Reg),
        4 => Some(OpCode::SubU32RegU32Imm),
        5 => Some(OpCode::SubU32RegU32Reg),
        6 => Some(OpCode::MulU32ImmU32Reg),
        7 => Some(OpCode::MulU32RegU32Reg),
        8 => Some(OpCode::DivU32ImmU32Reg),
        9 => Some(OpCode::DivU32RegU32Imm),
        10 => Some(OpCode::DivU32RegU32Reg),
        11 => Some(OpCode::ModU32ImmU32Reg),
        12 => Some(OpCode::ModU32RegU32Imm),
        13 => Some(OpCode::ModU32RegU32Reg),
        14 => Some(OpCode::IncU32Reg),
        15 => Some(OpCode::DecU32Reg),
        16 => Some(OpCode::AndU32ImmU32Reg),
        17 => Some(OpCode::LeftShiftU32ImmU32Reg),
        18 => Some(OpCode::LeftShiftU32RegU32Reg),
        19 => Some(OpCode::ArithLeftShiftU32ImmU32Reg),
        20 => Some(OpCode::ArithLeftShiftU32RegU32Reg),
        21 => Some(OpCode::RightShiftU32ImmU32Reg),
        22 => Some(OpCode::RightShiftU32RegU32Reg),
        23 => Some(OpCode::ArithRightShiftU32ImmU32Reg),
        24 => Some(OpCode::ArithRightShiftU32RegU32Reg),
        25 => Some(OpCode::CallU32Imm),
        26 => Some(OpCode::CallU32Reg),
        27 => Some(OpCode::RetArgsU32),
        28 => Some(OpCode::Int),
        29 => Some(OpCode::IntRet),
        30 => Some(OpCode::JumpAbsU32Imm),
        31 => Some(OpCode::JumpAbsU32Reg),
        32 => Some(OpCode::SwapU32RegU32Reg),
        33 => Some(OpCode::MovU32ImmU32Reg),
        34 => Some(OpCode::MovU32RegU32Reg),
        35 => Some(OpCode::MovU32ImmMemSimple),
        36 => Some(OpCode::MovU32RegMemSimple),
        37 => Some(OpCode::MovMemU32RegSimple),
        38 => Some(OpCode::MovU32RegPtrU32RegSimple),
        39 => Some(OpCode::MovU32ImmMemExpr),
        40 => Some(OpCode::MovMemExprU32Reg),
        41 => Some(OpCode::MovU32RegMemExpr),
        42 => Some(OpCode::ByteSwapU32),
        43 => Some(OpCode::ZeroHighBitsByIndexU32Reg),
        44 => Some(OpCode::ZeroHighBitsByIndexU32RegU32Imm),
        45 => Some(OpCode::PushU32Imm),
        46 => Some(OpCode::PopU32ImmU32Reg),
        47 => Some(OpCode::BitTestU32Reg),
        48 => Some(OpCode::BitTestU32Mem),
        49 => Some(OpCode::BitTestResetU32Reg),
        50 => Some(OpCode::BitTestResetU32Mem),
        51 => Some(OpCode::BitTestSetU32Reg),
        52 => Some(OpCode::BitTestSetU32Mem),
        53 => Some(OpCode::BitScanReverseU32RegU32Reg),
        54 => Some(OpCode::BitScanReverseU32MemU32Reg),
        55 => Some(OpCode::BitScanReverseU32RegMemU32),
        56 => Some(OpCode::BitScanReverseU32MemU32Mem),
        57 => Some(OpCode::BitScanForwardU32RegU32Reg),
        58 => Some(OpCode::BitScanForwardU32MemU32Reg),
        59 => Some(OpCode::BitScanForwardU32RegMemU32),
        60 => Some(OpCode::BitScanForwardU32MemU32Mem),
        61 => Some(OpCode::Mret),
        62 => Some(OpCode::Hlt),
        63 => Some(OpCode::Reserved1),
        64 => Some(OpCode::Reserved2),
        65 => Some(OpCode::Reserved3),
        66 => Some(OpCode::Reserved4),
        67 => Some(OpCode::Reserved5),
        68 => Some(OpCode::Reserved6),
        69 => Some(OpCode::Reserved7),
        70 => Some(OpCode::Reserved8),
        71 => Some(OpCode::Reserved9),
        72 => Some(OpCode::Label),
        73 => Some(OpCode::Unknown),
        _ => None,
    }
}

/// The kinds of the arguments of `op`.
pub fn arg_hints_of(op: OpCode) -> (v: Vec<ArgTypeHint>)
    ensures
        v@ == arg_hints(op),
{
    let v = match op {
        OpCode::Nop => vec![],
        OpCode::AddU32ImmU32Reg => vec![ArgTypeHint::U32, ArgTypeHint::RegisterU32],
        OpCode::AddU32RegU32Reg => vec![ArgTypeHint::RegisterU32, ArgTypeHint::RegisterU32],
        OpCode::SubU32ImmU32Reg => vec![ArgTypeHint::U32, ArgTypeHint::RegisterU32],
        OpCode::SubU32RegU32Imm => vec![ArgTypeHint::RegisterU32, ArgTypeHint::U32],
        OpCode::SubU32RegU32Reg => vec![ArgTypeHint::RegisterU32, ArgTypeHint::RegisterU32],
        OpCode::MulU32ImmU32Reg => vec![ArgTypeHint::U32, ArgTypeHint::RegisterU32],
        OpCode::MulU32RegU32Reg => vec![ArgTypeHint::RegisterU32, ArgTypeHint::RegisterU32],
        OpCode::DivU32ImmU32Reg => vec![ArgTypeHint::U32, ArgTypeHint::RegisterU32],
        OpCode::DivU32RegU32Imm => vec![ArgTypeHint::RegisterU32, ArgTypeHint::U32],
        OpCode::DivU32RegU32Reg => vec![ArgTypeHint::RegisterU32, ArgTypeHint::RegisterU32],
        OpCode::ModU32ImmU32Reg => vec![ArgTypeHint::U32, ArgTypeHint::RegisterU32],
        OpCode::ModU32RegU32Imm => vec![ArgTypeHint::RegisterU32, ArgTypeHint::U32],
        OpCode::ModU32RegU32Reg => vec![ArgTypeHint::RegisterU32, ArgTypeHint::RegisterU32],
        OpCode::IncU32Reg => vec![ArgTypeHint::RegisterU32],
        OpCode::DecU32Reg => vec![ArgTypeHint::RegisterU32],
        OpCode::AndU32ImmU32Reg => vec![ArgTypeHint::U32, ArgTypeHint::RegisterU32],
        OpCode::LeftShiftU32ImmU32Reg => vec![ArgTypeHint::U32, ArgTypeHint::RegisterU32],
        OpCode::LeftShiftU32RegU32Reg => vec![ArgTypeHint::RegisterU32, ArgTypeHint::RegisterU32],
        OpCode::ArithLeftShiftU32ImmU32Reg => vec![ArgTypeHint::U32, ArgTypeHint::RegisterU32],
        OpCode::ArithLeftShiftU32RegU32Reg => vec![ArgTypeHint::RegisterU32, ArgTypeHint::RegisterU32],
        OpCode::RightShiftU32ImmU32Reg => vec![ArgTypeHint::U32, ArgTypeHint::RegisterU32],
        OpCode::RightShiftU32RegU32Reg => vec![ArgTypeHint::RegisterU32, ArgTypeHint::RegisterU32],
        OpCode::ArithRightShiftU32ImmU32Reg => vec![ArgTypeHint::U32, ArgTypeHint::RegisterU32],
        OpCode::ArithRightShiftU32RegU32Reg => vec![ArgTypeHint::RegisterU32, ArgTypeHint::RegisterU32],
        OpCode::CallU32Imm => vec![ArgTypeHint::U32Pointer],
        OpCode::CallU32Reg => vec![ArgTypeHint::RegisterU32Pointer],
        OpCode::RetArgsU32 => vec![],
        OpCode::Int => vec![ArgTypeHint::U8],
        OpCode::IntRet => vec![],
        OpCode::JumpAbsU32Imm => vec![ArgTypeHint::U32Pointer],
        OpCode::JumpAbsU32Reg => vec![ArgTypeHint::RegisterU32Pointer],
        OpCode::SwapU32RegU32Reg => vec![ArgTypeHint::RegisterU32, ArgTypeHint::RegisterU32],
        OpCode::MovU32ImmU32Reg => vec![ArgTypeHint::U32, ArgTypeHint::RegisterU32],
        OpCode::MovU32RegU32Reg => vec![ArgTypeHint::RegisterU32, ArgTypeHint::RegisterU32],
        OpCode::MovU32ImmMemSimple => vec![ArgTypeHint::U32, ArgTypeHint::U32Pointer],
        OpCode::MovU32RegMemSimple => vec![ArgTypeHint::RegisterU32, ArgTypeHint::U32Pointer],
        OpCode::MovMemU32RegSimple => vec![ArgTypeHint::U32Pointer, ArgTypeHint::RegisterU32],
        OpCode::MovU32RegPtrU32RegSimple => vec![ArgTypeHint::RegisterU32Pointer, ArgTypeHint::RegisterU32],
        OpCode::MovU32ImmMemExpr => vec![ArgTypeHint::U32, ArgTypeHint::ExpressionPointer],
        OpCode::MovMemExprU32Reg => vec![ArgTypeHint::ExpressionPointer, ArgTypeHint::RegisterU32],
        OpCode::MovU32RegMemExpr => vec![ArgTypeHint::RegisterU32, ArgTypeHint::ExpressionPointer],
        OpCode::ByteSwapU32 => vec![ArgTypeHint::RegisterU32],
        OpCode::ZeroHighBitsByIndexU32Reg => vec![ArgTypeHint::RegisterU32, ArgTypeHint::RegisterU32, ArgTypeHint::RegisterU32],
        OpCode::ZeroHighBitsByIndexU32RegU32Imm => vec![ArgTypeHint::U32, ArgTypeHint::RegisterU32, ArgTypeHint::RegisterU32],
        OpCode::PushU32Imm => vec![ArgTypeHint::U32],
        OpCode::PopU32ImmU32Reg => vec![ArgTypeHint::RegisterU32],
        OpCode::BitTestU32Reg => vec![ArgTypeHint::U8, ArgTypeHint::RegisterU32],
        OpCode::BitTestU32Mem => vec![ArgTypeHint::U8, ArgTypeHint::U32Pointer],
        OpCode::BitTestResetU32Reg => vec![ArgTypeHint::U8, ArgTypeHint::RegisterU32],
        OpCode::BitTestResetU32Mem => vec![ArgTypeHint::U8, ArgTypeHint::U32Pointer],
        OpCode::BitTestSetU32Reg => vec![ArgTypeHint::U8, ArgTypeHint::RegisterU32],
        OpCode::BitTestSetU32Mem => vec![ArgTypeHint::U8, ArgTypeHint::U32Pointer],
        OpCode::BitScanReverseU32RegU32Reg => vec![ArgTypeHint::RegisterU32, ArgTypeHint::RegisterU32],
        OpCode::BitScanReverseU32MemU32Reg => vec![ArgTypeHint::U32Pointer, ArgTypeHint::RegisterU32],
        OpCode::BitScanReverseU32RegMemU32 => vec![ArgTypeHint::RegisterU32, ArgTypeHint::U32Pointer],
        OpCode::BitScanReverseU32MemU32Mem => vec![ArgTypeHint::U32Pointer, ArgTypeHint::U32Pointer],
        OpCode::BitScanForwardU32RegU32Reg => vec![ArgTypeHint::RegisterU32, ArgTypeHint::RegisterU32],
        OpCode::BitScanForwardU32MemU32Reg => vec![ArgTypeHint::U32Pointer, ArgTypeHint::RegisterU32],
        OpCode::BitScanForwardU32RegMemU32 => vec![ArgTypeHint::RegisterU32, ArgTypeHint::U32Pointer],
        OpCode::BitScanForwardU32MemU32Mem => vec![ArgTypeHint::U32Pointer, ArgTypeHint::U32Pointer],
        OpCode::Mret => vec![],
        OpCode::Hlt => vec![],
        OpCode::Reserved1 => vec![],
        OpCode::Reserved2 => vec![],
        OpCode::Reserved3 => vec![],
        OpCode::Reserved4 => vec![],
        OpCode::Reserved5 => vec![],
        OpCode::Reserved6 => vec![],
        OpCode::Reserved7 => vec![],
        OpCode::Reserved8 => vec![],
        OpCode::Reserved9 => vec![],
        OpCode::Label => vec![],
        OpCode::Unknown => vec![],
    };
    assert(v@ =~= arg_hints(op));
    v
}

/// The mnemonics of `op`.
pub(crate) fn mnemonics_of(op: OpCode) -> (v: Vec<Vec<char>>)
    ensures
        v@.map_values(|w: Vec<char>| w@) =~= mnemonics(op),
{
    let v: Vec<Vec<char>> = match op {
        OpCode::Nop => vec![vec!['n', 'o', 'p']],
        OpCode::AddU32ImmU32Reg => vec![vec!['a', 'd', 'd']],
        OpCode::AddU32RegU32Reg => vec![vec!['a', 'd', 'd']],
        OpCode::SubU32ImmU32Reg => vec![vec!['s', 'u', 'b']],
        OpCode::SubU32RegU32Imm => vec![vec!['s', 'u', 'b']],
        OpCode::SubU32RegU32Reg => vec![vec!['s', 'u', 'b']],
        OpCode::MulU32ImmU32Reg => vec![vec!['m', 'u', 'l']],
        OpCode::MulU32RegU32Reg => vec![vec!['m', 'u', 'l']],
        OpCode::DivU32ImmU32Reg => vec![vec!['d', 'i', 'v']],
        OpCode::DivU32RegU32Imm => vec![vec!['d', 'i', 'v']],
        OpCode::DivU32RegU32Reg => vec![vec!['d', 'i', 'v']],
        OpCode::ModU32ImmU32Reg => vec![vec!['m', 'o', 'd']],
        OpCode::ModU32RegU32Imm => vec![vec!['m', 'o', 'd']],
        OpCode::ModU32RegU32Reg => vec![vec!['m', 'o', 'd']],
        OpCode::IncU32Reg => vec![vec!['i', 'n', 'c']],
        OpCode::DecU32Reg => vec![vec!['d', 'e', 'c']],
        OpCode::AndU32ImmU32Reg => vec![vec!['a', 'n', 'd']],
        OpCode::LeftShiftU32ImmU32Reg => vec![vec!['s', 'h', 'l']],
        OpCode::LeftShiftU32RegU32Reg => vec![vec!['s', 'h', 'l']],
        OpCode::ArithLeftShiftU32ImmU32Reg => vec![vec!['s', 'a', 'l']],
        OpCode::ArithLeftShiftU32RegU32Reg => vec![vec!['s', 'a', 'l']],
        OpCode::RightShiftU32ImmU32Reg => vec![vec!['s', 'h', 'r']],
        OpCode::RightShiftU32RegU32Reg => vec![vec!['s', 'h', 'r']],
        OpCode::ArithRightShiftU32ImmU32Reg => vec![vec!['s', 'a', 'r']],
        OpCode::ArithRightShiftU32RegU32Reg => vec![vec!['s', 'a', 'r']],
        OpCode::CallU32Imm => vec![vec!['c', 'a', 'l', 'l']],
        OpCode::CallU32Reg => vec![vec!['c', 'a', 'l', 'l']],
        OpCode::RetArgsU32 => vec![vec!['i', 'r', 'e', 't']],
        OpCode::Int => vec![vec!['i', 'n', 't']],
        OpCode::IntRet => vec![vec!['i', 'n', 't', 'r', 'e', 't']],
        OpCode::JumpAbsU32Imm => vec![vec!['j', 'm', 'p']],
        OpCode::JumpAbsU32Reg => vec![vec!['j', 'm', 'p']],
        OpCode::SwapU32RegU32Reg => vec![vec!['s', 'w', 'a', 'p']],
        OpCode::MovU32ImmU32Reg => vec![vec!['m', 'o', 'v']],
        OpCode::MovU32RegU32Reg => vec![vec!['m', 'o', 'v']],
        OpCode::MovU32ImmMemSimple => vec![vec!['m', 'o', 'v'], vec!['m', 'o', 'v', '.', 's']],
        OpCode::MovU32RegMemSimple => vec![vec!['m', 'o', 'v'], vec!['m', 'o', 'v', '.', 's']],
        OpCode::MovMemU32RegSimple => vec![vec!['m', 'o', 'v'], vec!['m', 'o', 'v', '.', 's']],
        OpCode::MovU32RegPtrU32RegSimple => vec![vec!['m', 'o', 'v'], vec!['m', 'o', 'v', '.', 's']],
        OpCode::MovU32ImmMemExpr => vec![vec!['m', 'o', 'v'], vec!['m', 'o', 'v', '.', 'c']],
        OpCode::MovMemExprU32Reg => vec![vec!['m', 'o', 'v'], vec!['m', 'o', 'v', '.', 'c']],
        OpCode::MovU32RegMemExpr => vec![vec!['m', 'o', 'v'], vec!['m', 'o', 'v', '.', 'c']],
        OpCode::ByteSwapU32 => vec![vec!['b', 's', 'w', 'a', 'p']],
        OpCode::ZeroHighBitsByIndexU32Reg => vec![vec!['z', 'h', 'b', 'i']],
        OpCode::ZeroHighBitsByIndexU32RegU32Imm => vec![vec!['z', 'h', 'b', 'i']],
        OpCode::PushU32Imm => vec![vec!['p', 'u', 's', 'h']],
        OpCode::PopU32ImmU32Reg => vec![vec!['p', 'o', 'p']],
        OpCode::BitTestU32Reg => vec![vec!['b', 't']],
        OpCode::BitTestU32Mem => vec![vec!['b', 't']],
        OpCode::BitTestResetU32Reg => vec![vec!['b', 't', 'r']],
        OpCode::BitTestResetU32Mem => vec![vec!['b', 't', 'r']],
        OpCode::BitTestSetU32Reg => vec![vec!['b', 't', 's']],
        OpCode::BitTestSetU32Mem => vec![vec!['b', 't', 's']],
        OpCode::BitScanReverseU32RegU32Reg => vec![vec!['b', 's', 'r']],
        OpCode::BitScanReverseU32MemU32Reg => vec![vec!['b', 's', 'r']],
        OpCode::BitScanReverseU32RegMemU32 => vec![vec!['b', 's', 'r']],
        OpCode::BitScanReverseU32MemU32Mem => vec![vec!['b', 's', 'r']],
        OpCode::BitScanForwardU32RegU32Reg => vec![vec!['b', 's', 'f']],
        OpCode::BitScanForwardU32MemU32Reg => vec![vec!['b', 's', 'f']],
        OpCode::BitScanForwardU32RegMemU32 => vec![vec!['b', 's', 'f']],
        OpCode::BitScanForwardU32MemU32Mem => vec![vec!['b', 's', 'f']],
        OpCode::Mret => vec![vec!['m', 'r', 'e', 't']],
        OpCode::Hlt => vec![vec!['h', 'l', 't']],
        OpCode::Reserved1 => vec![],
        OpCode::Reserved2 => vec![],
        OpCode::Reserved3 => vec![],
        OpCode::Reserved4 => vec![],
        OpCode::Reserved5 => vec![],
        OpCode::Reserved6 => vec![],
        OpCode::Reserved7 => vec![],
        OpCode::Reserved8 => vec![],
        OpCode::Reserved9 => vec![],
        OpCode::Label => vec![],
        OpCode::Unknown => vec![],
    };
    proof {
        assert forall|i: int| 0 <= i < v@.len() implies v@[i]@ =~= mnemonics(op)[i] by {}
    }
    v
}

fn lower_char(c: char) -> (r: char)
    ensures
        r == char_lower(c),
{
    if 'A' <= c && c <= 'Z' {
        ((c as u8) + 32) as char
    } else {
        c
    }
}

/// Whether `name` in lower case is `m`.
fn lower_equals(name: &[char], m: &[char]) -> (eq: bool)
    ensures
        eq == (lower_ascii(name@) == m@),
{
    if name.len() != m.len() {
        assert(lower_ascii(name@).len() != m@.len());
        return false;
    }
    let mut i: usize = 0;
    while i < name.len()
        invariant
            i <= name.len(),
            name.len() == m.len(),
            forall|j: int| 0 <= j < i ==> char_lower(name@[j]) == m@[j],
        decreases name.len() - i,
    {
        if lower_char(name[i]) != m[i] {
            assert(lower_ascii(name@)[i as int] != m@[i as int]);
            return false;
        }
        i = i + 1;
    }
    assert(lower_ascii(name@) =~= m@);
    true
}

/// Whether `name` (in any case) is a mnemonic of `op`.
pub fn has_mnemonic(op: OpCode, name: &[char]) -> (b: bool)
    ensures
        b == mnemonic_matches(op, name@),
{
    let names = mnemonics_of(op);
    let ghost views = names@.map_values(|w: Vec<char>| w@);
    let mut i: usize = 0;
    while i < names.len()
        invariant
            i <= names.len(),
            views == names@.map_values(|w: Vec<char>| w@),
            views =~= mnemonics(op),
            forall|j: int| 0 <= j < i ==> views[j] != lower_ascii(name@),
        decreases names.len() - i,
    {
        if lower_equals(name, &names[i]) {
            assert(views[i as int] == lower_ascii(name@));
            return true;
        }
        i = i + 1;
    }
    assert(!mnemonics(op).contains(lower_ascii(name@)));
    false
}

} // verus!
