//! The instructions of the virtual machine and the sizes of their encodings.
use vstd::prelude::*;

use crate::op_codes::OpCode;
use crate::registers::RegisterId;

verus! {

/// The size of the instruction, in bytes.
pub const INSTRUCTION_SIZE: usize = 4;
/// The size of a u32 argument, in bytes.
pub const ARG_U32_IMM_SIZE: usize = 4;
/// The size of a u8 argument, in bytes.
pub const ARG_U8_IMM_SIZE: usize = 1;
/// The size of a memory address argument, in bytes.
pub const ARG_MEM_ADDR_SIZE: usize = 4;
/// The size of a register ID argument, in bytes.
pub const ARG_REG_ID_SIZE: usize = 1;

#[derive(Clone, Debug, Eq, PartialEq)]

pub enum Instruction {
    /// No operation.
    Nop,

    /******** [Arithmetic Instructions] ********/
    /// Add a u32 immediate to u32 register. The result is stored in the accumulator register.
    AddU32ImmU32Reg(u32, RegisterId),
    /// Add a u32 register to u32 register. The result is stored in the accumulator register.
    AddU32RegU32Reg(RegisterId, RegisterId),
    /// Subtract a u32 immediate from a u32 register. The result is stored in the accumulator register.
    SubU32ImmU32Reg(u32, RegisterId),
    /// Subtract a u32 register from a u32 immediate. The result is stored in the accumulator register.
    SubU32RegU32Imm(RegisterId, u32),
    /// Subtract a u32 register (A) from a u32 register (B). The result is stored in the accumulator register.
    SubU32RegU32Reg(RegisterId, RegisterId),
    /// Multiply a u32 register by a u32 immediate. The result is stored in the accumulator register.
    MulU32ImmU32Reg(u32, RegisterId),
    /// Multiply a u32 register by a u32 register. The result is stored in the accumulator register.
    MulU32RegU32Reg(RegisterId, RegisterId),
    /// Divide a u32 register by a u32 immediate. The result is stored in the accumulator register.
    DivU32ImmU32Reg(u32, RegisterId),
    /// Divide a u32 immediate by a u32 register. The result is stored in the accumulator register.
    DivU32RegU32Imm(RegisterId, u32),
    /// Divide a u32 register (B) by a u32 register (A). The result is stored in the accumulator register.
    DivU32RegU32Reg(RegisterId, RegisterId),
    /// Calculate the modulo of a u32 register by a u32 immediate. The result is stored in the accumulator register.
    ModU32ImmU32Reg(u32, RegisterId),
    /// Calculate the modulo of a u32 immediate by a u32 register. The result is stored in the accumulator register.
    ModU32RegU32Imm(RegisterId, u32),
    /// Calculate the modulo of a u32 register (B) by a u32 register (A). The result is stored in the accumulator register.
    ModU32RegU32Reg(RegisterId, RegisterId),
    /// Increment a u32 register.
    IncU32Reg(RegisterId),
    /// Decrement a u32 register.
    DecU32Reg(RegisterId),
    /// Perform a logical AND operation on a u32 immediate and a u32 register.
    AndU32ImmU32Reg(u32, RegisterId),

    /******** [Bit Operation Instructions] ********/
    /// Left-shift a u32 register by a u32 immediate. The result remains in the origin register.
    LeftShiftU32ImmU32Reg(u32, RegisterId),
    /// Left-shift a u32 register (B) by a u32 register (A). The result remains in register A.
    LeftShiftU32RegU32Reg(RegisterId, RegisterId),
    /// Arithmetic left-shift a u32 register by a u32 immediate. The result remains in the origin register.
    ArithLeftShiftU32ImmU32Reg(u32, RegisterId),
    /// Arithmetic left-shift a u32 register (B) by a u32 register (A). The result remains in register A.
    ArithLeftShiftU32RegU32Reg(RegisterId, RegisterId),
    /// Right-shift a u32 register by a u32 immediate. The result remains in the origin register.
    RightShiftU32ImmU32Reg(u32, RegisterId),
    /// Right-shift a u32 register (B) by a u32 register (A). The result remains in register A.
    RightShiftU32RegU32Reg(RegisterId, RegisterId),
    /// Arithmetic right-shift a u32 register by a u32 immediate. The result remains in the origin register.
    ArithRightShiftU32ImmU32Reg(u32, RegisterId),
    /// Arithmetic right-shift a u32 register (B) by a u32 register (A). The result remains in register A.
    ArithRightShiftU32RegU32Reg(RegisterId, RegisterId),

    /******** [Branching Instructions] ********/
    /// Call a subroutine by a provided u32 immediate address.
    CallU32Imm(u32),
    /// Call a subroutine by the address as specified by a u32 register.
    CallU32Reg(RegisterId),
    /// Return from a subroutine that had zero or more u32 arguments supplied.
    RetArgsU32,
    /// Trigger a specific type of interrupt handler.
    Int(u8),
    /// Returns from an interrupt handler.
    IntRet,
    /// Unconditional jump to a specified address.
    JumpAbsU32Imm(u32),
    /// Unconditional jump to an address as specified by a u32 register.
    JumpAbsU32Reg(RegisterId),

    /******** [Data Instructions] ********/
    /// Swap the values of the two registers.
    SwapU32RegU32Reg(RegisterId, RegisterId),
    /// Move a u32 immediate to u32 register (A). The result is copied into register A.
    MovU32ImmU32Reg(u32, RegisterId),
    /// Move a u32 register (B) to u32 register (A). The result is copied into register A.
    MovU32RegU32Reg(RegisterId, RegisterId),
    /// Move a u32 immediate to memory. The result is copied into the specified memory address.
    MovU32ImmMemSimple(u32, u32),
    /// Move a u32 register to memory. The result is copied into the specified memory address.
    MovU32RegMemSimple(RegisterId, u32),
    /// Move a u32 value from memory to a u32 register. The result is copied into the specified register.
    MovMemU32RegSimple(u32, RegisterId),
    /// Move the value from the memory address specified by a register. The result is copied into the specified register.
    MovU32RegPtrU32RegSimple(RegisterId, RegisterId),
    /// Move a u32 immediate to memory. The result is copied into the specified memory address.
    MovU32ImmMemExpr(u32, u32),
    /// Move the address as given by an expression. The result is copied into the specified register.
    MovMemExprU32Reg(u32, RegisterId),
    /// Move the value of a register to the address given by an expression. The result is copied into the specified memory address.
    MovU32RegMemExpr(RegisterId, u32),
    /// Reverse the order of bytes in a specified register.
    ByteSwapU32(RegisterId),
    /// Zero the high bits of the source value starting from a specified index.
    ZeroHighBitsByIndexU32Reg(RegisterId, RegisterId, RegisterId),
    /// Zero the high bits of the source value starting from a specified index.
    ZeroHighBitsByIndexU32RegU32Imm(u32, RegisterId, RegisterId),
    /// Push a u32 immediate value onto the stack.
    PushU32Imm(u32),
    /// Pop a u32 value from the stack to a u32 register.
    PopU32ImmU32Reg(RegisterId),

    /******** [Logic Instructions] ********/
    /// Test the state of a bit from a u32 register. The CF flag will be set to the state of the bit.
    BitTestU32Reg(u8, RegisterId),
    /// Test the state of a bit from a u32 value (starting at the specified memory address). The CF flag will be set to the state of the bit.
    BitTestU32Mem(u8, u32),
    /// Test the state of a bit from a u32 register and clear the bit. The CF flag will be set to the original state of the bit.
    BitTestResetU32Reg(u8, RegisterId),
    /// Test the state of a bit of a u32 value (starting at the specified memory address) and clear the bit. The CF flag will be set to the original state of the bit.
    BitTestResetU32Mem(u8, u32),
    /// Test the state of a bit of a u32 register and set the bit. The CF flag will be set to the original state of the bit.
    BitTestSetU32Reg(u8, RegisterId),
    /// Test the state of a bit of a u32 value (starting at the specified memory address) and set the bit. The CF flag will be set to the original state of the bit.
    BitTestSetU32Mem(u8, u32),
    /// Search for the most significant set bit of a u32 register (A) and store the index of the bit in a u32 register (B).
    BitScanReverseU32RegU32Reg(RegisterId, RegisterId),
    /// Search for the most significant set bit of a u32 value (starting at the specified memory address) and store the index of the bit in a u32 register.
    BitScanReverseU32MemU32Reg(u32, RegisterId),
    /// Search for the most significant set bit of a u32 register and store the index of the bit as a u32 value starting at a specified memory address.
    BitScanReverseU32RegMemU32(RegisterId, u32),
    /// Search for the most significant set bit of a u32 value (starting at the specified memory address) and store the index of the bit as a u32 value starting at a specified memory address.
    BitScanReverseU32MemU32Mem(u32, u32),
    /// Search for the least significant set bit of a u32 register (A) and store the index of the bit in a u32 register (B).
    BitScanForwardU32RegU32Reg(RegisterId, RegisterId),
    /// Search for the least significant set bit of a u32 value (starting at the specified memory address) and store the index of the bit in a u32 register.
    BitScanForwardU32MemU32Reg(u32, RegisterId),
    /// Search for the least significant set bit of a u32 register and store the index of the bit as a u32 value starting at a specified memory address.
    BitScanForwardU32RegMemU32(RegisterId, u32),
    /// Search for the least significant set bit of a u32 value (starting at the specified memory address) and store the index of the bit as a u32 value starting at a specified memory address.
    BitScanForwardU32MemU32Mem(u32, u32),

    /******** [Special Instructions] ********/
    /// Machine return - downgrade the privilege level of the processor.
    Mret,
    /// Halt the execution of the processor.
    Hlt,

    /******** [Reserved Instructions] ********/
    Reserved1,
    Reserved2,
    Reserved3,
    Reserved4,
    Reserved5,
    Reserved6,
    Reserved7,
    Reserved8,
    Reserved9,

    /******** [Pseudo Instructions] ********/
    /// A placeholder opcode for labels. These do not directly compile to anything and are intended on being a hint when compiling. This should never be constructed directly.
    Label(String),
    /// A placeholder for instances where the opcode isn't recognized. This should never be constructed directly.
    Unknown(u32),
}

/// The kind of an encoded argument of an instruction.
#[derive(Clone, Copy, Debug, PartialEq, Eq, Structural)]
pub enum OperandKind {
    /// A u32 immediate value.
    U32Immediate,
    /// A u8 immediate value.
    U8Immediate,
    /// A memory address.
    MemoryAddress,
    /// A register identifier.
    RegisterId,
}

/// The number of bytes that an argument of this kind takes when encoded.
pub open spec fn operand_width(k: OperandKind) -> nat {
    match k {
        OperandKind::U32Immediate => ARG_U32_IMM_SIZE as nat,
        OperandKind::U8Immediate => ARG_U8_IMM_SIZE as nat,
        OperandKind::MemoryAddress => ARG_MEM_ADDR_SIZE as nat,
        OperandKind::RegisterId => ARG_REG_ID_SIZE as nat,
    }
}

/// The total number of bytes taken by a list of encoded arguments.
pub open spec fn operands_width(ks: Seq<OperandKind>) -> nat
    decreases ks.len(),
{
    if ks.len() == 0 {
        0
    } else {
        operand_width(ks[0]) + operands_width(ks.drop_first())
    }
}

/// The encoded arguments that follow an operation code, in order.
pub open spec fn operand_layout(op: OpCode) -> Seq<OperandKind> {
    match op {
        OpCode::Nop => seq![],
        OpCode::AddU32ImmU32Reg => seq![OperandKind::U32Immediate, OperandKind::RegisterId],
        OpCode::AddU32RegU32Reg => seq![OperandKind::RegisterId, OperandKind::RegisterId],
        OpCode::SubU32ImmU32Reg => seq![OperandKind::U32Immediate, OperandKind::RegisterId],
        OpCode::SubU32RegU32Imm => seq![OperandKind::RegisterId, OperandKind::U32Immediate],
        OpCode::SubU32RegU32Reg => seq![OperandKind::RegisterId, OperandKind::RegisterId],
        OpCode::MulU32ImmU32Reg => seq![OperandKind::U32Immediate, OperandKind::RegisterId],
        OpCode::MulU32RegU32Reg => seq![OperandKind::RegisterId, OperandKind::RegisterId],
        OpCode::DivU32ImmU32Reg => seq![OperandKind::U32Immediate, OperandKind::RegisterId],
        OpCode::DivU32RegU32Imm => seq![OperandKind::RegisterId, OperandKind::U32Immediate],
        OpCode::DivU32RegU32Reg => seq![OperandKind::RegisterId, OperandKind::RegisterId],
        OpCode::ModU32ImmU32Reg => seq![OperandKind::U32Immediate, OperandKind::RegisterId],
        OpCode::ModU32RegU32Imm => seq![OperandKind::RegisterId, OperandKind::U32Immediate],
        OpCode::ModU32RegU32Reg => seq![OperandKind::RegisterId, OperandKind::RegisterId],
        OpCode::IncU32Reg => seq![OperandKind::RegisterId],
        OpCode::DecU32Reg => seq![OperandKind::RegisterId],
        OpCode::AndU32ImmU32Reg => seq![OperandKind::U32Immediate, OperandKind::RegisterId],
        OpCode::LeftShiftU32ImmU32Reg => seq![OperandKind::U32Immediate, OperandKind::RegisterId],
        OpCode::LeftShiftU32RegU32Reg => seq![OperandKind::RegisterId, OperandKind::RegisterId],
        OpCode::ArithLeftShiftU32ImmU32Reg => seq![OperandKind::U32Immediate, OperandKind::RegisterId],
        OpCode::ArithLeftShiftU32RegU32Reg => seq![OperandKind::RegisterId, OperandKind::RegisterId],
        OpCode::RightShiftU32ImmU32Reg => seq![OperandKind::U32Immediate, OperandKind::RegisterId],
        OpCode::RightShiftU32RegU32Reg => seq![OperandKind::RegisterId, OperandKind::RegisterId],
        OpCode::ArithRightShiftU32ImmU32Reg => seq![OperandKind::U32Immediate, OperandKind::RegisterId],
        OpCode::ArithRightShiftU32RegU32Reg => seq![OperandKind::RegisterId, OperandKind::RegisterId],
        OpCode::CallU32Imm => seq![OperandKind::MemoryAddress],
        OpCode::CallU32Reg => seq![OperandKind::RegisterId],
        OpCode::RetArgsU32 => seq![],
        OpCode::Int => seq![OperandKind::U8Immediate],
        OpCode::IntRet => seq![],
        OpCode::JumpAbsU32Imm => seq![OperandKind::MemoryAddress],
        OpCode::JumpAbsU32Reg => seq![OperandKind::RegisterId],
        OpCode::SwapU32RegU32Reg => seq![OperandKind::RegisterId, OperandKind::RegisterId],
        OpCode::MovU32ImmU32Reg => seq![OperandKind::U32Immediate, OperandKind::RegisterId],
        OpCode::MovU32RegU32Reg => seq![OperandKind::RegisterId, OperandKind::RegisterId],
        OpCode::MovU32ImmMemSimple => seq![OperandKind::U32Immediate, OperandKind::MemoryAddress],
        OpCode::MovU32RegMemSimple => seq![OperandKind::RegisterId, OperandKind::MemoryAddress],
        OpCode::MovMemU32RegSimple => seq![OperandKind::MemoryAddress, OperandKind::RegisterId],
        OpCode::MovU32RegPtrU32RegSimple => seq![OperandKind::RegisterId, OperandKind::RegisterId],
        OpCode::MovU32ImmMemExpr => seq![OperandKind::U32Immediate, OperandKind::MemoryAddress],
        OpCode::MovMemExprU32Reg => seq![OperandKind::MemoryAddress, OperandKind::RegisterId],
        OpCode::MovU32RegMemExpr => seq![OperandKind::RegisterId, OperandKind::U32Immediate],
        OpCode::ByteSwapU32 => seq![OperandKind::RegisterId],
        OpCode::ZeroHighBitsByIndexU32Reg => seq![OperandKind::RegisterId, OperandKind::RegisterId, OperandKind::RegisterId],
        OpCode::ZeroHighBitsByIndexU32RegU32Imm => seq![OperandKind::U32Immediate, OperandKind::RegisterId, OperandKind::RegisterId],
        OpCode::PushU32Imm => seq![OperandKind::U32Immediate],
        OpCode::PopU32ImmU32Reg => seq![OperandKind::RegisterId],
        OpCode::BitTestU32Reg => seq![OperandKind::U8Immediate, OperandKind::RegisterId],
        OpCode::BitTestU32Mem => seq![OperandKind::U8Immediate, OperandKind::MemoryAddress],
        OpCode::BitTestResetU32Reg => seq![OperandKind::U8Immediate, OperandKind::RegisterId],
        OpCode::BitTestResetU32Mem => seq![OperandKind::U8Immediate, OperandKind::MemoryAddress],
        OpCode::BitTestSetU32Reg => seq![OperandKind::U8Immediate, OperandKind::RegisterId],
        OpCode::BitTestSetU32Mem => seq![OperandKind::U8Immediate, OperandKind::MemoryAddress],
        OpCode::BitScanReverseU32RegU32Reg => seq![OperandKind::RegisterId, OperandKind::RegisterId],
        OpCode::BitScanReverseU32MemU32Reg => seq![OperandKind::MemoryAddress, OperandKind::RegisterId],
        OpCode::BitScanReverseU32RegMemU32 => seq![OperandKind::RegisterId, OperandKind::MemoryAddress],
        OpCode::BitScanReverseU32MemU32Mem => seq![OperandKind::MemoryAddress, OperandKind::MemoryAddress],
        OpCode::BitScanForwardU32RegU32Reg => seq![OperandKind::RegisterId, OperandKind::RegisterId],
        OpCode::BitScanForwardU32MemU32Reg => seq![OperandKind::MemoryAddress, OperandKind::RegisterId],
        OpCode::BitScanForwardU32RegMemU32 => seq![OperandKind::RegisterId, OperandKind::MemoryAddress],
        OpCode::BitScanForwardU32MemU32Mem => seq![OperandKind::MemoryAddress, OperandKind::MemoryAddress],
        OpCode::Mret => seq![],
        OpCode::Hlt => seq![],
        OpCode::Reserved1 => seq![],
        OpCode::Reserved2 => seq![],
        OpCode::Reserved3 => seq![],
        OpCode::Reserved4 => seq![],
        OpCode::Reserved5 => seq![],
        OpCode::Reserved6 => seq![],
        OpCode::Reserved7 => seq![],
        OpCode::Reserved8 => seq![],
        OpCode::Reserved9 => seq![],
        OpCode::Label => seq![],
        OpCode::Unknown => seq![],
    }
}

/// The argument size, in bytes, of an operation code: the sum of the widths of its arguments.
pub open spec fn arg_size(op: OpCode) -> nat {
    operands_width(operand_layout(op))
}

/// The operation code of an instruction.
pub open spec fn opcode_of(ins: Instruction) -> OpCode {
    match ins {
        Instruction::Nop => OpCode::Nop,
        Instruction::AddU32ImmU32Reg(..) => OpCode::AddU32ImmU32Reg,
        Instruction::AddU32RegU32Reg(..) => OpCode::AddU32RegU32Reg,
        Instruction::SubU32ImmU32Reg(..) => OpCode::SubU32ImmU32Reg,
        Instruction::SubU32RegU32Imm(..) => OpCode::SubU32RegU32Imm,
        Instruction::SubU32RegU32Reg(..) => OpCode::SubU32RegU32Reg,
        Instruction::MulU32ImmU32Reg(..) => OpCode::MulU32ImmU32Reg,
        Instruction::MulU32RegU32Reg(..) => OpCode::MulU32RegU32Reg,
        Instruction::DivU32ImmU32Reg(..) => OpCode::DivU32ImmU32Reg,
        Instruction::DivU32RegU32Imm(..) => OpCode::DivU32RegU32Imm,
        Instruction::DivU32RegU32Reg(..) => OpCode::DivU32RegU32Reg,
        Instruction::ModU32ImmU32Reg(..) => OpCode::ModU32ImmU32Reg,
        Instruction::ModU32RegU32Imm(..) => OpCode::ModU32RegU32Imm,
        Instruction::ModU32RegU32Reg(..) => OpCode::ModU32RegU32Reg,
        Instruction::IncU32Reg(..) => OpCode::IncU32Reg,
        Instruction::DecU32Reg(..) => OpCode::DecU32Reg,
        Instruction::AndU32ImmU32Reg(..) => OpCode::AndU32ImmU32Reg,
        Instruction::LeftShiftU32ImmU32Reg(..) => OpCode::LeftShiftU32ImmU32Reg,
        Instruction::LeftShiftU32RegU32Reg(..) => OpCode::LeftShiftU32RegU32Reg,
        Instruction::ArithLeftShiftU32ImmU32Reg(..) => OpCode::ArithLeftShiftU32ImmU32Reg,
        Instruction::ArithLeftShiftU32RegU32Reg(..) => OpCode::ArithLeftShiftU32RegU32Reg,
        Instruction::RightShiftU32ImmU32Reg(..) => OpCode::RightShiftU32ImmU32Reg,
        Instruction::RightShiftU32RegU32Reg(..) => OpCode::RightShiftU32RegU32Reg,
        Instruction::ArithRightShiftU32ImmU32Reg(..) => OpCode::ArithRightShiftU32ImmU32Reg,
        Instruction::ArithRightShiftU32RegU32Reg(..) => OpCode::ArithRightShiftU32RegU32Reg,
        Instruction::CallU32Imm(..) => OpCode::CallU32Imm,
        Instruction::CallU32Reg(..) => OpCode::CallU32Reg,
        Instruction::RetArgsU32 => OpCode::RetArgsU32,
        Instruction::Int(..) => OpCode::Int,
        Instruction::IntRet => OpCode::IntRet,
        Instruction::JumpAbsU32Imm(..) => OpCode::JumpAbsU32Imm,
        Instruction::JumpAbsU32Reg(..) => OpCode::JumpAbsU32Reg,
        Instruction::SwapU32RegU32Reg(..) => OpCode::SwapU32RegU32Reg,
        Instruction::MovU32ImmU32Reg(..) => OpCode::MovU32ImmU32Reg,
        Instruction::MovU32RegU32Reg(..) => OpCode::MovU32RegU32Reg,
        Instruction::MovU32ImmMemSimple(..) => OpCode::MovU32ImmMemSimple,
        Instruction::MovU32RegMemSimple(..) => OpCode::MovU32RegMemSimple,
        Instruction::MovMemU32RegSimple(..) => OpCode::MovMemU32RegSimple,
        Instruction::MovU32RegPtrU32RegSimple(..) => OpCode::MovU32RegPtrU32RegSimple,
        Instruction::MovU32ImmMemExpr(..) => OpCode::MovU32ImmMemExpr,
        Instruction::MovMemExprU32Reg(..) => OpCode::MovMemExprU32Reg,
        Instruction::MovU32RegMemExpr(..) => OpCode::MovU32RegMemExpr,
        Instruction::ByteSwapU32(..) => OpCode::ByteSwapU32,
        Instruction::ZeroHighBitsByIndexU32Reg(..) => OpCode::ZeroHighBitsByIndexU32Reg,
        Instruction::ZeroHighBitsByIndexU32RegU32Imm(..) => OpCode::ZeroHighBitsByIndexU32RegU32Imm,
        Instruction::PushU32Imm(..) => OpCode::PushU32Imm,
        Instruction::PopU32ImmU32Reg(..) => OpCode::PopU32ImmU32Reg,
        Instruction::BitTestU32Reg(..) => OpCode::BitTestU32Reg,
        Instruction::BitTestU32Mem(..) => OpCode::BitTestU32Mem,
        Instruction::BitTestResetU32Reg(..) => OpCode::BitTestResetU32Reg,
        Instruction::BitTestResetU32Mem(..) => OpCode::BitTestResetU32Mem,
        Instruction::BitTestSetU32Reg(..) => OpCode::BitTestSetU32Reg,
        Instruction::BitTestSetU32Mem(..) => OpCode::BitTestSetU32Mem,
        Instruction::BitScanReverseU32RegU32Reg(..) => OpCode::BitScanReverseU32RegU32Reg,
        Instruction::BitScanReverseU32MemU32Reg(..) => OpCode::BitScanReverseU32MemU32Reg,
        Instruction::BitScanReverseU32RegMemU32(..) => OpCode::BitScanReverseU32RegMemU32,
        Instruction::BitScanReverseU32MemU32Mem(..) => OpCode::BitScanReverseU32MemU32Mem,
        Instruction::BitScanForwardU32RegU32Reg(..) => OpCode::BitScanForwardU32RegU32Reg,
        Instruction::BitScanForwardU32MemU32Reg(..) => OpCode::BitScanForwardU32MemU32Reg,
        Instruction::BitScanForwardU32RegMemU32(..) => OpCode::BitScanForwardU32RegMemU32,
        Instruction::BitScanForwardU32MemU32Mem(..) => OpCode::BitScanForwardU32MemU32Mem,
        Instruction::Mret => OpCode::Mret,
        Instruction::Hlt => OpCode::Hlt,
        Instruction::Reserved1 => OpCode::Reserved1,
        Instruction::Reserved2 => OpCode::Reserved2,
        Instruction::Reserved3 => OpCode::Reserved3,
        Instruction::Reserved4 => OpCode::Reserved4,
        Instruction::Reserved5 => OpCode::Reserved5,
        Instruction::Reserved6 => OpCode::Reserved6,
        Instruction::Reserved7 => OpCode::Reserved7,
        Instruction::Reserved8 => OpCode::Reserved8,
        Instruction::Reserved9 => OpCode::Reserved9,
        Instruction::Label(..) => OpCode::Label,
        Instruction::Unknown(..) => OpCode::Unknown,
    }
}

/// Every argument list is at most three arguments long, so its width is below 13 bytes.
proof fn lemma_operands_width_small(op: OpCode)
    ensures
        arg_size(op) <= 12,
{
    reveal_with_fuel(operands_width, 4);
}

impl Instruction {
    /// The operation code of this instruction.
    pub fn opcode(&self) -> (op: OpCode)
        ensures
            op == opcode_of(*self),
    {
        match self {
            Instruction::Nop => OpCode::Nop,
            Instruction::AddU32ImmU32Reg(..) => OpCode::AddU32ImmU32Reg,
            Instruction::AddU32RegU32Reg(..) => OpCode::AddU32RegU32Reg,
            Instruction::SubU32ImmU32Reg(..) => OpCode::SubU32ImmU32Reg,
            Instruction::SubU32RegU32Imm(..) => OpCode::SubU32RegU32Imm,
            Instruction::SubU32RegU32Reg(..) => OpCode::SubU32RegU32Reg,
            Instruction::MulU32ImmU32Reg(..) => OpCode::MulU32ImmU32Reg,
            Instruction::MulU32RegU32Reg(..) => OpCode::MulU32RegU32Reg,
            Instruction::DivU32ImmU32Reg(..) => OpCode::DivU32ImmU32Reg,
            Instruction::DivU32RegU32Imm(..) => OpCode::DivU32RegU32Imm,
            Instruction::DivU32RegU32Reg(..) => OpCode::DivU32RegU32Reg,
            Instruction::ModU32ImmU32Reg(..) => OpCode::ModU32ImmU32Reg,
            Instruction::ModU32RegU32Imm(..) => OpCode::ModU32RegU32Imm,
            Instruction::ModU32RegU32Reg(..) => OpCode::ModU32RegU32Reg,
            Instruction::IncU32Reg(..) => OpCode::IncU32Reg,
            Instruction::DecU32Reg(..) => OpCode::DecU32Reg,
            Instruction::AndU32ImmU32Reg(..) => OpCode::AndU32ImmU32Reg,
            Instruction::LeftShiftU32ImmU32Reg(..) => OpCode::LeftShiftU32ImmU32Reg,
            Instruction::LeftShiftU32RegU32Reg(..) => OpCode::LeftShiftU32RegU32Reg,
            Instruction::ArithLeftShiftU32ImmU32Reg(..) => OpCode::ArithLeftShiftU32ImmU32Reg,
            Instruction::ArithLeftShiftU32RegU32Reg(..) => OpCode::ArithLeftShiftU32RegU32Reg,
            Instruction::RightShiftU32ImmU32Reg(..) => OpCode::RightShiftU32ImmU32Reg,
            Instruction::RightShiftU32RegU32Reg(..) => OpCode::RightShiftU32RegU32Reg,
            Instruction::ArithRightShiftU32ImmU32Reg(..) => OpCode::ArithRightShiftU32ImmU32Reg,
            Instruction::ArithRightShiftU32RegU32Reg(..) => OpCode::ArithRightShiftU32RegU32Reg,
            Instruction::CallU32Imm(..) => OpCode::CallU32Imm,
            Instruction::CallU32Reg(..) => OpCode::CallU32Reg,
            Instruction::RetArgsU32 => OpCode::RetArgsU32,
            Instruction::Int(..) => OpCode::Int,
            Instruction::IntRet => OpCode::IntRet,
            Instruction::JumpAbsU32Imm(..) => OpCode::JumpAbsU32Imm,
            Instruction::JumpAbsU32Reg(..) => OpCode::JumpAbsU32Reg,
            Instruction::SwapU32RegU32Reg(..) => OpCode::SwapU32RegU32Reg,
            Instruction::MovU32ImmU32Reg(..) => OpCode::MovU32ImmU32Reg,
            Instruction::MovU32RegU32Reg(..) => OpCode::MovU32RegU32Reg,
            Instruction::MovU32ImmMemSimple(..) => OpCode::MovU32ImmMemSimple,
            Instruction::MovU32RegMemSimple(..) => OpCode::MovU32RegMemSimple,
            Instruction::MovMemU32RegSimple(..) => OpCode::MovMemU32RegSimple,
            Instruction::MovU32RegPtrU32RegSimple(..) => OpCode::MovU32RegPtrU32RegSimple,
            Instruction::MovU32ImmMemExpr(..) => OpCode::MovU32ImmMemExpr,
            Instruction::MovMemExprU32Reg(..) => OpCode::MovMemExprU32Reg,
            Instruction::MovU32RegMemExpr(..) => OpCode::MovU32RegMemExpr,
            Instruction::ByteSwapU32(..) => OpCode::ByteSwapU32,
            Instruction::ZeroHighBitsByIndexU32Reg(..) => OpCode::ZeroHighBitsByIndexU32Reg,
            Instruction::ZeroHighBitsByIndexU32RegU32Imm(..) => OpCode::ZeroHighBitsByIndexU32RegU32Imm,
            Instruction::PushU32Imm(..) => OpCode::PushU32Imm,
            Instruction::PopU32ImmU32Reg(..) => OpCode::PopU32ImmU32Reg,
            Instruction::BitTestU32Reg(..) => OpCode::BitTestU32Reg,
            Instruction::BitTestU32Mem(..) => OpCode::BitTestU32Mem,
            Instruction::BitTestResetU32Reg(..) => OpCode::BitTestResetU32Reg,
            Instruction::BitTestResetU32Mem(..) => OpCode::BitTestResetU32Mem,
            Instruction::BitTestSetU32Reg(..) => OpCode::BitTestSetU32Reg,
            Instruction::BitTestSetU32Mem(..) => OpCode::BitTestSetU32Mem,
            Instruction::BitScanReverseU32RegU32Reg(..) => OpCode::BitScanReverseU32RegU32Reg,
            Instruction::BitScanReverseU32MemU32Reg(..) => OpCode::BitScanReverseU32MemU32Reg,
            Instruction::BitScanReverseU32RegMemU32(..) => OpCode::BitScanReverseU32RegMemU32,
            Instruction::BitScanReverseU32MemU32Mem(..) => OpCode::BitScanReverseU32MemU32Mem,
            Instruction::BitScanForwardU32RegU32Reg(..) => OpCode::BitScanForwardU32RegU32Reg,
            Instruction::BitScanForwardU32MemU32Reg(..) => OpCode::BitScanForwardU32MemU32Reg,
            Instruction::BitScanForwardU32RegMemU32(..) => OpCode::BitScanForwardU32RegMemU32,
            Instruction::BitScanForwardU32MemU32Mem(..) => OpCode::BitScanForwardU32MemU32Mem,
            Instruction::Mret => OpCode::Mret,
            Instruction::Hlt => OpCode::Hlt,
            Instruction::Reserved1 => OpCode::Reserved1,
            Instruction::Reserved2 => OpCode::Reserved2,
            Instruction::Reserved3 => OpCode::Reserved3,
            Instruction::Reserved4 => OpCode::Reserved4,
            Instruction::Reserved5 => OpCode::Reserved5,
            Instruction::Reserved6 => OpCode::Reserved6,
            Instruction::Reserved7 => OpCode::Reserved7,
            Instruction::Reserved8 => OpCode::Reserved8,
            Instruction::Reserved9 => OpCode::Reserved9,
            Instruction::Label(..) => OpCode::Label,
            Instruction::Unknown(..) => OpCode::Unknown,
        }
    }

    /// Get the expected argument size of an [`Instruction`], in bytes.
    ///
    /// # Returns
    ///
    /// A usize giving the expected argument size, in bytes.
    #[inline(always)]
    pub fn get_instruction_arg_size(&self) -> (size: usize)
        ensures
            size == arg_size(opcode_of(*self)),
    {
        Instruction::get_instruction_arg_size_from_op(self.opcode())
    }

    /// Get the expected argument size of an [`OpCode`], in bytes.
    ///
    /// # Arguments
    ///
    /// * `opcode` - The [`OpCode`] which should be used to calculate the argument size
    ///
    /// # Returns
    ///
    /// A usize giving the expected argument size, in bytes.
    #[inline(always)]
    pub fn get_instruction_arg_size_from_op(opcode: OpCode) -> (size: usize)
        ensures
            size == arg_size(opcode),
    {
        proof {
            reveal_with_fuel(operands_width, 4);
        }
        match opcode {
            OpCode::Nop => 0,
            OpCode::AddU32ImmU32Reg => ARG_U32_IMM_SIZE + ARG_REG_ID_SIZE,
            OpCode::AddU32RegU32Reg => ARG_REG_ID_SIZE + ARG_REG_ID_SIZE,
            OpCode::SubU32ImmU32Reg => ARG_U32_IMM_SIZE + ARG_REG_ID_SIZE,
            OpCode::SubU32RegU32Imm => ARG_REG_ID_SIZE + ARG_U32_IMM_SIZE,
            OpCode::SubU32RegU32Reg => ARG_REG_ID_SIZE + ARG_REG_ID_SIZE,
            OpCode::MulU32ImmU32Reg => ARG_U32_IMM_SIZE + ARG_REG_ID_SIZE,
            OpCode::MulU32RegU32Reg => ARG_REG_ID_SIZE + ARG_REG_ID_SIZE,
            OpCode::DivU32ImmU32Reg => ARG_U32_IMM_SIZE + ARG_REG_ID_SIZE,
            OpCode::DivU32RegU32Imm => ARG_REG_ID_SIZE + ARG_U32_IMM_SIZE,
            OpCode::DivU32RegU32Reg => ARG_REG_ID_SIZE + ARG_REG_ID_SIZE,
            OpCode::ModU32ImmU32Reg => ARG_U32_IMM_SIZE + ARG_REG_ID_SIZE,
            OpCode::ModU32RegU32Imm => ARG_REG_ID_SIZE + ARG_U32_IMM_SIZE,
            OpCode::ModU32RegU32Reg => ARG_REG_ID_SIZE + ARG_REG_ID_SIZE,
            OpCode::IncU32Reg => ARG_REG_ID_SIZE,
            OpCode::DecU32Reg => ARG_REG_ID_SIZE,
            OpCode::AndU32ImmU32Reg => ARG_U32_IMM_SIZE + ARG_REG_ID_SIZE,
            OpCode::LeftShiftU32ImmU32Reg => ARG_U32_IMM_SIZE + ARG_REG_ID_SIZE,
            OpCode::LeftShiftU32RegU32Reg => ARG_REG_ID_SIZE + ARG_REG_ID_SIZE,
            OpCode::ArithLeftShiftU32ImmU32Reg => ARG_U32_IMM_SIZE + ARG_REG_ID_SIZE,
            OpCode::ArithLeftShiftU32RegU32Reg => ARG_REG_ID_SIZE + ARG_REG_ID_SIZE,
            OpCode::RightShiftU32ImmU32Reg => ARG_U32_IMM_SIZE + ARG_REG_ID_SIZE,
            OpCode::RightShiftU32RegU32Reg => ARG_REG_ID_SIZE + ARG_REG_ID_SIZE,
            OpCode::ArithRightShiftU32ImmU32Reg => ARG_U32_IMM_SIZE + ARG_REG_ID_SIZE,
            OpCode::ArithRightShiftU32RegU32Reg => ARG_REG_ID_SIZE + ARG_REG_ID_SIZE,
            OpCode::CallU32Imm => ARG_MEM_ADDR_SIZE,
            OpCode::CallU32Reg => ARG_REG_ID_SIZE,
            OpCode::RetArgsU32 => 0,
            OpCode::Int => ARG_U8_IMM_SIZE,
            OpCode::IntRet => 0,
            OpCode::JumpAbsU32Imm => ARG_MEM_ADDR_SIZE,
            OpCode::JumpAbsU32Reg => ARG_REG_ID_SIZE,
            OpCode::SwapU32RegU32Reg => ARG_REG_ID_SIZE + ARG_REG_ID_SIZE,
            OpCode::MovU32ImmU32Reg => ARG_U32_IMM_SIZE + ARG_REG_ID_SIZE,
            OpCode::MovU32RegU32Reg => ARG_REG_ID_SIZE + ARG_REG_ID_SIZE,
            OpCode::MovU32ImmMemSimple => ARG_U32_IMM_SIZE + ARG_MEM_ADDR_SIZE,
            OpCode::MovU32RegMemSimple => ARG_REG_ID_SIZE + ARG_MEM_ADDR_SIZE,
            OpCode::MovMemU32RegSimple => ARG_MEM_ADDR_SIZE + ARG_REG_ID_SIZE,
            OpCode::MovU32RegPtrU32RegSimple => ARG_REG_ID_SIZE + ARG_REG_ID_SIZE,
            OpCode::MovU32ImmMemExpr => ARG_U32_IMM_SIZE + ARG_MEM_ADDR_SIZE,
            OpCode::MovMemExprU32Reg => ARG_MEM_ADDR_SIZE + ARG_REG_ID_SIZE,
            OpCode::MovU32RegMemExpr => ARG_REG_ID_SIZE + ARG_U32_IMM_SIZE,
            OpCode::ByteSwapU32 => ARG_REG_ID_SIZE,
            OpCode::ZeroHighBitsByIndexU32Reg => ARG_REG_ID_SIZE + ARG_REG_ID_SIZE + ARG_REG_ID_SIZE,
            OpCode::ZeroHighBitsByIndexU32RegU32Imm => ARG_U32_IMM_SIZE + ARG_REG_ID_SIZE + ARG_REG_ID_SIZE,
            OpCode::PushU32Imm => ARG_U32_IMM_SIZE,
            OpCode::PopU32ImmU32Reg => ARG_REG_ID_SIZE,
            OpCode::BitTestU32Reg => ARG_U8_IMM_SIZE + ARG_REG_ID_SIZE,
            OpCode::BitTestU32Mem => ARG_U8_IMM_SIZE + ARG_MEM_ADDR_SIZE,
            OpCode::BitTestResetU32Reg => ARG_U8_IMM_SIZE + ARG_REG_ID_SIZE,
            OpCode::BitTestResetU32Mem => ARG_U8_IMM_SIZE + ARG_MEM_ADDR_SIZE,
            OpCode::BitTestSetU32Reg => ARG_U8_IMM_SIZE + ARG_REG_ID_SIZE,
            OpCode::BitTestSetU32Mem => ARG_U8_IMM_SIZE + ARG_MEM_ADDR_SIZE,
            OpCode::BitScanReverseU32RegU32Reg => ARG_REG_ID_SIZE + ARG_REG_ID_SIZE,
            OpCode::BitScanReverseU32MemU32Reg => ARG_MEM_ADDR_SIZE + ARG_REG_ID_SIZE,
            OpCode::BitScanReverseU32RegMemU32 => ARG_REG_ID_SIZE + ARG_MEM_ADDR_SIZE,
            OpCode::BitScanReverseU32MemU32Mem => ARG_MEM_ADDR_SIZE + ARG_MEM_ADDR_SIZE,
            OpCode::BitScanForwardU32RegU32Reg => ARG_REG_ID_SIZE + ARG_REG_ID_SIZE,
            OpCode::BitScanForwardU32MemU32Reg => ARG_MEM_ADDR_SIZE + ARG_REG_ID_SIZE,
            OpCode::BitScanForwardU32RegMemU32 => ARG_REG_ID_SIZE + ARG_MEM_ADDR_SIZE,
            OpCode::BitScanForwardU32MemU32Mem => ARG_MEM_ADDR_SIZE + ARG_MEM_ADDR_SIZE,
            OpCode::Mret => 0,
            OpCode::Hlt => 0,
            OpCode::Reserved1 => 0,
            OpCode::Reserved2 => 0,
            OpCode::Reserved3 => 0,
            OpCode::Reserved4 => 0,
            OpCode::Reserved5 => 0,
            OpCode::Reserved6 => 0,
            OpCode::Reserved7 => 0,
            OpCode::Reserved8 => 0,
            OpCode::Reserved9 => 0,
            OpCode::Label => 0,
            OpCode::Unknown => 0,
        }
    }

    /// Get the total size of an [`Instruction`], in bytes.
    ///
    /// # Returns
    ///
    /// A usize giving the total size of the [`Instruction`], in bytes.
    #[inline(always)]
    pub fn get_total_instruction_size(&self) -> (size: usize)
        ensures
            size == arg_size(opcode_of(*self)) + INSTRUCTION_SIZE,
    {
        proof {
            lemma_operands_width_small(opcode_of(*self));
        }
        self.get_instruction_arg_size() + INSTRUCTION_SIZE
    }
}

} // verus!
