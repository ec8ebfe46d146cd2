//! Address expressions, such as `[ER1*2]`, and their packed 32-bit form.
//!
//! An expression has two or three operands, each a register or a u8 immediate, joined by
//! operators. Packed, byte 0 holds the first operand, byte 1 the second and byte 2 the
//! third (zero when there is none); byte 3 holds the flags: bits 0 to 2 tell whether each
//! operand is a register, bits 3 and 4 give the first operator, bits 5 and 6 the second
//! (zero when there is none) and bit 7 whether there is a third operand.
use vstd::prelude::*;

use crate::registers::{register_code, RegisterId, REGISTER_COUNT};

verus! {

/// An operator joining two operands of an expression.
#[derive(Clone, Copy, Debug, PartialEq, Eq, Structural)]
pub enum ExpressionOperator {
    /// Addition.
    Add,
    /// Subtraction.
    Subtract,
    /// Multiplication.
    Multiply,
}

/// A component of an expression as it is read: an operand or an operator.
#[derive(Clone, Copy, Debug, PartialEq, Eq, Structural)]
pub enum ExpressionArgs {
    /// A register operand.
    Register(RegisterId),
    /// A u8 immediate operand.
    Immediate(u8),
    /// An operator.
    Operator(ExpressionOperator),
}

/// An expression: `operand_1 operator_1 operand_2`, optionally followed by a third operand.
#[derive(Clone, Copy, Debug, PartialEq, Eq, Structural)]
pub struct Expression {
    /// The first operand.
    pub operand_1: ExpressionArgs,
    /// The operator between the first and second operands.
    pub operator_1: ExpressionOperator,
    /// The second operand.
    pub operand_2: ExpressionArgs,
    /// The operator and the operand that follow the second operand, if there are any.
    pub tail: Option<ExpressionTail>,
}

/// The operator and the third operand that end a three-operand expression.
#[derive(Clone, Copy, Debug, PartialEq, Eq, Structural)]
pub struct ExpressionTail {
    /// The operator between the second and third operands.
    pub operator: ExpressionOperator,
    /// The third operand.
    pub operand: ExpressionArgs,
}

/// Whether a component is an operand.
pub open spec fn is_operand(a: ExpressionArgs) -> bool {
    !(a is Operator)
}

/// An expression is well formed when each of its operands is a register or an immediate.
pub open spec fn expression_wf(e: Expression) -> bool {
    &&& is_operand(e.operand_1)
    &&& is_operand(e.operand_2)
    &&& match e.tail {
        Some(ExpressionTail { operator: _, operand: a }) => is_operand(a),
        None => true,
    }
}

/// The expression that a list of components describes: two or three operands, with an
/// operator between each two of them.
pub open spec fn expression_of(args: Seq<ExpressionArgs>) -> Option<Expression> {
    if (args.len() == 3 || args.len() == 5) && is_operand(args[0]) && args[1] is Operator
        && is_operand(args[2]) {
        if args.len() == 3 {
            Some(
                Expression {
                    operand_1: args[0],
                    operator_1: args[1]->Operator_0,
                    operand_2: args[2],
                    tail: None,
                },
            )
        } else if args[3] is Operator && is_operand(args[4]) {
            Some(
                Expression {
                    operand_1: args[0],
                    operator_1: args[1]->Operator_0,
                    operand_2: args[2],
                    tail: Some(ExpressionTail { operator: args[3]->Operator_0, operand: args[4] }),
                },
            )
        } else {
            None
        }
    } else {
        None
    }
}

/// An expression built from components is well formed.
pub proof fn lemma_expression_of_wf(args: Seq<ExpressionArgs>)
    ensures
        expression_of(args) matches Some(e) ==> expression_wf(e),
{
}

/// The byte that stores an operand.
pub open spec fn operand_byte(a: ExpressionArgs) -> u8 {
    match a {
        ExpressionArgs::Register(r) => register_code(r),
        ExpressionArgs::Immediate(v) => v,
        ExpressionArgs::Operator(_) => 0,
    }
}

/// 1 when an operand is a register, 0 otherwise.
pub open spec fn register_flag(a: ExpressionArgs) -> u8 {
    if a is Register {
        1
    } else {
        0
    }
}

/// The code of an operator.
pub open spec fn operator_code(o: ExpressionOperator) -> u8 {
    match o {
        ExpressionOperator::Add => 0,
        ExpressionOperator::Subtract => 1,
        ExpressionOperator::Multiply => 2,
    }
}

/// The operator with a code, if there is one.
pub open spec fn operator_from_code(c: u8) -> Option<ExpressionOperator> {
    if c == 0 {
        Some(ExpressionOperator::Add)
    } else if c == 1 {
        Some(ExpressionOperator::Subtract)
    } else if c == 2 {
        Some(ExpressionOperator::Multiply)
    } else {
        None
    }
}

/// Four bytes put together, byte 0 lowest.
pub open spec fn join_bytes(b0: u8, b1: u8, b2: u8, b3: u8) -> u32 {
    (b0 as u32) | ((b1 as u32) << 8u32) | ((b2 as u32) << 16u32) | ((b3 as u32) << 24u32)
}

/// The byte `n` (0 lowest) of `v`.
pub open spec fn byte_of(v: u32, n: u32) -> u8 {
    ((v >> (8 * n)) & 0xff) as u8
}

/// The flags byte of a packed expression.
pub open spec fn join_flags(r1: u8, r2: u8, r3: u8, op1: u8, op2: u8, t: u8) -> u8 {
    (r1 | (r2 << 1u8) | (r3 << 2u8) | (op1 << 3u8) | (op2 << 5u8) | (t << 7u8)) as u8
}

/// The third operand of an expression, as stored (an immediate zero when there is none).
pub open spec fn third_operand(e: Expression) -> ExpressionArgs {
    match e.tail {
        Some(ExpressionTail { operator: _, operand: a }) => a,
        None => ExpressionArgs::Immediate(0),
    }
}

/// The code of the second operator (zero when there is none).
pub open spec fn second_operator_code(e: Expression) -> u8 {
    match e.tail {
        Some(ExpressionTail { operator: o, operand: _ }) => operator_code(o),
        None => 0,
    }
}

/// The packed form of an expression.
pub open spec fn packed(e: Expression) -> u32 {
    join_bytes(
        operand_byte(e.operand_1),
        operand_byte(e.operand_2),
        operand_byte(third_operand(e)),
        join_flags(
            register_flag(e.operand_1),
            register_flag(e.operand_2),
            register_flag(third_operand(e)),
            operator_code(e.operator_1),
            second_operator_code(e),
            if e.tail is Some {
                1
            } else {
                0
            },
        ),
    )
}

/// The operand stored as `value`, a register when `is_register` is set.
pub open spec fn operand_from(is_register: bool, value: u8) -> Option<ExpressionArgs> {
    if is_register {
        if value < REGISTER_COUNT {
            Some(ExpressionArgs::Register(choose|r: RegisterId| register_code(r) == value))
        } else {
            None
        }
    } else {
        Some(ExpressionArgs::Immediate(value))
    }
}

/// Bit `n` of the byte `b`.
pub open spec fn bit_of(b: u8, n: u8) -> bool {
    (b >> n) & 1 == 1
}

/// The expression packed as `v`, if `v` is the packed form of one.
pub open spec fn unpacked(v: u32) -> Option<Expression> {
    let flags = byte_of(v, 3);
    let has_tail = bit_of(flags, 7);
    let op1 = operator_from_code((flags >> 3u8) & 3);
    let op2_code = (flags >> 5u8) & 3;
    let a1 = operand_from(bit_of(flags, 0), byte_of(v, 0));
    let a2 = operand_from(bit_of(flags, 1), byte_of(v, 1));
    let a3 = operand_from(bit_of(flags, 2), byte_of(v, 2));
    if op1 is None || a1 is None || a2 is None || a3 is None {
        None
    } else if has_tail {
        match operator_from_code(op2_code) {
            Some(op2) => Some(
                Expression {
                    operand_1: a1->0,
                    operator_1: op1->0,
                    operand_2: a2->0,
                    tail: Some(ExpressionTail { operator: op2, operand: a3->0 }),
                },
            ),
            None => None,
        }
    } else if op2_code == 0 && !bit_of(flags, 2) && byte_of(v, 2) == 0 {
        Some(
            Expression { operand_1: a1->0, operator_1: op1->0, operand_2: a2->0, tail: None },
        )
    } else {
        None
    }
}

proof fn lemma_bytes_round_trip(b0: u8, b1: u8, b2: u8, b3: u8)
    ensures
        byte_of(join_bytes(b0, b1, b2, b3), 0) == b0,
        byte_of(join_bytes(b0, b1, b2, b3), 1) == b1,
        byte_of(join_bytes(b0, b1, b2, b3), 2) == b2,
        byte_of(join_bytes(b0, b1, b2, b3), 3) == b3,
{
    assert(((((b0 as u32) | ((b1 as u32) << 8u32) | ((b2 as u32) << 16u32) | ((b3 as u32)
        << 24u32)) >> 0u32) & 0xff) as u8 == b0) by (bit_vector);
    assert(((((b0 as u32) | ((b1 as u32) << 8u32) | ((b2 as u32) << 16u32) | ((b3 as u32)
        << 24u32)) >> 8u32) & 0xff) as u8 == b1) by (bit_vector);
    assert(((((b0 as u32) | ((b1 as u32) << 8u32) | ((b2 as u32) << 16u32) | ((b3 as u32)
        << 24u32)) >> 16u32) & 0xff) as u8 == b2) by (bit_vector);
    assert(((((b0 as u32) | ((b1 as u32) << 8u32) | ((b2 as u32) << 16u32) | ((b3 as u32)
        << 24u32)) >> 24u32) & 0xff) as u8 == b3) by (bit_vector);
}

proof fn lemma_bytes_join(v: u32)
    ensures
        join_bytes(byte_of(v, 0), byte_of(v, 1), byte_of(v, 2), byte_of(v, 3)) == v,
{
    assert(((((v >> 0u32) & 0xff) as u8) as u32 | (((((v >> 8u32) & 0xff) as u8) as u32) << 8u32)
        | (((((v >> 16u32) & 0xff) as u8) as u32) << 16u32) | (((((v >> 24u32) & 0xff) as u8)
        as u32) << 24u32)) == v) by (bit_vector);
}

proof fn lemma_flags_round_trip(r1: u8, r2: u8, r3: u8, op1: u8, op2: u8, t: u8)
    requires
        r1 <= 1,
        r2 <= 1,
        r3 <= 1,
        op1 <= 3,
        op2 <= 3,
        t <= 1,
    ensures
        bit_of(join_flags(r1, r2, r3, op1, op2, t), 0) == (r1 == 1),
        bit_of(join_flags(r1, r2, r3, op1, op2, t), 1) == (r2 == 1),
        bit_of(join_flags(r1, r2, r3, op1, op2, t), 2) == (r3 == 1),
        (join_flags(r1, r2, r3, op1, op2, t) >> 3u8) & 3 == op1,
        (join_flags(r1, r2, r3, op1, op2, t) >> 5u8) & 3 == op2,
        bit_of(join_flags(r1, r2, r3, op1, op2, t), 7) == (t == 1),
{
    assert(r1 <= 1 && r2 <= 1 && r3 <= 1 && op1 <= 3 && op2 <= 3 && t <= 1 ==> {
        let f = (r1 | (r2 << 1u8) | (r3 << 2u8) | (op1 << 3u8) | (op2 << 5u8) | (t << 7u8)) as u8;
        &&& ((f >> 0u8) & 1 == 1) == (r1 == 1)
        &&& ((f >> 1u8) & 1 == 1) == (r2 == 1)
        &&& ((f >> 2u8) & 1 == 1) == (r3 == 1)
        &&& (f >> 3u8) & 3 == op1
        &&& (f >> 5u8) & 3 == op2
        &&& ((f >> 7u8) & 1 == 1) == (t == 1)
    }) by (bit_vector);
}

proof fn lemma_flags_join(f: u8)
    ensures
        join_flags(
            if bit_of(f, 0) {
                1
            } else {
                0
            },
            if bit_of(f, 1) {
                1
            } else {
                0
            },
            if bit_of(f, 2) {
                1
            } else {
                0
            },
            (f >> 3u8) & 3,
            (f >> 5u8) & 3,
            if bit_of(f, 7) {
                1
            } else {
                0
            },
        ) == f,
{
    assert(((if (f >> 0u8) & 1 == 1 { 1u8 } else { 0u8 }) | ((if (f >> 1u8) & 1 == 1 { 1u8 } else { 0u8 }) << 1u8)
        | ((if (f >> 2u8) & 1 == 1 { 1u8 } else { 0u8 }) << 2u8) | (((f >> 3u8) & 3) << 3u8) | (((f
        >> 5u8) & 3) << 5u8) | ((if (f >> 7u8) & 1 == 1 { 1u8 } else { 0u8 }) << 7u8)) as u8 == f)
        by (bit_vector);
}

proof fn lemma_operand_round_trip(a: ExpressionArgs)
    requires
        is_operand(a),
    ensures
        operand_from(register_flag(a) == 1, operand_byte(a)) == Some(a),
{
    if let ExpressionArgs::Register(r) = a {
        let c = choose|x: RegisterId| register_code(x) == register_code(r);
        crate::registers::lemma_register_codes(c, r);
        crate::registers::lemma_register_codes(r, r);
    }
}

proof fn lemma_operator_round_trip(o: ExpressionOperator)
    ensures
        operator_from_code(operator_code(o)) == Some(o),
        operator_code(o) <= 3,
{
}

/// Unpacking the packed form of a well-formed expression gives the expression back.
pub proof fn lemma_unpack_pack(e: Expression)
    requires
        expression_wf(e),
    ensures
        unpacked(packed(e)) == Some(e),
{
    let t: u8 = if e.tail is Some {
        1
    } else {
        0
    };
    let f = join_flags(
        register_flag(e.operand_1),
        register_flag(e.operand_2),
        register_flag(third_operand(e)),
        operator_code(e.operator_1),
        second_operator_code(e),
        t,
    );
    lemma_bytes_round_trip(
        operand_byte(e.operand_1),
        operand_byte(e.operand_2),
        operand_byte(third_operand(e)),
        f,
    );
    lemma_operator_round_trip(e.operator_1);
    if let Some(ExpressionTail { operator: o, operand: _ }) = e.tail {
        lemma_operator_round_trip(o);
    }
    lemma_flags_round_trip(
        register_flag(e.operand_1),
        register_flag(e.operand_2),
        register_flag(third_operand(e)),
        operator_code(e.operator_1),
        second_operator_code(e),
        t,
    );
    lemma_operand_round_trip(e.operand_1);
    lemma_operand_round_trip(e.operand_2);
    lemma_operand_round_trip(third_operand(e));
}

/// A value that unpacks to an expression is that expression's packed form, and the
/// expression is well formed: packing is a one-to-one correspondence between well-formed
/// expressions and the values that unpack.
pub proof fn lemma_pack_unpack(v: u32)
    ensures
        unpacked(v) matches Some(e) ==> expression_wf(e) && packed(e) == v,
{
    if let Some(e) = unpacked(v) {
        let flags = byte_of(v, 3);
        lemma_flags_join(flags);
        lemma_bytes_join(v);
        assert(expression_wf(e));
        let a1 = e.operand_1;
        let a2 = e.operand_2;
        assert(operand_byte(a1) == byte_of(v, 0) && register_flag(a1) == if bit_of(flags, 0) {
            1u8
        } else {
            0u8
        }) by {
            if bit_of(flags, 0) {
                let r = choose|r: RegisterId| register_code(r) == byte_of(v, 0);
                crate::registers::lemma_register_code_exists(byte_of(v, 0));
            }
        }
        assert(operand_byte(a2) == byte_of(v, 1) && register_flag(a2) == if bit_of(flags, 1) {
            1u8
        } else {
            0u8
        }) by {
            if bit_of(flags, 1) {
                crate::registers::lemma_register_code_exists(byte_of(v, 1));
            }
        }
        assert(operand_byte(third_operand(e)) == byte_of(v, 2) && register_flag(third_operand(e))
            == if bit_of(flags, 2) {
            1u8
        } else {
            0u8
        }) by {
            if bit_of(flags, 2) {
                crate::registers::lemma_register_code_exists(byte_of(v, 2));
            }
        }
        assert(operator_code(e.operator_1) == (flags >> 3u8) & 3);
        assert(second_operator_code(e) == (flags >> 5u8) & 3);
    }
}

impl Expression {
    /// Build an expression from its components: two or three operands with an operator
    /// between each two of them. Any other list is refused.
    pub fn from_args(args: &[ExpressionArgs]) -> (r: Option<Expression>)
        ensures
            r == expression_of(args@),
    {
        if args.len() != 3 && args.len() != 5 {
            return None;
        }
        let a0 = args[0];
        let a2 = args[2];
        if let ExpressionArgs::Operator(_) = a0 {
            return None;
        }
        if let ExpressionArgs::Operator(_) = a2 {
            return None;
        }
        let op1 = match args[1] {
            ExpressionArgs::Operator(o) => o,
            _ => {
                return None;
            },
        };
        if args.len() == 3 {
            return Some(Expression { operand_1: a0, operator_1: op1, operand_2: a2, tail: None });
        }
        let a4 = args[4];
        if let ExpressionArgs::Operator(_) = a4 {
            return None;
        }
        match args[3] {
            ExpressionArgs::Operator(op2) => Some(
                Expression { operand_1: a0, operator_1: op1, operand_2: a2, tail: Some(ExpressionTail { operator: op2, operand: a4 }) },
            ),
            _ => None,
        }
    }

    /// Pack this expression into a u32.
    pub fn pack(&self) -> (v: u32)
        ensures
            v == packed(*self),
    {
        let third = match self.tail {
            Some(ExpressionTail { operator: _, operand: a }) => a,
            None => ExpressionArgs::Immediate(0),
        };
        let op2: u8 = match self.tail {
            Some(ExpressionTail { operator: o, operand: _ }) => operator_number(o),
            None => 0,
        };
        let t: u8 = if self.tail.is_some() {
            1
        } else {
            0
        };
        let flags: u8 = (operand_flag(self.operand_1) | (operand_flag(self.operand_2) << 1u8) | (
        operand_flag(third) << 2u8) | (operator_number(self.operator_1) << 3u8) | (op2 << 5u8) | (t
            << 7u8)) as u8;
        (operand_value(self.operand_1) as u32) | ((operand_value(self.operand_2) as u32) << 8u32)
            | ((operand_value(third) as u32) << 16u32) | ((flags as u32) << 24u32)
    }

    /// The expression packed as `v`, if `v` is the packed form of one.
    pub fn unpack(v: u32) -> (r: Option<Expression>)
        ensures
            r == unpacked(v),
    {
        let b0 = ((v >> 0u32) & 0xff) as u8;
        let b1 = ((v >> 8u32) & 0xff) as u8;
        let b2 = ((v >> 16u32) & 0xff) as u8;
        let flags = ((v >> 24u32) & 0xff) as u8;
        assert(b0 == byte_of(v, 0) && b1 == byte_of(v, 1) && b2 == byte_of(v, 2) && flags
            == byte_of(v, 3));
        let has_tail = (flags >> 7u8) & 1 == 1;
        let op1 = operator_with_number((flags >> 3u8) & 3);
        let op2_code = (flags >> 5u8) & 3;
        let a1 = operand_with((flags >> 0u8) & 1 == 1, b0);
        let a2 = operand_with((flags >> 1u8) & 1 == 1, b1);
        let a3 = operand_with((flags >> 2u8) & 1 == 1, b2);
        if op1.is_none() || a1.is_none() || a2.is_none() || a3.is_none() {
            return None;
        }
        let op1 = op1.unwrap();
        let a1 = a1.unwrap();
        let a2 = a2.unwrap();
        let a3 = a3.unwrap();
        if has_tail {
            match operator_with_number(op2_code) {
                Some(op2) => Some(
                    Expression {
                        operand_1: a1,
                        operator_1: op1,
                        operand_2: a2,
                        tail: Some(ExpressionTail { operator: op2, operand: a3 }),
                    },
                ),
                None => None,
            }
        } else if op2_code == 0 && (flags >> 2u8) & 1 != 1 && b2 == 0 {
            Some(Expression { operand_1: a1, operator_1: op1, operand_2: a2, tail: None })
        } else {
            None
        }
    }
}

fn operand_value(a: ExpressionArgs) -> (b: u8)
    ensures
        b == operand_byte(a),
{
    match a {
        ExpressionArgs::Register(r) => r.code(),
        ExpressionArgs::Immediate(v) => v,
        ExpressionArgs::Operator(_) => 0,
    }
}

fn operand_flag(a: ExpressionArgs) -> (b: u8)
    ensures
        b == register_flag(a),
{
    match a {
        ExpressionArgs::Register(_) => 1,
        _ => 0,
    }
}

fn operator_number(o: ExpressionOperator) -> (c: u8)
    ensures
        c == operator_code(o),
{
    match o {
        ExpressionOperator::Add => 0,
        ExpressionOperator::Subtract => 1,
        ExpressionOperator::Multiply => 2,
    }
}

fn operator_with_number(c: u8) -> (o: Option<ExpressionOperator>)
    ensures
        o == operator_from_code(c),
{
    if c == 0 {
        Some(ExpressionOperator::Add)
    } else if c == 1 {
        Some(ExpressionOperator::Subtract)
    } else if c == 2 {
        Some(ExpressionOperator::Multiply)
    } else {
        None
    }
}

fn operand_with(is_register: bool, value: u8) -> (a: Option<ExpressionArgs>)
    ensures
        a == operand_from(is_register, value),
{
    if is_register {
        match RegisterId::from_code(value) {
            Some(r) => {
                proof {
                    let c = choose|x: RegisterId| register_code(x) == value;
                    crate::registers::lemma_register_codes(c, r);
                }
                Some(ExpressionArgs::Register(r))
            },
            None => None,
        }
    } else {
        Some(ExpressionArgs::Immediate(value))
    }
}

} // verus!
