//! The assembly text of an instruction, as a disassembly listing shows it: the mnemonic,
//! then the operands separated by commas, each written as the parser reads it back: u32
//! values as `0x` and eight lower-case hexadecimal digits, u8 values in decimal, registers by
//! name, and addresses marked with `&` (expressions in square brackets).
use vstd::prelude::*;

use vstd::arithmetic::div_mod::lemma_mod_breakdown;

use crate::builder::{operand_values, OperandValue};
use crate::expressions::{expression_wf, lemma_unpack_pack, packed, unpacked, Expression, ExpressionArgs, ExpressionOperator, ExpressionTail};
use crate::immediates::{digit_value, immediate_value, read_digits, ParseIntError};
use crate::instruction::{opcode_of, Instruction};
use crate::registers::register_name;
use crate::text::{copy_range, string_from_chars};
use crate::type_hints::{arg_hints, arg_hints_of, mnemonics, mnemonics_of, ArgTypeHint};

verus! {

/// The lower-case hexadecimal digit of `d`, for `d` below 16.
pub open spec fn hex_digit(d: nat) -> char {
    if d < 10 {
        (48 + d) as char
    } else {
        (87 + d) as char
    }
}

/// The decimal digit of `d`, for `d` below 10.
pub open spec fn decimal_digit(d: nat) -> char {
    (48 + d) as char
}

/// The `n` lowest hexadecimal digits of `v`, the most significant first.
pub open spec fn hex_digits(v: nat, n: nat) -> Seq<char>
    decreases n,
{
    if n == 0 {
        seq![]
    } else {
        hex_digits(v / 16, (n - 1) as nat).push(hex_digit(v % 16))
    }
}

/// `v` in decimal, without leading zeros.
pub open spec fn decimal(v: nat) -> Seq<char>
    decreases v,
{
    if v < 10 {
        seq![decimal_digit(v)]
    } else {
        decimal(v / 10).push(decimal_digit(v % 10))
    }
}

/// A u32 value as the listing writes it: `0x` and eight hexadecimal digits.
pub open spec fn hex_text(v: nat) -> Seq<char> {
    seq!['0', 'x'] + hex_digits(v, 8)
}

/// Text inside square brackets.
pub open spec fn bracketed(s: Seq<char>) -> Seq<char> {
    seq!['['] + s + seq![']']
}

/// Text marked as an address.
pub open spec fn address(s: Seq<char>) -> Seq<char> {
    seq!['&'] + s
}

/// The character of an expression operator.
pub open spec fn operator_char(o: ExpressionOperator) -> char {
    match o {
        ExpressionOperator::Add => '+',
        ExpressionOperator::Subtract => '-',
        ExpressionOperator::Multiply => '*',
    }
}

/// An operand of an expression: a register by name, an immediate in decimal.
pub open spec fn operand_text(a: ExpressionArgs) -> Seq<char> {
    match a {
        ExpressionArgs::Register(r) => register_name(r),
        ExpressionArgs::Immediate(v) => decimal(v as nat),
        ExpressionArgs::Operator(o) => seq![operator_char(o)],
    }
}

/// An expression: its operands with the operators between them, without spaces.
pub open spec fn expression_text(e: Expression) -> Seq<char> {
    let head = operand_text(e.operand_1).push(operator_char(e.operator_1)) + operand_text(
        e.operand_2,
    );
    match e.tail {
        Some(ExpressionTail { operator: o, operand: a }) => head.push(operator_char(o))
            + operand_text(a),
        None => head,
    }
}

/// A packed expression: the expression it packs, or, when the value packs none, the value
/// itself.
pub open spec fn packed_expression_text(v: u32) -> Seq<char> {
    match unpacked(v) {
        Some(e) => expression_text(e),
        None => hex_text(v as nat),
    }
}

/// An operand of the kind `h` holding `v`.
pub open spec fn operand_value_text(h: ArgTypeHint, v: OperandValue) -> Seq<char> {
    match v {
        OperandValue::Number(n) => match h {
            ArgTypeHint::U8 => decimal(n as nat),
            ArgTypeHint::U32 => hex_text(n as nat),
            ArgTypeHint::U8Pointer | ArgTypeHint::U32Pointer => address(hex_text(n as nat)),
            ArgTypeHint::Expression => bracketed(packed_expression_text(n)),
            ArgTypeHint::ExpressionPointer => address(bracketed(packed_expression_text(n))),
            _ => seq![],
        },
        OperandValue::Register(r) => match h {
            ArgTypeHint::RegisterU32 | ArgTypeHint::RegisterF32 => register_name(r),
            ArgTypeHint::RegisterU32Pointer => address(register_name(r)),
            _ => seq![],
        },
    }
}

/// A mnemonic followed by the operand texts `ts`: a space before the first, a comma and a
/// space before each other.
pub open spec fn listing_line(m: Seq<char>, ts: Seq<Seq<char>>) -> Seq<char>
    decreases ts.len(),
{
    if ts.len() == 0 {
        m
    } else {
        listing_line(m, ts.drop_last()) + (if ts.len() == 1 {
            seq![' ']
        } else {
            seq![',', ' ']
        }) + ts.last()
    }
}

/// The operand texts of an instruction, each written for the kind its operation takes there.
pub open spec fn operand_texts(i: Instruction) -> Seq<Seq<char>> {
    let hs = arg_hints(opcode_of(i));
    let vs = operand_values(i);
    Seq::new(hs.len(), |k: int| operand_value_text(hs[k], vs[k]))
}

/// The word that starts the listing of an instruction: the last mnemonic of its operation
/// (`mov.s` rather than `mov`, for instance).
pub open spec fn listing_mnemonic(i: Instruction) -> Seq<char> {
    mnemonics(opcode_of(i)).last()
}

/// Whether an instruction has a listing: every instruction but the reserved ones and labels.
pub open spec fn has_listing(i: Instruction) -> bool {
    match i {
        Instruction::Reserved1 | Instruction::Reserved2 | Instruction::Reserved3
        | Instruction::Reserved4 | Instruction::Reserved5 | Instruction::Reserved6
        | Instruction::Reserved7 | Instruction::Reserved8 | Instruction::Reserved9
        | Instruction::Label(_) => false,
        _ => true,
    }
}

/// The listing of an instruction: its mnemonic and its operands; an unknown instruction is
/// listed as `UNKNOWN! ID = ` and its identifier in eight hexadecimal digits.
pub open spec fn asm_text(i: Instruction) -> Seq<char> {
    match i {
        Instruction::Unknown(id) => seq!['U', 'N', 'K', 'N', 'O', 'W', 'N', '!', ' ', 'I', 'D', ' ', '=', ' ']
            + hex_digits(id as nat, 8),
        _ => listing_line(listing_mnemonic(i), operand_texts(i)),
    }
}

/// An instruction with a listing, other than an unknown one, has a mnemonic and as many
/// operands as its operation takes.
pub proof fn lemma_operand_count(i: Instruction)
    requires
        has_listing(i),
        !(i is Unknown),
    ensures
        mnemonics(opcode_of(i)).len() > 0,
        operand_values(i).len() == arg_hints(opcode_of(i)).len(),
{
}

fn hex_char(d: u32) -> (c: char)
    requires
        d < 16,
    ensures
        c == hex_digit(d as nat),
{
    let b = d as u8;
    if b < 10 {
        (48u8 + b) as char
    } else {
        (87u8 + b) as char
    }
}

fn decimal_char(d: u32) -> (c: char)
    requires
        d < 10,
    ensures
        c == decimal_digit(d as nat),
{
    (48u8 + d as u8) as char
}

fn push_hex_digits(out: &mut Vec<char>, v: u32, n: u32)
    ensures
        final(out)@ == old(out)@ + hex_digits(v as nat, n as nat),
    decreases n,
{
    if n > 0 {
        push_hex_digits(out, v / 16, n - 1);
        out.push(hex_char(v % 16));
    }
}

fn push_decimal(out: &mut Vec<char>, v: u32)
    ensures
        final(out)@ == old(out)@ + decimal(v as nat),
    decreases v,
{
    if v < 10 {
        out.push(decimal_char(v));
    } else {
        push_decimal(out, v / 10);
        out.push(decimal_char(v % 10));
    }
}


/// The text of a u32 value as the listing writes it.
pub fn hex_text_chars(v: u32) -> (s: Vec<char>)
    ensures
        s@ == hex_text(v as nat),
{
    let mut s = vec!['0', 'x'];
    push_hex_digits(&mut s, v, 8);
    s
}

/// The eight hexadecimal digits of a value.
pub fn hex_chars(v: u32) -> (s: Vec<char>)
    ensures
        s@ == hex_digits(v as nat, 8),
{
    let mut s = Vec::new();
    push_hex_digits(&mut s, v, 8);
    s
}

/// The text of a value in decimal.
pub fn decimal_chars(v: u32) -> (s: Vec<char>)
    ensures
        s@ == decimal(v as nat),
{
    let mut s = Vec::new();
    push_decimal(&mut s, v);
    s
}

fn bracketed_chars(s: Vec<char>) -> (r: Vec<char>)
    ensures
        r@ == bracketed(s@),
{
    let mut s = s;
    let mut r = vec!['['];
    r.append(&mut s);
    r.push(']');
    r
}

fn address_chars(s: Vec<char>) -> (r: Vec<char>)
    ensures
        r@ == address(s@),
{
    let mut s = s;
    let mut r = vec!['&'];
    r.append(&mut s);
    r
}

fn operator_character(o: ExpressionOperator) -> (c: char)
    ensures
        c == operator_char(o),
{
    match o {
        ExpressionOperator::Add => '+',
        ExpressionOperator::Subtract => '-',
        ExpressionOperator::Multiply => '*',
    }
}

fn operand_chars(a: ExpressionArgs) -> (s: Vec<char>)
    ensures
        s@ == operand_text(a),
{
    match a {
        ExpressionArgs::Register(r) => r.name_chars(),
        ExpressionArgs::Immediate(v) => decimal_chars(v as u32),
        ExpressionArgs::Operator(o) => vec![operator_character(o)],
    }
}

/// The text of an expression.
pub fn expression_chars(e: &Expression) -> (s: Vec<char>)
    ensures
        s@ == expression_text(*e),
{
    let mut s = operand_chars(e.operand_1);
    s.push(operator_character(e.operator_1));
    let mut b = operand_chars(e.operand_2);
    s.append(&mut b);
    match e.tail {
        Some(ExpressionTail { operator: o, operand: a }) => {
            s.push(operator_character(o));
            let mut c = operand_chars(a);
            s.append(&mut c);
        },
        None => {},
    }
    s
}

/// The text of a packed expression.
pub fn packed_expression_chars(v: u32) -> (s: Vec<char>)
    ensures
        s@ == packed_expression_text(v),
{
    match Expression::unpack(v) {
        Some(e) => expression_chars(&e),
        None => hex_text_chars(v),
    }
}

/// The text of an operand of the kind `h` holding `v`.
pub fn operand_value_chars(h: ArgTypeHint, v: OperandValue) -> (s: Vec<char>)
    ensures
        s@ == operand_value_text(h, v),
{
    match v {
        OperandValue::Number(n) => match h {
            ArgTypeHint::U8 => decimal_chars(n),
            ArgTypeHint::U32 => hex_text_chars(n),
            ArgTypeHint::U8Pointer | ArgTypeHint::U32Pointer => address_chars(hex_text_chars(n)),
            ArgTypeHint::Expression => bracketed_chars(packed_expression_chars(n)),
            ArgTypeHint::ExpressionPointer => address_chars(bracketed_chars(packed_expression_chars(n))),
            _ => Vec::new(),
        },
        OperandValue::Register(r) => match h {
            ArgTypeHint::RegisterU32 | ArgTypeHint::RegisterF32 => r.name_chars(),
            ArgTypeHint::RegisterU32Pointer => address_chars(r.name_chars()),
            _ => Vec::new(),
        },
    }
}

/// The operands of an instruction, in order.
pub fn operand_values_of(i: &Instruction) -> (v: Vec<OperandValue>)
    ensures
        v@ == operand_values(*i),
{
    let v = match i {
        Instruction::Nop => vec![],
        Instruction::AddU32ImmU32Reg(a, b) => vec![OperandValue::Number(*a), OperandValue::Register(*b)],
        Instruction::AddU32RegU32Reg(a, b) => vec![OperandValue::Register(*a), OperandValue::Register(*b)],
        Instruction::SubU32ImmU32Reg(a, b) => vec![OperandValue::Number(*a), OperandValue::Register(*b)],
        Instruction::SubU32RegU32Imm(a, b) => vec![OperandValue::Register(*a), OperandValue::Number(*b)],
        Instruction::SubU32RegU32Reg(a, b) => vec![OperandValue::Register(*a), OperandValue::Register(*b)],
        Instruction::MulU32ImmU32Reg(a, b) => vec![OperandValue::Number(*a), OperandValue::Register(*b)],
        Instruction::MulU32RegU32Reg(a, b) => vec![OperandValue::Register(*a), OperandValue::Register(*b)],
        Instruction::DivU32ImmU32Reg(a, b) => vec![OperandValue::Number(*a), OperandValue::Register(*b)],
        Instruction::DivU32RegU32Imm(a, b) => vec![OperandValue::Register(*a), OperandValue::Number(*b)],
        Instruction::DivU32RegU32Reg(a, b) => vec![OperandValue::Register(*a), OperandValue::Register(*b)],
        Instruction::ModU32ImmU32Reg(a, b) => vec![OperandValue::Number(*a), OperandValue::Register(*b)],
        Instruction::ModU32RegU32Imm(a, b) => vec![OperandValue::Register(*a), OperandValue::Number(*b)],
        Instruction::ModU32RegU32Reg(a, b) => vec![OperandValue::Register(*a), OperandValue::Register(*b)],
        Instruction::IncU32Reg(a) => vec![OperandValue::Register(*a)],
        Instruction::DecU32Reg(a) => vec![OperandValue::Register(*a)],
        Instruction::AndU32ImmU32Reg(a, b) => vec![OperandValue::Number(*a), OperandValue::Register(*b)],
        Instruction::LeftShiftU32ImmU32Reg(a, b) => vec![OperandValue::Number(*a), OperandValue::Register(*b)],
        Instruction::LeftShiftU32RegU32Reg(a, b) => vec![OperandValue::Register(*a), OperandValue::Register(*b)],
        Instruction::ArithLeftShiftU32ImmU32Reg(a, b) => vec![OperandValue::Number(*a), OperandValue::Register(*b)],
        Instruction::ArithLeftShiftU32RegU32Reg(a, b) => vec![OperandValue::Register(*a), OperandValue::Register(*b)],
        Instruction::RightShiftU32ImmU32Reg(a, b) => vec![OperandValue::Number(*a), OperandValue::Register(*b)],
        Instruction::RightShiftU32RegU32Reg(a, b) => vec![OperandValue::Register(*a), OperandValue::Register(*b)],
        Instruction::ArithRightShiftU32ImmU32Reg(a, b) => vec![OperandValue::Number(*a), OperandValue::Register(*b)],
        Instruction::ArithRightShiftU32RegU32Reg(a, b) => vec![OperandValue::Register(*a), OperandValue::Register(*b)],
        Instruction::CallU32Imm(a) => vec![OperandValue::Number(*a)],
        Instruction::CallU32Reg(a) => vec![OperandValue::Register(*a)],
        Instruction::RetArgsU32 => vec![],
        Instruction::Int(a) => vec![OperandValue::Number(*a as u32)],
        Instruction::IntRet => vec![],
        Instruction::JumpAbsU32Imm(a) => vec![OperandValue::Number(*a)],
        Instruction::JumpAbsU32Reg(a) => vec![OperandValue::Register(*a)],
        Instruction::SwapU32RegU32Reg(a, b) => vec![OperandValue::Register(*a), OperandValue::Register(*b)],
        Instruction::MovU32ImmU32Reg(a, b) => vec![OperandValue::Number(*a), OperandValue::Register(*b)],
        Instruction::MovU32RegU32Reg(a, b) => vec![OperandValue::Register(*a), OperandValue::Register(*b)],
        Instruction::MovU32ImmMemSimple(a, b) => vec![OperandValue::Number(*a), OperandValue::Number(*b)],
        Instruction::MovU32RegMemSimple(a, b) => vec![OperandValue::Register(*a), OperandValue::Number(*b)],
        Instruction::MovMemU32RegSimple(a, b) => vec![OperandValue::Number(*a), OperandValue::Register(*b)],
        Instruction::MovU32RegPtrU32RegSimple(a, b) => vec![OperandValue::Register(*a), OperandValue::Register(*b)],
        Instruction::MovU32ImmMemExpr(a, b) => vec![OperandValue::Number(*a), OperandValue::Number(*b)],
        Instruction::MovMemExprU32Reg(a, b) => vec![OperandValue::Number(*a), OperandValue::Register(*b)],
        Instruction::MovU32RegMemExpr(a, b) => vec![OperandValue::Register(*a), OperandValue::Number(*b)],
        Instruction::ByteSwapU32(a) => vec![OperandValue::Register(*a)],
        Instruction::ZeroHighBitsByIndexU32Reg(a, b, c) => vec![OperandValue::Register(*a), OperandValue::Register(*b), OperandValue::Register(*c)],
        Instruction::ZeroHighBitsByIndexU32RegU32Imm(a, b, c) => vec![OperandValue::Number(*a), OperandValue::Register(*b), OperandValue::Register(*c)],
        Instruction::PushU32Imm(a) => vec![OperandValue::Number(*a)],
        Instruction::PopU32ImmU32Reg(a) => vec![OperandValue::Register(*a)],
        Instruction::BitTestU32Reg(a, b) => vec![OperandValue::Number(*a as u32), OperandValue::Register(*b)],
        Instruction::BitTestU32Mem(a, b) => vec![OperandValue::Number(*a as u32), OperandValue::Number(*b)],
        Instruction::BitTestResetU32Reg(a, b) => vec![OperandValue::Number(*a as u32), OperandValue::Register(*b)],
        Instruction::BitTestResetU32Mem(a, b) => vec![OperandValue::Number(*a as u32), OperandValue::Number(*b)],
        Instruction::BitTestSetU32Reg(a, b) => vec![OperandValue::Number(*a as u32), OperandValue::Register(*b)],
        Instruction::BitTestSetU32Mem(a, b) => vec![OperandValue::Number(*a as u32), OperandValue::Number(*b)],
        Instruction::BitScanReverseU32RegU32Reg(a, b) => vec![OperandValue::Register(*a), OperandValue::Register(*b)],
        Instruction::BitScanReverseU32MemU32Reg(a, b) => vec![OperandValue::Number(*a), OperandValue::Register(*b)],
        Instruction::BitScanReverseU32RegMemU32(a, b) => vec![OperandValue::Register(*a), OperandValue::Number(*b)],
        Instruction::BitScanReverseU32MemU32Mem(a, b) => vec![OperandValue::Number(*a), OperandValue::Number(*b)],
        Instruction::BitScanForwardU32RegU32Reg(a, b) => vec![OperandValue::Register(*a), OperandValue::Register(*b)],
        Instruction::BitScanForwardU32MemU32Reg(a, b) => vec![OperandValue::Number(*a), OperandValue::Register(*b)],
        Instruction::BitScanForwardU32RegMemU32(a, b) => vec![OperandValue::Register(*a), OperandValue::Number(*b)],
        Instruction::BitScanForwardU32MemU32Mem(a, b) => vec![OperandValue::Number(*a), OperandValue::Number(*b)],
        Instruction::Mret => vec![],
        Instruction::Hlt => vec![],
        _ => Vec::new(),
    };
    assert(v@ =~= operand_values(*i));
    v
}

impl Instruction {
    /// The assembly text of this instruction, as a disassembly listing shows it.
    pub fn to_asm_string(&self) -> (s: String)
        requires
            has_listing(*self),
        ensures
            s@ == asm_text(*self),
    {
        if let Instruction::Unknown(id) = self {
            let mut s = vec!['U', 'N', 'K', 'N', 'O', 'W', 'N', '!', ' ', 'I', 'D', ' ', '=', ' '];
            push_hex_digits(&mut s, *id, 8);
            return string_from_chars(s.as_slice());
        }
        proof {
            lemma_operand_count(*self);
        }
        let op = self.opcode();
        let names = mnemonics_of(op);
        let last = &names[names.len() - 1];
        let mut out = copy_range(last.as_slice(), 0, last.len());
        proof {
            let views = names@.map_values(|w: Vec<char>| w@);
            assert(views[names.len() - 1] == last@);
            assert(out@ =~= listing_mnemonic(*self));
        }
        let hints = arg_hints_of(op);
        let values = operand_values_of(self);
        let ghost ts = operand_texts(*self);
        let ghost m = listing_mnemonic(*self);
        let mut k: usize = 0;
        assert(ts.take(0) =~= Seq::<Seq<char>>::empty());
        while k < hints.len()
            invariant
                k <= hints.len(),
                hints.len() == values.len(),
                hints@ == arg_hints(opcode_of(*self)),
                values@ == operand_values(*self),
                ts == operand_texts(*self),
                ts.len() == hints.len(),
                out@ == listing_line(m, ts.take(k as int)),
            decreases hints.len() - k,
        {
            if k == 0 {
                out.push(' ');
            } else {
                out.push(',');
                out.push(' ');
            }
            let mut t = operand_value_chars(hints[k], values[k]);
            out.append(&mut t);
            proof {
                assert(ts.take(k + 1).drop_last() =~= ts.take(k as int));
                assert(ts.take(k + 1).last() == ts[k as int]);
            }
            k = k + 1;
        }
        assert(ts.take(k as int) =~= ts);
        string_from_chars(out.as_slice())
    }
}

/// `16` to the power `n`.
pub open spec fn pow16(n: nat) -> nat
    decreases n,
{
    if n == 0 {
        1
    } else {
        16 * pow16((n - 1) as nat)
    }
}

proof fn lemma_hex_digit_value(d: nat)
    requires
        d < 16,
    ensures
        digit_value(hex_digit(d), 16) == Some(d),
        hex_digit(d) != '+',
{
}

proof fn lemma_decimal_digit_value(d: nat)
    requires
        d < 10,
    ensures
        digit_value(decimal_digit(d), 10) == Some(d),
        '0' <= decimal_digit(d) <= '9',
{
}

/// Reading one more digit at the end of `ds`.
proof fn lemma_read_digits_push(ds: Seq<char>, c: char, radix: nat, max: nat, acc: nat)
    ensures
        read_digits(ds.push(c), radix, max, acc) == match read_digits(ds, radix, max, acc) {
            Err(e) => Err(e),
            Ok(v) => match digit_value(c, radix) {
                None => Err(ParseIntError::InvalidDigit),
                Some(d) => if v * radix + d > max {
                    Err(ParseIntError::PosOverflow)
                } else {
                    Ok(v * radix + d)
                },
            },
        },
    decreases ds.len(),
{
    if ds.len() > 0 {
        assert(ds.push(c)[0] == ds[0]);
        assert(ds.push(c).drop_first() =~= ds.drop_first().push(c));
        if let Some(d) = digit_value(ds[0], radix) {
            lemma_read_digits_push(ds.drop_first(), c, radix, max, acc * radix + d);
        }
    } else {
        assert(ds.push(c)[0] == c);
        assert(ds.push(c).drop_first() =~= Seq::<char>::empty());
        if let Some(d) = digit_value(c, radix) {
            assert(read_digits(Seq::<char>::empty(), radix, max, acc * radix + d) == Ok::<
                nat,
                ParseIntError,
            >(acc * radix + d));
        }
    }
}

proof fn lemma_pow16_positive(n: nat)
    ensures
        pow16(n) > 0,
    decreases n,
{
    if n > 0 {
        lemma_pow16_positive((n - 1) as nat);
    }
}

/// The `n` hexadecimal digits of `v`, read in radix 16, give `v` modulo `16` to the `n`.
pub(crate) proof fn lemma_hex_digits_read(v: nat, n: nat, max: nat)
    requires
        pow16(n) <= max + 1,
    ensures
        read_digits(hex_digits(v, n), 16, max, 0) == Ok::<nat, ParseIntError>(v % pow16(n)),
        forall|i: int| 0 <= i < hex_digits(v, n).len() ==> #[trigger] hex_digits(v, n)[i] != '+',
        hex_digits(v, n).len() == n,
    decreases n,
{
    if n > 0 {
        let p = pow16((n - 1) as nat);
        lemma_pow16_positive((n - 1) as nat);
        lemma_hex_digits_read(v / 16, (n - 1) as nat, max);
        lemma_hex_digit_value(v % 16);
        lemma_read_digits_push(hex_digits(v / 16, (n - 1) as nat), hex_digit(v % 16), 16, max, 0);
        lemma_mod_breakdown(v as int, 16, p as int);
        assert(((v / 16) % p) * 16 + v % 16 == v % pow16(n)) by (nonlinear_arith)
            requires
                v % (16 * p) == 16 * ((v / 16) % p) + v % 16,
                pow16(n) == 16 * p,
        ;
        assert(v % pow16(n) < pow16(n)) by (nonlinear_arith)
            requires
                pow16(n) > 0,
        ;
        let s = hex_digits(v, n);
        assert forall|i: int| 0 <= i < s.len() implies #[trigger] s[i] != '+' by {
            if i < n - 1 {
                assert(s[i] == hex_digits(v / 16, (n - 1) as nat)[i]);
            }
        }
    }
}

/// The digits that a listing writes for a u32 value, read as a hexadecimal immediate
/// (`0x` and the digits), give back the value.
pub proof fn lemma_listing_hex_reads_back(v: u32)
    ensures
        immediate_value(seq!['0', 'x'] + hex_digits(v as nat, 8), 4294967295) == Ok::<
            nat,
            ParseIntError,
        >(v as nat),
{
    let s = seq!['0', 'x'] + hex_digits(v as nat, 8);
    assert(pow16(8) == 4294967296) by {
        reveal_with_fuel(pow16, 9);
    }
    lemma_hex_digits_read(v as nat, 8, 4294967295);
    assert(s.skip(2) =~= hex_digits(v as nat, 8));
    assert(s.skip(2)[0] != '+');
    assert(!(s.skip(2) =~= seq!['+']));
}

/// `decimal` writes decimal digits only, the first of them a `0` only for the value 0.
pub(crate) proof fn lemma_decimal_read(v: nat, max: nat)
    requires
        v <= max,
    ensures
        read_digits(decimal(v), 10, max, 0) == Ok::<nat, ParseIntError>(v),
        decimal(v).len() > 0,
        forall|i: int| 0 <= i < decimal(v).len() ==> '0' <= #[trigger] decimal(v)[i] <= '9',
    decreases v,
{
    if v < 10 {
        lemma_decimal_digit_value(v);
        lemma_read_digits_push(seq![], decimal_digit(v), 10, max, 0);
        assert(seq![decimal_digit(v)] =~= Seq::<char>::empty().push(decimal_digit(v)));
    } else {
        lemma_decimal_read(v / 10, max);
        lemma_decimal_digit_value(v % 10);
        lemma_read_digits_push(decimal(v / 10), decimal_digit(v % 10), 10, max, 0);
        let s = decimal(v);
        assert forall|i: int| 0 <= i < s.len() implies '0' <= #[trigger] s[i] <= '9' by {
            if i < s.len() - 1 {
                assert(s[i] == decimal(v / 10)[i]);
            }
        }
    }
}

/// A value that a listing writes in decimal, read as an immediate that may not exceed
/// `max`, gives back the value.
pub proof fn lemma_listing_decimal_reads_back(v: nat, max: nat)
    requires
        v <= max,
    ensures
        immediate_value(decimal(v), max) == Ok::<nat, ParseIntError>(v),
{
    lemma_decimal_read(v, max);
    let s = decimal(v);
    if s.len() >= 2 {
        assert('0' <= s[1] <= '9');
    }
    assert('0' <= s[0] <= '9');
    assert(!(s =~= seq!['+']));
}

/// The listing shows a packed expression as the expression that was packed.
pub proof fn lemma_listing_shows_packed_expression(e: Expression)
    requires
        expression_wf(e),
    ensures
        packed_expression_text(packed(e)) == expression_text(e),
{
    lemma_unpack_pack(e);
}

} // verus!
