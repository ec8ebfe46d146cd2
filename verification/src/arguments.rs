//! Reading one argument of an instruction line: an expression, a register, an immediate or
//! a label, each possibly marked with `&` as an address.
use vstd::prelude::*;

use crate::expressions::{
    expression_of, expression_wf, Expression, ExpressionArgs, ExpressionOperator,
};
use crate::immediates::{immediate_value, parse_immediate_chars};
use crate::registers::{is_u32_register, register_name, register_named, RegisterId};
use crate::text::copy_range;
use crate::type_hints::ArgTypeHint;

verus! {

/// Why a line of assembly text cannot be read.
#[derive(Clone, Copy, Debug, PartialEq, Eq, Structural)]
pub enum AsmError {
    /// The line holds no segment at all.
    EmptyLine,
    /// A label designator (`:`) without a name.
    EmptyLabel,
    /// No instruction has the line's mnemonic.
    UnknownMnemonic,
    /// An argument is empty (an `&` alone).
    EmptyArgument,
    /// A bracketed expression that is not two or three operands joined by operators.
    InvalidExpression,
    /// A f32 register inside an expression.
    FloatRegisterInExpression,
    /// A f32 register used as an address.
    FloatRegisterPointer,
    /// A floating-point value used as an address.
    FloatPointer,
    /// An argument with a `.`, which is read as a floating-point value; no instruction takes one.
    FloatArgument,
    /// An argument that is none of the forms an argument can take.
    InvalidArgument,
    /// No instruction has both the mnemonic and the kinds of the arguments.
    NoMatchingInstruction,
    /// The instruction that the mnemonic selects takes arguments, and the line gives none.
    MissingArguments,
}

/// An argument as it was read.
#[derive(Clone, Copy, Debug, PartialEq, Eq, Structural)]
pub enum Argument {
    /// An unsigned integer argument.
    UnsignedInt(u128),
    /// A f32 register argument.
    RegisterF32(RegisterId),
    /// A u32 register argument.
    RegisterU32(RegisterId),
    /// An expression argument.
    Expression(Expression),
}

/// The address used for a label argument until labels are resolved.
pub const DUMMY_LABEL_JUMP_ADDRESS: u128 = 4294967295;

/// Reading `s` as a register: `None` when it names none.
pub open spec fn register_arg(s: Seq<char>, is_pointer: bool) -> Result<
    Option<(Argument, ArgTypeHint)>,
    AsmError,
> {
    match register_named(s) {
        None => Ok(None),
        Some(r) => if is_u32_register(r) {
            Ok(
                Some(
                    (
                        Argument::RegisterU32(r),
                        if is_pointer {
                            ArgTypeHint::RegisterU32Pointer
                        } else {
                            ArgTypeHint::RegisterU32
                        },
                    ),
                ),
            )
        } else if is_pointer {
            Err(AsmError::FloatRegisterPointer)
        } else {
            Ok(Some((Argument::RegisterF32(r), ArgTypeHint::RegisterF32)))
        },
    }
}

/// The characters that end a component of an expression.
pub open spec fn is_expr_separator(c: char) -> bool {
    c == ' ' || c == '+' || c == '-' || c == '*'
}

/// The operator component that a separator adds, if it is an operator.
pub open spec fn operator_for(c: char) -> Seq<ExpressionArgs> {
    if c == '+' {
        seq![ExpressionArgs::Operator(ExpressionOperator::Add)]
    } else if c == '-' {
        seq![ExpressionArgs::Operator(ExpressionOperator::Subtract)]
    } else if c == '*' {
        seq![ExpressionArgs::Operator(ExpressionOperator::Multiply)]
    } else {
        seq![]
    }
}

/// Reading a segment of an expression as an operand: a u32 register or a u8 immediate;
/// `None` when it is neither.
pub open spec fn expr_operand(seg: Seq<char>) -> Option<Result<ExpressionArgs, AsmError>> {
    match register_named(seg) {
        Some(r) => if is_u32_register(r) {
            Some(Ok(ExpressionArgs::Register(r)))
        } else {
            Some(Err(AsmError::FloatRegisterInExpression))
        },
        None => match immediate_value(seg, 255) {
            Ok(v) => Some(Ok(ExpressionArgs::Immediate(v as u8))),
            Err(_) => None,
        },
    }
}

/// The components of the expression text `s`, read from the left, where `cur` is the
/// segment read so far and `acc` the components found so far. Each separator ends a
/// segment (the last character always belongs to the last one); a non-empty segment must
/// be an operand, and reading stops at the first that is not; an operator separator then
/// adds its operator.
pub open spec fn scan_expr(s: Seq<char>, cur: Seq<char>, acc: Seq<ExpressionArgs>) -> Result<
    Seq<ExpressionArgs>,
    AsmError,
>
    decreases s.len(),
{
    if s.len() == 0 {
        Ok(acc)
    } else {
        let c = s[0];
        let last = s.len() == 1;
        if last || is_expr_separator(c) {
            let seg = if last {
                cur.push(c)
            } else {
                cur
            };
            if seg.len() == 0 {
                scan_expr(s.drop_first(), seq![], acc + operator_for(c))
            } else {
                match expr_operand(seg) {
                    None => Ok(acc),
                    Some(Err(e)) => Err(e),
                    Some(Ok(x)) => scan_expr(s.drop_first(), seq![], acc.push(x) + operator_for(c)),
                }
            }
        } else {
            scan_expr(s.drop_first(), cur.push(c), acc)
        }
    }
}

/// Reading `s` as a bracketed expression: `None` when it is not bracketed.
pub open spec fn expression_arg(s: Seq<char>, is_pointer: bool) -> Result<
    Option<(Argument, ArgTypeHint)>,
    AsmError,
> {
    if s.len() == 0 {
        Err(AsmError::EmptyArgument)
    } else if s[0] != '[' || s.last() != ']' {
        Ok(None)
    } else {
        match scan_expr(s.subrange(1, s.len() - 1), seq![], seq![]) {
            Err(e) => Err(e),
            Ok(args) => match expression_of(args) {
                Some(e) => Ok(
                    Some(
                        (
                            Argument::Expression(e),
                            if is_pointer {
                                ArgTypeHint::ExpressionPointer
                            } else {
                                ArgTypeHint::Expression
                            },
                        ),
                    ),
                ),
                None => Err(AsmError::InvalidExpression),
            },
        }
    }
}

/// Whether an argument is marked as an address.
pub open spec fn is_pointer_arg(raw: Seq<char>) -> bool {
    raw.len() > 0 && raw[0] == '&'
}

/// An argument without its address mark.
pub open spec fn arg_body(raw: Seq<char>) -> Seq<char> {
    if is_pointer_arg(raw) {
        raw.drop_first()
    } else {
        raw
    }
}

/// Whether an argument is a label.
pub open spec fn is_label_arg(raw: Seq<char>) -> bool {
    arg_body(raw).len() > 0 && arg_body(raw)[0] == ':'
}

/// The kinds that an optional reading contributes.
pub open spec fn hint_of(r: Option<(Argument, ArgTypeHint)>) -> Seq<ArgTypeHint> {
    match r {
        Some((_, h)) => seq![h],
        None => seq![],
    }
}

/// The kinds that a successful immediate reading contributes.
pub open spec fn imm_hint<E>(r: Result<nat, E>, plain: ArgTypeHint, pointer: ArgTypeHint, is_pointer: bool) -> Seq<ArgTypeHint> {
    match r {
        Ok(_) => seq![if is_pointer { pointer } else { plain }],
        Err(_) => seq![],
    }
}

/// Reading one argument: the value first found (an expression, a register, a u8, a u32 or
/// a label, in this order), every kind that it can be read as, and whether it is a label.
#[verifier::opaque]
pub open spec fn classify_arg(raw: Seq<char>) -> Result<(Argument, Seq<ArgTypeHint>, bool), AsmError> {
    let p = is_pointer_arg(raw);
    let sub = arg_body(raw);
    match expression_arg(sub, p) {
        Err(e) => Err(e),
        Ok(ex) => match register_arg(sub, p) {
            Err(e) => Err(e),
            Ok(rg) => {
                let b = immediate_value(sub, 255);
                let w = immediate_value(sub, 4294967295);
                let label = is_label_arg(raw);
                if sub.contains('.') {
                    Err(
                        if p {
                            AsmError::FloatPointer
                        } else {
                            AsmError::FloatArgument
                        },
                    )
                } else if label && sub.len() == 1 {
                    Err(AsmError::EmptyLabel)
                } else {
                    let hints = hint_of(ex) + hint_of(rg) + imm_hint(
                        b,
                        ArgTypeHint::U8,
                        ArgTypeHint::U8Pointer,
                        p,
                    ) + imm_hint(w, ArgTypeHint::U32, ArgTypeHint::U32Pointer, p) + if label {
                        seq![ArgTypeHint::U32Pointer]
                    } else {
                        seq![]
                    };
                    if ex is Some {
                        Ok(((ex->0).0, hints, label))
                    } else if rg is Some {
                        Ok(((rg->0).0, hints, label))
                    } else if b is Ok {
                        Ok((Argument::UnsignedInt(b->Ok_0 as u128), hints, label))
                    } else if w is Ok {
                        Ok((Argument::UnsignedInt(w->Ok_0 as u128), hints, label))
                    } else if label {
                        Ok((Argument::UnsignedInt(DUMMY_LABEL_JUMP_ADDRESS), hints, label))
                    } else {
                        Err(AsmError::InvalidArgument)
                    }
                }
            },
        },
    }
}

/// Whether an argument's value has the form that a kind asks for.
pub open spec fn arg_fits(h: ArgTypeHint, a: Argument) -> bool {
    match h {
        ArgTypeHint::U8 | ArgTypeHint::U8Pointer => a matches Argument::UnsignedInt(v) && v < 256,
        ArgTypeHint::U32 | ArgTypeHint::U32Pointer => a matches Argument::UnsignedInt(v) && v
            <= 4294967295,
        ArgTypeHint::RegisterU32 | ArgTypeHint::RegisterU32Pointer => a is RegisterU32,
        ArgTypeHint::RegisterF32 => a is RegisterF32,
        ArgTypeHint::Expression | ArgTypeHint::ExpressionPointer => a matches Argument::Expression(
            e,
        ) && expression_wf(e),
    }
}

/// Read `s` as a register, for an argument that is an address when `is_pointer` is set:
/// `Ok(None)` when it names no register, an error for a f32 register used as an address.
pub(crate) fn register_reading(s: &[char], is_pointer: bool) -> (r: Result<
    Option<(Argument, ArgTypeHint)>,
    AsmError,
>)
    ensures
        r == register_arg(s@, is_pointer),
{
    match RegisterId::from_name(s) {
        Some(id) => {
            if id.is_u32() {
                if is_pointer {
                    Ok(Some((Argument::RegisterU32(id), ArgTypeHint::RegisterU32Pointer)))
                } else {
                    Ok(Some((Argument::RegisterU32(id), ArgTypeHint::RegisterU32)))
                }
            } else if is_pointer {
                Err(AsmError::FloatRegisterPointer)
            } else {
                Ok(Some((Argument::RegisterF32(id), ArgTypeHint::RegisterF32)))
            }
        },
        None => Ok(None),
    }
}

/// Read `s` as a u8 immediate, for an argument that is an address when `is_pointer` is set.
pub fn try_parse_u8(s: &[char], is_pointer: bool) -> (r: Option<(Argument, ArgTypeHint)>)
    ensures
        r == match immediate_value(s@, 255) {
            Ok(v) => Some(
                (
                    Argument::UnsignedInt(v as u128),
                    if is_pointer {
                        ArgTypeHint::U8Pointer
                    } else {
                        ArgTypeHint::U8
                    },
                ),
            ),
            Err(_) => None,
        },
{
    match parse_immediate_chars(s, 255) {
        Ok(val) => {
            if is_pointer {
                Some((Argument::UnsignedInt(val as u128), ArgTypeHint::U8Pointer))
            } else {
                Some((Argument::UnsignedInt(val as u128), ArgTypeHint::U8))
            }
        },
        Err(_) => None,
    }
}

/// Read a segment of an expression as an operand.
fn expression_operand(seg: &[char]) -> (r: Option<Result<ExpressionArgs, AsmError>>)
    ensures
        r == expr_operand(seg@),
{
    match register_reading(seg, false) {
        Ok(Some((Argument::RegisterU32(id), _))) => Some(Ok(ExpressionArgs::Register(id))),
        Ok(Some(_)) => Some(Err(AsmError::FloatRegisterInExpression)),
        Err(e) => Some(Err(e)),
        Ok(None) => match try_parse_u8(seg, false) {
            Some((Argument::UnsignedInt(v), _)) => {
                proof {
                    crate::immediates::lemma_immediate_bound(seg@, 255);
                }
                Some(Ok(ExpressionArgs::Immediate(v as u8)))
            },
            _ => None,
        },
    }
}

/// The operator component that the separator `c` adds, if it is an operator.
fn push_operator(acc: &mut Vec<ExpressionArgs>, c: char)
    ensures
        final(acc)@ == old(acc)@ + operator_for(c),
{
    if c == '+' {
        acc.push(ExpressionArgs::Operator(ExpressionOperator::Add));
    } else if c == '-' {
        acc.push(ExpressionArgs::Operator(ExpressionOperator::Subtract));
    } else if c == '*' {
        acc.push(ExpressionArgs::Operator(ExpressionOperator::Multiply));
    }
    assert(acc@ =~= old(acc)@ + operator_for(c));
}

/// The components of the expression text `s`.
fn expression_components(s: &[char]) -> (r: Result<Vec<ExpressionArgs>, AsmError>)
    ensures
        match r {
            Ok(v) => scan_expr(s@, seq![], seq![]) == Ok::<Seq<ExpressionArgs>, AsmError>(v@),
            Err(e) => scan_expr(s@, seq![], seq![]) == Err::<Seq<ExpressionArgs>, AsmError>(e),
        },
{
    let n = s.len();
    let mut acc: Vec<ExpressionArgs> = Vec::new();
    let mut start: usize = 0;
    let mut i: usize = 0;
    assert(s@.skip(0) =~= s@);
    assert(s@.subrange(0, 0) =~= Seq::<char>::empty());
    while i < n
        invariant
            n == s.len(),
            start <= i <= n,
            scan_expr(s@, seq![], seq![]) == scan_expr(
                s@.skip(i as int),
                s@.subrange(start as int, i as int),
                acc@,
            ),
        decreases n - i,
    {
        let c = s[i];
        let ghost t = s@.skip(i as int);
        let ghost cur = s@.subrange(start as int, i as int);
        assert(t[0] == c);
        assert(t.drop_first() =~= s@.skip(i + 1));
        assert(cur.push(c) =~= s@.subrange(start as int, i + 1));
        let last = i + 1 == n;
        if last || c == ' ' || c == '+' || c == '-' || c == '*' {
            let end = if last {
                i + 1
            } else {
                i
            };
            if end == start {
                push_operator(&mut acc, c);
            } else {
                let seg = copy_range(s, start, end);
                match expression_operand(&seg) {
                    None => {
                        return Ok(acc);
                    },
                    Some(Err(e)) => {
                        return Err(e);
                    },
                    Some(Ok(x)) => {
                        acc.push(x);
                        push_operator(&mut acc, c);
                    },
                }
            }
            start = i + 1;
            assert(s@.subrange(start as int, i + 1) =~= Seq::<char>::empty());
        }
        i = i + 1;
    }
    assert(s@.skip(n as int) =~= Seq::<char>::empty());
    Ok(acc)
}

/// Read `s` as a bracketed expression, for an argument that is an address when
/// `is_pointer` is set: `Ok(None)` when it is not bracketed, an error when the brackets hold
/// no valid expression.
pub(crate) fn expression_reading(s: &[char], is_pointer: bool) -> (r: Result<
    Option<(Argument, ArgTypeHint)>,
    AsmError,
>)
    ensures
        r == expression_arg(s@, is_pointer),
{
    if s.len() == 0 {
        return Err(AsmError::EmptyArgument);
    }
    let n = s.len();
    if s[0] != '[' || s[n - 1] != ']' {
        return Ok(None);
    }
    let inner = copy_range(s, 1, n - 1);
    let args = expression_components(&inner)?;
    match Expression::from_args(&args) {
        Some(expr) => {
            if is_pointer {
                Ok(Some((Argument::Expression(expr), ArgTypeHint::ExpressionPointer)))
            } else {
                Ok(Some((Argument::Expression(expr), ArgTypeHint::Expression)))
            }
        },
        None => Err(AsmError::InvalidExpression),
    }
}

/// Read `s` as a register, for an argument that is an address when `is_pointer` is set:
/// `None` when it names no register. A f32 register cannot be used as an address; such
/// text is left out.
pub fn try_parse_register_id(s: &[char], is_pointer: bool) -> (r: Option<(Argument, ArgTypeHint)>)
    requires
        register_arg(s@, is_pointer) is Ok,
    ensures
        r == register_arg(s@, is_pointer)->Ok_0,
{
    match register_reading(s, is_pointer) {
        Ok(r) => r,
        Err(_) => None,
    }
}

/// Read `s` as a bracketed expression, for an argument that is an address when
/// `is_pointer` is set: `None` when it is not bracketed. Brackets around text that is no
/// valid expression are left out.
pub fn try_parse_expression(s: &[char], is_pointer: bool) -> (r: Option<(Argument, ArgTypeHint)>)
    requires
        expression_arg(s@, is_pointer) is Ok,
    ensures
        r == expression_arg(s@, is_pointer)->Ok_0,
{
    match expression_reading(s, is_pointer) {
        Ok(r) => r,
        Err(_) => None,
    }
}

/// Whether `s` holds the character `c`.
pub fn contains_char(s: &[char], c: char) -> (b: bool)
    ensures
        b == s@.contains(c),
{
    let mut i: usize = 0;
    while i < s.len()
        invariant
            i <= s.len(),
            forall|j: int| 0 <= j < i ==> s@[j] != c,
        decreases s.len() - i,
    {
        if s[i] == c {
            return true;
        }
        i = i + 1;
    }
    false
}

/// Read one argument: the value first found, every kind it can be read as, and whether it
/// is a label.
pub fn classify_argument(raw: &[char]) -> (r: Result<(Argument, Vec<ArgTypeHint>, bool), AsmError>)
    ensures
        match r {
            Ok((a, hs, label)) => classify_arg(raw@) == Ok::<
                (Argument, Seq<ArgTypeHint>, bool),
                AsmError,
            >((a, hs@, label)),
            Err(e) => classify_arg(raw@) == Err::<(Argument, Seq<ArgTypeHint>, bool), AsmError>(e),
        },
{
    reveal(classify_arg);
    let is_pointer = raw.len() > 0 && raw[0] == '&';
    let sub = if is_pointer {
        copy_range(raw, 1, raw.len())
    } else {
        copy_range(raw, 0, raw.len())
    };
    assert(sub@ =~= arg_body(raw@));
    let ex = expression_reading(&sub, is_pointer)?;
    let rg = register_reading(&sub, is_pointer)?;
    let b = parse_immediate_chars(&sub, 255);
    let w = parse_immediate_chars(&sub, 4294967295);
    let ghost bs = immediate_value(sub@, 255);
    let ghost ws = immediate_value(sub@, 4294967295);
    let label = sub.len() > 0 && sub[0] == ':';
    if contains_char(&sub, '.') {
        if is_pointer {
            return Err(AsmError::FloatPointer);
        } else {
            return Err(AsmError::FloatArgument);
        }
    }
    if label && sub.len() == 1 {
        return Err(AsmError::EmptyLabel);
    }
    let mut hints: Vec<ArgTypeHint> = Vec::new();
    let mut value: Option<Argument> = None;
    if let Some((arg, hint)) = ex {
        value = Some(arg);
        hints.push(hint);
    }
    if let Some((arg, hint)) = rg {
        if value.is_none() {
            value = Some(arg);
        }
        hints.push(hint);
    }
    if let Ok(v) = b {
        if value.is_none() {
            value = Some(Argument::UnsignedInt(v as u128));
        }
        if is_pointer {
            hints.push(ArgTypeHint::U8Pointer);
        } else {
            hints.push(ArgTypeHint::U8);
        }
    }
    if let Ok(v) = w {
        if value.is_none() {
            value = Some(Argument::UnsignedInt(v as u128));
        }
        if is_pointer {
            hints.push(ArgTypeHint::U32Pointer);
        } else {
            hints.push(ArgTypeHint::U32);
        }
    }
    if label {
        if value.is_none() {
            value = Some(Argument::UnsignedInt(DUMMY_LABEL_JUMP_ADDRESS));
        }
        hints.push(ArgTypeHint::U32Pointer);
    }
    assert(hints@ =~= hint_of(ex) + hint_of(rg) + imm_hint(
        bs,
        ArgTypeHint::U8,
        ArgTypeHint::U8Pointer,
        is_pointer,
    ) + imm_hint(ws, ArgTypeHint::U32, ArgTypeHint::U32Pointer, is_pointer) + if label {
        seq![ArgTypeHint::U32Pointer]
    } else {
        seq![]
    });
    match value {
        Some(a) => Ok((a, hints, label)),
        None => Err(AsmError::InvalidArgument),
    }
}

/// Every kind that an argument can be read as fits the value that was read.
pub proof fn lemma_classify_fits(raw: Seq<char>)
    ensures
        classify_arg(raw) matches Ok((a, hs, _)) ==> forall|i: int|
            0 <= i < hs.len() ==> #[trigger] arg_fits(hs[i], a),
{
    reveal(classify_arg);
    let p = is_pointer_arg(raw);
    let sub = arg_body(raw);
    if let Ok((a, hs, label)) = classify_arg(raw) {
        let ex = expression_arg(sub, p)->Ok_0;
        let rg = register_arg(sub, p)->Ok_0;
        let b = immediate_value(sub, 255);
        let w = immediate_value(sub, 4294967295);
        crate::immediates::lemma_immediate_bound(sub, 255);
        crate::immediates::lemma_immediate_bound(sub, 4294967295);
        if let Some(r) = register_named(sub) {
            let c = choose|x: RegisterId| register_name(x) == sub;
            crate::registers::lemma_register_name_start(c);
        }
        if b is Ok {
            crate::immediates::lemma_immediate_first_char(sub, 255);
            crate::immediates::lemma_immediate_wider(sub, 255, 4294967295);
        }
        if w is Ok {
            crate::immediates::lemma_immediate_first_char(sub, 4294967295);
        }
        if ex is Some {
            let inner = sub.subrange(1, sub.len() - 1);
            crate::expressions::lemma_expression_of_wf(scan_expr(inner, seq![], seq![])->Ok_0);
            assert(rg is None);
            assert(b is Err);
            assert(w is Err);
            assert(!label);
            assert(hs =~= seq![(ex->0).1]);
        } else if rg is Some {
            assert(b is Err);
            assert(w is Err);
            assert(!label);
            assert(hs =~= seq![(rg->0).1]);
        } else if b is Ok {
            assert(!label);
        } else if w is Ok {
            assert(!label);
            assert(hs =~= imm_hint(w, ArgTypeHint::U32, ArgTypeHint::U32Pointer, p));
        } else {
            assert(hs =~= seq![ArgTypeHint::U32Pointer]);
        }
    }
}

} // verus!
