//! Reading a listing back: the parser, given the listing of an instruction whose registers
//! hold u32 values and whose expressions are well formed, gives the instruction back.
use vstd::prelude::*;

use crate::asm_parser::{code_lines, is_code_line, outcome_matches, parse_state, candidate, classify_prefix, is_best, is_label_line, lemma_best_unique, lemma_selected_fits, line_outcome, line_tokens, selected};
use crate::instruction::{arg_size, opcode_of, Instruction};
use crate::listing::listing_line;
use crate::arguments::{arg_body, classify_arg, expr_operand, expression_arg, is_expr_separator, operator_for, scan_expr, Argument, AsmError};
use crate::builder::{built_instruction, lemma_built_operands, operand_values, value_of, OperandValue};
use crate::immediates::{immediate_value, lemma_immediate_first_char, lemma_immediate_wider, ParseIntError};
use crate::expressions::{packed, lemma_pack_unpack, unpacked, expression_of, expression_wf, Expression, ExpressionArgs, ExpressionTail};
use crate::listing::{asm_text, has_listing, lemma_operand_count, listing_mnemonic, operand_texts, address, packed_expression_text, bracketed, hex_text, lemma_listing_hex_reads_back, operand_value_text, decimal, expression_text, hex_digits, lemma_decimal_read, lemma_listing_decimal_reads_back, operand_text, operator_char};
use crate::op_codes::OpCode;
use crate::registers::{is_u32_register, lemma_register_name_round_trip, lemma_register_name_start, register_name, register_named, RegisterId};
use crate::text::{lines_of, is_arg_separator, lemma_position_of_at, line_segments, trim_spaces, words};
use crate::type_hints::{arg_hints, lemma_argless_mnemonics, lower_ascii, mnemonic_matches, mnemonics, opcode_index, ArgTypeHint};

verus! {

/// A number for the kind of an argument, in which a u8 and a u32 of the same role agree.
pub open spec fn kind_code(h: ArgTypeHint) -> int {
    match h {
        ArgTypeHint::U8 | ArgTypeHint::U32 => 1,
        ArgTypeHint::U8Pointer | ArgTypeHint::U32Pointer => 2,
        ArgTypeHint::RegisterU32 => 3,
        ArgTypeHint::RegisterU32Pointer => 4,
        ArgTypeHint::RegisterF32 => 5,
        ArgTypeHint::Expression => 6,
        ArgTypeHint::ExpressionPointer => 7,
    }
}

/// The code of the `k`-th character of `s`, or 0 past its end.
pub open spec fn char_code(s: Seq<char>, k: int) -> int {
    if 0 <= k < s.len() {
        s[k] as int
    } else {
        0
    }
}

/// A number for a mnemonic of at most six ASCII characters.
pub open spec fn name_code(s: Seq<char>) -> int {
    s.len() + 8 * (char_code(s, 0) + 128 * (char_code(s, 1) + 128 * (char_code(s, 2) + 128 * (
    char_code(s, 3) + 128 * (char_code(s, 4) + 128 * char_code(s, 5))))))
}

/// The code of the `k`-th kind of `hs`, or 0 past its end.
pub open spec fn kind_code_at(hs: Seq<ArgTypeHint>, k: int) -> int {
    if 0 <= k < hs.len() {
        kind_code(hs[k])
    } else {
        0
    }
}

/// A number for a list of at most three argument kinds.
pub open spec fn kinds_code(hs: Seq<ArgTypeHint>) -> int {
    hs.len() + 8 * (kind_code_at(hs, 0) + 8 * (kind_code_at(hs, 1) + 8 * kind_code_at(hs, 2)))
}

/// The operation that a mnemonic and a list of argument kinds name, by their numbers.
pub open spec fn operation_with(name: int, kinds: int) -> Option<OpCode> {
    if name == 14794611 && kinds == 0 {
        Some(OpCode::Nop)
    } else
    if name == 13210379 && kinds == 202 {
        Some(OpCode::AddU32ImmU32Reg)
    } else
    if name == 13210379 && kinds == 218 {
        Some(OpCode::AddU32RegU32Reg)
    } else
    if name == 12965787 && kinds == 202 {
        Some(OpCode::SubU32ImmU32Reg)
    } else
    if name == 12965787 && kinds == 90 {
        Some(OpCode::SubU32RegU32Imm)
    } else
    if name == 12965787 && kinds == 218 {
        Some(OpCode::SubU32RegU32Reg)
    } else
    if name == 14276459 && kinds == 202 {
        Some(OpCode::MulU32ImmU32Reg)
    } else
    if name == 14276459 && kinds == 218 {
        Some(OpCode::MulU32RegU32Reg)
    } else
    if name == 15574819 && kinds == 202 {
        Some(OpCode::DivU32ImmU32Reg)
    } else
    if name == 15574819 && kinds == 90 {
        Some(OpCode::DivU32RegU32Imm)
    } else
    if name == 15574819 && kinds == 218 {
        Some(OpCode::DivU32RegU32Reg)
    } else
    if name == 13221739 && kinds == 202 {
        Some(OpCode::ModU32ImmU32Reg)
    } else
    if name == 13221739 && kinds == 90 {
        Some(OpCode::ModU32RegU32Imm)
    } else
    if name == 13221739 && kinds == 218 {
        Some(OpCode::ModU32RegU32Reg)
    } else
    if name == 13089611 && kinds == 25 {
        Some(OpCode::IncU32Reg)
    } else
    if name == 13080355 && kinds == 25 {
        Some(OpCode::DecU32Reg)
    } else
    if name == 13220619 && kinds == 202 {
        Some(OpCode::AndU32ImmU32Reg)
    } else
    if name == 14263195 && kinds == 202 {
        Some(OpCode::LeftShiftU32ImmU32Reg)
    } else
    if name == 14263195 && kinds == 218 {
        Some(OpCode::LeftShiftU32RegU32Reg)
    } else
    if name == 14256027 && kinds == 202 {
        Some(OpCode::ArithLeftShiftU32ImmU32Reg)
    } else
    if name == 14256027 && kinds == 218 {
        Some(OpCode::ArithLeftShiftU32RegU32Reg)
    } else
    if name == 15049627 && kinds == 202 {
        Some(OpCode::RightShiftU32ImmU32Reg)
    } else
    if name == 15049627 && kinds == 218 {
        Some(OpCode::RightShiftU32RegU32Reg)
    } else
    if name == 15042459 && kinds == 202 {
        Some(OpCode::ArithRightShiftU32ImmU32Reg)
    } else
    if name == 15042459 && kinds == 218 {
        Some(OpCode::ArithRightShiftU32RegU32Reg)
    } else
    if name == 1826195228 && kinds == 17 {
        Some(OpCode::CallU32Imm)
    } else
    if name == 1826195228 && kinds == 33 {
        Some(OpCode::CallU32Reg)
    } else
    if name == 1959512908 && kinds == 0 {
        Some(OpCode::RetArgsU32)
    } else
    if name == 15317835 && kinds == 9 {
        Some(OpCode::Int)
    } else
    if name == 32104660974414 && kinds == 0 {
        Some(OpCode::IntRet)
    } else
    if name == 14792531 && kinds == 17 {
        Some(OpCode::JumpAbsU32Imm)
    } else
    if name == 14792531 && kinds == 33 {
        Some(OpCode::JumpAbsU32Reg)
    } else
    if name == 1891884956 && kinds == 218 {
        Some(OpCode::SwapU32RegU32Reg)
    } else
    if name == 15581035 && kinds == 202 {
        Some(OpCode::MovU32ImmU32Reg)
    } else
    if name == 15581035 && kinds == 218 {
        Some(OpCode::MovU32RegU32Reg)
    } else
    if name == 15581035 && kinds == 138 {
        Some(OpCode::MovU32ImmMemSimple)
    } else
    if name == 247747952493 && kinds == 138 {
        Some(OpCode::MovU32ImmMemSimple)
    } else
    if name == 15581035 && kinds == 154 {
        Some(OpCode::MovU32RegMemSimple)
    } else
    if name == 247747952493 && kinds == 154 {
        Some(OpCode::MovU32RegMemSimple)
    } else
    if name == 15581035 && kinds == 210 {
        Some(OpCode::MovMemU32RegSimple)
    } else
    if name == 247747952493 && kinds == 210 {
        Some(OpCode::MovMemU32RegSimple)
    } else
    if name == 15581035 && kinds == 226 {
        Some(OpCode::MovU32RegPtrU32RegSimple)
    } else
    if name == 247747952493 && kinds == 226 {
        Some(OpCode::MovU32RegPtrU32RegSimple)
    } else
    if name == 15581035 && kinds == 458 {
        Some(OpCode::MovU32ImmMemExpr)
    } else
    if name == 213388214125 && kinds == 458 {
        Some(OpCode::MovU32ImmMemExpr)
    } else
    if name == 15581035 && kinds == 250 {
        Some(OpCode::MovMemExprU32Reg)
    } else
    if name == 213388214125 && kinds == 250 {
        Some(OpCode::MovMemExprU32Reg)
    } else
    if name == 15581035 && kinds == 474 {
        Some(OpCode::MovU32RegMemExpr)
    } else
    if name == 213388214125 && kinds == 474 {
        Some(OpCode::MovU32RegMemExpr)
    } else
    if name == 242161274645 && kinds == 25 {
        Some(OpCode::ByteSwapU32)
    } else
    if name == 1774560212 && kinds == 1755 {
        Some(OpCode::ZeroHighBitsByIndexU32Reg)
    } else
    if name == 1774560212 && kinds == 1739 {
        Some(OpCode::ZeroHighBitsByIndexU32RegU32Imm)
    } else
    if name == 1760024452 && kinds == 9 {
        Some(OpCode::PushU32Imm)
    } else
    if name == 14794627 && kinds == 25 {
        Some(OpCode::PopU32ImmU32Reg)
    } else
    if name == 119570 && kinds == 202 {
        Some(OpCode::BitTestU32Reg)
    } else
    if name == 119570 && kinds == 138 {
        Some(OpCode::BitTestU32Mem)
    } else
    if name == 15061779 && kinds == 202 {
        Some(OpCode::BitTestResetU32Reg)
    } else
    if name == 15061779 && kinds == 138 {
        Some(OpCode::BitTestResetU32Mem)
    } else
    if name == 15192851 && kinds == 202 {
        Some(OpCode::BitTestSetU32Reg)
    } else
    if name == 15192851 && kinds == 138 {
        Some(OpCode::BitTestSetU32Mem)
    } else
    if name == 15060755 && kinds == 218 {
        Some(OpCode::BitScanReverseU32RegU32Reg)
    } else
    if name == 15060755 && kinds == 210 {
        Some(OpCode::BitScanReverseU32MemU32Reg)
    } else
    if name == 15060755 && kinds == 154 {
        Some(OpCode::BitScanReverseU32RegMemU32)
    } else
    if name == 15060755 && kinds == 146 {
        Some(OpCode::BitScanReverseU32MemU32Mem)
    } else
    if name == 13487891 && kinds == 218 {
        Some(OpCode::BitScanForwardU32RegU32Reg)
    } else
    if name == 13487891 && kinds == 210 {
        Some(OpCode::BitScanForwardU32MemU32Reg)
    } else
    if name == 13487891 && kinds == 154 {
        Some(OpCode::BitScanForwardU32RegMemU32)
    } else
    if name == 13487891 && kinds == 146 {
        Some(OpCode::BitScanForwardU32MemU32Mem)
    } else
    if name == 1959512940 && kinds == 0 {
        Some(OpCode::Mret)
    } else
    if name == 15315779 && kinds == 0 {
        Some(OpCode::Hlt)
    } else {
        None
    }
}

/// Each mnemonic of an operation, with the kinds of its arguments, names that operation and
/// no other: no two operations share a mnemonic and kinds that differ only between u8 and
/// u32. A mnemonic is made of lower-case letters and `.`, and an operation takes at most
/// three arguments.
pub proof fn lemma_operation_with(o: OpCode)
    ensures
        arg_hints(o).len() <= 3,
        forall|j: int|
            0 <= j < mnemonics(o).len() ==> operation_with(
                name_code(#[trigger] mnemonics(o)[j]),
                kinds_code(arg_hints(o)),
            ) == Some(o),
        forall|j: int, k: int|
            0 <= j < mnemonics(o).len() && 0 <= k < mnemonics(o)[j].len() ==> ('a' <= #[trigger] mnemonics(o)[j][k] <= 'z'
                || mnemonics(o)[j][k] == '.'),
        forall|j: int| 0 <= j < mnemonics(o).len() ==> 0 < #[trigger] mnemonics(o)[j].len() <= 6,
        arg_hints(o).len() == 0 && mnemonics(o).len() > 0 ==> (o == OpCode::Nop || o
            == OpCode::RetArgsU32 || o == OpCode::IntRet || o == OpCode::Mret || o == OpCode::Hlt),
{
}

/// The characters of an operand's text in a listing.
pub open spec fn is_operand_char(c: char) -> bool {
    ||| '0' <= c <= '9'
    ||| 'a' <= c <= 'z'
    ||| 'A' <= c <= 'Z'
    ||| c == '&' || c == '[' || c == ']' || c == '+' || c == '-' || c == '*'
}

/// A non-empty text of operand characters.
pub open spec fn is_operand_word(s: Seq<char>) -> bool {
    s.len() > 0 && forall|k: int| 0 <= k < s.len() ==> is_operand_char(#[trigger] s[k])
}

/// A non-empty text of lower-case letters and `.`.
pub open spec fn is_mnemonic_word(s: Seq<char>) -> bool {
    s.len() > 0 && forall|k: int| 0 <= k < s.len() ==> ('a' <= #[trigger] s[k] <= 'z' || s[k] == '.')
}

/// A word after a separator (or at the start) is a new segment.
proof fn lemma_words_word(p: Seq<char>, w: Seq<char>)
    requires
        w.len() > 0,
        forall|k: int| 0 <= k < w.len() ==> !is_arg_separator(#[trigger] w[k]),
        p.len() == 0 || is_arg_separator(p.last()),
    ensures
        words(p + w) == words(p).push(w),
    decreases w.len(),
{
    let c = w.last();
    let w2 = w.drop_last();
    assert((p + w).drop_last() =~= p + w2);
    assert((p + w).last() == c);
    if w2.len() == 0 {
        assert(p + w2 =~= p);
        assert(seq![c] =~= w);
    } else {
        assert forall|k: int| 0 <= k < w2.len() implies !is_arg_separator(#[trigger] w2[k]) by {
            assert(w2[k] == w[k]);
        }
        lemma_words_word(p, w2);
        assert((p + w2).last() == w2.last());
        assert(w2.last() == w[w.len() - 2]);
        assert(w2.push(c) =~= w);
        assert(words(p).push(w2).drop_last() =~= words(p));
    }
}

/// Separators at the end of a text add no segment.
proof fn lemma_words_separators(p: Seq<char>, s: Seq<char>)
    requires
        forall|k: int| 0 <= k < s.len() ==> is_arg_separator(#[trigger] s[k]),
    ensures
        words(p + s) == words(p),
    decreases s.len(),
{
    if s.len() == 0 {
        assert(p + s =~= p);
    } else {
        let s2 = s.drop_last();
        assert forall|k: int| 0 <= k < s2.len() implies is_arg_separator(#[trigger] s2[k]) by {
            assert(s2[k] == s[k]);
        }
        lemma_words_separators(p, s2);
        assert((p + s).drop_last() =~= p + s2);
        assert((p + s).last() == s.last());
    }
}

/// What a listing line is made of: its first character is the mnemonic's, its last that of
/// its last word, it holds no `;`, and its words are the mnemonic and the operand texts.
proof fn lemma_listing_line(m: Seq<char>, ts: Seq<Seq<char>>)
    requires
        is_mnemonic_word(m),
        forall|k: int| 0 <= k < ts.len() ==> is_operand_word(#[trigger] ts[k]),
    ensures
        listing_line(m, ts).len() > 0,
        listing_line(m, ts)[0] == m[0],
        listing_line(m, ts).last() == (if ts.len() == 0 {
            m.last()
        } else {
            ts.last().last()
        }),
        forall|k: int| 0 <= k < listing_line(m, ts).len() ==> #[trigger] listing_line(m, ts)[k]
            != ';' && listing_line(m, ts)[k] != '\n',
        words(listing_line(m, ts)) == seq![m] + ts,
    decreases ts.len(),
{
    if ts.len() == 0 {
        assert(forall|k: int| 0 <= k < m.len() ==> !is_arg_separator(#[trigger] m[k]));
        lemma_words_word(Seq::<char>::empty(), m);
        assert(Seq::<char>::empty() + m =~= m);
        assert(seq![m] + ts =~= seq![m]);
    } else {
        let prev = ts.drop_last();
        assert forall|k: int| 0 <= k < prev.len() implies is_operand_word(#[trigger] prev[k]) by {
            assert(prev[k] == ts[k]);
        }
        lemma_listing_line(m, prev);
        let l0 = listing_line(m, prev);
        let sep: Seq<char> = if ts.len() == 1 {
            seq![' ']
        } else {
            seq![',', ' ']
        };
        let w = ts.last();
        assert(is_operand_word(w));
        let s = l0 + sep + w;
        assert(listing_line(m, ts) == s);
        lemma_words_separators(l0, sep);
        assert(forall|k: int| 0 <= k < w.len() ==> !is_arg_separator(#[trigger] w[k]));
        assert((l0 + sep).last() == ' ');
        lemma_words_word(l0 + sep, w);
        assert(seq![m] + ts =~= (seq![m] + prev).push(w));
        assert forall|k: int| 0 <= k < s.len() implies #[trigger] s[k] != ';' && s[k] != '\n' by {
            if k < l0.len() {
                assert(s[k] == l0[k]);
            } else if k < l0.len() + sep.len() {
                assert(s[k] == sep[k - l0.len()]);
            } else {
                assert(s[k] == w[k - l0.len() - sep.len()]);
            }
        }
        assert(s[0] == l0[0]);
        assert(s.last() == w.last());
    }
}

/// The segments of a listing line are its mnemonic and its operand texts.
proof fn lemma_listing_tokens(m: Seq<char>, ts: Seq<Seq<char>>)
    requires
        is_mnemonic_word(m),
        forall|k: int| 0 <= k < ts.len() ==> is_operand_word(#[trigger] ts[k]),
    ensures
        line_tokens(listing_line(m, ts)) == seq![m] + ts,
{
    lemma_listing_line(m, ts);
    let s = listing_line(m, ts);
    assert(!is_arg_separator(s.last())) by {
        if ts.len() > 0 {
            assert(ts.last() == ts[ts.len() - 1]);
            assert(is_operand_char(ts.last()[ts.last().len() - 1]));
        } else {
            assert('a' <= m[m.len() - 1] <= 'z' || m[m.len() - 1] == '.');
        }
    }
    assert(s[0] != ' ');
    assert(trim_spaces(s) == s);
    lemma_position_of_at(s, ';', s.len() as int);
    assert(line_segments(s) == words(s));
}

/// The hexadecimal digits of a value are digits and lower-case letters.
proof fn lemma_hex_digits_chars(v: nat, n: nat)
    ensures
        hex_digits(v, n).len() == n,
        forall|k: int| 0 <= k < n ==> ('0' <= #[trigger] hex_digits(v, n)[k] <= '9' || 'a'
            <= hex_digits(v, n)[k] <= 'f'),
    decreases n,
{
    if n > 0 {
        lemma_hex_digits_chars(v / 16, (n - 1) as nat);
        let s = hex_digits(v, n);
        assert forall|k: int| 0 <= k < n implies ('0' <= #[trigger] s[k] <= '9' || 'a' <= s[k]
            <= 'f') by {
            if k < n - 1 {
                assert(s[k] == hex_digits(v / 16, (n - 1) as nat)[k]);
            }
        }
    }
}

/// A register's name is made of upper-case letters and digits.
proof fn lemma_register_name_chars(r: RegisterId)
    ensures
        forall|k: int| 0 <= k < register_name(r).len() ==> ('A' <= #[trigger] register_name(r)[k] <= 'Z'
            || '0' <= register_name(r)[k] <= '9'),
{
    lemma_register_name_start(r);
}

/// No register's name starts with a character other than `E`, `I` or `F`.
proof fn lemma_not_register_name(s: Seq<char>)
    requires
        s.len() > 0,
        s[0] != 'E' && s[0] != 'I' && s[0] != 'F',
    ensures
        register_named(s) is None,
{
    if register_named(s) is Some {
        let r = choose|r: RegisterId| register_name(r) == s;
        lemma_register_name_start(r);
    }
}

/// Characters that are no expression separator carry the reading of an operand along.
proof fn lemma_scan_word(w: Seq<char>, s: Seq<char>, cur: Seq<char>, acc: Seq<ExpressionArgs>)
    requires
        forall|k: int| 0 <= k < w.len() ==> !is_expr_separator(#[trigger] w[k]),
        s.len() > 0,
    ensures
        scan_expr(w + s, cur, acc) == scan_expr(s, cur + w, acc),
    decreases w.len(),
{
    if w.len() == 0 {
        assert(w + s =~= s);
        assert(cur + w =~= cur);
    } else {
        let w2 = w.drop_first();
        assert forall|k: int| 0 <= k < w2.len() implies !is_expr_separator(#[trigger] w2[k]) by {
            assert(w2[k] == w[k + 1]);
        }
        assert((w + s)[0] == w[0]);
        assert((w + s).drop_first() =~= w2 + s);
        lemma_scan_word(w2, s, cur.push(w[0]), acc);
        assert(cur.push(w[0]) + w2 =~= cur + w);
    }
}

/// An operator after an operand adds the operand and the operator.
proof fn lemma_scan_operator(
    c: char,
    rest: Seq<char>,
    cur: Seq<char>,
    acc: Seq<ExpressionArgs>,
    x: ExpressionArgs,
)
    requires
        c == '+' || c == '-' || c == '*',
        rest.len() > 0,
        cur.len() > 0,
        expr_operand(cur) == Some(Ok::<ExpressionArgs, AsmError>(x)),
    ensures
        scan_expr(seq![c] + rest, cur, acc) == scan_expr(rest, seq![], acc.push(x) + operator_for(c)),
{
    assert((seq![c] + rest)[0] == c);
    assert((seq![c] + rest).drop_first() =~= rest);
}

/// An operand at the end of the text ends the reading.
proof fn lemma_scan_last(w: Seq<char>, acc: Seq<ExpressionArgs>, x: ExpressionArgs)
    requires
        w.len() > 0,
        forall|k: int| 0 <= k < w.len() ==> !is_expr_separator(#[trigger] w[k]),
        expr_operand(w) == Some(Ok::<ExpressionArgs, AsmError>(x)),
    ensures
        scan_expr(w, seq![], acc) == Ok::<Seq<ExpressionArgs>, AsmError>(acc.push(x)),
{
    let c = w.last();
    let w2 = w.drop_last();
    assert forall|k: int| 0 <= k < w2.len() implies !is_expr_separator(#[trigger] w2[k]) by {
        assert(w2[k] == w[k]);
    }
    assert(w2 + seq![c] =~= w);
    lemma_scan_word(w2, seq![c], seq![], acc);
    assert(Seq::<char>::empty() + w2 =~= w2);
    assert(w2.push(c) =~= w);
    assert(seq![c].drop_first() =~= Seq::<char>::empty());
    assert(operator_for(c) =~= Seq::<ExpressionArgs>::empty());
    assert(acc.push(x) + Seq::<ExpressionArgs>::empty() =~= acc.push(x));
    let s = seq![c];
    assert(s[0] == c);
    assert(s.len() == 1);
    assert(scan_expr(s, w2, acc) == scan_expr(s.drop_first(), seq![], acc.push(x) + operator_for(c)));
    assert(scan_expr(Seq::<char>::empty(), seq![], acc.push(x)) == Ok::<Seq<ExpressionArgs>, AsmError>(acc.push(x)));
}

/// Whether an operand of an expression is one the parser reads back: an immediate, or a
/// register that holds a u32.
pub open spec fn operand_reads_back(a: ExpressionArgs) -> bool {
    match a {
        ExpressionArgs::Register(r) => is_u32_register(r),
        ExpressionArgs::Immediate(_) => true,
        ExpressionArgs::Operator(_) => false,
    }
}

/// Whether each operand of an expression is one the parser reads back.
pub open spec fn expression_reads_back(e: Expression) -> bool {
    &&& operand_reads_back(e.operand_1)
    &&& operand_reads_back(e.operand_2)
    &&& match e.tail {
        Some(ExpressionTail { operator: _, operand: a }) => operand_reads_back(a),
        None => true,
    }
}

/// The text of an operand reads back as the operand.
proof fn lemma_operand_text(a: ExpressionArgs)
    requires
        operand_reads_back(a),
    ensures
        operand_text(a).len() > 0,
        forall|k: int| 0 <= k < operand_text(a).len() ==> ('0' <= #[trigger] operand_text(a)[k] <= '9'
            || 'A' <= operand_text(a)[k] <= 'Z'),
        expr_operand(operand_text(a)) == Some(Ok::<ExpressionArgs, AsmError>(a)),
{
    match a {
        ExpressionArgs::Register(r) => {
            lemma_register_name_chars(r);
            lemma_register_name_start(r);
            lemma_register_name_round_trip(r);
        },
        ExpressionArgs::Immediate(v) => {
            lemma_decimal_read(v as nat, 255);
            lemma_listing_decimal_reads_back(v as nat, 255);
            lemma_not_register_name(decimal(v as nat));
        },
        ExpressionArgs::Operator(_) => {},
    }
}

/// The text of an expression reads back, component by component, as the expression.
proof fn lemma_expression_text(e: Expression)
    requires
        expression_reads_back(e),
        expression_wf(e),
    ensures
        expression_text(e).len() > 0,
        forall|k: int| 0 <= k < expression_text(e).len() ==> is_operand_char(
            #[trigger] expression_text(e)[k],
        ),
        match scan_expr(expression_text(e), seq![], seq![]) {
            Ok(args) => expression_of(args) == Some(e),
            Err(_) => false,
        },
{
    let t1 = operand_text(e.operand_1);
    let t2 = operand_text(e.operand_2);
    let c1 = operator_char(e.operator_1);
    lemma_operand_text(e.operand_1);
    lemma_operand_text(e.operand_2);
    assert(forall|k: int| 0 <= k < t1.len() ==> !is_expr_separator(#[trigger] t1[k]));
    assert(forall|k: int| 0 <= k < t2.len() ==> !is_expr_separator(#[trigger] t2[k]));
    let op1 = seq![ExpressionArgs::Operator(e.operator_1)];
    assert(operator_for(c1) =~= op1);
    let acc1 = seq![e.operand_1] + op1;
    assert(Seq::<ExpressionArgs>::empty().push(e.operand_1) + operator_for(c1) =~= acc1);
    assert(Seq::<char>::empty() + t1 =~= t1);
    match e.tail {
        None => {
            let text = expression_text(e);
            assert(text =~= t1 + (seq![c1] + t2));
            lemma_scan_word(t1, seq![c1] + t2, seq![], seq![]);
            lemma_scan_operator(c1, t2, t1, seq![], e.operand_1);
            lemma_scan_last(t2, acc1, e.operand_2);
            let args = acc1.push(e.operand_2);
            assert(args =~= seq![e.operand_1, ExpressionArgs::Operator(e.operator_1), e.operand_2]);
            assert forall|k: int| 0 <= k < text.len() implies is_operand_char(#[trigger] text[k]) by {
                if k < t1.len() {
                    assert(text[k] == t1[k]);
                } else if k > t1.len() {
                    assert(text[k] == t2[k - t1.len() - 1]);
                }
            }
        },
        Some(ExpressionTail { operator: o2, operand: a3 }) => {
            let t3 = operand_text(a3);
            let c2 = operator_char(o2);
            lemma_operand_text(a3);
            assert(forall|k: int| 0 <= k < t3.len() ==> !is_expr_separator(#[trigger] t3[k]));
            let text = expression_text(e);
            assert(text =~= t1 + (seq![c1] + (t2 + (seq![c2] + t3))));
            lemma_scan_word(t1, seq![c1] + (t2 + (seq![c2] + t3)), seq![], seq![]);
            lemma_scan_operator(c1, t2 + (seq![c2] + t3), t1, seq![], e.operand_1);
            lemma_scan_word(t2, seq![c2] + t3, seq![], acc1);
            assert(Seq::<char>::empty() + t2 =~= t2);
            lemma_scan_operator(c2, t3, t2, acc1, e.operand_2);
            let op2 = seq![ExpressionArgs::Operator(o2)];
            assert(operator_for(c2) =~= op2);
            let acc2 = acc1.push(e.operand_2) + op2;
            lemma_scan_last(t3, acc2, a3);
            let args = acc2.push(a3);
            assert(args =~= seq![
                e.operand_1,
                ExpressionArgs::Operator(e.operator_1),
                e.operand_2,
                ExpressionArgs::Operator(o2),
                a3,
            ]);
            assert forall|k: int| 0 <= k < text.len() implies is_operand_char(#[trigger] text[k]) by {
                let n1 = t1.len() as int;
                let n2 = t2.len() as int;
                if k < n1 {
                    assert(text[k] == t1[k]);
                } else if n1 < k < n1 + 1 + n2 {
                    assert(text[k] == t2[k - n1 - 1]);
                } else if k > n1 + 1 + n2 {
                    assert(text[k] == t3[k - n1 - 2 - n2]);
                }
            }
        },
    }
}

/// Whether an operand value has the form that a kind of argument takes, in a way that the
/// parser reads back: a u8 for a u8, a number for a u32 or an address, a register that holds
/// a u32 for a register, and for an expression a number that packs one whose registers hold
/// u32 values.
pub open spec fn value_reads_back(h: ArgTypeHint, v: OperandValue) -> bool {
    match h {
        ArgTypeHint::U8 => v matches OperandValue::Number(n) && n < 256,
        ArgTypeHint::U32 | ArgTypeHint::U32Pointer => v is Number,
        ArgTypeHint::ExpressionPointer => v matches OperandValue::Number(n) && unpacked(n) matches Some(
            e,
        ) && expression_reads_back(e),
        ArgTypeHint::RegisterU32 | ArgTypeHint::RegisterU32Pointer => v matches OperandValue::Register(
            r,
        ) && is_u32_register(r),
        _ => false,
    }
}

/// What a text of operand characters is not: a float, a label or an immediate when it
/// does not start with a digit.
proof fn lemma_plain_word(t: Seq<char>)
    requires
        is_operand_word(t),
    ensures
        !t.contains('.'),
        !(t[0] == ':'),
{
    if t.contains('.') {
        let k = choose|k: int| 0 <= k < t.len() && t[k] == '.';
        assert(is_operand_char(t[k]));
    }
    assert(is_operand_char(t[0]));
}

/// A text that starts with neither a digit nor `+` is no immediate.
proof fn lemma_no_immediate(t: Seq<char>)
    requires
        t.len() > 0,
        !('0' <= t[0] <= '9'),
        t[0] != '+',
    ensures
        immediate_value(t, 255) is Err,
        immediate_value(t, 4294967295) is Err,
{
    if immediate_value(t, 255) is Ok {
        lemma_immediate_first_char(t, 255);
    }
    if immediate_value(t, 4294967295) is Ok {
        lemma_immediate_first_char(t, 4294967295);
    }
}

/// The text of a value written as a u32 is read as that value, as a u32 (and as a u8 when it
/// fits one).
proof fn lemma_hex_text_reads(n: u32)
    ensures
        is_operand_word(hex_text(n as nat)),
        hex_text(n as nat)[0] == '0',
        immediate_value(hex_text(n as nat), 4294967295) == Ok::<nat, ParseIntError>(n as nat),
        immediate_value(hex_text(n as nat), 255) matches Ok(b) ==> b == n,
        register_named(hex_text(n as nat)) is None,
        expression_arg(hex_text(n as nat), false) == Ok::<Option<(Argument, ArgTypeHint)>, AsmError>(None),
        expression_arg(hex_text(n as nat), true) == Ok::<Option<(Argument, ArgTypeHint)>, AsmError>(None),
{
    let t = hex_text(n as nat);
    lemma_hex_digits_chars(n as nat, 8);
    assert forall|k: int| 0 <= k < t.len() implies is_operand_char(#[trigger] t[k]) by {
        if k >= 2 {
            assert(t[k] == hex_digits(n as nat, 8)[k - 2]);
        }
    }
    lemma_listing_hex_reads_back(n);
    assert(t =~= seq!['0', 'x'] + hex_digits(n as nat, 8));
    if immediate_value(t, 255) is Ok {
        lemma_immediate_wider(t, 255, 4294967295);
    }
    lemma_not_register_name(t);
}

/// A u32 value, written as one (marked as an address when `p` is set), is read back as
/// that value, with the u32 kind and, when it fits, the u8 kind of the same role.
proof fn lemma_hex_operand(n: u32, p: bool)
    ensures
        ({
            let t = if p {
                address(hex_text(n as nat))
            } else {
                hex_text(n as nat)
            };
            let u32k = if p {
                ArgTypeHint::U32Pointer
            } else {
                ArgTypeHint::U32
            };
            let u8k = if p {
                ArgTypeHint::U8Pointer
            } else {
                ArgTypeHint::U8
            };
            &&& is_operand_word(t)
            &&& (classify_arg(t) == Ok::<(Argument, Seq<ArgTypeHint>, bool), AsmError>(
                (Argument::UnsignedInt(n as u128), seq![u8k, u32k], false),
            ) || classify_arg(t) == Ok::<(Argument, Seq<ArgTypeHint>, bool), AsmError>(
                (Argument::UnsignedInt(n as u128), seq![u32k], false),
            ))
        }),
{
    reveal(classify_arg);
    lemma_hex_text_reads(n);
    let s = hex_text(n as nat);
    lemma_plain_word(s);
    let t = if p {
        address(s)
    } else {
        s
    };
    if p {
        assert forall|k: int| 0 <= k < t.len() implies is_operand_char(#[trigger] t[k]) by {
            if k > 0 {
                assert(t[k] == s[k - 1]);
            }
        }
        assert(arg_body(t) =~= s);
    }
    assert(arg_body(t) == s);
    let b = immediate_value(s, 255);
    let u32k = if p {
        ArgTypeHint::U32Pointer
    } else {
        ArgTypeHint::U32
    };
    let u8k = if p {
        ArgTypeHint::U8Pointer
    } else {
        ArgTypeHint::U8
    };
    let hs = classify_arg(t)->Ok_0.1;
    if b is Ok {
        assert(hs =~= seq![u8k, u32k]);
    } else {
        assert(hs =~= seq![u32k]);
    }
}

/// A u8 value, written in decimal, is read back as that value, with the u8 and u32 kinds.
proof fn lemma_decimal_operand(n: u32)
    requires
        n < 256,
    ensures
        is_operand_word(decimal(n as nat)),
        classify_arg(decimal(n as nat)) == Ok::<(Argument, Seq<ArgTypeHint>, bool), AsmError>(
            (Argument::UnsignedInt(n as u128), seq![ArgTypeHint::U8, ArgTypeHint::U32], false),
        ),
{
    reveal(classify_arg);
    let t = decimal(n as nat);
    lemma_decimal_read(n as nat, 255);
    lemma_listing_decimal_reads_back(n as nat, 255);
    lemma_listing_decimal_reads_back(n as nat, 4294967295);
    lemma_not_register_name(t);
    lemma_plain_word(t);
    assert(classify_arg(t)->Ok_0.1 =~= seq![ArgTypeHint::U8, ArgTypeHint::U32]);
}

/// A register that holds a u32, written by name (marked as an address when `p` is set), is
/// read back as that register.
proof fn lemma_register_operand(r: RegisterId, p: bool)
    requires
        is_u32_register(r),
    ensures
        ({
            let t = if p {
                address(register_name(r))
            } else {
                register_name(r)
            };
            &&& is_operand_word(t)
            &&& classify_arg(t) == Ok::<(Argument, Seq<ArgTypeHint>, bool), AsmError>(
                (
                    Argument::RegisterU32(r),
                    seq![
                        if p {
                            ArgTypeHint::RegisterU32Pointer
                        } else {
                            ArgTypeHint::RegisterU32
                        },
                    ],
                    false,
                ),
            )
        }),
{
    reveal(classify_arg);
    let s = register_name(r);
    lemma_register_name_chars(r);
    lemma_register_name_start(r);
    lemma_register_name_round_trip(r);
    lemma_no_immediate(s);
    assert forall|k: int| 0 <= k < s.len() implies is_operand_char(#[trigger] s[k]) by {}
    lemma_plain_word(s);
    let t = if p {
        address(s)
    } else {
        s
    };
    if p {
        assert forall|k: int| 0 <= k < t.len() implies is_operand_char(#[trigger] t[k]) by {
            if k > 0 {
                assert(t[k] == s[k - 1]);
            }
        }
        assert(arg_body(t) =~= s);
    }
    assert(arg_body(t) == s);
    let k = if p {
        ArgTypeHint::RegisterU32Pointer
    } else {
        ArgTypeHint::RegisterU32
    };
    assert(classify_arg(t)->Ok_0.1 =~= seq![k]);
}

/// A packed expression whose registers hold u32 values, written as an address, is read back
/// as the expression, whose packed form is the value.
proof fn lemma_expression_operand(n: u32)
    requires
        unpacked(n) matches Some(e) && expression_reads_back(e),
    ensures
        is_operand_word(address(bracketed(packed_expression_text(n)))),
        classify_arg(address(bracketed(packed_expression_text(n)))) == Ok::<
            (Argument, Seq<ArgTypeHint>, bool),
            AsmError,
        >((Argument::Expression(unpacked(n)->Some_0), seq![ArgTypeHint::ExpressionPointer], false)),
        packed(unpacked(n)->Some_0) == n,
{
    reveal(classify_arg);
    let e = unpacked(n)->Some_0;
    lemma_pack_unpack(n);
    lemma_expression_text(e);
    let x = expression_text(e);
    let b = bracketed(x);
    let t = address(b);
    assert(packed_expression_text(n) == x);
    assert forall|k: int| 0 <= k < b.len() implies is_operand_char(#[trigger] b[k]) by {
        if 0 < k < b.len() - 1 {
            assert(b[k] == x[k - 1]);
        }
    }
    assert forall|k: int| 0 <= k < t.len() implies is_operand_char(#[trigger] t[k]) by {
        if k > 0 {
            assert(t[k] == b[k - 1]);
        }
    }
    assert(arg_body(t) =~= b);
    assert(b.subrange(1, b.len() - 1) =~= x);
    assert(b[0] == '[');
    assert(b.last() == ']');
    lemma_not_register_name(b);
    lemma_no_immediate(b);
    lemma_plain_word(b);
    assert(classify_arg(t)->Ok_0.1 =~= seq![ArgTypeHint::ExpressionPointer]);
}

/// The text of an operand of a listing is read back as the operand, with the kinds it can
/// take: its own and, for a small number, the other width of the same role.
pub proof fn lemma_operand_reads_back(h: ArgTypeHint, v: OperandValue)
    requires
        value_reads_back(h, v),
    ensures
        is_operand_word(operand_value_text(h, v)),
        classify_arg(operand_value_text(h, v)) is Ok,
        !classify_arg(operand_value_text(h, v))->Ok_0.2,
        value_of(classify_arg(operand_value_text(h, v))->Ok_0.0) == v,
        classify_arg(operand_value_text(h, v))->Ok_0.1.contains(h),
        forall|j: int|
            0 <= j < classify_arg(operand_value_text(h, v))->Ok_0.1.len() ==> kind_code(
                #[trigger] classify_arg(operand_value_text(h, v))->Ok_0.1[j],
            ) == kind_code(h),
{
    match v {
        OperandValue::Number(n) => {
            match h {
                ArgTypeHint::U32 => {
                    lemma_hex_operand(n, false);
                    let hs = classify_arg(operand_value_text(h, v))->Ok_0.1;
                    assert(hs[hs.len() - 1] == h);
                },
                ArgTypeHint::U32Pointer => {
                    lemma_hex_operand(n, true);
                    let hs = classify_arg(operand_value_text(h, v))->Ok_0.1;
                    assert(hs[hs.len() - 1] == h);
                },
                ArgTypeHint::U8 => {
                    lemma_decimal_operand(n);
                    let hs = classify_arg(operand_value_text(h, v))->Ok_0.1;
                    assert(hs[0] == h);
                },
                ArgTypeHint::ExpressionPointer => {
                    lemma_expression_operand(n);
                    let hs = classify_arg(operand_value_text(h, v))->Ok_0.1;
                    assert(hs[0] == h);
                },
                _ => {},
            }
        },
        OperandValue::Register(r) => {
            match h {
                ArgTypeHint::RegisterU32 => {
                    lemma_register_operand(r, false);
                    let hs = classify_arg(operand_value_text(h, v))->Ok_0.1;
                    assert(hs[0] == h);
                },
                ArgTypeHint::RegisterU32Pointer => {
                    lemma_register_operand(r, true);
                    let hs = classify_arg(operand_value_text(h, v))->Ok_0.1;
                    assert(hs[0] == h);
                },
                _ => {},
            }
        },
    }
}

/// Two instructions of one operation with the same operands are the same instruction.
#[verifier::spinoff_prover]
#[verifier::rlimit(60)]
proof fn lemma_operands_determine(a: Instruction, b: Instruction)
    requires
        has_listing(a),
        !(a is Unknown),
        opcode_of(a) == opcode_of(b),
        operand_values(a) == operand_values(b),
    ensures
        a == b,
{
    match a {
        Instruction::Nop => {},
        Instruction::AddU32ImmU32Reg(x0, x1) => {
            assert(b is AddU32ImmU32Reg);
            assert(operand_values(b)[0] == OperandValue::Number(b->AddU32ImmU32Reg_0));
            assert(operand_values(a)[0] == OperandValue::Number(x0));
            assert(operand_values(b)[1] == OperandValue::Register(b->AddU32ImmU32Reg_1));
            assert(operand_values(a)[1] == OperandValue::Register(x1));
        },
        Instruction::AddU32RegU32Reg(x0, x1) => {
            assert(b is AddU32RegU32Reg);
            assert(operand_values(b)[0] == OperandValue::Register(b->AddU32RegU32Reg_0));
            assert(operand_values(a)[0] == OperandValue::Register(x0));
            assert(operand_values(b)[1] == OperandValue::Register(b->AddU32RegU32Reg_1));
            assert(operand_values(a)[1] == OperandValue::Register(x1));
        },
        Instruction::SubU32ImmU32Reg(x0, x1) => {
            assert(b is SubU32ImmU32Reg);
            assert(operand_values(b)[0] == OperandValue::Number(b->SubU32ImmU32Reg_0));
            assert(operand_values(a)[0] == OperandValue::Number(x0));
            assert(operand_values(b)[1] == OperandValue::Register(b->SubU32ImmU32Reg_1));
            assert(operand_values(a)[1] == OperandValue::Register(x1));
        },
        Instruction::SubU32RegU32Imm(x0, x1) => {
            assert(b is SubU32RegU32Imm);
            assert(operand_values(b)[0] == OperandValue::Register(b->SubU32RegU32Imm_0));
            assert(operand_values(a)[0] == OperandValue::Register(x0));
            assert(operand_values(b)[1] == OperandValue::Number(b->SubU32RegU32Imm_1));
            assert(operand_values(a)[1] == OperandValue::Number(x1));
        },
        Instruction::SubU32RegU32Reg(x0, x1) => {
            assert(b is SubU32RegU32Reg);
            assert(operand_values(b)[0] == OperandValue::Register(b->SubU32RegU32Reg_0));
            assert(operand_values(a)[0] == OperandValue::Register(x0));
            assert(operand_values(b)[1] == OperandValue::Register(b->SubU32RegU32Reg_1));
            assert(operand_values(a)[1] == OperandValue::Register(x1));
        },
        Instruction::MulU32ImmU32Reg(x0, x1) => {
            assert(b is MulU32ImmU32Reg);
            assert(operand_values(b)[0] == OperandValue::Number(b->MulU32ImmU32Reg_0));
            assert(operand_values(a)[0] == OperandValue::Number(x0));
            assert(operand_values(b)[1] == OperandValue::Register(b->MulU32ImmU32Reg_1));
            assert(operand_values(a)[1] == OperandValue::Register(x1));
        },
        Instruction::MulU32RegU32Reg(x0, x1) => {
            assert(b is MulU32RegU32Reg);
            assert(operand_values(b)[0] == OperandValue::Register(b->MulU32RegU32Reg_0));
            assert(operand_values(a)[0] == OperandValue::Register(x0));
            assert(operand_values(b)[1] == OperandValue::Register(b->MulU32RegU32Reg_1));
            assert(operand_values(a)[1] == OperandValue::Register(x1));
        },
        Instruction::DivU32ImmU32Reg(x0, x1) => {
            assert(b is DivU32ImmU32Reg);
            assert(operand_values(b)[0] == OperandValue::Number(b->DivU32ImmU32Reg_0));
            assert(operand_values(a)[0] == OperandValue::Number(x0));
            assert(operand_values(b)[1] == OperandValue::Register(b->DivU32ImmU32Reg_1));
            assert(operand_values(a)[1] == OperandValue::Register(x1));
        },
        Instruction::DivU32RegU32Imm(x0, x1) => {
            assert(b is DivU32RegU32Imm);
            assert(operand_values(b)[0] == OperandValue::Register(b->DivU32RegU32Imm_0));
            assert(operand_values(a)[0] == OperandValue::Register(x0));
            assert(operand_values(b)[1] == OperandValue::Number(b->DivU32RegU32Imm_1));
            assert(operand_values(a)[1] == OperandValue::Number(x1));
        },
        Instruction::DivU32RegU32Reg(x0, x1) => {
            assert(b is DivU32RegU32Reg);
            assert(operand_values(b)[0] == OperandValue::Register(b->DivU32RegU32Reg_0));
            assert(operand_values(a)[0] == OperandValue::Register(x0));
            assert(operand_values(b)[1] == OperandValue::Register(b->DivU32RegU32Reg_1));
            assert(operand_values(a)[1] == OperandValue::Register(x1));
        },
        Instruction::ModU32ImmU32Reg(x0, x1) => {
            assert(b is ModU32ImmU32Reg);
            assert(operand_values(b)[0] == OperandValue::Number(b->ModU32ImmU32Reg_0));
            assert(operand_values(a)[0] == OperandValue::Number(x0));
            assert(operand_values(b)[1] == OperandValue::Register(b->ModU32ImmU32Reg_1));
            assert(operand_values(a)[1] == OperandValue::Register(x1));
        },
        Instruction::ModU32RegU32Imm(x0, x1) => {
            assert(b is ModU32RegU32Imm);
            assert(operand_values(b)[0] == OperandValue::Register(b->ModU32RegU32Imm_0));
            assert(operand_values(a)[0] == OperandValue::Register(x0));
            assert(operand_values(b)[1] == OperandValue::Number(b->ModU32RegU32Imm_1));
            assert(operand_values(a)[1] == OperandValue::Number(x1));
        },
        Instruction::ModU32RegU32Reg(x0, x1) => {
            assert(b is ModU32RegU32Reg);
            assert(operand_values(b)[0] == OperandValue::Register(b->ModU32RegU32Reg_0));
            assert(operand_values(a)[0] == OperandValue::Register(x0));
            assert(operand_values(b)[1] == OperandValue::Register(b->ModU32RegU32Reg_1));
            assert(operand_values(a)[1] == OperandValue::Register(x1));
        },
        Instruction::IncU32Reg(x0) => {
            assert(b is IncU32Reg);
            assert(operand_values(b)[0] == OperandValue::Register(b->IncU32Reg_0));
            assert(operand_values(a)[0] == OperandValue::Register(x0));
        },
        Instruction::DecU32Reg(x0) => {
            assert(b is DecU32Reg);
            assert(operand_values(b)[0] == OperandValue::Register(b->DecU32Reg_0));
            assert(operand_values(a)[0] == OperandValue::Register(x0));
        },
        Instruction::AndU32ImmU32Reg(x0, x1) => {
            assert(b is AndU32ImmU32Reg);
            assert(operand_values(b)[0] == OperandValue::Number(b->AndU32ImmU32Reg_0));
            assert(operand_values(a)[0] == OperandValue::Number(x0));
            assert(operand_values(b)[1] == OperandValue::Register(b->AndU32ImmU32Reg_1));
            assert(operand_values(a)[1] == OperandValue::Register(x1));
        },
        Instruction::LeftShiftU32ImmU32Reg(x0, x1) => {
            assert(b is LeftShiftU32ImmU32Reg);
            assert(operand_values(b)[0] == OperandValue::Number(b->LeftShiftU32ImmU32Reg_0));
            assert(operand_values(a)[0] == OperandValue::Number(x0));
            assert(operand_values(b)[1] == OperandValue::Register(b->LeftShiftU32ImmU32Reg_1));
            assert(operand_values(a)[1] == OperandValue::Register(x1));
        },
        Instruction::LeftShiftU32RegU32Reg(x0, x1) => {
            assert(b is LeftShiftU32RegU32Reg);
            assert(operand_values(b)[0] == OperandValue::Register(b->LeftShiftU32RegU32Reg_0));
            assert(operand_values(a)[0] == OperandValue::Register(x0));
            assert(operand_values(b)[1] == OperandValue::Register(b->LeftShiftU32RegU32Reg_1));
            assert(operand_values(a)[1] == OperandValue::Register(x1));
        },
        Instruction::ArithLeftShiftU32ImmU32Reg(x0, x1) => {
            assert(b is ArithLeftShiftU32ImmU32Reg);
            assert(operand_values(b)[0] == OperandValue::Number(b->ArithLeftShiftU32ImmU32Reg_0));
            assert(operand_values(a)[0] == OperandValue::Number(x0));
            assert(operand_values(b)[1] == OperandValue::Register(b->ArithLeftShiftU32ImmU32Reg_1));
            assert(operand_values(a)[1] == OperandValue::Register(x1));
        },
        Instruction::ArithLeftShiftU32RegU32Reg(x0, x1) => {
            assert(b is ArithLeftShiftU32RegU32Reg);
            assert(operand_values(b)[0] == OperandValue::Register(b->ArithLeftShiftU32RegU32Reg_0));
            assert(operand_values(a)[0] == OperandValue::Register(x0));
            assert(operand_values(b)[1] == OperandValue::Register(b->ArithLeftShiftU32RegU32Reg_1));
            assert(operand_values(a)[1] == OperandValue::Register(x1));
        },
        Instruction::RightShiftU32ImmU32Reg(x0, x1) => {
            assert(b is RightShiftU32ImmU32Reg);
            assert(operand_values(b)[0] == OperandValue::Number(b->RightShiftU32ImmU32Reg_0));
            assert(operand_values(a)[0] == OperandValue::Number(x0));
            assert(operand_values(b)[1] == OperandValue::Register(b->RightShiftU32ImmU32Reg_1));
            assert(operand_values(a)[1] == OperandValue::Register(x1));
        },
        Instruction::RightShiftU32RegU32Reg(x0, x1) => {
            assert(b is RightShiftU32RegU32Reg);
            assert(operand_values(b)[0] == OperandValue::Register(b->RightShiftU32RegU32Reg_0));
            assert(operand_values(a)[0] == OperandValue::Register(x0));
            assert(operand_values(b)[1] == OperandValue::Register(b->RightShiftU32RegU32Reg_1));
            assert(operand_values(a)[1] == OperandValue::Register(x1));
        },
        Instruction::ArithRightShiftU32ImmU32Reg(x0, x1) => {
            assert(b is ArithRightShiftU32ImmU32Reg);
            assert(operand_values(b)[0] == OperandValue::Number(b->ArithRightShiftU32ImmU32Reg_0));
            assert(operand_values(a)[0] == OperandValue::Number(x0));
            assert(operand_values(b)[1] == OperandValue::Register(b->ArithRightShiftU32ImmU32Reg_1));
            assert(operand_values(a)[1] == OperandValue::Register(x1));
        },
        Instruction::ArithRightShiftU32RegU32Reg(x0, x1) => {
            assert(b is ArithRightShiftU32RegU32Reg);
            assert(operand_values(b)[0] == OperandValue::Register(b->ArithRightShiftU32RegU32Reg_0));
            assert(operand_values(a)[0] == OperandValue::Register(x0));
            assert(operand_values(b)[1] == OperandValue::Register(b->ArithRightShiftU32RegU32Reg_1));
            assert(operand_values(a)[1] == OperandValue::Register(x1));
        },
        Instruction::CallU32Imm(x0) => {
            assert(b is CallU32Imm);
            assert(operand_values(b)[0] == OperandValue::Number(b->CallU32Imm_0));
            assert(operand_values(a)[0] == OperandValue::Number(x0));
        },
        Instruction::CallU32Reg(x0) => {
            assert(b is CallU32Reg);
            assert(operand_values(b)[0] == OperandValue::Register(b->CallU32Reg_0));
            assert(operand_values(a)[0] == OperandValue::Register(x0));
        },
        Instruction::RetArgsU32 => {},
        Instruction::Int(x0) => {
            assert(b is Int);
            assert(operand_values(b)[0] == OperandValue::Number(b->Int_0 as u32));
            assert(operand_values(a)[0] == OperandValue::Number(x0 as u32));
        },
        Instruction::IntRet => {},
        Instruction::JumpAbsU32Imm(x0) => {
            assert(b is JumpAbsU32Imm);
            assert(operand_values(b)[0] == OperandValue::Number(b->JumpAbsU32Imm_0));
            assert(operand_values(a)[0] == OperandValue::Number(x0));
        },
        Instruction::JumpAbsU32Reg(x0) => {
            assert(b is JumpAbsU32Reg);
            assert(operand_values(b)[0] == OperandValue::Register(b->JumpAbsU32Reg_0));
            assert(operand_values(a)[0] == OperandValue::Register(x0));
        },
        Instruction::SwapU32RegU32Reg(x0, x1) => {
            assert(b is SwapU32RegU32Reg);
            assert(operand_values(b)[0] == OperandValue::Register(b->SwapU32RegU32Reg_0));
            assert(operand_values(a)[0] == OperandValue::Register(x0));
            assert(operand_values(b)[1] == OperandValue::Register(b->SwapU32RegU32Reg_1));
            assert(operand_values(a)[1] == OperandValue::Register(x1));
        },
        Instruction::MovU32ImmU32Reg(x0, x1) => {
            assert(b is MovU32ImmU32Reg);
            assert(operand_values(b)[0] == OperandValue::Number(b->MovU32ImmU32Reg_0));
            assert(operand_values(a)[0] == OperandValue::Number(x0));
            assert(operand_values(b)[1] == OperandValue::Register(b->MovU32ImmU32Reg_1));
            assert(operand_values(a)[1] == OperandValue::Register(x1));
        },
        Instruction::MovU32RegU32Reg(x0, x1) => {
            assert(b is MovU32RegU32Reg);
            assert(operand_values(b)[0] == OperandValue::Register(b->MovU32RegU32Reg_0));
            assert(operand_values(a)[0] == OperandValue::Register(x0));
            assert(operand_values(b)[1] == OperandValue::Register(b->MovU32RegU32Reg_1));
            assert(operand_values(a)[1] == OperandValue::Register(x1));
        },
        Instruction::MovU32ImmMemSimple(x0, x1) => {
            assert(b is MovU32ImmMemSimple);
            assert(operand_values(b)[0] == OperandValue::Number(b->MovU32ImmMemSimple_0));
            assert(operand_values(a)[0] == OperandValue::Number(x0));
            assert(operand_values(b)[1] == OperandValue::Number(b->MovU32ImmMemSimple_1));
            assert(operand_values(a)[1] == OperandValue::Number(x1));
        },
        Instruction::MovU32RegMemSimple(x0, x1) => {
            assert(b is MovU32RegMemSimple);
            assert(operand_values(b)[0] == OperandValue::Register(b->MovU32RegMemSimple_0));
            assert(operand_values(a)[0] == OperandValue::Register(x0));
            assert(operand_values(b)[1] == OperandValue::Number(b->MovU32RegMemSimple_1));
            assert(operand_values(a)[1] == OperandValue::Number(x1));
        },
        Instruction::MovMemU32RegSimple(x0, x1) => {
            assert(b is MovMemU32RegSimple);
            assert(operand_values(b)[0] == OperandValue::Number(b->MovMemU32RegSimple_0));
            assert(operand_values(a)[0] == OperandValue::Number(x0));
            assert(operand_values(b)[1] == OperandValue::Register(b->MovMemU32RegSimple_1));
            assert(operand_values(a)[1] == OperandValue::Register(x1));
        },
        Instruction::MovU32RegPtrU32RegSimple(x0, x1) => {
            assert(b is MovU32RegPtrU32RegSimple);
            assert(operand_values(b)[0] == OperandValue::Register(b->MovU32RegPtrU32RegSimple_0));
            assert(operand_values(a)[0] == OperandValue::Register(x0));
            assert(operand_values(b)[1] == OperandValue::Register(b->MovU32RegPtrU32RegSimple_1));
            assert(operand_values(a)[1] == OperandValue::Register(x1));
        },
        Instruction::MovU32ImmMemExpr(x0, x1) => {
            assert(b is MovU32ImmMemExpr);
            assert(operand_values(b)[0] == OperandValue::Number(b->MovU32ImmMemExpr_0));
            assert(operand_values(a)[0] == OperandValue::Number(x0));
            assert(operand_values(b)[1] == OperandValue::Number(b->MovU32ImmMemExpr_1));
            assert(operand_values(a)[1] == OperandValue::Number(x1));
        },
        Instruction::MovMemExprU32Reg(x0, x1) => {
            assert(b is MovMemExprU32Reg);
            assert(operand_values(b)[0] == OperandValue::Number(b->MovMemExprU32Reg_0));
            assert(operand_values(a)[0] == OperandValue::Number(x0));
            assert(operand_values(b)[1] == OperandValue::Register(b->MovMemExprU32Reg_1));
            assert(operand_values(a)[1] == OperandValue::Register(x1));
        },
        Instruction::MovU32RegMemExpr(x0, x1) => {
            assert(b is MovU32RegMemExpr);
            assert(operand_values(b)[0] == OperandValue::Register(b->MovU32RegMemExpr_0));
            assert(operand_values(a)[0] == OperandValue::Register(x0));
            assert(operand_values(b)[1] == OperandValue::Number(b->MovU32RegMemExpr_1));
            assert(operand_values(a)[1] == OperandValue::Number(x1));
        },
        Instruction::ByteSwapU32(x0) => {
            assert(b is ByteSwapU32);
            assert(operand_values(b)[0] == OperandValue::Register(b->ByteSwapU32_0));
            assert(operand_values(a)[0] == OperandValue::Register(x0));
        },
        Instruction::ZeroHighBitsByIndexU32Reg(x0, x1, x2) => {
            assert(b is ZeroHighBitsByIndexU32Reg);
            assert(operand_values(b)[0] == OperandValue::Register(b->ZeroHighBitsByIndexU32Reg_0));
            assert(operand_values(a)[0] == OperandValue::Register(x0));
            assert(operand_values(b)[1] == OperandValue::Register(b->ZeroHighBitsByIndexU32Reg_1));
            assert(operand_values(a)[1] == OperandValue::Register(x1));
            assert(operand_values(b)[2] == OperandValue::Register(b->ZeroHighBitsByIndexU32Reg_2));
            assert(operand_values(a)[2] == OperandValue::Register(x2));
        },
        Instruction::ZeroHighBitsByIndexU32RegU32Imm(x0, x1, x2) => {
            assert(b is ZeroHighBitsByIndexU32RegU32Imm);
            assert(operand_values(b)[0] == OperandValue::Number(b->ZeroHighBitsByIndexU32RegU32Imm_0));
            assert(operand_values(a)[0] == OperandValue::Number(x0));
            assert(operand_values(b)[1] == OperandValue::Register(b->ZeroHighBitsByIndexU32RegU32Imm_1));
            assert(operand_values(a)[1] == OperandValue::Register(x1));
            assert(operand_values(b)[2] == OperandValue::Register(b->ZeroHighBitsByIndexU32RegU32Imm_2));
            assert(operand_values(a)[2] == OperandValue::Register(x2));
        },
        Instruction::PushU32Imm(x0) => {
            assert(b is PushU32Imm);
            assert(operand_values(b)[0] == OperandValue::Number(b->PushU32Imm_0));
            assert(operand_values(a)[0] == OperandValue::Number(x0));
        },
        Instruction::PopU32ImmU32Reg(x0) => {
            assert(b is PopU32ImmU32Reg);
            assert(operand_values(b)[0] == OperandValue::Register(b->PopU32ImmU32Reg_0));
            assert(operand_values(a)[0] == OperandValue::Register(x0));
        },
        Instruction::BitTestU32Reg(x0, x1) => {
            assert(b is BitTestU32Reg);
            assert(operand_values(b)[0] == OperandValue::Number(b->BitTestU32Reg_0 as u32));
            assert(operand_values(a)[0] == OperandValue::Number(x0 as u32));
            assert(operand_values(b)[1] == OperandValue::Register(b->BitTestU32Reg_1));
            assert(operand_values(a)[1] == OperandValue::Register(x1));
        },
        Instruction::BitTestU32Mem(x0, x1) => {
            assert(b is BitTestU32Mem);
            assert(operand_values(b)[0] == OperandValue::Number(b->BitTestU32Mem_0 as u32));
            assert(operand_values(a)[0] == OperandValue::Number(x0 as u32));
            assert(operand_values(b)[1] == OperandValue::Number(b->BitTestU32Mem_1));
            assert(operand_values(a)[1] == OperandValue::Number(x1));
        },
        Instruction::BitTestResetU32Reg(x0, x1) => {
            assert(b is BitTestResetU32Reg);
            assert(operand_values(b)[0] == OperandValue::Number(b->BitTestResetU32Reg_0 as u32));
            assert(operand_values(a)[0] == OperandValue::Number(x0 as u32));
            assert(operand_values(b)[1] == OperandValue::Register(b->BitTestResetU32Reg_1));
            assert(operand_values(a)[1] == OperandValue::Register(x1));
        },
        Instruction::BitTestResetU32Mem(x0, x1) => {
            assert(b is BitTestResetU32Mem);
            assert(operand_values(b)[0] == OperandValue::Number(b->BitTestResetU32Mem_0 as u32));
            assert(operand_values(a)[0] == OperandValue::Number(x0 as u32));
            assert(operand_values(b)[1] == OperandValue::Number(b->BitTestResetU32Mem_1));
            assert(operand_values(a)[1] == OperandValue::Number(x1));
        },
        Instruction::BitTestSetU32Reg(x0, x1) => {
            assert(b is BitTestSetU32Reg);
            assert(operand_values(b)[0] == OperandValue::Number(b->BitTestSetU32Reg_0 as u32));
            assert(operand_values(a)[0] == OperandValue::Number(x0 as u32));
            assert(operand_values(b)[1] == OperandValue::Register(b->BitTestSetU32Reg_1));
            assert(operand_values(a)[1] == OperandValue::Register(x1));
        },
        Instruction::BitTestSetU32Mem(x0, x1) => {
            assert(b is BitTestSetU32Mem);
            assert(operand_values(b)[0] == OperandValue::Number(b->BitTestSetU32Mem_0 as u32));
            assert(operand_values(a)[0] == OperandValue::Number(x0 as u32));
            assert(operand_values(b)[1] == OperandValue::Number(b->BitTestSetU32Mem_1));
            assert(operand_values(a)[1] == OperandValue::Number(x1));
        },
        Instruction::BitScanReverseU32RegU32Reg(x0, x1) => {
            assert(b is BitScanReverseU32RegU32Reg);
            assert(operand_values(b)[0] == OperandValue::Register(b->BitScanReverseU32RegU32Reg_0));
            assert(operand_values(a)[0] == OperandValue::Register(x0));
            assert(operand_values(b)[1] == OperandValue::Register(b->BitScanReverseU32RegU32Reg_1));
            assert(operand_values(a)[1] == OperandValue::Register(x1));
        },
        Instruction::BitScanReverseU32MemU32Reg(x0, x1) => {
            assert(b is BitScanReverseU32MemU32Reg);
            assert(operand_values(b)[0] == OperandValue::Number(b->BitScanReverseU32MemU32Reg_0));
            assert(operand_values(a)[0] == OperandValue::Number(x0));
            assert(operand_values(b)[1] == OperandValue::Register(b->BitScanReverseU32MemU32Reg_1));
            assert(operand_values(a)[1] == OperandValue::Register(x1));
        },
        Instruction::BitScanReverseU32RegMemU32(x0, x1) => {
            assert(b is BitScanReverseU32RegMemU32);
            assert(operand_values(b)[0] == OperandValue::Register(b->BitScanReverseU32RegMemU32_0));
            assert(operand_values(a)[0] == OperandValue::Register(x0));
            assert(operand_values(b)[1] == OperandValue::Number(b->BitScanReverseU32RegMemU32_1));
            assert(operand_values(a)[1] == OperandValue::Number(x1));
        },
        Instruction::BitScanReverseU32MemU32Mem(x0, x1) => {
            assert(b is BitScanReverseU32MemU32Mem);
            assert(operand_values(b)[0] == OperandValue::Number(b->BitScanReverseU32MemU32Mem_0));
            assert(operand_values(a)[0] == OperandValue::Number(x0));
            assert(operand_values(b)[1] == OperandValue::Number(b->BitScanReverseU32MemU32Mem_1));
            assert(operand_values(a)[1] == OperandValue::Number(x1));
        },
        Instruction::BitScanForwardU32RegU32Reg(x0, x1) => {
            assert(b is BitScanForwardU32RegU32Reg);
            assert(operand_values(b)[0] == OperandValue::Register(b->BitScanForwardU32RegU32Reg_0));
            assert(operand_values(a)[0] == OperandValue::Register(x0));
            assert(operand_values(b)[1] == OperandValue::Register(b->BitScanForwardU32RegU32Reg_1));
            assert(operand_values(a)[1] == OperandValue::Register(x1));
        },
        Instruction::BitScanForwardU32MemU32Reg(x0, x1) => {
            assert(b is BitScanForwardU32MemU32Reg);
            assert(operand_values(b)[0] == OperandValue::Number(b->BitScanForwardU32MemU32Reg_0));
            assert(operand_values(a)[0] == OperandValue::Number(x0));
            assert(operand_values(b)[1] == OperandValue::Register(b->BitScanForwardU32MemU32Reg_1));
            assert(operand_values(a)[1] == OperandValue::Register(x1));
        },
        Instruction::BitScanForwardU32RegMemU32(x0, x1) => {
            assert(b is BitScanForwardU32RegMemU32);
            assert(operand_values(b)[0] == OperandValue::Register(b->BitScanForwardU32RegMemU32_0));
            assert(operand_values(a)[0] == OperandValue::Register(x0));
            assert(operand_values(b)[1] == OperandValue::Number(b->BitScanForwardU32RegMemU32_1));
            assert(operand_values(a)[1] == OperandValue::Number(x1));
        },
        Instruction::BitScanForwardU32MemU32Mem(x0, x1) => {
            assert(b is BitScanForwardU32MemU32Mem);
            assert(operand_values(b)[0] == OperandValue::Number(b->BitScanForwardU32MemU32Mem_0));
            assert(operand_values(a)[0] == OperandValue::Number(x0));
            assert(operand_values(b)[1] == OperandValue::Number(b->BitScanForwardU32MemU32Mem_1));
            assert(operand_values(a)[1] == OperandValue::Number(x1));
        },
        Instruction::Mret => {},
        Instruction::Hlt => {},
        Instruction::Unknown(_) => {
            assert(a is Unknown);
        },
        _ => {},
    }
}

/// When each argument reads, the readings of all of them are those of each.
proof fn lemma_classify_all(args: Seq<Seq<char>>, k: nat)
    requires
        k <= args.len(),
        forall|j: int| 0 <= j < args.len() ==> #[trigger] classify_arg(args[j]) is Ok,
    ensures
        classify_prefix(args, k) is Ok,
        classify_prefix(args, k)->Ok_0.len() == k,
        forall|j: int|
            0 <= j < k ==> #[trigger] classify_prefix(args, k)->Ok_0[j] == classify_arg(args[j])->Ok_0,
    decreases k,
{
    if k > 0 {
        lemma_classify_all(args, (k - 1) as nat);
        assert(classify_arg(args[k - 1]) is Ok);
        let prev = classify_prefix(args, (k - 1) as nat)->Ok_0;
        assert(classify_prefix(args, k)->Ok_0 == prev.push(classify_arg(args[k - 1])->Ok_0));
        assert forall|j: int| 0 <= j < k implies #[trigger] classify_prefix(args, k)->Ok_0[j]
            == classify_arg(args[j])->Ok_0 by {
            if j < k - 1 {
                assert(classify_prefix(args, k)->Ok_0[j] == prev[j]);
            }
        }
    }
}

/// A mnemonic of an operation, with lists of kinds each holding the operation's kind at its
/// place and nothing of another role, selects that operation and no other.
proof fn lemma_only_candidate(op: OpCode, m: Seq<char>, lists: Seq<Seq<ArgTypeHint>>)
    requires
        mnemonics(op).contains(m),
        lower_ascii(m) == m,
        lists.len() == arg_hints(op).len(),
        forall|k: int|
            0 <= k < lists.len() ==> #[trigger] lists[k].contains(arg_hints(op)[k]) && forall|j: int|
                0 <= j < lists[k].len() ==> kind_code(#[trigger] lists[k][j]) == kind_code(
                    arg_hints(op)[k],
                ),
    ensures
        selected(m, lists) == Some(op),
{
    let hs = arg_hints(op);
    let n = hs.len();
    lemma_operation_with(op);
    let jm = choose|j: int| 0 <= j < mnemonics(op).len() && mnemonics(op)[j] == m;
    assert(mnemonics(op)[jm] == m);
    assert(candidate(op, m, lists));
    assert forall|o: OpCode| #[trigger] candidate(o, m, lists) implies o == op by {
        lemma_operation_with(o);
        let j = choose|j: int| 0 <= j < mnemonics(o).len() && mnemonics(o)[j] == m;
        assert(mnemonics(o)[j] == m);
        if n == 0 {
            lemma_argless_mnemonics(o);
        } else {
            let ho = arg_hints(o);
            assert(ho.len() == n);
            assert forall|k: int| 0 <= k < n implies kind_code(#[trigger] ho[k]) == kind_code(
                hs[k],
            ) by {
                assert(lists[k].contains(hs[k]));
                assert(lists[k].contains(ho[k]));
                let q = choose|q: int| 0 <= q < lists[k].len() && lists[k][q] == ho[k];
                assert(kind_code(lists[k][q]) == kind_code(hs[k]));
            }
            assert(kind_code_at(ho, 0) == kind_code_at(hs, 0));
            assert(kind_code_at(ho, 1) == kind_code_at(hs, 1));
            assert(kind_code_at(ho, 2) == kind_code_at(hs, 2));
            assert(kinds_code(ho) == kinds_code(hs));
        }
    }
    assert forall|o: OpCode| #[trigger] candidate(o, m, lists) implies arg_size(op) < arg_size(o) || (
    arg_size(op) == arg_size(o) && opcode_index(op) <= opcode_index(o)) by {}
    assert(is_best(op, m, lists));
    let c = choose|o: OpCode| is_best(o, m, lists);
    lemma_best_unique(op, c, m, lists);
}

/// Whether the listing of an instruction is one the parser reads back: an instruction with
/// a listing, other than an unknown one, whose registers hold u32 values and whose packed
/// expressions are expressions of such registers.
pub open spec fn listing_reads_back(i: Instruction) -> bool {
    &&& has_listing(i)
    &&& !(i is Unknown)
    &&& forall|k: int|
        0 <= k < arg_hints(opcode_of(i)).len() ==> value_reads_back(
            #[trigger] arg_hints(opcode_of(i))[k],
            operand_values(i)[k],
        )
}

/// Reading the listing of an instruction gives the instruction back, for every instruction
/// whose listing the parser reads back.
/// The parts of a listing that the parser reads back: its segments are the mnemonic and the
/// operand texts, the mnemonic names the operation, and each operand text reads back as the
/// operand with kinds of the role the operation takes there.
proof fn lemma_listing_parts(i: Instruction)
    requires
        listing_reads_back(i),
    ensures
        line_tokens(asm_text(i)) == seq![listing_mnemonic(i)] + operand_texts(i),
        is_mnemonic_word(listing_mnemonic(i)),
        mnemonics(opcode_of(i)).contains(listing_mnemonic(i)),
        lower_ascii(listing_mnemonic(i)) == listing_mnemonic(i),
        operand_texts(i).len() == arg_hints(opcode_of(i)).len(),
        operand_values(i).len() == arg_hints(opcode_of(i)).len(),
        forall|k: int| 0 <= k < operand_texts(i).len() ==> is_operand_word(#[trigger] operand_texts(i)[k]),
        forall|k: int|
            0 <= k < operand_texts(i).len() ==> {
                let c = classify_arg(#[trigger] operand_texts(i)[k]);
                &&& c is Ok
                &&& !c->Ok_0.2
                &&& value_of(c->Ok_0.0) == operand_values(i)[k]
                &&& c->Ok_0.1.contains(arg_hints(opcode_of(i))[k])
                &&& forall|j: int|
                    0 <= j < c->Ok_0.1.len() ==> kind_code(#[trigger] c->Ok_0.1[j]) == kind_code(
                        arg_hints(opcode_of(i))[k],
                    )
            },
{
    let op = opcode_of(i);
    lemma_operand_count(i);
    lemma_operation_with(op);
    let hs = arg_hints(op);
    let vs = operand_values(i);
    let names = mnemonics(op);
    let m = listing_mnemonic(i);
    assert(m == names[names.len() - 1]);
    let ts = operand_texts(i);
    assert(asm_text(i) == listing_line(m, ts));
    assert forall|k: int| 0 <= k < ts.len() implies {
        let c = classify_arg(#[trigger] ts[k]);
        &&& is_operand_word(ts[k])
        &&& c is Ok
        &&& !c->Ok_0.2
        &&& value_of(c->Ok_0.0) == vs[k]
        &&& c->Ok_0.1.contains(hs[k])
        &&& forall|j: int| 0 <= j < c->Ok_0.1.len() ==> kind_code(#[trigger] c->Ok_0.1[j]) == kind_code(hs[k])
    } by {
        assert(value_reads_back(hs[k], vs[k]));
        lemma_operand_reads_back(hs[k], vs[k]);
    }
    assert(is_mnemonic_word(m));
    lemma_listing_tokens(m, ts);
    assert(lower_ascii(m) =~= m);
}

/// The listing of an instruction whose listing reads back is a text of one line, not a
/// comment line, that `parse` reads, and reading it gives that instruction and no other.
pub proof fn lemma_listing_parses(i: Instruction)
    requires
        listing_reads_back(i),
    ensures
        code_lines(asm_text(i)) == seq![asm_text(i)],
        parse_state(code_lines(asm_text(i)), code_lines(asm_text(i)).len()).0 is Ok,
        forall|ins: Instruction| #[trigger] outcome_matches(ins, asm_text(i)) <==> ins == i,
{
    let s = asm_text(i);
    lemma_listing_parts(i);
    lemma_listing_reads_back(i);
    let m = listing_mnemonic(i);
    let ts = operand_texts(i);
    lemma_listing_line(m, ts);
    assert(s == listing_line(m, ts));
    lemma_position_of_at(s, '\n', s.len() as int);
    assert(lines_of(s) == seq![s]);
    assert(is_code_line()(s));
    Seq::<Seq<char>>::empty().lemma_filter_push(s, is_code_line());
    assert(Seq::<Seq<char>>::empty().filter(is_code_line()) =~= Seq::<Seq<char>>::empty()) by {
        reveal(Seq::filter);
    }
    assert(Seq::<Seq<char>>::empty().push(s) =~= seq![s]);
    assert(code_lines(s) =~= seq![s]);
    assert(seq![s][0] == s);
    assert(parse_state(seq![s], 0).0 is Ok);
    assert(line_outcome(seq![s][0]) is Ok);
    assert(parse_state(seq![s], 1).0 is Ok);
}

/// Two instructions whose listings read back and are the same text are the same
/// instruction.
pub proof fn lemma_listing_injective(a: Instruction, b: Instruction)
    requires
        listing_reads_back(a),
        listing_reads_back(b),
        asm_text(a) == asm_text(b),
    ensures
        a == b,
{
    lemma_listing_reads_back(a);
    lemma_listing_reads_back(b);
}

/// Reading the listing of an instruction gives the instruction back, for every instruction
/// whose listing the parser reads back.
#[verifier::rlimit(40)]
pub proof fn lemma_listing_reads_back(i: Instruction)
    requires
        listing_reads_back(i),
    ensures
        line_outcome(asm_text(i)) == Ok::<Option<Instruction>, AsmError>(Some(i)),
{
    reveal(line_outcome);
    let op = opcode_of(i);
    lemma_listing_parts(i);
    let hs = arg_hints(op);
    let vs = operand_values(i);
    let m = listing_mnemonic(i);
    let ts = operand_texts(i);
    let n = hs.len();
    let t = line_tokens(asm_text(i));
    assert(t[0] == m);
    assert(m[0] != ':');
    assert(!is_label_line(t));
    assert(mnemonic_matches(op, m));
    let args = t.drop_first();
    assert(args =~= ts);
    lemma_classify_all(args, args.len());
    let cs = classify_prefix(args, args.len())->Ok_0;
    let lists = cs.map_values(|c: (Argument, Seq<ArgTypeHint>, bool)| c.1);
    let values = cs.map_values(|c: (Argument, Seq<ArgTypeHint>, bool)| c.0);
    assert forall|k: int| 0 <= k < n implies #[trigger] lists[k].contains(hs[k]) && forall|j: int|
        0 <= j < lists[k].len() ==> kind_code(#[trigger] lists[k][j]) == kind_code(hs[k]) by {
        assert(cs[k] == classify_arg(ts[k])->Ok_0);
    }
    lemma_only_candidate(op, m, lists);
    lemma_selected_fits(args, cs, t[0], op);
    lemma_built_operands(op, values);
    let b = built_instruction(op, values);
    let got = values.map_values(|a: Argument| value_of(a));
    assert forall|k: int| 0 <= k < n implies #[trigger] got[k] == vs[k] by {
        assert(cs[k] == classify_arg(ts[k])->Ok_0);
    }
    assert(got =~= vs);
    lemma_operands_determine(i, b);
}

} // verus!
