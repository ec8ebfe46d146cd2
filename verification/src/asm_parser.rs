//! The assembly parser: from assembly text to a list of [`Instruction`]s.
use vstd::prelude::*;

use std::collections::HashMap;

use crate::arguments::{
    arg_body, arg_fits, classify_arg, classify_argument, lemma_classify_fits, Argument, AsmError,
};
use crate::builder::{args_fit, built_instruction, is_selectable, try_build_instruction};
use crate::cartesian::{
    cartesian, hint_lists, lemma_cartesian_contains, multi_cartesian_product, picks_from,
};
use crate::immediates::{immediate_value, parse_immediate_chars, ParseIntError};
use crate::instruction::{arg_size, Instruction};
use crate::op_codes::OpCode;
use crate::text::{
    chars_of, copy_range, line_segments, lines_in, lines_of, segments_of, string_from_chars,
    trim_spaces, trim_spaces_of, views,
};
use crate::type_hints::{
    arg_hints, arg_hints_of, has_mnemonic, lemma_opcode_index, lower_ascii, mnemonic_matches, mnemonics, opcode_at,
    opcode_index, ArgTypeHint, OPCODE_COUNT,
};

verus! {

broadcast use vstd::std_specs::hash::group_hash_axioms;

/// Whether `op` has the mnemonic `name` and, when the line gives arguments, takes
/// arguments of kinds picked one from each of `lists` (the kinds each argument can be
/// read as).
pub open spec fn candidate(op: OpCode, name: Seq<char>, lists: Seq<Seq<ArgTypeHint>>) -> bool {
    mnemonic_matches(op, name) && (lists.len() == 0 || picks_from(arg_hints(op), lists))
}

/// Whether `op` is the candidate with the smallest total argument size, the first in the
/// table among those of that size.
pub open spec fn is_best(op: OpCode, name: Seq<char>, lists: Seq<Seq<ArgTypeHint>>) -> bool {
    &&& candidate(op, name, lists)
    &&& forall|o: OpCode| #[trigger]
        candidate(o, name, lists) ==> arg_size(op) < arg_size(o) || (arg_size(op) == arg_size(o)
            && opcode_index(op) <= opcode_index(o))
}

/// The operation selected for a mnemonic and the kinds of the arguments, if any is a candidate.
pub open spec fn selected(name: Seq<char>, lists: Seq<Seq<ArgTypeHint>>) -> Option<OpCode> {
    if exists|op: OpCode| is_best(op, name, lists) {
        Some(choose|op: OpCode| is_best(op, name, lists))
    } else {
        None
    }
}

/// There is at most one best candidate.
pub proof fn lemma_best_unique(a: OpCode, b: OpCode, name: Seq<char>, lists: Seq<Seq<ArgTypeHint>>)
    requires
        is_best(a, name, lists),
        is_best(b, name, lists),
    ensures
        a == b,
{
    assert(candidate(a, name, lists));
    assert(candidate(b, name, lists));
    lemma_opcode_index(a, b);
}

/// The segments of a line once the spaces around it are trimmed.
pub open spec fn line_tokens(line: Seq<char>) -> Seq<Seq<char>> {
    line_segments(trim_spaces(line))
}

/// The readings of the first `k` arguments, or the error of the first that cannot be read.
pub open spec fn classify_prefix(args: Seq<Seq<char>>, k: nat) -> Result<
    Seq<(Argument, Seq<ArgTypeHint>, bool)>,
    AsmError,
>
    decreases k,
{
    if k == 0 {
        Ok(seq![])
    } else {
        match classify_prefix(args, (k - 1) as nat) {
            Err(e) => Err(e),
            Ok(cs) => match classify_arg(args[k - 1]) {
                Err(e) => Err(e),
                Ok(c) => Ok(cs.push(c)),
            },
        }
    }
}

/// The labels met among the first `k` arguments, up to the first that cannot be read: the
/// position of each (counting the mnemonic as position 0) and its text.
pub open spec fn label_entries(args: Seq<Seq<char>>, k: nat) -> Seq<(nat, Seq<char>)>
    decreases k,
{
    if k == 0 {
        seq![]
    } else {
        let prev = label_entries(args, (k - 1) as nat);
        match classify_prefix(args, (k - 1) as nat) {
            Err(_) => prev,
            Ok(_) => match classify_arg(args[k - 1]) {
                Ok((_, _, true)) => prev.push((k, arg_body(args[k - 1]))),
                _ => prev,
            },
        }
    }
}

/// Whether a line is a label line: its first segment starts with `:`.
pub open spec fn is_label_line(t: Seq<Seq<char>>) -> bool {
    t.len() > 0 && t[0].len() > 0 && t[0][0] == ':'
}

/// What reading a line gives: an instruction, `None` for a label line (whose instruction
/// is a label with the text of the line's first segment), or the error that stops it.
#[verifier::opaque]
pub open spec fn line_outcome(line: Seq<char>) -> Result<Option<Instruction>, AsmError> {
    let t = line_tokens(line);
    if t.len() == 0 {
        Err(AsmError::EmptyLine)
    } else if is_label_line(t) {
        if t[0].len() == 1 {
            Err(AsmError::EmptyLabel)
        } else {
            Ok(None)
        }
    } else if !(exists|op: OpCode| mnemonic_matches(op, t[0])) {
        Err(AsmError::UnknownMnemonic)
    } else {
        let args = t.drop_first();
        match classify_prefix(args, args.len()) {
            Err(e) => Err(e),
            Ok(cs) => match selected(t[0], cs.map_values(|c: (Argument, Seq<ArgTypeHint>, bool)| c.1)) {
                None => Err(AsmError::NoMatchingInstruction),
                Some(op) => if args.len() == 0 && arg_hints(op).len() > 0 {
                    Err(AsmError::MissingArguments)
                } else {
                    Ok(
                        Some(
                            built_instruction(
                                op,
                                cs.map_values(|c: (Argument, Seq<ArgTypeHint>, bool)| c.0),
                            ),
                        ),
                    )
                },
            },
        }
    }
}

/// The labels that reading a line records.
#[verifier::opaque]
pub open spec fn line_labels(line: Seq<char>) -> Seq<(nat, Seq<char>)> {
    let t = line_tokens(line);
    if t.len() == 0 || is_label_line(t) || !(exists|op: OpCode| mnemonic_matches(op, t[0])) {
        seq![]
    } else {
        label_entries(t.drop_first(), (t.len() - 1) as nat)
    }
}

/// Whether `ins` is what reading `line` gives.
pub open spec fn outcome_matches(ins: Instruction, line: Seq<char>) -> bool {
    match line_outcome(line) {
        Ok(Some(i)) => ins == i,
        Ok(None) => ins matches Instruction::Label(s) && s@ == line_tokens(line)[0],
        Err(_) => false,
    }
}

/// The labels of a map from argument positions to label entries, with their texts as
/// character sequences.
pub open spec fn labels_view(m: Map<usize, (usize, String)>) -> Map<usize, (usize, Seq<char>)> {
    Map::new(|k: usize| m.dom().contains(k), |k: usize| (m[k].0, m[k].1@))
}

/// The map `m` once the label entries `es` are recorded in order: the entry at position
/// `i` maps `i` to `i - 1` (the number of arguments before it) and its text.
pub open spec fn record_labels(m: Map<usize, (usize, Seq<char>)>, es: Seq<(nat, Seq<char>)>) -> Map<
    usize,
    (usize, Seq<char>),
>
    decreases es.len(),
{
    if es.len() == 0 {
        m
    } else {
        record_labels(m, es.drop_last()).insert(
            es.last().0 as usize,
            ((es.last().0 - 1) as usize, es.last().1),
        )
    }
}

/// Whether a line is a comment line (it starts with `;`).
pub open spec fn is_comment_line(l: Seq<char>) -> bool {
    l.len() > 0 && l[0] == ';'
}

/// The lines that are read: those that are not comment lines.
pub open spec fn is_code_line() -> spec_fn(Seq<char>) -> bool {
    |l: Seq<char>| !is_comment_line(l)
}

/// The lines of a text that are read: all but comment lines.
pub open spec fn code_lines(s: Seq<char>) -> Seq<Seq<char>> {
    lines_of(s).filter(is_code_line())
}

/// Reading the first `k` lines in order, from an empty label map: the first error met
/// (if any) and the labels recorded up to and including the line that fails.
pub open spec fn parse_state(ls: Seq<Seq<char>>, k: nat) -> (Result<(), AsmError>, Map<
    usize,
    (usize, Seq<char>),
>)
    decreases k,
{
    if k == 0 {
        (Ok(()), Map::empty())
    } else {
        let (r, m) = parse_state(ls, (k - 1) as nat);
        if r is Err {
            (r, m)
        } else {
            (
                match line_outcome(ls[k - 1]) {
                    Err(e) => Err(e),
                    Ok(_) => Ok(()),
                },
                record_labels(m, line_labels(ls[k - 1])),
            )
        }
    }
}

/// Filtering a prefix gives a prefix of the filtered sequence.
proof fn lemma_filter_prefix(all: Seq<Seq<char>>, k: int)
    requires
        0 <= k <= all.len(),
    ensures
        all.take(k).filter(is_code_line()).len() <= all.filter(is_code_line()).len(),
        all.take(k).filter(is_code_line()) == all.filter(is_code_line()).take(
            all.take(k).filter(is_code_line()).len() as int,
        ),
{
    assert(all =~= all.take(k) + all.skip(k));
    Seq::filter_distributes_over_add(all.take(k), all.skip(k), is_code_line());
    let a = all.take(k).filter(is_code_line());
    assert((a + all.skip(k).filter(is_code_line())).take(a.len() as int) =~= a);
}

/// Once a line fails, the lines after it change neither the error nor the labels.
proof fn lemma_parse_state_error(ls: Seq<Seq<char>>, k: nat, j: nat)
    requires
        k <= j,
        parse_state(ls, k).0 is Err,
    ensures
        parse_state(ls, j) == parse_state(ls, k),
    decreases j - k,
{
    if k < j {
        lemma_parse_state_error(ls, k, (j - 1) as nat);
    }
}

/// Once an argument fails, the arguments after it change neither the error nor the labels.
proof fn lemma_prefix_error_stable(args: Seq<Seq<char>>, k: nat, j: nat)
    requires
        k <= j,
        classify_prefix(args, k) is Err,
    ensures
        classify_prefix(args, j) == classify_prefix(args, k),
        label_entries(args, j) == label_entries(args, k),
    decreases j - k,
{
    if k < j {
        lemma_prefix_error_stable(args, k, (j - 1) as nat);
    }
}

/// The readings of the first `k` arguments are those of each of them, in order.
proof fn lemma_classify_prefix(args: Seq<Seq<char>>, k: nat)
    requires
        classify_prefix(args, k) is Ok,
    ensures
        classify_prefix(args, k)->Ok_0.len() == k,
        forall|i: int|
            0 <= i < k ==> classify_arg(args[i]) == Ok::<(Argument, Seq<ArgTypeHint>, bool), AsmError>(
                #[trigger] classify_prefix(args, k)->Ok_0[i],
            ),
    decreases k,
{
    if k > 0 {
        lemma_classify_prefix(args, (k - 1) as nat);
    }
}

/// The operation selected for the readings `cs` of all the arguments is a selectable one,
/// and the values read fit the kinds it takes.
pub(crate) proof fn lemma_selected_fits(
    args: Seq<Seq<char>>,
    cs: Seq<(Argument, Seq<ArgTypeHint>, bool)>,
    name: Seq<char>,
    op: OpCode,
)
    requires
        classify_prefix(args, args.len()) == Ok::<Seq<(Argument, Seq<ArgTypeHint>, bool)>, AsmError>(cs),
        selected(name, cs.map_values(|c: (Argument, Seq<ArgTypeHint>, bool)| c.1)) == Some(op),
        !(args.len() == 0 && arg_hints(op).len() > 0),
    ensures
        is_selectable(op),
        args_fit(op, cs.map_values(|c: (Argument, Seq<ArgTypeHint>, bool)| c.0)),
{
    let lists = cs.map_values(|c: (Argument, Seq<ArgTypeHint>, bool)| c.1);
    let values = cs.map_values(|c: (Argument, Seq<ArgTypeHint>, bool)| c.0);
    lemma_classify_prefix(args, args.len());
    assert(is_best(op, name, lists));
    assert(mnemonics(op).contains(lower_ascii(name)));
    assert forall|i: int| 0 <= i < values.len() implies #[trigger] arg_fits(
        arg_hints(op)[i],
        values[i],
    ) by {
        assert(lists[i].contains(arg_hints(op)[i]));
        lemma_classify_fits(args[i]);
        assert(classify_arg(args[i]) == Ok::<(Argument, Seq<ArgTypeHint>, bool), AsmError>(cs[i]));
    }
}

/// A line that reads as an instruction gives the instruction built for the selected
/// operation from the arguments read, and each argument fits the kind that the operation
/// takes at its place: no value is cut down to fit a narrower field.
pub proof fn lemma_parsed_arguments_fit(line: Seq<char>)
    ensures
        line_outcome(line) matches Ok(Some(ins)) ==> exists|op: OpCode, args: Seq<Argument>|
            #![trigger built_instruction(op, args)]
            is_selectable(op) && args_fit(op, args) && ins == built_instruction(op, args),
{
    reveal(line_outcome);
    if let Ok(Some(ins)) = line_outcome(line) {
        let t = line_tokens(line);
        let args = t.drop_first();
        let cs = classify_prefix(args, args.len())->Ok_0;
        let lists = cs.map_values(|c: (Argument, Seq<ArgTypeHint>, bool)| c.1);
        let values = cs.map_values(|c: (Argument, Seq<ArgTypeHint>, bool)| c.0);
        let op = selected(t[0], lists)->Some_0;
        lemma_selected_fits(args, cs, t[0], op);
        assert(ins == built_instruction(op, values));
    }
}

/// A space added at the start of a text, or at its end, leaves its trimmed form as it was.
proof fn lemma_trim_outer_space(s: Seq<char>)
    ensures
        trim_spaces(seq![' '] + s) == trim_spaces(s),
        trim_spaces(s + seq![' ']) == trim_spaces(s),
    decreases s.len(),
{
    assert((seq![' '] + s)[0] == ' ');
    assert((seq![' '] + s).drop_first() =~= s);
    let t = s + seq![' '];
    if s.len() == 0 {
        assert(t =~= seq![' ']);
        assert(t.drop_first() =~= s);
    } else if s[0] == ' ' {
        assert(t[0] == ' ');
        assert(t.drop_first() =~= s.drop_first() + seq![' ']);
        lemma_trim_outer_space(s.drop_first());
    } else {
        assert(t[0] == s[0]);
        assert(t.last() == ' ');
        assert(t.drop_last() =~= s);
    }
}

/// Spaces around a line change neither what it reads as nor the labels it records.
pub proof fn lemma_outer_spaces_ignored(line: Seq<char>)
    ensures
        line_outcome(seq![' '] + line) == line_outcome(line),
        line_outcome(line + seq![' ']) == line_outcome(line),
        line_labels(seq![' '] + line) == line_labels(line),
        line_labels(line + seq![' ']) == line_labels(line),
        line_tokens(seq![' '] + line) == line_tokens(line),
        line_tokens(line + seq![' ']) == line_tokens(line),
{
    reveal(line_outcome);
    reveal(line_labels);
    lemma_trim_outer_space(line);
}

/// The case of the letters of a line's mnemonic changes neither what the line reads as nor
/// the labels it records, for a line that is no label line.
pub proof fn lemma_mnemonic_case_ignored(l1: Seq<char>, l2: Seq<char>)
    requires
        line_tokens(l1).len() > 0,
        !is_label_line(line_tokens(l1)),
        line_tokens(l2).len() == line_tokens(l1).len(),
        line_tokens(l2).drop_first() == line_tokens(l1).drop_first(),
        lower_ascii(line_tokens(l2)[0]) == lower_ascii(line_tokens(l1)[0]),
    ensures
        line_outcome(l1) == line_outcome(l2),
        line_labels(l1) == line_labels(l2),
{
    reveal(line_outcome);
    reveal(line_labels);
    let t1 = line_tokens(l1);
    let t2 = line_tokens(l2);
    let n1 = t1[0];
    let n2 = t2[0];
    assert(n1.len() == lower_ascii(n1).len());
    assert(n2.len() == lower_ascii(n2).len());
    if n2.len() > 0 && n2[0] == ':' {
        assert(lower_ascii(n2)[0] == ':');
        assert(lower_ascii(n1)[0] == ':');
    }
    assert(!is_label_line(t2));
    assert forall|o: OpCode| #[trigger] mnemonic_matches(o, n1) == mnemonic_matches(o, n2) by {}
    if exists|o: OpCode| mnemonic_matches(o, n1) {
        let o = choose|o: OpCode| mnemonic_matches(o, n1);
        assert(mnemonic_matches(o, n2));
    }
    if exists|o: OpCode| mnemonic_matches(o, n2) {
        let o = choose|o: OpCode| mnemonic_matches(o, n2);
        assert(mnemonic_matches(o, n1));
    }
    let args = t1.drop_first();
    assert(t2.drop_first() == args);
    match classify_prefix(args, args.len()) {
        Err(_) => {},
        Ok(cs) => {
            let lists = cs.map_values(|c: (Argument, Seq<ArgTypeHint>, bool)| c.1);
            assert forall|o: OpCode| #[trigger] candidate(o, n1, lists) == candidate(o, n2, lists) by {
                assert(mnemonic_matches(o, n1) == mnemonic_matches(o, n2));
            }
            assert forall|o: OpCode| #[trigger] is_best(o, n1, lists) implies is_best(o, n2, lists) by {
                assert(candidate(o, n1, lists) == candidate(o, n2, lists));
                assert forall|o2: OpCode| #[trigger] candidate(o2, n2, lists) implies arg_size(o)
                    < arg_size(o2) || (arg_size(o) == arg_size(o2) && opcode_index(o)
                    <= opcode_index(o2)) by {
                    assert(candidate(o2, n1, lists) == candidate(o2, n2, lists));
                }
            }
            assert forall|o: OpCode| #[trigger] is_best(o, n2, lists) implies is_best(o, n1, lists) by {
                assert(candidate(o, n1, lists) == candidate(o, n2, lists));
                assert forall|o2: OpCode| #[trigger] candidate(o2, n1, lists) implies arg_size(o)
                    < arg_size(o2) || (arg_size(o) == arg_size(o2) && opcode_index(o)
                    <= opcode_index(o2)) by {
                    assert(candidate(o2, n1, lists) == candidate(o2, n2, lists));
                }
            }
            if exists|o: OpCode| is_best(o, n1, lists) {
                let c1 = choose|o: OpCode| is_best(o, n1, lists);
                assert(is_best(c1, n2, lists));
                let c2 = choose|o: OpCode| is_best(o, n2, lists);
                lemma_best_unique(c1, c2, n2, lists);
                assert(selected(n1, lists) == selected(n2, lists));
            } else if exists|o: OpCode| is_best(o, n2, lists) {
                let c2 = choose|o: OpCode| is_best(o, n2, lists);
                assert(is_best(c2, n1, lists));
            }
            assert(selected(n1, lists) == selected(n2, lists));
        },
    }
}

/// Whether `best` is an operation that comes before `o` in the selection order: a smaller
/// total argument size, or the same size and an earlier place in the table.
pub open spec fn at_least_as_good(best: Option<OpCode>, o: OpCode) -> bool {
    match best {
        Some(b) => arg_size(b) < arg_size(o) || (arg_size(b) == arg_size(o) && opcode_index(b)
            <= opcode_index(o)),
        None => false,
    }
}

/// Whether the kinds `hs` are one of the lists in `perms`.
fn hints_in(perms: &Vec<Vec<ArgTypeHint>>, hs: &Vec<ArgTypeHint>) -> (b: bool)
    ensures
        b == hint_lists(perms@).contains(hs@),
{
    let mut i: usize = 0;
    while i < perms.len()
        invariant
            i <= perms.len(),
            forall|j: int| 0 <= j < i ==> hint_lists(perms@)[j] != hs@,
        decreases perms.len() - i,
    {
        let p = &perms[i];
        let mut same = p.len() == hs.len();
        let mut k: usize = 0;
        while same && k < p.len()
            invariant
                k <= p.len(),
                same ==> p.len() == hs.len(),
                same ==> forall|m: int| 0 <= m < k ==> p@[m] == hs@[m],
                !same ==> p@ != hs@,
            decreases p.len() - k,
        {
            if p[k] != hs[k] {
                same = false;
            }
            k = k + 1;
        }
        if same {
            assert(p@ =~= hs@);
            assert(hint_lists(perms@)[i as int] == p@);
            return true;
        }
        assert(hint_lists(perms@)[i as int] == p@);
        i = i + 1;
    }
    false
}

/// Select the operation for the mnemonic `name` and the kinds of the arguments: the
/// candidate with the smallest total argument size, the first in the table among those of
/// that size.
fn select_opcode(
    name: &[char],
    n_args: usize,
    perms: &Vec<Vec<ArgTypeHint>>,
    Ghost(lists): Ghost<Seq<Seq<ArgTypeHint>>>,
) -> (r: Option<OpCode>)
    requires
        lists.len() == n_args,
        n_args > 0 ==> hint_lists(perms@) == cartesian(lists),
    ensures
        r == selected(name@, lists),
{
    let mut best: Option<OpCode> = None;
    let mut best_size: usize = 0;
    let mut i: usize = 0;
    while i < OPCODE_COUNT
        invariant
            i <= OPCODE_COUNT,
            lists.len() == n_args,
            n_args > 0 ==> hint_lists(perms@) == cartesian(lists),
            best matches Some(b) ==> candidate(b, name@, lists) && opcode_index(b) < i
                && best_size == arg_size(b),
            forall|o: OpCode| #[trigger]
                candidate(o, name@, lists) && opcode_index(o) < i ==> at_least_as_good(best, o),
        decreases OPCODE_COUNT - i,
    {
        let op = opcode_at(i).unwrap();
        let named = has_mnemonic(op, name);
        let fits = if n_args == 0 {
            true
        } else {
            let hs = arg_hints_of(op);
            proof {
                lemma_cartesian_contains(lists, arg_hints(op));
            }
            hints_in(perms, &hs)
        };
        let size = Instruction::get_instruction_arg_size_from_op(op);
        let ghost old_best = best;
        if named && fits {
            if best.is_none() || size < best_size {
                best = Some(op);
                best_size = size;
            }
        }
        proof {
            assert(candidate(op, name@, lists) == (named && fits));
            assert forall|o: OpCode| #[trigger]
                candidate(o, name@, lists) && opcode_index(o) < i + 1 implies at_least_as_good(
                best,
                o,
            ) by {
                lemma_opcode_index(o, op);
            }
        }
        i = i + 1;
    }
    proof {
        match best {
            Some(b) => {
                assert forall|o: OpCode| #[trigger] candidate(o, name@, lists) implies arg_size(b)
                    < arg_size(o) || (arg_size(b) == arg_size(o) && opcode_index(b) <= opcode_index(
                    o,
                )) by {
                    lemma_opcode_index(o, o);
                }
                assert(is_best(b, name@, lists));
                let c = choose|op: OpCode| is_best(op, name@, lists);
                lemma_best_unique(b, c, name@, lists);
            },
            None => {
                assert forall|o: OpCode| !is_best(o, name@, lists) by {
                    lemma_opcode_index(o, o);
                }
            },
        }
    }
    best
}

/// An assembly parser: it reads assembly text into instructions, and records the labels
/// that instruction arguments refer to.
pub struct AsmParser {
    /// A vector of the parsed instructions.
    pub parsed_instructions: Vec<Instruction>,
    /// The label arguments met: the argument's position in its line maps to the number of
    /// arguments before it and the label's text.
    pub labeled_instructions: HashMap<usize, (usize, String)>,
}

impl AsmParser {
    /// A parser that has read nothing yet.
    pub fn new() -> (p: Self)
        ensures
            p.parsed_instructions@.len() == 0,
            p.labeled_instructions@ == Map::<usize, (usize, String)>::empty(),
    {
        Self { parsed_instructions: Vec::new(), labeled_instructions: HashMap::new() }
    }

    /// Whether some operation has the mnemonic `name`.
    fn is_known_mnemonic(name: &[char]) -> (b: bool)
        ensures
            b == exists|op: OpCode| mnemonic_matches(op, name@),
    {
        let mut i: usize = 0;
        while i < OPCODE_COUNT
            invariant
                i <= OPCODE_COUNT,
                forall|o: OpCode| opcode_index(o) < i ==> !mnemonic_matches(o, name@),
            decreases OPCODE_COUNT - i,
        {
            let op = opcode_at(i).unwrap();
            if has_mnemonic(op, name) {
                return true;
            }
            proof {
                assert forall|o: OpCode| opcode_index(o) < i + 1 implies !mnemonic_matches(o, name@) by {
                    lemma_opcode_index(o, op);
                }
            }
            i = i + 1;
        }
        proof {
            assert forall|o: OpCode| !mnemonic_matches(o, name@) by {
                lemma_opcode_index(o, o);
            }
        }
        false
    }

    /// Parse one line of assembly text, given as its characters.
    fn parse_line(&mut self, line: &[char]) -> (r: Result<Instruction, AsmError>)
        ensures
            final(self).parsed_instructions == old(self).parsed_instructions,
            labels_view(final(self).labeled_instructions@) == record_labels(
                labels_view(old(self).labeled_instructions@),
                line_labels(line@),
            ),
            match r {
                Ok(ins) => outcome_matches(ins, line@),
                Err(e) => line_outcome(line@) == Err::<Option<Instruction>, AsmError>(e),
            },
    {
        reveal(line_outcome);
        reveal(line_labels);
        let trimmed = trim_spaces_of(line);
        let tokens = segments_of(&trimmed);
        let ghost t = views(tokens@);
        assert(t =~= line_tokens(line@));
        if tokens.len() == 0 {
            return Err(AsmError::EmptyLine);
        }
        assert(t[0] == tokens@[0]@);
        if tokens[0].len() > 0 && tokens[0][0] == ':' {
            if tokens[0].len() == 1 {
                return Err(AsmError::EmptyLabel);
            }
            return Ok(Instruction::Label(string_from_chars(&tokens[0])));
        }
        if !AsmParser::is_known_mnemonic(&tokens[0]) {
            return Err(AsmError::UnknownMnemonic);
        }
        assert(!is_label_line(t));
        let ghost args = t.drop_first();
        let ghost old_labels = labels_view(self.labeled_instructions@);
        let mut arguments: Vec<Argument> = Vec::new();
        let mut argument_hints: Vec<Vec<ArgTypeHint>> = Vec::new();
        let ghost mut cs: Seq<(Argument, Seq<ArgTypeHint>, bool)> = seq![];
        let mut k: usize = 1;
        while k < tokens.len()
            invariant
                1 <= k <= tokens.len(),
                t == views(tokens@),
                t == line_tokens(line@),
                t.len() > 0,
                !is_label_line(t),
                exists|op: OpCode| mnemonic_matches(op, t[0]),
                args == t.drop_first(),
                classify_prefix(args, (k - 1) as nat) == Ok::<
                    Seq<(Argument, Seq<ArgTypeHint>, bool)>,
                    AsmError,
                >(cs),
                cs.len() == k - 1,
                arguments@ == cs.map_values(|c: (Argument, Seq<ArgTypeHint>, bool)| c.0),
                hint_lists(argument_hints@) == cs.map_values(
                    |c: (Argument, Seq<ArgTypeHint>, bool)| c.1,
                ),
                old_labels == labels_view(old(self).labeled_instructions@),
                labels_view(self.labeled_instructions@) == record_labels(
                    old_labels,
                    label_entries(args, (k - 1) as nat),
                ),
                self.parsed_instructions == old(self).parsed_instructions,
            decreases tokens.len() - k,
        {
            let raw = &tokens[k];
            assert(args[k - 1] == raw@);
            match classify_argument(raw) {
                Err(e) => {
                    proof {
                        assert(classify_prefix(args, k as nat) == Err::<
                            Seq<(Argument, Seq<ArgTypeHint>, bool)>,
                            AsmError,
                        >(e));
                        assert(label_entries(args, k as nat) == label_entries(args, (k - 1) as nat));
                        lemma_prefix_error_stable(args, k as nat, args.len());
                        assert(args.len() == tokens.len() - 1);
                        reveal(line_outcome);
                        reveal(line_labels);
                        assert(line_labels(line@) == label_entries(args, args.len()));
                        assert(line_outcome(line@) == Err::<Option<Instruction>, AsmError>(e));
                    }
                    return Err(e);
                },
                Ok((arg, hints, is_label)) => {
                    let ghost c = (arg, hints@, is_label);
                    if is_label {
                        let body = if raw.len() > 0 && raw[0] == '&' {
                            copy_range(raw, 1, raw.len())
                        } else {
                            copy_range(raw, 0, raw.len())
                        };
                        assert(body@ =~= arg_body(raw@));
                        let text = string_from_chars(&body);
                        let ghost before = self.labeled_instructions@;
                        self.labeled_instructions.insert(k, (arguments.len(), text));
                        assert(labels_view(self.labeled_instructions@) =~= labels_view(before).insert(
                            k,
                            ((k - 1) as usize, body@),
                        ));
                    }
                    proof {
                        let es_prev = label_entries(args, (k - 1) as nat);
                        assert(classify_arg(args[k - 1]) == Ok::<
                            (Argument, Seq<ArgTypeHint>, bool),
                            AsmError,
                        >(c));
                        if is_label {
                            let e = (k as nat, arg_body(args[k - 1]));
                            assert(label_entries(args, k as nat) == es_prev.push(e));
                            assert(es_prev.push(e).drop_last() =~= es_prev);
                            assert(record_labels(old_labels, es_prev.push(e)) == record_labels(
                                old_labels,
                                es_prev,
                            ).insert(k, ((k - 1) as usize, arg_body(args[k - 1]))));
                        } else {
                            assert(label_entries(args, k as nat) == es_prev);
                        }
                    }
                    let ghost old_hints = hint_lists(argument_hints@);
                    let ghost old_cs = cs;
                    arguments.push(arg);
                    argument_hints.push(hints);
                    proof {
                        cs = cs.push(c);
                        assert(arguments@ =~= cs.map_values(|c: (Argument, Seq<ArgTypeHint>, bool)| c.0));
                        assert(hint_lists(argument_hints@) =~= old_hints.push(c.1));
                        assert(cs.map_values(|c: (Argument, Seq<ArgTypeHint>, bool)| c.1) =~= old_cs.map_values(
                            |c: (Argument, Seq<ArgTypeHint>, bool)| c.1,
                        ).push(c.1));
                    }
                },
            }
            k = k + 1;
        }
        let ghost lists = cs.map_values(|c: (Argument, Seq<ArgTypeHint>, bool)| c.1);
        let n_args = arguments.len();
        let perms = if n_args > 0 {
            multi_cartesian_product(argument_hints)
        } else {
            Vec::new()
        };
        let chosen = select_opcode(&tokens[0], n_args, &perms, Ghost(lists));
        match chosen {
            None => Err(AsmError::NoMatchingInstruction),
            Some(op) => {
                let hs = arg_hints_of(op);
                if n_args == 0 && hs.len() > 0 {
                    return Err(AsmError::MissingArguments);
                }
                proof {
                    assert(args.len() == k - 1);
                    lemma_selected_fits(args, cs, t[0], op);
                }
                Ok(try_build_instruction(op, &arguments))
            },
        }
    }

    /// Read a code line of an assembly file, or say why it cannot be read.
    ///
    /// # Arguments
    ///
    /// * `line` - A code line to be read.
    pub fn try_parse_code_line(&mut self, line: &str) -> (r: Result<Instruction, AsmError>)
        ensures
            final(self).parsed_instructions == old(self).parsed_instructions,
            labels_view(final(self).labeled_instructions@) == record_labels(
                labels_view(old(self).labeled_instructions@),
                line_labels(line@),
            ),
            match r {
                Ok(ins) => outcome_matches(ins, line@),
                Err(e) => line_outcome(line@) == Err::<Option<Instruction>, AsmError>(e),
            },
    {
        let chars = chars_of(line);
        self.parse_line(&chars)
    }

    /// Parse a code line of an assembly file. A line that cannot be read (one that
    /// `try_parse_code_line` refuses) is left out.
    ///
    /// # Arguments
    ///
    /// * `line` - A code line to be parsed.
    ///
    /// # Returns
    ///
    /// The parsed [`Instruction`].
    pub fn parse_code_line(&mut self, line: &str) -> (ins: Instruction)
        requires
            line_outcome(line@) is Ok,
        ensures
            final(self).parsed_instructions == old(self).parsed_instructions,
            labels_view(final(self).labeled_instructions@) == record_labels(
                labels_view(old(self).labeled_instructions@),
                line_labels(line@),
            ),
            outcome_matches(ins, line@),
    {
        match self.try_parse_code_line(line) {
            Ok(ins) => ins,
            Err(_) => Instruction::Nop,
        }
    }

    /// Try to parse a u8 immediate value, written in binary (`0b`), octal (`0o`),
    /// hexadecimal (`0x`) or decimal.
    ///
    /// # Arguments
    ///
    /// * `string` - A string that may contain the value.
    pub fn try_parse_u8_immediate(string: &str) -> (r: Result<u8, ParseIntError>)
        ensures
            match r {
                Ok(v) => immediate_value(string@, 255) == Ok::<nat, ParseIntError>(v as nat),
                Err(e) => immediate_value(string@, 255) == Err::<nat, ParseIntError>(e),
            },
    {
        let chars = chars_of(string);
        match parse_immediate_chars(&chars, 255) {
            Ok(v) => {
                proof {
                    crate::immediates::lemma_immediate_bound(chars@, 255);
                }
                Ok(v as u8)
            },
            Err(e) => Err(e),
        }
    }

    /// Try to parse a u32 immediate value, written in binary (`0b`), octal (`0o`),
    /// hexadecimal (`0x`) or decimal.
    ///
    /// # Arguments
    ///
    /// * `string` - A string that may contain the value.
    pub fn try_parse_u32_immediate(string: &str) -> (r: Result<u32, ParseIntError>)
        ensures
            match r {
                Ok(v) => immediate_value(string@, 4294967295) == Ok::<nat, ParseIntError>(v as nat),
                Err(e) => immediate_value(string@, 4294967295) == Err::<nat, ParseIntError>(e),
            },
    {
        let chars = chars_of(string);
        parse_immediate_chars(&chars, 4294967295)
    }

    /// Try to parse an instruction line into its segments.
    ///
    /// # Arguments
    ///
    /// * `line` - A string slice giving the line to be parsed.
    pub fn parse_instruction_line(line: &str) -> (segments: Vec<String>)
        ensures
            segments@.map_values(|s: String| s@) =~= line_segments(line@),
    {
        let chars = chars_of(line);
        let words = segments_of(&chars);
        let mut segments: Vec<String> = Vec::new();
        let mut i: usize = 0;
        while i < words.len()
            invariant
                i <= words.len(),
                views(words@) =~= line_segments(line@),
                segments@.map_values(|s: String| s@) =~= views(words@).take(i as int),
            decreases words.len() - i,
        {
            let s = string_from_chars(&words[i]);
            let ghost before = segments@.map_values(|s: String| s@);
            segments.push(s);
            assert(views(words@)[i as int] == words@[i as int]@);
            assert(segments@.map_values(|s: String| s@) =~= before.push(words@[i as int]@));
            assert(views(words@).take(i as int + 1) =~= views(words@).take(i as int).push(
                words@[i as int]@,
            ));
            i = i + 1;
        }
        segments
    }

    /// Read an assembly file: every line but the comment lines (those starting with `;`),
    /// in order, or say which error stops the reading. The label map is cleared first; on
    /// success the parsed instructions are replaced by those of the lines, and on failure
    /// they are left as they were.
    ///
    /// # Arguments
    ///
    /// * `string` - The string to be read.
    pub fn try_parse(&mut self, string: &str) -> (r: Result<(), AsmError>)
        ensures
            r == parse_state(code_lines(string@), code_lines(string@).len()).0,
            labels_view(final(self).labeled_instructions@) == parse_state(
                code_lines(string@),
                code_lines(string@).len(),
            ).1,
            r is Ok ==> final(self).parsed_instructions@.len() == code_lines(string@).len() && (
            forall|j: int|
                0 <= j < code_lines(string@).len() ==> #[trigger] outcome_matches(
                    final(self).parsed_instructions@[j],
                    code_lines(string@)[j],
                )),
            r is Err ==> final(self).parsed_instructions == old(self).parsed_instructions,
    {
        let chars = chars_of(string);
        let lines = lines_in(&chars);
        let ghost all = views(lines@);
        let ghost ls = code_lines(string@);
        // Clear the list of label instruction hints.
        self.labeled_instructions = HashMap::with_capacity(lines.len());
        let mut instructions: Vec<Instruction> = Vec::new();
        let mut i: usize = 0;
        let ghost mut done: nat = 0;
        assert(all.take(0).filter(is_code_line()) =~= Seq::<Seq<char>>::empty());
        assert(labels_view(self.labeled_instructions@) =~= Map::<usize, (usize, Seq<char>)>::empty());
        while i < lines.len()
            invariant
                i <= lines.len(),
                all == views(lines@),
                all == lines_of(string@),
                ls == code_lines(string@),
                all.take(i as int).filter(is_code_line()) == ls.take(done as int),
                done <= ls.len(),
                instructions@.len() == done,
                parse_state(ls, done).0 is Ok,
                labels_view(self.labeled_instructions@) == parse_state(ls, done).1,
                forall|j: int| 0 <= j < done ==> #[trigger] outcome_matches(instructions@[j], ls[j]),
                self.parsed_instructions == old(self).parsed_instructions,
            decreases lines.len() - i,
        {
            let line = &lines[i];
            assert(all[i as int] == line@);
            assert(all.take(i + 1) =~= all.take(i as int).push(line@));
            proof {
                all.take(i as int).lemma_filter_push(line@, is_code_line());
            }
            if !(line.len() > 0 && line[0] == ';') {
                proof {
                    lemma_filter_prefix(all, i as int + 1);
                    let f = all.take(i as int + 1).filter(is_code_line());
                    assert(f == ls.take(done as int).push(line@));
                    assert(f.len() == done + 1);
                    assert(f == ls.take(done as int + 1));
                    assert(f[done as int] == line@);
                    assert(ls[done as int] == line@);
                }
                let r = self.parse_line(line);
                match r {
                    Err(e) => {
                        proof {
                            assert(parse_state(ls, (done + 1) as nat).0 == Err::<(), AsmError>(e));
                            lemma_parse_state_error(ls, (done + 1) as nat, ls.len());
                        }
                        return Err(e);
                    },
                    Ok(ins) => {
                        instructions.push(ins);
                        proof {
                            done = done + 1;
                        }
                    },
                }
            }
            i = i + 1;
        }
        assert(all.take(lines.len() as int) =~= all);
        assert(ls.take(done as int) == ls);
        self.parsed_instructions = instructions;
        Ok(())
    }

    /// Parse an assembly file: every line but the comment lines (those starting with `;`),
    /// in order. The label map is cleared first, and the parsed instructions are replaced by
    /// those of the lines. A text with a line that cannot be read (one that `try_parse`
    /// refuses) is left out.
    ///
    /// # Arguments
    ///
    /// * `string` - The string to be parsed.
    pub fn parse(&mut self, string: &str)
        requires
            parse_state(code_lines(string@), code_lines(string@).len()).0 is Ok,
        ensures
            labels_view(final(self).labeled_instructions@) == parse_state(
                code_lines(string@),
                code_lines(string@).len(),
            ).1,
            final(self).parsed_instructions@.len() == code_lines(string@).len(),
            forall|j: int|
                0 <= j < code_lines(string@).len() ==> #[trigger] outcome_matches(
                    final(self).parsed_instructions@[j],
                    code_lines(string@)[j],
                ),
    {
        let _ = self.try_parse(string);
    }
}

impl Default for AsmParser {
    fn default() -> (p: Self)
        ensures
            p.parsed_instructions@.len() == 0,
            p.labeled_instructions@ == Map::<usize, (usize, String)>::empty(),
    {
        Self::new()
    }
}

} // verus!
