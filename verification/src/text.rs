//! Splitting assembly text into lines and a line into its segments.
use vstd::prelude::*;

use itertools::Itertools;

verus! {

/// The characters of `s`, collected with `Itertools::collect_vec`.
/// Claimed: the vector holds the characters of `s` in order (the string's view), which is
/// what `str::chars` yields and what `collect_vec` gathers into a vector.
#[verifier::external_body]
pub(crate) fn chars_of(s: &str) -> (v: Vec<char>)
    ensures
        v@ == s@,
{
    s.chars().collect_vec()
}

/// A `String` made of the characters `v`, collected with `FromIterator<&char> for String`.
/// Claimed: the string's characters are those of `v`, in order.
#[verifier::external_body]
pub(crate) fn string_from_chars(v: &[char]) -> (s: String)
    ensures
        s@ == v@,
{
    v.iter().collect()
}

/// The first position of `c` in `s`, or the length of `s` when `c` does not occur.
pub open spec fn position_of(s: Seq<char>, c: char) -> nat
    decreases s.len(),
{
    if s.len() == 0 {
        0
    } else if s[0] == c {
        0
    } else {
        1 + position_of(s.drop_first(), c)
    }
}

/// `s` without one carriage return at its end.
pub open spec fn strip_carriage_return(s: Seq<char>) -> Seq<char> {
    if s.len() > 0 && s.last() == '\r' {
        s.drop_last()
    } else {
        s
    }
}

/// The lines of `s` as `str::lines` gives them: split at each `\n`, a `\r` just before the
/// `\n` dropped, and no empty line after a final `\n`.
pub open spec fn lines_of(s: Seq<char>) -> Seq<Seq<char>>
    decreases s.len(),
{
    if s.len() == 0 {
        seq![]
    } else {
        let j = position_of(s, '\n');
        if j == s.len() {
            seq![s]
        } else {
            proof {
                lemma_position_of(s, '\n');
            }
            seq![strip_carriage_return(s.take(j as int))] + lines_of(s.skip(j as int + 1))
        }
    }
}

/// `s` without the spaces at its start and at its end (`str::trim_matches(' ')`).
pub open spec fn trim_spaces(s: Seq<char>) -> Seq<char>
    decreases s.len(),
{
    if s.len() == 0 {
        s
    } else if s[0] == ' ' {
        trim_spaces(s.drop_first())
    } else if s.last() == ' ' {
        trim_spaces(s.drop_last())
    } else {
        s
    }
}

/// The characters that end a segment of an instruction line.
pub open spec fn is_arg_separator(c: char) -> bool {
    c == ' ' || c == ','
}

/// The segments `w` of the text `before`, once the character `c` (not a separator) is added:
/// `c` extends the last segment when `before` ends inside one, and starts a new one otherwise.
pub open spec fn add_char(w: Seq<Seq<char>>, before: Seq<char>, c: char) -> Seq<Seq<char>> {
    if before.len() > 0 && !is_arg_separator(before.last()) {
        w.drop_last().push(w.last().push(c))
    } else {
        w.push(seq![c])
    }
}

/// The maximal non-empty runs of `s` that hold no separator, in order.
pub open spec fn words(s: Seq<char>) -> Seq<Seq<char>>
    decreases s.len(),
{
    if s.len() == 0 {
        seq![]
    } else if is_arg_separator(s.last()) {
        words(s.drop_last())
    } else {
        add_char(words(s.drop_last()), s.drop_last(), s.last())
    }
}

/// The segments of an instruction line: a `;` before the last character starts a comment
/// that is dropped, and the rest is split into words; the last character of the line always
/// belongs to the last segment, even when it is a separator or a `;`.
pub open spec fn line_segments(s: Seq<char>) -> Seq<Seq<char>> {
    let k = position_of(s, ';');
    if s.len() > 0 && k < s.len() - 1 {
        words(s.take(k as int))
    } else if s.len() == 0 {
        seq![]
    } else {
        add_char(words(s.drop_last()), s.drop_last(), s.last())
    }
}

/// The character sequences held by a sequence of character vectors.
pub open spec fn views(w: Seq<Vec<char>>) -> Seq<Seq<char>> {
    w.map_values(|x: Vec<char>| x@)
}

/// `position_of` finds the first occurrence.
pub proof fn lemma_position_of(s: Seq<char>, c: char)
    ensures
        position_of(s, c) <= s.len(),
        forall|i: int| 0 <= i < position_of(s, c) ==> s[i] != c,
        position_of(s, c) < s.len() ==> s[position_of(s, c) as int] == c,
    decreases s.len(),
{
    if s.len() > 0 && s[0] != c {
        lemma_position_of(s.drop_first(), c);
        assert forall|i: int| 0 <= i < position_of(s, c) implies s[i] != c by {
            if i > 0 {
                assert(s[i] == s.drop_first()[i - 1]);
            }
        }
    }
}

/// The first occurrence is where `position_of` says.
pub proof fn lemma_position_of_at(s: Seq<char>, c: char, k: int)
    requires
        0 <= k <= s.len(),
        forall|i: int| 0 <= i < k ==> s[i] != c,
        k < s.len() ==> s[k] == c,
    ensures
        position_of(s, c) == k,
    decreases s.len(),
{
    if s.len() > 0 && k > 0 {
        assert forall|i: int| 0 <= i < k - 1 implies s.drop_first()[i] != c by {
            assert(s.drop_first()[i] == s[i + 1]);
        }
        lemma_position_of_at(s.drop_first(), c, k - 1);
    }
}

/// A comment after the code of a line leaves the line's segments as the words of the code:
/// what follows the first `;` is dropped, so long as the `;` is not the line's last
/// character. When the code ends inside a word, those are the segments of the code alone.
pub proof fn lemma_comment_ignored(code: Seq<char>, comment: Seq<char>)
    requires
        !code.contains(';'),
        comment.len() > 0,
    ensures
        line_segments(code + seq![';'] + comment) == words(code),
        code.len() == 0 || !is_arg_separator(code.last()) ==> line_segments(code) == words(code),
{
    let s = code + seq![';'] + comment;
    assert forall|i: int| 0 <= i < code.len() implies s[i] != ';' by {
        assert(s[i] == code[i]);
        if code[i] == ';' {
            assert(code.contains(';'));
        }
    }
    assert(s[code.len() as int] == ';');
    lemma_position_of_at(s, ';', code.len() as int);
    assert(s.take(code.len() as int) =~= code);
    assert forall|i: int| 0 <= i < code.len() implies code[i] != ';' by {
        if code[i] == ';' {
            assert(code.contains(';'));
        }
    }
    lemma_position_of_at(code, ';', code.len() as int);
}

/// The words of `s[..end]`.
fn words_upto(s: &[char], end: usize) -> (w: Vec<Vec<char>>)
    requires
        end <= s.len(),
    ensures
        views(w@) =~= words(s@.take(end as int)),
{
    let mut w: Vec<Vec<char>> = Vec::new();
    let mut i: usize = 0;
    assert(s@.take(0) =~= Seq::<char>::empty());
    while i < end
        invariant
            i <= end <= s.len(),
            views(w@) =~= words(s@.take(i as int)),
        decreases end - i,
    {
        let c = s[i];
        let ghost before = s@.take(i as int);
        assert(s@.take(i + 1).drop_last() =~= before);
        assert(s@.take(i + 1).last() == c);
        if c == ' ' || c == ',' {
        } else if i > 0 && s[i - 1] != ' ' && s[i - 1] != ',' {
            assert(before.last() == s@[i - 1]);
            assert(words(before) == add_char(words(before.drop_last()), before.drop_last(), before.last()));
            assert(views(w@).len() > 0);
            let ghost old_w = views(w@);
            let mut last = w.pop().unwrap();
            last.push(c);
            w.push(last);
            assert(views(w@) =~= old_w.drop_last().push(old_w.last().push(c)));
        } else {
            let ghost old_w = views(w@);
            let mut fresh: Vec<char> = Vec::new();
            fresh.push(c);
            w.push(fresh);
            assert(views(w@) =~= old_w.push(seq![c]));
        }
        i = i + 1;
    }
    w
}

/// The segments of the line `s`.
pub fn segments_of(s: &[char]) -> (w: Vec<Vec<char>>)
    ensures
        views(w@) =~= line_segments(s@),
{
    let mut k: usize = 0;
    while k < s.len() && s[k] != ';'
        invariant
            k <= s.len(),
            forall|i: int| 0 <= i < k ==> s@[i] != ';',
        decreases s.len() - k,
    {
        k = k + 1;
    }
    proof {
        lemma_position_of_at(s@, ';', k as int);
    }
    if s.len() > 0 && k < s.len() - 1 {
        return words_upto(s, k);
    }
    if s.len() == 0 {
        return Vec::new();
    }
    let n = s.len();
    let mut w = words_upto(s, n - 1);
    let c = s[n - 1];
    assert(s@.take(n - 1) =~= s@.drop_last());
    if n >= 2 && s[n - 2] != ' ' && s[n - 2] != ',' {
        let ghost before = s@.drop_last();
        assert(before.last() == s@[n - 2]);
        assert(words(before) == add_char(
            words(before.drop_last()),
            before.drop_last(),
            before.last(),
        ));
        let ghost old_w = views(w@);
        let mut last = w.pop().unwrap();
        last.push(c);
        w.push(last);
        assert(views(w@) =~= old_w.drop_last().push(old_w.last().push(c)));
    } else {
        let ghost old_w = views(w@);
        let mut fresh: Vec<char> = Vec::new();
        fresh.push(c);
        w.push(fresh);
        assert(views(w@) =~= old_w.push(seq![c]));
    }
    w
}

/// A copy of `s[from..to]`.
pub fn copy_range(s: &[char], from: usize, to: usize) -> (v: Vec<char>)
    requires
        from <= to <= s.len(),
    ensures
        v@ =~= s@.subrange(from as int, to as int),
{
    let mut v: Vec<char> = Vec::new();
    let mut i = from;
    while i < to
        invariant
            from <= i <= to <= s.len(),
            v@ =~= s@.subrange(from as int, i as int),
        decreases to - i,
    {
        v.push(s[i]);
        i = i + 1;
    }
    v
}

/// `s` without its leading and trailing spaces.
pub fn trim_spaces_of(s: &[char]) -> (v: Vec<char>)
    ensures
        v@ =~= trim_spaces(s@),
{
    let mut a: usize = 0;
    let mut b: usize = s.len();
    assert(s@.subrange(0, s@.len() as int) =~= s@);
    loop
        invariant
            a <= b <= s.len(),
            trim_spaces(s@) == trim_spaces(s@.subrange(a as int, b as int)),
        ensures
            a <= b <= s.len(),
            trim_spaces(s@) == s@.subrange(a as int, b as int),
        decreases b - a,
    {
        let ghost t = s@.subrange(a as int, b as int);
        if a < b && s[a] == ' ' {
            assert(t.drop_first() =~= s@.subrange(a + 1, b as int));
            a = a + 1;
        } else if a < b && s[b - 1] == ' ' {
            assert(t.drop_last() =~= s@.subrange(a as int, b - 1));
            b = b - 1;
        } else {
            if a < b {
                assert(t[0] == s@[a as int]);
                assert(t.last() == s@[b - 1]);
            }
            assert(trim_spaces(t) == t);
            break;
        }
    }
    copy_range(s, a, b)
}

/// The lines of `s`.
pub fn lines_in(s: &[char]) -> (lines: Vec<Vec<char>>)
    ensures
        views(lines@) =~= lines_of(s@),
{
    let mut lines: Vec<Vec<char>> = Vec::new();
    let mut start: usize = 0;
    assert(s@.skip(0) =~= s@);
    while start < s.len()
        invariant
            start <= s.len(),
            lines_of(s@) =~= views(lines@) + lines_of(s@.skip(start as int)),
        decreases s.len() - start,
    {
        let ghost rest = s@.skip(start as int);
        let mut j = start;
        while j < s.len() && s[j] != '\n'
            invariant
                start <= j <= s.len(),
                forall|i: int| start <= i < j ==> s@[i] != '\n',
            decreases s.len() - j,
        {
            j = j + 1;
        }
        proof {
            assert forall|i: int| 0 <= i < j - start implies rest[i] != '\n' by {
                assert(rest[i] == s@[start + i]);
            }
            lemma_position_of_at(rest, '\n', j - start);
        }
        let ghost old_lines = views(lines@);
        if j == s.len() {
            let line = copy_range(s, start, j);
            assert(line@ =~= rest);
            lines.push(line);
            assert(views(lines@) =~= old_lines.push(rest));
            assert(s@.skip(j as int) =~= Seq::<char>::empty());
            start = j;
        } else {
            let mut line = copy_range(s, start, j);
            assert(line@ =~= rest.take(j - start));
            if j > start && s[j - 1] == '\r' {
                line.pop();
            }
            assert(line@ =~= strip_carriage_return(rest.take(j - start)));
            lines.push(line);
            assert(views(lines@) =~= old_lines.push(strip_carriage_return(rest.take(j - start))));
            assert(rest.skip(j - start + 1) =~= s@.skip(j + 1));
            start = j + 1;
        }
    }
    assert(s@.skip(start as int) =~= Seq::<char>::empty());
    lines
}

} // verus!
