//! Reading unsigned integer immediates from assembly text.
//!
//! An immediate is written in binary (`0b` prefix), octal (`0o`), hexadecimal (`0x`)
//! or decimal (no prefix). After the prefix the text is read as `from_str_radix` reads
//! it: an optional `+` sign followed by one or more digits of the radix, upper- or
//! lower-case letters alike; the first offending character, read from the left, decides
//! the error.
use vstd::prelude::*;

verus! {

/// Why a text is not an unsigned integer of the expected width.
#[derive(Clone, Copy, Debug, PartialEq, Eq, Structural)]
pub enum ParseIntError {
    /// The text (after any radix prefix) is empty.
    Empty,
    /// The text holds a character that is not a digit of the radix.
    InvalidDigit,
    /// The value does not fit in the integer type.
    PosOverflow,
}

/// The value of `c` as a digit of `radix` (at most 36), if it is one.
pub open spec fn digit_value(c: char, radix: nat) -> Option<nat> {
    let d: int = if '0' <= c <= '9' {
        c as int - '0' as int
    } else if 'a' <= c <= 'z' {
        c as int - 'a' as int + 10
    } else if 'A' <= c <= 'Z' {
        c as int - 'A' as int + 10
    } else {
        radix as int
    };
    if d < radix {
        Some(d as nat)
    } else {
        None
    }
}

/// Reading the digits `ds` from the left onto the value `acc` already read, where no value
/// may exceed `max`.
pub open spec fn read_digits(ds: Seq<char>, radix: nat, max: nat, acc: nat) -> Result<
    nat,
    ParseIntError,
>
    decreases ds.len(),
{
    if ds.len() == 0 {
        Ok(acc)
    } else {
        match digit_value(ds[0], radix) {
            None => Err(ParseIntError::InvalidDigit),
            Some(d) => if acc * radix + d > max {
                Err(ParseIntError::PosOverflow)
            } else {
                read_digits(ds.drop_first(), radix, max, acc * radix + d)
            },
        }
    }
}

/// What `from_str_radix` gives for the text `s` in `radix`, for an unsigned type whose
/// largest value is `max`.
pub open spec fn from_str_radix(s: Seq<char>, radix: nat, max: nat) -> Result<nat, ParseIntError> {
    if s.len() == 0 {
        Err(ParseIntError::Empty)
    } else if s =~= seq!['+'] {
        Err(ParseIntError::InvalidDigit)
    } else if s[0] == '+' {
        read_digits(s.drop_first(), radix, max, 0)
    } else {
        read_digits(s, radix, max, 0)
    }
}

/// Whether `s` starts with `0` followed by `c`.
pub open spec fn has_prefix(s: Seq<char>, c: char) -> bool {
    s.len() >= 2 && s[0] == '0' && s[1] == c
}

/// The value of the immediate written as `s`, for an unsigned type whose largest value is `max`.
pub open spec fn immediate_value(s: Seq<char>, max: nat) -> Result<nat, ParseIntError> {
    if has_prefix(s, 'b') {
        from_str_radix(s.skip(2), 2, max)
    } else if has_prefix(s, 'o') {
        from_str_radix(s.skip(2), 8, max)
    } else if has_prefix(s, 'x') {
        from_str_radix(s.skip(2), 16, max)
    } else {
        from_str_radix(s, 10, max)
    }
}

/// A value read by `read_digits` never exceeds the bound, nor falls below the start.
pub proof fn lemma_read_digits_bound(ds: Seq<char>, radix: nat, max: nat, acc: nat)
    requires
        acc <= max,
    ensures
        read_digits(ds, radix, max, acc) matches Ok(v) ==> v <= max,
    decreases ds.len(),
{
    if ds.len() > 0 {
        if let Some(d) = digit_value(ds[0], radix) {
            if acc * radix + d <= max {
                lemma_read_digits_bound(ds.drop_first(), radix, max, acc * radix + d);
            }
        }
    }
}

/// Digits that read within a bound also read, to the same value, within any larger bound.
pub proof fn lemma_read_digits_wider(ds: Seq<char>, radix: nat, max: nat, wider: nat, acc: nat)
    requires
        max <= wider,
        read_digits(ds, radix, max, acc) is Ok,
    ensures
        read_digits(ds, radix, wider, acc) == read_digits(ds, radix, max, acc),
    decreases ds.len(),
{
    if ds.len() > 0 {
        let d = digit_value(ds[0], radix)->Some_0;
        lemma_read_digits_wider(ds.drop_first(), radix, max, wider, acc * radix + d);
    }
}

/// An immediate that fits a bound fits, with the same value, any larger bound.
pub proof fn lemma_immediate_wider(s: Seq<char>, max: nat, wider: nat)
    requires
        max <= wider,
        immediate_value(s, max) is Ok,
    ensures
        immediate_value(s, wider) == immediate_value(s, max),
{
    let (t, radix) = if has_prefix(s, 'b') {
        (s.skip(2), 2nat)
    } else if has_prefix(s, 'o') {
        (s.skip(2), 8nat)
    } else if has_prefix(s, 'x') {
        (s.skip(2), 16nat)
    } else {
        (s, 10nat)
    };
    if t.len() > 0 && !(t =~= seq!['+']) {
        if t[0] == '+' {
            lemma_read_digits_wider(t.drop_first(), radix, max, wider, 0);
        } else {
            lemma_read_digits_wider(t, radix, max, wider, 0);
        }
    }
}

/// The value of an immediate never exceeds its bound.
pub proof fn lemma_immediate_bound(s: Seq<char>, max: nat)
    ensures
        immediate_value(s, max) matches Ok(v) ==> v <= max,
{
    let (t, radix) = if has_prefix(s, 'b') {
        (s.skip(2), 2nat)
    } else if has_prefix(s, 'o') {
        (s.skip(2), 8nat)
    } else if has_prefix(s, 'x') {
        (s.skip(2), 16nat)
    } else {
        (s, 10nat)
    };
    lemma_read_digits_bound(t, radix, max, 0);
    if t.len() > 0 {
        lemma_read_digits_bound(t.drop_first(), radix, max, 0);
    }
}

/// An immediate starts with a decimal digit or a `+` sign.
pub proof fn lemma_immediate_first_char(s: Seq<char>, max: nat)
    requires
        immediate_value(s, max) is Ok,
    ensures
        s.len() > 0,
        '0' <= s[0] <= '9' || s[0] == '+',
{
    if !has_prefix(s, 'b') && !has_prefix(s, 'o') && !has_prefix(s, 'x') {
        assert(s.len() > 0);
        if s[0] != '+' {
            assert(digit_value(s[0], 10) is Some);
        }
    }
}

/// The value of `c` as a digit of `radix`.
fn digit(c: char, radix: u32) -> (d: Option<u32>)
    requires
        2 <= radix <= 36,
    ensures
        match d {
            Some(v) => digit_value(c, radix as nat) == Some(v as nat),
            None => digit_value(c, radix as nat) is None,
        },
{
    let v: u32 = if '0' <= c && c <= '9' {
        (c as u32) - ('0' as u32)
    } else if 'a' <= c && c <= 'z' {
        (c as u32) - ('a' as u32) + 10
    } else if 'A' <= c && c <= 'Z' {
        (c as u32) - ('A' as u32) + 10
    } else {
        radix
    };
    if v < radix {
        Some(v)
    } else {
        None
    }
}

/// Read the characters `s[start..]` as an unsigned integer in `radix` whose largest value is `max`.
pub fn from_str_radix_chars(s: &[char], start: usize, radix: u32, max: u32) -> (r: Result<
    u32,
    ParseIntError,
>)
    requires
        start <= s.len(),
        2 <= radix <= 16,
    ensures
        match r {
            Ok(v) => from_str_radix(s@.skip(start as int), radix as nat, max as nat) == Ok::<
                nat,
                ParseIntError,
            >(v as nat),
            Err(e) => from_str_radix(s@.skip(start as int), radix as nat, max as nat) == Err::<
                nat,
                ParseIntError,
            >(e),
        },
{
    let ghost t = s@.skip(start as int);
    if start == s.len() {
        return Err(ParseIntError::Empty);
    }
    let mut i = start;
    if s[start] == '+' {
        if start + 1 == s.len() {
            assert(t =~= seq!['+']);
            return Err(ParseIntError::InvalidDigit);
        }
        i = start + 1;
        assert(t.drop_first() =~= s@.skip(i as int));
    } else {
        assert(!(t =~= seq!['+'])) by {
            assert(t[0] == s@[start as int]);
        }
    }
    let ghost ds = s@.skip(i as int);
    assert(from_str_radix(t, radix as nat, max as nat) == read_digits(ds, radix as nat, max as nat, 0));
    let mut acc: u64 = 0;
    while i < s.len()
        invariant
            start <= i <= s.len(),
            2 <= radix <= 16,
            acc <= max,
            from_str_radix(s@.skip(start as int), radix as nat, max as nat) == read_digits(
                ds,
                radix as nat,
                max as nat,
                0,
            ),
            read_digits(ds, radix as nat, max as nat, 0) == read_digits(
                s@.skip(i as int),
                radix as nat,
                max as nat,
                acc as nat,
            ),
        decreases s.len() - i,
    {
        let ghost rest = s@.skip(i as int);
        assert(rest[0] == s@[i as int]);
        assert(rest.drop_first() =~= s@.skip(i + 1));
        match digit(s[i], radix) {
            None => {
                return Err(ParseIntError::InvalidDigit);
            },
            Some(d) => {
                assert(acc * (radix as u64) <= (u32::MAX as u64) * 16) by (nonlinear_arith)
                    requires
                        acc <= u32::MAX,
                        radix <= 16,
                ;
                let next = acc * (radix as u64) + (d as u64);
                if next > max as u64 {
                    return Err(ParseIntError::PosOverflow);
                }
                acc = next;
            },
        }
        i = i + 1;
    }
    assert(s@.skip(i as int).len() == 0);
    Ok(acc as u32)
}

/// Read the characters `s` as an immediate (with its radix prefix) whose largest value is `max`.
pub fn parse_immediate_chars(s: &[char], max: u32) -> (r: Result<u32, ParseIntError>)
    ensures
        match r {
            Ok(v) => immediate_value(s@, max as nat) == Ok::<nat, ParseIntError>(v as nat),
            Err(e) => immediate_value(s@, max as nat) == Err::<nat, ParseIntError>(e),
        },
{
    assert(s@.skip(0) =~= s@);
    if s.len() >= 2 && s[0] == '0' && s[1] == 'b' {
        from_str_radix_chars(s, 2, 2, max)
    } else if s.len() >= 2 && s[0] == '0' && s[1] == 'o' {
        from_str_radix_chars(s, 2, 8, max)
    } else if s.len() >= 2 && s[0] == '0' && s[1] == 'x' {
        from_str_radix_chars(s, 2, 16, max)
    } else {
        from_str_radix_chars(s, 0, 10, max)
    }
}

} // verus!
