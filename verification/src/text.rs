//! Text helpers shared by the converters.

use vstd::prelude::*;
use vstd::std_specs::iter::IteratorSpec;
use vstd::string::StrSliceExecFns;
use vstd::string::StringExecFns;

verus! {

/// Number of leading characters of `s` that remain once every NUL at its end
/// is dropped.
pub open spec fn trimmed_len(s: Seq<char>) -> nat
    decreases s.len(),
{
    if s.len() == 0 {
        0
    } else if s.last() != '\0' {
        s.len()
    } else {
        trimmed_len(s.drop_last())
    }
}

/// `s` without the NUL characters at its end.
pub open spec fn without_trailing_nul(s: Seq<char>) -> Seq<char> {
    s.take(trimmed_len(s) as int)
}

/// What is kept is a prefix that does not end in NUL, and all that is dropped
/// is NUL.
pub proof fn lemma_trimmed_len(s: Seq<char>)
    ensures
        trimmed_len(s) <= s.len(),
        trimmed_len(s) > 0 ==> s[trimmed_len(s) - 1] != '\0',
        forall|i: int| trimmed_len(s) <= i < s.len() ==> s[i] == '\0',
    decreases s.len(),
{
    if s.len() > 0 && s.last() == '\0' {
        let front = s.drop_last();
        lemma_trimmed_len(front);
        assert(trimmed_len(s) > 0 ==> s[trimmed_len(s) - 1] == front[trimmed_len(front) - 1]);
        assert forall|i: int| trimmed_len(s) <= i < s.len() implies s[i] == '\0' by {
            if i < front.len() {
                assert(s[i] == front[i]);
            }
        }
    }
}

/// Copies `text` without the NUL characters at its end.
pub fn trim_trailing_nul(text: &str) -> (trimmed: String)
    ensures
        trimmed@ == without_trailing_nul(text@),
{
    broadcast use vstd::string::group_string_axioms;

    let total = text.unicode_len();
    let mut chars = text.chars();
    let mut seen: usize = 0;
    let mut keep: usize = 0;
    while seen < total
        invariant
            total == text@.len(),
            seen <= total,
            keep <= seen,
            chars.remaining() == text@.skip(seen as int),
            keep == trimmed_len(text@.take(seen as int)),
        decreases total - seen,
    {
        let next = chars.next();
        proof {
            assert(text@.take(seen as int + 1).drop_last() == text@.take(seen as int));
        }
        seen = seen + 1;
        if let Some(c) = next {
            if c != '\0' {
                keep = seen;
            }
        }
    }
    proof {
        assert(text@.take(total as int) == text@);
    }
    text.substring_char(0, keep).to_owned()
}

/// Index of the first blank of `s`, or the length of `s` where it has none.
pub open spec fn first_blank(s: Seq<char>) -> nat
    decreases s.len(),
{
    if s.len() == 0 || s[0] == ' ' {
        0
    } else {
        1 + first_blank(s.drop_first())
    }
}

/// The leading token of a command line: what stands before its first blank.
pub open spec fn command_token(line: Seq<char>) -> Seq<char> {
    line.take(first_blank(line) as int)
}

/// The remainder of a command line: what follows its first blank, or nothing
/// where it has no blank.
pub open spec fn command_rest(line: Seq<char>) -> Seq<char> {
    if first_blank(line) < line.len() {
        line.skip(first_blank(line) as int + 1)
    } else {
        Seq::empty()
    }
}

/// `first_blank` points at the first blank, and nowhere else.
pub proof fn lemma_first_blank(s: Seq<char>)
    ensures
        first_blank(s) <= s.len(),
        forall|i: int| 0 <= i < first_blank(s) ==> s[i] != ' ',
        first_blank(s) < s.len() ==> s[first_blank(s) as int] == ' ',
    decreases s.len(),
{
    if s.len() == 0 || s[0] == ' ' {
    } else {
        let tail = s.drop_first();
        lemma_first_blank(tail);
        assert forall|i: int| 0 <= i < first_blank(s) implies s[i] != ' ' by {
            if i > 0 {
                assert(s[i] == tail[i - 1]);
            }
        }
        assert(first_blank(s) < s.len() ==> s[first_blank(s) as int] == tail[first_blank(tail)
            as int]);
    }
}

/// A command line is its token, then, where it has a blank, that blank and
/// its remainder; the token holds no blank.
pub proof fn lemma_command_parts(line: Seq<char>)
    ensures
        !command_token(line).contains(' '),
        line.contains(' ') ==> line == command_token(line).push(' ') + command_rest(line),
        !line.contains(' ') ==> command_token(line) == line && command_rest(line).len() == 0,
{
    lemma_first_blank(line);
    let k = first_blank(line) as int;
    let token = command_token(line);
    if token.contains(' ') {
        let i = choose|i: int| 0 <= i < token.len() && token[i] == ' ';
        assert(line[i] == ' ');
    }
    if k < line.len() {
        assert(line =~= token.push(' ') + command_rest(line));
    } else {
        assert(token =~= line);
        if line.contains(' ') {
            let i = choose|i: int| 0 <= i < line.len() && line[i] == ' ';
            assert(line[i] == ' ');
        }
    }
}

/// Splits a command line at its first blank into token and remainder.
pub fn split_command(line: &str) -> (parts: (String, String))
    ensures
        parts.0@ == command_token(line@),
        parts.1@ == command_rest(line@),
{
    broadcast use vstd::string::group_string_axioms;

    let total = line.unicode_len();
    let mut chars = line.chars();
    let mut seen: usize = 0;
    let mut found = false;
    proof {
        assert(line@.skip(0) == line@);
    }
    while seen < total && !found
        invariant
            total == line@.len(),
            seen <= total,
            !found ==> chars.remaining() == line@.skip(seen as int),
            first_blank(line@) == seen + first_blank(line@.skip(seen as int)),
            found ==> seen < total && line@[seen as int] == ' ',
        decreases total - seen, if found { 0int } else { 1int },
    {
        let next = chars.next();
        proof {
            assert(line@.skip(seen as int).drop_first() == line@.skip(seen as int + 1));
        }
        match next {
            Some(c) => {
                if c == ' ' {
                    found = true;
                } else {
                    seen = seen + 1;
                }
            },
            None => {},
        }
    }
    let token = line.substring_char(0, seen).to_owned();
    if found {
        let rest = line.substring_char(seen + 1, total).to_owned();
        proof {
            assert(line@.subrange(seen as int + 1, total as int) == line@.skip(seen as int + 1));
        }
        (token, rest)
    } else {
        (token, String::new())
    }
}

/// The character of a decimal digit.
pub open spec fn digit_char(digit: nat) -> char {
    if digit == 0 {
        '0'
    } else if digit == 1 {
        '1'
    } else if digit == 2 {
        '2'
    } else if digit == 3 {
        '3'
    } else if digit == 4 {
        '4'
    } else if digit == 5 {
        '5'
    } else if digit == 6 {
        '6'
    } else if digit == 7 {
        '7'
    } else if digit == 8 {
        '8'
    } else {
        '9'
    }
}

/// The decimal digits of a natural number, most significant first.
pub open spec fn decimal_digits(n: nat) -> Seq<char>
    decreases n,
{
    if n < 10 {
        seq![digit_char(n)]
    } else {
        decimal_digits(n / 10).push(digit_char(n % 10))
    }
}

/// An integer in decimal, with a minus sign where it is negative.
pub open spec fn decimal_text(n: int) -> Seq<char> {
    if n < 0 {
        seq!['-'] + decimal_digits((-n) as nat)
    } else {
        decimal_digits(n as nat)
    }
}

fn digit_str(digit: u64) -> (s: &'static str)
    requires
        digit < 10,
    ensures
        s@ == seq![digit_char(digit as nat)],
{
    proof {
        reveal_strlit("0");
        reveal_strlit("1");
        reveal_strlit("2");
        reveal_strlit("3");
        reveal_strlit("4");
        reveal_strlit("5");
        reveal_strlit("6");
        reveal_strlit("7");
        reveal_strlit("8");
        reveal_strlit("9");
    }
    let s = match digit {
        0 => "0",
        1 => "1",
        2 => "2",
        3 => "3",
        4 => "4",
        5 => "5",
        6 => "6",
        7 => "7",
        8 => "8",
        _ => "9",
    };
    assert(s@ =~= seq![digit_char(digit as nat)]);
    s
}

/// Appends the decimal digits of `n` to `out`.
pub fn push_decimal_digits(out: &mut String, n: u64)
    ensures
        final(out)@ == old(out)@ + decimal_digits(n as nat),
    decreases n,
{
    if n >= 10 {
        push_decimal_digits(out, n / 10);
    }
    out.append(digit_str(n % 10));
    assert(final(out)@ =~= old(out)@ + decimal_digits(n as nat));
}

/// Appends `n` in decimal to `out`.
pub fn push_decimal(out: &mut String, n: i64)
    ensures
        final(out)@ == old(out)@ + decimal_text(n as int),
{
    if n < 0 {
        proof {
            reveal_strlit("-");
        }
        out.append("-");
        let magnitude: u64 = if n == i64::MIN {
            0x8000_0000_0000_0000
        } else {
            (-n) as u64
        };
        push_decimal_digits(out, magnitude);
        assert(final(out)@ =~= old(out)@ + decimal_text(n as int));
    } else {
        push_decimal_digits(out, n as u64);
    }
}

/// A 32-bit integer in decimal.
pub open spec fn i32_text(n: i32) -> Seq<char> {
    decimal_text(n as int)
}

/// Appends a 32-bit integer in decimal to `out`.
pub fn push_i32(out: &mut String, n: i32)
    ensures
        final(out)@ == old(out)@ + i32_text(n),
{
    push_decimal(out, n as i64)
}

} // verus!
