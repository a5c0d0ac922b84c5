//! Text handling: decimal numbers and placeholder substitution.

use vstd::prelude::*;
use vstd::string::*;

verus! {

/// Whether `c` is one of the ten decimal digits.
pub open spec fn is_digit(c: char) -> bool {
    '0' <= c && c <= '9'
}

/// The number a decimal digit stands for.
pub open spec fn digit_value(c: char) -> nat {
    (c as int - '0' as int) as nat
}

/// Whether every character of `s` is a decimal digit.
pub open spec fn all_digits(s: Seq<char>) -> bool {
    forall|i: int| 0 <= i < s.len() ==> is_digit(#[trigger] s[i])
}

/// The number that a run of decimal digits denotes, most significant first.
pub open spec fn digits_value(s: Seq<char>) -> nat
    decreases s.len(),
{
    if s.len() == 0 {
        0
    } else {
        digits_value(s.drop_last()) * 10 + digit_value(s.last())
    }
}

fn digit_of(c: char) -> (d: Option<u64>)
    ensures
        is_digit(c) ==> d == Some(digit_value(c) as u64),
        !is_digit(c) ==> d is None,
{
    if c >= '0' && c <= '9' {
        Some((c as u64) - ('0' as u64))
    } else {
        None
    }
}

/// What remains of `s` once one leading plus sign, if there is one, is taken off.
pub open spec fn unsigned_body(s: Seq<char>) -> Seq<char> {
    if s.len() > 0 && s[0] == '+' {
        s.subrange(1, s.len() as int)
    } else {
        s
    }
}

/// The value of `s` read as an unsigned decimal number: an optional plus
/// sign, then at least one digit and nothing else, and a value that fits in
/// 64 bits. Any other text has no value.
pub open spec fn parsed_u64(s: Seq<char>) -> Option<u64> {
    let body = unsigned_body(s);
    if body.len() > 0 && all_digits(body) && digits_value(body) <= u64::MAX {
        Some(digits_value(body) as u64)
    } else {
        None
    }
}

/// A run of digits denotes at least as much as any of its prefixes.
proof fn lemma_digits_value_prefix(s: Seq<char>, k: int)
    requires
        0 <= k <= s.len(),
    ensures
        digits_value(s.subrange(0, k)) <= digits_value(s),
    decreases s.len(),
{
    if k == s.len() {
        assert(s.subrange(0, k) =~= s);
    } else {
        lemma_digits_value_prefix(s.drop_last(), k);
        assert(s.drop_last().subrange(0, k) =~= s.subrange(0, k));
    }
}

/// Reads `s` as an unsigned decimal number.
pub fn parse_u64(s: &str) -> (r: Option<u64>)
    ensures
        r == parsed_u64(s@),
{
    let total: usize = s.unicode_len();
    let start: usize = if total > 0 && s.get_char(0) == '+' {
        1
    } else {
        0
    };
    let ghost body = unsigned_body(s@);
    assert(body =~= s@.subrange(start as int, total as int));
    if start == total {
        return None;
    }
    let mut acc: u64 = 0;
    let mut i: usize = start;
    assert(body.subrange(0, 0) =~= Seq::<char>::empty());
    while i < total
        invariant
            start <= i <= total,
            total == s@.len(),
            body == unsigned_body(s@),
            body.len() == total - start,
            body =~= s@.subrange(start as int, total as int),
            all_digits(body.subrange(0, i - start)),
            acc as nat == digits_value(body.subrange(0, i - start)),
        decreases total - i,
    {
        let c = s.get_char(i);
        let ghost k = i - start;
        assert(body[k] == c);
        assert(body.subrange(0, k + 1).drop_last() =~= body.subrange(0, k));
        assert(body.subrange(0, k + 1).last() == c);
        match digit_of(c) {
            None => {
                assert(!is_digit(body[k]));
                return None;
            },
            Some(d) => {
                if acc > (u64::MAX - d) / 10 {
                    proof {
                        assert(digits_value(body.subrange(0, k + 1)) == acc * 10 + d);
                        lemma_digits_value_prefix(body, k + 1);
                    }
                    return None;
                }
                acc = acc * 10 + d;
                assert forall|j: int| 0 <= j < k + 1 implies is_digit(
                    #[trigger] body.subrange(0, k + 1)[j],
                ) by {
                    if j < k {
                        assert(body.subrange(0, k)[j] == body.subrange(0, k + 1)[j]);
                    }
                }
            },
        }
        i = i + 1;
    }
    assert(body.subrange(0, i - start) =~= body);
    Some(acc)
}

/// The character that writes the digit `d`.
pub open spec fn digit_char(d: nat) -> char {
    ('0' as int + d) as char
}

/// The digits of `n` in base ten, most significant first, without leading
/// zeros; zero is written as one digit.
pub open spec fn decimal_digits(n: nat) -> Seq<char>
    decreases n,
{
    if n < 10 {
        seq![digit_char(n)]
    } else {
        decimal_digits(n / 10).push(digit_char(n % 10))
    }
}

/// The decimal text of `n`: its digits, after a minus sign where `n` is
/// negative.
pub open spec fn decimal_text(n: int) -> Seq<char> {
    if n < 0 {
        seq!['-'] + decimal_digits((-n) as nat)
    } else {
        decimal_digits(n as nat)
    }
}

fn digit_str(d: u64) -> (s: &'static str)
    requires
        d < 10,
    ensures
        s@ == seq![digit_char(d as nat)],
{
    proof {
        reveal_strlit("0");
        reveal_strlit("1");
        reveal_strlit("2");
        reveal_strlit("3");
        reveal_strlit("4");
        reveal_strlit("5");
        reveal_strlit("6");
        reveal_strlit("7");
        reveal_strlit("8");
        reveal_strlit("9");
    }
    let s = if d == 0 {
        "0"
    } else if d == 1 {
        "1"
    } else if d == 2 {
        "2"
    } else if d == 3 {
        "3"
    } else if d == 4 {
        "4"
    } else if d == 5 {
        "5"
    } else if d == 6 {
        "6"
    } else if d == 7 {
        "7"
    } else if d == 8 {
        "8"
    } else {
        "9"
    };
    assert(s@ =~= seq![digit_char(d as nat)]);
    s
}

/// Appends the decimal digits of `n` to `out`.
pub fn append_unsigned(out: &mut String, n: u64)
    ensures
        final(out)@ == old(out)@ + decimal_digits(n as nat),
    decreases n,
{
    if n >= 10 {
        append_unsigned(out, n / 10);
    }
    out.append(digit_str(n % 10));
    assert(out@ =~= old(out)@ + decimal_digits(n as nat));
}

/// Appends the decimal text of `n` to `out`.
pub fn append_signed(out: &mut String, n: i64)
    ensures
        final(out)@ == old(out)@ + decimal_text(n as int),
{
    if n < 0 {
        proof {
            reveal_strlit("-");
        }
        out.append("-");
        let magnitude: u64 = ((-(n + 1)) as u64) + 1;
        append_unsigned(out, magnitude);
        assert(out@ =~= old(out)@ + decimal_text(n as int));
    } else {
        append_unsigned(out, n as u64);
    }
}

/// The digits written for a number are digits, at least one of them, and
/// they denote that number.
pub proof fn lemma_decimal_digits_value(n: nat)
    ensures
        decimal_digits(n).len() > 0,
        all_digits(decimal_digits(n)),
        digits_value(decimal_digits(n)) == n,
    decreases n,
{
    if n < 10 {
        let s = decimal_digits(n);
        assert(s.drop_last() =~= Seq::<char>::empty());
        assert(digits_value(s.drop_last()) == 0);
    } else {
        lemma_decimal_digits_value(n / 10);
        let head = decimal_digits(n / 10);
        let s = decimal_digits(n);
        assert(s.drop_last() =~= head);
        assert(s.last() == digit_char(n % 10));
        assert forall|i: int| 0 <= i < s.len() implies is_digit(#[trigger] s[i]) by {
            if i < head.len() {
                assert(s[i] == head[i]);
            }
        }
    }
}

/// Reading what was written gives the number back: the decimal text of a
/// 64-bit number parses to that number.
pub proof fn lemma_parse_reads_decimal(n: u64)
    ensures
        parsed_u64(decimal_digits(n as nat)) == Some(n),
{
    lemma_decimal_digits_value(n as nat);
    let s = decimal_digits(n as nat);
    assert(is_digit(s[0]));
    assert(unsigned_body(s) == s);
}

/// Whether the two characters of `s` from position `i` on are the
/// placeholder, an opening brace and a closing one.
pub open spec fn placeholder_at(s: Seq<char>, i: int) -> bool {
    0 <= i && i + 1 < s.len() && s[i] == '{' && s[i + 1] == '}'
}

/// `pattern` with `name` in place of every placeholder, read from the left;
/// all other characters stay as they are.
pub open spec fn substitute(pattern: Seq<char>, name: Seq<char>) -> Seq<char>
    decreases pattern.len(),
{
    if pattern.len() == 0 {
        pattern
    } else if placeholder_at(pattern, 0) {
        name + substitute(pattern.subrange(2, pattern.len() as int), name)
    } else {
        seq![pattern[0]] + substitute(pattern.subrange(1, pattern.len() as int), name)
    }
}

/// Puts `name` in place of every placeholder of `pattern`.
pub fn fill_placeholder(pattern: &str, name: &str) -> (out: String)
    ensures
        out@ == substitute(pattern@, name@),
{
    let total: usize = pattern.unicode_len();
    let mut out = String::new();
    let mut i: usize = 0;
    assert(pattern@.subrange(0, total as int) =~= pattern@);
    while i < total
        invariant
            i <= total,
            total == pattern@.len(),
            out@ + substitute(pattern@.subrange(i as int, total as int), name@) == substitute(
                pattern@,
                name@,
            ),
        decreases total - i,
    {
        let ghost rest = pattern@.subrange(i as int, total as int);
        let ghost before = out@;
        let c = pattern.get_char(i);
        if c == '{' && i + 1 < total && pattern.get_char(i + 1) == '}' {
            out.append(name);
            i = i + 2;
            proof {
                assert(placeholder_at(rest, 0));
                assert(rest.subrange(2, rest.len() as int) =~= pattern@.subrange(
                    i as int,
                    total as int,
                ));
                assert(out@ + substitute(pattern@.subrange(i as int, total as int), name@)
                    =~= before + substitute(rest, name@));
            }
        } else {
            out.append(pattern.substring_char(i, i + 1));
            i = i + 1;
            proof {
                assert(!placeholder_at(rest, 0));
                assert(rest.subrange(1, rest.len() as int) =~= pattern@.subrange(
                    i as int,
                    total as int,
                ));
                assert(pattern@.subrange(i - 1, i as int) =~= seq![rest[0]]);
                assert(out@ + substitute(pattern@.subrange(i as int, total as int), name@)
                    =~= before + substitute(rest, name@));
            }
        }
    }
    assert(pattern@.subrange(total as int, total as int) =~= Seq::<char>::empty());
    assert(out@ + Seq::<char>::empty() =~= out@);
    out
}

} // verus!
