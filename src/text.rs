//! Character-level predicates on text fields, and the conversions between
//! `String` and sequences of characters that the checks run on.

use vstd::prelude::*;

verus! {

/// The characters of `s`, in order.
pub(crate) fn chars_of(s: &str) -> (r: Vec<char>)
    ensures
        r@ == s@,
{
    broadcast use vstd::string::axiom_spec_iter;

    let mut v: Vec<char> = Vec::new();
    for c in it: s.chars()
        invariant
            v.len() == it.index(),
            forall|i: int| 0 <= i < v.len() ==> v@[i] == it.seq()[i],
            it.seq() == s@,
    {
        v.push(c);
    }
    assert(v@ =~= s@);
    v
}

/// The decimal digits of `n`, most significant first, with no sign or
/// leading zeros ("0" for zero).
pub open spec fn decimal(n: nat) -> Seq<char>
    decreases n,
{
    let d = (n % 10) as u32;
    let digit = (48 + d) as char;
    if n < 10 {
        seq![digit]
    } else {
        decimal(n / 10).push(digit)
    }
}

/// The one-character text of a decimal digit.
fn digit_str(d: u64) -> (r: &'static str)
    requires
        d < 10,
    ensures
        r@ == seq![((48 + d) as u32) as char],
{
    proof {
        reveal_strlit("0");
        reveal_strlit("1");
        reveal_strlit("2");
        reveal_strlit("3");
        reveal_strlit("4");
        reveal_strlit("5");
        reveal_strlit("6");
        reveal_strlit("7");
        reveal_strlit("8");
        reveal_strlit("9");
    }
    if d == 0 {
        "0"
    } else if d == 1 {
        "1"
    } else if d == 2 {
        "2"
    } else if d == 3 {
        "3"
    } else if d == 4 {
        "4"
    } else if d == 5 {
        "5"
    } else if d == 6 {
        "6"
    } else if d == 7 {
        "7"
    } else if d == 8 {
        "8"
    } else {
        "9"
    }
}

/// Append the decimal digits of `n` to `s`.
pub(crate) fn append_decimal(s: &mut String, n: u64)
    ensures
        final(s)@ == old(s)@ + decimal(n as nat),
    decreases n,
{
    if n >= 10 {
        append_decimal(s, n / 10);
    }
    s.append(digit_str(n % 10));
    proof {
        assert(decimal(n as nat) == (if n < 10 {
            seq![((48 + (n % 10) as u32) as u32) as char]
        } else {
            decimal((n / 10) as nat).push(((48 + (n % 10) as u32) as u32) as char)
        }));
    }
    assert(s@ =~= old(s)@ + decimal(n as nat));
}

/// The Unicode `White_Space` property, which `char::is_whitespace` and
/// `str::trim` follow.
pub open spec fn is_white_space(c: char) -> bool {
    let u = c as u32;
    (0x9 <= u && u <= 0xD) || u == 0x20 || u == 0x85 || u == 0xA0 || u == 0x1680 || (0x2000 <= u
        && u <= 0x200A) || u == 0x2028 || u == 0x2029 || u == 0x202F || u == 0x205F || u == 0x3000
}

/// Text that is empty once surrounding white space is trimmed.
pub open spec fn is_blank(s: Seq<char>) -> bool {
    forall|i: int| 0 <= i < s.len() ==> is_white_space(#[trigger] s[i])
}

pub open spec fn is_digit(c: char) -> bool {
    '0' <= c && c <= '9'
}

pub open spec fn is_upper(c: char) -> bool {
    'A' <= c && c <= 'Z'
}

/// Every character in `s[from..to]` is an ASCII digit.
pub open spec fn all_digits(s: Seq<char>, from: int, to: int) -> bool {
    forall|i: int| from <= i < to ==> is_digit(#[trigger] s[i])
}

/// Exactly `n` ASCII digits.
pub open spec fn is_digits_of_len(s: Seq<char>, n: nat) -> bool {
    s.len() == n && all_digits(s, 0, n as int)
}

/// A national provider identifier: exactly ten digits.
pub open spec fn is_npi(s: Seq<char>) -> bool {
    is_digits_of_len(s, 10)
}

/// An employer identification number: `NN-NNNNNNN`.
pub open spec fn is_ein(s: Seq<char>) -> bool {
    s.len() == 10 && s[2] == '-' && all_digits(s, 0, 2) && all_digits(s, 3, 10)
}

/// A zip code: `NNNNN` or `NNNNN-NNNN`.
pub open spec fn is_zip(s: Seq<char>) -> bool {
    is_digits_of_len(s, 5) || (s.len() == 10 && s[5] == '-' && all_digits(s, 0, 5) && all_digits(
        s,
        6,
        10,
    ))
}

/// The value of a string of decimal digits.
pub open spec fn digits_value(s: Seq<char>) -> int
    decreases s.len(),
{
    if s.len() == 0 {
        0
    } else {
        digits_value(s.drop_last()) * 10 + (s.last() as int - '0' as int)
    }
}

/// What `u32`'s `from_str` accepts: an optional `+`, then one or more
/// decimal digits whose value fits in a `u32`.
pub open spec fn u32_text(s: Seq<char>) -> Option<u32> {
    let body = if s.len() > 0 && s[0] == '+' { s.drop_first() } else { s };
    if body.len() > 0 && all_digits(body, 0, body.len() as int) && digits_value(body) <= u32::MAX {
        Some(digits_value(body) as u32)
    } else {
        None
    }
}

proof fn lemma_digits_value_prefix(s: Seq<char>, i: int)
    requires
        0 <= i <= s.len(),
        all_digits(s, 0, s.len() as int),
    ensures
        0 <= digits_value(s.subrange(0, i)) <= digits_value(s),
    decreases s.len() - i,
{
    if i < s.len() {
        lemma_digits_value_prefix(s, i + 1);
        let p = s.subrange(0, i + 1);
        assert(p.drop_last() =~= s.subrange(0, i));
        assert(is_digit(s[i]));
    } else {
        assert(s.subrange(0, i) =~= s);
    }
    lemma_digits_value_nonneg(s.subrange(0, i));
}

proof fn lemma_digits_value_nonneg(s: Seq<char>)
    requires
        all_digits(s, 0, s.len() as int),
    ensures
        digits_value(s) >= 0,
    decreases s.len(),
{
    if s.len() > 0 {
        assert(is_digit(s[s.len() - 1]));
        lemma_digits_value_nonneg(s.drop_last());
    }
}

/// Parse a `u32` as `u32::from_str` does: an optional `+`, then one or
/// more decimal digits whose value fits.
pub fn parse_u32(s: &str) -> (r: Option<u32>)
    ensures
        r == u32_text(s@),
{
    let cs = chars_of(s);
    let start: usize = if cs.len() > 0 && cs[0] == '+' { 1 } else { 0 };
    let ghost body = if s@.len() > 0 && s@[0] == '+' { s@.drop_first() } else { s@ };
    proof {
        assert(body =~= cs@.subrange(start as int, cs@.len() as int));
    }
    if start == cs.len() {
        return None;
    }
    let mut acc: u64 = 0;
    let mut i: usize = start;
    while i < cs.len()
        invariant
            start <= i <= cs.len(),
            body == cs@.subrange(start as int, cs@.len() as int),
            body == (if s@.len() > 0 && s@[0] == '+' { s@.drop_first() } else { s@ }),
            body.len() > 0,
            cs@ == s@,
            all_digits(body, 0, i - start),
            acc == digits_value(body.subrange(0, i - start)),
            acc <= u32::MAX,
        decreases cs.len() - i,
    {
        let c = cs[i];
        if !('0' <= c && c <= '9') {
            proof {
                assert(body[i - start] == c);
                assert(!is_digit(body[i - start]));
                assert(!all_digits(body, 0, body.len() as int));
            }
            return None;
        }
        let d = (c as u32 - '0' as u32) as u64;
        proof {
            let p = body.subrange(0, i - start + 1);
            assert(p.drop_last() =~= body.subrange(0, i - start));
            assert(p.last() == c);
            assert(digits_value(p) == digits_value(body.subrange(0, i - start)) * 10 + d);
        }
        acc = acc * 10 + d;
        if acc > u32::MAX as u64 {
            proof {
                if all_digits(body, 0, body.len() as int) {
                    lemma_digits_value_prefix(body, i - start + 1);
                    assert(digits_value(body) > u32::MAX);
                }
            }
            return None;
        }
        i = i + 1;
    }
    proof {
        assert(body.subrange(0, body.len() as int) =~= body);
    }
    Some(acc as u32)
}

/// A currency code: exactly three ASCII upper-case letters.
pub open spec fn is_currency_code(s: Seq<char>) -> bool {
    s.len() == 3 && is_upper(s[0]) && is_upper(s[1]) && is_upper(s[2])
}

/// Whether `c` is white space.
pub fn white_space(c: char) -> (r: bool)
    ensures
        r == is_white_space(c),
{
    let u = c as u32;
    (0x9 <= u && u <= 0xD) || u == 0x20 || u == 0x85 || u == 0xA0 || u == 0x1680 || (0x2000 <= u
        && u <= 0x200A) || u == 0x2028 || u == 0x2029 || u == 0x202F || u == 0x205F || u == 0x3000
}

/// Whether `s` is empty once trimmed of white space.
pub fn blank(s: &str) -> (r: bool)
    ensures
        r == is_blank(s@),
{
    let cs = chars_of(s);
    let mut i: usize = 0;
    while i < cs.len()
        invariant
            cs@ == s@,
            i <= cs.len(),
            forall|k: int| 0 <= k < i ==> is_white_space(#[trigger] cs@[k]),
        decreases cs.len() - i,
    {
        if !white_space(cs[i]) {
            return false;
        }
        i = i + 1;
    }
    true
}

/// Whether `cs[from..to]` holds only ASCII digits.
fn digits_between(cs: &Vec<char>, from: usize, to: usize) -> (r: bool)
    requires
        from <= to <= cs.len(),
    ensures
        r == all_digits(cs@, from as int, to as int),
{
    let mut i: usize = from;
    while i < to
        invariant
            from <= i <= to <= cs.len(),
            all_digits(cs@, from as int, i as int),
        decreases to - i,
    {
        if !('0' <= cs[i] && cs[i] <= '9') {
            return false;
        }
        i = i + 1;
    }
    true
}

/// Whether `s` is a ten-digit provider identifier.
pub fn npi_format(s: &str) -> (r: bool)
    ensures
        r == is_npi(s@),
{
    let cs = chars_of(s);
    cs.len() == 10 && digits_between(&cs, 0, 10)
}

/// Whether `s` has the form `NN-NNNNNNN`.
pub fn ein_format(s: &str) -> (r: bool)
    ensures
        r == is_ein(s@),
{
    let cs = chars_of(s);
    cs.len() == 10 && cs[2] == '-' && digits_between(&cs, 0, 2) && digits_between(&cs, 3, 10)
}

/// Whether `s` has the form `NNNNN` or `NNNNN-NNNN`.
pub fn zip_format(s: &str) -> (r: bool)
    ensures
        r == is_zip(s@),
{
    let cs = chars_of(s);
    (cs.len() == 5 && digits_between(&cs, 0, 5)) || (cs.len() == 10 && cs[5] == '-'
        && digits_between(&cs, 0, 5) && digits_between(&cs, 6, 10))
}

/// Whether `s` is three ASCII upper-case letters.
pub fn currency_format(s: &str) -> (r: bool)
    ensures
        r == is_currency_code(s@),
{
    let cs = chars_of(s);
    cs.len() == 3 && 'A' <= cs[0] && cs[0] <= 'Z' && 'A' <= cs[1] && cs[1] <= 'Z' && 'A' <= cs[2]
        && cs[2] <= 'Z'
}

} // verus!
