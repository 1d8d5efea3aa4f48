//! Verified parsing of the launcher's command-line values: signed decimal
//! integers, and comma-separated lists of them.
//!
//! `spec_parse_i32` and `spec_parse_i32_list` say exactly which strings are
//! accepted and what value they denote; the executable parsers are proved to
//! return precisely that.

use vstd::prelude::*;
use vstd::string::*;

verus! {

/// A decimal digit.
pub open spec fn is_digit(c: char) -> bool {
    '0' <= c && c <= '9'
}

/// The numeric value of one decimal digit.
pub open spec fn digit_value(c: char) -> int {
    c as int - '0' as int
}

pub open spec fn all_digits(s: Seq<char>) -> bool {
    forall|i: int| 0 <= i < s.len() ==> is_digit(#[trigger] s[i])
}

/// The value denoted by a digit string, most significant digit first.
pub open spec fn digits_value(s: Seq<char>) -> int
    decreases s.len(),
{
    if s.len() == 0 {
        0
    } else {
        digits_value(s.drop_last()) * 10 + digit_value(s.last())
    }
}

/// Which strings parse as an `i32`, and to what value: an optional sign,
/// then at least one decimal digit and nothing else, denoting a value within
/// the type's range. (Leading zeros are accepted.)
pub open spec fn spec_parse_i32(s: Seq<char>) -> Option<i32> {
    let signed = s.len() > 0 && (s[0] == '-' || s[0] == '+');
    let ds = if signed {
        s.drop_first()
    } else {
        s
    };
    if ds.len() > 0 && all_digits(ds) {
        let v = if s.len() > 0 && s[0] == '-' {
            -digits_value(ds)
        } else {
            digits_value(ds)
        };
        if i32::MIN <= v <= i32::MAX {
            Some(v as i32)
        } else {
            None
        }
    } else {
        None
    }
}

proof fn lemma_digits_value_nonneg(s: Seq<char>)
    requires
        all_digits(s),
    ensures
        digits_value(s) >= 0,
    decreases s.len(),
{
    if s.len() > 0 {
        assert(all_digits(s.drop_last())) by {
            assert(forall|i: int|
                0 <= i < s.drop_last().len() ==> #[trigger] s.drop_last()[i] == s[i]);
        }
        lemma_digits_value_nonneg(s.drop_last());
    }
}

/// A digit string denotes at least as much as any of its prefixes.
proof fn lemma_digits_value_prefix_le(s: Seq<char>, m: int)
    requires
        all_digits(s),
        0 <= m <= s.len(),
    ensures
        digits_value(s.subrange(0, m)) <= digits_value(s),
    decreases s.len(),
{
    if m == s.len() {
        assert(s.subrange(0, m) =~= s);
    } else {
        let head = s.drop_last();
        assert(all_digits(head)) by {
            assert(forall|i: int| 0 <= i < head.len() ==> #[trigger] head[i] == s[i]);
        }
        assert(s.subrange(0, m) =~= head.subrange(0, m));
        lemma_digits_value_prefix_le(head, m);
        lemma_digits_value_nonneg(head);
        assert(digits_value(head) * 10 >= digits_value(head)) by (nonlinear_arith)
            requires digits_value(head) >= 0;
        assert(digit_value(s.last()) >= 0);
    }
}

/// Parses a signed decimal `i32`, accepting exactly the strings that
/// `spec_parse_i32` accepts and returning exactly the value it denotes.
pub fn parse_i32(s: &str) -> (r: Option<i32>)
    ensures
        r == spec_parse_i32(s@),
{
    let n = s.unicode_len();
    let mut idx: usize = 0;
    if n > 0 {
        let c0 = s.get_char(0);
        if c0 == '-' || c0 == '+' {
            idx = 1;
        }
    }
    let ghost ds = if idx == 1 {
        s@.drop_first()
    } else {
        s@
    };
    if idx >= n {
        // Empty input, or a bare sign: no digits.
        assert(ds.len() == 0);
        return None;
    }
    let mut acc: u64 = 0;
    let mut i: usize = idx;
    while i < n
        invariant
            idx <= i <= n,
            idx <= 1,
            n == s@.len(),
            idx == 1 ==> n >= 1 && (s@[0] == '-' || s@[0] == '+'),
            idx == 0 ==> n == 0 || !(s@[0] == '-' || s@[0] == '+'),
            ds == (if idx == 1 { s@.drop_first() } else { s@ }),
            ds =~= s@.subrange(idx as int, n as int),
            all_digits(s@.subrange(idx as int, i as int)),
            acc == digits_value(s@.subrange(idx as int, i as int)),
            acc <= 0x8000_0000,
        decreases n - i,
    {
        let c = s.get_char(i);
        if !(c >= '0' && c <= '9') {
            // A non-digit makes the whole string invalid.
            assert(!is_digit(ds[i - idx]));
            return None;
        }
        let d: u32 = (c as u32) - ('0' as u32);
        proof {
            let pre = s@.subrange(idx as int, i as int);
            let cur = s@.subrange(idx as int, i + 1 as int);
            assert(cur.drop_last() =~= pre);
            assert(cur.last() == s@[i as int]);
        }
        acc = acc * 10 + (d as u64);
        i = i + 1;
        if acc > 0x8000_0000 {
            // Too large in either sign: every continuation is at least as
            // large, so the string is out of range whatever follows.
            proof {
                let pre = s@.subrange(idx as int, i as int);
                if ds.len() > 0 && all_digits(ds) {
                    assert(pre =~= ds.subrange(0, i - idx));
                    lemma_digits_value_prefix_le(ds, i - idx);
                }
            }
            return None;
        }
    }
    assert(s@.subrange(idx as int, n as int) =~= ds);
    assert(acc == digits_value(ds));
    assert(ds.len() > 0);
    if idx == 1 && s.get_char(0) == '-' {
        if acc == 0x8000_0000 {
            Some(i32::MIN)
        } else {
            Some(-(acc as i32))
        }
    } else {
        if acc > 0x7FFF_FFFF {
            None
        } else {
            Some(acc as i32)
        }
    }
}

/// The index of the first comma in `s`, or `s.len()` if there is none.
pub open spec fn first_comma(s: Seq<char>) -> int
    decreases s.len(),
{
    if s.len() == 0 {
        0
    } else if s[0] == ',' {
        0
    } else {
        1 + first_comma(s.drop_first())
    }
}

proof fn lemma_first_comma_bounds(s: Seq<char>)
    ensures
        0 <= first_comma(s) <= s.len(),
        first_comma(s) < s.len() ==> s[first_comma(s)] == ',',
        forall|i: int| 0 <= i < first_comma(s) ==> s[i] != ',',
    decreases s.len(),
{
    if s.len() > 0 && s[0] != ',' {
        lemma_first_comma_bounds(s.drop_first());
        assert forall|i: int| 0 <= i < first_comma(s) implies s[i] != ',' by {
            if i > 0 {
                assert(s.drop_first()[i - 1] == s[i]);
            }
        }
    }
}

/// `first_comma` is the unique index that is a comma preceded by no comma,
/// or the length when no comma occurs at all.
proof fn lemma_first_comma_is(s: Seq<char>, c: int)
    requires
        0 <= c <= s.len(),
        c < s.len() ==> s[c] == ',',
        forall|i: int| 0 <= i < c ==> s[i] != ',',
    ensures
        first_comma(s) == c,
    decreases s.len(),
{
    if c == 0 {
        if s.len() > 0 {
            assert(s[0] == ',');
        }
    } else {
        assert(s[0] != ',');
        let rest = s.drop_first();
        assert(forall|i: int| 0 <= i < rest.len() ==> #[trigger] rest[i] == s[i + 1]);
        lemma_first_comma_is(rest, c - 1);
    }
}

/// Which strings parse as a comma-separated list of `i32`s, and to what
/// values: the string is cut at every comma, and each piece (all of them,
/// including empty ones) must itself parse as an `i32`.
pub open spec fn spec_parse_i32_list(s: Seq<char>) -> Option<Seq<i32>>
    decreases s.len(),
    via spec_parse_i32_list_decreases
{
    let c = first_comma(s);
    if c >= s.len() {
        match spec_parse_i32(s) {
            Some(v) => Some(seq![v]),
            None => None,
        }
    } else {
        match (spec_parse_i32(s.subrange(0, c)), spec_parse_i32_list(
            s.subrange(c + 1, s.len() as int),
        )) {
            (Some(v), Some(rest)) => Some(seq![v] + rest),
            _ => None,
        }
    }
}

#[via_fn]
proof fn spec_parse_i32_list_decreases(s: Seq<char>) {
    lemma_first_comma_bounds(s);
}

/// The position of the first comma, as executable code.
fn find_first_comma(s: &str) -> (c: usize)
    ensures
        c as int == first_comma(s@),
{
    let n = s.unicode_len();
    let mut c: usize = 0;
    loop
        invariant
            c <= n,
            n == s@.len(),
            forall|i: int| 0 <= i < c ==> s@[i] != ',',
        decreases n - c,
    {
        if c == n {
            proof {
                lemma_first_comma_is(s@, c as int);
            }
            return c;
        }
        if s.get_char(c) == ',' {
            proof {
                lemma_first_comma_is(s@, c as int);
            }
            return c;
        }
        c = c + 1;
    }
}

/// Parses a comma-separated list of decimal `i32`s, accepting exactly the
/// strings that `spec_parse_i32_list` accepts and returning exactly the
/// values it denotes.
pub fn parse_i32_list(s: &str) -> (r: Option<Vec<i32>>)
    ensures
        match r {
            Some(v) => spec_parse_i32_list(s@) == Some(v@),
            None => spec_parse_i32_list(s@) is None,
        },
    decreases s@.len(),
{
    let n = s.unicode_len();
    let c = find_first_comma(s);
    proof {
        lemma_first_comma_bounds(s@);
    }
    if c >= n {
        match parse_i32(s) {
            Some(v) => {
                let mut out: Vec<i32> = Vec::new();
                out.push(v);
                assert(out@ =~= seq![v]);
                Some(out)
            },
            None => None,
        }
    } else {
        let head = s.substring_char(0, c);
        let tail = s.substring_char(c + 1, n);
        match parse_i32(head) {
            None => None,
            Some(v) => match parse_i32_list(tail) {
                None => None,
                Some(mut rest) => {
                    let ghost rest0 = rest@;
                    let mut out: Vec<i32> = Vec::new();
                    out.push(v);
                    out.append(&mut rest);
                    assert(out@ =~= seq![v] + rest0);
                    Some(out)
                },
            },
        }
    }
}

} // verus!
