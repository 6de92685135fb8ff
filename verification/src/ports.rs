//! Parsing the backend port from the environment.
//!
//! The environment hands the port over as text; the bind address uses it
//! when it is a well-formed 16-bit number — an optional `+` sign followed
//! by decimal digits, surrounding whitespace ignored — and falls back to
//! an ephemeral port otherwise.

use vstd::prelude::*;
use vstd::string::StrSliceExecFns;
use crate::strutil::{spec_trim, trim_ascii};

verus! {

/// A decimal digit.
pub open spec fn spec_is_digit(c: char) -> bool {
    '0' <= c && c <= '9'
}

/// The digits of a port literal: everything after an optional leading
/// `+`.
pub open spec fn spec_port_digits(s: Seq<char>) -> Seq<char> {
    if s.len() > 0 && s[0] == '+' {
        s.skip(1)
    } else {
        s
    }
}

/// The number a digit string denotes.
pub open spec fn spec_digits_value(s: Seq<char>) -> int
    decreases s.len(),
{
    if s.len() == 0 {
        0
    } else {
        spec_digits_value(s.drop_last()) * 10 + ((s.last() as u32) - 48)
    }
}

/// A well-formed 16-bit port literal: at least one digit, nothing but
/// digits, and a value that fits.
pub open spec fn spec_valid_port(s: Seq<char>) -> bool {
    let d = spec_port_digits(s);
    &&& d.len() > 0
    &&& (forall|i: int| 0 <= i < d.len() ==> spec_is_digit(#[trigger] d[i]))
    &&& spec_digits_value(d) <= 65535
}

proof fn lemma_digits_value_nonneg(s: Seq<char>)
    requires
        forall|i: int| 0 <= i < s.len() ==> spec_is_digit(#[trigger] s[i]),
    ensures
        spec_digits_value(s) >= 0,
    decreases s.len(),
{
    if s.len() > 0 {
        lemma_digits_value_nonneg(s.drop_last());
    }
}

/// A digit string is worth at least any of its prefixes.
proof fn lemma_digits_value_monotone(s: Seq<char>, i: int)
    requires
        0 <= i <= s.len(),
        forall|j: int| 0 <= j < s.len() ==> spec_is_digit(#[trigger] s[j]),
    ensures
        spec_digits_value(s) >= spec_digits_value(s.take(i)),
    decreases s.len() - i,
{
    if i == s.len() {
        assert(s.take(i) =~= s);
    } else {
        assert(s.take(i + 1).drop_last() =~= s.take(i));
        assert(s.take(i + 1).last() == s[i]);
        lemma_digits_value_nonneg(s.take(i));
        lemma_digits_value_monotone(s, i + 1);
    }
}

/// Parse a port number from environment text: the value exactly when the
/// trimmed text is a well-formed 16-bit port literal, nothing otherwise.
#[verifier::rlimit(25)]
pub fn parse_port(s: &str) -> (r: Option<u16>)
    ensures
        (r is Some) == spec_valid_port(spec_trim(s@)),
        r matches Option::Some(v) ==> v == spec_digits_value(spec_port_digits(spec_trim(s@))),
{
    let t = trim_ascii(s);
    let piece = t.as_str();
    let n = piece.unicode_len();
    let start: usize = if n > 0 && piece.get_char(0) == '+' {
        1
    } else {
        0
    };
    let ghost d = spec_port_digits(t@);
    proof {
        if start == 1 {
            assert(d =~= t@.skip(1));
        } else {
            assert(d =~= t@);
        }
        assert(forall|j: int| 0 <= j < d.len() ==> d[j] == t@[j + start]);
    }
    if n == start {
        return Option::None;
    }
    let mut acc: u32 = 0;
    let mut i: usize = start;
    while i < n
        invariant
            n == t@.len(),
            piece@ == t@,
            t@ == spec_trim(s@),
            start <= i <= n,
            start < n,
            start <= 1,
            d == spec_port_digits(t@),
            d.len() == n - start,
            forall|j: int| 0 <= j < d.len() ==> d[j] == t@[j + start],
            forall|j: int| 0 <= j < i - start ==> spec_is_digit(#[trigger] d[j]),
            acc == spec_digits_value(d.take(i - start)),
            acc <= 65535,
        decreases n - i,
    {
        let c = piece.get_char(i);
        if !(c >= '0' && c <= '9') {
            proof {
                assert(d[i - start] == t@[i as int]);
                assert(!spec_is_digit(d[i - start]));
            }
            return Option::None;
        }
        let digit: u32 = (c as u32) - 48;
        proof {
            assert(d.take(i - start + 1).drop_last() =~= d.take(i - start));
            assert(d.take(i - start + 1).last() == d[i - start]);
        }
        let grown: u32 = acc * 10 + digit;
        if grown > 65535 {
            proof {
                // A too-large prefix already rules the whole literal out:
                // under the validity assumption the full value would be at
                // least this prefix's.
                if spec_valid_port(t@) {
                    lemma_digits_value_monotone(d, i - start + 1);
                    assert(spec_digits_value(d.take(i - start + 1)) == grown);
                    assert(false);
                }
            }
            return Option::None;
        }
        acc = grown;
        i += 1;
    }
    proof {
        assert(d.take(n - start) =~= d);
    }
    Option::Some(acc as u16)
}

} // verus!
