//! Small verified string helpers used across the library.
//!
//! Whitespace handling is ASCII (space, tab, carriage return, newline):
//! the data that flows through the queue — status words, branch names,
//! identifiers, configuration fields — is ASCII-spaced in practice, and an
//! exact ASCII contract is preferable to an unspecified Unicode one.

use vstd::prelude::*;
use vstd::string::StrSliceExecFns;

verus! {

/// Equality of two string slices, decided by content.
pub fn str_eq(a: &str, b: &str) -> (r: bool)
    ensures
        r == (a@ == b@),
{
    let owned_a: String = a.to_owned();
    let owned_b: String = b.to_owned();
    owned_a == owned_b
}

/// ASCII whitespace.
pub open spec fn spec_is_ws(c: char) -> bool {
    c == ' ' || c == '\t' || c == '\r' || c == '\n'
}

/// A string is blank when every character is ASCII whitespace.
pub open spec fn spec_is_blank(s: Seq<char>) -> bool {
    forall|i: int| 0 <= i < s.len() ==> spec_is_ws(#[trigger] s[i])
}

/// Whether a character is ASCII whitespace.
pub fn ws_char(c: char) -> (r: bool)
    ensures
        r == spec_is_ws(c),
{
    c == ' ' || c == '\t' || c == '\r' || c == '\n'
}

/// Whether the string trims to nothing.
pub fn is_blank(s: &str) -> (r: bool)
    ensures
        r == spec_is_blank(s@),
{
    let n = s.unicode_len();
    let mut i: usize = 0;
    while i < n
        invariant
            n == s@.len(),
            0 <= i <= n,
            forall|j: int| 0 <= j < i ==> spec_is_ws(#[trigger] s@[j]),
        decreases n - i,
    {
        let c = s.get_char(i);
        if !(c == ' ' || c == '\t' || c == '\r' || c == '\n') {
            return false;
        }
        i += 1;
    }
    true
}

/// `p` is a prefix of `s`.
pub open spec fn spec_starts_with(s: Seq<char>, p: Seq<char>) -> bool {
    p.len() <= s.len() && s.subrange(0, p.len() as int) == p
}

/// Whether `s` starts with `p`.
pub fn str_starts_with(s: &str, p: &str) -> (r: bool)
    ensures
        r == spec_starts_with(s@, p@),
{
    let ns = s.unicode_len();
    let np = p.unicode_len();
    if np > ns {
        return false;
    }
    let mut i: usize = 0;
    while i < np
        invariant
            ns == s@.len(),
            np == p@.len(),
            np <= ns,
            0 <= i <= np,
            forall|j: int| 0 <= j < i ==> s@[j] == p@[j],
        decreases np - i,
    {
        if s.get_char(i) != p.get_char(i) {
            proof {
                assert(s@.subrange(0, p@.len() as int)[i as int] == s@[i as int]);
            }
            return false;
        }
        i += 1;
    }
    proof {
        assert(s@.subrange(0, p@.len() as int) =~= p@);
    }
    true
}

/// The ASCII-uppercased code point of a character.
pub open spec fn spec_upper_code(c: char) -> int {
    if 'a' <= c && c <= 'z' {
        (c as u32) - 32
    } else {
        (c as u32) as int
    }
}

/// `p` is a prefix of `s` up to ASCII case.
pub open spec fn spec_starts_with_nocase(s: Seq<char>, p: Seq<char>) -> bool {
    p.len() <= s.len() && forall|i: int|
        0 <= i < p.len() ==> spec_upper_code(#[trigger] s[i]) == spec_upper_code(p[i])
}

/// Whether `s` starts with `p`, ignoring ASCII case.
pub fn str_starts_with_nocase(s: &str, p: &str) -> (r: bool)
    ensures
        r == spec_starts_with_nocase(s@, p@),
{
    let ns = s.unicode_len();
    let np = p.unicode_len();
    if np > ns {
        return false;
    }
    let mut i: usize = 0;
    while i < np
        invariant
            ns == s@.len(),
            np == p@.len(),
            np <= ns,
            0 <= i <= np,
            forall|j: int| 0 <= j < i ==> spec_upper_code(#[trigger] s@[j]) == spec_upper_code(
                p@[j],
            ),
        decreases np - i,
    {
        let cs = s.get_char(i);
        let cp = p.get_char(i);
        let us: u32 = if cs >= 'a' && cs <= 'z' {
            (cs as u32) - 32
        } else {
            cs as u32
        };
        let up: u32 = if cp >= 'a' && cp <= 'z' {
            (cp as u32) - 32
        } else {
            cp as u32
        };
        if us != up {
            return false;
        }
        i += 1;
    }
    true
}

/// Whether the last character of `s` is `c`.
pub fn str_ends_with_char(s: &str, c: char) -> (r: bool)
    ensures
        r == (s@.len() > 0 && s@.last() == c),
{
    let n = s.unicode_len();
    if n == 0 {
        false
    } else {
        s.get_char(n - 1) == c
    }
}

/// The string without leading ASCII whitespace.
pub open spec fn spec_trim_start(s: Seq<char>) -> Seq<char>
    decreases s.len(),
{
    if s.len() == 0 {
        s
    } else if spec_is_ws(s[0]) {
        spec_trim_start(s.skip(1))
    } else {
        s
    }
}

/// The string without trailing ASCII whitespace.
pub open spec fn spec_trim_end(s: Seq<char>) -> Seq<char>
    decreases s.len(),
{
    if s.len() == 0 {
        s
    } else if spec_is_ws(s.last()) {
        spec_trim_end(s.drop_last())
    } else {
        s
    }
}

/// The string without leading or trailing ASCII whitespace.
pub open spec fn spec_trim(s: Seq<char>) -> Seq<char> {
    spec_trim_end(spec_trim_start(s))
}

proof fn lemma_trim_start_skip(s: Seq<char>, a: int)
    requires
        0 <= a <= s.len(),
        forall|j: int| 0 <= j < a ==> spec_is_ws(#[trigger] s[j]),
        a < s.len() ==> !spec_is_ws(s[a]),
    ensures
        spec_trim_start(s) =~= s.skip(a),
    decreases a,
{
    if a == 0 {
        assert(s.skip(0) =~= s);
        if s.len() > 0 && spec_is_ws(s[0]) {
            assert(false);
        }
    } else {
        assert(spec_is_ws(s[0]));
        lemma_trim_start_skip(s.skip(1), a - 1);
        assert(s.skip(1).skip(a - 1) =~= s.skip(a));
    }
}

proof fn lemma_trim_end_take(s: Seq<char>, b: int)
    requires
        0 <= b <= s.len(),
        forall|j: int| b <= j < s.len() ==> spec_is_ws(#[trigger] s[j]),
        b > 0 ==> !spec_is_ws(s[b - 1]),
    ensures
        spec_trim_end(s) =~= s.take(b),
    decreases s.len() - b,
{
    if b == s.len() {
        assert(s.take(b) =~= s);
        if s.len() > 0 && spec_is_ws(s.last()) {
            assert(false);
        }
    } else {
        assert(spec_is_ws(s.last()));
        lemma_trim_end_take(s.drop_last(), b);
        assert(s.drop_last().take(b) =~= s.take(b));
    }
}

/// A fresh string holding `s` without leading or trailing ASCII whitespace.
#[verifier::rlimit(25)]
pub fn trim_ascii(s: &str) -> (r: String)
    ensures
        r@ == spec_trim(s@),
{
    let n = s.unicode_len();
    let mut a: usize = 0;
    while a < n && ws_char(s.get_char(a))
        invariant
            n == s@.len(),
            0 <= a <= n,
            forall|j: int| 0 <= j < a ==> spec_is_ws(#[trigger] s@[j]),
        decreases n - a,
    {
        a += 1;
    }
    proof {
        lemma_trim_start_skip(s@, a as int);
    }
    if a == n {
        let r = String::new();
        proof {
            assert(spec_trim_start(s@).len() == 0);
            assert(spec_trim(s@) =~= Seq::<char>::empty());
        }
        return r;
    }
    let mut b: usize = n;
    while b > a && ws_char(s.get_char(b - 1))
        invariant
            n == s@.len(),
            a <= b <= n,
            a < n,
            !spec_is_ws(s@[a as int]),
            forall|j: int| b <= j < n ==> spec_is_ws(#[trigger] s@[j]),
        decreases b - a,
    {
        b -= 1;
    }
    proof {
        assert(b > a);
        let t = spec_trim_start(s@);
        assert(t =~= s@.skip(a as int));
        assert(forall|j: int| b - a <= j < t.len() ==> spec_is_ws(#[trigger] t[j])) by {
            assert(forall|j: int| b - a <= j < t.len() ==> #[trigger] t[j] == s@[j + a]);
        }
        assert(t[b - a - 1] == s@[b as int - 1]);
        lemma_trim_end_take(t, b - a);
        assert(spec_trim(s@) =~= s@.subrange(a as int, b as int));
    }
    let piece = s.substring_char(a, b);
    piece.to_owned()
}

/// The string without its trailing `/` characters.
pub open spec fn spec_trim_trailing_slashes(s: Seq<char>) -> Seq<char>
    decreases s.len(),
{
    if s.len() > 0 && s.last() == '/' {
        spec_trim_trailing_slashes(s.drop_last())
    } else {
        s
    }
}

proof fn lemma_trim_trailing_take(s: Seq<char>, b: int)
    requires
        0 <= b <= s.len(),
        forall|j: int| b <= j < s.len() ==> #[trigger] s[j] == '/',
        b > 0 ==> s[b - 1] != '/',
    ensures
        spec_trim_trailing_slashes(s) =~= s.take(b),
    decreases s.len() - b,
{
    if b == s.len() {
        assert(s.take(b) =~= s);
    } else {
        assert(s.last() == '/');
        lemma_trim_trailing_take(s.drop_last(), b);
        assert(s.drop_last().take(b) =~= s.take(b));
    }
}

/// A fresh string holding `s` without trailing `/` characters.
pub fn trim_trailing_slashes(s: &str) -> (r: String)
    ensures
        r@ == spec_trim_trailing_slashes(s@),
{
    let n = s.unicode_len();
    let mut b: usize = n;
    while b > 0 && s.get_char(b - 1) == '/'
        invariant
            n == s@.len(),
            0 <= b <= n,
            forall|j: int| b <= j < n ==> #[trigger] s@[j] == '/',
        decreases b,
    {
        b -= 1;
    }
    proof {
        lemma_trim_trailing_take(s@, b as int);
    }
    let piece = s.substring_char(0, b);
    proof {
        assert(s@.subrange(0, b as int) =~= s@.take(b as int));
    }
    piece.to_owned()
}

/// A fresh copy of an optional string.
pub fn clone_opt_string(o: &Option<String>) -> (r: Option<String>)
    ensures
        r == *o,
{
    match o {
        Option::None => Option::None,
        Option::Some(s) => Option::Some(s.clone()),
    }
}

} // verus!
