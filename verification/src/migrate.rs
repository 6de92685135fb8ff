//! Splitting a migration script into executable statements.
//!
//! The store's driver executes one statement at a time, so the script is
//! cut at `;`-terminated lines — except inside a `BEGIN`…`END` body, whose
//! semicolons belong to the trigger being defined. Blank lines and `--`
//! comment lines are dropped, every kept line is trimmed, and each
//! statement is emitted trimmed of its trailing newline.

use vstd::prelude::*;
use vstd::string::StrSliceExecFns;
use vstd::string::StringExecFns;
use crate::strutil::{
    spec_starts_with,
    spec_starts_with_nocase,
    spec_trim,
    str_ends_with_char,
    str_starts_with,
    str_starts_with_nocase,
    trim_ascii,
};

verus! {

/// The views of a sequence of owned strings.
pub open spec fn views_of(v: Seq<String>) -> Seq<Seq<char>> {
    Seq::new(v.len(), |i: int| v[i]@)
}

proof fn lemma_views_push(v: Seq<String>, s: String)
    ensures
        views_of(v.push(s)) == views_of(v).push(s@),
{
    assert(views_of(v.push(s)) =~= views_of(v).push(s@));
}

/// The text cut at every newline; one more piece than there are
/// newlines.
pub open spec fn spec_lines(s: Seq<char>) -> Seq<Seq<char>>
    decreases s.len(),
{
    if s.len() == 0 {
        seq![Seq::<char>::empty()]
    } else if s[0] == '\n' {
        seq![Seq::<char>::empty()] + spec_lines(s.skip(1))
    } else {
        let rest = spec_lines(s.skip(1));
        seq![seq![s[0]] + rest[0]] + rest.skip(1)
    }
}

proof fn lemma_lines_nonempty(s: Seq<char>)
    ensures
        spec_lines(s).len() >= 1,
    decreases s.len(),
{
    if s.len() > 0 {
        lemma_lines_nonempty(s.skip(1));
    }
}

/// Cutting at the first newline: when position `k` holds the first
/// newline, the first line is everything before it and the rest are the
/// lines after it; a text without a newline is one line.
proof fn lemma_lines_head_split(s: Seq<char>, k: int)
    requires
        0 <= k <= s.len(),
        forall|j: int| 0 <= j < k ==> s[j] != '\n',
        k < s.len() ==> s[k] == '\n',
    ensures
        k < s.len() ==> spec_lines(s) == seq![s.take(k)] + spec_lines(s.skip(k + 1)),
        k == s.len() ==> spec_lines(s) == seq![s],
    decreases k,
{
    lemma_lines_nonempty(s);
    if k == 0 {
        if s.len() == 0 {
            assert(s =~= Seq::<char>::empty());
            assert(spec_lines(s) =~= seq![s]);
        } else {
            assert(s[0] == '\n');
            assert(s.take(0) =~= Seq::<char>::empty());
            assert(spec_lines(s) =~= seq![s.take(0)] + spec_lines(s.skip(1)));
        }
    } else {
        assert(s[0] != '\n');
        let rest = spec_lines(s.skip(1));
        lemma_lines_nonempty(s.skip(1));
        assert(forall|j: int| 0 <= j < k - 1 ==> s.skip(1)[j] == s[j + 1]);
        lemma_lines_head_split(s.skip(1), k - 1);
        if k < s.len() {
            assert(s.skip(1)[k - 1] == s[k as int]);
            assert(rest == seq![s.skip(1).take(k - 1)] + spec_lines(s.skip(1).skip(k)));
            assert(rest[0] == s.skip(1).take(k - 1));
            assert(seq![s[0]] + s.skip(1).take(k - 1) =~= s.take(k));
            assert(s.skip(1).skip(k) =~= s.skip(k + 1));
            assert(rest.skip(1) =~= spec_lines(s.skip(k + 1)));
            assert(spec_lines(s) =~= seq![s.take(k)] + spec_lines(s.skip(k + 1)));
        } else {
            assert(rest == seq![s.skip(1)]);
            assert(seq![s[0]] + s.skip(1) =~= s);
            assert(rest.skip(1) =~= Seq::<Seq<char>>::empty());
            assert(spec_lines(s) =~= seq![s]);
        }
    }
}

/// Folding the trimmed lines into statements, from line `i` on, with the
/// statement gathered so far and the current `BEGIN` nesting depth: blank
/// and comment lines are dropped, a kept line joins the statement, and a
/// line ending in `;` outside any `BEGIN` body closes it.
pub open spec fn spec_fold(
    lines: Seq<Seq<char>>,
    i: int,
    cur: Seq<char>,
    depth: int,
) -> Seq<Seq<char>>
    decreases lines.len() - i,
        when 0 <= i <= lines.len()
{
    if i >= lines.len() {
        if spec_trim(cur).len() > 0 {
            seq![spec_trim(cur)]
        } else {
            Seq::<Seq<char>>::empty()
        }
    } else {
        let t = spec_trim(lines[i]);
        if t.len() == 0 || spec_starts_with(t, "--"@) {
            spec_fold(lines, i + 1, cur, depth)
        } else {
            let raised = if spec_starts_with_nocase(t, "BEGIN"@) {
                depth + 1
            } else {
                depth
            };
            let lowered = if spec_starts_with_nocase(t, "END"@) && raised > 0 {
                raised - 1
            } else {
                raised
            };
            let gathered = cur + t + "\n"@;
            if t.last() == ';' && lowered == 0 {
                seq![spec_trim(gathered)] + spec_fold(
                    lines,
                    i + 1,
                    Seq::<char>::empty(),
                    lowered,
                )
            } else {
                spec_fold(lines, i + 1, gathered, lowered)
            }
        }
    }
}

/// What splitting a script yields.
pub open spec fn spec_split_statements(s: Seq<char>) -> Seq<Seq<char>> {
    spec_fold(spec_lines(s), 0, Seq::<char>::empty(), 0)
}

/// Cut a migration script into its statements.
#[verifier::rlimit(30)]
pub fn split_statements(sql: &str) -> (r: Vec<String>)
    ensures
        views_of(r@) == spec_split_statements(sql@),
{
    let n = sql.unicode_len();
    let mut lines: Vec<String> = Vec::new();
    let mut start: usize = 0;
    let mut i: usize = 0;
    proof {
        assert(sql@.skip(0) =~= sql@);
        assert(views_of(lines@) + spec_lines(sql@) =~= spec_lines(sql@));
    }
    while i < n
        invariant
            n == sql@.len(),
            0 <= start <= i <= n,
            forall|j: int| start <= j < i ==> sql@[j] != '\n',
            spec_lines(sql@) == views_of(lines@) + spec_lines(sql@.skip(start as int)),
        decreases n - i,
    {
        if sql.get_char(i) == '\n' {
            let line = sql.substring_char(start, i).to_owned();
            proof {
                let tail = sql@.skip(start as int);
                assert(forall|j: int| 0 <= j < i - start ==> tail[j] == sql@[j + start]);
                assert(tail[i - start] == sql@[i as int]);
                lemma_lines_head_split(tail, i - start);
                assert(tail.take(i - start) =~= sql@.subrange(start as int, i as int));
                assert(tail.skip(i - start + 1) =~= sql@.skip(i as int + 1));
                lemma_views_push(lines@, line);
                assert(views_of(lines@.push(line)) + spec_lines(sql@.skip(i as int + 1))
                    =~= views_of(lines@) + spec_lines(tail));
            }
            lines.push(line);
            start = i + 1;
        }
        i += 1;
    }
    let line = sql.substring_char(start, n).to_owned();
    proof {
        let tail = sql@.skip(start as int);
        assert(forall|j: int| 0 <= j < tail.len() ==> tail[j] == sql@[j + start]);
        lemma_lines_head_split(tail, n - start);
        assert(line@ =~= tail);
        lemma_views_push(lines@, line);
        assert(views_of(lines@.push(line)) =~= views_of(lines@) + spec_lines(tail));
    }
    lines.push(line);

    let m = lines.len();
    let mut result: Vec<String> = Vec::new();
    let mut cur: String = String::new();
    let mut depth: usize = 0;
    let mut j: usize = 0;
    while j < m
        invariant
            m == lines@.len(),
            0 <= j <= m,
            depth <= j,
            views_of(lines@) == spec_lines(sql@),
            spec_split_statements(sql@) == views_of(result@) + spec_fold(
                views_of(lines@),
                j as int,
                cur@,
                depth as int,
            ),
        decreases m - j,
    {
        let ghost cur0 = cur@;
        let ghost depth0 = depth as int;
        let t = trim_ascii(lines[j].as_str());
        proof {
            assert(views_of(lines@)[j as int] == lines@[j as int]@);
        }
        if t.as_str().is_empty() || str_starts_with(t.as_str(), "--") {
            proof {
                assert(spec_fold(views_of(lines@), j as int, cur0, depth0) == spec_fold(
                    views_of(lines@),
                    j as int + 1,
                    cur0,
                    depth0,
                ));
            }
        } else {
            if str_starts_with_nocase(t.as_str(), "BEGIN") {
                depth += 1;
            }
            if str_starts_with_nocase(t.as_str(), "END") && depth > 0 {
                depth -= 1;
            }
            cur.append(t.as_str());
            cur.append("\n");
            if str_ends_with_char(t.as_str(), ';') && depth == 0 {
                let stmt = trim_ascii(cur.as_str());
                proof {
                    lemma_views_push(result@, stmt);
                    assert(spec_fold(views_of(lines@), j as int, cur0, depth0) == seq![stmt@]
                        + spec_fold(
                        views_of(lines@),
                        j as int + 1,
                        Seq::<char>::empty(),
                        depth as int,
                    ));
                    assert(views_of(result@.push(stmt)) + spec_fold(
                        views_of(lines@),
                        j as int + 1,
                        Seq::<char>::empty(),
                        depth as int,
                    ) =~= views_of(result@) + spec_fold(
                        views_of(lines@),
                        j as int,
                        cur0,
                        depth0,
                    ));
                }
                result.push(stmt);
                cur = String::new();
            } else {
                proof {
                    assert(spec_fold(views_of(lines@), j as int, cur0, depth0) == spec_fold(
                        views_of(lines@),
                        j as int + 1,
                        cur@,
                        depth as int,
                    ));
                }
            }
        }
        j += 1;
    }
    let tail = trim_ascii(cur.as_str());
    if !tail.as_str().is_empty() {
        proof {
            lemma_views_push(result@, tail);
            assert(views_of(result@.push(tail)) =~= views_of(result@) + spec_fold(
                views_of(lines@),
                m as int,
                cur@,
                depth as int,
            ));
        }
        result.push(tail);
    }
    result
}

} // verus!
