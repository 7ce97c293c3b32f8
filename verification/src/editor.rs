//! Extracting the human message from an edited session file: the text
//! after the last separator line, cleared of leading blank and comment
//! lines.  Opening the editor itself happens outside.

use vstd::prelude::*;

use crate::text::{
    clone_string_range, join_with, spec_join, spec_lines, spec_trim, split_lines,
    trim_ws,
};

verus! {

/// Whether the pattern occurs at the given position of the sequence.
pub open spec fn spec_match_at(s: Seq<char>, pat: Seq<char>, i: int) -> bool {
    0 <= i && i + pat.len() <= s.len() && s.subrange(i, i + pat.len()) == pat
}

/// The last position at which the pattern occurs, if it occurs at all.
pub open spec fn spec_rfind(s: Seq<char>, pat: Seq<char>) -> Option<int>
    decreases s.len(),
{
    if pat.len() > s.len() {
        None
    } else if s.skip(s.len() - pat.len()) =~= pat {
        Some(s.len() - pat.len())
    } else {
        spec_rfind(s.drop_last(), pat)
    }
}

proof fn lemma_rfind_take(s: Seq<char>, pat: Seq<char>, k: int)
    requires
        0 <= k,
        k + pat.len() <= s.len(),
        forall|j: int|
            k < j && j + pat.len() <= s.len() ==> #[trigger] s.subrange(j, j + pat.len() as int)
                != pat,
    ensures
        spec_rfind(s, pat) == spec_rfind(s.take(k + pat.len() as int), pat),
    decreases s.len(),
{
    if k + pat.len() < s.len() {
        let last_pos = s.len() - pat.len();
        assert(s.subrange(last_pos as int, last_pos + pat.len()) != pat);
        assert(s.skip(s.len() - pat.len()) =~= s.subrange(last_pos as int, last_pos + pat.len()));
        let shorter = s.drop_last();
        assert(shorter =~= s.take(s.len() - 1));
        assert forall|j: int|
            k < j && j + pat.len() <= shorter.len() implies #[trigger] shorter.subrange(
            j,
            j + pat.len() as int,
        ) != pat by {
            assert(shorter.subrange(j, j + pat.len() as int) =~= s.subrange(
                j,
                j + pat.len() as int,
            ));
        }
        lemma_rfind_take(shorter, pat, k);
        assert(shorter.take(k + pat.len() as int) =~= s.take(k + pat.len() as int));
    } else {
        assert(s.take(k + pat.len() as int) =~= s);
    }
}

fn match_at(s: &str, pat: &str, i: usize) -> (r: bool)
    requires
        i + pat@.len() <= s@.len(),
        s@.len() <= usize::MAX,
    ensures
        r == spec_match_at(s@, pat@, i as int),
{
    let m = pat.unicode_len();
    let mut j: usize = 0;
    while j < m
        invariant
            j <= m,
            m == pat@.len(),
            i + m <= s@.len(),
            s@.len() <= usize::MAX,
            forall|u: int| 0 <= u < j ==> s@[i + u] == pat@[u],
        decreases m - j,
    {
        if s.get_char(i + j) != pat.get_char(j) {
            assert(s@.subrange(i as int, i + m)[j as int] != pat@[j as int]);
            return false;
        }
        j += 1;
    }
    proof {
        assert(s@.subrange(i as int, i + m) =~= pat@);
    }
    true
}

/// Finds the last occurrence of the pattern in the string.
pub fn rfind(s: &str, pat: &str) -> (r: Option<usize>)
    ensures
        match r {
            Some(i) => spec_rfind(s@, pat@) == Some(i as int) && i + pat@.len() <= s@.len(),
            None => spec_rfind(s@, pat@) is None,
        },
{
    let n = s.unicode_len();
    let m = pat.unicode_len();
    if m > n {
        return None;
    }
    let mut k: usize = n - m;
    loop
        invariant
            k <= n - m,
            n == s@.len(),
            m == pat@.len(),
            m <= n,
            forall|j: int|
                k < j && j + m <= n ==> #[trigger] s@.subrange(j, j + m as int) != pat@,
        decreases k + 1,
    {
        if match_at(s, pat, k) {
            proof {
                lemma_rfind_take(s@, pat@, k as int);
                let t = s@.take(k + m as int);
                assert(t.skip(t.len() - pat@.len()) =~= s@.subrange(k as int, k + m as int));
            }
            return Some(k);
        }
        proof {
            assert(s@.subrange(k as int, k + m as int) != pat@);
        }
        if k == 0 {
            proof {
                lemma_rfind_take(s@, pat@, 0);
                let t = s@.take(m as int);
                assert(t =~= s@.subrange(0, m as int));
                assert(t.skip(t.len() - pat@.len()) =~= t);
                assert((t.skip(t.len() - pat@.len()) =~= pat@) ==> s@.subrange(0, m as int)
                    == pat@);
                assert(m > 0);
                assert(spec_rfind(t, pat@) == spec_rfind(t.drop_last(), pat@));
                assert(pat@.len() > t.drop_last().len());
                assert(spec_rfind(t.drop_last(), pat@) is None);
            }
            return None;
        }
        k -= 1;
    }
}

/// Whether a line is passed over before the message: blank, or a comment.
pub open spec fn spec_is_skippable(l: Seq<char>) -> bool {
    spec_trim(l).len() == 0 || (l.len() > 0 && l[0] == '#')
}

/// The lines with leading blank and comment lines removed.
pub open spec fn spec_skip_leading(lines: Seq<Seq<char>>) -> Seq<Seq<char>>
    decreases lines.len(),
{
    if lines.len() > 0 && spec_is_skippable(lines[0]) {
        spec_skip_leading(lines.drop_first())
    } else {
        lines
    }
}

proof fn lemma_skip_leading_skip(lines: Seq<Seq<char>>, a: int)
    requires
        0 <= a <= lines.len(),
        forall|j: int| 0 <= j < a ==> spec_is_skippable(#[trigger] lines[j]),
    ensures
        spec_skip_leading(lines) == spec_skip_leading(lines.skip(a)),
    decreases a,
{
    if a > 0 {
        assert(lines.drop_first() =~= lines.skip(1));
        lemma_skip_leading_skip(lines.skip(1), a - 1);
        assert(lines.skip(1).skip(a - 1) =~= lines.skip(a));
    } else {
        assert(lines.skip(0) =~= lines);
    }
}

fn is_skippable_line(l: &String) -> (r: bool)
    ensures
        r == spec_is_skippable(l@),
{
    let t = trim_ws(l.as_str());
    if t.as_str().unicode_len() == 0 {
        true
    } else {
        l.as_str().unicode_len() > 0 && l.as_str().get_char(0) == '#'
    }
}

/// The human message an edited session file holds: the text after the last
/// separator line, cleared of leading blank and comment lines, trimmed;
/// none when there is no separator or nothing is left.
pub open spec fn spec_editor_message(content: Seq<char>) -> Option<Seq<char>> {
    match spec_rfind(content, "\n---\n"@) {
        None => None,
        Some(i) => {
            let tail = content.skip(i + "\n---\n"@.len());
            let kept = spec_skip_leading(spec_lines(tail));
            let msg = spec_trim(spec_join(kept, "\n"@));
            if msg.len() > 0 {
                Some(msg)
            } else {
                None
            }
        },
    }
}

/// Extracts the human message from an edited session file.
pub fn extract_editor_message(content: &str) -> (r: Option<String>)
    ensures
        match r {
            Some(msg) => spec_editor_message(content@) == Some(msg@),
            None => spec_editor_message(content@) is None,
        },
{
    proof {
        reveal_strlit("\n---\n");
    }
    let sep_pos = match rfind(content, "\n---\n") {
        Some(i) => i,
        None => {
            return None;
        },
    };
    let n = content.unicode_len();
    let tail = content.substring_char(sep_pos + 5, n);
    proof {
        assert(tail@ =~= content@.skip(sep_pos + 5));
    }
    let lines = split_lines(tail);
    let ghost all = lines.deep_view();
    let mut a: usize = 0;
    while a < lines.len()
        invariant
            a <= lines.len(),
            all == lines.deep_view(),
            all.len() == lines.len(),
            forall|j: int| 0 <= j < a ==> spec_is_skippable(#[trigger] all[j]),
        ensures
            a <= lines.len(),
            all.len() == lines.len(),
            forall|j: int| 0 <= j < a ==> spec_is_skippable(#[trigger] all[j]),
            a < lines.len() ==> !spec_is_skippable(all[a as int]),
        decreases lines.len() - a,
    {
        if is_skippable_line(&lines[a]) {
            a += 1;
        } else {
            break;
        }
    }
    proof {
        lemma_skip_leading_skip(all, a as int);
        if a < all.len() {
            assert(all.skip(a as int)[0] == all[a as int]);
        }
        assert(spec_skip_leading(all.skip(a as int)) =~= all.skip(a as int));
    }
    let kept = clone_string_range(&lines, a, lines.len());
    proof {
        assert(kept.deep_view() =~= all.skip(a as int));
    }
    let joined = join_with(&kept, "\n");
    let msg = trim_ws(joined.as_str());
    if msg.as_str().unicode_len() > 0 {
        Some(msg)
    } else {
        None
    }
}

} // verus!
