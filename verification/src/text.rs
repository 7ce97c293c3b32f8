//! Verified text utilities: decimal rendering, joining, splitting into
//! lines, trimming and comparisons, each against an exact sequence-level
//! specification.

use vstd::prelude::*;

verus! {

// ---------------------------------------------------------------------------
// Decimal rendering
// ---------------------------------------------------------------------------
/// The character of one decimal digit.
pub open spec fn spec_digit(d: nat) -> char {
    if d == 0 {
        '0'
    } else if d == 1 {
        '1'
    } else if d == 2 {
        '2'
    } else if d == 3 {
        '3'
    } else if d == 4 {
        '4'
    } else if d == 5 {
        '5'
    } else if d == 6 {
        '6'
    } else if d == 7 {
        '7'
    } else if d == 8 {
        '8'
    } else {
        '9'
    }
}

/// Decimal rendering of a natural number, most significant digit first.
pub open spec fn spec_dec(n: nat) -> Seq<char>
    decreases n,
{
    if n < 10 {
        seq![spec_digit(n)]
    } else {
        spec_dec(n / 10).push(spec_digit(n % 10))
    }
}

/// Decimal rendering of an integer: a minus sign before the magnitude.
pub open spec fn spec_dec_int(n: int) -> Seq<char> {
    if n >= 0 {
        spec_dec(n as nat)
    } else {
        seq!['-'] + spec_dec((-n) as nat)
    }
}

fn digit_str(d: u64) -> (r: &'static str)
    requires
        d < 10,
    ensures
        r@ == seq![spec_digit(d as nat)],
{
    proof {
        reveal_strlit("0");
        reveal_strlit("1");
        reveal_strlit("2");
        reveal_strlit("3");
        reveal_strlit("4");
        reveal_strlit("5");
        reveal_strlit("6");
        reveal_strlit("7");
        reveal_strlit("8");
        reveal_strlit("9");
    }
    match d {
        0 => "0",
        1 => "1",
        2 => "2",
        3 => "3",
        4 => "4",
        5 => "5",
        6 => "6",
        7 => "7",
        8 => "8",
        _ => "9",
    }
}

/// Renders a number in decimal.
pub fn u64_to_dec(n: u64) -> (s: String)
    ensures
        s@ == spec_dec(n as nat),
    decreases n,
{
    if n < 10 {
        digit_str(n).to_owned()
    } else {
        let mut s = u64_to_dec(n / 10);
        s.append(digit_str(n % 10));
        s
    }
}

/// Renders a signed number in decimal, with a minus sign when negative.
pub fn i64_to_dec(n: i64) -> (s: String)
    ensures
        s@ == spec_dec_int(n as int),
{
    if n >= 0 {
        u64_to_dec(n as u64)
    } else {
        proof {
            reveal_strlit("-");
        }
        let magnitude: u64 = ((-(n as i128)) as u64);
        let mut s = "-".to_owned();
        s.append(u64_to_dec(magnitude).as_str());
        s
    }
}

// ---------------------------------------------------------------------------
// Padding
// ---------------------------------------------------------------------------
/// A run of spaces.
pub open spec fn spec_spaces(n: nat) -> Seq<char>
    decreases n,
{
    if n == 0 {
        Seq::empty()
    } else {
        spec_spaces((n - 1) as nat).push(' ')
    }
}

/// The sequence left-padded with spaces to the given width; a sequence
/// already that wide is unchanged.
pub open spec fn spec_pad_left(s: Seq<char>, width: nat) -> Seq<char> {
    if s.len() >= width {
        s
    } else {
        spec_spaces((width - s.len()) as nat) + s
    }
}

/// Left-pads a string with spaces to the given width.
pub fn pad_left(s: &str, width: usize) -> (r: String)
    ensures
        r@ == spec_pad_left(s@, width as nat),
{
    proof {
        reveal_strlit(" ");
    }
    let n = s.unicode_len();
    let mut pad = String::new();
    if n < width {
        let mut i: usize = 0;
        while i < width - n
            invariant
                n < width,
                i <= width - n,
                pad@ == spec_spaces(i as nat),
            decreases width - n - i,
        {
            proof {
                reveal_strlit(" ");
            }
            pad.append(" ");
            assert(spec_spaces((i + 1) as nat).drop_last() =~= spec_spaces(i as nat));
            assert(pad@ =~= spec_spaces((i + 1) as nat));
            i += 1;
        }
    }
    pad.append(s);
    pad
}

// ---------------------------------------------------------------------------
// Joining
// ---------------------------------------------------------------------------
/// The parts joined by the separator: empty for no parts, and one separator
/// between each adjacent pair.
pub open spec fn spec_join(parts: Seq<Seq<char>>, sep: Seq<char>) -> Seq<char>
    decreases parts.len(),
{
    if parts.len() == 0 {
        Seq::empty()
    } else if parts.len() == 1 {
        parts[0]
    } else {
        spec_join(parts.drop_last(), sep) + sep + parts.last()
    }
}

/// Joins the parts with the separator between each adjacent pair.
pub fn join_with(parts: &Vec<String>, sep: &str) -> (r: String)
    ensures
        r@ == spec_join(parts.deep_view(), sep@),
{
    let mut r = String::new();
    let ghost all = parts.deep_view();
    assert(r@ =~= spec_join(all.take(0), sep@));
    let mut i: usize = 0;
    while i < parts.len()
        invariant
            i <= parts.len(),
            all == parts.deep_view(),
            all.len() == parts.len(),
            r@ == spec_join(all.take(i as int), sep@),
        decreases parts.len() - i,
    {
        if i > 0 {
            r.append(sep);
        }
        r.append(parts[i].as_str());
        proof {
            let t = all.take(i + 1);
            assert(t.drop_last() =~= all.take(i as int));
            assert(t.last() == all[i as int]);
        }
        i += 1;
    }
    assert(all.take(parts.len() as int) =~= all);
    r
}

/// Copies a range of lines; the copy views as the subrange.
pub fn clone_string_range(v: &Vec<String>, from: usize, to: usize) -> (r: Vec<String>)
    requires
        from <= to <= v.len(),
    ensures
        r.deep_view() == v.deep_view().subrange(from as int, to as int),
{
    let mut r: Vec<String> = Vec::new();
    let mut i: usize = from;
    proof {
        assert(r.deep_view() =~= v.deep_view().subrange(from as int, from as int));
    }
    while i < to
        invariant
            from <= i <= to <= v.len(),
            v.deep_view().len() == v.len(),
            r.deep_view() == v.deep_view().subrange(from as int, i as int),
        decreases to - i,
    {
        let ghost before = r.deep_view();
        r.push(v[i].clone());
        proof {
            assert(r.deep_view() =~= before.push(v.deep_view()[i as int]));
            assert(r.deep_view() =~= v.deep_view().subrange(from as int, i + 1));
        }
        i += 1;
    }
    r
}

// ---------------------------------------------------------------------------
// Comparisons
// ---------------------------------------------------------------------------
/// Whether two string slices hold the same characters.
pub fn str_eq(a: &str, b: &str) -> (r: bool)
    ensures
        r == (a@ == b@),
{
    let n = a.unicode_len();
    if n != b.unicode_len() {
        return false;
    }
    let mut i: usize = 0;
    while i < n
        invariant
            i <= n,
            n == a@.len(),
            n == b@.len(),
            forall|j: int| 0 <= j < i ==> a@[j] == b@[j],
        decreases n - i,
    {
        if a.get_char(i) != b.get_char(i) {
            return false;
        }
        i += 1;
    }
    proof {
        assert(a@ =~= b@);
    }
    true
}

/// Whether the sequence begins with the prefix.
pub open spec fn spec_starts_with(s: Seq<char>, prefix: Seq<char>) -> bool {
    prefix.len() <= s.len() && s.take(prefix.len() as int) == prefix
}

/// Whether the string begins with the prefix.
pub fn starts_with(s: &str, prefix: &str) -> (r: bool)
    ensures
        r == spec_starts_with(s@, prefix@),
{
    let m = prefix.unicode_len();
    if m > s.unicode_len() {
        assert(!spec_starts_with(s@, prefix@));
        return false;
    }
    let mut i: usize = 0;
    while i < m
        invariant
            i <= m,
            m == prefix@.len(),
            m <= s@.len(),
            forall|j: int| 0 <= j < i ==> s@[j] == prefix@[j],
        decreases m - i,
    {
        if s.get_char(i) != prefix.get_char(i) {
            assert(s@.take(m as int)[i as int] != prefix@[i as int]);
            return false;
        }
        i += 1;
    }
    proof {
        assert(s@.take(m as int) =~= prefix@);
    }
    true
}

/// Whether the sequence ends with the suffix.
pub open spec fn spec_ends_with(s: Seq<char>, suffix: Seq<char>) -> bool {
    suffix.len() <= s.len() && s.skip(s.len() - suffix.len()) == suffix
}

/// Whether the string ends with the suffix.
pub fn ends_with(s: &str, suffix: &str) -> (r: bool)
    ensures
        r == spec_ends_with(s@, suffix@),
{
    let m = suffix.unicode_len();
    let n = s.unicode_len();
    if m > n {
        assert(!spec_ends_with(s@, suffix@));
        return false;
    }
    let base = n - m;
    let mut i: usize = 0;
    while i < m
        invariant
            i <= m,
            m == suffix@.len(),
            n == s@.len(),
            base == n - m,
            forall|j: int| 0 <= j < i ==> s@[base + j] == suffix@[j],
        decreases m - i,
    {
        if s.get_char(base + i) != suffix.get_char(i) {
            assert(s@.skip(base as int)[i as int] != suffix@[i as int]);
            return false;
        }
        i += 1;
    }
    proof {
        assert(s@.skip(base as int) =~= suffix@);
    }
    true
}

// ---------------------------------------------------------------------------
// Splitting into lines
// ---------------------------------------------------------------------------
/// The sequence split at every `'\n'`: one part more than there are
/// newlines, in order, none containing a newline.
pub open spec fn spec_split_nl(s: Seq<char>) -> Seq<Seq<char>>
    decreases s.len(),
{
    if s.len() == 0 {
        seq![Seq::<char>::empty()]
    } else if s[0] == '\n' {
        seq![Seq::<char>::empty()] + spec_split_nl(s.drop_first())
    } else {
        let rest = spec_split_nl(s.drop_first());
        seq![seq![s[0]] + rest[0]] + rest.drop_first()
    }
}

proof fn lemma_split_nl_nonempty(s: Seq<char>)
    ensures
        spec_split_nl(s).len() >= 1,
    decreases s.len(),
{
    if s.len() != 0 && s[0] != '\n' {
        lemma_split_nl_nonempty(s.drop_first());
    }
}

proof fn lemma_split_nl_step(s: Seq<char>, i: int)
    requires
        0 <= i < s.len(),
    ensures
        s[i] == '\n' ==> spec_split_nl(s.skip(i)) == seq![Seq::<char>::empty()] + spec_split_nl(
            s.skip(i + 1),
        ),
        s[i] != '\n' ==> spec_split_nl(s.skip(i)) == seq![
            seq![s[i]] + spec_split_nl(s.skip(i + 1))[0],
        ] + spec_split_nl(s.skip(i + 1)).drop_first(),
{
    let t = s.skip(i);
    assert(t.len() > 0);
    assert(t[0] == s[i]);
    assert(t.drop_first() =~= s.skip(i + 1));
}

/// Whether the completed parts, the start of the current partial line and
/// the scan position describe the split of the whole sequence.
spec fn split_scan_ok(s: Seq<char>, done: Seq<Seq<char>>, start: int, i: int) -> bool {
    spec_split_nl(s) == done + seq![s.subrange(start, i) + spec_split_nl(s.skip(i))[0]]
        + spec_split_nl(s.skip(i)).drop_first()
}

/// Splits a string at every newline character.
pub fn split_nl(s: &str) -> (parts: Vec<String>)
    ensures
        parts.deep_view() == spec_split_nl(s@),
{
    let n = s.unicode_len();
    let mut done: Vec<String> = Vec::new();
    let mut line_start: usize = 0;
    let mut i: usize = 0;
    proof {
        lemma_split_nl_nonempty(s@);
        assert(s@.skip(0) =~= s@);
        let sp = spec_split_nl(s@);
        assert(sp =~~= Seq::<Seq<char>>::empty() + seq![s@.subrange(0, 0) + sp[0]]
            + sp.drop_first());
        assert(done.deep_view() =~= Seq::<Seq<char>>::empty());
    }
    while i < n
        invariant
            line_start <= i <= n,
            n == s@.len(),
            split_scan_ok(s@, done.deep_view(), line_start as int, i as int),
        decreases n - i,
    {
        let c = s.get_char(i);
        proof {
            lemma_split_nl_step(s@, i as int);
            lemma_split_nl_nonempty(s@.skip(i + 1));
        }
        if c == '\n' {
            let line = s.substring_char(line_start, i).to_owned();
            let ghost old_done = done.deep_view();
            done.push(line);
            proof {
                let sub = s@.subrange(line_start as int, i as int);
                let x = spec_split_nl(s@.skip(i as int));
                let y = spec_split_nl(s@.skip(i + 1));
                assert(done.deep_view() =~~= old_done.push(sub));
                assert(old_done + seq![sub + x[0]] + x.drop_first() =~~= old_done.push(sub)
                    + seq![s@.subrange(i + 1, i + 1) + y[0]] + y.drop_first());
            }
            line_start = i + 1;
        } else {
            proof {
                let sub = s@.subrange(line_start as int, i as int);
                let sub1 = s@.subrange(line_start as int, i + 1);
                let x = spec_split_nl(s@.skip(i as int));
                let y = spec_split_nl(s@.skip(i + 1));
                assert(done.deep_view() + seq![sub + x[0]] + x.drop_first() =~~= done.deep_view()
                    + seq![sub1 + y[0]] + y.drop_first());
            }
        }
        i += 1;
    }
    let last = s.substring_char(line_start, n).to_owned();
    let ghost old_done = done.deep_view();
    done.push(last);
    proof {
        let sub = s@.subrange(line_start as int, n as int);
        let x = spec_split_nl(s@.skip(n as int));
        assert(s@.skip(n as int) =~= Seq::<char>::empty());
        assert(done.deep_view() =~~= old_done.push(sub));
        assert(done.deep_view() =~~= old_done + seq![sub + x[0]] + x.drop_first());
    }
    done
}

/// A line with a trailing carriage return stripped.
pub open spec fn spec_drop_cr(l: Seq<char>) -> Seq<char> {
    if l.len() > 0 && l.last() == '\r' {
        l.drop_last()
    } else {
        l
    }
}

/// The lines of a text: split at `'\n'`, a final line ending optional, a
/// carriage return before each newline stripped.
pub open spec fn spec_lines(s: Seq<char>) -> Seq<Seq<char>> {
    if s.len() == 0 {
        Seq::empty()
    } else {
        let parts = spec_split_nl(s);
        let kept = if parts.last().len() == 0 {
            parts.drop_last()
        } else {
            parts
        };
        kept.map_values(|l: Seq<char>| spec_drop_cr(l))
    }
}

/// Splits a text into its lines.
pub fn split_lines(s: &str) -> (lines: Vec<String>)
    ensures
        lines.deep_view() == spec_lines(s@),
{
    if s.unicode_len() == 0 {
        let lines: Vec<String> = Vec::new();
        assert(lines.deep_view() =~= spec_lines(s@));
        return lines;
    }
    let mut parts = split_nl(s);
    proof {
        lemma_split_nl_nonempty(s@);
    }
    if parts[parts.len() - 1].unicode_len() == 0 {
        let ghost before = parts.deep_view();
        parts.pop();
        proof {
            assert(parts.deep_view() =~= before.drop_last());
        }
    }
    let ghost kept = parts.deep_view();
    let mut out: Vec<String> = Vec::new();
    let mut i: usize = 0;
    proof {
        assert(out.deep_view() =~= kept.map_values(|l: Seq<char>| spec_drop_cr(l)).take(0));
    }
    while i < parts.len()
        invariant
            i <= parts.len(),
            kept == parts.deep_view(),
            kept.len() == parts.len(),
            out.deep_view() == kept.map_values(|l: Seq<char>| spec_drop_cr(l)).take(i as int),
            spec_lines(s@) == kept.map_values(|l: Seq<char>| spec_drop_cr(l)),
        decreases parts.len() - i,
    {
        let ghost before = out.deep_view();
        let l = &parts[i];
        let ln = l.unicode_len();
        if ln > 0 && l.as_str().get_char(ln - 1) == '\r' {
            out.push(l.as_str().substring_char(0, ln - 1).to_owned());
            proof {
                assert(l@.subrange(0, l@.len() - 1) =~= spec_drop_cr(kept[i as int]));
            }
        } else {
            out.push(l.clone());
        }
        proof {
            let mapped = kept.map_values(|l: Seq<char>| spec_drop_cr(l));
            assert(out.deep_view() =~= before.push(spec_drop_cr(kept[i as int])));
            assert(out.deep_view() =~= mapped.take(i + 1));
        }
        i += 1;
    }
    proof {
        let mapped = kept.map_values(|l: Seq<char>| spec_drop_cr(l));
        assert(mapped.take(parts.len() as int) =~= mapped);
    }
    out
}

// ---------------------------------------------------------------------------
// Whitespace: trimming and word counting
// ---------------------------------------------------------------------------
/// The whitespace characters recognised here: the ASCII blank set.
pub open spec fn spec_is_ws(c: char) -> bool {
    c == ' ' || c == '\t' || c == '\r' || c == '\n'
}

fn is_ws(c: char) -> (r: bool)
    ensures
        r == spec_is_ws(c),
{
    c == ' ' || c == '\t' || c == '\r' || c == '\n'
}

/// The sequence with leading whitespace removed.
pub open spec fn spec_trim_start(s: Seq<char>) -> Seq<char>
    decreases s.len(),
{
    if s.len() > 0 && spec_is_ws(s[0]) {
        spec_trim_start(s.drop_first())
    } else {
        s
    }
}

/// The sequence with trailing whitespace removed.
pub open spec fn spec_trim_end(s: Seq<char>) -> Seq<char>
    decreases s.len(),
{
    if s.len() > 0 && spec_is_ws(s.last()) {
        spec_trim_end(s.drop_last())
    } else {
        s
    }
}

/// The sequence with whitespace removed at both ends.
pub open spec fn spec_trim(s: Seq<char>) -> Seq<char> {
    spec_trim_end(spec_trim_start(s))
}

proof fn lemma_trim_start_skip(s: Seq<char>, a: int)
    requires
        0 <= a <= s.len(),
        forall|j: int| 0 <= j < a ==> spec_is_ws(s[j]),
    ensures
        spec_trim_start(s) == spec_trim_start(s.skip(a)),
    decreases a,
{
    if a > 0 {
        assert(s.drop_first() =~= s.skip(1));
        lemma_trim_start_skip(s.skip(1), a - 1);
        assert(s.skip(1).skip(a - 1) =~= s.skip(a));
    } else {
        assert(s.skip(0) =~= s);
    }
}

proof fn lemma_trim_end_take(s: Seq<char>, b: int)
    requires
        0 <= b <= s.len(),
        forall|j: int| b <= j < s.len() ==> spec_is_ws(s[j]),
    ensures
        spec_trim_end(s) == spec_trim_end(s.take(b)),
    decreases s.len() - b,
{
    if b < s.len() {
        assert(s.drop_last() =~= s.take(s.len() - 1));
        lemma_trim_end_take(s.take(s.len() - 1), b);
        assert(s.take(s.len() - 1).take(b) =~= s.take(b));
    } else {
        assert(s.take(s.len() as int) =~= s);
    }
}

/// Removes whitespace from both ends of a string.
pub fn trim_ws(s: &str) -> (r: String)
    ensures
        r@ == spec_trim(s@),
{
    let n = s.unicode_len();
    let mut a: usize = 0;
    while a < n && is_ws(s.get_char(a))
        invariant
            a <= n,
            n == s@.len(),
            forall|j: int| 0 <= j < a ==> spec_is_ws(s@[j]),
        decreases n - a,
    {
        a += 1;
    }
    let mut b: usize = n;
    while b > a && is_ws(s.get_char(b - 1))
        invariant
            a <= b <= n,
            n == s@.len(),
            forall|j: int| 0 <= j < a ==> spec_is_ws(s@[j]),
            forall|j: int| b <= j < n ==> spec_is_ws(s@[j]),
            a < n ==> !spec_is_ws(s@[a as int]),
        decreases b,
    {
        b -= 1;
    }
    let r = s.substring_char(a, b).to_owned();
    proof {
        lemma_trim_start_skip(s@, a as int);
        let t = s@.skip(a as int);
        if a < n {
            assert(!spec_is_ws(t[0]));
        }
        assert(spec_trim_start(t) == t);
        lemma_trim_end_take(t, b - a);
        let u = t.take(b - a);
        if b > a {
            assert(u.last() == s@[b - 1]);
            assert(!spec_is_ws(u.last()));
        }
        assert(spec_trim_end(u) == u);
        assert(s@.subrange(a as int, b as int) =~= u);
    }
    r
}

/// The number of words consumed from the sequence, given whether a word was
/// already open when the sequence began.
pub open spec fn spec_words_from(s: Seq<char>, in_word: bool) -> nat
    decreases s.len(),
{
    if s.len() == 0 {
        0
    } else {
        let starts = !spec_is_ws(s[0]) && !in_word;
        (if starts {
            1nat
        } else {
            0nat
        }) + spec_words_from(s.drop_first(), !spec_is_ws(s[0]))
    }
}

/// The number of maximal whitespace-free runs of the sequence.
pub open spec fn spec_word_count(s: Seq<char>) -> nat {
    spec_words_from(s, false)
}

proof fn lemma_words_from_bound(s: Seq<char>, in_word: bool)
    ensures
        spec_words_from(s, in_word) <= s.len(),
    decreases s.len(),
{
    if s.len() > 0 {
        lemma_words_from_bound(s.drop_first(), !spec_is_ws(s[0]));
    }
}

/// Counts the words of a string: its maximal whitespace-free runs.
pub fn word_count(s: &str) -> (count: usize)
    ensures
        count == spec_word_count(s@),
{
    let n = s.unicode_len();
    let mut count: usize = 0;
    let mut in_word = false;
    let mut i: usize = 0;
    proof {
        assert(s@.skip(0) =~= s@);
    }
    while i < n
        invariant
            i <= n,
            n == s@.len(),
            count <= i,
            spec_word_count(s@) == count + spec_words_from(s@.skip(i as int), in_word),
        decreases n - i,
    {
        let c = s.get_char(i);
        proof {
            let t = s@.skip(i as int);
            assert(t[0] == s@[i as int]);
            assert(t.drop_first() =~= s@.skip(i + 1));
            lemma_words_from_bound(s@.skip(i + 1), !spec_is_ws(s@[i as int]));
        }
        if !is_ws(c) {
            if !in_word {
                count += 1;
            }
            in_word = true;
        } else {
            in_word = false;
        }
        i += 1;
    }
    proof {
        assert(s@.skip(n as int) =~= Seq::<char>::empty());
    }
    count
}

} // verus!
