//! File-tool logic: rendering a numbered excerpt of a file, and computing
//! the new contents a write operation produces.  Reading and writing the
//! file itself happens outside; these functions work on the text.

use vstd::prelude::*;

use crate::compact::spec_opt_text;
use crate::text::{
    clone_string_range, join_with, pad_left, spec_dec, spec_join, spec_lines, spec_pad_left,
    split_lines, str_eq, u64_to_dec,
};

verus! {

/// One rendered excerpt row: the line number right-aligned to four columns,
/// a separator, and the line itself.
pub open spec fn spec_excerpt_row(num: nat, line: Seq<char>) -> Seq<char> {
    spec_pad_left(spec_dec(num), 4) + ": "@ + line
}

/// The rendered rows for 1-based line numbers `s1 ..= e1`.
pub open spec fn spec_excerpt_rows(lines: Seq<Seq<char>>, s1: int, e1: int) -> Seq<Seq<char>> {
    Seq::new((e1 - s1 + 1) as nat, |k: int| spec_excerpt_row((s1 + k) as nat, lines[s1 + k - 1]))
}

/// The requested start line, 1-based: absent or zero means the first line.
pub open spec fn spec_excerpt_start(start_line: Option<usize>) -> int {
    let s = match start_line {
        Some(s) => s as int,
        None => 1,
    };
    if s < 1 {
        1
    } else {
        s
    }
}

/// The requested end line, clamped to the file's length; absent means the
/// last line.
pub open spec fn spec_excerpt_end(end_line: Option<usize>, n: int) -> int {
    let e = match end_line {
        Some(e) => e as int,
        None => n,
    };
    if e > n {
        n
    } else {
        e
    }
}

/// The excerpt of a file's lines over an inclusive 1-based range: numbered
/// rows joined by newlines, or a descriptive error text when the start lies
/// beyond the file or not before the end.
pub open spec fn spec_render_excerpt(
    lines: Seq<Seq<char>>,
    start_line: Option<usize>,
    end_line: Option<usize>,
) -> Seq<char> {
    let n = lines.len() as int;
    let s1 = spec_excerpt_start(start_line);
    let e1 = spec_excerpt_end(end_line, n);
    if s1 > n {
        "Start line exceeds file length"@
    } else if s1 >= e1 {
        "Start line must be less than or equal to end line"@
    } else {
        spec_join(spec_excerpt_rows(lines, s1, e1), "\n"@)
    }
}

/// Renders a numbered excerpt of the file's lines, or a descriptive error
/// text for a range the file does not have.  It never fails.
pub fn render_file_excerpt(
    lines: &Vec<String>,
    start_line: Option<usize>,
    end_line: Option<usize>,
) -> (r: String)
    ensures
        r@ == spec_render_excerpt(lines.deep_view(), start_line, end_line),
{
    let n = lines.len();
    let s1: usize = match start_line {
        Some(s) => if s < 1 {
            1
        } else {
            s
        },
        None => 1,
    };
    let e1: usize = match end_line {
        Some(e) => if e > n {
            n
        } else {
            e
        },
        None => n,
    };
    if s1 > n {
        return "Start line exceeds file length".to_owned();
    }
    if s1 >= e1 {
        return "Start line must be less than or equal to end line".to_owned();
    }
    let ghost all = lines.deep_view();
    let ghost rows = spec_excerpt_rows(all, s1 as int, e1 as int);
    let count = e1 - s1 + 1;
    let mut rendered: Vec<String> = Vec::new();
    let mut k: usize = 0;
    proof {
        assert(rendered.deep_view() =~= rows.take(0));
    }
    while k < count
        invariant
            k <= count,
            count == e1 - s1 + 1,
            1 <= s1 <= e1 <= n,
            n == lines.len(),
            all == lines.deep_view(),
            all.len() == n,
            rows == spec_excerpt_rows(all, s1 as int, e1 as int),
            rendered.deep_view() == rows.take(k as int),
        decreases count - k,
    {
        let num = s1 + k;
        let mut row = pad_left(u64_to_dec(num as u64).as_str(), 4);
        row.append(": ");
        row.append(lines[num - 1].as_str());
        let ghost before = rendered.deep_view();
        proof {
            assert(row@ =~= spec_excerpt_row(num as nat, all[num - 1]));
        }
        rendered.push(row);
        proof {
            assert(rendered.deep_view() =~= before.push(rows[k as int]));
            assert(rendered.deep_view() =~= rows.take(k + 1));
        }
        k += 1;
    }
    proof {
        assert(rows.take(count as int) =~= rows);
    }
    join_with(&rendered, "\n")
}

/// How a write operation changes the file.
#[derive(Clone, Copy, Debug, PartialEq, Eq, Structural)]
pub enum WriteMode {
    /// Replace the entire file with the new content.
    Overwrite,
    /// Add the content as new trailing lines, creating the file if absent.
    Append,
    /// Splice the content in before a given 1-based line.
    Insert,
    /// Substitute an inclusive 1-based line range with the content.
    Replace,
}

/// The mode a request names: an absent mode means overwrite, an unknown
/// name is no mode at all.
pub open spec fn spec_parse_write_mode(m: Option<Seq<char>>) -> Option<WriteMode> {
    match m {
        None => Some(WriteMode::Overwrite),
        Some(s) => if s == "overwrite"@ {
            Some(WriteMode::Overwrite)
        } else if s == "append"@ {
            Some(WriteMode::Append)
        } else if s == "insert"@ {
            Some(WriteMode::Insert)
        } else if s == "replace"@ {
            Some(WriteMode::Replace)
        } else {
            None
        },
    }
}

/// Parses the mode named in a write request.
pub fn parse_write_mode(mode: Option<&str>) -> (r: Option<WriteMode>)
    ensures
        r == spec_parse_write_mode(mode.deep_view()),
{
    match mode {
        None => Some(WriteMode::Overwrite),
        Some(s) => {
            if str_eq(s, "overwrite") {
                Some(WriteMode::Overwrite)
            } else if str_eq(s, "append") {
                Some(WriteMode::Append)
            } else if str_eq(s, "insert") {
                Some(WriteMode::Insert)
            } else if str_eq(s, "replace") {
                Some(WriteMode::Replace)
            } else {
                None
            }
        },
    }
}

/// The success message a completed write of the given mode reports.
pub fn write_success_message(mode: WriteMode) -> (r: String)
    ensures
        mode == WriteMode::Overwrite ==> r@ == "File written successfully"@,
        mode == WriteMode::Append ==> r@ == "Content appended successfully"@,
        mode == WriteMode::Insert ==> r@ == "Content inserted successfully"@,
        mode == WriteMode::Replace ==> r@ == "Content replaced successfully"@,
{
    match mode {
        WriteMode::Overwrite => "File written successfully".to_owned(),
        WriteMode::Append => "Content appended successfully".to_owned(),
        WriteMode::Insert => "Content inserted successfully".to_owned(),
        WriteMode::Replace => "Content replaced successfully".to_owned(),
    }
}

/// The new file text a write produces, or a descriptive error when the
/// named line lies beyond the file.  Overwrite keeps the content verbatim;
/// append adds the content's lines after the existing ones and ends the
/// file with a newline; insert splices the content in before the given
/// line; replace substitutes the inclusive range from the start line to
/// the end line, the end defaulting to the start, the start clamped to the
/// first line and the end to the last.
pub open spec fn spec_apply_write(
    existing: Option<Seq<char>>,
    content: Seq<char>,
    mode: WriteMode,
    start_line: Option<usize>,
    end_line: Option<usize>,
) -> Result<Seq<char>, Seq<char>> {
    match mode {
        WriteMode::Overwrite => Ok(content),
        WriteMode::Append => {
            let el = spec_lines(spec_opt_text(existing));
            Ok(spec_join(el + spec_lines(content), "\n"@) + "\n"@)
        },
        WriteMode::Insert => {
            let el = spec_lines(spec_opt_text(existing));
            let at = spec_excerpt_start(start_line) - 1;
            if at <= el.len() {
                Ok(spec_join(el.take(at) + seq![content] + el.skip(at), "\n"@))
            } else {
                Err("Insert line exceeds file length"@)
            }
        },
        WriteMode::Replace => {
            let el = spec_lines(spec_opt_text(existing));
            let s1 = spec_excerpt_start(start_line);
            let e1 = match end_line {
                Some(e) => e as int,
                None => s1,
            };
            if s1 > el.len() {
                Err("Replace line exceeds file length"@)
            } else {
                let e2 = if e1 < s1 {
                    s1 - 1
                } else if e1 > el.len() {
                    el.len() as int
                } else {
                    e1
                };
                Ok(spec_join(el.take(s1 - 1) + spec_lines(content) + el.skip(e2), "\n"@))
            }
        },
    }
}

/// Computes the text a write leaves in the file.  For every mode but
/// overwrite the file is handled line by line; a missing file counts as
/// empty for append and insert, and replace asks for the file's current
/// text.
pub fn apply_write(
    existing: Option<&str>,
    content: &str,
    mode: WriteMode,
    start_line: Option<usize>,
    end_line: Option<usize>,
) -> (r: Result<String, String>)
    requires
        mode == WriteMode::Replace ==> existing is Some,
    ensures
        match r {
            Ok(text) => spec_apply_write(
                existing.deep_view(),
                content@,
                mode,
                start_line,
                end_line,
            ) == Ok::<Seq<char>, Seq<char>>(text@),
            Err(e) => spec_apply_write(existing.deep_view(), content@, mode, start_line, end_line)
                == Err::<Seq<char>, Seq<char>>(e@),
        },
{
    let existing_text: &str = match existing {
        Some(t) => t,
        None => "",
    };
    proof {
        reveal_strlit("");
        assert(existing_text@ =~= spec_opt_text(existing.deep_view()));
    }
    match mode {
        WriteMode::Overwrite => Ok(content.to_owned()),
        WriteMode::Append => {
            let el = split_lines(existing_text);
            let cl = split_lines(content);
            let mut all = el;
            let ghost el_view = all.deep_view();
            let mut cl_moved = cl;
            all.append(&mut cl_moved);
            proof {
                assert(all.deep_view() =~= el_view + spec_lines(content@));
            }
            let mut text = join_with(&all, "\n");
            text.append("\n");
            Ok(text)
        },
        WriteMode::Insert => {
            let el = split_lines(existing_text);
            let at: usize = match start_line {
                Some(s) => if s < 1 {
                    0
                } else {
                    s - 1
                },
                None => 0,
            };
            if at <= el.len() {
                let mut all = clone_string_range(&el, 0, at);
                all.push(content.to_owned());
                let mut rest = clone_string_range(&el, at, el.len());
                let ghost head_view = all.deep_view();
                all.append(&mut rest);
                proof {
                    let ev = el.deep_view();
                    assert(head_view =~= ev.take(at as int).push(content@));
                    assert(all.deep_view() =~= ev.take(at as int) + seq![content@] + ev.skip(
                        at as int,
                    ));
                }
                Ok(join_with(&all, "\n"))
            } else {
                Err("Insert line exceeds file length".to_owned())
            }
        },
        WriteMode::Replace => {
            let el = split_lines(existing_text);
            let s1: usize = match start_line {
                Some(s) => if s < 1 {
                    1
                } else {
                    s
                },
                None => 1,
            };
            let e1: usize = match end_line {
                Some(e) => e,
                None => s1,
            };
            if s1 > el.len() {
                Err("Replace line exceeds file length".to_owned())
            } else {
                let e2: usize = if e1 < s1 {
                    s1 - 1
                } else if e1 > el.len() {
                    el.len()
                } else {
                    e1
                };
                let mut all = clone_string_range(&el, 0, s1 - 1);
                let mut middle = split_lines(content);
                let ghost head_view = all.deep_view();
                all.append(&mut middle);
                let mut rest = clone_string_range(&el, e2, el.len());
                let ghost head_mid_view = all.deep_view();
                all.append(&mut rest);
                proof {
                    let ev = el.deep_view();
                    assert(head_mid_view =~= ev.take(s1 - 1) + spec_lines(content@));
                    assert(all.deep_view() =~= ev.take(s1 - 1) + spec_lines(content@) + ev.skip(
                        e2 as int,
                    ));
                }
                Ok(join_with(&all, "\n"))
            }
        },
    }
}

/// What one diff row shows.
#[derive(Clone, Copy, Debug, PartialEq, Eq, Structural)]
pub enum DiffKind {
    /// An unchanged line shown for orientation.
    Context,
    /// A line the write removes.
    Removed,
    /// A line the write adds.
    Added,
}

/// Mathematical image of a [`DiffLine`].
pub ghost struct DiffLineView {
    pub kind: DiffKind,
    pub line_no: int,
    pub text: Seq<char>,
}

/// One row of the preview diff shown before a write is approved.
#[derive(Debug)]
pub struct DiffLine {
    /// Whether the row is context, removed or added.
    pub kind: DiffKind,
    /// The 1-based line number the row is shown under.
    pub line_no: usize,
    /// The text of the line.
    pub text: String,
}

impl DeepView for DiffLine {
    type V = DiffLineView;

    open spec fn deep_view(&self) -> DiffLineView {
        DiffLineView { kind: self.kind, line_no: self.line_no as int, text: self.text@ }
    }
}

/// The diff of an overwrite: every existing line removed, every new line
/// added, both numbered from one.
pub open spec fn spec_diff_overwrite(el: Seq<Seq<char>>, cl: Seq<Seq<char>>) -> Seq<DiffLineView> {
    Seq::new(
        el.len(),
        |i: int| DiffLineView { kind: DiffKind::Removed, line_no: i + 1, text: el[i] },
    ) + Seq::new(
        cl.len(),
        |i: int| DiffLineView { kind: DiffKind::Added, line_no: i + 1, text: cl[i] },
    )
}

/// The diff of an append: every new line added, shown at the first line
/// past the existing content.
pub open spec fn spec_diff_append(el: Seq<Seq<char>>, cl: Seq<Seq<char>>) -> Seq<DiffLineView> {
    Seq::new(
        cl.len(),
        |i: int| DiffLineView { kind: DiffKind::Added, line_no: el.len() as int + 1, text: cl[i] },
    )
}

/// The diff of an insert: every new line added, shown at the insertion
/// line.
pub open spec fn spec_diff_insert(cl: Seq<Seq<char>>, at: int) -> Seq<DiffLineView> {
    Seq::new(cl.len(), |i: int| DiffLineView { kind: DiffKind::Added, line_no: at, text: cl[i] })
}

/// The diff of a replace: up to three context lines, the removed range, the
/// added lines numbered from the requested start, and up to three context
/// lines after.
pub open spec fn spec_diff_replace(
    el: Seq<Seq<char>>,
    cl: Seq<Seq<char>>,
    start: int,
    end: int,
) -> Seq<DiffLineView> {
    let n = el.len() as int;
    let start_idx = if start < 1 {
        0
    } else {
        start - 1
    };
    let end_idx = if end > n {
        n
    } else {
        end
    };
    let lo0 = if start_idx - 3 < 0 {
        0
    } else {
        start_idx - 3
    };
    let lo = if lo0 > n {
        n
    } else {
        lo0
    };
    let hi1 = if start_idx > n {
        n
    } else {
        start_idx
    };
    let rlo = if start_idx > end_idx {
        end_idx
    } else {
        start_idx
    };
    let hi2 = if end_idx + 3 > n {
        n
    } else {
        end_idx + 3
    };
    Seq::new(
        (hi1 - lo) as nat,
        |i: int| DiffLineView { kind: DiffKind::Context, line_no: lo + i + 1, text: el[lo + i] },
    ) + Seq::new(
        (end_idx - rlo) as nat,
        |i: int| DiffLineView { kind: DiffKind::Removed, line_no: rlo + i + 1, text: el[rlo + i] },
    ) + Seq::new(
        cl.len(),
        |i: int| DiffLineView { kind: DiffKind::Added, line_no: start + i, text: cl[i] },
    ) + Seq::new(
        (hi2 - end_idx) as nat,
        |i: int| DiffLineView {
            kind: DiffKind::Context,
            line_no: end_idx + i + 1,
            text: el[end_idx + i],
        },
    )
}

/// The preview diff of a write against the file's current text.
pub open spec fn spec_write_diff(
    existing: Seq<char>,
    content: Seq<char>,
    mode: WriteMode,
    start_line: Option<usize>,
    end_line: Option<usize>,
) -> Seq<DiffLineView> {
    let el = spec_lines(existing);
    let cl = spec_lines(content);
    match mode {
        WriteMode::Overwrite => spec_diff_overwrite(el, cl),
        WriteMode::Append => spec_diff_append(el, cl),
        WriteMode::Insert => spec_diff_insert(
            cl,
            match start_line {
                Some(s) => s as int,
                None => 1,
            },
        ),
        WriteMode::Replace => {
            let start = match start_line {
                Some(s) => s as int,
                None => 1,
            };
            let end = match end_line {
                Some(e) => e as int,
                None => start,
            };
            spec_diff_replace(el, cl, start, end)
        },
    }
}

/// The rows a segment contributes: one per line of the range, numbered
/// either at a fixed line or consecutively above a base.
pub open spec fn spec_segment_rows(
    lines: Seq<Seq<char>>,
    kind: DiffKind,
    lo: int,
    hi: int,
    fixed_number: Option<usize>,
) -> Seq<DiffLineView> {
    Seq::new(
        (hi - lo) as nat,
        |i: int| DiffLineView {
            kind,
            line_no: match fixed_number {
                Some(f) => f as int,
                None => lo + i + 1,
            },
            text: lines[lo + i],
        },
    )
}

fn push_segment_rows(
    out: &mut Vec<DiffLine>,
    lines: &Vec<String>,
    kind: DiffKind,
    lo: usize,
    hi: usize,
    fixed_number: Option<usize>,
)
    requires
        lo <= hi <= lines.len(),
    ensures
        final(out).deep_view() == old(out).deep_view() + spec_segment_rows(
            lines.deep_view(),
            kind,
            lo as int,
            hi as int,
            fixed_number,
        ),
{
    let ghost base = out.deep_view();
    let ghost expected = spec_segment_rows(
        lines.deep_view(),
        kind,
        lo as int,
        hi as int,
        fixed_number,
    );
    let mut i: usize = lo;
    proof {
        assert(out.deep_view() =~= base + expected.take(0));
    }
    while i < hi
        invariant
            lo <= i <= hi <= lines.len(),
            lines.deep_view().len() == lines.len(),
            expected == spec_segment_rows(
                lines.deep_view(),
                kind,
                lo as int,
                hi as int,
                fixed_number,
            ),
            out.deep_view() == base + expected.take(i - lo),
        decreases hi - i,
    {
        let line_no: usize = match fixed_number {
            Some(f) => f,
            None => i + 1,
        };
        let ghost before = out.deep_view();
        out.push(DiffLine { kind, line_no, text: lines[i].clone() });
        proof {
            assert(out.deep_view() =~= before.push(expected[i - lo]));
            assert(out.deep_view() =~= base + expected.take(i - lo + 1));
        }
        i += 1;
    }
    proof {
        assert(expected.take(hi - lo) =~= expected);
    }
}

/// The replace-mode rows of the preview diff.
#[verifier::rlimit(60)]
fn diff_replace_rows(el: &Vec<String>, cl: &Vec<String>, start: usize, end: usize) -> (r: Vec<
    DiffLine,
>)
    requires
        start + cl.deep_view().len() <= usize::MAX,
    ensures
        r.deep_view() == spec_diff_replace(el.deep_view(), cl.deep_view(), start as int, end as int),
{
    let ghost elv = el.deep_view();
    let ghost clv = cl.deep_view();
    let n = el.len();
    let start_idx: usize = if start < 1 {
        0
    } else {
        start - 1
    };
    let end_idx: usize = if end > n {
        n
    } else {
        end
    };
    let lo0: usize = if start_idx < 3 {
        0
    } else {
        start_idx - 3
    };
    let lo: usize = if lo0 > n {
        n
    } else {
        lo0
    };
    let hi1: usize = if start_idx > n {
        n
    } else {
        start_idx
    };
    let rlo: usize = if start_idx > end_idx {
        end_idx
    } else {
        start_idx
    };
    let hi2: usize = if n - end_idx < 3 {
        n
    } else {
        end_idx + 3
    };
    let ghost added = Seq::new(
        clv.len(),
        |i: int| DiffLineView { kind: DiffKind::Added, line_no: start + i, text: clv[i] },
    );
    let mut out: Vec<DiffLine> = Vec::new();
    push_segment_rows(&mut out, el, DiffKind::Context, lo, hi1, None);
    push_segment_rows(&mut out, el, DiffKind::Removed, rlo, end_idx, None);
    let mut k: usize = 0;
    let ghost with_removed = out.deep_view();
    proof {
        assert(out.deep_view() =~= with_removed + added.take(0));
    }
    while k < cl.len()
        invariant
            k <= cl.len(),
            clv == cl.deep_view(),
            clv.len() == cl.len(),
            start + clv.len() <= usize::MAX,
            added == Seq::new(
                clv.len(),
                |i: int| DiffLineView { kind: DiffKind::Added, line_no: start + i, text: clv[i] },
            ),
            out.deep_view() == with_removed + added.take(k as int),
        decreases cl.len() - k,
    {
        let ghost before = out.deep_view();
        out.push(DiffLine { kind: DiffKind::Added, line_no: start + k, text: cl[k].clone() });
        proof {
            assert(out.deep_view() =~= before.push(added[k as int]));
            assert(out.deep_view() =~= with_removed + added.take(k + 1));
        }
        k += 1;
    }
    proof {
        assert(added.take(cl.len() as int) =~= added);
    }
    push_segment_rows(&mut out, el, DiffKind::Context, end_idx, hi2, None);
    proof {
        assert(out.deep_view() =~= spec_diff_replace(elv, clv, start as int, end as int));
    }
    out
}

/// Computes the preview diff of a write: the rows shown for approval before
/// the file is touched.
pub fn write_diff_lines(
    existing: &str,
    content: &str,
    mode: WriteMode,
    start_line: Option<usize>,
    end_line: Option<usize>,
) -> (r: Vec<DiffLine>)
    requires
        mode == WriteMode::Append ==> spec_lines(existing@).len() < usize::MAX,
        mode == WriteMode::Replace ==> (match start_line {
            Some(s) => s as int,
            None => 1,
        }) + spec_lines(content@).len() <= usize::MAX,
    ensures
        r.deep_view() == spec_write_diff(existing@, content@, mode, start_line, end_line),
{
    let el = split_lines(existing);
    let cl = split_lines(content);
    let ghost elv = el.deep_view();
    let ghost clv = cl.deep_view();
    match mode {
        WriteMode::Overwrite => {
            let mut out: Vec<DiffLine> = Vec::new();
            push_segment_rows(&mut out, &el, DiffKind::Removed, 0, el.len(), None);
            push_segment_rows(&mut out, &cl, DiffKind::Added, 0, cl.len(), None);
            proof {
                assert(out.deep_view() =~= spec_diff_overwrite(elv, clv));
            }
            out
        },
        WriteMode::Append => {
            let mut out: Vec<DiffLine> = Vec::new();
            push_segment_rows(&mut out, &cl, DiffKind::Added, 0, cl.len(), Some(el.len() + 1));
            proof {
                assert(out.deep_view() =~= spec_diff_append(elv, clv));
            }
            out
        },
        WriteMode::Insert => {
            let at: usize = match start_line {
                Some(s) => s,
                None => 1,
            };
            let mut out: Vec<DiffLine> = Vec::new();
            push_segment_rows(&mut out, &cl, DiffKind::Added, 0, cl.len(), Some(at));
            proof {
                assert(out.deep_view() =~= spec_diff_insert(clv, at as int));
            }
            out
        },
        WriteMode::Replace => {
            let start: usize = match start_line {
                Some(s) => s,
                None => 1,
            };
            let end: usize = match end_line {
                Some(e) => e,
                None => start,
            };
            diff_replace_rows(&el, &cl, start, end)
        },
    }
}

} // verus!
