use vstd::prelude::*;

verus! {

/// The index of the first newline character at or after `start`, or the
/// length of the text when no newline follows.
pub open spec fn line_end(s: Seq<char>, start: int) -> int
    decreases s.len() - start,
    when 0 <= start <= s.len()
{
    if start >= s.len() {
        s.len() as int
    } else if s[start] == '\n' {
        start
    } else {
        line_end(s, start + 1)
    }
}

pub proof fn lemma_line_end(s: Seq<char>, start: int)
    requires
        0 <= start <= s.len(),
    ensures
        start <= line_end(s, start) <= s.len(),
        forall|k: int| start <= k < line_end(s, start) ==> s[k] != '\n',
        line_end(s, start) < s.len() ==> s[line_end(s, start)] == '\n',
    decreases s.len() - start,
{
    if start < s.len() && s[start] != '\n' {
        lemma_line_end(s, start + 1);
    }
}

pub proof fn lemma_line_end_is(s: Seq<char>, start: int, end: int)
    requires
        0 <= start <= end <= s.len(),
        forall|k: int| start <= k < end ==> s[k] != '\n',
        end < s.len() ==> s[end] == '\n',
    ensures
        line_end(s, start) == end,
    decreases end - start,
{
    if start < end {
        lemma_line_end_is(s, start + 1, end);
    }
}

#[via_fn]
proof fn split_from_decreases(s: Seq<char>, start: int) {
    lemma_line_end(s, start);
}

/// The text from `start` on, split into lines on the newline character.
/// The split of a whole text is `split_from(s, 0)`: it always holds at
/// least one line, and joining its lines with one newline between
/// consecutive lines gives the text back.
pub open spec fn split_from(s: Seq<char>, start: int) -> Seq<Seq<char>>
    decreases s.len() - start,
    when 0 <= start <= s.len()
    via split_from_decreases
{
    let end = line_end(s, start);
    if end >= s.len() {
        seq![s.subrange(start, s.len() as int)]
    } else {
        seq![s.subrange(start, end)] + split_from(s, end + 1)
    }
}

/// The lines of a whole text.
pub open spec fn spec_lines(s: Seq<char>) -> Seq<Seq<char>> {
    split_from(s, 0)
}

/// Split the text into lines on the newline character: `"a\nb"` gives
/// the two lines `"a"` and `"b"`, the empty text gives one empty line,
/// and a trailing newline gives a final empty line.
pub fn split_lines(s: &str) -> (lines: Vec<String>)
    ensures
        lines.deep_view() == spec_lines(s@),
{
    let n = s.unicode_len();
    let mut lines: Vec<String> = Vec::new();
    let mut start: usize = 0;
    let mut j: usize = 0;
    while j < n
        invariant
            n == s@.len(),
            0 <= start <= j <= n,
            forall|k: int| start <= k < j ==> s@[k] != '\n',
            spec_lines(s@) == lines.deep_view() + split_from(s@, start as int),
        decreases n - j,
    {
        if s.get_char(j) == '\n' {
            let ghost old_dv = lines.deep_view();
            let line = s.substring_char(start, j).to_owned();
            lines.push(line);
            proof {
                lemma_line_end_is(s@, start as int, j as int);
                assert(split_from(s@, start as int)
                    == seq![s@.subrange(start as int, j as int)] + split_from(s@, j + 1));
                assert(lines.deep_view() =~= old_dv.push(line@));
                assert(lines.deep_view() + split_from(s@, j + 1)
                    =~= old_dv + split_from(s@, start as int));
            }
            start = j + 1;
        }
        j += 1;
    }
    let ghost old_dv = lines.deep_view();
    let line = s.substring_char(start, n).to_owned();
    lines.push(line);
    proof {
        lemma_line_end_is(s@, start as int, n as int);
        assert(split_from(s@, start as int) =~= seq![s@.subrange(start as int, n as int)]);
        assert(lines.deep_view() =~= old_dv.push(line@));
        assert(lines.deep_view() =~= old_dv + split_from(s@, start as int));
    }
    lines
}

/// Whether two pieces of text hold exactly the same characters.
pub fn str_eq(a: &str, b: &str) -> (r: bool)
    ensures
        r == (a@ == b@),
{
    let na = a.unicode_len();
    let nb = b.unicode_len();
    if na != nb {
        return false;
    }
    let mut i: usize = 0;
    while i < na
        invariant
            na == a@.len(),
            na == b@.len(),
            i <= na,
            forall|k: int| 0 <= k < i ==> a@[k] == b@[k],
        decreases na - i,
    {
        if a.get_char(i) != b.get_char(i) {
            return false;
        }
        i += 1;
    }
    proof {
        assert(a@ =~= b@);
    }
    true
}

/// One queued terminal operation of a frame flush: clear the current
/// line, move the cursor up one line, print the staged line at the
/// given index, or print a line break between two printed lines.
#[derive(Clone, Copy, Debug, PartialEq, Eq, Structural)]
pub enum DrawOp {
    ClearLine,
    CursorUp,
    PutLine(usize),
    LineBreak,
}

/// Whether the previous line at index `i` may keep its screen contents
/// without being cleared: the staged frame has at least as many lines
/// as the previous frame, and the line at that index is unchanged, so
/// it is reprinted with the same content.
pub open spec fn keeps_line(old_lines: Seq<Seq<char>>, new_lines: Seq<Seq<char>>, i: int) -> bool {
    new_lines.len() >= old_lines.len() && new_lines[i] == old_lines[i]
}

/// The operations that erase the previous frame's lines `k - 1` down to
/// `0`: each line is cleared unless it may keep its contents, and the
/// cursor moves up once between consecutive previous lines.
pub open spec fn clear_ops(old_lines: Seq<Seq<char>>, new_lines: Seq<Seq<char>>, k: nat) -> Seq<
    DrawOp,
>
    decreases k,
{
    if k == 0 {
        Seq::empty()
    } else {
        let i = (k - 1) as int;
        (if keeps_line(old_lines, new_lines, i) {
            Seq::empty()
        } else {
            seq![DrawOp::ClearLine]
        }) + (if i > 0 {
            seq![DrawOp::CursorUp]
        } else {
            Seq::empty()
        }) + clear_ops(old_lines, new_lines, (k - 1) as nat)
    }
}

/// The operations that print the staged frame's lines `i` on: every
/// line in order, with one line break between consecutive lines and
/// none after the last.
pub open spec fn print_ops(new_len: nat, i: nat) -> Seq<DrawOp>
    decreases new_len - i,
{
    if i >= new_len {
        Seq::empty()
    } else {
        seq![DrawOp::PutLine(i as usize)] + (if i + 1 < new_len {
            seq![DrawOp::LineBreak]
        } else {
            Seq::empty()
        }) + print_ops(new_len, i + 1)
    }
}

/// The whole operation list of one flush whose previous frame split
/// into `old_lines` and whose staged frame splits into `new_lines`.
pub open spec fn diff_ops_spec(old_lines: Seq<Seq<char>>, new_lines: Seq<Seq<char>>) -> Seq<
    DrawOp,
> {
    clear_ops(old_lines, new_lines, old_lines.len()) + print_ops(new_lines.len(), 0)
}

/// Compute the minimal operation list that replaces the previous
/// frame's lines on screen with the staged frame's lines.
pub fn diff_ops(old_lines: &Vec<String>, new_lines: &Vec<String>) -> (ops: Vec<DrawOp>)
    ensures
        ops@ == diff_ops_spec(old_lines.deep_view(), new_lines.deep_view()),
{
    let ghost old_dv = old_lines.deep_view();
    let ghost new_dv = new_lines.deep_view();
    let mut ops: Vec<DrawOp> = Vec::new();
    let mut k: usize = old_lines.len();
    proof {
        assert(old_dv.len() == old_lines.len());
        assert(new_dv.len() == new_lines.len());
    }
    while k > 0
        invariant
            k <= old_lines.len(),
            old_dv == old_lines.deep_view(),
            new_dv == new_lines.deep_view(),
            old_dv.len() == old_lines@.len(),
            new_dv.len() == new_lines@.len(),
            ops@ + clear_ops(old_dv, new_dv, k as nat)
                == clear_ops(old_dv, new_dv, old_dv.len()),
        decreases k,
    {
        let i = k - 1;
        let keep: bool = if new_lines.len() >= old_lines.len() {
            str_eq(new_lines[i].as_str(), old_lines[i].as_str())
        } else {
            false
        };
        proof {
            assert(new_dv.len() >= old_dv.len() ==> new_dv[i as int] == new_lines@[i as int]@);
            assert(old_dv[i as int] == old_lines@[i as int]@);
            assert(keep == keeps_line(old_dv, new_dv, i as int));
        }
        if !keep {
            ops.push(DrawOp::ClearLine);
        }
        if i > 0 {
            ops.push(DrawOp::CursorUp);
        }
        proof {
            assert(ops@ + clear_ops(old_dv, new_dv, i as nat)
                =~= clear_ops(old_dv, new_dv, old_dv.len()));
        }
        k = i;
    }
    let mut i: usize = 0;
    while i < new_lines.len()
        invariant
            i <= new_lines.len(),
            new_dv == new_lines.deep_view(),
            new_dv.len() == new_lines@.len(),
            ops@ + print_ops(new_dv.len(), i as nat)
                == clear_ops(old_dv, new_dv, old_dv.len()) + print_ops(new_dv.len(), 0),
        decreases new_lines.len() - i,
    {
        ops.push(DrawOp::PutLine(i));
        if i + 1 < new_lines.len() {
            ops.push(DrawOp::LineBreak);
        }
        proof {
            assert(ops@ + print_ops(new_dv.len(), (i + 1) as nat)
                =~= clear_ops(old_dv, new_dv, old_dv.len()) + print_ops(new_dv.len(), 0));
        }
        i += 1;
    }
    proof {
        assert(ops@ =~= diff_ops_spec(old_dv, new_dv));
    }
    ops
}

/// Every printed-line index in a computed operation list points into
/// the staged frame's lines.
pub proof fn lemma_print_indices_bounded(new_len: nat, i: nat)
    requires
        new_len <= usize::MAX,
    ensures
        forall|n: int|
            0 <= n < print_ops(new_len, i).len() && print_ops(new_len, i)[n] is PutLine
                ==> (print_ops(new_len, i)[n]->PutLine_0 as nat) < new_len,
    decreases new_len - i,
{
    if i < new_len {
        lemma_print_indices_bounded(new_len, i + 1);
    }
}

pub proof fn lemma_clear_ops_no_put(old_lines: Seq<Seq<char>>, new_lines: Seq<Seq<char>>, k: nat)
    ensures
        forall|n: int|
            0 <= n < clear_ops(old_lines, new_lines, k).len()
                ==> !(clear_ops(old_lines, new_lines, k)[n] is PutLine),
    decreases k,
{
    if k > 0 {
        lemma_clear_ops_no_put(old_lines, new_lines, (k - 1) as nat);
    }
}

/// Law (diff stability): flushing a frame that is byte-identical to the
/// last written frame issues no operation at all.
pub proof fn lemma_diff_stability(last: Option<Seq<char>>, view: Seq<char>)
    requires
        last == Some(view),
    ensures
        frame_ops_spec(last, view) == Seq::<DrawOp>::empty(),
{
}

/// The operations one flush issues, given the last frame written to the
/// terminal and the staged frame: nothing at all when the staged frame
/// is byte-identical to the last one, and the line diff otherwise.
pub open spec fn frame_ops_spec(last: Option<Seq<char>>, view: Seq<char>) -> Seq<DrawOp> {
    if last == Some(view) {
        Seq::empty()
    } else {
        let old_lines = match last {
            Some(prev) => spec_lines(prev),
            None => Seq::empty(),
        };
        diff_ops_spec(old_lines, spec_lines(view))
    }
}

/// The view of an optional frame: the character sequence it stores, if
/// there is one.
pub open spec fn view_of_last(last: Option<String>) -> Option<Seq<char>> {
    match last {
        Some(prev) => Some(prev@),
        None => None,
    }
}

/// A flush whose staged frame differs from the last written frame
/// always issues at least one operation: the staged frame's first line
/// is printed.
pub proof fn lemma_frame_ops_nonempty(last: Option<Seq<char>>, view: Seq<char>)
    requires
        last != Some(view),
    ensures
        frame_ops_spec(last, view).len() >= 1,
{
    let new_lines = spec_lines(view);
    assert(new_lines.len() >= 1);
    assert(print_ops(new_lines.len(), 0).len() >= 1);
}

/// Compute the operations of one flush, together with the staged
/// frame's lines that the print operations index into.
pub fn frame_ops(last: &Option<String>, view: &str) -> (r: (Vec<DrawOp>, Vec<String>))
    ensures
        r.0@ == frame_ops_spec(view_of_last(*last), view@),
        r.1.deep_view() == spec_lines(view@),
        forall|n: int|
            0 <= n < r.0@.len() && r.0@[n] is PutLine ==> (r.0@[n]->PutLine_0 as int)
                < r.1.len(),
{
    let new_lines = split_lines(view);
    let new_count = new_lines.len();
    proof {
        assert(new_lines@.len() == new_count as int);
        assert(new_lines.deep_view().len() == new_lines@.len());
        assert(new_lines.deep_view().len() <= usize::MAX);
    }
    match last {
        Some(prev) => {
            if str_eq(prev.as_str(), view) {
                let ops: Vec<DrawOp> = Vec::new();
                (ops, new_lines)
            } else {
                let old_lines = split_lines(prev.as_str());
                let ops = diff_ops(&old_lines, &new_lines);
                proof {
                    lemma_ops_bounded(old_lines.deep_view(), new_lines.deep_view());
                }
                (ops, new_lines)
            }
        },
        None => {
            let old_lines: Vec<String> = Vec::new();
            let ops = diff_ops(&old_lines, &new_lines);
            proof {
                assert(old_lines.deep_view() =~= Seq::<Seq<char>>::empty());
                lemma_ops_bounded(old_lines.deep_view(), new_lines.deep_view());
            }
            (ops, new_lines)
        },
    }
}

proof fn lemma_ops_bounded(old_lines: Seq<Seq<char>>, new_lines: Seq<Seq<char>>)
    requires
        new_lines.len() <= usize::MAX,
    ensures
        forall|n: int|
            0 <= n < diff_ops_spec(old_lines, new_lines).len() && diff_ops_spec(
                old_lines,
                new_lines,
            )[n] is PutLine ==> (diff_ops_spec(old_lines, new_lines)[n]->PutLine_0 as int)
                < new_lines.len(),
{
    lemma_clear_ops_no_put(old_lines, new_lines, old_lines.len());
    lemma_print_indices_bounded(new_lines.len(), 0);
}

} // verus!
