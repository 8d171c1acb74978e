use vstd::prelude::*;
use crate::text::{lines_of, views, join_lines, split_lines, join_with_newlines};
use crate::directive::{EditLine, LineOp, Snippet, Directive, op_views};

verus! {

/// Why an edit does not fit the file it is applied to.
#[derive(Clone, Debug)]
pub enum PatchError {
    /// The cursor stands past the last line where `expected` was to be.
    UnexpectedEof { expected: String },
    /// The line at the cursor is `actual` where `expected` was to be.
    ContentMismatch { expected: String, actual: String },
}

pub ghost enum PatchFailure {
    UnexpectedEof(Seq<char>),
    ContentMismatch(Seq<char>, Seq<char>),
}

impl View for PatchError {
    type V = PatchFailure;

    open spec fn view(&self) -> PatchFailure {
        match self {
            PatchError::UnexpectedEof { expected } => PatchFailure::UnexpectedEof(expected@),
            PatchError::ContentMismatch { expected, actual } => PatchFailure::ContentMismatch(
                expected@,
                actual@,
            ),
        }
    }
}

/// The check of the line under the cursor against `t`.
pub open spec fn check_line(lines: Seq<Seq<char>>, cursor: int, t: Seq<char>) -> Option<PatchFailure> {
    if cursor >= lines.len() {
        Some(PatchFailure::UnexpectedEof(t))
    } else if lines[cursor] != t {
        Some(PatchFailure::ContentMismatch(t, lines[cursor]))
    } else {
        None
    }
}

/// Replays the operations on the lines, the cursor starting at `cursor`.
pub open spec fn patch_lines(lines: Seq<Seq<char>>, cursor: int, ops: Seq<LineOp>) -> Result<
    Seq<Seq<char>>,
    PatchFailure,
>
    decreases ops.len(),
{
    if ops.len() == 0 {
        Ok(lines)
    } else {
        let rest = ops.drop_first();
        match ops[0] {
            LineOp::Add(t) => if cursor <= lines.len() {
                patch_lines(lines.insert(cursor, t), cursor + 1, rest)
            } else {
                Err(PatchFailure::UnexpectedEof(t))
            },
            LineOp::Delete(t) => match check_line(lines, cursor, t) {
                Some(f) => Err(f),
                None => patch_lines(lines.remove(cursor), cursor, rest),
            },
            LineOp::Keep(t) => match check_line(lines, cursor, t) {
                Some(f) => Err(f),
                None => patch_lines(lines, cursor + 1, rest),
            },
        }
    }
}

/// The new text of a file after an edit at `line`, or why the edit does not fit.
pub open spec fn patch_text(content: Seq<char>, line: nat, ops: Seq<LineOp>) -> Result<
    Seq<char>,
    PatchFailure,
> {
    match patch_lines(lines_of(content), line as int, ops) {
        Ok(ls) => Ok(join_lines(ls)),
        Err(f) => Err(f),
    }
}

/// Replays edit operations on a sequence of lines, verifying each kept and deleted
/// line against what stands under the cursor.
pub fn apply_edit_lines(lines: Vec<String>, line: usize, edits: &Vec<EditLine>) -> (r: Result<
    Vec<String>,
    PatchError,
>)
    ensures
        match r {
            Ok(ls) => patch_lines(views(lines@), line as int, op_views(edits@)) == Ok::<
                Seq<Seq<char>>,
                PatchFailure,
            >(views(ls@)),
            Err(e) => patch_lines(views(lines@), line as int, op_views(edits@)) == Err::<
                Seq<Seq<char>>,
                PatchFailure,
            >(e@),
        },
{
    let ghost goal = patch_lines(views(lines@), line as int, op_views(edits@));
    let mut cur = lines;
    let mut idx: usize = line;
    let mut i: usize = 0;
    assert(op_views(edits@).skip(0) =~= op_views(edits@));
    while i < edits.len()
        invariant
            i <= edits.len(),
            goal == patch_lines(views(lines@), line as int, op_views(edits@)),
            goal == patch_lines(views(cur@), idx as int, op_views(edits@).skip(i as int)),
        decreases edits.len() - i,
    {
        let ghost ls = views(cur@);
        let ghost ops = op_views(edits@).skip(i as int);
        assert(ops.drop_first() =~= op_views(edits@).skip(i + 1));
        assert(ops[0] == edits@[i as int]@);
        match &edits[i] {
            EditLine::Add(t) => {
                if idx > cur.len() {
                    return Err(PatchError::UnexpectedEof { expected: t.clone() });
                }
                cur.insert(idx, t.clone());
                assert(views(cur@) =~= ls.insert(idx as int, t@));
                let n = cur.len();
                assert(idx < n);
                idx = idx + 1;
            },
            EditLine::Delete(t) => {
                if idx >= cur.len() {
                    return Err(PatchError::UnexpectedEof { expected: t.clone() });
                }
                if !cur[idx].eq(t) {
                    return Err(
                        PatchError::ContentMismatch { expected: t.clone(), actual: cur[idx].clone() },
                    );
                }
                cur.remove(idx);
                assert(views(cur@) =~= ls.remove(idx as int));
            },
            EditLine::Keep(t) => {
                if idx >= cur.len() {
                    return Err(PatchError::UnexpectedEof { expected: t.clone() });
                }
                if !cur[idx].eq(t) {
                    return Err(
                        PatchError::ContentMismatch { expected: t.clone(), actual: cur[idx].clone() },
                    );
                }
                idx = idx + 1;
            },
        }
        i = i + 1;
    }
    assert(op_views(edits@).skip(i as int).len() == 0);
    Ok(cur)
}

/// Applies an edit to a file's text: splits it into lines, replays the operations
/// from the 0-based `line` on, and joins the result with newlines.
pub fn apply_edit(content: &str, line: usize, edits: &Vec<EditLine>) -> (r: Result<String, PatchError>)
    ensures
        match r {
            Ok(s) => patch_text(content@, line as nat, op_views(edits@)) == Ok::<Seq<char>, PatchFailure>(s@),
            Err(e) => patch_text(content@, line as nat, op_views(edits@)) == Err::<Seq<char>, PatchFailure>(e@),
        },
{
    let lines = split_lines(content);
    match apply_edit_lines(lines, line, edits) {
        Ok(ls) => Ok(join_with_newlines(&ls)),
        Err(e) => Err(e),
    }
}

} // verus!
