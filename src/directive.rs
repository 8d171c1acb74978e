use vstd::prelude::*;
use vstd::string::StringExecFns;
use crate::text::{
    lines_of, trim_of, split_first, decimal_usize, views, split_lines, trim_text,
    split_once_char, strip_prefix_text, parse_usize,
};

verus! {

/// One classified line of an edit body.
#[derive(Clone, Debug)]
pub enum EditLine {
    /// A line inserted at the cursor.
    Add(String),
    /// A line that must be at the cursor and is removed.
    Delete(String),
    /// A context line that must be at the cursor and stays.
    Keep(String),
}

/// What an [`EditLine`] says, over plain text.
pub ghost enum LineOp {
    Add(Seq<char>),
    Delete(Seq<char>),
    Keep(Seq<char>),
}

impl View for EditLine {
    type V = LineOp;

    open spec fn view(&self) -> LineOp {
        match self {
            EditLine::Add(t) => LineOp::Add(t@),
            EditLine::Delete(t) => LineOp::Delete(t@),
            EditLine::Keep(t) => LineOp::Keep(t@),
        }
    }
}

pub open spec fn op_views(v: Seq<EditLine>) -> Seq<LineOp> {
    v.map_values(|e: EditLine| e@)
}

/// A typed mutation of a project tree, taken from one annotated code block.
#[derive(Clone, Debug)]
pub enum Snippet {
    /// Patches `file` from the 0-based line `line` on.
    Edit { file: String, line: usize, edit_lines: Vec<EditLine> },
    /// Writes `content` to `path`, creating parent directories.
    Create { path: String, content: String },
    /// Removes the file at `path`.
    Delete { path: String },
}

/// What a [`Snippet`] says, over plain values.
pub ghost enum Directive {
    Edit { file: Seq<char>, line: nat, ops: Seq<LineOp> },
    Create { path: Seq<char>, content: Seq<char> },
    Delete { path: Seq<char> },
}

impl View for Snippet {
    type V = Directive;

    open spec fn view(&self) -> Directive {
        match self {
            Snippet::Edit { file, line, edit_lines } => Directive::Edit {
                file: file@,
                line: *line as nat,
                ops: op_views(edit_lines@),
            },
            Snippet::Create { path, content } => Directive::Create { path: path@, content: content@ },
            Snippet::Delete { path } => Directive::Delete { path: path@ },
        }
    }
}

/// Why an annotation could not be read.
#[derive(Clone, Debug)]
pub enum ParseError {
    /// The annotation holds no `:` between action and location.
    MissingColon { annotation: String },
    /// An edit location holds no `@` between file and line.
    MissingAt { location: String },
    /// The line of an edit location is not a base-10 `usize`.
    BadLine { text: String },
    /// The action is none of `edit`, `create`, `delete`.
    UnknownAction { action: String },
}

pub ghost enum ParseFailure {
    MissingColon(Seq<char>),
    MissingAt(Seq<char>),
    BadLine(Seq<char>),
    UnknownAction(Seq<char>),
}

impl View for ParseError {
    type V = ParseFailure;

    open spec fn view(&self) -> ParseFailure {
        match self {
            ParseError::MissingColon { annotation } => ParseFailure::MissingColon(annotation@),
            ParseError::MissingAt { location } => ParseFailure::MissingAt(location@),
            ParseError::BadLine { text } => ParseFailure::BadLine(text@),
            ParseError::UnknownAction { action } => ParseFailure::UnknownAction(action@),
        }
    }
}

/// How one body line of an edit is classified by its two-character prefix.
pub open spec fn classify(l: Seq<char>) -> LineOp {
    if seq!['+', ' '].is_prefix_of(l) {
        LineOp::Add(l.subrange(2, l.len() as int))
    } else if seq!['-', ' '].is_prefix_of(l) {
        LineOp::Delete(l.subrange(2, l.len() as int))
    } else {
        LineOp::Keep(l)
    }
}

/// The operations of an edit body: one per line, in order.
pub open spec fn edit_ops(body: Seq<char>) -> Seq<LineOp> {
    lines_of(body).map_values(|l: Seq<char>| classify(l))
}

/// Whether the operations change anything (an edit without adds or deletes is suspicious).
pub open spec fn has_changes(ops: Seq<LineOp>) -> bool {
    exists|i: int| 0 <= i < ops.len() && !(#[trigger] ops[i] is Keep)
}

/// The directive, or the failure, that an annotation and a body give.
pub open spec fn parse_spec(annotation: Seq<char>, body: Seq<char>) -> Result<Directive, ParseFailure> {
    let a = trim_of(annotation);
    match split_first(a, ':') {
        None => Err(ParseFailure::MissingColon(a)),
        Some((action, rest)) => {
            if action == seq!['e', 'd', 'i', 't'] {
                match split_first(rest, '@') {
                    None => Err(ParseFailure::MissingAt(rest)),
                    Some((file, line)) => match decimal_usize(line) {
                        None => Err(ParseFailure::BadLine(line)),
                        Some(n) => Ok(Directive::Edit { file: trim_of(file), line: n, ops: edit_ops(body) }),
                    },
                }
            } else if action == seq!['c', 'r', 'e', 'a', 't', 'e'] {
                Ok(Directive::Create { path: trim_of(rest), content: body })
            } else if action == seq!['d', 'e', 'l', 'e', 't', 'e'] {
                Ok(Directive::Delete { path: trim_of(rest) })
            } else {
                Err(ParseFailure::UnknownAction(action))
            }
        },
    }
}

/// The decimal digit for `d < 10`.
pub open spec fn digit_char(d: nat) -> char {
    seq!['0', '1', '2', '3', '4', '5', '6', '7', '8', '9'][d as int]
}

/// The base-10 text of a number, without leading zeros.
pub open spec fn decimal_digits(n: nat) -> Seq<char>
    decreases n,
{
    if n < 10 {
        seq![digit_char(n)]
    } else {
        decimal_digits(n / 10) + seq![digit_char(n % 10)]
    }
}

/// The one-line description of a directive: its annotation, without the body.
pub open spec fn describe_spec(d: Directive) -> Seq<char> {
    match d {
        Directive::Edit { file, line, .. } => seq!['e', 'd', 'i', 't', ':', ' '] + file + seq!['@']
            + decimal_digits(line),
        Directive::Create { path, .. } => seq!['c', 'r', 'e', 'a', 't', 'e', ':', ' '] + path,
        Directive::Delete { path } => seq!['d', 'e', 'l', 'e', 't', 'e', ':', ' '] + path,
    }
}

/// Relies on `<usize as ToString>::to_string`: the base-10 text of a number.
#[verifier::external_body]
fn decimal_text(n: usize) -> (r: String)
    ensures
        r@ == decimal_digits(n as nat),
{
    n.to_string()
}

/// Whether `s` is exactly the word `w`.
fn is_word(s: &String, w: &str) -> (r: bool)
    ensures
        r == (s@ == w@),
{
    let t = String::from_str(w);
    s.eq(&t)
}

/// Classifies one body line.
fn classify_line(l: &str) -> (r: EditLine)
    ensures
        r@ == classify(l@),
{
    proof {
        reveal_strlit("+ ");
        reveal_strlit("- ");
        assert("+ "@ =~= seq!['+', ' ']);
        assert("- "@ =~= seq!['-', ' ']);
    }
    match strip_prefix_text(l, "+ ") {
        Some(t) => EditLine::Add(t),
        None => match strip_prefix_text(l, "- ") {
            Some(t) => EditLine::Delete(t),
            None => EditLine::Keep(l.to_string()),
        },
    }
}

impl Snippet {
    /// The one-line description of the directive, as its annotation reads.
    pub fn describe(&self) -> (r: String)
        ensures
            r@ == describe_spec(self@),
    {
        proof {
            reveal_strlit("edit: ");
            reveal_strlit("create: ");
            reveal_strlit("delete: ");
            reveal_strlit("@");
        }
        match self {
            Snippet::Edit { file, line, .. } => {
                let mut r = String::from_str("edit: ");
                r.append(file.as_str());
                r.append("@");
                let n = decimal_text(*line);
                r.append(n.as_str());
                r
            },
            Snippet::Create { path, .. } => {
                let mut r = String::from_str("create: ");
                r.append(path.as_str());
                r
            },
            Snippet::Delete { path } => {
                let mut r = String::from_str("delete: ");
                r.append(path.as_str());
                r
            },
        }
    }

    /// Whether the directive is an edit that neither adds nor deletes a line: allowed,
    /// but suspicious.
    pub fn is_noop_edit(&self) -> (r: bool)
        ensures
            r == (self@ is Edit && !has_changes(self@->Edit_ops)),
    {
        match self {
            Snippet::Edit { edit_lines, .. } => {
                let mut i: usize = 0;
                while i < edit_lines.len()
                    invariant
                        i <= edit_lines@.len(),
                        self@->Edit_ops == op_views(edit_lines@),
                        forall|j: int| 0 <= j < i ==> (#[trigger] op_views(edit_lines@)[j]) is Keep,
                    decreases edit_lines.len() - i,
                {
                    match &edit_lines[i] {
                        EditLine::Keep(_) => {},
                        _ => {
                            assert(!(op_views(edit_lines@)[i as int] is Keep));
                            return false;
                        },
                    }
                    i = i + 1;
                }
                true
            },
            _ => false,
        }
    }

    /// Classifies each line of an edit body: `"+ "` adds, `"- "` deletes, anything
    /// else is kept verbatim.
    pub fn parse_edit_content(content: &str) -> (r: Vec<EditLine>)
        ensures
            op_views(r@) == edit_ops(content@),
    {
        let lines = split_lines(content);
        let mut edits: Vec<EditLine> = Vec::new();
        let mut i: usize = 0;
        while i < lines.len()
            invariant
                i <= lines.len(),
                views(lines@) == lines_of(content@),
                op_views(edits@) == lines_of(content@).take(i as int).map_values(|l: Seq<char>| classify(l)),
            decreases lines.len() - i,
        {
            let e = classify_line(lines[i].as_str());
            let ghost before = edits@;
            edits.push(e);
            proof {
                assert(edits@ =~= before.push(e));
                assert(op_views(edits@) =~= op_views(before).push(e@));
                assert(lines_of(content@).take(i + 1) =~= lines_of(content@).take(i as int).push(lines_of(content@)[i as int]));
                assert(lines_of(content@)[i as int] == lines@[i as int]@);
                assert(op_views(edits@) =~= lines_of(content@).take(i + 1).map_values(|l: Seq<char>| classify(l)));
            }
            i = i + 1;
        }
        assert(lines_of(content@).take(i as int) =~= lines_of(content@));
        edits
    }

    /// Reads an annotation `<action>:<rest>` and the block's body as a directive.
    pub fn parse(metadata: &str, content: &str) -> (r: Result<Snippet, ParseError>)
        ensures
            match r {
                Ok(s) => parse_spec(metadata@, content@) == Ok::<Directive, ParseFailure>(s@),
                Err(e) => parse_spec(metadata@, content@) == Err::<Directive, ParseFailure>(e@),
            },
    {
        let metadata = trim_text(metadata);
        let (action, rest) = match split_once_char(metadata.as_str(), ':') {
            Some(p) => p,
            None => return Err(ParseError::MissingColon { annotation: metadata }),
        };
        proof {
            reveal_strlit("edit");
            reveal_strlit("create");
            reveal_strlit("delete");
            assert("edit"@ =~= seq!['e', 'd', 'i', 't']);
            assert("create"@ =~= seq!['c', 'r', 'e', 'a', 't', 'e']);
            assert("delete"@ =~= seq!['d', 'e', 'l', 'e', 't', 'e']);
        }
        if is_word(&action, "edit") {
            let (file, line) = match split_once_char(rest.as_str(), '@') {
                Some(p) => p,
                None => return Err(ParseError::MissingAt { location: rest }),
            };
            let n = match parse_usize(line.as_str()) {
                Some(n) => n,
                None => return Err(ParseError::BadLine { text: line }),
            };
            let edits = Snippet::parse_edit_content(content);
            Ok(Snippet::Edit { file: trim_text(file.as_str()), line: n, edit_lines: edits })
        } else if is_word(&action, "create") {
            Ok(Snippet::Create { path: trim_text(rest.as_str()), content: content.to_string() })
        } else if is_word(&action, "delete") {
            Ok(Snippet::Delete { path: trim_text(rest.as_str()) })
        } else {
            Err(ParseError::UnknownAction { action })
        }
    }
}

} // verus!
