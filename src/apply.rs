use vstd::prelude::*;
use crate::directive::{Snippet, Directive};
use crate::patch::{PatchError, PatchFailure, patch_text, apply_edit};

verus! {

/// The write or removal that one directive makes in the working copy.
#[derive(Clone, Debug)]
pub enum FileChange {
    /// Writes `content` as the whole file at `path`, creating its parent directories.
    Write { path: String, content: String },
    /// Removes the file at `path`.
    Remove { path: String },
}

pub ghost enum Change {
    Write(Seq<char>, Seq<char>),
    Remove(Seq<char>),
}

impl View for FileChange {
    type V = Change;

    open spec fn view(&self) -> Change {
        match self {
            FileChange::Write { path, content } => Change::Write(path@, content@),
            FileChange::Remove { path } => Change::Remove(path@),
        }
    }
}

/// Why a directive cannot be applied.
#[derive(Clone, Debug)]
pub enum ApplyError {
    /// The file that an edit or a delete names does not exist.
    MissingFile { path: String },
    /// The edit does not fit the file's content.
    Patch(PatchError),
}

pub ghost enum ApplyFailure {
    MissingFile(Seq<char>),
    Patch(PatchFailure),
}

impl View for ApplyError {
    type V = ApplyFailure;

    open spec fn view(&self) -> ApplyFailure {
        match self {
            ApplyError::MissingFile { path } => ApplyFailure::MissingFile(path@),
            ApplyError::Patch(e) => ApplyFailure::Patch(e@),
        }
    }
}

/// The file that a directive acts on.
pub open spec fn target(d: Directive) -> Seq<char> {
    match d {
        Directive::Edit { file, .. } => file,
        Directive::Create { path, .. } => path,
        Directive::Delete { path } => path,
    }
}

/// The change that a directive makes, given the current content of its file
/// (`None` where the file does not exist).
pub open spec fn plan_spec(d: Directive, current: Option<Seq<char>>) -> Result<Change, ApplyFailure> {
    match d {
        Directive::Edit { file, line, ops } => match current {
            None => Err(ApplyFailure::MissingFile(file)),
            Some(c) => match patch_text(c, line, ops) {
                Ok(t) => Ok(Change::Write(file, t)),
                Err(f) => Err(ApplyFailure::Patch(f)),
            },
        },
        Directive::Create { path, content } => Ok(Change::Write(path, content)),
        Directive::Delete { path } => match current {
            None => Err(ApplyFailure::MissingFile(path)),
            Some(_) => Ok(Change::Remove(path)),
        },
    }
}

/// The files of a tree, by path, after a change.
pub open spec fn after_change(files: Map<Seq<char>, Seq<char>>, c: Change) -> Map<Seq<char>, Seq<char>> {
    match c {
        Change::Write(p, t) => files.insert(p, t),
        Change::Remove(p) => files.remove(p),
    }
}

/// Applies a directive to a tree of files, by path.
pub open spec fn run_directive(files: Map<Seq<char>, Seq<char>>, d: Directive) -> Result<
    Map<Seq<char>, Seq<char>>,
    ApplyFailure,
> {
    let p = target(d);
    let current = if files.contains_key(p) {
        Some(files[p])
    } else {
        None
    };
    match plan_spec(d, current) {
        Ok(c) => Ok(after_change(files, c)),
        Err(f) => Err(f),
    }
}

pub open spec fn text_views(o: Option<String>) -> Option<Seq<char>> {
    match o {
        Some(s) => Some(s@),
        None => None,
    }
}

impl Snippet {
    /// The path of the file that the directive acts on.
    pub fn target(&self) -> (r: &String)
        ensures
            r@ == target(self@),
    {
        match self {
            Snippet::Edit { file, .. } => file,
            Snippet::Create { path, .. } => path,
            Snippet::Delete { path } => path,
        }
    }
}

/// Decides what a directive does to its file, given that file's current content
/// (`None` where it does not exist): an edit is patched against it, a create writes
/// its content, a delete removes the file.
pub fn plan_snippet(snippet: Snippet, current: Option<String>) -> (r: Result<FileChange, ApplyError>)
    ensures
        match r {
            Ok(c) => plan_spec(snippet@, text_views(current)) == Ok::<Change, ApplyFailure>(c@),
            Err(e) => plan_spec(snippet@, text_views(current)) == Err::<Change, ApplyFailure>(e@),
        },
{
    match snippet {
        Snippet::Edit { file, line, edit_lines } => match current {
            None => Err(ApplyError::MissingFile { path: file }),
            Some(c) => match apply_edit(c.as_str(), line, &edit_lines) {
                Ok(t) => Ok(FileChange::Write { path: file, content: t }),
                Err(e) => Err(ApplyError::Patch(e)),
            },
        },
        Snippet::Create { path, content } => Ok(FileChange::Write { path, content }),
        Snippet::Delete { path } => match current {
            None => Err(ApplyError::MissingFile { path }),
            Some(_) => Ok(FileChange::Remove { path }),
        },
    }
}

/// A create directive always applies, and reading its path afterwards gives exactly
/// its content.
pub proof fn lemma_create_then_read(files: Map<Seq<char>, Seq<char>>, path: Seq<char>, content: Seq<char>)
    ensures
        run_directive(files, Directive::Create { path, content }) is Ok,
        run_directive(files, Directive::Create { path, content })->Ok_0.contains_key(path),
        run_directive(files, Directive::Create { path, content })->Ok_0[path] == content,
{
}

/// A delete directive on a path that does not exist fails.
pub proof fn lemma_delete_missing_fails(files: Map<Seq<char>, Seq<char>>, path: Seq<char>)
    requires
        !files.contains_key(path),
    ensures
        run_directive(files, Directive::Delete { path }) == Err::<Map<Seq<char>, Seq<char>>, ApplyFailure>(
            ApplyFailure::MissingFile(path),
        ),
{
}

} // verus!
