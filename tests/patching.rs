use codebook::apply::{plan_snippet, ApplyError, FileChange};
use codebook::directive::{EditLine, Snippet};
use codebook::patch::{apply_edit, apply_edit_lines, PatchError};
use codebook::text::join_with_newlines;

fn keep(s: &str) -> EditLine {
    EditLine::Keep(s.to_string())
}
fn del(s: &str) -> EditLine {
    EditLine::Delete(s.to_string())
}
fn add(s: &str) -> EditLine {
    EditLine::Add(s.to_string())
}

#[test]
fn keep_then_remove() {
    let r = apply_edit("a\nb\nc", 0, &vec![keep("a"), del("b")]).unwrap();
    assert_eq!(r, "a\nc");
}

#[test]
fn remove_mismatch_reports_both_lines() {
    let e = apply_edit("a", 0, &vec![del("x")]).unwrap_err();
    assert!(matches!(e, PatchError::ContentMismatch { expected, actual } if expected == "x" && actual == "a"));
}

#[test]
fn keep_past_end_is_eof() {
    let e = apply_edit("a", 1, &vec![keep("missing")]).unwrap_err();
    assert!(matches!(e, PatchError::UnexpectedEof { expected } if expected == "missing"));
}

#[test]
fn add_past_end_is_eof() {
    let e = apply_edit("a", 3, &vec![add("x")]).unwrap_err();
    assert!(matches!(e, PatchError::UnexpectedEof { expected } if expected == "x"));
}

#[test]
fn mixed_hunk() {
    let r = apply_edit("fn main() {\n    old();\n}\n", 0, &vec![
        keep("fn main() {"),
        del("    old();"),
        add("    new();"),
        add("    more();"),
        keep("}"),
    ])
    .unwrap();
    assert_eq!(r, "fn main() {\n    new();\n    more();\n}");
}

#[test]
fn add_at_end_and_in_empty_file() {
    assert_eq!(apply_edit("a", 1, &vec![add("b")]).unwrap(), "a\nb");
    assert_eq!(apply_edit("", 0, &vec![add("x"), add("y")]).unwrap(), "x\ny");
}

#[test]
fn empty_operations_normalise_line_endings() {
    assert_eq!(apply_edit("a\r\nb\n", 0, &vec![]).unwrap(), "a\nb");
}

#[test]
fn lines_level_engine() {
    let lines = vec!["a".to_string(), "b".to_string()];
    let r = apply_edit_lines(lines, 1, &vec![keep("b"), add("c")]).unwrap();
    assert_eq!(r, vec!["a".to_string(), "b".to_string(), "c".to_string()]);
    assert_eq!(join_with_newlines(&r), "a\nb\nc");
    assert_eq!(join_with_newlines(&vec![]), "");
}

#[test]
fn create_writes_its_content() {
    let s = Snippet::parse("create: deep/dir/new.txt", "hello\nworld\n").unwrap();
    match plan_snippet(s, None).unwrap() {
        FileChange::Write { path, content } => {
            assert_eq!(path, "deep/dir/new.txt");
            assert_eq!(content, "hello\nworld\n");
        }
        other => panic!("unexpected {:?}", other),
    }
}

#[test]
fn delete_of_missing_file_fails() {
    let s = Snippet::parse("delete: nope.txt", "").unwrap();
    let e = plan_snippet(s, None).unwrap_err();
    assert!(matches!(e, ApplyError::MissingFile { path } if path == "nope.txt"));
}

#[test]
fn delete_of_existing_file_removes_it() {
    let s = Snippet::parse("delete: yes.txt", "").unwrap();
    let c = plan_snippet(s, Some("x".to_string())).unwrap();
    assert!(matches!(c, FileChange::Remove { path } if path == "yes.txt"));
}

#[test]
fn edit_of_missing_file_fails() {
    let s = Snippet::parse("edit: gone.txt@0", "+ a").unwrap();
    let e = plan_snippet(s, None).unwrap_err();
    assert!(matches!(e, ApplyError::MissingFile { path } if path == "gone.txt"));
}

#[test]
fn edit_mismatch_is_a_patch_error() {
    let s = Snippet::parse("edit: f.txt@0", "- q").unwrap();
    let e = plan_snippet(s, Some("a".to_string())).unwrap_err();
    assert!(matches!(e, ApplyError::Patch(PatchError::ContentMismatch { .. })));
}
