use codebook::apply::{plan_snippet, FileChange};
use codebook::config::{Config, TestConfig};
use codebook::directive::{ParseError, Snippet};
use codebook::document::{get_snippets, DocNode};
use codebook::sequence::{Phase, SeqAction, Sequencer};
use codebook::validate::{parse_test_command, CommandError, CommandOutcome, StepStatus, ValidationReport};
use std::collections::BTreeMap;

fn code(meta: Option<&str>, value: &str) -> DocNode {
    DocNode::Code { meta: meta.map(|m| m.to_string()), value: value.to_string() }
}

fn container(children: Vec<DocNode>) -> DocNode {
    DocNode::Container { children }
}

/// Drives a sequencer, applying each directive with `apply` and acknowledging each
/// callback with `notify`; returns the indices notified and the last action.
fn drive(total: usize, mut apply: impl FnMut(usize) -> bool, mut notify: impl FnMut(usize) -> bool) -> (Vec<usize>, SeqAction) {
    let mut s = Sequencer::new(total);
    let mut notified = Vec::new();
    let mut a = s.action();
    loop {
        a = match a {
            SeqAction::Apply(i) => s.advance(apply(i)),
            SeqAction::Notify(i) => {
                notified.push(i);
                s.advance(notify(i))
            }
            SeqAction::Finished | SeqAction::Stopped(_) => return (notified, a),
        };
    }
}

#[test]
fn collector_walks_depth_first_in_order() {
    let doc = container(vec![
        code(None, "plain example"),
        code(Some("create: a.txt"), "one"),
        container(vec![code(Some("delete: b.txt"), ""), container(vec![code(Some("edit: a.txt@0"), "+ zero")])]),
        code(Some("create: c.txt"), "three"),
    ]);
    let v = get_snippets(&doc).unwrap();
    let d: Vec<String> = v.iter().map(|s| s.describe()).collect();
    assert_eq!(d, vec!["create: a.txt", "delete: b.txt", "edit: a.txt@0", "create: c.txt"]);
}

#[test]
fn collector_stops_at_first_bad_block() {
    let doc = container(vec![
        code(Some("create: a.txt"), "one"),
        container(vec![code(Some("move: x"), "")]),
        code(Some("nonsense"), ""),
    ]);
    let e = get_snippets(&doc).unwrap_err();
    assert!(matches!(e, ParseError::UnknownAction { action } if action == "move"));
    assert!(get_snippets(&container(vec![])).unwrap().is_empty());
}

#[test]
fn callbacks_stop_before_failing_directive() {
    let (notified, last) = drive(5, |i| i != 3, |_| true);
    assert_eq!(notified, vec![0, 1, 2]);
    assert_eq!(last, SeqAction::Stopped(3));
}

#[test]
fn callback_failure_stops_the_run() {
    let (notified, last) = drive(4, |_| true, |i| i != 1);
    assert_eq!(notified, vec![0, 1]);
    assert_eq!(last, SeqAction::Stopped(1));
}

#[test]
fn run_over_everything_and_over_nothing() {
    let (notified, last) = drive(3, |_| true, |_| true);
    assert_eq!(notified, vec![0, 1, 2]);
    assert_eq!(last, SeqAction::Finished);
    let (notified, last) = drive(0, |_| true, |_| true);
    assert!(notified.is_empty());
    assert_eq!(last, SeqAction::Finished);
    let mut s = Sequencer::new(1);
    assert_eq!(s.advance(false), SeqAction::Stopped(0));
    assert_eq!(s.phase, Phase::DirectiveFailed);
    assert_eq!(s.advance(true), SeqAction::Stopped(0));
}

#[test]
fn round_trip_on_a_fixture() {
    let mut files: BTreeMap<String, String> = BTreeMap::new();
    files.insert("src/main.rs".to_string(), "fn main() {\n    old();\n}\n".to_string());
    files.insert("notes.txt".to_string(), "scratch".to_string());
    let doc = container(vec![
        code(Some("create: src/lib.rs"), "pub fn f() {}\n"),
        container(vec![code(Some("edit: src/main.rs@0"), "fn main() {\n-     old();\n+     new();\n}")]),
        code(Some("delete: notes.txt"), ""),
    ]);
    let snippets = get_snippets(&doc).unwrap();
    for s in snippets {
        let current = files.get(s.target().as_str()).cloned();
        match plan_snippet(s, current).unwrap() {
            FileChange::Write { path, content } => {
                files.insert(path, content);
            }
            FileChange::Remove { path } => {
                files.remove(&path);
            }
        }
    }
    let mut expected: BTreeMap<String, String> = BTreeMap::new();
    expected.insert("src/lib.rs".to_string(), "pub fn f() {}\n".to_string());
    expected.insert("src/main.rs".to_string(), "fn main() {\n    new();\n}".to_string());
    assert_eq!(files, expected);
}

#[test]
fn failing_command_is_reported_not_fatal() {
    let mut report = ValidationReport::new();
    let (notified, last) = drive(3, |_| true, |i| {
        report.record(Some(CommandOutcome {
            success: i != 1,
            code: Some(if i == 1 { 2 } else { 0 }),
            stdout: format!("out {}", i),
            stderr: format!("err {}", i),
        }));
        true
    });
    assert_eq!(notified, vec![0, 1, 2]);
    assert_eq!(last, SeqAction::Finished);
    let kinds: Vec<bool> = report.steps.iter().map(|s| matches!(s, StepStatus::Passed { .. })).collect();
    assert_eq!(kinds, vec![true, false, true]);
    assert!(matches!(&report.steps[1], StepStatus::Failed { code: Some(2), stderr } if stderr == "err 1"));
    assert!(matches!(&report.steps[2], StepStatus::Passed { stdout: Some(o) } if o == "out 2"));
    assert!(report.any_failed());
}

#[test]
fn without_command_every_step_passes() {
    let mut report = ValidationReport::new();
    report.record(None);
    report.record(None);
    assert!(matches!(&report.steps[0], StepStatus::Passed { stdout: None }));
    assert!(!report.any_failed());
}

#[test]
fn command_line_is_tokenized_with_quotes() {
    let c = parse_test_command("cargo test -- 'a b' \"c d\"").unwrap();
    assert_eq!(c.program, "cargo");
    assert_eq!(c.args, vec!["test", "--", "a b", "c d"]);
}

#[test]
fn bad_or_empty_command_line_is_an_error() {
    let e = parse_test_command("echo 'unterminated").unwrap_err();
    assert!(matches!(e, CommandError::Untokenizable { command } if command == "echo 'unterminated"));
    let e = parse_test_command("   ").unwrap_err();
    assert!(matches!(e, CommandError::Empty { .. }));
}

#[test]
fn file_index_uses_cleaned_path() {
    let config = Config {
        files: vec!["intro.md".to_string(), "docs/step.md".to_string()],
        test: Some(TestConfig { command: Some("make".to_string()) }),
    };
    assert_eq!(config.get_file_idx("./docs/../docs/step.md"), Some(1));
    assert_eq!(config.get_file_idx("intro.md"), Some(0));
    assert_eq!(config.get_file_idx("other.md"), None);
    assert_eq!(config.position_of("./intro.md"), None);
    assert_eq!(config.test_command().map(|c| c.as_str()), Some("make"));
    let bare = Config { files: vec![], test: Some(TestConfig { command: None }) };
    assert_eq!(bare.test_command(), None);
}
