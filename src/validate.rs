use vstd::prelude::*;
use crate::text::views;

verus! {

/// The words that `shlex::split` finds in a command line, if it can tokenize it.
pub uninterp spec fn shell_words(s: Seq<char>) -> Option<Seq<Seq<char>>>;

/// Relies on `shlex::split`: splits a command line into words with shell-style
/// quoting, or gives `None` when the line cannot be tokenized.
#[verifier::external_body]
fn split_words(s: &str) -> (r: Option<Vec<String>>)
    ensures
        match r {
            Some(v) => shell_words(s@) == Some(views(v@)),
            None => shell_words(s@) is None,
        },
{
    shlex::split(s)
}

/// A validation command: the program to run and its arguments.
#[derive(Clone, Debug)]
pub struct TestCommand {
    pub program: String,
    pub args: Vec<String>,
}

/// Why a validation command cannot be run.
#[derive(Clone, Debug)]
pub enum CommandError {
    /// The command line cannot be tokenized.
    Untokenizable { command: String },
    /// The command line holds no word.
    Empty { command: String },
}

/// Makes a command from the words of a command line (`None` where it could not be
/// tokenized): the first word is the program, the others its arguments.
pub fn command_from_words(command: &str, words: Option<Vec<String>>) -> (r: Result<TestCommand, CommandError>)
    ensures
        match words {
            None => r matches Err(CommandError::Untokenizable { command: c }) && c@ == command@,
            Some(w) => if w@.len() == 0 {
                r matches Err(CommandError::Empty { command: c }) && c@ == command@
            } else {
                r matches Ok(t) && t.program@ == w@[0]@ && views(t.args@) == views(w@).drop_first()
            },
        },
{
    match words {
        None => Err(CommandError::Untokenizable { command: command.to_string() }),
        Some(w) => {
            if w.len() == 0 {
                Err(CommandError::Empty { command: command.to_string() })
            } else {
                let ghost all = w@;
                let mut args = w;
                let program = args.remove(0);
                assert(views(args@) =~= views(all).drop_first());
                Ok(TestCommand { program, args })
            }
        },
    }
}

/// Tokenizes a validation command line with shell-style quoting.
pub fn parse_test_command(command: &str) -> (r: Result<TestCommand, CommandError>)
    ensures
        match shell_words(command@) {
            None => r matches Err(CommandError::Untokenizable { command: c }) && c@ == command@,
            Some(w) => if w.len() == 0 {
                r matches Err(CommandError::Empty { command: c }) && c@ == command@
            } else {
                r matches Ok(t) && t.program@ == w[0] && views(t.args@) == w.drop_first()
            },
        },
{
    let words = split_words(command);
    command_from_words(command, words)
}

/// What a finished run of the validation command reported.
#[derive(Clone, Debug)]
pub struct CommandOutcome {
    /// Whether it was spawned and exited with success.
    pub success: bool,
    /// Its exit code, where it has one.
    pub code: Option<i32>,
    pub stdout: String,
    pub stderr: String,
}

/// The result of one validation step.
#[derive(Clone, Debug)]
pub enum StepStatus {
    /// The step applied and the command, if any, succeeded; its output where it ran.
    Passed { stdout: Option<String> },
    /// The command failed or could not be spawned.
    Failed { code: Option<i32>, stderr: String },
}

/// The status of a step whose directive applied, given what the command did
/// (`None` where no command is configured).
pub open spec fn status_of(outcome: Option<CommandOutcome>) -> StepStatus {
    match outcome {
        None => StepStatus::Passed { stdout: None },
        Some(o) => if o.success {
            StepStatus::Passed { stdout: Some(o.stdout) }
        } else {
            StepStatus::Failed { code: o.code, stderr: o.stderr }
        },
    }
}

/// Turns what the command did after a step into that step's status.
pub fn step_status(outcome: Option<CommandOutcome>) -> (r: StepStatus)
    ensures
        r == status_of(outcome),
{
    match outcome {
        None => StepStatus::Passed { stdout: None },
        Some(o) => {
            if o.success {
                StepStatus::Passed { stdout: Some(o.stdout) }
            } else {
                StepStatus::Failed { code: o.code, stderr: o.stderr }
            }
        },
    }
}

/// The statuses of the steps of a validation run, by directive index.
pub struct ValidationReport {
    pub steps: Vec<StepStatus>,
}

impl ValidationReport {
    pub fn new() -> (r: ValidationReport)
        ensures
            r.steps@.len() == 0,
    {
        ValidationReport { steps: Vec::new() }
    }

    /// Records the next step: a failed command is a failed step, not an error of
    /// the run.
    pub fn record(&mut self, outcome: Option<CommandOutcome>)
        ensures
            final(self).steps@ == old(self).steps@.push(status_of(outcome)),
    {
        let s = step_status(outcome);
        self.steps.push(s);
    }

    /// Whether some step failed.
    pub fn any_failed(&self) -> (r: bool)
        ensures
            r == exists|i: int| 0 <= i < self.steps@.len() && #[trigger] self.steps@[i] is Failed,
    {
        let mut i: usize = 0;
        while i < self.steps.len()
            invariant
                i <= self.steps@.len(),
                forall|j: int| 0 <= j < i ==> !(#[trigger] self.steps@[j] is Failed),
            decreases self.steps.len() - i,
        {
            if let StepStatus::Failed { .. } = &self.steps[i] {
                return true;
            }
            i = i + 1;
        }
        false
    }
}

} // verus!
