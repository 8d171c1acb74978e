use vstd::prelude::*;

verus! {

/// The lexically cleaned form of a path, as `clean_path::clean` gives it.
pub uninterp spec fn cleaned(p: Seq<char>) -> Seq<char>;

/// Relies on `clean_path::clean`: removes `.` components, resolves `..` against
/// the preceding component and drops repeated separators, without touching the disk.
#[verifier::external_body]
fn clean_text(p: &str) -> (r: String)
    ensures
        r@ == cleaned(p@),
{
    clean_path::clean(p).to_string_lossy().into_owned()
}

/// The validation settings of a project.
#[derive(Clone, Debug)]
pub struct TestConfig {
    /// The command run in the working copy after each step.
    pub command: Option<String>,
}

/// A project's settings: its documents, in reading order, and how to validate.
#[derive(Clone, Debug)]
pub struct Config {
    pub files: Vec<String>,
    pub test: Option<TestConfig>,
}

impl Config {
    /// The validation command, where one is configured.
    pub fn test_command(&self) -> (r: Option<&String>)
        ensures
            r == match self.test {
                Some(t) => match t.command {
                    Some(c) => Some(&c),
                    None => None,
                },
                None => None,
            },
    {
        match &self.test {
            Some(t) => match &t.command {
                Some(c) => Some(c),
                None => None,
            },
            None => None,
        }
    }

    /// The first index at which the document list holds exactly `path`.
    pub fn position_of(&self, path: &str) -> (r: Option<usize>)
        ensures
            match r {
                Some(i) => i < self.files@.len() && self.files@[i as int]@ == path@
                    && forall|j: int| 0 <= j < i ==> #[trigger] self.files@[j]@ != path@,
                None => forall|j: int| 0 <= j < self.files@.len() ==> #[trigger] self.files@[j]@ != path@,
            },
    {
        let target = path.to_string();
        let mut i: usize = 0;
        while i < self.files.len()
            invariant
                i <= self.files@.len(),
                target@ == path@,
                forall|j: int| 0 <= j < i ==> #[trigger] self.files@[j]@ != path@,
            decreases self.files.len() - i,
        {
            if self.files[i].eq(&target) {
                return Some(i);
            }
            i = i + 1;
        }
        None
    }

    /// The index of a document in the list, the given path being cleaned first.
    pub fn get_file_idx(&self, file: &str) -> (r: Option<usize>)
        ensures
            match r {
                Some(i) => i < self.files@.len() && self.files@[i as int]@ == cleaned(file@)
                    && forall|j: int| 0 <= j < i ==> #[trigger] self.files@[j]@ != cleaned(file@),
                None => forall|j: int|
                    0 <= j < self.files@.len() ==> #[trigger] self.files@[j]@ != cleaned(file@),
            },
    {
        let c = clean_text(file);
        self.position_of(c.as_str())
    }
}

} // verus!
