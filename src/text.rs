use vstd::prelude::*;
use vstd::string::StringExecFns;

verus! {

/// The lines that `str::lines` yields for a text.
pub uninterp spec fn lines_of(s: Seq<char>) -> Seq<Seq<char>>;

/// What `str::trim` leaves of a text.
pub uninterp spec fn trim_of(s: Seq<char>) -> Seq<char>;

/// The views of a sequence of strings.
pub open spec fn views(v: Seq<String>) -> Seq<Seq<char>> {
    v.map_values(|s: String| s@)
}

/// Splits `s` around the first occurrence of `c`.
pub open spec fn split_first(s: Seq<char>, c: char) -> Option<(Seq<char>, Seq<char>)>
    decreases s.len(),
{
    if s.len() == 0 {
        None
    } else if s[0] == c {
        Some((Seq::empty(), s.subrange(1, s.len() as int)))
    } else {
        match split_first(s.subrange(1, s.len() as int), c) {
            Some((a, b)) => Some((seq![s[0]] + a, b)),
            None => None,
        }
    }
}

pub open spec fn is_digit(c: char) -> bool {
    '0' <= c && c <= '9'
}

/// The value of a run of decimal digits.
pub open spec fn digits_value(s: Seq<char>) -> nat
    decreases s.len(),
{
    if s.len() == 0 {
        0
    } else {
        digits_value(s.drop_last()) * 10 + ((s.last() as u32) - ('0' as u32)) as nat
    }
}

/// The digits of an unsigned number, after an optional `+`.
pub open spec fn unsigned_digits(s: Seq<char>) -> Seq<char> {
    if s.len() > 0 && s[0] == '+' {
        s.subrange(1, s.len() as int)
    } else {
        s
    }
}

/// The `usize` that a text denotes in base ten, if any.
pub open spec fn decimal_usize(s: Seq<char>) -> Option<nat> {
    let d = unsigned_digits(s);
    if d.len() > 0 && (forall|i: int| 0 <= i < d.len() ==> is_digit(#[trigger] d[i]))
        && digits_value(d) <= usize::MAX {
        Some(digits_value(d))
    } else {
        None
    }
}

/// Lines joined with a newline between each two.
pub open spec fn join_lines(ls: Seq<Seq<char>>) -> Seq<char>
    decreases ls.len(),
{
    if ls.len() == 0 {
        Seq::empty()
    } else if ls.len() == 1 {
        ls[0]
    } else {
        join_lines(ls.drop_last()) + seq!['\n'] + ls.last()
    }
}

/// Relies on `str::lines`: splits a text into its lines; an empty text has none.
#[verifier::external_body]
pub(crate) fn split_lines(s: &str) -> (r: Vec<String>)
    ensures
        views(r@) == lines_of(s@),
        s@.len() == 0 ==> r@.len() == 0,
{
    s.lines().map(|l| l.to_string()).collect()
}

/// Relies on `str::trim`: removes leading and trailing whitespace.
#[verifier::external_body]
pub(crate) fn trim_text(s: &str) -> (r: String)
    ensures
        r@ == trim_of(s@),
{
    s.trim().to_string()
}

/// Relies on `str::split_once` with a `char` pattern: the parts before and after its
/// first occurrence.
#[verifier::external_body]
pub(crate) fn split_once_char(s: &str, c: char) -> (r: Option<(String, String)>)
    ensures
        match r {
            Some((a, b)) => split_first(s@, c) == Some((a@, b@)),
            None => split_first(s@, c) is None,
        },
{
    s.split_once(c).map(|(a, b)| (a.to_string(), b.to_string()))
}

/// Relies on `str::strip_prefix`: what follows `p` when `s` starts with it.
#[verifier::external_body]
pub(crate) fn strip_prefix_text(s: &str, p: &str) -> (r: Option<String>)
    ensures
        match r {
            Some(t) => p@.is_prefix_of(s@) && t@ == s@.subrange(p@.len() as int, s@.len() as int),
            None => !p@.is_prefix_of(s@),
        },
{
    s.strip_prefix(p).map(|t| t.to_string())
}

/// Relies on `<usize as FromStr>::from_str`: an optional `+` and one or more decimal
/// digits whose value fits in `usize`.
#[verifier::external_body]
pub(crate) fn parse_usize(s: &str) -> (r: Option<usize>)
    ensures
        match r {
            Some(n) => decimal_usize(s@) == Some(n as nat),
            None => decimal_usize(s@) is None,
        },
{
    s.parse::<usize>().ok()
}

/// Joins lines with a newline between each two, as `[String]::join("\n")` does.
pub fn join_with_newlines(lines: &Vec<String>) -> (r: String)
    ensures
        r@ == join_lines(views(lines@)),
{
    let mut r = String::new();
    let mut i: usize = 0;
    while i < lines.len()
        invariant
            i <= lines.len(),
            r@ == join_lines(views(lines@).take(i as int)),
        decreases lines.len() - i,
    {
        let ghost ls = views(lines@);
        assert(ls.take(i + 1).drop_last() =~= ls.take(i as int));
        if i > 0 {
            r.append("\n");
        }
        r.append(lines[i].as_str());
        proof {
            reveal_strlit("\n");
            if i == 0 {
                assert(ls.take(1) =~= seq![ls[0]]);
            }
        }
        i = i + 1;
    }
    assert(views(lines@).take(lines.len() as int) =~= views(lines@));
    r
}

} // verus!
