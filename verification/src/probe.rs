//! State probes: locating the configuration line a rule cares about and
//! classifying the outcome of a read-only observation.
//!
//! Reading files and running read-only commands is the surrounding
//! application's job; these functions take what was read — or the fact
//! that reading failed — and make every decision that follows.

use vstd::prelude::*;

use crate::errors::EngineError;
use crate::textscan::{spec_contains, spec_lines, spec_starts_with, contains_str, split_lines,
    starts_with};

verus! {

/// The test a probe applies to each line of a configuration file.
///
/// Keeping the predicate as data (rather than a closure) keeps every probe
/// inspectable and lets its meaning be stated exactly.
pub enum LinePredicate {
    /// The line begins with the given prefix.
    StartsWith(String),
    /// The line contains the given text anywhere.
    Contains(String),
}

impl LinePredicate {
    /// Whether the predicate accepts `line`.
    pub open spec fn spec_holds(&self, line: Seq<char>) -> bool {
        match self {
            LinePredicate::StartsWith(p) => spec_starts_with(line, p@),
            LinePredicate::Contains(n) => spec_contains(line, n@),
        }
    }

    /// Decides whether the predicate accepts `line`.
    pub fn holds(&self, line: &str) -> (b: bool)
        ensures
            b == self.spec_holds(line@),
    {
        match self {
            LinePredicate::StartsWith(p) => starts_with(line, p.as_str()),
            LinePredicate::Contains(n) => contains_str(line, n.as_str()),
        }
    }
}

/// The first entry of `ls` accepted by `pred`, in order, if any.
pub open spec fn spec_first_match_by(
    ls: Seq<Seq<char>>,
    pred: spec_fn(Seq<char>) -> bool,
) -> Option<Seq<char>>
    decreases ls.len(),
{
    if ls.len() == 0 {
        None
    } else if pred(ls[0]) {
        Some(ls[0])
    } else {
        spec_first_match_by(ls.drop_first(), pred)
    }
}

/// The first entry of `ls` accepted by `p`, in order, if any.
pub open spec fn spec_first_match(ls: Seq<Seq<char>>, p: LinePredicate) -> Option<Seq<char>> {
    spec_first_match_by(ls, |l: Seq<char>| p.spec_holds(l))
}

/// Returns the first line of `lines` accepted by `pred`, or `None` when no
/// line is accepted.
pub fn first_matching_line(lines: &Vec<String>, pred: &LinePredicate) -> (r: Option<String>)
    ensures
        r.deep_view() == spec_first_match(lines.deep_view(), *pred),
{
    let ghost ls = lines.deep_view();
    proof {
        assert(ls.skip(0) =~= ls);
    }
    let mut i: usize = 0;
    while i < lines.len()
        invariant
            i <= lines.len(),
            ls == lines.deep_view(),
            spec_first_match(ls, *pred) == spec_first_match(ls.skip(i as int), *pred),
        decreases lines.len() - i,
    {
        proof {
            assert(ls.skip(i as int).len() > 0);
            assert(ls.skip(i as int)[0] == ls[i as int]);
            assert(ls.skip(i as int).drop_first() =~= ls.skip(i + 1));
        }
        if pred.holds(lines[i].as_str()) {
            return Some(lines[i].clone());
        }
        i = i + 1;
    }
    proof {
        assert(ls.skip(lines.len() as int).len() == 0);
    }
    None
}

/// Scans the text of a configuration file for the first line accepted by
/// `pred`.  `content` carries the file's full text, or `None` when the
/// file could not be read.
///
/// A readable file in which no line is accepted yields `Ok(None)` — "not
/// present" is an answer, not an error — while an unreadable file yields
/// [`EngineError::ProbeError`], never a silent `None`: a missing
/// configuration file is an unexpected condition, not compliance.
pub fn matching_line(content: Option<String>, pred: &LinePredicate) -> (r: Result<
    Option<String>,
    EngineError,
>)
    ensures
        content is None ==> (r matches Err(e) && e is ProbeError),
        content matches Some(c) ==> (r matches Ok(m) && m.deep_view() == spec_first_match(
            spec_lines(c@),
            *pred,
        )),
{
    match content {
        None => Err(EngineError::ProbeError),
        Some(c) => {
            let lines = split_lines(c.as_str());
            Ok(first_matching_line(&lines, pred))
        },
    }
}

/// Classifies the outcome of a read-only command probe: captured output
/// passes through untouched, and a command that could not be run or whose
/// output was unusable becomes [`EngineError::ProbeError`].
pub fn command_output(raw: Option<String>) -> (r: Result<String, EngineError>)
    ensures
        raw is None ==> (r matches Err(e) && e is ProbeError),
        raw matches Some(t) ==> (r matches Ok(o) && o@ == t@),
{
    match raw {
        None => Err(EngineError::ProbeError),
        Some(t) => Ok(t),
    }
}

} // verus!
