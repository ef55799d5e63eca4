//! The declarative unit of the engine: one privileged command invocation.

use vstd::prelude::*;

use crate::errors::EngineError;
use crate::textscan::{lemma_scan_no_newline, spec_lines};

verus! {

/// A strategy that produces an action's dynamically-resolved arguments.
///
/// It is evaluated exactly once, immediately before the action is spawned,
/// and the strings it yields are appended after the action's fixed
/// arguments.  Keeping the strategies as data (rather than closures) keeps
/// every action inspectable.
pub enum ArgResolver {
    /// A fixed list of extra arguments, known when the action is planned.
    Literal(Vec<String>),
}

impl ArgResolver {
    /// The argument strings this resolver yields.
    pub open spec fn spec_args(&self) -> Seq<Seq<char>> {
        match self {
            ArgResolver::Literal(v) => v.deep_view(),
        }
    }

    /// Evaluates the resolver.  A literal list always resolves; the
    /// `Result` carries [`EngineError::ResolutionError`] for strategies
    /// that can fail.
    pub fn resolve(&self) -> (r: Result<Vec<String>, EngineError>)
        ensures
            r matches Ok(v) && v.deep_view() == self.spec_args(),
    {
        match self {
            ArgResolver::Literal(v) => {
                let mut out: Vec<String> = Vec::new();
                let mut i: usize = 0;
                while i < v.len()
                    invariant
                        i <= v.len(),
                        out@.len() == i,
                        forall|k: int| 0 <= k < i ==> out@[k]@ == v@[k]@,
                    decreases v.len() - i,
                {
                    let s = v[i].clone();
                    assert(s@ == v@[i as int]@);
                    out.push(s);
                    i = i + 1;
                }
                assert(out.deep_view() =~= v.deep_view());
                Ok(out)
            },
        }
    }
}

/// One hardening action: the executable to spawn, the rule it implements,
/// and the arguments the process receives.
///
/// The program, the fixed arguments, and the resolved arguments fully
/// determine the subprocess invocation; nothing else is consulted.  An
/// action is planned immediately before it runs, consumed once, and then
/// discarded.
pub struct BashCommand {
    /// Stable identifier of the action, unique per logical rule step.
    pub name: String,
    /// Human-readable description of the compliance rule implemented.
    pub description: String,
    /// Path or name of the executable to invoke.
    pub executable: String,
    /// Ordered fixed arguments, present from construction.
    pub args: Vec<String>,
    /// Optional extra arguments, resolved once just before execution and
    /// appended after the fixed ones.
    pub dynamic_args: Option<ArgResolver>,
    /// When set, the runner must write one scripted line of input to the
    /// process's standard input before waiting for it to finish.
    pub needs_interactive_input: bool,
}

impl BashCommand {
    /// The full argument list the spawned process receives: the fixed
    /// arguments followed by whatever the resolver yields.
    pub open spec fn spec_full_args(&self) -> Seq<Seq<char>> {
        match self.dynamic_args {
            Some(r) => self.args.deep_view() + r.spec_args(),
            None => self.args.deep_view(),
        }
    }

    /// Builds an action with fixed arguments only.
    pub fn new(
        name: &str,
        description: &str,
        executable: &str,
        args: Vec<String>,
        needs_interactive_input: bool,
    ) -> (c: BashCommand)
        ensures
            c.name@ == name@,
            c.description@ == description@,
            c.executable@ == executable@,
            c.args == args,
            c.dynamic_args is None,
            c.needs_interactive_input == needs_interactive_input,
    {
        BashCommand {
            name: String::from_str(name),
            description: String::from_str(description),
            executable: String::from_str(executable),
            args,
            dynamic_args: None,
            needs_interactive_input,
        }
    }

    /// Computes the exact invocation the runner must spawn: the program
    /// and the concatenation of fixed and resolved arguments.  Resolution
    /// happens here, once, before any process exists; if it failed the
    /// action would be abandoned with [`EngineError::ResolutionError`] and
    /// nothing spawned.
    pub fn invocation(&self) -> (r: Result<(String, Vec<String>), EngineError>)
        ensures
            r matches Ok(pa) && pa.0@ == self.executable@ && pa.1.deep_view()
                == self.spec_full_args(),
    {
        let mut full: Vec<String> = Vec::new();
        let mut i: usize = 0;
        while i < self.args.len()
            invariant
                i <= self.args.len(),
                full@.len() == i,
                forall|k: int| 0 <= k < i ==> full@[k]@ == self.args@[k]@,
            decreases self.args.len() - i,
        {
            let s = self.args[i].clone();
            assert(s@ == self.args@[i as int]@);
            full.push(s);
            i = i + 1;
        }
        assert(full.deep_view() =~= self.args.deep_view());
        match &self.dynamic_args {
            Some(resolver) => {
                match resolver.resolve() {
                    Ok(extra) => {
                        let fixed_len = full.len();
                        let mut j: usize = 0;
                        while j < extra.len()
                            invariant
                                j <= extra.len(),
                                full@.len() == fixed_len + j,
                                forall|k: int|
                                    0 <= k < fixed_len ==> full@[k]@ == self.args@[k]@,
                                forall|k: int|
                                    0 <= k < j ==> full@[fixed_len + k]@ == extra@[k]@,
                                extra.deep_view() == resolver.spec_args(),
                                fixed_len == self.args@.len(),
                            decreases extra.len() - j,
                        {
                            let s = extra[j].clone();
                            assert(s@ == extra@[j as int]@);
                            full.push(s);
                            j = j + 1;
                        }
                        assert(full.deep_view() =~= self.args.deep_view() + resolver.spec_args());
                        Ok((self.executable.clone(), full))
                    },
                    Err(e) => Err(e),
                }
            },
            None => Ok((self.executable.clone(), full)),
        }
    }
}

/// The one scripted line of interactive input the engine ever writes: a
/// fixed affirmative answer, newline-terminated, handed to the single
/// action that blocks on a confirmation prompt.
pub fn interactive_input_line() -> (r: String)
    ensures
        r@ == "yes\n"@,
{
    String::from_str("yes\n")
}

/// Law: the scripted interactive answer is exactly one line — the
/// affirmative word followed by a single terminating newline, with
/// nothing after it — so the runner writes one line of input and no
/// more.
pub proof fn lemma_interactive_input_single_line()
    ensures
        spec_lines("yes\n"@).len() == 1,
        spec_lines("yes\n"@)[0] == "yes"@,
        "yes\n"@.last() == '\n',
{
    reveal_strlit("yes\n");
    reveal_strlit("yes");
    assert("yes\n"@.drop_last() =~= "yes"@);
    lemma_scan_no_newline("yes"@);
}

} // verus!
