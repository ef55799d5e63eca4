//! Rule planning: deciding, from observed state, whether a rule needs no
//! action, one action, or a corrective rewrite.
//!
//! Two planning shapes live here.  An idempotent text patch compares the
//! matched configuration line with the desired content — exactly, or
//! token-by-token for flag lists — and plans a rewrite only when they
//! differ.  A conditional branch classifies a probed fact (the CPU brand
//! string) and is total: every string selects exactly one branch, with a
//! defined default for unrecognized platforms.

use vstd::prelude::*;

use crate::textscan::{spec_contains, spec_occurs_at, spec_starts_with, contains_str, str_eq};

verus! {

/// What an idempotent patch rule decides to do about its target line.
#[derive(Debug, PartialEq, Eq)]
pub enum PatchPlan {
    /// The file holds no line the rule targets; the rule becomes an
    /// informational no-op, not an error.
    TargetMissing,
    /// The target line already carries the desired content; nothing to do.
    AlreadyCompliant,
    /// The target line must be replaced by the carried text.
    Rewrite(String),
}

/// Whether every token of `toks` occurs somewhere in `line`.
pub open spec fn spec_all_contained(line: Seq<char>, toks: Seq<Seq<char>>) -> bool {
    forall|k: int| 0 <= k < toks.len() ==> spec_contains(line, toks[k])
}

/// The tokens of `toks` that do not occur in `line`, in order.
pub open spec fn spec_missing(line: Seq<char>, toks: Seq<Seq<char>>) -> Seq<Seq<char>> {
    toks.filter(|t: Seq<char>| !spec_contains(line, t))
}

/// `line` followed by each token of `toks`, each preceded by one space.
pub open spec fn spec_append_tokens(line: Seq<char>, toks: Seq<Seq<char>>) -> Seq<char>
    decreases toks.len(),
{
    if toks.len() == 0 {
        line
    } else {
        spec_append_tokens(line, toks.drop_last()) + " "@ + toks.last()
    }
}

/// The corrected flag line: the original line with every missing token
/// appended, existing text untouched.
pub open spec fn spec_patched_line(line: Seq<char>, toks: Seq<Seq<char>>) -> Seq<char> {
    spec_append_tokens(line, spec_missing(line, toks))
}

/// Returns the required tokens that are absent from `line`, in order.
pub fn missing_tokens(line: &str, required: &Vec<String>) -> (r: Vec<String>)
    ensures
        r.deep_view() == spec_missing(line@, required.deep_view()),
{
    let ghost toks = required.deep_view();
    let mut r: Vec<String> = Vec::new();
    proof {
        reveal(Seq::filter);
        assert(toks.take(0) =~= Seq::<Seq<char>>::empty());
    }
    let mut i: usize = 0;
    while i < required.len()
        invariant
            i <= required.len(),
            toks == required.deep_view(),
            r.deep_view() == spec_missing(line@, toks.take(i as int)),
        decreases required.len() - i,
    {
        proof {
            toks.take(i as int).lemma_filter_push(
                toks[i as int],
                |t: Seq<char>| !spec_contains(line@, t),
            );
            assert(toks.take(i as int).push(toks[i as int]) =~= toks.take(i + 1));
            assert(spec_missing(line@, toks.take(i + 1)) == if !spec_contains(
                line@,
                toks[i as int],
            ) {
                spec_missing(line@, toks.take(i as int)).push(toks[i as int])
            } else {
                spec_missing(line@, toks.take(i as int))
            });
        }
        if !contains_str(line, required[i].as_str()) {
            let s = required[i].clone();
            assert(s@ == toks[i as int]);
            r.push(s);
            proof {
                assert(r.deep_view() =~= spec_missing(line@, toks.take(i as int)).push(
                    toks[i as int],
                ));
            }
        } else {
            proof {
                assert(r.deep_view() == spec_missing(line@, toks.take(i + 1)));
            }
        }
        i = i + 1;
    }
    proof {
        assert(toks.take(required.len() as int) =~= toks);
    }
    r
}

/// Appends each of `toks` to `line`, space-separated, leaving the
/// original text in place.
pub fn append_tokens(line: &str, toks: &Vec<String>) -> (r: String)
    ensures
        r@ == spec_append_tokens(line@, toks.deep_view()),
{
    let ghost ts = toks.deep_view();
    let mut out = String::from_str(line);
    proof {
        assert(ts.take(0) =~= Seq::<Seq<char>>::empty());
    }
    let mut i: usize = 0;
    while i < toks.len()
        invariant
            i <= toks.len(),
            ts == toks.deep_view(),
            out@ == spec_append_tokens(line@, ts.take(i as int)),
        decreases toks.len() - i,
    {
        proof {
            assert(ts.take(i + 1).drop_last() =~= ts.take(i as int));
            assert(ts.take(i + 1).last() == ts[i as int]);
        }
        out.append(" ");
        out.append(toks[i].as_str());
        i = i + 1;
    }
    proof {
        assert(ts.take(toks.len() as int) =~= ts);
    }
    out
}

/// The required tokens are all present exactly when none is missing.
pub proof fn lemma_missing_empty_iff(line: Seq<char>, toks: Seq<Seq<char>>)
    ensures
        spec_missing(line, toks).len() == 0 <==> spec_all_contained(line, toks),
    decreases toks.len(),
{
    reveal(Seq::filter);
    if toks.len() == 0 {
        assert(spec_all_contained(line, toks));
    } else {
        lemma_missing_empty_iff(line, toks.drop_last());
        assert(spec_all_contained(line, toks) <==> (spec_all_contained(line, toks.drop_last())
            && spec_contains(line, toks.last()))) by {
            if spec_all_contained(line, toks.drop_last()) && spec_contains(line, toks.last()) {
                assert forall|k: int| 0 <= k < toks.len() implies spec_contains(
                    line,
                    toks[k],
                ) by {
                    if k < toks.len() - 1 {
                        assert(toks.drop_last()[k] == toks[k]);
                    }
                }
            }
        }
    }
}

/// Plans an exact-match patch rule.  No target line means an
/// informational no-op; a line equal to the desired text means the rule
/// is already satisfied; anything else is rewritten to the desired text.
pub fn exact_patch_plan(found: Option<String>, desired: &str) -> (p: PatchPlan)
    ensures
        found is None ==> p is TargetMissing,
        (found matches Some(l) && l@ == desired@) ==> p is AlreadyCompliant,
        (found matches Some(l) && l@ != desired@) ==> (p matches PatchPlan::Rewrite(n) && n@
            == desired@),
{
    match found {
        None => PatchPlan::TargetMissing,
        Some(l) => {
            if str_eq(l.as_str(), desired) {
                PatchPlan::AlreadyCompliant
            } else {
                PatchPlan::Rewrite(String::from_str(desired))
            }
        },
    }
}

/// Plans a flag-list patch rule.  Presence is judged per token by
/// substring containment; only the missing tokens are appended, so a line
/// already holding every required token is left untouched and existing
/// tokens keep their order.
pub fn flag_patch_plan(found: Option<String>, required: &Vec<String>) -> (p: PatchPlan)
    ensures
        found is None ==> p is TargetMissing,
        found matches Some(l) ==> (if spec_all_contained(l@, required.deep_view()) {
            p is AlreadyCompliant
        } else {
            p matches PatchPlan::Rewrite(n) && n@ == spec_patched_line(l@, required.deep_view())
        }),
{
    match found {
        None => PatchPlan::TargetMissing,
        Some(l) => {
            let miss = missing_tokens(l.as_str(), required);
            proof {
                lemma_missing_empty_iff(l@, required.deep_view());
            }
            if miss.len() == 0 {
                PatchPlan::AlreadyCompliant
            } else {
                PatchPlan::Rewrite(append_tokens(l.as_str(), &miss))
            }
        },
    }
}

/// Text that occurs in `s` still occurs after `s` is extended on the
/// right.
pub proof fn lemma_contains_extend(s: Seq<char>, ext: Seq<char>, n: Seq<char>)
    requires
        spec_contains(s, n),
    ensures
        spec_contains(s + ext, n),
{
    let i = choose|i: int| spec_occurs_at(s, n, i);
    assert((s + ext).subrange(i, i + n.len() as int) =~= s.subrange(i, i + n.len() as int));
    assert(spec_occurs_at(s + ext, n, i));
}

/// Appending tokens to a line keeps everything the line contained and
/// makes every appended token contained; the original line stays as a
/// prefix, so existing tokens and their order are preserved.
pub proof fn lemma_append_tokens_contained(line: Seq<char>, toks: Seq<Seq<char>>)
    ensures
        spec_all_contained(spec_append_tokens(line, toks), toks),
        forall|n: Seq<char>|
            spec_contains(line, n) ==> spec_contains(spec_append_tokens(line, toks), n),
        spec_starts_with(spec_append_tokens(line, toks), line),
    decreases toks.len(),
{
    if toks.len() == 0 {
        assert(spec_append_tokens(line, toks) == line);
        assert(line.subrange(0, line.len() as int) =~= line);
    } else {
        lemma_append_tokens_contained(line, toks.drop_last());
        let prev = spec_append_tokens(line, toks.drop_last());
        let whole = spec_append_tokens(line, toks);
        let last = toks.last();
        assert(whole == prev + " "@ + last);
        assert(whole =~= prev + (" "@ + last));
        assert forall|n: Seq<char>| spec_contains(prev, n) implies spec_contains(whole, n) by {
            lemma_contains_extend(prev, " "@ + last, n);
        }
        assert(spec_contains(whole, last)) by {
            reveal_strlit(" ");
            assert(whole.subrange(
                prev.len() as int + 1,
                prev.len() as int + 1 + last.len() as int,
            ) =~= last);
            assert(spec_occurs_at(whole, last, prev.len() as int + 1));
        }
        assert forall|k: int| 0 <= k < toks.len() implies spec_contains(whole, toks[k]) by {
            if k < toks.len() - 1 {
                assert(toks.drop_last()[k] == toks[k]);
                assert(spec_contains(prev, toks[k]));
            }
        }
        assert(spec_starts_with(whole, line)) by {
            assert(whole.subrange(0, line.len() as int) =~= prev.subrange(
                0,
                line.len() as int,
            ));
        }
    }
}

/// Law: the flag patch is idempotent.  The corrected line contains every
/// required token, so planning the same rule again over the corrected
/// line finds the state already compliant and yields a no-op.
pub proof fn lemma_flag_patch_idempotent(line: Seq<char>, toks: Seq<Seq<char>>)
    ensures
        spec_all_contained(spec_patched_line(line, toks), toks),
        spec_missing(spec_patched_line(line, toks), toks).len() == 0,
{
    let miss = spec_missing(line, toks);
    let patched = spec_patched_line(line, toks);
    lemma_append_tokens_contained(line, miss);
    assert forall|k: int| 0 <= k < toks.len() implies spec_contains(patched, toks[k]) by {
        if spec_contains(line, toks[k]) {
        } else {
            toks.lemma_filter_contains(|t: Seq<char>| !spec_contains(line, t), k);
            let j = choose|j: int| 0 <= j < miss.len() && miss[j] == toks[k];
            assert(spec_contains(patched, miss[j]));
        }
    }
    lemma_missing_empty_iff(patched, toks);
}

/// Law: the corrected flag line keeps the original line — all its text,
/// and so all its tokens in their original order — as an unchanged
/// prefix; only missing tokens are appended after it.
pub proof fn lemma_flag_patch_preserves_line(line: Seq<char>, toks: Seq<Seq<char>>)
    ensures
        spec_starts_with(spec_patched_line(line, toks), line),
        spec_all_contained(line, toks) ==> spec_patched_line(line, toks) == line,
{
    let miss = spec_missing(line, toks);
    lemma_append_tokens_contained(line, miss);
    if spec_all_contained(line, toks) {
        lemma_missing_empty_iff(line, toks);
        assert(miss.len() == 0);
    }
}

/// The branch a conditional rule takes for a probed CPU brand string.
#[derive(Clone, Copy, Debug, PartialEq, Eq, Structural)]
pub enum CpuBranch {
    /// The brand string names an Apple CPU.
    Apple,
    /// The brand string names an Intel CPU.
    Intel,
    /// Any other brand string: the defined default, favoring safe
    /// inaction over failing the run on an unexpected platform.
    Unknown,
}

/// The branch selected for a CPU brand string.  Total: every string maps
/// to exactly one branch, and a string naming both vendors takes the
/// Apple branch.
pub open spec fn spec_cpu_branch(brand: Seq<char>) -> CpuBranch {
    if spec_contains(brand, "Apple"@) {
        CpuBranch::Apple
    } else if spec_contains(brand, "Intel"@) {
        CpuBranch::Intel
    } else {
        CpuBranch::Unknown
    }
}

/// Classifies a CPU brand string; never fails, whatever the string.
pub fn cpu_branch(brand: &str) -> (b: CpuBranch)
    ensures
        b == spec_cpu_branch(brand@),
{
    if contains_str(brand, "Apple") {
        CpuBranch::Apple
    } else if contains_str(brand, "Intel") {
        CpuBranch::Intel
    } else {
        CpuBranch::Unknown
    }
}

} // verus!
