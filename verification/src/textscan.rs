//! Character-level text scanning: prefix tests, substring containment, and
//! splitting a configuration file's contents into lines.
//!
//! These are the primitives behind the engine's state probes and its
//! idempotent text patches, so each carries an exact specification over the
//! character sequences involved.

use vstd::prelude::*;

verus! {

/// Whether `p` is a prefix of `s`.
pub open spec fn spec_starts_with(s: Seq<char>, p: Seq<char>) -> bool {
    p.len() <= s.len() && s.subrange(0, p.len() as int) == p
}

/// Whether `n` occurs in `s` starting at position `i`.
pub open spec fn spec_occurs_at(s: Seq<char>, n: Seq<char>, i: int) -> bool {
    0 <= i && i + n.len() <= s.len() && s.subrange(i, i + n.len() as int) == n
}

/// Whether `n` occurs somewhere in `s`.
pub open spec fn spec_contains(s: Seq<char>, n: Seq<char>) -> bool {
    exists|i: int| spec_occurs_at(s, n, i)
}

/// Decides whether `p` is a prefix of `s`.
pub fn starts_with(s: &str, p: &str) -> (b: bool)
    ensures
        b == spec_starts_with(s@, p@),
{
    let sl = s.unicode_len();
    let pl = p.unicode_len();
    if pl > sl {
        return false;
    }
    let mut i: usize = 0;
    while i < pl
        invariant
            i <= pl,
            pl <= sl,
            sl == s@.len(),
            pl == p@.len(),
            forall|k: int| 0 <= k < i ==> s@[k] == p@[k],
        decreases pl - i,
    {
        if s.get_char(i) != p.get_char(i) {
            assert(!spec_starts_with(s@, p@)) by {
                if spec_starts_with(s@, p@) {
                    assert(s@.subrange(0, p@.len() as int)[i as int] == s@[i as int]);
                }
            }
            return false;
        }
        i = i + 1;
    }
    assert(s@.subrange(0, p@.len() as int) =~= p@);
    true
}

/// Decides whether two string slices hold the same characters.
pub fn str_eq(a: &str, b: &str) -> (r: bool)
    ensures
        r == (a@ == b@),
{
    let al = a.unicode_len();
    let bl = b.unicode_len();
    if al != bl {
        return false;
    }
    let r = starts_with(a, b);
    proof {
        if r {
            assert(a@.subrange(0, b@.len() as int) =~= a@);
        } else {
            if a@ == b@ {
                assert(a@.subrange(0, b@.len() as int) =~= b@);
            }
        }
    }
    r
}

/// Decides whether `n` occurs in `s` at position `i`.
fn occurs_at(s: &str, n: &str, i: usize) -> (b: bool)
    requires
        i + n@.len() <= s@.len(),
    ensures
        b == spec_occurs_at(s@, n@, i as int),
{
    let sl = s.unicode_len();
    let nl = n.unicode_len();
    let mut j: usize = 0;
    while j < nl
        invariant
            j <= nl,
            nl == n@.len(),
            sl == s@.len(),
            i + nl <= sl,
            forall|k: int| 0 <= k < j ==> s@[i + k] == n@[k],
        decreases nl - j,
    {
        if s.get_char(i + j) != n.get_char(j) {
            assert(!spec_occurs_at(s@, n@, i as int)) by {
                if spec_occurs_at(s@, n@, i as int) {
                    assert(s@.subrange(i as int, i + n@.len() as int)[j as int] == s@[
                        i + j as int
                    ]);
                }
            }
            return false;
        }
        j = j + 1;
    }
    assert(s@.subrange(i as int, i + n@.len() as int) =~= n@);
    true
}

/// Decides whether `n` occurs anywhere in `s`: substring containment.
pub fn contains_str(s: &str, n: &str) -> (b: bool)
    ensures
        b == spec_contains(s@, n@),
{
    let sl = s.unicode_len();
    let nl = n.unicode_len();
    if nl == 0 {
        assert(spec_occurs_at(s@, n@, 0)) by {
            assert(s@.subrange(0, 0) =~= n@);
        }
        return true;
    }
    if nl > sl {
        assert(!spec_contains(s@, n@));
        return false;
    }
    let mut i: usize = 0;
    while i <= sl - nl
        invariant
            1 <= nl <= sl,
            i <= sl - nl + 1,
            sl == s@.len(),
            nl == n@.len(),
            forall|k: int| 0 <= k < i ==> !spec_occurs_at(s@, n@, k),
        decreases sl - nl + 1 - i,
    {
        if occurs_at(s, n, i) {
            return true;
        }
        i = i + 1;
    }
    assert(!spec_contains(s@, n@)) by {
        assert forall|k: int| !spec_occurs_at(s@, n@, k) by {
            if k > sl - nl {
                assert(!spec_occurs_at(s@, n@, k));
            }
        }
    }
    false
}

/// The lines accumulated after scanning `s` character by character, paired
/// with the partial line gathered since the last newline.
pub open spec fn spec_scan_lines(s: Seq<char>) -> (Seq<Seq<char>>, Seq<char>)
    decreases s.len(),
{
    if s.len() == 0 {
        (Seq::empty(), Seq::empty())
    } else {
        let prev = spec_scan_lines(s.drop_last());
        if s.last() == '\n' {
            (prev.0.push(prev.1), Seq::<char>::empty())
        } else {
            (prev.0, prev.1.push(s.last()))
        }
    }
}

/// The lines of `s`, split on newline characters.  A trailing newline ends
/// the last line rather than opening an empty one, so splitting text that
/// ends in a newline yields no final empty entry.
pub open spec fn spec_lines(s: Seq<char>) -> Seq<Seq<char>> {
    let sc = spec_scan_lines(s);
    if sc.1.len() == 0 {
        sc.0
    } else {
        sc.0.push(sc.1)
    }
}

/// Scanning text that holds no newline accumulates no finished line: the
/// whole text is the single partial line.
pub proof fn lemma_scan_no_newline(s: Seq<char>)
    requires
        forall|i: int| 0 <= i < s.len() ==> s[i] != '\n',
    ensures
        spec_scan_lines(s) == (Seq::<Seq<char>>::empty(), s),
    decreases s.len(),
{
    if s.len() > 0 {
        lemma_scan_no_newline(s.drop_last());
        assert(s.drop_last().push(s.last()) =~= s);
    }
}

/// Splits `s` into its lines, in order.
pub fn split_lines(s: &str) -> (r: Vec<String>)
    ensures
        r.deep_view() == spec_lines(s@),
{
    let len = s.unicode_len();
    let mut lines: Vec<String> = Vec::new();
    let mut start: usize = 0;
    let mut i: usize = 0;
    while i < len
        invariant
            start <= i <= len,
            len == s@.len(),
            lines.deep_view() == spec_scan_lines(s@.subrange(0, i as int)).0,
            spec_scan_lines(s@.subrange(0, i as int)).1 =~= s@.subrange(start as int, i as int),
        decreases len - i,
    {
        let c = s.get_char(i);
        proof {
            assert(s@.subrange(0, i + 1).drop_last() =~= s@.subrange(0, i as int));
            assert(s@.subrange(0, i + 1).last() == s@[i as int]);
        }
        if c == '\n' {
            let line = s.substring_char(start, i);
            lines.push(String::from_str(line));
            proof {
                assert(lines.deep_view() =~= spec_scan_lines(s@.subrange(0, i + 1)).0);
            }
            start = i + 1;
        } else {
            proof {
                assert(spec_scan_lines(s@.subrange(0, i + 1)).1 =~= s@.subrange(
                    start as int,
                    i + 1,
                ));
            }
        }
        i = i + 1;
    }
    proof {
        assert(s@.subrange(0, len as int) =~= s@);
    }
    if start < len {
        let line = s.substring_char(start, len);
        lines.push(String::from_str(line));
        proof {
            assert(spec_scan_lines(s@).1.len() > 0);
            assert(lines.deep_view() =~= spec_lines(s@));
        }
    } else {
        proof {
            assert(spec_scan_lines(s@).1.len() == 0);
        }
    }
    lines
}

} // verus!
