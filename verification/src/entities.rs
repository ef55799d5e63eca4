//! Entity enumeration: the set of local user accounts a per-entity rule
//! fans out over.
//!
//! The directory holding per-user home directories is listed by the
//! surrounding application; this module takes the listed entry names and
//! keeps every one except the two reserved pseudo-entries — the shared
//! storage placeholder and the localization marker — preserving the
//! directory's own order.  An unreadable directory is a hard error, never
//! an empty list: silently skipping every user would falsely report
//! success.

use vstd::prelude::*;

use crate::errors::EngineError;
use crate::textscan::str_eq;

verus! {

/// Whether a directory entry name is one of the two reserved
/// pseudo-entries that never denote a user account.
pub open spec fn spec_is_reserved(name: Seq<char>) -> bool {
    name == "Shared"@ || name == ".localized"@
}

/// The entity list drawn from raw directory entry names: every name that
/// is not reserved, in the original order.
pub open spec fn spec_entities(names: Seq<Seq<char>>) -> Seq<Seq<char>> {
    names.filter(|n: Seq<char>| !spec_is_reserved(n))
}

/// Decides whether a directory entry name is reserved.
pub fn is_reserved(name: &str) -> (b: bool)
    ensures
        b == spec_is_reserved(name@),
{
    str_eq(name, "Shared") || str_eq(name, ".localized")
}

/// Filters raw directory entry names down to the entity list: the two
/// reserved names are excluded and every other entry is kept, in the
/// order the directory listed them.
pub fn entity_list(names: &Vec<String>) -> (r: Vec<String>)
    ensures
        r.deep_view() == spec_entities(names.deep_view()),
{
    let ghost all = names.deep_view();
    let mut r: Vec<String> = Vec::new();
    proof {
        reveal(Seq::filter);
        assert(all.take(0) =~= Seq::<Seq<char>>::empty());
    }
    let mut i: usize = 0;
    while i < names.len()
        invariant
            i <= names.len(),
            all == names.deep_view(),
            r.deep_view() == spec_entities(all.take(i as int)),
        decreases names.len() - i,
    {
        proof {
            all.take(i as int).lemma_filter_push(
                all[i as int],
                |n: Seq<char>| !spec_is_reserved(n),
            );
            assert(all.take(i as int).push(all[i as int]) =~= all.take(i + 1));
            assert(spec_entities(all.take(i + 1)) == if !spec_is_reserved(all[i as int]) {
                spec_entities(all.take(i as int)).push(all[i as int])
            } else {
                spec_entities(all.take(i as int))
            });
        }
        if !is_reserved(names[i].as_str()) {
            let s = names[i].clone();
            assert(s@ == all[i as int]);
            r.push(s);
            proof {
                assert(r.deep_view() =~= spec_entities(all.take(i as int)).push(all[i as int]));
            }
        } else {
            proof {
                assert(r.deep_view() == spec_entities(all.take(i + 1)));
            }
        }
        i = i + 1;
    }
    proof {
        assert(all.take(names.len() as int) =~= all);
    }
    r
}

/// Law: the enumeration excludes exactly the reserved names — no entity
/// of the list is reserved, and every non-reserved directory entry is in
/// the list.
pub proof fn lemma_entities_exact(names: Seq<Seq<char>>)
    ensures
        forall|j: int|
            0 <= j < spec_entities(names).len() ==> !spec_is_reserved(
                #[trigger] spec_entities(names)[j],
            ),
        forall|i: int|
            0 <= i < names.len() && !spec_is_reserved(#[trigger] names[i]) ==> spec_entities(
                names,
            ).contains(names[i]),
{
    assert forall|j: int| 0 <= j < spec_entities(names).len() implies !spec_is_reserved(
        spec_entities(names)[j],
    ) by {
        names.lemma_filter_pred(|n: Seq<char>| !spec_is_reserved(n), j);
    }
    assert forall|i: int|
        0 <= i < names.len() && !spec_is_reserved(names[i]) implies spec_entities(
        names,
    ).contains(names[i]) by {
        names.lemma_filter_contains(|n: Seq<char>| !spec_is_reserved(n), i);
    }
}

/// Builds the entity list from a directory listing, or reports that the
/// directory could not be read.  `listing` carries the entry names in
/// directory order, or `None` when listing failed, which is
/// [`EngineError::IoError`] — fatal to any rule that depends on the
/// enumeration.
pub fn entity_enumeration(listing: Option<Vec<String>>) -> (r: Result<Vec<String>, EngineError>)
    ensures
        listing is None ==> (r matches Err(e) && e is IoError),
        listing matches Some(names) ==> (r matches Ok(es) && es.deep_view() == spec_entities(
            names.deep_view(),
        )),
{
    match listing {
        None => Err(EngineError::IoError),
        Some(names) => Ok(entity_list(&names)),
    }
}

} // verus!
