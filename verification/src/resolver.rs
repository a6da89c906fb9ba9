//! Matching a partial repository name against the known repositories.
//!
//! The search has three stages, tried in this order: an exact match, the
//! repositories whose name contains the partial name, and the repositories
//! whose name is contained in the partial name. The first stage that yields
//! any candidate decides the outcome.

use vstd::prelude::*;
use crate::error::{ErrorView, GitboxError};
use crate::text::{clone_names, contains_name, is_substring, str_contains, views};

verus! {

/// The test "this name contains `partial`".
pub open spec fn holds(partial: Seq<char>) -> spec_fn(Seq<char>) -> bool {
    |name: Seq<char>| is_substring(partial, name)
}

/// The test "this name occurs inside `partial`".
pub open spec fn held_by(partial: Seq<char>) -> spec_fn(Seq<char>) -> bool {
    |name: Seq<char>| is_substring(name, partial)
}

/// The known names that contain `partial`, in the order in which they are
/// known.
pub open spec fn containing(known: Seq<Seq<char>>, partial: Seq<char>) -> Seq<Seq<char>> {
    known.filter(holds(partial))
}

/// The known names that occur inside `partial`, in the order in which they
/// are known.
pub open spec fn contained_in(known: Seq<Seq<char>>, partial: Seq<char>) -> Seq<Seq<char>> {
    known.filter(held_by(partial))
}

/// The outcome of resolving `partial` against `known`.
pub open spec fn resolve_spec(partial: Seq<char>, known: Seq<Seq<char>>) -> Result<
    Seq<char>,
    ErrorView,
> {
    let forward = containing(known, partial);
    let reverse = contained_in(known, partial);
    if known.contains(partial) {
        Ok(partial)
    } else if forward.len() == 1 {
        Ok(forward[0])
    } else if forward.len() > 1 {
        Err(ErrorView::Ambiguous { wanted: partial, candidates: forward })
    } else if reverse.len() == 1 {
        Ok(reverse[0])
    } else if reverse.len() > 1 {
        Err(ErrorView::Ambiguous { wanted: partial, candidates: reverse })
    } else {
        Err(ErrorView::NoMatch { wanted: partial, known })
    }
}

/// The view of an executable resolution result.
pub open spec fn result_view(r: Result<String, GitboxError>) -> Result<Seq<char>, ErrorView> {
    match r {
        Ok(name) => Ok(name@),
        Err(e) => Err(e@),
    }
}

/// The known names that contain `partial` (`forward`), or that `partial`
/// contains (otherwise).
fn candidates(partial_name: &str, known_repos: &Vec<String>, forward: bool) -> (found: Vec<String>)
    ensures
        forward ==> views(found@) == containing(views(known_repos@), partial_name@),
        !forward ==> views(found@) == contained_in(views(known_repos@), partial_name@),
{
    let ghost known = views(known_repos@);
    let ghost pred = if forward {
        holds(partial_name@)
    } else {
        held_by(partial_name@)
    };
    let mut found: Vec<String> = Vec::new();
    let mut i: usize = 0;
    proof {
        assert(known.take(0) =~= Seq::<Seq<char>>::empty());
        assert(views(found@) =~= known.take(0).filter(pred));
    }
    while i < known_repos.len()
        invariant
            i <= known_repos@.len(),
            known == views(known_repos@),
            pred == if forward {
                holds(partial_name@)
            } else {
                held_by(partial_name@)
            },
            views(found@) == known.take(i as int).filter(pred),
        decreases known_repos@.len() - i,
    {
        let name = &known_repos[i];
        let fits = if forward {
            str_contains(name.as_str(), partial_name)
        } else {
            str_contains(partial_name, name.as_str())
        };
        proof {
            assert(known.take(i + 1) =~= known.take(i as int).push(name@));
            known.take(i as int).lemma_filter_push(name@, pred);
            assert(fits == pred(name@));
        }
        if fits {
            let ghost before = found@;
            found.push(name.clone());
            proof {
                assert(views(found@) =~= views(before).push(name@));
            }
        }
        i += 1;
    }
    proof {
        assert(known.take(known_repos@.len() as int) =~= known);
    }
    found
}

/// Resolves a partial repository name.
///
/// An exact match wins. Otherwise the repositories whose name contains
/// `partial_name` are the candidates; if there are none, those whose name
/// occurs inside `partial_name`. A single candidate is the answer, several
/// are reported as ambiguous, and none at all as not found, together with
/// every known name.
pub fn resolve(partial_name: &str, known_repos: &Vec<String>) -> (r: Result<String, GitboxError>)
    ensures
        result_view(r) == resolve_spec(partial_name@, views(known_repos@)),
{
    if contains_name(known_repos, partial_name) {
        return Ok(partial_name.to_owned());
    }
    let forward = candidates(partial_name, known_repos, true);
    if forward.len() == 1 {
        return Ok(forward[0].clone());
    }
    if forward.len() > 1 {
        return Err(GitboxError::Ambiguous { wanted: partial_name.to_owned(), candidates: forward });
    }
    let reverse = candidates(partial_name, known_repos, false);
    if reverse.len() == 1 {
        Ok(reverse[0].clone())
    } else if reverse.len() > 1 {
        Err(GitboxError::Ambiguous { wanted: partial_name.to_owned(), candidates: reverse })
    } else {
        Err(GitboxError::NoMatch { wanted: partial_name.to_owned(), known: clone_names(known_repos) })
    }
}

/// A name that resolution returns is always one of the known names.
pub proof fn lemma_resolved_name_is_known(partial: Seq<char>, known: Seq<Seq<char>>)
    ensures
        resolve_spec(partial, known) matches Ok(name) ==> known.contains(name),
{
    let forward = containing(known, partial);
    let reverse = contained_in(known, partial);
    if !known.contains(partial) {
        if forward.len() == 1 {
            assert(forward.contains(forward[0]));
            known.lemma_filter_contains_rev(holds(partial), forward[0]);
        } else if forward.len() == 0 && reverse.len() == 1 {
            assert(reverse.contains(reverse[0]));
            known.lemma_filter_contains_rev(held_by(partial), reverse[0]);
        }
    }
}

/// A name that is known exactly resolves to itself, whatever else it might
/// be a part of.
pub proof fn lemma_exact_match_wins(partial: Seq<char>, known: Seq<Seq<char>>)
    requires
        known.contains(partial),
    ensures
        resolve_spec(partial, known) == Ok::<Seq<char>, ErrorView>(partial),
{
}

/// An ambiguity is reported with at least two candidates, all of them known.
pub proof fn lemma_ambiguity_lists_known_names(partial: Seq<char>, known: Seq<Seq<char>>)
    ensures
        resolve_spec(partial, known) matches Err(ErrorView::Ambiguous { wanted, candidates }) ==> {
            &&& wanted == partial
            &&& candidates.len() >= 2
            &&& forall|i: int| 0 <= i < candidates.len() ==> known.contains(#[trigger] candidates[i])
        },
{
    let forward = containing(known, partial);
    let reverse = contained_in(known, partial);
    assert forall|i: int| 0 <= i < forward.len() implies known.contains(#[trigger] forward[i]) by {
        assert(forward.contains(forward[i]));
        known.lemma_filter_contains_rev(holds(partial), forward[i]);
    }
    assert forall|i: int| 0 <= i < reverse.len() implies known.contains(#[trigger] reverse[i]) by {
        assert(reverse.contains(reverse[i]));
        known.lemma_filter_contains_rev(held_by(partial), reverse[i]);
    }
}

/// When no known name contains the partial name and the partial name contains
/// no known name, the failure lists every known name.
pub proof fn lemma_no_candidate_is_not_found(partial: Seq<char>, known: Seq<Seq<char>>)
    requires
        forall|i: int| 0 <= i < known.len() ==> !is_substring(partial, #[trigger] known[i]),
        forall|i: int| 0 <= i < known.len() ==> !is_substring(#[trigger] known[i], partial),
    ensures
        resolve_spec(partial, known) == Err::<Seq<char>, ErrorView>(
            ErrorView::NoMatch { wanted: partial, known },
        ),
{
    known.lemma_all_neg_filter_empty(holds(partial));
    known.lemma_all_neg_filter_empty(held_by(partial));
    if known.contains(partial) {
        let i = choose|i: int| 0 <= i < known.len() && known[i] == partial;
        assert(known[i].subrange(0int, 0int + partial.len()) =~= partial);
        assert(is_substring(partial, known[i]));
    }
}

} // verus!
