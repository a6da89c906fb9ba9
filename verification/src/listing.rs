//! Listing what is on disk: the repositories under the repository root, and
//! the tracked copies inside a repository.

use vstd::prelude::*;
use crate::text::views;

verus! {

/// One entry of a directory, as the caller read it.
#[derive(Debug)]
pub struct Listed {
    /// The entry's name, without the directory in front.
    pub name: String,
    /// Whether the entry is a directory.
    pub is_dir: bool,
}

/// `a` comes before `b`, or equals it, when the two are compared character
/// by character from the left.
pub open spec fn lex_le(a: Seq<char>, b: Seq<char>) -> bool
    decreases a.len(),
{
    if a.len() == 0 {
        true
    } else if b.len() == 0 {
        false
    } else if a[0] != b[0] {
        (a[0] as u32) < (b[0] as u32)
    } else {
        lex_le(a.drop_first(), b.drop_first())
    }
}

/// The names are in ascending order.
pub open spec fn ascending(names: Seq<Seq<char>>) -> bool {
    forall|i: int, j: int| 0 <= i <= j < names.len() ==> lex_le(names[i], names[j])
}

/// The names of the entries, in order; of the directories only when
/// `dirs_only` is set.
pub open spec fn listed_names(entries: Seq<Listed>, dirs_only: bool) -> Seq<Seq<char>>
    decreases entries.len(),
{
    if entries.len() == 0 {
        Seq::empty()
    } else if dirs_only && !entries.last().is_dir {
        listed_names(entries.drop_last(), dirs_only)
    } else {
        listed_names(entries.drop_last(), dirs_only).push(entries.last().name@)
    }
}

/// Calls `sort` on a slice of strings: afterwards the slice holds the same
/// strings as before, in ascending order. Strings compare character by
/// character.
#[verifier::external_body]
fn sort_names(names: &mut Vec<String>)
    ensures
        views(final(names)@).to_multiset() == views(old(names)@).to_multiset(),
        ascending(views(final(names)@)),
{
    names.sort()
}

/// The names of the entries, unsorted.
fn names_of(entries: &Vec<Listed>, dirs_only: bool) -> (names: Vec<String>)
    ensures
        views(names@) == listed_names(entries@, dirs_only),
{
    let mut names: Vec<String> = Vec::new();
    let mut i: usize = 0;
    proof {
        assert(entries@.take(0) =~= Seq::<Listed>::empty());
        assert(views(names@) =~= listed_names(entries@.take(0), dirs_only));
    }
    while i < entries.len()
        invariant
            i <= entries@.len(),
            views(names@) == listed_names(entries@.take(i as int), dirs_only),
        decreases entries@.len() - i,
    {
        proof {
            assert(entries@.take(i + 1).drop_last() =~= entries@.take(i as int));
            assert(entries@.take(i + 1).last() == entries@[i as int]);
        }
        if !dirs_only || entries[i].is_dir {
            let ghost before = views(names@);
            names.push(entries[i].name.clone());
            proof {
                assert(views(names@) =~= before.push(entries@[i as int].name@));
            }
        }
        i += 1;
    }
    proof {
        assert(entries@.take(entries@.len() as int) =~= entries@);
    }
    names
}

/// The repositories under the repository root, given the entries of the
/// root: the names of its subdirectories, in ascending order.
pub fn list_repos(entries: &Vec<Listed>) -> (names: Vec<String>)
    ensures
        views(names@).to_multiset() == listed_names(entries@, true).to_multiset(),
        ascending(views(names@)),
{
    let mut names = names_of(entries, true);
    sort_names(&mut names);
    names
}

/// The tracked copies of a repository, given the entries of its `files`
/// directory: the names of all entries, in ascending order.
pub fn list_repo_files(entries: &Vec<Listed>) -> (names: Vec<String>)
    ensures
        views(names@).to_multiset() == listed_names(entries@, false).to_multiset(),
        ascending(views(names@)),
{
    let mut names = names_of(entries, false);
    sort_names(&mut names);
    names
}

} // verus!
