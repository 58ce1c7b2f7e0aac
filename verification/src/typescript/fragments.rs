//! The guard against fragments that spread each other in a circle.
//!
//! A spread is written by reference, so a circle of spreads would not stop the
//! projector; it would leave type aliases that refer to themselves. The guard finds
//! the first fragment from which spreads can be followed without end.

use vstd::prelude::*;
use vstd::string::*;
use crate::query::{Definition, Selection, SelectionSet};
use crate::text::str_eq;

verus! {

/// The names that one selection spreads, at any depth, in the order they are written.
pub open spec fn spreads_in_selection(selection: Selection) -> Seq<String>
    decreases selection,
{
    match selection {
        Selection::Field(field) => match field.selection_set {
            Some(set) => spreads_in(set),
            None => Seq::empty(),
        },
        Selection::InlineFragment(inline) => spreads_in(inline.selection_set),
        Selection::FragmentSpread(spread) => seq![spread.name.0],
    }
}

/// The names that a list of selections spreads, at any depth.
pub open spec fn spreads_in_selections(selections: Seq<Selection>) -> Seq<String>
    decreases selections,
{
    if selections.len() == 0 {
        Seq::empty()
    } else {
        spreads_in_selections(selections.subrange(0, selections.len() - 1))
            + spreads_in_selection(selections[selections.len() - 1])
    }
}

/// The names that a selection set spreads, at any depth.
pub open spec fn spreads_in(set: SelectionSet) -> Seq<String>
    decreases set,
{
    spreads_in_selections(set.selections@)
}

/// The names that a definition spreads as far as the guard looks: those of a
/// fragment. What an operation spreads cannot close a circle.
pub open spec fn spread_names(definition: Definition) -> Seq<String> {
    match definition {
        Definition::Fragment(fragment) => spreads_in(fragment.selection_set),
        Definition::Operation(_) => Seq::empty(),
    }
}

/// Whether the definition is a fragment called `name`.
pub open spec fn names_fragment(definition: Definition, name: Seq<char>) -> bool {
    definition matches Definition::Fragment(fragment) && fragment.name.0@ == name
}

/// Whether `caller` is a fragment that spreads the fragment `callee` somewhere.
pub open spec fn spreads(caller: Definition, callee: Definition) -> bool {
    exists|k: int|
        0 <= k < spread_names(caller).len() && names_fragment(
            callee,
            (#[trigger] spread_names(caller)[k])@,
        )
}

/// A ranking of some of the definitions under which every spread leads from a
/// ranked definition to a ranked definition of lower rank.
pub open spec fn founded(definitions: Seq<Definition>, rank: Seq<Option<nat>>) -> bool {
    &&& rank.len() == definitions.len()
    &&& forall|a: int, b: int|
        0 <= a < definitions.len() && 0 <= b < definitions.len() && rank[a] is Some
            && #[trigger] spreads(definitions[a], definitions[b]) ==> rank[b] is Some
            && rank[b]->0 < rank[a]->0
}

/// Whether every chain of spreads that starts at the definition `at` comes to an end.
pub open spec fn well_founded(definitions: Seq<Definition>, at: int) -> bool {
    exists|rank: Seq<Option<nat>>| #[trigger] founded(definitions, rank) && rank[at] is Some
}

/// The first definition at or after `from` from which spreads can be followed
/// without end, if there is one.
pub open spec fn first_cyclic(definitions: Seq<Definition>, from: int) -> Option<int>
    decreases definitions.len() - from,
{
    if from < 0 || from >= definitions.len() {
        None
    } else if !well_founded(definitions, from) {
        Some(from)
    } else {
        first_cyclic(definitions, from + 1)
    }
}

/// The ranks that the guard has given out so far.
pub open spec fn ranks_of(rank: Seq<Option<usize>>) -> Seq<Option<nat>> {
    Seq::new(
        rank.len(),
        |i: int|
            match rank[i] {
                Some(r) => Some(r as nat),
                None => None,
            },
    )
}

/// How many definitions have no rank yet.
pub open spec fn unranked(rank: Seq<Option<usize>>) -> nat
    decreases rank.len(),
{
    if rank.len() == 0 {
        0
    } else {
        unranked(rank.drop_last()) + if rank.last() is None {
            1nat
        } else {
            0nat
        }
    }
}

proof fn lemma_all_unranked(rank: Seq<Option<usize>>)
    requires
        forall|i: int| 0 <= i < rank.len() ==> rank[i] is None,
    ensures
        unranked(rank) == rank.len(),
    decreases rank.len(),
{
    if rank.len() > 0 {
        lemma_all_unranked(rank.drop_last());
    }
}

proof fn lemma_ranking_one_more(rank: Seq<Option<usize>>, at: int, r: usize)
    requires
        0 <= at < rank.len(),
        rank[at] is None,
    ensures
        unranked(rank.update(at, Some(r))) + 1 == unranked(rank),
    decreases rank.len(),
{
    let updated = rank.update(at, Some(r));
    if at == rank.len() - 1 {
        assert(updated.drop_last() == rank.drop_last());
    } else {
        assert(updated.drop_last() == rank.drop_last().update(at, Some(r)));
        lemma_ranking_one_more(rank.drop_last(), at, r);
    }
}

/// The definitions without a rank are stuck: each of them spreads another of them.
spec fn stuck(definitions: Seq<Definition>, rank: Seq<Option<usize>>) -> bool {
    forall|a: int|
        0 <= a < definitions.len() && (#[trigger] rank[a]) is None ==> exists|b: int|
            0 <= b < definitions.len() && #[trigger] spreads(definitions[a], definitions[b])
                && rank[b] is None
}

/// From a definition that is stuck, spreads lead on and on: no ranking reaches it.
proof fn lemma_stuck_has_no_rank(
    definitions: Seq<Definition>,
    rank: Seq<Option<usize>>,
    at: int,
    other: Seq<Option<nat>>,
)
    requires
        rank.len() == definitions.len(),
        stuck(definitions, rank),
        0 <= at < definitions.len(),
        rank[at] is None,
        founded(definitions, other),
    ensures
        other[at] is None,
    decreases
            (match other[at] {
                Some(r) => r + 1,
                None => 0,
            }),
{
    if other[at] is Some {
        let next = choose|b: int|
            0 <= b < definitions.len() && #[trigger] spreads(definitions[at], definitions[b])
                && rank[b] is None;
        lemma_stuck_has_no_rank(definitions, rank, next, other);
    }
}

fn collect_in_selection(selection: &Selection) -> (names: Vec<String>)
    ensures
        names@ == spreads_in_selection(*selection),
    decreases selection,
{
    match selection {
        Selection::Field(field) => match &field.selection_set {
            Some(set) => collect_spreads(set),
            None => Vec::new(),
        },
        Selection::InlineFragment(inline) => collect_spreads(&inline.selection_set),
        Selection::FragmentSpread(spread) => {
            let mut names = Vec::new();
            names.push(spread.name.0.clone());
            names
        },
    }
}

/// Gathers the names that a selection set spreads, at any depth.
pub fn collect_spreads(set: &SelectionSet) -> (names: Vec<String>)
    ensures
        names@ == spreads_in(*set),
    decreases set,
{
    let mut names: Vec<String> = Vec::new();
    let mut i: usize = 0;
    while i < set.selections.len()
        invariant
            i <= set.selections.len(),
            names@ == spreads_in_selections(set.selections@.subrange(0, i as int)),
        decreases set.selections.len() - i,
    {
        proof {
            assert(set.selections@.subrange(0, i + 1).subrange(0, i as int)
                == set.selections@.subrange(0, i as int));
        }
        let mut found = collect_in_selection(&set.selections[i]);
        names.append(&mut found);
        i += 1;
    }
    proof {
        assert(set.selections@.subrange(0, i as int) == set.selections@);
    }
    names
}

fn collect_all(definitions: &Vec<Definition>) -> (all: Vec<Vec<String>>)
    ensures
        all@.len() == definitions@.len(),
        forall|i: int| 0 <= i < definitions@.len() ==> (#[trigger] all@[i])@ == spread_names(definitions@[i]),
{
    let mut all: Vec<Vec<String>> = Vec::new();
    let mut i: usize = 0;
    while i < definitions.len()
        invariant
            i <= definitions.len(),
            all@.len() == i,
            forall|j: int| 0 <= j < i ==> (#[trigger] all@[j])@ == spread_names(definitions@[j]),
        decreases definitions.len() - i,
    {
        match &definitions[i] {
            Definition::Fragment(fragment) => all.push(collect_spreads(&fragment.selection_set)),
            Definition::Operation(_) => all.push(Vec::new()),
        }
        i += 1;
    }
    all
}

/// Whether every fragment that the definition `at` spreads has its rank.
fn is_ready(definitions: &Vec<Definition>, names: &Vec<String>, rank: &Vec<Option<usize>>, at: usize) -> (ready: bool)
    requires
        at < definitions@.len(),
        rank@.len() == definitions@.len(),
        names@ == spread_names(definitions@[at as int]),
    ensures
        ready <==> forall|b: int|
            0 <= b < definitions@.len() && #[trigger] spreads(definitions@[at as int], definitions@[b])
                ==> rank@[b] is Some,
{
    let mut k: usize = 0;
    while k < names.len()
        invariant
            at < definitions@.len(),
            rank@.len() == definitions@.len(),
            names@ == spread_names(definitions@[at as int]),
            k <= names.len(),
            forall|j: int, b: int|
                0 <= j < k && 0 <= b < definitions@.len() && #[trigger] names_fragment(
                    definitions@[b],
                    names@[j]@,
                ) ==> rank@[b] is Some,
        decreases names.len() - k,
    {
        let mut b: usize = 0;
        while b < definitions.len()
            invariant
                at < definitions@.len(),
                rank@.len() == definitions@.len(),
                names@ == spread_names(definitions@[at as int]),
                k < names.len(),
                b <= definitions.len(),
                forall|c: int|
                    0 <= c < b && #[trigger] names_fragment(definitions@[c], names@[k as int]@)
                        ==> rank@[c] is Some,
            decreases definitions.len() - b,
        {
            match &definitions[b] {
                Definition::Fragment(fragment) => {
                    if str_eq(fragment.name.0.as_str(), names[k].as_str()) && rank[b].is_none() {
                        proof {
                            assert(spreads(definitions@[at as int], definitions@[b as int]));
                        }
                        return false;
                    }
                },
                Definition::Operation(_) => {},
            }
            b += 1;
        }
        k += 1;
    }
    true
}

/// Looks for a circle of fragment spreads.
///
/// Returns the place of the first definition, in document order, from which spreads
/// can be followed without end; `None` where every chain of spreads ends.
pub fn find_fragment_cycle(definitions: &Vec<Definition>) -> (found: Option<usize>)
    ensures
        match found {
            Some(at) => at < definitions@.len() && first_cyclic(definitions@, 0) == Some(at as int),
            None => first_cyclic(definitions@, 0) is None,
        },
{
    let names = collect_all(definitions);
    let count = definitions.len();
    let mut rank: Vec<Option<usize>> = Vec::new();
    let mut i: usize = 0;
    while i < count
        invariant
            count == definitions@.len(),
            i <= count,
            rank@.len() == i,
            forall|j: int| 0 <= j < i ==> rank@[j] is None,
        decreases count - i,
    {
        rank.push(None);
        i += 1;
    }
    let mut next: usize = 0;
    proof {
        lemma_all_unranked(rank@);
    }
    loop
        invariant
            count == definitions@.len(),
            names@.len() == count,
            forall|j: int| 0 <= j < count ==> (#[trigger] names@[j])@ == spread_names(definitions@[j]),
            rank@.len() == count,
            next + unranked(rank@) == count,
            forall|j: int| 0 <= j < count && rank@[j] is Some ==> (#[trigger] rank@[j])->0 < next,
            founded(definitions@, ranks_of(rank@)),
        decreases unranked(rank@),
    {
        let ghost before = unranked(rank@);
        let mut progress = false;
        let mut at: usize = 0;
        while at < count
            invariant
                count == definitions@.len(),
                names@.len() == count,
                forall|j: int|
                    0 <= j < count ==> (#[trigger] names@[j])@ == spread_names(definitions@[j]),
                rank@.len() == count,
                at <= count,
                next + unranked(rank@) == count,
                forall|j: int|
                    0 <= j < count && rank@[j] is Some ==> (#[trigger] rank@[j])->0 < next,
                founded(definitions@, ranks_of(rank@)),
                unranked(rank@) <= before,
                progress ==> unranked(rank@) < before,
                !progress ==> forall|a: int|
                    0 <= a < at && (#[trigger] rank@[a]) is None ==> exists|b: int|
                        0 <= b < count && #[trigger] spreads(definitions@[a], definitions@[b])
                            && rank@[b] is None,
            decreases count - at,
        {
            if rank[at].is_none() && is_ready(definitions, &names[at], &rank, at) {
                let ghost old_rank = rank@;
                proof {
                    lemma_ranking_one_more(old_rank, at as int, next);
                }
                rank[at] = Some(next);
                proof {
                    let new_ranks = ranks_of(rank@);
                    assert forall|a: int, b: int|
                        0 <= a < count && 0 <= b < count && new_ranks[a] is Some
                            && #[trigger] spreads(definitions@[a], definitions@[b]) implies new_ranks[b] is Some
                        && new_ranks[b]->0 < new_ranks[a]->0 by {
                        assert(a != at ==> ranks_of(old_rank)[a] is Some);
                    }
                }
                next += 1;
                progress = true;
            }
            at += 1;
        }
        if !progress {
            let mut first: usize = 0;
            while first < count
                invariant
                    count == definitions@.len(),
                    rank@.len() == count,
                    first <= count,
                    founded(definitions@, ranks_of(rank@)),
                    stuck(definitions@, rank@),
                    first_cyclic(definitions@, 0) == first_cyclic(definitions@, first as int),
                decreases count - first,
            {
                if rank[first].is_none() {
                    proof {
                        if well_founded(definitions@, first as int) {
                            let other = choose|other: Seq<Option<nat>>|
                                #[trigger] founded(definitions@, other) && other[first as int] is Some;
                            lemma_stuck_has_no_rank(definitions@, rank@, first as int, other);
                        }
                    }
                    return Some(first);
                }
                first += 1;
            }
            return None;
        }
    }
}

} // verus!
