//! The catalog's resources as plain values, and the outcomes of fetching them.

use vstd::prelude::*;

verus! {

/// A reference to another resource of the catalog.
#[derive(Debug, Clone)]
pub struct NamedResource {
    pub name: String,
    pub url: String,
}

/// One flavor text of a resource, in one language.
#[derive(Debug, Clone)]
pub struct FlavorText {
    pub flavor_text: String,
    pub language: NamedResource,
}

/// The root resource of a creature, as far as the aggregation reads it.
#[derive(Debug, Clone)]
pub struct PokemonResource {
    pub name: String,
    pub species: NamedResource,
    pub types: Vec<NamedResource>,
    pub abilities: Vec<NamedResource>,
    pub moves: Vec<NamedResource>,
}

/// The species resource of a creature.
#[derive(Debug, Clone)]
pub struct SpeciesResource {
    pub name: String,
    pub flavor_text_entries: Vec<FlavorText>,
}

/// An ability resource.
#[derive(Debug, Clone)]
pub struct AbilityResource {
    pub name: String,
    pub flavor_text_entries: Vec<FlavorText>,
}

/// A move resource.
#[derive(Debug, Clone)]
pub struct MoveResource {
    pub name: String,
    pub flavor_text_entries: Vec<FlavorText>,
    pub type_: NamedResource,
}

/// Why a fetch gave no resource.
#[derive(Debug, Clone, Copy, PartialEq, Eq, Structural)]
pub enum FetchError {
    /// The catalog has nothing under the requested name.
    NotFound,
    /// The network or the cache failed.
    Transport,
}

/// The names that a list of references holds, in its order.
pub open spec fn reference_names(references: Seq<NamedResource>) -> Seq<Seq<char>> {
    references.map_values(|r: NamedResource| r.name@)
}

/// Copies the names out of a list of references.
pub fn names_of(references: &Vec<NamedResource>) -> (names: Vec<String>)
    ensures
        names.deep_view() == reference_names(references@),
{
    let mut names: Vec<String> = Vec::new();
    let mut i: usize = 0;
    while i < references.len()
        invariant
            i <= references.len(),
            names.len() == i,
            forall|k: int| 0 <= k < i ==> names[k]@ == references[k].name@,
        decreases references.len() - i,
    {
        names.push(references[i].name.clone());
        i += 1;
    }
    proof {
        assert(names.deep_view() =~= reference_names(references@));
    }
    names
}

/// The error of the first failed fetch in a batch, if one failed.
pub open spec fn first_failure<T>(outcomes: Seq<Result<T, FetchError>>) -> Option<FetchError>
    decreases outcomes.len(),
{
    if outcomes.len() == 0 {
        None
    } else {
        match first_failure(outcomes.drop_last()) {
            Some(error) => Some(error),
            None => match outcomes.last() {
                Err(error) => Some(error),
                Ok(_) => None,
            },
        }
    }
}

/// Every fetch of the batch gave its resource.
pub open spec fn all_fetched<T>(outcomes: Seq<Result<T, FetchError>>) -> bool {
    forall|i: int| 0 <= i < outcomes.len() ==> (#[trigger] outcomes[i]) is Ok
}

/// A batch has a first failure exactly when not every fetch gave its resource,
/// and that failure is the error of a fetch before which every fetch gave its
/// resource.
pub proof fn lemma_first_failure<T>(outcomes: Seq<Result<T, FetchError>>)
    ensures
        first_failure(outcomes) is None <==> all_fetched(outcomes),
        first_failure(outcomes) matches Some(error) ==> exists|i: int|
            0 <= i < outcomes.len() && (#[trigger] outcomes[i]) == Err::<T, FetchError>(error)
                && all_fetched(outcomes.subrange(0, i)),
    decreases outcomes.len(),
{
    if outcomes.len() > 0 {
        let front = outcomes.drop_last();
        let end = outcomes.len() - 1;
        lemma_first_failure(front);
        assert(forall|k: int| 0 <= k < end ==> front[k] == outcomes[k]);
        if all_fetched(outcomes) {
            assert forall|k: int| 0 <= k < front.len() implies (#[trigger] front[k]) is Ok by {
                assert(outcomes[k] is Ok);
            }
        }
        match first_failure(front) {
            Some(error) => {
                let i = choose|i: int|
                    0 <= i < front.len() && (#[trigger] front[i]) == Err::<T, FetchError>(error)
                        && all_fetched(front.subrange(0, i));
                assert(outcomes[i] == front[i]);
                assert(front.subrange(0, i) =~= outcomes.subrange(0, i));
                assert(!(outcomes[i] is Ok));
            },
            None => {
                assert(outcomes.subrange(0, end) =~= front);
                if outcomes[end] is Ok {
                    assert forall|k: int| 0 <= k < outcomes.len() implies (
                    #[trigger] outcomes[k]) is Ok by {
                        if k < end {
                            assert(front[k] is Ok);
                        }
                    }
                } else {
                    assert(outcomes[end] == Err::<T, FetchError>(outcomes[end]->Err_0));
                }
            },
        }
    }
}

/// Looks for the first failed fetch of a batch.
pub fn find_failure<T>(outcomes: &Vec<Result<T, FetchError>>) -> (found: Option<FetchError>)
    ensures
        found == first_failure(outcomes@),
        found is None <==> all_fetched(outcomes@),
{
    let mut found: Option<FetchError> = None;
    let mut i: usize = 0;
    proof {
        assert(outcomes@.subrange(0, 0) =~= Seq::<Result<T, FetchError>>::empty());
    }
    while i < outcomes.len()
        invariant
            i <= outcomes.len(),
            found == first_failure(outcomes@.subrange(0, i as int)),
            found is None <==> all_fetched(outcomes@.subrange(0, i as int)),
        decreases outcomes.len() - i,
    {
        let ghost seen = outcomes@.subrange(0, i as int);
        let ghost next = outcomes@.subrange(0, i + 1);
        proof {
            assert(next.drop_last() =~= seen);
            assert(next.last() == outcomes@[i as int]);
            assert(forall|k: int| 0 <= k < i ==> seen[k] == next[k]);
            if all_fetched(next) {
                assert forall|k: int| 0 <= k < seen.len() implies (#[trigger] seen[k]) is Ok by {
                    assert(next[k] is Ok);
                }
            }
            if !all_fetched(seen) {
                let k = choose|k: int| 0 <= k < seen.len() && !((#[trigger] seen[k]) is Ok);
                assert(!(next[k] is Ok));
            }
        }
        if found.is_none() {
            match &outcomes[i] {
                Err(error) => {
                    found = Some(*error);
                    proof {
                        assert(!(next[i as int] is Ok));
                    }
                },
                Ok(_) => {
                    proof {
                        assert forall|k: int| 0 <= k < next.len() implies (#[trigger] next[k]) is Ok by {
                            if k < i {
                                assert(seen[k] is Ok);
                            }
                        }
                    }
                },
            }
        }
        i += 1;
    }
    proof {
        assert(outcomes@.subrange(0, i as int) =~= outcomes@);
    }
    found
}

} // verus!
