//! The summary of a creature, and the aggregation of its species, abilities and
//! moves into one record.

use crate::catalog::{
    all_fetched, find_failure, first_failure, lemma_first_failure, names_of, reference_names,
    AbilityResource, FetchError, FlavorText, MoveResource, PokemonResource, SpeciesResource,
};
use crate::text::{
    clean_text, cleaned, copy_texts, first_occurrences, is_english, is_english_tag,
    lemma_first_occurrences, strip_soft_hyphens, unhyphenated, unique_texts,
};
use vstd::prelude::*;

verus! {

/// Why no record was built.
#[derive(Debug, Clone, Copy, PartialEq, Eq, Structural)]
pub enum AggregationError {
    /// A requested name is absent from the catalog.
    NotFound,
    /// A fetch failed on the way.
    TransportError,
    /// A resource that needs an English flavor text has none.
    MissingLocaleText,
    /// A bound does not fit the number type it is meant for.
    ConversionError,
}

/// The aggregation's error for a failed fetch.
pub open spec fn fetch_failure(error: FetchError) -> AggregationError {
    match error {
        FetchError::NotFound => AggregationError::NotFound,
        FetchError::Transport => AggregationError::TransportError,
    }
}

impl AggregationError {
    /// Turns the failure of a fetch into the aggregation's error of the same kind.
    pub fn from_fetch(error: FetchError) -> (failure: AggregationError)
        ensures
            failure == fetch_failure(error),
    {
        match error {
            FetchError::NotFound => AggregationError::NotFound,
            FetchError::Transport => AggregationError::TransportError,
        }
    }
}

/// The texts of the English entries, cleaned, in the order of the entries.
pub open spec fn english_texts(entries: Seq<FlavorText>) -> Seq<Seq<char>> {
    entries.filter(|e: FlavorText| is_english_tag(e.language.name@)).map_values(
        |e: FlavorText| cleaned(e.flavor_text@),
    )
}

/// Collects the cleaned texts of the English entries.
pub fn english_flavor_texts(entries: &Vec<FlavorText>) -> (texts: Vec<String>)
    ensures
        texts.deep_view() == english_texts(entries@),
{
    let mut texts: Vec<String> = Vec::new();
    let mut i: usize = 0;
    proof {
        reveal(Seq::filter);
        assert(entries@.subrange(0, 0) =~= Seq::<FlavorText>::empty());
        assert(texts.deep_view() =~= english_texts(entries@.subrange(0, 0)));
    }
    while i < entries.len()
        invariant
            i <= entries.len(),
            texts.deep_view() == english_texts(entries@.subrange(0, i as int)),
        decreases entries.len() - i,
    {
        let entry = &entries[i];
        let ghost seen = entries@.subrange(0, i as int);
        let ghost before = texts.deep_view();
        proof {
            assert(entries@.subrange(0, i + 1) =~= seen.push(*entry));
            seen.lemma_filter_push(*entry, |e: FlavorText| is_english_tag(e.language.name@));
        }
        if is_english(entry.language.name.as_str()) {
            let text = clean_text(entry.flavor_text.as_str());
            texts.push(text);
            proof {
                assert(texts.deep_view() =~= before.push(text@));
                assert(texts.deep_view() =~= english_texts(entries@.subrange(0, i + 1)));
            }
        } else {
            proof {
                assert(texts.deep_view() =~= english_texts(entries@.subrange(0, i + 1)));
            }
        }
        i += 1;
    }
    proof {
        assert(entries@.subrange(0, i as int) =~= entries@);
    }
    texts
}

/// An ability with its English description.
#[derive(Debug, Clone)]
pub struct Ability {
    pub name: String,
    pub description: String,
}

/// What an [`Ability`] holds.
pub struct AbilityModel {
    pub name: Seq<char>,
    pub description: Seq<char>,
}

impl DeepView for Ability {
    type V = AbilityModel;

    open spec fn deep_view(&self) -> AbilityModel {
        AbilityModel { name: self.name@, description: self.description@ }
    }
}

/// A move with its English description and the name of its element.
#[derive(Debug, Clone)]
pub struct Move {
    pub name: String,
    pub description: String,
    pub type_: String,
}

/// What a [`Move`] holds.
pub struct MoveModel {
    pub name: Seq<char>,
    pub description: Seq<char>,
    pub type_: Seq<char>,
}

impl DeepView for Move {
    type V = MoveModel;

    open spec fn deep_view(&self) -> MoveModel {
        MoveModel { name: self.name@, description: self.description@, type_: self.type_@ }
    }
}

/// The description of an ability: its first English text. Without one there is
/// no description.
pub open spec fn ability_description(entries: Seq<FlavorText>) -> Option<Seq<char>> {
    let texts = english_texts(entries);
    if texts.len() > 0 {
        Some(texts[0])
    } else {
        None
    }
}

/// The description of a move. A move without any flavor text is described as
/// `None`; otherwise its first English text, freed of hyphenation artifacts,
/// describes it, and without an English text there is no description.
pub open spec fn move_description(entries: Seq<FlavorText>) -> Option<Seq<char>> {
    let texts = english_texts(entries);
    if entries.len() == 0 {
        Some("None"@)
    } else if texts.len() > 0 {
        Some(unhyphenated(texts[0]))
    } else {
        None
    }
}

/// The ability that a resource describes, where it has a description.
pub open spec fn ability_detail(resource: AbilityResource) -> Option<AbilityModel> {
    match ability_description(resource.flavor_text_entries@) {
        Some(description) => Some(AbilityModel { name: resource.name@, description }),
        None => None,
    }
}

/// The move that a resource describes, where it has a description.
pub open spec fn move_detail(resource: MoveResource) -> Option<MoveModel> {
    match move_description(resource.flavor_text_entries@) {
        Some(description) => Some(
            MoveModel { name: resource.name@, description, type_: resource.type_.name@ },
        ),
        None => None,
    }
}

impl Ability {
    /// Builds the ability from its resource. Fails with `MissingLocaleText` exactly
    /// when the resource has no English flavor text.
    pub fn from_resource(resource: &AbilityResource) -> (built: Result<Ability, AggregationError>)
        ensures
            match built {
                Ok(ability) => ability_detail(*resource) == Some(ability.deep_view()),
                Err(error) => error == AggregationError::MissingLocaleText && ability_detail(
                    *resource,
                ) is None,
            },
    {
        let texts = english_flavor_texts(&resource.flavor_text_entries);
        if texts.len() > 0 {
            Ok(Ability { name: resource.name.clone(), description: texts[0].clone() })
        } else {
            Err(AggregationError::MissingLocaleText)
        }
    }
}

impl Move {
    /// Builds the move from its resource. A resource without any flavor text gives
    /// the description `None`. Fails with `MissingLocaleText` exactly when the
    /// resource has flavor texts and none of them is English.
    pub fn from_resource(resource: &MoveResource) -> (built: Result<Move, AggregationError>)
        ensures
            match built {
                Ok(move_) => move_detail(*resource) == Some(move_.deep_view()),
                Err(error) => error == AggregationError::MissingLocaleText && move_detail(
                    *resource,
                ) is None,
            },
    {
        let name = resource.name.clone();
        let type_ = resource.type_.name.clone();
        if resource.flavor_text_entries.len() == 0 {
            return Ok(Move { name, description: String::from_str("None"), type_ });
        }
        let texts = english_flavor_texts(&resource.flavor_text_entries);
        if texts.len() > 0 {
            let description = strip_soft_hyphens(texts[0].as_str());
            Ok(Move { name, description, type_ })
        } else {
            Err(AggregationError::MissingLocaleText)
        }
    }
}

/// The names under which a creature's resources are found.
#[derive(Debug)]
pub struct Meta {
    pub name: String,
    pub types: Vec<String>,
    pub abilities: Vec<String>,
    pub moves: Vec<String>,
}

/// What a [`Meta`] holds.
pub struct MetaModel {
    pub name: Seq<char>,
    pub types: Seq<Seq<char>>,
    pub abilities: Seq<Seq<char>>,
    pub moves: Seq<Seq<char>>,
}

impl DeepView for Meta {
    type V = MetaModel;

    open spec fn deep_view(&self) -> MetaModel {
        MetaModel {
            name: self.name@,
            types: self.types.deep_view(),
            abilities: self.abilities.deep_view(),
            moves: self.moves.deep_view(),
        }
    }
}

/// The summary of a root resource: its name and the names of its types,
/// abilities and moves, each list in the resource's order.
pub open spec fn summary_of(resource: PokemonResource) -> MetaModel {
    MetaModel {
        name: resource.name@,
        types: reference_names(resource.types@),
        abilities: reference_names(resource.abilities@),
        moves: reference_names(resource.moves@),
    }
}

impl Meta {
    /// Summarises what the fetch of a root resource gave. A failed fetch fails the
    /// summary with the error of its kind.
    pub fn new(fetched: &Result<PokemonResource, FetchError>) -> (made: Result<
        Meta,
        AggregationError,
    >)
        ensures
            match made {
                Ok(meta) => fetched is Ok && meta.deep_view() == summary_of(fetched->Ok_0),
                Err(error) => fetched is Err && error == fetch_failure(fetched->Err_0),
            },
    {
        match fetched {
            Ok(resource) => Ok(Meta::summarise(resource)),
            Err(error) => Err(AggregationError::from_fetch(*error)),
        }
    }

    /// The names of the abilities to fetch: each name of the summary once, where
    /// it first occurs.
    pub fn ability_requests(&self) -> (names: Vec<String>)
        ensures
            names.deep_view() == first_occurrences(self.abilities.deep_view()),
            names.deep_view().no_duplicates(),
            forall|name: Seq<char>|
                names.deep_view().contains(name) <==> self.abilities.deep_view().contains(name),
    {
        unique_texts(copy_texts(&self.abilities))
    }

    /// The names of the moves to fetch: each name of the summary once, where it
    /// first occurs.
    pub fn move_requests(&self) -> (names: Vec<String>)
        ensures
            names.deep_view() == first_occurrences(self.moves.deep_view()),
            names.deep_view().no_duplicates(),
            forall|name: Seq<char>|
                names.deep_view().contains(name) <==> self.moves.deep_view().contains(name),
    {
        unique_texts(copy_texts(&self.moves))
    }

    /// Extracts the summary of a root resource.
    pub fn summarise(resource: &PokemonResource) -> (meta: Meta)
        ensures
            meta.deep_view() == summary_of(*resource),
    {
        Meta {
            name: resource.name.clone(),
            types: names_of(&resource.types),
            abilities: names_of(&resource.abilities),
            moves: names_of(&resource.moves),
        }
    }
}

/// The summaries of the members of a category.
#[derive(Debug)]
pub struct PokemonTable(pub Vec<Meta>);

/// The summaries of a batch of root resources, in the batch's order.
pub open spec fn summaries_of(members: Seq<Result<PokemonResource, FetchError>>) -> Seq<
    MetaModel,
> {
    members.map_values(|m: Result<PokemonResource, FetchError>| summary_of(m->Ok_0))
}

impl PokemonTable {
    /// Builds the table from what the fetches of the members gave. One failed
    /// fetch fails the table, with the error of the first that failed; otherwise
    /// the table holds one summary for each member, in the order given.
    pub fn new_from_type(members: &Vec<Result<PokemonResource, FetchError>>) -> (made: Result<
        PokemonTable,
        AggregationError,
    >)
        ensures
            match made {
                Ok(table) => first_failure(members@) is None && all_fetched(members@)
                    && table.0.deep_view() == summaries_of(members@),
                Err(error) => first_failure(members@) is Some && error == fetch_failure(
                    first_failure(members@)->0,
                ),
            },
    {
        if let Some(error) = find_failure(members) {
            return Err(AggregationError::from_fetch(error));
        }
        let mut rows: Vec<Meta> = Vec::new();
        let mut i: usize = 0;
        while i < members.len()
            invariant
                i <= members.len(),
                all_fetched(members@),
                rows.len() == i,
                forall|k: int| 0 <= k < i ==> (#[trigger] rows[k]).deep_view() == summary_of(members[k]->Ok_0),
            decreases members.len() - i,
        {
            match &members[i] {
                Ok(resource) => {
                    rows.push(Meta::summarise(resource));
                },
                Err(_) => {
                    proof {
                        assert(members@[i as int] is Ok);
                    }
                },
            }
            i += 1;
        }
        proof {
            assert(rows.deep_view() =~= summaries_of(members@));
        }
        Ok(PokemonTable(rows))
    }
}

/// The full record of a creature.
#[derive(Debug)]
pub struct Pokemon {
    pub name: String,
    pub flavor: Vec<String>,
    pub types: Vec<String>,
    pub abilities: Vec<Ability>,
    pub moves: Vec<Move>,
}

/// What a [`Pokemon`] holds.
pub struct PokemonModel {
    pub name: Seq<char>,
    pub flavor: Seq<Seq<char>>,
    pub types: Seq<Seq<char>>,
    pub abilities: Seq<AbilityModel>,
    pub moves: Seq<MoveModel>,
}

impl DeepView for Pokemon {
    type V = PokemonModel;

    open spec fn deep_view(&self) -> PokemonModel {
        PokemonModel {
            name: self.name@,
            flavor: self.flavor.deep_view(),
            types: self.types.deep_view(),
            abilities: self.abilities.deep_view(),
            moves: self.moves.deep_view(),
        }
    }
}

/// The flavor of a species: its English texts, cleaned, each kept once where it
/// first occurs.
pub open spec fn species_flavor(entries: Seq<FlavorText>) -> Seq<Seq<char>> {
    first_occurrences(english_texts(entries))
}

/// Every ability resource of the batch has a description.
pub open spec fn abilities_described(outcomes: Seq<Result<AbilityResource, FetchError>>) -> bool {
    forall|i: int|
        0 <= i < outcomes.len() ==> ability_detail((#[trigger] outcomes[i])->Ok_0) is Some
}

/// Every move resource of the batch has a description.
pub open spec fn moves_described(outcomes: Seq<Result<MoveResource, FetchError>>) -> bool {
    forall|i: int| 0 <= i < outcomes.len() ==> move_detail((#[trigger] outcomes[i])->Ok_0) is Some
}

/// The abilities that a batch of resources describes, in the batch's order.
pub open spec fn ability_details(outcomes: Seq<Result<AbilityResource, FetchError>>) -> Seq<
    AbilityModel,
> {
    outcomes.map_values(|o: Result<AbilityResource, FetchError>| ability_detail(o->Ok_0)->0)
}

/// The moves that a batch of resources describes, in the batch's order.
pub open spec fn move_details(outcomes: Seq<Result<MoveResource, FetchError>>) -> Seq<MoveModel> {
    outcomes.map_values(|o: Result<MoveResource, FetchError>| move_detail(o->Ok_0)->0)
}

/// What the aggregation of a creature gives. A failed fetch fails it, the
/// species' first, then the first failed ability, then the first failed move.
/// With every resource at hand, an ability or a move without a description fails
/// it with `MissingLocaleText`. Otherwise the record holds the summary's name and
/// types, the species' flavor, and one ability and one move for each resource.
pub open spec fn aggregated(
    meta: MetaModel,
    species: Result<SpeciesResource, FetchError>,
    abilities: Seq<Result<AbilityResource, FetchError>>,
    moves: Seq<Result<MoveResource, FetchError>>,
) -> Result<PokemonModel, AggregationError> {
    if species is Err {
        Err(fetch_failure(species->Err_0))
    } else if first_failure(abilities) is Some {
        Err(fetch_failure(first_failure(abilities)->0))
    } else if first_failure(moves) is Some {
        Err(fetch_failure(first_failure(moves)->0))
    } else if !abilities_described(abilities) || !moves_described(moves) {
        Err(AggregationError::MissingLocaleText)
    } else {
        Ok(
            PokemonModel {
                name: meta.name,
                flavor: species_flavor(species->Ok_0.flavor_text_entries@),
                types: meta.types,
                abilities: ability_details(abilities),
                moves: move_details(moves),
            },
        )
    }
}

/// A record comes only where every fetch gave its resource. It takes its name
/// and types from the summary, holds no flavor text twice, and names each
/// fetched ability and each fetched move once, in the order of its batch.
pub proof fn lemma_aggregated_whole(
    meta: MetaModel,
    species: Result<SpeciesResource, FetchError>,
    abilities: Seq<Result<AbilityResource, FetchError>>,
    moves: Seq<Result<MoveResource, FetchError>>,
)
    requires
        aggregated(meta, species, abilities, moves) is Ok,
    ensures
        species is Ok,
        all_fetched(abilities),
        all_fetched(moves),
        ({
            let record = aggregated(meta, species, abilities, moves)->Ok_0;
            &&& record.name == meta.name
            &&& record.types == meta.types
            &&& record.flavor.no_duplicates()
            &&& record.abilities.len() == abilities.len()
            &&& record.moves.len() == moves.len()
            &&& forall|i: int|
                0 <= i < abilities.len() ==> (#[trigger] record.abilities[i]).name
                    == abilities[i]->Ok_0.name@
            &&& forall|i: int|
                0 <= i < moves.len() ==> (#[trigger] record.moves[i]).name == moves[i]->Ok_0.name@
        }),
{
    lemma_first_failure(abilities);
    lemma_first_failure(moves);
    lemma_first_occurrences(english_texts(species->Ok_0.flavor_text_entries@));
    let record = aggregated(meta, species, abilities, moves)->Ok_0;
    assert forall|i: int| 0 <= i < abilities.len() implies (#[trigger] record.abilities[i]).name
        == abilities[i]->Ok_0.name@ by {
        assert(ability_detail(abilities[i]->Ok_0) is Some);
    }
    assert forall|i: int| 0 <= i < moves.len() implies (#[trigger] record.moves[i]).name
        == moves[i]->Ok_0.name@ by {
        assert(move_detail(moves[i]->Ok_0) is Some);
    }
}

/// What the outcome of an aggregation holds.
pub open spec fn outcome_model(outcome: Result<Pokemon, AggregationError>) -> Result<
    PokemonModel,
    AggregationError,
> {
    match outcome {
        Ok(pokemon) => Ok(pokemon.deep_view()),
        Err(error) => Err(error),
    }
}

/// Builds the abilities of a batch in which every fetch gave its resource.
/// Gives nothing exactly when one of them has no description.
pub fn describe_abilities(outcomes: &Vec<Result<AbilityResource, FetchError>>) -> (built: Option<
    Vec<Ability>,
>)
    requires
        all_fetched(outcomes@),
    ensures
        built is Some <==> abilities_described(outcomes@),
        built is Some ==> built->0.deep_view() == ability_details(outcomes@),
{
    let mut abilities: Vec<Ability> = Vec::new();
    let mut i: usize = 0;
    while i < outcomes.len()
        invariant
            i <= outcomes.len(),
            all_fetched(outcomes@),
            abilities.len() == i,
            forall|k: int|
                0 <= k < i ==> ability_detail((#[trigger] outcomes[k])->Ok_0) == Some(
                    abilities[k].deep_view(),
                ),
        decreases outcomes.len() - i,
    {
        match &outcomes[i] {
            Ok(resource) => {
                match Ability::from_resource(resource) {
                    Ok(ability) => {
                        abilities.push(ability);
                    },
                    Err(_) => {
                        proof {
                            assert(ability_detail(outcomes@[i as int]->Ok_0) is None);
                        }
                        return None;
                    },
                }
            },
            Err(_) => {
                proof {
                    assert(outcomes@[i as int] is Ok);
                }
                return None;
            },
        }
        i += 1;
    }
    proof {
        assert(abilities.deep_view() =~= ability_details(outcomes@));
    }
    Some(abilities)
}

/// Builds the moves of a batch in which every fetch gave its resource. Gives
/// nothing exactly when one of them has no description.
pub fn describe_moves(outcomes: &Vec<Result<MoveResource, FetchError>>) -> (built: Option<
    Vec<Move>,
>)
    requires
        all_fetched(outcomes@),
    ensures
        built is Some <==> moves_described(outcomes@),
        built is Some ==> built->0.deep_view() == move_details(outcomes@),
{
    let mut moves: Vec<Move> = Vec::new();
    let mut i: usize = 0;
    while i < outcomes.len()
        invariant
            i <= outcomes.len(),
            all_fetched(outcomes@),
            moves.len() == i,
            forall|k: int|
                0 <= k < i ==> move_detail((#[trigger] outcomes[k])->Ok_0) == Some(
                    moves[k].deep_view(),
                ),
        decreases outcomes.len() - i,
    {
        match &outcomes[i] {
            Ok(resource) => {
                match Move::from_resource(resource) {
                    Ok(move_) => {
                        moves.push(move_);
                    },
                    Err(_) => {
                        proof {
                            assert(move_detail(outcomes@[i as int]->Ok_0) is None);
                        }
                        return None;
                    },
                }
            },
            Err(_) => {
                proof {
                    assert(outcomes@[i as int] is Ok);
                }
                return None;
            },
        }
        i += 1;
    }
    proof {
        assert(moves.deep_view() =~= move_details(outcomes@));
    }
    Some(moves)
}

impl Pokemon {
    /// Aggregates a creature from what the fetches of its root resource, its
    /// species, its abilities and its moves gave.
    pub fn new(
        root: &Result<PokemonResource, FetchError>,
        species: &Result<SpeciesResource, FetchError>,
        abilities: &Vec<Result<AbilityResource, FetchError>>,
        moves: &Vec<Result<MoveResource, FetchError>>,
    ) -> (made: Result<Pokemon, AggregationError>)
        ensures
            outcome_model(made) == (match *root {
                Ok(resource) => aggregated(summary_of(resource), *species, abilities@, moves@),
                Err(error) => Err(fetch_failure(error)),
            }),
    {
        match Meta::new(root) {
            Ok(meta) => Pokemon::new_from_meta(&meta, species, abilities, moves),
            Err(error) => Err(error),
        }
    }

    /// Aggregates a creature from its summary and from what the fetches of its
    /// species, its abilities and its moves gave. The record comes whole or not at
    /// all.
    pub fn new_from_meta(
        meta: &Meta,
        species: &Result<SpeciesResource, FetchError>,
        abilities: &Vec<Result<AbilityResource, FetchError>>,
        moves: &Vec<Result<MoveResource, FetchError>>,
    ) -> (made: Result<Pokemon, AggregationError>)
        ensures
            outcome_model(made) == aggregated(meta.deep_view(), *species, abilities@, moves@),
    {
        let name = meta.name.clone();
        let types = copy_texts(&meta.types);
        let flavor = match species {
            Ok(resource) => unique_texts(english_flavor_texts(&resource.flavor_text_entries)),
            Err(error) => {
                return Err(AggregationError::from_fetch(*error));
            },
        };
        if let Some(error) = find_failure(abilities) {
            return Err(AggregationError::from_fetch(error));
        }
        if let Some(error) = find_failure(moves) {
            return Err(AggregationError::from_fetch(error));
        }
        let abilities = match describe_abilities(abilities) {
            Some(built) => built,
            None => {
                return Err(AggregationError::MissingLocaleText);
            },
        };
        let moves = match describe_moves(moves) {
            Some(built) => built,
            None => {
                return Err(AggregationError::MissingLocaleText);
            },
        };
        Ok(Pokemon { name, flavor, abilities, moves, types })
    }
}

} // verus!
