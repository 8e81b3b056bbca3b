use pokecypher::catalog::{
    find_failure, names_of, AbilityResource, FetchError, FlavorText, MoveResource, NamedResource,
    PokemonResource, SpeciesResource,
};
use pokecypher::pokemon::{
    english_flavor_texts, Ability, AggregationError, Meta, Move, Pokemon, PokemonTable,
};

fn named(name: &str) -> NamedResource {
    NamedResource { name: name.to_string(), url: format!("https://catalog.test/{}", name) }
}

fn entry(language: &str, text: &str) -> FlavorText {
    FlavorText { flavor_text: text.to_string(), language: named(language) }
}

fn root() -> PokemonResource {
    PokemonResource {
        name: "bulbasaur".to_string(),
        species: named("bulbasaur"),
        types: vec![named("grass"), named("poison")],
        abilities: vec![named("overgrow"), named("chlorophyll")],
        moves: vec![named("tackle"), named("vine-whip")],
    }
}

fn species() -> SpeciesResource {
    SpeciesResource {
        name: "bulbasaur".to_string(),
        flavor_text_entries: vec![
            entry("en", "A strange seed was\nplanted on its\nback at birth."),
            entry("fr", "Une graine."),
            entry("en", "A strange seed was planted on its back at birth."),
            entry("en", "It can go for days\u{c}without eating."),
        ],
    }
}

fn ability(name: &str, entries: Vec<FlavorText>) -> AbilityResource {
    AbilityResource { name: name.to_string(), flavor_text_entries: entries }
}

fn move_(name: &str, element: &str, entries: Vec<FlavorText>) -> MoveResource {
    MoveResource { name: name.to_string(), flavor_text_entries: entries, type_: named(element) }
}

fn abilities() -> Vec<Result<AbilityResource, FetchError>> {
    vec![
        Ok(ability(
            "overgrow",
            vec![entry("de", "Pflanze."), entry("en", "Powers up Grass-type\nmoves in a pinch.")],
        )),
        Ok(ability("chlorophyll", vec![entry("en", "Boosts Speed in sunshine.")])),
    ]
}

fn moves() -> Vec<Result<MoveResource, FetchError>> {
    vec![
        Ok(move_("tackle", "normal", vec![entry("en", "A physical at\u{ad}\ntack.")])),
        Ok(move_("vine-whip", "grass", vec![])),
    ]
}

#[test]
fn summary_keeps_names_in_remote_order() {
    let meta = Meta::new(&Ok(root())).unwrap();
    assert_eq!(meta.name, "bulbasaur");
    assert_eq!(meta.types, vec!["grass".to_string(), "poison".to_string()]);
    assert_eq!(meta.abilities, vec!["overgrow".to_string(), "chlorophyll".to_string()]);
    assert_eq!(meta.moves, vec!["tackle".to_string(), "vine-whip".to_string()]);
}

#[test]
fn summary_of_a_failed_fetch_fails() {
    assert_eq!(Meta::new(&Err(FetchError::NotFound)).unwrap_err(), AggregationError::NotFound);
    assert_eq!(
        Meta::new(&Err(FetchError::Transport)).unwrap_err(),
        AggregationError::TransportError
    );
}

#[test]
fn names_of_copies_each_name() {
    assert_eq!(names_of(&vec![named("a"), named("b")]), vec!["a".to_string(), "b".to_string()]);
    assert!(names_of(&vec![]).is_empty());
}

#[test]
fn english_texts_are_filtered_and_cleaned() {
    let texts = english_flavor_texts(&species().flavor_text_entries);
    assert_eq!(
        texts,
        vec![
            "A strange seed was planted on its back at birth.".to_string(),
            "A strange seed was planted on its back at birth.".to_string(),
            "It can go for days without eating.".to_string(),
        ]
    );
}

#[test]
fn aggregation_builds_the_whole_record() {
    let pokemon = Pokemon::new(&Ok(root()), &Ok(species()), &abilities(), &moves()).unwrap();
    assert_eq!(pokemon.name, "bulbasaur");
    assert_eq!(pokemon.types, vec!["grass".to_string(), "poison".to_string()]);
    assert_eq!(
        pokemon.flavor,
        vec![
            "A strange seed was planted on its back at birth.".to_string(),
            "It can go for days without eating.".to_string(),
        ]
    );
    assert_eq!(pokemon.abilities.len(), 2);
    assert_eq!(pokemon.abilities[0].name, "overgrow");
    assert_eq!(pokemon.abilities[0].description, "Powers up Grass-type moves in a pinch.");
    assert_eq!(pokemon.abilities[1].name, "chlorophyll");
    assert_eq!(pokemon.abilities[1].description, "Boosts Speed in sunshine.");
    assert_eq!(pokemon.moves.len(), 2);
    assert_eq!(pokemon.moves[0].name, "tackle");
    assert_eq!(pokemon.moves[0].description, "A physical attack.");
    assert_eq!(pokemon.moves[0].type_, "normal");
    assert_eq!(pokemon.moves[1].name, "vine-whip");
    assert_eq!(pokemon.moves[1].type_, "grass");
}

#[test]
fn aggregation_from_a_summary_matches_the_fetched_names() {
    let meta = Meta::summarise(&root());
    let pokemon = Pokemon::new_from_meta(&meta, &Ok(species()), &abilities(), &moves()).unwrap();
    let mut ability_names: Vec<String> = pokemon.abilities.iter().map(|a| a.name.clone()).collect();
    let mut wanted = meta.abilities.clone();
    ability_names.sort();
    wanted.sort();
    assert_eq!(ability_names, wanted);
    let mut move_names: Vec<String> = pokemon.moves.iter().map(|m| m.name.clone()).collect();
    let mut wanted = meta.moves.clone();
    move_names.sort();
    wanted.sort();
    assert_eq!(move_names, wanted);
    assert_eq!(pokemon.types, meta.types);
}

#[test]
fn ability_without_english_text_fails_the_aggregation() {
    let abilities = vec![
        Ok(ability("overgrow", vec![entry("en", "Powers up.")])),
        Ok(ability("chlorophyll", vec![entry("fr", "Chlorophylle."), entry("ja", "x")])),
    ];
    let made = Pokemon::new(&Ok(root()), &Ok(species()), &abilities, &moves());
    assert_eq!(made.unwrap_err(), AggregationError::MissingLocaleText);
    let none = ability("overgrow", vec![]);
    assert_eq!(Ability::from_resource(&none).unwrap_err(), AggregationError::MissingLocaleText);
}

#[test]
fn move_without_any_text_is_described_as_none() {
    let pokemon = Pokemon::new(&Ok(root()), &Ok(species()), &abilities(), &moves()).unwrap();
    assert_eq!(pokemon.moves[1].description, "None");
    let built = Move::from_resource(&move_("cut", "normal", vec![])).unwrap();
    assert_eq!(built.description, "None");
    assert_eq!(built.name, "cut");
    assert_eq!(built.type_, "normal");
}

#[test]
fn move_with_only_foreign_text_fails() {
    let foreign = move_("cut", "normal", vec![entry("fr", "Coupe.")]);
    assert_eq!(Move::from_resource(&foreign).unwrap_err(), AggregationError::MissingLocaleText);
    let moves = vec![Ok(foreign)];
    let made = Pokemon::new(&Ok(root()), &Ok(species()), &abilities(), &moves);
    assert_eq!(made.unwrap_err(), AggregationError::MissingLocaleText);
}

#[test]
fn move_takes_its_first_english_text() {
    let resource = move_(
        "growl",
        "normal",
        vec![entry("ko", "x"), entry("en", "Lowers\nattack."), entry("en", "Second.")],
    );
    assert_eq!(Move::from_resource(&resource).unwrap().description, "Lowers attack.");
}

#[test]
fn failed_fetch_fails_the_aggregation() {
    let failed_species = Pokemon::new(&Ok(root()), &Err(FetchError::Transport), &abilities(), &moves());
    assert_eq!(failed_species.unwrap_err(), AggregationError::TransportError);

    let failed_root = Pokemon::new(&Err(FetchError::NotFound), &Ok(species()), &abilities(), &moves());
    assert_eq!(failed_root.unwrap_err(), AggregationError::NotFound);

    let mut some_abilities = abilities();
    some_abilities.push(Err(FetchError::NotFound));
    some_abilities.push(Err(FetchError::Transport));
    let made = Pokemon::new(&Ok(root()), &Ok(species()), &some_abilities, &moves());
    assert_eq!(made.unwrap_err(), AggregationError::NotFound);

    let mut some_moves = moves();
    some_moves.insert(0, Err(FetchError::Transport));
    let made = Pokemon::new(&Ok(root()), &Ok(species()), &abilities(), &some_moves);
    assert_eq!(made.unwrap_err(), AggregationError::TransportError);
}

#[test]
fn failed_fetch_comes_before_missing_text() {
    let abilities = vec![Ok(ability("overgrow", vec![]))];
    let moves = vec![Err(FetchError::NotFound)];
    let made = Pokemon::new(&Ok(root()), &Ok(species()), &abilities, &moves);
    assert_eq!(made.unwrap_err(), AggregationError::NotFound);
}

#[test]
fn first_failure_of_a_batch_is_found() {
    let none: Vec<Result<u8, FetchError>> = vec![Ok(1), Ok(2)];
    assert_eq!(find_failure(&none), None);
    let some: Vec<Result<u8, FetchError>> =
        vec![Ok(1), Err(FetchError::Transport), Err(FetchError::NotFound)];
    assert_eq!(find_failure(&some), Some(FetchError::Transport));
    let empty: Vec<Result<u8, FetchError>> = vec![];
    assert_eq!(find_failure(&empty), None);
}

#[test]
fn fetch_errors_keep_their_kind() {
    assert_eq!(AggregationError::from_fetch(FetchError::NotFound), AggregationError::NotFound);
    assert_eq!(
        AggregationError::from_fetch(FetchError::Transport),
        AggregationError::TransportError
    );
}

#[test]
fn table_holds_one_summary_for_each_member() {
    let mut other = root();
    other.name = "ivysaur".to_string();
    other.moves = vec![];
    let table = PokemonTable::new_from_type(&vec![Ok(root()), Ok(other)]).unwrap();
    assert_eq!(table.0.len(), 2);
    assert_eq!(table.0[0].name, "bulbasaur");
    assert_eq!(table.0[0].moves, vec!["tackle".to_string(), "vine-whip".to_string()]);
    assert_eq!(table.0[1].name, "ivysaur");
    assert!(table.0[1].moves.is_empty());
    assert_eq!(table.0[1].types, vec!["grass".to_string(), "poison".to_string()]);
    assert!(PokemonTable::new_from_type(&vec![]).unwrap().0.is_empty());
}

#[test]
fn table_fails_with_the_first_failed_member() {
    let members = vec![Ok(root()), Err(FetchError::Transport), Err(FetchError::NotFound)];
    let made = PokemonTable::new_from_type(&members);
    assert_eq!(made.unwrap_err(), AggregationError::TransportError);
}

#[test]
fn each_name_is_requested_once() {
    let mut resource = root();
    resource.abilities = vec![named("overgrow"), named("chlorophyll"), named("overgrow")];
    resource.moves = vec![named("cut"), named("cut"), named("tackle"), named("cut")];
    let meta = Meta::summarise(&resource);
    assert_eq!(meta.abilities.len(), 3);
    assert_eq!(meta.ability_requests(), vec!["overgrow".to_string(), "chlorophyll".to_string()]);
    assert_eq!(meta.move_requests(), vec!["cut".to_string(), "tackle".to_string()]);
}
