use smog_strat_dex_rs::basics::BasicsPokemon;
use smog_strat_dex_rs::basics::BasicsResponse;
use smog_strat_dex_rs::pokemon::Credits;
use smog_strat_dex_rs::pokemon::EvConfig;
use smog_strat_dex_rs::pokemon::MoveSet;
use smog_strat_dex_rs::pokemon::MoveSlot;
use smog_strat_dex_rs::pokemon::PokemonResponse;
use smog_strat_dex_rs::pokemon::Strategy;
use smog_strat_dex_rs::selection::select_move_set;
use smog_strat_dex_rs::selection::select_move_set_at;
use smog_strat_dex_rs::resolver::Lookup;
use smog_strat_dex_rs::resolver::Resolver;
use smog_strat_dex_rs::resolver::Step;
use smog_strat_dex_rs::Generation;
use smog_strat_dex_rs::StratDexError;

fn creature(name: &str, mark: &str) -> BasicsPokemon {
    BasicsPokemon {
        name: name.to_string(),
        hp: 45,
        atk: 49,
        def: 49,
        spa: 65,
        spd: 65,
        spe: 45,
        weight_bits: 6.9f32.to_bits(),
        height_bits: 0.7f32.to_bits(),
        types: vec!["Grass".to_string(), "Poison".to_string()],
        abilities: vec!["Overgrow".to_string()],
        formats: vec!["OU".to_string()],
        is_non_standard: mark.to_string(),
        oob: None,
    }
}

fn listing(pokemon: Vec<BasicsPokemon>) -> BasicsResponse {
    BasicsResponse {
        pokemon,
        formats: Vec::new(),
        natures: Vec::new(),
        abilities: Vec::new(),
        moves: Vec::new(),
        types: Vec::new(),
        items: Vec::new(),
    }
}

fn build(pokemon: &str, name: &str) -> MoveSet {
    MoveSet {
        name: name.to_string(),
        pokemon: pokemon.to_string(),
        shiny: false,
        gender: String::new(),
        description: String::new(),
        abilities: vec!["Overgrow".to_string()],
        items: vec!["Leftovers".to_string()],
        tera_types: Vec::new(),
        move_slots: vec![vec![MoveSlot { move_name: "Giga Drain".to_string(), move_type: None }]],
        ev_configs: vec![EvConfig { hp: 0, atk: 0, def: 4, spa: 252, spd: 0, spe: 252 }],
        iv_configs: Vec::new(),
        natures: vec!["Modest".to_string()],
    }
}

fn strategy(format: &str, move_sets: Vec<MoveSet>) -> Strategy {
    Strategy {
        format: format.to_string(),
        overview: String::new(),
        comments: String::new(),
        move_sets,
        credits: Credits { teams: Vec::new(), written_by: Vec::new() },
    }
}

fn detail(strategies: Vec<Strategy>) -> PokemonResponse {
    PokemonResponse { languages: vec!["en".to_string()], learnset: Vec::new(), strategies }
}

fn transport_error() -> reqwest::Error {
    reqwest::Client::new().get("no scheme here").build().unwrap_err()
}

fn lookup_of(step: Step) -> Lookup {
    match step {
        Step::Fetch(lookup) => lookup,
        other => panic!("expected a question, got {:?}", other),
    }
}

fn resolver_of(step: Step) -> Resolver {
    match step {
        Step::Draw(resolver) => resolver,
        other => panic!("expected a draw, got {:?}", other),
    }
}

fn ou() -> Option<String> {
    Some("OU".to_string())
}

#[test]
fn only_standard_creatures_are_listed() {
    let all = listing(vec![
        creature("Bulbasaur", "Standard"),
        creature("Missingno", "Unobtainable"),
        creature("Ivysaur", "Standard"),
        creature("Syclant", "CAP"),
        creature("Pikachu-Starter", "standard"),
        creature("Venusaur", "Standard"),
        creature("Eternatus-Eternamax", ""),
    ]);
    let names: Vec<&str> = all.standard().into_iter().map(|p| p.name.as_str()).collect();
    assert_eq!(names, vec!["Bulbasaur", "Ivysaur", "Venusaur"]);
    assert!(creature("Bulbasaur", "Standard").is_standard());
    assert!(!creature("Bulbasaur", "Past").is_standard());
}

#[test]
fn bulbasaur_from_listing_to_text() {
    let all = listing(vec![creature("Bulbasaur", "Standard")]);
    let resolver = Resolver::new(Generation::ScarletViolet, ou(), 5);
    let lookup = lookup_of(resolver.draw(&all));
    assert_eq!(lookup.alias, "bulbasaur");
    assert!(!lookup.fallback);
    assert_eq!(lookup.resolver.attempts_left, 4);
    assert_eq!(lookup.resolver.generation, Generation::ScarletViolet);
    let answer = detail(vec![strategy("OU", vec![build("Bulbasaur", "Special Attacker")])]);
    match lookup.fetched(answer) {
        Step::Done(format, move_set) => {
            assert_eq!(format, "OU");
            assert_eq!(
                move_set.render(),
                "Bulbasaur @ Leftovers\nAbility: Overgrow\nEVs: 4 Def / 252 SpA / 252 Spe\nModest Nature\n- Giga Drain\n"
            );
        },
        other => panic!("expected a build, got {:?}", other),
    }
}

#[test]
fn mega_falls_back_to_the_plain_alias() {
    let all = listing(vec![creature("Charizard-Mega-X", "Standard")]);
    let resolver = Resolver::new(Generation::XY, None, 3);
    let first = lookup_of(resolver.draw(&all));
    assert_eq!(first.alias, "charizard-mega-x");
    let second = lookup_of(first.failed(transport_error()));
    assert_eq!(second.alias, "charizard-x");
    assert!(second.fallback);
    assert_eq!(second.resolver.attempts_left, 2);
    let answer = detail(vec![strategy("Ubers", vec![build("Charizard", "Dragon Dance")])]);
    match second.fetched(answer) {
        Step::Done(format, move_set) => {
            assert_eq!(format, "Ubers");
            assert_eq!(move_set.name, "Dragon Dance");
            assert_eq!(move_set.pokemon, "Charizard");
        },
        other => panic!("expected a build, got {:?}", other),
    }
}

#[test]
fn second_failure_ends_the_search() {
    let resolver = Resolver::new(Generation::XY, None, 3);
    let first = lookup_of(resolver.aim(&creature("Charizard-Mega-X", "Standard")));
    let second = lookup_of(first.failed(transport_error()));
    match second.failed(transport_error()) {
        Step::Failed(StratDexError::FetchError(cause)) => assert!(cause.is_builder()),
        other => panic!("expected a failure, got {:?}", other),
    }
}

#[test]
fn fallback_without_mega_asks_the_same_alias_again() {
    let resolver = Resolver::new(Generation::RedBlue, None, 1);
    let first = lookup_of(resolver.aim(&creature("Mr. Mime", "Standard")));
    assert_eq!(first.alias, "mr.-mime");
    let second = lookup_of(first.failed(transport_error()));
    assert_eq!(second.alias, "mr.-mime");
    assert!(second.fallback);
}

#[test]
fn no_draw_left_is_exhaustion() {
    let all = listing(vec![creature("Bulbasaur", "Standard")]);
    let resolver = Resolver::new(Generation::ScarletViolet, None, 0);
    assert!(matches!(resolver.draw(&all), Step::Failed(StratDexError::ResolutionExhausted)));
    let resolver = Resolver::new(Generation::ScarletViolet, None, 0);
    assert!(matches!(
        resolver.aim(&creature("Bulbasaur", "Standard")),
        Step::Failed(StratDexError::ResolutionExhausted)
    ));
}

#[test]
fn no_standard_creature_is_an_empty_universe() {
    let all = listing(vec![creature("Missingno", "Unobtainable")]);
    let resolver = Resolver::new(Generation::RedBlue, None, 4);
    assert!(matches!(resolver.draw(&all), Step::Failed(StratDexError::EmptyUniverse)));
    let resolver = Resolver::new(Generation::RedBlue, None, 4);
    assert!(matches!(resolver.draw(&listing(Vec::new())), Step::Failed(StratDexError::EmptyUniverse)));
}

#[test]
fn exhaustion_comes_before_the_empty_universe() {
    let resolver = Resolver::new(Generation::RedBlue, None, 0);
    assert!(matches!(
        resolver.draw(&listing(Vec::new())),
        Step::Failed(StratDexError::ResolutionExhausted)
    ));
}

#[test]
fn draws_stay_among_the_standard() {
    let all = listing(vec![
        creature("Missingno", "Unobtainable"),
        creature("Bulbasaur", "Standard"),
        creature("Syclant", "CAP"),
        creature("Tapu Koko", "Standard"),
        creature("Pokestar Smeargle", "Pokestar"),
    ]);
    let mut seen_bulbasaur = false;
    let mut seen_koko = false;
    for _ in 0..200 {
        let lookup = lookup_of(Resolver::new(Generation::SunMoon, None, 1).draw(&all));
        match lookup.alias.as_str() {
            "bulbasaur" => seen_bulbasaur = true,
            "tapu-koko" => seen_koko = true,
            other => panic!("drew {}", other),
        }
    }
    assert!(seen_bulbasaur && seen_koko);
}

#[test]
fn search_without_builds_is_exhausted_after_all_draws() {
    let all = listing(vec![creature("Bulbasaur", "Standard"), creature("Ivysaur", "Standard")]);
    let mut step = Step::Draw(Resolver::new(Generation::ScarletViolet, ou(), 3));
    let mut questions = 0;
    let mut steps = 0;
    let end = loop {
        steps += 1;
        step = match step {
            Step::Draw(resolver) => resolver.draw(&all),
            Step::Fetch(lookup) => {
                questions += 1;
                lookup.fetched(detail(vec![strategy("UU", vec![build("x", "y")]), strategy("OU", Vec::new())]))
            },
            last => break last,
        };
    };
    assert!(matches!(end, Step::Failed(StratDexError::ResolutionExhausted)));
    assert_eq!(questions, 3);
    assert_eq!(steps, 2 * 3 + 2);
}

#[test]
fn search_with_failing_dex_stops_at_the_second_failure() {
    let all = listing(vec![creature("Bulbasaur", "Standard")]);
    let mut step = Step::Draw(Resolver::new(Generation::ScarletViolet, None, 10));
    let mut questions = 0;
    let end = loop {
        step = match step {
            Step::Draw(resolver) => resolver.draw(&all),
            Step::Fetch(lookup) => {
                questions += 1;
                lookup.failed(transport_error())
            },
            last => break last,
        };
    };
    assert!(matches!(end, Step::Failed(StratDexError::FetchError(_))));
    assert_eq!(questions, 2);
}

#[test]
fn search_goes_on_until_a_build_is_found() {
    let all = listing(vec![creature("Bulbasaur", "Standard")]);
    let mut step = Step::Draw(Resolver::new(Generation::ScarletViolet, ou(), 10));
    let mut questions = 0;
    let end = loop {
        step = match step {
            Step::Draw(resolver) => resolver.draw(&all),
            Step::Fetch(lookup) => {
                questions += 1;
                if questions < 4 {
                    lookup.fetched(detail(Vec::new()))
                } else {
                    lookup.fetched(detail(vec![strategy("OU", vec![build("Bulbasaur", "Wall")])]))
                }
            },
            last => break last,
        };
    };
    match end {
        Step::Done(format, move_set) => {
            assert_eq!(format, "OU");
            assert_eq!(move_set.name, "Wall");
        },
        other => panic!("expected a build, got {:?}", other),
    }
    assert_eq!(questions, 4);
}

#[test]
fn an_offered_build_is_found_with_the_first_draw() {
    let all = listing(vec![creature("Missingno", "Glitch"), creature("Tapu Koko", "Standard")]);
    let mut step = Step::Draw(Resolver::new(Generation::SunMoon, ou(), 9));
    let mut asked = Vec::new();
    let mut steps = 1;
    let end = loop {
        step = match step {
            Step::Draw(resolver) => resolver.draw(&all),
            Step::Fetch(lookup) => {
                asked.push(lookup.alias.clone());
                let answer = detail(vec![
                    strategy("OU", vec![build("Tapu Koko", "Pivot")]),
                    strategy("Ubers", Vec::new()),
                ]);
                lookup.answered(Ok(answer))
            },
            last => break last,
        };
        steps += 1;
    };
    assert_eq!(steps, 3);
    assert_eq!(asked, vec!["tapu-koko".to_string()]);
    match end {
        Step::Done(format, move_set) => {
            assert_eq!(format, "OU");
            assert_eq!(move_set.name, "Pivot");
        },
        other => panic!("expected a build, got {:?}", other),
    }
}

#[test]
fn a_reply_is_an_answer_or_a_failure() {
    let lookup = || lookup_of(Resolver::new(Generation::XY, None, 2).aim(&creature("Venusaur-Mega", "Standard")));
    let second = lookup_of(lookup().answered(Err(transport_error())));
    assert_eq!(second.alias, "venusaur");
    assert!(second.fallback);
    assert!(matches!(
        second.answered(Err(transport_error())),
        Step::Failed(StratDexError::FetchError(_))
    ));
    let again = resolver_of(lookup().answered(Ok(detail(Vec::new()))));
    assert_eq!(again.attempts_left, 1);
}

#[test]
fn selection_by_position() {
    let strategies = || {
        detail(vec![
            strategy("UU", vec![build("a", "uu-0")]),
            strategy("OU", vec![build("a", "ou-0"), build("a", "ou-1"), build("a", "ou-2")]),
            strategy("LC", Vec::new()),
            strategy("OU", vec![build("a", "ou2-0"), build("a", "ou2-1")]),
        ])
    };
    let name = |found: Option<(String, MoveSet)>| found.map(|(f, m)| (f, m.name));
    let some = |f: &str, n: &str| Some((f.to_string(), n.to_string()));
    assert_eq!(name(select_move_set_at(strategies(), &None, 0, 0)), some("UU", "uu-0"));
    assert_eq!(name(select_move_set_at(strategies(), &None, 1, 2)), some("OU", "ou-2"));
    assert_eq!(name(select_move_set_at(strategies(), &None, 1, 0)), some("OU", "ou-0"));
    assert_eq!(name(select_move_set_at(strategies(), &None, 1, 1)), some("OU", "ou-1"));
    assert_eq!(name(select_move_set_at(strategies(), &None, 3, 1)), some("OU", "ou2-1"));
    assert_eq!(name(select_move_set_at(strategies(), &None, 2, 0)), None);
    assert_eq!(name(select_move_set_at(strategies(), &None, 4, 0)), None);
    assert_eq!(name(select_move_set_at(strategies(), &None, 0, 1)), None);
    assert_eq!(name(select_move_set_at(strategies(), &ou(), 0, 0)), some("OU", "ou-0"));
    assert_eq!(name(select_move_set_at(strategies(), &ou(), 0, 2)), some("OU", "ou-2"));
    assert_eq!(name(select_move_set_at(strategies(), &ou(), 1, 0)), some("OU", "ou2-0"));
    assert_eq!(name(select_move_set_at(strategies(), &ou(), 1, 1)), some("OU", "ou2-1"));
    assert_eq!(name(select_move_set_at(strategies(), &ou(), 1, 2)), None);
    assert_eq!(name(select_move_set_at(strategies(), &ou(), 2, 0)), None);
    let lc = Some("LC".to_string());
    assert_eq!(name(select_move_set_at(strategies(), &lc, 0, 0)), None);
    let none = Some("ou".to_string());
    assert_eq!(name(select_move_set_at(strategies(), &none, 0, 0)), None);
}

#[test]
fn random_selection_keeps_to_the_format() {
    let mut seen = Vec::new();
    for _ in 0..300 {
        let answer = detail(vec![
            strategy("UU", vec![build("a", "uu-0")]),
            strategy("OU", vec![build("a", "ou-0"), build("a", "ou-1")]),
            strategy("OU", vec![build("a", "ou2-0")]),
        ]);
        let (format, move_set) = select_move_set(answer, &ou()).unwrap();
        assert_eq!(format, "OU");
        assert!(["ou-0", "ou-1", "ou2-0"].contains(&move_set.name.as_str()));
        if !seen.contains(&move_set.name) {
            seen.push(move_set.name);
        }
    }
    assert_eq!(seen.len(), 3);
}

#[test]
fn random_selection_without_format_takes_any() {
    let mut formats = Vec::new();
    for _ in 0..300 {
        let answer = detail(vec![
            strategy("UU", vec![build("a", "uu-0")]),
            strategy("OU", vec![build("a", "ou-0")]),
        ]);
        let (format, _) = select_move_set(answer, &None).unwrap();
        if !formats.contains(&format) {
            formats.push(format);
        }
    }
    formats.sort();
    assert_eq!(formats, vec!["OU".to_string(), "UU".to_string()]);
}

#[test]
fn nothing_to_select_is_none() {
    assert!(select_move_set(detail(Vec::new()), &None).is_none());
    assert!(select_move_set(detail(vec![strategy("UU", vec![build("a", "b")])]), &ou()).is_none());
    assert!(select_move_set(detail(vec![strategy("OU", Vec::new())]), &ou()).is_none());
    assert!(select_move_set(detail(vec![strategy("OU", Vec::new())]), &None).is_none());
}

#[test]
fn fetched_at_finds_or_draws_again() {
    let lookup = || lookup_of(Resolver::new(Generation::BlackWhite, ou(), 7).aim(&creature("Bulbasaur", "Standard")));
    let answer = || detail(vec![strategy("NU", Vec::new()), strategy("OU", vec![build("a", "x"), build("a", "y")])]);
    match lookup().fetched_at(answer(), 0, 1) {
        Step::Done(format, move_set) => {
            assert_eq!(format, "OU");
            assert_eq!(move_set.name, "y");
        },
        other => panic!("expected a build, got {:?}", other),
    }
    let again = resolver_of(lookup().fetched_at(answer(), 1, 0));
    assert_eq!(again.attempts_left, 6);
    assert_eq!(again.generation, Generation::BlackWhite);
    assert_eq!(again.format, ou());
    let again = resolver_of(lookup().fetched_at(answer(), 0, 2));
    assert_eq!(again.attempts_left, 6);
}
