use smog_strat_dex_rs::generation::random_generation;
use smog_strat_dex_rs::Generation;
use smog_strat_dex_rs::StratDexError;

fn all() -> Vec<Generation> {
    vec![
        Generation::ScarletViolet,
        Generation::SwordShield,
        Generation::SunMoon,
        Generation::XY,
        Generation::BlackWhite,
        Generation::DiamondPearl,
        Generation::RubySapphire,
        Generation::GoldSilver,
        Generation::RedBlue,
    ]
}

#[test]
fn every_code_is_read() {
    assert_eq!(Generation::parse("sv").unwrap(), Generation::ScarletViolet);
    assert_eq!(Generation::parse("sm").unwrap(), Generation::SunMoon);
    assert_eq!(Generation::parse("xy").unwrap(), Generation::XY);
    assert_eq!(Generation::parse("bw").unwrap(), Generation::BlackWhite);
    assert_eq!(Generation::parse("dp").unwrap(), Generation::DiamondPearl);
    assert_eq!(Generation::parse("rs").unwrap(), Generation::RubySapphire);
    assert_eq!(Generation::parse("gs").unwrap(), Generation::GoldSilver);
    assert_eq!(Generation::parse("rb").unwrap(), Generation::RedBlue);
}

#[test]
fn every_generation_has_its_code() {
    let codes: Vec<&str> = all().into_iter().map(|g| g.code()).collect();
    assert_eq!(codes, vec!["sv", "ss", "sm", "xy", "bw", "dp", "rs", "gs", "rb"]);
}

#[test]
fn code_through_the_conversion() {
    let code: &'static str = Generation::DiamondPearl.into();
    assert_eq!(code, "dp");
    assert_eq!(<&str>::from(Generation::RedBlue), "rb");
}

#[test]
fn unknown_code_is_refused() {
    assert!(matches!(Generation::parse("zz"), Err(StratDexError::GenerationParseError)));
    assert!(matches!(Generation::try_from("zz"), Err(StratDexError::GenerationParseError)));
    assert!(matches!(Generation::parse(""), Err(StratDexError::GenerationParseError)));
    assert!(matches!(Generation::parse("SV"), Err(StratDexError::GenerationParseError)));
    assert!(matches!(Generation::parse("svx"), Err(StratDexError::GenerationParseError)));
    assert!(matches!(Generation::parse("s"), Err(StratDexError::GenerationParseError)));
    assert!(matches!(Generation::parse("sé"), Err(StratDexError::GenerationParseError)));
}

#[test]
fn codes_round_trip_but_for_sword_shield() {
    for generation in all() {
        let back = Generation::try_from(generation.code()).unwrap();
        if generation == Generation::SwordShield {
            assert_eq!(back, Generation::ScarletViolet);
        } else {
            assert_eq!(back, generation);
        }
    }
}

#[test]
fn generations_by_position() {
    let found: Vec<Generation> = (0..9).map(|i| Generation::from_index(i).unwrap()).collect();
    assert_eq!(found, all());
    assert_eq!(Generation::from_index(9), None);
    assert_eq!(Generation::from_index(usize::MAX), None);
}

#[test]
fn generations_are_ordered_newest_first() {
    let ordered = all();
    for pair in ordered.windows(2) {
        assert!(pair[0] < pair[1]);
    }
}

#[test]
fn a_random_generation_is_one_of_the_nine() {
    for _ in 0..50 {
        let generation = random_generation();
        assert!(all().contains(&generation));
    }
}
