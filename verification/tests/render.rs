use smog_strat_dex_rs::pokemon::EvConfig;
use smog_strat_dex_rs::pokemon::IvConfig;
use smog_strat_dex_rs::pokemon::MoveSet;
use smog_strat_dex_rs::pokemon::MoveSlot;

fn texts(items: &[&str]) -> Vec<String> {
    items.iter().map(|s| s.to_string()).collect()
}

fn slot(name: &str) -> MoveSlot {
    MoveSlot { move_name: name.to_string(), move_type: None }
}

fn typed_slot(name: &str, kind: &str) -> MoveSlot {
    MoveSlot { move_name: name.to_string(), move_type: Some(kind.to_string()) }
}

fn evs(hp: u8, atk: u8, def: u8, spa: u8, spd: u8, spe: u8) -> EvConfig {
    EvConfig { hp, atk, def, spa, spd, spe }
}

fn ivs(hp: u8, atk: u8, def: u8, spa: u8, spd: u8, spe: u8) -> IvConfig {
    IvConfig { hp, atk, def, spa, spd, spe }
}

fn bare(pokemon: &str) -> MoveSet {
    MoveSet {
        name: String::new(),
        pokemon: pokemon.to_string(),
        shiny: false,
        gender: String::new(),
        description: String::new(),
        abilities: Vec::new(),
        items: Vec::new(),
        tera_types: Vec::new(),
        move_slots: Vec::new(),
        ev_configs: Vec::new(),
        iv_configs: Vec::new(),
        natures: Vec::new(),
    }
}

fn bulbasaur() -> MoveSet {
    MoveSet {
        name: "Special Attacker".to_string(),
        items: texts(&["Leftovers"]),
        abilities: texts(&["Overgrow"]),
        ev_configs: vec![evs(0, 0, 4, 252, 0, 252)],
        natures: texts(&["Modest"]),
        move_slots: vec![vec![slot("Giga Drain")]],
        ..bare("Bulbasaur")
    }
}

#[test]
fn bulbasaur_is_written_in_full() {
    assert_eq!(
        bulbasaur().render(),
        "Bulbasaur @ Leftovers\nAbility: Overgrow\nEVs: 4 Def / 252 SpA / 252 Spe\nModest Nature\n- Giga Drain\n"
    );
}

#[test]
fn bare_build_is_header_and_moves_only() {
    let build = MoveSet {
        items: texts(&["Choice Band"]),
        move_slots: vec![vec![slot("Earthquake")], vec![slot("Stone Edge")]],
        ..bare("Garchomp")
    };
    let text = build.render();
    assert_eq!(text, "Garchomp @ Choice Band\n- Earthquake\n- Stone Edge\n");
    assert!(!text.contains("\n\n"));
    assert_eq!(text.lines().count(), 3);
}

#[test]
fn header_is_written_without_items() {
    assert_eq!(bare("Ditto").render(), "Ditto @ \n");
}

#[test]
fn every_line_in_its_place() {
    let build = MoveSet {
        items: texts(&["Leftovers", "Black Sludge"]),
        abilities: texts(&["Regenerator", "Merciless"]),
        tera_types: texts(&["Water", "Steel"]),
        ev_configs: vec![evs(252, 0, 252, 0, 4, 0), evs(252, 0, 4, 0, 252, 0)],
        iv_configs: vec![ivs(31, 0, 31, 31, 31, 31)],
        natures: texts(&["Bold", "Calm"]),
        move_slots: vec![
            vec![slot("Scald"), slot("Surf")],
            vec![slot("Recover")],
            vec![typed_slot("Hidden Power", "Fire"), slot("Toxic")],
            vec![typed_slot("Tera Blast", "Fairy")],
        ],
        ..bare("Toxapex")
    };
    let expected = "Toxapex @ Leftovers / Black Sludge\n\
                    Ability: Regenerator / Merciless\n\
                    Tera Type: Water / Steel\n\
                    EVs: 252 HP / 252 Def / 4 SpD | 252 HP / 4 Def / 252 SpD\n\
                    IVs: 0 Atk\n\
                    Bold / Calm Nature\n\
                    - Scald / Surf\n\
                    - Recover\n\
                    - Hidden Power Fire / Toxic\n\
                    - Tera Blast Fairy\n";
    assert_eq!(build.render(), expected);
}

#[test]
fn spreads_of_defaults_give_no_line() {
    let build = MoveSet {
        ev_configs: vec![evs(0, 0, 0, 0, 0, 0)],
        iv_configs: vec![ivs(31, 31, 31, 31, 31, 31)],
        move_slots: vec![vec![slot("Splash")]],
        ..bare("Magikarp")
    };
    assert_eq!(build.get_ev_configs(), "");
    assert_eq!(build.get_iv_configs(), "");
    assert_eq!(build.render(), "Magikarp @ \n- Splash\n");
}

#[test]
fn two_default_spreads_still_give_a_line() {
    let build = MoveSet {
        ev_configs: vec![evs(0, 0, 0, 0, 0, 0), evs(0, 0, 0, 0, 0, 0)],
        ..bare("Magikarp")
    };
    assert_eq!(build.get_ev_configs(), " | ");
    assert_eq!(build.render(), "Magikarp @ \nEVs:  | \n");
}

#[test]
fn effort_values_leave_out_zero() {
    let build = MoveSet {
        ev_configs: vec![evs(0, 0, 4, 252, 0, 252), evs(31, 0, 0, 0, 0, 0)],
        ..bare("Bulbasaur")
    };
    assert_eq!(build.get_ev_configs(), "4 Def / 252 SpA / 252 Spe | 31 HP");
}

#[test]
fn individual_values_leave_out_thirty_one() {
    let build = MoveSet {
        iv_configs: vec![ivs(31, 0, 31, 31, 31, 0), ivs(30, 31, 31, 31, 31, 31)],
        ..bare("Bulbasaur")
    };
    assert_eq!(build.get_iv_configs(), "0 Atk / 0 Spe | 30 HP");
    assert_eq!(build.get_ev_configs(), "");
}

#[test]
fn an_empty_slot_is_a_bare_dash() {
    let build = MoveSet { move_slots: vec![Vec::new(), vec![slot("Rest")]], ..bare("Snorlax") };
    assert_eq!(build.render(), "Snorlax @ \n- \n- Rest\n");
}

#[test]
fn render_is_the_same_each_time() {
    let build = bulbasaur();
    let first = build.render();
    let second = build.render();
    let third = build.clone().render();
    assert_eq!(first, second);
    assert_eq!(first, third);
}

#[test]
fn render_reads_the_build_alone() {
    let plain = bulbasaur();
    let other = MoveSet {
        name: "Another name".to_string(),
        shiny: true,
        gender: "F".to_string(),
        description: "Something else".to_string(),
        ..bulbasaur()
    };
    assert_eq!(plain.render(), other.render());
}
