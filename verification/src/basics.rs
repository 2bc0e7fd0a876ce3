//! The bulk listing of a generation: every creature, format, nature,
//! ability, move, type and item that the dex knows.

use crate::generation::Generation;
use crate::text::str_eq;
use vstd::prelude::*;
use vstd::string::*;

verus! {

/// The question put to the dex for the bulk listing.
#[derive(Copy, Clone, Debug)]
pub struct BasicsRequest {
    pub gen: Generation,
    pub language: &'static str,
}

/// The bulk listing of one generation.
#[derive(Clone, Debug)]
pub struct BasicsResponse {
    pub pokemon: Vec<BasicsPokemon>,
    pub formats: Vec<Format>,
    pub natures: Vec<Nature>,
    pub abilities: Vec<Ability>,
    pub moves: Vec<Move>,
    pub types: Vec<Type>,
    pub items: Vec<Item>,
}

/// One creature of the listing.
///
/// Weight and height are kept as the bit patterns of the single-precision
/// numbers that the dex sends: nothing here computes with them.
#[derive(Clone, Debug)]
pub struct BasicsPokemon {
    pub name: String,
    pub hp: u8,
    pub atk: u8,
    pub def: u8,
    pub spa: u8,
    pub spd: u8,
    pub spe: u8,
    pub weight_bits: u32,
    pub height_bits: u32,
    pub types: Vec<String>,
    pub abilities: Vec<String>,
    pub formats: Vec<String>,
    pub is_non_standard: String,
    pub oob: Option<PokemonOob>,
}

/// Where a creature stands in the dex and how it relates to others.
#[derive(Clone, Debug)]
pub struct PokemonOob {
    pub dex_number: i16,
    pub evos: Vec<String>,
    pub alts: Vec<String>,
    pub gen_family: Vec<String>,
}

/// A competitive format.
#[derive(Clone, Debug)]
pub struct Format {
    pub name: String,
    pub shorthand: String,
    pub gen_family: Vec<String>,
}

/// A nature, with the factor by which it scales each stat, kept as the bit
/// pattern of the single-precision number that the dex sends.
#[derive(Clone, Debug)]
pub struct Nature {
    pub name: String,
    pub hp_bits: u32,
    pub atk_bits: u32,
    pub def_bits: u32,
    pub spa_bits: u32,
    pub spd_bits: u32,
    pub spe_bits: u32,
    pub summary: String,
    pub gen_family: Vec<String>,
}

/// An ability.
#[derive(Clone, Debug)]
pub struct Ability {
    pub name: String,
    pub description: String,
    pub is_non_standard: String,
    pub gen_family: Vec<String>,
}

/// A move.
#[derive(Clone, Debug)]
pub struct Move {
    pub name: String,
    pub is_non_standard: String,
    pub category: String,
    pub power: u8,
    pub accuracy: u8,
    pub priority: i8,
    pub pp: u8,
    pub description: String,
    pub move_type: String,
    pub flags: Vec<String>,
    pub gen_family: Vec<String>,
}

/// A type, with how well it attacks each type: the name of the defending
/// type and the factor, kept as the bit pattern of the single-precision
/// number that the dex sends.
#[derive(Clone, Debug)]
pub struct Type {
    pub name: String,
    pub atk_effectives: Vec<(String, u32)>,
    pub gen_family: Vec<String>,
    pub description: String,
}

/// An item.
#[derive(Clone, Debug)]
pub struct Item {
    pub name: String,
    pub description: String,
    pub is_non_standard: String,
    pub gen_family: Vec<String>,
}

impl BasicsPokemon {
    /// Whether the creature may be used in standard play: its mark is
    /// exactly `"Standard"`.
    pub open spec fn spec_is_standard(self) -> bool {
        self.is_non_standard@ == "Standard"@
    }

    /// Whether the creature may be used in standard play.
    pub fn is_standard(&self) -> (standard: bool)
        ensures
            standard == self.spec_is_standard(),
    {
        str_eq(self.is_non_standard.as_str(), "Standard")
    }
}

/// The creatures among the given ones that may be used in standard play,
/// in their order.
pub open spec fn standard_among(pokemon: Seq<BasicsPokemon>) -> Seq<BasicsPokemon> {
    pokemon.filter(|p: BasicsPokemon| p.spec_is_standard())
}

impl BasicsResponse {
    /// The creatures of the listing that may be used in standard play, in
    /// the order of the listing.
    pub open spec fn spec_standard(self) -> Seq<BasicsPokemon> {
        standard_among(self.pokemon@)
    }

    /// The creatures of the listing that may be used in standard play, in
    /// the order of the listing.
    pub fn standard(&self) -> (standard: Vec<&BasicsPokemon>)
        ensures
            standard@.len() == self.spec_standard().len(),
            forall|i: int|
                #![trigger standard@[i]]
                0 <= i < standard@.len() ==> *standard@[i] == self.spec_standard()[i],
    {
        let mut standard: Vec<&BasicsPokemon> = Vec::new();
        let mut i: usize = 0;
        while i < self.pokemon.len()
            invariant
                i <= self.pokemon.len(),
                standard@.len() == standard_among(self.pokemon@.take(i as int)).len(),
                forall|k: int|
                    #![trigger standard@[k]]
                    0 <= k < standard@.len() ==> *standard@[k] == standard_among(
                        self.pokemon@.take(i as int),
                    )[k],
            decreases self.pokemon.len() - i,
        {
            proof {
                reveal(Seq::filter);
                assert(self.pokemon@.take(i + 1).drop_last() =~= self.pokemon@.take(i as int));
            }
            if self.pokemon[i].is_standard() {
                standard.push(&self.pokemon[i]);
            }
            i += 1;
        }
        assert(self.pokemon@.take(self.pokemon.len() as int) =~= self.pokemon@);
        standard
    }
}

} // verus!
