//! The three questions that can be put to the dex.

use crate::basics::BasicsRequest;
use crate::format::FormatRequest;
use crate::generation::Generation;
use crate::pokemon::PokemonRequest;
use vstd::prelude::*;

verus! {

/// Where the bulk listing is asked for.
pub const BASICS_ENDPOINT: &'static str = "https://www.smogon.com/dex/_rpc/dump-basics";

/// Where one creature is asked for.
pub const POKEMON_ENDPOINT: &'static str = "https://www.smogon.com/dex/_rpc/dump-pokemon";

/// Where one format is asked for.
pub const FORMAT_ENDPOINT: &'static str = "https://www.smogon.com/dex/_rpc/dump-format";

/// The language in which every question is put.
pub const LANGUAGE: &'static str = "en";

/// Builds the questions: what is sent, not the sending.
pub struct Client;

impl Client {
    /// The question for the bulk listing of a generation.
    pub fn basics_request(gen: Generation) -> (request: BasicsRequest)
        ensures
            request.gen == gen,
            request.language@ == "en"@,
    {
        BasicsRequest { gen, language: LANGUAGE }
    }

    /// The question for one creature, named by its alias.
    pub fn pokemon_request<'a>(gen: Generation, pokemon: &'a str) -> (request: PokemonRequest<'a>)
        ensures
            request.gen == gen,
            request.alias@ == pokemon@,
            request.language@ == "en"@,
    {
        PokemonRequest { gen, alias: pokemon, language: LANGUAGE }
    }

    /// The question for one format, named by its alias.
    pub fn format_request<'a>(gen: Generation, format: &'a str) -> (request: FormatRequest<'a>)
        ensures
            request.gen == gen,
            request.alias@ == format@,
            request.language@ == "en"@,
    {
        FormatRequest { gen, alias: format, language: LANGUAGE }
    }
}

} // verus!
