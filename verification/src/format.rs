//! What the dex tells about one competitive format.

use crate::generation::Generation;
use vstd::prelude::*;

verus! {

/// The question put to the dex about one format.
#[derive(Copy, Clone, Debug)]
pub struct FormatRequest<'a> {
    pub alias: &'a str,
    pub gen: Generation,
    pub language: &'static str,
}

/// The answer of the dex about one format.
#[derive(Clone, Debug)]
pub struct FormatResponse {
    pub languages: Vec<String>,
    pub description: String,
    pub pokemon_with_strategies: Vec<String>,
}

} // verus!
