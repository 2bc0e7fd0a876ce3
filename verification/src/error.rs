use vstd::prelude::*;

verus! {

/// `reqwest::Error`, the failure of a request as the transport reports it.
/// It is carried through unopened: nothing here looks inside.
#[verifier::external_type_specification]
#[verifier::external_body]
pub struct ExTransportError(reqwest::Error);

/// Everything that can go wrong between a request and a rendered build.
#[derive(Debug)]
pub enum StratDexError {
    /// A generation code that is none of the known ones.
    GenerationParseError,
    /// A request failed in transport or its answer could not be decoded.
    FetchError(reqwest::Error),
    /// No creature of the listing is marked as standard.
    EmptyUniverse,
    /// The allowed number of draws was used up without finding a build.
    ResolutionExhausted,
}

} // verus!
