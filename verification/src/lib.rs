//! Client-side model of a competitive strategy dex: generation codes, the
//! records the dex serves, selection of a build among them, and the export
//! text of a build.

pub mod alias;
pub mod basics;
pub mod chance;
pub mod client;
pub mod error;
pub mod format;
pub mod generation;
pub mod pokemon;
pub mod resolver;
pub mod selection;
pub mod sequence;
pub mod spread;
pub mod text;

pub use crate::client::Client;
pub use crate::error::StratDexError;
pub use crate::generation::Generation;
