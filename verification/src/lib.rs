//! Inference half of a natural-language-understanding engine: a ranked
//! cascade of intent parsers, entity-scope computation, and the resolution
//! of raw parser slots into typed, fully resolved slots.
//!
//! The individual intent parsers and the two entity extractors (builtin and
//! custom) are external collaborators: this crate defines their contracts as
//! traits and verifies the orchestration layer against those contracts.

pub mod errors;
pub mod ontology;
pub mod text;
pub mod models;
pub mod builtin_entities;
pub mod intent_parser;
pub mod entity_parser;
pub mod resources;
pub mod slot_utils;
pub mod nlu_engine;

use vstd::prelude::*;

verus! {

/// Model format version this engine understands; loading any other
/// version must be refused.
pub open spec fn spec_model_version() -> Seq<char> {
    "0.19.0"@
}

/// Executable counterpart of [`spec_model_version`].
pub fn model_version() -> (r: &'static str)
    ensures
        r@ == spec_model_version(),
{
    "0.19.0"
}

} // verus!
