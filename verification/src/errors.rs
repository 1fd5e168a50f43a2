//! Error kinds surfaced by model loading, parsing and slot extraction.

use vstd::prelude::*;

verus! {

/// Everything that can go wrong in this layer.
///
/// "No intent matched" and "no entity matched for a droppable slot" are
/// normal outcomes, not errors; they never appear here.
#[derive(Debug, PartialEq)]
pub enum NluError {
    /// The model descriptor carries a `model_version` other than the one
    /// this engine was built for: the load aborts.
    WrongModelVersion { found: String, expected: String },
    /// An intent name is absent from the dataset metadata.
    UnknownIntent(String),
    /// A slot name is absent from its intent's slot mappings.
    UnknownSlot(String),
    /// An entity identifier could not be resolved to a builtin entity kind
    /// where one was expected.
    UnknownEntityIdentifier(String),
    /// A failure reported by one of the entity-extraction collaborators.
    Extraction(String),
    /// A failure met while resolving slots, wrapped so the caller sees
    /// which phase of `parse` failed; the original error is kept inside.
    SlotResolution(Box<NluError>),
}

} // verus!
