//! The process-wide shared resources: one handle to each entity
//! extractor, built once at load time and shared, never mutated, by the
//! engine and by every parser.

use vstd::prelude::*;
use std::sync::Arc;

verus! {

/// Shared-ownership handles to the two entity extractors. Cloning the
/// handles shares the underlying extractors; nothing mutates them after
/// construction.
pub struct SharedResources<B, C> {
    pub builtin_entity_parser: Arc<B>,
    pub custom_entity_parser: Arc<C>,
}

impl<B, C> SharedResources<B, C> {
    /// Bundle the two extractor handles.
    pub fn new(builtin_entity_parser: Arc<B>, custom_entity_parser: Arc<C>) -> (r: Self)
        ensures
            r.builtin_entity_parser == builtin_entity_parser,
            r.custom_entity_parser == custom_entity_parser,
    {
        SharedResources { builtin_entity_parser, custom_entity_parser }
    }
}

/// Relies on `std::sync::Arc::clone`: the clone is a handle to the same
/// shared value.
#[verifier::external_body]
pub fn clone_arc<T>(a: &Arc<T>) -> (r: Arc<T>)
    ensures
        r == *a,
{
    a.clone()
}

} // verus!
