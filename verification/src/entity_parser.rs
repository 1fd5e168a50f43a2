//! The extraction contracts of the two entity collaborators: the builtin
//! typed recognizers and the custom gazetteer matcher.

use vstd::prelude::*;
use crate::errors::NluError;
use crate::ontology::BuiltinEntity;
use crate::ontology::CustomEntity;

verus! {

/// An optional entity scope, viewed as the sequence of names it holds.
pub open spec fn scope_view(scope: Option<&[String]>) -> Option<Seq<Seq<char>>> {
    match scope {
        Some(s) => Some(crate::text::string_views(s@)),
        None => None,
    }
}

/// The builtin entity extractor: recognizes typed entities (numbers,
/// dates, durations, ...) over a whole text, restricted to the entity
/// kinds named by the scope.
///
/// Implementations are external collaborators; each models its behaviour
/// as the mathematical function `spec_extract` and promises that
/// `extract_entities` computes exactly that function.
pub trait BuiltinEntityParser {
    /// What this extractor answers on `text` under `scope`.
    spec fn spec_extract(&self, text: Seq<char>, scope: Option<Seq<Seq<char>>>) -> Result<
        Vec<BuiltinEntity>,
        NluError,
    >;

    /// Extract builtin entities from `text`, restricted to the kinds
    /// named by `scope`; `None` leaves the scope unrestricted.
    fn extract_entities(&self, text: &str, scope: Option<&[String]>) -> (r: Result<
        Vec<BuiltinEntity>,
        NluError,
    >)
        ensures
            r == self.spec_extract(text@, scope_view(scope)),
    ;
}

/// The custom entity extractor: matches the dataset's gazetteer entities
/// over a whole text, restricted to the entity names in the scope.
///
/// Implementations are external collaborators; each models its behaviour
/// as the mathematical function `spec_extract` and promises that
/// `extract_entities` computes exactly that function.
pub trait CustomEntityParser {
    /// What this extractor answers on `text` under `scope`.
    spec fn spec_extract(&self, text: Seq<char>, scope: Option<Seq<Seq<char>>>) -> Result<
        Vec<CustomEntity>,
        NluError,
    >;

    /// Extract custom entities from `text`, restricted to the entity
    /// names in `scope`; `None` leaves the scope unrestricted.
    fn extract_entities(&self, text: &str, scope: Option<&[String]>) -> (r: Result<
        Vec<CustomEntity>,
        NluError,
    >)
        ensures
            r == self.spec_extract(text@, scope_view(scope)),
    ;
}

} // verus!
