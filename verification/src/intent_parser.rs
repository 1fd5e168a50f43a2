//! The uniform contract of an intent parser. The concrete parser variants
//! (rule-based, statistical, ...) are external collaborators; the engine
//! only relies on the contract stated here.

use vstd::prelude::*;
use crate::errors::NluError;
use crate::ontology::CharRange;
use crate::ontology::IntentClassifierResult;

verus! {

/// A slot as tagged by an intent parser, before resolution: the matched
/// text, its character range, and references into the dataset metadata.
#[derive(Clone, Debug, PartialEq)]
pub struct InternalSlot {
    pub value: String,
    pub char_range: CharRange,
    pub entity: String,
    pub slot_name: String,
}

/// A successful match: the selected intent paired with the parser's
/// unresolved slots.
#[derive(Clone, Debug, PartialEq)]
pub struct InternalParsingResult {
    pub intent: IntentClassifierResult,
    pub slots: Vec<InternalSlot>,
}

/// The intent allow-list as the set of names it holds: parsers test
/// membership only, so order and repetition in the list carry no meaning.
pub open spec fn filter_view(intents_filter: Option<&[String]>) -> Option<Set<Seq<char>>> {
    match intents_filter {
        Some(f) => Some(crate::text::string_views(f@).to_set()),
        None => None,
    }
}

/// Something that, given an utterance and an optional intent allow-list,
/// either declines, or returns an intent with unresolved slots, or fails.
///
/// Each implementation models its behaviour as the mathematical function
/// `spec_parse` and promises that `parse` computes exactly that function
/// of the utterance and the allow-list set.
pub trait IntentParser {
    /// What this parser answers on `input` under `intents_filter`.
    spec fn spec_parse(&self, input: Seq<char>, intents_filter: Option<Set<Seq<char>>>) -> Result<
        Option<InternalParsingResult>,
        NluError,
    >;

    /// Match or decline. `Ok(None)` declines; an error is a hard failure
    /// of the whole call, never a silent decline.
    fn parse(&self, input: &str, intents_filter: Option<&[String]>) -> (r: Result<
        Option<InternalParsingResult>,
        NluError,
    >)
        ensures
            r == self.spec_parse(input@, filter_view(intents_filter)),
    ;
}

} // verus!
