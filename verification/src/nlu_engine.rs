//! The engine: an ordered cascade of intent parsers over shared dataset
//! metadata and entity extractors, with first-match-wins parsing, entity
//! scoping, and slot resolution.

use vstd::prelude::*;
use std::sync::Arc;
use itertools::Itertools;
use crate::builtin_entities::builtin_entity_kind_exists;
use crate::builtin_entities::is_builtin_identifier;
use crate::entity_parser::scope_view;
use crate::entity_parser::BuiltinEntityParser;
use crate::entity_parser::CustomEntityParser;
use crate::errors::NluError;
use crate::intent_parser::filter_view;
use crate::intent_parser::IntentParser;
use crate::intent_parser::InternalParsingResult;
use crate::intent_parser::InternalSlot;
use crate::models::spec_lookup_entity;
use crate::models::spec_lookup_intent;
use crate::models::spec_lookup_slot;
use crate::models::DatasetMetadata;
use crate::models::SlotMapping;
use crate::ontology::BuiltinEntity;
use crate::ontology::CustomEntity;
use crate::ontology::IntentParserResult;
use crate::ontology::Slot;
use crate::ontology::SpecSlot;
use crate::resources::clone_arc;
use crate::resources::SharedResources;
use crate::slot_utils::extract_builtin_slot;
use crate::slot_utils::extract_custom_slot;
use crate::slot_utils::resolve_builtin_slot;
use crate::slot_utils::resolve_custom_slot;
use crate::slot_utils::spec_extract_builtin;
use crate::slot_utils::spec_extract_custom;
use crate::slot_utils::spec_resolve_slots;
use crate::text::string_views;

verus! {

/// The slots in `v`, viewed.
pub open spec fn slot_views(v: Seq<Slot>) -> Seq<SpecSlot> {
    v.map_values(|s: Slot| s@)
}

/// `s` with every repetition removed: only the first occurrence of each
/// distinct element is kept, in order. `seen` holds what is already
/// excluded.
pub open spec fn spec_unique_from(s: Seq<Seq<char>>, seen: Seq<Seq<char>>) -> Seq<Seq<char>>
    decreases s.len(),
{
    if s.len() == 0 {
        Seq::empty()
    } else if seen.contains(s[0]) {
        spec_unique_from(s.drop_first(), seen)
    } else {
        seq![s[0]] + spec_unique_from(s.drop_first(), seen.push(s[0]))
    }
}

/// `s` with only the first occurrence of each distinct element kept.
pub open spec fn spec_unique(s: Seq<Seq<char>>) -> Seq<Seq<char>> {
    spec_unique_from(s, Seq::empty())
}

/// Relies on itertools' `Itertools::unique`: it yields the elements in
/// order, keeping exactly the first occurrence of each set of duplicates,
/// where `String`s are duplicates exactly when their characters are equal.
#[verifier::external_body]
fn unique_strings(v: Vec<String>) -> (r: Vec<String>)
    ensures
        string_views(r@) == spec_unique(string_views(v@)),
{
    v.into_iter().unique().collect()
}

/// Deduplication law: what [`spec_unique`] keeps has each element once,
/// and it keeps exactly the elements of its input.
pub proof fn lemma_unique_is_a_dedup(s: Seq<Seq<char>>)
    ensures
        forall|x: Seq<char>| spec_unique(s).contains(x) <==> s.contains(x),
        forall|i: int, j: int|
            0 <= i < j < spec_unique(s).len() ==> spec_unique(s)[i] != spec_unique(s)[j],
{
    lemma_unique_from_is_a_dedup(s, Seq::empty());
}

proof fn lemma_unique_from_is_a_dedup(s: Seq<Seq<char>>, seen: Seq<Seq<char>>)
    ensures
        forall|x: Seq<char>| #[trigger] spec_unique_from(s, seen).contains(x) <==> (s.contains(x)
            && !seen.contains(x)),
        forall|i: int, j: int|
            0 <= i < j < spec_unique_from(s, seen).len() ==> spec_unique_from(s, seen)[i]
                != spec_unique_from(s, seen)[j],
    decreases s.len(),
{
    if s.len() == 0 {
        assert forall|x: Seq<char>| #[trigger]
            spec_unique_from(s, seen).contains(x) <==> (s.contains(x) && !seen.contains(x)) by {
            if s.contains(x) {
                let k = choose|k: int| 0 <= k < s.len() && s[k] == x;
            }
        }
    } else {
        let head = s[0];
        let tail = s.drop_first();
        assert forall|x: Seq<char>| s.contains(x) <==> (x == head || tail.contains(x)) by {
            if s.contains(x) {
                let k = choose|k: int| 0 <= k < s.len() && s[k] == x;
                if k > 0 {
                    assert(tail[k - 1] == x);
                }
            }
            if tail.contains(x) {
                let k = choose|k: int| 0 <= k < tail.len() && tail[k] == x;
                assert(s[k + 1] == x);
            }
            if x == head {
                assert(s.contains(x));
            }
        }
        if seen.contains(head) {
            lemma_unique_from_is_a_dedup(tail, seen);
            assert(spec_unique_from(s, seen) == spec_unique_from(tail, seen));
        } else {
            lemma_unique_from_is_a_dedup(tail, seen.push(head));
            let rest = spec_unique_from(tail, seen.push(head));
            let whole = spec_unique_from(s, seen);
            assert(whole == seq![head] + rest);
            assert forall|x: Seq<char>|
                seen.push(head).contains(x) <==> (seen.contains(x) || x == head) by {
                if seen.push(head).contains(x) {
                    let k = choose|k: int| 0 <= k < seen.push(head).len() && seen.push(head)[k]
                        == x;
                    if k < seen.len() {
                        assert(seen[k] == x);
                    }
                }
                if seen.contains(x) {
                    let k = choose|k: int| 0 <= k < seen.len() && seen[k] == x;
                    assert(seen.push(head)[k] == x);
                }
                if x == head {
                    assert(seen.push(head)[seen.len() as int] == x);
                }
            }
            assert forall|x: Seq<char>| #[trigger]
                whole.contains(x) <==> (x == head || rest.contains(x)) by {
                if whole.contains(x) {
                    let k = choose|k: int| 0 <= k < whole.len() && whole[k] == x;
                    if k > 0 {
                        assert(rest[k - 1] == x);
                    }
                }
                if rest.contains(x) {
                    let k = choose|k: int| 0 <= k < rest.len() && rest[k] == x;
                    assert(whole[k + 1] == x);
                }
                if x == head {
                    assert(whole[0] == x);
                }
            }
            assert forall|i: int, j: int|
                0 <= i < j < whole.len() implies whole[i] != whole[j] by {
                if i == 0 {
                    assert(whole[0] == head);
                    assert(whole[j] == rest[j - 1]);
                    assert(rest.contains(rest[j - 1]));
                } else {
                    assert(whole[i] == rest[i - 1]);
                    assert(whole[j] == rest[j - 1]);
                }
            }
            assert forall|x: Seq<char>| #[trigger]
                whole.contains(x) <==> (s.contains(x) && !seen.contains(x)) by {
                assert(whole.contains(x) <==> (x == head || rest.contains(x)));
                assert(rest.contains(x) <==> (tail.contains(x) && !seen.push(head).contains(x)));
            }
        }
    }
}

/// The entity identifiers of `mappings` that name builtin entity kinds,
/// in mapping order, repetitions kept.
pub open spec fn spec_builtin_filtered(mappings: Seq<SlotMapping>) -> Seq<Seq<char>>
    decreases mappings.len(),
{
    if mappings.len() == 0 {
        Seq::empty()
    } else {
        let rest = spec_builtin_filtered(mappings.drop_first());
        if is_builtin_identifier(mappings[0].entity@) {
            seq![mappings[0].entity@] + rest
        } else {
            rest
        }
    }
}

/// The builtin entity scope of an intent: the builtin entity kinds its
/// slot mappings refer to, deduplicated, in first-occurrence order.
pub open spec fn spec_builtin_scope(mappings: Seq<SlotMapping>) -> Seq<Seq<char>> {
    spec_unique(spec_builtin_filtered(mappings))
}

/// The custom entity scope: every custom entity name the dataset
/// declares, in declaration order.
pub open spec fn spec_entity_names(entities: Seq<crate::models::EntityDef>) -> Seq<Seq<char>> {
    entities.map_values(|e: crate::models::EntityDef| e.name@)
}

/// The outcome of running the parser cascade: the answer of the first
/// parser that does not decline, or a decline when every parser declines
/// (in particular when there is no parser at all).
pub open spec fn spec_cascade<P: IntentParser>(
    parsers: Seq<P>,
    input: Seq<char>,
    intents_filter: Option<Set<Seq<char>>>,
) -> Result<Option<InternalParsingResult>, NluError>
    decreases parsers.len(),
{
    if parsers.len() == 0 {
        Ok(None)
    } else {
        match parsers[0].spec_parse(input, intents_filter) {
            Ok(None) => spec_cascade(parsers.drop_first(), input, intents_filter),
            r => r,
        }
    }
}

/// Cascade law: when every parser declines, the cascade declines.
pub proof fn lemma_cascade_all_decline<P: IntentParser>(
    parsers: Seq<P>,
    input: Seq<char>,
    intents_filter: Option<Set<Seq<char>>>,
)
    requires
        forall|j: int| 0 <= j < parsers.len() ==> parsers[j].spec_parse(input, intents_filter)
            == Ok::<Option<InternalParsingResult>, NluError>(None),
    ensures
        spec_cascade(parsers, input, intents_filter) == Ok::<
            Option<InternalParsingResult>,
            NluError,
        >(None),
    decreases parsers.len(),
{
    if parsers.len() > 0 {
        assert(forall|j: int|
            0 <= j < parsers.drop_first().len() ==> parsers.drop_first()[j] == parsers[j + 1]);
        lemma_cascade_all_decline(parsers.drop_first(), input, intents_filter);
    }
}

/// Cascade law: parsers are tried strictly in the order fixed at load
/// time, and the first parser that does not decline settles the whole
/// outcome; parsers standing after it cannot influence the result.
pub proof fn lemma_cascade_first_match<P: IntentParser>(
    parsers: Seq<P>,
    input: Seq<char>,
    intents_filter: Option<Set<Seq<char>>>,
    i: int,
)
    requires
        0 <= i < parsers.len(),
        forall|j: int| 0 <= j < i ==> parsers[j].spec_parse(input, intents_filter) == Ok::<
            Option<InternalParsingResult>,
            NluError,
        >(None),
        parsers[i].spec_parse(input, intents_filter) != Ok::<
            Option<InternalParsingResult>,
            NluError,
        >(None),
    ensures
        spec_cascade(parsers, input, intents_filter) == parsers[i].spec_parse(
            input,
            intents_filter,
        ),
    decreases i,
{
    assert(forall|j: int|
        0 <= j < parsers.drop_first().len() ==> parsers.drop_first()[j] == parsers[j + 1]);
    if i > 0 {
        lemma_cascade_first_match(parsers.drop_first(), input, intents_filter, i - 1);
    }
}

/// The engine: dataset metadata, the ordered intent parsers, and the
/// shared entity extractors. Immutable once constructed.
pub struct SnipsNluEngine<P, B, C> {
    pub dataset_metadata: DatasetMetadata,
    pub intent_parsers: Vec<P>,
    pub shared_resources: Arc<SharedResources<B, C>>,
}

impl<P: IntentParser, B: BuiltinEntityParser, C: CustomEntityParser> SnipsNluEngine<P, B, C> {
    /// The builtin extractor this engine consults.
    pub open spec fn spec_builtin_parser(self) -> B {
        *(*self.shared_resources).builtin_entity_parser
    }

    /// The custom extractor this engine consults.
    pub open spec fn spec_custom_parser(self) -> C {
        *(*self.shared_resources).custom_entity_parser
    }

    /// Assemble an engine from its loaded parts.
    pub fn new(
        dataset_metadata: DatasetMetadata,
        intent_parsers: Vec<P>,
        shared_resources: Arc<SharedResources<B, C>>,
    ) -> (r: Self)
        ensures
            r.dataset_metadata == dataset_metadata,
            r.intent_parsers == intent_parsers,
            r.shared_resources == shared_resources,
    {
        SnipsNluEngine { dataset_metadata, intent_parsers, shared_resources }
    }

    /// What `parse` owes after the slot-resolution phase, given the match
    /// the cascade settled on.
    pub open spec fn spec_resolution_post(
        self,
        input: Seq<char>,
        internal: InternalParsingResult,
        builtin_scope: Seq<Seq<char>>,
        custom_scope: Seq<Seq<char>>,
        r: Result<IntentParserResult, NluError>,
    ) -> bool {
        match self.spec_builtin_parser().spec_extract(input, Some(builtin_scope)) {
            Err(e) => r matches Err(we) && (we matches NluError::SlotResolution(inner) && *inner
                == e),
            Ok(builtins) => match self.spec_custom_parser().spec_extract(
                input,
                Some(custom_scope),
            ) {
                Err(e) => r matches Err(we) && (we matches NluError::SlotResolution(inner)
                    && *inner == e),
                Ok(customs) => match spec_resolve_slots(
                    self.dataset_metadata.entities@,
                    input,
                    internal.slots@,
                    builtins@,
                    customs@,
                ) {
                    Err(name) => r matches Err(we) && (we matches NluError::SlotResolution(inner)
                        && (*inner matches NluError::UnknownEntityIdentifier(n) && n@ == name)),
                    Ok(resolved) => r matches Ok(pr) && pr.input@ == input && (pr.intent matches
                    Some(ic) && ic == internal.intent) && (pr.slots matches Some(v) && slot_views(
                        v@,
                    ) == resolved),
                },
            },
        }
    }

    /// What `parse` owes once the cascade has settled on a match: scope
    /// lookup, then extraction and resolution.
    pub open spec fn spec_match_post(
        self,
        input: Seq<char>,
        internal: InternalParsingResult,
        r: Result<IntentParserResult, NluError>,
    ) -> bool {
        match spec_lookup_intent(
            self.dataset_metadata.slot_name_mappings@,
            internal.intent.intent_name@,
        ) {
            None => r matches Err(e) && (e matches NluError::UnknownIntent(n) && n@
                == internal.intent.intent_name@),
            Some(mappings) => self.spec_resolution_post(
                input,
                internal,
                spec_builtin_scope(mappings),
                spec_entity_names(self.dataset_metadata.entities@),
                r,
            ),
        }
    }

    /// The full contract of `parse`, as a function of the cascade.
    pub open spec fn spec_parse_post(
        self,
        input: Seq<char>,
        intents_filter: Option<Set<Seq<char>>>,
        r: Result<IntentParserResult, NluError>,
    ) -> bool {
        match spec_cascade(self.intent_parsers@, input, intents_filter) {
            Err(e) => r matches Err(e2) && e2 == e,
            Ok(None) => r matches Ok(pr) && pr.input@ == input && pr.intent is None && pr.slots
                is None,
            Ok(Some(internal)) => self.spec_match_post(input, internal, r),
        }
    }

    /// Parse an utterance: try the parsers strictly in load order, stop
    /// at the first that does not decline, then resolve its slots under
    /// the matched intent's entity scope.
    ///
    /// With no parser, or when every parser declines, the result is the
    /// normal "nothing matched" outcome, never an error.
    pub fn parse(&self, input: &str, intents_filter: Option<&[String]>) -> (r: Result<
        IntentParserResult,
        NluError,
    >)
        ensures
            self.spec_parse_post(input@, filter_view(intents_filter), r),
            self.intent_parsers@.len() == 0 ==> (r matches Ok(pr) && pr.input@ == input@
                && pr.intent is None && pr.slots is None),
    {
        if self.intent_parsers.len() == 0 {
            return Ok(IntentParserResult { input: input.to_owned(), intent: None, slots: None });
        }
        let ghost gfilter = filter_view(intents_filter);
        let mut i: usize = 0;
        while i < self.intent_parsers.len()
            invariant
                0 <= i <= self.intent_parsers@.len(),
                forall|j: int| 0 <= j < i ==> self.intent_parsers@[j].spec_parse(input@, gfilter)
                    == Ok::<Option<InternalParsingResult>, NluError>(None),
                gfilter == filter_view(intents_filter),
            decreases self.intent_parsers@.len() - i,
        {
            let parsed = match self.intent_parsers[i].parse(input, intents_filter) {
                Ok(o) => o,
                Err(e) => {
                    proof {
                        lemma_cascade_first_match(
                            self.intent_parsers@,
                            input@,
                            gfilter,
                            i as int,
                        );
                    }
                    return Err(e);
                },
            };
            if let Some(internal_parsing_result) = parsed {
                proof {
                    lemma_cascade_first_match(self.intent_parsers@, input@, gfilter, i as int);
                }
                let intent = internal_parsing_result.intent;
                let slots = internal_parsing_result.slots;
                let mappings = match self.dataset_metadata.slot_mappings_of(
                    intent.intent_name.as_str(),
                ) {
                    Some(m) => m,
                    None => {
                        return Err(NluError::UnknownIntent(intent.intent_name));
                    },
                };
                let builtin_entity_scope = builtin_scope(mappings);
                let custom_entity_scope = self.custom_scope();
                let resolved_slots = match self.resolve_slots(
                    input,
                    slots,
                    Some(builtin_entity_scope.as_slice()),
                    Some(custom_entity_scope.as_slice()),
                ) {
                    Ok(v) => v,
                    Err(e) => {
                        return Err(NluError::SlotResolution(Box::new(e)));
                    },
                };
                return Ok(
                    IntentParserResult {
                        input: input.to_owned(),
                        intent: Some(intent),
                        slots: Some(resolved_slots),
                    },
                );
            }
            i = i + 1;
        }
        proof {
            lemma_cascade_all_decline(self.intent_parsers@, input@, gfilter);
        }
        Ok(IntentParserResult { input: input.to_owned(), intent: None, slots: None })
    }

    /// Every custom entity name the dataset declares, in order.
    fn custom_scope(&self) -> (r: Vec<String>)
        ensures
            string_views(r@) == spec_entity_names(self.dataset_metadata.entities@),
    {
        let entities = &self.dataset_metadata.entities;
        let mut collected: Vec<String> = Vec::new();
        let mut i: usize = 0;
        while i < entities.len()
            invariant
                0 <= i <= entities@.len(),
                string_views(collected@) =~= spec_entity_names(entities@.take(i as int)),
            decreases entities@.len() - i,
        {
            let ghost pre = collected@;
            collected.push(entities[i].name.clone());
            proof {
                assert(string_views(collected@) =~= string_views(pre).push(entities@[i as int].name@));
                assert(entities@.take(i as int + 1) =~= entities@.take(i as int).push(
                    entities@[i as int],
                ));
                assert(spec_entity_names(entities@.take(i as int + 1)) =~= spec_entity_names(
                    entities@.take(i as int),
                ).push(entities@[i as int].name@));
            }
            i = i + 1;
        }
        proof {
            assert(entities@.take(i as int) =~= entities@);
        }
        collected
    }

    /// Resolve the parser's slots: run both extractions once over the
    /// whole text under the given scopes, then settle each slot in order,
    /// dropping the ones that resolve to nothing.
    fn resolve_slots(
        &self,
        text: &str,
        slots: Vec<InternalSlot>,
        builtin_entity_scope: Option<&[String]>,
        custom_entity_scope: Option<&[String]>,
    ) -> (r: Result<Vec<Slot>, NluError>)
        ensures
            ({
                match self.spec_builtin_parser().spec_extract(
                    text@,
                    scope_view(builtin_entity_scope),
                ) {
                    Err(e) => r matches Err(e2) && e2 == e,
                    Ok(builtins) => match self.spec_custom_parser().spec_extract(
                        text@,
                        scope_view(custom_entity_scope),
                    ) {
                        Err(e) => r matches Err(e2) && e2 == e,
                        Ok(customs) => match spec_resolve_slots(
                            self.dataset_metadata.entities@,
                            text@,
                            slots@,
                            builtins@,
                            customs@,
                        ) {
                            Err(name) => r matches Err(e) && (e matches
                            NluError::UnknownEntityIdentifier(n) && n@ == name),
                            Ok(resolved) => r matches Ok(v) && slot_views(v@) == resolved,
                        },
                    },
                }
            }),
    {
        let builtin_parser: &B = &*(*self.shared_resources).builtin_entity_parser;
        let builtin_entities = match builtin_parser.extract_entities(text, builtin_entity_scope) {
            Ok(v) => v,
            Err(e) => {
                return Err(e);
            },
        };
        let custom_parser: &C = &*(*self.shared_resources).custom_entity_parser;
        let custom_entities = match custom_parser.extract_entities(text, custom_entity_scope) {
            Ok(v) => v,
            Err(e) => {
                return Err(e);
            },
        };
        let ghost entities0 = self.dataset_metadata.entities@;
        let mut resolved_slots: Vec<Slot> = Vec::new();
        let mut i: usize = 0;
        proof {
            assert(slots@.skip(0) =~= slots@);
        }
        while i < slots.len()
            invariant
                0 <= i <= slots@.len(),
                entities0 == self.dataset_metadata.entities@,
                self.spec_builtin_parser().spec_extract(text@, scope_view(builtin_entity_scope))
                    == Ok::<Vec<BuiltinEntity>, NluError>(builtin_entities),
                self.spec_custom_parser().spec_extract(text@, scope_view(custom_entity_scope))
                    == Ok::<Vec<CustomEntity>, NluError>(custom_entities),
                spec_resolve_slots(entities0, text@, slots@, builtin_entities@, custom_entities@)
                    == (match spec_resolve_slots(
                    entities0,
                    text@,
                    slots@.skip(i as int),
                    builtin_entities@,
                    custom_entities@,
                ) {
                    Ok(rest) => Ok::<Seq<SpecSlot>, Seq<char>>(slot_views(resolved_slots@) + rest),
                    Err(e) => Err::<Seq<SpecSlot>, Seq<char>>(e),
                }),
            decreases slots@.len() - i,
        {
            proof {
                assert(slots@.skip(i as int)[0] == slots@[i as int]);
                assert(slots@.skip(i as int).drop_first() =~= slots@.skip(i as int + 1));
            }
            let slot = &slots[i];
            let resolved = if let Some(entity) = self.dataset_metadata.entity_def_of(
                slot.entity.as_str(),
            ) {
                resolve_custom_slot(text, slot, &entity, &custom_entities)
            } else {
                match resolve_builtin_slot(text, slot, &builtin_entities) {
                    Ok(o) => o,
                    Err(e) => {
                        return Err(e);
                    },
                }
            };
            let ghost pre = resolved_slots@;
            if let Some(resolved_slot) = resolved {
                resolved_slots.push(resolved_slot);
            }
            proof {
                if resolved_slots@.len() > pre.len() {
                    assert(slot_views(resolved_slots@) =~= slot_views(pre).push(
                        resolved_slots@.last()@,
                    ));
                    assert(slot_views(pre) + (seq![resolved_slots@.last()@]
                        + spec_resolve_slots_rest(
                        entities0,
                        text@,
                        slots@.skip(i as int + 1),
                        builtin_entities@,
                        custom_entities@,
                    )) =~= slot_views(resolved_slots@) + spec_resolve_slots_rest(
                        entities0,
                        text@,
                        slots@.skip(i as int + 1),
                        builtin_entities@,
                        custom_entities@,
                    ));
                }
            }
            i = i + 1;
        }
        proof {
            assert(slots@.skip(i as int).len() == 0);
            assert(slot_views(resolved_slots@) + Seq::<SpecSlot>::empty() =~= slot_views(
                resolved_slots@,
            ));
        }
        Ok(resolved_slots)
    }

    /// Resolve one named slot of one intent directly, without running the
    /// parser cascade: look the entity up in the metadata and extract it
    /// over the whole input, scoped to exactly that entity.
    pub fn extract_slot(&self, input: String, intent_name: &str, slot_name: &str) -> (r: Result<
        Option<Slot>,
        NluError,
    >)
        ensures
            self.spec_extract_slot_post(input@, intent_name@, slot_name@, r),
    {
        let entity_name = match self.dataset_metadata.entity_of_slot(intent_name, slot_name) {
            Ok(e) => e.clone(),
            Err(e) => {
                return Err(e);
            },
        };
        if let Some(custom_entity) = self.dataset_metadata.entity_def_of(entity_name.as_str()) {
            extract_custom_slot(
                input,
                entity_name,
                slot_name.to_owned(),
                &custom_entity,
                clone_arc(&(*self.shared_resources).custom_entity_parser),
            )
        } else {
            extract_builtin_slot(
                input,
                entity_name,
                slot_name.to_owned(),
                clone_arc(&(*self.shared_resources).builtin_entity_parser),
            )
        }
    }

    /// The full contract of `extract_slot`: which lookups decide, which
    /// errors they raise, and what the extraction policies yield.
    pub open spec fn spec_extract_slot_post(
        self,
        input: Seq<char>,
        intent_name: Seq<char>,
        slot_name: Seq<char>,
        r: Result<Option<Slot>, NluError>,
    ) -> bool {
        match spec_lookup_intent(self.dataset_metadata.slot_name_mappings@, intent_name) {
            None => r matches Err(e) && (e matches NluError::UnknownIntent(n) && n@
                == intent_name),
            Some(mappings) => match spec_lookup_slot(mappings, slot_name) {
                None => r matches Err(e) && (e matches NluError::UnknownSlot(n) && n@
                    == slot_name),
                Some(entity_name) => match spec_lookup_entity(
                    self.dataset_metadata.entities@,
                    entity_name,
                ) {
                    Some(ent) => match self.spec_custom_parser().spec_extract(
                        input,
                        Some(seq![entity_name]),
                    ) {
                        Err(e) => r matches Err(e2) && e2 == e,
                        Ok(ents) => match spec_extract_custom(
                            input,
                            entity_name,
                            slot_name,
                            ent,
                            ents@,
                        ) {
                            Some(s) => r matches Ok(Some(sl)) && sl@ == s,
                            None => r matches Ok(o) && o is None,
                        },
                    },
                    None => if !is_builtin_identifier(entity_name) {
                        r matches Err(e) && (e matches NluError::UnknownEntityIdentifier(n) && n@
                            == entity_name)
                    } else {
                        match self.spec_builtin_parser().spec_extract(
                            input,
                            Some(seq![entity_name]),
                        ) {
                            Err(e) => r matches Err(e2) && e2 == e,
                            Ok(ents) => match spec_extract_builtin(
                                input,
                                entity_name,
                                slot_name,
                                ents@,
                            ) {
                                Some(s) => r matches Ok(Some(sl)) && sl@ == s,
                                None => r matches Ok(o) && o is None,
                            },
                        }
                    },
                },
            },
        }
    }
}

/// The resolved tail when resolution of the remaining slots succeeds,
/// and the empty sequence otherwise.
spec fn spec_resolve_slots_rest(
    entities: Seq<crate::models::EntityDef>,
    text: Seq<char>,
    slots: Seq<InternalSlot>,
    builtins: Seq<crate::ontology::BuiltinEntity>,
    customs: Seq<crate::ontology::CustomEntity>,
) -> Seq<SpecSlot> {
    match spec_resolve_slots(entities, text, slots, builtins, customs) {
        Ok(rest) => rest,
        Err(e) => Seq::empty(),
    }
}

/// The builtin entity scope of an intent's slot mappings: the entity
/// identifiers that name builtin kinds, deduplicated, in first-occurrence
/// order.
fn builtin_scope(mappings: &Vec<SlotMapping>) -> (r: Vec<String>)
    ensures
        string_views(r@) == spec_builtin_scope(mappings@),
{
    let mut collected: Vec<String> = Vec::new();
    let mut i: usize = 0;
    proof {
        assert(mappings@.skip(0) =~= mappings@);
        assert(string_views(collected@) =~= Seq::<Seq<char>>::empty());
    }
    while i < mappings.len()
        invariant
            0 <= i <= mappings@.len(),
            spec_builtin_filtered(mappings@) == string_views(collected@) + spec_builtin_filtered(
                mappings@.skip(i as int),
            ),
        decreases mappings@.len() - i,
    {
        proof {
            assert(mappings@.skip(i as int)[0] == mappings@[i as int]);
            assert(mappings@.skip(i as int).drop_first() =~= mappings@.skip(i as int + 1));
        }
        if builtin_entity_kind_exists(mappings[i].entity.as_str()) {
            let ghost pre = collected@;
            collected.push(mappings[i].entity.clone());
            proof {
                assert(string_views(collected@) =~= string_views(pre).push(
                    mappings@[i as int].entity@,
                ));
                assert((string_views(pre) + (seq![mappings@[i as int].entity@]
                    + spec_builtin_filtered(mappings@.skip(i as int + 1)))) =~= (string_views(
                    collected@,
                ) + spec_builtin_filtered(mappings@.skip(i as int + 1))));
            }
        }
        i = i + 1;
    }
    proof {
        assert(mappings@.skip(i as int).len() == 0);
        assert(string_views(collected@) + Seq::<Seq<char>>::empty() =~= string_views(collected@));
    }
    unique_strings(collected)
}

} // verus!
