use std::cell::Cell;
use std::rc::Rc;
use std::sync::Arc;

use snips_nlu_lib::entity_parser::BuiltinEntityParser;
use snips_nlu_lib::entity_parser::CustomEntityParser;
use snips_nlu_lib::errors::NluError;
use snips_nlu_lib::intent_parser::IntentParser;
use snips_nlu_lib::intent_parser::InternalParsingResult;
use snips_nlu_lib::intent_parser::InternalSlot;
use snips_nlu_lib::models::check_model_version;
use snips_nlu_lib::models::DatasetMetadata;
use snips_nlu_lib::models::Entity;
use snips_nlu_lib::models::IntentSlotsMapping;
use snips_nlu_lib::models::SlotMapping;
use snips_nlu_lib::nlu_engine::SnipsNluEngine;
use snips_nlu_lib::ontology::BuiltinEntity;
use snips_nlu_lib::ontology::CharRange;
use snips_nlu_lib::ontology::CustomEntity;
use snips_nlu_lib::ontology::IntentClassifierResult;
use snips_nlu_lib::ontology::Slot;
use snips_nlu_lib::ontology::SlotValue;
use snips_nlu_lib::resources::SharedResources;
use snips_nlu_lib::slot_utils::extract_custom_slot;

struct MockedCustomEntityParser {
    mappings: Vec<(String, Vec<CustomEntity>)>,
    calls: Rc<Cell<usize>>,
}

impl MockedCustomEntityParser {
    fn from_iter(items: Vec<(String, Vec<CustomEntity>)>) -> Self {
        MockedCustomEntityParser { mappings: items, calls: Rc::new(Cell::new(0)) }
    }
}

impl CustomEntityParser for MockedCustomEntityParser {
    fn extract_entities(
        &self,
        text: &str,
        scope: Option<&[String]>,
    ) -> Result<Vec<CustomEntity>, NluError> {
        self.calls.set(self.calls.get() + 1);
        let mut out = Vec::new();
        for (t, ents) in &self.mappings {
            if t == text {
                for e in ents {
                    let in_scope = match scope {
                        Some(s) => s.iter().any(|n| *n == e.entity_identifier),
                        None => true,
                    };
                    if in_scope {
                        out.push(e.clone());
                    }
                }
            }
        }
        Ok(out)
    }

    fn spec_extract(
        &self,
        _text: vstd::seq::Seq<char>,
        _scope: Option<vstd::seq::Seq<vstd::seq::Seq<char>>>,
    ) -> Result<Vec<CustomEntity>, NluError> {
        panic!("ghost member, never called at runtime")
    }
}

struct MockedBuiltinEntityParser {
    mappings: Vec<(String, Vec<BuiltinEntity>)>,
    /// When set, extraction answers only if the scope is exactly this.
    expected_scope: Option<Vec<String>>,
    calls: Rc<Cell<usize>>,
}

impl MockedBuiltinEntityParser {
    fn from_iter(items: Vec<(String, Vec<BuiltinEntity>)>) -> Self {
        MockedBuiltinEntityParser {
            mappings: items,
            expected_scope: None,
            calls: Rc::new(Cell::new(0)),
        }
    }
}

impl BuiltinEntityParser for MockedBuiltinEntityParser {
    fn extract_entities(
        &self,
        text: &str,
        scope: Option<&[String]>,
    ) -> Result<Vec<BuiltinEntity>, NluError> {
        self.calls.set(self.calls.get() + 1);
        if let Some(expected) = &self.expected_scope {
            if scope != Some(expected.as_slice()) {
                return Ok(Vec::new());
            }
        }
        let mut out = Vec::new();
        for (t, ents) in &self.mappings {
            if t == text {
                for e in ents {
                    let in_scope = match scope {
                        Some(s) => s.iter().any(|n| *n == e.entity_kind),
                        None => true,
                    };
                    if in_scope {
                        out.push(e.clone());
                    }
                }
            }
        }
        Ok(out)
    }

    fn spec_extract(
        &self,
        _text: vstd::seq::Seq<char>,
        _scope: Option<vstd::seq::Seq<vstd::seq::Seq<char>>>,
    ) -> Result<Vec<BuiltinEntity>, NluError> {
        panic!("ghost member, never called at runtime")
    }
}

enum ParserBehavior {
    Decline,
    Match(InternalParsingResult),
}

struct MockedIntentParser {
    behavior: ParserBehavior,
    calls: Rc<Cell<usize>>,
}

impl MockedIntentParser {
    fn declining() -> Self {
        MockedIntentParser { behavior: ParserBehavior::Decline, calls: Rc::new(Cell::new(0)) }
    }

    fn matching(result: InternalParsingResult) -> Self {
        MockedIntentParser {
            behavior: ParserBehavior::Match(result),
            calls: Rc::new(Cell::new(0)),
        }
    }
}

impl IntentParser for MockedIntentParser {
    fn parse(
        &self,
        _input: &str,
        _intents_filter: Option<&[String]>,
    ) -> Result<Option<InternalParsingResult>, NluError> {
        self.calls.set(self.calls.get() + 1);
        match &self.behavior {
            ParserBehavior::Decline => Ok(None),
            ParserBehavior::Match(r) => Ok(Some(r.clone())),
        }
    }

    fn spec_parse(
        &self,
        _input: vstd::seq::Seq<char>,
        _intents_filter: Option<vstd::set::Set<vstd::seq::Seq<char>>>,
    ) -> Result<Option<InternalParsingResult>, NluError> {
        panic!("ghost member, never called at runtime")
    }
}

fn coffee_metadata() -> DatasetMetadata {
    DatasetMetadata {
        language_code: "en".to_string(),
        slot_name_mappings: vec![IntentSlotsMapping {
            intent: "MakeCoffee".to_string(),
            slot_mappings: vec![SlotMapping {
                slot_name: "number_of_cups".to_string(),
                entity: "snips/number".to_string(),
            }],
        }],
        entities: vec![],
    }
}

fn coffee_match() -> InternalParsingResult {
    InternalParsingResult {
        intent: IntentClassifierResult {
            intent_name: "MakeCoffee".to_string(),
            probability_bits: 0.7f32.to_bits(),
        },
        slots: vec![InternalSlot {
            value: "two".to_string(),
            char_range: CharRange { start: 8, end: 11 },
            entity: "snips/number".to_string(),
            slot_name: "number_of_cups".to_string(),
        }],
    }
}

fn coffee_builtin_entities() -> Vec<(String, Vec<BuiltinEntity>)> {
    vec![(
        "Make me two cups of coffee please".to_string(),
        vec![BuiltinEntity {
            value: "two".to_string(),
            range: CharRange { start: 8, end: 11 },
            entity: SlotValue::Number { value_bits: 2.0f64.to_bits() },
            entity_kind: "snips/number".to_string(),
        }],
    )]
}

#[test]
fn should_extract_custom_slot_when_tagged() {
    let input = "hello a b c d world".to_string();
    let entity_name = "entity".to_string();
    let slot_name = "slot".to_string();
    let custom_entity = Entity { automatically_extensible: true };

    let mocked_custom_parser = Arc::new(MockedCustomEntityParser::from_iter(vec![(
        "hello a b c d world".to_string(),
        vec![
            CustomEntity {
                value: "a b".to_string(),
                resolved_value: "value1".to_string(),
                range: CharRange { start: 6, end: 9 },
                entity_identifier: entity_name.to_string(),
            },
            CustomEntity {
                value: "b c d".to_string(),
                resolved_value: "value2".to_string(),
                range: CharRange { start: 8, end: 13 },
                entity_identifier: entity_name.to_string(),
            },
        ],
    )]));

    let extracted_slot =
        extract_custom_slot(input, entity_name, slot_name, &custom_entity, mocked_custom_parser)
            .unwrap();

    let expected_slot = Some(Slot {
        raw_value: "b c d".to_string(),
        value: SlotValue::Custom("value2".to_string()),
        range: Some(CharRange { start: 8, end: 13 }),
        entity: "entity".to_string(),
        slot_name: "slot".to_string(),
    });
    assert_eq!(expected_slot, extracted_slot);
}

#[test]
fn should_extract_custom_slot_when_not_tagged() {
    let input = "hello world".to_string();
    let entity_name = "entity".to_string();
    let slot_name = "slot".to_string();
    let custom_entity = Entity { automatically_extensible: true };

    let mocked_custom_parser = Arc::new(MockedCustomEntityParser::from_iter(vec![]));

    let extracted_slot =
        extract_custom_slot(input, entity_name, slot_name, &custom_entity, mocked_custom_parser)
            .unwrap();

    let expected_slot = Some(Slot {
        raw_value: "hello world".to_string(),
        value: SlotValue::Custom("hello world".to_string()),
        range: Some(CharRange { start: 0, end: 11 }),
        entity: "entity".to_string(),
        slot_name: "slot".to_string(),
    });
    assert_eq!(expected_slot, extracted_slot);
}

#[test]
fn should_not_extract_custom_slot_when_not_extensible() {
    let input = "hello world".to_string();
    let entity_name = "entity".to_string();
    let slot_name = "slot".to_string();
    let custom_entity = Entity { automatically_extensible: false };

    let mocked_custom_parser = Arc::new(MockedCustomEntityParser::from_iter(vec![]));

    let extracted_slot =
        extract_custom_slot(input, entity_name, slot_name, &custom_entity, mocked_custom_parser)
            .unwrap();

    let expected_slot = None;
    assert_eq!(expected_slot, extracted_slot);
}

#[test]
fn parse_works() {
    let engine = SnipsNluEngine::new(
        coffee_metadata(),
        vec![MockedIntentParser::matching(coffee_match())],
        Arc::new(SharedResources::new(
            Arc::new(MockedBuiltinEntityParser::from_iter(coffee_builtin_entities())),
            Arc::new(MockedCustomEntityParser::from_iter(vec![])),
        )),
    );

    let result = engine.parse("Make me two cups of coffee please", None).unwrap();

    let expected_entity_value = SlotValue::Number { value_bits: 2.0f64.to_bits() };
    match &expected_entity_value {
        SlotValue::Number { value_bits } => assert_eq!(2.0f64, f64::from_bits(*value_bits)),
        _ => unreachable!(),
    }
    let expected_slots = Some(vec![Slot {
        raw_value: "two".to_string(),
        value: expected_entity_value,
        range: Some(CharRange { start: 8, end: 11 }),
        entity: "snips/number".to_string(),
        slot_name: "number_of_cups".to_string(),
    }]);
    let expected_intent = Some("MakeCoffee".to_string());

    assert_eq!(expected_intent, result.intent.map(|intent| intent.intent_name));
    assert_eq!(expected_slots, result.slots);
}

#[test]
fn parse_with_zero_parsers_matches_nothing() {
    let engine = SnipsNluEngine::new(
        coffee_metadata(),
        Vec::<MockedIntentParser>::new(),
        Arc::new(SharedResources::new(
            Arc::new(MockedBuiltinEntityParser::from_iter(vec![])),
            Arc::new(MockedCustomEntityParser::from_iter(vec![])),
        )),
    );

    let result = engine.parse("whatever you like", None).unwrap();

    assert_eq!("whatever you like".to_string(), result.input);
    assert_eq!(None, result.intent);
    assert_eq!(None, result.slots);
}

#[test]
fn parse_cascade_stops_at_first_match() {
    let first_parser = MockedIntentParser::declining();
    let second_parser = MockedIntentParser::matching(coffee_match());
    let third_parser = MockedIntentParser::declining();
    let first_calls = first_parser.calls.clone();
    let second_calls = second_parser.calls.clone();
    let third_calls = third_parser.calls.clone();

    let builtin_parser = MockedBuiltinEntityParser::from_iter(coffee_builtin_entities());
    let builtin_calls = builtin_parser.calls.clone();

    let engine = SnipsNluEngine::new(
        coffee_metadata(),
        vec![first_parser, second_parser, third_parser],
        Arc::new(SharedResources::new(
            Arc::new(builtin_parser),
            Arc::new(MockedCustomEntityParser::from_iter(vec![])),
        )),
    );

    let result = engine.parse("Make me two cups of coffee please", None).unwrap();

    assert_eq!(
        Some("MakeCoffee".to_string()),
        result.intent.map(|intent| intent.intent_name)
    );
    assert_eq!(1, first_calls.get());
    assert_eq!(1, second_calls.get());
    assert_eq!(0, third_calls.get());
    assert_eq!(1, builtin_calls.get());
}

#[test]
fn parse_runs_builtin_extraction_with_deduplicated_scope() {
    let metadata = DatasetMetadata {
        language_code: "en".to_string(),
        slot_name_mappings: vec![IntentSlotsMapping {
            intent: "MakeCoffee".to_string(),
            slot_mappings: vec![
                SlotMapping {
                    slot_name: "number_of_cups".to_string(),
                    entity: "snips/number".to_string(),
                },
                SlotMapping {
                    slot_name: "number_of_sugars".to_string(),
                    entity: "snips/number".to_string(),
                },
            ],
        }],
        entities: vec![],
    };

    let mut builtin_parser = MockedBuiltinEntityParser::from_iter(coffee_builtin_entities());
    builtin_parser.expected_scope = Some(vec!["snips/number".to_string()]);

    let engine = SnipsNluEngine::new(
        metadata,
        vec![MockedIntentParser::matching(coffee_match())],
        Arc::new(SharedResources::new(
            Arc::new(builtin_parser),
            Arc::new(MockedCustomEntityParser::from_iter(vec![])),
        )),
    );

    let result = engine.parse("Make me two cups of coffee please", None).unwrap();
    let slots = result.slots.unwrap();
    assert_eq!(1, slots.len());
    assert_eq!("two".to_string(), slots[0].raw_value);
}

#[test]
fn check_model_version_accepts_expected_version() {
    assert_eq!(Ok(()), check_model_version("0.19.0"));
}

#[test]
fn check_model_version_rejects_other_versions() {
    let result = check_model_version("0.1.0");
    assert_eq!(
        Err(NluError::WrongModelVersion {
            found: "0.1.0".to_string(),
            expected: "0.19.0".to_string(),
        }),
        result
    );
}

struct FilterSensitiveParser;

impl IntentParser for FilterSensitiveParser {
    fn parse(
        &self,
        _input: &str,
        intents_filter: Option<&[String]>,
    ) -> Result<Option<InternalParsingResult>, NluError> {
        let allowed = match intents_filter {
            Some(f) => f.iter().any(|n| n == "MakeCoffee"),
            None => true,
        };
        if allowed {
            Ok(Some(coffee_match()))
        } else {
            Ok(None)
        }
    }

    fn spec_parse(
        &self,
        _input: vstd::seq::Seq<char>,
        _intents_filter: Option<vstd::set::Set<vstd::seq::Seq<char>>>,
    ) -> Result<Option<InternalParsingResult>, NluError> {
        panic!("ghost member, never called at runtime")
    }
}

#[test]
fn parse_hands_the_intents_filter_to_the_parsers() {
    let engine = SnipsNluEngine::new(
        coffee_metadata(),
        vec![FilterSensitiveParser],
        Arc::new(SharedResources::new(
            Arc::new(MockedBuiltinEntityParser::from_iter(coffee_builtin_entities())),
            Arc::new(MockedCustomEntityParser::from_iter(vec![])),
        )),
    );

    let allowed = engine
        .parse(
            "Make me two cups of coffee please",
            Some(&["MakeCoffee".to_string()]),
        )
        .unwrap();
    assert_eq!(
        Some("MakeCoffee".to_string()),
        allowed.intent.map(|intent| intent.intent_name)
    );

    let refused = engine
        .parse(
            "Make me two cups of coffee please",
            Some(&["MakeTea".to_string()]),
        )
        .unwrap();
    assert_eq!(None, refused.intent);
    assert_eq!(None, refused.slots);
}
