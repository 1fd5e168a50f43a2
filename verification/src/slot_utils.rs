//! Slot resolution: turning the unresolved slots tagged by an intent
//! parser into fully resolved, typed slots, by cross-referencing the
//! whole-text output of the two entity extractors.

use vstd::prelude::*;
use std::sync::Arc;
use crate::builtin_entities::builtin_entity_kind_exists;
use crate::builtin_entities::is_builtin_identifier;
use crate::entity_parser::BuiltinEntityParser;
use crate::entity_parser::CustomEntityParser;
use crate::errors::NluError;
use crate::intent_parser::InternalSlot;
use crate::models::Entity;
use crate::models::EntityDef;
use crate::models::spec_lookup_entity;
use crate::ontology::opt_slot_view;
use crate::ontology::BuiltinEntity;
use crate::ontology::CharRange;
use crate::ontology::CustomEntity;
use crate::ontology::Slot;
use crate::ontology::SlotValue;
use crate::ontology::SpecSlot;
use crate::ontology::SpecSlotValue;
use crate::text::spec_char_slice;
use crate::text::str_eq;
use crate::text::substring_with_char_range;

verus! {

/// The resolved slot standing for a whole utterance: the fallback of an
/// automatically extensible custom entity that extraction did not match.
pub open spec fn spec_whole_text_slot(
    text: Seq<char>,
    entity: Seq<char>,
    slot_name: Seq<char>,
) -> SpecSlot {
    SpecSlot {
        raw_value: text,
        value: SpecSlotValue::Custom(text),
        range: Some(CharRange { start: 0, end: text.len() as usize }),
        entity: entity,
        slot_name: slot_name,
    }
}

/// The first custom match for entity `name`, in extraction order.
pub open spec fn spec_first_matching_custom(cs: Seq<CustomEntity>, name: Seq<char>) -> Option<
    CustomEntity,
>
    decreases cs.len(),
{
    if cs.len() == 0 {
        None
    } else if cs[0].entity_identifier@ == name {
        Some(cs[0])
    } else {
        spec_first_matching_custom(cs.drop_first(), name)
    }
}

/// The first builtin match of kind `kind`, in extraction order.
pub open spec fn spec_first_matching_builtin(bs: Seq<BuiltinEntity>, kind: Seq<char>) -> Option<
    BuiltinEntity,
>
    decreases bs.len(),
{
    if bs.len() == 0 {
        None
    } else if bs[0].entity_kind@ == kind {
        Some(bs[0])
    } else {
        spec_first_matching_builtin(bs.drop_first(), kind)
    }
}

/// What resolving one custom slot yields: the first extraction match for
/// its entity; failing that, the whole utterance when the entity is
/// automatically extensible; otherwise nothing, and the slot is dropped.
pub open spec fn spec_resolve_custom(
    text: Seq<char>,
    slot: InternalSlot,
    entity: Entity,
    customs: Seq<CustomEntity>,
) -> Option<SpecSlot> {
    match spec_first_matching_custom(customs, slot.entity@) {
        Some(c) => Some(
            SpecSlot {
                raw_value: c.value@,
                value: SpecSlotValue::Custom(c.resolved_value@),
                range: Some(c.range),
                entity: slot.entity@,
                slot_name: slot.slot_name@,
            },
        ),
        None => if entity.automatically_extensible {
            Some(spec_whole_text_slot(text, slot.entity@, slot.slot_name@))
        } else {
            None
        },
    }
}

/// What resolving one builtin slot yields: the first extraction match of
/// its kind, with `raw_value` cut from the text at the match's character
/// range and that range carried on the slot; nothing when no instance was
/// found.
pub open spec fn spec_resolve_builtin(
    text: Seq<char>,
    slot: InternalSlot,
    builtins: Seq<BuiltinEntity>,
) -> Option<SpecSlot> {
    match spec_first_matching_builtin(builtins, slot.entity@) {
        Some(b) => Some(
            SpecSlot {
                raw_value: spec_char_slice(text, b.range),
                value: b.entity@,
                range: Some(b.range),
                entity: slot.entity@,
                slot_name: slot.slot_name@,
            },
        ),
        None => None,
    }
}

/// Resolving one slot: the custom path when its entity is declared in the
/// dataset's custom entities, else the builtin path; an entity identifier
/// that is neither declared nor builtin is a hard error carrying that
/// identifier.
pub open spec fn spec_resolve_one(
    entities: Seq<EntityDef>,
    text: Seq<char>,
    slot: InternalSlot,
    builtins: Seq<BuiltinEntity>,
    customs: Seq<CustomEntity>,
) -> Result<Option<SpecSlot>, Seq<char>> {
    match spec_lookup_entity(entities, slot.entity@) {
        Some(entity) => Ok(spec_resolve_custom(text, slot, entity, customs)),
        None => if is_builtin_identifier(slot.entity@) {
            Ok(spec_resolve_builtin(text, slot, builtins))
        } else {
            Err(slot.entity@)
        },
    }
}

/// Resolving a list of slots: at most one resolved slot per input slot,
/// in the original order, the unresolved ones omitted; the first hard
/// error aborts the whole resolution.
pub open spec fn spec_resolve_slots(
    entities: Seq<EntityDef>,
    text: Seq<char>,
    slots: Seq<InternalSlot>,
    builtins: Seq<BuiltinEntity>,
    customs: Seq<CustomEntity>,
) -> Result<Seq<SpecSlot>, Seq<char>>
    decreases slots.len(),
{
    if slots.len() == 0 {
        Ok(Seq::empty())
    } else {
        match spec_resolve_one(entities, text, slots[0], builtins, customs) {
            Err(e) => Err(e),
            Ok(head) => match spec_resolve_slots(
                entities,
                text,
                slots.drop_first(),
                builtins,
                customs,
            ) {
                Err(e) => Err(e),
                Ok(rest) => Ok(
                    match head {
                        Some(s) => seq![s] + rest,
                        None => rest,
                    },
                ),
            },
        }
    }
}

/// Resolution law: at most one resolved slot comes out per unresolved
/// slot that went in.
pub proof fn lemma_resolve_slots_at_most_one_each(
    entities: Seq<EntityDef>,
    text: Seq<char>,
    slots: Seq<InternalSlot>,
    builtins: Seq<BuiltinEntity>,
    customs: Seq<CustomEntity>,
)
    ensures
        spec_resolve_slots(entities, text, slots, builtins, customs) matches Ok(resolved)
            ==> resolved.len() <= slots.len(),
    decreases slots.len(),
{
    if slots.len() > 0 {
        lemma_resolve_slots_at_most_one_each(
            entities,
            text,
            slots.drop_first(),
            builtins,
            customs,
        );
    }
}

/// Resolve one custom slot against the custom extraction results,
/// following the policy of [`spec_resolve_custom`].
pub fn resolve_custom_slot(
    text: &str,
    slot: &InternalSlot,
    entity: &Entity,
    custom_entities: &Vec<CustomEntity>,
) -> (r: Option<Slot>)
    ensures
        opt_slot_view(r) == spec_resolve_custom(text@, *slot, *entity, custom_entities@),
{
    let mut i: usize = 0;
    proof {
        assert(custom_entities@.skip(0) =~= custom_entities@);
    }
    while i < custom_entities.len()
        invariant
            0 <= i <= custom_entities@.len(),
            spec_first_matching_custom(custom_entities@, slot.entity@)
                == spec_first_matching_custom(custom_entities@.skip(i as int), slot.entity@),
        decreases custom_entities@.len() - i,
    {
        proof {
            assert(custom_entities@.skip(i as int)[0] == custom_entities@[i as int]);
        }
        if str_eq(custom_entities[i].entity_identifier.as_str(), slot.entity.as_str()) {
            let c = &custom_entities[i];
            return Some(
                Slot {
                    raw_value: c.value.clone(),
                    value: SlotValue::Custom(c.resolved_value.clone()),
                    range: Some(c.range),
                    entity: slot.entity.clone(),
                    slot_name: slot.slot_name.clone(),
                },
            );
        }
        proof {
            assert(custom_entities@.skip(i as int).drop_first() =~= custom_entities@.skip(
                i as int + 1,
            ));
        }
        i = i + 1;
    }
    proof {
        assert(custom_entities@.skip(i as int).len() == 0);
    }
    if entity.automatically_extensible {
        let n = text.unicode_len();
        proof {
            assert(n == text@.len() as usize);
        }
        Some(
            Slot {
                raw_value: text.to_owned(),
                value: SlotValue::Custom(text.to_owned()),
                range: Some(CharRange { start: 0, end: n }),
                entity: slot.entity.clone(),
                slot_name: slot.slot_name.clone(),
            },
        )
    } else {
        None
    }
}

/// Resolve one builtin slot against the builtin extraction results,
/// following the policy of [`spec_resolve_builtin`]; an entity identifier
/// that names no builtin kind is a hard error.
pub fn resolve_builtin_slot(
    text: &str,
    slot: &InternalSlot,
    builtin_entities: &Vec<BuiltinEntity>,
) -> (r: Result<Option<Slot>, NluError>)
    ensures
        is_builtin_identifier(slot.entity@) ==> (r matches Ok(o) && opt_slot_view(o)
            == spec_resolve_builtin(text@, *slot, builtin_entities@)),
        !is_builtin_identifier(slot.entity@) ==> (r matches Err(e) && (e matches
        NluError::UnknownEntityIdentifier(n) && n@ == slot.entity@)),
{
    if !builtin_entity_kind_exists(slot.entity.as_str()) {
        return Err(NluError::UnknownEntityIdentifier(slot.entity.clone()));
    }
    let mut i: usize = 0;
    proof {
        assert(builtin_entities@.skip(0) =~= builtin_entities@);
    }
    while i < builtin_entities.len()
        invariant
            is_builtin_identifier(slot.entity@),
            0 <= i <= builtin_entities@.len(),
            spec_first_matching_builtin(builtin_entities@, slot.entity@)
                == spec_first_matching_builtin(builtin_entities@.skip(i as int), slot.entity@),
        decreases builtin_entities@.len() - i,
    {
        proof {
            assert(builtin_entities@.skip(i as int)[0] == builtin_entities@[i as int]);
        }
        if str_eq(builtin_entities[i].entity_kind.as_str(), slot.entity.as_str()) {
            let b = &builtin_entities[i];
            return Ok(
                Some(
                    Slot {
                        raw_value: substring_with_char_range(text, &b.range),
                        value: b.entity.clone(),
                        range: Some(b.range),
                        entity: slot.entity.clone(),
                        slot_name: slot.slot_name.clone(),
                    },
                ),
            );
        }
        proof {
            assert(builtin_entities@.skip(i as int).drop_first() =~= builtin_entities@.skip(
                i as int + 1,
            ));
        }
        i = i + 1;
    }
    proof {
        assert(builtin_entities@.skip(i as int).len() == 0);
    }
    Ok(None)
}

/// What extracting a single custom slot yields from the matches that
/// extraction, already scoped to the one entity, reported: the last match
/// in extraction order; failing that, the whole utterance when the entity
/// is automatically extensible; otherwise nothing.
pub open spec fn spec_extract_custom(
    input: Seq<char>,
    entity_name: Seq<char>,
    slot_name: Seq<char>,
    custom_entity: Entity,
    matches: Seq<CustomEntity>,
) -> Option<SpecSlot> {
    if matches.len() > 0 {
        Some(
            SpecSlot {
                raw_value: matches.last().value@,
                value: SpecSlotValue::Custom(matches.last().resolved_value@),
                range: Some(matches.last().range),
                entity: entity_name,
                slot_name: slot_name,
            },
        )
    } else if custom_entity.automatically_extensible {
        Some(spec_whole_text_slot(input, entity_name, slot_name))
    } else {
        None
    }
}

/// What extracting a single builtin slot yields from the matches that
/// extraction, already scoped to the one kind, reported: the first match
/// in extraction order, or nothing. On this direct path the slot reports
/// no range; the match's range only cuts `raw_value`.
pub open spec fn spec_extract_builtin(
    input: Seq<char>,
    entity_name: Seq<char>,
    slot_name: Seq<char>,
    matches: Seq<BuiltinEntity>,
) -> Option<SpecSlot> {
    if matches.len() > 0 {
        Some(
            SpecSlot {
                raw_value: spec_char_slice(input, matches[0].range),
                value: matches[0].entity@,
                range: None,
                entity: entity_name,
                slot_name: slot_name,
            },
        )
    } else {
        None
    }
}

/// Extract one custom slot directly: run custom extraction scoped to the
/// one entity and apply the policy of [`spec_extract_custom`].
pub fn extract_custom_slot<C: CustomEntityParser>(
    input: String,
    entity_name: String,
    slot_name: String,
    custom_entity: &Entity,
    custom_entity_parser: Arc<C>,
) -> (r: Result<Option<Slot>, NluError>)
    ensures
        ({
            match (*custom_entity_parser).spec_extract(input@, Some(seq![entity_name@])) {
                Err(e) => r matches Err(e2) && e2 == e,
                Ok(ents) => match spec_extract_custom(
                    input@,
                    entity_name@,
                    slot_name@,
                    *custom_entity,
                    ents@,
                ) {
                    Some(s) => r matches Ok(Some(sl)) && sl@ == s,
                    None => r matches Ok(o) && o is None,
                },
            }
        }),
{
    let scope = vec![entity_name.clone()];
    proof {
        assert(crate::text::string_views(scope@) =~= seq![entity_name@]);
    }
    let mut custom_entities = match custom_entity_parser.extract_entities(
        input.as_str(),
        Some(scope.as_slice()),
    ) {
        Ok(v) => v,
        Err(e) => {
            return Err(e);
        },
    };
    let ghost ents0 = custom_entities@;
    match custom_entities.pop() {
        Some(matched_entity) => Ok(
            Some(
                Slot {
                    raw_value: matched_entity.value,
                    value: SlotValue::Custom(matched_entity.resolved_value),
                    range: Some(matched_entity.range),
                    entity: entity_name,
                    slot_name: slot_name,
                },
            ),
        ),
        None => {
            if custom_entity.automatically_extensible {
                let n = input.as_str().unicode_len();
                proof {
                    assert(n == input@.len() as usize);
                }
                let raw_value = input.clone();
                Ok(
                    Some(
                        Slot {
                            raw_value: raw_value,
                            value: SlotValue::Custom(input),
                            range: Some(CharRange { start: 0, end: n }),
                            entity: entity_name,
                            slot_name: slot_name,
                        },
                    ),
                )
            } else {
                Ok(None)
            }
        },
    }
}

/// Extract one builtin slot directly: run builtin extraction scoped to
/// the one kind and apply the policy of [`spec_extract_builtin`]; an
/// entity identifier that names no builtin kind is a hard error.
pub fn extract_builtin_slot<B: BuiltinEntityParser>(
    input: String,
    entity_name: String,
    slot_name: String,
    builtin_entity_parser: Arc<B>,
) -> (r: Result<Option<Slot>, NluError>)
    ensures
        !is_builtin_identifier(entity_name@) ==> (r matches Err(e) && (e matches
        NluError::UnknownEntityIdentifier(n) && n@ == entity_name@)),
        is_builtin_identifier(entity_name@) ==> ({
            match (*builtin_entity_parser).spec_extract(input@, Some(seq![entity_name@])) {
                Err(e) => r matches Err(e2) && e2 == e,
                Ok(ents) => match spec_extract_builtin(input@, entity_name@, slot_name@, ents@) {
                    Some(s) => r matches Ok(Some(sl)) && sl@ == s,
                    None => r matches Ok(o) && o is None,
                },
            }
        }),
{
    if !builtin_entity_kind_exists(entity_name.as_str()) {
        return Err(NluError::UnknownEntityIdentifier(entity_name));
    }
    let scope = vec![entity_name.clone()];
    proof {
        assert(crate::text::string_views(scope@) =~= seq![entity_name@]);
    }
    let builtin_entities = match builtin_entity_parser.extract_entities(
        input.as_str(),
        Some(scope.as_slice()),
    ) {
        Ok(v) => v,
        Err(e) => {
            return Err(e);
        },
    };
    if builtin_entities.len() > 0 {
        let b = &builtin_entities[0];
        Ok(
            Some(
                Slot {
                    raw_value: substring_with_char_range(input.as_str(), &b.range),
                    value: b.entity.clone(),
                    range: None,
                    entity: entity_name,
                    slot_name: slot_name,
                },
            ),
        )
    } else {
        Ok(None)
    }
}

} // verus!
