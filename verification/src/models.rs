//! The logical schema of a model bundle: dataset metadata, the engine
//! descriptor, and the model version policy.

use vstd::prelude::*;
use crate::errors::NluError;
use crate::text::str_eq;

verus! {

/// A custom entity definition. When `automatically_extensible` is true, a
/// slot tagged with this entity whose text no extraction matched still
/// resolves, taking the whole utterance as its value; when false, such a
/// slot is dropped.
#[derive(Clone, Copy, Debug, PartialEq, Eq, Structural)]
pub struct Entity {
    pub automatically_extensible: bool,
}

/// One slot of an intent, mapped to the entity identifier it is filled
/// from (either a builtin entity identifier or a custom entity name).
#[derive(Clone, Debug, PartialEq)]
pub struct SlotMapping {
    pub slot_name: String,
    pub entity: String,
}

/// The slot mappings of one intent.
#[derive(Clone, Debug, PartialEq)]
pub struct IntentSlotsMapping {
    pub intent: String,
    pub slot_mappings: Vec<SlotMapping>,
}

/// A named custom entity definition.
#[derive(Clone, Debug, PartialEq)]
pub struct EntityDef {
    pub name: String,
    pub entity: Entity,
}

/// Immutable description of the trained dataset: its language, the
/// per-intent slot-to-entity mappings, and the custom entity definitions.
/// Lookups take the first element with the sought name; a loaded model
/// lists each intent and each entity once.
#[derive(Clone, Debug, PartialEq)]
pub struct DatasetMetadata {
    pub language_code: String,
    pub slot_name_mappings: Vec<IntentSlotsMapping>,
    pub entities: Vec<EntityDef>,
}

/// The entity identifier mapped to `slot_name`, if the mapping lists it.
pub open spec fn spec_lookup_slot(ms: Seq<SlotMapping>, slot_name: Seq<char>) -> Option<Seq<char>>
    decreases ms.len(),
{
    if ms.len() == 0 {
        None
    } else if ms[0].slot_name@ == slot_name {
        Some(ms[0].entity@)
    } else {
        spec_lookup_slot(ms.drop_first(), slot_name)
    }
}

/// The slot mappings of `intent`, if the metadata lists it.
pub open spec fn spec_lookup_intent(
    ms: Seq<IntentSlotsMapping>,
    intent: Seq<char>,
) -> Option<Seq<SlotMapping>>
    decreases ms.len(),
{
    if ms.len() == 0 {
        None
    } else if ms[0].intent@ == intent {
        Some(ms[0].slot_mappings@)
    } else {
        spec_lookup_intent(ms.drop_first(), intent)
    }
}

/// The definition of the custom entity called `name`, if one is declared.
pub open spec fn spec_lookup_entity(es: Seq<EntityDef>, name: Seq<char>) -> Option<Entity>
    decreases es.len(),
{
    if es.len() == 0 {
        None
    } else if es[0].name@ == name {
        Some(es[0].entity)
    } else {
        spec_lookup_entity(es.drop_first(), name)
    }
}

impl DatasetMetadata {
    /// The slot mappings declared for `intent`.
    pub fn slot_mappings_of<'a>(&'a self, intent: &str) -> (r: Option<&'a Vec<SlotMapping>>)
        ensures
            match r {
                Some(v) => spec_lookup_intent(self.slot_name_mappings@, intent@) == Some(v@),
                None => spec_lookup_intent(self.slot_name_mappings@, intent@) is None,
            },
    {
        let mut i: usize = 0;
        proof {
            assert(self.slot_name_mappings@.skip(0) =~= self.slot_name_mappings@);
        }
        while i < self.slot_name_mappings.len()
            invariant
                0 <= i <= self.slot_name_mappings@.len(),
                spec_lookup_intent(self.slot_name_mappings@, intent@) == spec_lookup_intent(
                    self.slot_name_mappings@.skip(i as int),
                    intent@,
                ),
            decreases self.slot_name_mappings@.len() - i,
        {
            if str_eq(self.slot_name_mappings[i].intent.as_str(), intent) {
                proof {
                    assert(self.slot_name_mappings@.skip(i as int)[0] == self.slot_name_mappings@[i
                        as int]);
                }
                return Some(&self.slot_name_mappings[i].slot_mappings);
            }
            proof {
                assert(self.slot_name_mappings@.skip(i as int).drop_first()
                    =~= self.slot_name_mappings@.skip(i as int + 1));
                assert(self.slot_name_mappings@.skip(i as int)[0] == self.slot_name_mappings@[i
                    as int]);
            }
            i = i + 1;
        }
        proof {
            assert(self.slot_name_mappings@.skip(i as int).len() == 0);
        }
        None
    }

    /// The entity identifier a given `(intent, slot)` pair is filled from.
    pub fn entity_of_slot<'a>(&'a self, intent: &str, slot_name: &str) -> (r: Result<
        &'a String,
        NluError,
    >)
        ensures
            match r {
                Ok(e) => {
                    &&& spec_lookup_intent(self.slot_name_mappings@, intent@) matches Some(ms)
                    &&& spec_lookup_slot(ms, slot_name@) == Some(e@)
                },
                Err(err) => match err {
                    NluError::UnknownIntent(n) => n@ == intent@ && spec_lookup_intent(
                        self.slot_name_mappings@,
                        intent@,
                    ) is None,
                    NluError::UnknownSlot(n) => {
                        &&& n@ == slot_name@
                        &&& spec_lookup_intent(self.slot_name_mappings@, intent@) matches Some(ms)
                        &&& spec_lookup_slot(ms, slot_name@) is None
                    },
                    _ => false,
                },
            },
    {
        let mappings = match self.slot_mappings_of(intent) {
            Some(m) => m,
            None => {
                return Err(NluError::UnknownIntent(intent.to_owned()));
            },
        };
        let mut i: usize = 0;
        proof {
            assert(mappings@.skip(0) =~= mappings@);
        }
        while i < mappings.len()
            invariant
                spec_lookup_intent(self.slot_name_mappings@, intent@) == Some(mappings@),
                0 <= i <= mappings@.len(),
                spec_lookup_slot(mappings@, slot_name@) == spec_lookup_slot(
                    mappings@.skip(i as int),
                    slot_name@,
                ),
            decreases mappings@.len() - i,
        {
            if str_eq(mappings[i].slot_name.as_str(), slot_name) {
                proof {
                    assert(mappings@.skip(i as int)[0] == mappings@[i as int]);
                }
                return Ok(&mappings[i].entity);
            }
            proof {
                assert(mappings@.skip(i as int).drop_first() =~= mappings@.skip(i as int + 1));
                assert(mappings@.skip(i as int)[0] == mappings@[i as int]);
            }
            i = i + 1;
        }
        proof {
            assert(mappings@.skip(i as int).len() == 0);
        }
        Err(NluError::UnknownSlot(slot_name.to_owned()))
    }

    /// The definition of the custom entity called `name`, if one is
    /// declared in this dataset.
    pub fn entity_def_of(&self, name: &str) -> (r: Option<Entity>)
        ensures
            r == spec_lookup_entity(self.entities@, name@),
    {
        let mut i: usize = 0;
        proof {
            assert(self.entities@.skip(0) =~= self.entities@);
        }
        while i < self.entities.len()
            invariant
                0 <= i <= self.entities@.len(),
                spec_lookup_entity(self.entities@, name@) == spec_lookup_entity(
                    self.entities@.skip(i as int),
                    name@,
                ),
            decreases self.entities@.len() - i,
        {
            if str_eq(self.entities[i].name.as_str(), name) {
                proof {
                    assert(self.entities@.skip(i as int)[0] == self.entities@[i as int]);
                }
                return Some(self.entities[i].entity);
            }
            proof {
                assert(self.entities@.skip(i as int).drop_first() =~= self.entities@.skip(
                    i as int + 1,
                ));
                assert(self.entities@.skip(i as int)[0] == self.entities@[i as int]);
            }
            i = i + 1;
        }
        proof {
            assert(self.entities@.skip(i as int).len() == 0);
        }
        None
    }
}

/// The deserialized engine descriptor of a model bundle.
#[derive(Clone, Debug, PartialEq)]
pub struct NluEngineModel {
    pub model_version: String,
    pub dataset_metadata: DatasetMetadata,
    pub intent_parsers: Vec<String>,
    pub builtin_entity_parser: String,
    pub custom_entity_parser: String,
}

/// Accepts exactly the model version this engine was built for; any other
/// version is a fatal, unrecoverable load error carrying both the found
/// and the expected version strings.
pub fn check_model_version(found_version: &str) -> (r: Result<(), NluError>)
    ensures
        r is Ok <==> found_version@ == crate::spec_model_version(),
        r matches Err(e) ==> e matches NluError::WrongModelVersion { found, expected }
            && found@ == found_version@ && expected@ == crate::spec_model_version(),
{
    if str_eq(found_version, crate::model_version()) {
        Ok(())
    } else {
        Err(
            NluError::WrongModelVersion {
                found: found_version.to_owned(),
                expected: crate::model_version().to_owned(),
            },
        )
    }
}

} // verus!
