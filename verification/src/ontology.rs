//! The data types this layer consumes and produces: character ranges,
//! entity matches, resolved slots and parse results.

use vstd::prelude::*;

verus! {

/// A character-offset range `[start, end)` within an utterance, counted in
/// Unicode scalar values, never in bytes.
#[derive(Clone, Copy, Debug, PartialEq, Eq, Structural)]
pub struct CharRange {
    pub start: usize,
    pub end: usize,
}

/// The value of a fully resolved slot.
///
/// The two builtin variants come out of the builtin entity recognizers and
/// are carried through this layer untouched: nothing here ever reads
/// inside them.
#[derive(Debug, PartialEq, Eq)]
pub enum SlotValue {
    /// A numeric value, carried as the IEEE-754 bit pattern of the
    /// recognizer's `f64` result.
    Number { value_bits: u64 },
    /// Any other builtin typed value (a date, a duration, ...), carried as
    /// the recognizer's own kind tag and rendering of the value.
    Builtin { kind: String, value: String },
    /// The resolved string value of a custom entity.
    Custom(String),
}

impl Clone for SlotValue {
    /// Cloning keeps the value.
    fn clone(&self) -> (r: SlotValue)
        ensures
            r@ == self@,
    {
        match self {
            SlotValue::Number { value_bits } => SlotValue::Number { value_bits: *value_bits },
            SlotValue::Builtin { kind, value } => SlotValue::Builtin {
                kind: kind.clone(),
                value: value.clone(),
            },
            SlotValue::Custom(s) => SlotValue::Custom(s.clone()),
        }
    }
}

/// A fully resolved slot, the final output unit of `parse` and
/// `extract_slot`.
///
/// `range` is the matched character range. One exception: the direct
/// single-slot extraction of a builtin entity reports it absent (the
/// match's range is still used internally to compute `raw_value`).
#[derive(Clone, Debug, PartialEq)]
pub struct Slot {
    pub raw_value: String,
    pub value: SlotValue,
    pub range: Option<CharRange>,
    pub entity: String,
    pub slot_name: String,
}

/// Mathematical model of a [`SlotValue`].
pub ghost enum SpecSlotValue {
    Number { value_bits: u64 },
    Builtin { kind: Seq<char>, value: Seq<char> },
    Custom(Seq<char>),
}

/// Mathematical model of a [`Slot`].
pub ghost struct SpecSlot {
    pub raw_value: Seq<char>,
    pub value: SpecSlotValue,
    pub range: Option<CharRange>,
    pub entity: Seq<char>,
    pub slot_name: Seq<char>,
}

impl View for SlotValue {
    type V = SpecSlotValue;

    open spec fn view(&self) -> SpecSlotValue {
        match self {
            SlotValue::Number { value_bits } => SpecSlotValue::Number { value_bits: *value_bits },
            SlotValue::Builtin { kind, value } => SpecSlotValue::Builtin {
                kind: kind@,
                value: value@,
            },
            SlotValue::Custom(s) => SpecSlotValue::Custom(s@),
        }
    }
}

impl View for Slot {
    type V = SpecSlot;

    open spec fn view(&self) -> SpecSlot {
        SpecSlot {
            raw_value: self.raw_value@,
            value: self.value@,
            range: self.range,
            entity: self.entity@,
            slot_name: self.slot_name@,
        }
    }
}

/// An [`Option`] of a slot, viewed.
pub open spec fn opt_slot_view(r: Option<Slot>) -> Option<SpecSlot> {
    match r {
        Some(s) => Some(s@),
        None => None,
    }
}

/// An intent selected by a parser: its name and the parser's confidence.
/// The confidence is a selection context opaque to this layer; it is
/// carried as the bit pattern of the classifier's `f32` score and never
/// read.
#[derive(Clone, Debug, PartialEq)]
pub struct IntentClassifierResult {
    pub intent_name: String,
    pub probability_bits: u32,
}

/// The outcome of one `parse` call. `intent` and `slots` are jointly
/// either both absent ("nothing matched") or both present.
#[derive(Clone, Debug, PartialEq)]
pub struct IntentParserResult {
    pub input: String,
    pub intent: Option<IntentClassifierResult>,
    pub slots: Option<Vec<Slot>>,
}

/// A match reported by the custom entity extractor.
#[derive(Clone, Debug, PartialEq)]
pub struct CustomEntity {
    pub value: String,
    pub resolved_value: String,
    pub range: CharRange,
    pub entity_identifier: String,
}

/// A match reported by the builtin entity extractor. `entity_kind` is the
/// builtin entity identifier (for example `"snips/number"`); `entity` is
/// the extractor's typed value, opaque to this layer.
#[derive(Clone, Debug, PartialEq)]
pub struct BuiltinEntity {
    pub value: String,
    pub range: CharRange,
    pub entity: SlotValue,
    pub entity_kind: String,
}

} // verus!
