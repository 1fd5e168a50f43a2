//! The registry of builtin entity kinds: the identifiers that resolve to a
//! system-provided typed recognizer rather than to a custom entity.

use vstd::prelude::*;
use crate::text::str_eq;

verus! {

/// Whether `name` is the identifier of a known builtin entity kind.
pub open spec fn is_builtin_identifier(name: Seq<char>) -> bool {
    ||| name == "snips/amountOfMoney"@
    ||| name == "snips/duration"@
    ||| name == "snips/number"@
    ||| name == "snips/ordinal"@
    ||| name == "snips/temperature"@
    ||| name == "snips/datetime"@
    ||| name == "snips/percentage"@
    ||| name == "snips/musicAlbum"@
    ||| name == "snips/musicArtist"@
    ||| name == "snips/musicTrack"@
}

/// Whether `name` resolves to a known builtin entity kind.
pub fn builtin_entity_kind_exists(name: &str) -> (r: bool)
    ensures
        r == is_builtin_identifier(name@),
{
    str_eq(name, "snips/amountOfMoney") || str_eq(name, "snips/duration") || str_eq(
        name,
        "snips/number",
    ) || str_eq(name, "snips/ordinal") || str_eq(name, "snips/temperature") || str_eq(
        name,
        "snips/datetime",
    ) || str_eq(name, "snips/percentage") || str_eq(name, "snips/musicAlbum") || str_eq(
        name,
        "snips/musicArtist",
    ) || str_eq(name, "snips/musicTrack")
}

} // verus!
