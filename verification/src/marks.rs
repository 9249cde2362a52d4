//! The magic integers that tag scopes, the empty marker, and the per-type
//! invalid sentinels the writer turns into the empty marker.

use vstd::prelude::*;

verus! {

/// Mark of an array scope.
pub const MARK_ARRAY: i32 = 11111111;

/// Mark of a dictionary scope.
pub const MARK_DICTIONARY: i32 = 12121212;

/// One of the three marks a typed component scope may open with.
pub const MARK_SERIAL_COMPONENT: i32 = 22222222;

/// Mark of a named unknown component scope.
pub const MARK_UNKNOWN_COMPONENT: i32 = 23232323;

/// The canonical component mark the writer emits.
pub const MARK_COMPONENT_CANONICAL: i32 = 32323232;

/// One of the three marks a typed component scope may open with.
pub const MARK_BUILTIN_COMPONENT: i32 = 33333333;

/// Mark of a general scope.
pub const MARK_GENERAL: i32 = 44444444;

/// Mark of a children-list scope.
pub const MARK_CHILDREN: i32 = 55555555;

/// Mark of a game-object scope.
pub const MARK_GAME_OBJECT: i32 = 66666666;

/// Mark of a level-settings scope.
pub const MARK_LEVEL_SETTINGS: i32 = 88888888;

/// Mark of a level scope.
pub const MARK_LEVEL: i32 = 99999999;

/// The inline empty marker: an absent optional value.
pub const EMPTY_MARK: i32 = 0x7FFF_FFFD;

/// The empty marker as the u32 bit pattern it occupies on the wire.
pub const EMPTY_MARK_BITS: u32 = 0x7FFF_FFFD;

/// The invalid sentinel for `i32` fields.
pub const INVALID_INT: i32 = -127;

/// The invalid sentinel for `i64` fields.
pub const INVALID_INT_64: i64 = -127;

/// The invalid sentinel for `u32` fields: the bit pattern of `-127`.
pub const INVALID_U32: u32 = 0xFFFF_FF81;

/// A mark opens a typed component scope.
pub open spec fn is_typed_component_mark(mark: i32) -> bool {
    mark == MARK_SERIAL_COMPONENT || mark == MARK_BUILTIN_COMPONENT || mark
        == MARK_COMPONENT_CANONICAL
}

/// The name a scope mark goes by in diagnostics.
pub open spec fn spec_scope_mark_name(mark: i32) -> Seq<char> {
    if mark == MARK_ARRAY {
        "Array"@
    } else if mark == MARK_DICTIONARY {
        "Dictionary"@
    } else if mark == MARK_SERIAL_COMPONENT {
        "SerialComponent"@
    } else if mark == MARK_UNKNOWN_COMPONENT {
        "UnknownComponent"@
    } else if mark == MARK_BUILTIN_COMPONENT {
        "BuiltInComponent"@
    } else if mark == MARK_GENERAL {
        "General"@
    } else if mark == MARK_CHILDREN {
        "Children"@
    } else if mark == MARK_GAME_OBJECT {
        "GameObject"@
    } else if mark == MARK_LEVEL_SETTINGS {
        "LevelSettings"@
    } else if mark == MARK_LEVEL {
        "Level"@
    } else if mark == EMPTY_MARK {
        "Empty"@
    } else {
        "INVALID"@
    }
}

/// Name a scope mark for diagnostics.
pub fn scope_mark_string(mark: i32) -> (r: &'static str)
    ensures
        r@ == spec_scope_mark_name(mark),
{
    if mark == MARK_ARRAY {
        "Array"
    } else if mark == MARK_DICTIONARY {
        "Dictionary"
    } else if mark == MARK_SERIAL_COMPONENT {
        "SerialComponent"
    } else if mark == MARK_UNKNOWN_COMPONENT {
        "UnknownComponent"
    } else if mark == MARK_BUILTIN_COMPONENT {
        "BuiltInComponent"
    } else if mark == MARK_GENERAL {
        "General"
    } else if mark == MARK_CHILDREN {
        "Children"
    } else if mark == MARK_GAME_OBJECT {
        "GameObject"
    } else if mark == MARK_LEVEL_SETTINGS {
        "LevelSettings"
    } else if mark == MARK_LEVEL {
        "Level"
    } else if mark == EMPTY_MARK {
        "Empty"
    } else {
        "INVALID"
    }
}

} // verus!
