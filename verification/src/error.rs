//! Fatal error categories of the codec, and the recoverable warnings the
//! reader records while tolerating structural drift.

use vstd::prelude::*;

verus! {

/// A fatal condition met while decoding. Structural drift (wrong marks,
/// scope under/overstep, unknown component kinds) is never fatal; it is
/// recorded as a [`Warning`] instead.
#[derive(Debug, Clone, Copy, PartialEq, Eq, Structural)]
pub enum DecodeError {
    /// The stream ended inside a read that is not allowed to come up short.
    UnexpectedEof,
    /// A string length prefix carried on past its fifth byte.
    LengthPrefixTooLong,
    /// A UTF-16 string whose byte length is odd.
    OddStringLength,
    /// String payload that is not valid UTF-16 (an unpaired surrogate).
    InvalidUtf16,
    /// A scope declared a negative length.
    NegativeScopeLength,
    /// A scope end offset that does not fit in the address space.
    ScopeEndOverflow,
    /// A negative element count where a size was required.
    NegativeCount,
    /// A wire integer that is not a value of the enum field it feeds.
    UnknownEnumValue,
    /// A dictionary entry whose required key was the empty marker.
    MissingDictionaryKey,
    /// Game objects nested deeper than one scope header per level allows.
    NestingTooDeep,
}

/// A fatal condition met while encoding.
#[derive(Debug, Clone, Copy, PartialEq, Eq, Structural)]
pub enum EncodeError {
    /// A collection with more elements than an `i32` count can carry.
    CountTooLarge,
    /// A string whose UTF-16 byte length does not fit the length prefix.
    StringTooLong,
    /// A component whose kind slot disagrees with its payload variant.
    MismatchedComponentKind,
}

/// What a recoverable irregularity was.
#[derive(Debug, Clone, Copy, PartialEq, Eq, Structural)]
pub enum WarningKind {
    /// An expected-mark scope opened with a different mark.
    UnexpectedMark,
    /// A scope was left with bytes of it still unread.
    ScopeUnderstep,
    /// A scope was left after reading past its end.
    ScopeOverstep,
    /// A component header carried an id outside the known set.
    UnknownComponentId,
    /// A component scope opened with a mark that is no component mark.
    InvalidComponentMark,
    /// A named unknown component, which is skipped whole.
    NamedUnknownComponent,
    /// An array field did not open with the array mark.
    MissingArrayMark,
    /// A dictionary field did not open with the dictionary mark.
    MissingDictionaryMark,
}

/// A recoverable irregularity, kept with the position it was seen at and
/// the marks of the scopes that were open at the time (innermost last).
#[derive(Debug, Clone, PartialEq, Eq)]
pub struct Warning {
    pub kind: WarningKind,
    /// The mark or id that was expected, where the kind has one.
    pub expected: i32,
    /// The mark or id that was found, where the kind has one.
    pub found: i32,
    /// Stream offset at which the irregularity was noticed.
    pub pos: usize,
    /// Marks of the scopes open at the time, outermost first.
    pub scope_stack: Vec<i32>,
}

} // verus!
