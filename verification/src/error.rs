use vstd::prelude::*;

verus! {

/// The reasons for which a pattern is rejected. Every grammar function
/// propagates the first error it meets; nothing is recovered or accumulated.
#[derive(Clone, Copy, Debug, PartialEq, Eq, Structural)]
pub enum PatternError {
    /// A quantifier with no atom before it.
    LoneQuantifier,
    /// A lookaround assertion whose `)` is missing.
    UnterminatedLookaroundAssertion,
    /// A `[` class whose `]` is missing.
    UnterminatedCharacterClass,
    /// A `(?<name>` group whose name or `)` is broken.
    UnterminatedCapturingGroupName,
    /// A `(` group whose `)` is missing.
    UnterminatedCapturingGroup,
    /// A `(?:` group whose `)` is missing.
    UnterminatedIgnoreGroup,
    /// A `{` quantifier with no digits or no closing `}`.
    UnterminatedQuantifier,
    /// A `\p{` or `\P{` escape whose `}` is missing.
    UnterminatedUnicodePropertyEscape,
    /// `{n,m}` with `m < n`.
    NumbersOutOfOrder,
    /// A class range `a-b` with `b` below `a`.
    CharacterClassRangeOutOfOrder,
    /// A class range whose end is itself a character class, in unicode mode.
    InvalidCharacterClassRange,
    /// A `\` escape that no production accepts.
    InvalidEscape,
    /// A `\` escape that no atom-escape production accepts.
    InvalidAtomEscape,
    /// A `\` escape that no class-escape production accepts.
    InvalidClassEscape,
    /// `\k` not followed by a well-formed group name.
    InvalidNamedReference,
    /// A `(?<...>` group name that cannot be read.
    InvalidCaptureGroupName,
    /// A `\u` escape that is not a legal unicode escape sequence.
    InvalidUnicodeEscape,
    /// A unicode escape naming a code point that no identifier may hold.
    InvalidUnicodeEscapeSequence,
    /// A surrogate pair naming a code point that no identifier may hold.
    InvalidSurrogatePair,
    /// A `\p{...}` property name or value that the tables do not hold.
    InvalidPropertyName,
    /// An Annex B braced quantifier standing where no atom may stand.
    InvalidBracedQuantifier,
    /// A property of strings used while unicode-sets mode is off.
    StringsPropertyOutsideUnicodeSets,
    /// A `[...]` class while unicode-sets mode is on; that grammar is not
    /// supported.
    ClassSetExpressionNotSupported,
    /// Input left over after the top-level disjunction.
    CouldNotParseEntirePattern,
}

/// The text `message` renders each error as.
pub open spec fn spec_message(e: PatternError) -> Seq<char> {
    match e {
        PatternError::LoneQuantifier => "Lone `Quantifier`, expected `Atom`"@,
        PatternError::UnterminatedLookaroundAssertion => "Unterminated lookaround assertion"@,
        PatternError::UnterminatedCharacterClass => "Unterminated character class"@,
        PatternError::UnterminatedCapturingGroupName => "Unterminated capturing group name"@,
        PatternError::UnterminatedCapturingGroup => "Unterminated capturing group"@,
        PatternError::UnterminatedIgnoreGroup => "Unterminated ignore group"@,
        PatternError::UnterminatedQuantifier => "Unterminated quantifier"@,
        PatternError::UnterminatedUnicodePropertyEscape => "Unterminated unicode property escape"@,
        PatternError::NumbersOutOfOrder => "Numbers out of order in braced quantifier"@,
        PatternError::CharacterClassRangeOutOfOrder => "Character class range out of order"@,
        PatternError::InvalidCharacterClassRange => "Invalid character class range"@,
        PatternError::InvalidEscape => "Invalid escape"@,
        PatternError::InvalidAtomEscape => "Invalid atom escape"@,
        PatternError::InvalidClassEscape => "Invalid class escape"@,
        PatternError::InvalidNamedReference => "Invalid named reference"@,
        PatternError::InvalidCaptureGroupName => "Invalid capture group name"@,
        PatternError::InvalidUnicodeEscape => "Invalid unicode escape"@,
        PatternError::InvalidUnicodeEscapeSequence => "Invalid unicode escape sequence"@,
        PatternError::InvalidSurrogatePair => "Invalid surrogate pair"@,
        PatternError::InvalidPropertyName => "Invalid property name"@,
        PatternError::InvalidBracedQuantifier => "Invalid braced quantifier"@,
        PatternError::StringsPropertyOutsideUnicodeSets => "Syntax Error"@,
        PatternError::ClassSetExpressionNotSupported => "ClassSetExpression is not supported"@,
        PatternError::CouldNotParseEntirePattern => "Could not parse the entire pattern"@,
    }
}

impl PatternError {
    /// A short description of the error, one fixed text per variant.
    pub fn message(&self) -> (r: &'static str)
        ensures
            r@ == spec_message(*self),
    {
        match self {
            PatternError::LoneQuantifier => "Lone `Quantifier`, expected `Atom`",
            PatternError::UnterminatedLookaroundAssertion => "Unterminated lookaround assertion",
            PatternError::UnterminatedCharacterClass => "Unterminated character class",
            PatternError::UnterminatedCapturingGroupName => "Unterminated capturing group name",
            PatternError::UnterminatedCapturingGroup => "Unterminated capturing group",
            PatternError::UnterminatedIgnoreGroup => "Unterminated ignore group",
            PatternError::UnterminatedQuantifier => "Unterminated quantifier",
            PatternError::UnterminatedUnicodePropertyEscape => "Unterminated unicode property escape",
            PatternError::NumbersOutOfOrder => "Numbers out of order in braced quantifier",
            PatternError::CharacterClassRangeOutOfOrder => "Character class range out of order",
            PatternError::InvalidCharacterClassRange => "Invalid character class range",
            PatternError::InvalidEscape => "Invalid escape",
            PatternError::InvalidAtomEscape => "Invalid atom escape",
            PatternError::InvalidClassEscape => "Invalid class escape",
            PatternError::InvalidNamedReference => "Invalid named reference",
            PatternError::InvalidCaptureGroupName => "Invalid capture group name",
            PatternError::InvalidUnicodeEscape => "Invalid unicode escape",
            PatternError::InvalidUnicodeEscapeSequence => "Invalid unicode escape sequence",
            PatternError::InvalidSurrogatePair => "Invalid surrogate pair",
            PatternError::InvalidPropertyName => "Invalid property name",
            PatternError::InvalidBracedQuantifier => "Invalid braced quantifier",
            PatternError::StringsPropertyOutsideUnicodeSets => "Syntax Error",
            PatternError::ClassSetExpressionNotSupported => "ClassSetExpression is not supported",
            PatternError::CouldNotParseEntirePattern => "Could not parse the entire pattern",
        }
    }
}

} // verus!
