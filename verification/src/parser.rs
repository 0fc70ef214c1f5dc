#![verifier::loop_isolation(false)]
use vstd::prelude::*;
use vstd::string::StringExecFns;
use crate::ast::{
    Alternative, BoundaryAssertion, BoundaryAssertionKind, CapturingGroup, Character,
    CharacterClass, CharacterClassContents, CharacterClassContentsKind, CharacterClassEscape,
    CharacterClassEscapeKind, CharacterClassRange, CharacterKind, Disjunction, Dot, IgnoreGroup,
    IndexedReference, LookAroundAssertion, LookAroundAssertionKind, NamedReference, Pattern,
    Quantifier, Term, UnicodePropertyEscape, alternative_wf, alternatives_wf, class_contents_wf,
    class_contents_list_wf, class_contents_span, disjunction_wf, lemma_alternatives_wf_push,
    lemma_alternatives_wf_widen, lemma_terms_wf_push, lemma_terms_wf_widen, pattern_wf,
    span_within, term_span, term_wf, terms_wf,
};
use crate::error::PatternError;
use crate::options::ParserOptions;
use crate::reader::{Checkpoint, Reader, lemma_pos16_bounds, pos16, unit_width, units_of};
use crate::span::{Span, SpanFactory};
use crate::text::decode_units;
use crate::unicode;
use crate::unicode_property;

verus! {

/// The two grammar-parameter flags threaded through every grammar function;
/// they choose between the Annex B grammar and the unicode-mode grammars.
#[derive(Clone, Copy, Debug, PartialEq, Eq, Structural)]
pub struct State {
    pub unicode_mode: bool,
    pub unicode_sets_mode: bool,
}

impl State {
    pub fn new(unicode_mode: bool, unicode_sets_mode: bool) -> (r: State)
        ensures
            r.unicode_mode == unicode_mode,
            r.unicode_sets_mode == unicode_sets_mode,
    {
        State { unicode_mode, unicode_sets_mode }
    }
}

/// The index just past the run of decimal digits that starts at `p`.
pub open spec fn digits_end(u: Seq<u32>, p: int) -> int
    decreases u.len() - p,
    when 0 <= p <= u.len()
{
    if p < u.len() && unicode::spec_is_decimal_digit(u[p]) {
        digits_end(u, p + 1)
    } else {
        p
    }
}

/// The numeric value of the decimal digits `u[p..e]`.
pub open spec fn dec_value(u: Seq<u32>, p: int, e: int) -> int
    decreases e - p,
{
    if e <= p {
        0
    } else {
        dec_value(u, p, e - 1) * 10 + (u[e - 1] - 0x30)
    }
}

/// The value of a hexadecimal digit; zero where there is none.
pub open spec fn hex_digit_val(cp: u32) -> int {
    if 0x30 <= cp <= 0x39 {
        cp - 0x30
    } else if 0x61 <= cp <= 0x66 {
        cp - 0x61 + 10
    } else if 0x41 <= cp <= 0x46 {
        cp - 0x41 + 10
    } else {
        0
    }
}

/// True of a hexadecimal digit.
pub open spec fn is_hex_digit(cp: u32) -> bool {
    (0x30 <= cp <= 0x39) || (0x61 <= cp <= 0x66) || (0x41 <= cp <= 0x46)
}

/// The index just past the run of hexadecimal digits that starts at `p`.
pub open spec fn hexes_end(u: Seq<u32>, p: int) -> int
    decreases u.len() - p,
    when 0 <= p <= u.len()
{
    if p < u.len() && is_hex_digit(u[p]) {
        hexes_end(u, p + 1)
    } else {
        p
    }
}

/// The numeric value of the hexadecimal digits `u[p..e]`.
pub open spec fn hex_value(u: Seq<u32>, p: int, e: int) -> int
    decreases e - p,
{
    if e <= p {
        0
    } else {
        hex_value(u, p, e - 1) * 16 + hex_digit_val(u[e - 1])
    }
}

/// True when `n` hexadecimal digits stand at `p`.
pub open spec fn fixed_hex_at(u: Seq<u32>, p: int, n: int) -> bool {
    p + n <= u.len() && 0 <= p && (forall|i: int| p <= i < p + n ==> is_hex_digit(#[trigger] u[i]))
}

/// Digit accumulation saturates at the largest 32-bit value instead of
/// wrapping.
pub open spec fn sat_u32(v: int) -> u32 {
    if v > 0xFFFFFFFF {
        0xFFFFFFFFu32
    } else {
        v as u32
    }
}

/// 16 to the power `n`.
pub open spec fn pow16(n: int) -> int
    decreases n,
{
    if n <= 0 {
        1
    } else {
        16 * pow16(n - 1)
    }
}

/// Facts about a digit run: where it ends, and that it is made of digits.
pub proof fn lemma_digits_end(u: Seq<u32>, p: int)
    requires
        0 <= p <= u.len(),
    ensures
        p <= digits_end(u, p) <= u.len(),
        forall|i: int|
            p <= i < digits_end(u, p) ==> unicode::spec_is_decimal_digit(#[trigger] u[i]),
        digits_end(u, p) == u.len() || !unicode::spec_is_decimal_digit(u[digits_end(u, p)]),
    decreases u.len() - p,
{
    if p < u.len() && unicode::spec_is_decimal_digit(u[p]) {
        lemma_digits_end(u, p + 1);
    }
}

/// The value of a digit run is not negative.
pub proof fn lemma_dec_value_nonneg(u: Seq<u32>, p: int, e: int)
    requires
        forall|i: int| p <= i < e ==> unicode::spec_is_decimal_digit(#[trigger] u[i]),
    ensures
        dec_value(u, p, e) >= 0,
    decreases e - p,
{
    if e > p {
        lemma_dec_value_nonneg(u, p, e - 1);
    }
}

/// Facts about a hexadecimal run.
pub proof fn lemma_hexes_end(u: Seq<u32>, p: int)
    requires
        0 <= p <= u.len(),
    ensures
        p <= hexes_end(u, p) <= u.len(),
        forall|i: int| p <= i < hexes_end(u, p) ==> is_hex_digit(#[trigger] u[i]),
        hexes_end(u, p) == u.len() || !is_hex_digit(u[hexes_end(u, p)]),
    decreases u.len() - p,
{
    if p < u.len() && is_hex_digit(u[p]) {
        lemma_hexes_end(u, p + 1);
    }
}

/// The value of a hexadecimal run is not negative.
pub proof fn lemma_hex_value_nonneg(u: Seq<u32>, p: int, e: int)
    ensures
        hex_value(u, p, e) >= 0,
    decreases e - p,
{
    if e > p {
        lemma_hex_value_nonneg(u, p, e - 1);
    }
}

/// The value of `n` hexadecimal digits stays below 16 to the `n`.
pub proof fn lemma_hex_value_bound(u: Seq<u32>, p: int, e: int)
    ensures
        hex_value(u, p, e) < pow16(e - p),
    decreases e - p,
{
    if e > p {
        lemma_hex_value_bound(u, p, e - 1);
        assert(hex_digit_val(u[e - 1]) <= 15);
    } else {
        assert(pow16(e - p) >= 1) by {
            lemma_pow16_pos(e - p);
        }
    }
}

pub proof fn lemma_pow16_pos(n: int)
    ensures
        pow16(n) >= 1,
    decreases n,
{
    if n > 0 {
        lemma_pow16_pos(n - 1);
    }
}

/// Powers of 16 grow with the exponent.
pub proof fn lemma_pow16_mono(a: int, b: int)
    requires
        a <= b,
    ensures
        pow16(a) <= pow16(b),
    decreases b - a,
{
    if a < b {
        lemma_pow16_mono(a, b - 1);
        lemma_pow16_pos(b - 1);
    }
}

/// The three-tier legacy octal escape: its value and the index just past
/// it, or nothing where no octal digit stands.
pub open spec fn spec_legacy_octal(u: Seq<u32>, p: int) -> Option<(int, int)> {
    if !(0 <= p && p < u.len() && unicode::spec_is_octal_digit(u[p])) {
        None
    } else {
        let d1 = u[p] - 0x30;
        if d1 == 0 && p + 1 < u.len() && (u[p + 1] == 0x38 || u[p + 1] == 0x39) {
            Some((0int, p + 1))
        } else if p + 1 < u.len() && unicode::spec_is_octal_digit(u[p + 1]) {
            let d2 = u[p + 1] - 0x30;
            if d1 <= 3 && p + 2 < u.len() && unicode::spec_is_octal_digit(u[p + 2]) {
                Some((d1 * 64 + d2 * 8 + (u[p + 2] - 0x30), p + 3))
            } else {
                Some((d1 * 8 + d2, p + 2))
            }
        } else {
            Some((d1, p + 1))
        }
    }
}

/// The characters that end an Annex B `ExtendedPatternCharacter`.
pub open spec fn spec_is_extended_pattern_excluded(cp: u32) -> bool {
    ||| cp == '^' as u32
    ||| cp == '$' as u32
    ||| cp == '\\' as u32
    ||| cp == '.' as u32
    ||| cp == '*' as u32
    ||| cp == '+' as u32
    ||| cp == '?' as u32
    ||| cp == '(' as u32
    ||| cp == ')' as u32
    ||| cp == '[' as u32
    ||| cp == '|' as u32
}

/// Four hex digits encoding a lead surrogate, then `\u`, then four hex
/// digits encoding a trail surrogate, starting at `s`.
pub open spec fn spec_surrogate_pair_at(u: Seq<u32>, s: int) -> bool {
    &&& fixed_hex_at(u, s, 4)
    &&& 0xD800 <= hex_value(u, s, s + 4) <= 0xDBFF
    &&& s + 6 <= u.len()
    &&& u[s + 4] == '\\' as u32
    &&& u[s + 5] == 'u' as u32
    &&& fixed_hex_at(u, s + 6, 4)
    &&& 0xDC00 <= hex_value(u, s + 6, s + 10) <= 0xDFFF
}

/// The code point a surrogate-pair escape at `s` stands for.
pub open spec fn spec_surrogate_pair_escape_value(u: Seq<u32>, s: int) -> int {
    (hex_value(u, s, s + 4) - 0xD800) * 0x400 + (hex_value(u, s + 6, s + 10) - 0xDC00) + 0x10000
}

/// `{` then hex digits naming a code point then `}`, starting at `s`.
pub open spec fn spec_braced_code_point_at(u: Seq<u32>, s: int) -> bool {
    &&& 0 <= s < u.len()
    &&& u[s] == '{' as u32
    &&& s + 1 < u.len()
    &&& is_hex_digit(u[s + 1])
    &&& hexes_end(u, s + 1) < u.len()
    &&& u[hexes_end(u, s + 1)] == '}' as u32
    &&& sat_u32(hex_value(u, s + 1, hexes_end(u, s + 1))) <= 0x10FFFF
}

/// The index just past the run of property-name characters at `p`.
pub open spec fn prop_name_end(u: Seq<u32>, p: int) -> int
    decreases u.len() - p,
    when 0 <= p <= u.len()
{
    if p < u.len() && unicode::spec_is_unicode_property_name_character(u[p]) {
        prop_name_end(u, p + 1)
    } else {
        p
    }
}

/// Facts about a property-name run.
pub proof fn lemma_prop_name_end(u: Seq<u32>, p: int)
    requires
        0 <= p <= u.len(),
    ensures
        p <= prop_name_end(u, p) <= u.len(),
    decreases u.len() - p,
{
    if p < u.len() && unicode::spec_is_unicode_property_name_character(u[p]) {
        lemma_prop_name_end(u, p + 1);
    }
}

/// The index just past the run of property-value characters at `p`.
pub open spec fn prop_value_end(u: Seq<u32>, p: int) -> int
    decreases u.len() - p,
    when 0 <= p <= u.len()
{
    if p < u.len() && unicode::spec_is_unicode_property_value_character(u[p]) {
        prop_value_end(u, p + 1)
    } else {
        p
    }
}

/// Facts about a property-value run.
pub proof fn lemma_prop_value_end(u: Seq<u32>, p: int)
    requires
        0 <= p <= u.len(),
    ensures
        p <= prop_value_end(u, p) <= u.len(),
    decreases u.len() - p,
{
    if p < u.len() && unicode::spec_is_unicode_property_value_character(u[p]) {
        lemma_prop_value_end(u, p + 1);
    }
}

/// The braced quantifier at `s` (just past the `{`): its bounds, both
/// saturating at the largest 32-bit value, and the index just past the `}`;
/// or the error it raises.
pub open spec fn spec_braced_quantifier(u: Seq<u32>, s: int) -> Result<
    (int, Option<int>, int),
    PatternError,
> {
    if 0 <= s && s < u.len() && unicode::spec_is_decimal_digit(u[s]) {
        let de1 = digits_end(u, s);
        let mn = sat_u32(dec_value(u, s, de1)) as int;
        if de1 < u.len() && u[de1] == '}' as u32 {
            Ok((mn, Some(mn), de1 + 1))
        } else if de1 < u.len() && u[de1] == ',' as u32 {
            if de1 + 1 < u.len() && u[de1 + 1] == '}' as u32 {
                Ok((mn, None::<int>, de1 + 2))
            } else if de1 + 1 < u.len() && unicode::spec_is_decimal_digit(u[de1 + 1]) {
                let de2 = digits_end(u, de1 + 1);
                let mx = sat_u32(dec_value(u, de1 + 1, de2)) as int;
                if de2 < u.len() && u[de2] == '}' as u32 {
                    if mx < mn {
                        Err(PatternError::NumbersOutOfOrder)
                    } else {
                        Ok((mn, Some(mx), de2 + 1))
                    }
                } else {
                    Err(PatternError::UnterminatedQuantifier)
                }
            } else {
                Err(PatternError::UnterminatedQuantifier)
            }
        } else {
            Err(PatternError::UnterminatedQuantifier)
        }
    } else {
        Err(PatternError::UnterminatedQuantifier)
    }
}

/// The class-escape kind a letter stands for.
pub open spec fn spec_class_escape_kind(cp: u32) -> CharacterClassEscapeKind {
    if cp == 'd' as u32 {
        CharacterClassEscapeKind::D
    } else if cp == 'D' as u32 {
        CharacterClassEscapeKind::NegativeD
    } else if cp == 's' as u32 {
        CharacterClassEscapeKind::S
    } else if cp == 'S' as u32 {
        CharacterClassEscapeKind::NegativeS
    } else if cp == 'w' as u32 {
        CharacterClassEscapeKind::W
    } else {
        CharacterClassEscapeKind::NegativeW
    }
}

/// True of the six class-escape letters.
pub open spec fn spec_is_class_escape_letter(cp: u32) -> bool {
    ||| cp == 'd' as u32
    ||| cp == 'D' as u32
    ||| cp == 's' as u32
    ||| cp == 'S' as u32
    ||| cp == 'w' as u32
    ||| cp == 'W' as u32
}

/// The boundary assertion written at `p`, if any.
pub open spec fn spec_boundary_assertion_kind_at(u: Seq<u32>, p: int) -> Option<
    BoundaryAssertionKind,
> {
    if 0 <= p < u.len() && u[p] == '^' as u32 {
        Some(BoundaryAssertionKind::Start)
    } else if 0 <= p < u.len() && u[p] == '$' as u32 {
        Some(BoundaryAssertionKind::End)
    } else if 0 <= p && p + 2 <= u.len() && u[p] == '\\' as u32 && u[p + 1] == 'b' as u32 {
        Some(BoundaryAssertionKind::Boundary)
    } else if 0 <= p && p + 2 <= u.len() && u[p] == '\\' as u32 && u[p + 1] == 'B' as u32 {
        Some(BoundaryAssertionKind::NegativeBoundary)
    } else {
        None
    }
}

/// The lookaround assertion opened at `p`, if any.
pub open spec fn spec_lookaround_kind_at(u: Seq<u32>, p: int) -> Option<LookAroundAssertionKind> {
    if 0 <= p && p + 3 <= u.len() && u[p] == '(' as u32 && u[p + 1] == '?' as u32 && u[p + 2]
        == '=' as u32 {
        Some(LookAroundAssertionKind::Lookahead)
    } else if 0 <= p && p + 3 <= u.len() && u[p] == '(' as u32 && u[p + 1] == '?' as u32 && u[p
        + 2] == '!' as u32 {
        Some(LookAroundAssertionKind::NegativeLookahead)
    } else if 0 <= p && p + 4 <= u.len() && u[p] == '(' as u32 && u[p + 1] == '?' as u32 && u[p
        + 2] == '<' as u32 && u[p + 3] == '=' as u32 {
        Some(LookAroundAssertionKind::Lookbehind)
    } else if 0 <= p && p + 4 <= u.len() && u[p] == '(' as u32 && u[p + 1] == '?' as u32 && u[p
        + 2] == '<' as u32 && u[p + 3] == '!' as u32 {
        Some(LookAroundAssertionKind::NegativeLookbehind)
    } else {
        None
    }
}

/// True when no syntax character stands in `u[p..e]`: such a stretch is a
/// plain concatenation of pattern characters.
pub open spec fn spec_plain_run(u: Seq<u32>, p: int, e: int) -> bool {
    0 <= p <= e <= u.len() && (forall|i: int|
        p <= i < e ==> !unicode::spec_is_syntax_character(#[trigger] u[i]))
}

/// True where no term can start: at the end of the pattern, before the
/// separators `|` and `)`, and in unicode mode also before a stray `]` or
/// `}`, which the Annex B grammar instead reads as literal characters.
pub open spec fn spec_term_blocked(u: Seq<u32>, p: int, unicode_mode: bool) -> bool {
    ||| p >= u.len()
    ||| u[p] == ')' as u32
    ||| u[p] == '|' as u32
    ||| (unicode_mode && (u[p] == ']' as u32 || u[p] == '}' as u32))
}

/// True of a unit that stands for itself inside a character class: not a
/// backslash, not the closing bracket, not a dash.
pub open spec fn spec_plain_class_char(u: Seq<u32>, p: int) -> bool {
    0 <= p < u.len() && u[p] != '\\' as u32 && u[p] != ']' as u32 && u[p] != '-' as u32
}

/// True when every unit of `u[a..b)` stands for itself inside a character
/// class: no escape, no closing bracket, no range can form there.
pub open spec fn spec_plain_class_run(u: Seq<u32>, a: int, b: int) -> bool {
    0 <= a <= b <= u.len() && (forall|i: int| a <= i < b ==> spec_plain_class_char(u, i))
}

/// The terms are exactly the plain characters of the source from `s` on:
/// term `j` is a `Symbol` character holding `u[s + j]`.
pub open spec fn spec_terms_plain_chars(ts: Seq<Term>, u: Seq<u32>, s: int) -> bool {
    forall|j: int|
        0 <= j < ts.len() ==> ((#[trigger] ts[j]) matches Term::Character(c) && c.kind
            == CharacterKind::Symbol && c.value == u[s + j])
}

/// The alternative holds exactly the plain characters `u[s..e)`, one
/// `Symbol` character term per unit.
pub open spec fn spec_alt_plain_chars(a: Alternative, u: Seq<u32>, s: int, e: int) -> bool {
    &&& a.body@.len() == e - s
    &&& spec_terms_plain_chars(a.body@, u, s)
}

/// The four units of the canonical empty group `(?:)`, which an empty
/// pattern is read as.
pub open spec fn spec_canonical_empty_group(u: Seq<u32>) -> bool {
    &&& u.len() == 4
    &&& u[0] == '(' as u32
    &&& u[1] == '?' as u32
    &&& u[2] == ':' as u32
    &&& u[3] == ')' as u32
}

/// For a pattern that is exactly one backslash escape denoting one
/// character, the kind and code point of that character; nothing otherwise.
pub open spec fn spec_whole_escape_char(u: Seq<u32>, m: bool) -> Option<(CharacterKind, int)> {
    if u.len() >= 2 && u[0] == '\\' as u32 {
        if u.len() == 2 && spec_map_control_escape_some(u[1]) {
            Some((CharacterKind::SingleEscape, spec_map_control_escape_val(u[1])))
        } else if u.len() == 3 && u[1] == 'c' as u32 && spec_map_c_letter_some(u[2]) {
            Some((CharacterKind::ControlLetter, spec_map_c_letter_val(u[2])))
        } else if u.len() == 2 && u[1] == '0' as u32 {
            Some((CharacterKind::Null, 0int))
        } else if u.len() == 4 && u[1] == 'x' as u32 && fixed_hex_at(u, 2, 2) {
            Some((CharacterKind::HexadecimalEscape, hex_value(u, 2, 4)))
        } else if m && u.len() == 12 && u[1] == 'u' as u32 && spec_surrogate_pair_at(u, 2) {
            Some((CharacterKind::UnicodeEscape, spec_surrogate_pair_escape_value(u, 2)))
        } else if u.len() == 6 && u[1] == 'u' as u32 && !(m && spec_surrogate_pair_at(u, 2))
            && fixed_hex_at(u, 2, 4) {
            Some((CharacterKind::UnicodeEscape, hex_value(u, 2, 6)))
        } else {
            None
        }
    } else {
        None
    }
}

/// True when the unit is one of the five control-escape letters.
pub open spec fn spec_map_control_escape_some(cp: u32) -> bool {
    unicode::spec_map_control_escape(cp) is Some
}

/// The control character a control-escape letter stands for.
pub open spec fn spec_map_control_escape_val(cp: u32) -> int {
    match unicode::spec_map_control_escape(cp) {
        Some(v) => v as int,
        None => 0,
    }
}

/// True when the unit is an ASCII letter after `\c`.
pub open spec fn spec_map_c_letter_some(cp: u32) -> bool {
    unicode::spec_map_c_ascii_letter(cp) is Some
}

/// The control character an ASCII letter after `\c` stands for.
pub open spec fn spec_map_c_letter_val(cp: u32) -> int {
    match unicode::spec_map_c_ascii_letter(cp) {
        Some(v) => v as int,
        None => 0,
    }
}

/// True when the whole pattern is one backslash escape for one character.
pub open spec fn spec_whole_escape_is(u: Seq<u32>, m: bool) -> bool {
    spec_whole_escape_char(u, m) is Some
}

/// The kind of the character such a pattern stands for.
pub open spec fn spec_whole_escape_kind(u: Seq<u32>, m: bool) -> CharacterKind {
    match spec_whole_escape_char(u, m) {
        Some(kv) => kv.0,
        None => CharacterKind::Symbol,
    }
}

/// The code point such a pattern stands for.
pub open spec fn spec_whole_escape_value(u: Seq<u32>, m: bool) -> int {
    match spec_whole_escape_char(u, m) {
        Some(kv) => kv.1,
        None => 0,
    }
}

/// True when, from `p` on, every unit is a plain pattern character or the
/// alternative separator `|`.
pub open spec fn spec_plain_or_bar(u: Seq<u32>, p: int) -> bool {
    forall|i: int|
        p <= i < u.len() ==> (!unicode::spec_is_syntax_character(#[trigger] u[i]) || u[i] == '|'
            as u32)
}

/// How many `|` units stand from `p` on.
pub open spec fn spec_bar_count(u: Seq<u32>, p: int) -> int
    decreases u.len() - p,
    when 0 <= p <= u.len()
{
    if p >= u.len() {
        0
    } else if u[p] == '|' as u32 {
        1 + spec_bar_count(u, p + 1)
    } else {
        spec_bar_count(u, p + 1)
    }
}

/// The index of the first `|` at or after `p`, or the end.
pub open spec fn spec_bar_free_end(u: Seq<u32>, p: int) -> int
    decreases u.len() - p,
    when 0 <= p <= u.len()
{
    if p < u.len() && u[p] != '|' as u32 {
        spec_bar_free_end(u, p + 1)
    } else {
        p
    }
}

/// Facts about the first separator: everything before it is no separator,
/// and it is a separator or the end.
pub proof fn lemma_bar_free_end(u: Seq<u32>, p: int)
    requires
        0 <= p <= u.len(),
    ensures
        p <= spec_bar_free_end(u, p) <= u.len(),
        forall|i: int| p <= i < spec_bar_free_end(u, p) ==> #[trigger] u[i] != '|' as u32,
        spec_bar_free_end(u, p) == u.len() || u[spec_bar_free_end(u, p)] == '|' as u32,
    decreases u.len() - p,
{
    if p < u.len() && u[p] != '|' as u32 {
        lemma_bar_free_end(u, p + 1);
    }
}

/// A separator-free stretch leaves the separator count unchanged.
pub proof fn lemma_bar_count_skip(u: Seq<u32>, a: int, b: int)
    requires
        0 <= a <= b <= u.len(),
        forall|i: int| a <= i < b ==> #[trigger] u[i] != '|' as u32,
    ensures
        spec_bar_count(u, a) == spec_bar_count(u, b),
    decreases b - a,
{
    if a < b {
        lemma_bar_count_skip(u, a + 1, b);
    }
}

/// The start of the bar-separated segment numbered `i` at or after `p`:
/// segment 0 starts at `p`, each later one just past the previous `|`.
pub open spec fn spec_seg_start(u: Seq<u32>, p: int, i: int) -> int
    decreases i,
    when i >= 0
{
    if i <= 0 {
        p
    } else {
        spec_bar_free_end(u, spec_seg_start(u, p, i - 1)) + 1
    }
}

/// The index just past the run of identifier-part characters at `p`.
pub open spec fn id_part_end(u: Seq<u32>, p: int) -> int
    decreases u.len() - p,
    when 0 <= p <= u.len()
{
    if p < u.len() && unicode::spec_is_identifier_part_char(u[p]) {
        id_part_end(u, p + 1)
    } else {
        p
    }
}

/// Facts about an identifier-part run: where it ends, that it is made of
/// identifier-part characters, and that the end is no such character.
pub proof fn lemma_id_part_end(u: Seq<u32>, p: int)
    requires
        0 <= p <= u.len(),
    ensures
        p <= id_part_end(u, p) <= u.len(),
        forall|i: int|
            p <= i < id_part_end(u, p) ==> unicode::spec_is_identifier_part_char(#[trigger] u[i]),
        id_part_end(u, p) == u.len() || !unicode::spec_is_identifier_part_char(
            u[id_part_end(u, p)],
        ),
    decreases u.len() - p,
{
    if p < u.len() && unicode::spec_is_identifier_part_char(u[p]) {
        lemma_id_part_end(u, p + 1);
    }
}

/// The property expression at `p`, as `\p{` and `\P{` read it: the name,
/// the value, the strings flag and the index just past the expression, or
/// the error it raises; `None` where no expression stands at `p`.
pub open spec fn spec_property_expression(u: Seq<u32>, p: int, unicode_sets_mode: bool) -> Result<
    Option<(Seq<char>, Option<Seq<char>>, bool, int)>,
    PatternError,
> {
    let ne = prop_name_end(u, p);
    let ve = prop_value_end(u, p);
    if 0 <= p && p < ne && ne < u.len() && u[ne] == '=' as u32 && ne + 1 < prop_value_end(
        u,
        ne + 1,
    ) {
        let ve2 = prop_value_end(u, ne + 1);
        let nm = decode_units(u.subrange(p, ne));
        let vl = decode_units(u.subrange(ne + 1, ve2));
        if unicode_property::spec_is_valid_unicode_property(nm, vl) {
            Ok(Some((nm, Some(vl), false, ve2)))
        } else {
            Err(PatternError::InvalidPropertyName)
        }
    } else if 0 <= p && p < ve {
        let lone = decode_units(u.subrange(p, ve));
        if unicode_property::spec_is_valid_unicode_property("General_Category"@, lone) {
            Ok(Some(("General_Category"@, Some(lone), false, ve)))
        } else if unicode_property::spec_is_valid_lone_unicode_property(lone) {
            Ok(Some((lone, None, false, ve)))
        } else if unicode_property::spec_is_valid_lone_unicode_property_of_strings(lone) {
            if !unicode_sets_mode {
                Err(PatternError::StringsPropertyOutsideUnicodeSets)
            } else {
                Ok(Some((lone, None, true, ve)))
            }
        } else {
            Err(PatternError::InvalidPropertyName)
        }
    } else {
        Ok(None)
    }
}

/// How many units the opener of a lookaround assertion takes.
pub open spec fn spec_lookaround_prefix_len(k: LookAroundAssertionKind) -> int {
    match k {
        LookAroundAssertionKind::Lookahead => 3,
        LookAroundAssertionKind::NegativeLookahead => 3,
        LookAroundAssertionKind::Lookbehind => 4,
        LookAroundAssertionKind::NegativeLookbehind => 4,
    }
}

/// The error owed where the pattern at `p` opens a lookaround, group or
/// class over plain contents whose closing delimiter never comes, or
/// nothing where no such opener stands at `p`.
pub open spec fn spec_unterminated_opener(u: Seq<u32>, p: int, unicode_sets_mode: bool) -> Option<
    PatternError,
> {
    match spec_lookaround_kind_at(u, p) {
        Some(k) => if spec_plain_run(u, p + spec_lookaround_prefix_len(k), u.len() as int) {
            Some(PatternError::UnterminatedLookaroundAssertion)
        } else {
            None
        },
        None => if p + 3 <= u.len() && u[p] == '(' as u32 && u[p + 1] == '?' as u32 && u[p + 2]
            == ':' as u32 && spec_plain_run(u, p + 3, u.len() as int) {
            Some(PatternError::UnterminatedIgnoreGroup)
        } else if p < u.len() && u[p] == '(' as u32 && spec_plain_run(u, p + 1, u.len() as int) {
            Some(PatternError::UnterminatedCapturingGroup)
        } else if !unicode_sets_mode && p < u.len() && u[p] == '[' as u32 && spec_plain_class_run(
            u,
            p + 1,
            u.len() as int,
        ) {
            Some(PatternError::UnterminatedCharacterClass)
        } else {
            None
        },
    }
}

/// The recursive-descent driver. It owns the cursor, the two mode flags, and
/// the span factory for the whole of one parse.
pub struct PatternParser {
    pub reader: Reader,
    pub span_factory: SpanFactory,
    pub state: State,
}

impl PatternParser {
    /// The reader is sound and every span position fits beside the base
    /// offset.
    pub open spec fn inv(&self) -> bool {
        &&& self.reader.inv()
        &&& self.span_factory.span_offset + pos16(
            self.reader.units@,
            self.reader.unicode_mode,
            self.reader.units@.len() as int,
        ) <= usize::MAX
    }

    /// The units being parsed.
    pub open spec fn units(&self) -> Seq<u32> {
        self.reader.units@
    }

    /// The unit index of the cursor.
    pub open spec fn pos(&self) -> int {
        self.reader.pos as int
    }

    /// The absolute span position of the cursor: base offset plus UTF-16
    /// offset.
    pub open spec fn off(&self) -> int {
        self.span_factory.span_offset + self.reader.offset16
    }

    /// Text, mode flags and base offset are the same; only the cursor moved.
    pub open spec fn same_ctx(&self, other: &Self) -> bool {
        &&& self.reader.same_text(&other.reader)
        &&& self.state == other.state
        &&& self.span_factory == other.span_factory
    }

    /// What every grammar function guarantees of the parser value it leaves
    /// behind: soundness kept, context kept, cursor moved only forward.
    pub open spec fn step(&self, post: &Self) -> bool {
        &&& post.inv()
        &&& post.same_ctx(self)
        &&& self.pos() <= post.pos() <= post.units().len()
        &&& self.reader.offset16 <= post.reader.offset16
    }

    /// The cursor stands where it stood: together with `step` this says the
    /// call left the parser as it found it.
    pub open spec fn at_same(&self, post: &Self) -> bool {
        post.pos() == self.pos() && post.reader.offset16 == self.reader.offset16
    }

    /// Build a parser for `source_text` under the given options. The `v`
    /// flag implies the effects of the `u` flag.
    pub fn new(source_text: &str, options: ParserOptions) -> (r: PatternParser)
        requires
            options.span_offset + 2 * source_text@.len() + 8 <= usize::MAX,
        ensures
            r.inv(),
            r.reader.pos == 0,
            r.reader.offset16 == 0,
            r.reader.unicode_mode == (options.unicode_flag || options.unicode_sets_flag),
            r.reader.units@ == units_of(
                source_text@,
                options.unicode_flag || options.unicode_sets_flag,
            ),
            r.state.unicode_mode == (options.unicode_flag || options.unicode_sets_flag),
            r.state.unicode_sets_mode == options.unicode_sets_flag,
            r.span_factory.span_offset == options.span_offset,
    {
        let unicode_mode = options.unicode_flag || options.unicode_sets_flag;
        let unicode_sets_mode = options.unicode_sets_flag;

        PatternParser {
            span_factory: SpanFactory::new(options.span_offset),
            reader: Reader::new(source_text, unicode_mode),
            state: State::new(unicode_mode, unicode_sets_mode),
        }
    }

    /// Parse the whole pattern. An empty pattern is read as the canonical
    /// empty group `(?:)`; input left over after the top-level disjunction
    /// is an error. On success the tree is well-formed — every node's span
    /// lies inside its parent's — and the root span covers the whole
    /// pattern, shifted by the base offset.
    pub fn parse(&mut self) -> (r: Result<Pattern, PatternError>)
        requires
            old(self).inv(),
            old(self).reader.pos == 0,
            old(self).reader.offset16 == 0,
            old(self).span_factory.span_offset + 8 <= usize::MAX,
        ensures
            (r matches Ok(pat) ==> {
                &&& pattern_wf(pat)
                &&& pat.span.start == old(self).span_factory.span_offset
                &&& (old(self).units().len() == 0 ==> pat.span.end == old(
                    self,
                ).span_factory.span_offset + 4)
                &&& (old(self).units().len() > 0 ==> pat.span.end == old(
                    self,
                ).span_factory.span_offset + pos16(
                    old(self).units(),
                    old(self).reader.unicode_mode,
                    old(self).units().len() as int,
                ))
                &&& pat.body.span == pat.span
                &&& final(self).pos() == final(self).units().len()
            }),
            ({
                let u = old(self).units();
                let m = old(self).state.unicode_mode;
                &&& (u.len() > 0 && spec_plain_run(u, 0, u.len() as int) ==> {
                    &&& r matches Ok(pat)
                    &&& pat.body.body@.len() == 1
                    &&& spec_alt_plain_chars(pat.body.body@[0], u, 0, u.len() as int)
                })
                &&& (forall|e: int|
                    (#[trigger] spec_plain_run(u, 0, e) && e < u.len() && spec_term_blocked(
                        u,
                        e,
                        m,
                    ) && u[e] != '|' as u32) ==> r == Err::<Pattern, PatternError>(
                        PatternError::CouldNotParseEntirePattern,
                    ))
                &&& (u.len() == 0 || spec_canonical_empty_group(u) ==> {
                    &&& r matches Ok(pat)
                    &&& pat.body.body@.len() == 1
                    &&& pat.body.body@[0].body@.len() == 1
                    &&& pat.body.body@[0].body@[0] matches Term::IgnoreGroup(g)
                    &&& g.body.body@.len() == 1
                    &&& g.body.body@[0].body@.len() == 0
                })
                &&& (spec_whole_escape_is(u, m) ==> {
                    &&& r matches Ok(pat)
                    &&& pat.body.body@.len() == 1
                    &&& pat.body.body@[0].body@.len() == 1
                    &&& pat.body.body@[0].body@[0] matches Term::Character(c)
                    &&& c.kind == spec_whole_escape_kind(u, m)
                    &&& c.value == spec_whole_escape_value(u, m)
                })
                &&& (spec_plain_or_bar(u, 0) ==> (r matches Ok(pat) && pat.body.body@.len()
                    == spec_bar_count(u, 0) + 1))
                &&& (u.len() > 0 && spec_plain_or_bar(u, 0) ==> (r matches Ok(pat) && (forall|
                    i: int,
                |
                    0 <= i < pat.body.body@.len() ==> spec_alt_plain_chars(
                        #[trigger] pat.body.body@[i],
                        u,
                        spec_seg_start(u, 0, i),
                        spec_bar_free_end(u, spec_seg_start(u, 0, i)),
                    ))))
                &&& (spec_unterminated_opener(u, 0, old(self).state.unicode_sets_mode)
                    matches Some(err) ==> r == Err::<Pattern, PatternError>(err))
            }),
    {
        // For `new RegExp("")` or `new RegExp()`: an empty pattern stands
        // for the canonical empty group.
        if self.reader.units.len() == 0 {
            let canonical = "(?:)";
            proof {
                reveal_strlit("(?:)");
                assert(canonical@.len() == 4);
                assert forall|i: int| 0 <= i < canonical@.len() implies (
                #[trigger] canonical@[i] as u32) < 0x10000 by {
                    vstd::utf8::char_is_scalar(canonical@[i]);
                    assert(canonical@[i] == '(' || canonical@[i] == '?' || canonical@[i] == ':'
                        || canonical@[i] == ')');
                }
            }
            let new_reader = Reader::new(canonical, self.reader.unicode_mode);
            proof {
                let cu = new_reader.units@;
                let m = new_reader.unicode_mode;
                if m {
                    assert(cu =~= Seq::new(canonical@.len(), |i: int| canonical@[i] as u32));
                } else {
                    crate::text::lemma_utf16_encode_bmp(canonical@);
                    assert(cu =~= Seq::new(canonical@.len(), |i: int| canonical@[i] as u32));
                }
                assert(cu.len() == 4);
                assert forall|j: int| 0 <= j < cu.len() implies unit_width(m, #[trigger] cu[j])
                    == 1 by {
                    assert(cu[j] == canonical@[j] as u32);
                }
                crate::reader::lemma_pos16_narrow(cu, m, cu.len() as int);
            }
            self.reader = new_reader;
        }

        let result = match self.parse_disjunction() {
            Err(e) => {
                return Err(e);
            },
            Ok(d) => d,
        };

        if let Some(_) = self.reader.peek() {
            return Err(PatternError::CouldNotParseEntirePattern);
        }

        let span = self.span_factory.create(0, self.reader.span_position());
        Ok(Pattern { span, body: result })
    }

    /// True when a decimal digit stands at the cursor.
    fn at_decimal_digit(&self) -> (r: bool)
        ensures
            r == (self.pos() < self.units().len() && unicode::spec_is_decimal_digit(
                self.units()[self.pos()],
            )),
    {
        match self.reader.peek() {
            Some(cp) => unicode::is_decimal_digit(cp),
            None => false,
        }
    }

    /// True when a hexadecimal digit stands at the cursor.
    fn at_hex_digit(&self) -> (r: bool)
        ensures
            r == (self.pos() < self.units().len() && is_hex_digit(self.units()[self.pos()])),
    {
        match self.reader.peek() {
            Some(cp) => unicode::map_hex_digit(cp).is_some(),
            None => false,
        }
    }

    /// ```text
    /// DecimalDigits[~Sep] ::
    ///   DecimalDigit
    ///   DecimalDigits[~Sep] DecimalDigit
    /// ```
    /// The value saturates at the largest 32-bit value rather than wrapping.
    fn consume_decimal_digits(&mut self) -> (r: Option<u32>)
        requires
            old(self).inv(),
        ensures
            old(self).step(final(self)),
            ({
                let u = old(self).units();
                let p = old(self).pos();
                if p < u.len() && unicode::spec_is_decimal_digit(u[p]) {
                    &&& r == Some(sat_u32(dec_value(u, p, digits_end(u, p))))
                    &&& final(self).pos() == digits_end(u, p)
                } else {
                    &&& r is None
                    &&& old(self).at_same(final(self))
                }
            }),
    {
        let ghost u = self.units();
        let ghost p = self.pos();
        proof {
            lemma_digits_end(u, p);
        }
        let start = self.reader.position();
        let mut value: u32 = 0;
        while self.at_decimal_digit()
            invariant
                self.inv(),
                old(self).same_ctx(self),
                u == self.units(),
                p <= self.pos() <= u.len(),
                start == p,
                old(self).reader.offset16 <= self.reader.offset16,
                forall|j: int| p <= j < self.pos() ==> unicode::spec_is_decimal_digit(#[trigger] u[j]),
                digits_end(u, p) == digits_end(u, self.pos()),
                value == sat_u32(dec_value(u, p, self.pos())),
                p < self.pos() ==> old(self).reader.offset16 < self.reader.offset16,
            decreases u.len() - self.pos(),
        {
            let cp = self.reader.current();
            proof {
                lemma_dec_value_nonneg(u, p, self.pos());
            }
            let ghost i = self.pos();
            let d = cp - 0x30;
            let v64 = (value as u64) * 10 + (d as u64);
            value = if v64 > 0xFFFFFFFF {
                0xFFFFFFFFu32
            } else {
                v64 as u32
            };
            self.reader.advance();
            proof {
                assert(dec_value(u, p, i + 1) == dec_value(u, p, i) * 10 + d);
            }
        }
        proof {
            if p < u.len() && unicode::spec_is_decimal_digit(u[p]) {
                assert(digits_end(u, p) == digits_end(u, p + 1));
                lemma_digits_end(u, p + 1);
            }
        }
        if self.reader.position() != start {
            Some(value)
        } else {
            None
        }
    }

    /// ```text
    /// DecimalEscape ::
    ///   NonZeroDigit DecimalDigits[~Sep]opt [lookahead not DecimalDigit]
    /// ```
    /// `\0` is a character escape, not a decimal escape, so a run with value
    /// zero is given back untouched.
    fn consume_decimal_escape(&mut self) -> (r: Option<u32>)
        requires
            old(self).inv(),
        ensures
            old(self).step(final(self)),
            ({
                let u = old(self).units();
                let p = old(self).pos();
                if p < u.len() && unicode::spec_is_decimal_digit(u[p]) && sat_u32(
                    dec_value(u, p, digits_end(u, p)),
                ) != 0 {
                    &&& r == Some(sat_u32(dec_value(u, p, digits_end(u, p))))
                    &&& final(self).pos() == digits_end(u, p)
                } else {
                    &&& r is None
                    &&& old(self).at_same(final(self))
                }
            }),
    {
        let checkpoint = self.reader.checkpoint();
        if let Some(index) = self.consume_decimal_digits() {
            if index != 0 {
                return Some(index);
            }
        }
        self.reader.rewind(checkpoint);
        None
    }

    /// One octal digit, consumed as its value.
    fn consume_octal_digit(&mut self) -> (r: Option<u32>)
        requires
            old(self).inv(),
        ensures
            old(self).step(final(self)),
            ({
                let u = old(self).units();
                let p = old(self).pos();
                if p < u.len() && unicode::spec_is_octal_digit(u[p]) {
                    &&& r == Some((u[p] - 0x30) as u32)
                    &&& final(self).pos() == p + 1
                } else {
                    &&& r is None
                    &&& old(self).at_same(final(self))
                }
            }),
    {
        match self.reader.peek() {
            Some(cp) => {
                if unicode::is_octal_digit(cp) {
                    self.reader.advance();
                    Some(cp - 0x30)
                } else {
                    None
                }
            },
            None => None,
        }
    }

    /// Exactly `n` hexadecimal digits, consumed as one value; nothing is
    /// consumed when fewer stand there.
    fn consume_fixed_hex_digits(&mut self, n: usize) -> (r: Option<u32>)
        requires
            old(self).inv(),
            n <= 8,
        ensures
            old(self).step(final(self)),
            ({
                let u = old(self).units();
                let p = old(self).pos();
                if fixed_hex_at(u, p, n as int) {
                    &&& r == Some(hex_value(u, p, p + n) as u32)
                    &&& final(self).pos() == p + n
                } else {
                    &&& r is None
                    &&& old(self).at_same(final(self))
                }
            }),
    {
        let ghost u = self.units();
        let ghost p = self.pos();
        let checkpoint = self.reader.checkpoint();
        let mut value: u32 = 0;
        let mut k: usize = 0;
        proof {
            lemma_pow16_mono(0, 8);
        }
        while k < n
            invariant
                self.inv(),
                old(self).same_ctx(self),
                u == self.units(),
                n <= 8,
                k <= n,
                self.pos() == p + k,
                p + k <= u.len(),
                old(self).reader.offset16 <= self.reader.offset16,
                checkpoint.pos == old(self).reader.pos,
                checkpoint.offset16 == old(self).reader.offset16,
                forall|i: int| p <= i < p + k ==> is_hex_digit(#[trigger] u[i]),
                value == hex_value(u, p, p + k),
                value < pow16(k as int) <= pow16(8),
            decreases n - k,
        {
            let cp_opt = self.reader.peek();
            let mut hx: Option<u32> = None;
            match cp_opt {
                Some(cp) => {
                    hx = unicode::map_hex_digit(cp);
                },
                None => {},
            }
            match hx {
                Some(d) => {
                    proof {
                        reveal_with_fuel(pow16, 10);
                        lemma_pow16_mono(k + 1, 8);
                        lemma_pow16_mono(k as int, 7);
                        lemma_hex_value_nonneg(u, p, p + k);
                        assert(hex_value(u, p, p + k + 1) == hex_value(u, p, p + k) * 16
                            + hex_digit_val(u[p + k]));
                    }
                    value = value * 16 + d;
                    self.reader.advance();
                    k = k + 1;
                },
                None => {
                    self.reader.rewind(checkpoint);
                    proof {
                        assert(!fixed_hex_at(u, p, n as int));
                    }
                    return None;
                },
            }
        }
        Some(value)
    }

    /// A nonempty run of hexadecimal digits, consumed as one value that
    /// saturates at the largest 32-bit value rather than wrapping.
    fn consume_hex_digits(&mut self) -> (r: Option<u32>)
        requires
            old(self).inv(),
        ensures
            old(self).step(final(self)),
            ({
                let u = old(self).units();
                let p = old(self).pos();
                if p < u.len() && is_hex_digit(u[p]) {
                    &&& r == Some(sat_u32(hex_value(u, p, hexes_end(u, p))))
                    &&& final(self).pos() == hexes_end(u, p)
                } else {
                    &&& r is None
                    &&& old(self).at_same(final(self))
                }
            }),
    {
        let ghost u = self.units();
        let ghost p = self.pos();
        proof {
            lemma_hexes_end(u, p);
        }
        let start = self.reader.position();
        let mut value: u32 = 0;
        while self.at_hex_digit()
            invariant
                self.inv(),
                old(self).same_ctx(self),
                u == self.units(),
                p <= self.pos() <= u.len(),
                start == p,
                old(self).reader.offset16 <= self.reader.offset16,
                forall|j: int| p <= j < self.pos() ==> is_hex_digit(#[trigger] u[j]),
                hexes_end(u, p) == hexes_end(u, self.pos()),
                value == sat_u32(hex_value(u, p, self.pos())),
                p < self.pos() ==> old(self).reader.offset16 < self.reader.offset16,
            decreases u.len() - self.pos(),
        {
            let cp = self.reader.current();
            let d = match unicode::map_hex_digit(cp) {
                Some(d) => d,
                None => 0,
            };
            proof {
                lemma_hex_value_nonneg(u, p, self.pos());
            }
            let ghost i = self.pos();
            let v64 = (value as u64) * 16 + (d as u64);
            value = if v64 > 0xFFFFFFFF {
                0xFFFFFFFFu32
            } else {
                v64 as u32
            };
            self.reader.advance();
            proof {
                assert(hex_value(u, p, i + 1) == hex_value(u, p, i) * 16 + hex_digit_val(
                    u[i],
                ));
            }
        }
        proof {
            if p < u.len() && is_hex_digit(u[p]) {
                assert(hexes_end(u, p) == hexes_end(u, p + 1));
                lemma_hexes_end(u, p + 1);
            }
        }
        if self.reader.position() != start {
            Some(value)
        } else {
            None
        }
    }

    /// ```text
    /// LegacyOctalEscapeSequence ::
    ///   0 [lookahead in { 8, 9 }]
    ///   NonZeroOctalDigit [lookahead not OctalDigit]
    ///   ZeroToThree OctalDigit [lookahead not OctalDigit]
    ///   FourToSeven OctalDigit
    ///   ZeroToThree OctalDigit OctalDigit
    /// ```
    fn consume_legacy_octal_escape_sequence(&mut self) -> (r: Option<u32>)
        requires
            old(self).inv(),
        ensures
            old(self).step(final(self)),
            ({
                let u = old(self).units();
                let p = old(self).pos();
                match spec_legacy_octal(u, p) {
                    Some((v, e)) => r == Some(v as u32) && final(self).pos() == e,
                    None => r is None && old(self).at_same(final(self)),
                }
            }),
    {
        let ghost u = self.units();
        let ghost p = self.pos();
        if let Some(first) = self.consume_octal_digit() {
            // 0 [lookahead in { 8, 9 }]
            let peeked = self.reader.peek();
            if first == 0 && (peeked == Some(0x38) || peeked == Some(0x39)) {
                return Some(first);
            }
            if let Some(second) = self.consume_octal_digit() {
                if first <= 3 {
                    // ZeroToThree OctalDigit OctalDigit
                    if let Some(third) = self.consume_octal_digit() {
                        return Some(first * 64 + second * 8 + third);
                    }
                }
                // ZeroToThree OctalDigit [lookahead not OctalDigit]
                // FourToSeven OctalDigit
                return Some(first * 8 + second);
            }
            // NonZeroOctalDigit [lookahead not OctalDigit]
            return Some(first);
        }
        None
    }

    /// ```text
    /// IdentityEscape[UnicodeMode, NamedCaptureGroups] ::
    ///   [+UnicodeMode] SyntaxCharacter
    ///   [+UnicodeMode] /
    ///   [~UnicodeMode] SourceCharacter but not one of c or k
    /// ```
    /// (Annex B; named capture groups are always enabled.)
    fn consume_identity_escape(&mut self) -> (r: Option<u32>)
        requires
            old(self).inv(),
        ensures
            old(self).step(final(self)),
            ({
                let u = old(self).units();
                let p = old(self).pos();
                let m = old(self).state.unicode_mode;
                if p < u.len() && (if m {
                    unicode::spec_is_syntax_character(u[p]) || u[p] == '/' as u32
                } else {
                    u[p] != 'c' as u32 && u[p] != 'k' as u32
                }) {
                    &&& r == Some(u[p])
                    &&& final(self).pos() == p + 1
                } else {
                    &&& r is None
                    &&& old(self).at_same(final(self))
                }
            }),
    {
        let cp = match self.reader.peek() {
            Some(cp) => cp,
            None => {
                return None;
            },
        };
        if self.state.unicode_mode && (unicode::is_syntax_character(cp) || cp == '/' as u32) {
            self.reader.advance();
            return Some(cp);
        }
        if !self.state.unicode_mode && (cp != 'c' as u32 && cp != 'k' as u32) {
            self.reader.advance();
            return Some(cp);
        }
        None
    }

    /// ```text
    /// ExtendedPatternCharacter ::
    ///   SourceCharacter but not one of ^ $ \ . * + ? ( ) [ |
    /// ```
    /// (Annex B)
    fn consume_extended_pattern_character(&mut self) -> (r: Option<u32>)
        requires
            old(self).inv(),
        ensures
            old(self).step(final(self)),
            ({
                let u = old(self).units();
                let p = old(self).pos();
                if p < u.len() && !spec_is_extended_pattern_excluded(u[p]) {
                    &&& r == Some(u[p])
                    &&& final(self).pos() == p + 1
                } else {
                    &&& r is None
                    &&& old(self).at_same(final(self))
                }
            }),
    {
        let cp = match self.reader.peek() {
            Some(cp) => cp,
            None => {
                return None;
            },
        };
        if cp == '^' as u32 || cp == '$' as u32 || cp == '\\' as u32 || cp == '.' as u32 || cp
            == '*' as u32 || cp == '+' as u32 || cp == '?' as u32 || cp == '(' as u32 || cp == ')'
            as u32 || cp == '[' as u32 || cp == '|' as u32 {
            return None;
        }
        self.reader.advance();
        Some(cp)
    }

    /// ```text
    /// RegExpUnicodeEscapeSequence[UnicodeMode] ::
    ///   [+UnicodeMode] u HexLeadSurrogate \u HexTrailSurrogate
    ///   [+UnicodeMode] u HexLeadSurrogate
    ///   [+UnicodeMode] u HexTrailSurrogate
    ///   [+UnicodeMode] u HexNonSurrogate
    ///   [~UnicodeMode] u Hex4Digits
    ///   [+UnicodeMode] u{ CodePoint }
    /// ```
    /// In unicode mode a lead surrogate followed by `\u` and a trail
    /// surrogate combines into one code point.
    fn consume_reg_exp_unicode_escape_sequence(&mut self) -> (r: Result<
        Option<u32>,
        PatternError,
    >)
        requires
            old(self).inv(),
        ensures
            old(self).step(final(self)),
            ({
                let u = old(self).units();
                let p = old(self).pos();
                let m = old(self).state.unicode_mode;
                if !(p < u.len() && u[p] == 'u' as u32) {
                    r == Ok::<Option<u32>, PatternError>(None) && old(self).at_same(final(self))
                } else {
                    let s = p + 1;
                    if m && spec_surrogate_pair_at(u, s) {
                        &&& r == Ok::<Option<u32>, PatternError>(
                            Some(spec_surrogate_pair_escape_value(u, s) as u32),
                        )
                        &&& final(self).pos() == s + 10
                    } else if fixed_hex_at(u, s, 4) {
                        &&& r == Ok::<Option<u32>, PatternError>(
                            Some(hex_value(u, s, s + 4) as u32),
                        )
                        &&& final(self).pos() == s + 4
                    } else if m && spec_braced_code_point_at(u, s) {
                        &&& r == Ok::<Option<u32>, PatternError>(
                            Some(sat_u32(hex_value(u, s + 1, hexes_end(u, s + 1)))),
                        )
                        &&& final(self).pos() == hexes_end(u, s + 1) + 1
                    } else {
                        r == Err::<Option<u32>, PatternError>(PatternError::InvalidUnicodeEscape)
                    }
                }
            }),
            (r matches Ok(Some(cp)) ==> cp <= 0x10FFFF && final(self).pos() > old(self).pos()),
    {
        let ghost u = self.units();
        let ghost p = self.pos();
        if !self.reader.eat('u') {
            return Ok(None);
        }
        let ghost s = p + 1;
        proof {
            reveal_with_fuel(pow16, 6);
        }
        if self.state.unicode_mode {
            let checkpoint = self.reader.checkpoint();

            // HexLeadSurrogate + HexTrailSurrogate
            if let Some(lead) = self.consume_fixed_hex_digits(4) {
                proof {
                    lemma_hex_value_bound(u, s, s + 4);
                    lemma_hex_value_nonneg(u, s, s + 4);
                }
                if unicode::is_lead_surrogate(lead) {
                    if self.reader.eat2('\\', 'u') {
                        if let Some(trail) = self.consume_fixed_hex_digits(4) {
                            proof {
                                lemma_hex_value_bound(u, s + 6, s + 10);
                                lemma_hex_value_nonneg(u, s + 6, s + 10);
                            }
                            if unicode::is_trail_surrogate(trail) {
                                return Ok(Some(unicode::combine_surrogate_pair(lead, trail)));
                            }
                        }
                    }
                }
            }
            self.reader.rewind(checkpoint);

            // HexLeadSurrogate
            if let Some(lead) = self.consume_fixed_hex_digits(4) {
                proof {
                    lemma_hex_value_bound(u, s, s + 4);
                    lemma_hex_value_nonneg(u, s, s + 4);
                }
                if unicode::is_lead_surrogate(lead) {
                    return Ok(Some(lead));
                }
            }
            self.reader.rewind(checkpoint);

            // HexTrailSurrogate
            if let Some(trail) = self.consume_fixed_hex_digits(4) {
                proof {
                    lemma_hex_value_bound(u, s, s + 4);
                    lemma_hex_value_nonneg(u, s, s + 4);
                }
                if unicode::is_trail_surrogate(trail) {
                    return Ok(Some(trail));
                }
            }
            self.reader.rewind(checkpoint);
        }

        // HexNonSurrogate and Hex4Digits are the same
        if let Some(hex_digits) = self.consume_fixed_hex_digits(4) {
            proof {
                lemma_hex_value_bound(u, s, s + 4);
                lemma_hex_value_nonneg(u, s, s + 4);
            }
            return Ok(Some(hex_digits));
        }

        // {CodePoint}
        if self.state.unicode_mode {
            let checkpoint = self.reader.checkpoint();
            if self.reader.eat('{') {
                if let Some(hex_digits) = self.consume_hex_digits() {
                    if unicode::is_valid_unicode(hex_digits) {
                        if self.reader.eat('}') {
                            return Ok(Some(hex_digits));
                        }
                    }
                }
            }
            self.reader.rewind(checkpoint);
        }

        Err(PatternError::InvalidUnicodeEscape)
    }

    /// True when a property-name character stands at the cursor.
    fn at_property_name_char(&self) -> (r: bool)
        ensures
            r == (self.pos() < self.units().len()
                && unicode::spec_is_unicode_property_name_character(self.units()[self.pos()])),
    {
        match self.reader.peek() {
            Some(cp) => unicode::is_unicode_property_name_character(cp),
            None => false,
        }
    }

    /// True when a property-value character stands at the cursor.
    fn at_property_value_char(&self) -> (r: bool)
        ensures
            r == (self.pos() < self.units().len()
                && unicode::spec_is_unicode_property_value_character(self.units()[self.pos()])),
    {
        match self.reader.peek() {
            Some(cp) => unicode::is_unicode_property_value_character(cp),
            None => false,
        }
    }

    /// ```text
    /// UnicodePropertyName ::
    ///   UnicodePropertyNameCharacters
    /// ```
    fn consume_unicode_property_name(&mut self) -> (r: Option<String>)
        requires
            old(self).inv(),
        ensures
            old(self).step(final(self)),
            ({
                let u = old(self).units();
                let p = old(self).pos();
                if p < u.len() && unicode::spec_is_unicode_property_name_character(u[p]) {
                    &&& r matches Some(nm) && nm@ == decode_units(
                        u.subrange(p, prop_name_end(u, p)),
                    )
                    &&& final(self).pos() == prop_name_end(u, p)
                    &&& final(self).pos() > p
                } else {
                    &&& r is None
                    &&& old(self).at_same(final(self))
                }
            }),
    {
        let ghost u = self.units();
        let ghost p = self.pos();
        proof {
            lemma_prop_name_end(u, p);
        }
        let start = self.reader.position();
        while self.at_property_name_char()
            invariant
                self.inv(),
                old(self).same_ctx(self),
                u == self.units(),
                p <= self.pos() <= u.len(),
                start == p,
                old(self).reader.offset16 <= self.reader.offset16,
                prop_name_end(u, p) == prop_name_end(u, self.pos()),
            decreases u.len() - self.pos(),
        {
            self.reader.advance();
        }
        let here = self.reader.position();
        if here != start {
            Some(self.reader.slice_string(start, here))
        } else {
            None
        }
    }

    /// ```text
    /// UnicodePropertyValue ::
    ///   UnicodePropertyValueCharacters
    /// ```
    fn consume_unicode_property_value(&mut self) -> (r: Option<String>)
        requires
            old(self).inv(),
        ensures
            old(self).step(final(self)),
            ({
                let u = old(self).units();
                let p = old(self).pos();
                if p < u.len() && unicode::spec_is_unicode_property_value_character(u[p]) {
                    &&& r matches Some(nm) && nm@ == decode_units(
                        u.subrange(p, prop_value_end(u, p)),
                    )
                    &&& final(self).pos() == prop_value_end(u, p)
                    &&& final(self).pos() > p
                } else {
                    &&& r is None
                    &&& old(self).at_same(final(self))
                }
            }),
    {
        let ghost u = self.units();
        let ghost p = self.pos();
        proof {
            lemma_prop_value_end(u, p);
        }
        let start = self.reader.position();
        while self.at_property_value_char()
            invariant
                self.inv(),
                old(self).same_ctx(self),
                u == self.units(),
                p <= self.pos() <= u.len(),
                start == p,
                old(self).reader.offset16 <= self.reader.offset16,
                prop_value_end(u, p) == prop_value_end(u, self.pos()),
            decreases u.len() - self.pos(),
        {
            self.reader.advance();
        }
        let here = self.reader.position();
        if here != start {
            Some(self.reader.slice_string(start, here))
        } else {
            None
        }
    }

    /// ```text
    /// UnicodePropertyValueExpression ::
    ///   UnicodePropertyName = UnicodePropertyValue
    ///   LoneUnicodePropertyNameOrValue
    /// ```
    /// Returns `(name, value, is_strings_related_unicode_property)`; every
    /// returned pair or lone name has been checked against the property
    /// tables.
    fn consume_unicode_property_value_expression(&mut self) -> (r: Result<
        Option<(String, Option<String>, bool)>,
        PatternError,
    >)
        requires
            old(self).inv(),
        ensures
            old(self).step(final(self)),
            (r matches Ok(Some((n, v, st))) ==> {
                &&& final(self).pos() > old(self).pos()
                &&& (v matches Some(val) ==> !st
                    && unicode_property::spec_is_valid_unicode_property(n@, val@))
                &&& (v is None && !st ==> unicode_property::spec_is_valid_lone_unicode_property(
                    n@,
                ))
                &&& (st ==> v is None
                    && unicode_property::spec_is_valid_lone_unicode_property_of_strings(n@)
                    && old(self).state.unicode_sets_mode)
            }),
            (r matches Ok(None) ==> old(self).at_same(final(self))),
            ({
                let u = old(self).units();
                let p = old(self).pos();
                match spec_property_expression(u, p, old(self).state.unicode_sets_mode) {
                    Ok(opt) => match opt {
                        Some(nvse) => {
                            &&& r matches Ok(ro)
                            &&& ro matches Some(nvs)
                            &&& nvs.0@ == nvse.0
                            &&& (nvse.1 matches Some(vv) ==> nvs.1 matches Some(pv) && pv@ == vv)
                            &&& (nvse.1 is None ==> nvs.1 is None)
                            &&& nvs.2 == nvse.2
                            &&& final(self).pos() == nvse.3
                        },
                        None => r == Ok::<Option<(String, Option<String>, bool)>, PatternError>(
                            None,
                        ),
                    },
                    Err(err) => r == Err::<Option<(String, Option<String>, bool)>, PatternError>(
                        err,
                    ),
                }
            }),
    {
        let checkpoint = self.reader.checkpoint();

        // UnicodePropertyName=UnicodePropertyValue
        if let Some(name) = self.consume_unicode_property_name() {
            if self.reader.eat('=') {
                if let Some(value) = self.consume_unicode_property_value() {
                    if unicode_property::is_valid_unicode_property(name.as_str(), value.as_str()) {
                        return Ok(Some((name, Some(value), false)));
                    }
                    return Err(PatternError::InvalidPropertyName);
                }
            }
        }
        self.reader.rewind(checkpoint);

        // LoneUnicodePropertyNameOrValue
        if let Some(name_or_value) = self.consume_unicode_property_value() {
            if unicode_property::is_valid_unicode_property(
                "General_Category",
                name_or_value.as_str(),
            ) {
                return Ok(
                    Some((String::from_str("General_Category"), Some(name_or_value), false)),
                );
            }
            if unicode_property::is_valid_lone_unicode_property(name_or_value.as_str()) {
                return Ok(Some((name_or_value, None, false)));
            }
            if unicode_property::is_valid_lone_unicode_property_of_strings(name_or_value.as_str()) {
                // A binary property of strings is a syntax error unless
                // unicode-sets mode is on.
                if !self.state.unicode_sets_mode {
                    return Err(PatternError::StringsPropertyOutsideUnicodeSets);
                }
                return Ok(Some((name_or_value, None, true)));
            }
            return Err(PatternError::InvalidPropertyName);
        }
        Ok(None)
    }

    /// ```text
    /// RegExpIdentifierStart[UnicodeMode] ::
    ///   IdentifierStartChar
    ///   \ RegExpUnicodeEscapeSequence[+UnicodeMode]
    ///   [~UnicodeMode] UnicodeLeadSurrogate UnicodeTrailSurrogate
    /// ```
    fn consume_reg_exp_identifier_start(&mut self) -> (r: Result<Option<u32>, PatternError>)
        requires
            old(self).inv(),
        ensures
            old(self).step(final(self)),
            ({
                let u = old(self).units();
                let p = old(self).pos();
                if p < u.len() && unicode::spec_is_identifier_start_char(u[p]) {
                    r == Ok::<Option<u32>, PatternError>(Some(u[p])) && final(self).pos() == p + 1
                } else {
                    &&& (r matches Ok(Some(cp)) ==> cp <= 0x10FFFF && final(self).pos() > p)
                    &&& (r matches Ok(None) ==> old(self).at_same(final(self)))
                }
            }),
            ({
                let u = old(self).units();
                let p = old(self).pos();
                let m = old(self).state.unicode_mode;
                (p >= u.len() || (!unicode::spec_is_identifier_start_char(u[p]) && u[p] != '\\'
                    as u32 && !(!m && unicode::spec_is_lead_surrogate(u[p]) && p + 1 < u.len()
                    && unicode::spec_is_trail_surrogate(u[p + 1])))) ==> r == Ok::<
                    Option<u32>,
                    PatternError,
                >(None)
            }),
    {
        if let Some(cp) = self.reader.peek() {
            if unicode::is_identifier_start_char(cp) {
                self.reader.advance();
                return Ok(Some(cp));
            }
        }

        let checkpoint = self.reader.checkpoint();
        if self.reader.eat('\\') {
            match self.consume_reg_exp_unicode_escape_sequence() {
                Err(e) => {
                    return Err(e);
                },
                Ok(Some(cp)) => {
                    // The escape must name an identifier-start code point.
                    if !unicode::is_identifier_start_char(cp) {
                        return Err(PatternError::InvalidUnicodeEscapeSequence);
                    }
                    return Ok(Some(cp));
                },
                Ok(None) => {
                    self.reader.rewind(checkpoint);
                },
            }
        }

        if !self.state.unicode_mode {
            if let Some(lead_surrogate) = self.reader.peek() {
                if unicode::is_lead_surrogate(lead_surrogate) {
                    if let Some(trail_surrogate) = self.reader.peek2() {
                        if unicode::is_trail_surrogate(trail_surrogate) {
                            self.reader.advance();
                            self.reader.advance();
                            let cp = unicode::combine_surrogate_pair(
                                lead_surrogate,
                                trail_surrogate,
                            );
                            // The pair must name an identifier-start code
                            // point.
                            if !unicode::is_unicode_id_start(cp) {
                                return Err(PatternError::InvalidSurrogatePair);
                            }
                            return Ok(Some(cp));
                        }
                    }
                }
            }
        }

        Ok(None)
    }

    /// ```text
    /// RegExpIdentifierPart[UnicodeMode] ::
    ///   IdentifierPartChar
    ///   \ RegExpUnicodeEscapeSequence[+UnicodeMode]
    ///   [~UnicodeMode] UnicodeLeadSurrogate UnicodeTrailSurrogate
    /// ```
    fn consume_reg_exp_identifier_part(&mut self) -> (r: Result<Option<u32>, PatternError>)
        requires
            old(self).inv(),
        ensures
            old(self).step(final(self)),
            ({
                let u = old(self).units();
                let p = old(self).pos();
                if p < u.len() && unicode::spec_is_identifier_part_char(u[p]) {
                    r == Ok::<Option<u32>, PatternError>(Some(u[p])) && final(self).pos() == p + 1
                } else {
                    &&& (r matches Ok(Some(cp)) ==> cp <= 0x10FFFF && final(self).pos() > p)
                    &&& (r matches Ok(None) ==> old(self).at_same(final(self)))
                }
            }),
            ({
                let u = old(self).units();
                let p = old(self).pos();
                let m = old(self).state.unicode_mode;
                (p >= u.len() || (!unicode::spec_is_identifier_part_char(u[p]) && u[p] != '\\'
                    as u32 && !(!m && unicode::spec_is_lead_surrogate(u[p]) && p + 1 < u.len()
                    && unicode::spec_is_trail_surrogate(u[p + 1])))) ==> r == Ok::<
                    Option<u32>,
                    PatternError,
                >(None)
            }),
    {
        if let Some(cp) = self.reader.peek() {
            if unicode::is_identifier_part_char(cp) {
                self.reader.advance();
                return Ok(Some(cp));
            }
        }

        let checkpoint = self.reader.checkpoint();
        if self.reader.eat('\\') {
            match self.consume_reg_exp_unicode_escape_sequence() {
                Err(e) => {
                    return Err(e);
                },
                Ok(Some(cp)) => {
                    // The escape must name an identifier-part code point.
                    if !unicode::is_identifier_part_char(cp) {
                        return Err(PatternError::InvalidUnicodeEscapeSequence);
                    }
                    return Ok(Some(cp));
                },
                Ok(None) => {
                    self.reader.rewind(checkpoint);
                },
            }
        }

        if !self.state.unicode_mode {
            if let Some(lead_surrogate) = self.reader.peek() {
                if unicode::is_lead_surrogate(lead_surrogate) {
                    if let Some(trail_surrogate) = self.reader.peek2() {
                        if unicode::is_trail_surrogate(trail_surrogate) {
                            self.reader.advance();
                            self.reader.advance();
                            let cp = unicode::combine_surrogate_pair(
                                lead_surrogate,
                                trail_surrogate,
                            );
                            // The pair must name an identifier-part code
                            // point.
                            if !unicode::is_unicode_id_continue(cp) {
                                return Err(PatternError::InvalidSurrogatePair);
                            }
                            return Ok(Some(cp));
                        }
                    }
                }
            }
        }

        Ok(None)
    }

    /// ```text
    /// RegExpIdentifierName[UnicodeMode] ::
    ///   RegExpIdentifierStart[?UnicodeMode]
    ///   RegExpIdentifierName[?UnicodeMode] RegExpIdentifierPart[?UnicodeMode]
    /// ```
    /// The name is handed back as the source text it was written as.
    fn consume_reg_exp_identifier_name(&mut self) -> (r: Result<Option<String>, PatternError>)
        requires
            old(self).inv(),
        ensures
            old(self).step(final(self)),
            (r matches Ok(Some(nm)) ==> final(self).pos() > old(self).pos() && nm@ == decode_units(
                old(self).units().subrange(old(self).pos(), final(self).pos()),
            )),
            (r matches Ok(None) ==> old(self).at_same(final(self))),
            ({
                let u = old(self).units();
                let p = old(self).pos();
                let m = old(self).state.unicode_mode;
                let e = id_part_end(u, p + 1);
                (p < u.len() && unicode::spec_is_identifier_start_char(u[p]) && (e == u.len() || (
                u[e] != '\\' as u32 && !(!m && unicode::spec_is_lead_surrogate(u[e]) && e + 1
                    < u.len() && unicode::spec_is_trail_surrogate(u[e + 1])))) ==> {
                    &&& r matches Ok(ro)
                    &&& ro matches Some(nm)
                    &&& nm@ == decode_units(u.subrange(p, e))
                    &&& final(self).pos() == e
                })
            }),
            ({
                let u = old(self).units();
                let p = old(self).pos();
                let m = old(self).state.unicode_mode;
                (p >= u.len() || (!unicode::spec_is_identifier_start_char(u[p]) && u[p] != '\\'
                    as u32 && !(!m && unicode::spec_is_lead_surrogate(u[p]) && p + 1 < u.len()
                    && unicode::spec_is_trail_surrogate(u[p + 1])))) ==> r == Ok::<
                    Option<String>,
                    PatternError,
                >(None)
            }),
    {
        let ghost u = self.units();
        let ghost p = self.pos();
        let ghost m = self.state.unicode_mode;
        let ghost plain_name = p < u.len() && unicode::spec_is_identifier_start_char(u[p]) && {
            let e = id_part_end(u, p + 1);
            e == u.len() || (u[e] != '\\' as u32 && !(!m && unicode::spec_is_lead_surrogate(u[e])
                && e + 1 < u.len() && unicode::spec_is_trail_surrogate(u[e + 1])))
        };
        let start = self.reader.position();
        proof {
            if p < u.len() {
                lemma_id_part_end(u, p + 1);
            }
        }

        let any_start = match self.consume_reg_exp_identifier_start() {
            Err(e) => {
                return Err(e);
            },
            Ok(st) => st.is_some(),
        };
        if !any_start {
            return Ok(None);
        }
        let mut more = true;
        while more
            invariant
                self.inv(),
                old(self).same_ctx(self),
                u == self.units(),
                p < self.pos() <= u.len(),
                start == p,
                old(self).reader.offset16 <= self.reader.offset16,
                plain_name ==> self.pos() <= id_part_end(u, p + 1) && id_part_end(
                    u,
                    self.pos(),
                ) == id_part_end(u, p + 1),
                plain_name && !more ==> self.pos() == id_part_end(u, p + 1),
            decreases u.len() - self.pos() + (if more {
                1int
            } else {
                0int
            }),
        {
            let ghost t = self.pos();
            match self.consume_reg_exp_identifier_part() {
                Err(e) => {
                    proof {
                        if plain_name {
                            lemma_id_part_end(u, p + 1);
                            if t < id_part_end(u, p + 1) {
                                assert(unicode::spec_is_identifier_part_char(u[t]));
                            }
                            assert(false);
                        }
                    }
                    return Err(e);
                },
                Ok(Some(_)) => {},
                Ok(None) => {
                    proof {
                        if plain_name {
                            lemma_id_part_end(u, p + 1);
                            if t < id_part_end(u, p + 1) {
                                assert(unicode::spec_is_identifier_part_char(u[t]));
                            }
                        }
                    }
                    more = false;
                },
            }
        }
        let here = self.reader.position();
        Ok(Some(self.reader.slice_string(start, here)))
    }

    /// ```text
    /// GroupName[UnicodeMode] ::
    ///   < RegExpIdentifierName[?UnicodeMode] >
    /// ```
    fn consume_group_name(&mut self) -> (r: Result<Option<String>, PatternError>)
        requires
            old(self).inv(),
        ensures
            old(self).step(final(self)),
            ({
                let u = old(self).units();
                let p = old(self).pos();
                if !(p < u.len() && u[p] == '<' as u32) {
                    r == Ok::<Option<String>, PatternError>(None) && old(self).at_same(
                        final(self),
                    )
                } else {
                    (r matches Ok(nm_opt) ==> nm_opt matches Some(nm) && final(self).pos() > p + 1
                        && nm@ == decode_units(u.subrange(p + 1, final(self).pos() - 1)) && u[
                    final(self).pos() - 1] == '>' as u32)
                }
            }),
            ({
                let u = old(self).units();
                let p = old(self).pos();
                let m = old(self).state.unicode_mode;
                let e = id_part_end(u, p + 2);
                &&& (p < u.len() && u[p] == '<' as u32 && p + 1 < u.len()
                    && unicode::spec_is_identifier_start_char(u[p + 1]) && e < u.len() && u[e]
                    == '>' as u32 ==> {
                    &&& r matches Ok(ro)
                    &&& ro matches Some(nm)
                    &&& nm@ == decode_units(u.subrange(p + 1, e))
                    &&& final(self).pos() == e + 1
                })
                &&& (p < u.len() && u[p] == '<' as u32 && (p + 1 >= u.len() || (
                !unicode::spec_is_identifier_start_char(u[p + 1]) && u[p + 1] != '\\' as u32 && !(
                !m && unicode::spec_is_lead_surrogate(u[p + 1]) && p + 2 < u.len()
                    && unicode::spec_is_trail_surrogate(u[p + 2])))) ==> r == Err::<
                    Option<String>,
                    PatternError,
                >(PatternError::InvalidCaptureGroupName))
            }),
    {
        proof {
            let u = self.units();
            let p = self.pos();
            if p + 2 <= u.len() {
                lemma_id_part_end(u, p + 2);
            }
        }
        if !self.reader.eat('<') {
            return Ok(None);
        }

        match self.consume_reg_exp_identifier_name() {
            Err(e) => {
                return Err(e);
            },
            Ok(Some(group_name)) => {
                if self.reader.eat('>') {
                    return Ok(Some(group_name));
                }
                Err(PatternError::InvalidCaptureGroupName)
            },
            Ok(None) => Err(PatternError::InvalidCaptureGroupName),
        }
    }

    /// The span from an earlier span position to the cursor.
    fn make_span(&self, start16: usize) -> (sp: Span)
        requires
            self.inv(),
            start16 <= self.reader.offset16,
        ensures
            sp.start == self.span_factory.span_offset + start16,
            sp.end == self.off(),
    {
        self.span_factory.create(start16, self.reader.span_position())
    }

    /// ```text
    /// Quantifier ::
    ///   QuantifierPrefix
    ///   QuantifierPrefix ?
    ///
    /// QuantifierPrefix ::
    ///   *
    ///   +
    ///   ?
    ///   { DecimalDigits[~Sep] }
    ///   { DecimalDigits[~Sep] ,}
    ///   { DecimalDigits[~Sep] , DecimalDigits[~Sep] }
    /// ```
    /// Returns `((min, max), greedy)`; `{n,m}` with `m < n` is an error, and
    /// an unterminated `{` form is an error.
    fn consume_quantifier(&mut self) -> (r: Result<Option<((u32, Option<u32>), bool)>, PatternError>)
        requires
            old(self).inv(),
        ensures
            old(self).step(final(self)),
            ({
                let u = old(self).units();
                let p = old(self).pos();
                if !(p < u.len() && (u[p] == '*' as u32 || u[p] == '+' as u32 || u[p] == '?' as u32
                    || u[p] == '{' as u32)) {
                    r == Ok::<Option<((u32, Option<u32>), bool)>, PatternError>(None) && old(
                        self,
                    ).at_same(final(self))
                } else if u[p] == '*' as u32 || u[p] == '+' as u32 || u[p] == '?' as u32 {
                    let g = !(p + 1 < u.len() && u[p + 1] == '?' as u32);
                    let e = if g {
                        p + 1
                    } else {
                        p + 2
                    };
                    &&& final(self).pos() == e
                    &&& (u[p] == '*' as u32 ==> r == Ok::<
                        Option<((u32, Option<u32>), bool)>,
                        PatternError,
                    >(Some(((0u32, None::<u32>), g))))
                    &&& (u[p] == '+' as u32 ==> r == Ok::<
                        Option<((u32, Option<u32>), bool)>,
                        PatternError,
                    >(Some(((1u32, None::<u32>), g))))
                    &&& (u[p] == '?' as u32 ==> r == Ok::<
                        Option<((u32, Option<u32>), bool)>,
                        PatternError,
                    >(Some(((0u32, Some(1u32)), g))))
                } else {
                    match spec_braced_quantifier(u, p + 1) {
                        Err(e) => r == Err::<Option<((u32, Option<u32>), bool)>, PatternError>(e),
                        Ok((mn, mx, en)) => {
                            let g = !(en < u.len() && u[en] == '?' as u32);
                            &&& final(self).pos() == (if g {
                                en
                            } else {
                                en + 1
                            })
                            &&& (r matches Ok(Some(((rmn, rmx), rg))) && rg == g && rmn == mn
                                && (match mx {
                                Some(x) => rmx == Some(x as u32),
                                None => rmx is None,
                            }))
                        },
                    }
                }
            }),
            (r matches Ok(Some(((mn, mx), g))) ==> final(self).pos() > old(self).pos() && (
            mx matches Some(x) ==> mn <= x)),
    {
        let ghost u = self.units();
        let ghost p = self.pos();
        if self.reader.eat('*') {
            let greedy = !self.reader.eat('?');
            return Ok(Some(((0, None), greedy)));
        }
        if self.reader.eat('+') {
            let greedy = !self.reader.eat('?');
            return Ok(Some(((1, None), greedy)));
        }
        if self.reader.eat('?') {
            let greedy = !self.reader.eat('?');
            return Ok(Some(((0, Some(1)), greedy)));
        }

        if self.reader.eat('{') {
            if let Some(min) = self.consume_decimal_digits() {
                if self.reader.eat('}') {
                    let greedy = !self.reader.eat('?');
                    return Ok(Some(((min, Some(min)), greedy)));
                }
                if self.reader.eat(',') {
                    if self.reader.eat('}') {
                        let greedy = !self.reader.eat('?');
                        return Ok(Some(((min, None), greedy)));
                    }
                    if let Some(max) = self.consume_decimal_digits() {
                        if self.reader.eat('}') {
                            if max < min {
                                // {n,m} with m below n is an early error.
                                return Err(PatternError::NumbersOutOfOrder);
                            }
                            let greedy = !self.reader.eat('?');
                            return Ok(Some(((min, Some(max)), greedy)));
                        }
                    }
                }
            }
            return Err(PatternError::UnterminatedQuantifier);
        }

        Ok(None)
    }

    /// ```text
    /// CharacterClassEscape ::
    ///   d D s S w W
    /// ```
    fn parse_character_class_escape(&mut self, span_start: usize) -> (r: Option<
        CharacterClassEscape,
    >)
        requires
            old(self).inv(),
            span_start <= old(self).reader.offset16,
        ensures
            old(self).step(final(self)),
            ({
                let u = old(self).units();
                let p = old(self).pos();
                if p < u.len() && spec_is_class_escape_letter(u[p]) {
                    &&& r matches Some(e) && e.kind == spec_class_escape_kind(u[p])
                        && e.span.start == old(self).span_factory.span_offset + span_start
                        && e.span.end == final(self).off()
                    &&& final(self).pos() == p + 1
                    &&& old(self).off() < final(self).off()
                } else {
                    &&& r is None
                    &&& old(self).at_same(final(self))
                }
            }),
    {
        let kind = if self.reader.eat('d') {
            CharacterClassEscapeKind::D
        } else if self.reader.eat('D') {
            CharacterClassEscapeKind::NegativeD
        } else if self.reader.eat('s') {
            CharacterClassEscapeKind::S
        } else if self.reader.eat('S') {
            CharacterClassEscapeKind::NegativeS
        } else if self.reader.eat('w') {
            CharacterClassEscapeKind::W
        } else if self.reader.eat('W') {
            CharacterClassEscapeKind::NegativeW
        } else {
            return None;
        };

        Some(CharacterClassEscape { span: self.make_span(span_start), kind })
    }

    /// ```text
    /// CharacterClassEscape[UnicodeMode] ::
    ///   [+UnicodeMode] p{ UnicodePropertyValueExpression }
    ///   [+UnicodeMode] P{ UnicodePropertyValueExpression }
    /// ```
    fn parse_character_class_escape_unicode(&mut self, span_start: usize) -> (r: Result<
        Option<UnicodePropertyEscape>,
        PatternError,
    >)
        requires
            old(self).inv(),
            span_start <= old(self).reader.offset16,
        ensures
            old(self).step(final(self)),
            (r matches Ok(None) ==> old(self).at_same(final(self)) && !(old(
                self,
            ).state.unicode_mode && old(self).pos() < old(self).units().len() && (old(
                self,
            ).units()[old(self).pos()] == 'p' as u32 || old(self).units()[old(self).pos()] == 'P'
                as u32))),
            (r is Err ==> old(self).state.unicode_mode && old(self).pos() < old(
                self,
            ).units().len() && (old(self).units()[old(self).pos()] == 'p' as u32 || old(
                self,
            ).units()[old(self).pos()] == 'P' as u32)),
            (r matches Ok(Some(pe)) ==> {
                &&& old(self).state.unicode_mode
                &&& old(self).pos() < old(self).units().len()
                &&& (old(self).units()[old(self).pos()] == 'p' as u32 || old(self).units()[old(
                    self,
                ).pos()] == 'P' as u32)
                &&& final(self).pos() > old(self).pos()
                &&& pe.span.start == old(self).span_factory.span_offset + span_start
                &&& pe.span.end == final(self).off()
                &&& old(self).off() < final(self).off()
                &&& (pe.negative <==> (old(self).pos() < old(self).units().len() && old(
                    self,
                ).units()[old(self).pos()] == 'P' as u32))
                &&& (pe.value matches Some(v) ==> !pe.strings
                    && unicode_property::spec_is_valid_unicode_property(pe.name@, v@))
                &&& (pe.value is None && !pe.strings
                    ==> unicode_property::spec_is_valid_lone_unicode_property(pe.name@))
                &&& (pe.strings ==> pe.value is None
                    && unicode_property::spec_is_valid_lone_unicode_property_of_strings(pe.name@)
                    && old(self).state.unicode_sets_mode)
            }),
            ({
                let u = old(self).units();
                let p = old(self).pos();
                let m = old(self).state.unicode_mode;
                (m && p < u.len() && (u[p] == 'p' as u32 || u[p] == 'P' as u32) ==> (if !(p + 1
                    < u.len() && u[p + 1] == '{' as u32) {
                    r == Err::<Option<UnicodePropertyEscape>, PatternError>(
                        PatternError::UnterminatedUnicodePropertyEscape,
                    )
                } else {
                    match spec_property_expression(u, p + 2, old(self).state.unicode_sets_mode) {
                        Err(err) => r == Err::<Option<UnicodePropertyEscape>, PatternError>(err),
                        Ok(opt) => match opt {
                            None => r == Err::<Option<UnicodePropertyEscape>, PatternError>(
                                PatternError::UnterminatedUnicodePropertyEscape,
                            ),
                            Some(nvse) => {
                                if u[p] == 'P' as u32 && nvse.2 {
                                    r == Err::<Option<UnicodePropertyEscape>, PatternError>(
                                        PatternError::InvalidPropertyName,
                                    )
                                } else if nvse.3 < u.len() && u[nvse.3] == '}' as u32 {
                                    &&& r matches Ok(Some(pe))
                                    &&& pe.name@ == nvse.0
                                    &&& (nvse.1 matches Some(vv) ==> pe.value matches Some(pv)
                                        && pv@ == vv)
                                    &&& (nvse.1 is None ==> pe.value is None)
                                    &&& pe.strings == nvse.2
                                    &&& pe.negative == (u[p] == 'P' as u32)
                                    &&& final(self).pos() == nvse.3 + 1
                                } else {
                                    r == Err::<Option<UnicodePropertyEscape>, PatternError>(
                                        PatternError::UnterminatedUnicodePropertyEscape,
                                    )
                                }
                            },
                        },
                    }
                }))
            }),
    {
        if !self.state.unicode_mode {
            return Ok(None);
        }

        let negative = if self.reader.eat('P') {
            true
        } else if self.reader.eat('p') {
            false
        } else {
            return Ok(None);
        };

        if self.reader.eat('{') {
            match self.consume_unicode_property_value_expression() {
                Err(e) => {
                    return Err(e);
                },
                Ok(Some((name, value, is_strings_related))) => {
                    if negative && is_strings_related {
                        return Err(PatternError::InvalidPropertyName);
                    }
                    if self.reader.eat('}') {
                        return Ok(
                            Some(
                                UnicodePropertyEscape {
                                    span: self.make_span(span_start),
                                    negative,
                                    strings: is_strings_related,
                                    name,
                                    value,
                                },
                            ),
                        );
                    }
                },
                Ok(None) => {},
            }
        }

        Err(PatternError::UnterminatedUnicodePropertyEscape)
    }

    /// ```text
    /// CharacterEscape[UnicodeMode, NamedCaptureGroups] ::
    ///   ControlEscape
    ///   c AsciiLetter
    ///   0 [lookahead not DecimalDigit]
    ///   HexEscapeSequence
    ///   RegExpUnicodeEscapeSequence[?UnicodeMode]
    ///   [~UnicodeMode] LegacyOctalEscapeSequence
    ///   IdentityEscape[?UnicodeMode, ?NamedCaptureGroups]
    /// ```
    /// (Annex B)
    fn parse_character_escape(&mut self, span_start: usize) -> (r: Result<
        Option<Character>,
        PatternError,
    >)
        requires
            old(self).inv(),
            span_start <= old(self).reader.offset16,
        ensures
            old(self).step(final(self)),
            (r matches Ok(Some(c)) ==> {
                &&& c.value <= 0x10FFFF
                &&& c.span.start == old(self).span_factory.span_offset + span_start
                &&& c.span.end == final(self).off()
                &&& final(self).pos() > old(self).pos()
            }),
            (r matches Ok(None) ==> old(self).at_same(final(self))),
            ({
                let u = old(self).units();
                let p = old(self).pos();
                let m = old(self).state.unicode_mode;
                &&& (p < u.len() ==> (unicode::spec_map_control_escape(u[p]) matches Some(v)
                    ==> (r matches Ok(Some(c)) && c.kind == CharacterKind::SingleEscape
                    && c.value == v && final(self).pos() == p + 1)))
                &&& (p + 1 < u.len() && u[p] == 'c' as u32 ==> (
                unicode::spec_map_c_ascii_letter(u[p + 1]) matches Some(v) ==> (r matches Ok(
                    Some(c),
                ) && c.kind == CharacterKind::ControlLetter && c.value == v && final(self).pos()
                    == p + 2)))
                &&& (p < u.len() && u[p] == '0' as u32 && !(p + 1 < u.len()
                    && unicode::spec_is_decimal_digit(u[p + 1])) ==> (r matches Ok(Some(c))
                    && c.kind == CharacterKind::Null && c.value == 0 && final(self).pos() == p
                    + 1))
                &&& (p < u.len() && u[p] == 'x' as u32 ==> (if fixed_hex_at(u, p + 1, 2) {
                    r matches Ok(Some(c)) && c.kind == CharacterKind::HexadecimalEscape
                        && c.value == hex_value(u, p + 1, p + 3) && final(self).pos() == p + 3
                } else {
                    r == Err::<Option<Character>, PatternError>(PatternError::InvalidEscape)
                }))
                &&& (p < u.len() && u[p] == 'u' as u32 && m && spec_surrogate_pair_at(u, p + 1)
                    ==> (r matches Ok(Some(c)) && c.kind == CharacterKind::UnicodeEscape
                    && c.value == spec_surrogate_pair_escape_value(u, p + 1) && final(self).pos()
                    == p + 11))
                &&& (p < u.len() && u[p] == 'u' as u32 && !(m && spec_surrogate_pair_at(u, p + 1))
                    && fixed_hex_at(u, p + 1, 4) ==> (r matches Ok(Some(c)) && c.kind
                    == CharacterKind::UnicodeEscape && c.value == hex_value(u, p + 1, p + 5)
                    && final(self).pos() == p + 5))
                &&& (!m && p < u.len() && unicode::spec_is_octal_digit(u[p]) && !(u[p] == '0'
                    as u32 && !(p + 1 < u.len() && unicode::spec_is_decimal_digit(u[p + 1])))
                    ==> (match spec_legacy_octal(u, p) {
                    Some(ve) => r matches Ok(Some(c)) && c.kind == CharacterKind::Octal
                        && c.value == ve.0 && final(self).pos() == ve.1,
                    None => false,
                }))
                &&& (p < u.len() && u[p] == 'u' as u32 && m && !spec_surrogate_pair_at(u, p + 1)
                    && !fixed_hex_at(u, p + 1, 4) && spec_braced_code_point_at(u, p + 1) ==> {
                    &&& r matches Ok(Some(c))
                    &&& c.kind == CharacterKind::UnicodeEscape
                    &&& c.value == sat_u32(hex_value(u, p + 2, hexes_end(u, p + 2)))
                    &&& final(self).pos() == hexes_end(u, p + 2) + 1
                })
                &&& (p < u.len() && unicode::spec_map_control_escape(u[p]) is None && u[p] != 'c'
                    as u32 && !(u[p] == '0' as u32 && !(p + 1 < u.len()
                    && unicode::spec_is_decimal_digit(u[p + 1]))) && u[p] != 'x' as u32 && u[p]
                    != 'u' as u32 && !(!m && unicode::spec_is_octal_digit(u[p])) && (if m {
                    unicode::spec_is_syntax_character(u[p]) || u[p] == '/' as u32
                } else {
                    u[p] != 'k' as u32
                }) ==> {
                    &&& r matches Ok(Some(c))
                    &&& c.kind == CharacterKind::Identifier
                    &&& c.value == u[p]
                    &&& final(self).pos() == p + 1
                })
                &&& (p < u.len() && u[p] == 'k' as u32 ==> r == Ok::<
                    Option<Character>,
                    PatternError,
                >(None))
                &&& (p < u.len() && u[p] == 'c' as u32 && !(p + 1 < u.len()
                    && spec_map_c_letter_some(u[p + 1])) ==> r == Ok::<
                    Option<Character>,
                    PatternError,
                >(None))
            }),
    {
        let ghost u = self.units();
        let ghost p = self.pos();

        // e.g. \n
        let peeked = self.reader.peek();
        if let Some(cp) = peeked {
            if let Some(control) = unicode::map_control_escape(cp) {
                self.reader.advance();
                return Ok(
                    Some(
                        Character {
                            span: self.make_span(span_start),
                            kind: CharacterKind::SingleEscape,
                            value: control,
                        },
                    ),
                );
            }
        }

        // e.g. \cM
        let checkpoint = self.reader.checkpoint();
        if self.reader.eat('c') {
            if let Some(cp) = self.reader.peek() {
                if let Some(control) = unicode::map_c_ascii_letter(cp) {
                    self.reader.advance();
                    return Ok(
                        Some(
                            Character {
                                span: self.make_span(span_start),
                                kind: CharacterKind::ControlLetter,
                                value: control,
                            },
                        ),
                    );
                }
            }
            self.reader.rewind(checkpoint);
        }

        // e.g. \0
        let next_is_zero = match self.reader.peek() {
            Some(cp) => cp == '0' as u32,
            None => false,
        };
        let then_no_digit = match self.reader.peek2() {
            Some(cp) => !unicode::is_decimal_digit(cp),
            None => true,
        };
        if next_is_zero && then_no_digit {
            self.reader.advance();
            return Ok(
                Some(
                    Character {
                        span: self.make_span(span_start),
                        kind: CharacterKind::Null,
                        value: 0x0000,
                    },
                ),
            );
        }

        // e.g. \x41
        if self.reader.eat('x') {
            if let Some(cp) = self.consume_fixed_hex_digits(2) {
                proof {
                    reveal_with_fuel(pow16, 3);
                    lemma_hex_value_bound(u, p + 1, p + 3);
                    lemma_hex_value_nonneg(u, p + 1, p + 3);
                }
                return Ok(
                    Some(
                        Character {
                            span: self.make_span(span_start),
                            kind: CharacterKind::HexadecimalEscape,
                            value: cp,
                        },
                    ),
                );
            }
            return Err(PatternError::InvalidEscape);
        }

        // e.g. \u{1f600}
        match self.consume_reg_exp_unicode_escape_sequence() {
            Err(e) => {
                return Err(e);
            },
            Ok(Some(cp)) => {
                proof {
                    reveal_with_fuel(pow16, 6);
                    lemma_hex_value_bound(u, p + 1, p + 5);
                    lemma_hex_value_nonneg(u, p + 1, p + 5);
                }
                return Ok(
                    Some(
                        Character {
                            span: self.make_span(span_start),
                            kind: CharacterKind::UnicodeEscape,
                            value: cp,
                        },
                    ),
                );
            },
            Ok(None) => {},
        }

        // e.g. \18
        if !self.state.unicode_mode {
            if let Some(cp) = self.consume_legacy_octal_escape_sequence() {
                return Ok(
                    Some(
                        Character {
                            span: self.make_span(span_start),
                            kind: CharacterKind::Octal,
                            value: cp,
                        },
                    ),
                );
            }
        }

        // e.g. \.
        if let Some(cp) = self.consume_identity_escape() {
            return Ok(
                Some(
                    Character {
                        span: self.make_span(span_start),
                        kind: CharacterKind::Identifier,
                        value: cp,
                    },
                ),
            );
        }

        Ok(None)
    }

    /// ```text
    /// ClassEscape[UnicodeMode, NamedCaptureGroups] ::
    ///   b
    ///   [+UnicodeMode] -
    ///   [~UnicodeMode] c ClassControlLetter
    ///   CharacterClassEscape[?UnicodeMode]
    ///   CharacterEscape[?UnicodeMode, ?NamedCaptureGroups]
    ///
    /// ClassControlLetter ::
    ///   DecimalDigit
    ///   -
    /// ```
    /// (Annex B)
    #[verifier::rlimit(50)]
    fn parse_class_escape(&mut self, span_start: usize) -> (r: Result<
        Option<CharacterClassContents>,
        PatternError,
    >)
        requires
            old(self).inv(),
            span_start <= old(self).reader.offset16,
        ensures
            old(self).step(final(self)),
            (r matches Ok(Some(c)) ==> {
                &&& class_contents_wf(c)
                &&& class_contents_span(c).start == old(self).span_factory.span_offset
                    + span_start
                &&& class_contents_span(c).end == final(self).off()
                &&& final(self).pos() > old(self).pos()
            }),
            (r matches Ok(None) ==> old(self).at_same(final(self))),
            ({
                let u = old(self).units();
                let p = old(self).pos();
                let m = old(self).state.unicode_mode;
                &&& (p < u.len() && u[p] == 'b' as u32 ==> {
                    &&& r matches Ok(Some(cc))
                    &&& cc matches CharacterClassContents::Character(c)
                    &&& c.kind == CharacterKind::Symbol
                    &&& c.value == 'b' as u32
                    &&& final(self).pos() == p + 1
                })
                &&& (m && p < u.len() && u[p] == '-' as u32 ==> {
                    &&& r matches Ok(Some(cc))
                    &&& cc matches CharacterClassContents::Character(c)
                    &&& c.kind == CharacterKind::Symbol
                    &&& c.value == '-' as u32
                    &&& final(self).pos() == p + 1
                })
                &&& (!m && p + 1 < u.len() && u[p] == 'c' as u32 && (
                unicode::spec_is_decimal_digit(u[p + 1]) || u[p + 1] == '-' as u32) ==> {
                    &&& r matches Ok(Some(cc))
                    &&& cc matches CharacterClassContents::Character(c)
                    &&& c.kind == CharacterKind::ControlLetter
                    &&& c.value == u[p + 1]
                    &&& final(self).pos() == p + 2
                })
                &&& (p < u.len() && spec_is_class_escape_letter(u[p]) ==> {
                    &&& r matches Ok(Some(cc))
                    &&& cc matches CharacterClassContents::CharacterClassEscape(e)
                    &&& e.kind == spec_class_escape_kind(u[p])
                    &&& final(self).pos() == p + 1
                })
                &&& (p < u.len() ==> (unicode::spec_map_control_escape(u[p]) matches Some(v)
                    ==> {
                    &&& r matches Ok(Some(cc))
                    &&& cc matches CharacterClassContents::Character(c)
                    &&& c.kind == CharacterKind::SingleEscape
                    &&& c.value == v
                    &&& final(self).pos() == p + 1
                }))
                &&& (p + 1 < u.len() && u[p] == 'c' as u32 ==> (
                unicode::spec_map_c_ascii_letter(u[p + 1]) matches Some(v) ==> {
                    &&& r matches Ok(Some(cc))
                    &&& cc matches CharacterClassContents::Character(c)
                    &&& c.kind == CharacterKind::ControlLetter
                    &&& c.value == v
                    &&& final(self).pos() == p + 2
                }))
                &&& (p < u.len() && u[p] == '0' as u32 && !(p + 1 < u.len()
                    && unicode::spec_is_decimal_digit(u[p + 1])) ==> {
                    &&& r matches Ok(Some(cc))
                    &&& cc matches CharacterClassContents::Character(c)
                    &&& c.kind == CharacterKind::Null
                    &&& c.value == 0
                    &&& final(self).pos() == p + 1
                })
                &&& (p < u.len() && u[p] == 'x' as u32 ==> (if fixed_hex_at(u, p + 1, 2) {
                    &&& r matches Ok(Some(cc))
                    &&& cc matches CharacterClassContents::Character(c)
                    &&& c.kind == CharacterKind::HexadecimalEscape
                    &&& c.value == hex_value(u, p + 1, p + 3)
                    &&& final(self).pos() == p + 3
                } else {
                    r == Err::<Option<CharacterClassContents>, PatternError>(
                        PatternError::InvalidEscape,
                    )
                }))
                &&& (p < u.len() && u[p] == 'u' as u32 && m && spec_surrogate_pair_at(u, p + 1)
                    ==> {
                    &&& r matches Ok(Some(cc))
                    &&& cc matches CharacterClassContents::Character(c)
                    &&& c.kind == CharacterKind::UnicodeEscape
                    &&& c.value == spec_surrogate_pair_escape_value(u, p + 1)
                    &&& final(self).pos() == p + 11
                })
                &&& (p < u.len() && u[p] == 'u' as u32 && !(m && spec_surrogate_pair_at(u, p + 1))
                    && fixed_hex_at(u, p + 1, 4) ==> {
                    &&& r matches Ok(Some(cc))
                    &&& cc matches CharacterClassContents::Character(c)
                    &&& c.kind == CharacterKind::UnicodeEscape
                    &&& c.value == hex_value(u, p + 1, p + 5)
                    &&& final(self).pos() == p + 5
                })
                &&& (!m && p < u.len() && unicode::spec_is_octal_digit(u[p]) && !(u[p] == '0'
                    as u32 && !(p + 1 < u.len() && unicode::spec_is_decimal_digit(u[p + 1])))
                    ==> (match spec_legacy_octal(u, p) {
                    Some(ve) => r matches Ok(Some(cc)) && (cc
                        matches CharacterClassContents::Character(c) && c.kind
                        == CharacterKind::Octal && c.value == ve.0) && final(self).pos() == ve.1,
                    None => false,
                }))
            }),
    {
        // b
        if self.reader.eat('b') {
            return Ok(
                Some(
                    CharacterClassContents::Character(
                        Character {
                            span: self.make_span(span_start),
                            kind: CharacterKind::Symbol,
                            value: 'b' as u32,
                        },
                    ),
                ),
            );
        }

        // [+UnicodeMode] -
        if self.state.unicode_mode && self.reader.eat('-') {
            return Ok(
                Some(
                    CharacterClassContents::Character(
                        Character {
                            span: self.make_span(span_start),
                            kind: CharacterKind::Symbol,
                            value: '-' as u32,
                        },
                    ),
                ),
            );
        }

        // [~UnicodeMode] c ClassControlLetter
        if !self.state.unicode_mode {
            let checkpoint = self.reader.checkpoint();
            if self.reader.eat('c') {
                let mut control: Option<u32> = None;
                match self.reader.peek() {
                    Some(cp) => {
                        if unicode::is_decimal_digit(cp) || cp == '-' as u32 {
                            control = Some(cp);
                        }
                    },
                    None => {},
                }
                match control {
                    Some(cp) => {
                        self.reader.advance();
                        return Ok(
                            Some(
                                CharacterClassContents::Character(
                                    Character {
                                        span: self.make_span(span_start),
                                        kind: CharacterKind::ControlLetter,
                                        value: cp,
                                    },
                                ),
                            ),
                        );
                    },
                    None => {
                        self.reader.rewind(checkpoint);
                    },
                }
            }
        }

        // CharacterClassEscape[?UnicodeMode]
        if let Some(character_class_escape) = self.parse_character_class_escape(span_start) {
            return Ok(Some(CharacterClassContents::CharacterClassEscape(character_class_escape)));
        }
        match self.parse_character_class_escape_unicode(span_start) {
            Err(e) => {
                return Err(e);
            },
            Ok(Some(unicode_property_escape)) => {
                return Ok(
                    Some(
                        CharacterClassContents::UnicodePropertyEscape(
                            Box::new(unicode_property_escape),
                        ),
                    ),
                );
            },
            Ok(None) => {},
        }

        // CharacterEscape[?UnicodeMode, ?NamedCaptureGroups]
        match self.parse_character_escape(span_start) {
            Err(e) => Err(e),
            Ok(Some(character_escape)) => Ok(
                Some(CharacterClassContents::Character(character_escape)),
            ),
            Ok(None) => Ok(None),
        }
    }

    /// ```text
    /// ClassAtomNoDash[UnicodeMode, NamedCaptureGroups] ::
    ///   SourceCharacter but not one of \ or ] or -
    ///   \ ClassEscape[?UnicodeMode, ?NamedCaptureGroups]
    ///   \ [lookahead = c]
    /// ```
    /// (Annex B)
    fn parse_class_atom_no_dash(&mut self) -> (r: Result<
        Option<CharacterClassContents>,
        PatternError,
    >)
        requires
            old(self).inv(),
        ensures
            old(self).step(final(self)),
            (r matches Ok(Some(c)) ==> {
                &&& class_contents_wf(c)
                &&& class_contents_span(c).start == old(self).off()
                &&& class_contents_span(c).end == final(self).off()
                &&& final(self).pos() > old(self).pos()
            }),
            (r matches Ok(None) <==> (old(self).pos() >= old(self).units().len() || old(
                self,
            ).units()[old(self).pos()] == ']' as u32 || old(self).units()[old(self).pos()] == '-'
                as u32)),
            (r matches Ok(None) ==> old(self).at_same(final(self))),
            ({
                let u = old(self).units();
                let p = old(self).pos();
                &&& (spec_plain_class_char(u, p) ==> {
                    &&& r matches Ok(Some(cc))
                    &&& cc matches CharacterClassContents::Character(c)
                    &&& c.kind == CharacterKind::Symbol
                    &&& c.value == u[p]
                    &&& final(self).pos() == p + 1
                })
                &&& (p + 1 < u.len() && u[p] == '\\' as u32 && spec_is_class_escape_letter(
                    u[p + 1],
                ) ==> {
                    &&& r matches Ok(Some(cc))
                    &&& cc matches CharacterClassContents::CharacterClassEscape(e)
                    &&& e.kind == spec_class_escape_kind(u[p + 1])
                    &&& final(self).pos() == p + 2
                })
            }),
    {
        let span_start = self.reader.span_position();

        let mut plain: Option<u32> = None;
        match self.reader.peek() {
            Some(cp) => {
                if cp != '\\' as u32 && cp != ']' as u32 && cp != '-' as u32 {
                    plain = Some(cp);
                }
            },
            None => {},
        }
        if let Some(cp) = plain {
            self.reader.advance();
            return Ok(
                Some(
                    CharacterClassContents::Character(
                        Character {
                            span: self.make_span(span_start),
                            kind: CharacterKind::Symbol,
                            value: cp,
                        },
                    ),
                ),
            );
        }

        if self.reader.eat('\\') {
            // \ [lookahead = c]: a literal backslash; the c stays.
            let next_is_c = match self.reader.peek() {
                Some(cp) => cp == 'c' as u32,
                None => false,
            };
            if next_is_c {
                return Ok(
                    Some(
                        CharacterClassContents::Character(
                            Character {
                                span: self.make_span(span_start),
                                kind: CharacterKind::Symbol,
                                value: '\\' as u32,
                            },
                        ),
                    ),
                );
            }

            match self.parse_class_escape(span_start) {
                Err(e) => {
                    return Err(e);
                },
                Ok(Some(class_escape)) => {
                    return Ok(Some(class_escape));
                },
                Ok(None) => {
                    return Err(PatternError::InvalidClassEscape);
                },
            }
        }

        Ok(None)
    }

    /// ```text
    /// ClassAtom[UnicodeMode] ::
    ///   -
    ///   ClassAtomNoDash[?UnicodeMode]
    /// ```
    fn parse_class_atom(&mut self) -> (r: Result<Option<CharacterClassContents>, PatternError>)
        requires
            old(self).inv(),
        ensures
            old(self).step(final(self)),
            (r matches Ok(Some(c)) ==> {
                &&& class_contents_wf(c)
                &&& class_contents_span(c).start == old(self).off()
                &&& class_contents_span(c).end == final(self).off()
                &&& final(self).pos() > old(self).pos()
            }),
            (r matches Ok(None) <==> (old(self).pos() >= old(self).units().len() || old(
                self,
            ).units()[old(self).pos()] == ']' as u32)),
            (r matches Ok(None) ==> old(self).at_same(final(self))),
            ({
                let u = old(self).units();
                let p = old(self).pos();
                &&& (p < u.len() && u[p] == '-' as u32 ==> {
                    &&& r matches Ok(Some(cc))
                    &&& cc matches CharacterClassContents::Character(c)
                    &&& c.kind == CharacterKind::Symbol
                    &&& c.value == '-' as u32
                    &&& final(self).pos() == p + 1
                })
                &&& (spec_plain_class_char(u, p) ==> {
                    &&& r matches Ok(Some(cc))
                    &&& cc matches CharacterClassContents::Character(c)
                    &&& c.kind == CharacterKind::Symbol
                    &&& c.value == u[p]
                    &&& final(self).pos() == p + 1
                })
                &&& (p + 1 < u.len() && u[p] == '\\' as u32 && spec_is_class_escape_letter(
                    u[p + 1],
                ) ==> {
                    &&& r matches Ok(Some(cc))
                    &&& cc matches CharacterClassContents::CharacterClassEscape(e)
                    &&& e.kind == spec_class_escape_kind(u[p + 1])
                    &&& final(self).pos() == p + 2
                })
            }),
    {
        let span_start = self.reader.span_position();
        if self.reader.eat('-') {
            return Ok(
                Some(
                    CharacterClassContents::Character(
                        Character {
                            span: self.make_span(span_start),
                            kind: CharacterKind::Symbol,
                            value: '-' as u32,
                        },
                    ),
                ),
            );
        }

        self.parse_class_atom_no_dash()
    }

    /// ```text
    /// NonemptyClassRanges[UnicodeMode] ::
    ///   ClassAtom[?UnicodeMode]
    ///   ClassAtom[?UnicodeMode] NonemptyClassRangesNoDash[?UnicodeMode]
    ///   ClassAtom[?UnicodeMode] - ClassAtom[?UnicodeMode] ClassContents[?UnicodeMode, ~UnicodeSetsMode]
    /// ```
    /// A `-` between two plain characters forms a range, whose ends must be
    /// ordered; between class escapes it is an error in unicode mode and
    /// three literal atoms otherwise. Running out of input is an
    /// unterminated-class error.
    #[verifier::rlimit(100)]
    fn parse_nonempty_class_ranges(&mut self) -> (r: Result<
        Vec<CharacterClassContents>,
        PatternError,
    >)
        requires
            old(self).inv(),
        ensures
            old(self).step(final(self)),
            (r matches Ok(body) ==> {
                &&& final(self).pos() > old(self).pos()
                &&& class_contents_list_wf(
                    body@,
                    Span { start: old(self).off() as usize, end: final(self).off() as usize },
                )
            }),
            ({
                let u = old(self).units();
                let p = old(self).pos();
                let m = old(self).state.unicode_mode;
                &&& (spec_plain_class_char(u, p) && p + 1 < u.len() && u[p + 1] == ']' as u32
                    ==> {
                    &&& r matches Ok(body)
                    &&& body@.len() == 1
                    &&& body@[0] matches CharacterClassContents::Character(c)
                    &&& c.kind == CharacterKind::Symbol
                    &&& c.value == u[p]
                    &&& final(self).pos() == p + 1
                })
                &&& (spec_plain_class_char(u, p) && p + 1 < u.len() && u[p + 1] == '-' as u32
                    && spec_plain_class_char(u, p + 2) ==> {
                    &&& (u[p + 2] < u[p] ==> r == Err::<Vec<CharacterClassContents>, PatternError>(
                        PatternError::CharacterClassRangeOutOfOrder,
                    ))
                    &&& (u[p] <= u[p + 2] ==> (r matches Ok(body) ==> {
                        &&& body@.len() >= 1
                        &&& body@[0] matches CharacterClassContents::CharacterClassRange(rg)
                        &&& rg.min.value == u[p]
                        &&& rg.max.value == u[p + 2]
                    }))
                    &&& (u[p] <= u[p + 2] && p + 3 < u.len() && u[p + 3] == ']' as u32 ==> {
                        &&& r matches Ok(body)
                        &&& body@.len() == 1
                        &&& body@[0] matches CharacterClassContents::CharacterClassRange(rg)
                        &&& rg.min.value == u[p]
                        &&& rg.max.value == u[p + 2]
                        &&& final(self).pos() == p + 3
                    })
                })
                &&& (p + 1 < u.len() && u[p] == '\\' as u32 && spec_is_class_escape_letter(
                    u[p + 1],
                ) && p + 2 < u.len() && u[p + 2] == '-' as u32 && spec_plain_class_char(u, p + 3)
                    ==> {
                    &&& (m ==> r == Err::<Vec<CharacterClassContents>, PatternError>(
                        PatternError::InvalidCharacterClassRange,
                    ))
                    &&& (!m ==> (r matches Ok(body) ==> {
                        &&& body@.len() >= 3
                        &&& body@[0] matches CharacterClassContents::CharacterClassEscape(e)
                        &&& e.kind == spec_class_escape_kind(u[p + 1])
                        &&& body@[1] matches CharacterClassContents::Character(d)
                        &&& d.value == '-' as u32
                        &&& body@[2] matches CharacterClassContents::Character(c2)
                        &&& c2.value == u[p + 3]
                    }))
                    &&& (!m && p + 4 < u.len() && u[p + 4] == ']' as u32 ==> (r matches Ok(body)
                        && body@.len() == 3 && final(self).pos() == p + 4))
                })
                &&& (spec_plain_class_char(u, p) && p + 1 < u.len() && u[p + 1] == '-' as u32
                    && p + 3 < u.len() && u[p + 2] == '\\' as u32 && spec_is_class_escape_letter(
                    u[p + 3],
                ) ==> {
                    &&& (m ==> r == Err::<Vec<CharacterClassContents>, PatternError>(
                        PatternError::InvalidCharacterClassRange,
                    ))
                    &&& (!m ==> (r matches Ok(body) ==> {
                        &&& body@.len() >= 3
                        &&& body@[0] matches CharacterClassContents::Character(c0)
                        &&& c0.value == u[p]
                        &&& body@[1] matches CharacterClassContents::Character(d)
                        &&& d.value == '-' as u32
                        &&& body@[2] matches CharacterClassContents::CharacterClassEscape(e2)
                        &&& e2.kind == spec_class_escape_kind(u[p + 3])
                    }))
                    &&& (!m && p + 4 < u.len() && u[p + 4] == ']' as u32 ==> (r matches Ok(body)
                        && body@.len() == 3 && final(self).pos() == p + 4))
                })
                &&& (spec_plain_class_run(u, p, u.len() as int) ==> r == Err::<
                    Vec<CharacterClassContents>,
                    PatternError,
                >(PatternError::UnterminatedCharacterClass))
            }),
        decreases old(self).units().len() - old(self).pos(), 1int,
    {
        let ghost pre = *old(self);
        let ghost u0 = self.units();
        let ghost p0 = self.pos();
        proof {
            if spec_plain_class_run(u0, p0, u0.len() as int) {
                if p0 < u0.len() {
                    assert(spec_plain_class_char(u0, p0));
                }
                if p0 + 1 < u0.len() {
                    assert(spec_plain_class_char(u0, p0 + 1));
                }
                if p0 + 1 <= u0.len() {
                    assert(spec_plain_class_run(u0, p0 + 1, u0.len() as int));
                }
            }
        }
        let class_atom = match self.parse_class_atom() {
            Err(e) => {
                return Err(e);
            },
            Ok(Some(a)) => a,
            Ok(None) => {
                // Only the end of the pattern reaches this: a `]` was ruled
                // out by every caller's lookahead.
                return Err(PatternError::UnterminatedCharacterClass);
            },
        };

        // ClassAtom[?UnicodeMode]
        let at_close = match self.reader.peek() {
            Some(cp) => cp == ']' as u32,
            None => false,
        };
        if at_close {
            let mut body: Vec<CharacterClassContents> = Vec::new();
            body.push(class_atom);
            return Ok(body);
        }

        // ClassAtom[?UnicodeMode] - ClassAtom[?UnicodeMode] ClassContents[?UnicodeMode, ~UnicodeSetsMode]
        let at_dash = match self.reader.peek() {
            Some(cp) => cp == '-' as u32,
            None => false,
        };
        let pair_follows = match self.reader.peek2() {
            Some(cp) => cp != ']' as u32,
            None => false,
        };
        if at_dash && pair_follows {
            let span_start = self.reader.span_position();
            self.reader.advance();
            let dash = CharacterClassContents::Character(
                Character {
                    span: self.make_span(span_start),
                    kind: CharacterKind::Symbol,
                    value: '-' as u32,
                },
            );

            let class_atom_to = match self.parse_class_atom() {
                Err(e) => {
                    return Err(e);
                },
                Ok(Some(a)) => a,
                Ok(None) => {
                    return Err(PatternError::UnterminatedCharacterClass);
                },
            };

            let mut body: Vec<CharacterClassContents> = Vec::new();
            let mut is_pair_of_characters = false;
            match (&class_atom, &class_atom_to) {
                (
                    CharacterClassContents::Character(_),
                    CharacterClassContents::Character(_),
                ) => {
                    is_pair_of_characters = true;
                },
                _ => {},
            }
            if is_pair_of_characters {
                let from = match &class_atom {
                    CharacterClassContents::Character(c) => *c,
                    _ => {
                        return Err(PatternError::InvalidCharacterClassRange);
                    },
                };
                let to = match &class_atom_to {
                    CharacterClassContents::Character(c) => *c,
                    _ => {
                        return Err(PatternError::InvalidCharacterClassRange);
                    },
                };
                // The range ends must be ordered.
                if to.value < from.value {
                    return Err(PatternError::CharacterClassRangeOutOfOrder);
                }
                body.push(
                    CharacterClassContents::CharacterClassRange(
                        Box::new(
                            CharacterClassRange {
                                span: from.span.merge(&to.span),
                                min: from,
                                max: to,
                            },
                        ),
                    ),
                );
            } else {
                // A class escape beside a dash: an error in unicode mode,
                // three literal atoms otherwise.
                if self.state.unicode_mode {
                    return Err(PatternError::InvalidCharacterClassRange);
                }
                body.push(class_atom);
                body.push(dash);
                body.push(class_atom_to);
            }

            let mut class_contents = match self.parse_class_contents() {
                Err(e) => {
                    return Err(e);
                },
                Ok((_, contents)) => contents,
            };
            body.append(&mut class_contents);
            return Ok(body);
        }

        // ClassAtom[?UnicodeMode] NonemptyClassRangesNoDash[?UnicodeMode]
        // (the NoDash part was already covered above)
        let mut class_ranges = match self.parse_nonempty_class_ranges() {
            Err(e) => {
                return Err(e);
            },
            Ok(cr) => cr,
        };
        let mut body: Vec<CharacterClassContents> = Vec::new();
        body.push(class_atom);
        body.append(&mut class_ranges);
        Ok(body)
    }

    /// ```text
    /// ClassContents[UnicodeMode, UnicodeSetsMode] ::
    ///   [empty]
    ///   [~UnicodeSetsMode] NonemptyClassRanges[?UnicodeMode]
    ///   [+UnicodeSetsMode] ClassSetExpression
    /// ```
    /// The unicode-sets class grammar is not supported and is refused with
    /// its own error.
    fn parse_class_contents(&mut self) -> (r: Result<
        (CharacterClassContentsKind, Vec<CharacterClassContents>),
        PatternError,
    >)
        requires
            old(self).inv(),
        ensures
            old(self).step(final(self)),
            (r matches Ok((k, body)) ==> {
                &&& k == CharacterClassContentsKind::Union
                &&& class_contents_list_wf(
                    body@,
                    Span { start: old(self).off() as usize, end: final(self).off() as usize },
                )
            }),
            ({
                let u = old(self).units();
                let p = old(self).pos();
                &&& (p < u.len() && u[p] == ']' as u32 ==> (r matches Ok((k, body))
                    && body@.len() == 0 && old(self).at_same(final(self))))
                &&& (old(self).state.unicode_sets_mode && !(p < u.len() && u[p] == ']' as u32)
                    ==> r == Err::<
                    (CharacterClassContentsKind, Vec<CharacterClassContents>),
                    PatternError,
                >(PatternError::ClassSetExpressionNotSupported))
                &&& (!old(self).state.unicode_sets_mode && spec_plain_class_run(
                    u,
                    p,
                    u.len() as int,
                ) ==> r == Err::<
                    (CharacterClassContentsKind, Vec<CharacterClassContents>),
                    PatternError,
                >(PatternError::UnterminatedCharacterClass))
            }),
        decreases old(self).units().len() - old(self).pos(), 2int,
    {
        // [empty]
        proof {
            let u = self.units();
            let p = self.pos();
            if spec_plain_class_run(u, p, u.len() as int) && p < u.len() {
                assert(spec_plain_class_char(u, p));
            }
        }
        let at_close = match self.reader.peek() {
            Some(cp) => cp == ']' as u32,
            None => false,
        };
        if at_close {
            return Ok((CharacterClassContentsKind::Union, Vec::new()));
        }

        // [+UnicodeSetsMode] ClassSetExpression
        if self.state.unicode_sets_mode {
            return Err(PatternError::ClassSetExpressionNotSupported);
        }

        // [~UnicodeSetsMode] NonemptyClassRanges[?UnicodeMode]
        match self.parse_nonempty_class_ranges() {
            Err(e) => Err(e),
            Ok(nonempty_class_ranges) => Ok(
                (CharacterClassContentsKind::Union, nonempty_class_ranges),
            ),
        }
    }

    /// ```text
    /// CharacterClass[UnicodeMode, UnicodeSetsMode] ::
    ///   [ [lookahead != ^] ClassContents[?UnicodeMode, ?UnicodeSetsMode] ]
    ///   [^ ClassContents[?UnicodeMode, ?UnicodeSetsMode] ]
    /// ```
    fn parse_character_class(&mut self) -> (r: Result<Option<CharacterClass>, PatternError>)
        requires
            old(self).inv(),
        ensures
            old(self).step(final(self)),
            (r matches Ok(None) <==> !(old(self).pos() < old(self).units().len() && old(
                self,
            ).units()[old(self).pos()] == '[' as u32)),
            (r matches Ok(None) ==> old(self).at_same(final(self))),
            (r matches Ok(Some(cc)) ==> {
                &&& cc.span.start == old(self).off()
                &&& cc.span.end == final(self).off()
                &&& cc.span.start <= cc.span.end
                &&& cc.kind == CharacterClassContentsKind::Union
                &&& class_contents_list_wf(cc.body@, cc.span)
                &&& final(self).pos() > old(self).pos()
                &&& (cc.negative <==> (old(self).pos() + 1 < old(self).units().len() && old(
                    self,
                ).units()[old(self).pos() + 1] == '^' as u32))
                &&& final(self).pos() >= 1
                &&& old(self).units()[final(self).pos() - 1] == ']' as u32
            }),
            ({
                let u = old(self).units();
                let p = old(self).pos();
                let q = if p + 1 < u.len() && u[p + 1] == '^' as u32 {
                    p + 2
                } else {
                    p + 1
                };
                &&& (old(self).state.unicode_sets_mode && p < u.len() && u[p] == '[' as u32 && !(q
                    < u.len() && u[q] == ']' as u32) ==> r == Err::<
                    Option<CharacterClass>,
                    PatternError,
                >(PatternError::ClassSetExpressionNotSupported))
                &&& (!old(self).state.unicode_sets_mode && p < u.len() && u[p] == '[' as u32
                    && spec_plain_class_run(u, p + 1, u.len() as int) ==> r == Err::<
                    Option<CharacterClass>,
                    PatternError,
                >(PatternError::UnterminatedCharacterClass))
            }),
    {
        let span_start = self.reader.span_position();

        if self.reader.eat('[') {
            let negative = self.reader.eat('^');
            let (kind, body) = match self.parse_class_contents() {
                Err(e) => {
                    return Err(e);
                },
                Ok(kb) => kb,
            };

            if self.reader.eat(']') {
                return Ok(
                    Some(
                        CharacterClass { span: self.make_span(span_start), negative, kind, body },
                    ),
                );
            }

            return Err(PatternError::UnterminatedCharacterClass);
        }

        Ok(None)
    }

    /// ```text
    /// AtomEscape[UnicodeMode, NamedCaptureGroups] ::
    ///   DecimalEscape
    ///   CharacterClassEscape[?UnicodeMode]
    ///   CharacterEscape[?UnicodeMode, ?NamedCaptureGroups]
    ///   [+NamedCaptureGroups] k GroupName[?UnicodeMode]
    /// ```
    /// (Annex B.) `\1` is a backreference; `\0` is not, it stays for the
    /// null character escape.
    #[verifier::rlimit(100)]
    fn parse_atom_escape(&mut self, span_start: usize) -> (r: Result<Option<Term>, PatternError>)
        requires
            old(self).inv(),
            span_start <= old(self).reader.offset16,
        ensures
            old(self).step(final(self)),
            (r matches Ok(Some(t)) ==> {
                &&& term_wf(t)
                &&& term_span(t).start == old(self).span_factory.span_offset + span_start
                &&& term_span(t).end == final(self).off()
                &&& final(self).pos() > old(self).pos()
                &&& !(t is LookAroundAssertion)
            }),
            (r matches Ok(None) ==> old(self).at_same(final(self))),
            ({
                let u = old(self).units();
                let p = old(self).pos();
                (p < u.len() && unicode::spec_is_decimal_digit(u[p]) && sat_u32(
                    dec_value(u, p, digits_end(u, p)),
                ) != 0 ==> (r matches Ok(Some(t)) && t matches Term::IndexedReference(ir)
                    && ir.index == sat_u32(dec_value(u, p, digits_end(u, p))) && ir.index >= 1
                    && final(self).pos() == digits_end(u, p)))
            }),
            (old(self).pos() == 1 && spec_whole_escape_is(
                old(self).units(),
                old(self).state.unicode_mode,
            ) ==> {
                &&& r matches Ok(Some(t))
                &&& t matches Term::Character(c)
                &&& c.kind == spec_whole_escape_kind(
                    old(self).units(),
                    old(self).state.unicode_mode,
                )
                &&& c.value == spec_whole_escape_value(
                    old(self).units(),
                    old(self).state.unicode_mode,
                )
                &&& final(self).pos() == old(self).units().len()
            }),
            ({
                let u = old(self).units();
                let p = old(self).pos();
                let m = old(self).state.unicode_mode;
                let e = id_part_end(u, p + 3);
                &&& (p < u.len() && u[p] == 'c' as u32 && !(p + 1 < u.len()
                    && spec_map_c_letter_some(u[p + 1])) ==> r == Ok::<
                    Option<Term>,
                    PatternError,
                >(None))
                &&& (p < u.len() && u[p] == 'k' as u32 && (p + 1 >= u.len() || u[p + 1] != '<'
                    as u32) ==> r == Err::<Option<Term>, PatternError>(
                    PatternError::InvalidNamedReference,
                ))
                &&& (p < u.len() && u[p] == 'k' as u32 ==> (r matches Ok(Some(t)) ==> {
                    &&& t matches Term::NamedReference(nr)
                    &&& final(self).pos() >= p + 3
                    &&& u[final(self).pos() - 1] == '>' as u32
                    &&& nr.name@ == decode_units(u.subrange(p + 2, final(self).pos() - 1))
                }))
                &&& (p + 1 < u.len() && u[p] == 'k' as u32 && u[p + 1] == '<' as u32 && p + 2
                    < u.len() && unicode::spec_is_identifier_start_char(u[p + 2]) && e < u.len()
                    && u[e] == '>' as u32 ==> {
                    &&& r matches Ok(Some(t))
                    &&& t matches Term::NamedReference(nr)
                    &&& nr.name@ == decode_units(u.subrange(p + 2, e))
                    &&& final(self).pos() == e + 1
                })
            }),
    {
        proof {
            let u = self.units();
            if self.pos() == 1 && spec_whole_escape_is(u, self.state.unicode_mode) && 1
                < u.len() && unicode::spec_is_decimal_digit(u[1]) {
                // Only the null escape puts a digit here, and its digit run
                // has the value zero, so it is no backreference.
                assert(u[1] == '0' as u32 && u.len() == 2);
                assert(digits_end(u, 1) == digits_end(u, 2));
                assert(digits_end(u, 2) == 2);
                assert(dec_value(u, 1, 2) == dec_value(u, 1, 1) * 10 + (u[1] - 0x30));
                assert(sat_u32(dec_value(u, 1, 2)) == 0);
            }
        }
        // DecimalEscape: \1 is an indexed reference
        if let Some(index) = self.consume_decimal_escape() {
            return Ok(
                Some(
                    Term::IndexedReference(
                        IndexedReference { span: self.make_span(span_start), index },
                    ),
                ),
            );
        }

        // CharacterClassEscape: \d, \p{...}
        if let Some(character_class_escape) = self.parse_character_class_escape(span_start) {
            return Ok(Some(Term::CharacterClassEscape(character_class_escape)));
        }
        match self.parse_character_class_escape_unicode(span_start) {
            Err(e) => {
                return Err(e);
            },
            Ok(Some(unicode_property_escape)) => {
                return Ok(
                    Some(Term::UnicodePropertyEscape(Box::new(unicode_property_escape))),
                );
            },
            Ok(None) => {},
        }

        // CharacterEscape: \n, \cM, \0, ...
        match self.parse_character_escape(span_start) {
            Err(e) => {
                return Err(e);
            },
            Ok(Some(character_escape)) => {
                return Ok(Some(Term::Character(character_escape)));
            },
            Ok(None) => {},
        }

        // k GroupName: \k<name> is a named reference
        if self.reader.eat('k') {
            match self.consume_group_name() {
                Err(e) => {
                    return Err(e);
                },
                Ok(Some(name)) => {
                    return Ok(
                        Some(
                            Term::NamedReference(
                                Box::new(
                                    NamedReference { span: self.make_span(span_start), name },
                                ),
                            ),
                        ),
                    );
                },
                Ok(None) => {
                    // A named reference must carry a well-formed group name.
                    return Err(PatternError::InvalidNamedReference);
                },
            }
        }

        Ok(None)
    }

    /// ```text
    /// Assertion[UnicodeMode, UnicodeSetsMode, NamedCaptureGroups] ::
    ///   ^
    ///   $
    ///   \b
    ///   \B
    ///   (?= Disjunction )
    ///   (?! Disjunction )
    ///   (?<= Disjunction )
    ///   (?<! Disjunction )
    /// ```
    /// (Annex B: the two lookahead forms are the quantifiable assertions.)
    fn parse_assertion(&mut self) -> (r: Result<Option<Term>, PatternError>)
        requires
            old(self).inv(),
        ensures
            old(self).step(final(self)),
            (r matches Ok(Some(t)) ==> {
                &&& term_wf(t)
                &&& term_span(t).start == old(self).off()
                &&& term_span(t).end == final(self).off()
                &&& final(self).pos() > old(self).pos()
            }),
            (r matches Ok(None) <==> (spec_boundary_assertion_kind_at(
                old(self).units(),
                old(self).pos(),
            ) is None && spec_lookaround_kind_at(old(self).units(), old(self).pos()) is None)),
            (r matches Ok(None) ==> old(self).at_same(final(self))),
            (spec_boundary_assertion_kind_at(old(self).units(), old(self).pos()) matches Some(k)
                ==> (r matches Ok(Some(t)) && t matches Term::BoundaryAssertion(b) && b.kind
                == k)),
            ({
                let u = old(self).units();
                let p = old(self).pos();
                (spec_boundary_assertion_kind_at(u, p) is None ==> (spec_lookaround_kind_at(
                    u,
                    p,
                ) matches Some(k) ==> (r is Err || (r matches Ok(Some(t)) && t
                    matches Term::LookAroundAssertion(la) && la.kind == k))))
            }),
            ({
                let uu = old(self).units();
                let pp = final(self).pos();
                (r matches Ok(Some(t)) ==> (t matches Term::LookAroundAssertion(la2) ==> pp >= 1
                    && uu[pp - 1] == ')' as u32))
            }),
            ({
                let u = old(self).units();
                let p = old(self).pos();
                match spec_lookaround_kind_at(u, p) {
                    Some(k) => {
                        let pl = spec_lookaround_prefix_len(k);
                        forall|e: int|
                            (#[trigger] spec_plain_run(u, p + pl, e) && e < u.len() && u[e]
                                == ')' as u32) ==> {
                                &&& r matches Ok(Some(t))
                                &&& t matches Term::LookAroundAssertion(la)
                                &&& la.kind == k
                                &&& la.body.body@.len() == 1
                                &&& spec_alt_plain_chars(la.body.body@[0], u, p + pl, e)
                                &&& final(self).pos() == e + 1
                            }
                    },
                    None => true,
                }
            }),
            ({
                let u = old(self).units();
                let p = old(self).pos();
                (spec_lookaround_kind_at(u, p) matches Some(k) && spec_plain_run(
                    u,
                    p + spec_lookaround_prefix_len(k),
                    u.len() as int,
                ) ==> r == Err::<Option<Term>, PatternError>(
                    PatternError::UnterminatedLookaroundAssertion,
                ))
            }),
        decreases old(self).units().len() - old(self).pos(), 2int,
    {
        let span_start = self.reader.span_position();

        let boundary_kind: Option<BoundaryAssertionKind> = if self.reader.eat('^') {
            Some(BoundaryAssertionKind::Start)
        } else if self.reader.eat('$') {
            Some(BoundaryAssertionKind::End)
        } else if self.reader.eat2('\\', 'b') {
            Some(BoundaryAssertionKind::Boundary)
        } else if self.reader.eat2('\\', 'B') {
            Some(BoundaryAssertionKind::NegativeBoundary)
        } else {
            None
        };
        if let Some(kind) = boundary_kind {
            return Ok(
                Some(
                    Term::BoundaryAssertion(
                        BoundaryAssertion { span: self.make_span(span_start), kind },
                    ),
                ),
            );
        }

        let lookaround_kind: Option<LookAroundAssertionKind> = if self.reader.eat3('(', '?', '=') {
            Some(LookAroundAssertionKind::Lookahead)
        } else if self.reader.eat3('(', '?', '!') {
            Some(LookAroundAssertionKind::NegativeLookahead)
        } else if self.reader.eat4('(', '?', '<', '=') {
            Some(LookAroundAssertionKind::Lookbehind)
        } else if self.reader.eat4('(', '?', '<', '!') {
            Some(LookAroundAssertionKind::NegativeLookbehind)
        } else {
            None
        };
        if let Some(kind) = lookaround_kind {
            let disjunction = match self.parse_disjunction() {
                Err(e) => {
                    return Err(e);
                },
                Ok(d) => d,
            };

            if !self.reader.eat(')') {
                return Err(PatternError::UnterminatedLookaroundAssertion);
            }

            return Ok(
                Some(
                    Term::LookAroundAssertion(
                        Box::new(
                            LookAroundAssertion {
                                span: self.make_span(span_start),
                                kind,
                                body: disjunction,
                            },
                        ),
                    ),
                ),
            );
        }

        Ok(None)
    }

    /// ```text
    /// ( GroupSpecifier[?UnicodeMode]opt Disjunction )
    ///
    /// GroupSpecifier[UnicodeMode] ::
    ///   ? GroupName[?UnicodeMode]
    /// ```
    fn parse_capturing_group(&mut self) -> (r: Result<Option<CapturingGroup>, PatternError>)
        requires
            old(self).inv(),
        ensures
            old(self).step(final(self)),
            (r matches Ok(None) <==> !(old(self).pos() < old(self).units().len() && old(
                self,
            ).units()[old(self).pos()] == '(' as u32)),
            (r matches Ok(None) ==> old(self).at_same(final(self))),
            (r matches Ok(Some(g)) ==> {
                &&& g.span.start == old(self).off()
                &&& g.span.end == final(self).off()
                &&& g.span.start <= g.span.end
                &&& disjunction_wf(g.body)
                &&& span_within(g.body.span, g.span)
                &&& final(self).pos() > old(self).pos()
                &&& (g.name is Some <==> (old(self).pos() + 1 < old(self).units().len() && old(
                    self,
                ).units()[old(self).pos() + 1] == '?' as u32))
            }),
            ({
                let u = old(self).units();
                let p = old(self).pos();
                &&& (p < u.len() && u[p] == '(' as u32 ==> (forall|e: int|
                    (#[trigger] spec_plain_run(u, p + 1, e) && e < u.len() && u[e] == ')'
                        as u32) ==> {
                        &&& r matches Ok(Some(g))
                        &&& g.name is None
                        &&& g.body.body@.len() == 1
                        &&& spec_alt_plain_chars(g.body.body@[0], u, p + 1, e)
                        &&& final(self).pos() == e + 1
                    }))
                &&& (p < u.len() && u[p] == '(' as u32 && spec_plain_run(u, p + 1, u.len() as int)
                    ==> r == Err::<Option<CapturingGroup>, PatternError>(
                    PatternError::UnterminatedCapturingGroup,
                ))
                &&& (r matches Ok(Some(g)) ==> (g.name matches Some(nm) ==> exists|k: int|
                    p + 3 <= k < u.len() && u[k] == '>' as u32 && nm@ == decode_units(
                        u.subrange(p + 3, k),
                    )))
                &&& ({
                    let e = id_part_end(u, p + 4);
                    p + 2 < u.len() && u[p] == '(' as u32 && u[p + 1] == '?' as u32 && u[p + 2]
                        == '<' as u32 && p + 3 < u.len() && unicode::spec_is_identifier_start_char(
                        u[p + 3],
                    ) && e < u.len() && u[e] == '>' as u32 ==> (forall|f: int|
                        (#[trigger] spec_plain_run(u, e + 1, f) && f < u.len() && u[f] == ')'
                            as u32) ==> {
                            &&& r matches Ok(Some(g))
                            &&& g.name matches Some(nm)
                            &&& nm@ == decode_units(u.subrange(p + 3, e))
                            &&& g.body.body@.len() == 1
                            &&& spec_alt_plain_chars(g.body.body@[0], u, e + 1, f)
                            &&& final(self).pos() == f + 1
                        })
                })
            }),
        decreases old(self).units().len() - old(self).pos(), 1int,
    {
        let span_start = self.reader.span_position();

        if self.reader.eat('(') {
            // The group specifier is optional.
            if self.reader.eat('?') {
                match self.consume_group_name() {
                    Err(e) => {
                        return Err(e);
                    },
                    Ok(Some(name)) => {
                        let disjunction = match self.parse_disjunction() {
                            Err(e) => {
                                return Err(e);
                            },
                            Ok(d) => d,
                        };
                        if self.reader.eat(')') {
                            return Ok(
                                Some(
                                    CapturingGroup {
                                        span: self.make_span(span_start),
                                        name: Some(name),
                                        body: disjunction,
                                    },
                                ),
                            );
                        }
                    },
                    Ok(None) => {},
                }
                return Err(PatternError::UnterminatedCapturingGroupName);
            }

            let disjunction = match self.parse_disjunction() {
                Err(e) => {
                    return Err(e);
                },
                Ok(d) => d,
            };
            if self.reader.eat(')') {
                return Ok(
                    Some(
                        CapturingGroup {
                            span: self.make_span(span_start),
                            name: None,
                            body: disjunction,
                        },
                    ),
                );
            }

            return Err(PatternError::UnterminatedCapturingGroup);
        }

        Ok(None)
    }

    /// ```text
    /// (?: Disjunction )
    /// ```
    fn parse_ignore_group(&mut self) -> (r: Result<Option<IgnoreGroup>, PatternError>)
        requires
            old(self).inv(),
        ensures
            old(self).step(final(self)),
            (r matches Ok(None) <==> !(old(self).pos() + 3 <= old(self).units().len() && old(
                self,
            ).units()[old(self).pos()] == '(' as u32 && old(self).units()[old(self).pos() + 1]
                == '?' as u32 && old(self).units()[old(self).pos() + 2] == ':' as u32)),
            (r matches Ok(None) ==> old(self).at_same(final(self))),
            (r matches Ok(Some(g)) ==> {
                &&& g.span.start == old(self).off()
                &&& g.span.end == final(self).off()
                &&& g.span.start <= g.span.end
                &&& g.enabling_modifiers is None
                &&& g.disabling_modifiers is None
                &&& disjunction_wf(g.body)
                &&& span_within(g.body.span, g.span)
                &&& final(self).pos() > old(self).pos()
            }),
            ({
                let u = old(self).units();
                let p = old(self).pos();
                &&& (p + 3 <= u.len() && u[p] == '(' as u32 && u[p + 1] == '?' as u32 && u[p + 2]
                    == ':' as u32 ==> (forall|e: int|
                    (#[trigger] spec_plain_run(u, p + 3, e) && e < u.len() && u[e] == ')'
                        as u32) ==> {
                        &&& r matches Ok(Some(g))
                        &&& g.body.body@.len() == 1
                        &&& spec_alt_plain_chars(g.body.body@[0], u, p + 3, e)
                        &&& final(self).pos() == e + 1
                    }))
                &&& (p + 3 <= u.len() && u[p] == '(' as u32 && u[p + 1] == '?' as u32 && u[p + 2]
                    == ':' as u32 && spec_plain_run(u, p + 3, u.len() as int) ==> r == Err::<
                    Option<IgnoreGroup>,
                    PatternError,
                >(PatternError::UnterminatedIgnoreGroup))
            }),
        decreases old(self).units().len() - old(self).pos(), 1int,
    {
        let ghost u = self.units();
        let ghost p = self.pos();
        let span_start = self.reader.span_position();

        if self.reader.eat3('(', '?', ':') {
            proof {
                assert(spec_plain_run(u, p + 3, p + 3));
            }
            let disjunction = match self.parse_disjunction() {
                Err(e) => {
                    return Err(e);
                },
                Ok(d) => d,
            };

            if !self.reader.eat(')') {
                return Err(PatternError::UnterminatedIgnoreGroup);
            }

            return Ok(
                Some(
                    IgnoreGroup {
                        span: self.make_span(span_start),
                        enabling_modifiers: None,
                        disabling_modifiers: None,
                        body: disjunction,
                    },
                ),
            );
        }

        Ok(None)
    }

    /// ```text
    /// Atom[UnicodeMode, UnicodeSetsMode, NamedCaptureGroups] ::
    ///   PatternCharacter
    ///   .
    ///   \ AtomEscape[?UnicodeMode, ?NamedCaptureGroups]
    ///   CharacterClass[?UnicodeMode, ?UnicodeSetsMode]
    ///   ( GroupSpecifier[?UnicodeMode]opt Disjunction )
    ///   (?: Disjunction )
    /// ```
    fn parse_atom(&mut self) -> (r: Result<Option<Term>, PatternError>)
        requires
            old(self).inv(),
        ensures
            old(self).step(final(self)),
            (r matches Ok(Some(t)) ==> {
                &&& term_wf(t)
                &&& term_span(t).start == old(self).off()
                &&& term_span(t).end == final(self).off()
                &&& final(self).pos() > old(self).pos()
            }),
            (r matches Ok(None) ==> old(self).at_same(final(self))),
            ({
                let u = old(self).units();
                let p = old(self).pos();
                &&& (p < u.len() && !unicode::spec_is_syntax_character(u[p]) ==> {
                    &&& r matches Ok(Some(t))
                    &&& t matches Term::Character(c)
                    &&& c.value == u[p]
                    &&& c.kind == CharacterKind::Symbol
                    &&& final(self).pos() == p + 1
                })
                &&& (r matches Ok(None) <==> (p >= u.len() || (
                unicode::spec_is_syntax_character(u[p]) && u[p] != '.' as u32 && u[p] != '\\'
                    as u32 && u[p] != '[' as u32 && u[p] != '(' as u32)))
                &&& (r matches Ok(Some(t)) ==> !(t is LookAroundAssertion))
                &&& (p + 4 <= u.len() && u[p] == '(' as u32 && u[p + 1] == '?' as u32 && u[p + 2]
                    == ':' as u32 && u[p + 3] == ')' as u32 ==> {
                    &&& r matches Ok(Some(t))
                    &&& t matches Term::IgnoreGroup(g)
                    &&& g.body.body@.len() == 1
                    &&& g.body.body@[0].body@.len() == 0
                    &&& final(self).pos() == p + 4
                })
                &&& (p == 0 && spec_whole_escape_is(u, old(self).state.unicode_mode) ==> {
                    &&& r matches Ok(Some(t))
                    &&& t matches Term::Character(c)
                    &&& c.kind == spec_whole_escape_kind(u, old(self).state.unicode_mode)
                    &&& c.value == spec_whole_escape_value(u, old(self).state.unicode_mode)
                    &&& final(self).pos() == u.len()
                })
                &&& (p < u.len() && u[p] == '(' as u32 && spec_plain_run(u, p + 1, u.len() as int)
                    ==> r == Err::<Option<Term>, PatternError>(
                    PatternError::UnterminatedCapturingGroup,
                ))
                &&& (p + 3 <= u.len() && u[p] == '(' as u32 && u[p + 1] == '?' as u32 && u[p + 2]
                    == ':' as u32 && spec_plain_run(u, p + 3, u.len() as int) ==> r == Err::<
                    Option<Term>,
                    PatternError,
                >(PatternError::UnterminatedIgnoreGroup))
                &&& (!old(self).state.unicode_sets_mode && p < u.len() && u[p] == '[' as u32
                    && spec_plain_class_run(u, p + 1, u.len() as int) ==> r == Err::<
                    Option<Term>,
                    PatternError,
                >(PatternError::UnterminatedCharacterClass))
            }),
        decreases old(self).units().len() - old(self).pos(), 2int,
    {
        let span_start = self.reader.span_position();

        proof {
            let uu = self.units();
            let pp = self.pos();
            if pp + 4 <= uu.len() && uu[pp] == '(' as u32 && uu[pp + 1] == '?' as u32 && uu[pp
                + 2] == ':' as u32 && uu[pp + 3] == ')' as u32 {
                assert(spec_plain_run(uu, pp + 3, pp + 3));
            }
        }

        // PatternCharacter
        let mut pattern_character: Option<u32> = None;
        match self.reader.peek() {
            Some(cp) => {
                if !unicode::is_syntax_character(cp) {
                    pattern_character = Some(cp);
                }
            },
            None => {},
        }
        if let Some(cp) = pattern_character {
            self.reader.advance();
            return Ok(
                Some(
                    Term::Character(
                        Character {
                            span: self.make_span(span_start),
                            kind: CharacterKind::Symbol,
                            value: cp,
                        },
                    ),
                ),
            );
        }

        // .
        if self.reader.eat('.') {
            return Ok(Some(Term::Dot(Dot { span: self.make_span(span_start) })));
        }

        // \ AtomEscape[?UnicodeMode, ?NamedCaptureGroups]
        if self.reader.eat('\\') {
            match self.parse_atom_escape(span_start) {
                Err(e) => {
                    return Err(e);
                },
                Ok(Some(atom_escape)) => {
                    return Ok(Some(atom_escape));
                },
                Ok(None) => {
                    return Err(PatternError::InvalidAtomEscape);
                },
            }
        }

        // CharacterClass[?UnicodeMode, ?UnicodeSetsMode]
        match self.parse_character_class() {
            Err(e) => {
                return Err(e);
            },
            Ok(Some(character_class)) => {
                return Ok(Some(Term::CharacterClass(Box::new(character_class))));
            },
            Ok(None) => {},
        }

        // (?: Disjunction )
        match self.parse_ignore_group() {
            Err(e) => {
                return Err(e);
            },
            Ok(Some(ignore_group)) => {
                return Ok(Some(Term::IgnoreGroup(Box::new(ignore_group))));
            },
            Ok(None) => {},
        }

        // ( GroupSpecifier[?UnicodeMode]opt Disjunction )
        match self.parse_capturing_group() {
            Err(e) => {
                return Err(e);
            },
            Ok(Some(capturing_group)) => {
                return Ok(Some(Term::CapturingGroup(Box::new(capturing_group))));
            },
            Ok(None) => {},
        }

        Ok(None)
    }

    /// ```text
    /// ExtendedAtom[NamedCaptureGroups] ::
    ///   .
    ///   \ AtomEscape[~UnicodeMode, ?NamedCaptureGroups]
    ///   \ [lookahead = c]
    ///   CharacterClass[~UnicodeMode, ~UnicodeSetsMode]
    ///   ( GroupSpecifier[~UnicodeMode]opt Disjunction )
    ///   (?: Disjunction )
    ///   InvalidBracedQuantifier
    ///   ExtendedPatternCharacter
    /// ```
    /// (Annex B)
    #[verifier::rlimit(60)]
    fn parse_extended_atom(&mut self) -> (r: Result<Option<Term>, PatternError>)
        requires
            old(self).inv(),
        ensures
            old(self).step(final(self)),
            (r matches Ok(Some(t)) ==> {
                &&& term_wf(t)
                &&& term_span(t).start == old(self).off()
                &&& term_span(t).end == final(self).off()
                &&& final(self).pos() > old(self).pos()
            }),
            (r matches Ok(None) ==> old(self).at_same(final(self))),
            ({
                let u = old(self).units();
                let p = old(self).pos();
                &&& (p < u.len() && !unicode::spec_is_syntax_character(u[p]) ==> {
                    &&& r matches Ok(Some(t))
                    &&& t matches Term::Character(c)
                    &&& c.value == u[p]
                    &&& c.kind == CharacterKind::Symbol
                    &&& final(self).pos() == p + 1
                })
                &&& (r matches Ok(None) <==> (p >= u.len() || u[p] == '^' as u32 || u[p] == '$'
                    as u32 || u[p] == ')' as u32 || u[p] == '|' as u32))
                &&& (r matches Ok(Some(t)) ==> !(t is LookAroundAssertion))
                &&& (p < u.len() && (u[p] == '*' as u32 || u[p] == '+' as u32 || u[p] == '?'
                    as u32) ==> r == Err::<Option<Term>, PatternError>(
                    PatternError::InvalidBracedQuantifier,
                ))
                &&& (p < u.len() && u[p] == '{' as u32 ==> r is Err)
                &&& (p + 4 <= u.len() && u[p] == '(' as u32 && u[p + 1] == '?' as u32 && u[p + 2]
                    == ':' as u32 && u[p + 3] == ')' as u32 ==> {
                    &&& r matches Ok(Some(t))
                    &&& t matches Term::IgnoreGroup(g)
                    &&& g.body.body@.len() == 1
                    &&& g.body.body@[0].body@.len() == 0
                    &&& final(self).pos() == p + 4
                })
                &&& (p == 0 && spec_whole_escape_is(u, old(self).state.unicode_mode) ==> {
                    &&& r matches Ok(Some(t))
                    &&& t matches Term::Character(c)
                    &&& c.kind == spec_whole_escape_kind(u, old(self).state.unicode_mode)
                    &&& c.value == spec_whole_escape_value(u, old(self).state.unicode_mode)
                    &&& final(self).pos() == u.len()
                })
                &&& (p + 1 < u.len() && u[p] == '\\' as u32 && u[p + 1] == 'c' as u32 && !(p + 2
                    < u.len() && spec_map_c_letter_some(u[p + 2])) ==> {
                    &&& r matches Ok(Some(t))
                    &&& t matches Term::Character(c)
                    &&& c.kind == CharacterKind::Symbol
                    &&& c.value == '\\' as u32
                    &&& final(self).pos() == p + 1
                })
                &&& (p < u.len() && u[p] == '(' as u32 && spec_plain_run(u, p + 1, u.len() as int)
                    ==> r == Err::<Option<Term>, PatternError>(
                    PatternError::UnterminatedCapturingGroup,
                ))
                &&& (p + 3 <= u.len() && u[p] == '(' as u32 && u[p + 1] == '?' as u32 && u[p + 2]
                    == ':' as u32 && spec_plain_run(u, p + 3, u.len() as int) ==> r == Err::<
                    Option<Term>,
                    PatternError,
                >(PatternError::UnterminatedIgnoreGroup))
                &&& (!old(self).state.unicode_sets_mode && p < u.len() && u[p] == '[' as u32
                    && spec_plain_class_run(u, p + 1, u.len() as int) ==> r == Err::<
                    Option<Term>,
                    PatternError,
                >(PatternError::UnterminatedCharacterClass))
            }),
        decreases old(self).units().len() - old(self).pos(), 2int,
    {
        let span_start = self.reader.span_position();

        proof {
            let uu = self.units();
            let pp = self.pos();
            if pp + 4 <= uu.len() && uu[pp] == '(' as u32 && uu[pp + 1] == '?' as u32 && uu[pp
                + 2] == ':' as u32 && uu[pp + 3] == ')' as u32 {
                assert(spec_plain_run(uu, pp + 3, pp + 3));
            }
        }

        // .
        if self.reader.eat('.') {
            return Ok(Some(Term::Dot(Dot { span: self.make_span(span_start) })));
        }

        // \ AtomEscape[~UnicodeMode, ?NamedCaptureGroups]
        if self.reader.eat('\\') {
            match self.parse_atom_escape(span_start) {
                Err(e) => {
                    return Err(e);
                },
                Ok(Some(atom_escape)) => {
                    return Ok(Some(atom_escape));
                },
                Ok(None) => {},
            }

            // \ [lookahead = c]: a literal backslash; the c stays.
            let next_is_c = match self.reader.peek() {
                Some(cp) => cp == 'c' as u32,
                None => false,
            };
            if next_is_c {
                return Ok(
                    Some(
                        Term::Character(
                            Character {
                                span: self.make_span(span_start),
                                kind: CharacterKind::Symbol,
                                value: '\\' as u32,
                            },
                        ),
                    ),
                );
            }

            return Err(PatternError::InvalidEscape);
        }

        // CharacterClass[~UnicodeMode, ~UnicodeSetsMode]
        match self.parse_character_class() {
            Err(e) => {
                return Err(e);
            },
            Ok(Some(character_class)) => {
                return Ok(Some(Term::CharacterClass(Box::new(character_class))));
            },
            Ok(None) => {},
        }

        // (?: Disjunction )
        match self.parse_ignore_group() {
            Err(e) => {
                return Err(e);
            },
            Ok(Some(ignore_group)) => {
                return Ok(Some(Term::IgnoreGroup(Box::new(ignore_group))));
            },
            Ok(None) => {},
        }

        // ( GroupSpecifier[~UnicodeMode]opt Disjunction )
        match self.parse_capturing_group() {
            Err(e) => {
                return Err(e);
            },
            Ok(Some(capturing_group)) => {
                return Ok(Some(Term::CapturingGroup(Box::new(capturing_group))));
            },
            Ok(None) => {},
        }

        // InvalidBracedQuantifier: a braced quantifier may not stand where
        // an atom is expected.
        match self.consume_quantifier() {
            Err(e) => {
                return Err(e);
            },
            Ok(Some(_)) => {
                return Err(PatternError::InvalidBracedQuantifier);
            },
            Ok(None) => {},
        }

        // ExtendedPatternCharacter
        if let Some(cp) = self.consume_extended_pattern_character() {
            return Ok(
                Some(
                    Term::Character(
                        Character {
                            span: self.make_span(span_start),
                            kind: CharacterKind::Symbol,
                            value: cp,
                        },
                    ),
                ),
            );
        }

        Ok(None)
    }

    /// ```text
    /// Term[UnicodeMode, UnicodeSetsMode, NamedCaptureGroups] ::
    ///   [+UnicodeMode] Assertion
    ///   [+UnicodeMode] Atom Quantifier
    ///   [+UnicodeMode] Atom
    ///   [~UnicodeMode] QuantifiableAssertion Quantifier
    ///   [~UnicodeMode] Assertion
    ///   [~UnicodeMode] ExtendedAtom Quantifier
    ///   [~UnicodeMode] ExtendedAtom
    /// ```
    /// (Annex B.) A quantifier with no atom before it is an error; a
    /// lookbehind assertion is never quantifiable.
    #[verifier::rlimit(60)]
    fn parse_term(&mut self) -> (r: Result<Option<Term>, PatternError>)
        requires
            old(self).inv(),
        ensures
            old(self).step(final(self)),
            (r matches Ok(Some(t)) ==> {
                &&& term_wf(t)
                &&& term_span(t).start == old(self).off()
                &&& term_span(t).end == final(self).off()
                &&& final(self).pos() > old(self).pos()
            }),
            (r matches Ok(None) ==> old(self).at_same(final(self))),
            ({
                let u = old(self).units();
                let p = old(self).pos();
                let m = old(self).state.unicode_mode;
                &&& (p < u.len() && !unicode::spec_is_syntax_character(u[p]) && !(p + 1
                    < u.len() && (u[p + 1] == '*' as u32 || u[p + 1] == '+' as u32 || u[p + 1]
                    == '?' as u32 || u[p + 1] == '{' as u32)) ==> {
                    &&& r matches Ok(Some(t))
                    &&& t matches Term::Character(c)
                    &&& c.kind == CharacterKind::Symbol
                    &&& c.value == u[p]
                    &&& final(self).pos() == p + 1
                })
                &&& (r matches Ok(None) <==> spec_term_blocked(u, p, m))
                &&& (m && p < u.len() && (u[p] == '*' as u32 || u[p] == '+' as u32 || u[p] == '?'
                    as u32) ==> r == Err::<Option<Term>, PatternError>(
                    PatternError::LoneQuantifier,
                ))
                &&& (!m && p < u.len() && (u[p] == '*' as u32 || u[p] == '+' as u32 || u[p]
                    == '?' as u32) ==> r == Err::<Option<Term>, PatternError>(
                    PatternError::InvalidBracedQuantifier,
                ))
                &&& (p < u.len() && u[p] == '{' as u32 ==> r is Err)
                &&& (spec_canonical_empty_group(u) && p == 0 ==> {
                    &&& r matches Ok(Some(t))
                    &&& t matches Term::IgnoreGroup(g)
                    &&& g.body.body@.len() == 1
                    &&& g.body.body@[0].body@.len() == 0
                    &&& final(self).pos() == 4
                })
                &&& (p == 0 && spec_whole_escape_is(u, m) ==> {
                    &&& r matches Ok(Some(t))
                    &&& t matches Term::Character(c)
                    &&& c.kind == spec_whole_escape_kind(u, m)
                    &&& c.value == spec_whole_escape_value(u, m)
                    &&& final(self).pos() == u.len()
                })
                &&& (p == 0 ==> (match spec_lookaround_kind_at(u, 0) {
                    Some(k) => {
                        let pl = spec_lookaround_prefix_len(k);
                        &&& (u.len() > pl && spec_plain_run(u, pl, u.len() - 1) && u[u.len()
                            - 1] == ')' as u32 ==> {
                            &&& r matches Ok(Some(t))
                            &&& t matches Term::LookAroundAssertion(la)
                            &&& la.kind == k
                            &&& la.body.body@.len() == 1
                            &&& spec_alt_plain_chars(la.body.body@[0], u, pl, u.len() - 1)
                            &&& final(self).pos() == u.len()
                        })
                        &&& (u.len() > pl + 1 && spec_plain_run(u, pl, u.len() - 2) && u[u.len()
                            - 2] == ')' as u32 && (u[u.len() - 1] == '*' as u32 || u[u.len() - 1]
                            == '+' as u32 || u[u.len() - 1] == '?' as u32) ==> (if m {
                            &&& r matches Ok(Some(t))
                            &&& t matches Term::LookAroundAssertion(la)
                            &&& la.kind == k
                            &&& final(self).pos() == u.len() - 1
                        } else if k == LookAroundAssertionKind::Lookahead || k
                            == LookAroundAssertionKind::NegativeLookahead {
                            &&& r matches Ok(Some(t))
                            &&& t matches Term::Quantifier(q)
                            &&& q.body matches Term::LookAroundAssertion(la)
                            &&& la.kind == k
                            &&& q.greedy
                            &&& (u[u.len() - 1] == '+' as u32 ==> q.min == 1 && q.max is None)
                            &&& (u[u.len() - 1] == '*' as u32 ==> q.min == 0 && q.max is None)
                            &&& (u[u.len() - 1] == '?' as u32 ==> q.min == 0 && q.max == Some(
                                1u32,
                            ))
                            &&& final(self).pos() == u.len()
                        } else {
                            &&& r matches Ok(Some(t))
                            &&& t matches Term::LookAroundAssertion(la)
                            &&& la.kind == k
                            &&& final(self).pos() == u.len() - 1
                        }))
                    },
                    None => true,
                }))
                &&& (spec_unterminated_opener(u, p, old(self).state.unicode_sets_mode)
                    matches Some(err) ==> r == Err::<Option<Term>, PatternError>(err))
            }),
        decreases old(self).units().len() - old(self).pos(), 3int,
    {
        // [+UnicodeMode] Assertion / Atom Quantifier / Atom
        if self.state.unicode_mode {
            match self.parse_assertion() {
                Err(e) => {
                    return Err(e);
                },
                Ok(Some(assertion)) => {
                    return Ok(Some(assertion));
                },
                Ok(None) => {},
            }

            let span_start = self.reader.span_position();
            let atom = match self.parse_atom() {
                Err(e) => {
                    return Err(e);
                },
                Ok(a) => a,
            };
            let quantifier = match self.consume_quantifier() {
                Err(e) => {
                    return Err(e);
                },
                Ok(q) => q,
            };
            return match (atom, quantifier) {
                (Some(atom), Some(((min, max), greedy))) => Ok(
                    Some(
                        Term::Quantifier(
                            Box::new(
                                Quantifier {
                                    span: self.make_span(span_start),
                                    greedy,
                                    min,
                                    max,
                                    body: atom,
                                },
                            ),
                        ),
                    ),
                ),
                (Some(atom), None) => Ok(Some(atom)),
                (None, Some(_)) => Err(PatternError::LoneQuantifier),
                (None, None) => Ok(None),
            };
        }

        // [~UnicodeMode] QuantifiableAssertion Quantifier / Assertion
        let span_start = self.reader.span_position();
        match self.parse_assertion() {
            Err(e) => {
                return Err(e);
            },
            Ok(Some(assertion)) => {
                // QuantifiableAssertion: a lookahead, positive or negative.
                let mut quantifiable = false;
                if let Term::LookAroundAssertion(look_around) = &assertion {
                    if look_around.kind == LookAroundAssertionKind::Lookahead
                        || look_around.kind == LookAroundAssertionKind::NegativeLookahead {
                        quantifiable = true;
                    }
                }
                if quantifiable {
                    match self.consume_quantifier() {
                        Err(e) => {
                            return Err(e);
                        },
                        Ok(Some(((min, max), greedy))) => {
                            return Ok(
                                Some(
                                    Term::Quantifier(
                                        Box::new(
                                            Quantifier {
                                                span: self.make_span(span_start),
                                                greedy,
                                                min,
                                                max,
                                                body: assertion,
                                            },
                                        ),
                                    ),
                                ),
                            );
                        },
                        Ok(None) => {},
                    }
                }
                return Ok(Some(assertion));
            },
            Ok(None) => {},
        }

        // [~UnicodeMode] ExtendedAtom Quantifier / ExtendedAtom
        let extended_atom = match self.parse_extended_atom() {
            Err(e) => {
                return Err(e);
            },
            Ok(a) => a,
        };
        let quantifier = match self.consume_quantifier() {
            Err(e) => {
                return Err(e);
            },
            Ok(q) => q,
        };
        match (extended_atom, quantifier) {
            (Some(extended_atom), Some(((min, max), greedy))) => Ok(
                Some(
                    Term::Quantifier(
                        Box::new(
                            Quantifier {
                                span: self.make_span(span_start),
                                min,
                                max,
                                greedy,
                                body: extended_atom,
                            },
                        ),
                    ),
                ),
            ),
            (Some(extended_atom), None) => Ok(Some(extended_atom)),
            (None, Some(_)) => Err(PatternError::LoneQuantifier),
            (None, None) => Ok(None),
        }
    }

    /// ```text
    /// Alternative[UnicodeMode, UnicodeSetsMode, NamedCaptureGroups] ::
    ///   [empty]
    ///   Alternative Term
    /// ```
    fn parse_alternative(&mut self) -> (r: Result<Alternative, PatternError>)
        requires
            old(self).inv(),
        ensures
            old(self).step(final(self)),
            (r matches Ok(a) ==> {
                &&& alternative_wf(a)
                &&& a.span.start == old(self).off()
                &&& a.span.end == final(self).off()
            }),
            ({
                let u = old(self).units();
                let p = old(self).pos();
                let m = old(self).state.unicode_mode;
                forall|e: int|
                    (#[trigger] spec_plain_run(u, p, e) && (e == u.len() || spec_term_blocked(
                        u,
                        e,
                        m,
                    ))) ==> {
                        &&& r matches Ok(a)
                        &&& final(self).pos() == e
                        &&& spec_alt_plain_chars(a, u, p, e)
                    }
            }),
            (spec_canonical_empty_group(old(self).units()) && old(self).pos() == 0 ==> {
                &&& r matches Ok(a)
                &&& a.body@.len() == 1
                &&& a.body@[0] matches Term::IgnoreGroup(g)
                &&& g.body.body@.len() == 1
                &&& g.body.body@[0].body@.len() == 0
                &&& final(self).pos() == 4
            }),
            (old(self).pos() == 0 && spec_whole_escape_is(
                old(self).units(),
                old(self).state.unicode_mode,
            ) ==> {
                &&& r matches Ok(a)
                &&& a.body@.len() == 1
                &&& a.body@[0] matches Term::Character(c)
                &&& c.kind == spec_whole_escape_kind(
                    old(self).units(),
                    old(self).state.unicode_mode,
                )
                &&& c.value == spec_whole_escape_value(
                    old(self).units(),
                    old(self).state.unicode_mode,
                )
                &&& final(self).pos() == old(self).units().len()
            }),
            (r matches Ok(a) ==> spec_term_blocked(
                final(self).units(),
                final(self).pos(),
                old(self).state.unicode_mode,
            )),
            (spec_unterminated_opener(
                old(self).units(),
                old(self).pos(),
                old(self).state.unicode_sets_mode,
            ) matches Some(err) ==> r == Err::<Alternative, PatternError>(err)),
        decreases old(self).units().len() - old(self).pos(), 4int,
    {
        let ghost u = self.units();
        let ghost p = self.pos();
        let span_start = self.reader.span_position();

        let mut body: Vec<Term> = Vec::new();
        let mut more = true;
        while more
            invariant
                self.inv(),
                old(self).same_ctx(self),
                u == self.units(),
                p <= self.pos() <= u.len(),
                span_start == old(self).reader.offset16,
                old(self).reader.offset16 <= self.reader.offset16,
                terms_wf(
                    body@,
                    Span { start: old(self).off() as usize, end: self.off() as usize },
                ),
                body@.len() > 0 ==> term_span(body@.last()).end == self.off(),
                forall|e: int|
                    (#[trigger] spec_plain_run(u, p, e) && (e == u.len() || spec_term_blocked(
                        u,
                        e,
                        old(self).state.unicode_mode,
                    ))) ==> {
                        &&& self.pos() <= e
                        &&& body@.len() == self.pos() - p
                        &&& spec_terms_plain_chars(body@, u, p)
                        &&& (!more ==> self.pos() == e)
                    },
                spec_canonical_empty_group(u) && p == 0 ==> {
                    &&& (self.pos() == 0 && body@.len() == 0 && more) || (self.pos() == 4
                        && body@.len() == 1 && (body@[0] matches Term::IgnoreGroup(g)
                        && g.body.body@.len() == 1 && g.body.body@[0].body@.len() == 0))
                    &&& (!more ==> self.pos() == 4)
                },
                p == 0 && spec_whole_escape_is(u, old(self).state.unicode_mode) ==> {
                    &&& (self.pos() == 0 && body@.len() == 0 && more) || (self.pos() == u.len()
                        && body@.len() == 1 && (body@[0] matches Term::Character(c) && c.kind
                        == spec_whole_escape_kind(u, old(self).state.unicode_mode) && c.value
                        == spec_whole_escape_value(u, old(self).state.unicode_mode)))
                    &&& (!more ==> self.pos() == u.len())
                },
                !more ==> spec_term_blocked(u, self.pos(), old(self).state.unicode_mode),
                spec_unterminated_opener(u, p, old(self).state.unicode_sets_mode) is Some ==> (
                more && self.pos() == p),
            decreases u.len() - self.pos() + (if more {
                1int
            } else {
                0int
            }),
        {
            let ghost mid = *self;
            match self.parse_term() {
                Err(e) => {
                    return Err(e);
                },
                Ok(Some(term)) => {
                    proof {
                        lemma_terms_wf_widen(
                            body@,
                            Span { start: old(self).off() as usize, end: mid.off() as usize },
                            Span { start: old(self).off() as usize, end: self.off() as usize },
                        );
                        lemma_terms_wf_push(
                            body@,
                            Span { start: old(self).off() as usize, end: self.off() as usize },
                            term,
                        );
                    }
                    body.push(term);
                },
                Ok(None) => {
                    more = false;
                },
            }
        }

        Ok(Alternative { span: self.make_span(span_start), body })
    }

    /// ```text
    /// Disjunction[UnicodeMode, UnicodeSetsMode, NamedCaptureGroups] ::
    ///   Alternative
    ///   Alternative | Disjunction
    /// ```
    fn parse_disjunction(&mut self) -> (r: Result<Disjunction, PatternError>)
        requires
            old(self).inv(),
        ensures
            old(self).step(final(self)),
            (r matches Ok(d) ==> {
                &&& disjunction_wf(d)
                &&& d.span.start == old(self).off()
                &&& d.span.end == final(self).off()
            }),
            ({
                let u = old(self).units();
                let p = old(self).pos();
                let m = old(self).state.unicode_mode;
                forall|e: int|
                    (#[trigger] spec_plain_run(u, p, e) && (e == u.len() || (spec_term_blocked(
                        u,
                        e,
                        m,
                    ) && u[e] != '|' as u32))) ==> {
                        &&& r matches Ok(d)
                        &&& final(self).pos() == e
                        &&& d.body@.len() == 1
                        &&& spec_alt_plain_chars(d.body@[0], u, p, e)
                    }
            }),
            (spec_canonical_empty_group(old(self).units()) && old(self).pos() == 0 ==> {
                &&& r matches Ok(d)
                &&& d.body@.len() == 1
                &&& d.body@[0].body@.len() == 1
                &&& d.body@[0].body@[0] matches Term::IgnoreGroup(g)
                &&& g.body.body@.len() == 1
                &&& g.body.body@[0].body@.len() == 0
                &&& final(self).pos() == 4
            }),
            (spec_plain_or_bar(old(self).units(), old(self).pos()) ==> {
                &&& r matches Ok(d)
                &&& final(self).pos() == old(self).units().len()
                &&& d.body@.len() == spec_bar_count(old(self).units(), old(self).pos()) + 1
                &&& (forall|i: int|
                    0 <= i < d.body@.len() ==> spec_alt_plain_chars(
                        #[trigger] d.body@[i],
                        old(self).units(),
                        spec_seg_start(old(self).units(), old(self).pos(), i),
                        spec_bar_free_end(
                            old(self).units(),
                            spec_seg_start(old(self).units(), old(self).pos(), i),
                        ),
                    ))
            }),
            (old(self).pos() == 0 && spec_whole_escape_is(
                old(self).units(),
                old(self).state.unicode_mode,
            ) ==> {
                &&& r matches Ok(d)
                &&& d.body@.len() == 1
                &&& d.body@[0].body@.len() == 1
                &&& d.body@[0].body@[0] matches Term::Character(c)
                &&& c.kind == spec_whole_escape_kind(
                    old(self).units(),
                    old(self).state.unicode_mode,
                )
                &&& c.value == spec_whole_escape_value(
                    old(self).units(),
                    old(self).state.unicode_mode,
                )
                &&& final(self).pos() == old(self).units().len()
            }),
            ({
                let uu = final(self).units();
                let pp = final(self).pos();
                (r matches Ok(d) ==> {
                    &&& spec_term_blocked(uu, pp, old(self).state.unicode_mode)
                    &&& (pp < uu.len() ==> uu[pp] != '|' as u32)
                })
            }),
            (spec_unterminated_opener(
                old(self).units(),
                old(self).pos(),
                old(self).state.unicode_sets_mode,
            ) matches Some(err) ==> r == Err::<Disjunction, PatternError>(err)),
        decreases old(self).units().len() - old(self).pos(), 5int,
    {
        let ghost u = self.units();
        let ghost p = self.pos();
        let span_start = self.reader.span_position();

        let mut body: Vec<Alternative> = Vec::new();
        let mut more = true;
        while more
            invariant
                self.inv(),
                old(self).same_ctx(self),
                u == self.units(),
                p <= self.pos() <= u.len(),
                span_start == old(self).reader.offset16,
                old(self).reader.offset16 <= self.reader.offset16,
                alternatives_wf(
                    body@,
                    Span { start: old(self).off() as usize, end: self.off() as usize },
                ),
                body@.len() > 0 ==> body@.last().span.end <= self.off(),
                more ==> body@.len() == 0 || body@.len() >= 1,
                !more ==> body@.len() >= 1,
                forall|e: int|
                    (#[trigger] spec_plain_run(u, p, e) && (e == u.len() || (spec_term_blocked(
                        u,
                        e,
                        old(self).state.unicode_mode,
                    ) && u[e] != '|' as u32))) ==> {
                        &&& (more ==> body@.len() == 0 && self.pos() == p)
                        &&& (!more ==> body@.len() == 1 && self.pos() == e
                            && spec_alt_plain_chars(body@[0], u, p, e))
                    },
                spec_canonical_empty_group(u) && p == 0 ==> {
                    &&& (more ==> body@.len() == 0 && self.pos() == 0)
                    &&& (!more ==> body@.len() == 1 && self.pos() == 4 && body@[0].body@.len()
                        == 1 && (body@[0].body@[0] matches Term::IgnoreGroup(g)
                        && g.body.body@.len() == 1 && g.body.body@[0].body@.len() == 0))
                },
                p == 0 && spec_whole_escape_is(u, old(self).state.unicode_mode) ==> {
                    &&& (more ==> body@.len() == 0 && self.pos() == 0)
                    &&& (!more ==> body@.len() == 1 && self.pos() == u.len()
                        && body@[0].body@.len() == 1 && (body@[0].body@[0]
                        matches Term::Character(c) && c.kind == spec_whole_escape_kind(
                            u,
                            old(self).state.unicode_mode,
                        ) && c.value == spec_whole_escape_value(
                            u,
                            old(self).state.unicode_mode,
                        )))
                },
                spec_plain_or_bar(u, p) ==> {
                    &&& (more ==> body@.len() == spec_bar_count(u, p) - spec_bar_count(
                        u,
                        self.pos(),
                    ) && (self.pos() == p || u[self.pos() - 1] == '|' as u32))
                    &&& (!more ==> body@.len() == spec_bar_count(u, p) + 1 && self.pos()
                        == u.len())
                    &&& (more ==> self.pos() == spec_seg_start(u, p, body@.len() as int))
                    &&& (forall|i: int|
                        0 <= i < body@.len() ==> spec_alt_plain_chars(
                            #[trigger] body@[i],
                            u,
                            spec_seg_start(u, p, i),
                            spec_bar_free_end(u, spec_seg_start(u, p, i)),
                        ))
                },
                spec_unterminated_opener(u, p, old(self).state.unicode_sets_mode) is Some ==> (
                more && self.pos() == p),
                !more ==> spec_term_blocked(u, self.pos(), old(self).state.unicode_mode) && (
                self.pos() < u.len() ==> u[self.pos()] != '|' as u32),
            decreases u.len() - self.pos() + (if more {
                1int
            } else {
                0int
            }),
        {
            let ghost mid = *self;
            proof {
                if spec_plain_or_bar(u, p) {
                    lemma_bar_free_end(u, mid.pos());
                    assert(spec_plain_run(u, mid.pos(), spec_bar_free_end(u, mid.pos())));
                    lemma_bar_count_skip(u, mid.pos(), spec_bar_free_end(u, mid.pos()));
                }
            }
            let alternative = match self.parse_alternative() {
                Err(e) => {
                    return Err(e);
                },
                Ok(a) => a,
            };
            proof {
                lemma_alternatives_wf_widen(
                    body@,
                    Span { start: old(self).off() as usize, end: mid.off() as usize },
                    Span { start: old(self).off() as usize, end: self.off() as usize },
                );
                lemma_alternatives_wf_push(
                    body@,
                    Span { start: old(self).off() as usize, end: self.off() as usize },
                    alternative,
                );
            }
            body.push(alternative);

            if !self.reader.eat('|') {
                more = false;
            } else {
                proof {
                    lemma_alternatives_wf_widen(
                        body@,
                        Span {
                            start: old(self).off() as usize,
                            end: (self.off() - 1) as usize,
                        },
                        Span { start: old(self).off() as usize, end: self.off() as usize },
                    );
                }
            }
        }

        proof {
            assert(body@.len() >= 1);
        }
        Ok(Disjunction { span: self.make_span(span_start), body })
    }
}

} // verus!
