use vstd::prelude::*;
use crate::text::is_unicode_scalar_value;

verus! {

/// True of the ECMAScript syntax characters `^ $ \ . * + ? ( ) [ ] { } |`.
pub open spec fn spec_is_syntax_character(cp: u32) -> bool {
    ||| cp == '^' as u32
    ||| cp == '$' as u32
    ||| cp == '\\' as u32
    ||| cp == '.' as u32
    ||| cp == '*' as u32
    ||| cp == '+' as u32
    ||| cp == '?' as u32
    ||| cp == '(' as u32
    ||| cp == ')' as u32
    ||| cp == '[' as u32
    ||| cp == ']' as u32
    ||| cp == '{' as u32
    ||| cp == '}' as u32
    ||| cp == '|' as u32
}

#[verifier::when_used_as_spec(spec_is_syntax_character)]
pub fn is_syntax_character(cp: u32) -> (r: bool)
    ensures
        r == spec_is_syntax_character(cp),
{
    cp == '^' as u32 || cp == '$' as u32 || cp == '\\' as u32 || cp == '.' as u32 || cp == '*'
        as u32 || cp == '+' as u32 || cp == '?' as u32 || cp == '(' as u32 || cp == ')' as u32
        || cp == '[' as u32 || cp == ']' as u32 || cp == '{' as u32 || cp == '}' as u32 || cp
        == '|' as u32
}

/// True of `0` through `9`.
pub open spec fn spec_is_decimal_digit(cp: u32) -> bool {
    '0' as u32 <= cp <= '9' as u32
}

#[verifier::when_used_as_spec(spec_is_decimal_digit)]
pub fn is_decimal_digit(cp: u32) -> (r: bool)
    ensures
        r == spec_is_decimal_digit(cp),
{
    '0' as u32 <= cp && cp <= '9' as u32
}

/// True of `0` through `7`.
pub open spec fn spec_is_octal_digit(cp: u32) -> bool {
    '0' as u32 <= cp <= '7' as u32
}

#[verifier::when_used_as_spec(spec_is_octal_digit)]
pub fn is_octal_digit(cp: u32) -> (r: bool)
    ensures
        r == spec_is_octal_digit(cp),
{
    '0' as u32 <= cp && cp <= '7' as u32
}

/// The value of a hexadecimal digit, or nothing.
pub open spec fn spec_map_hex_digit(cp: u32) -> Option<u32> {
    if '0' as u32 <= cp <= '9' as u32 {
        Some((cp - '0' as u32) as u32)
    } else if 'a' as u32 <= cp <= 'f' as u32 {
        Some((cp - 'a' as u32 + 10) as u32)
    } else if 'A' as u32 <= cp <= 'F' as u32 {
        Some((cp - 'A' as u32 + 10) as u32)
    } else {
        None
    }
}

#[verifier::when_used_as_spec(spec_map_hex_digit)]
pub fn map_hex_digit(cp: u32) -> (r: Option<u32>)
    ensures
        r == spec_map_hex_digit(cp),
{
    if '0' as u32 <= cp && cp <= '9' as u32 {
        Some(cp - '0' as u32)
    } else if 'a' as u32 <= cp && cp <= 'f' as u32 {
        Some(cp - 'a' as u32 + 10)
    } else if 'A' as u32 <= cp && cp <= 'F' as u32 {
        Some(cp - 'A' as u32 + 10)
    } else {
        None
    }
}

/// The control-escape mapping: `f n r t v` to their control characters.
pub open spec fn spec_map_control_escape(cp: u32) -> Option<u32> {
    if cp == 'f' as u32 {
        Some(0x0C as u32)
    } else if cp == 'n' as u32 {
        Some(0x0A as u32)
    } else if cp == 'r' as u32 {
        Some(0x0D as u32)
    } else if cp == 't' as u32 {
        Some(0x09 as u32)
    } else if cp == 'v' as u32 {
        Some(0x0B as u32)
    } else {
        None
    }
}

#[verifier::when_used_as_spec(spec_map_control_escape)]
pub fn map_control_escape(cp: u32) -> (r: Option<u32>)
    ensures
        r == spec_map_control_escape(cp),
{
    if cp == 'f' as u32 {
        Some(0x0C)
    } else if cp == 'n' as u32 {
        Some(0x0A)
    } else if cp == 'r' as u32 {
        Some(0x0D)
    } else if cp == 't' as u32 {
        Some(0x09)
    } else if cp == 'v' as u32 {
        Some(0x0B)
    } else {
        None
    }
}

/// The `\c` mapping: an ASCII letter to its control character (its value
/// modulo 32).
pub open spec fn spec_map_c_ascii_letter(cp: u32) -> Option<u32> {
    if ('a' as u32 <= cp <= 'z' as u32) || ('A' as u32 <= cp <= 'Z' as u32) {
        Some((cp % 32) as u32)
    } else {
        None
    }
}

#[verifier::when_used_as_spec(spec_map_c_ascii_letter)]
pub fn map_c_ascii_letter(cp: u32) -> (r: Option<u32>)
    ensures
        r == spec_map_c_ascii_letter(cp),
{
    if ('a' as u32 <= cp && cp <= 'z' as u32) || ('A' as u32 <= cp && cp <= 'Z' as u32) {
        Some(cp % 32)
    } else {
        None
    }
}

/// True of the first UTF-16 code unit of a surrogate pair.
pub open spec fn spec_is_lead_surrogate(cp: u32) -> bool {
    0xD800 <= cp <= 0xDBFF
}

#[verifier::when_used_as_spec(spec_is_lead_surrogate)]
pub fn is_lead_surrogate(cp: u32) -> (r: bool)
    ensures
        r == spec_is_lead_surrogate(cp),
{
    0xD800 <= cp && cp <= 0xDBFF
}

/// True of the second UTF-16 code unit of a surrogate pair.
pub open spec fn spec_is_trail_surrogate(cp: u32) -> bool {
    0xDC00 <= cp <= 0xDFFF
}

#[verifier::when_used_as_spec(spec_is_trail_surrogate)]
pub fn is_trail_surrogate(cp: u32) -> (r: bool)
    ensures
        r == spec_is_trail_surrogate(cp),
{
    0xDC00 <= cp && cp <= 0xDFFF
}

/// The scalar value a surrogate pair stands for, by the UTF-16 formula.
pub open spec fn spec_combine_surrogate_pair(lead: u32, trail: u32) -> int {
    (lead - 0xD800) * 0x400 + (trail - 0xDC00) + 0x10000
}

pub fn combine_surrogate_pair(lead: u32, trail: u32) -> (r: u32)
    requires
        spec_is_lead_surrogate(lead),
        spec_is_trail_surrogate(trail),
    ensures
        r == spec_combine_surrogate_pair(lead, trail),
        0x10000 <= r <= 0x10FFFF,
{
    (lead - 0xD800) * 0x400 + (trail - 0xDC00) + 0x10000
}

/// True of the code points the `\u{...}` escape accepts.
pub open spec fn spec_is_valid_unicode(cp: u32) -> bool {
    cp <= 0x10FFFF
}

#[verifier::when_used_as_spec(spec_is_valid_unicode)]
pub fn is_valid_unicode(cp: u32) -> (r: bool)
    ensures
        r == spec_is_valid_unicode(cp),
{
    cp <= 0x10FFFF
}

/// What the ID_Start table of the unicode-id-start crate holds for `c`.
pub uninterp spec fn id_start_table(c: char) -> bool;

/// What the ID_Continue table of the unicode-id-start crate holds for `c`.
pub uninterp spec fn id_continue_table(c: char) -> bool;

/// Relies on `unicode_id_start::is_id_start`: a pure lookup in the crate's
/// ID_Start table, total over all chars, never panicking.
pub assume_specification[ unicode_id_start::is_id_start ](c: char) -> (r: bool)
    ensures
        r == id_start_table(c),
;

/// Relies on `unicode_id_start::is_id_continue`: a pure lookup in the
/// crate's ID_Continue table, total over all chars, never panicking.
pub assume_specification[ unicode_id_start::is_id_continue ](c: char) -> (r: bool)
    ensures
        r == id_continue_table(c),
;

/// True when `cp` is a scalar value with the Unicode ID_Start property.
pub open spec fn spec_is_unicode_id_start(cp: u32) -> bool {
    is_unicode_scalar_value(cp) && id_start_table(cp as char)
}

#[verifier::when_used_as_spec(spec_is_unicode_id_start)]
pub fn is_unicode_id_start(cp: u32) -> (r: bool)
    ensures
        r == spec_is_unicode_id_start(cp),
{
    match char::from_u32(cp) {
        Some(c) => {
            proof {
                vstd::utf8::char_u32_cast(c, cp);
            }
            unicode_id_start::is_id_start(c)
        },
        None => false,
    }
}

/// True when `cp` is a scalar value with the Unicode ID_Continue property.
pub open spec fn spec_is_unicode_id_continue(cp: u32) -> bool {
    is_unicode_scalar_value(cp) && id_continue_table(cp as char)
}

#[verifier::when_used_as_spec(spec_is_unicode_id_continue)]
pub fn is_unicode_id_continue(cp: u32) -> (r: bool)
    ensures
        r == spec_is_unicode_id_continue(cp),
{
    match char::from_u32(cp) {
        Some(c) => {
            proof {
                vstd::utf8::char_u32_cast(c, cp);
            }
            unicode_id_start::is_id_continue(c)
        },
        None => false,
    }
}

/// True of the characters that may open an identifier: `$`, `_`, or
/// ID_Start.
pub open spec fn spec_is_identifier_start_char(cp: u32) -> bool {
    cp == '$' as u32 || cp == '_' as u32 || spec_is_unicode_id_start(cp)
}

#[verifier::when_used_as_spec(spec_is_identifier_start_char)]
pub fn is_identifier_start_char(cp: u32) -> (r: bool)
    ensures
        r == spec_is_identifier_start_char(cp),
{
    cp == '$' as u32 || cp == '_' as u32 || is_unicode_id_start(cp)
}

/// True of the characters that may continue an identifier: `$`, the
/// zero-width joiners, or ID_Continue.
pub open spec fn spec_is_identifier_part_char(cp: u32) -> bool {
    cp == '$' as u32 || cp == 0x200C || cp == 0x200D || spec_is_unicode_id_continue(cp)
}

#[verifier::when_used_as_spec(spec_is_identifier_part_char)]
pub fn is_identifier_part_char(cp: u32) -> (r: bool)
    ensures
        r == spec_is_identifier_part_char(cp),
{
    cp == '$' as u32 || cp == 0x200C || cp == 0x200D || is_unicode_id_continue(cp)
}

/// True of the ASCII characters a unicode property name may hold.
pub open spec fn spec_is_unicode_property_name_character(cp: u32) -> bool {
    ('a' as u32 <= cp <= 'z' as u32) || ('A' as u32 <= cp <= 'Z' as u32) || cp == '_' as u32
}

#[verifier::when_used_as_spec(spec_is_unicode_property_name_character)]
pub fn is_unicode_property_name_character(cp: u32) -> (r: bool)
    ensures
        r == spec_is_unicode_property_name_character(cp),
{
    ('a' as u32 <= cp && cp <= 'z' as u32) || ('A' as u32 <= cp && cp <= 'Z' as u32) || cp == '_'
        as u32
}

/// True of the ASCII characters a unicode property value may hold.
pub open spec fn spec_is_unicode_property_value_character(cp: u32) -> bool {
    spec_is_unicode_property_name_character(cp) || spec_is_decimal_digit(cp)
}

#[verifier::when_used_as_spec(spec_is_unicode_property_value_character)]
pub fn is_unicode_property_value_character(cp: u32) -> (r: bool)
    ensures
        r == spec_is_unicode_property_value_character(cp),
{
    is_unicode_property_name_character(cp) || is_decimal_digit(cp)
}

} // verus!
