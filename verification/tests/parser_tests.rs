use regexp_parser::ast::{
    BoundaryAssertionKind, CharacterClassContents, CharacterKind, LookAroundAssertionKind,
    Pattern, Term,
};
use regexp_parser::error::PatternError;
use regexp_parser::options::ParserOptions;
use regexp_parser::parser::PatternParser;

fn parse(source: &str) -> Result<Pattern, PatternError> {
    PatternParser::new(source, ParserOptions::default()).parse()
}

fn parse_unicode(source: &str) -> Result<Pattern, PatternError> {
    PatternParser::new(source, ParserOptions::default().with_unicode_flag(true)).parse()
}

fn parse_unicode_sets(source: &str) -> Result<Pattern, PatternError> {
    PatternParser::new(source, ParserOptions::default().with_unicode_sets_flag(true)).parse()
}

/// The single term of a pattern that holds one alternative with one term.
fn only_term(p: &Pattern) -> &Term {
    assert_eq!(p.body.body.len(), 1);
    assert_eq!(p.body.body[0].body.len(), 1);
    &p.body.body[0].body[0]
}

#[test]
fn empty_pattern_parses_like_the_canonical_empty_group() {
    let a = parse("").unwrap();
    let b = parse("(?:)").unwrap();
    assert_eq!(a.span.start, 0);
    assert_eq!(a.span.end, 4);
    assert_eq!(a.span, b.span);
    assert_eq!(a.body.span, b.body.span);
    assert_eq!(a.body.body.len(), 1);
    assert_eq!(b.body.body.len(), 1);
    let ta = only_term(&a);
    let tb = only_term(&b);
    match (ta, tb) {
        (Term::IgnoreGroup(ga), Term::IgnoreGroup(gb)) => {
            assert_eq!(ga.span, gb.span);
            assert_eq!(ga.body.body.len(), 1);
            assert_eq!(gb.body.body.len(), 1);
            assert!(ga.body.body[0].body.is_empty());
            assert!(gb.body.body[0].body.is_empty());
        },
        _ => panic!("the empty pattern must parse as one empty non-capturing group"),
    }
}

#[test]
fn root_span_covers_the_whole_pattern() {
    let p = parse("a(b|c)").unwrap();
    assert_eq!(p.span.start, 0);
    assert_eq!(p.span.end, 6);
    assert_eq!(p.body.span, p.span);
    let alt = &p.body.body[0];
    assert_eq!(alt.body.len(), 2);
    match &alt.body[1] {
        Term::CapturingGroup(g) => {
            assert!(p.span.start <= g.span.start && g.span.end <= p.span.end);
            assert!(g.span.start <= g.body.span.start && g.body.span.end <= g.span.end);
        },
        other => panic!("expected a capturing group, got {:?}", other),
    }
}

#[test]
fn root_span_is_shifted_by_the_base_offset() {
    let options = ParserOptions::default().with_span_offset(10);
    let p = PatternParser::new("abc", options).parse().unwrap();
    assert_eq!(p.span.start, 10);
    assert_eq!(p.span.end, 13);
}

#[test]
fn spans_count_utf16_code_units() {
    let p = parse_unicode("\u{1F600}a").unwrap();
    assert_eq!(p.span.end, 3);
    let alt = &p.body.body[0];
    assert_eq!(alt.body.len(), 2);
    match (&alt.body[0], &alt.body[1]) {
        (Term::Character(emoji), Term::Character(a)) => {
            assert_eq!(emoji.span.start, 0);
            assert_eq!(emoji.span.end, 2);
            assert_eq!(emoji.value, 0x1F600);
            assert_eq!(a.span.start, 2);
            assert_eq!(a.span.end, 3);
            assert_eq!(a.value, 'a' as u32);
        },
        other => panic!("expected two characters, got {:?}", other),
    }
}

#[test]
fn disjunction_of_three_alternatives() {
    let p = parse("a|b|c").unwrap();
    assert_eq!(p.body.body.len(), 3);
    for alt in &p.body.body {
        assert_eq!(alt.body.len(), 1);
    }
}

#[test]
fn empty_alternative_on_the_right_is_valid() {
    let p = parse("a|").unwrap();
    assert_eq!(p.body.body.len(), 2);
    assert_eq!(p.body.body[0].body.len(), 1);
    assert!(p.body.body[1].body.is_empty());
}

#[test]
fn quantifier_bounds_out_of_order_fail() {
    assert_eq!(parse("a{2,1}").unwrap_err(), PatternError::NumbersOutOfOrder);
    assert_eq!(parse_unicode("a{2,1}").unwrap_err(), PatternError::NumbersOutOfOrder);
    assert_eq!(parse("a{2,1}?").unwrap_err(), PatternError::NumbersOutOfOrder);
}

#[test]
fn quantifier_bounds_in_order_succeed() {
    let p = parse("a{1,2}").unwrap();
    match only_term(&p) {
        Term::Quantifier(q) => {
            assert_eq!(q.min, 1);
            assert_eq!(q.max, Some(2));
            assert!(q.greedy);
        },
        other => panic!("expected a quantifier, got {:?}", other),
    }
}

#[test]
fn quantifier_shapes() {
    for (src, min, max, greedy) in [
        ("a*", 0, None, true),
        ("a+", 1, None, true),
        ("a?", 0, Some(1), true),
        ("a*?", 0, None, false),
        ("a+?", 1, None, false),
        ("a{3}", 3, Some(3), true),
        ("a{3,}", 3, None, true),
        ("a{1,2}?", 1, Some(2), false),
    ] {
        let p = parse(src).unwrap();
        match only_term(&p) {
            Term::Quantifier(q) => {
                assert_eq!(q.min, min, "{}", src);
                assert_eq!(q.max, max, "{}", src);
                assert_eq!(q.greedy, greedy, "{}", src);
                match &q.body {
                    Term::Character(c) => assert_eq!(c.value, 'a' as u32),
                    other => panic!("expected a character under {}, got {:?}", src, other),
                }
            },
            other => panic!("expected a quantifier for {}, got {:?}", src, other),
        }
    }
}

#[test]
fn unterminated_quantifier_fails() {
    assert_eq!(parse("a{").unwrap_err(), PatternError::UnterminatedQuantifier);
    assert_eq!(parse("a{1").unwrap_err(), PatternError::UnterminatedQuantifier);
    assert_eq!(parse("a{1,2").unwrap_err(), PatternError::UnterminatedQuantifier);
    assert_eq!(parse("{").unwrap_err(), PatternError::UnterminatedQuantifier);
}

#[test]
fn class_range_out_of_order_fails() {
    assert_eq!(parse("[z-a]").unwrap_err(), PatternError::CharacterClassRangeOutOfOrder);
    assert_eq!(
        parse_unicode("[z-a]").unwrap_err(),
        PatternError::CharacterClassRangeOutOfOrder,
    );
}

#[test]
fn class_range_in_order_succeeds() {
    let p = parse("[a-z]").unwrap();
    match only_term(&p) {
        Term::CharacterClass(cc) => {
            assert!(!cc.negative);
            assert_eq!(cc.body.len(), 1);
            match &cc.body[0] {
                CharacterClassContents::CharacterClassRange(r) => {
                    assert_eq!(r.min.value, 'a' as u32);
                    assert_eq!(r.max.value, 'z' as u32);
                },
                other => panic!("expected a range, got {:?}", other),
            }
        },
        other => panic!("expected a character class, got {:?}", other),
    }
}

#[test]
fn class_with_trailing_dash_keeps_it_literal() {
    let p = parse("[a-]").unwrap();
    match only_term(&p) {
        Term::CharacterClass(cc) => {
            assert_eq!(cc.body.len(), 2);
            match (&cc.body[0], &cc.body[1]) {
                (
                    CharacterClassContents::Character(a),
                    CharacterClassContents::Character(dash),
                ) => {
                    assert_eq!(a.value, 'a' as u32);
                    assert_eq!(dash.value, '-' as u32);
                },
                other => panic!("expected two characters, got {:?}", other),
            }
        },
        other => panic!("expected a character class, got {:?}", other),
    }
}

#[test]
fn class_escape_beside_dash_is_mode_gated() {
    // Annex B: three literal atoms.
    let p = parse("[\\d-z]").unwrap();
    match only_term(&p) {
        Term::CharacterClass(cc) => {
            assert_eq!(cc.body.len(), 3);
            assert!(matches!(&cc.body[0], CharacterClassContents::CharacterClassEscape(_)));
        },
        other => panic!("expected a character class, got {:?}", other),
    }
    // Unicode mode: a hard error.
    assert_eq!(
        parse_unicode("[\\d-z]").unwrap_err(),
        PatternError::InvalidCharacterClassRange,
    );
}

#[test]
fn negated_and_empty_classes() {
    let p = parse("[^ab]").unwrap();
    match only_term(&p) {
        Term::CharacterClass(cc) => {
            assert!(cc.negative);
            assert_eq!(cc.body.len(), 2);
        },
        other => panic!("expected a character class, got {:?}", other),
    }
    let p = parse("[]").unwrap();
    match only_term(&p) {
        Term::CharacterClass(cc) => assert!(cc.body.is_empty()),
        other => panic!("expected a character class, got {:?}", other),
    }
}

#[test]
fn named_capturing_group_carries_its_name() {
    let p = parse("(?<name>a)").unwrap();
    match only_term(&p) {
        Term::CapturingGroup(g) => {
            assert_eq!(g.name.as_deref(), Some("name"));
            assert_eq!(g.body.body.len(), 1);
            assert_eq!(g.body.body[0].body.len(), 1);
            match &g.body.body[0].body[0] {
                Term::Character(c) => assert_eq!(c.value, 'a' as u32),
                other => panic!("expected a character, got {:?}", other),
            }
        },
        other => panic!("expected a capturing group, got {:?}", other),
    }
}

#[test]
fn group_names_follow_identifier_rules() {
    assert!(parse("(?<a1>x)").is_ok());
    assert_eq!(
        parse("(?<1a>x)").unwrap_err(),
        PatternError::InvalidCaptureGroupName,
    );
    // A greek letter may start a name; its table entry comes from the
    // identifier tables.
    let p = parse("(?<\u{3C0}>x)").unwrap();
    match only_term(&p) {
        Term::CapturingGroup(g) => assert_eq!(g.name.as_deref(), Some("\u{3C0}")),
        other => panic!("expected a capturing group, got {:?}", other),
    }
}

#[test]
fn group_name_written_with_an_escape_keeps_its_source_text() {
    let p = parse("(?<\\u0041>x)").unwrap();
    match only_term(&p) {
        Term::CapturingGroup(g) => assert_eq!(g.name.as_deref(), Some("\\u0041")),
        other => panic!("expected a capturing group, got {:?}", other),
    }
}

#[test]
fn backslash_zero_is_a_null_escape_not_a_backreference() {
    let p = parse("\\0").unwrap();
    match only_term(&p) {
        Term::Character(c) => {
            assert_eq!(c.kind, CharacterKind::Null);
            assert_eq!(c.value, 0);
        },
        other => panic!("expected a null character escape, got {:?}", other),
    }
    let p = parse_unicode("\\0").unwrap();
    assert!(matches!(only_term(&p), Term::Character(_)));
}

#[test]
fn nonzero_decimal_escape_is_an_indexed_reference() {
    let p = parse("\\1").unwrap();
    match only_term(&p) {
        Term::IndexedReference(r) => assert_eq!(r.index, 1),
        other => panic!("expected an indexed reference, got {:?}", other),
    }
    let p = parse("\\12").unwrap();
    match only_term(&p) {
        Term::IndexedReference(r) => assert_eq!(r.index, 12),
        other => panic!("expected an indexed reference, got {:?}", other),
    }
}

#[test]
fn named_reference() {
    let p = parse("\\k<name>").unwrap();
    match only_term(&p) {
        Term::NamedReference(n) => assert_eq!(n.name, "name"),
        other => panic!("expected a named reference, got {:?}", other),
    }
    assert_eq!(parse("\\k").unwrap_err(), PatternError::InvalidNamedReference);
}

#[test]
fn surrogate_pair_escape_combines_in_unicode_mode() {
    let p = parse_unicode("\\ud83d\\ude00").unwrap();
    match only_term(&p) {
        Term::Character(c) => {
            assert_eq!(c.kind, CharacterKind::UnicodeEscape);
            assert_eq!(c.value, 0x1F600);
            assert_eq!(c.span.start, 0);
            assert_eq!(c.span.end, 12);
        },
        other => panic!("expected one combined character, got {:?}", other),
    }
}

#[test]
fn surrogate_pair_escape_stays_split_outside_unicode_mode() {
    let p = parse("\\ud83d\\ude00").unwrap();
    let alt = &p.body.body[0];
    assert_eq!(alt.body.len(), 2);
    match (&alt.body[0], &alt.body[1]) {
        (Term::Character(lead), Term::Character(trail)) => {
            assert_eq!(lead.value, 0xD83D);
            assert_eq!(trail.value, 0xDE00);
        },
        other => panic!("expected two characters, got {:?}", other),
    }
}

#[test]
fn lone_lead_surrogate_escape_backtracks() {
    let p = parse_unicode("\\ud83dx").unwrap();
    let alt = &p.body.body[0];
    assert_eq!(alt.body.len(), 2);
    match &alt.body[0] {
        Term::Character(c) => assert_eq!(c.value, 0xD83D),
        other => panic!("expected the lone lead surrogate, got {:?}", other),
    }
}

#[test]
fn double_quantifier_fails_in_both_modes() {
    assert!(parse("a**").is_err());
    assert!(parse_unicode("a**").is_err());
    assert_eq!(parse_unicode("a**").unwrap_err(), PatternError::LoneQuantifier);
}

#[test]
fn lookbehind_is_legal_but_never_quantifiable() {
    let p = parse("(?<!a)").unwrap();
    match only_term(&p) {
        Term::LookAroundAssertion(la) => {
            assert_eq!(la.kind, LookAroundAssertionKind::NegativeLookbehind);
        },
        other => panic!("expected a lookaround, got {:?}", other),
    }
    assert!(parse_unicode("(?<!a)").is_ok());
    assert!(parse("(?<!a)+").is_err());
    assert!(parse_unicode("(?<!a)+").is_err());
}

#[test]
fn quantified_lookahead_is_annex_b_only() {
    let p = parse("(?!a)+").unwrap();
    match only_term(&p) {
        Term::Quantifier(q) => {
            assert_eq!(q.min, 1);
            assert_eq!(q.max, None);
            match &q.body {
                Term::LookAroundAssertion(la) => {
                    assert_eq!(la.kind, LookAroundAssertionKind::NegativeLookahead);
                },
                other => panic!("expected a lookaround under the quantifier, got {:?}", other),
            }
        },
        other => panic!("expected a quantifier, got {:?}", other),
    }
    assert_eq!(parse_unicode("(?!a)+").unwrap_err(), PatternError::LoneQuantifier);
}

#[test]
fn unterminated_constructs_fail_deterministically() {
    assert_eq!(parse("(a").unwrap_err(), PatternError::UnterminatedCapturingGroup);
    assert_eq!(parse("[a").unwrap_err(), PatternError::UnterminatedCharacterClass);
    assert_eq!(
        parse("(?=a").unwrap_err(),
        PatternError::UnterminatedLookaroundAssertion,
    );
    assert_eq!(parse("[").unwrap_err(), PatternError::UnterminatedCharacterClass);
    assert_eq!(parse("(?:a").unwrap_err(), PatternError::UnterminatedIgnoreGroup);
    assert_eq!(
        parse("(?<n>a").unwrap_err(),
        PatternError::UnterminatedCapturingGroupName,
    );
}

#[test]
fn trailing_garbage_fails() {
    assert_eq!(parse("a)").unwrap_err(), PatternError::CouldNotParseEntirePattern);
}

#[test]
fn boundary_assertions() {
    let p = parse("^a$").unwrap();
    let alt = &p.body.body[0];
    assert_eq!(alt.body.len(), 3);
    match (&alt.body[0], &alt.body[2]) {
        (Term::BoundaryAssertion(s), Term::BoundaryAssertion(e)) => {
            assert_eq!(s.kind, BoundaryAssertionKind::Start);
            assert_eq!(e.kind, BoundaryAssertionKind::End);
        },
        other => panic!("expected boundary assertions, got {:?}", other),
    }
    let p = parse("\\b\\B").unwrap();
    let alt = &p.body.body[0];
    match (&alt.body[0], &alt.body[1]) {
        (Term::BoundaryAssertion(b), Term::BoundaryAssertion(nb)) => {
            assert_eq!(b.kind, BoundaryAssertionKind::Boundary);
            assert_eq!(nb.kind, BoundaryAssertionKind::NegativeBoundary);
        },
        other => panic!("expected boundary assertions, got {:?}", other),
    }
}

#[test]
fn character_escapes() {
    for (src, kind, value) in [
        ("\\n", CharacterKind::SingleEscape, 0x0A),
        ("\\t", CharacterKind::SingleEscape, 0x09),
        ("\\cM", CharacterKind::ControlLetter, 13),
        ("\\x41", CharacterKind::HexadecimalEscape, 0x41),
        ("\\u0041", CharacterKind::UnicodeEscape, 0x41),
        ("\\00", CharacterKind::Octal, 0),
        ("\\.", CharacterKind::Identifier, '.' as u32),
    ] {
        let p = parse(src).unwrap();
        match only_term(&p) {
            Term::Character(c) => {
                assert_eq!(c.kind, kind, "{}", src);
                assert_eq!(c.value, value, "{}", src);
            },
            other => panic!("expected a character for {}, got {:?}", src, other),
        }
    }
}

#[test]
fn braced_code_point_escape_is_unicode_mode_only() {
    let p = parse_unicode("\\u{1F600}").unwrap();
    match only_term(&p) {
        Term::Character(c) => assert_eq!(c.value, 0x1F600),
        other => panic!("expected a character, got {:?}", other),
    }
    assert_eq!(parse("\\u{41}").unwrap_err(), PatternError::InvalidUnicodeEscape);
    assert_eq!(
        parse_unicode("\\u{110000}").unwrap_err(),
        PatternError::InvalidUnicodeEscape,
    );
}

#[test]
fn invalid_escapes_fail() {
    assert_eq!(parse("\\x1").unwrap_err(), PatternError::InvalidEscape);
    assert_eq!(parse("\\u12").unwrap_err(), PatternError::InvalidUnicodeEscape);
    assert_eq!(parse_unicode("\\q").unwrap_err(), PatternError::InvalidAtomEscape);
}

#[test]
fn backslash_c_without_letter_is_annex_b_leniency() {
    let p = parse("\\c").unwrap();
    let alt = &p.body.body[0];
    assert_eq!(alt.body.len(), 2);
    match (&alt.body[0], &alt.body[1]) {
        (Term::Character(bs), Term::Character(c)) => {
            assert_eq!(bs.value, '\\' as u32);
            assert_eq!(c.value, 'c' as u32);
        },
        other => panic!("expected two characters, got {:?}", other),
    }
    assert_eq!(parse_unicode("\\c").unwrap_err(), PatternError::InvalidAtomEscape);
}

#[test]
fn legacy_octal_escape_values() {
    // A digit run with a value other than zero is a backreference, so the
    // octal forms only show through runs of zeroes.
    let p = parse("\\001").unwrap();
    match only_term(&p) {
        Term::IndexedReference(r) => assert_eq!(r.index, 1),
        other => panic!("expected an indexed reference, got {:?}", other),
    }
    for (src, value) in [("\\00", 0u32), ("\\000", 0u32)] {
        let p = parse(src).unwrap();
        match only_term(&p) {
            Term::Character(c) => {
                assert_eq!(c.kind, CharacterKind::Octal, "{}", src);
                assert_eq!(c.value, value, "{}", src);
            },
            other => panic!("expected an octal character for {}, got {:?}", src, other),
        }
    }
}

#[test]
fn class_escapes_inside_and_outside_classes() {
    let p = parse("\\d").unwrap();
    assert!(matches!(only_term(&p), Term::CharacterClassEscape(_)));
    let p = parse("[\\w]").unwrap();
    match only_term(&p) {
        Term::CharacterClass(cc) => {
            assert_eq!(cc.body.len(), 1);
            assert!(matches!(&cc.body[0], CharacterClassContents::CharacterClassEscape(_)));
        },
        other => panic!("expected a character class, got {:?}", other),
    }
}

#[test]
fn unicode_sets_mode_class_is_not_supported() {
    assert_eq!(
        parse_unicode_sets("[a]").unwrap_err(),
        PatternError::ClassSetExpressionNotSupported,
    );
    // The empty class never reaches the class-set grammar.
    assert!(parse_unicode_sets("[]").is_ok());
    // Outside classes unicode-sets mode parses as unicode mode does.
    assert!(parse_unicode_sets("ab").is_ok());
}

#[test]
fn lone_quantifier_without_atom() {
    assert_eq!(parse_unicode("*").unwrap_err(), PatternError::LoneQuantifier);
    assert_eq!(parse("*").unwrap_err(), PatternError::InvalidBracedQuantifier);
}

#[test]
fn nested_groups_parse() {
    let p = parse("((((a))))").unwrap();
    let mut term = only_term(&p);
    for _ in 0..4 {
        match term {
            Term::CapturingGroup(g) => {
                assert_eq!(g.body.body.len(), 1);
                assert_eq!(g.body.body[0].body.len(), 1);
                term = &g.body.body[0].body[0];
            },
            other => panic!("expected a capturing group, got {:?}", other),
        }
    }
    assert!(matches!(term, Term::Character(_)));
}

#[test]
fn literal_astral_character_depends_on_mode() {
    let p = parse_unicode("\u{1F600}").unwrap();
    match only_term(&p) {
        Term::Character(c) => assert_eq!(c.value, 0x1F600),
        other => panic!("expected one character, got {:?}", other),
    }
    let p = parse("\u{1F600}").unwrap();
    assert_eq!(p.body.body[0].body.len(), 2);
}

#[test]
fn dot_and_ignore_group() {
    let p = parse(".").unwrap();
    assert!(matches!(only_term(&p), Term::Dot(_)));
    let p = parse("(?:ab)").unwrap();
    match only_term(&p) {
        Term::IgnoreGroup(g) => {
            assert!(g.enabling_modifiers.is_none());
            assert!(g.disabling_modifiers.is_none());
            assert_eq!(g.body.body[0].body.len(), 2);
        },
        other => panic!("expected an ignore group, got {:?}", other),
    }
}

#[test]
fn error_messages_are_stable() {
    assert_eq!(
        PatternError::CouldNotParseEntirePattern.message(),
        "Could not parse the entire pattern",
    );
    assert_eq!(PatternError::LoneQuantifier.message(), "Lone `Quantifier`, expected `Atom`");
    assert_eq!(
        PatternError::NumbersOutOfOrder.message(),
        "Numbers out of order in braced quantifier",
    );
    assert_eq!(
        PatternError::CharacterClassRangeOutOfOrder.message(),
        "Character class range out of order",
    );
}

#[test]
fn digit_runs_saturate_at_the_largest_32_bit_value() {
    // The quantifier grammar accepts any digit run; values clamp instead of
    // wrapping.
    let p = parse("a{4294967296}").unwrap();
    match only_term(&p) {
        Term::Quantifier(q) => {
            assert_eq!(q.min, u32::MAX);
            assert_eq!(q.max, Some(u32::MAX));
        },
        other => panic!("expected a quantifier, got {:?}", other),
    }
    let p = parse("\\99999999999999999999").unwrap();
    match only_term(&p) {
        Term::IndexedReference(r) => assert_eq!(r.index, u32::MAX),
        other => panic!("expected an indexed reference, got {:?}", other),
    }
}

#[test]
fn class_escape_b_stays_a_literal_b() {
    let p = parse("[\\b]").unwrap();
    match only_term(&p) {
        Term::CharacterClass(cc) => {
            assert_eq!(cc.body.len(), 1);
            match &cc.body[0] {
                CharacterClassContents::Character(c) => assert_eq!(c.value, 'b' as u32),
                other => panic!("expected a character, got {:?}", other),
            }
        },
        other => panic!("expected a character class, got {:?}", other),
    }
}

#[test]
fn quantified_positive_lookahead_in_annex_b() {
    let p = parse("(?=a)*").unwrap();
    match only_term(&p) {
        Term::Quantifier(q) => {
            assert_eq!(q.min, 0);
            assert_eq!(q.max, None);
            assert!(matches!(&q.body, Term::LookAroundAssertion(_)));
        },
        other => panic!("expected a quantifier, got {:?}", other),
    }
    assert_eq!(parse_unicode("(?=a)*").unwrap_err(), PatternError::LoneQuantifier);
}

#[test]
fn bare_separators_make_empty_alternatives() {
    let p = parse("|").unwrap();
    assert_eq!(p.body.body.len(), 2);
    assert!(p.body.body.iter().all(|a| a.body.is_empty()));
    let p = parse("||").unwrap();
    assert_eq!(p.body.body.len(), 3);
}

#[test]
fn braced_code_point_escape_edge_values() {
    let p = parse_unicode("\\u{0000000041}").unwrap();
    match only_term(&p) {
        Term::Character(c) => assert_eq!(c.value, 0x41),
        other => panic!("expected a character, got {:?}", other),
    }
    let p = parse_unicode("\\u{10FFFF}").unwrap();
    match only_term(&p) {
        Term::Character(c) => assert_eq!(c.value, 0x10FFFF),
        other => panic!("expected a character, got {:?}", other),
    }
    assert_eq!(
        parse_unicode("\\u{FFFFFFFFFF}").unwrap_err(),
        PatternError::InvalidUnicodeEscape,
    );
}
