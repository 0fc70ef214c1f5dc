use regexp_parser::ast::Term;
use regexp_parser::error::PatternError;
use regexp_parser::minifier::{CompressOptions, Minifier, MinifierOptions};
use regexp_parser::options::ParserOptions;
use regexp_parser::parser::PatternParser;
use regexp_parser::reader::Reader;
use regexp_parser::span::{Span, SpanFactory};
use regexp_parser::text::{code_points_of, decode_units_to_string, str_content_eq, utf16_units_of};
use regexp_parser::unicode;
use regexp_parser::unicode_property;

#[test]
fn span_factory_shifts_both_ends() {
    let f = SpanFactory::new(7);
    let s = f.create(1, 4);
    assert_eq!(s.start, 8);
    assert_eq!(s.end, 11);
    let t = Span { start: 20, end: 25 };
    assert_eq!(s.merge(&t), Span { start: 8, end: 25 });
}

#[test]
fn reader_iterates_scalar_values_in_unicode_mode() {
    let mut r = Reader::new("a\u{1F600}b", true);
    assert_eq!(r.peek(), Some('a' as u32));
    assert_eq!(r.peek2(), Some(0x1F600));
    assert_eq!(r.span_position(), 0);
    r.advance();
    assert_eq!(r.span_position(), 1);
    r.advance();
    // The emoji takes two UTF-16 code units.
    assert_eq!(r.span_position(), 3);
    assert!(r.eat('b'));
    assert_eq!(r.peek(), None);
}

#[test]
fn reader_iterates_code_units_outside_unicode_mode() {
    let mut r = Reader::new("\u{1F600}", false);
    assert_eq!(r.peek(), Some(0xD83D));
    assert_eq!(r.peek2(), Some(0xDE00));
    r.advance();
    assert_eq!(r.span_position(), 1);
    assert!(!r.eat('x'));
    assert_eq!(r.peek(), Some(0xDE00));
}

#[test]
fn reader_checkpoint_and_rewind_restore_the_cursor() {
    let mut r = Reader::new("abc", false);
    let cp = r.checkpoint();
    assert!(r.eat('a'));
    assert!(r.eat('b'));
    assert_eq!(r.position(), 2);
    r.rewind(cp);
    assert_eq!(r.position(), 0);
    assert_eq!(r.span_position(), 0);
    assert!(r.eat3('a', 'b', 'c'));
    assert!(!r.eat4('a', 'b', 'c', 'd'));
}

#[test]
fn conversions_between_text_and_units() {
    assert_eq!(code_points_of("a\u{1F600}"), vec!['a' as u32, 0x1F600]);
    assert_eq!(utf16_units_of("a\u{1F600}"), vec![0x61, 0xD83D, 0xDE00]);
    let units = vec![0x61, 0xD83D, 0xDE00, 0x62];
    assert_eq!(decode_units_to_string(&units, 0, 4), "a\u{1F600}b");
    assert_eq!(decode_units_to_string(&units, 0, 2), "a\u{FFFD}");
    assert!(str_content_eq("abc", "abc"));
    assert!(!str_content_eq("abc", "abd"));
    assert!(!str_content_eq("abc", "ab"));
}

#[test]
fn surrogate_pair_combination_formula() {
    assert_eq!(unicode::combine_surrogate_pair(0xD83D, 0xDE00), 0x1F600);
    assert_eq!(unicode::combine_surrogate_pair(0xD800, 0xDC00), 0x10000);
    assert_eq!(unicode::combine_surrogate_pair(0xDBFF, 0xDFFF), 0x10FFFF);
}

#[test]
fn character_predicates() {
    assert!(unicode::is_decimal_digit('5' as u32));
    assert!(!unicode::is_decimal_digit('a' as u32));
    assert!(unicode::is_octal_digit('7' as u32));
    assert!(!unicode::is_octal_digit('8' as u32));
    assert_eq!(unicode::map_hex_digit('f' as u32), Some(15));
    assert_eq!(unicode::map_hex_digit('A' as u32), Some(10));
    assert_eq!(unicode::map_hex_digit('g' as u32), None);
    assert_eq!(unicode::map_control_escape('n' as u32), Some(10));
    assert_eq!(unicode::map_c_ascii_letter('M' as u32), Some(13));
    assert_eq!(unicode::map_c_ascii_letter('1' as u32), None);
    assert!(unicode::is_syntax_character('{' as u32));
    assert!(!unicode::is_syntax_character('-' as u32));
    assert!(unicode::is_lead_surrogate(0xD800));
    assert!(unicode::is_trail_surrogate(0xDC00));
    assert!(!unicode::is_lead_surrogate(0xDC00));
}

#[test]
fn identifier_predicates_agree_with_the_tables() {
    assert!(unicode::is_identifier_start_char('a' as u32));
    assert!(unicode::is_identifier_start_char('$' as u32));
    assert!(unicode::is_identifier_start_char('_' as u32));
    assert!(!unicode::is_identifier_start_char('1' as u32));
    assert!(unicode::is_identifier_part_char('1' as u32));
    assert!(unicode::is_identifier_part_char(0x200D));
    assert!(!unicode::is_identifier_part_char('-' as u32));
    // A lone surrogate is no identifier character.
    assert!(!unicode::is_identifier_start_char(0xD800));
    // The wrappers answer as the crate's own tables do.
    assert_eq!(
        unicode::is_unicode_id_start('\u{3C0}' as u32),
        unicode_id_start::is_id_start('\u{3C0}'),
    );
    assert_eq!(
        unicode::is_unicode_id_continue('\u{0301}' as u32),
        unicode_id_start::is_id_continue('\u{0301}'),
    );
    assert!(unicode::is_unicode_id_start('\u{3C0}' as u32));
}

#[test]
fn property_tables_answer_for_names_and_values() {
    assert!(unicode_property::is_valid_unicode_property("General_Category", "Lu"));
    assert!(unicode_property::is_valid_unicode_property("gc", "Letter"));
    assert!(unicode_property::is_valid_unicode_property("Script", "Greek"));
    assert!(unicode_property::is_valid_unicode_property("scx", "Latn"));
    assert!(!unicode_property::is_valid_unicode_property("General_Category", "Bogus"));
    assert!(!unicode_property::is_valid_unicode_property("Bogus", "Lu"));
    assert!(unicode_property::is_valid_lone_unicode_property("Alphabetic"));
    assert!(unicode_property::is_valid_lone_unicode_property("AHex"));
    assert!(!unicode_property::is_valid_lone_unicode_property("Letter"));
    assert!(unicode_property::is_valid_lone_unicode_property_of_strings("RGI_Emoji"));
    assert!(!unicode_property::is_valid_lone_unicode_property_of_strings("Alphabetic"));
}

#[test]
fn property_escapes_in_patterns() {
    let options = ParserOptions::default().with_unicode_flag(true);
    let p = PatternParser::new("\\p{Letter}", options).parse().unwrap();
    match &p.body.body[0].body[0] {
        Term::UnicodePropertyEscape(pe) => {
            assert_eq!(pe.name, "General_Category");
            assert_eq!(pe.value.as_deref(), Some("Letter"));
            assert!(!pe.strings);
            assert!(!pe.negative);
        },
        other => panic!("expected a property escape, got {:?}", other),
    }
    let p = PatternParser::new("\\p{Script=Greek}", options).parse().unwrap();
    match &p.body.body[0].body[0] {
        Term::UnicodePropertyEscape(pe) => {
            assert_eq!(pe.name, "Script");
            assert_eq!(pe.value.as_deref(), Some("Greek"));
        },
        other => panic!("expected a property escape, got {:?}", other),
    }
    let p = PatternParser::new("\\p{Alphabetic}", options).parse().unwrap();
    match &p.body.body[0].body[0] {
        Term::UnicodePropertyEscape(pe) => {
            assert_eq!(pe.name, "Alphabetic");
            assert_eq!(pe.value, None);
            assert!(!pe.strings);
        },
        other => panic!("expected a property escape, got {:?}", other),
    }
    let p = PatternParser::new("\\P{Letter}", options).parse().unwrap();
    match &p.body.body[0].body[0] {
        Term::UnicodePropertyEscape(pe) => assert!(pe.negative),
        other => panic!("expected a property escape, got {:?}", other),
    }
    assert_eq!(
        PatternParser::new("\\p{Bogus}", options).parse().unwrap_err(),
        PatternError::InvalidPropertyName,
    );
    // Outside unicode mode \p is an identity escape of `p`, and the brace
    // that follows here is a broken quantifier.
    let p = PatternParser::new("\\p", ParserOptions::default()).parse().unwrap();
    assert!(matches!(&p.body.body[0].body[0], Term::Character(_)));
    assert_eq!(
        PatternParser::new("\\p{Lu}", ParserOptions::default()).parse().unwrap_err(),
        PatternError::UnterminatedQuantifier,
    );
}

#[test]
fn properties_of_strings_need_unicode_sets_mode() {
    let u = ParserOptions::default().with_unicode_flag(true);
    let v = ParserOptions::default().with_unicode_sets_flag(true);
    assert_eq!(
        PatternParser::new("\\p{RGI_Emoji}", u).parse().unwrap_err(),
        PatternError::StringsPropertyOutsideUnicodeSets,
    );
    let p = PatternParser::new("\\p{RGI_Emoji}", v).parse().unwrap();
    match &p.body.body[0].body[0] {
        Term::UnicodePropertyEscape(pe) => {
            assert_eq!(pe.name, "RGI_Emoji");
            assert!(pe.strings);
            assert!(!pe.negative);
        },
        other => panic!("expected a property escape, got {:?}", other),
    }
    // A negated property of strings is an early error even in
    // unicode-sets mode.
    assert_eq!(
        PatternParser::new("\\P{RGI_Emoji}", v).parse().unwrap_err(),
        PatternError::InvalidPropertyName,
    );
}

#[test]
fn unterminated_property_escape_fails() {
    let u = ParserOptions::default().with_unicode_flag(true);
    assert_eq!(
        PatternParser::new("\\p{Letter", u).parse().unwrap_err(),
        PatternError::UnterminatedUnicodePropertyEscape,
    );
    assert_eq!(
        PatternParser::new("\\p", u).parse().unwrap_err(),
        PatternError::UnterminatedUnicodePropertyEscape,
    );
}

#[test]
fn parser_options_builders() {
    let o = ParserOptions::default();
    assert_eq!(o.span_offset, 0);
    assert!(!o.unicode_flag);
    assert!(!o.unicode_sets_flag);
    let o = o.with_span_offset(3).with_unicode_flag(true).with_unicode_sets_flag(true);
    assert_eq!(o.span_offset, 3);
    assert!(o.unicode_flag);
    assert!(o.unicode_sets_flag);
}

#[test]
fn minifier_holds_its_options() {
    let compress = CompressOptions::default();
    assert!(compress.drop_debugger);
    assert!(!compress.drop_console);
    let options = MinifierOptions::default();
    assert!(options.mangle);
    assert_eq!(options.compress, compress);
    let _minifier = Minifier::new(options);
    let _other = Minifier::new(MinifierOptions { mangle: false, compress });
}

#[test]
fn unicode_sets_flag_implies_unicode_mode_grammar() {
    // `\\p{...}` needs unicode mode; the v flag alone enables it.
    let v = ParserOptions::default().with_unicode_sets_flag(true);
    let p = PatternParser::new("\\p{Letter}", v).parse().unwrap();
    assert!(matches!(&p.body.body[0].body[0], Term::UnicodePropertyEscape(_)));
    // And the strict term grammar is in force.
    assert_eq!(
        PatternParser::new("a**", v).parse().unwrap_err(),
        PatternError::LoneQuantifier,
    );
}
