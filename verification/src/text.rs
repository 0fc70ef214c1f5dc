use vstd::prelude::*;
use vstd::string::StrSliceExecFns;
use crate::unicode::{spec_is_lead_surrogate, spec_is_trail_surrogate, spec_combine_surrogate_pair};

verus! {

broadcast use vstd::utf8::char_is_scalar, vstd::utf8::char_u32_cast;

/// True of the `u32` values that are Unicode scalar values, i.e. exactly the
/// values a `char` can hold.
pub open spec fn is_unicode_scalar_value(v: u32) -> bool {
    v <= 0x10FFFF && !(0xD800 <= v && v <= 0xDFFF)
}

/// Relies on `char::from_u32` of std: it returns `Some` exactly for Unicode
/// scalar values, and the char it returns has the given value.
pub assume_specification[ char::from_u32 ](v: u32) -> (r: Option<char>)
    ensures
        r is Some <==> is_unicode_scalar_value(v),
        (r matches Some(c) ==> c as u32 == v),
;

/// Relies on `String::push` of std: it appends exactly one char.
pub assume_specification[ String::push ](s: &mut String, c: char)
    ensures
        final(s)@ == old(s)@.push(c),
;

/// The scalar values of the text, one unit per char.
pub fn code_points_of(s: &str) -> (v: Vec<u32>)
    ensures
        v@.len() == s@.len(),
        forall|i: int| 0 <= i < s@.len() ==> v@[i] == #[trigger] s@[i] as u32,
{
    let n = s.unicode_len();
    let mut v: Vec<u32> = Vec::new();
    let mut i: usize = 0;
    while i < n
        invariant
            n == s@.len(),
            i <= n,
            v@.len() == i,
            forall|j: int| 0 <= j < i ==> v@[j] == #[trigger] s@[j] as u32,
        decreases n - i,
    {
        let c = s.get_char(i);
        v.push(c as u32);
        i = i + 1;
    }
    v
}

/// The UTF-16 encoding of one char: itself, or a surrogate pair.
pub open spec fn utf16_of_char(c: char) -> Seq<u32> {
    if c as u32 >= 0x10000 {
        seq![
            (0xD800 + ((c as u32 - 0x10000) / 0x400)) as u32,
            (0xDC00 + ((c as u32 - 0x10000) % 0x400)) as u32,
        ]
    } else {
        seq![c as u32]
    }
}

/// The UTF-16 encoding of the text.
pub open spec fn utf16_encode(s: Seq<char>) -> Seq<u32>
    decreases s.len(),
{
    if s.len() == 0 {
        Seq::empty()
    } else {
        utf16_of_char(s[0]) + utf16_encode(s.drop_first())
    }
}

proof fn lemma_utf16_encode_push(s: Seq<char>, c: char)
    ensures
        utf16_encode(s.push(c)) == utf16_encode(s) + utf16_of_char(c),
    decreases s.len(),
{
    if s.len() == 0 {
        assert(s.push(c)[0] == c);
        assert(s.push(c).drop_first() =~= Seq::<char>::empty());
        assert(utf16_encode(s.push(c).drop_first()) =~= Seq::<u32>::empty());
        assert(utf16_encode(s.push(c)) =~= utf16_encode(s) + utf16_of_char(c));
    } else {
        assert(s.push(c)[0] == s[0]);
        assert(s.push(c).drop_first() =~= s.drop_first().push(c));
        lemma_utf16_encode_push(s.drop_first(), c);
        assert(utf16_encode(s.push(c)) == utf16_of_char(s[0]) + utf16_encode(
            s.drop_first().push(c),
        ));
        assert(utf16_encode(s.push(c)) =~= utf16_encode(s) + utf16_of_char(c));
    }
}

/// The encoding is at most twice as long as the text, and every unit of it
/// fits in 16 bits.
pub proof fn lemma_utf16_encode_bounds(s: Seq<char>)
    ensures
        s.len() <= utf16_encode(s).len() <= 2 * s.len(),
        forall|i: int| 0 <= i < utf16_encode(s).len() ==> #[trigger] utf16_encode(s)[i] <= 0xFFFF,
    decreases s.len(),
{
    if s.len() > 0 {
        lemma_utf16_encode_bounds(s.drop_first());
        let c = s[0];
        vstd::utf8::char_is_scalar(c);
        assert(c as u32 <= 0x10FFFF);
        if c as u32 >= 0x10000 {
            assert((c as u32 - 0x10000) / 0x400 <= 0x3FF) by (nonlinear_arith)
                requires
                    c as u32 <= 0x10FFFF && c as u32 >= 0x10000,
            ;
            assert((c as u32 - 0x10000) % 0x400 <= 0x3FF);
        }
        assert(forall|i: int|
            0 <= i < utf16_of_char(c).len() ==> #[trigger] utf16_of_char(c)[i] <= 0xFFFF);
        assert(forall|i: int|
            0 <= i < utf16_encode(s).len() ==> #[trigger] utf16_encode(s)[i]
                == (utf16_of_char(c) + utf16_encode(s.drop_first()))[i]);
    }
}

/// A text whose characters all lie in the basic plane encodes one code
/// unit per character.
pub proof fn lemma_utf16_encode_bmp(s: Seq<char>)
    requires
        forall|i: int| 0 <= i < s.len() ==> (#[trigger] s[i] as u32) < 0x10000,
    ensures
        utf16_encode(s) =~= Seq::new(s.len(), |i: int| s[i] as u32),
    decreases s.len(),
{
    if s.len() > 0 {
        lemma_utf16_encode_bmp(s.drop_first());
        assert(utf16_encode(s) == utf16_of_char(s[0]) + utf16_encode(s.drop_first()));
    }
}

/// The UTF-16 code units of the text.
pub fn utf16_units_of(s: &str) -> (v: Vec<u32>)
    ensures
        v@ == utf16_encode(s@),
{
    let n = s.unicode_len();
    let mut v: Vec<u32> = Vec::new();
    let mut i: usize = 0;
    while i < n
        invariant
            n == s@.len(),
            i <= n,
            v@ == utf16_encode(s@.subrange(0, i as int)),
        decreases n - i,
    {
        let c = s.get_char(i);
        let u = c as u32;
        proof {
            assert(s@.subrange(0, i + 1) =~= s@.subrange(0, i as int).push(s@[i as int]));
            lemma_utf16_encode_push(s@.subrange(0, i as int), s@[i as int]);
        }
        if u >= 0x10000 {
            v.push(0xD800 + ((u - 0x10000) / 0x400));
            v.push(0xDC00 + ((u - 0x10000) % 0x400));
            proof {
                assert(v@ =~= utf16_encode(s@.subrange(0, i + 1)));
            }
        } else {
            v.push(u);
            proof {
                assert(v@ =~= utf16_encode(s@.subrange(0, i + 1)));
            }
        }
        i = i + 1;
    }
    proof {
        assert(s@.subrange(0, n as int) =~= s@);
    }
    v
}

/// Whether two strings hold the same text.
pub fn str_content_eq(a: &str, b: &str) -> (r: bool)
    ensures
        r == (a@ == b@),
{
    let na = a.unicode_len();
    let nb = b.unicode_len();
    if na != nb {
        proof {
            assert(a@.len() != b@.len());
        }
        return false;
    }
    let mut i: usize = 0;
    while i < na
        invariant
            na == a@.len(),
            nb == b@.len(),
            na == nb,
            i <= na,
            forall|j: int| 0 <= j < i ==> a@[j] == b@[j],
        decreases na - i,
    {
        if a.get_char(i) != b.get_char(i) {
            return false;
        }
        i = i + 1;
    }
    proof {
        assert(a@ =~= b@);
    }
    true
}

/// The text the units stand for: surrogate pairs are combined, any unit that
/// is no scalar value (a lone surrogate, or a value past the last code
/// point) becomes U+FFFD.
pub open spec fn decode_units(s: Seq<u32>) -> Seq<char>
    decreases s.len(),
{
    if s.len() == 0 {
        Seq::empty()
    } else if spec_is_lead_surrogate(s[0]) && s.len() >= 2 && spec_is_trail_surrogate(s[1]) {
        seq![(spec_combine_surrogate_pair(s[0], s[1]) as u32) as char] + decode_units(
            s.subrange(2, s.len() as int),
        )
    } else if is_unicode_scalar_value(s[0]) {
        seq![s[0] as char] + decode_units(s.subrange(1, s.len() as int))
    } else {
        seq!['\u{FFFD}'] + decode_units(s.subrange(1, s.len() as int))
    }
}

/// Decode `units[from..to]` into a string.
pub fn decode_units_to_string(units: &Vec<u32>, from: usize, to: usize) -> (r: String)
    requires
        from <= to <= units@.len(),
    ensures
        r@ == decode_units(units@.subrange(from as int, to as int)),
{
    let ghost whole = units@.subrange(from as int, to as int);
    let mut r = String::new();
    let mut i: usize = from;
    while i < to
        invariant
            from <= i <= to <= units@.len(),
            whole == units@.subrange(from as int, to as int),
            decode_units(whole) == r@ + decode_units(units@.subrange(i as int, to as int)),
        decreases to - i,
    {
        let ghost rest = units@.subrange(i as int, to as int);
        let u = units[i];
        assert(rest[0] == u);
        if 0xD800 <= u && u <= 0xDBFF && i + 1 < to && 0xDC00 <= units[i + 1]
            && units[i + 1] <= 0xDFFF {
            let t = units[i + 1];
            assert(rest[1] == t);
            let combined = (u - 0xD800) * 0x400 + (t - 0xDC00) + 0x10000;
            assert(is_unicode_scalar_value(combined));
            let c = char::from_u32(combined).unwrap();
            r.push(c);
            proof {
                vstd::utf8::char_u32_cast(c, combined);
                assert(rest.subrange(2, rest.len() as int) =~= units@.subrange(
                    i + 2,
                    to as int,
                ));
                assert(decode_units(rest) =~= seq![c] + decode_units(
                    units@.subrange(i + 2, to as int),
                ));
            }
            i = i + 2;
        } else if !(0xD800 <= u && u <= 0xDFFF) && u <= 0x10FFFF {
            let c = char::from_u32(u).unwrap();
            r.push(c);
            proof {
                vstd::utf8::char_u32_cast(c, u);
                assert(rest.subrange(1, rest.len() as int) =~= units@.subrange(
                    i + 1,
                    to as int,
                ));
                assert(decode_units(rest) =~= seq![c] + decode_units(
                    units@.subrange(i + 1, to as int),
                ));
            }
            i = i + 1;
        } else {
            r.push('\u{FFFD}');
            proof {
                assert(rest.subrange(1, rest.len() as int) =~= units@.subrange(
                    i + 1,
                    to as int,
                ));
                assert(decode_units(rest) =~= seq!['\u{FFFD}'] + decode_units(
                    units@.subrange(i + 1, to as int),
                ));
            }
            i = i + 1;
        }
    }
    proof {
        assert(units@.subrange(to as int, to as int) =~= Seq::<u32>::empty());
        assert(r@ =~= decode_units(whole));
    }
    r
}

} // verus!
