use vstd::prelude::*;
use crate::span::Span;

verus! {

/// The whole regex body.
#[derive(Debug)]
pub struct Pattern {
    pub span: Span,
    pub body: Disjunction,
}

/// `alt | alt | ...`: one or more alternatives.
#[derive(Debug)]
pub struct Disjunction {
    pub span: Span,
    pub body: Vec<Alternative>,
}

/// A concatenation of terms; it may be empty.
#[derive(Debug)]
pub struct Alternative {
    pub span: Span,
    pub body: Vec<Term>,
}

/// One term of an alternative.
#[derive(Debug)]
pub enum Term {
    BoundaryAssertion(BoundaryAssertion),
    LookAroundAssertion(Box<LookAroundAssertion>),
    Quantifier(Box<Quantifier>),
    Character(Character),
    Dot(Dot),
    CharacterClassEscape(CharacterClassEscape),
    UnicodePropertyEscape(Box<UnicodePropertyEscape>),
    CharacterClass(Box<CharacterClass>),
    CapturingGroup(Box<CapturingGroup>),
    IgnoreGroup(Box<IgnoreGroup>),
    IndexedReference(IndexedReference),
    NamedReference(Box<NamedReference>),
}

/// `^ $ \b \B`.
#[derive(Debug)]
pub struct BoundaryAssertion {
    pub span: Span,
    pub kind: BoundaryAssertionKind,
}

#[derive(Clone, Copy, Debug, PartialEq, Eq, Structural)]
pub enum BoundaryAssertionKind {
    Start,
    End,
    Boundary,
    NegativeBoundary,
}

/// `(?=..) (?!..) (?<=..) (?<!..)`.
#[derive(Debug)]
pub struct LookAroundAssertion {
    pub span: Span,
    pub kind: LookAroundAssertionKind,
    pub body: Disjunction,
}

#[derive(Clone, Copy, Debug, PartialEq, Eq, Structural)]
pub enum LookAroundAssertionKind {
    Lookahead,
    NegativeLookahead,
    Lookbehind,
    NegativeLookbehind,
}

/// A repetition wrapper around exactly one prior term. `max` of `None`
/// means unbounded.
#[derive(Debug)]
pub struct Quantifier {
    pub span: Span,
    pub min: u32,
    pub max: Option<u32>,
    pub greedy: bool,
    pub body: Term,
}

/// A single code point, written literally or by an escape.
#[derive(Clone, Copy, Debug, PartialEq, Eq, Structural)]
pub struct Character {
    pub span: Span,
    pub kind: CharacterKind,
    pub value: u32,
}

#[derive(Clone, Copy, Debug, PartialEq, Eq, Structural)]
pub enum CharacterKind {
    ControlLetter,
    HexadecimalEscape,
    Identifier,
    Null,
    Octal,
    SingleEscape,
    Symbol,
    UnicodeEscape,
}

/// `.`
#[derive(Clone, Copy, Debug, PartialEq, Eq, Structural)]
pub struct Dot {
    pub span: Span,
}

/// `\d \D \s \S \w \W`.
#[derive(Clone, Copy, Debug, PartialEq, Eq, Structural)]
pub struct CharacterClassEscape {
    pub span: Span,
    pub kind: CharacterClassEscapeKind,
}

#[derive(Clone, Copy, Debug, PartialEq, Eq, Structural)]
pub enum CharacterClassEscapeKind {
    D,
    NegativeD,
    S,
    NegativeS,
    W,
    NegativeW,
}

/// `\p{...}` / `\P{...}`.
#[derive(Debug)]
pub struct UnicodePropertyEscape {
    pub span: Span,
    pub negative: bool,
    pub strings: bool,
    pub name: String,
    pub value: Option<String>,
}

/// `[...]`.
#[derive(Debug)]
pub struct CharacterClass {
    pub span: Span,
    pub negative: bool,
    pub kind: CharacterClassContentsKind,
    pub body: Vec<CharacterClassContents>,
}

#[derive(Clone, Copy, Debug, PartialEq, Eq, Structural)]
pub enum CharacterClassContentsKind {
    Union,
}

/// One element of a character class.
#[derive(Debug)]
pub enum CharacterClassContents {
    CharacterClassRange(Box<CharacterClassRange>),
    CharacterClassEscape(CharacterClassEscape),
    UnicodePropertyEscape(Box<UnicodePropertyEscape>),
    Character(Character),
}

/// `a-z` inside a class; `max.value >= min.value` always holds.
#[derive(Debug)]
pub struct CharacterClassRange {
    pub span: Span,
    pub min: Character,
    pub max: Character,
}

/// `(...)` or `(?<name>...)`.
#[derive(Debug)]
pub struct CapturingGroup {
    pub span: Span,
    pub name: Option<String>,
    pub body: Disjunction,
}

/// `(?:...)`. The modifier fields are reserved and stay empty.
#[derive(Debug)]
pub struct IgnoreGroup {
    pub span: Span,
    pub enabling_modifiers: Option<ModifierFlags>,
    pub disabling_modifiers: Option<ModifierFlags>,
    pub body: Disjunction,
}

/// Reserved group-modifier flags; the parser never sets them.
#[derive(Clone, Copy, Debug, PartialEq, Eq, Structural)]
pub struct ModifierFlags {
    pub ignore_case: bool,
    pub multiline: bool,
    pub dot_all: bool,
}

/// `\1`: a backreference by index, always at least 1.
#[derive(Clone, Copy, Debug, PartialEq, Eq, Structural)]
pub struct IndexedReference {
    pub span: Span,
    pub index: u32,
}

/// `\k<name>`: a backreference by group name.
#[derive(Debug)]
pub struct NamedReference {
    pub span: Span,
    pub name: String,
}

/// `inner` lies inside `outer`.
pub open spec fn span_within(inner: Span, outer: Span) -> bool {
    outer.start <= inner.start && inner.start <= inner.end && inner.end <= outer.end
}

/// The span of a term, whatever its variant.
pub open spec fn term_span(t: Term) -> Span {
    match t {
        Term::BoundaryAssertion(b) => b.span,
        Term::LookAroundAssertion(la) => la.span,
        Term::Quantifier(q) => q.span,
        Term::Character(c) => c.span,
        Term::Dot(d) => d.span,
        Term::CharacterClassEscape(e) => e.span,
        Term::UnicodePropertyEscape(p) => p.span,
        Term::CharacterClass(cc) => cc.span,
        Term::CapturingGroup(g) => g.span,
        Term::IgnoreGroup(g) => g.span,
        Term::IndexedReference(r) => r.span,
        Term::NamedReference(n) => n.span,
    }
}

/// The span of a class element, whatever its variant.
pub open spec fn class_contents_span(c: CharacterClassContents) -> Span {
    match c {
        CharacterClassContents::CharacterClassRange(r) => r.span,
        CharacterClassContents::CharacterClassEscape(e) => e.span,
        CharacterClassContents::UnicodePropertyEscape(p) => p.span,
        CharacterClassContents::Character(ch) => ch.span,
    }
}

/// Well-formedness of a whole pattern: see the node predicates below.
pub open spec fn pattern_wf(p: Pattern) -> bool {
    &&& p.span.start <= p.span.end
    &&& disjunction_wf(p.body)
    &&& span_within(p.body.span, p.span)
}

/// A disjunction holds at least one alternative; every alternative lies
/// inside its span, later ones after earlier ones.
pub open spec fn disjunction_wf(d: Disjunction) -> bool
    decreases d,
{
    &&& d.span.start <= d.span.end
    &&& d.body@.len() >= 1
    &&& alternatives_wf(d.body@, d.span)
}

pub open spec fn alternatives_wf(s: Seq<Alternative>, outer: Span) -> bool
    decreases s,
{
    s.len() == 0 || {
        &&& alternative_wf(s[0])
        &&& span_within(s[0].span, outer)
        &&& (s.len() >= 2 ==> s[0].span.end <= s[1].span.start)
        &&& alternatives_wf(s.subrange(1, s.len() as int), outer)
    }
}

/// Every term of an alternative lies inside its span, later ones after
/// earlier ones.
pub open spec fn alternative_wf(a: Alternative) -> bool
    decreases a,
{
    &&& a.span.start <= a.span.end
    &&& terms_wf(a.body@, a.span)
}

pub open spec fn terms_wf(s: Seq<Term>, outer: Span) -> bool
    decreases s,
{
    s.len() == 0 || {
        &&& term_wf(s[0])
        &&& span_within(term_span(s[0]), outer)
        &&& (s.len() >= 2 ==> term_span(s[0]).end <= term_span(s[1]).start)
        &&& terms_wf(s.subrange(1, s.len() as int), outer)
    }
}

/// Structural soundness of one term: spans nest, quantifier bounds are
/// ordered, class ranges are ordered, references are positive, and every
/// character value is a code point.
pub open spec fn term_wf(t: Term) -> bool
    decreases t,
{
    match t {
        Term::BoundaryAssertion(b) => b.span.start <= b.span.end,
        Term::LookAroundAssertion(la) => {
            &&& la.span.start <= la.span.end
            &&& disjunction_wf(la.body)
            &&& span_within(la.body.span, la.span)
        },
        Term::Quantifier(q) => {
            &&& q.span.start <= q.span.end
            &&& (q.max matches Some(mx) ==> q.min <= mx)
            &&& term_wf(q.body)
            &&& span_within(term_span(q.body), q.span)
            &&& (q.body matches Term::LookAroundAssertion(la) ==> la.kind
                == LookAroundAssertionKind::Lookahead || la.kind
                == LookAroundAssertionKind::NegativeLookahead)
        },
        Term::Character(c) => c.span.start <= c.span.end && c.value <= 0x10FFFF,
        Term::Dot(d) => d.span.start <= d.span.end,
        Term::CharacterClassEscape(e) => e.span.start <= e.span.end,
        Term::UnicodePropertyEscape(p) => p.span.start <= p.span.end,
        Term::CharacterClass(cc) => {
            &&& cc.span.start <= cc.span.end
            &&& class_contents_list_wf(cc.body@, cc.span)
        },
        Term::CapturingGroup(g) => {
            &&& g.span.start <= g.span.end
            &&& disjunction_wf(g.body)
            &&& span_within(g.body.span, g.span)
        },
        Term::IgnoreGroup(g) => {
            &&& g.span.start <= g.span.end
            &&& g.enabling_modifiers is None
            &&& g.disabling_modifiers is None
            &&& disjunction_wf(g.body)
            &&& span_within(g.body.span, g.span)
        },
        Term::IndexedReference(r) => r.span.start <= r.span.end && r.index >= 1,
        Term::NamedReference(n) => n.span.start <= n.span.end,
    }
}

pub open spec fn class_contents_list_wf(s: Seq<CharacterClassContents>, outer: Span) -> bool {
    forall|i: int|
        0 <= i < s.len() ==> class_contents_wf(#[trigger] s[i]) && span_within(
            class_contents_span(s[i]),
            outer,
        )
}

/// Structural soundness of one class element; a range keeps
/// `min.value <= max.value`.
pub open spec fn class_contents_wf(c: CharacterClassContents) -> bool {
    match c {
        CharacterClassContents::CharacterClassRange(r) => {
            &&& r.span.start <= r.span.end
            &&& r.min.value <= r.max.value
            &&& r.min.value <= 0x10FFFF
            &&& r.max.value <= 0x10FFFF
            &&& span_within(r.min.span, r.span)
            &&& span_within(r.max.span, r.span)
        },
        CharacterClassContents::CharacterClassEscape(e) => e.span.start <= e.span.end,
        CharacterClassContents::UnicodePropertyEscape(p) => p.span.start <= p.span.end,
        CharacterClassContents::Character(ch) => ch.span.start <= ch.span.end && ch.value
            <= 0x10FFFF,
    }
}

/// A term list stays well-formed inside any wider span.
pub proof fn lemma_terms_wf_widen(s: Seq<Term>, a: Span, b: Span)
    requires
        terms_wf(s, a),
        b.start <= a.start,
        a.end <= b.end,
    ensures
        terms_wf(s, b),
    decreases s.len(),
{
    if s.len() > 0 {
        lemma_terms_wf_widen(s.subrange(1, s.len() as int), a, b);
    }
}

/// A well-formed term list stays well-formed when a term that lies inside
/// the span and starts no earlier than the last term ends is put at its
/// end.
pub proof fn lemma_terms_wf_push(s: Seq<Term>, outer: Span, t: Term)
    requires
        terms_wf(s, outer),
        term_wf(t),
        span_within(term_span(t), outer),
        s.len() > 0 ==> term_span(s.last()).end <= term_span(t).start,
    ensures
        terms_wf(s.push(t), outer),
    decreases s.len(),
{
    reveal_with_fuel(terms_wf, 3);
    if s.len() == 0 {
        assert(s.push(t)[0] == t);
        assert(s.push(t).subrange(1, 1) =~= Seq::<Term>::empty());
    } else {
        assert(s.push(t)[0] == s[0]);
        if s.len() == 1 {
            assert(s.push(t)[1] == t);
        } else {
            assert(s.push(t)[1] == s[1]);
        }
        assert(s.push(t).subrange(1, s.len() as int + 1) =~= s.subrange(1, s.len() as int).push(t));
        if s.len() > 1 {
            assert(s.subrange(1, s.len() as int).last() == s.last());
        }
        lemma_terms_wf_push(s.subrange(1, s.len() as int), outer, t);
    }
}

/// An alternative list stays well-formed inside any wider span.
pub proof fn lemma_alternatives_wf_widen(s: Seq<Alternative>, a: Span, b: Span)
    requires
        alternatives_wf(s, a),
        b.start <= a.start,
        a.end <= b.end,
    ensures
        alternatives_wf(s, b),
    decreases s.len(),
{
    if s.len() > 0 {
        lemma_alternatives_wf_widen(s.subrange(1, s.len() as int), a, b);
    }
}

/// A well-formed alternative list stays well-formed when an alternative
/// that lies inside the span and starts no earlier than the last one ends
/// is put at its end.
pub proof fn lemma_alternatives_wf_push(s: Seq<Alternative>, outer: Span, a: Alternative)
    requires
        alternatives_wf(s, outer),
        alternative_wf(a),
        span_within(a.span, outer),
        s.len() > 0 ==> s.last().span.end <= a.span.start,
    ensures
        alternatives_wf(s.push(a), outer),
    decreases s.len(),
{
    reveal_with_fuel(alternatives_wf, 3);
    if s.len() == 0 {
        assert(s.push(a)[0] == a);
        assert(s.push(a).subrange(1, 1) =~= Seq::<Alternative>::empty());
    } else {
        assert(s.push(a)[0] == s[0]);
        if s.len() == 1 {
            assert(s.push(a)[1] == a);
        } else {
            assert(s.push(a)[1] == s[1]);
        }
        assert(s.push(a).subrange(1, s.len() as int + 1) =~= s.subrange(1, s.len() as int).push(a));
        if s.len() > 1 {
            assert(s.subrange(1, s.len() as int).last() == s.last());
        }
        lemma_alternatives_wf_push(s.subrange(1, s.len() as int), outer, a);
    }
}

} // verus!
