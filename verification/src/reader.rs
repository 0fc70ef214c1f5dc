use vstd::prelude::*;
use crate::text::{
    code_points_of, decode_units, decode_units_to_string, utf16_encode, utf16_units_of,
    lemma_utf16_encode_bounds,
};

verus! {

broadcast use vstd::utf8::char_is_scalar;

/// Width in UTF-16 code units that one reader unit accounts for: a unit is a
/// scalar value in unicode mode, so it may take two code units; otherwise it
/// is itself a UTF-16 code unit.
pub open spec fn unit_width(unicode_mode: bool, u: u32) -> int {
    if unicode_mode && u >= 0x10000 {
        2
    } else {
        1
    }
}

/// The UTF-16 position of unit index `i`: the widths of all units before it,
/// summed.
pub open spec fn pos16(units: Seq<u32>, unicode_mode: bool, i: int) -> int
    decreases i,
{
    if i <= 0 {
        0
    } else {
        pos16(units, unicode_mode, i - 1) + unit_width(unicode_mode, units[i - 1])
    }
}

/// Outside unicode mode every unit is one code unit wide, so positions and
/// indexes agree.
pub proof fn lemma_pos16_code_units(units: Seq<u32>, i: int)
    requires
        0 <= i,
    ensures
        pos16(units, false, i) == i,
    decreases i,
{
    if i > 0 {
        lemma_pos16_code_units(units, i - 1);
    }
}

/// Where every unit is one code unit wide, positions and indexes agree.
pub proof fn lemma_pos16_narrow(units: Seq<u32>, m: bool, i: int)
    requires
        0 <= i,
        forall|j: int| 0 <= j < i ==> unit_width(m, #[trigger] units[j]) == 1,
    ensures
        pos16(units, m, i) == i,
    decreases i,
{
    if i > 0 {
        lemma_pos16_narrow(units, m, i - 1);
    }
}

/// Positions grow with the index, by one to two units of width each step.
pub proof fn lemma_pos16_bounds(units: Seq<u32>, m: bool, i: int, j: int)
    requires
        0 <= i <= j,
    ensures
        pos16(units, m, i) + (j - i) <= pos16(units, m, j) <= pos16(units, m, i) + 2 * (j - i),
    decreases j - i,
{
    if i < j {
        lemma_pos16_bounds(units, m, i, j - 1);
    }
}

/// The units of the pattern text: its scalar values in unicode mode, its
/// UTF-16 code units otherwise.
pub open spec fn units_of(source: Seq<char>, unicode_mode: bool) -> Seq<u32> {
    if unicode_mode {
        Seq::new(source.len(), |i: int| source[i] as u32)
    } else {
        utf16_encode(source)
    }
}

/// A cursor over the pattern's units with one or two units of lookahead,
/// conditional consumption, and checkpoint/rewind for speculative parsing.
/// The UTF-16 offset of the cursor is tracked beside the unit index.
pub struct Reader {
    pub units: Vec<u32>,
    pub unicode_mode: bool,
    pub pos: usize,
    pub offset16: usize,
}

/// Saved cursor state, taken by `checkpoint` and given back to `rewind`.
#[derive(Clone, Copy, Debug, PartialEq, Eq, Structural)]
pub struct Checkpoint {
    pub pos: usize,
    pub offset16: usize,
}

impl Reader {
    /// The cursor is inside the text, its UTF-16 offset agrees with its
    /// index, the whole text has a representable UTF-16 length, and every
    /// unit is at most the last code point.
    pub open spec fn inv(&self) -> bool {
        &&& self.pos <= self.units@.len()
        &&& self.offset16 == pos16(self.units@, self.unicode_mode, self.pos as int)
        &&& self.offset16 <= pos16(self.units@, self.unicode_mode, self.units@.len() as int)
        &&& pos16(self.units@, self.unicode_mode, self.units@.len() as int) <= usize::MAX
        &&& forall|i: int| 0 <= i < self.units@.len() ==> self.units@[i] <= 0x10FFFF
    }

    /// The unit at the cursor, if any.
    pub open spec fn peek_spec(&self) -> Option<u32> {
        if self.pos < self.units@.len() {
            Some(self.units@[self.pos as int])
        } else {
            None
        }
    }

    /// The unit one past the cursor, if any.
    pub open spec fn peek2_spec(&self) -> Option<u32> {
        if self.pos + 1 < self.units@.len() {
            Some(self.units@[self.pos + 1])
        } else {
            None
        }
    }

    /// True when the same text is read in the same mode and only the cursor
    /// may differ.
    pub open spec fn same_text(&self, other: &Reader) -> bool {
        self.units@ == other.units@ && self.unicode_mode == other.unicode_mode
    }

    /// Build a reader over `source`.
    pub fn new(source: &str, unicode_mode: bool) -> (r: Reader)
        requires
            2 * source@.len() <= usize::MAX,
        ensures
            r.inv(),
            r.unicode_mode == unicode_mode,
            r.pos == 0,
            r.offset16 == 0,
            r.units@ == units_of(source@, unicode_mode),
            pos16(r.units@, unicode_mode, r.units@.len() as int) <= 2 * source@.len(),
    {
        let units = if unicode_mode {
            code_points_of(source)
        } else {
            utf16_units_of(source)
        };
        proof {
            if unicode_mode {
                assert(units@ =~= units_of(source@, true));
                lemma_pos16_bounds(units@, unicode_mode, 0, units@.len() as int);
                assert forall|i: int| 0 <= i < units@.len() implies #[trigger] units@[i]
                    <= 0x10FFFF by {
                    vstd::utf8::char_is_scalar(source@[i]);
                }
            } else {
                lemma_utf16_encode_bounds(source@);
                lemma_pos16_code_units(units@, units@.len() as int);
            }
        }
        Reader { units, unicode_mode, pos: 0, offset16: 0 }
    }

    /// The unit at the cursor, without consuming it.
    pub fn peek(&self) -> (r: Option<u32>)
        ensures
            r == self.peek_spec(),
    {
        if self.pos < self.units.len() {
            Some(self.units[self.pos])
        } else {
            None
        }
    }

    /// The unit one past the cursor, without consuming anything.
    pub fn peek2(&self) -> (r: Option<u32>)
        ensures
            r == self.peek2_spec(),
    {
        let n = self.units.len();
        if self.pos < n && self.pos + 1 < n {
            Some(self.units[self.pos + 1])
        } else {
            None
        }
    }

    /// Consume one unit.
    pub fn advance(&mut self)
        requires
            old(self).inv(),
            old(self).pos < old(self).units@.len(),
        ensures
            final(self).inv(),
            final(self).same_text(old(self)),
            final(self).pos == old(self).pos + 1,
            final(self).offset16 == old(self).offset16 + unit_width(
                old(self).unicode_mode,
                old(self).units@[old(self).pos as int],
            ),
            final(self).offset16 >= old(self).offset16 + 1,
    {
        proof {
            lemma_pos16_bounds(
                self.units@,
                self.unicode_mode,
                self.pos + 1,
                self.units@.len() as int,
            );
        }
        let n = self.units.len();
        let u = self.units[self.pos];
        let w: usize = if self.unicode_mode && u >= 0x10000 {
            2
        } else {
            1
        };
        self.offset16 = self.offset16 + w;
        self.pos = self.pos + 1;
    }

    /// Consume `c` if it stands at the cursor; say whether it did.
    pub fn eat(&mut self, c: char) -> (r: bool)
        requires
            old(self).inv(),
        ensures
            final(self).inv(),
            final(self).same_text(old(self)),
            r == (old(self).peek_spec() == Some(c as u32)),
            r ==> final(self).pos == old(self).pos + 1,
            !r ==> *final(self) == *old(self),
            final(self).offset16 >= old(self).offset16,
    {
        if self.pos < self.units.len() && self.units[self.pos] == c as u32 {
            self.advance();
            true
        } else {
            false
        }
    }

    /// Consume the two units `c1 c2` if they stand at the cursor, else
    /// consume nothing.
    pub fn eat2(&mut self, c1: char, c2: char) -> (r: bool)
        requires
            old(self).inv(),
        ensures
            final(self).inv(),
            final(self).same_text(old(self)),
            r == (old(self).pos + 2 <= old(self).units@.len() && old(self).units@[old(
                self,
            ).pos as int] == c1 as u32 && old(self).units@[old(self).pos + 1] == c2 as u32),
            r ==> final(self).pos == old(self).pos + 2,
            !r ==> *final(self) == *old(self),
            final(self).offset16 >= old(self).offset16,
    {
        if self.pos < self.units.len() && self.units[self.pos] == c1 as u32 && self.pos + 1
            < self.units.len() && self.units[self.pos + 1] == c2 as u32 {
            self.advance();
            self.advance();
            true
        } else {
            false
        }
    }

    /// Consume the three units `c1 c2 c3` if they stand at the cursor, else
    /// consume nothing.
    pub fn eat3(&mut self, c1: char, c2: char, c3: char) -> (r: bool)
        requires
            old(self).inv(),
        ensures
            final(self).inv(),
            final(self).same_text(old(self)),
            r == (old(self).pos + 3 <= old(self).units@.len() && old(self).units@[old(
                self,
            ).pos as int] == c1 as u32 && old(self).units@[old(self).pos + 1] == c2 as u32 && old(
                self,
            ).units@[old(self).pos + 2] == c3 as u32),
            r ==> final(self).pos == old(self).pos + 3,
            !r ==> *final(self) == *old(self),
            final(self).offset16 >= old(self).offset16,
    {
        if self.pos < self.units.len() && self.units[self.pos] == c1 as u32 && self.pos + 1
            < self.units.len() && self.units[self.pos + 1] == c2 as u32 && self.pos + 2
            < self.units.len() && self.units[self.pos + 2] == c3 as u32 {
            self.advance();
            self.advance();
            self.advance();
            true
        } else {
            false
        }
    }

    /// Consume the four units `c1 c2 c3 c4` if they stand at the cursor,
    /// else consume nothing.
    pub fn eat4(&mut self, c1: char, c2: char, c3: char, c4: char) -> (r: bool)
        requires
            old(self).inv(),
        ensures
            final(self).inv(),
            final(self).same_text(old(self)),
            r == (old(self).pos + 4 <= old(self).units@.len() && old(self).units@[old(
                self,
            ).pos as int] == c1 as u32 && old(self).units@[old(self).pos + 1] == c2 as u32 && old(
                self,
            ).units@[old(self).pos + 2] == c3 as u32 && old(self).units@[old(self).pos + 3] == c4
                as u32),
            r ==> final(self).pos == old(self).pos + 4,
            !r ==> *final(self) == *old(self),
            final(self).offset16 >= old(self).offset16,
    {
        if self.pos < self.units.len() && self.units[self.pos] == c1 as u32 && self.pos + 1
            < self.units.len() && self.units[self.pos + 1] == c2 as u32 && self.pos + 2
            < self.units.len() && self.units[self.pos + 2] == c3 as u32 && self.pos + 3
            < self.units.len() && self.units[self.pos + 3] == c4 as u32 {
            self.advance();
            self.advance();
            self.advance();
            self.advance();
            true
        } else {
            false
        }
    }

    /// The unit at the cursor; the cursor must be inside the text.
    pub fn current(&self) -> (r: u32)
        requires
            self.pos < self.units@.len(),
        ensures
            r == self.units@[self.pos as int],
    {
        self.units[self.pos]
    }

    /// The cursor's UTF-16 offset, the measure all spans use.
    pub fn span_position(&self) -> (r: usize)
        ensures
            r == self.offset16,
    {
        self.offset16
    }

    /// The cursor's unit index.
    pub fn position(&self) -> (r: usize)
        ensures
            r == self.pos,
    {
        self.pos
    }

    /// Capture the cursor.
    pub fn checkpoint(&self) -> (r: Checkpoint)
        ensures
            r.pos == self.pos,
            r.offset16 == self.offset16,
    {
        Checkpoint { pos: self.pos, offset16: self.offset16 }
    }

    /// Restore a cursor previously captured on the same text.
    pub fn rewind(&mut self, checkpoint: Checkpoint)
        requires
            old(self).inv(),
            checkpoint.pos <= old(self).units@.len(),
            checkpoint.offset16 == pos16(
                old(self).units@,
                old(self).unicode_mode,
                checkpoint.pos as int,
            ),
        ensures
            final(self).inv(),
            final(self).same_text(old(self)),
            final(self).pos == checkpoint.pos,
            final(self).offset16 == checkpoint.offset16,
    {
        proof {
            lemma_pos16_bounds(
                self.units@,
                self.unicode_mode,
                checkpoint.pos as int,
                self.units@.len() as int,
            );
        }
        self.pos = checkpoint.pos;
        self.offset16 = checkpoint.offset16;
    }

    /// The text between two unit indexes, decoded to a string.
    pub fn slice_string(&self, from: usize, to: usize) -> (r: String)
        requires
            from <= to <= self.units@.len(),
        ensures
            r@ == decode_units(self.units@.subrange(from as int, to as int)),
    {
        decode_units_to_string(&self.units, from, to)
    }
}

} // verus!
