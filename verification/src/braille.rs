//! Braille transcoding: from Unicode braille cells to ASCII braille, with
//! cells that carry dot 7 or dot 8 marked as bold.

use crate::text::{append_chars, chars_of, string_of};
use vstd::prelude::*;

verus! {

/// The first code point of the braille block, the cell with no dot raised.
pub const BRAILLE_BASE: u32 = 0x2800;

/// The last code point of the braille block, the cell with all eight dots.
pub const BRAILLE_LAST: u32 = 0x28FF;

/// The bits of a cell, taken from `BRAILLE_BASE`, that stand for dots 1 to 6.
pub const SIX_DOT_MASK: u32 = 0x3F;

/// The ASCII glyph of each six-dot cell, in the order of the cells: the
/// North American ASCII braille table.
pub const GLYPHS: &'static str =
    " A1B'K2L@CIF/MSP\"E3H9O6R^DJG>NTQ,*5<-U8V.%[$+X!&;:4\\0Z7(_?W]#Y)=";

/// What stands before the glyph of a cell with dot 7 or dot 8.
pub const EMPHASIS_OPEN: &'static str = "<span style='font-weight:bold'>";

/// What stands behind the glyph of a cell with dot 7 or dot 8.
pub const EMPHASIS_CLOSE: &'static str = "</span>";

/// Whether `c` is a braille cell.
pub open spec fn is_cell(c: char) -> bool {
    BRAILLE_BASE <= c as u32 <= BRAILLE_LAST
}

/// Whether `s` is made of braille cells alone.
pub open spec fn is_braille(s: Seq<char>) -> bool {
    forall|i: int| 0 <= i < s.len() ==> is_cell(#[trigger] s[i])
}

/// The place of a cell's glyph in the table: the cell's offset in the block,
/// with the bits of dots 7 and 8 masked off.
pub open spec fn cell_index(c: char) -> int {
    (((c as u32 - BRAILLE_BASE) as u32) & SIX_DOT_MASK) as int
}

/// Whether the cell has dot 7 or dot 8.
pub open spec fn is_emphasized(c: char) -> bool {
    c as u32 > BRAILLE_BASE + SIX_DOT_MASK
}

/// The glyph of a cell: that of its dots 1 to 6.
pub open spec fn glyph_of(c: char) -> char {
    GLYPHS@[cell_index(c)]
}

/// What a glyph looks like when it is marked as bold.
pub open spec fn emphasized(glyph: char) -> Seq<char> {
    EMPHASIS_OPEN@ + seq![glyph] + EMPHASIS_CLOSE@
}

/// The ASCII braille of one cell: its glyph, marked where the cell has dot 7
/// or dot 8.
pub open spec fn cell_ascii(c: char) -> Seq<char> {
    if is_emphasized(c) {
        emphasized(glyph_of(c))
    } else {
        seq![glyph_of(c)]
    }
}

/// The ASCII braille of a text of cells: that of each cell, in order.
pub open spec fn ascii_of(s: Seq<char>) -> Seq<char>
    decreases s.len(),
{
    if s.len() == 0 {
        Seq::empty()
    } else {
        ascii_of(s.drop_last()) + cell_ascii(s.last())
    }
}

/// How many cells of `s` have dot 7 or dot 8.
pub open spec fn emphasized_count(s: Seq<char>) -> nat
    decreases s.len(),
{
    if s.len() == 0 {
        0
    } else {
        emphasized_count(s.drop_last()) + if is_emphasized(s.last()) {
            1nat
        } else {
            0nat
        }
    }
}

/// The number of characters that marking one glyph adds.
pub open spec fn emphasis_len() -> nat {
    EMPHASIS_OPEN@.len() + EMPHASIS_CLOSE@.len()
}

/// The glyph table has one entry for each six-dot cell.
pub proof fn lemma_glyph_table()
    ensures
        GLYPHS@.len() == 64,
{
    reveal_strlit(" A1B'K2L@CIF/MSP\"E3H9O6R^DJG>NTQ,*5<-U8V.%[$+X!&;:4\\0Z7(_?W]#Y)=");
}

/// Every cell has a place in the glyph table.
pub proof fn lemma_cell_index_in_table(c: char)
    requires
        is_cell(c),
    ensures
        0 <= cell_index(c) < GLYPHS@.len(),
{
    lemma_glyph_table();
    let n: u32 = c as u32;
    assert(((n - 0x2800u32) as u32 & 0x3Fu32) < 64u32) by (bit_vector)
        requires
            0x2800u32 <= n <= 0x28FFu32,
    ;
}

/// Transcoding gives one glyph for each cell: the result has one character
/// for each cell, and the marker's characters for each cell with dot 7 or
/// dot 8. Where no cell has either, the result is as long as the text.
pub proof fn lemma_one_glyph_per_cell(s: Seq<char>)
    ensures
        ascii_of(s).len() == s.len() + emphasized_count(s) * emphasis_len(),
        emphasized_count(s) <= s.len(),
        (forall|i: int| 0 <= i < s.len() ==> !is_emphasized(#[trigger] s[i])) ==> ascii_of(s).len()
            == s.len(),
    decreases s.len(),
{
    let e = emphasis_len();
    if s.len() == 0 {
        assert(0 * e == 0) by (nonlinear_arith);
    } else {
        let t = s.drop_last();
        lemma_one_glyph_per_cell(t);
        let k = emphasized_count(t);
        assert((k + 1) * e == k * e + e) by (nonlinear_arith);
        assert(emphasized(glyph_of(s.last())).len() == e + 1);
        assert(ascii_of(s).len() == ascii_of(t).len() + cell_ascii(s.last()).len());
        if forall|i: int| 0 <= i < s.len() ==> !is_emphasized(#[trigger] s[i]) {
            assert forall|i: int| 0 <= i < t.len() implies !is_emphasized(#[trigger] t[i]) by {
                assert(t[i] == s[i]);
            }
            assert(!is_emphasized(s[s.len() - 1]));
        }
    }
}

/// A cell, the same cell with dot 7 added and the same cell with dot 8 added
/// have one glyph. The two with a dot added are marked as bold; the cell
/// itself is marked exactly where it has one of the two dots already.
pub proof fn lemma_dots_7_and_8_keep_the_glyph(c: char)
    requires
        is_cell(c),
    ensures
        ({
            let with_dot_7 = (c as u32 | 0x40u32) as char;
            let with_dot_8 = (c as u32 | 0x80u32) as char;
            &&& is_cell(with_dot_7)
            &&& is_cell(with_dot_8)
            &&& glyph_of(with_dot_7) == glyph_of(c)
            &&& glyph_of(with_dot_8) == glyph_of(c)
            &&& cell_ascii(with_dot_7) == emphasized(glyph_of(c))
            &&& cell_ascii(with_dot_8) == emphasized(glyph_of(c))
            &&& cell_ascii(c) == if is_emphasized(c) {
                emphasized(glyph_of(c))
            } else {
                seq![glyph_of(c)]
            }
        }),
{
    let n: u32 = c as u32;
    let n7: u32 = n | 0x40u32;
    let n8: u32 = n | 0x80u32;
    assert(0x2840u32 <= n7 <= 0x28FFu32 && 0x2880u32 <= n8 <= 0x28FFu32) by (bit_vector)
        requires
            0x2800u32 <= n <= 0x28FFu32,
            n7 == n | 0x40u32,
            n8 == n | 0x80u32,
    ;
    assert(((n7 - 0x2800u32) as u32 & 0x3Fu32) == ((n - 0x2800u32) as u32 & 0x3Fu32) && ((n8
        - 0x2800u32) as u32 & 0x3Fu32) == ((n - 0x2800u32) as u32 & 0x3Fu32)) by (bit_vector)
        requires
            0x2800u32 <= n <= 0x28FFu32,
            n7 == n | 0x40u32,
            n8 == n | 0x80u32,
    ;
    assert((n7 as char) as u32 == n7);
    assert((n8 as char) as u32 == n8);
}

/// Whether `c` is a printable ASCII character.
pub open spec fn is_printable_ascii(c: char) -> bool {
    0x20 <= c as u32 <= 0x7E
}

/// Every glyph of the table is a printable ASCII character.
pub proof fn lemma_glyphs_are_ascii(i: int)
    requires
        0 <= i < 64,
    ensures
        is_printable_ascii(GLYPHS@[i]),
{
    reveal_strlit(" A1B'K2L@CIF/MSP\"E3H9O6R^DJG>NTQ,*5<-U8V.%[$+X!&;:4\\0Z7(_?W]#Y)=");
}

/// The ASCII braille of a text of braille cells is made of printable ASCII
/// characters alone: it holds no braille cell.
pub proof fn lemma_ascii_of_is_ascii(s: Seq<char>)
    requires
        is_braille(s),
    ensures
        forall|k: int| 0 <= k < ascii_of(s).len() ==> is_printable_ascii(#[trigger] ascii_of(s)[k]),
        forall|k: int| 0 <= k < ascii_of(s).len() ==> !is_cell(#[trigger] ascii_of(s)[k]),
    decreases s.len(),
{
    if s.len() > 0 {
        let t = s.drop_last();
        let c = s.last();
        assert(is_cell(s[s.len() - 1]));
        assert forall|i: int| 0 <= i < t.len() implies is_cell(#[trigger] t[i]) by {
            assert(t[i] == s[i]);
        }
        lemma_ascii_of_is_ascii(t);
        lemma_cell_index_in_table(c);
        lemma_glyph_table();
        lemma_glyphs_are_ascii(cell_index(c));
        reveal_strlit("<span style='font-weight:bold'>");
        reveal_strlit("</span>");
        let piece = cell_ascii(c);
        assert forall|j: int| 0 <= j < piece.len() implies is_printable_ascii(
            #[trigger] piece[j],
        ) by {
            if is_emphasized(c) {
                let open = EMPHASIS_OPEN@;
                if j < open.len() {
                    assert(piece[j] == open[j]);
                } else if j == open.len() {
                    assert(piece[j] == glyph_of(c));
                } else {
                    assert(piece[j] == EMPHASIS_CLOSE@[j - open.len() - 1]);
                }
            }
        }
        assert forall|k: int| 0 <= k < ascii_of(s).len() implies is_printable_ascii(
            #[trigger] ascii_of(s)[k],
        ) by {
            if k >= ascii_of(t).len() {
                assert(ascii_of(s)[k] == piece[k - ascii_of(t).len()]);
            } else {
                assert(ascii_of(s)[k] == ascii_of(t)[k]);
            }
        }
    }
}

/// Whether `c` is a braille cell.
pub fn is_braille_cell(c: char) -> (r: bool)
    ensures
        r == is_cell(c),
{
    let n: u32 = c as u32;
    BRAILLE_BASE <= n && n <= BRAILLE_LAST
}

/// Whether `text` is made of braille cells alone.
pub fn is_braille_text(text: &str) -> (r: bool)
    ensures
        r == is_braille(text@),
{
    let cells = chars_of(text);
    let mut i: usize = 0;
    while i < cells.len()
        invariant
            i <= cells.len(),
            cells@ == text@,
            forall|j: int| 0 <= j < i ==> is_cell(#[trigger] cells@[j]),
        decreases cells.len() - i,
    {
        if !is_braille_cell(cells[i]) {
            assert(!is_cell(text@[i as int]));
            return false;
        }
        i += 1;
    }
    true
}

/// The ASCII braille of a text of braille cells: for each cell the glyph of
/// its dots 1 to 6, marked as bold where the cell has dot 7 or dot 8.
pub fn to_ascii(braille: &str) -> (r: String)
    requires
        is_braille(braille@),
    ensures
        r@ == ascii_of(braille@),
        r@.len() == braille@.len() + emphasized_count(braille@) * emphasis_len(),
{
    let cells = chars_of(braille);
    let glyphs = chars_of(GLYPHS);
    let open = chars_of(EMPHASIS_OPEN);
    let close = chars_of(EMPHASIS_CLOSE);
    let mut out: Vec<char> = Vec::new();
    let mut i: usize = 0;
    assert(cells@.take(0) == Seq::<char>::empty());
    while i < cells.len()
        invariant
            i <= cells.len(),
            is_braille(cells@),
            glyphs@ == GLYPHS@,
            open@ == EMPHASIS_OPEN@,
            close@ == EMPHASIS_CLOSE@,
            out@ == ascii_of(cells@.take(i as int)),
        decreases cells.len() - i,
    {
        let c = cells[i];
        let n: u32 = c as u32;
        assert(is_cell(cells@[i as int]));
        proof {
            lemma_cell_index_in_table(c);
        }
        let index: usize = ((n - BRAILLE_BASE) & SIX_DOT_MASK) as usize;
        let glyph = glyphs[index];
        if n > BRAILLE_BASE + SIX_DOT_MASK {
            append_chars(&mut out, &open);
            out.push(glyph);
            append_chars(&mut out, &close);
        } else {
            out.push(glyph);
        }
        i += 1;
        proof {
            let now = cells@.take(i as int);
            assert(now.drop_last() == cells@.take(i - 1));
            assert(now.last() == c);
            assert(out@ == ascii_of(now.drop_last()) + cell_ascii(c));
        }
    }
    proof {
        assert(cells@.take(cells.len() as int) == cells@);
        lemma_one_glyph_per_cell(braille@);
    }
    string_of(&out)
}

} // verus!
