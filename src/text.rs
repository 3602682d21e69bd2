//! The glyph atlas used by text drawing: a texture of 16 columns by 8 rows of
//! glyphs, cell `index` holding the character whose code is `'!' + index`, laid out
//! row by row. Column `c` spans u from `c / 16` to `(c + 1) / 16`; row `r` spans v
//! from `r / 8` to `(r + 1) / 8`.
use vstd::prelude::*;
use vstd::std_specs::iter::IteratorSpec;

verus! {

/// Columns of glyphs in the atlas.
pub const ATLAS_COLUMNS: u32 = 16;

/// Rows of glyphs in the atlas.
pub const ATLAS_ROWS: u32 = 8;

/// The atlas cell of one glyph.
#[derive(Clone, Copy, PartialEq, Eq, Structural, Debug)]
pub struct GlyphCell {
    pub column: u32,
    pub row: u32,
}

/// The atlas index of `c`, its code minus the code of `'!'`.
pub open spec fn glyph_index(c: char) -> int {
    c as int - '!' as int
}

/// The cell of `c`, if the atlas holds it.
pub open spec fn glyph_cell_of(c: char) -> Option<GlyphCell> {
    let index = glyph_index(c);
    if 0 <= index < ATLAS_COLUMNS * ATLAS_ROWS {
        Some(GlyphCell { column: (index % 16) as u32, row: (index / 16) as u32 })
    } else {
        None
    }
}

/// The atlas cell of `c`, or `None` for a character the atlas does not hold
/// (a space or control character below `'!'`, or a code past the last cell).
pub fn glyph_cell(c: char) -> (r: Option<GlyphCell>)
    ensures
        r == glyph_cell_of(c),
{
    let code = c as u32;
    let first = '!' as u32;
    if code < first || code - first >= ATLAS_COLUMNS * ATLAS_ROWS {
        None
    } else {
        let index = code - first;
        Some(GlyphCell { column: index % ATLAS_COLUMNS, row: index / ATLAS_COLUMNS })
    }
}

/// The atlas cells of the characters of `text`, in order: one entry per character,
/// `None` where the atlas holds no glyph (that position is left blank).
pub fn glyph_cells(text: &str) -> (r: Vec<Option<GlyphCell>>)
    ensures
        r@.len() == text@.len(),
        forall|i: int| 0 <= i < text@.len() ==> #[trigger] r@[i] == glyph_cell_of(text@[i]),
{
    broadcast use vstd::string::axiom_spec_iter, vstd::string::next_postcondition;

    let mut cells: Vec<Option<GlyphCell>> = Vec::new();
    let mut chars = text.chars();
    loop
        invariant
            chars.remaining() == text@.skip(cells@.len() as int),
            cells@.len() <= text@.len(),
            forall|i: int| 0 <= i < cells@.len() ==> #[trigger] cells@[i] == glyph_cell_of(text@[i]),
        ensures
            cells@.len() == text@.len(),
            forall|i: int| 0 <= i < cells@.len() ==> #[trigger] cells@[i] == glyph_cell_of(text@[i]),
        decreases text@.len() - cells@.len(),
    {
        let ghost before = chars.remaining();
        match chars.next() {
            Some(c) => {
                proof {
                    assert(before.len() > 0);
                    assert(c == text@[cells@.len() as int]);
                }
                cells.push(glyph_cell(c));
                proof {
                    assert(chars.remaining() == text@.skip(cells@.len() as int));
                }
            },
            None => {
                assert(cells@.len() == text@.len());
                break ;
            },
        }
    }
    cells
}

} // verus!
