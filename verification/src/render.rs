//! Textual rendering of one MNIST image for human inspection: each pixel
//! becomes one of two two-character glyphs by a zero/nonzero threshold, 28
//! columns to a line, 28 lines.

use vstd::prelude::*;
use vstd::string::StringExecFns;

use crate::IMAGE_COLUMNS;
use crate::IMAGE_ROWS;

verus! {

/// The glyph one pixel renders to: `__` for a zero (background) pixel, `##`
/// for any nonzero (ink) pixel.
pub open spec fn glyph(pixel: u8) -> Seq<char> {
    if pixel == 0 {
        seq!['_', '_']
    } else {
        seq!['#', '#']
    }
}

/// The first `cols` glyphs of row `row` of `image`, concatenated.
pub open spec fn rendered_row_prefix(image: Seq<u8>, row: int, cols: int) -> Seq<char>
    decreases cols,
{
    if cols <= 0 {
        Seq::empty()
    } else {
        rendered_row_prefix(image, row, cols - 1) + glyph(
            image[row * IMAGE_COLUMNS + (cols - 1)],
        )
    }
}

/// The first `rows` rows of `image` rendered, each row's 28 glyphs followed
/// by a newline.
pub open spec fn rendered_rows(image: Seq<u8>, rows: int) -> Seq<char>
    decreases rows,
{
    if rows <= 0 {
        Seq::empty()
    } else {
        rendered_rows(image, rows - 1) + rendered_row_prefix(image, rows - 1, IMAGE_COLUMNS as int)
            + seq!['\n']
    }
}

/// The whole 28-by-28 image rendered: 28 lines of 28 glyphs each.
pub open spec fn rendered_image(image: Seq<u8>) -> Seq<char> {
    rendered_rows(image, IMAGE_ROWS as int)
}

/// Renders one fixed-length image as a 28-line textual grid, each pixel one
/// glyph: `__` when zero, `##` when nonzero, a newline after each row.
pub fn render_image(image: &[u8]) -> (r: String)
    requires
        image@.len() == IMAGE_ROWS * IMAGE_COLUMNS,
    ensures
        r@ == rendered_image(image@),
{
    let mut out = String::new();
    for row in 0..IMAGE_ROWS
        invariant
            image@.len() == IMAGE_ROWS * IMAGE_COLUMNS,
            out@ == rendered_rows(image@, row as int),
    {
        for col in 0..IMAGE_COLUMNS
            invariant
                image@.len() == IMAGE_ROWS * IMAGE_COLUMNS,
                row < IMAGE_ROWS,
                out@ == rendered_rows(image@, row as int) + rendered_row_prefix(
                    image@,
                    row as int,
                    col as int,
                ),
        {
            let idx = row * IMAGE_COLUMNS + col;
            let pixel = *vstd::slice::slice_index_get(image, idx);
            if pixel == 0 {
                out.append("__");
                proof {
                    reveal_strlit("__");
                    assert("__"@ =~= glyph(pixel));
                }
            } else {
                out.append("##");
                proof {
                    reveal_strlit("##");
                    assert("##"@ =~= glyph(pixel));
                }
            }
        }
        out.append("\n");
        proof {
            reveal_strlit("\n");
            assert("\n"@ =~= seq!['\n']);
        }
    }
    out
}

} // verus!
