//! Bitmap fonts: where the bit of a pixel lies, and what a text looks like.
//!
//! A font holds its glyphs side by side in one bitmap, `count * width` pixels
//! wide and `height` pixels high, row after row, eight pixels to a byte, the
//! first pixel in the lowest bit.

use vstd::prelude::*;
use vstd::string::StrSliceExecFns;
use crate::units::lemma_product_against_quotient;

verus! {

/// Why a pixel cannot be looked up.
#[derive(Clone, Copy, Debug, PartialEq, Eq, Structural)]
pub enum FontError {
    /// The column is not one of the glyph's.
    XOutOfBounds,
    /// The row is not one of the glyph's.
    YOutOfBounds,
    /// The character comes before the font's first one.
    CharOutOfBounds,
    /// The pixel's bit lies beyond the bitmap.
    PositionOutOfBounds,
}

/// A font as a mathematical object.
pub struct FontModel {
    pub first: char,
    pub count: nat,
    pub width: nat,
    pub height: nat,
    pub glyphs: Seq<u8>,
}

impl FontModel {
    /// The place, counted in bits from the start of the bitmap, of the pixel
    /// in column `x` and row `y` of the glyph that is `ch_pos` glyphs after
    /// the first.
    pub open spec fn bit_position(self, ch_pos: int, x: int, y: int) -> int {
        y * self.count * self.width + ch_pos * self.width + x
    }

    /// Whether the pixel in column `x` and row `y` of the glyph of `ch` is
    /// set, or why it cannot be looked up. The checks are made in the order
    /// in which they are written.
    pub open spec fn pixel(self, ch: char, x: int, y: int) -> Result<bool, FontError> {
        if x >= self.width {
            Err(FontError::XOutOfBounds)
        } else if y >= self.height {
            Err(FontError::YOutOfBounds)
        } else if (ch as u32) < (self.first as u32) {
            Err(FontError::CharOutOfBounds)
        } else {
            let position = self.bit_position(ch as u32 - self.first as u32, x, y);
            if position / 8 >= self.glyphs.len() {
                Err(FontError::PositionOutOfBounds)
            } else {
                Ok(bit_is_set(self.glyphs[position / 8], (position % 8) as usize))
            }
        }
    }

    /// Whether the pixel is drawn: a pixel that cannot be looked up is not.
    pub open spec fn lit(self, ch: char, x: int, y: int) -> bool {
        self.pixel(ch, x, y) == Ok::<bool, FontError>(true)
    }

    /// Row `y` of `text` as a line of characters, one for each pixel: `#` for
    /// a pixel that is drawn, a blank for one that is not.
    pub open spec fn row_text(self, text: Seq<char>, y: int) -> Seq<char> {
        Seq::new(
            text.len() * self.width,
            |k: int|
                if self.lit(text[k / (self.width as int)], k % (self.width as int), y) {
                    '#'
                } else {
                    ' '
                },
        )
    }

    /// The pixels of the glyph of `ch` placed in the cell in column `column`
    /// and line `line` of a screen: all of the glyph's pixels, column by
    /// column from the left, each column from the top.
    pub open spec fn cell(self, ch: char, column: int, line: int) -> Seq<PixelWrite> {
        Seq::new(
            self.width * self.height,
            |k: int|
                PixelWrite {
                    x: (self.width * column + k / (self.height as int)) as usize,
                    y: (self.height * line + k % (self.height as int)) as usize,
                    on: self.lit(ch, k / (self.height as int), k % (self.height as int)),
                },
        )
    }

    /// The pixels of `text` placed in line `line` of a screen from column
    /// `column` on, one cell after the other.
    pub open spec fn cells(self, text: Seq<char>, column: int, line: int) -> Seq<PixelWrite>
        decreases text.len(),
    {
        if text.len() == 0 {
            seq![]
        } else {
            self.cells(text.drop_last(), column, line) + self.cell(
                text.last(),
                column + text.len() - 1,
                line,
            )
        }
    }
}

/// One pixel of a screen, and whether it is to be drawn or cleared.
#[derive(Clone, Copy, Debug, PartialEq, Eq, Structural)]
pub struct PixelWrite {
    pub x: usize,
    pub y: usize,
    pub on: bool,
}

/// Whether bit `bit` of `byte` is set, the lowest bit being bit 0.
pub open spec fn bit_is_set(byte: u8, bit: usize) -> bool {
    byte & (1u8 << bit) != 0
}

/// A bitmap font.
#[derive(Debug)]
pub struct Font {
    /// The character of the font's first glyph.
    first: char,
    /// How many glyphs the font holds.
    count: usize,
    /// The width of a glyph, in pixels.
    pub width: usize,
    /// The height of a glyph, in pixels.
    pub height: usize,
    /// The bitmap.
    glyphs: &'static [u8],
}

impl View for Font {
    type V = FontModel;

    closed spec fn view(&self) -> FontModel {
        FontModel {
            first: self.first,
            count: self.count as nat,
            width: self.width as nat,
            height: self.height as nat,
            glyphs: self.glyphs@,
        }
    }
}

proof fn lemma_bit_position(count: int, width: int, ch_pos: int, x: int, y: int)
    by (nonlinear_arith)
    ensures
        y * count * width + ch_pos * width + x == (y * count + ch_pos) * width + x,
{
}

proof fn lemma_cells_fit(y: int, count: int, ch_pos: int)
    by (nonlinear_arith)
    requires
        0 <= y <= 0xffff_ffff_ffff_ffff,
        0 <= count <= 0xffff_ffff_ffff_ffff,
        0 <= ch_pos <= 0xffff_ffff,
    ensures
        0 <= y * count <= 0xffff_ffff_ffff_fffe_0000_0000_0000_0001,
{
}

impl Font {
    /// A font of `count` glyphs, each `width` by `height` pixels, the first
    /// one that of `first`, drawn in the bitmap `glyphs`. The base line and
    /// the glyph's own width are not used.
    pub fn new(
        glyphs: &'static [u8],
        width: usize,
        height: usize,
        _base: usize,
        _glyph_width: usize,
        count: usize,
        first: char,
    ) -> (font: Font)
        ensures
            font@ == (FontModel {
                first,
                count: count as nat,
                width: width as nat,
                height: height as nat,
                glyphs: glyphs@,
            }),
    {
        Font { first, count, width, height, glyphs }
    }

    /// Whether the pixel in column `x` and row `y` of the glyph of `ch` is
    /// set.
    pub fn get_pixel(&self, ch: char, x: usize, y: usize) -> (pixel: Result<bool, FontError>)
        ensures
            pixel == self@.pixel(ch, x as int, y as int),
    {
        if x >= self.width {
            return Err(FontError::XOutOfBounds);
        }
        if y >= self.height {
            return Err(FontError::YOutOfBounds);
        }
        if (ch as u32) < (self.first as u32) {
            return Err(FontError::CharOutOfBounds);
        }
        let ch_pos: u32 = ch as u32 - self.first as u32;
        let ghost position = self@.bit_position(ch_pos as int, x as int, y as int);
        proof {
            lemma_bit_position(self.count as int, self.width as int, ch_pos as int, x as int, y as int);
            lemma_cells_fit(y as int, self.count as int, ch_pos as int);
        }
        // The bitmap holds `bits` pixels; the pixel is in it where
        // `cells * width + x < bits`.
        let bits: u128 = 8 * self.glyphs.len() as u128;
        let cells: u128 = y as u128 * self.count as u128 + ch_pos as u128;
        if bits <= x as u128 {
            proof {
                assert(cells * self.width >= 0) by (nonlinear_arith)
                    requires
                        cells >= 0,
                        self.width >= 0,
                ;
            }
            return Err(FontError::PositionOutOfBounds);
        }
        let room: u128 = bits - 1 - x as u128;
        proof {
            lemma_product_against_quotient(cells as int, self.width as int, room as int);
        }
        if cells > room / self.width as u128 {
            return Err(FontError::PositionOutOfBounds);
        }
        let place: u128 = cells * self.width as u128 + x as u128;
        assert(place == position);
        let byte: u8 = self.glyphs[(place / 8) as usize];
        let bit: usize = (place % 8) as usize;
        let flag: u8 = 1u8 << bit;
        Ok(byte & flag != 0)
    }

    /// Whether the pixel is drawn: a pixel that cannot be looked up is not.
    pub fn is_lit(&self, ch: char, x: usize, y: usize) -> (on: bool)
        ensures
            on == self@.lit(ch, x as int, y as int),
    {
        match self.get_pixel(ch, x, y) {
            Ok(on) => on,
            Err(_) => false,
        }
    }

    /// `value` drawn in this font, as lines of text from the top row down,
    /// with `#` for each pixel that is drawn and a blank for each that is not.
    pub fn render_text(&self, value: &str) -> (rows: Vec<String>)
        ensures
            rows@.len() == self@.height,
            forall|y: int| 0 <= y < rows@.len() ==> (#[trigger] rows@[y])@ == self@.row_text(value@, y),
    {
        let len: usize = value.unicode_len();
        let mut rows: Vec<String> = Vec::new();
        let mut y: usize = 0;
        while y < self.height
            invariant
                y <= self.height,
                len == value@.len(),
                rows@.len() == y,
                forall|r: int| 0 <= r < y ==> (#[trigger] rows@[r])@ == self@.row_text(value@, r),
            decreases self.height - y,
        {
            let row: String = self.render_row(value, len, y);
            rows.push(row);
            y = y + 1;
        }
        rows
    }

    /// Row `y` of `value` drawn in this font.
    fn render_row(&self, value: &str, len: usize, y: usize) -> (row: String)
        requires
            len == value@.len(),
        ensures
            row@ == self@.row_text(value@, y as int),
    {
        let ghost width = self.width as int;
        let ghost mark = |k: int|
            if self@.lit(value@[k / width], k % width, y as int) {
                '#'
            } else {
                ' '
            };
        let mut row: String = String::new();
        let mut i: usize = 0;
        while i < len
            invariant
                i <= len,
                len == value@.len(),
                width == self.width,
                mark == |k: int|
                    if self@.lit(value@[k / width], k % width, y as int) {
                        '#'
                    } else {
                        ' '
                    },
                row@ == Seq::new((i * width) as nat, mark),
            decreases len - i,
        {
            let ch: char = value.get_char(i);
            let mut x: usize = 0;
            while x < self.width
                invariant
                    i < len,
                    len == value@.len(),
                    ch == value@[i as int],
                    x <= self.width,
                    width == self.width,
                    mark == |k: int|
                        if self@.lit(value@[k / width], k % width, y as int) {
                            '#'
                        } else {
                            ' '
                        },
                    row@ == Seq::new((i * width + x) as nat, mark),
                decreases self.width - x,
            {
                proof {
                    lemma_cell_index(i as int, width, x as int);
                    reveal_strlit("#");
                    reveal_strlit(" ");
                }
                let ghost before = row@;
                if self.is_lit(ch, x, y) {
                    row.append("#");
                    assert("#"@ =~= seq!['#']);
                } else {
                    row.append(" ");
                    assert(" "@ =~= seq![' ']);
                }
                assert(row@ =~= before.push(mark(i * width + x)));
                assert(row@ =~= Seq::new((i * width + x + 1) as nat, mark));
                x = x + 1;
            }
            proof {
                assert(i * width + width == (i + 1) * width) by (nonlinear_arith);
            }
            i = i + 1;
        }
        proof {
            assert(len * width == value@.len() * self@.width);
            assert(row@ =~= self@.row_text(value@, y as int));
        }
        row
    }

    /// The pixels of the glyph of `ch` placed in the cell in column `column`
    /// and line `line` of a screen. A pixel that cannot be looked up is
    /// cleared.
    pub fn cell_pixels(&self, ch: char, column: usize, line: usize) -> (pixels: Vec<PixelWrite>)
        requires
            self@.width * (column + 1) <= usize::MAX,
            self@.height * (line + 1) <= usize::MAX,
        ensures
            pixels@ == self@.cell(ch, column as int, line as int),
    {
        let mut pixels: Vec<PixelWrite> = Vec::new();
        self.add_cell_pixels(&mut pixels, ch, column, line);
        pixels
    }

    fn add_cell_pixels(&self, pixels: &mut Vec<PixelWrite>, ch: char, column: usize, line: usize)
        requires
            self@.width * (column + 1) <= usize::MAX,
            self@.height * (line + 1) <= usize::MAX,
        ensures
            final(pixels)@ == old(pixels)@ + self@.cell(ch, column as int, line as int),
    {
        let ghost width = self.width as int;
        let ghost height = self.height as int;
        let ghost model = self@;
        let ghost cell = model.cell(ch, column as int, line as int);
        proof {
            assert(width * (column + 1) == width * column + width) by (nonlinear_arith);
            assert(height * (line + 1) == height * line + height) by (nonlinear_arith);
            assert(0 <= width * column) by (nonlinear_arith)
                requires
                    0 <= width,
                    0 <= column,
            ;
            assert(0 <= height * line) by (nonlinear_arith)
                requires
                    0 <= height,
                    0 <= line,
            ;
        }
        let left: usize = self.width * column;
        let top: usize = self.height * line;
        let mut font_x: usize = 0;
        while font_x < self.width
            invariant
                font_x <= self.width,
                width == self.width,
                height == self.height,
                model == self@,
                cell == model.cell(ch, column as int, line as int),
                left == width * column,
                top == height * line,
                left + width <= usize::MAX,
                top + height <= usize::MAX,
                pixels@ == old(pixels)@ + cell.take(font_x * height),
            decreases self.width - font_x,
        {
            let mut font_y: usize = 0;
            proof {
                assert(font_x * height + height == (font_x + 1) * height) by (nonlinear_arith);
                assert((font_x + 1) * height <= width * height) by (nonlinear_arith)
                    requires
                        font_x + 1 <= width,
                        0 <= height,
                ;
                assert(0 <= font_x * height) by (nonlinear_arith)
                    requires
                        0 <= font_x,
                        0 <= height,
                ;
            }
            while font_y < self.height
                invariant
                    font_x < self.width,
                    font_y <= self.height,
                    width == self.width,
                    height == self.height,
                    model == self@,
                    cell == model.cell(ch, column as int, line as int),
                    left == width * column,
                    top == height * line,
                    left + width <= usize::MAX,
                    top + height <= usize::MAX,
                    0 <= font_x * height,
                    font_x * height + height <= width * height,
                    pixels@ == old(pixels)@ + cell.take(font_x * height + font_y),
                decreases self.height - font_y,
            {
                proof {
                    lemma_cell_index(font_x as int, height, font_y as int);
                }
                let on: bool = self.is_lit(ch, font_x, font_y);
                let ghost before = pixels@;
                pixels.push(PixelWrite { x: left + font_x, y: top + font_y, on });
                proof {
                    let k = font_x * height + font_y;
                    assert(cell[k] == PixelWrite { x: (left + font_x) as usize, y: (top + font_y) as usize, on });
                    assert(cell.take(k + 1) =~= cell.take(k).push(cell[k]));
                    assert(pixels@ =~= old(pixels)@ + cell.take(k + 1));
                }
                font_y = font_y + 1;
            }
            font_x = font_x + 1;
        }
        proof {
            assert(font_x * height == width * height) by (nonlinear_arith)
                requires
                    font_x == width,
            ;
            assert(cell.take(width * height) =~= cell);
        }
    }

    /// The pixels of `value` placed in line `line` of a screen from column
    /// `column` on, one character to a cell.
    pub fn text_pixels(&self, value: &str, column: usize, line: usize) -> (pixels: Vec<PixelWrite>)
        requires
            self@.width * (column + value@.len()) <= usize::MAX,
            column + value@.len() <= usize::MAX,
            self@.height * (line + 1) <= usize::MAX,
        ensures
            pixels@ == self@.cells(value@, column as int, line as int),
    {
        let len: usize = value.unicode_len();
        let mut pixels: Vec<PixelWrite> = Vec::new();
        let mut i: usize = 0;
        while i < len
            invariant
                i <= len,
                len == value@.len(),
                self@.width * (column + len) <= usize::MAX,
                column + len <= usize::MAX,
                self@.height * (line + 1) <= usize::MAX,
                pixels@ == self@.cells(value@.take(i as int), column as int, line as int),
            decreases len - i,
        {
            let ch: char = value.get_char(i);
            proof {
                let width = self@.width as int;
                assert(width * (column + i + 1) <= width * (column + len)) by (nonlinear_arith)
                    requires
                        0 <= width,
                        column + i + 1 <= column + len,
                ;
                let next = value@.take(i + 1);
                assert(next.drop_last() =~= value@.take(i as int));
                assert(next.last() == ch);
            }
            self.add_cell_pixels(&mut pixels, ch, column + i, line);
            i = i + 1;
        }
        proof {
            assert(value@.take(len as int) =~= value@);
        }
        pixels
    }
}

proof fn lemma_cell_index(i: int, width: int, x: int)
    requires
        0 <= i,
        0 <= x < width,
    ensures
        (i * width + x) / width == i,
        (i * width + x) % width == x,
{
    vstd::arithmetic::div_mod::lemma_fundamental_div_mod_converse(i * width + x, width, i, x);
    assert(i * width == width * i) by (nonlinear_arith);
}

} // verus!
