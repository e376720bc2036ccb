//! The screen as an image of pixels, and text drawn into it.

use vstd::prelude::*;
use crate::font::{Font, FontModel, PixelWrite};

verus! {

/// A colour: red, green and blue.
pub type Colour = (u8, u8, u8);

/// The colour of a pixel that is drawn, black, or cleared, white.
pub open spec fn shade(on: bool) -> Colour {
    if on {
        (0u8, 0u8, 0u8)
    } else {
        (255u8, 255u8, 255u8)
    }
}

/// An image of the `image` crate, of three bytes to a pixel.
#[verifier::external_body]
pub struct Canvas {
    image: image::RgbImage,
}

/// The width and the height of an image, in pixels.
pub uninterp spec fn canvas_size(canvas: Canvas) -> (int, int);

/// The colour of each pixel of an image, by its column and its row.
pub uninterp spec fn canvas_pixels(canvas: Canvas) -> Map<(int, int), Colour>;

/// Whether an image has a pixel in column `x` of row `y`.
pub open spec fn within(size: (int, int), x: int, y: int) -> bool {
    0 <= x < size.0 && 0 <= y < size.1
}

/// `image::ImageBuffer::from_pixel`: an image of the given size, every pixel
/// of which has the given colour. The size is one that its bytes can be
/// allocated for.
#[verifier::external_body]
fn canvas_filled(width: u32, height: u32, r: u8, g: u8, b: u8) -> (canvas: Canvas)
    requires
        3 * width * height <= isize::MAX,
    ensures
        canvas_size(canvas) == (width as int, height as int),
        canvas_pixels(canvas) == Map::new(
            |p: (int, int)| within((width as int, height as int), p.0, p.1),
            |p: (int, int)| (r, g, b),
        ),
{
    Canvas { image: image::RgbImage::from_pixel(width, height, image::Rgb([r, g, b])) }
}

/// `image::ImageBuffer::dimensions`: the width and the height. An image has
/// a pixel in each column of each row, and no other.
#[verifier::external_body]
fn canvas_dimensions(canvas: &Canvas) -> (size: (u32, u32))
    ensures
        canvas_size(*canvas) == (size.0 as int, size.1 as int),
        forall|p: (int, int)|
            canvas_pixels(*canvas).dom().contains(p) <==> within(
                (size.0 as int, size.1 as int),
                p.0,
                p.1,
            ),
{
    canvas.image.dimensions()
}

/// `image::ImageBuffer::put_pixel`: the pixel in column `x` of row `y` gets
/// the given colour, and no other pixel changes. The pixel is one of the
/// image's.
#[verifier::external_body]
fn canvas_put(canvas: &mut Canvas, x: u32, y: u32, r: u8, g: u8, b: u8)
    requires
        within(canvas_size(*old(canvas)), x as int, y as int),
    ensures
        canvas_size(*final(canvas)) == canvas_size(*old(canvas)),
        canvas_pixels(*final(canvas)) == canvas_pixels(*old(canvas)).insert(
            (x as int, y as int),
            (r, g, b),
        ),
{
    canvas.image.put_pixel(x, y, image::Rgb([r, g, b]));
}

/// `image::ImageBuffer::get_pixel`: the colour of the pixel in column `x` of
/// row `y`. The pixel is one of the image's.
#[verifier::external_body]
fn canvas_get(canvas: &Canvas, x: u32, y: u32) -> (colour: Colour)
    requires
        within(canvas_size(*canvas), x as int, y as int),
    ensures
        colour == canvas_pixels(*canvas)[(x as int, y as int)],
{
    let pixel = canvas.image.get_pixel(x, y);
    (pixel.0[0], pixel.0[1], pixel.0[2])
}

/// The screen as a mathematical object.
pub struct LcdModel {
    /// The width and the height, in pixels.
    pub size: (int, int),
    /// The colour of each pixel, by its column and its row.
    pub pixels: Map<(int, int), Colour>,
    pub font: FontModel,
}

/// The pixels once `write` is carried out: a pixel of the image gets its
/// shade, a pixel beyond it is left out. A place counts by its lowest 32
/// bits.
pub open spec fn written(pixels: Map<(int, int), Colour>, size: (int, int), write: PixelWrite)
    -> Map<(int, int), Colour> {
    let x = write.x as u32;
    let y = write.y as u32;
    if within(size, x as int, y as int) {
        pixels.insert((x as int, y as int), shade(write.on))
    } else {
        pixels
    }
}

/// The pixels once `writes` are carried out, first to last.
pub open spec fn all_written(
    pixels: Map<(int, int), Colour>,
    size: (int, int),
    writes: Seq<PixelWrite>,
) -> Map<(int, int), Colour>
    decreases writes.len(),
{
    if writes.len() == 0 {
        pixels
    } else {
        written(all_written(pixels, size, writes.drop_last()), size, writes.last())
    }
}

/// Whether an image of this size can be held: whether its three bytes to a
/// pixel can be allocated.
pub open spec fn holdable(width: int, height: int) -> bool {
    3 * width * height <= isize::MAX
}

/// The screen, with the font in which text is drawn on it.
pub struct Lcd {
    canvas: Canvas,
    font: Font,
}

impl View for Lcd {
    type V = LcdModel;

    closed spec fn view(&self) -> LcdModel {
        LcdModel {
            size: canvas_size(self.canvas),
            pixels: canvas_pixels(self.canvas),
            font: self.font@,
        }
    }
}

impl Lcd {
    /// A cleared screen of the given size, where one of this size can be held.
    pub fn new(width: u32, height: u32, font: Font) -> (lcd: Option<Lcd>)
        ensures
            lcd is Some <==> holdable(width as int, height as int),
            lcd matches Some(screen) ==> screen@ == (LcdModel {
                size: (width as int, height as int),
                pixels: Map::new(
                    |p: (int, int)| within((width as int, height as int), p.0, p.1),
                    |p: (int, int)| shade(false),
                ),
                font: font@,
            }),
    {
        assert(0 <= (3 * width) * height <= 0x3_0000_0000 * 0x1_0000_0000) by (nonlinear_arith)
            requires
                0 <= width < 0x1_0000_0000,
                0 <= height < 0x1_0000_0000,
        ;
        let bytes: u128 = 3 * (width as u128) * (height as u128);
        if bytes <= isize::MAX as u128 {
            Some(Lcd { canvas: canvas_filled(width, height, 255, 255, 255), font })
        } else {
            None
        }
    }

    /// The width of the screen, in pixels.
    pub fn width(&self) -> (width: u32)
        ensures
            width == self@.size.0,
    {
        canvas_dimensions(&self.canvas).0
    }

    /// The height of the screen, in pixels.
    pub fn height(&self) -> (height: u32)
        ensures
            height == self@.size.1,
    {
        canvas_dimensions(&self.canvas).1
    }

    /// The font in which text is drawn.
    pub fn font(&self) -> (font: &Font)
        ensures
            font@ == self@.font,
    {
        &self.font
    }

    /// The colour of the pixel in column `x` of row `y`, if the screen has
    /// one there.
    pub fn pixel(&self, x: u32, y: u32) -> (colour: Option<Colour>)
        ensures
            colour == (if within(self@.size, x as int, y as int) {
                Some(self@.pixels[(x as int, y as int)])
            } else {
                None
            }),
    {
        let (width, height): (u32, u32) = canvas_dimensions(&self.canvas);
        if x < width && y < height {
            Some(canvas_get(&self.canvas, x, y))
        } else {
            None
        }
    }

    /// Carries out `write`.
    fn write(&mut self, write: PixelWrite)
        ensures
            final(self)@ == (LcdModel {
                pixels: written(old(self)@.pixels, old(self)@.size, write),
                ..old(self)@
            }),
    {
        let (width, height): (u32, u32) = canvas_dimensions(&self.canvas);
        let x: u32 = #[verifier::truncate]
        (write.x as u32);
        let y: u32 = #[verifier::truncate]
        (write.y as u32);
        if x < width && y < height {
            if write.on {
                canvas_put(&mut self.canvas, x, y, 0, 0, 0);
            } else {
                canvas_put(&mut self.canvas, x, y, 255, 255, 255);
            }
        }
    }

    /// Carries out `writes`, first to last.
    fn write_all(&mut self, writes: &Vec<PixelWrite>)
        ensures
            final(self)@ == (LcdModel {
                pixels: all_written(old(self)@.pixels, old(self)@.size, writes@),
                ..old(self)@
            }),
    {
        let mut i: usize = 0;
        while i < writes.len()
            invariant
                i <= writes.len(),
                self@ == (LcdModel {
                    pixels: all_written(old(self)@.pixels, old(self)@.size, writes@.take(i as int)),
                    ..old(self)@
                }),
            decreases writes.len() - i,
        {
            proof {
                let next = writes@.take(i + 1);
                assert(next.drop_last() =~= writes@.take(i as int));
                assert(next.last() == writes@[i as int]);
            }
            self.write(writes[i]);
            i = i + 1;
        }
        proof {
            assert(writes@.take(writes@.len() as int) =~= writes@);
        }
    }

    /// Clears every pixel of the screen.
    pub fn clear(&mut self)
        ensures
            final(self)@ == (LcdModel {
                pixels: Map::new(
                    |p: (int, int)| within(old(self)@.size, p.0, p.1),
                    |p: (int, int)| shade(false),
                ),
                ..old(self)@
            }),
    {
        let (width, height): (u32, u32) = canvas_dimensions(&self.canvas);
        let ghost size = self@.size;
        let mut y: u32 = 0;
        while y < height
            invariant
                y <= height,
                size == (width as int, height as int),
                self@.size == size,
                self@.font == old(self)@.font,
                forall|p: (int, int)| self@.pixels.dom().contains(p) <==> within(size, p.0, p.1),
                forall|p: (int, int)|
                    within(size, p.0, p.1) && p.1 < y ==> #[trigger] self@.pixels[p] == shade(false),
            decreases height - y,
        {
            let mut x: u32 = 0;
            while x < width
                invariant
                    y < height,
                    x <= width,
                    size == (width as int, height as int),
                    self@.size == size,
                    self@.font == old(self)@.font,
                    forall|p: (int, int)|
                        self@.pixels.dom().contains(p) <==> within(size, p.0, p.1),
                    forall|p: (int, int)|
                        within(size, p.0, p.1) && (p.1 < y || (p.1 == y && p.0 < x))
                            ==> #[trigger] self@.pixels[p] == shade(false),
                decreases width - x,
            {
                let ghost earlier = self@.pixels;
                canvas_put(&mut self.canvas, x, y, 255, 255, 255);
                proof {
                    let place = (x as int, y as int);
                    assert(self@.pixels == earlier.insert(place, shade(false)));
                    assert forall|p: (int, int)|
                        self@.pixels.dom().contains(p) <==> within(size, p.0, p.1) by {
                        assert(earlier.dom().contains(p) <==> within(size, p.0, p.1));
                    }
                    assert forall|p: (int, int)|
                        within(size, p.0, p.1) && (p.1 < y || (p.1 == y && p.0 < x + 1))
                        implies #[trigger] self@.pixels[p] == shade(false) by {
                        if p != place {
                            assert(self@.pixels[p] == earlier[p]);
                        }
                    }
                }
                x = x + 1;
            }
            y = y + 1;
        }
        proof {
            let cleared = Map::new(
                |p: (int, int)| within(size, p.0, p.1),
                |p: (int, int)| shade(false),
            );
            assert(self@.pixels =~= cleared);
        }
    }

    /// Draws the glyph of `ch` into the cell in column `column` and line
    /// `line`. A pixel of the glyph that cannot be looked up is cleared, and
    /// what lies beyond the screen is left out.
    pub fn draw_char(&mut self, ch: char, column: usize, line: usize)
        requires
            old(self)@.font.width * (column + 1) <= usize::MAX,
            old(self)@.font.height * (line + 1) <= usize::MAX,
        ensures
            final(self)@ == (LcdModel {
                pixels: all_written(
                    old(self)@.pixels,
                    old(self)@.size,
                    old(self)@.font.cell(ch, column as int, line as int),
                ),
                ..old(self)@
            }),
    {
        let writes: Vec<PixelWrite> = self.font.cell_pixels(ch, column, line);
        self.write_all(&writes);
    }

    /// Draws `string` into line `line` from column `column` on, one character
    /// to a cell.
    pub fn draw_str(&mut self, string: &str, column: usize, line: usize)
        requires
            old(self)@.font.width * (column + string@.len()) <= usize::MAX,
            column + string@.len() <= usize::MAX,
            old(self)@.font.height * (line + 1) <= usize::MAX,
        ensures
            final(self)@ == (LcdModel {
                pixels: all_written(
                    old(self)@.pixels,
                    old(self)@.size,
                    old(self)@.font.cells(string@, column as int, line as int),
                ),
                ..old(self)@
            }),
    {
        let writes: Vec<PixelWrite> = self.font.text_pixels(string, column, line);
        self.write_all(&writes);
    }
}

} // verus!
