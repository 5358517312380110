//! The image renderer: it sizes the image for the terminal and turns a grid of pixels
//! into lines of coloured glyphs.

use crate::paint::{is_tinted, truecolor};
use crate::text::{byte_len, byte_length, joined};
use vstd::prelude::*;

verus! {

/// The widest image that is rendered, in columns.
pub const MAX_WIDTH: usize = 128;

/// The columns that are kept free beside the longest text, for the indentation.
pub const MARGIN: usize = 9;

/// The number of glyphs in the alphabet.
pub const GLYPHS: usize = 6;

/// The width of the image on a terminal of `terminal_width` columns, beside a text whose
/// longest field takes `longest` columns: what the margin and the text leave, capped at
/// `MAX_WIDTH`, and nothing where they leave no room.
pub open spec fn target_width(terminal_width: nat, longest: nat) -> nat {
    if terminal_width <= MARGIN + longest {
        0
    } else if terminal_width - (MARGIN + longest) >= MAX_WIDTH {
        MAX_WIDTH as nat
    } else {
        (terminal_width - (MARGIN + longest)) as nat
    }
}

/// The height of an image of `width` columns. Glyphs are taller than wide, so the image
/// gets eleven lines for every twenty-five columns.
pub open spec fn target_height(width: nat) -> nat {
    width * 11 / 25
}

/// The width at which the image is rendered beside `longest_text`.
pub fn image_width(terminal_width: usize, longest_text: &str) -> (width: usize)
    ensures
        width == target_width(terminal_width as nat, byte_len(longest_text@)),
        width <= MAX_WIDTH,
{
    let longest = byte_length(longest_text);
    if terminal_width <= MARGIN || terminal_width - MARGIN <= longest {
        0
    } else {
        let room = terminal_width - MARGIN - longest;
        if room >= MAX_WIDTH {
            MAX_WIDTH
        } else {
            room
        }
    }
}

/// The height at which an image of `width` columns is rendered.
pub fn image_height(width: usize) -> (height: usize)
    ensures
        height == target_height(width as nat),
{
    let whole = width / 25;
    let rest = width % 25;
    assert(width * 11 / 25 == whole * 11 + rest * 11 / 25) by {
        assert(width == 25 * whole + rest);
        assert(width * 11 == 25 * (whole * 11) + rest * 11) by (nonlinear_arith)
            requires
                width == 25 * whole + rest,
        ;
        vstd::arithmetic::div_mod::lemma_fundamental_div_mod_converse(
            width * 11,
            25,
            whole * 11 + rest * 11 / 25,
            (rest * 11) % 25,
        );
    }
    whole * 11 + rest * 11 / 25
}

/// Why no image could be rendered.
#[derive(Clone, Copy, Debug, PartialEq, Eq, Structural)]
pub enum RenderError {
    /// The width of the terminal is not known.
    NoTerminal,
    /// The terminal is too narrow for an image beside the text.
    NoRoom,
    /// The image could not be fetched.
    Transport,
    /// The bytes that were fetched are no image, or not one of the size asked for.
    Decode,
}

/// The size of the image, width before height, on a terminal whose width is known or
/// not, beside a text whose longest field takes `longest` bytes. There is no image
/// without a known width, and none that would have no column or no line.
pub open spec fn target_size(terminal_width: Option<nat>, longest: nat) -> Result<
    (nat, nat),
    RenderError,
> {
    match terminal_width {
        None => Err(RenderError::NoTerminal),
        Some(columns) => {
            let width = target_width(columns, longest);
            if width > 0 && target_height(width) > 0 {
                Ok((width, target_height(width)))
            } else {
                Err(RenderError::NoRoom)
            }
        },
    }
}

/// The width of a terminal as a mathematical integer.
pub open spec fn columns_of(terminal_width: Option<usize>) -> Option<nat> {
    match terminal_width {
        Some(columns) => Some(columns as nat),
        None => None,
    }
}

/// The size of an exec image as mathematical integers.
pub open spec fn size_of(size: Result<(usize, usize), RenderError>) -> Result<
    (nat, nat),
    RenderError,
> {
    match size {
        Ok((width, height)) => Ok((width as nat, height as nat)),
        Err(error) => Err(error),
    }
}

/// The size at which the image is to be rendered beside `longest_text`, or why there is
/// no image: the width of the terminal is not known, or it leaves no room.
pub fn image_size(terminal_width: Option<usize>, longest_text: &str) -> (size: Result<
    (usize, usize),
    RenderError,
>)
    ensures
        size_of(size) == target_size(columns_of(terminal_width), byte_len(longest_text@)),
        size matches Ok((width, height)) ==> 0 < width <= MAX_WIDTH && 0 < height,
{
    match terminal_width {
        None => Err(RenderError::NoTerminal),
        Some(columns) => {
            let width = image_width(columns, longest_text);
            let height = image_height(width);
            if width > 0 && height > 0 {
                Ok((width, height))
            } else {
                Err(RenderError::NoRoom)
            }
        },
    }
}

/// The glyph at `index` of the alphabet; the alphabet is fixed and has `GLYPHS` entries.
pub open spec fn glyph_text(index: int) -> Seq<char> {
    if index == 0 {
        "$"@
    } else if index == 1 {
        "@"@
    } else if index == 2 {
        "%"@
    } else if index == 3 {
        "&"@
    } else if index == 4 {
        "#"@
    } else if index == 5 {
        "*"@
    } else {
        Seq::empty()
    }
}

/// The place in the alphabet of the glyph for a brightness: the 256 values of brightness
/// are cut into `GLYPHS` buckets of equal width, one for each glyph, from dark to bright.
pub open spec fn glyph_index(luma: u8) -> int {
    luma as int * 6 / 256
}

/// A brighter pixel never gets an earlier glyph, and every brightness has a glyph of the
/// alphabet: the darkest the first, the brightest the last.
pub proof fn lemma_glyph_index_is_monotone(darker: u8, brighter: u8)
    requires
        darker <= brighter,
    ensures
        0 <= glyph_index(darker) <= glyph_index(brighter) < GLYPHS,
        glyph_index(0) == 0,
        glyph_index(255) == GLYPHS - 1,
{
}

/// The buckets have equal width: a brightness belongs to the glyph at `index` exactly
/// when it lies in the `index`-th sixth of the range, so each glyph stands for 42 or 43
/// values of brightness.
pub proof fn lemma_glyph_buckets_are_equal(luma: u8, index: int)
    ensures
        glyph_index(luma) == index <==> 256 * index <= GLYPHS * luma < 256 * (index + 1),
{
}

/// A glyph of the alphabet with the colour of the pixel that it stands for.
#[derive(Clone, Copy, Debug)]
pub struct ColoredGlyph {
    index: usize,
    rgb: (u8, u8, u8),
}

impl ColoredGlyph {
    #[verifier::type_invariant]
    spec fn in_alphabet(self) -> bool {
        self.index < GLYPHS
    }

    /// The place of the glyph in the alphabet.
    pub closed spec fn index(self) -> int {
        self.index as int
    }

    /// The colour of the glyph.
    pub closed spec fn rgb(self) -> (u8, u8, u8) {
        self.rgb
    }

    /// The glyph for a pixel of brightness `luma` and colour `rgb`.
    pub fn map(luma: u8, rgb: (u8, u8, u8)) -> (mapped: ColoredGlyph)
        ensures
            mapped.index() == glyph_index(luma),
            0 <= mapped.index() < GLYPHS,
            mapped.rgb() == rgb,
    {
        let index: usize = (luma as usize) * 6 / 256;
        ColoredGlyph { index, rgb }
    }

    /// The glyph, without its colour.
    pub fn glyph(&self) -> (text: &'static str)
        ensures
            text@ == glyph_text(self.index()),
            0 <= self.index() < GLYPHS,
    {
        proof {
            use_type_invariant(self);
        }
        if self.index == 0 {
            "$"
        } else if self.index == 1 {
            "@"
        } else if self.index == 2 {
            "%"
        } else if self.index == 3 {
            "&"
        } else if self.index == 4 {
            "#"
        } else {
            "*"
        }
    }

    /// The colour of the glyph.
    pub fn color(&self) -> (rgb: (u8, u8, u8))
        ensures
            rgb == self.rgb(),
    {
        self.rgb
    }

    /// The glyph as it is printed: tinted with its colour, as far as the terminal colour
    /// library finds that the terminal can show it.
    pub fn paint(&self) -> (cell: String)
        ensures
            is_tinted(
                cell@,
                glyph_text(self.index()),
                self.rgb().0,
                self.rgb().1,
                self.rgb().2,
            ),
    {
        let text = self.glyph();
        proof {
            reveal_strlit("$");
            reveal_strlit("@");
            reveal_strlit("%");
            reveal_strlit("&");
            reveal_strlit("#");
            reveal_strlit("*");
        }
        truecolor(text, self.rgb.0, self.rgb.1, self.rgb.2)
    }
}

/// A decoded image at the size at which it is rendered: the brightness of every pixel,
/// row by row, and its colour as three bytes (red, green, blue) in the same order.
#[derive(Debug)]
pub struct PixelGrid {
    width: usize,
    height: usize,
    luma: Vec<u8>,
    rgb: Vec<u8>,
}

/// What a `PixelGrid` holds.
pub ghost struct GridView {
    pub width: nat,
    pub height: nat,
    pub luma: Seq<u8>,
    pub rgb: Seq<u8>,
}

impl View for PixelGrid {
    type V = GridView;

    closed spec fn view(&self) -> GridView {
        GridView {
            width: self.width as nat,
            height: self.height as nat,
            luma: self.luma@,
            rgb: self.rgb@,
        }
    }
}

/// The two buffers of a grid have a value for every pixel.
pub open spec fn well_sized(grid: GridView) -> bool {
    &&& grid.luma.len() == grid.width * grid.height
    &&& grid.rgb.len() == 3 * grid.luma.len()
}

/// The brightness of the pixel in column `x` of row `y`.
pub open spec fn luma_at(grid: GridView, x: int, y: int) -> u8 {
    grid.luma[y * grid.width + x]
}

/// The colour of the pixel in column `x` of row `y`.
pub open spec fn rgb_at(grid: GridView, x: int, y: int) -> (u8, u8, u8) {
    let at = 3 * (y * grid.width + x);
    (grid.rgb[at], grid.rgb[at + 1], grid.rgb[at + 2])
}

/// `cell` is the glyph of the pixel in column `x` of row `y`, tinted with its colour.
pub open spec fn is_cell(cell: Seq<char>, grid: GridView, x: int, y: int) -> bool {
    is_tinted(
        cell,
        glyph_text(glyph_index(luma_at(grid, x, y))),
        rgb_at(grid, x, y).0,
        rgb_at(grid, x, y).1,
        rgb_at(grid, x, y).2,
    )
}

/// `cells` holds one cell for every pixel of row `y`, from left to right.
pub open spec fn cells_of_row(cells: Seq<Seq<char>>, grid: GridView, y: int) -> bool {
    &&& cells.len() == grid.width
    &&& forall|x: int| 0 <= x < grid.width ==> is_cell(#[trigger] cells[x], grid, x, y)
}

/// `line` is row `y` of the image: the cells of its pixels, one behind the other.
pub open spec fn is_row(line: Seq<char>, grid: GridView, y: int) -> bool {
    exists|cells: Seq<Seq<char>>| #[trigger]
        cells_of_row(cells, grid, y) && line == joined(cells, Seq::empty())
}

impl PixelGrid {
    #[verifier::type_invariant]
    spec fn sized(self) -> bool {
        well_sized(self@)
    }

    /// A grid of `width` by `height` pixels over the two buffers, if they have a value
    /// for every pixel and no more.
    pub fn new(width: usize, height: usize, luma: Vec<u8>, rgb: Vec<u8>) -> (grid: Option<
        PixelGrid,
    >)
        ensures
            grid is Some <==> well_sized(
                GridView { width: width as nat, height: height as nat, luma: luma@, rgb: rgb@ },
            ),
            grid matches Some(made) ==> made@ == (GridView {
                width: width as nat,
                height: height as nat,
                luma: luma@,
                rgb: rgb@,
            }),
    {
        let count = luma.len();
        let pixels = match width.checked_mul(height) {
            Some(pixels) => pixels,
            None => {
                return None;
            },
        };
        if count != pixels || rgb.len() / 3 != pixels || rgb.len() % 3 != 0 {
            return None;
        }
        Some(PixelGrid { width, height, luma, rgb })
    }

    /// The number of columns.
    pub fn width(&self) -> (width: usize)
        ensures
            width == self@.width,
    {
        self.width
    }

    /// The number of rows.
    pub fn height(&self) -> (height: usize)
        ensures
            height == self@.height,
    {
        self.height
    }

    fn pixel(&self, x: usize, y: usize) -> (mapped: ColoredGlyph)
        requires
            x < self@.width,
            y < self@.height,
        ensures
            mapped.index() == glyph_index(luma_at(self@, x as int, y as int)),
            mapped.rgb() == rgb_at(self@, x as int, y as int),
    {
        proof {
            use_type_invariant(self);
            assert(0 <= y * self.width && y * self.width + x < self.width * self.height)
                by (nonlinear_arith)
                requires
                    x < self.width,
                    y < self.height,
            ;
            assert(self.width * self.height == self.luma.len());
            assert(3 * self.luma.len() == self.rgb.len());
        }
        let at = y * self.width + x;
        let first = 3 * at;
        let rgb = (self.rgb[first], self.rgb[first + 1], self.rgb[first + 2]);
        ColoredGlyph::map(self.luma[at], rgb)
    }

    /// The glyph for the pixel in column `x` of row `y`, if the grid has such a pixel.
    pub fn glyph_at(&self, x: usize, y: usize) -> (mapped: Option<ColoredGlyph>)
        ensures
            mapped is Some <==> x < self@.width && y < self@.height,
            mapped matches Some(glyph) ==> glyph.index() == glyph_index(
                luma_at(self@, x as int, y as int),
            ) && glyph.rgb() == rgb_at(self@, x as int, y as int),
    {
        if x < self.width && y < self.height {
            Some(self.pixel(x, y))
        } else {
            None
        }
    }
}

/// Renders the grid: one line for every row of pixels, one tinted glyph for every pixel.
/// Whether and how a glyph is tinted is decided by the terminal colour library.
pub fn render(grid: &PixelGrid) -> (lines: Vec<String>)
    ensures
        lines@.len() == grid@.height,
        forall|y: int| 0 <= y < grid@.height ==> is_row((#[trigger] lines@[y])@, grid@, y),
{
    let mut lines: Vec<String> = Vec::new();
    let mut y: usize = 0;
    while y < grid.height()
        invariant
            y <= grid@.height,
            lines@.len() == y,
            forall|k: int| 0 <= k < y ==> is_row((#[trigger] lines@[k])@, grid@, k),
        decreases grid@.height - y,
    {
        let mut line = String::new();
        let ghost mut cells: Seq<Seq<char>> = Seq::empty();
        let mut x: usize = 0;
        while x < grid.width()
            invariant
                x <= grid@.width,
                y < grid@.height,
                cells.len() == x,
                forall|k: int| 0 <= k < x ==> is_cell(#[trigger] cells[k], grid@, k, y as int),
                line@ == joined(cells, Seq::empty()),
            decreases grid@.width - x,
        {
            let cell = grid.pixel(x, y).paint();
            line.append(cell.as_str());
            proof {
                let before = cells;
                cells = cells.push(cell@);
                assert(cells.drop_last() =~= before);
                assert(line@ =~= joined(cells, Seq::empty()));
            }
            x = x + 1;
        }
        proof {
            assert(cells_of_row(cells, grid@, y as int));
        }
        lines.push(line);
        y = y + 1;
    }
    lines
}

/// Renders the pixels in the two buffers as an image of exactly the size `size`, width
/// before height. Buffers that do not have a value for every pixel of that size, and no
/// more, are refused as undecodable.
pub fn render_at(size: (usize, usize), luma: Vec<u8>, rgb: Vec<u8>) -> (rendered: Result<
    Vec<String>,
    RenderError,
>)
    ensures
        rendered is Ok <==> well_sized(
            GridView { width: size.0 as nat, height: size.1 as nat, luma: luma@, rgb: rgb@ },
        ),
        rendered matches Err(error) ==> error == RenderError::Decode,
        rendered matches Ok(lines) ==> lines@.len() == size.1 && forall|y: int|
            0 <= y < size.1 ==> is_row(
                (#[trigger] lines@[y])@,
                GridView { width: size.0 as nat, height: size.1 as nat, luma: luma@, rgb: rgb@ },
                y,
            ),
{
    match PixelGrid::new(size.0, size.1, luma, rgb) {
        Some(grid) => Ok(render(&grid)),
        None => Err(RenderError::Decode),
    }
}

} // verus!
