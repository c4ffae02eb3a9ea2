//! A text console drawn into a linear pixel framebuffer.
//!
//! The console keeps a cursor in pixel coordinates.  Text that would run
//! past the right edge continues on the next line; text that would run past
//! the bottom edge clears the whole screen and starts again at the top.
//! There is no scrolling.

use crate::font::{
    fits_glyph_box, font_raster_height, font_raster_width, get_char_raster, glyph_for, Glyph,
    CHAR_RASTER_HEIGHT, CHAR_RASTER_WIDTH,
};
use vstd::prelude::*;

verus! {

/// Additional vertical space between lines.
pub const LINE_SPACING: usize = 2;

/// Additional horizontal space between characters.
pub const LETTER_SPACING: usize = 0;

/// Padding from the border, so that no glyph touches the screen edge.
pub const BORDER_PADDING: usize = 1;

/// Number of bytes that one pixel write stores: the four colour bytes.
pub const COLOR_BYTES: usize = 4;

/// Layout of a framebuffer.
#[derive(Clone, Copy, Debug, PartialEq, Eq)]
pub struct FrameBufferInfo {
    /// Width in pixels.
    pub width: usize,
    /// Height in pixels.
    pub height: usize,
    /// Number of pixels between the start of a line and the start of the next.
    pub stride: usize,
    /// Number of bytes per pixel.
    pub bytes_per_pixel: usize,
}

/// `v`, or the largest `usize` where `v` exceeds it.
pub open spec fn saturate(v: int) -> usize {
    if v > usize::MAX {
        usize::MAX
    } else {
        v as usize
    }
}

/// The console as a mathematical value: the pixel bytes, the layout, the
/// cursor, the line counter and the text colour.
pub struct ConsoleState {
    /// The bytes of the framebuffer.
    pub pixels: Seq<u8>,
    /// The layout of the framebuffer.
    pub info: FrameBufferInfo,
    /// Horizontal cursor position in pixels.
    pub x: usize,
    /// Vertical cursor position in pixels.
    pub y: usize,
    /// Number of line breaks since the screen was last cleared.
    pub line: usize,
    /// The four bytes stored for each drawn pixel.
    pub color: Seq<u8>,
}

impl ConsoleState {
    /// The cursor back at the left border.
    pub open spec fn carriage_return(self) -> ConsoleState {
        ConsoleState { x: BORDER_PADDING, ..self }
    }

    /// The cursor at the start of the next line.
    pub open spec fn newline(self) -> ConsoleState {
        ConsoleState {
            x: BORDER_PADDING,
            y: saturate(self.y + CHAR_RASTER_HEIGHT + LINE_SPACING),
            line: saturate(self.line + 1),
            ..self
        }
    }

    /// Every byte zero, the cursor at the padded origin, the line counter reset.
    pub open spec fn clear(self) -> ConsoleState {
        ConsoleState {
            pixels: Seq::new(self.pixels.len(), |i: int| 0u8),
            x: BORDER_PADDING,
            y: BORDER_PADDING,
            line: 0,
            ..self
        }
    }

    /// Byte offset of the pixel at column `x` of row `y`.
    pub open spec fn pixel_offset(self, x: int, y: int) -> int {
        (x + y * self.info.width) * self.info.bytes_per_pixel
    }

    /// Whether the colour bytes of the pixel at (`x`, `y`) lie inside the buffer.
    pub open spec fn pixel_in_buffer(self, x: int, y: int) -> bool {
        0 <= self.pixel_offset(x, y) && self.pixel_offset(x, y) + COLOR_BYTES <= self.pixels.len()
    }

    /// Whether byte `i` belongs to the pixel `dx` columns right of the
    /// cursor and `dy` rows below it.
    pub open spec fn glyph_pixel_covers(self, dx: int, dy: int, i: int) -> bool {
        self.pixel_offset(self.x + dx, self.y + dy) <= i < self.pixel_offset(
            self.x + dx,
            self.y + dy,
        ) + COLOR_BYTES
    }

    /// Whether byte `i` belongs to a pixel of the glyph box at the cursor:
    /// the 9 columns from the cursor on, in the 16 rows from the cursor on.
    pub open spec fn in_glyph_box(self, i: int) -> bool {
        exists|dx: int, dy: int|
            0 <= dx < CHAR_RASTER_WIDTH && 0 <= dy < CHAR_RASTER_HEIGHT
                && #[trigger] self.glyph_pixel_covers(dx, dy, i)
    }

    /// The pixel at (`x`, `y`) set to `color`; unchanged where the pixel
    /// lies outside the buffer.
    pub open spec fn set_pixel(self, x: int, y: int, color: Seq<u8>) -> ConsoleState {
        let offset = self.pixel_offset(x, y);
        if self.pixel_in_buffer(x, y) {
            ConsoleState {
                pixels: Seq::new(
                    self.pixels.len(),
                    |i: int|
                        if offset <= i < offset + COLOR_BYTES {
                            color[i - offset]
                        } else {
                            self.pixels[i]
                        },
                ),
                ..self
            }
        } else {
            self
        }
    }

    /// The first `n` pixels of a glyph row drawn at the cursor, `dy` rows
    /// below it, in the text colour.  Pixels of intensity zero are left as
    /// they are.
    pub open spec fn draw_row(self, row: Seq<u8>, dy: int, n: int) -> ConsoleState
        decreases n,
    {
        if n <= 0 {
            self
        } else {
            let before = self.draw_row(row, dy, n - 1);
            if row[n - 1] != 0 {
                before.set_pixel(self.x + (n - 1), self.y + dy, self.color)
            } else {
                before
            }
        }
    }

    /// The first `n` rows of a glyph drawn at the cursor.
    pub open spec fn draw_rows(self, glyph: Seq<Seq<u8>>, n: int) -> ConsoleState
        decreases n,
    {
        if n <= 0 {
            self
        } else {
            let before = self.draw_rows(glyph, n - 1);
            before.draw_row(glyph[n - 1], n - 1, glyph[n - 1].len() as int)
        }
    }

    /// A glyph drawn at the cursor and the cursor moved one glyph to the right.
    pub open spec fn write_rendered_char(self, glyph: Seq<Seq<u8>>) -> ConsoleState {
        let drawn = self.draw_rows(glyph, glyph.len() as int);
        ConsoleState { x: saturate(drawn.x + CHAR_RASTER_WIDTH + LETTER_SPACING), ..drawn }
    }

    /// Whether the cursor, advanced by the width of one glyph, would pass
    /// the right edge: the glyph does not fit on the rest of the line.
    pub open spec fn wraps(self) -> bool {
        self.x + CHAR_RASTER_WIDTH > self.info.width
    }

    /// Whether a line of glyphs at the cursor, with the padding below it,
    /// would pass the bottom edge.
    pub open spec fn overflows(self) -> bool {
        self.y + CHAR_RASTER_HEIGHT + BORDER_PADDING > self.info.height
    }

    /// The console made ready for one more glyph: on the next line if the
    /// glyph would pass the right edge, and then cleared if the line would
    /// pass the bottom edge.
    pub open spec fn make_room(self) -> ConsoleState {
        let wrapped = if self.wraps() {
            self.newline()
        } else {
            self
        };
        if wrapped.overflows() {
            wrapped.clear()
        } else {
            wrapped
        }
    }

    /// One character written with the given glyph: a line feed or a
    /// carriage return moves the cursor only; any other character is drawn
    /// after room has been made for it.
    pub open spec fn write_glyph(self, c: char, glyph: Seq<Seq<u8>>) -> ConsoleState {
        if c == '\n' {
            self.newline()
        } else if c == '\r' {
            self.carriage_return()
        } else {
            self.make_room().write_rendered_char(glyph)
        }
    }

    /// One character written with the glyph the font gives for it.
    pub open spec fn write_char(self, c: char) -> ConsoleState {
        self.write_glyph(c, glyph_for(c))
    }

    /// The characters of `text` written one after the other.
    pub open spec fn write_chars(self, text: Seq<char>) -> ConsoleState
        decreases text.len(),
    {
        if text.len() == 0 {
            self
        } else {
            self.write_chars(text.drop_last()).write_char(text.last())
        }
    }
}

/// Drawing part of a row changes the pixels only: layout, cursor, line
/// counter and colour stay, and so does the number of bytes.
pub proof fn lemma_draw_row_keeps(s: ConsoleState, row: Seq<u8>, dy: int, n: int)
    ensures
        s.draw_row(row, dy, n) == (ConsoleState { pixels: s.draw_row(row, dy, n).pixels, ..s }),
        s.draw_row(row, dy, n).pixels.len() == s.pixels.len(),
    decreases n,
{
    if n > 0 {
        lemma_draw_row_keeps(s, row, dy, n - 1);
    }
}

/// Drawing some rows of a glyph changes the pixels only.
pub proof fn lemma_draw_rows_keeps(s: ConsoleState, glyph: Seq<Seq<u8>>, n: int)
    ensures
        s.draw_rows(glyph, n) == (ConsoleState { pixels: s.draw_rows(glyph, n).pixels, ..s }),
        s.draw_rows(glyph, n).pixels.len() == s.pixels.len(),
    decreases n,
{
    if n > 0 {
        lemma_draw_rows_keeps(s, glyph, n - 1);
        lemma_draw_row_keeps(
            s.draw_rows(glyph, n - 1),
            glyph[n - 1],
            n - 1,
            glyph[n - 1].len() as int,
        );
    }
}

/// Whether `after` is `before` with some bytes replaced by bytes of `color`.
pub open spec fn only_colour_added(before: Seq<u8>, after: Seq<u8>, color: Seq<u8>) -> bool {
    &&& after.len() == before.len()
    &&& forall|i: int|
        0 <= i < after.len() ==> #[trigger] after[i] == before[i] || exists|k: int|
            0 <= k < COLOR_BYTES && after[i] == #[trigger] color[k]
}

/// Whether every pixel of a glyph has intensity zero.
pub open spec fn is_blank(glyph: Seq<Seq<u8>>) -> bool {
    forall|r: int, c: int|
        0 <= r < glyph.len() && 0 <= c < glyph[r].len() ==> (#[trigger] glyph[r][c]) == 0
}

/// Drawing part of a glyph row stores bytes of the text colour and leaves
/// every other byte as it was.
pub proof fn lemma_draw_row_colours(s: ConsoleState, row: Seq<u8>, dy: int, n: int)
    ensures
        only_colour_added(s.pixels, s.draw_row(row, dy, n).pixels, s.color),
    decreases n,
{
    if n > 0 {
        lemma_draw_row_colours(s, row, dy, n - 1);
        lemma_draw_row_keeps(s, row, dy, n - 1);
        let before = s.draw_row(row, dy, n - 1);
        let after = s.draw_row(row, dy, n);
        let offset = before.pixel_offset(s.x + (n - 1), s.y + dy);
        assert forall|i: int| 0 <= i < after.pixels.len() implies #[trigger] after.pixels[i]
            == s.pixels[i] || exists|k: int|
            0 <= k < COLOR_BYTES && after.pixels[i] == #[trigger] s.color[k] by {
            if after.pixels[i] != before.pixels[i] {
                assert(after.pixels[i] == s.color[i - offset]);
            }
        }
    }
}

/// Drawing a glyph stores bytes of the text colour and leaves every other
/// byte as it was: the background is untouched.
pub proof fn lemma_draw_rows_colours(s: ConsoleState, glyph: Seq<Seq<u8>>, n: int)
    ensures
        only_colour_added(s.pixels, s.draw_rows(glyph, n).pixels, s.color),
    decreases n,
{
    if n > 0 {
        lemma_draw_rows_colours(s, glyph, n - 1);
        lemma_draw_rows_keeps(s, glyph, n - 1);
        let before = s.draw_rows(glyph, n - 1);
        lemma_draw_row_colours(before, glyph[n - 1], n - 1, glyph[n - 1].len() as int);
        let after = s.draw_rows(glyph, n);
        assert forall|i: int| 0 <= i < after.pixels.len() implies #[trigger] after.pixels[i]
            == s.pixels[i] || exists|k: int|
            0 <= k < COLOR_BYTES && after.pixels[i] == #[trigger] s.color[k] by {
            if after.pixels[i] != before.pixels[i] {
                let k = choose|k: int|
                    0 <= k < COLOR_BYTES && after.pixels[i] == #[trigger] before.color[k];
                assert(after.pixels[i] == s.color[k]);
            }
        }
    }
}

/// Drawing part of a glyph row changes no byte outside the glyph box at
/// the cursor.
pub proof fn lemma_draw_row_in_box(s: ConsoleState, row: Seq<u8>, dy: int, n: int)
    requires
        n <= row.len() <= CHAR_RASTER_WIDTH,
        0 <= dy < CHAR_RASTER_HEIGHT,
    ensures
        forall|i: int|
            0 <= i < s.pixels.len() && #[trigger] s.draw_row(row, dy, n).pixels[i] != s.pixels[i]
                ==> s.in_glyph_box(i),
    decreases n,
{
    if n > 0 {
        lemma_draw_row_in_box(s, row, dy, n - 1);
        lemma_draw_row_keeps(s, row, dy, n - 1);
        let before = s.draw_row(row, dy, n - 1);
        let after = s.draw_row(row, dy, n);
        assert forall|i: int|
            0 <= i < s.pixels.len() && #[trigger] after.pixels[i] != s.pixels[i] implies s.in_glyph_box(
            i,
        ) by {
            if after.pixels[i] != before.pixels[i] {
                assert(s.glyph_pixel_covers(n - 1, dy, i));
            }
        }
    }
}

/// Drawing a glyph that is no larger than a glyph box changes no byte
/// outside the glyph box at the cursor.
pub proof fn lemma_draw_rows_in_box(s: ConsoleState, glyph: Seq<Seq<u8>>, n: int)
    requires
        fits_glyph_box(glyph),
        n <= glyph.len(),
    ensures
        forall|i: int|
            0 <= i < s.pixels.len() && #[trigger] s.draw_rows(glyph, n).pixels[i] != s.pixels[i]
                ==> s.in_glyph_box(i),
    decreases n,
{
    if n > 0 {
        lemma_draw_rows_in_box(s, glyph, n - 1);
        lemma_draw_rows_keeps(s, glyph, n - 1);
        let before = s.draw_rows(glyph, n - 1);
        let row = glyph[n - 1];
        lemma_draw_row_in_box(before, row, n - 1, row.len() as int);
        let after = s.draw_rows(glyph, n);
        assert forall|i: int|
            0 <= i < s.pixels.len() && #[trigger] after.pixels[i] != s.pixels[i] implies s.in_glyph_box(
            i,
        ) by {
            if after.pixels[i] != before.pixels[i] {
                assert(before.in_glyph_box(i));
                let (dx, dy) = choose|dx: int, dy: int|
                    0 <= dx < CHAR_RASTER_WIDTH && 0 <= dy < CHAR_RASTER_HEIGHT
                        && #[trigger] before.glyph_pixel_covers(dx, dy, i);
                assert(s.glyph_pixel_covers(dx, dy, i));
            }
        }
    }
}

/// Drawing part of a row without a lit pixel changes nothing.
pub proof fn lemma_draw_blank_row(s: ConsoleState, row: Seq<u8>, dy: int, n: int)
    requires
        n <= row.len(),
        forall|c: int| 0 <= c < row.len() ==> (#[trigger] row[c]) == 0,
    ensures
        s.draw_row(row, dy, n) == s,
    decreases n,
{
    if n > 0 {
        lemma_draw_blank_row(s, row, dy, n - 1);
    }
}

/// Drawing a glyph without a lit pixel changes nothing.
pub proof fn lemma_draw_blank_glyph(s: ConsoleState, glyph: Seq<Seq<u8>>, n: int)
    requires
        n <= glyph.len(),
        is_blank(glyph),
    ensures
        s.draw_rows(glyph, n) == s,
    decreases n,
{
    if n > 0 {
        lemma_draw_blank_glyph(s, glyph, n - 1);
        let row = glyph[n - 1];
        assert forall|c: int| 0 <= c < row.len() implies (#[trigger] row[c]) == 0 by {
            assert(glyph[n - 1][c] == 0);
        }
        lemma_draw_blank_row(s, row, n - 1, row.len() as int);
    }
}

/// Writing one character never changes the size of the buffer, the layout
/// or the text colour: no byte is stored outside the buffer.
pub proof fn lemma_write_char_keeps_buffer(s: ConsoleState, c: char)
    ensures
        s.write_char(c).pixels.len() == s.pixels.len(),
        s.write_char(c).info == s.info,
        s.write_char(c).color == s.color,
{
    let room = s.make_room();
    let glyph = glyph_for(c);
    lemma_draw_rows_keeps(room, glyph, glyph.len() as int);
}

/// Writing text never changes the size of the buffer, the layout or the
/// text colour.
pub proof fn lemma_write_chars_keeps_buffer(s: ConsoleState, text: Seq<char>)
    ensures
        s.write_chars(text).pixels.len() == s.pixels.len(),
        s.write_chars(text).info == s.info,
        s.write_chars(text).color == s.color,
    decreases text.len(),
{
    if text.len() > 0 {
        lemma_write_chars_keeps_buffer(s, text.drop_last());
        lemma_write_char_keeps_buffer(s.write_chars(text.drop_last()), text.last());
    }
}

/// Whether `text` holds neither a line feed nor a carriage return.
pub open spec fn no_control_chars(text: Seq<char>) -> bool {
    forall|i: int| 0 <= i < text.len() ==> text[i] != '\n' && text[i] != '\r'
}

/// A drawn character that needs neither a line wrap nor a screen reset
/// moves the cursor right by one glyph width and leaves its row alone.
pub proof fn lemma_write_char_advances(s: ConsoleState, c: char)
    requires
        c != '\n',
        c != '\r',
        !s.wraps(),
        !s.overflows(),
    ensures
        s.write_char(c).x == s.x + CHAR_RASTER_WIDTH,
        s.write_char(c).x > s.x,
        s.write_char(c).y == s.y,
        s.write_char(c).line == s.line,
{
    let glyph = glyph_for(c);
    lemma_draw_rows_keeps(s, glyph, glyph.len() as int);
}

/// While text without control characters is written, the cursor moves
/// right by one glyph width per character and stays on its row, up to the
/// first character that needs a line wrap or a screen reset: between two
/// points `i <= j` of the text with no such character from `i` on before
/// `j`, the cursor has moved by `j - i` glyph widths.
pub proof fn lemma_cursor_monotonic(s: ConsoleState, text: Seq<char>, i: int, j: int)
    requires
        no_control_chars(text),
        0 <= i <= j <= text.len(),
        forall|k: int|
            i <= k < j ==> !(#[trigger] s.write_chars(text.take(k))).wraps() && !s.write_chars(
                text.take(k),
            ).overflows(),
    ensures
        s.write_chars(text.take(j)).x == s.write_chars(text.take(i)).x + (j - i)
            * CHAR_RASTER_WIDTH,
        s.write_chars(text.take(j)).x >= s.write_chars(text.take(i)).x,
        s.write_chars(text.take(j)).y == s.write_chars(text.take(i)).y,
        s.write_chars(text.take(j)).line == s.write_chars(text.take(i)).line,
    decreases j - i,
{
    if i < j {
        lemma_cursor_monotonic(s, text, i, j - 1);
        let before = s.write_chars(text.take(j - 1));
        assert(text.take(j).drop_last() =~= text.take(j - 1));
        assert(text.take(j).last() == text[j - 1]);
        lemma_write_char_advances(before, text[j - 1]);
        assert((j - i) * CHAR_RASTER_WIDTH == (j - 1 - i) * CHAR_RASTER_WIDTH + CHAR_RASTER_WIDTH)
            by (nonlinear_arith);
    }
}

/// Text written in two parts is the text written at once.
pub proof fn lemma_write_chars_concat(s: ConsoleState, first: Seq<char>, second: Seq<char>)
    ensures
        s.write_chars(first + second) == s.write_chars(first).write_chars(second),
    decreases second.len(),
{
    if second.len() == 0 {
        assert(first + second =~= first);
    } else {
        lemma_write_chars_concat(s, first, second.drop_last());
        assert((first + second).drop_last() =~= first + second.drop_last());
        assert((first + second).last() == second.last());
    }
}

/// The character of a decimal digit.
pub open spec fn digit_char(d: int) -> char {
    if d == 0 {
        '0'
    } else if d == 1 {
        '1'
    } else if d == 2 {
        '2'
    } else if d == 3 {
        '3'
    } else if d == 4 {
        '4'
    } else if d == 5 {
        '5'
    } else if d == 6 {
        '6'
    } else if d == 7 {
        '7'
    } else if d == 8 {
        '8'
    } else {
        '9'
    }
}

/// A number in decimal notation, without leading zeros.
pub open spec fn decimal_text(n: nat) -> Seq<char>
    decreases n,
{
    if n < 10 {
        seq![digit_char(n as int)]
    } else {
        decimal_text(n / 10).push(digit_char((n % 10) as int))
    }
}

/// The console: sole writer of the framebuffer it was given.  Every
/// operation leaves it over the same buffer, so that what the console
/// holds at the end is what the lender of the buffer gets back.
pub struct FrameBufferWriter<'a> {
    /// The bytes of the framebuffer.
    pub framebuffer: &'a mut [u8],
    /// The layout of the framebuffer.
    pub info: FrameBufferInfo,
    /// Horizontal cursor position in pixels.
    pub x_pos: usize,
    /// Vertical cursor position in pixels.
    pub y_pos: usize,
    /// The four bytes stored for each drawn pixel.
    pub text_color: [u8; 4],
    /// Number of line breaks since the screen was last cleared.
    pub line_pos: usize,
}

impl<'a> View for FrameBufferWriter<'a> {
    type V = ConsoleState;

    open spec fn view(&self) -> ConsoleState {
        ConsoleState {
            pixels: self.framebuffer@,
            info: self.info,
            x: self.x_pos,
            y: self.y_pos,
            line: self.line_pos,
            color: self.text_color@,
        }
    }
}

impl<'a> FrameBufferWriter<'a> {
    /// A console over `framebuffer`, cleared, with white text.
    pub fn new(framebuffer: &'a mut [u8], info: FrameBufferInfo) -> (logger: Self)
        ensures
            logger@ == (ConsoleState {
                pixels: Seq::new(old(framebuffer)@.len(), |i: int| 0u8),
                info: info,
                x: BORDER_PADDING,
                y: BORDER_PADDING,
                line: 0,
                color: seq![255u8, 255u8, 255u8, 255u8],
            }),
            final(framebuffer)@ == final(logger.framebuffer)@,
    {
        let mut logger = FrameBufferWriter {
            framebuffer,
            info,
            x_pos: 0,
            y_pos: 0,
            text_color: [255, 255, 255, 255],
            line_pos: 0,
        };
        logger.clear();
        assert(logger.text_color@ =~= seq![255u8, 255u8, 255u8, 255u8]);
        logger
    }

    /// Moves the cursor to the start of the next line.
    pub fn newline(&mut self)
        ensures
            final(self)@ == old(self)@.newline(),
            final(final(self).framebuffer)@ == final(old(self).framebuffer)@,
    {
        let line_height: usize = font_raster_height().saturating_add(LINE_SPACING);
        self.y_pos = self.y_pos.saturating_add(line_height);
        self.carriage_return();
        self.line_pos = self.line_pos.saturating_add(1);
    }

    /// Moves the cursor back to the left border.
    pub fn carriage_return(&mut self)
        ensures
            final(self)@ == old(self)@.carriage_return(),
            final(final(self).framebuffer)@ == final(old(self).framebuffer)@,
    {
        self.x_pos = BORDER_PADDING;
    }

    /// Erases the screen: every byte of the framebuffer becomes zero, and
    /// the cursor returns to the padded origin.
    pub fn clear(&mut self)
        ensures
            final(self)@ == old(self)@.clear(),
            final(final(self).framebuffer)@ == final(old(self).framebuffer)@,
            final(self)@.x == BORDER_PADDING && final(self)@.y == BORDER_PADDING,
            final(self)@.pixels.len() == old(self)@.pixels.len(),
            forall|i: int| 0 <= i < final(self)@.pixels.len() ==> final(self)@.pixels[i] == 0,
    {
        self.x_pos = BORDER_PADDING;
        self.y_pos = BORDER_PADDING;
        let n: usize = self.framebuffer.len();
        let mut i: usize = 0;
        while i < n
            invariant
                n == self.framebuffer@.len(),
                n == old(self).framebuffer@.len(),
                final(self.framebuffer)@ == final(old(self).framebuffer)@,
                i <= n,
                forall|j: int| 0 <= j < i ==> self.framebuffer@[j] == 0,
                self.info == old(self).info,
                self.text_color == old(self).text_color,
                self.x_pos == BORDER_PADDING,
                self.y_pos == BORDER_PADDING,
            decreases n - i,
        {
            self.framebuffer[i] = 0;
            i = i + 1;
        }
        self.line_pos = 0;
        assert(self.framebuffer@ =~= Seq::new(old(self).framebuffer@.len(), |i: int| 0u8));
    }

    /// Width of the screen in pixels.
    pub fn width(&self) -> (w: usize)
        ensures
            w == self.info.width,
    {
        self.info.width
    }

    /// Height of the screen in pixels.
    pub fn height(&self) -> (h: usize)
        ensures
            h == self.info.height,
    {
        self.info.height
    }

    /// Byte offset of the pixel at (`x + dx`, `y + dy`), if its colour
    /// bytes lie inside the buffer.  The sums are taken without overflow.
    fn offset_in_buffer(&self, x: usize, dx: usize, y: usize, dy: usize) -> (r: Option<usize>)
        ensures
            match r {
                Some(offset) => self@.pixel_in_buffer(x + dx, y + dy) && offset
                    == self@.pixel_offset(x + dx, y + dy),
                None => !self@.pixel_in_buffer(x + dx, y + dy),
            },
    {
        let len: usize = self.framebuffer.len();
        let bpp: usize = self.info.bytes_per_pixel;
        let width: usize = self.info.width;
        let ghost px: int = x + dx;
        let ghost py: int = y + dy;
        if bpp == 0 {
            assert((px + py * width) * 0 == 0);
            return if COLOR_BYTES <= len {
                Some(0)
            } else {
                None
            };
        }
        // From here on a pixel's offset is at least its column, and at
        // least its row where the screen has any width.
        assert((px + py * width) * bpp >= px + py * width >= px) by (nonlinear_arith)
            requires
                bpp >= 1,
                px >= 0,
                py >= 0,
                width >= 0,
        ;
        let column: usize = match x.checked_add(dx) {
            Some(v) => v,
            None => {
                return None;
            },
        };
        let row_start: usize = if width == 0 {
            assert(py * 0 == 0);
            0
        } else {
            assert(py * width >= py) by (nonlinear_arith)
                requires
                    width >= 1,
                    py >= 0,
            ;
            let row: usize = match y.checked_add(dy) {
                Some(v) => v,
                None => {
                    return None;
                },
            };
            match row.checked_mul(width) {
                Some(v) => v,
                None => {
                    return None;
                },
            }
        };
        let position: usize = match column.checked_add(row_start) {
            Some(v) => v,
            None => {
                return None;
            },
        };
        let offset: usize = match position.checked_mul(bpp) {
            Some(v) => v,
            None => {
                return None;
            },
        };
        match offset.checked_add(COLOR_BYTES) {
            Some(end) => if end <= len {
                Some(offset)
            } else {
                None
            },
            None => None,
        }
    }

    /// Stores the four bytes of `color` from `offset` on.
    fn store(&mut self, offset: usize, color: [u8; 4])
        requires
            offset + COLOR_BYTES <= old(self).framebuffer@.len(),
        ensures
            final(self)@ == (ConsoleState {
                pixels: Seq::new(
                    old(self)@.pixels.len(),
                    |i: int|
                        if offset <= i < offset + COLOR_BYTES {
                            color@[i - offset]
                        } else {
                            old(self)@.pixels[i]
                        },
                ),
                ..old(self)@
            }),
            final(final(self).framebuffer)@ == final(old(self).framebuffer)@,
    {
        self.framebuffer[offset] = color[0];
        self.framebuffer[offset + 1] = color[1];
        self.framebuffer[offset + 2] = color[2];
        self.framebuffer[offset + 3] = color[3];
        assert(self@.pixels =~= Seq::new(
            old(self)@.pixels.len(),
            |i: int|
                if offset <= i < offset + COLOR_BYTES {
                    color@[i - offset]
                } else {
                    old(self)@.pixels[i]
                },
        ));
    }

    /// Stores `color` at the pixel in column `x` of row `y`.  A pixel whose
    /// bytes do not lie inside the framebuffer is skipped.
    pub fn set_pixel(&mut self, x: usize, y: usize, color: [u8; 4])
        ensures
            final(self)@ == old(self)@.set_pixel(x as int, y as int, color@),
            final(final(self).framebuffer)@ == final(old(self).framebuffer)@,
    {
        match self.offset_in_buffer(x, 0, y, 0) {
            Some(offset) => self.store(offset, color),
            None => {},
        }
    }

    /// Draws one pixel of a glyph, `dx` columns right of the cursor and
    /// `dy` rows below it, in the text colour.
    fn set_glyph_pixel(&mut self, dx: usize, dy: usize)
        ensures
            final(self)@ == old(self)@.set_pixel(
                old(self).x_pos + dx,
                old(self).y_pos + dy,
                old(self).text_color@,
            ),
            final(final(self).framebuffer)@ == final(old(self).framebuffer)@,
    {
        match self.offset_in_buffer(self.x_pos, dx, self.y_pos, dy) {
            Some(offset) => self.store(offset, self.text_color),
            None => {},
        }
    }

    /// Draws one glyph row, `dy` rows below the cursor.
    fn draw_row(&mut self, row: &Vec<u8>, dy: usize)
        ensures
            final(self)@ == old(self)@.draw_row(row@, dy as int, row@.len() as int),
            final(final(self).framebuffer)@ == final(old(self).framebuffer)@,
    {
        let cols: usize = row.len();
        let mut dx: usize = 0;
        while dx < cols
            invariant
                cols == row@.len(),
                dx <= cols,
                final(self.framebuffer)@ == final(old(self).framebuffer)@,
                self@ == old(self)@.draw_row(row@, dy as int, dx as int),
            decreases cols - dx,
        {
            proof {
                lemma_draw_row_keeps(old(self)@, row@, dy as int, dx as int);
            }
            if row[dx] != 0 {
                self.set_glyph_pixel(dx, dy);
            }
            dx = dx + 1;
        }
    }

    /// Draws a glyph at the cursor in the text colour, pixels of intensity
    /// zero excepted, and moves the cursor one glyph to the right.
    pub fn write_rendered_char(&mut self, rendered_char: &Glyph)
        ensures
            final(self)@ == old(self)@.write_rendered_char(rendered_char@),
            final(final(self).framebuffer)@ == final(old(self).framebuffer)@,
            final(self)@.x == saturate(old(self)@.x + CHAR_RASTER_WIDTH + LETTER_SPACING),
            final(self)@.y == old(self)@.y,
            final(self)@.line == old(self)@.line,
            final(self)@.pixels.len() == old(self)@.pixels.len(),
            final(self)@.info == old(self)@.info,
            final(self)@.color == old(self)@.color,
            fits_glyph_box(rendered_char@) ==> forall|i: int|
                0 <= i < old(self)@.pixels.len() && #[trigger] final(self)@.pixels[i] != old(
                    self,
                )@.pixels[i] ==> old(self)@.in_glyph_box(i),
    {
        proof {
            lemma_draw_rows_keeps(old(self)@, rendered_char@, rendered_char@.len() as int);
            if fits_glyph_box(rendered_char@) {
                lemma_draw_rows_in_box(old(self)@, rendered_char@, rendered_char@.len() as int);
            }
        }
        let rows: usize = rendered_char.rows.len();
        let mut dy: usize = 0;
        while dy < rows
            invariant
                rows == rendered_char@.len(),
                rows == rendered_char.rows@.len(),
                dy <= rows,
                final(self.framebuffer)@ == final(old(self).framebuffer)@,
                self@ == old(self)@.draw_rows(rendered_char@, dy as int),
            decreases rows - dy,
        {
            proof {
                lemma_draw_rows_keeps(old(self)@, rendered_char@, dy as int);
            }
            self.draw_row(&rendered_char.rows[dy], dy);
            dy = dy + 1;
        }
        let advance: usize = font_raster_width().saturating_add(LETTER_SPACING);
        self.x_pos = self.x_pos.saturating_add(advance);
    }

    /// Writes one character.  A line feed or a carriage return moves the
    /// cursor without drawing.  Any other character is drawn with its glyph
    /// from the font, on the next line if it would pass the right edge,
    /// and on a cleared screen if the line would pass the bottom edge.
    pub fn write_char(&mut self, c: char)
        ensures
            final(self)@ == old(self)@.write_char(c),
            final(final(self).framebuffer)@ == final(old(self).framebuffer)@,
            final(self)@.pixels.len() == old(self)@.pixels.len(),
            final(self)@.info == old(self)@.info,
            final(self)@.color == old(self)@.color,
            c != '\n' && c != '\r' && !old(self)@.wraps() && !old(self)@.overflows() ==> {
                &&& final(self)@.x == old(self)@.x + CHAR_RASTER_WIDTH
                &&& final(self)@.y == old(self)@.y
                &&& final(self)@.line == old(self)@.line
            },
            c != '\n' && c != '\r' ==> {
                &&& final(self)@.x == saturate(
                    old(self)@.make_room().x + CHAR_RASTER_WIDTH + LETTER_SPACING,
                )
                &&& final(self)@.y == old(self)@.make_room().y
                &&& final(self)@.line == old(self)@.make_room().line
            },
            c != '\n' && c != '\r' ==> forall|i: int|
                0 <= i < old(self)@.pixels.len() && #[trigger] final(self)@.pixels[i] != old(
                    self,
                )@.make_room().pixels[i] ==> old(self)@.make_room().in_glyph_box(i),
    {
        proof {
            lemma_write_char_keeps_buffer(old(self)@, c);
            if c != '\n' && c != '\r' && !old(self)@.wraps() && !old(self)@.overflows() {
                lemma_write_char_advances(old(self)@, c);
            }
        }
        if c == '\n' {
            self.newline();
        } else if c == '\r' {
            self.carriage_return();
        } else {
            self.make_room();
            let glyph = get_char_raster(c);
            self.write_rendered_char(&glyph);
        }
    }

    /// Moves to the next line if a glyph at the cursor would pass the
    /// right edge, then clears the screen if the line would pass the bottom
    /// edge.  A glyph that ends exactly at an edge still fits.
    pub fn make_room(&mut self)
        ensures
            final(self)@ == old(self)@.make_room(),
            final(final(self).framebuffer)@ == final(old(self).framebuffer)@,
    {
        let passes_right: bool = match self.x_pos.checked_add(font_raster_width()) {
            Some(new_xpos) => new_xpos > self.width(),
            None => true,
        };
        if passes_right {
            self.newline();
        }
        let glyph_bottom: usize = font_raster_height().saturating_add(BORDER_PADDING);
        let passes_bottom: bool = match self.y_pos.checked_add(glyph_bottom) {
            Some(new_ypos) => new_ypos > self.height(),
            None => true,
        };
        if passes_bottom {
            self.clear();
        }
    }

    /// Writes the characters of `s` one after the other.
    pub fn write_str(&mut self, s: &str)
        ensures
            final(self)@ == old(self)@.write_chars(s@),
            final(final(self).framebuffer)@ == final(old(self).framebuffer)@,
            final(self)@.pixels.len() == old(self)@.pixels.len(),
            final(self)@.info == old(self)@.info,
            final(self)@.color == old(self)@.color,
    {
        proof {
            lemma_write_chars_keeps_buffer(old(self)@, s@);
        }
        for c in chars: s.chars()
            invariant
                chars.seq() == s@,
                final(self.framebuffer)@ == final(old(self).framebuffer)@,
                self@ == old(self)@.write_chars(s@.take(chars.index() as int)),
        {
            self.write_char(c);
            proof {
                let i = chars.index() as int;
                assert(s@.take(i + 1).drop_last() =~= s@.take(i));
                assert(s@.take(i + 1).last() == c);
            }
        }
        assert(s@.take(s@.len() as int) =~= s@);
    }

    /// Writes the last decimal digit of `n`.
    fn write_digit(&mut self, n: u64)
        ensures
            final(self)@ == old(self)@.write_char(digit_char((n % 10) as int)),
            final(final(self).framebuffer)@ == final(old(self).framebuffer)@,
    {
        let d: u64 = n % 10;
        let c: char = if d == 0 {
            '0'
        } else if d == 1 {
            '1'
        } else if d == 2 {
            '2'
        } else if d == 3 {
            '3'
        } else if d == 4 {
            '4'
        } else if d == 5 {
            '5'
        } else if d == 6 {
            '6'
        } else if d == 7 {
            '7'
        } else if d == 8 {
            '8'
        } else {
            '9'
        };
        self.write_char(c);
    }

    /// Writes a number in decimal notation.
    pub fn write_decimal(&mut self, n: u64)
        ensures
            final(self)@ == old(self)@.write_chars(decimal_text(n as nat)),
            final(final(self).framebuffer)@ == final(old(self).framebuffer)@,
            final(self)@.pixels.len() == old(self)@.pixels.len(),
            final(self)@.info == old(self)@.info,
            final(self)@.color == old(self)@.color,
        decreases n,
    {
        proof {
            lemma_write_chars_keeps_buffer(old(self)@, decimal_text(n as nat));
        }
        if n >= 10 {
            self.write_decimal(n / 10);
        }
        self.write_digit(n);
        proof {
            let text = decimal_text(n as nat);
            let start = old(self)@;
            assert(text.len() > 0);
            assert(text.last() == digit_char((n % 10) as int));
            if n >= 10 {
                assert(text.drop_last() =~= decimal_text((n / 10) as nat));
            } else {
                assert(text.drop_last() =~= Seq::<char>::empty());
                assert(start.write_chars(Seq::<char>::empty()) == start);
            }
            assert(start.write_chars(text) == start.write_chars(text.drop_last()).write_char(
                text.last(),
            ));
        }
    }

    /// Moves the cursor.  The position is taken as it is; keeping it on the
    /// screen is up to the caller.
    pub fn set_write_position(&mut self, x: usize, y: usize)
        ensures
            final(self)@ == (ConsoleState { x: x, y: y, ..old(self)@ }),
            final(final(self).framebuffer)@ == final(old(self).framebuffer)@,
    {
        self.x_pos = x;
        self.y_pos = y;
    }

    /// Sets the colour of text drawn from now on.
    pub fn _set_text_color(&mut self, color: [u8; 4])
        ensures
            final(self)@ == (ConsoleState { color: color@, ..old(self)@ }),
            final(final(self).framebuffer)@ == final(old(self).framebuffer)@,
    {
        self.text_color = color;
    }
}

} // verus!
