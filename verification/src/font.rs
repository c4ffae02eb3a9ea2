//! Glyph rasters for the console, taken from the pre-rasterized
//! Noto Sans Mono font at regular weight and 16 pixel height.

use noto_sans_mono_bitmap::{FontWeight, RasterHeight};
use vstd::prelude::*;

verus! {

/// Glyph drawn in place of a character the font does not hold.
pub const BACKUP_CHAR: char = '\u{FFFD}';

/// Height in pixels of every glyph box.
pub const CHAR_RASTER_HEIGHT: usize = 16;

/// Width in pixels of every glyph box.
pub const CHAR_RASTER_WIDTH: usize = 9;

/// The pixel intensities of one character: rows from top to bottom, each
/// row from left to right, one byte per pixel.
#[derive(Debug)]
pub struct Glyph {
    /// The rows of the raster.
    pub rows: Vec<Vec<u8>>,
}

impl View for Glyph {
    type V = Seq<Seq<u8>>;

    open spec fn view(&self) -> Seq<Seq<u8>> {
        Seq::new(self.rows@.len(), |i: int| self.rows@[i]@)
    }
}

/// Whether a raster has the size of a glyph box: 16 rows of 9 pixels.
pub open spec fn is_glyph_box(raster: Seq<Seq<u8>>) -> bool {
    &&& raster.len() == CHAR_RASTER_HEIGHT
    &&& forall|r: int| 0 <= r < raster.len() ==> (#[trigger] raster[r]).len() == CHAR_RASTER_WIDTH
}

/// Whether a raster is no larger than a glyph box.
pub open spec fn fits_glyph_box(raster: Seq<Seq<u8>>) -> bool {
    &&& raster.len() <= CHAR_RASTER_HEIGHT
    &&& forall|r: int| 0 <= r < raster.len() ==> (#[trigger] raster[r]).len() <= CHAR_RASTER_WIDTH
}

/// What the font holds for a character at regular weight and 16 pixel
/// height: its raster, or nothing where the font lacks the character.
pub uninterp spec fn raster_of(c: char) -> Option<Seq<Seq<u8>>>;

/// The raster drawn for `c`: its own where the font has one, else the
/// backup character's, else (a font without the backup character) nothing.
pub open spec fn glyph_for(c: char) -> Seq<Seq<u8>> {
    match raster_of(c) {
        Some(raster) => raster,
        None => match raster_of(BACKUP_CHAR) {
            Some(raster) => raster,
            None => Seq::empty(),
        },
    }
}

/// Looks a character up with `noto_sans_mono_bitmap::get_raster` and copies
/// the raster it returns.  Trusted: the result is the font's entry for `c`,
/// the same on every call, and every raster of the font at this weight and
/// height is 16 rows of 9 pixels.
#[verifier::external_body]
fn get_raster(c: char) -> (r: Option<Glyph>)
    ensures
        match r {
            Some(glyph) => raster_of(c) == Some(glyph@) && is_glyph_box(glyph@),
            None => raster_of(c) is None,
        },
{
    match noto_sans_mono_bitmap::get_raster(c, FontWeight::Regular, RasterHeight::Size16) {
        Some(raster) => Some(
            Glyph { rows: raster.raster().iter().map(|row| row.to_vec()).collect() },
        ),
        None => None,
    }
}

/// Calls `noto_sans_mono_bitmap::get_raster_width`.  Trusted: at regular
/// weight and 16 pixel height the font's glyph boxes are 9 pixels wide.
#[verifier::external_body]
pub(crate) fn font_raster_width() -> (w: usize)
    ensures
        w == CHAR_RASTER_WIDTH,
{
    noto_sans_mono_bitmap::get_raster_width(FontWeight::Regular, RasterHeight::Size16)
}

/// Calls `noto_sans_mono_bitmap::RasterHeight::val`.  Trusted: the variant
/// `Size16` stands for 16 pixels.
#[verifier::external_body]
pub(crate) fn font_raster_height() -> (h: usize)
    ensures
        h == CHAR_RASTER_HEIGHT,
{
    RasterHeight::Size16.val()
}

impl Glyph {
    /// A glyph without pixels.
    pub fn blank() -> (g: Glyph)
        ensures
            g@ == Seq::<Seq<u8>>::empty(),
    {
        let g = Glyph { rows: Vec::new() };
        assert(g@ =~= Seq::<Seq<u8>>::empty());
        g
    }
}

/// The glyph to draw for `c`.  A character that the font lacks is drawn as
/// the backup character; the lookup never fails.  The glyph fills a glyph
/// box wherever the font holds `c` or the backup character; it has no
/// pixels only where the font holds neither.
pub fn get_char_raster(c: char) -> (g: Glyph)
    ensures
        g@ == glyph_for(c),
        is_glyph_box(g@) <==> raster_of(c) is Some || raster_of(BACKUP_CHAR) is Some,
        g@ == Seq::<Seq<u8>>::empty() <==> raster_of(c) is None && raster_of(BACKUP_CHAR) is None,
        fits_glyph_box(g@),
{
    match get_raster(c) {
        Some(glyph) => glyph,
        None => match get_raster(BACKUP_CHAR) {
            Some(glyph) => glyph,
            None => Glyph::blank(),
        },
    }
}

} // verus!
