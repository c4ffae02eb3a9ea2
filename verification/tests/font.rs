use kernel_with_bootloader::font::{
    get_char_raster, Glyph, BACKUP_CHAR, CHAR_RASTER_HEIGHT, CHAR_RASTER_WIDTH,
};
use noto_sans_mono_bitmap::{get_raster, get_raster_width, FontWeight, RasterHeight};

fn font_rows(c: char) -> Vec<Vec<u8>> {
    let raster = get_raster(c, FontWeight::Regular, RasterHeight::Size16).unwrap();
    raster.raster().iter().map(|row| row.to_vec()).collect()
}

#[test]
fn glyph_box_matches_the_font() {
    assert_eq!(CHAR_RASTER_HEIGHT, 16);
    assert_eq!(CHAR_RASTER_WIDTH, 9);
    assert_eq!(RasterHeight::Size16.val(), CHAR_RASTER_HEIGHT);
    assert_eq!(get_raster_width(FontWeight::Regular, RasterHeight::Size16), CHAR_RASTER_WIDTH);
}

#[test]
fn glyph_of_a_letter_is_its_raster() {
    let glyph = get_char_raster('A');
    assert_eq!(glyph.rows.len(), 16);
    for row in glyph.rows.iter() {
        assert_eq!(row.len(), 9);
    }
    assert_eq!(glyph.rows[0], vec![0, 0, 0, 0, 0, 0, 0, 0, 0]);
    assert_eq!(glyph.rows[3], vec![0, 0, 0, 165, 249, 15, 0, 0, 0]);
    assert_eq!(glyph.rows[9], vec![0, 150, 255, 239, 239, 255, 248, 8, 0]);
    assert_eq!(glyph.rows[12], vec![142, 181, 0, 0, 0, 0, 82, 239, 5]);
    assert_eq!(glyph.rows, font_rows('A'));
}

#[test]
fn glyphs_of_printable_ascii_are_their_rasters() {
    for code in 0x20u8..0x7F {
        let c = code as char;
        assert_eq!(get_char_raster(c).rows, font_rows(c));
    }
}

#[test]
fn every_glyph_fills_the_glyph_box() {
    for code in 0u32..0x3000 {
        if let Some(c) = char::from_u32(code) {
            let glyph = get_char_raster(c);
            assert_eq!(glyph.rows.len(), CHAR_RASTER_HEIGHT);
            for row in glyph.rows.iter() {
                assert_eq!(row.len(), CHAR_RASTER_WIDTH);
            }
        }
    }
}

#[test]
fn different_letters_have_different_glyphs() {
    assert_ne!(get_char_raster('A').rows, get_char_raster('B').rows);
    assert_ne!(get_char_raster('a').rows, get_char_raster('A').rows);
}

#[test]
fn backup_char_has_a_glyph() {
    assert_eq!(BACKUP_CHAR, '\u{FFFD}');
    let glyph = get_char_raster(BACKUP_CHAR);
    assert_eq!(glyph.rows, font_rows(BACKUP_CHAR));
    assert_eq!(glyph.rows[8], vec![255, 255, 255, 255, 248, 69, 17, 206, 124]);
}

#[test]
fn unknown_char_is_drawn_as_backup_char() {
    assert!(get_raster('\u{4E2D}', FontWeight::Regular, RasterHeight::Size16).is_none());
    assert_eq!(get_char_raster('\u{4E2D}').rows, font_rows(BACKUP_CHAR));
    assert_eq!(get_char_raster('\u{1F600}').rows, get_char_raster(BACKUP_CHAR).rows);
    assert_eq!(get_char_raster('\u{7}').rows, get_char_raster(BACKUP_CHAR).rows);
}

#[test]
fn blank_glyph_has_no_rows() {
    let glyph = Glyph::blank();
    assert!(glyph.rows.is_empty());
}
