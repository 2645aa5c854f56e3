use font_render::atlas::{build_atlas, GlyphAtlas, GlyphRecord};
use font_render::raster::{accept_slot, RasterGlyph, SlotImage};

fn raster(code: u8, width: u32, rows: u32, left: i32, top: i32, advance: u32) -> RasterGlyph {
    RasterGlyph {
        code,
        width,
        rows,
        left,
        top,
        advance,
        pixels: vec![0u8; (width * rows) as usize],
    }
}

#[test]
fn new_atlas_is_empty() {
    let atlas = GlyphAtlas::new();
    assert_eq!(atlas.len(), 0);
    for c in 0u8..128 {
        assert_eq!(atlas.get(c), None);
    }
}

#[test]
fn insert_then_get() {
    let mut atlas = GlyphAtlas::new();
    let rec = GlyphRecord { texture: 7, width_px: 10, height_px: 12, bearing_x: 2, bearing_y: 10, advance_units: 768 };
    atlas.insert(b'A', rec);
    assert_eq!(atlas.get(b'A'), Some(rec));
    assert_eq!(atlas.get(b'B'), None);
    assert_eq!(atlas.glyph_for('A'), Some(rec));
    assert_eq!(atlas.len(), 1);
    let other = GlyphRecord { texture: 8, ..rec };
    atlas.insert(b'A', other);
    assert_eq!(atlas.get(b'A'), Some(other));
    assert_eq!(atlas.len(), 1);
}

#[test]
fn non_ascii_chars_have_no_glyph() {
    let mut atlas = GlyphAtlas::new();
    let rec = GlyphRecord { texture: 1, width_px: 1, height_px: 1, bearing_x: 0, bearing_y: 1, advance_units: 64 };
    atlas.insert(0x41, rec);
    // U+0141 truncates to 0x41 as a byte, but is not an ASCII character.
    assert_eq!(atlas.glyph_for('\u{141}'), None);
    assert_eq!(atlas.glyph_for('é'), None);
}

#[test]
fn build_atlas_one_record_per_code() {
    let glyphs = vec![raster(32, 0, 0, 0, 0, 512), raster(65, 10, 12, 2, 10, 768), raster(127, 3, 4, 1, 4, 320)];
    let textures = vec![11u32, 12, 13];
    let atlas = build_atlas(&glyphs, &textures);
    assert_eq!(atlas.len(), 3);
    assert_eq!(
        atlas.get(65),
        Some(GlyphRecord { texture: 12, width_px: 10, height_px: 12, bearing_x: 2, bearing_y: 10, advance_units: 768 })
    );
    assert_eq!(atlas.get(32).map(|r| r.texture), Some(11));
    assert_eq!(atlas.get(127).map(|r| r.advance_units), Some(320));
    assert_eq!(atlas.get(66), None);
}

#[test]
fn build_atlas_from_nothing() {
    let atlas = build_atlas(&Vec::new(), &Vec::new());
    assert_eq!(atlas.len(), 0);
}

#[test]
fn accept_slot_keeps_a_usable_image() {
    let img = SlotImage { width: 3, rows: 2, left: -1, top: 5, advance_x: 448, pixels: vec![1, 2, 3, 4, 5, 6] };
    let g = accept_slot(b'x', img).unwrap();
    assert_eq!((g.code, g.width, g.rows, g.left, g.top, g.advance), (b'x', 3, 2, -1, 5, 448));
    assert_eq!(g.pixels, vec![1, 2, 3, 4, 5, 6]);
}

#[test]
fn accept_slot_keeps_an_empty_bitmap() {
    let img = SlotImage { width: 0, rows: 0, left: 0, top: 0, advance_x: 576, pixels: Vec::new() };
    assert!(accept_slot(b' ', img).is_some());
}

#[test]
fn accept_slot_refuses_unusable_images() {
    let padded = SlotImage { width: 3, rows: 2, left: 0, top: 0, advance_x: 64, pixels: vec![0; 8] };
    assert!(accept_slot(1, padded).is_none());
    let negative_advance = SlotImage { width: 1, rows: 1, left: 0, top: 0, advance_x: -64, pixels: vec![0] };
    assert!(accept_slot(1, negative_advance).is_none());
    let huge_advance = SlotImage { width: 1, rows: 1, left: 0, top: 0, advance_x: 1 << 33, pixels: vec![0] };
    assert!(accept_slot(1, huge_advance).is_none());
    let negative_width = SlotImage { width: -1, rows: 1, left: 0, top: 0, advance_x: 64, pixels: Vec::new() };
    assert!(accept_slot(1, negative_width).is_none());
}

#[test]
fn textures_lists_every_record() {
    let glyphs = vec![raster(10, 1, 1, 0, 1, 64), raster(66, 2, 2, 0, 2, 128)];
    let atlas = build_atlas(&glyphs, &vec![40u32, 41]);
    assert_eq!(atlas.textures(), vec![40, 41]);
    assert!(GlyphAtlas::new().textures().is_empty());
}
