use font_render::atlas::{GlyphAtlas, GlyphRecord};
use font_render::layout::{emit_quads, measure, GlyphQuad, Vertex, UNITS_PER_PIXEL};

fn glyph(texture: u32, width_px: u32, height_px: u32, bearing_x: i32, bearing_y: i32, advance_units: u32) -> GlyphRecord {
    GlyphRecord { texture, width_px, height_px, bearing_x, bearing_y, advance_units }
}

fn sample_atlas() -> GlyphAtlas {
    let mut atlas = GlyphAtlas::new();
    atlas.insert(b'A', glyph(1, 10, 12, 2, 10, 768));
    atlas.insert(b'B', glyph(2, 8, 12, 1, 12, 640));
    atlas.insert(b'l', glyph(3, 3, 14, 1, 14, 256));
    atlas
}

#[test]
fn single_glyph_scenario() {
    let atlas = sample_atlas();
    // 768/64 - 2 = 10 pixels, i.e. 640 in 1/64 pixel.
    assert_eq!(measure("A", &atlas), 640);
    let y: i32 = 37;
    let quads = emit_quads("A", &atlas, y);
    assert_eq!(quads.len(), 1);
    let q = quads[0];
    assert_eq!(q.left, -5 * UNITS_PER_PIXEL);
    assert_eq!(q.bottom, (y as i128 - 2) * UNITS_PER_PIXEL);
    assert_eq!(q.right, 5 * UNITS_PER_PIXEL);
    assert_eq!(q.top, (y as i128 + 10) * UNITS_PER_PIXEL);
    assert_eq!(q.texture, 1);
}

#[test]
fn measure_is_repeatable() {
    let atlas = sample_atlas();
    let first = measure("ABlA", &atlas);
    let second = measure("ABlA", &atlas);
    assert_eq!(first, second);
}

#[test]
fn measure_corrects_first_and_last() {
    let atlas = sample_atlas();
    // A: 768 - 64*2 = 640; l: 256; B (last): 64 * (1 + 8) = 576.
    assert_eq!(measure("AlB", &atlas), 640 + 256 + 576);
    assert_eq!(measure("", &atlas), 0);
}

#[test]
fn measure_skips_absent_characters() {
    let atlas = sample_atlas();
    assert_eq!(measure("A?lB", &atlas), measure("AlB", &atlas));
    // An absent first character takes the first-character correction with it.
    assert_eq!(measure("?AB", &atlas), 768 + 576);
}

#[test]
fn empty_text_gives_no_quads() {
    let atlas = sample_atlas();
    assert!(emit_quads("", &atlas, 0).is_empty());
    assert!(emit_quads("", &atlas, -100).is_empty());
    assert!(emit_quads("", &GlyphAtlas::new(), 100).is_empty());
}

#[test]
fn one_quad_per_present_character() {
    let atlas = sample_atlas();
    assert_eq!(emit_quads("AB", &atlas, 0).len(), 2);
    assert_eq!(emit_quads("A B?", &atlas, 0).len(), 2);
    assert_eq!(emit_quads("All", &atlas, 0).len(), 3);
    assert_eq!(emit_quads("???", &atlas, 0).len(), 0);
}

#[test]
fn absent_characters_do_not_move_the_pen() {
    let atlas = sample_atlas();
    let plain = emit_quads("AlB", &atlas, 5);
    let gapped = emit_quads("Al  ?B", &atlas, 5);
    assert_eq!(plain, gapped);
}

#[test]
fn pen_advances_and_bearings() {
    let atlas = sample_atlas();
    let quads = emit_quads("AB", &atlas, 0);
    // width: A 768 - 128 = 640, B last 64 * 9 = 576; total 1216, pen starts at -1216/128 px.
    let start: i128 = -1216;
    assert_eq!(quads[0].left, start);
    assert_eq!(quads[0].right, start + 10 * 128);
    // B: pen moved by 768/64 px = 1536 units, plus its bearing of 1 px.
    assert_eq!(quads[1].left, start + 1536 + 128);
    assert_eq!(quads[1].right, start + 1536 + 128 + 8 * 128);
    assert_eq!(quads[1].bottom, 0);
    assert_eq!(quads[1].top, 12 * 128);
    assert_eq!(quads[1].texture, 2);
}

#[test]
fn quad_vertices_in_drawing_order() {
    let q = GlyphQuad { texture: 4, left: -10, bottom: -20, right: 30, top: 40 };
    let v = q.vertices();
    assert_eq!(
        v,
        vec![
            Vertex { x: -10, y: 40, u: 0, v: 0 },
            Vertex { x: -10, y: -20, u: 0, v: 1 },
            Vertex { x: 30, y: -20, u: 1, v: 1 },
            Vertex { x: -10, y: 40, u: 0, v: 0 },
            Vertex { x: 30, y: -20, u: 1, v: 1 },
            Vertex { x: 30, y: 40, u: 1, v: 0 },
        ]
    );
}
