use vstd::prelude::*;
use vstd::string::StrSliceExecFns;

use crate::atlas::{glyph_of, GlyphAtlas, GlyphRecord};

verus! {

/// Layout coordinates are in 1/128 pixel: half the font's 1/64 pixel unit, so
/// that centring a string of any measured width stays exact.
pub const UNITS_PER_PIXEL: i128 = 128;

/// What character `i` of `s` adds to the measured width, in 1/64 pixel. The
/// first character's left bearing is taken off, and the last character counts
/// up to the right edge of its bitmap instead of its advance. "First" and
/// "last" are positions in the string: a character without a glyph adds
/// nothing and passes neither role on.
pub open spec fn contribution(s: Seq<char>, a: Map<u8, GlyphRecord>, i: int) -> int {
    match glyph_of(a, s[i]) {
        None => 0,
        Some(g) => if i == 0 {
            g.advance_units - 64 * g.bearing_x
        } else if i == s.len() - 1 {
            64 * (g.bearing_x + g.width_px)
        } else {
            g.advance_units as int
        },
    }
}

/// Measured width of the first `n` characters, in 1/64 pixel.
pub open spec fn width_upto(s: Seq<char>, a: Map<u8, GlyphRecord>, n: int) -> int
    decreases n,
{
    if n <= 0 {
        0
    } else {
        width_upto(s, a, n - 1) + contribution(s, a, n - 1)
    }
}

/// Measured width of a string, in 1/64 pixel.
pub open spec fn text_width(s: Seq<char>, a: Map<u8, GlyphRecord>) -> int {
    width_upto(s, a, s.len() as int)
}

/// Sum of the advances of the glyphs among the first `n` characters, in 1/64 pixel.
pub open spec fn advance_upto(s: Seq<char>, a: Map<u8, GlyphRecord>, n: int) -> int
    decreases n,
{
    if n <= 0 {
        0
    } else {
        advance_upto(s, a, n - 1) + match glyph_of(a, s[n - 1]) {
            None => 0int,
            Some(g) => g.advance_units as int,
        }
    }
}

/// Number of characters among the first `n` that have a glyph.
pub open spec fn present_upto(s: Seq<char>, a: Map<u8, GlyphRecord>, n: int) -> nat
    decreases n,
{
    if n <= 0 {
        0
    } else {
        present_upto(s, a, n - 1) + if glyph_of(a, s[n - 1]) is Some { 1nat } else { 0nat }
    }
}

/// Pen position before character `i`, in 1/128 pixel: the string is centred
/// on the origin and the pen moves by each glyph's advance.
pub open spec fn pen_x(s: Seq<char>, a: Map<u8, GlyphRecord>, i: int) -> int {
    -text_width(s, a) + 2 * advance_upto(s, a, i)
}

/// A glyph's screen rectangle, in 1/128 pixel, and the texture to draw it with.
#[derive(Clone, Copy, Debug, PartialEq, Eq, Structural)]
pub struct GlyphQuad {
    pub texture: u32,
    pub left: i128,
    pub bottom: i128,
    pub right: i128,
    pub top: i128,
}

/// One corner of a quad: position in 1/128 pixel and texture coordinates (0 or 1).
#[derive(Clone, Copy, Debug, PartialEq, Eq, Structural)]
pub struct Vertex {
    pub x: i128,
    pub y: i128,
    pub u: u8,
    pub v: u8,
}

/// Left edge of character `i`'s glyph: the pen itself for the first
/// character, the pen moved by the left bearing for the others.
pub open spec fn quad_left(s: Seq<char>, a: Map<u8, GlyphRecord>, i: int, g: GlyphRecord) -> int {
    if i == 0 {
        pen_x(s, a, i)
    } else {
        pen_x(s, a, i) + 128 * g.bearing_x
    }
}

/// Bottom edge of a glyph on the baseline `pen_y` (pixels), in 1/128 pixel.
pub open spec fn quad_bottom(pen_y: int, g: GlyphRecord) -> int {
    128 * (pen_y - (g.height_px - g.bearing_y))
}

/// The quad of character `i`, whose glyph is `g`.
pub open spec fn quad_at(s: Seq<char>, a: Map<u8, GlyphRecord>, pen_y: int, i: int, g: GlyphRecord) -> GlyphQuad {
    GlyphQuad {
        texture: g.texture,
        left: quad_left(s, a, i, g) as i128,
        bottom: quad_bottom(pen_y, g) as i128,
        right: (quad_left(s, a, i, g) + 128 * g.width_px) as i128,
        top: (quad_bottom(pen_y, g) + 128 * g.height_px) as i128,
    }
}

/// The quads of the first `n` characters, left to right; a character without
/// a glyph gets none.
pub open spec fn quads_upto(s: Seq<char>, a: Map<u8, GlyphRecord>, pen_y: int, n: int) -> Seq<GlyphQuad>
    decreases n,
{
    if n <= 0 {
        Seq::empty()
    } else {
        match glyph_of(a, s[n - 1]) {
            None => quads_upto(s, a, pen_y, n - 1),
            Some(g) => quads_upto(s, a, pen_y, n - 1).push(quad_at(s, a, pen_y, n - 1, g)),
        }
    }
}

/// The quads of a string drawn centred on baseline `pen_y`.
pub open spec fn text_quads(s: Seq<char>, a: Map<u8, GlyphRecord>, pen_y: int) -> Seq<GlyphQuad> {
    quads_upto(s, a, pen_y, s.len() as int)
}

/// Largest magnitude of one character's contribution to the width.
const CONTRIBUTION_BOUND: i128 = 0x80_0000_0000;

proof fn lemma_contribution_bound(s: Seq<char>, a: Map<u8, GlyphRecord>, i: int)
    ensures
        -CONTRIBUTION_BOUND <= contribution(s, a, i) <= CONTRIBUTION_BOUND,
{
}

proof fn lemma_width_bound(s: Seq<char>, a: Map<u8, GlyphRecord>, n: int)
    requires
        n >= 0,
    ensures
        -n * CONTRIBUTION_BOUND <= width_upto(s, a, n) <= n * CONTRIBUTION_BOUND,
    decreases n,
{
    if n > 0 {
        lemma_width_bound(s, a, n - 1);
        lemma_contribution_bound(s, a, n - 1);
    }
}

proof fn lemma_advance_bound(s: Seq<char>, a: Map<u8, GlyphRecord>, n: int)
    requires
        n >= 0,
    ensures
        0 <= advance_upto(s, a, n) <= n * 0x1_0000_0000,
    decreases n,
{
    if n > 0 {
        lemma_advance_bound(s, a, n - 1);
    }
}

/// Width of `text` in 1/64 pixel, used to centre it: the advances of its
/// glyphs, corrected at the first and last character (see `contribution`).
pub fn measure(text: &str, atlas: &GlyphAtlas) -> (r: i128)
    requires
        atlas.wf(),
    ensures
        r == text_width(text@, atlas@),
{
    let n = text.unicode_len();
    let mut acc: i128 = 0;
    let mut i: usize = 0;
    while i < n
        invariant
            atlas.wf(),
            n == text@.len(),
            i <= n,
            acc == width_upto(text@, atlas@, i as int),
            -(i as int) * CONTRIBUTION_BOUND <= acc <= (i as int) * CONTRIBUTION_BOUND,
        decreases n - i,
    {
        let c = text.get_char(i);
        proof {
            lemma_contribution_bound(text@, atlas@, i as int);
        }
        match atlas.glyph_for(c) {
            None => {},
            Some(g) => {
                if i == 0 {
                    acc = acc + g.advance_units as i128 - 64 * (g.bearing_x as i128);
                } else if i == n - 1 {
                    acc = acc + 64 * (g.bearing_x as i128 + g.width_px as i128);
                } else {
                    acc = acc + g.advance_units as i128;
                }
            },
        }
        i = i + 1;
    }
    acc
}

proof fn lemma_quads_count(s: Seq<char>, a: Map<u8, GlyphRecord>, pen_y: int, n: int)
    ensures
        quads_upto(s, a, pen_y, n).len() == present_upto(s, a, n),
    decreases n,
{
    if n > 0 {
        lemma_quads_count(s, a, pen_y, n - 1);
    }
}

/// The quads that draw `text` centred horizontally on the origin, on the
/// baseline `pen_y` (pixels): one per character that has a glyph, left to
/// right, each with its glyph's texture.
pub fn emit_quads(text: &str, atlas: &GlyphAtlas, pen_y: i32) -> (r: Vec<GlyphQuad>)
    requires
        atlas.wf(),
    ensures
        r@ == text_quads(text@, atlas@, pen_y as int),
        r@.len() == present_upto(text@, atlas@, text@.len() as int),
        text@.len() == 0 ==> r@.len() == 0,
{
    let width = measure(text, atlas);
    let n = text.unicode_len();
    proof {
        lemma_width_bound(text@, atlas@, n as int);
    }
    let mut pen: i128 = -width;
    let mut out: Vec<GlyphQuad> = Vec::new();
    let mut i: usize = 0;
    while i < n
        invariant
            atlas.wf(),
            n == text@.len(),
            i <= n,
            width == text_width(text@, atlas@),
            -(n as int) * CONTRIBUTION_BOUND <= width <= (n as int) * CONTRIBUTION_BOUND,
            pen == pen_x(text@, atlas@, i as int),
            out@ == quads_upto(text@, atlas@, pen_y as int, i as int),
        decreases n - i,
    {
        let c = text.get_char(i);
        proof {
            lemma_advance_bound(text@, atlas@, i as int);
        }
        match atlas.glyph_for(c) {
            None => {},
            Some(g) => {
                let left: i128 = if i == 0 {
                    pen
                } else {
                    pen + 128 * (g.bearing_x as i128)
                };
                let bottom: i128 = 128 * (pen_y as i128 - (g.height_px as i128 - g.bearing_y as i128));
                let quad = GlyphQuad {
                    texture: g.texture,
                    left,
                    bottom,
                    right: left + 128 * (g.width_px as i128),
                    top: bottom + 128 * (g.height_px as i128),
                };
                out.push(quad);
                pen = pen + 2 * (g.advance_units as i128);
            },
        }
        i = i + 1;
    }
    proof {
        lemma_quads_count(text@, atlas@, pen_y as int, n as int);
    }
    out
}

/// The six corners of a quad as two triangles, in drawing order, with the
/// texture mapped over the whole glyph (v grows downwards).
pub open spec fn quad_vertices(q: GlyphQuad) -> Seq<Vertex> {
    seq![
        Vertex { x: q.left, y: q.top, u: 0, v: 0 },
        Vertex { x: q.left, y: q.bottom, u: 0, v: 1 },
        Vertex { x: q.right, y: q.bottom, u: 1, v: 1 },
        Vertex { x: q.left, y: q.top, u: 0, v: 0 },
        Vertex { x: q.right, y: q.bottom, u: 1, v: 1 },
        Vertex { x: q.right, y: q.top, u: 1, v: 0 },
    ]
}

impl GlyphQuad {
    /// The corners to upload for this quad (see `quad_vertices`).
    pub fn vertices(&self) -> (r: Vec<Vertex>)
        ensures
            r@ == quad_vertices(*self),
    {
        let top_left = Vertex { x: self.left, y: self.top, u: 0, v: 0 };
        let bottom_left = Vertex { x: self.left, y: self.bottom, u: 0, v: 1 };
        let bottom_right = Vertex { x: self.right, y: self.bottom, u: 1, v: 1 };
        let top_right = Vertex { x: self.right, y: self.top, u: 1, v: 0 };
        let r = vec![top_left, bottom_left, bottom_right, top_left, bottom_right, top_right];
        assert(r@ =~= quad_vertices(*self));
        r
    }
}

/// `measure` is a function of the string and the atlas alone: two calls on the
/// same inputs give the same width.
pub proof fn lemma_measure_is_pure(s: Seq<char>, a: Map<u8, GlyphRecord>, first: i128, second: i128)
    requires
        first == text_width(s, a),
        second == text_width(s, a),
    ensures
        first == second,
{
}

proof fn lemma_insert_absent_sums(s: Seq<char>, a: Map<u8, GlyphRecord>, c: char, k: int, n: int)
    requires
        0 < k < s.len(),
        glyph_of(a, c) is None,
        0 <= n <= s.len() + 1,
    ensures
        n <= k ==> width_upto(s.insert(k, c), a, n) == width_upto(s, a, n),
        n <= k ==> advance_upto(s.insert(k, c), a, n) == advance_upto(s, a, n),
        n > k ==> width_upto(s.insert(k, c), a, n) == width_upto(s, a, n - 1),
        n > k ==> advance_upto(s.insert(k, c), a, n) == advance_upto(s, a, n - 1),
    decreases n,
{
    let t = s.insert(k, c);
    if n > 0 {
        lemma_insert_absent_sums(s, a, c, k, n - 1);
        if n - 1 < k {
            assert(t[n - 1] == s[n - 1]);
            assert(contribution(t, a, n - 1) == contribution(s, a, n - 1));
        } else if n - 1 > k {
            assert(t[n - 1] == s[n - 2]);
            assert(contribution(t, a, n - 1) == contribution(s, a, n - 2));
        } else {
            assert(t[n - 1] == c);
        }
    }
}

proof fn lemma_insert_absent_quads(s: Seq<char>, a: Map<u8, GlyphRecord>, c: char, k: int, pen_y: int, n: int)
    requires
        0 < k < s.len(),
        glyph_of(a, c) is None,
        0 <= n <= s.len() + 1,
        text_width(s.insert(k, c), a) == text_width(s, a),
    ensures
        n <= k ==> quads_upto(s.insert(k, c), a, pen_y, n) == quads_upto(s, a, pen_y, n),
        n > k ==> quads_upto(s.insert(k, c), a, pen_y, n) == quads_upto(s, a, pen_y, n - 1),
    decreases n,
{
    let t = s.insert(k, c);
    if n > 0 {
        lemma_insert_absent_quads(s, a, c, k, pen_y, n - 1);
        lemma_insert_absent_sums(s, a, c, k, n - 1);
        if n - 1 < k {
            assert(t[n - 1] == s[n - 1]);
        } else if n - 1 > k {
            assert(t[n - 1] == s[n - 2]);
        } else {
            assert(t[n - 1] == c);
        }
    }
}

/// A character without a glyph, placed anywhere between the first and the
/// last character, changes neither the measured width nor any quad: it
/// takes no room and moves the pen by nothing.
pub proof fn lemma_absent_char_takes_no_room(s: Seq<char>, a: Map<u8, GlyphRecord>, c: char, k: int, pen_y: int)
    requires
        0 < k < s.len(),
        glyph_of(a, c) is None,
    ensures
        text_width(s.insert(k, c), a) == text_width(s, a),
        text_quads(s.insert(k, c), a, pen_y) == text_quads(s, a, pen_y),
{
    lemma_insert_absent_sums(s, a, c, k, s.len() + 1int);
    lemma_insert_absent_quads(s, a, c, k, pen_y, s.len() + 1int);
}

/// The distinct characters among the first `n` of `s` that have a glyph.
pub open spec fn present_chars(s: Seq<char>, a: Map<u8, GlyphRecord>, n: int) -> Set<char> {
    Set::new(|c: char| exists|i: int| 0 <= i < n && i < s.len() && s[i] == c && glyph_of(a, c) is Some)
}

proof fn lemma_present_chars_count(s: Seq<char>, a: Map<u8, GlyphRecord>, n: int)
    requires
        0 <= n <= s.len(),
        s.no_duplicates(),
    ensures
        present_chars(s, a, n).finite(),
        present_chars(s, a, n).len() == present_upto(s, a, n),
    decreases n,
{
    if n == 0 {
        assert(present_chars(s, a, 0) =~= Set::<char>::empty());
    } else {
        lemma_present_chars_count(s, a, n - 1);
        let prev = present_chars(s, a, n - 1);
        let c = s[n - 1];
        if glyph_of(a, c) is Some {
            assert(present_chars(s, a, n) =~= prev.insert(c));
            assert(!prev.contains(c));
        } else {
            assert(present_chars(s, a, n) =~= prev);
        }
    }
}

/// In a string without repeated characters, the quads are exactly as many as
/// the distinct characters that have a glyph. (With repeats, each occurrence
/// gets its own quad: see the `ensures` of `emit_quads`.)
pub proof fn lemma_one_quad_per_distinct_char(s: Seq<char>, a: Map<u8, GlyphRecord>, pen_y: int)
    requires
        s.no_duplicates(),
    ensures
        present_chars(s, a, s.len() as int).finite(),
        text_quads(s, a, pen_y).len() == present_chars(s, a, s.len() as int).len(),
{
    lemma_present_chars_count(s, a, s.len() as int);
    lemma_quads_count(s, a, pen_y, s.len() as int);
}

} // verus!
