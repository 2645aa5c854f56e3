use vstd::prelude::*;

use crate::raster::RasterGlyph;

verus! {

/// Number of codepoints the atlas covers: the ASCII range `0..128`.
pub const ATLAS_SLOTS: usize = 128;

/// Metrics and texture of one rasterised glyph.
#[derive(Clone, Copy, Debug, PartialEq, Eq, Structural)]
pub struct GlyphRecord {
    /// GPU texture that holds the glyph's bitmap.
    pub texture: u32,
    /// Bitmap width in pixels.
    pub width_px: u32,
    /// Bitmap height in pixels.
    pub height_px: u32,
    /// Horizontal offset from the pen to the bitmap's left edge, in pixels.
    pub bearing_x: i32,
    /// Height of the bitmap's top edge above the baseline, in pixels.
    pub bearing_y: i32,
    /// Horizontal pen advance in 1/64 pixel (26.6 fixed point).
    pub advance_units: u32,
}

/// Mapping from ASCII codepoints to glyph records.
pub struct GlyphAtlas {
    slots: Vec<Option<GlyphRecord>>,
}

/// The glyph of a character in an atlas: only ASCII characters can have one.
pub open spec fn glyph_of(a: Map<u8, GlyphRecord>, c: char) -> Option<GlyphRecord> {
    if (c as u32) < 128 && a.contains_key((c as u32) as u8) {
        Some(a[(c as u32) as u8])
    } else {
        None
    }
}

impl View for GlyphAtlas {
    type V = Map<u8, GlyphRecord>;

    closed spec fn view(&self) -> Map<u8, GlyphRecord> {
        Map::new(
            |k: u8| (k as int) < self.slots@.len() && self.slots@[k as int] is Some,
            |k: u8| self.slots@[k as int]->Some_0,
        )
    }
}

impl GlyphAtlas {
    /// One slot per ASCII codepoint.
    pub closed spec fn wf(&self) -> bool {
        self.slots@.len() == ATLAS_SLOTS
    }

    /// An atlas without glyphs.
    pub fn new() -> (r: GlyphAtlas)
        ensures
            r.wf(),
            r@ == Map::<u8, GlyphRecord>::empty(),
    {
        let mut slots: Vec<Option<GlyphRecord>> = Vec::new();
        let mut i: usize = 0;
        while i < ATLAS_SLOTS
            invariant
                i <= ATLAS_SLOTS,
                slots@.len() == i,
                forall|j: int| 0 <= j < i ==> slots@[j] is None,
            decreases ATLAS_SLOTS - i,
        {
            slots.push(None);
            i = i + 1;
        }
        let r = GlyphAtlas { slots };
        assert(r@ =~= Map::<u8, GlyphRecord>::empty());
        r
    }

    /// Stores `record` under `code`, replacing what was there.
    pub fn insert(&mut self, code: u8, record: GlyphRecord)
        requires
            old(self).wf(),
            code < 128,
        ensures
            final(self).wf(),
            final(self)@ == old(self)@.insert(code, record),
    {
        self.slots.set(code as usize, Some(record));
        assert(self@ =~= old(self)@.insert(code, record));
    }

    /// The record stored under `code`, if any.
    pub fn get(&self, code: u8) -> (r: Option<GlyphRecord>)
        requires
            self.wf(),
        ensures
            r == (if self@.contains_key(code) { Some(self@[code]) } else { None::<GlyphRecord> }),
    {
        if (code as usize) < ATLAS_SLOTS {
            self.slots[code as usize]
        } else {
            None
        }
    }

    /// The record for character `c`; characters outside ASCII have none.
    pub fn glyph_for(&self, c: char) -> (r: Option<GlyphRecord>)
        requires
            self.wf(),
        ensures
            r == glyph_of(self@, c),
    {
        let code = c as u32;
        if code < 128 {
            self.get(code as u8)
        } else {
            None
        }
    }

    /// Some record of the atlas uses texture `t`.
    pub open spec fn holds_texture(&self, t: u32) -> bool {
        exists|k: u8| self@.contains_key(k) && self@[k].texture == t
    }

    /// The textures of all records, in code order, to release them.
    pub fn textures(&self) -> (r: Vec<u32>)
        requires
            self.wf(),
        ensures
            forall|k: u8| self@.contains_key(k) ==> r@.contains(self@[k].texture),
            forall|i: int| 0 <= i < r@.len() ==> self.holds_texture(#[trigger] r@[i]),
    {
        let mut r: Vec<u32> = Vec::new();
        let mut i: usize = 0;
        while i < ATLAS_SLOTS
            invariant
                self.wf(),
                i <= ATLAS_SLOTS,
                forall|k: u8| (k as int) < i && self@.contains_key(k) ==> r@.contains(self@[k].texture),
                forall|j: int| 0 <= j < r@.len() ==> self.holds_texture(#[trigger] r@[j]),
            decreases ATLAS_SLOTS - i,
        {
            match self.slots[i] {
                Some(rec) => {
                    let ghost before = r@;
                    r.push(rec.texture);
                    proof {
                        let k = i as u8;
                        assert(self@.contains_key(k));
                        assert(r@[r@.len() - 1] == self@[k].texture);
                        assert forall|kk: u8| (kk as int) < i + 1 && self@.contains_key(kk) implies r@.contains(self@[kk].texture) by {
                            if (kk as int) < i {
                                let j = choose|j: int| 0 <= j < before.len() && before[j] == self@[kk].texture;
                                assert(r@[j] == self@[kk].texture);
                            } else {
                                assert(r@[r@.len() - 1] == self@[kk].texture);
                            }
                        }
                        assert forall|j: int| 0 <= j < r@.len() implies self.holds_texture(#[trigger] r@[j]) by {
                            if j < before.len() {
                                assert(r@[j] == before[j]);
                            } else {
                                assert(r@[j] == self@[k].texture);
                            }
                        }
                    }
                },
                None => {
                    proof {
                        assert(!self@.contains_key(i as u8));
                    }
                },
            }
            i = i + 1;
        }
        r
    }

    /// Number of codepoints that have a record.
    pub fn len(&self) -> (r: usize)
        requires
            self.wf(),
        ensures
            r == self@.dom().len(),
    {
        let mut n: usize = 0;
        let mut i: usize = 0;
        assert(self@.dom().filter(|k: u8| (k as int) < 0) =~= Set::<u8>::empty());
        while i < ATLAS_SLOTS
            invariant
                self.wf(),
                i <= ATLAS_SLOTS,
                n <= i,
                self@.dom().filter(|k: u8| (k as int) < i).finite(),
                n == self@.dom().filter(|k: u8| (k as int) < i).len(),
            decreases ATLAS_SLOTS - i,
        {
            proof {
                let before = self@.dom().filter(|k: u8| (k as int) < i);
                let after = self@.dom().filter(|k: u8| (k as int) < i + 1);
                if self.slots@[i as int] is Some {
                    assert(after =~= before.insert(i as u8));
                } else {
                    assert(after =~= before);
                }
            }
            if self.slots[i].is_some() {
                n = n + 1;
            }
            i = i + 1;
        }
        proof {
            assert(self@.dom().filter(|k: u8| (k as int) < 128) =~= self@.dom());
        }
        n
    }
}

/// The record that a rasterised glyph gets once its bitmap lives in `texture`.
pub open spec fn record_of(g: RasterGlyph, texture: u32) -> GlyphRecord {
    GlyphRecord {
        texture,
        width_px: g.width,
        height_px: g.rows,
        bearing_x: g.left,
        bearing_y: g.top,
        advance_units: g.advance,
    }
}

/// The atlas that the first `n` glyphs give, each stored under its code in turn.
pub open spec fn atlas_map(gs: Seq<RasterGlyph>, ts: Seq<u32>, n: int) -> Map<u8, GlyphRecord>
    decreases n,
{
    if n <= 0 {
        Map::empty()
    } else {
        atlas_map(gs, ts, n - 1).insert(gs[n - 1].code, record_of(gs[n - 1], ts[n - 1]))
    }
}

/// Builds the atlas from rasterised glyphs and the textures their bitmaps were
/// uploaded to (`textures[i]` holds `glyphs[i]`).
pub fn build_atlas(glyphs: &Vec<RasterGlyph>, textures: &Vec<u32>) -> (r: GlyphAtlas)
    requires
        glyphs@.len() == textures@.len(),
        forall|i: int| 0 <= i < glyphs@.len() ==> (#[trigger] glyphs@[i]).valid(),
    ensures
        r.wf(),
        r@ == atlas_map(glyphs@, textures@, glyphs@.len() as int),
        forall|k: u8| r@.contains_key(k) ==> k < 128,
{
    let mut atlas = GlyphAtlas::new();
    let mut i: usize = 0;
    while i < glyphs.len()
        invariant
            glyphs@.len() == textures@.len(),
            forall|j: int| 0 <= j < glyphs@.len() ==> (#[trigger] glyphs@[j]).valid(),
            i <= glyphs@.len(),
            atlas.wf(),
            atlas@ == atlas_map(glyphs@, textures@, i as int),
        decreases glyphs@.len() - i,
    {
        let g = &glyphs[i];
        let record = GlyphRecord {
            texture: textures[i],
            width_px: g.width,
            height_px: g.rows,
            bearing_x: g.left,
            bearing_y: g.top,
            advance_units: g.advance,
        };
        atlas.insert(g.code, record);
        i = i + 1;
    }
    proof {
        lemma_keys_ascii(&atlas);
    }
    atlas
}

/// Every codepoint with a record in a well-formed atlas is ASCII.
pub proof fn lemma_keys_ascii(a: &GlyphAtlas)
    requires
        a.wf(),
    ensures
        forall|k: u8| a@.contains_key(k) ==> k < 128,
{
}

/// Glyphs rasterised in strictly increasing code order give an atlas with
/// exactly one record per glyph: each code maps to its own glyph's record,
/// no other code has one, and every code is ASCII.
pub proof fn lemma_one_record_per_code(gs: Seq<RasterGlyph>, ts: Seq<u32>)
    requires
        gs.len() == ts.len(),
        forall|i: int| 0 <= i < gs.len() ==> (#[trigger] gs[i]).valid(),
        forall|i: int, j: int| 0 <= i < j < gs.len() ==> gs[i].code < gs[j].code,
    ensures
        atlas_map(gs, ts, gs.len() as int).dom().finite(),
        atlas_map(gs, ts, gs.len() as int).dom().len() == gs.len(),
        forall|i: int| 0 <= i < gs.len() ==>
            atlas_map(gs, ts, gs.len() as int)[#[trigger] gs[i].code] == record_of(gs[i], ts[i]),
        forall|k: u8| atlas_map(gs, ts, gs.len() as int).contains_key(k) ==> k < 128,
{
    lemma_prefix_records(gs, ts, gs.len() as int);
}

proof fn lemma_prefix_records(gs: Seq<RasterGlyph>, ts: Seq<u32>, n: int)
    requires
        0 <= n <= gs.len() == ts.len(),
        forall|i: int| 0 <= i < gs.len() ==> (#[trigger] gs[i]).valid(),
        forall|i: int, j: int| 0 <= i < j < gs.len() ==> gs[i].code < gs[j].code,
    ensures
        atlas_map(gs, ts, n).dom().finite(),
        atlas_map(gs, ts, n).dom().len() == n,
        forall|i: int| 0 <= i < n ==> atlas_map(gs, ts, n)[#[trigger] gs[i].code] == record_of(gs[i], ts[i]),
        forall|k: u8| atlas_map(gs, ts, n).contains_key(k) ==> k < 128 && exists|i: int| 0 <= i < n && (#[trigger] gs[i]).code == k,
    decreases n,
{
    if n > 0 {
        lemma_prefix_records(gs, ts, n - 1);
        let prev = atlas_map(gs, ts, n - 1);
        if prev.contains_key(gs[n - 1].code) {
            let i = choose|i: int| 0 <= i < n - 1 && (#[trigger] gs[i]).code == gs[n - 1].code;
            assert(gs[i].code < gs[n - 1].code);
        }
        assert(gs[n - 1].valid());
    }
}

} // verus!
