use vstd::prelude::*;

verus! {

#[verifier::external_type_specification]
#[verifier::external_body]
#[verifier::reject_recursive_types(BYTES)]
pub struct ExFace<BYTES>(freetype::Face<BYTES>);

#[verifier::external_type_specification]
#[verifier::external_body]
pub struct ExFtError(freetype::Error);

/// How large the glyphs are rasterised.
#[derive(Clone, Copy, Debug, PartialEq, Eq, Structural)]
pub enum SizeSpec {
    /// A fixed pixel height (the width follows the face's aspect).
    PixelHeight(u32),
    /// A point size in 1/64 point, rendered at the given horizontal and vertical DPI.
    Points { size_units: u32, dpi_x: u32, dpi_y: u32 },
}

/// The face refused the requested size.
#[derive(Clone, Copy, Debug, PartialEq, Eq, Structural)]
pub enum FontLoadError {
    SizeRejected,
}

/// What the face's glyph slot holds after a glyph was rendered, as the
/// rasteriser reports it.
pub struct SlotImage {
    pub width: i32,
    pub rows: i32,
    pub left: i32,
    pub top: i32,
    /// Horizontal advance in 1/64 pixel.
    pub advance_x: i64,
    /// The bitmap's bytes, row after row.
    pub pixels: Vec<u8>,
}

/// A rendered glyph whose bitmap rows are tightly packed, one byte per pixel.
pub struct RasterGlyph {
    pub code: u8,
    pub width: u32,
    pub rows: u32,
    pub left: i32,
    pub top: i32,
    pub advance: u32,
    pub pixels: Vec<u8>,
}

impl RasterGlyph {
    /// The bitmap holds exactly `width * rows` bytes and the code is ASCII.
    pub open spec fn valid(&self) -> bool {
        &&& self.code < 128
        &&& self.pixels@.len() == self.width * self.rows
    }
}

/// A slot image can become a glyph: non-negative dimensions, a non-negative
/// advance that fits in 32 bits, and a bitmap of exactly `width * rows` bytes,
/// which is what a tightly packed texture upload reads.
pub open spec fn slot_usable(img: SlotImage) -> bool {
    &&& img.width >= 0
    &&& img.rows >= 0
    &&& 0 <= img.advance_x <= u32::MAX
    &&& img.pixels@.len() == img.width * img.rows
}

/// Relies on `freetype::Face::set_char_size`: sets a nominal size in 1/64
/// point at a given resolution, or reports an error.
#[verifier::external_body]
fn face_set_char_size(face: &freetype::Face, height_units: isize, dpi_x: u32, dpi_y: u32) -> (r: Result<(), freetype::Error>) {
    face.set_char_size(0, height_units, dpi_x, dpi_y)
}

/// Relies on `freetype::Face::set_pixel_sizes`: sets a pixel height, or
/// reports an error.
#[verifier::external_body]
fn face_set_pixel_sizes(face: &freetype::Face, height: u32) -> (r: Result<(), freetype::Error>) {
    face.set_pixel_sizes(0, height)
}

/// Relies on `freetype::Face::load_char` with `LoadFlag::RENDER`: loads and
/// renders the glyph of `code` into the face's glyph slot; `false` when the
/// face reports an error.
#[verifier::external_body]
fn face_load_rendered(face: &freetype::Face, code: u8) -> (r: bool) {
    face.load_char(code as usize, freetype::face::LoadFlag::RENDER).is_ok()
}

/// Relies on the accessors of `freetype::GlyphSlot` and `freetype::Bitmap`
/// (`bitmap`, `width`, `rows`, `buffer`, `bitmap_left`, `bitmap_top`,
/// `advance`): reads the face's glyph slot as it stands.
#[verifier::external_body]
fn face_read_slot(face: &freetype::Face) -> (r: SlotImage) {
    let slot = face.glyph();
    let bitmap = slot.bitmap();
    SlotImage {
        width: bitmap.width(),
        rows: bitmap.rows(),
        left: slot.bitmap_left(),
        top: slot.bitmap_top(),
        advance_x: slot.advance().x as i64,
        pixels: bitmap.buffer().to_vec(),
    }
}

/// Applies a size to the face before any glyph is rasterised.
pub fn set_face_size(face: &freetype::Face, size: SizeSpec) -> (r: Result<(), FontLoadError>)
    ensures
        r is Err ==> r == Err::<(), FontLoadError>(FontLoadError::SizeRejected),
{
    let outcome = match size {
        SizeSpec::PixelHeight(h) => face_set_pixel_sizes(face, h),
        SizeSpec::Points { size_units, dpi_x, dpi_y } => face_set_char_size(
            face,
            size_units as isize,
            dpi_x,
            dpi_y,
        ),
    };
    match outcome {
        Ok(()) => Ok(()),
        Err(_) => Err(FontLoadError::SizeRejected),
    }
}

/// Turns a rendered slot into a glyph for `code`; `None` when the slot image is
/// not usable (see `slot_usable`), so that the codepoint is left out.
pub fn accept_slot(code: u8, img: SlotImage) -> (r: Option<RasterGlyph>)
    ensures
        r is Some <==> slot_usable(img),
        r matches Some(g) ==> {
            &&& g.code == code
            &&& g.width == img.width
            &&& g.rows == img.rows
            &&& g.left == img.left
            &&& g.top == img.top
            &&& g.advance == img.advance_x
            &&& g.pixels@ == img.pixels@
        },
{
    if img.width < 0 || img.rows < 0 || img.advance_x < 0 || img.advance_x > u32::MAX as i64 {
        return None;
    }
    let w: u64 = img.width as u64;
    let h: u64 = img.rows as u64;
    assert(w * h <= 0x7fff_ffff * 0x7fff_ffff) by (nonlinear_arith)
        requires
            w <= 0x7fff_ffff,
            h <= 0x7fff_ffff,
    ;
    let expected: u64 = w * h;
    if img.pixels.len() as u64 != expected {
        return None;
    }
    Some(RasterGlyph {
        code,
        width: img.width as u32,
        rows: img.rows as u32,
        left: img.left,
        top: img.top,
        advance: img.advance_x as u32,
        pixels: img.pixels,
    })
}

/// Rasterises every ASCII codepoint that the face can render, in increasing
/// order; a codepoint that fails to load or render is left out.
pub fn rasterize_ascii(face: &freetype::Face) -> (r: Vec<RasterGlyph>)
    ensures
        r@.len() <= 128,
        forall|i: int| 0 <= i < r@.len() ==> (#[trigger] r@[i]).valid(),
        forall|i: int, j: int| 0 <= i < j < r@.len() ==> r@[i].code < r@[j].code,
{
    let mut glyphs: Vec<RasterGlyph> = Vec::new();
    let mut c: u8 = 0;
    while c < 128
        invariant
            c <= 128,
            glyphs@.len() <= c,
            forall|i: int| 0 <= i < glyphs@.len() ==> (#[trigger] glyphs@[i]).valid(),
            forall|i: int| 0 <= i < glyphs@.len() ==> (#[trigger] glyphs@[i]).code < c,
            forall|i: int, j: int| 0 <= i < j < glyphs@.len() ==> glyphs@[i].code < glyphs@[j].code,
        decreases 128 - c,
    {
        if face_load_rendered(face, c) {
            let img = face_read_slot(face);
            match accept_slot(c, img) {
                Some(g) => {
                    glyphs.push(g);
                },
                None => {},
            }
        }
        c = c + 1;
    }
    glyphs
}

} // verus!
