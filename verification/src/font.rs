//! Fonts whose glyphs lie in a grid on one image.
use vstd::prelude::*;
use std::ops::Range;
use crate::bounds::{Bounds, Point2, RectSize};
use crate::scalar::Scalar;

verus! {

/// The description of a font as it is stored beside the image of its glyphs.
#[derive(Clone, Debug, PartialEq, Eq)]
pub struct FontMetaJson {
    pub path: String,
    pub atlas_width: u32,
    pub atlas_height: u32,
    pub glyph_width: u32,
    pub glyph_height: u32,
    pub present_start: u8,
    pub present_end: u8,
    pub glyphs_per_line: u32,
}

/// The lowest byte of the code of `character`.
pub open spec fn low_byte(character: char) -> u8 {
    (character as u32 % 256) as u8
}

/// A font of glyphs of one size that lie in rows on one image, in the order of
/// their codes.
#[derive(Clone, Copy, Debug, PartialEq, Eq)]
pub struct Font {
    present_start: u8,
    present_end: u8,
    glyphs_per_line: u32,
    glyph_size: RectSize<u32>,
    glyph_size_uv: RectSize<Scalar>,
}

impl Font {
    pub closed spec fn present_start(&self) -> u8 {
        self.present_start
    }

    pub closed spec fn present_end(&self) -> u8 {
        self.present_end
    }

    pub closed spec fn glyphs_per_line(&self) -> u32 {
        self.glyphs_per_line
    }

    pub closed spec fn glyph_size_spec(&self) -> RectSize<u32> {
        self.glyph_size
    }

    pub closed spec fn glyph_size_uv_spec(&self) -> RectSize<Scalar> {
        self.glyph_size_uv
    }

    /// A row of the image holds at least one glyph.
    #[verifier::type_invariant]
    closed spec fn wf(&self) -> bool {
        self.glyphs_per_line > 0
    }

    /// The size of a glyph as a share of an image of size `atlas_size`.
    pub open spec fn share(glyph_size: RectSize<u32>, atlas_size: RectSize<u32>) -> RectSize<Scalar> {
        RectSize {
            width: Scalar::of(glyph_size.width * crate::scalar::ONE_RAW).div_spec(
                Scalar::of(atlas_size.width * crate::scalar::ONE_RAW),
            ),
            height: Scalar::of(glyph_size.height * crate::scalar::ONE_RAW).div_spec(
                Scalar::of(atlas_size.height * crate::scalar::ONE_RAW),
            ),
        }
    }

    pub open spec fn has_glyph_spec(&self, character: char) -> bool {
        self.present_start() <= low_byte(character) < self.present_end()
    }

    /// Width of a glyph whose height is one.
    pub open spec fn glyph_relative_width_spec(&self) -> Scalar {
        Scalar::of(self.glyph_size_spec().width * crate::scalar::ONE_RAW).div_spec(
            Scalar::of(self.glyph_size_spec().height * crate::scalar::ONE_RAW),
        )
    }

    /// Where the glyph of `character` begins on the image, as shares of the
    /// size of the image; `None` where the font has no such glyph.
    pub open spec fn uv_position_spec(&self, character: char) -> Option<Point2<Scalar>> {
        if self.has_glyph_spec(character) {
            let i_glyph = low_byte(character) - self.present_start();
            Some(
                Point2 {
                    x: self.glyph_size_uv_spec().width.times_spec(
                        (i_glyph % self.glyphs_per_line() as int) as usize,
                    ),
                    y: self.glyph_size_uv_spec().height.times_spec(
                        (i_glyph / self.glyphs_per_line() as int) as usize,
                    ),
                },
            )
        } else {
            None
        }
    }

    /// The font that `meta` describes, with its glyphs on an image of the size
    /// that `meta` names.
    pub fn from_meta(meta: &FontMetaJson) -> (font: Self)
        requires
            meta.glyphs_per_line > 0,
        ensures
            font.present_start() == meta.present_start,
            font.present_end() == meta.present_end,
            font.glyphs_per_line() == meta.glyphs_per_line,
            font.glyph_size_spec() == (RectSize { width: meta.glyph_width, height: meta.glyph_height }),
            font.glyph_size_uv_spec() == Self::share(
                RectSize { width: meta.glyph_width, height: meta.glyph_height },
                RectSize { width: meta.atlas_width, height: meta.atlas_height },
            ),
    {
        Font {
            present_start: meta.present_start,
            present_end: meta.present_end,
            glyphs_per_line: meta.glyphs_per_line,
            glyph_size: RectSize::new(meta.glyph_width, meta.glyph_height),
            glyph_size_uv: RectSize::new(
                count_scalar(meta.glyph_width).div(count_scalar(meta.atlas_width)),
                count_scalar(meta.glyph_height).div(count_scalar(meta.atlas_height)),
            ),
        }
    }

    /// The bytes for which the font has glyphs.
    pub fn present_range(&self) -> (range: Range<u8>)
        ensures
            range.start == self.present_start(),
            range.end == self.present_end(),
    {
        self.present_start..self.present_end
    }

    /// Whether the font has a glyph for `character`. Only the lowest byte of
    /// its code is looked at.
    #[verifier::when_used_as_spec(has_glyph_spec)]
    pub fn has_glyph(&self, character: char) -> (present: bool)
        ensures
            present == self.has_glyph_spec(character),
    {
        let byte = lowest_byte(character);
        self.present_start <= byte && byte < self.present_end
    }

    /// Where the glyph of `character` lies on the image, as shares of the size
    /// of the image.
    pub fn uv_bounds_for_char(&self, character: char) -> (bounds: Option<Bounds<Scalar>>)
        ensures
            bounds == (match self.uv_position_spec(character) {
                Some(origin) => Some(Bounds { origin, size: self.glyph_size_uv_spec() }),
                None => None,
            }),
    {
        match self.uv_position_for_glyph(character) {
            Some(top_left) => Some(Bounds::new(top_left, self.glyph_size_uv)),
            None => None,
        }
    }

    fn uv_position_for_glyph(&self, character: char) -> (position: Option<Point2<Scalar>>)
        ensures
            position == self.uv_position_spec(character),
    {
        proof {
            use_type_invariant(self);
        }
        if !self.has_glyph(character) {
            return None;
        }
        let i_glyph: u32 = (lowest_byte(character) - self.present_start) as u32;
        Some(
            Point2 {
                x: self.glyph_size_uv.width.times((i_glyph % self.glyphs_per_line) as usize),
                y: self.glyph_size_uv.height.times((i_glyph / self.glyphs_per_line) as usize),
            },
        )
    }

    /// Glyph width if glyph height is 1.
    #[verifier::when_used_as_spec(glyph_relative_width_spec)]
    pub fn glyph_relative_width(&self) -> (width: Scalar)
        ensures
            width == self.glyph_relative_width_spec(),
    {
        count_scalar(self.glyph_size.width).div(count_scalar(self.glyph_size.height))
    }

    #[verifier::when_used_as_spec(glyph_size_spec)]
    pub fn glyph_size(&self) -> (size: RectSize<u32>)
        ensures
            size == self.glyph_size_spec(),
    {
        self.glyph_size
    }

    #[verifier::when_used_as_spec(glyph_size_uv_spec)]
    pub fn glyph_size_uv(&self) -> (size: RectSize<Scalar>)
        ensures
            size == self.glyph_size_uv_spec(),
    {
        self.glyph_size_uv
    }
}

/// The scalar that equals the whole number `count`.
fn count_scalar(count: u32) -> (r: Scalar)
    ensures
        r == Scalar::of(count * crate::scalar::ONE_RAW),
{
    let wide: i64 = count as i64;
    Scalar::from_raw(wide * crate::scalar::ONE_RAW)
}

fn lowest_byte(character: char) -> (byte: u8)
    ensures
        byte == low_byte(character),
{
    let code: u32 = character as u32;
    (code % 256) as u8
}

} // verus!
