//! Measuring text that is set in glyphs of one size.
use vstd::prelude::*;
use crate::bounds::{Bounds, Point2, RectSize};
use crate::font::Font;
use crate::scalar::Scalar;
use crate::stack::{squeeze, squeeze_factor};

verus! {

/// How far the measuring of a text has come: the lines begun, the length of the
/// longest line, and the length of the line at hand.
pub struct Measuring {
    pub lines: nat,
    pub widest: nat,
    pub current: nat,
}

/// Whether `byte` goes on with a character that an earlier byte began.
pub open spec fn continues_character(byte: u8) -> bool {
    0x80 <= byte < 0xC0
}

/// The measuring of the first `n` of `bytes`. A line feed begins a new line, a
/// carriage return goes back to the start of the line, and every other character
/// takes one column.
pub open spec fn measuring(bytes: Seq<u8>, n: nat) -> Measuring
    decreases n,
{
    if n == 0 {
        Measuring { lines: 1, widest: 0, current: 0 }
    } else {
        let before = measuring(bytes, (n - 1) as nat);
        let byte = bytes[n - 1];
        if byte == 0x0A {
            Measuring { lines: before.lines + 1, widest: before.widest, current: 0 }
        } else if byte == 0x0D {
            Measuring { lines: before.lines, widest: before.widest, current: 0 }
        } else if continues_character(byte) {
            before
        } else {
            Measuring {
                lines: before.lines,
                widest: if before.current + 1 > before.widest {
                    before.current + 1
                } else {
                    before.widest
                },
                current: before.current + 1,
            }
        }
    }
}

/// Number of lines of the text with the given bytes: one more than it has line feeds.
pub open spec fn line_count(bytes: Seq<u8>) -> nat {
    measuring(bytes, bytes.len()).lines
}

/// Number of columns of the text with the given bytes: the length of its longest line.
pub open spec fn column_count(bytes: Seq<u8>) -> nat {
    measuring(bytes, bytes.len()).widest
}

proof fn lemma_measuring_is_bounded(bytes: Seq<u8>, n: nat)
    requires
        n <= bytes.len(),
    ensures
        1 <= measuring(bytes, n).lines <= n + 1,
        measuring(bytes, n).current <= measuring(bytes, n).widest <= n,
    decreases n,
{
    if n > 0 {
        lemma_measuring_is_bounded(bytes, (n - 1) as nat);
    }
}

/// Counts the lines and the columns of `text`, as `(n_lines, n_columns)`.
pub fn measure_text(text: &str) -> (extent: (usize, usize))
    ensures
        extent.0 == line_count(vstd::utf8::encode_utf8(text@)) || (extent.0 == usize::MAX && line_count(
            vstd::utf8::encode_utf8(text@),
        ) > usize::MAX),
        extent.1 == column_count(vstd::utf8::encode_utf8(text@)),
{
    let bytes = text.as_bytes();
    let mut n_lines: usize = 1;
    let mut n_columns: usize = 0;
    let mut current: usize = 0;
    let mut i: usize = 0;
    while i < bytes.len()
        invariant
            i <= bytes@.len(),
            bytes@ == vstd::utf8::encode_utf8(text@),
            n_lines == measuring(bytes@, i as nat).lines || (n_lines == usize::MAX && measuring(
                bytes@,
                i as nat,
            ).lines > usize::MAX),
            n_columns == measuring(bytes@, i as nat).widest,
            current == measuring(bytes@, i as nat).current,
        decreases bytes@.len() - i,
    {
        proof {
            lemma_measuring_is_bounded(bytes@, i as nat);
        }
        let byte = bytes[i];
        if byte == 0x0A {
            if n_lines < usize::MAX {
                n_lines += 1;
            }
            current = 0;
        } else if byte == 0x0D {
            current = 0;
        } else if 0x80 <= byte && byte < 0xC0 {
        } else {
            current += 1;
            if current > n_columns {
                n_columns = current;
            }
        }
        i += 1;
    }
    (n_lines, n_columns)
}

/// The part of a text view that concerns layout: the text, its extent in lines
/// and columns, the size of its glyphs, and where it was placed.
pub struct TextView {
    pub n_lines: usize,
    pub n_columns: usize,
    pub text: String,
    pub font_size: Scalar,
    /// Width of a glyph whose height is one.
    pub glyph_relative_width: Scalar,
    pub origin: Point2<Scalar>,
    /// Whether size, place or squeeze have changed since they were last drawn.
    pub needs_update: bool,
    pub squeeze_horizontal: Scalar,
    pub squeeze_vertical: Scalar,
    /// Whether the text has changed since it was last drawn.
    pub text_needs_update: bool,
}

impl TextView {
    /// The size of a text of `n_lines` lines and `n_columns` columns in glyphs of
    /// height `font_size`.
    pub open spec fn text_size(
        n_lines: usize,
        n_columns: usize,
        glyph_relative_width: Scalar,
        font_size: Scalar,
    ) -> RectSize<Scalar> {
        RectSize {
            width: glyph_relative_width.mul_spec(font_size).times_spec(n_columns),
            height: font_size.times_spec(n_lines),
        }
    }

    pub open spec fn size_spec(&self) -> RectSize<Scalar> {
        Self::text_size(self.n_lines, self.n_columns, self.glyph_relative_width, self.font_size)
    }

    /// An empty text of one line in glyphs of `font` at size twelve.
    pub fn new(font: &Font) -> (view: Self)
        ensures
            view.n_lines == 1,
            view.n_columns == 0,
            view.text@.len() == 0,
            view.font_size.raw == 12 * crate::scalar::ONE_RAW,
            view.glyph_relative_width == font.glyph_relative_width_spec(),
            view.origin == (Point2 { x: Scalar { raw: 0 }, y: Scalar { raw: 0 } }),
            !view.needs_update,
            !view.text_needs_update,
            view.squeeze_horizontal.raw == crate::scalar::ONE_RAW,
            view.squeeze_vertical.raw == crate::scalar::ONE_RAW,
    {
        TextView {
            n_lines: 1,
            n_columns: 0,
            text: String::new(),
            font_size: Scalar::from_int(12),
            glyph_relative_width: font.glyph_relative_width(),
            origin: Point2 { x: Scalar::zero(), y: Scalar::zero() },
            needs_update: false,
            text_needs_update: false,
            squeeze_horizontal: Scalar::one(),
            squeeze_vertical: Scalar::one(),
        }
    }

    pub fn font_size(&self) -> (font_size: Scalar)
        ensures
            font_size == self.font_size,
    {
        self.font_size
    }

    pub fn font_size_mut(&mut self) -> (font_size: &mut Scalar)
        ensures
            *font_size == old(self).font_size,
            *final(self) == (TextView {
                font_size: *final(font_size),
                needs_update: true,
                ..*old(self)
            }),
    {
        self.needs_update = true;
        &mut self.font_size
    }

    pub fn set_font_size(&mut self, font_size: Scalar)
        ensures
            *final(self) == (TextView { font_size, needs_update: true, ..*old(self) }),
    {
        self.needs_update = true;
        self.font_size = font_size;
    }

    pub fn with_font_size(self, font_size: Scalar) -> (view: Self)
        ensures
            view == (TextView { font_size, needs_update: true, ..self }),
    {
        let mut view = self;
        view.set_font_size(font_size);
        view
    }

    /// Replaces the text and counts its lines and columns.
    pub fn set_text(&mut self, text: String)
        ensures
            final(self).text == text,
            final(self).text_needs_update,
            final(self).n_columns == column_count(vstd::utf8::encode_utf8(text@)),
            final(self).n_lines == line_count(vstd::utf8::encode_utf8(text@)) || (final(self).n_lines
                == usize::MAX && line_count(vstd::utf8::encode_utf8(text@)) > usize::MAX),
            final(self).font_size == old(self).font_size,
            final(self).glyph_relative_width == old(self).glyph_relative_width,
            final(self).origin == old(self).origin,
            final(self).needs_update == old(self).needs_update,
            final(self).squeeze_horizontal == old(self).squeeze_horizontal,
            final(self).squeeze_vertical == old(self).squeeze_vertical,
    {
        self.text_needs_update = true;
        let (n_lines, n_columns) = measure_text(text.as_str());
        self.n_lines = n_lines;
        self.n_columns = n_columns;
        self.text = text;
    }

    pub fn with_text(self, text: String) -> (view: Self)
        ensures
            view.text == text,
            view.text_needs_update,
            view.n_columns == column_count(vstd::utf8::encode_utf8(text@)),
            view.n_lines == line_count(vstd::utf8::encode_utf8(text@)) || (view.n_lines
                == usize::MAX && line_count(vstd::utf8::encode_utf8(text@)) > usize::MAX),
            view.font_size == self.font_size,
            view.glyph_relative_width == self.glyph_relative_width,
    {
        let mut view = self;
        view.set_text(text);
        view
    }

    pub fn n_columns(&self) -> (n: usize)
        ensures
            n == self.n_columns,
    {
        self.n_columns
    }

    pub fn n_lines(&self) -> (n: usize)
        ensures
            n == self.n_lines,
    {
        self.n_lines
    }

    /// The size of the text: as wide as its columns and as high as its lines.
    #[verifier::when_used_as_spec(size_spec)]
    pub fn size(&self) -> (size: RectSize<Scalar>)
        ensures
            size == self.size_spec(),
    {
        RectSize::new(
            self.glyph_relative_width.mul(self.font_size).times(self.n_columns),
            self.font_size.times(self.n_lines),
        )
    }
}

impl crate::view::View for TextView {
    fn preferred_size(&mut self) -> (size: RectSize<Scalar>)
        ensures
            size == old(self).size_spec(),
            *final(self) == *old(self),
    {
        self.size()
    }

    /// Takes the place and notes by how much the text must shrink to fit.
    fn apply_bounds(&mut self, bounds: Bounds<Scalar>)
        ensures
            *final(self) == (TextView {
                squeeze_horizontal: squeeze_factor(bounds.size.width, old(self).size_spec().width),
                squeeze_vertical: squeeze_factor(bounds.size.height, old(self).size_spec().height),
                needs_update: true,
                origin: bounds.origin,
                ..*old(self)
            }),
    {
        let size = self.size();
        self.squeeze_horizontal = squeeze(bounds.width(), size.width);
        self.squeeze_vertical = squeeze(bounds.height(), size.height);
        self.needs_update = true;
        self.origin = bounds.origin;
    }
}

} // verus!
