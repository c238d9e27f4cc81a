use muilib::text::measure_text;
use muilib::utils::the_default;
use muilib::{Bounds, Font, FontMetaJson, RectSize, Scalar, TextView, View};

fn s(value: i32) -> Scalar {
    Scalar::from_int(value)
}

fn meta() -> FontMetaJson {
    FontMetaJson {
        path: String::from("font.png"),
        atlas_width: 128,
        atlas_height: 64,
        glyph_width: 8,
        glyph_height: 16,
        present_start: 32,
        present_end: 127,
        glyphs_per_line: 16,
    }
}

#[test]
fn empty_text_is_one_line_without_columns() {
    assert_eq!(measure_text(""), (1, 0));
}

#[test]
fn lines_are_counted_by_line_feeds() {
    assert_eq!(measure_text("abc"), (1, 3));
    assert_eq!(measure_text("abc\n"), (2, 3));
    assert_eq!(measure_text("ab\ncdef\ng"), (3, 4));
    assert_eq!(measure_text("\n\n\n"), (4, 0));
}

#[test]
fn carriage_return_starts_the_line_over() {
    assert_eq!(measure_text("abc\rde"), (1, 3));
    assert_eq!(measure_text("ab\rcdef"), (1, 4));
    assert_eq!(measure_text("ab\r\ncd"), (2, 2));
}

#[test]
fn characters_of_several_bytes_take_one_column() {
    assert_eq!(measure_text("äöü"), (1, 3));
    assert_eq!(measure_text("日本語\nab"), (2, 3));
    assert_eq!(measure_text("a😀b"), (1, 3));
}

#[test]
fn font_knows_its_glyphs() {
    let font = Font::from_meta(&meta());
    assert_eq!(font.present_range(), 32..127);
    assert!(font.has_glyph(' '));
    assert!(font.has_glyph('A'));
    assert!(font.has_glyph('~'));
    assert!(!font.has_glyph('\u{7f}'));
    assert!(!font.has_glyph('\n'));
    // Only the lowest byte of the code counts.
    assert!(font.has_glyph('\u{141}'));
    assert!(!font.has_glyph('\u{100}'));
    assert_eq!(font.glyph_size(), RectSize::new(8, 16));
    assert_eq!(font.glyph_size_uv(), RectSize::new(Scalar::from_raw(4096), Scalar::from_raw(16384)));
    assert_eq!(font.glyph_relative_width(), Scalar::half());
}

#[test]
fn glyphs_lie_in_rows() {
    let font = Font::from_meta(&meta());
    let uv = font.glyph_size_uv();
    assert_eq!(
        font.uv_bounds_for_char(' '),
        Some(Bounds::from_scalars(s(0), s(0), uv.width, uv.height))
    );
    // 'A' is glyph 33: row 2, column 1.
    assert_eq!(
        font.uv_bounds_for_char('A'),
        Some(Bounds::from_scalars(
            Scalar::from_raw(4096),
            Scalar::from_raw(2 * 16384),
            uv.width,
            uv.height
        ))
    );
    assert_eq!(font.uv_bounds_for_char('\n'), None);
}

#[test]
fn new_text_view_is_empty() {
    let view = TextView::new(&Font::from_meta(&meta()));
    assert_eq!(view.n_lines(), 1);
    assert_eq!(view.n_columns(), 0);
    assert_eq!(view.text, "");
    assert_eq!(view.font_size(), s(12));
    assert_eq!(view.size(), RectSize::new(s(0), s(12)));
    assert!(!view.needs_update);
    assert!(!view.text_needs_update);
}

#[test]
fn text_view_is_as_large_as_its_text() {
    let mut view = TextView::new(&Font::from_meta(&meta()))
        .with_text(String::from("ab\ncdef"))
        .with_font_size(s(10));
    assert_eq!(view.n_lines(), 2);
    assert_eq!(view.n_columns(), 4);
    assert!(view.text_needs_update);
    assert!(view.needs_update);
    // Four columns of glyphs five wide, two lines of glyphs ten high.
    assert_eq!(view.size(), RectSize::new(s(20), s(20)));
    assert_eq!(view.preferred_size(), RectSize::new(s(20), s(20)));
    view.set_text(String::from("x"));
    assert_eq!(view.size(), RectSize::new(s(5), s(10)));
    view.set_font_size(s(20));
    assert_eq!(view.size(), RectSize::new(s(10), s(20)));
    *view.font_size_mut() = s(2);
    assert_eq!(view.size(), RectSize::new(s(1), s(2)));
}

#[test]
fn text_view_notes_its_place_and_its_squeeze() {
    let mut view = TextView::new(&Font::from_meta(&meta()))
        .with_text(String::from("ab\ncdef"))
        .with_font_size(s(10));
    view.needs_update = false;
    view.apply_bounds(Bounds::from_scalars(s(3), s(4), s(10), s(40)));
    assert_eq!(view.origin, muilib::point2(s(3), s(4)));
    assert_eq!(view.squeeze_horizontal, Scalar::half());
    assert_eq!(view.squeeze_vertical, Scalar::one());
    assert!(view.needs_update);
}

#[test]
fn default_values_are_those_of_the_type() {
    assert_eq!(the_default::<u32>(), 0);
    assert_eq!(the_default::<String>(), "");
    assert_eq!(the_default::<Bounds<Scalar>>(), Bounds::from_scalars(s(0), s(0), s(0), s(0)));
}
