use tessera_render::font::FontResource;
use tessera_render::pixel::Color;
use tessera_render::text::{TextConstraint, TextData};

#[test]
fn two_read_handles_are_held_concurrently() {
    // Readers never block each other: acquiring a second shared handle while
    // the first is still held must succeed (an exclusive lock here would
    // deadlock and time the test out).
    let fonts = FontResource::new_desktop();
    let first = fonts.read();
    let second = fonts.read();
    // Measurement-only queries go through the shared handle: both readers
    // see the same engine with the same loaded faces.
    assert_eq!(first.engine().db().len(), second.engine().db().len());
    assert!(first.engine().db().len() > 0);
    drop(first);
    drop(second);
}

#[test]
fn write_handle_is_exclusive_but_reusable() {
    let fonts = FontResource::new_desktop();
    let writer = fonts.write();
    drop(writer);
    let reader = fonts.read();
    drop(reader);
    let writer_again = fonts.write();
    drop(writer_again);
}

#[test]
fn cloned_handles_share_the_one_engine() {
    // A cloned handle reuses the engine instead of constructing a second
    // one; shaping works through both and yields the same measurement.
    let fonts = FontResource::new_desktop();
    let shared = fonts.clone();
    let a = TextData::new(
        &fonts,
        "Hello".to_string(),
        Color::black(),
        16,
        19,
        TextConstraint::unbounded(),
    );
    let b = TextData::new(
        &shared,
        "Hello".to_string(),
        Color::black(),
        16,
        19,
        TextConstraint::unbounded(),
    );
    assert_eq!(a.size, b.size);
    assert_eq!(a.line_widths, b.line_widths);
}

#[test]
fn embedded_policy_loads_a_font_directory_with_fallbacks() {
    let fonts = FontResource::new_embedded(
        "/usr/share/fonts",
        "DejaVu Sans",
        "DejaVu Serif",
        "DejaVu Sans Mono",
        "DejaVu Sans",
        "DejaVu Sans",
    );
    let data = TextData::new(
        &fonts,
        "Hello".to_string(),
        Color::black(),
        16,
        19,
        TextConstraint::unbounded(),
    );
    assert_eq!(data.line_widths.len(), 1);
    assert_eq!(data.size.height, 19);
}
