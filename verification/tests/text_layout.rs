use tessera_render::font::FontResource;
use tessera_render::pixel::{Color, PxPosition, PxRect, PxSize};
use tessera_render::text::{measure_lines, TextConstraint, TextData};

#[test]
fn measure_takes_maximum_line_width() {
    let size = measure_lines(&vec![10, 30, 20], 19);
    assert_eq!(size, PxSize::new(30, 57));
}

#[test]
fn measure_of_no_lines_is_one_line_high_and_zero_wide() {
    let size = measure_lines(&vec![], 19);
    assert_eq!(size, PxSize::new(0, 19));
}

#[test]
fn measure_height_is_line_count_times_line_height() {
    for lines in 1..6usize {
        let widths = vec![7u32; lines];
        let size = measure_lines(&widths, 21);
        assert_eq!(size.height, lines as u32 * 21);
    }
}

#[test]
fn measure_height_saturates_at_the_pixel_range() {
    let size = measure_lines(&vec![1, 2], u32::MAX);
    assert_eq!(size.height, u32::MAX);
}

#[test]
fn hello_shapes_to_one_line() {
    // Font size 16 with a line height of 1.2 times that: 19 device pixels.
    let fonts = FontResource::new_desktop();
    let data = TextData::new(
        &fonts,
        "Hello".to_string(),
        Color::black(),
        16,
        19,
        TextConstraint::unbounded(),
    );
    assert_eq!(data.line_widths.len(), 1);
    assert_eq!(data.size.height, 19);
    assert!(data.size.width > 0);
}

#[test]
fn zero_length_text_is_one_line_high_and_zero_wide() {
    let fonts = FontResource::new_desktop();
    let data = TextData::new(
        &fonts,
        String::new(),
        Color::black(),
        16,
        19,
        TextConstraint::unbounded(),
    );
    assert_eq!(data.size.height, 19);
    assert_eq!(data.size.width, 0);
}

#[test]
fn narrow_max_width_forces_wrapping() {
    let fonts = FontResource::new_desktop();
    let constraint = TextConstraint { max_width: Some(40), max_height: None };
    let data = TextData::new(
        &fonts,
        "abcdefghijklmnopqrstuvwxyz".to_string(),
        Color::rgba(10, 20, 30, 255),
        16,
        19,
        constraint,
    );
    // The text cannot fit 40 pixels, so it wraps onto several lines; the
    // measured width stays within the bound and the height scales linearly
    // with the number of wrapped lines.
    assert!(data.line_widths.len() > 1);
    assert!(data.size.width <= 40);
    for w in &data.line_widths {
        assert!(*w <= 40);
    }
    assert_eq!(data.size.height, data.line_widths.len() as u32 * 19);
}

#[test]
fn wider_constraint_needs_no_more_lines() {
    let fonts = FontResource::new_desktop();
    let narrow = TextData::new(
        &fonts,
        "wrap me around".to_string(),
        Color::black(),
        16,
        19,
        TextConstraint { max_width: Some(30), max_height: None },
    );
    let wide = TextData::new(
        &fonts,
        "wrap me around".to_string(),
        Color::black(),
        16,
        19,
        TextConstraint { max_width: Some(3000), max_height: None },
    );
    assert!(wide.line_widths.len() <= narrow.line_widths.len());
    assert!(wide.size.height <= narrow.size.height);
}

#[test]
fn from_buffer_measures_an_existing_buffer() {
    let mut font_system = glyphon::FontSystem::new();
    let mut buffer = glyphon::Buffer::new(&mut font_system, glyphon::Metrics::new(16.0, 19.0));
    buffer.set_text("Hi", &glyphon::Attrs::new(), glyphon::Shaping::Advanced, None);
    buffer.shape_until_scroll(&mut font_system, false);

    let data = TextData::from_buffer(buffer);
    assert_eq!(data.line_height, 19);
    assert_eq!(data.line_widths.len(), 1);
    assert_eq!(data.size.height, 19);
}

#[test]
fn text_bounds_anchor_the_measured_size_at_the_position() {
    let data = TextData {
        text_buffer: glyphon::Buffer::new_empty(glyphon::Metrics::new(16.0, 19.0)),
        line_widths: vec![30, 10],
        line_height: 19,
        size: PxSize::new(30, 38),
    };
    let bounds = data.text_bounds(PxPosition::new(5, 6));
    assert_eq!(bounds, PxRect { left: 5, top: 6, right: 35, bottom: 44 });
}

#[test]
fn text_bounds_saturate_at_the_coordinate_range() {
    let data = TextData {
        text_buffer: glyphon::Buffer::new_empty(glyphon::Metrics::new(16.0, 19.0)),
        line_widths: vec![100],
        line_height: 19,
        size: PxSize::new(100, 19),
    };
    let bounds = data.text_bounds(PxPosition::new(i32::MAX - 10, i32::MAX - 10));
    assert_eq!(bounds.right, i32::MAX);
    assert_eq!(bounds.bottom, i32::MAX);
}
