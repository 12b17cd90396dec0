//! The text layout engine and its artifact.
//!
//! `TextData` is the immutable shaped-and-measured text block: the shaping
//! engine's buffer plus the measured size in device pixels. Shaping itself is
//! delegated to the engine; the artifact records the width of every laid-out
//! line, and its measured size is proved against those widths: the width is
//! the maximum line width, the height is the line count times the metric
//! line height (zero-length text measures as one line).

use vstd::prelude::*;
use crate::font::{FontResource, FontWriteGuard};
use crate::pixel::{Color, PxPosition, PxRect, PxSize};

verus! {

#[verifier::external_type_specification]
#[verifier::external_body]
pub struct ExBuffer(glyphon::Buffer);

/// The width, in whole device pixels, of each layout run a buffer stores, in
/// layout order. A name for what the engine's buffer holds: the stored
/// layout is a function of the buffer value alone, and the wrappers below
/// say how each call reads or preserves it.
pub uninterp spec fn stored_run_widths(buffer: glyphon::Buffer) -> Seq<u32>;

/// The metric line height a buffer stores, in whole device pixels. Only a
/// change of metrics alters it; the wrappers below preserve it.
pub uninterp spec fn stored_line_height(buffer: glyphon::Buffer) -> u32;

/// The text content a buffer stores.
pub uninterp spec fn stored_text(buffer: glyphon::Buffer) -> Seq<char>;

/// Whether the buffer wraps at glyph granularity.
pub uninterp spec fn stored_wrap_is_glyph(buffer: glyphon::Buffer) -> bool;

/// The stored wrap-width limit in whole device pixels; `None` is unbounded.
pub uninterp spec fn stored_width_limit(buffer: glyphon::Buffer) -> Option<u32>;

/// The stored height limit in whole device pixels; `None` is unbounded.
pub uninterp spec fn stored_height_limit(buffer: glyphon::Buffer) -> Option<u32>;

/// The RGBA color the buffer's default text attributes carry.
pub uninterp spec fn stored_default_color(buffer: glyphon::Buffer) -> (u8, u8, u8, u8);

/// Whether the buffer's content was shaped with full Unicode support.
pub uninterp spec fn stored_shaping_is_advanced(buffer: glyphon::Buffer) -> bool;

/// The wrap limit a constraint axis imposes, as the engine stores it: the
/// whole-pixel bound, or `None` for an unbounded axis.
pub open spec fn spec_limit(limit: Option<u16>) -> Option<u32> {
    match limit {
        Some(v) => Some(v as u32),
        None => None,
    }
}

/// The wrap constraint handed to the layout engine, in device pixels.
/// `None` leaves the corresponding axis unbounded.
#[derive(Clone, Copy, Debug, PartialEq, Eq, Structural)]
pub struct TextConstraint {
    pub max_width: Option<u16>,
    pub max_height: Option<u16>,
}

impl TextConstraint {
    /// No bound on either axis: text lays out on as many unwrapped lines as
    /// it has paragraphs.
    pub fn unbounded() -> (c: TextConstraint)
        ensures
            c.max_width is None && c.max_height is None,
    {
        TextConstraint { max_width: None, max_height: None }
    }
}

/// The maximum width over a sequence of line widths; 0 when there is none.
pub open spec fn spec_max_line_width(ws: Seq<u32>) -> int
    decreases ws.len(),
{
    if ws.len() == 0 {
        0
    } else {
        let rest = spec_max_line_width(ws.drop_last());
        if ws.last() as int > rest {
            ws.last() as int
        } else {
            rest
        }
    }
}

/// Zero laid-out lines still occupy one line of height.
pub open spec fn spec_line_count(lines: nat) -> nat {
    if lines == 0 {
        1
    } else {
        lines
    }
}

/// The measured height: line count times the metric line height, saturated
/// at the pixel range.
pub open spec fn spec_measured_height(lines: nat, line_height: u32) -> int {
    let h = spec_line_count(lines) * line_height;
    if h > u32::MAX {
        u32::MAX as int
    } else {
        h as int
    }
}

/// Adding an extent to a coordinate, saturated at the coordinate range.
pub open spec fn spec_clamped_add(base: int, extent: int) -> int {
    if base + extent > i32::MAX {
        i32::MAX as int
    } else {
        base + extent
    }
}

/// Measures a shaped block from its per-line widths: the width is the
/// maximum line width, the height is the line count (at least one) times the
/// metric line height.
pub fn measure_lines(line_widths: &Vec<u32>, line_height: u32) -> (s: PxSize)
    ensures
        s.width == spec_max_line_width(line_widths@),
        s.height == spec_measured_height(line_widths@.len(), line_height),
{
    let n = line_widths.len();
    let mut width: u32 = 0;
    let mut i: usize = 0;
    while i < n
        invariant
            i <= n,
            n == line_widths@.len(),
            width == spec_max_line_width(line_widths@.take(i as int)),
        decreases n - i,
    {
        let w = line_widths[i];
        proof {
            let s1 = line_widths@.take(i as int + 1);
            assert(s1.drop_last() =~= line_widths@.take(i as int));
            assert(s1.last() == line_widths@[i as int]);
        }
        if w > width {
            width = w;
        }
        i += 1;
    }
    proof {
        assert(line_widths@.take(n as int) =~= line_widths@);
    }
    let lines: u128 = if n == 0 {
        1
    } else {
        n as u128
    };
    proof {
        assert(lines <= u64::MAX as u128);
        assert(lines * (line_height as u128) <= u128::MAX) by (nonlinear_arith)
            requires
                lines <= u64::MAX as u128,
                line_height as u128 <= u32::MAX as u128,
        ;
    }
    let product: u128 = lines * (line_height as u128);
    let height: u32 = if product > u32::MAX as u128 {
        u32::MAX
    } else {
        product as u32
    };
    PxSize { width, height }
}

/// Relies on glyphon::Buffer::new: allocates an empty buffer whose stored
/// metric line height is the given whole-pixel value (a `u16` is exact in
/// the engine's binary metric, so truncation gives it back). The caller
/// holds the exclusive engine handle. Buffer::new panics when the line
/// height is zero, so that input is excluded.
#[verifier::external_body]
fn buffer_new(engine: &mut FontWriteGuard<'_>, font_size: u16, line_height: u16) -> (b:
    glyphon::Buffer)
    requires
        line_height > 0,
    ensures
        stored_line_height(b) == line_height as u32,
{
    glyphon::Buffer::new(
        &mut engine.guard,
        glyphon::Metrics::new(font_size.into(), line_height.into()),
    )
}

/// Relies on glyphon::Buffer::set_wrap: makes the buffer wrap at glyph
/// granularity, not word granularity. It sets only the wrap policy: the
/// stored metrics, content, limits and attributes stay as they were.
#[verifier::external_body]
fn buffer_set_wrap_glyph(buffer: &mut glyphon::Buffer)
    ensures
        stored_wrap_is_glyph(*final(buffer)),
        stored_line_height(*final(buffer)) == stored_line_height(*old(buffer)),
{
    buffer.set_wrap(glyphon::Wrap::Glyph)
}

/// Relies on glyphon::Buffer::set_size: stores the wrap constraint exactly
/// (a non-negative whole-pixel bound passes its clamp unchanged); `None`
/// leaves an axis unbounded. It sets only the two limits: the stored wrap
/// policy and metrics stay as they were.
#[verifier::external_body]
fn buffer_set_size(buffer: &mut glyphon::Buffer, max_width: Option<u16>, max_height: Option<u16>)
    ensures
        stored_width_limit(*final(buffer)) == spec_limit(max_width),
        stored_height_limit(*final(buffer)) == spec_limit(max_height),
        stored_wrap_is_glyph(*final(buffer)) == stored_wrap_is_glyph(*old(buffer)),
        stored_line_height(*final(buffer)) == stored_line_height(*old(buffer)),
{
    buffer.set_size(max_width.map(|w| w.into()), max_height.map(|h| h.into()))
}

/// Relies on glyphon::Buffer::set_text: replaces the buffer's content with
/// exactly the given text, under default sans-serif attributes carrying the
/// given color, marked for shaping with full Unicode support. It replaces
/// only the content and its attributes: the stored wrap policy, limits and
/// metrics stay as they were.
#[verifier::external_body]
fn buffer_set_text(buffer: &mut glyphon::Buffer, text: &str, color: Color)
    ensures
        stored_text(*final(buffer)) == text@,
        stored_default_color(*final(buffer)) == (color.r, color.g, color.b, color.a),
        stored_shaping_is_advanced(*final(buffer)),
        stored_wrap_is_glyph(*final(buffer)) == stored_wrap_is_glyph(*old(buffer)),
        stored_width_limit(*final(buffer)) == stored_width_limit(*old(buffer)),
        stored_height_limit(*final(buffer)) == stored_height_limit(*old(buffer)),
        stored_line_height(*final(buffer)) == stored_line_height(*old(buffer)),
{
    buffer.set_text(
        text,
        &glyphon::Attrs::new().family(glyphon::Family::SansSerif).color(
            glyphon::Color::rgba(color.r, color.g, color.b, color.a),
        ),
        glyphon::Shaping::Advanced,
        None,
    )
}

/// Relies on glyphon::Buffer::shape_until_scroll: shapes every line up to
/// the constraint, without pruning, under the exclusive engine handle the
/// caller holds. Which layout runs come out depends on the fonts installed
/// on the machine, so nothing is stated of the stored widths; the stored
/// content, wrap policy, limits, attributes and metrics it never touches.
#[verifier::external_body]
fn buffer_shape(engine: &mut FontWriteGuard<'_>, buffer: &mut glyphon::Buffer)
    ensures
        stored_text(*final(buffer)) == stored_text(*old(buffer)),
        stored_default_color(*final(buffer)) == stored_default_color(*old(buffer)),
        stored_shaping_is_advanced(*final(buffer)) == stored_shaping_is_advanced(*old(buffer)),
        stored_wrap_is_glyph(*final(buffer)) == stored_wrap_is_glyph(*old(buffer)),
        stored_width_limit(*final(buffer)) == stored_width_limit(*old(buffer)),
        stored_height_limit(*final(buffer)) == stored_height_limit(*old(buffer)),
        stored_line_height(*final(buffer)) == stored_line_height(*old(buffer)),
{
    buffer.shape_until_scroll(&mut engine.guard, false)
}

/// Relies on glyphon::Buffer::layout_runs: hands out the stored width of
/// each laid-out line, in layout order, truncated to whole device pixels —
/// a read of the buffer's stored layout, a function of the buffer value
/// alone.
#[verifier::external_body]
fn buffer_line_widths(buffer: &glyphon::Buffer) -> (r: Vec<u32>)
    ensures
        r@ == stored_run_widths(*buffer),
{
    buffer.layout_runs().map(|run| run.line_w as u32).collect()
}

/// Relies on glyphon::Buffer::metrics: the stored metric line height,
/// truncated to whole device pixels — a read of the buffer value alone.
#[verifier::external_body]
fn buffer_metrics_line_height(buffer: &glyphon::Buffer) -> (r: u32)
    ensures
        r == stored_line_height(*buffer),
{
    buffer.metrics().line_height as u32
}

/// A shaped, wrapped, measured text block. Immutable after construction: a
/// change of text, color, font size, line height or wrap constraint takes a
/// reconstruction.
pub struct TextData {
    /// The engine's shaped buffer, consumed by the renderer that encodes
    /// this artifact.
    pub text_buffer: glyphon::Buffer,
    /// Width in device pixels of each laid-out line, in layout order.
    pub line_widths: Vec<u32>,
    /// The metric line height in device pixels.
    pub line_height: u32,
    /// The measured size this artifact requests from the layout system.
    pub size: PxSize,
}

impl TextData {
    /// The measured size agrees with the recorded lines: width is the
    /// maximum line width, height is the line count times the line height.
    pub open spec fn wf(self) -> bool {
        &&& self.size.width == spec_max_line_width(self.line_widths@)
        &&& self.size.height == spec_measured_height(self.line_widths@.len(), self.line_height)
    }

    /// Shapes and measures `text` under the given constraint, holding one
    /// exclusive engine handle for the full sequence: allocate a buffer at
    /// the metrics, wrap at glyph granularity, bound it by the constraint,
    /// set the text with sans-serif fallback and the requested color, shape
    /// all lines, then measure. The returned buffer stores exactly the given
    /// text, wrap policy, limits, color and metric, and the recorded lines
    /// are exactly its stored layout. Metrics are whole device pixels: a
    /// fractional metric the engine could carry is not representable here,
    /// so a measured height is an exact multiple of the given line height.
    /// The engine rejects a zero line height.
    pub fn new(
        fonts: &FontResource,
        text: String,
        color: Color,
        font_size: u16,
        line_height: u16,
        constraint: TextConstraint,
    ) -> (r: TextData)
        requires
            line_height > 0,
        ensures
            r.wf(),
            r.line_height == line_height as u32,
            r.line_widths@ == stored_run_widths(r.text_buffer),
            r.line_height == stored_line_height(r.text_buffer),
            stored_text(r.text_buffer) == text@,
            stored_wrap_is_glyph(r.text_buffer),
            stored_width_limit(r.text_buffer) == spec_limit(constraint.max_width),
            stored_height_limit(r.text_buffer) == spec_limit(constraint.max_height),
            stored_default_color(r.text_buffer) == (color.r, color.g, color.b, color.a),
            stored_shaping_is_advanced(r.text_buffer),
    {
        let mut engine = fonts.write();
        let mut buffer = buffer_new(&mut engine, font_size, line_height);
        buffer_set_wrap_glyph(&mut buffer);
        buffer_set_size(&mut buffer, constraint.max_width, constraint.max_height);
        buffer_set_text(&mut buffer, text.as_str(), color);
        buffer_shape(&mut engine, &mut buffer);
        let line_widths = buffer_line_widths(&buffer);
        let size = measure_lines(&line_widths, line_height as u32);
        TextData { text_buffer: buffer, line_widths, line_height: line_height as u32, size }
    }

    /// Builds an artifact from a pre-existing shaped buffer (the editable
    /// text case, where an external editor mutates the buffer): performs
    /// only the measurement step, not a fresh shape. The artifact keeps the
    /// buffer and records exactly its stored layout: the run widths, the
    /// stored metric line height, and the size measured from them.
    pub fn from_buffer(text_buffer: glyphon::Buffer) -> (r: TextData)
        ensures
            r.wf(),
            r.text_buffer == text_buffer,
            r.line_widths@ == stored_run_widths(text_buffer),
            r.line_height == stored_line_height(text_buffer),
    {
        let line_widths = buffer_line_widths(&text_buffer);
        let line_height = buffer_metrics_line_height(&text_buffer);
        let size = measure_lines(&line_widths, line_height);
        TextData { text_buffer, line_widths, line_height, size }
    }

    /// The clip rectangle of this artifact placed at `start_pos`: its
    /// measured size anchored at the top-left corner, saturated at the
    /// coordinate range.
    pub fn text_bounds(&self, start_pos: PxPosition) -> (b: PxRect)
        ensures
            b.left == start_pos.x,
            b.top == start_pos.y,
            b.right == spec_clamped_add(start_pos.x as int, self.size.width as int),
            b.bottom == spec_clamped_add(start_pos.y as int, self.size.height as int),
    {
        let right64: i64 = start_pos.x as i64 + self.size.width as i64;
        let bottom64: i64 = start_pos.y as i64 + self.size.height as i64;
        let right: i32 = if right64 > i32::MAX as i64 {
            i32::MAX
        } else {
            right64 as i32
        };
        let bottom: i32 = if bottom64 > i32::MAX as i64 {
            i32::MAX
        } else {
            bottom64 as i32
        };
        PxRect { left: start_pos.x, top: start_pos.y, right, bottom }
    }
}

/// The payload of one text draw command: the pre-built artifact, produced
/// during composition and only consumed inside the text draw pipeline.
pub struct TextCommand {
    pub data: TextData,
}

/// Law: if every wrapped line obeys a width bound, the maximum line width
/// obeys it too.
pub proof fn lemma_width_bounded(ws: Seq<u32>, max: u32)
    requires
        forall|i: int| 0 <= i < ws.len() ==> ws[i] <= max,
    ensures
        spec_max_line_width(ws) <= max,
    decreases ws.len(),
{
    if ws.len() > 0 {
        assert(forall|i: int| 0 <= i < ws.drop_last().len() ==> ws.drop_last()[i] <= max);
        lemma_width_bounded(ws.drop_last(), max);
        assert(ws.last() == ws[ws.len() - 1]);
    }
}

/// Law: an artifact whose wrapped lines all lie within a finite max-width
/// bound never measures wider than that bound.
pub proof fn lemma_artifact_width_bounded(d: TextData, max: u32)
    requires
        d.wf(),
        forall|i: int| 0 <= i < d.line_widths@.len() ==> d.line_widths@[i] <= max,
    ensures
        d.size.width <= max,
{
    lemma_width_bounded(d.line_widths@, max);
}

/// Law: an artifact whose laid-out lines were limited by a finite max-height
/// bound — the line count times the line-height metric stays within it —
/// never measures taller than that bound.
pub proof fn lemma_artifact_height_bounded(d: TextData, max: u32)
    requires
        d.wf(),
        spec_line_count(d.line_widths@.len()) * d.line_height <= max,
    ensures
        d.size.height <= max,
{
}

/// Law: the measured height is exactly the line count times the line-height
/// metric whenever that product fits the pixel range, and zero lines measure
/// as one line.
pub proof fn lemma_height_exact(lines: nat, line_height: u32)
    requires
        spec_line_count(lines) * line_height <= u32::MAX,
    ensures
        spec_measured_height(lines, line_height) == spec_line_count(lines) * line_height,
{
}

/// Law: under one line-height metric the measured height scales linearly
/// with the number of wrapped lines: one more line adds exactly one line
/// height, while the product fits the pixel range.
pub proof fn lemma_height_linear(lines: nat, line_height: u32)
    requires
        lines >= 1,
        (lines + 1) * line_height <= u32::MAX,
    ensures
        spec_measured_height(lines + 1, line_height) == spec_measured_height(lines, line_height)
            + line_height,
{
    assert((lines + 1) * line_height == lines * line_height + line_height) by (nonlinear_arith);
    assert(lines * line_height <= (lines + 1) * line_height) by (nonlinear_arith);
}

} // verus!
