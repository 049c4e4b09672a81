//! Styled terminal text: the `ratatui` values that a rendered frame is made
//! of, and what each of them holds.
//!
//! The three types are declared here without their insides. What the
//! functions below state of `ratatui` is believed, not proved.

use vstd::prelude::*;
use ratatui::style::{Color, Style};
use ratatui::text::{Line, Span, Text};
use crate::cell::{CellColor, RenderedCell};

verus! {

/// `ratatui::text::Span`: a piece of text in one style.
#[verifier::external_type_specification]
#[verifier::external_body]
pub struct ExSpan<'a>(ratatui::text::Span<'a>);

/// `ratatui::text::Line`: the spans of one line.
#[verifier::external_type_specification]
#[verifier::external_body]
pub struct ExLine<'a>(ratatui::text::Line<'a>);

/// `ratatui::text::Text`: the lines of a text.
#[verifier::external_type_specification]
#[verifier::external_body]
pub struct ExText<'a>(ratatui::text::Text<'a>);

/// The cell that a span shows: its content as the glyph, the foreground and
/// the background of its style as the colors.
pub uninterp spec fn span_cell(span: Span<'static>) -> RenderedCell;

/// The cells of a line, one for each of its spans, from left to right.
pub uninterp spec fn line_cells(line: Line<'static>) -> Seq<RenderedCell>;

/// The rows of a text, one for each of its lines, from top to bottom.
pub uninterp spec fn text_rows(text: Text<'static>) -> Seq<Seq<RenderedCell>>;

/// Makes the span of one cell with `Span::from` on the glyph as a string and
/// `Span::style` on `Style::default().fg(..).bg(..)`. In `ratatui` the first
/// stores the string as the span's content and the other calls store the
/// two colors in its style, so the span shows exactly the cell.
#[verifier::external_body]
pub(crate) fn styled_span(cell: &RenderedCell) -> (span: Span<'static>)
    ensures
        span_cell(span) == *cell,
{
    let fg = match cell.fg {
        CellColor::Reset => Color::Reset,
        CellColor::Rgb(r, g, b) => Color::Rgb(r, g, b),
    };
    let bg = match cell.bg {
        CellColor::Reset => Color::Reset,
        CellColor::Rgb(r, g, b) => Color::Rgb(r, g, b),
    };
    Span::from(cell.glyph.to_string()).style(Style::default().fg(fg).bg(bg))
}

/// Makes a line with `Line::from` on a vector of spans. In `ratatui` the
/// vector becomes the line's spans as it is, so the line holds the cells of
/// the spans in their order.
#[verifier::external_body]
pub(crate) fn line_from_spans(spans: Vec<Span<'static>>) -> (line: Line<'static>)
    ensures
        line_cells(line) == spans@.map_values(|span: Span<'static>| span_cell(span)),
{
    Line::from(spans)
}

/// Makes a text with `Text::from` on a vector of lines. In `ratatui` the
/// vector becomes the text's lines as it is, so the text holds the rows of
/// the lines in their order.
#[verifier::external_body]
pub(crate) fn text_from_lines(lines: Vec<Line<'static>>) -> (text: Text<'static>)
    ensures
        text_rows(text) == lines@.map_values(|line: Line<'static>| line_cells(line)),
{
    Text::from(lines)
}

/// Makes the text of `Text::default`, which in `ratatui` has no lines.
#[verifier::external_body]
pub(crate) fn empty_text() -> (text: Text<'static>)
    ensures
        text_rows(text) == Seq::<Seq<RenderedCell>>::empty(),
{
    Text::default()
}

} // verus!
