//! Rendering a whole frame: every cell of the grid, row by row.

use vstd::prelude::*;
use ratatui::text::{Line, Span, Text};
use crate::cell::{
    colorful_cell, gray_scale_cell, gray_scale_threshold_cell, half_block, half_block_cell,
    threshold_cell, RenderedCell, WHITE,
};
use crate::color::Pixel;
use crate::frame::{Frame, FrameView, PixelFormat};
use crate::mode::ImageConvertType;
use crate::text::{line_cells, line_from_spans, span_cell, styled_span, text_from_lines, text_rows};

verus! {

/// The number of rows of cells that a frame gives in a mode: one for each
/// row of pixels, or for each two in the half-block mode.
pub open spec fn grid_rows(frame: FrameView, mode: ImageConvertType) -> nat {
    if mode.is_half_block() {
        frame.rows / 2
    } else {
        frame.rows
    }
}

/// The number of columns of cells that a frame gives in a mode.
pub open spec fn grid_cols(frame: FrameView, mode: ImageConvertType) -> nat {
    if mode.is_half_block() {
        frame.cols / 2
    } else {
        frame.cols
    }
}

/// Whether a frame can be rendered in a mode: the colorful mode reads
/// colors, the three gray modes read intensities, and the half-block mode
/// takes any frame.
pub open spec fn spec_fits(frame: FrameView, mode: ImageConvertType) -> bool {
    match mode {
        ImageConvertType::ColorfulHalfBlock => true,
        ImageConvertType::Colorful => frame.format == PixelFormat::Color,
        ImageConvertType::GrayScale
        | ImageConvertType::GrayScaleThreshold
        | ImageConvertType::Threshold => frame.format == PixelFormat::Gray,
    }
}

/// The color that a sub-pixel read gives: the frame's color there, or white
/// where the frame holds no color at that position.
pub open spec fn subpixel(frame: FrameView, row: int, col: int) -> Pixel {
    match frame.color_at(row, col) {
        Some(color) => color,
        None => WHITE,
    }
}

/// The four sub-pixels of the block of cell (`y`, `x`): top left, top right,
/// bottom left, bottom right.
pub open spec fn block_at(frame: FrameView, y: int, x: int) -> [Pixel; 4] {
    [
        subpixel(frame, 2 * y, 2 * x),
        subpixel(frame, 2 * y, 2 * x + 1),
        subpixel(frame, 2 * y + 1, 2 * x),
        subpixel(frame, 2 * y + 1, 2 * x + 1),
    ]
}

/// The cell at row `y` and column `x` of the grid that a frame gives in a
/// mode.
pub open spec fn cell_at(frame: FrameView, mode: ImageConvertType, y: int, x: int) -> RenderedCell {
    match mode {
        ImageConvertType::ColorfulHalfBlock => half_block(block_at(frame, y, x)),
        ImageConvertType::Colorful => colorful_cell(frame.color_at(y, x).unwrap()),
        ImageConvertType::GrayScale => gray_scale_cell(frame.gray_at(y, x).unwrap()),
        ImageConvertType::GrayScaleThreshold => gray_scale_threshold_cell(
            frame.gray_at(y, x).unwrap(),
        ),
        ImageConvertType::Threshold => threshold_cell(frame.gray_at(y, x).unwrap()),
    }
}

/// Row `y` of the grid: its cells from left to right.
pub open spec fn rendered_row(frame: FrameView, mode: ImageConvertType, y: int) -> Seq<
    RenderedCell,
> {
    Seq::new(grid_cols(frame, mode), |x: int| cell_at(frame, mode, y, x))
}

/// The whole grid: its rows from top to bottom.
pub open spec fn rendered_rows(frame: FrameView, mode: ImageConvertType) -> Seq<Seq<RenderedCell>> {
    Seq::new(grid_rows(frame, mode), |y: int| rendered_row(frame, mode, y))
}

/// Tells whether a frame can be rendered in a mode.
pub fn fits(frame: &Frame, mode: ImageConvertType) -> (ok: bool)
    ensures
        ok == spec_fits(frame@, mode),
{
    match mode {
        ImageConvertType::ColorfulHalfBlock => true,
        ImageConvertType::Colorful => match frame.format() {
            PixelFormat::Color => true,
            PixelFormat::Gray => false,
        },
        _ => match frame.format() {
            PixelFormat::Gray => true,
            PixelFormat::Color => false,
        },
    }
}

fn read_subpixel(frame: &Frame, row: usize, col: usize) -> (color: Pixel)
    ensures
        color == subpixel(frame@, row as int, col as int),
{
    match frame.at_color(row, col) {
        Some(color) => color,
        None => WHITE,
    }
}

fn read_color(frame: &Frame, row: usize, col: usize) -> (color: Pixel)
    requires
        frame@.format == PixelFormat::Color,
        frame@.contains(row as int, col as int),
    ensures
        Some(color) == frame@.color_at(row as int, col as int),
{
    match frame.at_color(row, col) {
        Some(color) => color,
        None => WHITE,
    }
}

fn read_gray(frame: &Frame, row: usize, col: usize) -> (intensity: u8)
    requires
        frame@.format == PixelFormat::Gray,
        frame@.contains(row as int, col as int),
    ensures
        Some(intensity) == frame@.gray_at(row as int, col as int),
{
    match frame.at_gray(row, col) {
        Some(intensity) => intensity,
        None => 0,
    }
}

/// Renders the cell at row `y` and column `x` of the grid.
pub fn convert_cell(frame: &Frame, image_convert_type: ImageConvertType, y: usize, x: usize) -> (cell:
    RenderedCell)
    requires
        spec_fits(frame@, image_convert_type),
        y < grid_rows(frame@, image_convert_type),
        x < grid_cols(frame@, image_convert_type),
    ensures
        cell == cell_at(frame@, image_convert_type, y as int, x as int),
{
    match image_convert_type {
        ImageConvertType::ColorfulHalfBlock => {
            proof {
                frame.lemma_size_bounded();
            }
            let subpixels: [Pixel; 4] = [
                read_subpixel(frame, 2 * y, 2 * x),
                read_subpixel(frame, 2 * y, 2 * x + 1),
                read_subpixel(frame, 2 * y + 1, 2 * x),
                read_subpixel(frame, 2 * y + 1, 2 * x + 1),
            ];
            assert(subpixels == block_at(frame@, y as int, x as int));
            half_block_cell(&subpixels)
        },
        ImageConvertType::Colorful => colorful_cell(read_color(frame, y, x)),
        ImageConvertType::GrayScale => gray_scale_cell(read_gray(frame, y, x)),
        ImageConvertType::GrayScaleThreshold => gray_scale_threshold_cell(read_gray(frame, y, x)),
        ImageConvertType::Threshold => threshold_cell(read_gray(frame, y, x)),
    }
}

/// Converts a camera frame into styled text: one span for each cell of the
/// grid, one line for each of its rows.
pub fn convert_frame_into_ascii(frame: Frame, image_convert_type: ImageConvertType) -> (text: Text<
    'static,
>)
    requires
        spec_fits(frame@, image_convert_type),
    ensures
        text_rows(text) == rendered_rows(frame@, image_convert_type),
{
    let mut lines: Vec<Line<'static>> = Vec::new();
    let (width, height): (usize, usize) = if image_convert_type.is_half_block() {
        (frame.cols() / 2, frame.rows() / 2)
    } else {
        (frame.cols(), frame.rows())
    };
    let mut y: usize = 0;
    while y < height
        invariant
            spec_fits(frame@, image_convert_type),
            height == grid_rows(frame@, image_convert_type),
            width == grid_cols(frame@, image_convert_type),
            y <= height,
            lines@.len() == y,
            forall|r: int|
                0 <= r < y ==> line_cells(#[trigger] lines@[r]) == rendered_row(
                    frame@,
                    image_convert_type,
                    r,
                ),
        decreases height - y,
    {
        let mut spans: Vec<Span<'static>> = Vec::new();
        let mut x: usize = 0;
        while x < width
            invariant
                spec_fits(frame@, image_convert_type),
                height == grid_rows(frame@, image_convert_type),
                width == grid_cols(frame@, image_convert_type),
                y < height,
                x <= width,
                spans@.len() == x,
                forall|c: int|
                    0 <= c < x ==> span_cell(#[trigger] spans@[c]) == cell_at(
                        frame@,
                        image_convert_type,
                        y as int,
                        c,
                    ),
            decreases width - x,
        {
            let cell: RenderedCell = convert_cell(&frame, image_convert_type, y, x);
            spans.push(styled_span(&cell));
            x = x + 1;
        }
        let line: Line<'static> = line_from_spans(spans);
        assert(line_cells(line) =~= rendered_row(frame@, image_convert_type, y as int));
        lines.push(line);
        y = y + 1;
    }
    let text: Text<'static> = text_from_lines(lines);
    assert(text_rows(text) =~= rendered_rows(frame@, image_convert_type));
    text
}

} // verus!
