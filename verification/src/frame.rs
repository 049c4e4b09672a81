//! A captured frame: a grid of pixels held as plain bytes, row after row.

use vstd::prelude::*;
use crate::color::Pixel;

verus! {

/// How the bytes of a frame make up its pixels.
#[derive(Clone, Copy, Debug, PartialEq, Eq, Structural)]
pub enum PixelFormat {
    /// One byte per pixel: its intensity.
    Gray,
    /// Three bytes per pixel: blue, green, red.
    Color,
}

impl PixelFormat {
    /// The number of bytes that one pixel takes.
    pub open spec fn spec_channels(self) -> usize {
        match self {
            PixelFormat::Gray => 1,
            PixelFormat::Color => 3,
        }
    }

    /// The number of bytes that one pixel takes.
    #[verifier::when_used_as_spec(spec_channels)]
    pub fn channels(self) -> (n: usize)
        ensures
            n == self.spec_channels(),
    {
        match self {
            PixelFormat::Gray => 1,
            PixelFormat::Color => 3,
        }
    }
}

/// What a frame holds, as mathematical values.
pub struct FrameView {
    pub rows: nat,
    pub cols: nat,
    pub format: PixelFormat,
    pub data: Seq<u8>,
}

impl FrameView {
    /// The bytes are exactly those of `rows * cols` pixels.
    pub open spec fn well_formed(self) -> bool {
        self.data.len() == self.rows * self.cols * self.format.channels()
    }

    /// The position lies inside the grid.
    pub open spec fn contains(self, row: int, col: int) -> bool {
        0 <= row < self.rows && 0 <= col < self.cols
    }

    /// The intensity at a position of a `Gray` frame; `None` outside the grid
    /// and in a frame of another format.
    pub open spec fn gray_at(self, row: int, col: int) -> Option<u8> {
        if self.format == PixelFormat::Gray && self.contains(row, col) {
            Some(self.data[row * self.cols + col])
        } else {
            None
        }
    }

    /// The color at a position of a `Color` frame, channels in the order of the
    /// bytes; `None` outside the grid and in a frame of another format.
    pub open spec fn color_at(self, row: int, col: int) -> Option<Pixel> {
        if self.format == PixelFormat::Color && self.contains(row, col) {
            let at = (row * self.cols + col) * 3;
            Some([self.data[at], self.data[at + 1], self.data[at + 2]])
        } else {
            None
        }
    }
}

/// A grid of pixels in row-major order. Every frame is well formed: it holds
/// as many bytes as its size and format ask for.
pub struct Frame {
    rows: usize,
    cols: usize,
    format: PixelFormat,
    data: Vec<u8>,
}

/// In a well-formed grid the bytes of every pixel inside it are there.
pub proof fn lemma_pixel_offset(rows: nat, cols: nat, channels: nat, row: int, col: int)
    requires
        0 <= row < rows,
        0 <= col < cols,
        channels > 0,
    ensures
        0 <= row * cols,
        0 <= row * cols + col < rows * cols,
        0 <= (row * cols + col) * channels,
        (row * cols + col) * channels + channels <= rows * cols * channels,
{
    assert(0 <= row * cols && row * cols + cols <= rows * cols) by (nonlinear_arith)
        requires
            0 <= row < rows,
            0 <= cols,
    ;
    let at = row * cols + col;
    let cells = rows * cols;
    assert(0 <= at * channels && (at + 1) * channels <= cells * channels && (at + 1) * channels
        == at * channels + channels) by (nonlinear_arith)
        requires
            0 <= at < cells,
            channels > 0,
    ;
}

impl View for Frame {
    type V = FrameView;

    closed spec fn view(&self) -> FrameView {
        FrameView {
            rows: self.rows as nat,
            cols: self.cols as nat,
            format: self.format,
            data: self.data@,
        }
    }
}

impl Frame {
    #[verifier::type_invariant]
    spec fn inv(self) -> bool {
        self@.well_formed()
    }

    /// Makes a frame of `rows` by `cols` pixels from their bytes, or `None`
    /// where `data` does not hold exactly the bytes of that many pixels.
    pub fn new(rows: usize, cols: usize, format: PixelFormat, data: Vec<u8>) -> (frame: Option<
        Frame,
    >)
        ensures
            frame is Some <==> data@.len() == rows * cols * format.channels(),
            frame matches Some(f) ==> f@ == (FrameView {
                rows: rows as nat,
                cols: cols as nat,
                format,
                data: data@,
            }) && f@.well_formed(),
    {
        let channels: usize = format.channels();
        let len: usize = data.len();
        let cells: usize = match rows.checked_mul(cols) {
            Some(cells) => cells,
            None => {
                assert(rows * cols * format.channels() >= rows * cols) by (nonlinear_arith)
                    requires
                        format.channels() >= 1,
                        rows * cols > usize::MAX,
                ;
                return None;
            },
        };
        let total: usize = match cells.checked_mul(channels) {
            Some(total) => total,
            None => {
                assert(rows * cols * format.channels() == cells * channels);
                return None;
            },
        };
        assert(rows * cols * format.channels() == total);
        if total == len {
            Some(Frame { rows, cols, format, data })
        } else {
            None
        }
    }

    /// The numbers of rows and of columns fit the machine's integers.
    pub proof fn lemma_size_bounded(self)
        ensures
            self@.rows <= usize::MAX,
            self@.cols <= usize::MAX,
    {
    }

    /// The number of rows.
    pub fn rows(&self) -> (n: usize)
        ensures
            n == self@.rows,
    {
        self.rows
    }

    /// The number of columns.
    pub fn cols(&self) -> (n: usize)
        ensures
            n == self@.cols,
    {
        self.cols
    }

    /// The format of the pixels.
    pub fn format(&self) -> (format: PixelFormat)
        ensures
            format == self@.format,
    {
        self.format
    }

    /// Reads the intensity at a position of a `Gray` frame.
    pub fn at_gray(&self, row: usize, col: usize) -> (intensity: Option<u8>)
        ensures
            intensity == self@.gray_at(row as int, col as int),
    {
        match self.format {
            PixelFormat::Gray => {
                if row < self.rows && col < self.cols {
                    proof {
                        use_type_invariant(self);
                        assert(self.data.len() == self.data@.len());
                        lemma_pixel_offset(
                            self.rows as nat,
                            self.cols as nat,
                            1,
                            row as int,
                            col as int,
                        );
                    }
                    Some(self.data[row * self.cols + col])
                } else {
                    None
                }
            },
            PixelFormat::Color => None,
        }
    }

    /// Reads the color at a position of a `Color` frame.
    pub fn at_color(&self, row: usize, col: usize) -> (color: Option<Pixel>)
        ensures
            color == self@.color_at(row as int, col as int),
    {
        match self.format {
            PixelFormat::Color => {
                if row < self.rows && col < self.cols {
                    proof {
                        use_type_invariant(self);
                        assert(self.data.len() == self.data@.len());
                        lemma_pixel_offset(
                            self.rows as nat,
                            self.cols as nat,
                            3,
                            row as int,
                            col as int,
                        );
                    }
                    let at: usize = (row * self.cols + col) * 3;
                    Some([self.data[at], self.data[at + 1], self.data[at + 2]])
                } else {
                    None
                }
            },
            PixelFormat::Gray => None,
        }
    }
}

} // verus!
