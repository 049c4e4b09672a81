//! Plain ASCII art: a frame of intensities as lines of characters, and the
//! events of an application that shows such frames.

use vstd::prelude::*;
use vstd::string::StringExecFns;
use crate::cell::{ramp_level, spec_ramp_level};
use crate::event_handler::{Input, KeyPress};
use crate::frame::{Frame, FrameView, PixelFormat};

verus! {

/// The characters of the ASCII ramp, from the darkest to the lightest.
pub const ASCII_RAMP: [char; 10] = ['@', '%', '#', '*', '+', '=', '-', ':', '.', ' '];

/// The width and the height of the frames that are shown as ASCII art.
pub const ASCII_FRAME_SIZE: (i32, i32) = (80, 40);

/// The time between two such frames, in milliseconds.
pub const ASCII_FRAME_MILLIS: u64 = 300;

/// The character that an intensity is shown as.
pub open spec fn spec_ascii_char(intensity: u8) -> char {
    ASCII_RAMP[spec_ramp_level(intensity, 10)]
}

/// Finds the character that an intensity is shown as.
#[verifier::when_used_as_spec(spec_ascii_char)]
pub fn ascii_char(intensity: u8) -> (c: char)
    ensures
        c == spec_ascii_char(intensity),
{
    let level: u8 = ramp_level(intensity, 10);
    ASCII_RAMP[level as usize]
}

/// The first `n` characters of row `y`.
pub open spec fn ascii_row(frame: FrameView, y: int, n: nat) -> Seq<char> {
    Seq::new(n, |x: int| ascii_char(frame.gray_at(y, x).unwrap()))
}

/// The art of the first `n` rows: each row's characters, then a newline.
pub open spec fn ascii_art(frame: FrameView, n: nat) -> Seq<char>
    decreases n,
{
    if n == 0 {
        Seq::empty()
    } else {
        ascii_art(frame, (n - 1) as nat) + ascii_row(frame, n - 1, frame.cols).push('\n')
    }
}

/// Appends one character with `String::push`, which std documents to append
/// the given character to the end of the string.
#[verifier::external_body]
fn push_char(text: &mut String, c: char)
    ensures
        final(text)@ == old(text)@.push(c),
{
    text.push(c);
}

/// Shows a frame of intensities as ASCII art: one character for each pixel,
/// one line for each row.
pub fn image_to_ascii(frame: &Frame) -> (result: String)
    requires
        frame@.format == PixelFormat::Gray,
    ensures
        result@ == ascii_art(frame@, frame@.rows),
{
    let mut result = String::new();
    let rows: usize = frame.rows();
    let cols: usize = frame.cols();
    let mut y: usize = 0;
    while y < rows
        invariant
            frame@.format == PixelFormat::Gray,
            rows == frame@.rows,
            cols == frame@.cols,
            y <= rows,
            result@ == ascii_art(frame@, y as nat),
        decreases rows - y,
    {
        let ghost before = result@;
        let mut x: usize = 0;
        while x < cols
            invariant
                frame@.format == PixelFormat::Gray,
                rows == frame@.rows,
                cols == frame@.cols,
                y < rows,
                x <= cols,
                result@ == before + ascii_row(frame@, y as int, x as nat),
            decreases cols - x,
        {
            let intensity: u8 = match frame.at_gray(y, x) {
                Some(intensity) => intensity,
                None => 0,
            };
            push_char(&mut result, ascii_char(intensity));
            assert(ascii_row(frame@, y as int, (x + 1) as nat) =~= ascii_row(
                frame@,
                y as int,
                x as nat,
            ).push(ascii_char(intensity)));
            x = x + 1;
        }
        proof {
            reveal_strlit("\n");
        }
        result.append("\n");
        assert(result@ =~= ascii_art(frame@, (y + 1) as nat)) by {
            assert("\n"@ =~= seq!['\n']);
        }
        y = y + 1;
    }
    result
}

/// One event of an application that shows ASCII art and reads keys.
pub enum FrameEvent {
    /// A frame, as ASCII art.
    Frame(String),
    /// A key press.
    Event(KeyPress),
}

impl FrameEvent {
    /// The event that an input is published as: a key press is passed on,
    /// and nothing else is published.
    pub fn from_input(input: Input) -> (event: Option<FrameEvent>)
        ensures
            match input {
                Input::Key(key) => event == Some(FrameEvent::Event(key)),
                _ => event is None,
            },
    {
        match input {
            Input::Key(key) => Some(FrameEvent::Event(key)),
            _ => None,
        }
    }

    /// Reads a received frame into the buffer: the art of a frame is
    /// appended to it, and anything else leaves it as it is.
    pub fn read_frame(received: Option<FrameEvent>, buffer: &mut String)
        ensures
            match received {
                Some(FrameEvent::Frame(frame_ascii)) => final(buffer)@ == old(buffer)@
                    + frame_ascii@,
                _ => final(buffer)@ == old(buffer)@,
            },
    {
        if let Some(FrameEvent::Frame(frame_ascii)) = received {
            buffer.append(frame_ascii.as_str());
        }
    }

    /// Returns the key press that was received, if it was one.
    pub fn get_event(received: Option<FrameEvent>) -> (key: Option<KeyPress>)
        ensures
            match received {
                Some(FrameEvent::Event(key_event)) => key == Some(key_event),
                _ => key is None,
            },
    {
        if let Some(FrameEvent::Event(key_event)) = received {
            return Some(key_event);
        }
        None
    }
}

} // verus!
