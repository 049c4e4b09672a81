use ratatui::style::Color;
use ratatui::text::Text;
use termcam::ascii::{ascii_char, image_to_ascii};
use termcam::frame::{Frame, PixelFormat};
use termcam::mode::ImageConvertType;
use termcam::render::{convert_cell, convert_frame_into_ascii, fits};

fn gray(rows: usize, cols: usize, data: Vec<u8>) -> Frame {
    Frame::new(rows, cols, PixelFormat::Gray, data).unwrap()
}

fn color(rows: usize, cols: usize, data: Vec<u8>) -> Frame {
    Frame::new(rows, cols, PixelFormat::Color, data).unwrap()
}

fn glyphs(text: &Text<'static>) -> Vec<String> {
    text.lines
        .iter()
        .map(|line| line.spans.iter().map(|span| span.content.to_string()).collect::<String>())
        .collect()
}

#[test]
fn frame_new_checks_the_number_of_bytes() {
    assert!(Frame::new(2, 3, PixelFormat::Gray, vec![0; 6]).is_some());
    assert!(Frame::new(2, 3, PixelFormat::Gray, vec![0; 5]).is_none());
    assert!(Frame::new(2, 3, PixelFormat::Gray, vec![0; 7]).is_none());
    assert!(Frame::new(2, 3, PixelFormat::Color, vec![0; 18]).is_some());
    assert!(Frame::new(2, 3, PixelFormat::Color, vec![0; 6]).is_none());
    assert!(Frame::new(0, 0, PixelFormat::Color, vec![]).is_some());
    assert!(Frame::new(0, 5, PixelFormat::Gray, vec![]).is_some());
    assert!(Frame::new(usize::MAX, 2, PixelFormat::Gray, vec![0; 4]).is_none());
    assert!(Frame::new(usize::MAX / 2, 2, PixelFormat::Color, vec![0; 4]).is_none());
}

#[test]
fn frame_reads_pixels_in_row_major_order() {
    let frame = gray(2, 3, vec![1, 2, 3, 4, 5, 6]);
    assert_eq!(frame.rows(), 2);
    assert_eq!(frame.cols(), 3);
    assert_eq!(frame.format(), PixelFormat::Gray);
    assert_eq!(frame.at_gray(0, 0), Some(1));
    assert_eq!(frame.at_gray(0, 2), Some(3));
    assert_eq!(frame.at_gray(1, 0), Some(4));
    assert_eq!(frame.at_gray(1, 2), Some(6));
    assert_eq!(frame.at_gray(2, 0), None);
    assert_eq!(frame.at_gray(0, 3), None);
    assert_eq!(frame.at_color(0, 0), None);

    let frame = color(1, 2, vec![1, 2, 3, 4, 5, 6]);
    assert_eq!(frame.at_color(0, 0), Some([1, 2, 3]));
    assert_eq!(frame.at_color(0, 1), Some([4, 5, 6]));
    assert_eq!(frame.at_color(1, 0), None);
    assert_eq!(frame.at_color(0, 2), None);
    assert_eq!(frame.at_gray(0, 0), None);
}

#[test]
fn fits_tells_which_frames_a_mode_reads() {
    let g = gray(1, 1, vec![0]);
    let c = color(1, 1, vec![0, 0, 0]);
    assert!(fits(&c, ImageConvertType::Colorful));
    assert!(!fits(&g, ImageConvertType::Colorful));
    assert!(fits(&g, ImageConvertType::GrayScale));
    assert!(fits(&g, ImageConvertType::GrayScaleThreshold));
    assert!(fits(&g, ImageConvertType::Threshold));
    assert!(!fits(&c, ImageConvertType::GrayScale));
    assert!(!fits(&c, ImageConvertType::GrayScaleThreshold));
    assert!(!fits(&c, ImageConvertType::Threshold));
    assert!(fits(&c, ImageConvertType::ColorfulHalfBlock));
    assert!(fits(&g, ImageConvertType::ColorfulHalfBlock));
}

#[test]
fn colorful_frame_becomes_styled_text() {
    let frame = color(2, 2, vec![1, 2, 3, 4, 5, 6, 7, 8, 9, 10, 11, 12]);
    let text = convert_frame_into_ascii(frame, ImageConvertType::Colorful);
    assert_eq!(text.lines.len(), 2);
    assert_eq!(text.lines[0].spans.len(), 2);
    assert_eq!(text.lines[1].spans.len(), 2);
    assert_eq!(glyphs(&text), vec!["██".to_string(), "██".to_string()]);
    assert_eq!(text.lines[0].spans[0].style.fg, Some(Color::Rgb(3, 2, 1)));
    assert_eq!(text.lines[0].spans[1].style.fg, Some(Color::Rgb(6, 5, 4)));
    assert_eq!(text.lines[1].spans[0].style.fg, Some(Color::Rgb(9, 8, 7)));
    assert_eq!(text.lines[1].spans[1].style.fg, Some(Color::Rgb(12, 11, 10)));
    assert_eq!(text.lines[1].spans[1].style.bg, Some(Color::Reset));
}

#[test]
fn gray_scale_frame_becomes_gray_blocks() {
    let frame = gray(1, 3, vec![0, 100, 255]);
    let text = convert_frame_into_ascii(frame, ImageConvertType::GrayScale);
    assert_eq!(glyphs(&text), vec!["███".to_string()]);
    assert_eq!(text.lines[0].spans[0].style.fg, Some(Color::Rgb(0, 0, 0)));
    assert_eq!(text.lines[0].spans[1].style.fg, Some(Color::Rgb(100, 100, 100)));
    assert_eq!(text.lines[0].spans[2].style.fg, Some(Color::Rgb(255, 255, 255)));
    assert_eq!(text.lines[0].spans[2].style.bg, Some(Color::Reset));
}

#[test]
fn gray_scale_threshold_frame_becomes_the_ramp() {
    let frame = gray(1, 5, vec![0, 64, 128, 192, 255]);
    let text = convert_frame_into_ascii(frame, ImageConvertType::GrayScaleThreshold);
    assert_eq!(glyphs(&text), vec!["█▓▒░ ".to_string()]);
    for span in &text.lines[0].spans {
        assert_eq!(span.style.fg, Some(Color::Rgb(255, 255, 255)));
        assert_eq!(span.style.bg, Some(Color::Reset));
    }
}

#[test]
fn threshold_frame_becomes_blocks_and_spaces() {
    let frame = gray(2, 2, vec![150, 151, 255, 0]);
    let text = convert_frame_into_ascii(frame, ImageConvertType::Threshold);
    assert_eq!(glyphs(&text), vec![" █".to_string(), "█ ".to_string()]);
    assert_eq!(text.lines[0].spans[1].style.fg, Some(Color::Rgb(255, 255, 255)));
}

#[test]
fn half_block_frame_gives_half_the_grid() {
    // 2 rows of 4 pixels: the left block is dark over light, the right one uniform
    let dark = [0u8, 0, 0];
    let dim = [10u8, 10, 10];
    let light = [200u8, 200, 200];
    let bright = [210u8, 210, 210];
    let red = [0u8, 0, 255];
    let mut data = Vec::new();
    for pixel in [dark, dim, red, red, light, bright, red, red] {
        data.extend_from_slice(&pixel);
    }
    let text = convert_frame_into_ascii(color(2, 4, data), ImageConvertType::ColorfulHalfBlock);
    assert_eq!(text.lines.len(), 1);
    assert_eq!(text.lines[0].spans.len(), 2);
    let left = &text.lines[0].spans[0];
    assert_eq!(left.content, "▀");
    assert_eq!(left.style.fg, Some(Color::Rgb(5, 5, 5)));
    assert_eq!(left.style.bg, Some(Color::Rgb(205, 205, 205)));
    let right = &text.lines[0].spans[1];
    assert_eq!(right.content, "▛");
    assert_eq!(right.style.fg, Some(Color::Rgb(255, 0, 0)));
    assert_eq!(right.style.bg, Some(Color::Rgb(255, 0, 0)));
}

#[test]
fn half_block_drops_an_odd_last_row_and_column() {
    let text = convert_frame_into_ascii(
        color(3, 5, vec![7; 45]),
        ImageConvertType::ColorfulHalfBlock,
    );
    assert_eq!(text.lines.len(), 1);
    assert_eq!(text.lines[0].spans.len(), 2);
    let text = convert_frame_into_ascii(
        color(1, 1, vec![7; 3]),
        ImageConvertType::ColorfulHalfBlock,
    );
    assert_eq!(text.lines.len(), 0);
}

#[test]
fn half_block_reads_white_where_there_is_no_color() {
    let text = convert_frame_into_ascii(
        gray(2, 2, vec![0, 0, 0, 0]),
        ImageConvertType::ColorfulHalfBlock,
    );
    assert_eq!(text.lines.len(), 1);
    assert_eq!(text.lines[0].spans[0].style.fg, Some(Color::Rgb(255, 255, 255)));
    assert_eq!(text.lines[0].spans[0].style.bg, Some(Color::Rgb(255, 255, 255)));
}

#[test]
fn empty_frame_becomes_empty_text() {
    let text = convert_frame_into_ascii(gray(0, 0, vec![]), ImageConvertType::GrayScale);
    assert_eq!(text.lines.len(), 0);
    let text = convert_frame_into_ascii(gray(2, 0, vec![]), ImageConvertType::Threshold);
    assert_eq!(text.lines.len(), 2);
    assert_eq!(text.lines[0].spans.len(), 0);
}

#[test]
fn convert_cell_matches_the_text() {
    let frame = color(2, 2, vec![1, 2, 3, 4, 5, 6, 7, 8, 9, 10, 11, 12]);
    let cell = convert_cell(&frame, ImageConvertType::Colorful, 1, 0);
    assert_eq!(cell.glyph, '█');
    assert_eq!(cell.fg, termcam::cell::CellColor::Rgb(9, 8, 7));
    assert_eq!(cell.bg, termcam::cell::CellColor::Reset);
    let cell = convert_cell(&frame, ImageConvertType::ColorfulHalfBlock, 0, 0);
    assert!(termcam::cell::CORNER_GLYPHS.contains(&cell.glyph)
        || termcam::cell::PAIR_GLYPHS.contains(&cell.glyph));
}

#[test]
fn ascii_char_follows_the_ramp() {
    let ramp = b"@%#*+=-:. ";
    for intensity in 0..=255u8 {
        let index = (intensity as f32 * (ramp.len() - 1) as f32 / 255.0).round() as usize;
        assert_eq!(ascii_char(intensity), ramp[index] as char);
    }
    assert_eq!(ascii_char(0), '@');
    assert_eq!(ascii_char(255), ' ');
    assert_eq!(ascii_char(14), '@');
    assert_eq!(ascii_char(15), '%');
}

#[test]
fn image_to_ascii_writes_one_line_for_each_row() {
    let frame = gray(2, 3, vec![0, 128, 255, 30, 60, 90]);
    assert_eq!(image_to_ascii(&frame), "@= \n%#*\n");
    assert_eq!(image_to_ascii(&gray(0, 0, vec![])), "");
    assert_eq!(image_to_ascii(&gray(2, 0, vec![])), "\n\n");
}
