use termcam::cell::{
    colorful_cell, gray_scale_cell, gray_scale_threshold_cell, half_block_cell, ramp_level, rgb,
    threshold_cell, CellColor, RenderedCell, ASCII_CHARS, CORNER_GLYPHS, PAIR_GLYPHS,
};
use termcam::color::{color_average, color_dist};

fn is_block_glyph(glyph: char) -> bool {
    PAIR_GLYPHS.contains(&glyph) || CORNER_GLYPHS.contains(&glyph)
}

#[test]
fn color_dist_is_squared_euclidean() {
    assert_eq!(color_dist(&[0, 0, 0], &[0, 0, 0]), 0);
    assert_eq!(color_dist(&[0, 0, 0], &[10, 10, 10]), 300);
    assert_eq!(color_dist(&[1, 2, 3], &[4, 6, 8]), 9 + 16 + 25);
    assert_eq!(color_dist(&[4, 6, 8], &[1, 2, 3]), 50);
    assert_eq!(color_dist(&[0, 0, 0], &[255, 255, 255]), 195075);
    assert_eq!(color_dist(&[255, 0, 255], &[0, 255, 0]), 195075);
}

#[test]
fn color_average_rounds_each_channel_down() {
    assert_eq!(color_average([[0, 0, 0], [10, 10, 10]]), [5, 5, 5]);
    assert_eq!(color_average([[0, 1, 2], [1, 2, 5]]), [0, 1, 3]);
    assert_eq!(color_average([[255, 255, 255], [255, 255, 255]]), [255, 255, 255]);
    assert_eq!(color_average([[1, 1, 1], [1, 1, 1], [2, 2, 2]]), [1, 1, 1]);
    assert_eq!(color_average([[10, 20, 30], [20, 40, 60], [30, 60, 91]]), [20, 40, 60]);
    assert_eq!(color_average([[7, 8, 9]]), [7, 8, 9]);
}

#[test]
fn rgb_reverses_the_channel_order() {
    assert_eq!(rgb([1, 2, 3]), CellColor::Rgb(3, 2, 1));
}

#[test]
fn half_block_two_dark_over_two_light() {
    let cell = half_block_cell(&[[0, 0, 0], [10, 10, 10], [200, 200, 200], [210, 210, 210]]);
    assert_eq!(
        cell,
        RenderedCell {
            glyph: '▀',
            fg: CellColor::Rgb(5, 5, 5),
            bg: CellColor::Rgb(205, 205, 205),
        }
    );
}

#[test]
fn half_block_each_pair_has_its_glyph() {
    let a = [0, 0, 0];
    let b = [250, 250, 250];
    assert_eq!(half_block_cell(&[a, a, b, b]).glyph, '▀');
    assert_eq!(half_block_cell(&[a, b, a, b]).glyph, '▌');
    assert_eq!(half_block_cell(&[a, b, b, a]).glyph, '▚');
    // the later pairs are found only where no earlier pair is as near
    let c = [240, 240, 240];
    assert_eq!(half_block_cell(&[b, a, a, c]).glyph, '▞');
    assert_eq!(half_block_cell(&[b, a, c, a]).glyph, '▐');
    assert_eq!(half_block_cell(&[b, c, a, a]).glyph, '▄');
    assert_eq!(
        half_block_cell(&[b, c, a, a]),
        RenderedCell {
            glyph: '▄',
            fg: CellColor::Rgb(0, 0, 0),
            bg: CellColor::Rgb(245, 245, 245),
        }
    );
}

#[test]
fn half_block_pair_colors_are_the_two_averages() {
    // bytes are blue, green, red
    let cell = half_block_cell(&[[10, 20, 30], [250, 200, 150], [12, 22, 32], [252, 202, 152]]);
    assert_eq!(cell.glyph, '▌');
    assert_eq!(cell.fg, CellColor::Rgb(31, 21, 11));
    assert_eq!(cell.bg, CellColor::Rgb(151, 201, 251));
}

#[test]
fn half_block_third_pixel_joins_the_foreground() {
    // pair (0,1) is nearest; sub-pixel 2 is near it, sub-pixel 3 is far away
    let cell = half_block_cell(&[[0, 0, 0], [2, 2, 2], [4, 4, 4], [200, 200, 200]]);
    assert_eq!(cell.glyph, '▛');
    assert_eq!(cell.fg, CellColor::Rgb(2, 2, 2));
    assert_eq!(cell.bg, CellColor::Rgb(200, 200, 200));
    // the same with the far one at sub-pixel 2
    let cell = half_block_cell(&[[0, 0, 0], [2, 2, 2], [200, 200, 200], [4, 4, 4]]);
    assert_eq!(cell.glyph, '▜');
    assert_eq!(cell.fg, CellColor::Rgb(2, 2, 2));
    assert_eq!(cell.bg, CellColor::Rgb(200, 200, 200));
    // the far one at sub-pixel 0 and at sub-pixel 1
    let cell = half_block_cell(&[[200, 200, 200], [4, 4, 4], [0, 0, 0], [2, 2, 2]]);
    assert_eq!(cell.glyph, '▟');
    assert_eq!(cell.bg, CellColor::Rgb(200, 200, 200));
    let cell = half_block_cell(&[[4, 4, 4], [200, 200, 200], [0, 0, 0], [2, 2, 2]]);
    assert_eq!(cell.glyph, '▙');
    assert_eq!(cell.bg, CellColor::Rgb(200, 200, 200));
}

#[test]
fn half_block_equal_distances_fold_the_first_other() {
    // others 2 and 3 are equally far from the foreground, and farther from each other
    let cell = half_block_cell(&[[100, 100, 100], [100, 100, 100], [90, 90, 90], [110, 110, 110]]);
    assert_eq!(cell.glyph, '▛');
    assert_eq!(cell.fg, CellColor::Rgb(96, 96, 96));
    assert_eq!(cell.bg, CellColor::Rgb(110, 110, 110));
}

#[test]
fn half_block_uniform_block() {
    for color in [[0u8, 0, 0], [255, 255, 255], [1, 2, 3], [200, 100, 50]] {
        let cell = half_block_cell(&[color, color, color, color]);
        assert_eq!(cell.fg, CellColor::Rgb(color[2], color[1], color[0]));
        assert_eq!(cell.bg, cell.fg);
        assert_eq!(cell.glyph, '▛');
    }
}

#[test]
fn half_block_glyph_is_defined_and_repeatable() {
    let mut seed: u32 = 12345;
    for _ in 0..2000 {
        let mut block = [[0u8; 3]; 4];
        for pixel in block.iter_mut() {
            for channel in pixel.iter_mut() {
                seed = seed.wrapping_mul(1664525).wrapping_add(1013904223);
                *channel = (seed >> 24) as u8;
            }
        }
        let first = half_block_cell(&block);
        let second = half_block_cell(&block);
        assert!(is_block_glyph(first.glyph));
        assert_eq!(first, second);
    }
}

#[test]
fn colorful_cell_is_a_block_in_the_pixels_color() {
    assert_eq!(
        colorful_cell([10, 20, 30]),
        RenderedCell { glyph: '█', fg: CellColor::Rgb(30, 20, 10), bg: CellColor::Reset }
    );
}

#[test]
fn gray_scale_cell_repeats_the_intensity() {
    assert_eq!(
        gray_scale_cell(77),
        RenderedCell { glyph: '█', fg: CellColor::Rgb(77, 77, 77), bg: CellColor::Reset }
    );
}

#[test]
fn gray_scale_threshold_ends_of_the_ramp() {
    assert_eq!(gray_scale_threshold_cell(0).glyph, '█');
    assert_eq!(gray_scale_threshold_cell(255).glyph, ' ');
    assert_eq!(gray_scale_threshold_cell(0).fg, CellColor::Rgb(255, 255, 255));
    assert_eq!(gray_scale_threshold_cell(0).bg, CellColor::Reset);
}

#[test]
fn gray_scale_threshold_level_boundaries() {
    assert_eq!(gray_scale_threshold_cell(31).glyph, '█');
    assert_eq!(gray_scale_threshold_cell(32).glyph, '▓');
    assert_eq!(gray_scale_threshold_cell(95).glyph, '▓');
    assert_eq!(gray_scale_threshold_cell(96).glyph, '▒');
    assert_eq!(gray_scale_threshold_cell(159).glyph, '▒');
    assert_eq!(gray_scale_threshold_cell(160).glyph, '░');
    assert_eq!(gray_scale_threshold_cell(223).glyph, '░');
    assert_eq!(gray_scale_threshold_cell(224).glyph, ' ');
}

#[test]
fn gray_scale_threshold_is_monotonic() {
    let mut last: usize = 0;
    for intensity in 0..=255u8 {
        let glyph = gray_scale_threshold_cell(intensity).glyph;
        let level = ASCII_CHARS.iter().position(|c| *c == glyph).unwrap();
        assert!(level >= last);
        last = level;
    }
    assert_eq!(last, 4);
}

#[test]
fn ramp_level_rounds_to_the_nearest_level() {
    for levels in [1u8, 2, 5, 10, 255] {
        for intensity in 0..=255u8 {
            let expected = (intensity as f32 * (levels - 1) as f32 / 255.0).round() as u8;
            assert_eq!(ramp_level(intensity, levels), expected);
        }
    }
    assert_eq!(ramp_level(128, 5), 2);
    assert_eq!(ramp_level(255, 10), 9);
}

#[test]
fn threshold_steps_at_150() {
    assert_eq!(threshold_cell(150).glyph, ' ');
    assert_eq!(threshold_cell(151).glyph, '█');
    assert_eq!(threshold_cell(0).glyph, ' ');
    assert_eq!(threshold_cell(255).glyph, '█');
    assert_eq!(
        threshold_cell(151),
        RenderedCell { glyph: '█', fg: CellColor::Rgb(255, 255, 255), bg: CellColor::Reset }
    );
}
