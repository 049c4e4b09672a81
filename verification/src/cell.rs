//! The quantization engine: from pixels to one cell of terminal text.

use vstd::prelude::*;
use crate::color::{average, color_average, color_dist, dist_sq, Pixel};

verus! {

/// A color of a cell: the terminal's default, or red, green and blue.
#[derive(Clone, Copy, Debug, PartialEq, Eq, Structural)]
pub enum CellColor {
    /// The terminal's own color: no fill.
    Reset,
    /// Red, green, blue.
    Rgb(u8, u8, u8),
}

/// One character-sized unit of output: a glyph and its two colors.
#[derive(Clone, Copy, Debug, PartialEq, Eq, Structural)]
pub struct RenderedCell {
    pub glyph: char,
    pub fg: CellColor,
    pub bg: CellColor,
}

/// The glyph that covers a whole cell.
pub const FULL_BLOCK: char = '█';

/// The glyph that covers nothing.
pub const BLANK: char = ' ';

/// The glyphs of the density ramp, from the densest to the sparsest.
pub const ASCII_CHARS: [char; 5] = ['█', '▓', '▒', '░', ' '];

/// The intensity above which the `Threshold` mode draws a solid block.
pub const THRESHOLD: u8 = 150;

/// What a read outside a frame gives: white.
pub const WHITE: Pixel = [255, 255, 255];

/// The six ways to part the four sub-pixels of a block into a foreground
/// pair (the first two) and the other pair (the last two), in the order in
/// which they are tried. Sub-pixel 0 is top left, 1 top right, 2 bottom left,
/// 3 bottom right.
pub const PAIRINGS: [[usize; 4]; 6] = [
    [0, 1, 2, 3],
    [0, 2, 1, 3],
    [0, 3, 1, 2],
    [1, 2, 0, 3],
    [1, 3, 0, 2],
    [2, 3, 0, 1],
];

/// The glyph that covers the foreground pair of each pairing.
pub const PAIR_GLYPHS: [char; 6] = ['▀', '▌', '▚', '▞', '▐', '▄'];

/// The glyph that covers all sub-pixels but one, by the one left out.
pub const CORNER_GLYPHS: [char; 4] = ['▟', '▙', '▜', '▛'];

/// The cell color of a pixel whose bytes are blue, green, red.
pub open spec fn spec_rgb(pixel: Pixel) -> CellColor {
    CellColor::Rgb(pixel[2], pixel[1], pixel[0])
}

/// The cell color of a pixel whose bytes are blue, green, red.
#[verifier::when_used_as_spec(spec_rgb)]
pub fn rgb(pixel: Pixel) -> (color: CellColor)
    ensures
        color == spec_rgb(pixel),
{
    CellColor::Rgb(pixel[2], pixel[1], pixel[0])
}

/// The level, among `levels` of them, that an intensity falls on: the
/// integer nearest to `intensity * (levels - 1) / 255`.
pub open spec fn spec_ramp_level(intensity: u8, levels: u8) -> int {
    (2 * intensity * (levels - 1) + 255) / 510
}

/// The level found is the one nearest to `intensity * (levels - 1) / 255`:
/// it lies less than a half away, and no intensity lies just between two.
pub proof fn lemma_ramp_level_nearest(intensity: u8, levels: u8)
    requires
        levels > 0,
    ensures
        0 <= spec_ramp_level(intensity, levels) <= levels - 1,
        -255 < 2 * (255 * spec_ramp_level(intensity, levels) - intensity * (levels - 1)) < 255,
{
    let scaled = intensity * (levels - 1);
    let level = spec_ramp_level(intensity, levels);
    assert(0 <= scaled <= 255 * (levels - 1)) by (nonlinear_arith)
        requires
            scaled == intensity * (levels - 1),
            0 <= intensity <= 255,
            levels >= 1,
    ;
    assert(2 * intensity * (levels - 1) == 2 * scaled) by (nonlinear_arith)
        requires
            scaled == intensity * (levels - 1),
    ;
    assert(level == (2 * scaled + 255) / 510);
    // 510 * level <= 2 * scaled + 255 < 510 * level + 510, and the middle is odd
    assert(2 * scaled + 255 != 510 * level) by {
        assert((2 * scaled + 255) % 2 == 1);
        assert((510 * level) % 2 == 0);
    }
}

/// The level of an intensity grows with the intensity, from level 0 for
/// intensity 0 to the last level for intensity 255.
pub proof fn lemma_ramp_level_monotonic(low: u8, high: u8, levels: u8)
    requires
        levels > 0,
        low <= high,
    ensures
        spec_ramp_level(0, levels) == 0,
        spec_ramp_level(255, levels) == levels - 1,
        spec_ramp_level(low, levels) <= spec_ramp_level(high, levels),
{
    assert(2 * low * (levels - 1) <= 2 * high * (levels - 1)) by (nonlinear_arith)
        requires
            low <= high,
            levels >= 1,
    ;
    assert(2 * 255 * (levels - 1) + 255 == 510 * (levels - 1) + 255);
}

/// Finds the level, among `levels` of them, that an intensity falls on.
pub fn ramp_level(intensity: u8, levels: u8) -> (level: u8)
    requires
        levels > 0,
    ensures
        level == spec_ramp_level(intensity, levels),
        level < levels,
{
    proof {
        lemma_ramp_level_nearest(intensity, levels);
    }
    let scaled: u32 = intensity as u32 * (levels as u32 - 1);
    assert(scaled <= 255 * 254) by (nonlinear_arith)
        requires
            scaled == intensity * (levels - 1),
            0 <= intensity <= 255,
            1 <= levels <= 255,
    ;
    assert(2 * intensity * (levels - 1) == 2 * scaled) by (nonlinear_arith)
        requires
            scaled == intensity * (levels - 1),
    ;
    ((2 * scaled + 255) / 510) as u8
}

/// The cell of the `Colorful` mode: a solid block in the pixel's color.
pub open spec fn spec_colorful_cell(pixel: Pixel) -> RenderedCell {
    RenderedCell { glyph: FULL_BLOCK, fg: rgb(pixel), bg: CellColor::Reset }
}

/// The cell of the `GrayScale` mode: a solid block in the gray of the
/// intensity.
pub open spec fn spec_gray_scale_cell(intensity: u8) -> RenderedCell {
    RenderedCell {
        glyph: FULL_BLOCK,
        fg: CellColor::Rgb(intensity, intensity, intensity),
        bg: CellColor::Reset,
    }
}

/// The cell of the `GrayScaleThreshold` mode: the glyph of the density ramp
/// at the intensity's level, in white.
pub open spec fn spec_gray_scale_threshold_cell(intensity: u8) -> RenderedCell {
    RenderedCell {
        glyph: ASCII_CHARS[spec_ramp_level(intensity, 5)],
        fg: CellColor::Rgb(255, 255, 255),
        bg: CellColor::Reset,
    }
}

/// The cell of the `Threshold` mode: a white solid block above the
/// threshold, a space at or below it.
pub open spec fn spec_threshold_cell(intensity: u8) -> RenderedCell {
    RenderedCell {
        glyph: if intensity > THRESHOLD {
            FULL_BLOCK
        } else {
            BLANK
        },
        fg: CellColor::Rgb(255, 255, 255),
        bg: CellColor::Reset,
    }
}

/// Renders one pixel in the `Colorful` mode.
#[verifier::when_used_as_spec(spec_colorful_cell)]
pub fn colorful_cell(pixel: Pixel) -> (cell: RenderedCell)
    ensures
        cell == spec_colorful_cell(pixel),
{
    RenderedCell { glyph: FULL_BLOCK, fg: rgb(pixel), bg: CellColor::Reset }
}

/// Renders one intensity in the `GrayScale` mode.
#[verifier::when_used_as_spec(spec_gray_scale_cell)]
pub fn gray_scale_cell(intensity: u8) -> (cell: RenderedCell)
    ensures
        cell == spec_gray_scale_cell(intensity),
{
    RenderedCell {
        glyph: FULL_BLOCK,
        fg: CellColor::Rgb(intensity, intensity, intensity),
        bg: CellColor::Reset,
    }
}

/// Renders one intensity in the `GrayScaleThreshold` mode.
#[verifier::when_used_as_spec(spec_gray_scale_threshold_cell)]
pub fn gray_scale_threshold_cell(intensity: u8) -> (cell: RenderedCell)
    ensures
        cell == spec_gray_scale_threshold_cell(intensity),
{
    let level: u8 = ramp_level(intensity, 5);
    RenderedCell {
        glyph: ASCII_CHARS[level as usize],
        fg: CellColor::Rgb(255, 255, 255),
        bg: CellColor::Reset,
    }
}

/// Renders one intensity in the `Threshold` mode.
#[verifier::when_used_as_spec(spec_threshold_cell)]
pub fn threshold_cell(intensity: u8) -> (cell: RenderedCell)
    ensures
        cell == spec_threshold_cell(intensity),
{
    RenderedCell {
        glyph: if intensity > THRESHOLD {
            FULL_BLOCK
        } else {
            BLANK
        },
        fg: CellColor::Rgb(255, 255, 255),
        bg: CellColor::Reset,
    }
}

/// The glyph of the density ramp grows sparser with the intensity, from the
/// densest glyph for intensity 0 to the sparsest for intensity 255.
pub proof fn lemma_gray_scale_threshold_monotonic(low: u8, high: u8)
    requires
        low <= high,
    ensures
        spec_gray_scale_threshold_cell(0).glyph == ASCII_CHARS[0],
        spec_gray_scale_threshold_cell(255).glyph == ASCII_CHARS[4],
        0 <= spec_ramp_level(low, 5) <= spec_ramp_level(high, 5) <= 4,
        spec_gray_scale_threshold_cell(low).glyph == ASCII_CHARS[spec_ramp_level(low, 5)],
        spec_gray_scale_threshold_cell(high).glyph == ASCII_CHARS[spec_ramp_level(high, 5)],
{
    lemma_ramp_level_monotonic(low, high, 5);
    lemma_ramp_level_nearest(low, 5);
    lemma_ramp_level_nearest(high, 5);
}

/// The `Threshold` mode steps at the threshold: a space up to intensity 150,
/// a solid block from 151 on.
pub proof fn lemma_threshold_step(intensity: u8)
    ensures
        intensity <= 150 ==> spec_threshold_cell(intensity).glyph == ' ',
        intensity >= 151 ==> spec_threshold_cell(intensity).glyph == '█',
{
}

/// The distance between the two colors of the foreground pair of pairing `k`.
pub open spec fn pair_dist(subpixels: [Pixel; 4], k: int) -> int {
    dist_sq(subpixels[PAIRINGS[k][0] as int], subpixels[PAIRINGS[k][1] as int])
}

/// The average of the two colors of the foreground pair of pairing `k`.
pub open spec fn pair_color(subpixels: [Pixel; 4], k: int) -> Pixel {
    average([subpixels[PAIRINGS[k][0] as int], subpixels[PAIRINGS[k][1] as int]]@)
}

/// The pairing, among the first `n`, whose foreground pair is nearest; of
/// several equally near the first.
pub open spec fn nearest_among(subpixels: [Pixel; 4], n: nat) -> int
    decreases n,
{
    if n <= 1 {
        0
    } else {
        let best = nearest_among(subpixels, (n - 1) as nat);
        if pair_dist(subpixels, n - 1) < pair_dist(subpixels, best) {
            n - 1
        } else {
            best
        }
    }
}

/// The pairing whose foreground pair is nearest; of several equally near the
/// first.
pub open spec fn nearest_pairing(subpixels: [Pixel; 4]) -> int {
    nearest_among(subpixels, 6)
}

/// The pairing found among the first `n` is one of them, none of them has a
/// nearer foreground pair, and none before it has one as near.
pub proof fn lemma_nearest_among(subpixels: [Pixel; 4], n: nat)
    requires
        1 <= n <= 6,
    ensures
        0 <= nearest_among(subpixels, n) < n,
        forall|k: int|
            0 <= k < n ==> pair_dist(subpixels, nearest_among(subpixels, n)) <= #[trigger] pair_dist(
                subpixels,
                k,
            ),
        forall|k: int|
            0 <= k < nearest_among(subpixels, n) ==> pair_dist(
                subpixels,
                nearest_among(subpixels, n),
            ) < #[trigger] pair_dist(subpixels, k),
    decreases n,
{
    if n > 1 {
        lemma_nearest_among(subpixels, (n - 1) as nat);
    }
}

/// What the block of four sub-pixels is rendered as. The nearest pair gives
/// the foreground. Where the other two are nearer to each other than either
/// is to the foreground, they give the background together and the glyph
/// covers the pair. Otherwise the one of them that is nearer to the
/// foreground joins it (the first of them where both are equally near), the
/// last one alone is the background, and the glyph leaves out its corner.
pub open spec fn half_block(subpixels: [Pixel; 4]) -> RenderedCell {
    let k = nearest_pairing(subpixels);
    let fg1 = subpixels[PAIRINGS[k][0] as int];
    let fg2 = subpixels[PAIRINGS[k][1] as int];
    let other1 = subpixels[PAIRINGS[k][2] as int];
    let other2 = subpixels[PAIRINGS[k][3] as int];
    let near = pair_color(subpixels, k);
    let dist_remaining = dist_sq(other1, other2);
    let dist_1 = dist_sq(near, other1);
    let dist_2 = dist_sq(near, other2);
    if dist_remaining < dist_1 && dist_remaining < dist_2 {
        RenderedCell {
            glyph: PAIR_GLYPHS[k],
            fg: rgb(near),
            bg: rgb(average([other1, other2]@)),
        }
    } else if dist_1 <= dist_2 {
        RenderedCell {
            glyph: CORNER_GLYPHS[PAIRINGS[k][3] as int],
            fg: rgb(average([fg1, fg2, other1]@)),
            bg: rgb(other2),
        }
    } else {
        RenderedCell {
            glyph: CORNER_GLYPHS[PAIRINGS[k][2] as int],
            fg: rgb(average([fg1, fg2, other2]@)),
            bg: rgb(other1),
        }
    }
}

/// Whether a glyph is one that a block can be rendered as.
pub open spec fn is_half_block_glyph(glyph: char) -> bool {
    (exists|k: int| 0 <= k < 6 && glyph == PAIR_GLYPHS[k]) || (exists|i: int|
        0 <= i < 4 && glyph == CORNER_GLYPHS[i])
}

/// Renders a block of two by two pixels as one cell.
pub fn half_block_cell(subpixels: &[Pixel; 4]) -> (cell: RenderedCell)
    ensures
        cell == half_block(*subpixels),
        is_half_block_glyph(cell.glyph),
{
    let mut best: usize = 0;
    let mut best_dist: u32 = color_dist(&subpixels[PAIRINGS[0][0]], &subpixels[PAIRINGS[0][1]]);
    let mut k: usize = 1;
    while k < 6
        invariant
            1 <= k <= 6,
            best < k,
            best == nearest_among(*subpixels, k as nat),
            best_dist == pair_dist(*subpixels, best as int),
        decreases 6 - k,
    {
        let dist: u32 = color_dist(&subpixels[PAIRINGS[k][0]], &subpixels[PAIRINGS[k][1]]);
        if dist < best_dist {
            best = k;
            best_dist = dist;
        }
        k = k + 1;
    }
    let pairing: [usize; 4] = PAIRINGS[best];
    let fg1: Pixel = subpixels[pairing[0]];
    let fg2: Pixel = subpixels[pairing[1]];
    let other1: Pixel = subpixels[pairing[2]];
    let other2: Pixel = subpixels[pairing[3]];
    let near: Pixel = color_average([fg1, fg2]);
    let dist_remaining: u32 = color_dist(&other1, &other2);
    let dist_1: u32 = color_dist(&near, &other1);
    let dist_2: u32 = color_dist(&near, &other2);
    if dist_remaining < dist_1 && dist_remaining < dist_2 {
        let bg_color: Pixel = color_average([other1, other2]);
        RenderedCell { glyph: PAIR_GLYPHS[best], fg: rgb(near), bg: rgb(bg_color) }
    } else if dist_1 <= dist_2 {
        let fg_color: Pixel = color_average([fg1, fg2, other1]);
        RenderedCell { glyph: CORNER_GLYPHS[pairing[3]], fg: rgb(fg_color), bg: rgb(other2) }
    } else {
        let fg_color: Pixel = color_average([fg1, fg2, other2]);
        RenderedCell { glyph: CORNER_GLYPHS[pairing[2]], fg: rgb(fg_color), bg: rgb(other1) }
    }
}

/// Whatever the four sub-pixels are, the glyph of their cell is one of the
/// six pair glyphs or of the four corner glyphs.
pub proof fn lemma_half_block_glyph(subpixels: [Pixel; 4])
    ensures
        is_half_block_glyph(half_block(subpixels).glyph),
{
    lemma_nearest_among(subpixels, 6);
    let k = nearest_pairing(subpixels);
    let glyph = half_block(subpixels).glyph;
    assert(0 <= PAIRINGS[k][2] < 4 && 0 <= PAIRINGS[k][3] < 4);
    assert(glyph == PAIR_GLYPHS[k] || glyph == CORNER_GLYPHS[PAIRINGS[k][2] as int] || glyph
        == CORNER_GLYPHS[PAIRINGS[k][3] as int]);
}

/// The average of a color with itself, twice or three times, is that color.
pub proof fn lemma_average_of_equal(color: Pixel)
    ensures
        average([color, color]@) == color,
        average([color, color, color]@) == color,
{
    reveal_with_fuel(crate::color::channel_sum, 4);
    let two = [color, color]@;
    let three = [color, color, color]@;
    assert(two.len() == 2 && three.len() == 3);
    assert(average(two) =~= color);
    assert(average(three) =~= color);
}

/// A block of four equal sub-pixels is rendered in that one color, as
/// foreground and as background: every pair is at distance zero and averages
/// to that color, whichever pair is taken for the nearest, and the glyph is
/// the same for every color.
pub proof fn lemma_uniform_block(subpixels: [Pixel; 4])
    requires
        subpixels[1] == subpixels[0],
        subpixels[2] == subpixels[0],
        subpixels[3] == subpixels[0],
    ensures
        forall|k: int| 0 <= k < 6 ==> #[trigger] pair_dist(subpixels, k) == 0,
        forall|k: int| 0 <= k < 6 ==> #[trigger] pair_color(subpixels, k) == subpixels[0],
        half_block(subpixels) == (RenderedCell {
            glyph: CORNER_GLYPHS[3],
            fg: rgb(subpixels[0]),
            bg: rgb(subpixels[0]),
        }),
{
    let color = subpixels[0];
    lemma_average_of_equal(color);
    lemma_nearest_among(subpixels, 6);
    assert(dist_sq(color, color) == 0);
    assert forall|k: int| 0 <= k < 6 implies #[trigger] pair_dist(subpixels, k) == 0
        && #[trigger] pair_color(subpixels, k) == color by {
        assert(0 <= PAIRINGS[k][0] < 4 && 0 <= PAIRINGS[k][1] < 4);
    }
    let k = nearest_pairing(subpixels);
    assert(k == 0) by {
        if k > 0 {
            assert(pair_dist(subpixels, k) < pair_dist(subpixels, 0));
        }
    }
    assert(pair_color(subpixels, 0) == color);
}

} // verus!
