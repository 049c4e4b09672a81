//! Colors as three 8-bit channels: their distance and their average.

use vstd::prelude::*;

verus! {

/// One color sample: three 8-bit channels.
pub type Pixel = [u8; 3];

/// The squared Euclidean distance between two colors.
pub open spec fn dist_sq(lhs: Pixel, rhs: Pixel) -> int {
    (lhs[0] - rhs[0]) * (lhs[0] - rhs[0]) + (lhs[1] - rhs[1]) * (lhs[1] - rhs[1]) + (lhs[2]
        - rhs[2]) * (lhs[2] - rhs[2])
}

/// The sum of channel `c` over the first `n` colors of `colors`.
pub open spec fn channel_sum(colors: Seq<Pixel>, n: nat, c: int) -> int
    decreases n,
{
    if n == 0 {
        0
    } else {
        channel_sum(colors, (n - 1) as nat, c) + colors[n - 1][c]
    }
}

/// Channel `c` of the average of `colors`: the channel's sum divided by the
/// number of colors, rounded down.
pub open spec fn channel_average(colors: Seq<Pixel>, c: int) -> int {
    channel_sum(colors, colors.len(), c) / (colors.len() as int)
}

/// The channel-wise average of `colors`.
pub open spec fn average(colors: Seq<Pixel>) -> Pixel {
    [
        channel_average(colors, 0) as u8,
        channel_average(colors, 1) as u8,
        channel_average(colors, 2) as u8,
    ]
}

/// A channel's sum over `n` colors lies between 0 and `255 * n`.
pub proof fn lemma_channel_sum_bounds(colors: Seq<Pixel>, n: nat, c: int)
    requires
        n <= colors.len(),
        0 <= c < 3,
    ensures
        0 <= channel_sum(colors, n, c) <= 255 * n,
    decreases n,
{
    if n > 0 {
        lemma_channel_sum_bounds(colors, (n - 1) as nat, c);
    }
}

/// A channel of the average of at least one color fits in eight bits.
pub proof fn lemma_channel_average_bounds(colors: Seq<Pixel>, c: int)
    requires
        colors.len() > 0,
        0 <= c < 3,
    ensures
        0 <= channel_average(colors, c) <= 255,
{
    let n = colors.len();
    let s = channel_sum(colors, n, c);
    lemma_channel_sum_bounds(colors, n, c);
    assert(0 <= s / (n as int) <= 255) by (nonlinear_arith)
        requires
            0 <= s <= 255 * n,
            n > 0,
    ;
}

fn channel_gap(a: u8, b: u8) -> (d: u32)
    ensures
        d * d == (a - b) * (a - b),
        d <= 255,
{
    let d: u8 = if a >= b {
        a - b
    } else {
        b - a
    };
    assert((b - a) * (b - a) == (a - b) * (a - b)) by (nonlinear_arith);
    d as u32
}

/// Computes the squared Euclidean distance between two colors.
pub fn color_dist(lhs: &Pixel, rhs: &Pixel) -> (d: u32)
    ensures
        d == dist_sq(*lhs, *rhs),
        d <= 195075,
{
    let x: u32 = channel_gap(lhs[0], rhs[0]);
    let y: u32 = channel_gap(lhs[1], rhs[1]);
    let z: u32 = channel_gap(lhs[2], rhs[2]);
    assert(x * x <= 65025 && y * y <= 65025 && z * z <= 65025) by (nonlinear_arith)
        requires
            x <= 255,
            y <= 255,
            z <= 255,
    ;
    x * x + y * y + z * z
}

/// Computes the channel-wise average of `N` colors, each channel rounded down.
pub fn color_average<const N: usize>(colors: [Pixel; N]) -> (avg: Pixel)
    requires
        0 < N,
        N * 255 <= u32::MAX,
    ensures
        avg == average(colors@),
{
    let mut x: u32 = 0;
    let mut y: u32 = 0;
    let mut z: u32 = 0;
    let mut i: usize = 0;
    while i < N
        invariant
            i <= N,
            N * 255 <= u32::MAX,
            colors@.len() == N,
            x == channel_sum(colors@, i as nat, 0),
            y == channel_sum(colors@, i as nat, 1),
            z == channel_sum(colors@, i as nat, 2),
            x <= 255 * i,
            y <= 255 * i,
            z <= 255 * i,
        decreases N - i,
    {
        let color: Pixel = colors[i];
        x = x + color[0] as u32;
        y = y + color[1] as u32;
        z = z + color[2] as u32;
        i = i + 1;
    }
    proof {
        lemma_channel_average_bounds(colors@, 0);
        lemma_channel_average_bounds(colors@, 1);
        lemma_channel_average_bounds(colors@, 2);
    }
    let n: u32 = N as u32;
    [(x / n) as u8, (y / n) as u8, (z / n) as u8]
}

} // verus!
