use vstd::prelude::*;

verus! {

/// Smallest width of the window, in pixels.
pub const MIN_WINDOW_WIDTH: u32 = 400;

/// Largest width of the window, in pixels.
pub const MAX_WINDOW_WIDTH: u32 = 960;

/// Height of the window, in pixels: a single-line bar.
pub const WINDOW_HEIGHT: u32 = 80;

/// Three quarters of the screen width, rounded down.
pub open spec fn three_quarters(screen_width: u32) -> int {
    (3 * screen_width) / 4
}

/// `v` brought into `[MIN_WINDOW_WIDTH, MAX_WINDOW_WIDTH]`.
pub open spec fn clamp_width(v: int) -> int {
    if v < MIN_WINDOW_WIDTH {
        MIN_WINDOW_WIDTH as int
    } else if v > MAX_WINDOW_WIDTH {
        MAX_WINDOW_WIDTH as int
    } else {
        v
    }
}

/// Size of the window on a screen of the given resolution.
pub open spec fn window_size(screen_width: u32, screen_height: u32) -> (int, int) {
    (clamp_width(three_quarters(screen_width)), WINDOW_HEIGHT as int)
}

/// Window size for a screen of the given resolution: three quarters of the
/// screen width, kept between `MIN_WINDOW_WIDTH` and `MAX_WINDOW_WIDTH`, by a
/// fixed height of `WINDOW_HEIGHT`.
pub fn calculate_window_size(screen_width: u32, screen_height: u32) -> (r: (u32, u32))
    ensures
        (r.0 as int, r.1 as int) == window_size(screen_width, screen_height),
        MIN_WINDOW_WIDTH <= r.0 <= MAX_WINDOW_WIDTH,
{
    let scaled: u64 = (screen_width as u64) * 3 / 4;
    let width: u32 = if scaled < MIN_WINDOW_WIDTH as u64 {
        MIN_WINDOW_WIDTH
    } else if scaled > MAX_WINDOW_WIDTH as u64 {
        MAX_WINDOW_WIDTH
    } else {
        scaled as u32
    };
    (width, WINDOW_HEIGHT)
}

} // verus!
