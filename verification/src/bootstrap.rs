//! The one decision the GUI bootstrap makes on its own: the initial window
//! size, taken from the host's viewport when the host exposes it and falling
//! back to a fixed default otherwise.

use vstd::prelude::*;

verus! {

/// Default window width in logical pixels, used when the host environment
/// does not expose viewport metrics.
pub const DEFAULT_WIDTH: u32 = 1920;

/// Default window height in logical pixels, used when the host environment
/// does not expose viewport metrics.
pub const DEFAULT_HEIGHT: u32 = 1080;

/// Picks the initial window size: each dimension is the host's viewport
/// metric when present, and the fixed default otherwise.
pub fn window_size(viewport_width: Option<u32>, viewport_height: Option<u32>) -> (size: (
    u32,
    u32,
))
    ensures
        size.0 == if viewport_width is Some {
            viewport_width->0
        } else {
            DEFAULT_WIDTH
        },
        size.1 == if viewport_height is Some {
            viewport_height->0
        } else {
            DEFAULT_HEIGHT
        },
{
    let w = match viewport_width {
        Some(w) => w,
        None => DEFAULT_WIDTH,
    };
    let h = match viewport_height {
        Some(h) => h,
        None => DEFAULT_HEIGHT,
    };
    (w, h)
}

} // verus!
