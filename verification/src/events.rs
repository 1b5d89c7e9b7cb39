//! Raw input events, as a closed tagged union.
//!
//! The host's event loop translates its native device events into these
//! variants; anything it does not care to translate becomes `Other`, which
//! the accumulator ignores. Pointer and scroll magnitudes are fixed-point
//! scaled like every other quantity in the crate.

use vstd::prelude::*;

verus! {

/// One raw device event.
#[derive(Clone, Copy, Debug)]
pub enum InputEvent {
    /// Relative pointer motion, horizontal and vertical.
    MouseMotion { dx: i64, dy: i64 },
    /// A button changed state.
    Button { button: u32, pressed: bool },
    /// Scroll by a vertical line delta.
    MouseWheel { dy: i64 },
    /// Anything else; always ignored.
    Other,
}

} // verus!
