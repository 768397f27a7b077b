//! Verified drivers for two Waveshare e-paper panels: the 2.13" V4
//! (SSD1680 controller) and the 3.52" (UC8253 controller).
//!
//! Each driver decides what the panel is told: it turns every operation
//! (init, frame upload, refresh, sleep, ...) into a plan, a sequence of
//! [`interface::Op`] steps (pin levels, single-byte SPI writes, delays and
//! busy waits). The contracts state each plan exactly. Whoever owns the
//! SPI bus and the GPIO pins performs the steps in order and asks
//! [`interface::after_step`] after each one whether to go on: the first
//! failed SPI write ends the plan with its error.
use vstd::prelude::*;

pub mod color;
pub mod epd2in13_v4;
pub mod epd3in52;
pub mod interface;
pub mod traits;

verus! {

/// Number of bytes a 1-bit-per-pixel frame of `width` x `height` pixels
/// takes: every row is padded to whole bytes.
pub open spec fn spec_buffer_len(width: int, height: int) -> int {
    (width + 7) / 8 * height
}

/// Computes the buffer length of a frame of `width` x `height` pixels.
pub fn buffer_len(width: usize, height: usize) -> (n: usize)
    requires
        width + 7 <= usize::MAX,
        (width + 7) / 8 * height <= usize::MAX,
    ensures
        n == spec_buffer_len(width as int, height as int),
{
    let bytes_per_row: usize = (width + 7) / 8;
    bytes_per_row * height
}

/// Each row of a frame buffer takes the row's pixels rounded up to whole
/// bytes: the buffer is `height` rows of `r` bytes, where `r` bytes hold at
/// least `width` bits and fewer than `width + 8`.
pub proof fn lemma_buffer_rows(width: int, height: int)
    requires
        width >= 0,
        height >= 0,
    ensures
        exists|r: int|
            #![trigger r * height]
            spec_buffer_len(width, height) == r * height && width <= r * 8 < width + 8,
{
    let r = (width + 7) / 8;
    assert(spec_buffer_len(width, height) == r * height);
}

} // verus!
