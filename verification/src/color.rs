//! Colors, brightness values and pixels.
//!
//! Brightness travels on the wire as a fraction of full intensity; the
//! library holds it in thousandths (permille), so that the valid range
//! `[0.0, 1.0]` becomes the integer range `[0, 1000]`.

use vstd::prelude::*;

verus! {

/// Full intensity, in permille.
pub const BRIGHTNESS_FULL: i32 = 1000;

/// A brightness multiplier in permille of full intensity. Any `i32` can be
/// carried (the wire layer does not validate), but only values in
/// `[0, BRIGHTNESS_FULL]` are accepted by the device operations.
#[derive(Clone, Copy, PartialEq, Eq, Structural, Debug)]
pub struct Brightness {
    pub permille: i32,
}

impl Brightness {
    /// A brightness is valid when it lies inside the unit interval.
    pub open spec fn valid(self) -> bool {
        0 <= self.permille <= BRIGHTNESS_FULL
    }

    /// Full intensity.
    pub fn full() -> (b: Brightness)
        ensures
            b.permille == BRIGHTNESS_FULL,
            b.valid(),
    {
        Brightness { permille: BRIGHTNESS_FULL }
    }

    /// Whether this brightness lies inside the unit interval.
    pub fn is_valid(&self) -> (r: bool)
        ensures
            r == self.valid(),
    {
        0 <= self.permille && self.permille <= BRIGHTNESS_FULL
    }
}

/// One rendered color value, as handed to the physical device.
#[derive(Clone, Copy, PartialEq, Eq, Structural, Debug)]
pub struct Color {
    pub r: u8,
    pub g: u8,
    pub b: u8,
}

/// One addressable unit of the strip's staging buffer: a color together
/// with the per-pixel brightness it was set with.
#[derive(Clone, Copy, PartialEq, Eq, Structural, Debug)]
pub struct Pixel {
    pub r: u8,
    pub g: u8,
    pub b: u8,
    pub brightness: Brightness,
}

/// The off state of a pixel: black at zero intensity.
pub open spec fn off_pixel() -> Pixel {
    Pixel { r: 0, g: 0, b: 0, brightness: Brightness { permille: 0 } }
}

impl Pixel {
    /// Constructs the off state of a pixel.
    pub fn off() -> (p: Pixel)
        ensures
            p == off_pixel(),
    {
        Pixel { r: 0, g: 0, b: 0, brightness: Brightness { permille: 0 } }
    }
}

/// A channel value scaled by a per-pixel brightness and the global
/// brightness multiplier, in integer arithmetic over permille values.
pub open spec fn scale_spec(c: u8, pixel_b: Brightness, global_b: Brightness) -> u8 {
    (((c as int) * (pixel_b.permille as int) * (global_b.permille as int))
        / ((BRIGHTNESS_FULL * BRIGHTNESS_FULL) as int)) as u8
}

/// Scales one channel value by two valid brightness multipliers.
pub fn scale_channel(c: u8, pixel_b: Brightness, global_b: Brightness) -> (r: u8)
    requires
        pixel_b.valid(),
        global_b.valid(),
    ensures
        r == scale_spec(c, pixel_b, global_b),
{
    let cw: u64 = c as u64;
    let pb: u64 = pixel_b.permille as u64;
    let gb: u64 = global_b.permille as u64;
    proof {
        assert(cw * pb <= 255 * 1000 && cw * pb * gb <= 255 * 1000 * 1000) by (nonlinear_arith)
            requires
                cw <= 255,
                pb <= 1000,
                gb <= 1000,
        ;
    }
    let num: u64 = cw * pb * gb;
    let q: u64 = num / 1000000;
    proof {
        assert(num / 1000000 <= 255) by (nonlinear_arith)
            requires
                num <= 255 * 1000 * 1000,
        ;
    }
    q as u8
}

} // verus!
