use smart_leds::RGB8;
use vstd::prelude::*;

verus! {

/// Brightness the accent LED is driven at, out of 255.
pub const ACCENT_BRIGHTNESS: u8 = 50;

/// An RGB colour, eight bits a channel.
#[derive(Clone, Copy, Debug, PartialEq, Eq, Structural)]
pub struct Color {
    pub r: u8,
    pub g: u8,
    pub b: u8,
}

/// One channel scaled down to a brightness out of 255.
pub open spec fn dimmed(c: u8, level: u8) -> int {
    (c as int * (level as int + 1)) / 256
}

/// Relies on `smart_leds::brightness`: each channel `c` of the pixel becomes
/// `c * (level + 1) / 256`.
#[verifier::external_body]
fn dim(c: Color, level: u8) -> (r: Color)
    ensures
        r.r as int == dimmed(c.r, level),
        r.g as int == dimmed(c.g, level),
        r.b as int == dimmed(c.b, level),
{
    let pixel = RGB8 { r: c.r, g: c.g, b: c.b };
    match smart_leds::brightness(core::iter::once(pixel), level).next() {
        Some(p) => Color { r: p.r, g: p.g, b: p.b },
        None => c,
    }
}

/// The pixel that is sent to the accent LED for `color`: each channel
/// scaled to the fixed accent brightness.
pub fn accent_pixel(color: Color) -> (r: Color)
    ensures
        r.r as int == dimmed(color.r, ACCENT_BRIGHTNESS),
        r.g as int == dimmed(color.g, ACCENT_BRIGHTNESS),
        r.b as int == dimmed(color.b, ACCENT_BRIGHTNESS),
{
    dim(color, ACCENT_BRIGHTNESS)
}

} // verus!
