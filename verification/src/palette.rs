//! Color values and palettes, held at fixed precision.
//!
//! A palette channel is stored in thousandths of full intensity, so the theme
//! intensities in use (such as 0.7 or 0.35) are exact. A blended channel is
//! stored in millionths: the weighted average of two thousandth-scale
//! intensities with a thousandth-scale weight lands exactly on that scale,
//! so no computation here rounds.

use vstd::prelude::*;

verus! {

/// Full intensity of a palette color channel, in thousandths.
pub const CHANNEL_FULL: u32 = 1000;

/// Full intensity of a blended color channel, in millionths.
pub const BLEND_FULL: u32 = 1000000;

/// An RGB color with channels in thousandths of full intensity.
#[derive(Clone, Copy, Debug, PartialEq, Eq, Structural)]
pub struct Color {
    pub r: u32,
    pub g: u32,
    pub b: u32,
}

impl Color {
    /// Every channel is at most full intensity.
    pub open spec fn wf(self) -> bool {
        self.r <= CHANNEL_FULL && self.g <= CHANNEL_FULL && self.b <= CHANNEL_FULL
    }

    /// Runtime check matching `wf`.
    pub fn is_wf(&self) -> (b: bool)
        ensures
            b == self.wf(),
    {
        self.r <= CHANNEL_FULL && self.g <= CHANNEL_FULL && self.b <= CHANNEL_FULL
    }
}

/// An RGBA color with channels in millionths of full intensity.
#[derive(Clone, Copy, Debug, PartialEq, Eq, Structural)]
pub struct Rgba {
    pub r: u32,
    pub g: u32,
    pub b: u32,
    pub a: u32,
}

impl Rgba {
    /// Every channel is at most full intensity.
    pub open spec fn wf(self) -> bool {
        self.r <= BLEND_FULL && self.g <= BLEND_FULL && self.b <= BLEND_FULL
            && self.a <= BLEND_FULL
    }
}

impl View for Rgba {
    type V = (int, int, int, int);

    open spec fn view(&self) -> (int, int, int, int) {
        (self.r as int, self.g as int, self.b as int, self.a as int)
    }
}

/// A named theme's fixed semantic colors and its dark-variant flag.
#[derive(Clone, Copy, Debug, PartialEq, Eq, Structural)]
pub struct Palette {
    /// Accent color: titles blend towards it, incoming traffic uses it.
    pub secondary: Color,
    /// Color used for outgoing traffic.
    pub outgoing: Color,
    /// Default body-text color.
    pub text_body: Color,
    /// Whether this palette is a dark ("nightly") variant.
    pub nightly: bool,
}

impl Palette {
    /// Every color of the palette is well formed.
    pub open spec fn wf(self) -> bool {
        self.secondary.wf() && self.outgoing.wf() && self.text_body.wf()
    }

    /// Runtime check matching `wf`.
    pub fn is_wf(&self) -> (b: bool)
        ensures
            b == self.wf(),
    {
        self.secondary.is_wf() && self.outgoing.is_wf() && self.text_body.is_wf()
    }
}

/// The weighted average of a neutral intensity and a palette channel, both in
/// thousandths, with `weight` (in thousandths) on the palette channel. The
/// result is in millionths.
pub open spec fn spec_blend(neutral: int, weight: int, channel: int) -> int {
    neutral * (1000 - weight) + channel * weight
}

/// A palette color rescaled from thousandths to millionths, at full alpha.
pub open spec fn spec_opaque(c: Color) -> (int, int, int, int) {
    ((c.r * 1000) as int, (c.g * 1000) as int, (c.b * 1000) as int, BLEND_FULL as int)
}

/// Blends one channel: see `spec_blend`. The result never exceeds full
/// intensity on the millionth scale.
pub fn blend_channel(neutral: u32, weight: u32, channel: u32) -> (r: u32)
    requires
        neutral <= CHANNEL_FULL,
        weight <= CHANNEL_FULL,
        channel <= CHANNEL_FULL,
    ensures
        r == spec_blend(neutral as int, weight as int, channel as int),
        r <= BLEND_FULL,
{
    proof {
        assert(neutral * (1000 - weight) + channel * weight <= 1000000) by (nonlinear_arith)
            requires
                neutral <= 1000,
                weight <= 1000,
                channel <= 1000,
        ;
    }
    neutral * (CHANNEL_FULL - weight) + channel * weight
}

/// A palette color at full alpha, rescaled to the millionth scale.
pub fn opaque(c: Color) -> (r: Rgba)
    requires
        c.wf(),
    ensures
        r@ == spec_opaque(c),
        r.wf(),
{
    Rgba { r: c.r * 1000, g: c.g * 1000, b: c.b * 1000, a: BLEND_FULL }
}

} // verus!
