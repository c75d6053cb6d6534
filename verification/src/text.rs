//! Semantic text roles and the themed colors they resolve to.

use vstd::prelude::*;
use vstd::string::StringExecFns;
use crate::palette::{blend_channel, opaque, spec_blend, spec_opaque, Palette, Rgba, BLEND_FULL};

verus! {

/// Semantic classification of a text element, used to select its color.
#[derive(Clone, Copy, Debug, Default, PartialEq, Eq, Structural)]
pub enum TextType {
    #[default]
    Standard,
    Incoming,
    Outgoing,
    Title,
    Subtitle,
    Danger,
    Sponsor,
}

/// Title blend weight on the palette color, nightly palettes (thousandths).
pub const TITLE_WEIGHT_NIGHTLY: u32 = 600;

/// Neutral intensity blended into titles, nightly palettes (thousandths).
pub const TITLE_NEUTRAL_NIGHTLY: u32 = 1000;

/// Title blend weight on the palette color, daytime palettes (thousandths).
pub const TITLE_WEIGHT_DAY: u32 = 900;

/// Neutral intensity blended into titles, daytime palettes (thousandths).
pub const TITLE_NEUTRAL_DAY: u32 = 700;

/// Subtitle blend weight on the palette color, nightly palettes (thousandths).
pub const SUBTITLE_WEIGHT_NIGHTLY: u32 = 400;

/// Neutral intensity blended into subtitles, nightly palettes (thousandths).
pub const SUBTITLE_NEUTRAL_NIGHTLY: u32 = 1000;

/// Subtitle blend weight on the palette color, daytime palettes (thousandths).
pub const SUBTITLE_WEIGHT_DAY: u32 = 600;

/// Neutral intensity blended into subtitles, daytime palettes (thousandths).
pub const SUBTITLE_NEUTRAL_DAY: u32 = 700;

/// The color `highlight` returns, channel by channel on the millionth scale.
pub open spec fn highlight_spec(style: Palette, element: TextType) -> (int, int, int, int) {
    match element {
        TextType::Title => {
            let weight = if style.nightly { TITLE_WEIGHT_NIGHTLY as int } else { TITLE_WEIGHT_DAY as int };
            let neutral = if style.nightly { TITLE_NEUTRAL_NIGHTLY as int } else { TITLE_NEUTRAL_DAY as int };
            (
                spec_blend(neutral, weight, style.secondary.r as int),
                spec_blend(neutral, weight, style.secondary.g as int),
                spec_blend(neutral, weight, style.secondary.b as int),
                BLEND_FULL as int,
            )
        },
        TextType::Subtitle => {
            let weight = if style.nightly { SUBTITLE_WEIGHT_NIGHTLY as int } else { SUBTITLE_WEIGHT_DAY as int };
            let neutral = if style.nightly { SUBTITLE_NEUTRAL_NIGHTLY as int } else { SUBTITLE_NEUTRAL_DAY as int };
            (
                spec_blend(neutral, weight, style.secondary.r as int),
                spec_blend(neutral, weight, style.secondary.g as int),
                spec_blend(neutral, weight, style.secondary.b as int),
                BLEND_FULL as int,
            )
        },
        TextType::Incoming => spec_opaque(style.secondary),
        TextType::Outgoing => spec_opaque(style.outgoing),
        TextType::Danger => (800000, 150000, 150000, BLEND_FULL as int),
        TextType::Sponsor => (1000000, 300000, 500000, BLEND_FULL as int),
        TextType::Standard => spec_opaque(style.text_body),
    }
}

/// Resolves a text role against a palette to a concrete RGBA color.
///
/// Titles and subtitles are the weighted average of a neutral intensity and
/// the palette's secondary color; the weights depend on whether the palette
/// is nightly. Incoming and outgoing text use the palette colors unchanged;
/// danger and sponsor text use fixed colors. The alpha channel is always at
/// full intensity.
pub fn highlight(style: Palette, element: TextType) -> (c: Rgba)
    requires
        style.wf(),
    ensures
        c@ == highlight_spec(style, element),
        c.wf(),
        c.a == BLEND_FULL,
{
    match element {
        TextType::Title => {
            let weight: u32 = if style.nightly { TITLE_WEIGHT_NIGHTLY } else { TITLE_WEIGHT_DAY };
            let neutral: u32 = if style.nightly { TITLE_NEUTRAL_NIGHTLY } else { TITLE_NEUTRAL_DAY };
            Rgba {
                r: blend_channel(neutral, weight, style.secondary.r),
                g: blend_channel(neutral, weight, style.secondary.g),
                b: blend_channel(neutral, weight, style.secondary.b),
                a: BLEND_FULL,
            }
        },
        TextType::Subtitle => {
            let weight: u32 = if style.nightly { SUBTITLE_WEIGHT_NIGHTLY } else { SUBTITLE_WEIGHT_DAY };
            let neutral: u32 = if style.nightly { SUBTITLE_NEUTRAL_NIGHTLY } else { SUBTITLE_NEUTRAL_DAY };
            Rgba {
                r: blend_channel(neutral, weight, style.secondary.r),
                g: blend_channel(neutral, weight, style.secondary.g),
                b: blend_channel(neutral, weight, style.secondary.b),
                a: BLEND_FULL,
            }
        },
        TextType::Incoming => opaque(style.secondary),
        TextType::Outgoing => opaque(style.outgoing),
        TextType::Danger => Rgba { r: 800000, g: 150000, b: 150000, a: BLEND_FULL },
        TextType::Sponsor => Rgba { r: 1000000, g: 300000, b: 500000, a: BLEND_FULL },
        TextType::Standard => opaque(style.text_body),
    }
}

/// Law: every highlighted color is fully opaque, for every palette and role.
pub proof fn lemma_highlight_full_alpha(style: Palette, element: TextType)
    ensures
        highlight_spec(style, element).3 == BLEND_FULL,
{
}

/// Law: danger text has the same fixed color for every palette.
pub proof fn lemma_highlight_danger_fixed(style: Palette)
    ensures
        highlight_spec(style, TextType::Danger) == (800000int, 150000int, 150000int, 1000000int),
{
}

/// Law: sponsor text has the same fixed color for every palette.
pub proof fn lemma_highlight_sponsor_fixed(style: Palette)
    ensures
        highlight_spec(style, TextType::Sponsor) == (1000000int, 300000int, 500000int, 1000000int),
{
}

/// Law: for nightly palettes, a title is the blend of full-intensity white
/// with the palette's secondary color, at weight 0.6 on the palette color.
pub proof fn lemma_highlight_title_nightly(style: Palette)
    requires
        style.nightly,
    ensures
        highlight_spec(style, TextType::Title) == (
            spec_blend(1000, 600, style.secondary.r as int),
            spec_blend(1000, 600, style.secondary.g as int),
            spec_blend(1000, 600, style.secondary.b as int),
            1000000int,
        ),
{
}

/// Law: for non-nightly palettes, a subtitle is the blend of the 0.7 neutral
/// gray with the palette's secondary color, at weight 0.6 on the palette
/// color.
pub proof fn lemma_highlight_subtitle_day(style: Palette)
    requires
        !style.nightly,
    ensures
        highlight_spec(style, TextType::Subtitle) == (
            spec_blend(700, 600, style.secondary.r as int),
            spec_blend(700, 600, style.secondary.g as int),
            spec_blend(700, 600, style.secondary.b as int),
            1000000int,
        ),
{
}

/// A palette paired with a text role, as handed to the rendering layer.
#[derive(Clone)]
pub struct TextStyleTuple(pub Palette, pub TextType);

impl TextStyleTuple {
    /// The color override for this role: none for standard text (the caller
    /// keeps its default), the highlighted color for every other role.
    pub fn appearance(&self) -> (c: Option<Rgba>)
        requires
            self.0.wf(),
        ensures
            self.1 == TextType::Standard ==> c is None,
            self.1 != TextType::Standard ==> (c matches Some(col) && col@ == highlight_spec(
                self.0,
                self.1,
            ) && col.wf()),
    {
        if self.1 == TextType::Standard {
            None
        } else {
            Some(highlight(self.0, self.1))
        }
    }
}

/// One line of styled text.
pub struct TextLine {
    pub text: String,
    pub style: TextType,
}

/// A caption line followed by an indented description line.
pub struct SubtitleWithDesc {
    pub caption: TextLine,
    pub desc: TextLine,
}

impl TextType {
    /// A caption (the subtitle suffixed with a colon, in subtitle style)
    /// followed by the description, indented and in standard style.
    pub fn highlighted_subtitle_with_desc(subtitle: &str, desc: &str) -> (r: SubtitleWithDesc)
        ensures
            r.caption.text@ == subtitle@ + ":"@,
            r.caption.style == TextType::Subtitle,
            r.desc.text@ == "   "@ + desc@,
            r.desc.style == TextType::Standard,
    {
        let mut caption = subtitle.to_owned();
        caption.append(":");
        let mut description = "   ".to_owned();
        description.append(desc);
        SubtitleWithDesc {
            caption: TextLine { text: caption, style: TextType::Subtitle },
            desc: TextLine { text: description, style: TextType::Standard },
        }
    }
}

} // verus!
