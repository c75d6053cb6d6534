use tabstyle::palette::{Color, Palette, Rgba, BLEND_FULL};
use tabstyle::text::{TextStyleTuple, TextType};
use tabstyle::text::highlight;

fn night_palette() -> Palette {
    // A dark theme: secondary 0.7/0.35/0.0 of full intensity.
    Palette {
        secondary: Color { r: 700, g: 350, b: 0 },
        outgoing: Color { r: 230, g: 850, b: 940 },
        text_body: Color { r: 1000, g: 1000, b: 1000 },
        nightly: true,
    }
}

fn day_palette() -> Palette {
    Palette {
        secondary: Color { r: 160, g: 350, b: 725 },
        outgoing: Color { r: 700, g: 80, b: 255 },
        text_body: Color { r: 0, g: 0, b: 0 },
        nightly: false,
    }
}

fn all_roles() -> Vec<TextType> {
    vec![
        TextType::Standard,
        TextType::Incoming,
        TextType::Outgoing,
        TextType::Title,
        TextType::Subtitle,
        TextType::Danger,
        TextType::Sponsor,
    ]
}

#[test]
fn alpha_is_always_full() {
    for palette in [night_palette(), day_palette()] {
        for role in all_roles() {
            assert_eq!(highlight(palette, role).a, BLEND_FULL);
        }
    }
}

#[test]
fn danger_is_fixed_for_every_palette() {
    for palette in [night_palette(), day_palette()] {
        assert_eq!(
            highlight(palette, TextType::Danger),
            Rgba { r: 800000, g: 150000, b: 150000, a: 1000000 }
        );
    }
}

#[test]
fn sponsor_is_fixed_for_every_palette() {
    for palette in [night_palette(), day_palette()] {
        assert_eq!(
            highlight(palette, TextType::Sponsor),
            Rgba { r: 1000000, g: 300000, b: 500000, a: 1000000 }
        );
    }
}

#[test]
fn title_nightly_blends_white_at_weight_600() {
    // 1.0 * 0.4 + channel * 0.6, on the millionth scale.
    let c = highlight(night_palette(), TextType::Title);
    assert_eq!(c, Rgba { r: 820000, g: 610000, b: 400000, a: 1000000 });
}

#[test]
fn title_day_blends_gray_at_weight_900() {
    // 0.7 * 0.1 + channel * 0.9.
    let c = highlight(day_palette(), TextType::Title);
    assert_eq!(c, Rgba { r: 214000, g: 385000, b: 722500, a: 1000000 });
}

#[test]
fn subtitle_nightly_blends_white_at_weight_400() {
    // 1.0 * 0.6 + channel * 0.4.
    let c = highlight(night_palette(), TextType::Subtitle);
    assert_eq!(c, Rgba { r: 880000, g: 740000, b: 600000, a: 1000000 });
}

#[test]
fn subtitle_day_blends_gray_at_weight_600() {
    // 0.7 * 0.4 + channel * 0.6.
    let c = highlight(day_palette(), TextType::Subtitle);
    assert_eq!(c, Rgba { r: 376000, g: 490000, b: 715000, a: 1000000 });
}

#[test]
fn incoming_is_secondary_unchanged() {
    let c = highlight(night_palette(), TextType::Incoming);
    assert_eq!(c, Rgba { r: 700000, g: 350000, b: 0, a: 1000000 });
}

#[test]
fn outgoing_is_outgoing_unchanged() {
    let c = highlight(night_palette(), TextType::Outgoing);
    assert_eq!(c, Rgba { r: 230000, g: 850000, b: 940000, a: 1000000 });
}

#[test]
fn standard_is_body_text() {
    let c = highlight(day_palette(), TextType::Standard);
    assert_eq!(c, Rgba { r: 0, g: 0, b: 0, a: 1000000 });
}

#[test]
fn appearance_standard_has_no_override() {
    let t = TextStyleTuple(night_palette(), TextType::Standard);
    assert!(t.appearance().is_none());
}

#[test]
fn appearance_other_roles_use_highlight() {
    let palette = night_palette();
    let t = TextStyleTuple(palette, TextType::Danger);
    assert_eq!(
        t.appearance(),
        Some(Rgba { r: 800000, g: 150000, b: 150000, a: 1000000 })
    );
    let t = TextStyleTuple(palette, TextType::Title);
    assert_eq!(t.appearance(), Some(highlight(palette, TextType::Title)));
}

#[test]
fn palette_wf_check() {
    assert!(night_palette().is_wf());
    let bad = Palette {
        secondary: Color { r: 1001, g: 0, b: 0 },
        outgoing: Color { r: 0, g: 0, b: 0 },
        text_body: Color { r: 0, g: 0, b: 0 },
        nightly: false,
    };
    assert!(!bad.is_wf());
}

#[test]
fn subtitle_with_desc_formats_both_lines() {
    let r = TextType::highlighted_subtitle_with_desc("Bytes", "total transmitted data");
    assert_eq!(r.caption.text, "Bytes:");
    assert_eq!(r.caption.style, TextType::Subtitle);
    assert_eq!(r.desc.text, "   total transmitted data");
    assert_eq!(r.desc.style, TextType::Standard);
}
