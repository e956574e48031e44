use workspace_appearance::color::{
    alpha_byte_to_percent, blend_onto, channel_to_byte, effective_alpha_percent,
    percent_to_alpha_byte, rgba_hex_with_alpha_percent, Rgba, FULL,
};

fn channel(value: f32) -> u32 {
    (((value * 255.0) as f64 * 65536.0).round() as u32).min(FULL)
}

fn fraction(channel: u32) -> f64 {
    channel as f64 / FULL as f64
}

fn bytes(r: u8, g: u8, b: u8, a: u8) -> Rgba {
    let wide = |byte: u8| byte as u32 * 0x1_0000;
    Rgba { r: wide(r), g: wide(g), b: wide(b), a: wide(a) }
}

fn hsla(h: f32, s: f32, l: f32, a: f32) -> Rgba {
    let c = (1.0 - (2.0 * l - 1.0).abs()) * s;
    let x = c * (1.0 - ((h * 6.0) % 2.0 - 1.0).abs());
    let m = l - c / 2.0;
    let (r, g, b) = match (h * 6.0).floor() as i32 {
        0 | 6 => (c, x, 0.0),
        1 => (x, c, 0.0),
        2 => (0.0, c, x),
        3 => (0.0, x, c),
        4 => (x, 0.0, c),
        _ => (c, 0.0, x),
    };
    Rgba { r: channel(r + m), g: channel(g + m), b: channel(b + m), a: channel(a) }
}

#[test]
fn percent_to_alpha_byte_roundtrip() {
    assert_eq!(percent_to_alpha_byte(100), 255);
    assert_eq!(percent_to_alpha_byte(0), 0);
    assert_eq!(percent_to_alpha_byte(50), 128);
}

#[test]
fn alpha_byte_to_percent_roundtrip() {
    assert_eq!(alpha_byte_to_percent(255), 100);
    assert_eq!(alpha_byte_to_percent(0), 0);
    assert_eq!(alpha_byte_to_percent(128), 50);
}

#[test]
fn rgba_hex_with_alpha_percent_only_changes_alpha() {
    let rgba: Rgba = hsla(0.5, 0.5, 0.5, 1.0);
    let hex_full = rgba_hex_with_alpha_percent(rgba, 100);
    assert!(hex_full.ends_with("ff"), "100% alpha must serialize fully opaque: {hex_full}");

    let hex_half = rgba_hex_with_alpha_percent(rgba, 50);
    assert_eq!(&hex_half[0..7], &hex_full[0..7], "RGB must be unchanged");
    assert_eq!(&hex_half[7..9], "80", "alpha byte must be 50% = 0x80");
}

#[test]
fn blend_onto_recovers_base_when_color_is_fully_transparent() {
    // A theme key such as `terminal.background: #00000000`: alpha 0 with an
    // arbitrary RGB. Blending must recover the background, not paint black.
    let base = hsla(0.1, 0.3, 0.2, 1.0);
    let invisible_placeholder = hsla(0.0, 0.0, 0.0, 0.0);

    let blended = blend_onto(base, invisible_placeholder);
    assert!((fraction(blended.r) - fraction(base.r)).abs() < 0.001);
    assert!((fraction(blended.g) - fraction(base.g)).abs() < 0.001);
    assert!((fraction(blended.b) - fraction(base.b)).abs() < 0.001);
}

#[test]
fn blend_onto_keeps_color_when_fully_opaque() {
    let base = hsla(0.1, 0.3, 0.2, 1.0);
    let opaque_color = hsla(0.6, 0.5, 0.4, 1.0);

    let blended = blend_onto(base, opaque_color);
    assert!((fraction(blended.r) - fraction(opaque_color.r)).abs() < 0.001);
    assert!((fraction(blended.g) - fraction(opaque_color.g)).abs() < 0.001);
    assert!((fraction(blended.b) - fraction(opaque_color.b)).abs() < 0.001);
}

#[test]
fn effective_alpha_percent_reads_hsla_alpha_directly() {
    assert_eq!(effective_alpha_percent(hsla(0.0, 0.0, 0.0, 0.25)), 25);
    assert_eq!(effective_alpha_percent(hsla(0.0, 0.0, 0.0, 1.0)), 100);
}

#[test]
fn percentages_agree_with_floating_point() {
    for value in 0..=255u8 {
        let byte = ((value.min(100) as f32 / 100.0) * 255.0).round() as u8;
        assert_eq!(percent_to_alpha_byte(value), byte);
        let percent = ((value as f32 / 255.0) * 100.0).round() as u8;
        assert_eq!(alpha_byte_to_percent(value), percent);
    }
}

#[test]
fn every_percentage_comes_back_from_its_alpha_byte() {
    for percent in 0..=100u8 {
        assert_eq!(alpha_byte_to_percent(percent_to_alpha_byte(percent)), percent);
    }
    assert_eq!(alpha_byte_to_percent(percent_to_alpha_byte(101)), 100);
    assert_eq!(alpha_byte_to_percent(percent_to_alpha_byte(255)), 100);
}

#[test]
fn alpha_grows_with_the_percentage() {
    for percent in 0..100u8 {
        assert!(percent_to_alpha_byte(percent) < percent_to_alpha_byte(percent + 1));
    }
    for alpha in 0..255u8 {
        assert!(alpha_byte_to_percent(alpha) <= alpha_byte_to_percent(alpha + 1));
    }
}

#[test]
fn channels_round_to_the_nearest_byte() {
    for byte in 0..=255u8 {
        assert_eq!(channel_to_byte(byte as u32 * 0x1_0000), byte);
    }
    assert_eq!(channel_to_byte(u32::MAX), 255);
    assert_eq!(channel_to_byte(FULL), 255);
    assert_eq!(channel_to_byte(FULL + 1), 255);
    assert_eq!(channel_to_byte(0x7fff), 0);
    assert_eq!(channel_to_byte(0x8000), 1);
    assert_eq!(channel_to_byte(channel(0.5)), 128);
    assert_eq!(channel_to_byte(channel(0.25)), 64);
    assert_eq!(channel_to_byte(channel(0.7)), 179);
    assert_eq!(channel_to_byte(channel(1.0)), 255);
    for step in 0..=10_000 {
        let value = step as f32 / 10_000.0;
        assert_eq!(channel_to_byte(channel(value)), (value * 255.0).round() as u8);
    }
}

#[test]
fn hex_text_is_lower_case_and_padded() {
    assert_eq!(rgba_hex_with_alpha_percent(bytes(0x12, 0xab, 0x0f, 0x00), 85), "#12ab0fd9");
    assert_eq!(rgba_hex_with_alpha_percent(bytes(0, 0, 0, 255), 0), "#00000000");
    assert_eq!(rgba_hex_with_alpha_percent(bytes(255, 255, 255, 1), 200), "#ffffffff");
    assert_eq!(rgba_hex_with_alpha_percent(bytes(0x9a, 0xa9, 0xf0, 7), 1), "#9aa9f003");
}

#[test]
fn alpha_of_the_color_plays_no_part_in_its_text() {
    let opaque = bytes(10, 20, 30, 255);
    let faint = bytes(10, 20, 30, 3);
    assert_eq!(
        rgba_hex_with_alpha_percent(opaque, 40),
        rgba_hex_with_alpha_percent(faint, 40)
    );
}

#[test]
fn blend_is_exact_at_both_ends() {
    let base = bytes(17, 99, 250, 255);
    let invisible = Rgba { a: 0, ..bytes(1, 2, 3, 0) };
    assert_eq!(blend_onto(base, invisible), base);
    let solid = bytes(200, 0, 33, 255);
    assert_eq!(blend_onto(base, solid), solid);
    assert_eq!(blend_onto(invisible, solid), solid);
}

#[test]
fn blend_of_bytes_matches_floating_point() {
    for base in (0..=255u8).step_by(5) {
        for color in (0..=255u8).step_by(3) {
            for alpha in (0..=255u8).step_by(17) {
                let blended = blend_onto(
                    bytes(base, base, base, 255),
                    bytes(color, color, color, alpha),
                );
                let a = alpha as f32 / 255.0;
                let value = (base as f32 / 255.0) * (1.0 - a) + (color as f32 / 255.0) * a;
                assert_eq!(channel_to_byte(blended.r), (value * 255.0).round() as u8);
                assert_eq!(blended.a, FULL);
            }
        }
    }
}

#[test]
fn halfway_blends_round_up() {
    let white = hsla(0.0, 0.0, 1.0, 1.0);
    for (alpha, text) in [
        (0.5, "#808080ff"),
        (0.1, "#e6e6e6ff"),
        (0.3, "#b3b3b3ff"),
        (0.7, "#4d4d4dff"),
        (0.9, "#1a1a1aff"),
    ] {
        let shown = blend_onto(white, hsla(0.0, 0.0, 0.0, alpha));
        assert_eq!(rgba_hex_with_alpha_percent(shown, 100), text);
        let value: f32 = 1.0 * (1.0 - alpha) + 0.0 * alpha;
        assert_eq!(channel_to_byte(shown.r), (value * 255.0).round() as u8);
    }
}

#[test]
fn black_and_white_blend_as_in_floating_point() {
    for step in 0..=1000 {
        let alpha = step as f32 / 1000.0;
        for (base, color) in [(0.0f32, 1.0f32), (1.0, 0.0)] {
            let shown = blend_onto(hsla(0.0, 0.0, base, 1.0), hsla(0.0, 0.0, color, alpha));
            let value = base * (1.0 - alpha) + color * alpha;
            assert_eq!(channel_to_byte(shown.g), (value * 255.0).round() as u8);
        }
    }
}

#[test]
fn channels_above_full_count_as_full() {
    let base = bytes(40, 50, 60, 255);
    let bright = Rgba { r: u32::MAX, g: FULL + 1, b: FULL, a: u32::MAX };
    assert_eq!(blend_onto(base, bright), bytes(255, 255, 255, 255));
    assert_eq!(rgba_hex_with_alpha_percent(bright, 50), "#ffffff80");
    assert_eq!(effective_alpha_percent(bright), 100);
}

#[test]
fn blend_lies_between_base_and_color() {
    let blended = blend_onto(bytes(10, 200, 7, 255), bytes(20, 100, 7, 100));
    assert!(blended.r > bytes(10, 0, 0, 0).r && blended.r < bytes(20, 0, 0, 0).r);
    assert!(blended.g < bytes(0, 200, 0, 0).g && blended.g > bytes(0, 100, 0, 0).g);
    assert_eq!(blended.b, bytes(0, 0, 7, 0).b);
}

#[test]
fn text_tells_the_bytes_of_a_color() {
    let mut seen = Vec::new();
    for byte in 0..=255u8 {
        let text = rgba_hex_with_alpha_percent(bytes(byte, 0, 255 - byte, 0), 100);
        assert_eq!(u8::from_str_radix(&text[1..3], 16), Ok(byte));
        assert_eq!(u8::from_str_radix(&text[5..7], 16), Ok(255 - byte));
        assert!(!seen.contains(&text));
        seen.push(text);
    }
}
