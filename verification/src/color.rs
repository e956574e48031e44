//! Colors, blending, and opacity as a percentage.
//!
//! A channel is an intensity on the scale of 0 to 255 in fixed point, with
//! sixteen bits behind the point. Each 8-bit value `b` is held exactly, as
//! `b * 0x1_0000`, and so is what lies halfway between two of them. A channel
//! above [`FULL`] counts as full.

use vstd::math;
use vstd::prelude::*;

use crate::rounding;
use crate::text;
use crate::text::hex_byte;

verus! {

/// The channel of full intensity.
pub const FULL: u32 = 0x00ff_0000;

/// A color with its opacity, as channels from 0 to [`FULL`].
#[derive(Clone, Copy, Debug, PartialEq, Eq, Structural)]
pub struct Rgba {
    pub r: u32,
    pub g: u32,
    pub b: u32,
    pub a: u32,
}

/// The intensity that a channel stands for.
pub open spec fn level(channel: u32) -> int {
    if channel <= FULL {
        channel as int
    } else {
        FULL as int
    }
}

/// Percentages above 100 count as 100.
pub open spec fn capped_percent(percent: u8) -> int {
    if percent <= 100 {
        percent as int
    } else {
        100
    }
}

/// The 8-bit alpha for an opacity percentage.
pub open spec fn alpha_byte(percent: u8) -> u8 {
    rounding::nearest(capped_percent(percent) * 255, 100) as u8
}

/// The opacity percentage for an 8-bit alpha.
pub open spec fn alpha_percent(alpha: u8) -> u8 {
    rounding::nearest(alpha as int * 100, 255) as u8
}

/// The 8-bit value nearest to a channel; from halfway on it is the higher one.
pub open spec fn channel_byte(channel: u32) -> u8 {
    rounding::nearest(level(channel), 0x1_0000) as u8
}

/// One channel of `color` at opacity `alpha`, painted over `base`.
pub open spec fn blend_channel(base: u32, color: u32, alpha: u32) -> u32 {
    rounding::nearest(
        level(base) * (0x00ff_0000 - level(alpha)) + level(color) * level(alpha),
        0x00ff_0000,
    ) as u32
}

/// The 8-bit alpha for an opacity percentage. More than 100 counts as 100.
pub fn percent_to_alpha_byte(percent: u8) -> (byte: u8)
    ensures
        byte as int == rounding::nearest(capped_percent(percent) * 255, 100),
        byte == alpha_byte(percent),
        200 * byte - 100 <= 510 * math::min(percent as int, 100) < 200 * byte + 100,
{
    let percent: u8 = if percent > 100 {
        100
    } else {
        percent
    };
    ((percent as u32 * 255 + 50) / 100) as u8
}

/// The opacity percentage for an 8-bit alpha.
pub fn alpha_byte_to_percent(alpha: u8) -> (percent: u8)
    ensures
        percent as int == rounding::nearest(alpha as int * 100, 255),
        percent == alpha_percent(alpha),
        510 * percent - 255 <= 200 * alpha < 510 * percent + 255,
{
    ((alpha as u32 * 200 + 255) / 510) as u8
}

fn capped(channel: u32) -> (result: u32)
    ensures
        result == level(channel),
{
    if channel > FULL {
        FULL
    } else {
        channel
    }
}

/// The 8-bit value nearest to a channel; from halfway on it is the higher one.
pub fn channel_to_byte(channel: u32) -> (byte: u8)
    ensures
        byte as int == rounding::nearest(level(channel), 0x1_0000),
        byte == channel_byte(channel),
        byte as int == rounding::nearest(math::min(channel as int, 0x00ff_0000), 0x1_0000),
{
    ((capped(channel) + 0x8000) / 0x1_0000) as u8
}

/// One channel of `color` at opacity `alpha`, painted over `base`.
fn blend(base: u32, color: u32, alpha: u32) -> (blended: u32)
    ensures
        blended == blend_channel(base, color, alpha),
{
    let (base, color, alpha) = (capped(base), capped(color), capped(alpha));
    let rest: u32 = FULL - alpha;
    proof {
        lemma_weighted_bounds(base as int, color as int, alpha as int, FULL as int);
    }
    let weighted: u64 = base as u64 * rest as u64 + color as u64 * alpha as u64;
    ((weighted + 0x007f_8000) / 0x00ff_0000) as u32
}

/// A weighted sum whose weights add up to `full` stays between its two ends.
proof fn lemma_weighted_bounds(base: int, color: int, alpha: int, full: int)
    requires
        0 <= alpha <= full,
        0 <= base <= full,
        0 <= color <= full,
    ensures
        0 <= base * (full - alpha) <= full * full,
        0 <= color * alpha <= full * full,
        base <= color ==> base * full <= base * (full - alpha) + color * alpha <= color * full,
        color <= base ==> color * full <= base * (full - alpha) + color * alpha <= base * full,
{
    assert(0 <= base * (full - alpha) <= full * full) by (nonlinear_arith)
        requires
            0 <= alpha <= full,
            0 <= base <= full,
    ;
    assert(0 <= color * alpha <= full * full) by (nonlinear_arith)
        requires
            0 <= alpha <= full,
            0 <= color <= full,
    ;
    assert(base <= color ==> base * full <= base * (full - alpha) + color * alpha <= color * full)
        by (nonlinear_arith)
        requires
            0 <= alpha <= full,
    ;
    assert(color <= base ==> color * full <= base * (full - alpha) + color * alpha <= base * full)
        by (nonlinear_arith)
        requires
            0 <= alpha <= full,
    ;
}

/// What shows where `color` is painted over `base`: each channel weighted by
/// the opacity of `color`, fully opaque.
pub open spec fn blended(base: Rgba, color: Rgba) -> Rgba {
    Rgba {
        r: blend_channel(base.r, color.r, color.a),
        g: blend_channel(base.g, color.g, color.a),
        b: blend_channel(base.b, color.b, color.a),
        a: FULL,
    }
}

/// Paints `color` over `base` at the opacity of `color` itself, as a
/// compositor does.
///
/// Some theme colors have alpha 0 and an arbitrary RGB, often black: they let
/// whatever is behind them show through. Their RGB at a higher alpha would
/// paint a black rectangle. Blending onto the theme's own background first
/// gives the color that is actually seen.
pub fn blend_onto(base: Rgba, color: Rgba) -> (result: Rgba)
    ensures
        result == blended(base, color),
        ({
            let alpha = math::min(color.a as int, 0x00ff_0000);
            let rest = 0x00ff_0000 - alpha;
            &&& result.r == rounding::nearest(
                math::min(base.r as int, 0x00ff_0000) * rest + math::min(
                    color.r as int,
                    0x00ff_0000,
                ) * alpha,
                0x00ff_0000,
            )
            &&& result.g == rounding::nearest(
                math::min(base.g as int, 0x00ff_0000) * rest + math::min(
                    color.g as int,
                    0x00ff_0000,
                ) * alpha,
                0x00ff_0000,
            )
            &&& result.b == rounding::nearest(
                math::min(base.b as int, 0x00ff_0000) * rest + math::min(
                    color.b as int,
                    0x00ff_0000,
                ) * alpha,
                0x00ff_0000,
            )
            &&& result.a == 0x00ff_0000
        }),
{
    proof {
        blend_is_nearest(base.r, color.r, color.a);
        blend_is_nearest(base.g, color.g, color.a);
        blend_is_nearest(base.b, color.b, color.a);
    }
    Rgba {
        r: blend(base.r, color.r, color.a),
        g: blend(base.g, color.g, color.a),
        b: blend(base.b, color.b, color.a),
        a: FULL,
    }
}

/// `#rrggbbaa`, in lower case.
pub open spec fn hex_text(r: u8, g: u8, b: u8, a: u8) -> Seq<char> {
    seq!['#'] + text::hex_byte_text(r) + text::hex_byte_text(g) + text::hex_byte_text(b)
        + text::hex_byte_text(a)
}

/// The color of `rgba` as text, with its alpha replaced by `alpha_percent`.
pub open spec fn hex_with_alpha_percent(rgba: Rgba, alpha_percent: u8) -> Seq<char> {
    hex_text(
        channel_byte(rgba.r),
        channel_byte(rgba.g),
        channel_byte(rgba.b),
        alpha_byte(alpha_percent),
    )
}

/// Writes the RGB of a color with a replaced alpha (0 to 100 percent). The
/// alpha of `rgba` itself plays no part, so repeated edits never compound.
pub fn rgba_hex_with_alpha_percent(rgba: Rgba, alpha_percent: u8) -> (hex: String)
    ensures
        hex@ == hex_with_alpha_percent(rgba, alpha_percent),
        hex@.len() == 9,
        hex@[0] == '#',
        text::byte_at(hex@, 1) == rounding::nearest(
            math::min(rgba.r as int, 0x00ff_0000),
            0x1_0000,
        ),
        text::byte_at(hex@, 3) == rounding::nearest(
            math::min(rgba.g as int, 0x00ff_0000),
            0x1_0000,
        ),
        text::byte_at(hex@, 5) == rounding::nearest(
            math::min(rgba.b as int, 0x00ff_0000),
            0x1_0000,
        ),
        text::byte_at(hex@, 7) == rounding::nearest(
            math::min(alpha_percent as int, 100) * 255,
            100,
        ),
{
    proof {
        written_text_tells_its_bytes(rgba, alpha_percent);
    }
    let mut hex = "#".to_owned();
    proof {
        reveal_strlit("#");
    }
    hex.append(hex_byte(channel_to_byte(rgba.r)).as_str());
    hex.append(hex_byte(channel_to_byte(rgba.g)).as_str());
    hex.append(hex_byte(channel_to_byte(rgba.b)).as_str());
    hex.append(hex_byte(percent_to_alpha_byte(alpha_percent)).as_str());
    hex
}

/// The opacity of a color as a percentage.
pub open spec fn opacity_percent(color: Rgba) -> u8 {
    alpha_percent(channel_byte(color.a))
}

/// The opacity of a color as a percentage, by way of its 8-bit alpha.
pub fn effective_alpha_percent(color: Rgba) -> (percent: u8)
    ensures
        percent == opacity_percent(color),
        percent as int == rounding::nearest(
            100 * rounding::nearest(math::min(color.a as int, 0x00ff_0000), 0x1_0000),
            255,
        ),
{
    alpha_byte_to_percent(channel_to_byte(color.a))
}

/// The channel that holds an 8-bit value.
pub open spec fn byte_channel(byte: u8) -> u32 {
    (byte * 0x1_0000) as u32
}

/// The color of `rgba` as text, with its own alpha.
pub open spec fn color_text(rgba: Rgba) -> Seq<char> {
    hex_text(
        channel_byte(rgba.r),
        channel_byte(rgba.g),
        channel_byte(rgba.b),
        channel_byte(rgba.a),
    )
}

/// The alpha of a percentage is the byte nearest to that share of 255, halves
/// up; more than 100 percent is all of it.
pub proof fn alpha_byte_is_nearest(percent: u8)
    ensures
        200 * alpha_byte(percent) - 100 <= 510 * math::min(percent as int, 100) < 200 * alpha_byte(
            percent,
        ) + 100,
{
}

/// The percentage of an alpha is the one nearest to its share of 255, halves
/// up.
pub proof fn alpha_percent_is_nearest(alpha: u8)
    ensures
        510 * alpha_percent(alpha) - 255 <= 200 * alpha < 510 * alpha_percent(alpha) + 255,
{
}

/// The byte of a channel is the one nearest to it, halves up, and 255 for
/// whatever is full or more.
pub proof fn channel_byte_is_nearest(channel: u32)
    ensures
        channel <= 0x00ff_0000 ==> 0x2_0000 * channel_byte(channel) - 0x1_0000 <= 2 * channel
            < 0x2_0000 * channel_byte(channel) + 0x1_0000,
        channel >= 0x00ff_0000 ==> channel_byte(channel) == 255,
{
}

/// A blended channel is the weighted mean of the two, to the nearest unit:
/// `color` counts as much as its opacity says, and `base` for the rest.
pub proof fn blend_is_nearest(base: u32, color: u32, alpha: u32)
    ensures
        ({
            let (b, c, a) = (
                math::min(base as int, 0x00ff_0000),
                math::min(color as int, 0x00ff_0000),
                math::min(alpha as int, 0x00ff_0000),
            );
            let weighted = b * (0x00ff_0000 - a) + c * a;
            let mean = blend_channel(base, color, alpha);
            &&& mean == rounding::nearest(weighted, 0x00ff_0000)
            &&& 0x01fe_0000 * mean - 0x00ff_0000 <= 2 * weighted < 0x01fe_0000 * mean + 0x00ff_0000
        }),
{
    lemma_weighted_bounds(level(base), level(color), level(alpha), FULL as int);
}

/// The opacity of a color is the percentage nearest to the share of 255 that
/// its alpha's nearest byte is, halves up both times.
pub proof fn opacity_is_nearest(color: Rgba)
    ensures
        opacity_percent(color) == rounding::nearest(
            100 * rounding::nearest(math::min(color.a as int, 0x00ff_0000), 0x1_0000),
            255,
        ),
{
}

/// The written text is `#` and four bytes: those nearest to the red, green and
/// blue channels, and the one nearest to the percentage of 255.
pub proof fn written_text_tells_its_bytes(rgba: Rgba, percent: u8)
    ensures
        ({
            let hex = hex_with_alpha_percent(rgba, percent);
            &&& hex.len() == 9
            &&& hex[0] == '#'
            &&& text::byte_at(hex, 1) == rounding::nearest(
                math::min(rgba.r as int, 0x00ff_0000),
                0x1_0000,
            )
            &&& text::byte_at(hex, 3) == rounding::nearest(
                math::min(rgba.g as int, 0x00ff_0000),
                0x1_0000,
            )
            &&& text::byte_at(hex, 5) == rounding::nearest(
                math::min(rgba.b as int, 0x00ff_0000),
                0x1_0000,
            )
            &&& text::byte_at(hex, 7) == rounding::nearest(
                math::min(percent as int, 100) * 255,
                100,
            )
        }),
{
    let hex = hex_with_alpha_percent(rgba, percent);
    text::hex_byte_text_reads_back(hex, 1, channel_byte(rgba.r));
    text::hex_byte_text_reads_back(hex, 3, channel_byte(rgba.g));
    text::hex_byte_text_reads_back(hex, 5, channel_byte(rgba.b));
    text::hex_byte_text_reads_back(hex, 7, alpha_byte(percent));
}

/// A percentage from 0 to 100 survives being turned into an 8-bit alpha and
/// back; a larger one comes back as 100.
pub proof fn percent_survives_alpha_byte(percent: u8)
    ensures
        alpha_percent(alpha_byte(percent)) == capped_percent(percent),
        alpha_percent(alpha_byte(percent)) == math::min(percent as int, 100),
{
}

/// More opacity is more alpha, from 0 for none to 255 for all.
pub proof fn alpha_byte_increases(less: u8, more: u8)
    requires
        less < more <= 100,
    ensures
        alpha_byte(less) < alpha_byte(more),
        alpha_byte(0) == 0,
        alpha_byte(100) == 255,
{
}

/// More alpha is never a smaller percentage, from 0 for none to 100 for all.
pub proof fn alpha_percent_increases(less: u8, more: u8)
    requires
        less <= more,
    ensures
        alpha_percent(less) <= alpha_percent(more) <= 100,
        alpha_percent(0) == 0,
        alpha_percent(255) == 100,
{
}

/// A channel that holds an 8-bit value reads as that value.
pub proof fn byte_survives_channel(byte: u8)
    ensures
        byte_channel(byte) == byte * 0x1_0000,
        channel_byte(byte_channel(byte)) == byte,
{
}

/// Painting an invisible color shows the base, whatever RGB the color has.
pub proof fn transparent_color_shows_base(base: Rgba, color: Rgba)
    requires
        color.a == 0,
    ensures
        blended(base, color).r == level(base.r),
        blended(base, color).g == level(base.g),
        blended(base, color).b == level(base.b),
{
    lemma_blend_ends(base.r, color.r, color.a);
    lemma_blend_ends(base.g, color.g, color.a);
    lemma_blend_ends(base.b, color.b, color.a);
}

/// Painting an opaque color shows that color, whatever is behind it.
pub proof fn opaque_color_hides_base(base: Rgba, color: Rgba)
    requires
        color.a == FULL,
    ensures
        blended(base, color).r == level(color.r),
        blended(base, color).g == level(color.g),
        blended(base, color).b == level(color.b),
{
    lemma_blend_ends(base.r, color.r, color.a);
    lemma_blend_ends(base.g, color.g, color.a);
    lemma_blend_ends(base.b, color.b, color.a);
}

/// At either end of the opacity scale one of the two channels is left.
proof fn lemma_blend_ends(base: u32, color: u32, alpha: u32)
    ensures
        alpha == 0 ==> blend_channel(base, color, alpha) == level(base),
        alpha == FULL ==> blend_channel(base, color, alpha) == level(color),
{
    let (b, c) = (level(base), level(color));
    assert(b * (0x00ff_0000 - 0) + c * 0 == b * 0x00ff_0000);
    assert(b * (0x00ff_0000 - 0x00ff_0000) + c * 0x00ff_0000 == c * 0x00ff_0000);
    if alpha == 0 {
        assert(level(alpha) == 0);
    }
    if alpha == FULL {
        assert(level(alpha) == 0x00ff_0000);
    }
}

/// A blended channel lies between the two that it is blended from.
pub proof fn blend_stays_between(base: u32, color: u32, alpha: u32)
    ensures
        base <= color ==> level(base) <= blend_channel(base, color, alpha) <= level(color),
        color <= base ==> level(color) <= blend_channel(base, color, alpha) <= level(base),
{
    lemma_weighted_bounds(level(base), level(color), level(alpha), FULL as int);
}

/// Black at any opacity over white, or white over black, shows exactly what
/// the opacity leaves of the one and adds of the other, halves included.
pub proof fn blend_of_black_and_white_is_exact(alpha: u32)
    ensures
        blend_channel(FULL, 0, alpha) == FULL - level(alpha),
        blend_channel(0, FULL, alpha) == level(alpha),
{
    let a = level(alpha);
    assert(level(FULL) == 0x00ff_0000 && level(0) == 0);
    assert(0x00ff_0000 * (0x00ff_0000 - a) + 0 * a == 0x00ff_0000 * (0x00ff_0000 - a));
    assert(0 * (0x00ff_0000 - a) + 0x00ff_0000 * a == 0x00ff_0000 * a);
}

/// Blending 8-bit colors loses nothing to fixed point: the byte that comes
/// out is the exact blend, rounded once.
pub proof fn blend_of_bytes_is_exact(base: u8, color: u8, alpha: u8)
    ensures
        channel_byte(
            blend_channel(byte_channel(base), byte_channel(color), byte_channel(alpha)),
        ) == rounding::nearest(base * (255 - alpha) + color * alpha, 255),
{
    let step: int = 0x1_0000;
    let exact = base * (255 - alpha) + color * alpha;
    lemma_weighted_bounds(base as int, color as int, alpha as int, 255);
    let weighted = byte_channel(base) * (FULL - byte_channel(alpha)) + byte_channel(color)
        * byte_channel(alpha);
    assert(weighted == step * step * exact) by (nonlinear_arith)
        requires
            exact == base * (255 - alpha) + color * alpha,
            weighted == (base * step) * (255 * step - alpha * step) + (color * step) * (alpha
                * step),
    ;
}

/// The written text is nine characters long; the percentage decides the last
/// two alone, and the alpha of the color decides nothing.
pub proof fn percent_decides_alpha_alone(rgba: Rgba, alpha: u32, percent: u8, other_percent: u8)
    ensures
        hex_with_alpha_percent(rgba, percent).len() == 9,
        hex_with_alpha_percent(rgba, percent).take(7) == hex_with_alpha_percent(
            rgba,
            other_percent,
        ).take(7),
        hex_with_alpha_percent(rgba, percent).skip(7) == text::hex_byte_text(alpha_byte(percent)),
        hex_with_alpha_percent(Rgba { a: alpha, ..rgba }, percent) == hex_with_alpha_percent(
            rgba,
            percent,
        ),
{
}

/// The text of a color tells all four of its bytes.
pub proof fn hex_text_is_unambiguous(
    r1: u8,
    g1: u8,
    b1: u8,
    a1: u8,
    r2: u8,
    g2: u8,
    b2: u8,
    a2: u8,
)
    requires
        hex_text(r1, g1, b1, a1) == hex_text(r2, g2, b2, a2),
    ensures
        r1 == r2,
        g1 == g2,
        b1 == b2,
        a1 == a2,
{
    let t1 = hex_text(r1, g1, b1, a1);
    text::hex_byte_text_is_unambiguous(r1, r2, t1[1], t1[2]);
    text::hex_byte_text_is_unambiguous(g1, g2, t1[3], t1[4]);
    text::hex_byte_text_is_unambiguous(b1, b2, t1[5], t1[6]);
    text::hex_byte_text_is_unambiguous(a1, a2, t1[7], t1[8]);
}

} // verus!
