//! What each operation leaves behind or shows, in terms of what it was given:
//! key by key, channel by channel, character by character.

use vstd::math;
use vstd::prelude::*;

use crate::color;
use crate::color::Rgba;
use crate::laws;
use crate::rounding;
use crate::sections;
use crate::sections::SectionView;
use crate::text;
use crate::theme;
use crate::theme::{
    ColorKey, StyleView, ThemeColors, ThemeStyleContent, WindowBackgroundContent,
};
use crate::transparency_blur;
use crate::transparency_blur::{BlurOption, SectionRow};

verus! {

/// An edit writes the color that is seen: the theme's own color for the key,
/// weighted by its own opacity, over the theme's background for the rest. Each
/// of the three channels is written as its nearest byte, and the percentage
/// that was asked for, at most 100, as the nearest byte of alpha.
pub proof fn edit_writes_the_seen_color(
    overrides: Map<Seq<char>, StyleView>,
    theme_name: Seq<char>,
    keys: Set<ColorKey>,
    native: ThemeColors,
    percent: u8,
    key: ColorKey,
)
    requires
        keys.contains(key),
    ensures
        ({
            let result = transparency_blur::alpha_written(
                overrides,
                theme_name,
                keys,
                native,
                percent,
            );
            let hex = result[theme_name].colors[key];
            let base = native.background;
            let color = native.color(key);
            let alpha = math::min(color.a as int, 0x00ff_0000);
            let rest = 0x00ff_0000 - alpha;
            &&& result.contains_key(theme_name)
            &&& result[theme_name].colors.contains_key(key)
            &&& hex.len() == 9
            &&& hex[0] == '#'
            &&& text::byte_at(hex, 1) == rounding::nearest(
                rounding::nearest(
                    math::min(base.r as int, 0x00ff_0000) * rest + math::min(
                        color.r as int,
                        0x00ff_0000,
                    ) * alpha,
                    0x00ff_0000,
                ),
                0x1_0000,
            )
            &&& text::byte_at(hex, 3) == rounding::nearest(
                rounding::nearest(
                    math::min(base.g as int, 0x00ff_0000) * rest + math::min(
                        color.g as int,
                        0x00ff_0000,
                    ) * alpha,
                    0x00ff_0000,
                ),
                0x1_0000,
            )
            &&& text::byte_at(hex, 5) == rounding::nearest(
                rounding::nearest(
                    math::min(base.b as int, 0x00ff_0000) * rest + math::min(
                        color.b as int,
                        0x00ff_0000,
                    ) * alpha,
                    0x00ff_0000,
                ),
                0x1_0000,
            )
            &&& text::byte_at(hex, 7) == rounding::nearest(
                math::min(percent as int, 100) * 255,
                100,
            )
        }),
{
    let base = native.background;
    let color = native.color(key);
    color::blend_is_nearest(base.r, color.r, color.a);
    color::blend_is_nearest(base.g, color.g, color.a);
    color::blend_is_nearest(base.b, color.b, color.a);
    color::blend_stays_between(base.r, color.r, color.a);
    color::blend_stays_between(base.g, color.g, color.a);
    color::blend_stays_between(base.b, color.b, color.a);
    color::written_text_tells_its_bytes(color::blended(base, color), percent);
}

/// A section edit writes every color of the section and no other. The rest of
/// the entry stays as it was, and so does every other theme; an entry that was
/// not there before has nothing but the colors.
pub proof fn section_edit_reaches_its_colors_alone(
    overrides: Map<Seq<char>, StyleView>,
    theme_name: Seq<char>,
    section: SectionView,
    native: ThemeColors,
    percent: u8,
    key: ColorKey,
    other_theme: Seq<char>,
)
    requires
        other_theme != theme_name,
    ensures
        ({
            let result = transparency_blur::alpha_written(
                overrides,
                theme_name,
                transparency_blur::section_keys(section),
                native,
                percent,
            );
            let had = overrides.contains_key(theme_name);
            let before = overrides[theme_name];
            let after = result[theme_name];
            &&& result.contains_key(theme_name)
            &&& section.keys.contains(key) ==> after.colors.contains_key(key)
            &&& !section.keys.contains(key) ==> (after.colors.contains_key(key) <==> had
                && before.colors.contains_key(key))
            &&& !section.keys.contains(key) && had && before.colors.contains_key(key)
                ==> after.colors[key] == before.colors[key]
            &&& had ==> after.window_background_appearance == before.window_background_appearance
                && after.other == before.other
            &&& !had ==> after.window_background_appearance is None && after.other.len() == 0
            &&& result.contains_key(other_theme) == overrides.contains_key(other_theme)
            &&& overrides.contains_key(other_theme) ==> result[other_theme]
                == overrides[other_theme]
        }),
{
}

/// Which color a section edit writes is a matter of the key alone: the section
/// through which it is reached, what was written before and the name of the
/// theme play no part.
pub proof fn written_color_depends_on_its_key_alone(
    overrides: Map<Seq<char>, StyleView>,
    theme_name: Seq<char>,
    keys: Set<ColorKey>,
    other_overrides: Map<Seq<char>, StyleView>,
    other_theme: Seq<char>,
    other_keys: Set<ColorKey>,
    native: ThemeColors,
    percent: u8,
    key: ColorKey,
)
    requires
        keys.contains(key),
        other_keys.contains(key),
    ensures
        transparency_blur::alpha_written(
            overrides,
            theme_name,
            keys,
            native,
            percent,
        )[theme_name].colors[key] == transparency_blur::alpha_written(
            other_overrides,
            other_theme,
            other_keys,
            native,
            percent,
        )[other_theme].colors[key],
{
}

/// A section edit never changes what the field of another section goes by,
/// not even where the two share a color.
pub proof fn edit_leaves_other_fields(
    overrides: Map<Seq<char>, StyleView>,
    theme_name: Seq<char>,
    i: int,
    j: int,
    native: ThemeColors,
    percent: u8,
)
    requires
        0 <= i < sections::all_sections().len(),
        0 <= j < sections::all_sections().len(),
        i != j,
    ensures
        ({
            let result = transparency_blur::alpha_written(
                overrides,
                theme_name,
                transparency_blur::section_keys(sections::all_sections()[i]),
                native,
                percent,
            );
            let had = overrides.contains_key(theme_name);
            let first = sections::all_sections()[j].keys[0];
            let before = overrides[theme_name].colors;
            let after = result[theme_name].colors;
            &&& after.contains_key(first) <==> had && before.contains_key(first)
            &&& had && before.contains_key(first) ==> after[first] == before[first]
        }),
{
    sections::first_key_belongs_to_one_section(j, i);
}

/// What the field of a section shows is the same before and after an edit of
/// another section.
pub proof fn edit_leaves_what_other_fields_show<F: Fn(&str) -> Option<Rgba>>(
    overrides: Map<Seq<char>, StyleView>,
    theme_name: Seq<char>,
    i: int,
    j: int,
    native: ThemeColors,
    percent: u8,
    parse: &F,
    shown: u8,
)
    requires
        0 <= i < sections::all_sections().len(),
        0 <= j < sections::all_sections().len(),
        i != j,
    ensures
        ({
            let result = transparency_blur::alpha_written(
                overrides,
                theme_name,
                transparency_blur::section_keys(sections::all_sections()[i]),
                native,
                percent,
            );
            let before = if overrides.contains_key(theme_name) {
                Some(overrides[theme_name])
            } else {
                None
            };
            let section = sections::all_sections()[j];
            transparency_blur::shows_percent(native, before, section, parse, shown)
                == transparency_blur::shows_percent(
                native,
                Some(result[theme_name]),
                section,
                parse,
                shown,
            )
        }),
{
    edit_leaves_other_fields(overrides, theme_name, i, j, native, percent);
    let result = transparency_blur::alpha_written(
        overrides,
        theme_name,
        transparency_blur::section_keys(sections::all_sections()[i]),
        native,
        percent,
    );
    let before = if overrides.contains_key(theme_name) {
        Some(overrides[theme_name])
    } else {
        None
    };
    let section = sections::all_sections()[j];
    assert(transparency_blur::section_text(before, section) == transparency_blur::section_text(
        Some(result[theme_name]),
        section,
    ));
}

/// The colors that the global field reaches, by name. Each is written as an
/// edit of a section that holds it would write it; every other color stays as
/// it was.
pub proof fn global_edit_by_color(
    overrides: Map<Seq<char>, StyleView>,
    theme_name: Seq<char>,
    native: ThemeColors,
    percent: u8,
    key: ColorKey,
)
    ensures
        ({
            let result = transparency_blur::alpha_written(
                overrides,
                theme_name,
                transparency_blur::global_keys(),
                native,
                percent,
            );
            let had = overrides.contains_key(theme_name);
            let before = overrides[theme_name].colors;
            let after = result[theme_name].colors;
            let reached = match key {
                ColorKey::PanelBackground => true,
                ColorKey::EditorBackground => true,
                ColorKey::EditorGutterBackground => true,
                ColorKey::ToolbarBackground => true,
                ColorKey::TerminalBackground => true,
                ColorKey::TerminalAnsiBackground => true,
                ColorKey::Background => true,
                ColorKey::SurfaceBackground => true,
                ColorKey::TitleBarBackground => false,
                ColorKey::TitleBarInactiveBackground => false,
                ColorKey::StatusBarBackground => false,
                ColorKey::TabBarBackground => false,
                ColorKey::TabInactiveBackground => false,
                ColorKey::ElevatedSurfaceBackground => false,
            };
            &&& reached ==> after.contains_key(key)
            &&& forall|i: int|
                0 <= i < sections::all_sections().len() && reached
                    && #[trigger] sections::all_sections()[i].keys.contains(key) ==> after[key]
                    == transparency_blur::alpha_written(
                    overrides,
                    theme_name,
                    transparency_blur::section_keys(sections::all_sections()[i]),
                    native,
                    percent,
                )[theme_name].colors[key]
            &&& !reached ==> (after.contains_key(key) <==> had && before.contains_key(key))
            &&& !reached && had && before.contains_key(key) ==> after[key] == before[key]
        }),
{
    laws::global_keys_by_name(key);
}

/// A reset takes the overriding colors of a section away, and nothing else: no
/// other color, no other field, no other theme. A theme without an entry gets
/// none, and one whose entry is left with nothing loses it.
pub proof fn section_reset_reaches_its_colors_alone(
    overrides: Map<Seq<char>, StyleView>,
    theme_name: Seq<char>,
    section: SectionView,
    key: ColorKey,
    other_theme: Seq<char>,
)
    requires
        other_theme != theme_name,
    ensures
        ({
            let result = transparency_blur::keys_reset(
                overrides,
                theme_name,
                transparency_blur::section_keys(section),
            );
            let before = overrides[theme_name];
            let after = result[theme_name];
            let something_left = {
                ||| before.window_background_appearance is Some
                ||| before.other.len() > 0
                ||| exists|left: ColorKey| #[trigger]
                    before.colors.contains_key(left) && !section.keys.contains(left)
            };
            &&& !overrides.contains_key(theme_name) ==> result == overrides
            &&& result.contains_key(theme_name) <==> overrides.contains_key(theme_name)
                && something_left
            &&& result.contains_key(theme_name) ==> {
                &&& section.keys.contains(key) ==> !after.colors.contains_key(key)
                &&& !section.keys.contains(key) ==> after.colors.contains_key(key)
                    == before.colors.contains_key(key)
                &&& !section.keys.contains(key) && before.colors.contains_key(key)
                    ==> after.colors[key] == before.colors[key]
                &&& after.window_background_appearance == before.window_background_appearance
                &&& after.other == before.other
            }
            &&& result.contains_key(other_theme) == overrides.contains_key(other_theme)
            &&& overrides.contains_key(other_theme) ==> result[other_theme]
                == overrides[other_theme]
        }),
{
    let keys = transparency_blur::section_keys(section);
    let before = overrides[theme_name];
    let left = transparency_blur::without_keys(before, keys);
    theme::nothing_is_overridden(left);
    if overrides.contains_key(theme_name) {
        if exists|k: ColorKey| #[trigger]
            before.colors.contains_key(k) && !section.keys.contains(k) {
            let k = choose|k: ColorKey| #[trigger]
                before.colors.contains_key(k) && !section.keys.contains(k);
            assert(left.colors.contains_key(k));
        } else {
            assert forall|k: ColorKey| !#[trigger] left.colors.contains_key(k) by {
                assert(left.colors.contains_key(k) ==> before.colors.contains_key(k)
                    && !section.keys.contains(k));
            }
        }
    }
}

/// A reset of a section leaves the color that the field of another section
/// goes by, also where the two share a color.
pub proof fn reset_leaves_other_fields(
    overrides: Map<Seq<char>, StyleView>,
    theme_name: Seq<char>,
    i: int,
    j: int,
)
    requires
        0 <= i < sections::all_sections().len(),
        0 <= j < sections::all_sections().len(),
        i != j,
        overrides.contains_key(theme_name),
        overrides[theme_name].colors.contains_key(sections::all_sections()[j].keys[0]),
    ensures
        ({
            let result = transparency_blur::keys_reset(
                overrides,
                theme_name,
                transparency_blur::section_keys(sections::all_sections()[i]),
            );
            let first = sections::all_sections()[j].keys[0];
            &&& result.contains_key(theme_name)
            &&& result[theme_name].colors.contains_key(first)
            &&& result[theme_name].colors[first] == overrides[theme_name].colors[first]
        }),
{
    sections::first_key_belongs_to_one_section(j, i);
    let section = sections::all_sections()[i];
    let keys = transparency_blur::section_keys(section);
    let left = transparency_blur::without_keys(overrides[theme_name], keys);
    assert(left.colors.contains_key(sections::all_sections()[j].keys[0]));
}

/// What shows behind the window is what the override names; without an
/// override, or where it names nothing, the window is opaque.
pub proof fn appearance_is_the_named_one(style: Option<StyleView>)
    ensures
        style is None ==> transparency_blur::appearance(style) == WindowBackgroundContent::Opaque,
        style is Some && style->0.window_background_appearance is None
            ==> transparency_blur::appearance(style) == WindowBackgroundContent::Opaque,
        style is Some && style->0.window_background_appearance is Some
            ==> transparency_blur::appearance(style) == style->0.window_background_appearance->0,
{
}

/// The model of an override is that of the style, and none is none.
pub proof fn style_model_is_of_the_style(style: &ThemeStyleContent)
    ensures
        transparency_blur::style_view(Some(style)) == Some(style@),
        transparency_blur::style_view(None) is None,
{
}

/// A choice of what shows behind the window is recorded in the entry of the
/// theme, and no other theme and no other field of the entry but its colors
/// changes.
pub proof fn choice_is_recorded(
    overrides: Map<Seq<char>, StyleView>,
    existing: Option<StyleView>,
    theme_name: Seq<char>,
    value: WindowBackgroundContent,
    native: ThemeColors,
    other_theme: Seq<char>,
)
    requires
        other_theme != theme_name,
    ensures
        ({
            let result = transparency_blur::blur_written(
                overrides,
                existing,
                theme_name,
                value,
                native,
            );
            &&& result.contains_key(theme_name)
            &&& result[theme_name].window_background_appearance == Some(value)
            &&& overrides.contains_key(theme_name) ==> result[theme_name].other
                == overrides[theme_name].other
            &&& !overrides.contains_key(theme_name) ==> result[theme_name].other.len() == 0
            &&& result.contains_key(other_theme) == overrides.contains_key(other_theme)
            &&& overrides.contains_key(other_theme) ==> result[other_theme]
                == overrides[other_theme]
        }),
{
}

/// The color of `key` after a choice of what shows behind the window. Where a
/// window that was opaque stops being so, each of the two bars whose first
/// color `existing` does not override gets its colors as a section edit at 85
/// percent writes them. Every other color, and at every other choice every
/// color, is as it was, overridden or not, to the letter.
pub proof fn choice_gives_defaults_to_untouched_bars(
    overrides: Map<Seq<char>, StyleView>,
    existing: Option<StyleView>,
    theme_name: Seq<char>,
    value: WindowBackgroundContent,
    native: ThemeColors,
    key: ColorKey,
)
    ensures
        ({
            let had = overrides.contains_key(theme_name);
            let before = overrides[theme_name].colors;
            let after = transparency_blur::blur_written(
                overrides,
                existing,
                theme_name,
                value,
                native,
            )[theme_name].colors;
            let was_opaque = {
                ||| existing is None
                ||| existing->0.window_background_appearance is None
                ||| existing->0.window_background_appearance == Some(
                    WindowBackgroundContent::Opaque,
                )
            };
            let leaves_opaque = was_opaque && value != WindowBackgroundContent::Opaque;
            let title_bar_untouched = existing is None || !existing->0.colors.contains_key(
                ColorKey::TitleBarBackground,
            );
            let status_bar_untouched = existing is None || !existing->0.colors.contains_key(
                ColorKey::StatusBarBackground,
            );
            let gets_default = leaves_opaque && match key {
                ColorKey::TitleBarBackground => title_bar_untouched,
                ColorKey::TitleBarInactiveBackground => title_bar_untouched,
                ColorKey::StatusBarBackground => status_bar_untouched,
                ColorKey::TabBarBackground => status_bar_untouched,
                ColorKey::TabInactiveBackground => status_bar_untouched,
                _ => false,
            };
            &&& gets_default ==> after.contains_key(key)
            &&& gets_default ==> after[key] == transparency_blur::alpha_written(
                overrides,
                theme_name,
                set![key],
                native,
                85,
            )[theme_name].colors[key]
            &&& !gets_default ==> (after.contains_key(key) <==> had && before.contains_key(key))
            &&& !gets_default && had && before.contains_key(key) ==> after[key] == before[key]
        }),
{
    laws::blur_defaults_reach_bars_alone(existing, key);
    laws::lemma_section_keys(0, key);
    laws::lemma_section_keys(4, key);
}

/// A section whose first color `existing` overrides keeps all its colors, set
/// or not, whatever is chosen to show behind the window.
pub proof fn choice_keeps_overridden_sections(
    overrides: Map<Seq<char>, StyleView>,
    existing: StyleView,
    theme_name: Seq<char>,
    value: WindowBackgroundContent,
    native: ThemeColors,
    i: int,
    key: ColorKey,
)
    requires
        0 <= i < sections::all_sections().len(),
        existing.colors.contains_key(sections::all_sections()[i].keys[0]),
        sections::all_sections()[i].keys.contains(key),
    ensures
        ({
            let had = overrides.contains_key(theme_name);
            let before = overrides[theme_name].colors;
            let after = transparency_blur::blur_written(
                overrides,
                Some(existing),
                theme_name,
                value,
                native,
            )[theme_name].colors;
            &&& after.contains_key(key) <==> had && before.contains_key(key)
            &&& had && before.contains_key(key) ==> after[key] == before[key]
        }),
{
    choice_gives_defaults_to_untouched_bars(
        overrides,
        Some(existing),
        theme_name,
        value,
        native,
        key,
    );
    laws::lemma_section_keys(i, key);
}

/// A section field goes by the first color of the section: it has a text where
/// that color is overridden, and then that text.
pub proof fn section_text_is_that_of_its_first_color(
    style: Option<StyleView>,
    section: SectionView,
)
    ensures
        transparency_blur::section_text(style, section) is Some <==> style is Some
            && style->0.colors.contains_key(section.keys[0]),
        style is Some && style->0.colors.contains_key(section.keys[0])
            ==> transparency_blur::section_text(style, section)->0
            == style->0.colors[section.keys[0]],
{
}

/// The field of a section that is not overridden shows the opacity of the
/// theme's own color for its first key: the percentage nearest to the share of
/// 255 that the alpha's nearest byte is, halves up.
pub proof fn field_without_override_shows_the_theme<F: Fn(&str) -> Option<Rgba>>(
    native: ThemeColors,
    style: Option<StyleView>,
    section: SectionView,
    parse: &F,
    shown: u8,
)
    requires
        section.keys.len() > 0,
        style is None || !style->0.colors.contains_key(section.keys[0]),
        transparency_blur::shows_percent(native, style, section, parse, shown),
    ensures
        shown == rounding::nearest(
            100 * rounding::nearest(
                math::min(native.color(section.keys[0]).a as int, 0x00ff_0000),
                0x1_0000,
            ),
            255,
        ),
{
}

/// The field of a section that is overridden shows the opacity of the color
/// that its first text reads as, and that of the theme's own color where the
/// text reads as none.
pub proof fn field_with_override_shows_what_it_reads<F: Fn(&str) -> Option<Rgba>>(
    native: ThemeColors,
    style: StyleView,
    section: SectionView,
    parse: &F,
    read: Option<Rgba>,
    shown: u8,
)
    requires
        section.keys.len() > 0,
        style.colors.contains_key(section.keys[0]),
        forall|text: &str, parsed: Option<Rgba>|
            text@ == style.colors[section.keys[0]] && #[trigger] call_ensures(
                *parse,
                (text,),
                parsed,
            ) ==> parsed == read,
        transparency_blur::shows_percent(native, Some(style), section, parse, shown),
    ensures
        read is Some ==> shown == rounding::nearest(
            100 * rounding::nearest(math::min(read->0.a as int, 0x00ff_0000), 0x1_0000),
            255,
        ),
        read is None ==> shown == rounding::nearest(
            100 * rounding::nearest(
                math::min(native.color(section.keys[0]).a as int, 0x00ff_0000),
                0x1_0000,
            ),
            255,
        ),
{
}

/// A confirmed field asks for the number that its digits stand for, at most
/// 100, whatever whitespace is around them and with or without a plus sign. A
/// number above 255 asks for nothing.
pub proof fn confirmed_number_is_asked_for(
    left: Seq<char>,
    plus: bool,
    digits: Seq<char>,
    right: Seq<char>,
)
    requires
        forall|i: int| 0 <= i < left.len() ==> text::is_whitespace(#[trigger] left[i]),
        forall|i: int| 0 <= i < right.len() ==> text::is_whitespace(#[trigger] right[i]),
        digits.len() > 0,
        forall|i: int| 0 <= i < digits.len() ==> '0' <= #[trigger] digits[i] <= '9',
    ensures
        ({
            let number = if plus {
                seq!['+'] + digits
            } else {
                digits
            };
            let value = text::decimal_value(digits);
            transparency_blur::percent_asked(Some(left + number + right)) == if value <= 255 {
                Some(math::min(value, 100) as u8)
            } else {
                None
            }
        }),
{
    let number = if plus {
        seq!['+'] + digits
    } else {
        digits
    };
    assert(!text::is_whitespace(digits[0]));
    assert(!text::is_whitespace(digits[digits.len() - 1]));
    text::trimming_leaves_the_middle(left, number, right);
    text::digits_read_as_byte(digits);
}

/// Nothing else asks for a percentage: no missing text, and no text that is
/// not digits between whitespace, after a plus sign or without it.
pub proof fn only_numbers_are_asked_for(value: Option<Seq<char>>) -> (parts: (
    Seq<char>,
    Seq<char>,
    Seq<char>,
))
    requires
        transparency_blur::percent_asked(value) is Some,
    ensures
        value is Some,
        value->0 == parts.0 + parts.1 + parts.2 || value->0 == parts.0 + (seq!['+'] + parts.1)
            + parts.2,
        forall|i: int| 0 <= i < parts.0.len() ==> text::is_whitespace(#[trigger] parts.0[i]),
        parts.1.len() > 0,
        forall|i: int| 0 <= i < parts.1.len() ==> '0' <= #[trigger] parts.1[i] <= '9',
        forall|i: int| 0 <= i < parts.2.len() ==> text::is_whitespace(#[trigger] parts.2[i]),
        0 <= text::decimal_value(parts.1) <= 255,
        transparency_blur::percent_asked(value)->0 == math::min(
            text::decimal_value(parts.1),
            100,
        ),
{
    let s = value->0;
    let number = text::trimmed(s);
    let (left, right) = text::trimming_takes_whitespace_alone(s);
    text::only_digits_read_as_byte(number);
    if number[0] == '+' {
        assert(number =~= seq!['+'] + number.skip(1));
        (left, number.skip(1), right)
    } else {
        (left, number, right)
    }
}

/// The menu offers the opaque, the transparent and the blurred window, in this
/// order and under these names, and toggles the current one alone.
pub proof fn menu_offers_three_choices(
    menu: Seq<BlurOption>,
    current: WindowBackgroundContent,
)
    requires
        transparency_blur::is_blur_menu(menu, current),
    ensures
        menu.len() == 3,
        menu[0].value == WindowBackgroundContent::Opaque,
        menu[0].label@ == "Opaque"@,
        menu[0].toggled == (current == WindowBackgroundContent::Opaque),
        menu[1].value == WindowBackgroundContent::Transparent,
        menu[1].label@ == "Transparent"@,
        menu[1].toggled == (current == WindowBackgroundContent::Transparent),
        menu[2].value == WindowBackgroundContent::Blurred,
        menu[2].label@ == "Blurred"@,
        menu[2].toggled == (current == WindowBackgroundContent::Blurred),
        transparency_blur::blur_label_text(WindowBackgroundContent::Opaque) == "Opaque"@,
        transparency_blur::blur_label_text(WindowBackgroundContent::Transparent)
            == "Transparent"@,
        transparency_blur::blur_label_text(WindowBackgroundContent::Blurred) == "Blurred"@,
{
}

/// The row of a section goes by its title, shows what the section's field
/// shows, and starts its field out with that number, written in digits.
pub proof fn row_shows_its_section<F: Fn(&str) -> Option<Rgba>>(
    row: SectionRow,
    section: SectionView,
    native: ThemeColors,
    style: Option<StyleView>,
    parse: &F,
)
    requires
        transparency_blur::is_section_row(row, section, native, style, parse),
    ensures
        row.title@ == section.title,
        transparency_blur::shows_percent(native, style, section, parse, row.percent),
        text::decimal_value(row.percent_text@) == row.percent,
        transparency_blur::percent_asked(Some(row.percent_text@)) == Some(
            math::min(row.percent as int, 100) as u8,
        ),
        row.input_id@ == "transparency-section-"@ + section.title,
        row.reset_id@ == "reset-transparency-section-"@ + section.title,
{
    text::decimal_text_is_shortest(row.percent as int);
    laws::shown_percent_is_asked_for(row.percent);
}

} // verus!
