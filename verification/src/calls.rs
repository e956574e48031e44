//! Laws of the calls themselves: what holds of the result of a call, or of two
//! calls taken together, whatever they are given.

use vstd::math;
use vstd::prelude::*;

use crate::color;
use crate::color::{
    alpha_byte_to_percent, blend_onto, channel_to_byte, effective_alpha_percent,
    percent_to_alpha_byte, rgba_hex_with_alpha_percent, Rgba,
};
use crate::floating_panel::{
    modal_size, DismissEvent, FloatingPanel, FloatingPanelSettings, FloatingPanelSize,
    OverlayEvent, PanelLayout, Pixels, Size,
};
use crate::laws;
use crate::outcomes;
use crate::rounding;
use crate::sections;
use crate::sections::{sections, ColorSection};
use crate::text;
use crate::theme;
use crate::theme::{
    ColorKey, ThemeColors, ThemeColorsContent, ThemeOverrides, ThemeStyleContent,
    WindowBackgroundContent,
};
use crate::transparency_blur;
use crate::transparency_blur::{
    blur_label, blur_menu, confirmed_percent, current_blur, global_percent, native_colors,
    parsed_section_percent, percent_text, reset_section, section_override, section_percent,
    section_row, set_blur, set_global_alpha, set_section_alpha, transparency_blur_advanced_page,
    transparency_blur_page, BlurOption, SectionRow, TransparencyBlurPage,
};

verus! {

/// `set_section_alpha` overrides each color of the section with the text of
/// the color that is seen: the theme's own color over the theme's background,
/// each weighted by the opacity of the color, to the nearest byte in each
/// channel. The alpha is the byte nearest to the percentage, at most 100.
pub proof fn section_edit_writes_the_seen_color(
    overrides: &mut ThemeOverrides,
    theme_name: &str,
    section: &ColorSection,
    percent: u8,
    native: &ThemeColors,
    key: ColorKey,
    color: Rgba,
)
    requires
        call_ensures(
            set_section_alpha,
            (overrides, theme_name, section, percent, native),
            (),
        ),
        call_ensures(ColorKey::native, (key, native), color),
        section.keys@.contains(key),
    ensures
        ({
            let colors = final(overrides)@[theme_name@].colors;
            let hex = colors[key];
            let base = native.background;
            let alpha = math::min(color.a as int, 0x00ff_0000);
            let rest = 0x00ff_0000 - alpha;
            &&& final(overrides)@.contains_key(theme_name@)
            &&& colors.contains_key(key)
            &&& hex.len() == 9
            &&& hex[0] == '#'
            &&& text::byte_at(hex, 1) == rounding::nearest(
                rounding::nearest(
                    math::min(base.r as int, 0x00ff_0000) * rest + math::min(
                        color.r as int,
                        0x00ff_0000,
                    ) * alpha,
                    0x00ff_0000,
                ),
                0x1_0000,
            )
            &&& text::byte_at(hex, 3) == rounding::nearest(
                rounding::nearest(
                    math::min(base.g as int, 0x00ff_0000) * rest + math::min(
                        color.g as int,
                        0x00ff_0000,
                    ) * alpha,
                    0x00ff_0000,
                ),
                0x1_0000,
            )
            &&& text::byte_at(hex, 5) == rounding::nearest(
                rounding::nearest(
                    math::min(base.b as int, 0x00ff_0000) * rest + math::min(
                        color.b as int,
                        0x00ff_0000,
                    ) * alpha,
                    0x00ff_0000,
                ),
                0x1_0000,
            )
            &&& text::byte_at(hex, 7) == rounding::nearest(
                math::min(percent as int, 100) * 255,
                100,
            )
        }),
{
    outcomes::edit_writes_the_seen_color(
        old(overrides)@,
        theme_name@,
        transparency_blur::section_keys(section@),
        *native,
        percent,
        key,
    );
}

/// `set_section_alpha` changes no color of another section, nothing else in
/// the entry of the theme, and no other theme. An entry that it makes has
/// nothing but the colors of the section.
pub proof fn section_edit_changes_nothing_else(
    overrides: &mut ThemeOverrides,
    theme_name: &str,
    section: &ColorSection,
    percent: u8,
    native: &ThemeColors,
    key: ColorKey,
    other_theme: Seq<char>,
)
    requires
        call_ensures(
            set_section_alpha,
            (overrides, theme_name, section, percent, native),
            (),
        ),
        other_theme != theme_name@,
    ensures
        ({
            let had = old(overrides)@.contains_key(theme_name@);
            let before = old(overrides)@[theme_name@];
            let after = final(overrides)@[theme_name@];
            &&& final(overrides)@.contains_key(theme_name@)
            &&& !section.keys@.contains(key) ==> (after.colors.contains_key(key) <==> had
                && before.colors.contains_key(key))
            &&& !section.keys@.contains(key) && had && before.colors.contains_key(key)
                ==> after.colors[key] == before.colors[key]
            &&& had ==> after.window_background_appearance == before.window_background_appearance
                && after.other == before.other
            &&& !had ==> after.window_background_appearance is None && after.other.len() == 0
            &&& final(overrides)@.contains_key(other_theme) == old(overrides)@.contains_key(
                other_theme,
            )
            &&& old(overrides)@.contains_key(other_theme) ==> final(overrides)@[other_theme]
                == old(overrides)@[other_theme]
        }),
{
    outcomes::section_edit_reaches_its_colors_alone(
        old(overrides)@,
        theme_name@,
        section@,
        *native,
        percent,
        key,
        other_theme,
    );
}

/// `set_section_alpha` on one of the listed sections leaves the color by which
/// the field of another one goes.
pub proof fn section_edit_leaves_other_fields(
    overrides: &mut ThemeOverrides,
    theme_name: &str,
    all: Vec<ColorSection>,
    i: int,
    j: int,
    percent: u8,
    native: &ThemeColors,
)
    requires
        call_ensures(sections, (), all),
        0 <= i < all.len(),
        0 <= j < all.len(),
        i != j,
        call_ensures(
            set_section_alpha,
            (overrides, theme_name, &all@[i], percent, native),
            (),
        ),
    ensures
        ({
            let had = old(overrides)@.contains_key(theme_name@);
            let before = old(overrides)@[theme_name@].colors;
            let after = final(overrides)@[theme_name@].colors;
            let first = all@[j].keys@[0];
            &&& all@[j].keys@.len() > 0
            &&& after.contains_key(first) <==> had && before.contains_key(first)
            &&& had && before.contains_key(first) ==> after[first] == before[first]
        }),
{
    assert(all@[i]@ == sections::all_sections()[i]);
    assert(all@[j]@ == sections::all_sections()[j]);
    outcomes::edit_leaves_other_fields(
        old(overrides)@,
        theme_name@,
        i,
        j,
        *native,
        percent,
    );
    sections::first_key_belongs_to_one_section(j, i);
}

/// `set_global_alpha` writes eight colors, each as `set_section_alpha` does at
/// the same percentage for a section that holds it, and changes nothing else.
pub proof fn global_edit_writes_as_section_edits_do(
    overrides: &mut ThemeOverrides,
    theme_name: &str,
    percent: u8,
    native: &ThemeColors,
    edited: &mut ThemeOverrides,
    edited_theme: &str,
    section: &ColorSection,
    key: ColorKey,
    other_theme: Seq<char>,
)
    requires
        call_ensures(set_global_alpha, (overrides, theme_name, percent, native), ()),
        call_ensures(
            set_section_alpha,
            (edited, edited_theme, section, percent, native),
            (),
        ),
        section.keys@.contains(key),
        other_theme != theme_name@,
    ensures
        ({
            let had = old(overrides)@.contains_key(theme_name@);
            let before = old(overrides)@[theme_name@];
            let after = final(overrides)@[theme_name@];
            let reached = match key {
                ColorKey::PanelBackground => true,
                ColorKey::EditorBackground => true,
                ColorKey::EditorGutterBackground => true,
                ColorKey::ToolbarBackground => true,
                ColorKey::TerminalBackground => true,
                ColorKey::TerminalAnsiBackground => true,
                ColorKey::Background => true,
                ColorKey::SurfaceBackground => true,
                ColorKey::TitleBarBackground => false,
                ColorKey::TitleBarInactiveBackground => false,
                ColorKey::StatusBarBackground => false,
                ColorKey::TabBarBackground => false,
                ColorKey::TabInactiveBackground => false,
                ColorKey::ElevatedSurfaceBackground => false,
            };
            &&& final(overrides)@.contains_key(theme_name@)
            &&& reached
                ==> after.colors.contains_key(key) && after.colors[key]
                == final(edited)@[edited_theme@].colors[key]
            &&& !reached ==> (after.colors.contains_key(key) <==> had
                && before.colors.contains_key(key))
            &&& !reached && had && before.colors.contains_key(key) ==> after.colors[key]
                == before.colors[key]
            &&& had ==> after.window_background_appearance == before.window_background_appearance
                && after.other == before.other
            &&& !had ==> after.window_background_appearance is None && after.other.len() == 0
            &&& final(overrides)@.contains_key(other_theme) == old(overrides)@.contains_key(
                other_theme,
            )
            &&& old(overrides)@.contains_key(other_theme) ==> final(overrides)@[other_theme]
                == old(overrides)@[other_theme]
        }),
{
    laws::global_keys_by_name(key);
}

/// `reset_section` takes the colors of the section away and changes nothing
/// else. The entry of the theme goes with its last content.
pub proof fn reset_takes_the_section_away(
    overrides: &mut ThemeOverrides,
    theme_name: &str,
    section: &ColorSection,
    key: ColorKey,
    other_theme: Seq<char>,
)
    requires
        call_ensures(reset_section, (overrides, theme_name, section), ()),
        other_theme != theme_name@,
    ensures
        ({
            let before = old(overrides)@[theme_name@];
            let after = final(overrides)@[theme_name@];
            let something_left = {
                ||| before.window_background_appearance is Some
                ||| before.other.len() > 0
                ||| exists|left: ColorKey| #[trigger]
                    before.colors.contains_key(left) && !section.keys@.contains(left)
            };
            &&& !old(overrides)@.contains_key(theme_name@) ==> final(overrides)@ == old(overrides)@
            &&& final(overrides)@.contains_key(theme_name@) <==> old(overrides)@.contains_key(
                theme_name@,
            ) && something_left
            &&& final(overrides)@.contains_key(theme_name@) ==> {
                &&& section.keys@.contains(key) ==> !after.colors.contains_key(key)
                &&& !section.keys@.contains(key) ==> after.colors.contains_key(key)
                    == before.colors.contains_key(key)
                &&& !section.keys@.contains(key) && before.colors.contains_key(key)
                    ==> after.colors[key] == before.colors[key]
                &&& after.window_background_appearance == before.window_background_appearance
                &&& after.other == before.other
            }
            &&& final(overrides)@.contains_key(other_theme) == old(overrides)@.contains_key(
                other_theme,
            )
            &&& old(overrides)@.contains_key(other_theme) ==> final(overrides)@[other_theme]
                == old(overrides)@[other_theme]
        }),
{
    outcomes::section_reset_reaches_its_colors_alone(
        old(overrides)@,
        theme_name@,
        section@,
        key,
        other_theme,
    );
}

/// `set_blur` records the choice. Where the window was opaque by `existing`
/// and stops being so, each of the two bars whose first color `existing` does
/// not override gets its colors as `set_section_alpha` writes them at 85
/// percent. Every other color, and at every other choice every color, is as it
/// was before, and so is everything else.
pub proof fn choice_touches_untouched_bars_alone(
    overrides: &mut ThemeOverrides,
    existing: Option<&ThemeStyleContent>,
    theme_name: &str,
    value: WindowBackgroundContent,
    native: &ThemeColors,
    edited: &mut ThemeOverrides,
    edited_theme: &str,
    section: &ColorSection,
    key: ColorKey,
    other_theme: Seq<char>,
)
    requires
        call_ensures(set_blur, (overrides, existing, theme_name, value, native), ()),
        call_ensures(set_section_alpha, (edited, edited_theme, section, 85u8, native), ()),
        section.keys@.contains(key),
        other_theme != theme_name@,
    ensures
        ({
            let had = old(overrides)@.contains_key(theme_name@);
            let before = old(overrides)@[theme_name@];
            let after = final(overrides)@[theme_name@];
            let was_opaque = {
                ||| existing is None
                ||| existing->0.window_background_appearance is None
                ||| existing->0.window_background_appearance == Some(
                    WindowBackgroundContent::Opaque,
                )
            };
            let leaves_opaque = was_opaque && value != WindowBackgroundContent::Opaque;
            let title_bar_untouched = existing is None
                || existing->0.colors.title_bar_background is None;
            let status_bar_untouched = existing is None
                || existing->0.colors.status_bar_background is None;
            let gets_default = leaves_opaque && match key {
                ColorKey::TitleBarBackground => title_bar_untouched,
                ColorKey::TitleBarInactiveBackground => title_bar_untouched,
                ColorKey::StatusBarBackground => status_bar_untouched,
                ColorKey::TabBarBackground => status_bar_untouched,
                ColorKey::TabInactiveBackground => status_bar_untouched,
                _ => false,
            };
            &&& final(overrides)@.contains_key(theme_name@)
            &&& after.window_background_appearance == Some(value)
            &&& gets_default
                ==> after.colors.contains_key(key) && after.colors[key]
                == final(edited)@[edited_theme@].colors[key]
            &&& !gets_default ==> (after.colors.contains_key(key) <==> had
                && before.colors.contains_key(key))
            &&& !gets_default && had && before.colors.contains_key(key) ==> after.colors[key]
                == before.colors[key]
            &&& had ==> after.other == before.other
            &&& !had ==> after.other.len() == 0
            &&& final(overrides)@.contains_key(other_theme) == old(overrides)@.contains_key(
                other_theme,
            )
            &&& old(overrides)@.contains_key(other_theme) ==> final(overrides)@[other_theme]
                == old(overrides)@[other_theme]
        }),
{
    let style = transparency_blur::style_view(existing);
    outcomes::choice_is_recorded(
        old(overrides)@,
        style,
        theme_name@,
        value,
        *native,
        other_theme,
    );
    outcomes::choice_gives_defaults_to_untouched_bars(
        old(overrides)@,
        style,
        theme_name@,
        value,
        *native,
        key,
    );
    if existing is Some {
        theme::each_key_has_its_own_text(existing->0.colors);
        theme::model_keeps_every_field(*existing->0);
    }
}

/// `native` gives the color of the key's own name.
pub proof fn key_reads_the_color_of_its_name(key: ColorKey, colors: &ThemeColors, color: Rgba)
    requires
        call_ensures(ColorKey::native, (key, colors), color),
    ensures
        key == ColorKey::TitleBarBackground ==> color == colors.title_bar_background,
        key == ColorKey::TitleBarInactiveBackground
            ==> color == colors.title_bar_inactive_background,
        key == ColorKey::PanelBackground ==> color == colors.panel_background,
        key == ColorKey::EditorBackground ==> color == colors.editor_background,
        key == ColorKey::EditorGutterBackground ==> color == colors.editor_gutter_background,
        key == ColorKey::ToolbarBackground ==> color == colors.toolbar_background,
        key == ColorKey::TerminalBackground ==> color == colors.terminal_background,
        key == ColorKey::TerminalAnsiBackground ==> color == colors.terminal_ansi_background,
        key == ColorKey::StatusBarBackground ==> color == colors.status_bar_background,
        key == ColorKey::TabBarBackground ==> color == colors.tab_bar_background,
        key == ColorKey::TabInactiveBackground ==> color == colors.tab_inactive_background,
        key == ColorKey::Background ==> color == colors.background,
        key == ColorKey::SurfaceBackground ==> color == colors.surface_background,
        key == ColorKey::ElevatedSurfaceBackground ==> color == colors.elevated_surface_background,
{
}

/// `override_get` gives the text of the field of the key's own name.
pub proof fn key_reads_the_text_of_its_name(
    key: ColorKey,
    colors: &ThemeColorsContent,
    text: Option<&String>,
)
    requires
        call_ensures(ColorKey::override_get, (key, colors), text),
    ensures
        key == ColorKey::TitleBarBackground ==> text is Some == colors.title_bar_background is Some,
        key == ColorKey::TitleBarBackground && text is Some
            ==> text->0@ == colors.title_bar_background->0@,
        key == ColorKey::TitleBarInactiveBackground
            ==> text is Some == colors.title_bar_inactive_background is Some,
        key == ColorKey::TitleBarInactiveBackground && text is Some
            ==> text->0@ == colors.title_bar_inactive_background->0@,
        key == ColorKey::PanelBackground ==> text is Some == colors.panel_background is Some,
        key == ColorKey::PanelBackground && text is Some
            ==> text->0@ == colors.panel_background->0@,
        key == ColorKey::EditorBackground ==> text is Some == colors.editor_background is Some,
        key == ColorKey::EditorBackground && text is Some
            ==> text->0@ == colors.editor_background->0@,
        key == ColorKey::EditorGutterBackground
            ==> text is Some == colors.editor_gutter_background is Some,
        key == ColorKey::EditorGutterBackground && text is Some
            ==> text->0@ == colors.editor_gutter_background->0@,
        key == ColorKey::ToolbarBackground ==> text is Some == colors.toolbar_background is Some,
        key == ColorKey::ToolbarBackground && text is Some
            ==> text->0@ == colors.toolbar_background->0@,
        key == ColorKey::TerminalBackground ==> text is Some == colors.terminal_background is Some,
        key == ColorKey::TerminalBackground && text is Some
            ==> text->0@ == colors.terminal_background->0@,
        key == ColorKey::TerminalAnsiBackground
            ==> text is Some == colors.terminal_ansi_background is Some,
        key == ColorKey::TerminalAnsiBackground && text is Some
            ==> text->0@ == colors.terminal_ansi_background->0@,
        key == ColorKey::StatusBarBackground
            ==> text is Some == colors.status_bar_background is Some,
        key == ColorKey::StatusBarBackground && text is Some
            ==> text->0@ == colors.status_bar_background->0@,
        key == ColorKey::TabBarBackground ==> text is Some == colors.tab_bar_background is Some,
        key == ColorKey::TabBarBackground && text is Some
            ==> text->0@ == colors.tab_bar_background->0@,
        key == ColorKey::TabInactiveBackground
            ==> text is Some == colors.tab_inactive_background is Some,
        key == ColorKey::TabInactiveBackground && text is Some
            ==> text->0@ == colors.tab_inactive_background->0@,
        key == ColorKey::Background ==> text is Some == colors.background is Some,
        key == ColorKey::Background && text is Some ==> text->0@ == colors.background->0@,
        key == ColorKey::SurfaceBackground ==> text is Some == colors.surface_background is Some,
        key == ColorKey::SurfaceBackground && text is Some
            ==> text->0@ == colors.surface_background->0@,
        key == ColorKey::ElevatedSurfaceBackground
            ==> text is Some == colors.elevated_surface_background is Some,
        key == ColorKey::ElevatedSurfaceBackground && text is Some
            ==> text->0@ == colors.elevated_surface_background->0@,
{
    theme::each_key_has_its_own_text(*colors);
}

/// `override_set` replaces the text of the field of the key's own name, or
/// takes it away, and leaves the others.
pub proof fn key_writes_the_text_of_its_name(
    key: ColorKey,
    colors: &mut ThemeColorsContent,
    text: Option<String>,
)
    requires
        call_ensures(ColorKey::override_set, (key, colors, text), ()),
    ensures
        final(colors).title_bar_background is Some == if key == ColorKey::TitleBarBackground {
            text is Some
        } else {
            old(colors).title_bar_background is Some
        },
        final(colors).title_bar_background is Some
            ==> final(colors).title_bar_background->0@ == if key
            == ColorKey::TitleBarBackground {
            text->0@
        } else {
            old(colors).title_bar_background->0@
        },
        final(colors).title_bar_inactive_background is Some == if key
            == ColorKey::TitleBarInactiveBackground {
            text is Some
        } else {
            old(colors).title_bar_inactive_background is Some
        },
        final(colors).title_bar_inactive_background is Some
            ==> final(colors).title_bar_inactive_background->0@ == if key
            == ColorKey::TitleBarInactiveBackground {
            text->0@
        } else {
            old(colors).title_bar_inactive_background->0@
        },
        final(colors).panel_background is Some == if key == ColorKey::PanelBackground {
            text is Some
        } else {
            old(colors).panel_background is Some
        },
        final(colors).panel_background is Some ==> final(colors).panel_background->0@ == if key
            == ColorKey::PanelBackground {
            text->0@
        } else {
            old(colors).panel_background->0@
        },
        final(colors).editor_background is Some == if key == ColorKey::EditorBackground {
            text is Some
        } else {
            old(colors).editor_background is Some
        },
        final(colors).editor_background is Some ==> final(colors).editor_background->0@ == if key
            == ColorKey::EditorBackground {
            text->0@
        } else {
            old(colors).editor_background->0@
        },
        final(colors).editor_gutter_background is Some == if key
            == ColorKey::EditorGutterBackground {
            text is Some
        } else {
            old(colors).editor_gutter_background is Some
        },
        final(colors).editor_gutter_background is Some
            ==> final(colors).editor_gutter_background->0@ == if key
            == ColorKey::EditorGutterBackground {
            text->0@
        } else {
            old(colors).editor_gutter_background->0@
        },
        final(colors).toolbar_background is Some == if key == ColorKey::ToolbarBackground {
            text is Some
        } else {
            old(colors).toolbar_background is Some
        },
        final(colors).toolbar_background is Some ==> final(colors).toolbar_background->0@ == if key
            == ColorKey::ToolbarBackground {
            text->0@
        } else {
            old(colors).toolbar_background->0@
        },
        final(colors).terminal_background is Some == if key == ColorKey::TerminalBackground {
            text is Some
        } else {
            old(colors).terminal_background is Some
        },
        final(colors).terminal_background is Some
            ==> final(colors).terminal_background->0@ == if key
            == ColorKey::TerminalBackground {
            text->0@
        } else {
            old(colors).terminal_background->0@
        },
        final(colors).terminal_ansi_background is Some == if key
            == ColorKey::TerminalAnsiBackground {
            text is Some
        } else {
            old(colors).terminal_ansi_background is Some
        },
        final(colors).terminal_ansi_background is Some
            ==> final(colors).terminal_ansi_background->0@ == if key
            == ColorKey::TerminalAnsiBackground {
            text->0@
        } else {
            old(colors).terminal_ansi_background->0@
        },
        final(colors).status_bar_background is Some == if key == ColorKey::StatusBarBackground {
            text is Some
        } else {
            old(colors).status_bar_background is Some
        },
        final(colors).status_bar_background is Some
            ==> final(colors).status_bar_background->0@ == if key
            == ColorKey::StatusBarBackground {
            text->0@
        } else {
            old(colors).status_bar_background->0@
        },
        final(colors).tab_bar_background is Some == if key == ColorKey::TabBarBackground {
            text is Some
        } else {
            old(colors).tab_bar_background is Some
        },
        final(colors).tab_bar_background is Some ==> final(colors).tab_bar_background->0@ == if key
            == ColorKey::TabBarBackground {
            text->0@
        } else {
            old(colors).tab_bar_background->0@
        },
        final(colors).tab_inactive_background is Some == if key == ColorKey::TabInactiveBackground {
            text is Some
        } else {
            old(colors).tab_inactive_background is Some
        },
        final(colors).tab_inactive_background is Some
            ==> final(colors).tab_inactive_background->0@ == if key
            == ColorKey::TabInactiveBackground {
            text->0@
        } else {
            old(colors).tab_inactive_background->0@
        },
        final(colors).background is Some == if key == ColorKey::Background {
            text is Some
        } else {
            old(colors).background is Some
        },
        final(colors).background is Some ==> final(colors).background->0@ == if key
            == ColorKey::Background {
            text->0@
        } else {
            old(colors).background->0@
        },
        final(colors).surface_background is Some == if key == ColorKey::SurfaceBackground {
            text is Some
        } else {
            old(colors).surface_background is Some
        },
        final(colors).surface_background is Some ==> final(colors).surface_background->0@ == if key
            == ColorKey::SurfaceBackground {
            text->0@
        } else {
            old(colors).surface_background->0@
        },
        final(colors).elevated_surface_background is Some == if key
            == ColorKey::ElevatedSurfaceBackground {
            text is Some
        } else {
            old(colors).elevated_surface_background is Some
        },
        final(colors).elevated_surface_background is Some
            ==> final(colors).elevated_surface_background->0@ == if key
            == ColorKey::ElevatedSurfaceBackground {
            text->0@
        } else {
            old(colors).elevated_surface_background->0@
        },
{
    theme::each_key_has_its_own_text(*old(colors));
    theme::each_key_has_its_own_text(*final(colors));
}

/// The alpha byte of a percentage is nearest to that share of 255, halves up,
/// and that of 100 percent for more.
pub proof fn alpha_byte_of_percent_is_nearest(percent: u8, byte: u8)
    requires
        call_ensures(percent_to_alpha_byte, (percent,), byte),
    ensures
        percent <= 100 ==> 200 * byte - 100 <= 510 * percent < 200 * byte + 100,
        percent >= 100 ==> byte == 255,
{
}

/// The percentage of an alpha byte is nearest to its share of 255, halves up.
pub proof fn percent_of_alpha_byte_is_nearest(alpha: u8, percent: u8)
    requires
        call_ensures(alpha_byte_to_percent, (alpha,), percent),
    ensures
        510 * percent - 255 <= 200 * alpha < 510 * percent + 255,
{
}

/// A percentage survives being turned into an alpha byte and back.
pub proof fn percent_comes_back(percent: u8, byte: u8, back: u8)
    requires
        call_ensures(percent_to_alpha_byte, (percent,), byte),
        call_ensures(alpha_byte_to_percent, (byte,), back),
    ensures
        percent <= 100 ==> back == percent,
        percent >= 100 ==> back == 100,
{
    color::percent_survives_alpha_byte(percent);
}

/// The byte of a channel is the nearest one, halves up, and 255 for a channel
/// that is full or more.
pub proof fn byte_of_channel_is_nearest(channel: u32, byte: u8)
    requires
        call_ensures(channel_to_byte, (channel,), byte),
    ensures
        channel <= 0x00ff_0000 ==> 0x2_0000 * byte - 0x1_0000 <= 2 * channel < 0x2_0000 * byte
            + 0x1_0000,
        channel >= 0x00ff_0000 ==> byte == 255,
{
    color::channel_byte_is_nearest(channel);
}

/// `blend_onto` gives, in each channel, the mean of the two colors to the
/// nearest unit, where `color` weighs what its opacity says and `base` the
/// rest. The result is opaque.
pub proof fn blend_is_the_weighted_mean(base: Rgba, color: Rgba, result: Rgba)
    requires
        call_ensures(blend_onto, (base, color), result),
    ensures
        ({
            let alpha = math::min(color.a as int, 0x00ff_0000);
            let rest = 0x00ff_0000 - alpha;
            let r = math::min(base.r as int, 0x00ff_0000) * rest + math::min(
                color.r as int,
                0x00ff_0000,
            ) * alpha;
            let g = math::min(base.g as int, 0x00ff_0000) * rest + math::min(
                color.g as int,
                0x00ff_0000,
            ) * alpha;
            let b = math::min(base.b as int, 0x00ff_0000) * rest + math::min(
                color.b as int,
                0x00ff_0000,
            ) * alpha;
            &&& 0x01fe_0000 * result.r - 0x00ff_0000 <= 2 * r < 0x01fe_0000 * result.r
                + 0x00ff_0000
            &&& 0x01fe_0000 * result.g - 0x00ff_0000 <= 2 * g < 0x01fe_0000 * result.g
                + 0x00ff_0000
            &&& 0x01fe_0000 * result.b - 0x00ff_0000 <= 2 * b < 0x01fe_0000 * result.b
                + 0x00ff_0000
            &&& result.a == 0x00ff_0000
        }),
{
    color::blend_is_nearest(base.r, color.r, color.a);
    color::blend_is_nearest(base.g, color.g, color.a);
    color::blend_is_nearest(base.b, color.b, color.a);
}

/// `rgba_hex_with_alpha_percent` writes `#`, then the bytes nearest to red,
/// green and blue, then the byte of the percentage, each as two lower-case
/// hexadecimal digits.
pub proof fn hex_spells_the_color(
    rgba: Rgba,
    percent: u8,
    hex: String,
    r: u8,
    g: u8,
    b: u8,
    a: u8,
)
    requires
        call_ensures(rgba_hex_with_alpha_percent, (rgba, percent), hex),
        call_ensures(channel_to_byte, (rgba.r,), r),
        call_ensures(channel_to_byte, (rgba.g,), g),
        call_ensures(channel_to_byte, (rgba.b,), b),
        call_ensures(percent_to_alpha_byte, (percent,), a),
    ensures
        hex@.len() == 9,
        hex@[0] == '#',
        text::byte_at(hex@, 1) == r,
        text::byte_at(hex@, 3) == g,
        text::byte_at(hex@, 5) == b,
        text::byte_at(hex@, 7) == a,
{
}

/// The opacity of a color is the percentage nearest to the share of 255 that
/// its alpha's nearest byte is, halves up both times.
pub proof fn opacity_is_that_of_the_nearest_byte(color: Rgba, byte: u8, percent: u8)
    requires
        call_ensures(effective_alpha_percent, (color,), percent),
        call_ensures(channel_to_byte, (color.a,), byte),
    ensures
        percent == rounding::nearest(
            100 * rounding::nearest(math::min(color.a as int, 0x00ff_0000), 0x1_0000),
            255,
        ),
        510 * percent - 255 <= 200 * byte < 510 * percent + 255,
{
}

/// More opacity is never shown as less.
pub proof fn opacity_increases(less: Rgba, more: Rgba, less_percent: u8, more_percent: u8)
    requires
        call_ensures(effective_alpha_percent, (less,), less_percent),
        call_ensures(effective_alpha_percent, (more,), more_percent),
        less.a <= more.a,
    ensures
        less_percent <= more_percent <= 100,
{
}

/// The list of sections: what each is called, which colors it holds and in
/// which order, and whether the global field reaches it.
pub proof fn sections_by_name(all: Vec<ColorSection>)
    requires
        call_ensures(sections, (), all),
    ensures
        all.len() == 7,
        all@[0].title@ == "Title Bar"@,
        all@[0].keys@ == seq![
            ColorKey::TitleBarBackground,
            ColorKey::TitleBarInactiveBackground,
        ],
        !all@[0].included_in_global,
        all@[1].title@ == "Panels"@,
        all@[1].keys@ == seq![ColorKey::PanelBackground],
        all@[1].included_in_global,
        all@[2].title@ == "Editor"@,
        all@[2].keys@ == seq![
            ColorKey::EditorBackground,
            ColorKey::EditorGutterBackground,
            ColorKey::ToolbarBackground,
        ],
        all@[2].included_in_global,
        all@[3].title@ == "Terminal"@,
        all@[3].keys@ == seq![ColorKey::TerminalBackground, ColorKey::TerminalAnsiBackground],
        all@[3].included_in_global,
        all@[4].title@ == "Status/Tab Bar"@,
        all@[4].keys@ == seq![
            ColorKey::StatusBarBackground,
            ColorKey::TabBarBackground,
            ColorKey::TabInactiveBackground,
        ],
        !all@[4].included_in_global,
        all@[5].title@ == "Surfaces"@,
        all@[5].keys@ == seq![
            ColorKey::Background,
            ColorKey::SurfaceBackground,
            ColorKey::ToolbarBackground,
        ],
        all@[5].included_in_global,
        all@[6].title@ == "Popups & Overlays"@,
        all@[6].keys@ == seq![ColorKey::ElevatedSurfaceBackground],
        !all@[6].included_in_global,
{
}

/// No two fields go by the same color: the first color of a section belongs to
/// no other.
pub proof fn fields_go_by_colors_of_their_own(all: Vec<ColorSection>, i: int, j: int)
    requires
        call_ensures(sections, (), all),
        0 <= i < all.len(),
        0 <= j < all.len(),
        i != j,
    ensures
        all@[i].keys@.len() > 0,
        !all@[j].keys@.contains(all@[i].keys@[0]),
{
    assert(all@[i]@ == sections::all_sections()[i]);
    assert(all@[j]@ == sections::all_sections()[j]);
    sections::first_key_belongs_to_one_section(i, j);
}

/// `current_blur` is what the override names, and opaque where there is none
/// or it names nothing.
pub proof fn current_blur_is_the_named_one(
    style: Option<&ThemeStyleContent>,
    value: WindowBackgroundContent,
)
    requires
        call_ensures(current_blur, (style,), value),
    ensures
        style is Some && style->0.window_background_appearance is Some ==> value
            == style->0.window_background_appearance->0,
        style is None || style->0.window_background_appearance is None ==> value
            == WindowBackgroundContent::Opaque,
{
}

/// `section_override` gives what the first key of the section gives, and
/// nothing without an override.
pub proof fn section_goes_by_its_first_color(
    style: &ThemeStyleContent,
    section: &ColorSection,
    text: Option<&String>,
    key_text: Option<&String>,
    none_text: Option<&String>,
)
    requires
        section.keys.len() > 0,
        call_ensures(section_override, (Some(style), section), text),
        call_ensures(ColorKey::override_get, (section.keys@[0], &style.colors), key_text),
        call_ensures(section_override, (None, section), none_text),
    ensures
        text is Some == key_text is Some,
        text is Some ==> text->0@ == key_text->0@,
        none_text is None,
{
}

/// The percentage for a section is the opacity of the color that was read, or
/// that of the theme's own color for its first key where none was.
pub proof fn percent_is_that_of_the_read_color(
    native: &ThemeColors,
    parsed: Option<Rgba>,
    section: &ColorSection,
    color: Rgba,
    percent: u8,
)
    requires
        section.keys.len() > 0,
        call_ensures(parsed_section_percent, (native, parsed, section), percent),
        call_ensures(ColorKey::native, (section.keys@[0], native), color),
    ensures
        parsed is Some ==> percent == rounding::nearest(
            100 * rounding::nearest(math::min(parsed->0.a as int, 0x00ff_0000), 0x1_0000),
            255,
        ),
        parsed is None ==> percent == rounding::nearest(
            100 * rounding::nearest(math::min(color.a as int, 0x00ff_0000), 0x1_0000),
            255,
        ),
{
}

/// What the field of a section shows: the opacity of the color that the text
/// of its first color reads as, or that of the theme's own color where there
/// is no such text or it reads as none.
pub proof fn section_field_shows_its_first_color<F: Fn(&str) -> Option<Rgba>>(
    native: &ThemeColors,
    style: Option<&ThemeStyleContent>,
    section: &ColorSection,
    parse: &F,
    color: Rgba,
    read: Option<Rgba>,
    percent: u8,
)
    requires
        section.keys.len() > 0,
        forall|text: &str| #[trigger] call_requires(*parse, (text,)),
        call_ensures(section_percent, (native, style, section, parse), percent),
        call_ensures(ColorKey::native, (section.keys@[0], native), color),
        style is Some ==> forall|text: &str, parsed: Option<Rgba>|
            text@ == style->0.colors@[section.keys@[0]] && #[trigger] call_ensures(
                *parse,
                (text,),
                parsed,
            ) ==> parsed == read,
    ensures
        style is None || !style->0.colors@.contains_key(section.keys@[0]) || read is None
            ==> percent == rounding::nearest(
            100 * rounding::nearest(math::min(color.a as int, 0x00ff_0000), 0x1_0000),
            255,
        ),
        style is Some && style->0.colors@.contains_key(section.keys@[0]) && read is Some
            ==> percent == rounding::nearest(
            100 * rounding::nearest(math::min(read->0.a as int, 0x00ff_0000), 0x1_0000),
            255,
        ),
{
}

/// The global field shows what a field that goes by the theme's background
/// would: the opacity of the overriding background as it reads, or that of the
/// theme's own.
pub proof fn global_field_shows_the_background<F: Fn(&str) -> Option<Rgba>>(
    native: &ThemeColors,
    style: Option<&ThemeStyleContent>,
    parse: &F,
    read: Option<Rgba>,
    percent: u8,
)
    requires
        forall|text: &str| #[trigger] call_requires(*parse, (text,)),
        call_ensures(global_percent, (native, style, parse), percent),
        style is Some && style->0.colors.background is Some ==> forall|
            text: &str,
            parsed: Option<Rgba>,
        |
            text@ == style->0.colors.background->0@ && #[trigger] call_ensures(
                *parse,
                (text,),
                parsed,
            ) ==> parsed == read,
    ensures
        style is None || style->0.colors.background is None || read is None ==> percent
            == rounding::nearest(
            100 * rounding::nearest(math::min(native.background.a as int, 0x00ff_0000), 0x1_0000),
            255,
        ),
        style is Some && style->0.colors.background is Some && read is Some ==> percent
            == rounding::nearest(
            100 * rounding::nearest(math::min(read->0.a as int, 0x00ff_0000), 0x1_0000),
            255,
        ),
{
    if style is Some {
        theme::each_key_has_its_own_text(style->0.colors);
    }
}

/// The names of the choices.
pub proof fn choices_have_names(value: WindowBackgroundContent, label: &'static str)
    requires
        call_ensures(blur_label, (value,), label),
    ensures
        value == WindowBackgroundContent::Opaque ==> label@ == "Opaque"@,
        value == WindowBackgroundContent::Transparent ==> label@ == "Transparent"@,
        value == WindowBackgroundContent::Blurred ==> label@ == "Blurred"@,
{
}

/// The menu lists the three choices in this order, under their names, with the
/// current one toggled and no other.
pub proof fn menu_lists_the_choices(current: WindowBackgroundContent, menu: Vec<BlurOption>)
    requires
        call_ensures(blur_menu, (current,), menu),
    ensures
        menu.len() == 3,
        menu@[0].value == WindowBackgroundContent::Opaque,
        menu@[0].label@ == "Opaque"@,
        menu@[0].toggled == (current == WindowBackgroundContent::Opaque),
        menu@[1].value == WindowBackgroundContent::Transparent,
        menu@[1].label@ == "Transparent"@,
        menu@[1].toggled == (current == WindowBackgroundContent::Transparent),
        menu@[2].value == WindowBackgroundContent::Blurred,
        menu@[2].label@ == "Blurred"@,
        menu@[2].toggled == (current == WindowBackgroundContent::Blurred),
{
    outcomes::menu_offers_three_choices(menu@, current);
}

/// A confirmed field asks for the number that its digits stand for, at most
/// 100, whatever whitespace is around them and with or without a plus sign. A
/// number above 255 asks for nothing, and neither does a missing text.
pub proof fn confirmed_digits_are_asked_for(
    value: &str,
    left: Seq<char>,
    digits: Seq<char>,
    right: Seq<char>,
    percent: Option<u8>,
    none_percent: Option<u8>,
)
    requires
        call_ensures(confirmed_percent, (Some(value),), percent),
        call_ensures(confirmed_percent, (None,), none_percent),
        value@ == left + digits + right || value@ == left + (seq!['+'] + digits) + right,
        forall|i: int| 0 <= i < left.len() ==> text::is_whitespace(#[trigger] left[i]),
        forall|i: int| 0 <= i < right.len() ==> text::is_whitespace(#[trigger] right[i]),
        digits.len() > 0,
        forall|i: int| 0 <= i < digits.len() ==> '0' <= #[trigger] digits[i] <= '9',
    ensures
        percent is Some <==> text::decimal_value(digits) <= 255,
        percent is Some ==> percent->0 == math::min(text::decimal_value(digits), 100),
        none_percent is None,
{
    outcomes::confirmed_number_is_asked_for(left, true, digits, right);
    outcomes::confirmed_number_is_asked_for(left, false, digits, right);
    text::digits_read_as_byte(digits);
}

/// A text that asks for something has a digit in it, and nothing but digits,
/// whitespace and plus signs.
pub proof fn other_text_asks_for_nothing(value: &str, percent: Option<u8>)
    requires
        call_ensures(confirmed_percent, (Some(value),), percent),
        percent is Some,
    ensures
        percent->0 <= 100,
        exists|i: int| 0 <= i < value@.len() && '0' <= #[trigger] value@[i] <= '9',
        forall|i: int|
            0 <= i < value@.len() ==> '0' <= #[trigger] value@[i] <= '9' || value@[i] == '+'
                || text::is_whitespace(value@[i]),
{
    let (left, digits, right) = outcomes::only_numbers_are_asked_for(Some(value@));
    assert('0' <= digits[0] <= '9');
    let start: int = if value@ == left + digits + right {
        left.len() as int
    } else {
        (left.len() + 1) as int
    };
    assert(value@[start] == digits[0]);
    assert forall|i: int| 0 <= i < value@.len() implies '0' <= #[trigger] value@[i] <= '9'
        || value@[i] == '+' || text::is_whitespace(value@[i]) by {
        if i < left.len() {
            assert(value@[i] == left[i]);
        } else if start <= i < start + digits.len() {
            assert(value@[i] == digits[i - start]);
        } else if i >= start + digits.len() {
            assert(value@[i] == right[i - start - digits.len()]);
        }
    }
}

/// A field that is confirmed as it stands asks for the percentage that it
/// started out with.
pub proof fn untouched_field_asks_for_what_it_shows(
    percent: u8,
    shown: String,
    value: &str,
    asked: Option<u8>,
)
    requires
        call_ensures(percent_text, (percent,), shown),
        value@ == shown@,
        call_ensures(confirmed_percent, (Some(value),), asked),
    ensures
        asked is Some,
        asked->0 == math::min(percent as int, 100),
        text::decimal_value(shown@) == percent,
        forall|i: int| 0 <= i < shown@.len() ==> '0' <= #[trigger] shown@[i] <= '9',
        shown@.len() == if percent < 10 {
            1int
        } else if percent < 100 {
            2
        } else {
            3
        },
{
    laws::shown_percent_is_asked_for(percent);
    text::decimal_text_is_shortest(percent as int);
    reveal_with_fuel(text::decimal_text, 3);
}

/// The page shows the current choice, its name, the menu and the global field
/// as the functions for each of them give them. The opacity controls are
/// hidden where the window is opaque, and there alone.
pub proof fn page_shows_what_its_parts_show<F: Fn(&str) -> Option<Rgba>>(
    native: &ThemeColors,
    style: Option<&ThemeStyleContent>,
    parse: &F,
    page: TransparencyBlurPage,
    current: WindowBackgroundContent,
    label: &'static str,
    menu: Vec<BlurOption>,
    i: int,
    percent_shown: String,
)
    requires
        forall|text: &str| #[trigger] call_requires(*parse, (text,)),
        call_ensures(transparency_blur_page, (native, style, parse), page),
        call_ensures(current_blur, (style,), current),
        call_ensures(blur_label, (current,), label),
        call_ensures(blur_menu, (current,), menu),
        0 <= i < 3,
        call_ensures(percent_text, (page.global_percent,), percent_shown),
    ensures
        page.current_blur == current,
        page.blur_label@ == label@,
        page.blur_menu.len() == menu.len(),
        page.blur_menu@[i].value == menu@[i].value,
        page.blur_menu@[i].label@ == menu@[i].label@,
        page.blur_menu@[i].toggled == menu@[i].toggled,
        page.global_percent_text@ == percent_shown@,
        page.show_opacity_controls <==> current != WindowBackgroundContent::Opaque,
{
    outcomes::menu_offers_three_choices(menu@, current);
    outcomes::menu_offers_three_choices(page.blur_menu@, current);
}

/// The page's global field shows the opacity of the overriding background as
/// it reads, or that of the theme's own.
pub proof fn page_shows_the_background<F: Fn(&str) -> Option<Rgba>>(
    native: &ThemeColors,
    style: Option<&ThemeStyleContent>,
    parse: &F,
    page: TransparencyBlurPage,
    read: Option<Rgba>,
)
    requires
        forall|text: &str| #[trigger] call_requires(*parse, (text,)),
        call_ensures(transparency_blur_page, (native, style, parse), page),
        style is Some && style->0.colors.background is Some ==> forall|
            text: &str,
            parsed: Option<Rgba>,
        |
            text@ == style->0.colors.background->0@ && #[trigger] call_ensures(
                *parse,
                (text,),
                parsed,
            ) ==> parsed == read,
    ensures
        style is None || style->0.colors.background is None || read is None
            ==> page.global_percent == rounding::nearest(
            100 * rounding::nearest(math::min(native.background.a as int, 0x00ff_0000), 0x1_0000),
            255,
        ),
        style is Some && style->0.colors.background is Some && read is Some
            ==> page.global_percent == rounding::nearest(
            100 * rounding::nearest(math::min(read->0.a as int, 0x00ff_0000), 0x1_0000),
            255,
        ),
{
    if style is Some {
        theme::each_key_has_its_own_text(style->0.colors);
    }
}

/// A row goes by the title of its section, shows the opacity of the section's
/// first color as it reads, or that of the theme's own, and starts its field
/// out with that number.
pub proof fn row_shows_its_first_color<F: Fn(&str) -> Option<Rgba>>(
    section: &ColorSection,
    native: &ThemeColors,
    style: Option<&ThemeStyleContent>,
    parse: &F,
    row: SectionRow,
    color: Rgba,
    read: Option<Rgba>,
    percent_shown: String,
)
    requires
        section.keys.len() > 0,
        forall|text: &str| #[trigger] call_requires(*parse, (text,)),
        call_ensures(section_row, (section, native, style, parse), row),
        call_ensures(ColorKey::native, (section.keys@[0], native), color),
        call_ensures(percent_text, (row.percent,), percent_shown),
        style is Some ==> forall|text: &str, parsed: Option<Rgba>|
            text@ == style->0.colors@[section.keys@[0]] && #[trigger] call_ensures(
                *parse,
                (text,),
                parsed,
            ) ==> parsed == read,
    ensures
        row.title@ == section.title@,
        style is None || !style->0.colors@.contains_key(section.keys@[0]) || read is None
            ==> row.percent == rounding::nearest(
            100 * rounding::nearest(math::min(color.a as int, 0x00ff_0000), 0x1_0000),
            255,
        ),
        style is Some && style->0.colors@.contains_key(section.keys@[0]) && read is Some
            ==> row.percent == rounding::nearest(
            100 * rounding::nearest(math::min(read->0.a as int, 0x00ff_0000), 0x1_0000),
            255,
        ),
        row.percent_text@ == percent_shown@,
        row.input_id@ == "transparency-section-"@ + section.title@,
        row.reset_id@ == "reset-transparency-section-"@ + section.title@,
{
}

/// The advanced page has a row for each section, in the order of the list,
/// which goes by its title and shows its first color.
pub proof fn advanced_page_has_a_row_for_each_section<F: Fn(&str) -> Option<Rgba>>(
    native: &ThemeColors,
    style: Option<&ThemeStyleContent>,
    parse: &F,
    rows: Vec<SectionRow>,
    all: Vec<ColorSection>,
    i: int,
    color: Rgba,
    read: Option<Rgba>,
    percent_shown: String,
)
    requires
        forall|text: &str| #[trigger] call_requires(*parse, (text,)),
        call_ensures(transparency_blur_advanced_page, (native, style, parse), rows),
        call_ensures(sections, (), all),
        0 <= i < all.len(),
        call_ensures(ColorKey::native, (all@[i].keys@[0], native), color),
        call_ensures(percent_text, (rows@[i].percent,), percent_shown),
        style is Some ==> forall|text: &str, parsed: Option<Rgba>|
            text@ == style->0.colors@[all@[i].keys@[0]] && #[trigger] call_ensures(
                *parse,
                (text,),
                parsed,
            ) ==> parsed == read,
    ensures
        rows.len() == all.len(),
        rows@[i].title@ == all@[i].title@,
        style is None || !style->0.colors@.contains_key(all@[i].keys@[0]) || read is None
            ==> rows@[i].percent == rounding::nearest(
            100 * rounding::nearest(math::min(color.a as int, 0x00ff_0000), 0x1_0000),
            255,
        ),
        style is Some && style->0.colors@.contains_key(all@[i].keys@[0]) && read is Some
            ==> rows@[i].percent == rounding::nearest(
            100 * rounding::nearest(math::min(read->0.a as int, 0x00ff_0000), 0x1_0000),
            255,
        ),
        rows@[i].percent_text@ == percent_shown@,
        rows@[i].input_id@ == "transparency-section-"@ + all@[i].title@,
        rows@[i].reset_id@ == "reset-transparency-section-"@ + all@[i].title@,
{
    assert(all@[i]@ == sections::all_sections()[i]);
}

/// A theme that is registered has its own colors, and another one those that
/// are active.
pub proof fn registered_colors_come_first(
    registered: Option<ThemeColors>,
    active: ThemeColors,
    colors: ThemeColors,
)
    requires
        call_ensures(native_colors, (registered, active), colors),
    ensures
        registered is Some ==> colors == registered->0,
        registered is None ==> colors == active,
{
}

/// A panel of size `Small` is as wide as it prefers to be and has no fixed
/// height. One of size `Medium` takes seven tenths of either side of the
/// viewport, one of size `Large` nine tenths, to the nearest unit, halves up.
/// One of size `Fullscreen` leaves the padding at all four sides.
pub proof fn panel_takes_its_share(
    default_size: Pixels,
    viewport: Size,
    settings: FloatingPanelSettings,
    size: (Pixels, Option<Pixels>),
)
    requires
        call_requires(modal_size, (default_size, viewport, settings)),
        call_ensures(modal_size, (default_size, viewport, settings), size),
    ensures
        settings.floating_panel_size == FloatingPanelSize::Small ==> size.0.units
            == default_size.units && size.1 is None,
        settings.floating_panel_size == FloatingPanelSize::Medium ==> {
            &&& 20 * size.0.units - 10 <= 14 * viewport.width.units < 20 * size.0.units + 10
            &&& size.1 is Some
            &&& 20 * size.1->0.units - 10 <= 14 * viewport.height.units < 20 * size.1->0.units + 10
        },
        settings.floating_panel_size == FloatingPanelSize::Large ==> {
            &&& 20 * size.0.units - 10 <= 18 * viewport.width.units < 20 * size.0.units + 10
            &&& size.1 is Some
            &&& 20 * size.1->0.units - 10 <= 18 * viewport.height.units < 20 * size.1->0.units + 10
        },
        settings.floating_panel_size == FloatingPanelSize::Fullscreen ==> {
            let padding = settings.floating_panel_padding.units;
            &&& padding + size.0.units + padding == viewport.width.units
            &&& size.1 is Some
            &&& padding + size.1->0.units + padding == viewport.height.units
        },
{
}

/// Every panel can be laid out whose sides are lengths: only a padding that
/// takes a side of a panel of size `Fullscreen` out of range is left out.
pub proof fn panel_can_be_laid_out(
    default_size: Pixels,
    viewport: Size,
    settings: FloatingPanelSettings,
)
    ensures
        ({
            let padding = settings.floating_panel_padding.units;
            call_requires(modal_size, (default_size, viewport, settings)) <== {
                ||| settings.floating_panel_size != FloatingPanelSize::Fullscreen
                ||| i64::MIN <= viewport.width.units - 2 * padding <= i64::MAX && i64::MIN
                    <= viewport.height.units - 2 * padding <= i64::MAX
            }
        }),
{
}

/// A panel is drawn at the size that `modal_size` gives. Where the height is
/// fixed the panel is stretched to it, and otherwise the height is capped.
pub proof fn layout_goes_by_the_size<T>(
    floating: &FloatingPanel<T>,
    default_size: Pixels,
    viewport: Size,
    settings: FloatingPanelSettings,
    layout: PanelLayout,
    size: (Pixels, Option<Pixels>),
)
    requires
        call_requires(modal_size, (default_size, viewport, settings)),
        call_ensures(modal_size, (default_size, viewport, settings), size),
        call_ensures(
            FloatingPanel::<T>::layout,
            (floating, default_size, viewport, settings),
            layout,
        ),
    ensures
        layout.width == size.0,
        layout.height == size.1,
        layout.cap_height <==> settings.floating_panel_size == FloatingPanelSize::Small,
        layout.stretch_panel <==> settings.floating_panel_size != FloatingPanelSize::Small,
{
}

/// The overlay closes when the panel asks for it or Escape is pressed, and on
/// nothing else.
pub proof fn overlay_closes_on_request<T>(
    floating: &FloatingPanel<T>,
    event: OverlayEvent,
    emitted: Option<DismissEvent>,
)
    requires
        call_ensures(FloatingPanel::<T>::handle, (floating, event), emitted),
    ensures
        emitted is Some <==> event == OverlayEvent::PanelClose || event == OverlayEvent::Cancel,
{
}

/// The overlay shows the panel that it was made for.
pub proof fn overlay_shows_its_panel<T>(panel: T, floating: FloatingPanel<T>, shown: &T)
    requires
        call_ensures(FloatingPanel::<T>::new, (panel,), floating),
        call_ensures(FloatingPanel::<T>::panel, (&floating,), shown),
    ensures
        *shown == panel,
{
}

/// What was made the entry of a theme is what is then found there, and what is
/// found for another theme is what was found before.
pub proof fn inserted_entry_is_found(
    overrides: &mut ThemeOverrides,
    theme_name: &str,
    style: ThemeStyleContent,
    asked: &str,
    before: Option<&ThemeStyleContent>,
    after: Option<&ThemeStyleContent>,
)
    requires
        call_ensures(ThemeOverrides::get, (old(overrides), asked), before),
        call_ensures(ThemeOverrides::insert, (overrides, theme_name, style), ()),
        call_ensures(ThemeOverrides::get, (final(overrides), asked), after),
    ensures
        asked@ == theme_name@ ==> after is Some && after->0@ == style@,
        asked@ != theme_name@ ==> after is Some == before is Some,
        asked@ != theme_name@ && before is Some ==> after->0@ == before->0@,
{
}

/// An entry that was taken away is not found, and every other is as it was.
pub proof fn removed_entry_is_gone(
    overrides: &mut ThemeOverrides,
    theme_name: &str,
    asked: &str,
    before: Option<&ThemeStyleContent>,
    after: Option<&ThemeStyleContent>,
)
    requires
        call_ensures(ThemeOverrides::get, (old(overrides), asked), before),
        call_ensures(ThemeOverrides::remove, (overrides, theme_name), ()),
        call_ensures(ThemeOverrides::get, (final(overrides), asked), after),
    ensures
        asked@ == theme_name@ ==> after is None,
        asked@ != theme_name@ ==> after is Some == before is Some,
        asked@ != theme_name@ && before is Some ==> after->0@ == before->0@,
{
}

/// Nothing is found where nothing was put, and what is made there instead
/// overrides nothing.
pub proof fn new_overrides_have_no_entries(
    overrides: ThemeOverrides,
    asked: &str,
    found: Option<&ThemeStyleContent>,
    made: ThemeStyleContent,
    made_is_default: bool,
)
    requires
        call_ensures(ThemeOverrides::new, (), overrides),
        call_ensures(ThemeOverrides::get, (&overrides, asked), found),
        call_ensures(ThemeOverrides::entry_or_default, (&overrides, asked), made),
        call_ensures(ThemeStyleContent::is_default, (&made,), made_is_default),
    ensures
        found is None,
        made_is_default,
{
}

/// The copy of an entry has all that the entry has.
pub proof fn copied_entry_is_complete(
    overrides: &ThemeOverrides,
    asked: &str,
    found: Option<&ThemeStyleContent>,
    copy: ThemeStyleContent,
)
    requires
        call_ensures(ThemeOverrides::get, (overrides, asked), found),
        call_ensures(ThemeOverrides::entry_or_default, (overrides, asked), copy),
        found is Some,
    ensures
        copy.window_background_appearance == found->0.window_background_appearance,
        copy.colors@ == found->0.colors@,
        copy.other@.len() == found->0.other@.len(),
        forall|i: int|
            0 <= i < copy.other@.len() ==> (#[trigger] copy.other@[i]).name@
                == found->0.other@[i].name@ && copy.other@[i].value@ == found->0.other@[i].value@,
{
    theme::model_keeps_every_field(copy);
    theme::model_keeps_every_field(*found->0);
    assert forall|i: int| 0 <= i < copy.other@.len() implies (#[trigger] copy.other@[i]).name@
        == found->0.other@[i].name@ && copy.other@[i].value@ == found->0.other@[i].value@ by {
        assert(copy@.other[i] == found->0@.other[i]);
    }
}

/// A style is the default one where none of its fields holds anything.
pub proof fn default_style_is_empty(style: &ThemeStyleContent, result: bool)
    requires
        call_ensures(ThemeStyleContent::is_default, (style,), result),
    ensures
        result <==> {
            &&& style.window_background_appearance is None
            &&& style.colors.title_bar_background is None
            &&& style.colors.title_bar_inactive_background is None
            &&& style.colors.panel_background is None
            &&& style.colors.editor_background is None
            &&& style.colors.editor_gutter_background is None
            &&& style.colors.toolbar_background is None
            &&& style.colors.terminal_background is None
            &&& style.colors.terminal_ansi_background is None
            &&& style.colors.status_bar_background is None
            &&& style.colors.tab_bar_background is None
            &&& style.colors.tab_inactive_background is None
            &&& style.colors.background is None
            &&& style.colors.surface_background is None
            &&& style.colors.elevated_surface_background is None
            &&& style.other@.len() == 0
        },
{
    theme::each_key_has_its_own_text(style.colors);
    theme::nothing_is_overridden(style@);
}

/// After `set_section_alpha` the field of the section shows the percentage
/// that was asked for, at most 100, where `parse` reads the alpha that a text
/// ends with.
pub proof fn edited_field_shows_the_percentage<F: Fn(&str) -> Option<Rgba>>(
    overrides: &mut ThemeOverrides,
    theme_name: &str,
    section: &ColorSection,
    percent: u8,
    native: &ThemeColors,
    found: Option<&ThemeStyleContent>,
    parse: &F,
    shown: u8,
)
    requires
        section.keys.len() > 0,
        forall|text: &str| #[trigger] call_requires(*parse, (text,)),
        forall|text: &str, parsed: Option<Rgba>|
            text@.len() == 9 && text@[0] == '#' && #[trigger] call_ensures(
                *parse,
                (text,),
                parsed,
            ) ==> parsed is Some && rounding::nearest(
                math::min(parsed->0.a as int, 0x00ff_0000),
                0x1_0000,
            ) == text::byte_at(text@, 7),
        call_ensures(
            set_section_alpha,
            (overrides, theme_name, section, percent, native),
            (),
        ),
        call_ensures(ThemeOverrides::get, (final(overrides), theme_name), found),
        call_ensures(section_percent, (native, found, section, parse), shown),
    ensures
        shown == math::min(percent as int, 100),
{
    let key = section.keys@[0];
    outcomes::edit_writes_the_seen_color(
        old(overrides)@,
        theme_name@,
        transparency_blur::section_keys(section@),
        *native,
        percent,
        key,
    );
    let hex = final(overrides)@[theme_name@].colors[key];
    let (text, parsed) = choose|text: &str, parsed: Option<Rgba>|
        text@ == hex && #[trigger] call_ensures(*parse, (text,), parsed) && shown
            == transparency_blur::percent_of_parsed(*native, parsed, section@);
    color::opacity_is_nearest(parsed->0);
}

/// After `reset_section` the field of the section shows the opacity of the
/// theme's own color for its first key.
pub proof fn reset_field_shows_the_theme<F: Fn(&str) -> Option<Rgba>>(
    overrides: &mut ThemeOverrides,
    theme_name: &str,
    section: &ColorSection,
    native: &ThemeColors,
    found: Option<&ThemeStyleContent>,
    parse: &F,
    color: Rgba,
    shown: u8,
)
    requires
        section.keys.len() > 0,
        forall|text: &str| #[trigger] call_requires(*parse, (text,)),
        call_ensures(reset_section, (overrides, theme_name, section), ()),
        call_ensures(ThemeOverrides::get, (final(overrides), theme_name), found),
        call_ensures(section_percent, (native, found, section, parse), shown),
        call_ensures(ColorKey::native, (section.keys@[0], native), color),
    ensures
        shown == rounding::nearest(
            100 * rounding::nearest(math::min(color.a as int, 0x00ff_0000), 0x1_0000),
            255,
        ),
{
    assert(transparency_blur::section_keys(section@).contains(section.keys@[0]));
}

/// After `set_blur` the choice is the current one, and a second choice that
/// follows one that is not opaque changes no color.
pub proof fn second_choice_changes_no_color(
    overrides: &mut ThemeOverrides,
    existing: Option<&ThemeStyleContent>,
    theme_name: &str,
    first: WindowBackgroundContent,
    native: &ThemeColors,
    found: Option<&ThemeStyleContent>,
    current: WindowBackgroundContent,
    later: &mut ThemeOverrides,
    second: WindowBackgroundContent,
)
    requires
        call_ensures(set_blur, (overrides, existing, theme_name, first, native), ()),
        call_ensures(ThemeOverrides::get, (final(overrides), theme_name), found),
        call_ensures(current_blur, (found,), current),
        old(later)@ == final(overrides)@,
        call_ensures(set_blur, (later, found, theme_name, second, native), ()),
    ensures
        current == first,
        first != WindowBackgroundContent::Opaque ==> final(later)@[theme_name@].colors
            == old(later)@[theme_name@].colors,
{
}

/// The last edit of a section wins: what an earlier edit of it wrote leaves no
/// trace, so edits do not compound.
pub proof fn last_section_edit_wins(
    once: &mut ThemeOverrides,
    first: &mut ThemeOverrides,
    second: &mut ThemeOverrides,
    theme_name: &str,
    section: &ColorSection,
    first_percent: u8,
    percent: u8,
    native: &ThemeColors,
)
    requires
        old(first)@ == old(once)@,
        call_ensures(
            set_section_alpha,
            (first, theme_name, section, first_percent, native),
            (),
        ),
        old(second)@ == final(first)@,
        call_ensures(set_section_alpha, (second, theme_name, section, percent, native), ()),
        call_ensures(set_section_alpha, (once, theme_name, section, percent, native), ()),
    ensures
        final(second)@ == final(once)@,
{
    let keys = transparency_blur::section_keys(section@);
    laws::last_edit_wins(
        old(once)@,
        theme_name@,
        keys,
        first_percent,
        keys,
        percent,
        *native,
    );
}

/// A reset undoes an edit of the section: it ends where it would have ended
/// without the edit.
pub proof fn reset_undoes_section_edit(
    once: &mut ThemeOverrides,
    edited: &mut ThemeOverrides,
    reset: &mut ThemeOverrides,
    theme_name: &str,
    section: &ColorSection,
    percent: u8,
    native: &ThemeColors,
)
    requires
        old(edited)@ == old(once)@,
        call_ensures(set_section_alpha, (edited, theme_name, section, percent, native), ()),
        old(reset)@ == final(edited)@,
        call_ensures(reset_section, (reset, theme_name, section), ()),
        call_ensures(reset_section, (once, theme_name, section), ()),
    ensures
        final(reset)@ == final(once)@,
{
    laws::reset_undoes_edit(
        old(once)@,
        theme_name@,
        transparency_blur::section_keys(section@),
        *native,
        percent,
    );
}

} // verus!
