//! What holds of edits taken together: of one edit after another, and of what
//! is read after what was written.

use vstd::math;
use vstd::prelude::*;

use crate::color;
use crate::color::Rgba;
use crate::rounding;
use crate::sections;
use crate::sections::SectionView;
use crate::text;
use crate::theme;
use crate::theme::{ColorKey, StyleView, ThemeColors, WindowBackgroundContent};
use crate::transparency_blur;

verus! {

/// An edit writes every one of its keys, also where another section had
/// written the key before, and changes nothing else: no other key, no other
/// field of the entry, no other theme.
pub proof fn edit_reaches_its_keys_alone(
    overrides: Map<Seq<char>, StyleView>,
    theme_name: Seq<char>,
    keys: Set<ColorKey>,
    native: ThemeColors,
    percent: u8,
)
    ensures
        ({
            let before = theme::entry_or_nothing(overrides, theme_name);
            let result = transparency_blur::alpha_written(
                overrides,
                theme_name,
                keys,
                native,
                percent,
            );
            let after = result[theme_name];
            &&& result.contains_key(theme_name)
            &&& result.remove(theme_name) == overrides.remove(theme_name)
            &&& after.window_background_appearance == before.window_background_appearance
            &&& after.other == before.other
            &&& forall|key: ColorKey|
                keys.contains(key) ==> #[trigger] after.colors.contains_key(key)
                    && after.colors[key] == transparency_blur::key_hex(native, key, percent)
            &&& after.colors.remove_keys(keys) == before.colors.remove_keys(keys)
        }),
{
}

/// The last edit wins: an edit leaves nothing of an earlier one whose keys it
/// covers. So repeated edits of a section do not compound.
pub proof fn last_edit_wins(
    overrides: Map<Seq<char>, StyleView>,
    theme_name: Seq<char>,
    first_keys: Set<ColorKey>,
    first_percent: u8,
    keys: Set<ColorKey>,
    percent: u8,
    native: ThemeColors,
)
    requires
        first_keys.subset_of(keys),
    ensures
        transparency_blur::alpha_written(
            transparency_blur::alpha_written(
                overrides,
                theme_name,
                first_keys,
                native,
                first_percent,
            ),
            theme_name,
            keys,
            native,
            percent,
        ) == transparency_blur::alpha_written(overrides, theme_name, keys, native, percent),
{
    let first = transparency_blur::alpha_written(
        overrides,
        theme_name,
        first_keys,
        native,
        first_percent,
    );
    assert(transparency_blur::with_alpha(first[theme_name], keys, native, percent)
        =~= transparency_blur::with_alpha(
        theme::entry_or_nothing(overrides, theme_name),
        keys,
        native,
        percent,
    ));
}

/// The global field reaches every key of the sections that are included and
/// no key of the sections that are left out.
pub proof fn global_reaches_included_sections_alone(i: int)
    requires
        0 <= i < sections::all_sections().len(),
    ensures
        sections::all_sections()[i].included_in_global ==> transparency_blur::section_keys(
            sections::all_sections()[i],
        ).subset_of(transparency_blur::global_keys()),
        !sections::all_sections()[i].included_in_global ==> transparency_blur::section_keys(
            sections::all_sections()[i],
        ).disjoint(transparency_blur::global_keys()),
{
    let section = sections::all_sections()[i];
    let pick = |section: SectionView| transparency_blur::in_global(section);
    assert(pick(section) == section.included_in_global);
}

/// A global edit replaces what the field of an included section had set.
pub proof fn global_edit_replaces_section_edit(
    overrides: Map<Seq<char>, StyleView>,
    theme_name: Seq<char>,
    i: int,
    section_percent: u8,
    percent: u8,
    native: ThemeColors,
)
    requires
        0 <= i < sections::all_sections().len(),
        sections::all_sections()[i].included_in_global,
    ensures
        transparency_blur::alpha_written(
            transparency_blur::alpha_written(
                overrides,
                theme_name,
                transparency_blur::section_keys(sections::all_sections()[i]),
                native,
                section_percent,
            ),
            theme_name,
            transparency_blur::global_keys(),
            native,
            percent,
        ) == transparency_blur::alpha_written(
            overrides,
            theme_name,
            transparency_blur::global_keys(),
            native,
            percent,
        ),
{
    global_reaches_included_sections_alone(i);
    last_edit_wins(
        overrides,
        theme_name,
        transparency_blur::section_keys(sections::all_sections()[i]),
        section_percent,
        transparency_blur::global_keys(),
        percent,
        native,
    );
}

/// The keys that the global field reaches, one by one.
pub proof fn global_keys_by_name(key: ColorKey)
    ensures
        transparency_blur::global_keys().contains(key) == match key {
            ColorKey::PanelBackground => true,
            ColorKey::EditorBackground => true,
            ColorKey::EditorGutterBackground => true,
            ColorKey::ToolbarBackground => true,
            ColorKey::TerminalBackground => true,
            ColorKey::TerminalAnsiBackground => true,
            ColorKey::Background => true,
            ColorKey::SurfaceBackground => true,
            _ => false,
        },
{
    let all = sections::all_sections();
    let pick = |section: SectionView| transparency_blur::in_global(section);
    lemma_section_keys(1, key);
    lemma_section_keys(2, key);
    lemma_section_keys(3, key);
    lemma_section_keys(5, key);
    assert(pick(all[1]) && pick(all[2]) && pick(all[3]) && pick(all[5]));
}

/// Which section holds which keys.
pub(crate) proof fn lemma_section_keys(i: int, key: ColorKey)
    requires
        0 <= i < sections::all_sections().len(),
    ensures
        sections::all_sections()[i].keys.contains(key) == match key {
            ColorKey::TitleBarBackground => i == 0,
            ColorKey::TitleBarInactiveBackground => i == 0,
            ColorKey::PanelBackground => i == 1,
            ColorKey::EditorBackground => i == 2,
            ColorKey::EditorGutterBackground => i == 2,
            ColorKey::ToolbarBackground => i == 2 || i == 5,
            ColorKey::TerminalBackground => i == 3,
            ColorKey::TerminalAnsiBackground => i == 3,
            ColorKey::StatusBarBackground => i == 4,
            ColorKey::TabBarBackground => i == 4,
            ColorKey::TabInactiveBackground => i == 4,
            ColorKey::Background => i == 5,
            ColorKey::SurfaceBackground => i == 5,
            ColorKey::ElevatedSurfaceBackground => i == 6,
        },
{
    let keys = sections::all_sections()[i].keys;
    assert(keys.contains(keys[0]));
    if keys.len() > 1 {
        assert(keys.contains(keys[1]));
    }
    if keys.len() > 2 {
        assert(keys.contains(keys[2]));
    }
}

/// A reset undoes whatever was written to the same keys: it ends where it
/// would have ended without that edit. A theme that had no entry has none
/// again.
pub proof fn reset_undoes_edit(
    overrides: Map<Seq<char>, StyleView>,
    theme_name: Seq<char>,
    keys: Set<ColorKey>,
    native: ThemeColors,
    percent: u8,
)
    ensures
        transparency_blur::keys_reset(
            transparency_blur::alpha_written(overrides, theme_name, keys, native, percent),
            theme_name,
            keys,
        ) == transparency_blur::keys_reset(overrides, theme_name, keys),
        !overrides.contains_key(theme_name) ==> transparency_blur::keys_reset(
            transparency_blur::alpha_written(overrides, theme_name, keys, native, percent),
            theme_name,
            keys,
        ) == overrides,
{
    let before = theme::entry_or_nothing(overrides, theme_name);
    let written = transparency_blur::alpha_written(overrides, theme_name, keys, native, percent);
    assert(transparency_blur::without_keys(written[theme_name], keys)
        =~= transparency_blur::without_keys(before, keys));
    if !overrides.contains_key(theme_name) {
        assert(transparency_blur::without_keys(before, keys) =~= StyleView::nothing());
    }
}

/// A reset takes away its keys and nothing else. It leaves no entry that
/// overrides nothing, and a second reset changes nothing more.
pub proof fn reset_reaches_its_keys_alone(
    overrides: Map<Seq<char>, StyleView>,
    theme_name: Seq<char>,
    keys: Set<ColorKey>,
)
    ensures
        ({
            let before = theme::entry_or_nothing(overrides, theme_name);
            let result = transparency_blur::keys_reset(overrides, theme_name, keys);
            let after = theme::entry_or_nothing(result, theme_name);
            &&& result.remove(theme_name) == overrides.remove(theme_name)
            &&& after.window_background_appearance == before.window_background_appearance
            &&& after.other == before.other
            &&& after.colors == before.colors.remove_keys(keys)
            &&& overrides.contains_key(theme_name) ==> (result.contains_key(theme_name)
                <==> after != StyleView::nothing())
            &&& transparency_blur::keys_reset(result, theme_name, keys) == result
        }),
{
    let before = theme::entry_or_nothing(overrides, theme_name);
    let once = transparency_blur::without_keys(before, keys);
    assert(transparency_blur::without_keys(once, keys) =~= once);
}

/// Leaving opacity gives defaults to the title bar and to the status and tab
/// bars alone, to each unless it is overridden already.
pub proof fn blur_defaults_reach_bars_alone(existing: Option<StyleView>, key: ColorKey)
    ensures
        transparency_blur::default_keys(existing).contains(key) == {
            ||| sections::title_bar().keys.contains(key) && transparency_blur::section_text(
                existing,
                sections::title_bar(),
            ) is None
            ||| sections::status_tab_bar().keys.contains(key) && transparency_blur::section_text(
                existing,
                sections::status_tab_bar(),
            ) is None
        },
        transparency_blur::default_keys(existing).contains(key)
            ==> !transparency_blur::global_keys().contains(key),
{
    let all = sections::all_sections();
    let pick = |section: SectionView|
        transparency_blur::has_default(section) && transparency_blur::section_text(
            existing,
            section,
        ) is None;
    sections::lemma_titles_distinct();
    assert forall|i: int|
        0 <= i < all.len() && #[trigger] transparency_blur::has_default(all[i]) implies i == 0 || i
        == 4 by {
        assert(all[i].title == all[0].title || all[i].title == all[4].title);
    }
    assert(pick(all[0]) == (transparency_blur::section_text(existing, all[0]) is None));
    assert(pick(all[4]) == (transparency_blur::section_text(existing, all[4]) is None));
}

/// The bars get their defaults when the window stops being opaque and at no
/// other time: a choice that is opaque, or one made while the window is not
/// opaque, changes no color at all, whether the bars have colors or not.
pub proof fn blur_defaults_come_on_leaving_opaque(
    overrides: Map<Seq<char>, StyleView>,
    existing: Option<StyleView>,
    theme_name: Seq<char>,
    value: WindowBackgroundContent,
    native: ThemeColors,
)
    requires
        value == WindowBackgroundContent::Opaque || transparency_blur::appearance(existing)
            != WindowBackgroundContent::Opaque,
    ensures
        ({
            let before = theme::entry_or_nothing(overrides, theme_name);
            let result = transparency_blur::blur_written(
                overrides,
                existing,
                theme_name,
                value,
                native,
            );
            let after = result[theme_name];
            &&& result.contains_key(theme_name)
            &&& result.remove(theme_name) == overrides.remove(theme_name)
            &&& after.window_background_appearance == Some(value)
            &&& after.colors == before.colors
            &&& after.other == before.other
        }),
{
}

/// What is reset while the window is not opaque stays reset: after a choice
/// that is not opaque and a reset of any keys, among them those of the bars,
/// another choice changes no color.
pub proof fn blur_defaults_come_once(
    overrides: Map<Seq<char>, StyleView>,
    existing: Option<StyleView>,
    theme_name: Seq<char>,
    first: WindowBackgroundContent,
    keys: Set<ColorKey>,
    second: WindowBackgroundContent,
    native: ThemeColors,
)
    requires
        first != WindowBackgroundContent::Opaque,
    ensures
        ({
            let chosen = transparency_blur::blur_written(
                overrides,
                existing,
                theme_name,
                first,
                native,
            );
            let reset = transparency_blur::keys_reset(chosen, theme_name, keys);
            let result = transparency_blur::blur_written(
                reset,
                Some(reset[theme_name]),
                theme_name,
                second,
                native,
            );
            &&& reset.contains_key(theme_name)
            &&& result[theme_name].colors == reset[theme_name].colors
            &&& result[theme_name].colors == chosen[theme_name].colors.remove_keys(keys)
            &&& result[theme_name].window_background_appearance == Some(second)
        }),
{
    let chosen = transparency_blur::blur_written(overrides, existing, theme_name, first, native);
    let reset = transparency_blur::keys_reset(chosen, theme_name, keys);
    assert(chosen[theme_name].window_background_appearance == Some(first));
    assert(transparency_blur::without_keys(
        chosen[theme_name],
        keys,
    ).window_background_appearance == Some(first));
    blur_defaults_come_on_leaving_opaque(
        reset,
        Some(reset[theme_name]),
        theme_name,
        second,
        native,
    );
}

/// The choice of what shows behind the window is the one that the page then
/// shows, also after edits of colors.
pub proof fn page_shows_chosen_appearance(
    overrides: Map<Seq<char>, StyleView>,
    existing: Option<StyleView>,
    theme_name: Seq<char>,
    value: WindowBackgroundContent,
    keys: Set<ColorKey>,
    native: ThemeColors,
    percent: u8,
)
    ensures
        ({
            let chosen = transparency_blur::blur_written(
                overrides,
                existing,
                theme_name,
                value,
                native,
            );
            let edited = transparency_blur::alpha_written(
                chosen,
                theme_name,
                keys,
                native,
                percent,
            );
            &&& transparency_blur::appearance(Some(chosen[theme_name])) == value
            &&& transparency_blur::appearance(Some(edited[theme_name])) == value
        }),
{
}

/// Whether `parse` reads every text of the form `#rrggbbaa` as the color that
/// it stands for.
pub open spec fn reads_hex<F: Fn(&str) -> Option<Rgba>>(parse: &F) -> bool {
    forall|text: &str, parsed: Option<Rgba>, r: u8, g: u8, b: u8, a: u8|
        #[trigger] call_ensures(*parse, (text,), parsed) && text@ == #[trigger] color::hex_text(
            r,
            g,
            b,
            a,
        ) ==> parsed is Some && color::color_text(parsed->0) == color::hex_text(r, g, b, a)
}

/// Edits never compound: the text of a color, read back and written again at
/// another percentage, is what the color itself would have been written as.
pub proof fn rewritten_text_forgets_percent<F: Fn(&str) -> Option<Rgba>>(
    rgba: Rgba,
    percent: u8,
    other_percent: u8,
    parse: &F,
    text: &str,
    parsed: Option<Rgba>,
)
    requires
        reads_hex(parse),
        text@ == color::hex_with_alpha_percent(rgba, percent),
        call_ensures(*parse, (text,), parsed),
    ensures
        parsed is Some,
        color::hex_with_alpha_percent(parsed->0, other_percent) == color::hex_with_alpha_percent(
            rgba,
            other_percent,
        ),
{
    let r = color::channel_byte(rgba.r);
    let g = color::channel_byte(rgba.g);
    let b = color::channel_byte(rgba.b);
    let a = color::alpha_byte(percent);
    assert(text@ == color::hex_text(r, g, b, a));
    let read = parsed->0;
    color::hex_text_is_unambiguous(
        r,
        g,
        b,
        a,
        color::channel_byte(read.r),
        color::channel_byte(read.g),
        color::channel_byte(read.b),
        color::channel_byte(read.a),
    );
}

/// A field shows what was asked for: after an edit of a section's keys, what
/// the section's field shows is the percentage of the edit, or 100 for more.
pub proof fn field_shows_edit<F: Fn(&str) -> Option<Rgba>>(
    overrides: Map<Seq<char>, StyleView>,
    theme_name: Seq<char>,
    keys: Set<ColorKey>,
    native: ThemeColors,
    percent: u8,
    section: SectionView,
    parse: &F,
    shown: u8,
)
    requires
        section.keys.len() > 0,
        keys.contains(section.keys[0]),
        reads_hex(parse),
        transparency_blur::shows_percent(
            native,
            Some(
                transparency_blur::alpha_written(
                    overrides,
                    theme_name,
                    keys,
                    native,
                    percent,
                )[theme_name],
            ),
            section,
            parse,
            shown,
        ),
    ensures
        shown == color::capped_percent(percent),
        shown == math::min(percent as int, 100),
{
    let key = section.keys[0];
    let effective = color::blended(native.background, native.color(key));
    let hex = transparency_blur::key_hex(native, key, percent);
    let (text, parsed) = choose|text: &str, parsed: Option<Rgba>|
        text@ == hex && #[trigger] call_ensures(*parse, (text,), parsed) && shown
            == transparency_blur::percent_of_parsed(native, parsed, section);
    let r = color::channel_byte(effective.r);
    let g = color::channel_byte(effective.g);
    let b = color::channel_byte(effective.b);
    let a = color::alpha_byte(percent);
    let read = parsed->0;
    color::hex_text_is_unambiguous(
        r,
        g,
        b,
        a,
        color::channel_byte(read.r),
        color::channel_byte(read.g),
        color::channel_byte(read.b),
        color::channel_byte(read.a),
    );
}

/// After a reset of its keys, a section's field shows the theme's own opacity.
pub proof fn field_shows_theme_after_reset<F: Fn(&str) -> Option<Rgba>>(
    overrides: Map<Seq<char>, StyleView>,
    theme_name: Seq<char>,
    keys: Set<ColorKey>,
    native: ThemeColors,
    section: SectionView,
    parse: &F,
    shown: u8,
)
    requires
        section.keys.len() > 0,
        keys.contains(section.keys[0]),
        ({
            let result = transparency_blur::keys_reset(overrides, theme_name, keys);
            transparency_blur::shows_percent(
                native,
                if result.contains_key(theme_name) {
                    Some(result[theme_name])
                } else {
                    None
                },
                section,
                parse,
                shown,
            )
        }),
    ensures
        shown == color::opacity_percent(native.color(section.keys[0])),
        shown == rounding::nearest(
            100 * rounding::nearest(
                math::min(native.color(section.keys[0]).a as int, 0x00ff_0000),
                0x1_0000,
            ),
            255,
        ),
{
}

/// The global field shows what was asked of it: it goes by the surfaces, which
/// are among the sections that it reaches.
pub proof fn global_field_shows_edit<F: Fn(&str) -> Option<Rgba>>(
    overrides: Map<Seq<char>, StyleView>,
    theme_name: Seq<char>,
    native: ThemeColors,
    percent: u8,
    parse: &F,
    shown: u8,
)
    requires
        reads_hex(parse),
        transparency_blur::shows_percent(
            native,
            Some(
                transparency_blur::alpha_written(
                    overrides,
                    theme_name,
                    transparency_blur::global_keys(),
                    native,
                    percent,
                )[theme_name],
            ),
            sections::surfaces(),
            parse,
            shown,
        ),
    ensures
        shown == color::capped_percent(percent),
        shown == math::min(percent as int, 100),
{
    global_keys_by_name(ColorKey::Background);
    field_shows_edit(
        overrides,
        theme_name,
        transparency_blur::global_keys(),
        native,
        percent,
        sections::surfaces(),
        parse,
        shown,
    );
}

/// Confirming a field as it stands asks for the percentage that it shows.
pub proof fn shown_percent_is_asked_for(percent: u8)
    ensures
        transparency_blur::percent_asked(Some(text::decimal_text(percent as int))) == Some(
            color::capped_percent(percent) as u8,
        ),
        transparency_blur::percent_asked(Some(text::decimal_text(percent as int))) == Some(
            math::min(percent as int, 100) as u8,
        ),
{
    text::decimal_text_reads_back(percent);
}

} // verus!
