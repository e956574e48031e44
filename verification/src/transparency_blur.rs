//! The opacity of a window's parts, and what shows behind the window.
//!
//! Edits write overriding colors into the settings. A written color is the
//! theme's own color as it is seen on the theme's background, with the alpha
//! that was asked for.

use vstd::prelude::*;

use crate::color;
use crate::color::{
    blend_onto, effective_alpha_percent, rgba_hex_with_alpha_percent, Rgba,
};
use crate::sections;
use crate::sections::{
    same_text, ColorSection, SectionView, STATUS_TAB_BAR_SECTION_TITLE, SURFACES_SECTION_TITLE,
    TITLE_BAR_SECTION_TITLE,
};
use crate::text;
use crate::theme;
use crate::theme::{
    ColorKey, StyleView, ThemeColors, ThemeOverrides, ThemeStyleContent, WindowBackgroundContent,
};

verus! {

/// The opacity that the title bar and the status and tab bars get when the
/// window stops being opaque, so that they do not stay solid until someone
/// finds their fields.
pub const DEFAULT_NON_OPAQUE_PERCENT: u8 = 85;

/// The text that overrides the color of `key` at an opacity.
pub open spec fn key_hex(native: ThemeColors, key: ColorKey, percent: u8) -> Seq<char> {
    color::hex_with_alpha_percent(color::blended(native.background, native.color(key)), percent)
}

/// `style` with every color of `keys` overridden at an opacity, and all else
/// as it was.
pub open spec fn with_alpha(
    style: StyleView,
    keys: Set<ColorKey>,
    native: ThemeColors,
    percent: u8,
) -> StyleView {
    StyleView {
        colors: style.colors.union_prefer_right(
            Map::new(
                |key: ColorKey| keys.contains(key),
                |key: ColorKey| key_hex(native, key, percent),
            ),
        ),
        ..style
    }
}

/// `overrides` after the colors of `keys` were overridden in the entry of a
/// theme, which is made if there is none.
pub open spec fn alpha_written(
    overrides: Map<Seq<char>, StyleView>,
    theme_name: Seq<char>,
    keys: Set<ColorKey>,
    native: ThemeColors,
    percent: u8,
) -> Map<Seq<char>, StyleView> {
    overrides.insert(
        theme_name,
        with_alpha(theme::entry_or_nothing(overrides, theme_name), keys, native, percent),
    )
}

/// `style` without overriding colors for `keys`.
pub open spec fn without_keys(style: StyleView, keys: Set<ColorKey>) -> StyleView {
    StyleView { colors: style.colors.remove_keys(keys), ..style }
}

/// `overrides` after the colors of `keys` were reset in the entry of a theme.
/// An entry that is left with nothing is taken away.
pub open spec fn keys_reset(
    overrides: Map<Seq<char>, StyleView>,
    theme_name: Seq<char>,
    keys: Set<ColorKey>,
) -> Map<Seq<char>, StyleView> {
    if !overrides.contains_key(theme_name) {
        overrides
    } else if without_keys(overrides[theme_name], keys) == StyleView::nothing() {
        overrides.remove(theme_name)
    } else {
        overrides.insert(theme_name, without_keys(overrides[theme_name], keys))
    }
}

/// The keys of a section.
pub open spec fn section_keys(section: SectionView) -> Set<ColorKey> {
    Set::new(|key: ColorKey| section.keys.contains(key))
}

/// The keys of those among the first `n` sections that `pick` holds of.
pub open spec fn keys_where(pick: spec_fn(SectionView) -> bool, n: int) -> Set<ColorKey> {
    Set::new(
        |key: ColorKey|
            exists|i: int|
                0 <= i < n && #[trigger] pick(sections::all_sections()[i])
                    && sections::all_sections()[i].keys.contains(key),
    )
}

/// Overrides the colors of a section at an opacity, in the entry of a theme.
pub fn set_section_alpha(
    overrides: &mut ThemeOverrides,
    theme_name: &str,
    section: &ColorSection,
    alpha_percent: u8,
    native: &ThemeColors,
)
    ensures
        final(overrides)@ == alpha_written(
            old(overrides)@,
            theme_name@,
            section_keys(section@),
            *native,
            alpha_percent,
        ),
{
    let mut entry = overrides.entry_or_default(theme_name);
    let ghost before = entry@;
    let ghost done = |n: int| Set::new(|key: ColorKey| section.keys@.take(n).contains(key));
    let mut i: usize = 0;
    while i < section.keys.len()
        invariant
            i <= section.keys.len(),
            done == |n: int| Set::new(|key: ColorKey| section.keys@.take(n).contains(key)),
            entry@ == with_alpha(before, done(i as int), *native, alpha_percent),
        decreases section.keys.len() - i,
    {
        let key = section.keys[i];
        let effective = blend_onto(native.background, key.native(native));
        let hex = rgba_hex_with_alpha_percent(effective, alpha_percent);
        key.override_set(&mut entry.colors, Some(hex));
        proof {
            lemma_take_contains(section.keys@, i as int);
        }
        i += 1;
    }
    assert(section.keys@.take(section.keys.len() as int) =~= section.keys@);
    overrides.insert(theme_name, entry);
}

/// Clears the overriding colors of a section in the entry of a theme and
/// leaves the rest of the entry alone.
pub fn reset_section(overrides: &mut ThemeOverrides, theme_name: &str, section: &ColorSection)
    ensures
        final(overrides)@ == keys_reset(
            old(overrides)@,
            theme_name@,
            section_keys(section@),
        ),
{
    let mut entry = match overrides.get(theme_name) {
        Some(style) => style.clone(),
        None => {
            return;
        },
    };
    let ghost before = entry@;
    let ghost done = |n: int| Set::new(|key: ColorKey| section.keys@.take(n).contains(key));
    let mut i: usize = 0;
    while i < section.keys.len()
        invariant
            i <= section.keys.len(),
            done == |n: int| Set::new(|key: ColorKey| section.keys@.take(n).contains(key)),
            entry@ == without_keys(before, done(i as int)),
        decreases section.keys.len() - i,
    {
        let key = section.keys[i];
        key.override_set(&mut entry.colors, None);
        proof {
            lemma_take_contains(section.keys@, i as int);
        }
        i += 1;
    }
    assert(section.keys@.take(section.keys.len() as int) =~= section.keys@);
    if entry.is_default() {
        overrides.remove(theme_name);
    } else {
        overrides.insert(theme_name, entry);
    }
}

/// Sections that the global opacity field reaches.
pub open spec fn in_global(section: SectionView) -> bool {
    section.included_in_global
}

/// The keys that the global opacity field reaches.
pub open spec fn global_keys() -> Set<ColorKey> {
    keys_where(|section: SectionView| in_global(section), sections::all_sections().len() as int)
}

/// Overrides the colors of every section that the global field reaches, also
/// those that were edited by themselves before. The other sections are never
/// touched.
pub fn set_global_alpha(
    overrides: &mut ThemeOverrides,
    theme_name: &str,
    alpha_percent: u8,
    native: &ThemeColors,
)
    ensures
        final(overrides)@ == alpha_written(
            old(overrides)@,
            theme_name@,
            global_keys(),
            *native,
            alpha_percent,
        ),
{
    let all = sections::sections();
    let ghost pick = |section: SectionView| in_global(section);
    let ghost before = overrides@;
    let mut i: usize = 0;
    while i < all.len()
        invariant
            i <= all.len(),
            all.len() == sections::all_sections().len(),
            forall|j: int|
                0 <= j < all.len() ==> (#[trigger] all@[j])@
                    == sections::all_sections()[j],
            pick == |section: SectionView| in_global(section),
            i <= 1 ==> overrides@ == before,
            i > 1 ==> overrides@ == alpha_written(
                before,
                theme_name@,
                keys_where(pick, i as int),
                *native,
                alpha_percent,
            ),
        decreases all.len() - i,
    {
        let ghost section = all@[i as int]@;
        if all[i].included_in_global {
            set_section_alpha(overrides, theme_name, &all[i], alpha_percent, native);
        }
        proof {
            lemma_keys_where_step(pick, i as int);
            if i >= 1 {
                lemma_alpha_written_twice(
                    before,
                    theme_name@,
                    keys_where(pick, i as int),
                    section_keys(section),
                    *native,
                    alpha_percent,
                );
                if i == 1 {
                    assert(keys_where(pick, 2) =~= section_keys(section));
                }
            }
        }
        i += 1;
    }
}

/// One more section, and with it the keys that it contributes.
proof fn lemma_keys_where_step(pick: spec_fn(SectionView) -> bool, n: int)
    requires
        0 <= n < sections::all_sections().len(),
    ensures
        keys_where(pick, 0) == Set::<ColorKey>::empty(),
        keys_where(pick, n + 1) == if pick(sections::all_sections()[n]) {
            keys_where(pick, n) + section_keys(sections::all_sections()[n])
        } else {
            keys_where(pick, n)
        },
{
    let section = sections::all_sections()[n];
    if pick(section) {
        assert(keys_where(pick, n + 1) =~= keys_where(pick, n) + section_keys(section));
    } else {
        assert(keys_where(pick, n + 1) =~= keys_where(pick, n));
    }
}

/// Two edits at one opacity are one edit of the keys of both.
proof fn lemma_alpha_written_twice(
    overrides: Map<Seq<char>, StyleView>,
    theme_name: Seq<char>,
    first: Set<ColorKey>,
    second: Set<ColorKey>,
    native: ThemeColors,
    percent: u8,
)
    ensures
        alpha_written(
            alpha_written(overrides, theme_name, first, native, percent),
            theme_name,
            second,
            native,
            percent,
        ) == alpha_written(overrides, theme_name, first + second, native, percent),
{
    let entry = theme::entry_or_nothing(overrides, theme_name);
    assert(with_alpha(with_alpha(entry, first, native, percent), second, native, percent)
        =~= with_alpha(entry, first + second, native, percent));
}

/// `overrides` after the appearance of the window was set in the entry of a
/// theme, which is made if there is none.
pub open spec fn appearance_written(
    overrides: Map<Seq<char>, StyleView>,
    theme_name: Seq<char>,
    value: WindowBackgroundContent,
) -> Map<Seq<char>, StyleView> {
    overrides.insert(
        theme_name,
        StyleView {
            window_background_appearance: Some(value),
            ..theme::entry_or_nothing(overrides, theme_name)
        },
    )
}

/// The model of a style that may be missing.
pub open spec fn style_view(style: Option<&ThemeStyleContent>) -> Option<StyleView> {
    match style {
        Some(style) => Some(style@),
        None => None,
    }
}

/// What shows behind the window by an override.
pub open spec fn appearance(style: Option<StyleView>) -> WindowBackgroundContent {
    if style is Some && style->0.window_background_appearance is Some {
        style->0.window_background_appearance->0
    } else {
        WindowBackgroundContent::Opaque
    }
}

/// What shows behind the window by an override; without one it is opaque.
pub fn current_blur(override_content: Option<&ThemeStyleContent>) -> (value:
    WindowBackgroundContent)
    ensures
        value == appearance(style_view(override_content)),
{
    match override_content {
        Some(style) => match style.window_background_appearance {
            Some(value) => value,
            None => WindowBackgroundContent::Opaque,
        },
        None => WindowBackgroundContent::Opaque,
    }
}

/// The overriding text of the first color of a section.
pub open spec fn section_text(style: Option<StyleView>, section: SectionView) -> Option<Seq<char>> {
    if style is Some && style->0.colors.contains_key(section.keys[0]) {
        Some(style->0.colors[section.keys[0]])
    } else {
        None
    }
}

/// Sections that the global field leaves out but that get
/// `DEFAULT_NON_OPAQUE_PERCENT` when the window stops being opaque.
pub open spec fn has_default(section: SectionView) -> bool {
    section.title == TITLE_BAR_SECTION_TITLE@ || section.title == STATUS_TAB_BAR_SECTION_TITLE@
}

/// The keys that get a default: those of the sections that have one and are
/// not overridden already.
pub open spec fn default_keys(existing: Option<StyleView>) -> Set<ColorKey> {
    keys_where(
        |section: SectionView| has_default(section) && section_text(existing, section) is None,
        sections::all_sections().len() as int,
    )
}

fn defaulted_on_non_opaque(section: &ColorSection) -> (result: bool)
    ensures
        result == has_default(section@),
{
    same_text(section.title, TITLE_BAR_SECTION_TITLE) || same_text(
        section.title,
        STATUS_TAB_BAR_SECTION_TITLE,
    )
}

/// The overriding text of the first color of a section. It stands for the
/// whole section.
pub fn section_override<'a>(
    override_content: Option<&'a ThemeStyleContent>,
    section: &ColorSection,
) -> (text: Option<&'a String>)
    requires
        section.keys.len() > 0,
    ensures
        match text {
            Some(text) => section_text(style_view(override_content), section@) == Some(text@),
            None => section_text(style_view(override_content), section@) is None,
        },
{
    match override_content {
        Some(style) => section.keys[0].override_get(&style.colors),
        None => None,
    }
}

/// `overrides` after it was chosen what shows behind the window, where
/// `existing` is the override in force until then. Only a window that stops
/// being opaque gets the defaults.
pub open spec fn blur_written(
    overrides: Map<Seq<char>, StyleView>,
    existing: Option<StyleView>,
    theme_name: Seq<char>,
    value: WindowBackgroundContent,
    native: ThemeColors,
) -> Map<Seq<char>, StyleView> {
    let chosen = appearance_written(overrides, theme_name, value);
    if appearance(existing) == WindowBackgroundContent::Opaque && value
        != WindowBackgroundContent::Opaque {
        alpha_written(
            chosen,
            theme_name,
            default_keys(existing),
            native,
            DEFAULT_NON_OPAQUE_PERCENT,
        )
    } else {
        chosen
    }
}

/// Sets what shows behind the window. A window that stops being opaque also
/// gets its title bar and its status and tab bars at
/// `DEFAULT_NON_OPAQUE_PERCENT`, each unless `existing`, the override that was
/// in force, has a color for it. From one choice that is not opaque to
/// another no color changes.
pub fn set_blur(
    overrides: &mut ThemeOverrides,
    existing: Option<&ThemeStyleContent>,
    theme_name: &str,
    value: WindowBackgroundContent,
    native: &ThemeColors,
)
    ensures
        final(overrides)@ == blur_written(
            old(overrides)@,
            style_view(existing),
            theme_name@,
            value,
            *native,
        ),
{
    let mut entry = overrides.entry_or_default(theme_name);
    entry.window_background_appearance = Some(value);
    overrides.insert(theme_name, entry);

    if value == WindowBackgroundContent::Opaque || current_blur(existing)
        != WindowBackgroundContent::Opaque {
        return;
    }
    let all = sections::sections();
    let ghost pick = |section: SectionView|
        has_default(section) && section_text(style_view(existing), section) is None;
    let ghost before = overrides@;
    proof {
        lemma_keys_where_step(pick, 0);
        assert(with_alpha(
            before[theme_name@],
            Set::empty(),
            *native,
            DEFAULT_NON_OPAQUE_PERCENT,
        ) =~= before[theme_name@]);
    }
    let mut i: usize = 0;
    while i < all.len()
        invariant
            i <= all.len(),
            all.len() == sections::all_sections().len(),
            forall|j: int|
                0 <= j < all.len() ==> (#[trigger] all@[j])@
                    == sections::all_sections()[j],
            pick == |section: SectionView|
                has_default(section) && section_text(style_view(existing), section) is None,
            overrides@ == alpha_written(
                before,
                theme_name@,
                keys_where(pick, i as int),
                *native,
                DEFAULT_NON_OPAQUE_PERCENT,
            ),
        decreases all.len() - i,
    {
        let ghost section = all@[i as int]@;
        if defaulted_on_non_opaque(&all[i]) {
            let already_set = section_override(existing, &all[i]).is_some();
            if !already_set {
                set_section_alpha(
                    overrides,
                    theme_name,
                    &all[i],
                    DEFAULT_NON_OPAQUE_PERCENT,
                    native,
                );
            }
        }
        proof {
            lemma_keys_where_step(pick, i as int);
            lemma_alpha_written_twice(
                before,
                theme_name@,
                keys_where(pick, i as int),
                section_keys(section),
                *native,
                DEFAULT_NON_OPAQUE_PERCENT,
            );
        }
        i += 1;
    }
}

/// The percentage for a section whose overriding text was read as `parsed`:
/// the opacity that was read, or that of the theme's own color where there is
/// no override or where its text is no color.
pub open spec fn percent_of_parsed(
    native: ThemeColors,
    parsed: Option<Rgba>,
    section: SectionView,
) -> u8 {
    match parsed {
        Some(color) => color::opacity_percent(color),
        None => color::opacity_percent(native.color(section.keys[0])),
    }
}

/// Whether `percent` is what a section's field shows, where `parse` reads the
/// text of a color.
pub open spec fn shows_percent<F: Fn(&str) -> Option<Rgba>>(
    native: ThemeColors,
    style: Option<StyleView>,
    section: SectionView,
    parse: &F,
    percent: u8,
) -> bool {
    match section_text(style, section) {
        Some(hex) => exists|text: &str, parsed: Option<Rgba>|
            text@ == hex && #[trigger] call_ensures(*parse, (text,), parsed) && percent
                == percent_of_parsed(native, parsed, section),
        None => percent == percent_of_parsed(native, None, section),
    }
}

/// The percentage for a section whose overriding text was read as `parsed`.
pub fn parsed_section_percent(
    native: &ThemeColors,
    parsed: Option<Rgba>,
    section: &ColorSection,
) -> (percent: u8)
    requires
        section.keys.len() > 0,
    ensures
        percent == percent_of_parsed(*native, parsed, section@),
{
    match parsed {
        Some(color) => effective_alpha_percent(color),
        None => effective_alpha_percent(section.keys[0].native(native)),
    }
}

/// The percentage that a section's field shows. `parse` reads the text of a
/// color, and gives `None` where it is none.
pub fn section_percent<F: Fn(&str) -> Option<Rgba>>(
    native: &ThemeColors,
    override_content: Option<&ThemeStyleContent>,
    section: &ColorSection,
    parse: &F,
) -> (percent: u8)
    requires
        section.keys.len() > 0,
        forall|text: &str| #[trigger] call_requires(*parse, (text,)),
    ensures
        shows_percent(*native, style_view(override_content), section@, parse, percent),
{
    match section_override(override_content, section) {
        Some(hex) => {
            let parsed = parse(hex.as_str());
            parsed_section_percent(native, parsed, section)
        },
        None => parsed_section_percent(native, None, section),
    }
}

/// The percentage that the global opacity field shows: that of the surfaces.
pub fn global_percent<F: Fn(&str) -> Option<Rgba>>(
    native: &ThemeColors,
    override_content: Option<&ThemeStyleContent>,
    parse: &F,
) -> (percent: u8)
    requires
        forall|text: &str| #[trigger] call_requires(*parse, (text,)),
    ensures
        shows_percent(
            *native,
            style_view(override_content),
            sections::surfaces(),
            parse,
            percent,
        ),
{
    let all = sections::sections();
    let mut i: usize = 0;
    while i < all.len()
        invariant
            i <= all.len(),
            all.len() == sections::all_sections().len(),
            forall|j: int|
                0 <= j < all.len() ==> (#[trigger] all@[j])@
                    == sections::all_sections()[j],
            forall|j: int|
                0 <= j < i ==> (#[trigger] sections::all_sections()[j]).title
                    != SURFACES_SECTION_TITLE@,
            forall|text: &str| #[trigger] call_requires(*parse, (text,)),
        decreases all.len() - i,
    {
        if same_text(all[i].title, SURFACES_SECTION_TITLE) {
            proof {
                sections::lemma_titles_distinct();
                assert(sections::all_sections()[i as int].title
                    == sections::all_sections()[5].title);
            }
            return section_percent(native, override_content, &all[i], parse);
        }
        i += 1;
    }
    // Only reached if the surfaces were ever taken off the list.
    effective_alpha_percent(native.background)
}

/// One choice of what shows behind the window, as a menu lists it.
#[derive(Clone, Copy, Debug)]
pub struct BlurOption {
    pub value: WindowBackgroundContent,
    pub label: &'static str,
    pub toggled: bool,
}

pub open spec fn blur_label_text(value: WindowBackgroundContent) -> Seq<char> {
    match value {
        WindowBackgroundContent::Opaque => "Opaque"@,
        WindowBackgroundContent::Transparent => "Transparent"@,
        WindowBackgroundContent::Blurred => "Blurred"@,
    }
}

/// The label of a choice.
pub fn blur_label(value: WindowBackgroundContent) -> (label: &'static str)
    ensures
        label@ == blur_label_text(value),
{
    match value {
        WindowBackgroundContent::Opaque => "Opaque",
        WindowBackgroundContent::Transparent => "Transparent",
        WindowBackgroundContent::Blurred => "Blurred",
    }
}

/// The order in which the menu lists the choices.
pub open spec fn blur_values() -> Seq<WindowBackgroundContent> {
    seq![
        WindowBackgroundContent::Opaque,
        WindowBackgroundContent::Transparent,
        WindowBackgroundContent::Blurred,
    ]
}

pub open spec fn is_blur_menu(menu: Seq<BlurOption>, current: WindowBackgroundContent) -> bool {
    &&& menu.len() == blur_values().len()
    &&& forall|i: int|
        0 <= i < menu.len() ==> {
            &&& (#[trigger] menu[i]).value == blur_values()[i]
            &&& menu[i].label@ == blur_label_text(blur_values()[i])
            &&& menu[i].toggled == (blur_values()[i] == current)
        }
}

fn blur_option(value: WindowBackgroundContent, current: WindowBackgroundContent) -> (option:
    BlurOption)
    ensures
        option.value == value,
        option.label@ == blur_label_text(value),
        option.toggled == (value == current),
{
    BlurOption { value, label: blur_label(value), toggled: value == current }
}

/// The menu of choices, with the current one toggled.
pub fn blur_menu(current: WindowBackgroundContent) -> (menu: Vec<BlurOption>)
    ensures
        is_blur_menu(menu@, current),
{
    vec![
        blur_option(WindowBackgroundContent::Opaque, current),
        blur_option(WindowBackgroundContent::Transparent, current),
        blur_option(WindowBackgroundContent::Blurred, current),
    ]
}

/// What a confirmed field asks for: the percentage that its text reads as,
/// whitespace around it aside, and at most 100. `None` changes nothing.
pub open spec fn percent_asked(value: Option<Seq<char>>) -> Option<u8> {
    match value {
        Some(value) => match text::read_u8(text::trimmed(value)) {
            Some(percent) => Some(color::capped_percent(percent) as u8),
            None => None,
        },
        None => None,
    }
}

/// The percentage that a confirmed opacity field asks for, if its text is one.
pub fn confirmed_percent(value: Option<&str>) -> (percent: Option<u8>)
    ensures
        percent == percent_asked(
            match value {
                Some(value) => Some(value@),
                None => None,
            },
        ),
{
    let value = match value {
        Some(value) => value,
        None => {
            return None;
        },
    };
    match text::parse_u8(value.trim()) {
        Some(percent) => Some(
            if percent > 100 {
                100
            } else {
                percent
            },
        ),
        None => None,
    }
}

/// The text that an opacity field starts out with.
pub fn percent_text(percent: u8) -> (result: String)
    ensures
        result@ == text::decimal_text(percent as int),
{
    text::u8_to_text(percent)
}

/// What the transparency page displays.
#[derive(Debug)]
pub struct TransparencyBlurPage {
    pub current_blur: WindowBackgroundContent,
    pub blur_label: &'static str,
    pub blur_menu: Vec<BlurOption>,
    pub global_percent: u8,
    /// What the opacity field starts out with.
    pub global_percent_text: String,
    /// Opacity has no effect on an opaque window, so its controls are hidden.
    pub show_opacity_controls: bool,
}

/// The transparency page for a theme with its override.
pub fn transparency_blur_page<F: Fn(&str) -> Option<Rgba>>(
    native: &ThemeColors,
    override_content: Option<&ThemeStyleContent>,
    parse: &F,
) -> (page: TransparencyBlurPage)
    requires
        forall|text: &str| #[trigger] call_requires(*parse, (text,)),
    ensures
        page.current_blur == appearance(style_view(override_content)),
        page.blur_label@ == blur_label_text(page.current_blur),
        is_blur_menu(page.blur_menu@, page.current_blur),
        shows_percent(
            *native,
            style_view(override_content),
            sections::surfaces(),
            parse,
            page.global_percent,
        ),
        page.global_percent_text@ == text::decimal_text(page.global_percent as int),
        page.show_opacity_controls == (page.current_blur != WindowBackgroundContent::Opaque),
{
    let current_blur = current_blur(override_content);
    let global_percent = global_percent(native, override_content, parse);
    TransparencyBlurPage {
        current_blur,
        blur_label: blur_label(current_blur),
        blur_menu: blur_menu(current_blur),
        global_percent,
        global_percent_text: percent_text(global_percent),
        show_opacity_controls: current_blur != WindowBackgroundContent::Opaque,
    }
}

/// What the advanced page displays of one section.
#[derive(Debug)]
pub struct SectionRow {
    pub title: &'static str,
    pub percent: u8,
    /// What the opacity field starts out with.
    pub percent_text: String,
    pub input_id: String,
    pub reset_id: String,
}

pub open spec fn is_section_row<F: Fn(&str) -> Option<Rgba>>(
    row: SectionRow,
    section: SectionView,
    native: ThemeColors,
    style: Option<StyleView>,
    parse: &F,
) -> bool {
    &&& row.title@ == section.title
    &&& shows_percent(native, style, section, parse, row.percent)
    &&& row.percent_text@ == text::decimal_text(row.percent as int)
    &&& row.input_id@ == "transparency-section-"@ + section.title
    &&& row.reset_id@ == "reset-transparency-section-"@ + section.title
}

/// The row of one section.
pub fn section_row<F: Fn(&str) -> Option<Rgba>>(
    section: &ColorSection,
    native: &ThemeColors,
    override_content: Option<&ThemeStyleContent>,
    parse: &F,
) -> (row: SectionRow)
    requires
        section.keys.len() > 0,
        forall|text: &str| #[trigger] call_requires(*parse, (text,)),
    ensures
        is_section_row(row, section@, *native, style_view(override_content), parse),
{
    let percent = section_percent(native, override_content, section, parse);
    SectionRow {
        title: section.title,
        percent,
        percent_text: percent_text(percent),
        input_id: "transparency-section-".to_owned().concat(section.title),
        reset_id: "reset-transparency-section-".to_owned().concat(section.title),
    }
}

/// The rows of the advanced page, one for each section in order.
pub fn transparency_blur_advanced_page<F: Fn(&str) -> Option<Rgba>>(
    native: &ThemeColors,
    override_content: Option<&ThemeStyleContent>,
    parse: &F,
) -> (rows: Vec<SectionRow>)
    requires
        forall|text: &str| #[trigger] call_requires(*parse, (text,)),
    ensures
        rows.len() == sections::all_sections().len(),
        forall|i: int|
            0 <= i < rows.len() ==> is_section_row(
                #[trigger] rows@[i],
                sections::all_sections()[i],
                *native,
                style_view(override_content),
                parse,
            ),
{
    let all = sections::sections();
    let mut rows: Vec<SectionRow> = Vec::new();
    let mut i: usize = 0;
    while i < all.len()
        invariant
            i <= all.len(),
            all.len() == sections::all_sections().len(),
            forall|j: int|
                0 <= j < all.len() ==> (#[trigger] all@[j])@
                    == sections::all_sections()[j],
            rows.len() == i,
            forall|j: int|
                0 <= j < i ==> is_section_row(
                    #[trigger] rows@[j],
                    sections::all_sections()[j],
                    *native,
                    style_view(override_content),
                    parse,
                ),
            forall|text: &str| #[trigger] call_requires(*parse, (text,)),
        decreases all.len() - i,
    {
        rows.push(section_row(&all[i], native, override_content, parse));
        i += 1;
    }
    rows
}

/// The colors that a theme itself defines: those it is registered with, or
/// the active ones if it is not registered.
pub fn native_colors(registered: Option<ThemeColors>, active: ThemeColors) -> (colors: ThemeColors)
    ensures
        colors == match registered {
            Some(colors) => colors,
            None => active,
        },
{
    match registered {
        Some(colors) => colors,
        None => active,
    }
}

/// One more element of a prefix.
proof fn lemma_take_contains(keys: Seq<ColorKey>, i: int)
    requires
        0 <= i < keys.len(),
    ensures
        forall|key: ColorKey|
            #[trigger] keys.take(i + 1).contains(key) <==> keys.take(i).contains(key) || key
                == keys[i],
{
    assert forall|key: ColorKey| #[trigger] keys.take(i + 1).contains(key) <==> keys.take(
        i,
    ).contains(key) || key == keys[i] by {
        let longer = keys.take(i + 1);
        let shorter = keys.take(i);
        if longer.contains(key) {
            let j = choose|j: int| 0 <= j < longer.len() && longer[j] == key;
            if j < i {
                assert(shorter[j] == key);
            }
        }
        if shorter.contains(key) {
            let j = choose|j: int| 0 <= j < shorter.len() && shorter[j] == key;
            assert(longer[j] == key);
        }
        if key == keys[i] {
            assert(longer[i] == key);
        }
    }
}

} // verus!
