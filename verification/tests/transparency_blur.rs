use workspace_appearance::color::{rgba_hex_with_alpha_percent, Rgba};
use workspace_appearance::sections::{sections, ColorSection};
use workspace_appearance::theme::{
    ColorKey, OtherField, ThemeColors, ThemeOverrides, ThemeStyleContent, WindowBackgroundContent,
};
use workspace_appearance::transparency_blur::{
    blur_label, blur_menu, confirmed_percent, current_blur, global_percent, native_colors,
    parsed_section_percent, percent_text, reset_section, section_override, section_percent,
    section_row, set_blur, set_global_alpha, set_section_alpha, transparency_blur_advanced_page,
    transparency_blur_page,
};

fn bytes(r: u8, g: u8, b: u8, a: u8) -> Rgba {
    let wide = |byte: u8| byte as u32 * 0x1_0000;
    Rgba { r: wide(r), g: wide(g), b: wide(b), a: wide(a) }
}

fn native() -> ThemeColors {
    ThemeColors {
        title_bar_background: bytes(1, 1, 1, 255),
        title_bar_inactive_background: bytes(2, 2, 2, 255),
        panel_background: bytes(3, 3, 3, 255),
        editor_background: bytes(4, 4, 4, 255),
        editor_gutter_background: bytes(5, 5, 5, 255),
        toolbar_background: bytes(6, 6, 6, 255),
        terminal_background: bytes(0, 0, 0, 0),
        terminal_ansi_background: bytes(8, 8, 8, 255),
        status_bar_background: bytes(9, 9, 9, 255),
        tab_bar_background: bytes(10, 10, 10, 255),
        tab_inactive_background: bytes(11, 11, 11, 255),
        background: bytes(100, 120, 140, 64),
        surface_background: bytes(13, 13, 13, 255),
        elevated_surface_background: bytes(14, 14, 14, 128),
    }
}

const KEYS: [ColorKey; 14] = [
    ColorKey::TitleBarBackground,
    ColorKey::TitleBarInactiveBackground,
    ColorKey::PanelBackground,
    ColorKey::EditorBackground,
    ColorKey::EditorGutterBackground,
    ColorKey::ToolbarBackground,
    ColorKey::TerminalBackground,
    ColorKey::TerminalAnsiBackground,
    ColorKey::StatusBarBackground,
    ColorKey::TabBarBackground,
    ColorKey::TabInactiveBackground,
    ColorKey::Background,
    ColorKey::SurfaceBackground,
    ColorKey::ElevatedSurfaceBackground,
];

fn parse(text: &str) -> Option<Rgba> {
    let hex = text.strip_prefix('#')?;
    if hex.len() != 8 || !hex.is_ascii() {
        return None;
    }
    let byte = |i: usize| u8::from_str_radix(&hex[i..i + 2], 16).ok();
    Some(bytes(byte(0)?, byte(2)?, byte(4)?, byte(6)?))
}

fn section(title: &str) -> ColorSection {
    sections().into_iter().find(|section| section.title == title).unwrap()
}

fn text_of(overrides: &ThemeOverrides, theme: &str, key: ColorKey) -> Option<String> {
    overrides.get(theme).and_then(|style| key.override_get(&style.colors).cloned())
}

fn keys_set(overrides: &ThemeOverrides, theme: &str) -> Vec<ColorKey> {
    KEYS.into_iter().filter(|key| text_of(overrides, theme, *key).is_some()).collect()
}

#[test]
fn sections_are_listed_in_order() {
    let listed: Vec<(&str, usize, bool)> = sections()
        .iter()
        .map(|section| (section.title, section.keys.len(), section.included_in_global))
        .collect();
    assert_eq!(
        listed,
        vec![
            ("Title Bar", 2, false),
            ("Panels", 1, true),
            ("Editor", 3, true),
            ("Terminal", 2, true),
            ("Status/Tab Bar", 3, false),
            ("Surfaces", 3, true),
            ("Popups & Overlays", 1, false),
        ]
    );
    assert_eq!(section("Surfaces").keys[0], ColorKey::Background);
    assert!(section("Editor").keys.contains(&ColorKey::ToolbarBackground));
    assert!(section("Surfaces").keys.contains(&ColorKey::ToolbarBackground));
}

#[test]
fn each_key_reads_and_writes_its_own_color() {
    for key in KEYS {
        let mut style = ThemeStyleContent::default();
        assert!(key.override_get(&style.colors).is_none());
        assert!(style.is_default());
        key.override_set(&mut style.colors, Some("#01020304".to_string()));
        assert!(!style.is_default());
        assert!(!style.colors.is_empty());
        for other in KEYS {
            assert_eq!(other.override_get(&style.colors).is_some(), other == key);
        }
        let copy = style.clone();
        assert_eq!(key.override_get(&copy.colors).unwrap(), "#01020304");
        key.override_set(&mut style.colors, None);
        assert!(style.is_default());
    }
    assert_eq!(ColorKey::TabBarBackground.native(&native()), bytes(10, 10, 10, 255));
    assert_eq!(ColorKey::TerminalBackground.native(&native()), bytes(0, 0, 0, 0));
}

#[test]
fn section_edit_writes_each_color_of_the_section() {
    let mut overrides = ThemeOverrides::new();
    set_section_alpha(&mut overrides, "One", &section("Terminal"), 50, &native());
    assert_eq!(
        keys_set(&overrides, "One"),
        vec![ColorKey::TerminalBackground, ColorKey::TerminalAnsiBackground]
    );
    // The terminal background is invisible, so the theme's background shows.
    assert_eq!(text_of(&overrides, "One", ColorKey::TerminalBackground).unwrap(), "#64788c80");
    assert_eq!(
        text_of(&overrides, "One", ColorKey::TerminalAnsiBackground).unwrap(),
        "#08080880"
    );
}

#[test]
fn background_is_blended_onto_itself() {
    let mut overrides = ThemeOverrides::new();
    set_section_alpha(&mut overrides, "One", &section("Surfaces"), 0, &native());
    assert_eq!(text_of(&overrides, "One", ColorKey::Background).unwrap(), "#64788c00");
}

#[test]
fn last_section_edit_wins() {
    let mut overrides = ThemeOverrides::new();
    set_section_alpha(&mut overrides, "One", &section("Editor"), 20, &native());
    set_section_alpha(&mut overrides, "One", &section("Surfaces"), 40, &native());
    assert_eq!(text_of(&overrides, "One", ColorKey::ToolbarBackground).unwrap(), "#06060666");
    assert_eq!(text_of(&overrides, "One", ColorKey::EditorBackground).unwrap(), "#04040433");
    set_section_alpha(&mut overrides, "One", &section("Editor"), 100, &native());
    assert_eq!(text_of(&overrides, "One", ColorKey::ToolbarBackground).unwrap(), "#060606ff");
}

#[test]
fn section_edit_leaves_other_themes_and_fields_alone() {
    let mut overrides = ThemeOverrides::new();
    let mut style = ThemeStyleContent::default();
    style.other.push(OtherField { name: "syntax".to_string(), value: "{}".to_string() });
    style.window_background_appearance = Some(WindowBackgroundContent::Blurred);
    overrides.insert("One", style);
    set_section_alpha(&mut overrides, "Two", &section("Panels"), 30, &native());
    set_section_alpha(&mut overrides, "One", &section("Panels"), 60, &native());
    assert_eq!(text_of(&overrides, "Two", ColorKey::PanelBackground).unwrap(), "#0303034d");
    assert_eq!(text_of(&overrides, "One", ColorKey::PanelBackground).unwrap(), "#03030399");
    let one = overrides.get("One").unwrap();
    assert_eq!(one.other[0].name, "syntax");
    assert_eq!(one.other[0].value, "{}");
    assert_eq!(one.other.len(), 1);
    assert_eq!(one.window_background_appearance, Some(WindowBackgroundContent::Blurred));
}

#[test]
fn global_edit_reaches_included_sections_alone() {
    let mut overrides = ThemeOverrides::new();
    set_section_alpha(&mut overrides, "One", &section("Popups & Overlays"), 95, &native());
    set_section_alpha(&mut overrides, "One", &section("Panels"), 5, &native());
    set_global_alpha(&mut overrides, "One", 70, &native());
    assert_eq!(
        keys_set(&overrides, "One"),
        vec![
            ColorKey::PanelBackground,
            ColorKey::EditorBackground,
            ColorKey::EditorGutterBackground,
            ColorKey::ToolbarBackground,
            ColorKey::TerminalBackground,
            ColorKey::TerminalAnsiBackground,
            ColorKey::Background,
            ColorKey::SurfaceBackground,
            ColorKey::ElevatedSurfaceBackground,
        ]
    );
    let popup = text_of(&overrides, "One", ColorKey::ElevatedSurfaceBackground).unwrap();
    assert!(popup.ends_with("f2"));
    assert_eq!(text_of(&overrides, "One", ColorKey::PanelBackground).unwrap(), "#030303b3");
}

#[test]
fn reset_takes_an_entry_away_that_overrides_nothing() {
    let mut overrides = ThemeOverrides::new();
    set_section_alpha(&mut overrides, "One", &section("Editor"), 20, &native());
    reset_section(&mut overrides, "One", &section("Editor"));
    assert!(overrides.get("One").is_none());
    reset_section(&mut overrides, "One", &section("Editor"));
    assert!(overrides.get("One").is_none());
}

#[test]
fn reset_leaves_the_rest_of_the_entry() {
    let mut overrides = ThemeOverrides::new();
    set_section_alpha(&mut overrides, "One", &section("Editor"), 20, &native());
    set_section_alpha(&mut overrides, "One", &section("Panels"), 20, &native());
    set_section_alpha(&mut overrides, "Two", &section("Editor"), 20, &native());
    reset_section(&mut overrides, "One", &section("Editor"));
    assert_eq!(keys_set(&overrides, "One"), vec![ColorKey::PanelBackground]);
    assert_eq!(keys_set(&overrides, "Two").len(), 3);
    reset_section(&mut overrides, "One", &section("Panels"));
    assert!(overrides.get("One").is_none());
}

#[test]
fn reset_keeps_an_entry_with_other_fields() {
    let mut overrides = ThemeOverrides::new();
    let mut style = ThemeStyleContent::default();
    style.other.push(OtherField { name: "players".to_string(), value: "[]".to_string() });
    overrides.insert("One", style);
    set_section_alpha(&mut overrides, "One", &section("Panels"), 20, &native());
    reset_section(&mut overrides, "One", &section("Panels"));
    assert!(keys_set(&overrides, "One").is_empty());
    assert_eq!(overrides.get("One").unwrap().other.len(), 1);
    let mut appearance = ThemeStyleContent::default();
    appearance.window_background_appearance = Some(WindowBackgroundContent::Opaque);
    overrides.insert("Two", appearance);
    reset_section(&mut overrides, "Two", &section("Panels"));
    assert!(overrides.get("Two").is_some());
}

#[test]
fn reset_undoes_edits() {
    let mut overrides = ThemeOverrides::new();
    set_section_alpha(&mut overrides, "One", &section("Terminal"), 20, &native());
    set_section_alpha(&mut overrides, "One", &section("Surfaces"), 20, &native());
    set_section_alpha(&mut overrides, "One", &section("Surfaces"), 90, &native());
    reset_section(&mut overrides, "One", &section("Surfaces"));
    assert_eq!(
        keys_set(&overrides, "One"),
        vec![ColorKey::TerminalBackground, ColorKey::TerminalAnsiBackground]
    );
}

#[test]
fn opaque_sets_the_appearance_alone() {
    let mut overrides = ThemeOverrides::new();
    set_blur(&mut overrides, None, "One", WindowBackgroundContent::Opaque, &native());
    let style = overrides.get("One").unwrap();
    assert_eq!(style.window_background_appearance, Some(WindowBackgroundContent::Opaque));
    assert!(style.colors.is_empty());
}

#[test]
fn leaving_opacity_gives_the_bars_a_default() {
    for value in [WindowBackgroundContent::Transparent, WindowBackgroundContent::Blurred] {
        let mut overrides = ThemeOverrides::new();
        set_blur(&mut overrides, None, "One", value, &native());
        assert_eq!(
            keys_set(&overrides, "One"),
            vec![
                ColorKey::TitleBarBackground,
                ColorKey::TitleBarInactiveBackground,
                ColorKey::StatusBarBackground,
                ColorKey::TabBarBackground,
                ColorKey::TabInactiveBackground,
            ]
        );
        assert_eq!(overrides.get("One").unwrap().window_background_appearance, Some(value));
        assert_eq!(
            text_of(&overrides, "One", ColorKey::TitleBarBackground).unwrap(),
            "#010101d9"
        );
    }
}

#[test]
fn bars_that_are_overridden_keep_their_colors() {
    let mut overrides = ThemeOverrides::new();
    set_section_alpha(&mut overrides, "One", &section("Title Bar"), 10, &native());
    let existing = overrides.get("One").unwrap().clone();
    set_blur(
        &mut overrides,
        Some(&existing),
        "One",
        WindowBackgroundContent::Blurred,
        &native(),
    );
    assert_eq!(text_of(&overrides, "One", ColorKey::TitleBarBackground).unwrap(), "#0101011a");
    assert_eq!(text_of(&overrides, "One", ColorKey::TabBarBackground).unwrap(), "#0a0a0ad9");
}

#[test]
fn defaults_of_the_bars_come_once() {
    let mut overrides = ThemeOverrides::new();
    set_blur(&mut overrides, None, "One", WindowBackgroundContent::Blurred, &native());
    set_section_alpha(&mut overrides, "One", &section("Status/Tab Bar"), 33, &native());
    let existing = overrides.get("One").unwrap().clone();
    set_blur(
        &mut overrides,
        Some(&existing),
        "One",
        WindowBackgroundContent::Transparent,
        &native(),
    );
    for key in KEYS {
        assert_eq!(
            text_of(&overrides, "One", key),
            key.override_get(&existing.colors).cloned()
        );
    }
}

#[test]
fn bars_that_were_reset_stay_reset_while_not_opaque() {
    let mut overrides = ThemeOverrides::new();
    set_blur(&mut overrides, None, "One", WindowBackgroundContent::Transparent, &native());
    assert_eq!(keys_set(&overrides, "One").len(), 5);
    reset_section(&mut overrides, "One", &section("Title Bar"));
    reset_section(&mut overrides, "One", &section("Status/Tab Bar"));
    let existing = overrides.get("One").unwrap().clone();
    set_blur(
        &mut overrides,
        Some(&existing),
        "One",
        WindowBackgroundContent::Blurred,
        &native(),
    );
    assert!(keys_set(&overrides, "One").is_empty());
    assert_eq!(
        overrides.get("One").unwrap().window_background_appearance,
        Some(WindowBackgroundContent::Blurred)
    );
}

#[test]
fn leaving_opacity_goes_by_the_override_in_force() {
    let mut opaque = ThemeStyleContent::default();
    opaque.window_background_appearance = Some(WindowBackgroundContent::Opaque);
    let mut overrides = ThemeOverrides::new();
    set_blur(
        &mut overrides,
        Some(&opaque),
        "One",
        WindowBackgroundContent::Blurred,
        &native(),
    );
    assert_eq!(keys_set(&overrides, "One").len(), 5);

    let mut blurred = ThemeStyleContent::default();
    blurred.window_background_appearance = Some(WindowBackgroundContent::Blurred);
    let mut untouched = ThemeOverrides::new();
    for value in [WindowBackgroundContent::Transparent, WindowBackgroundContent::Opaque] {
        set_blur(&mut untouched, Some(&blurred), "One", value, &native());
        assert!(keys_set(&untouched, "One").is_empty());
        assert_eq!(current_blur(untouched.get("One")), value);
    }
}

#[test]
fn rewritten_text_forgets_the_old_percentage() {
    let rgba = bytes(0x12, 0xab, 0x0f, 9);
    for percent in [0, 1, 37, 85, 100] {
        let read = parse(&rgba_hex_with_alpha_percent(rgba, percent)).unwrap();
        assert_eq!(rgba_hex_with_alpha_percent(read, 64), "#12ab0fa3");
        assert_eq!(rgba_hex_with_alpha_percent(rgba, 64), "#12ab0fa3");
    }
}

#[test]
fn fields_show_what_was_set() {
    for percent in 0..=101u8 {
        let mut overrides = ThemeOverrides::new();
        set_section_alpha(&mut overrides, "One", &section("Editor"), percent, &native());
        set_global_alpha(&mut overrides, "Two", percent, &native());
        let one = section_percent(&native(), overrides.get("One"), &section("Editor"), &parse);
        assert_eq!(one, percent.min(100));
        assert_eq!(global_percent(&native(), overrides.get("Two"), &parse), percent.min(100));
    }
}

#[test]
fn fields_show_the_theme_without_an_override() {
    assert_eq!(section_percent(&native(), None, &section("Surfaces"), &parse), 25);
    assert_eq!(section_percent(&native(), None, &section("Terminal"), &parse), 0);
    assert_eq!(section_percent(&native(), None, &section("Popups & Overlays"), &parse), 50);
    assert_eq!(global_percent(&native(), None, &parse), 25);
    let empty = ThemeStyleContent::default();
    assert_eq!(section_percent(&native(), Some(&empty), &section("Panels"), &parse), 100);
}

#[test]
fn fields_show_the_theme_where_the_text_is_no_color() {
    let mut style = ThemeStyleContent::default();
    ColorKey::Background.override_set(&mut style.colors, Some("teal".to_string()));
    assert_eq!(section_override(Some(&style), &section("Surfaces")).unwrap(), "teal");
    assert_eq!(section_percent(&native(), Some(&style), &section("Surfaces"), &parse), 25);
    assert_eq!(parsed_section_percent(&native(), None, &section("Surfaces")), 25);
    let read = Some(bytes(0, 0, 0, 128));
    assert_eq!(parsed_section_percent(&native(), read, &section("Surfaces")), 50);
}

#[test]
fn first_color_stands_for_its_section() {
    let mut style = ThemeStyleContent::default();
    ColorKey::SurfaceBackground.override_set(&mut style.colors, Some("#00000080".to_string()));
    assert!(section_override(Some(&style), &section("Surfaces")).is_none());
    assert_eq!(section_percent(&native(), Some(&style), &section("Surfaces"), &parse), 25);
}

#[test]
fn menu_toggles_the_current_choice() {
    for current in [
        WindowBackgroundContent::Opaque,
        WindowBackgroundContent::Transparent,
        WindowBackgroundContent::Blurred,
    ] {
        let menu = blur_menu(current);
        let labels: Vec<&str> = menu.iter().map(|option| option.label).collect();
        assert_eq!(labels, vec!["Opaque", "Transparent", "Blurred"]);
        for option in &menu {
            assert_eq!(option.toggled, option.value == current);
            assert_eq!(option.label, blur_label(option.value));
        }
    }
}

#[test]
fn confirmed_text_is_trimmed_and_capped() {
    assert_eq!(confirmed_percent(None), None);
    assert_eq!(confirmed_percent(Some("42")), Some(42));
    assert_eq!(confirmed_percent(Some(" \t42\n")), Some(42));
    assert_eq!(confirmed_percent(Some("+7")), Some(7));
    assert_eq!(confirmed_percent(Some("0000000009")), Some(9));
    assert_eq!(confirmed_percent(Some("101")), Some(100));
    assert_eq!(confirmed_percent(Some("255")), Some(100));
    for text in ["", " ", "+", "-0", "-1", "256", "1000", "4 2", "4.2", "50%", "++1", "1_0", "x"] {
        assert_eq!(confirmed_percent(Some(text)), None, "{text:?}");
    }
}

#[test]
fn whitespace_around_a_percentage_is_that_of_unicode() {
    let whitespace = |c: char| {
        matches!(
            c as u32,
            0x9..=0xd
                | 0x20
                | 0x85
                | 0xa0
                | 0x1680
                | 0x2000..=0x200a
                | 0x2028
                | 0x2029
                | 0x202f
                | 0x205f
                | 0x3000
        )
    };
    for c in '\0'..=char::MAX {
        let mut before = String::from(c);
        before.push_str("x42");
        let mut after = String::from("42");
        after.push(c);
        assert_eq!(confirmed_percent(Some(&before)), None);
        if !c.is_ascii_digit() {
            let expected = if whitespace(c) { Some(42) } else { None };
            assert_eq!(confirmed_percent(Some(&after)), expected, "{c:?}");
        }
    }
}

#[test]
fn shown_text_confirms_as_itself() {
    assert_eq!(percent_text(0), "0");
    assert_eq!(percent_text(7), "7");
    assert_eq!(percent_text(50), "50");
    assert_eq!(percent_text(100), "100");
    for percent in 0..=100u8 {
        assert_eq!(confirmed_percent(Some(&percent_text(percent))), Some(percent));
    }
}

#[test]
fn page_of_an_opaque_window_hides_opacity() {
    let page = transparency_blur_page(&native(), None, &parse);
    assert_eq!(page.current_blur, WindowBackgroundContent::Opaque);
    assert_eq!(page.blur_label, "Opaque");
    assert!(!page.show_opacity_controls);
    assert_eq!(page.global_percent, 25);
    assert_eq!(page.global_percent_text, "25");
    assert_eq!(page.blur_menu.len(), 3);
    assert_eq!(current_blur(None), WindowBackgroundContent::Opaque);
    let style = ThemeStyleContent::default();
    assert_eq!(current_blur(Some(&style)), WindowBackgroundContent::Opaque);
}

#[test]
fn page_of_a_blurred_window_shows_opacity() {
    let mut overrides = ThemeOverrides::new();
    set_blur(&mut overrides, None, "One", WindowBackgroundContent::Blurred, &native());
    set_global_alpha(&mut overrides, "One", 60, &native());
    let page = transparency_blur_page(&native(), overrides.get("One"), &parse);
    assert_eq!(page.current_blur, WindowBackgroundContent::Blurred);
    assert_eq!(page.blur_label, "Blurred");
    assert!(page.show_opacity_controls);
    assert_eq!(page.global_percent, 60);
    assert_eq!(page.global_percent_text, "60");
    assert!(page.blur_menu[2].toggled);
}

#[test]
fn advanced_page_has_a_row_for_each_section() {
    let mut overrides = ThemeOverrides::new();
    set_section_alpha(&mut overrides, "One", &section("Editor"), 12, &native());
    let rows = transparency_blur_advanced_page(&native(), overrides.get("One"), &parse);
    let shown: Vec<(&str, u8)> = rows.iter().map(|row| (row.title, row.percent)).collect();
    assert_eq!(
        shown,
        vec![
            ("Title Bar", 100),
            ("Panels", 100),
            ("Editor", 12),
            ("Terminal", 0),
            ("Status/Tab Bar", 100),
            ("Surfaces", 25),
            ("Popups & Overlays", 50),
        ]
    );
    assert_eq!(rows[2].percent_text, "12");
    let row = section_row(&section("Status/Tab Bar"), &native(), None, &parse);
    assert_eq!(row.input_id, "transparency-section-Status/Tab Bar");
    assert_eq!(row.reset_id, "reset-transparency-section-Status/Tab Bar");
}

#[test]
fn unregistered_theme_goes_by_the_active_colors() {
    let mut registered = native();
    registered.background = bytes(1, 2, 3, 4);
    assert_eq!(native_colors(Some(registered), native()), registered);
    assert_eq!(native_colors(None, native()), native());
}

#[test]
fn no_two_sections_share_a_title() {
    let all = sections();
    for i in 0..all.len() {
        for j in 0..i {
            assert_ne!(all[i].title, all[j].title);
        }
    }
}

#[test]
fn global_edit_replaces_a_section_edit() {
    let mut edited = ThemeOverrides::new();
    set_section_alpha(&mut edited, "One", &section("Surfaces"), 15, &native());
    set_global_alpha(&mut edited, "One", 55, &native());
    let mut fresh = ThemeOverrides::new();
    set_global_alpha(&mut fresh, "One", 55, &native());
    for key in KEYS {
        assert_eq!(text_of(&edited, "One", key), text_of(&fresh, "One", key));
    }
}

#[test]
fn page_shows_the_chosen_appearance() {
    for value in [
        WindowBackgroundContent::Blurred,
        WindowBackgroundContent::Opaque,
        WindowBackgroundContent::Transparent,
    ] {
        let mut overrides = ThemeOverrides::new();
        set_blur(&mut overrides, None, "One", value, &native());
        set_global_alpha(&mut overrides, "One", 55, &native());
        assert_eq!(current_blur(overrides.get("One")), value);
    }
}
