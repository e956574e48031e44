//! Theme colors, the overrides that a user's settings hold for them, and the
//! keys by which both are addressed.

use vstd::hash_map::StringHashMap;
use vstd::prelude::*;

use crate::color::Rgba;

verus! {

/// A themed background whose opacity can be overridden.
#[derive(Clone, Copy, Debug, PartialEq, Eq, Structural)]
pub enum ColorKey {
    TitleBarBackground,
    TitleBarInactiveBackground,
    PanelBackground,
    EditorBackground,
    EditorGutterBackground,
    /// The breadcrumb strip above a buffer, shared with the search bar and other
    /// toolbars.
    ToolbarBackground,
    TerminalBackground,
    /// The fill of every idle terminal cell, as opposed to the terminal pane.
    TerminalAnsiBackground,
    StatusBarBackground,
    TabBarBackground,
    TabInactiveBackground,
    Background,
    SurfaceBackground,
    /// Tooltips, hover cards, palettes, notifications and modals.
    ElevatedSurfaceBackground,
}

/// The colors that a theme itself defines.
#[derive(Clone, Copy, Debug, PartialEq, Eq, Structural)]
pub struct ThemeColors {
    pub title_bar_background: Rgba,
    pub title_bar_inactive_background: Rgba,
    pub panel_background: Rgba,
    pub editor_background: Rgba,
    pub editor_gutter_background: Rgba,
    pub toolbar_background: Rgba,
    pub terminal_background: Rgba,
    pub terminal_ansi_background: Rgba,
    pub status_bar_background: Rgba,
    pub tab_bar_background: Rgba,
    pub tab_inactive_background: Rgba,
    pub background: Rgba,
    pub surface_background: Rgba,
    pub elevated_surface_background: Rgba,
}

/// Overriding colors, as text; `None` where the theme's own color applies.
#[derive(Debug)]
pub struct ThemeColorsContent {
    pub title_bar_background: Option<String>,
    pub title_bar_inactive_background: Option<String>,
    pub panel_background: Option<String>,
    pub editor_background: Option<String>,
    pub editor_gutter_background: Option<String>,
    pub toolbar_background: Option<String>,
    pub terminal_background: Option<String>,
    pub terminal_ansi_background: Option<String>,
    pub status_bar_background: Option<String>,
    pub tab_bar_background: Option<String>,
    pub tab_inactive_background: Option<String>,
    pub background: Option<String>,
    pub surface_background: Option<String>,
    pub elevated_surface_background: Option<String>,
}

/// What shows behind a window that is not opaque.
#[derive(Clone, Copy, Debug, PartialEq, Eq, Structural)]
pub enum WindowBackgroundContent {
    Opaque,
    Transparent,
    Blurred,
}

/// A field of an override entry that is carried along unread, such as syntax
/// styles, player colors or a color without a [`ColorKey`].
#[derive(Debug)]
pub struct OtherField {
    pub name: String,
    pub value: String,
}

/// Everything that the settings override of one theme.
#[derive(Debug)]
pub struct ThemeStyleContent {
    pub window_background_appearance: Option<WindowBackgroundContent>,
    pub colors: ThemeColorsContent,
    pub other: Vec<OtherField>,
}

/// The override entries of the settings, by theme name.
pub struct ThemeOverrides {
    entries: StringHashMap<ThemeStyleContent>,
}

/// The model of a [`ThemeStyleContent`].
#[verifier::ext_equal]
pub struct StyleView {
    pub window_background_appearance: Option<WindowBackgroundContent>,
    pub colors: Map<ColorKey, Seq<char>>,
    pub other: Seq<(Seq<char>, Seq<char>)>,
}

impl StyleView {
    /// A style that overrides nothing.
    pub open spec fn nothing() -> StyleView {
        StyleView {
            window_background_appearance: None,
            colors: Map::empty(),
            other: Seq::empty(),
        }
    }
}

impl ThemeColors {
    pub open spec fn color(self, key: ColorKey) -> Rgba {
        match key {
            ColorKey::TitleBarBackground => self.title_bar_background,
            ColorKey::TitleBarInactiveBackground => self.title_bar_inactive_background,
            ColorKey::PanelBackground => self.panel_background,
            ColorKey::EditorBackground => self.editor_background,
            ColorKey::EditorGutterBackground => self.editor_gutter_background,
            ColorKey::ToolbarBackground => self.toolbar_background,
            ColorKey::TerminalBackground => self.terminal_background,
            ColorKey::TerminalAnsiBackground => self.terminal_ansi_background,
            ColorKey::StatusBarBackground => self.status_bar_background,
            ColorKey::TabBarBackground => self.tab_bar_background,
            ColorKey::TabInactiveBackground => self.tab_inactive_background,
            ColorKey::Background => self.background,
            ColorKey::SurfaceBackground => self.surface_background,
            ColorKey::ElevatedSurfaceBackground => self.elevated_surface_background,
        }
    }
}

impl ThemeColorsContent {
    pub open spec fn text(self, key: ColorKey) -> Option<String> {
        match key {
            ColorKey::TitleBarBackground => self.title_bar_background,
            ColorKey::TitleBarInactiveBackground => self.title_bar_inactive_background,
            ColorKey::PanelBackground => self.panel_background,
            ColorKey::EditorBackground => self.editor_background,
            ColorKey::EditorGutterBackground => self.editor_gutter_background,
            ColorKey::ToolbarBackground => self.toolbar_background,
            ColorKey::TerminalBackground => self.terminal_background,
            ColorKey::TerminalAnsiBackground => self.terminal_ansi_background,
            ColorKey::StatusBarBackground => self.status_bar_background,
            ColorKey::TabBarBackground => self.tab_bar_background,
            ColorKey::TabInactiveBackground => self.tab_inactive_background,
            ColorKey::Background => self.background,
            ColorKey::SurfaceBackground => self.surface_background,
            ColorKey::ElevatedSurfaceBackground => self.elevated_surface_background,
        }
    }
}

impl View for ThemeColorsContent {
    type V = Map<ColorKey, Seq<char>>;

    open spec fn view(&self) -> Map<ColorKey, Seq<char>> {
        Map::new(|key: ColorKey| self.text(key) is Some, |key: ColorKey| self.text(key)->0@)
    }
}

impl View for OtherField {
    type V = (Seq<char>, Seq<char>);

    open spec fn view(&self) -> (Seq<char>, Seq<char>) {
        (self.name@, self.value@)
    }
}

impl View for ThemeStyleContent {
    type V = StyleView;

    open spec fn view(&self) -> StyleView {
        StyleView {
            window_background_appearance: self.window_background_appearance,
            colors: self.colors@,
            other: self.other@.map_values(|field: OtherField| field@),
        }
    }
}

impl View for ThemeOverrides {
    type V = Map<Seq<char>, StyleView>;

    closed spec fn view(&self) -> Map<Seq<char>, StyleView> {
        self.entries@.map_values(|style: ThemeStyleContent| style@)
    }
}

impl ColorKey {
    /// The theme's own color.
    pub fn native(self, colors: &ThemeColors) -> (color: Rgba)
        ensures
            color == colors.color(self),
            color == match self {
                ColorKey::TitleBarBackground => colors.title_bar_background,
                ColorKey::TitleBarInactiveBackground => colors.title_bar_inactive_background,
                ColorKey::PanelBackground => colors.panel_background,
                ColorKey::EditorBackground => colors.editor_background,
                ColorKey::EditorGutterBackground => colors.editor_gutter_background,
                ColorKey::ToolbarBackground => colors.toolbar_background,
                ColorKey::TerminalBackground => colors.terminal_background,
                ColorKey::TerminalAnsiBackground => colors.terminal_ansi_background,
                ColorKey::StatusBarBackground => colors.status_bar_background,
                ColorKey::TabBarBackground => colors.tab_bar_background,
                ColorKey::TabInactiveBackground => colors.tab_inactive_background,
                ColorKey::Background => colors.background,
                ColorKey::SurfaceBackground => colors.surface_background,
                ColorKey::ElevatedSurfaceBackground => colors.elevated_surface_background,
            },
    {
        match self {
            ColorKey::TitleBarBackground => colors.title_bar_background,
            ColorKey::TitleBarInactiveBackground => colors.title_bar_inactive_background,
            ColorKey::PanelBackground => colors.panel_background,
            ColorKey::EditorBackground => colors.editor_background,
            ColorKey::EditorGutterBackground => colors.editor_gutter_background,
            ColorKey::ToolbarBackground => colors.toolbar_background,
            ColorKey::TerminalBackground => colors.terminal_background,
            ColorKey::TerminalAnsiBackground => colors.terminal_ansi_background,
            ColorKey::StatusBarBackground => colors.status_bar_background,
            ColorKey::TabBarBackground => colors.tab_bar_background,
            ColorKey::TabInactiveBackground => colors.tab_inactive_background,
            ColorKey::Background => colors.background,
            ColorKey::SurfaceBackground => colors.surface_background,
            ColorKey::ElevatedSurfaceBackground => colors.elevated_surface_background,
        }
    }

    /// The overriding color, if there is one.
    pub fn override_get(self, colors: &ThemeColorsContent) -> (text: Option<&String>)
        ensures
            match text {
                Some(text) => colors@.contains_key(self) && text@ == colors@[self],
                None => !colors@.contains_key(self),
            },
    {
        match self {
            ColorKey::TitleBarBackground => colors.title_bar_background.as_ref(),
            ColorKey::TitleBarInactiveBackground => colors.title_bar_inactive_background.as_ref(),
            ColorKey::PanelBackground => colors.panel_background.as_ref(),
            ColorKey::EditorBackground => colors.editor_background.as_ref(),
            ColorKey::EditorGutterBackground => colors.editor_gutter_background.as_ref(),
            ColorKey::ToolbarBackground => colors.toolbar_background.as_ref(),
            ColorKey::TerminalBackground => colors.terminal_background.as_ref(),
            ColorKey::TerminalAnsiBackground => colors.terminal_ansi_background.as_ref(),
            ColorKey::StatusBarBackground => colors.status_bar_background.as_ref(),
            ColorKey::TabBarBackground => colors.tab_bar_background.as_ref(),
            ColorKey::TabInactiveBackground => colors.tab_inactive_background.as_ref(),
            ColorKey::Background => colors.background.as_ref(),
            ColorKey::SurfaceBackground => colors.surface_background.as_ref(),
            ColorKey::ElevatedSurfaceBackground => colors.elevated_surface_background.as_ref(),
        }
    }

    /// Replaces the overriding color, or removes it.
    pub fn override_set(self, colors: &mut ThemeColorsContent, text: Option<String>)
        ensures
            final(colors)@ == match text {
                Some(text) => old(colors)@.insert(self, text@),
                None => old(colors)@.remove(self),
            },
    {
        match self {
            ColorKey::TitleBarBackground => colors.title_bar_background = text,
            ColorKey::TitleBarInactiveBackground => colors.title_bar_inactive_background = text,
            ColorKey::PanelBackground => colors.panel_background = text,
            ColorKey::EditorBackground => colors.editor_background = text,
            ColorKey::EditorGutterBackground => colors.editor_gutter_background = text,
            ColorKey::ToolbarBackground => colors.toolbar_background = text,
            ColorKey::TerminalBackground => colors.terminal_background = text,
            ColorKey::TerminalAnsiBackground => colors.terminal_ansi_background = text,
            ColorKey::StatusBarBackground => colors.status_bar_background = text,
            ColorKey::TabBarBackground => colors.tab_bar_background = text,
            ColorKey::TabInactiveBackground => colors.tab_inactive_background = text,
            ColorKey::Background => colors.background = text,
            ColorKey::SurfaceBackground => colors.surface_background = text,
            ColorKey::ElevatedSurfaceBackground => colors.elevated_surface_background = text,
        }
    }
}

impl ThemeColorsContent {
    /// Whether no color is overridden.
    pub fn is_empty(&self) -> (result: bool)
        ensures
            result == (self@ == Map::<ColorKey, Seq<char>>::empty()),
    {
        let result = self.title_bar_background.is_none()
            && self.title_bar_inactive_background.is_none()
            && self.panel_background.is_none()
            && self.editor_background.is_none()
            && self.editor_gutter_background.is_none()
            && self.toolbar_background.is_none()
            && self.terminal_background.is_none()
            && self.terminal_ansi_background.is_none()
            && self.status_bar_background.is_none()
            && self.tab_bar_background.is_none()
            && self.tab_inactive_background.is_none()
            && self.background.is_none()
            && self.surface_background.is_none()
            && self.elevated_surface_background.is_none();
        proof {
            if result {
                assert(self@ =~= Map::<ColorKey, Seq<char>>::empty());
            } else {
                assert(self.title_bar_background is Some ==> self@.contains_key(ColorKey::TitleBarBackground));
                assert(self.title_bar_inactive_background is Some ==> self@.contains_key(ColorKey::TitleBarInactiveBackground));
                assert(self.panel_background is Some ==> self@.contains_key(ColorKey::PanelBackground));
                assert(self.editor_background is Some ==> self@.contains_key(ColorKey::EditorBackground));
                assert(self.editor_gutter_background is Some ==> self@.contains_key(ColorKey::EditorGutterBackground));
                assert(self.toolbar_background is Some ==> self@.contains_key(ColorKey::ToolbarBackground));
                assert(self.terminal_background is Some ==> self@.contains_key(ColorKey::TerminalBackground));
                assert(self.terminal_ansi_background is Some ==> self@.contains_key(ColorKey::TerminalAnsiBackground));
                assert(self.status_bar_background is Some ==> self@.contains_key(ColorKey::StatusBarBackground));
                assert(self.tab_bar_background is Some ==> self@.contains_key(ColorKey::TabBarBackground));
                assert(self.tab_inactive_background is Some ==> self@.contains_key(ColorKey::TabInactiveBackground));
                assert(self.background is Some ==> self@.contains_key(ColorKey::Background));
                assert(self.surface_background is Some ==> self@.contains_key(ColorKey::SurfaceBackground));
                assert(self.elevated_surface_background is Some ==> self@.contains_key(ColorKey::ElevatedSurfaceBackground));
            }
        }
        result
    }
}

fn clone_text(text: &Option<String>) -> (copy: Option<String>)
    ensures
        copy == *text,
{
    match text {
        Some(text) => Some(text.clone()),
        None => None,
    }
}

impl Default for ThemeColorsContent {
    fn default() -> (colors: Self)
        ensures
            colors@ == Map::<ColorKey, Seq<char>>::empty(),
    {
        ThemeColorsContent {
            title_bar_background: None,
            title_bar_inactive_background: None,
            panel_background: None,
            editor_background: None,
            editor_gutter_background: None,
            toolbar_background: None,
            terminal_background: None,
            terminal_ansi_background: None,
            status_bar_background: None,
            tab_bar_background: None,
            tab_inactive_background: None,
            background: None,
            surface_background: None,
            elevated_surface_background: None,
        }
    }
}

impl Clone for ThemeColorsContent {
    fn clone(&self) -> (colors: Self)
        ensures
            colors@ == self@,
    {
        ThemeColorsContent {
            title_bar_background: clone_text(&self.title_bar_background),
            title_bar_inactive_background: clone_text(&self.title_bar_inactive_background),
            panel_background: clone_text(&self.panel_background),
            editor_background: clone_text(&self.editor_background),
            editor_gutter_background: clone_text(&self.editor_gutter_background),
            toolbar_background: clone_text(&self.toolbar_background),
            terminal_background: clone_text(&self.terminal_background),
            terminal_ansi_background: clone_text(&self.terminal_ansi_background),
            status_bar_background: clone_text(&self.status_bar_background),
            tab_bar_background: clone_text(&self.tab_bar_background),
            tab_inactive_background: clone_text(&self.tab_inactive_background),
            background: clone_text(&self.background),
            surface_background: clone_text(&self.surface_background),
            elevated_surface_background: clone_text(&self.elevated_surface_background),
        }
    }
}

impl Default for ThemeStyleContent {
    fn default() -> (style: Self)
        ensures
            style@ == StyleView::nothing(),
            style.window_background_appearance is None,
            style.colors@ == Map::<ColorKey, Seq<char>>::empty(),
            style.other@.len() == 0,
    {
        ThemeStyleContent {
            window_background_appearance: None,
            colors: ThemeColorsContent::default(),
            other: Vec::new(),
        }
    }
}

impl Clone for ThemeStyleContent {
    fn clone(&self) -> (style: Self)
        ensures
            style@ == self@,
    {
        let mut other: Vec<OtherField> = Vec::new();
        let mut i: usize = 0;
        while i < self.other.len()
            invariant
                i <= self.other.len(),
                other.len() == i,
                forall|j: int| 0 <= j < i ==> (#[trigger] other@[j])@ == self.other@[j]@,
            decreases self.other.len() - i,
        {
            other.push(
                OtherField {
                    name: self.other[i].name.clone(),
                    value: self.other[i].value.clone(),
                },
            );
            i += 1;
        }
        ThemeStyleContent {
            window_background_appearance: self.window_background_appearance,
            colors: self.colors.clone(),
            other,
        }
    }
}

impl ThemeStyleContent {
    /// Whether this style overrides nothing at all.
    pub fn is_default(&self) -> (result: bool)
        ensures
            result == (self@ == StyleView::nothing()),
            result == (self.window_background_appearance is None && self.colors@ == Map::<
                ColorKey,
                Seq<char>,
            >::empty() && self.other@.len() == 0),
    {
        let result = self.window_background_appearance.is_none() && self.colors.is_empty()
            && self.other.len() == 0;
        proof {
            if result {
                assert(self@ =~= StyleView::nothing());
            }
        }
        result
    }
}

impl ThemeOverrides {
    pub fn new() -> (overrides: Self)
        ensures
            overrides@ == Map::<Seq<char>, StyleView>::empty(),
    {
        ThemeOverrides { entries: StringHashMap::new() }
    }

    /// The entry of a theme, if it has one.
    pub fn get(&self, theme_name: &str) -> (style: Option<&ThemeStyleContent>)
        ensures
            match style {
                Some(style) => self@.contains_key(theme_name@) && style@ == self@[theme_name@],
                None => !self@.contains_key(theme_name@),
            },
    {
        self.entries.get(theme_name)
    }

    /// Makes `style` the entry of a theme.
    pub fn insert(&mut self, theme_name: &str, style: ThemeStyleContent)
        ensures
            final(self)@ == old(self)@.insert(theme_name@, style@),
    {
        self.entries.insert(theme_name.to_owned(), style);
    }

    /// Takes the entry of a theme away.
    pub fn remove(&mut self, theme_name: &str)
        ensures
            final(self)@ == old(self)@.remove(theme_name@),
    {
        self.entries.remove(theme_name);
    }

    /// A copy of the entry of a theme, or one that overrides nothing.
    pub fn entry_or_default(&self, theme_name: &str) -> (style: ThemeStyleContent)
        ensures
            style@ == entry_or_nothing(self@, theme_name@),
            self@.contains_key(theme_name@) ==> style@ == self@[theme_name@],
            !self@.contains_key(theme_name@) ==> style@.window_background_appearance is None
                && style@.colors == Map::<ColorKey, Seq<char>>::empty() && style@.other.len() == 0,
    {
        match self.get(theme_name) {
            Some(style) => style.clone(),
            None => ThemeStyleContent::default(),
        }
    }
}

/// The entry of a theme, or one that overrides nothing.
pub open spec fn entry_or_nothing(
    overrides: Map<Seq<char>, StyleView>,
    theme_name: Seq<char>,
) -> StyleView {
    if overrides.contains_key(theme_name) {
        overrides[theme_name]
    } else {
        StyleView::nothing()
    }
}

/// Each key stands for the color of its own name.
pub proof fn each_key_has_its_own_color(colors: ThemeColors)
    ensures
        colors.color(ColorKey::TitleBarBackground) == colors.title_bar_background,
        colors.color(ColorKey::TitleBarInactiveBackground) == colors.title_bar_inactive_background,
        colors.color(ColorKey::PanelBackground) == colors.panel_background,
        colors.color(ColorKey::EditorBackground) == colors.editor_background,
        colors.color(ColorKey::EditorGutterBackground) == colors.editor_gutter_background,
        colors.color(ColorKey::ToolbarBackground) == colors.toolbar_background,
        colors.color(ColorKey::TerminalBackground) == colors.terminal_background,
        colors.color(ColorKey::TerminalAnsiBackground) == colors.terminal_ansi_background,
        colors.color(ColorKey::StatusBarBackground) == colors.status_bar_background,
        colors.color(ColorKey::TabBarBackground) == colors.tab_bar_background,
        colors.color(ColorKey::TabInactiveBackground) == colors.tab_inactive_background,
        colors.color(ColorKey::Background) == colors.background,
        colors.color(ColorKey::SurfaceBackground) == colors.surface_background,
        colors.color(ColorKey::ElevatedSurfaceBackground) == colors.elevated_surface_background,
{
}

/// A key is overridden where the field of its own name holds a text, by that
/// text.
pub proof fn each_key_has_its_own_text(colors: ThemeColorsContent)
    ensures
        colors@.contains_key(ColorKey::TitleBarBackground) == colors.title_bar_background is Some,
        colors.title_bar_background is Some
            ==> colors@[ColorKey::TitleBarBackground] == colors.title_bar_background->0@,
        colors@.contains_key(ColorKey::TitleBarInactiveBackground)
            == colors.title_bar_inactive_background is Some,
        colors.title_bar_inactive_background is Some
            ==> colors@[ColorKey::TitleBarInactiveBackground]
            == colors.title_bar_inactive_background->0@,
        colors@.contains_key(ColorKey::PanelBackground) == colors.panel_background is Some,
        colors.panel_background is Some
            ==> colors@[ColorKey::PanelBackground] == colors.panel_background->0@,
        colors@.contains_key(ColorKey::EditorBackground) == colors.editor_background is Some,
        colors.editor_background is Some
            ==> colors@[ColorKey::EditorBackground] == colors.editor_background->0@,
        colors@.contains_key(ColorKey::EditorGutterBackground)
            == colors.editor_gutter_background is Some,
        colors.editor_gutter_background is Some
            ==> colors@[ColorKey::EditorGutterBackground] == colors.editor_gutter_background->0@,
        colors@.contains_key(ColorKey::ToolbarBackground) == colors.toolbar_background is Some,
        colors.toolbar_background is Some
            ==> colors@[ColorKey::ToolbarBackground] == colors.toolbar_background->0@,
        colors@.contains_key(ColorKey::TerminalBackground) == colors.terminal_background is Some,
        colors.terminal_background is Some
            ==> colors@[ColorKey::TerminalBackground] == colors.terminal_background->0@,
        colors@.contains_key(ColorKey::TerminalAnsiBackground)
            == colors.terminal_ansi_background is Some,
        colors.terminal_ansi_background is Some
            ==> colors@[ColorKey::TerminalAnsiBackground] == colors.terminal_ansi_background->0@,
        colors@.contains_key(ColorKey::StatusBarBackground) == colors.status_bar_background is Some,
        colors.status_bar_background is Some
            ==> colors@[ColorKey::StatusBarBackground] == colors.status_bar_background->0@,
        colors@.contains_key(ColorKey::TabBarBackground) == colors.tab_bar_background is Some,
        colors.tab_bar_background is Some
            ==> colors@[ColorKey::TabBarBackground] == colors.tab_bar_background->0@,
        colors@.contains_key(ColorKey::TabInactiveBackground)
            == colors.tab_inactive_background is Some,
        colors.tab_inactive_background is Some
            ==> colors@[ColorKey::TabInactiveBackground] == colors.tab_inactive_background->0@,
        colors@.contains_key(ColorKey::Background) == colors.background is Some,
        colors.background is Some ==> colors@[ColorKey::Background] == colors.background->0@,
        colors@.contains_key(ColorKey::SurfaceBackground) == colors.surface_background is Some,
        colors.surface_background is Some
            ==> colors@[ColorKey::SurfaceBackground] == colors.surface_background->0@,
        colors@.contains_key(ColorKey::ElevatedSurfaceBackground)
            == colors.elevated_surface_background is Some,
        colors.elevated_surface_background is Some
            ==> colors@[ColorKey::ElevatedSurfaceBackground]
            == colors.elevated_surface_background->0@,
{
}

/// The model of a style has all that the style has: what shows behind the
/// window, the overriding colors, and every other field in its place.
pub proof fn model_keeps_every_field(style: ThemeStyleContent)
    ensures
        style@.window_background_appearance == style.window_background_appearance,
        style@.colors == style.colors@,
        style@.other.len() == style.other@.len(),
        forall|i: int|
            0 <= i < style.other@.len() ==> (#[trigger] style@.other[i]).0
                == style.other@[i].name@ && style@.other[i].1 == style.other@[i].value@,
{
}

/// A style overrides nothing where it names nothing behind the window, no key
/// and no other field.
pub proof fn nothing_is_overridden(style: StyleView)
    ensures
        style == StyleView::nothing() <==> {
            &&& style.window_background_appearance is None
            &&& forall|key: ColorKey| !#[trigger] style.colors.contains_key(key)
            &&& style.other.len() == 0
        },
{
    if style.window_background_appearance is None && (forall|key: ColorKey|
        !#[trigger] style.colors.contains_key(key)) && style.other.len() == 0 {
        assert(style =~= StyleView::nothing());
    }
}

/// The entry of a theme is the one it has; without one, it overrides nothing.
pub proof fn missing_entry_overrides_nothing(
    overrides: Map<Seq<char>, StyleView>,
    theme_name: Seq<char>,
)
    ensures
        ({
            let entry = entry_or_nothing(overrides, theme_name);
            &&& overrides.contains_key(theme_name) ==> entry == overrides[theme_name]
            &&& !overrides.contains_key(theme_name) ==> {
                &&& entry.window_background_appearance is None
                &&& entry.colors == Map::<ColorKey, Seq<char>>::empty()
                &&& entry.other == Seq::<(Seq<char>, Seq<char>)>::empty()
            }
        }),
{
}

} // verus!
