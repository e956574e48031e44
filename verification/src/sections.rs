//! The parts of a window whose opacity is set together.

use vstd::prelude::*;

use crate::theme::ColorKey;

verus! {

pub const TITLE_BAR_SECTION_TITLE: &'static str = "Title Bar";

pub const STATUS_TAB_BAR_SECTION_TITLE: &'static str = "Status/Tab Bar";

pub const SURFACES_SECTION_TITLE: &'static str = "Surfaces";

/// Colors that share one opacity field.
#[derive(Clone, Debug)]
pub struct ColorSection {
    pub title: &'static str,
    pub keys: Vec<ColorKey>,
    /// Whether the global opacity field reaches this section. Popups are left
    /// out because the text on them has to stay legible. The title bar and the
    /// status and tab bars are left out because they get a default of their
    /// own when the window stops being opaque. A section that is left out
    /// changes only through its own field.
    pub included_in_global: bool,
}

/// The model of a [`ColorSection`].
#[verifier::ext_equal]
pub struct SectionView {
    pub title: Seq<char>,
    pub keys: Seq<ColorKey>,
    pub included_in_global: bool,
}

impl View for ColorSection {
    type V = SectionView;

    open spec fn view(&self) -> SectionView {
        SectionView {
            title: self.title@,
            keys: self.keys@,
            included_in_global: self.included_in_global,
        }
    }
}

pub open spec fn title_bar() -> SectionView {
    SectionView {
        title: TITLE_BAR_SECTION_TITLE@,
        keys: seq![ColorKey::TitleBarBackground, ColorKey::TitleBarInactiveBackground],
        included_in_global: false,
    }
}

pub open spec fn panels() -> SectionView {
    SectionView {
        title: "Panels"@,
        keys: seq![ColorKey::PanelBackground],
        included_in_global: true,
    }
}

/// The toolbar color belongs to [`surfaces`] as well: whichever of the two
/// sections is edited last decides it.
pub open spec fn editor() -> SectionView {
    SectionView {
        title: "Editor"@,
        keys: seq![
            ColorKey::EditorBackground,
            ColorKey::EditorGutterBackground,
            ColorKey::ToolbarBackground,
        ],
        included_in_global: true,
    }
}

pub open spec fn terminal() -> SectionView {
    SectionView {
        title: "Terminal"@,
        keys: seq![ColorKey::TerminalBackground, ColorKey::TerminalAnsiBackground],
        included_in_global: true,
    }
}

pub open spec fn status_tab_bar() -> SectionView {
    SectionView {
        title: STATUS_TAB_BAR_SECTION_TITLE@,
        keys: seq![
            ColorKey::StatusBarBackground,
            ColorKey::TabBarBackground,
            ColorKey::TabInactiveBackground,
        ],
        included_in_global: false,
    }
}

pub open spec fn surfaces() -> SectionView {
    SectionView {
        title: SURFACES_SECTION_TITLE@,
        keys: seq![
            ColorKey::Background,
            ColorKey::SurfaceBackground,
            ColorKey::ToolbarBackground,
        ],
        included_in_global: true,
    }
}

pub open spec fn popups() -> SectionView {
    SectionView {
        title: "Popups & Overlays"@,
        keys: seq![ColorKey::ElevatedSurfaceBackground],
        included_in_global: false,
    }
}

/// All sections, in the order in which they are listed.
pub open spec fn all_sections() -> Seq<SectionView> {
    seq![title_bar(), panels(), editor(), terminal(), status_tab_bar(), surfaces(), popups()]
}

/// All sections, in the order in which they are listed.
pub fn sections() -> (result: Vec<ColorSection>)
    ensures
        result@.map_values(|section: ColorSection| section@) == all_sections(),
        result.len() == all_sections().len(),
        forall|i: int| 0 <= i < result.len() ==> (#[trigger] result@[i])@ == all_sections()[i],
        result.len() == 7,
        result@[0].title@ == "Title Bar"@,
        result@[0].keys@ == seq![
            ColorKey::TitleBarBackground,
            ColorKey::TitleBarInactiveBackground,
        ],
        !result@[0].included_in_global,
        result@[1].title@ == "Panels"@,
        result@[1].keys@ == seq![ColorKey::PanelBackground],
        result@[1].included_in_global,
        result@[2].title@ == "Editor"@,
        result@[2].keys@ == seq![
            ColorKey::EditorBackground,
            ColorKey::EditorGutterBackground,
            ColorKey::ToolbarBackground,
        ],
        result@[2].included_in_global,
        result@[3].title@ == "Terminal"@,
        result@[3].keys@ == seq![ColorKey::TerminalBackground, ColorKey::TerminalAnsiBackground],
        result@[3].included_in_global,
        result@[4].title@ == "Status/Tab Bar"@,
        result@[4].keys@ == seq![
            ColorKey::StatusBarBackground,
            ColorKey::TabBarBackground,
            ColorKey::TabInactiveBackground,
        ],
        !result@[4].included_in_global,
        result@[5].title@ == "Surfaces"@,
        result@[5].keys@ == seq![
            ColorKey::Background,
            ColorKey::SurfaceBackground,
            ColorKey::ToolbarBackground,
        ],
        result@[5].included_in_global,
        result@[6].title@ == "Popups & Overlays"@,
        result@[6].keys@ == seq![ColorKey::ElevatedSurfaceBackground],
        !result@[6].included_in_global,
{
    let result = vec![
        ColorSection {
            title: TITLE_BAR_SECTION_TITLE,
            keys: vec![ColorKey::TitleBarBackground, ColorKey::TitleBarInactiveBackground],
            included_in_global: false,
        },
        ColorSection {
            title: "Panels",
            keys: vec![ColorKey::PanelBackground],
            included_in_global: true,
        },
        ColorSection {
            title: "Editor",
            keys: vec![
                ColorKey::EditorBackground,
                ColorKey::EditorGutterBackground,
                ColorKey::ToolbarBackground,
            ],
            included_in_global: true,
        },
        ColorSection {
            title: "Terminal",
            keys: vec![ColorKey::TerminalBackground, ColorKey::TerminalAnsiBackground],
            included_in_global: true,
        },
        ColorSection {
            title: STATUS_TAB_BAR_SECTION_TITLE,
            keys: vec![
                ColorKey::StatusBarBackground,
                ColorKey::TabBarBackground,
                ColorKey::TabInactiveBackground,
            ],
            included_in_global: false,
        },
        ColorSection {
            title: SURFACES_SECTION_TITLE,
            keys: vec![
                ColorKey::Background,
                ColorKey::SurfaceBackground,
                ColorKey::ToolbarBackground,
            ],
            included_in_global: true,
        },
        ColorSection {
            title: "Popups & Overlays",
            keys: vec![ColorKey::ElevatedSurfaceBackground],
            included_in_global: false,
        },
    ];
    proof {
        assert(result@[0]@ =~= title_bar());
        assert(result@[1]@ =~= panels());
        assert(result@[2]@ =~= editor());
        assert(result@[3]@ =~= terminal());
        assert(result@[4]@ =~= status_tab_bar());
        assert(result@[5]@ =~= surfaces());
        assert(result@[6]@ =~= popups());
    }
    result
}

/// No two sections have the same title.
pub proof fn lemma_titles_distinct()
    ensures
        forall|i: int, j: int|
            0 <= i < all_sections().len() && 0 <= j < all_sections().len()
                && #[trigger] all_sections()[i].title == #[trigger] all_sections()[j].title ==> i
                == j,
{
    reveal_strlit("Title Bar");
    reveal_strlit("Panels");
    reveal_strlit("Editor");
    reveal_strlit("Terminal");
    reveal_strlit("Status/Tab Bar");
    reveal_strlit("Surfaces");
    reveal_strlit("Popups & Overlays");
    assert(all_sections()[0].title.len() == 9);
    assert(all_sections()[1].title.len() == 6 && all_sections()[1].title[0] == 'P');
    assert(all_sections()[2].title.len() == 6 && all_sections()[2].title[0] == 'E');
    assert(all_sections()[3].title.len() == 8 && all_sections()[3].title[0] == 'T');
    assert(all_sections()[4].title.len() == 14);
    assert(all_sections()[5].title.len() == 8 && all_sections()[5].title[0] == 'S');
    assert(all_sections()[6].title.len() == 17);
}

/// The sections, in order: what each is called, which colors share its field,
/// and whether the global field reaches it.
pub proof fn sections_are_listed_in_order()
    ensures
        all_sections().len() == 7,
        all_sections()[0].title == "Title Bar"@,
        all_sections()[0].keys == seq![
            ColorKey::TitleBarBackground,
            ColorKey::TitleBarInactiveBackground,
        ],
        !all_sections()[0].included_in_global,
        all_sections()[1].title == "Panels"@,
        all_sections()[1].keys == seq![ColorKey::PanelBackground],
        all_sections()[1].included_in_global,
        all_sections()[2].title == "Editor"@,
        all_sections()[2].keys == seq![
            ColorKey::EditorBackground,
            ColorKey::EditorGutterBackground,
            ColorKey::ToolbarBackground,
        ],
        all_sections()[2].included_in_global,
        all_sections()[3].title == "Terminal"@,
        all_sections()[3].keys == seq![
            ColorKey::TerminalBackground,
            ColorKey::TerminalAnsiBackground,
        ],
        all_sections()[3].included_in_global,
        all_sections()[4].title == "Status/Tab Bar"@,
        all_sections()[4].keys == seq![
            ColorKey::StatusBarBackground,
            ColorKey::TabBarBackground,
            ColorKey::TabInactiveBackground,
        ],
        !all_sections()[4].included_in_global,
        all_sections()[5].title == "Surfaces"@,
        all_sections()[5].keys == seq![
            ColorKey::Background,
            ColorKey::SurfaceBackground,
            ColorKey::ToolbarBackground,
        ],
        all_sections()[5].included_in_global,
        all_sections()[6].title == "Popups & Overlays"@,
        all_sections()[6].keys == seq![ColorKey::ElevatedSurfaceBackground],
        !all_sections()[6].included_in_global,
{
}

/// The title bar, the status and tab bars and the surfaces are the sections
/// that go by these titles in the list.
pub proof fn named_sections_are_listed()
    ensures
        title_bar() == all_sections()[0],
        title_bar().title == TITLE_BAR_SECTION_TITLE@,
        TITLE_BAR_SECTION_TITLE@ == "Title Bar"@,
        status_tab_bar() == all_sections()[4],
        status_tab_bar().title == STATUS_TAB_BAR_SECTION_TITLE@,
        STATUS_TAB_BAR_SECTION_TITLE@ == "Status/Tab Bar"@,
        surfaces() == all_sections()[5],
        surfaces().title == SURFACES_SECTION_TITLE@,
        SURFACES_SECTION_TITLE@ == "Surfaces"@,
{
}

/// The first color of a section, by which its field goes, belongs to no other
/// section.
pub proof fn first_key_belongs_to_one_section(i: int, j: int)
    requires
        0 <= i < all_sections().len(),
        0 <= j < all_sections().len(),
        i != j,
    ensures
        all_sections()[i].keys.len() > 0,
        !all_sections()[j].keys.contains(all_sections()[i].keys[0]),
{
}

/// Whether two texts are the same.
pub(crate) fn same_text(a: &str, b: &str) -> (same: bool)
    ensures
        same == (a@ == b@),
{
    a.to_owned() == b.to_owned()
}

} // verus!
