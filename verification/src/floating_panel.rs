//! A panel that is shown as a centered overlay instead of being docked.

use vstd::prelude::*;

use crate::rounding;

verus! {

/// A length on screen, in units of 1/65536 of a pixel.
#[derive(Clone, Copy, Debug, PartialEq, Eq, Structural)]
pub struct Pixels {
    pub units: i64,
}

#[derive(Clone, Copy, Debug, PartialEq, Eq, Structural)]
pub struct Size {
    pub width: Pixels,
    pub height: Pixels,
}

/// How large a floating panel is.
#[derive(Clone, Copy, Debug, PartialEq, Eq, Structural)]
pub enum FloatingPanelSize {
    Small,
    Medium,
    Large,
    Fullscreen,
}

/// The settings that decide how a floating panel is laid out.
#[derive(Clone, Copy, Debug, PartialEq, Eq, Structural)]
pub struct FloatingPanelSettings {
    pub floating_panel_size: FloatingPanelSize,
    /// The margin around a panel of size `Fullscreen`. At the 80 pixels that
    /// overlays are moved down by, the four margins come out equal.
    pub floating_panel_padding: Pixels,
}

/// `tenths` tenths of a length, to the nearest unit.
pub open spec fn scaled(length: Pixels, tenths: int) -> Pixels {
    Pixels { units: rounding::nearest(length.units * tenths, 10) as i64 }
}

/// A length without a margin at both ends.
pub open spec fn inset(length: Pixels, margin: Pixels) -> int {
    length.units - 2 * margin.units
}

/// The width of a panel, and its height where that is fixed.
pub open spec fn panel_size(
    default_size: Pixels,
    viewport: Size,
    settings: FloatingPanelSettings,
) -> (Pixels, Option<Pixels>) {
    match settings.floating_panel_size {
        FloatingPanelSize::Small => (default_size, None),
        FloatingPanelSize::Medium => (scaled(viewport.width, 7), Some(scaled(viewport.height, 7))),
        FloatingPanelSize::Large => (scaled(viewport.width, 9), Some(scaled(viewport.height, 9))),
        FloatingPanelSize::Fullscreen => (
            Pixels { units: inset(viewport.width, settings.floating_panel_padding) as i64 },
            Some(Pixels { units: inset(viewport.height, settings.floating_panel_padding) as i64 }),
        ),
    }
}

/// Whether the lengths of a panel of size `Fullscreen` can be represented.
pub open spec fn fits(viewport: Size, settings: FloatingPanelSettings) -> bool {
    settings.floating_panel_size == FloatingPanelSize::Fullscreen ==> {
        &&& i64::MIN <= inset(viewport.width, settings.floating_panel_padding) <= i64::MAX
        &&& i64::MIN <= inset(viewport.height, settings.floating_panel_padding) <= i64::MAX
    }
}

fn scale(length: Pixels, tenths: u8) -> (result: Pixels)
    requires
        tenths <= 10,
    ensures
        result.units == rounding::nearest(length.units * tenths, 10),
{
    assert(length.units <= 0 ==> 10 * length.units <= length.units * tenths <= 0)
        by (nonlinear_arith)
        requires
            0 <= tenths <= 10,
    ;
    assert(length.units >= 0 ==> 0 <= length.units * tenths <= 10 * length.units)
        by (nonlinear_arith)
        requires
            0 <= tenths <= 10,
    ;
    let doubled: i128 = 2 * (length.units as i128 * tenths as i128) + 10;
    match doubled.checked_div_euclid(20) {
        Some(units) => Pixels { units: units as i64 },
        None => length,
    }
}

/// Width, and height if it is fixed. A panel of size `Small` has its height
/// capped instead, so that it grows no taller than its content needs.
pub fn modal_size(default_size: Pixels, viewport: Size, settings: FloatingPanelSettings) -> (size: (
    Pixels,
    Option<Pixels>,
))
    requires
        fits(viewport, settings),
    ensures
        size == panel_size(default_size, viewport, settings),
        match settings.floating_panel_size {
            FloatingPanelSize::Small => size.0 == default_size && size.1 is None,
            FloatingPanelSize::Medium => {
                &&& size.0.units == rounding::nearest(viewport.width.units * 7, 10)
                &&& size.1 is Some
                &&& size.1->0.units == rounding::nearest(viewport.height.units * 7, 10)
            },
            FloatingPanelSize::Large => {
                &&& size.0.units == rounding::nearest(viewport.width.units * 9, 10)
                &&& size.1 is Some
                &&& size.1->0.units == rounding::nearest(viewport.height.units * 9, 10)
            },
            FloatingPanelSize::Fullscreen => {
                let padding = settings.floating_panel_padding.units;
                &&& size.0.units == viewport.width.units - 2 * padding
                &&& size.1 is Some
                &&& size.1->0.units == viewport.height.units - 2 * padding
            },
        },
{
    match settings.floating_panel_size {
        FloatingPanelSize::Small => (default_size, None),
        FloatingPanelSize::Medium => (scale(viewport.width, 7), Some(scale(viewport.height, 7))),
        FloatingPanelSize::Large => (scale(viewport.width, 9), Some(scale(viewport.height, 9))),
        FloatingPanelSize::Fullscreen => {
            let margin: i128 = settings.floating_panel_padding.units as i128;
            let width: i128 = viewport.width.units as i128 - 2 * margin;
            let height: i128 = viewport.height.units as i128 - 2 * margin;
            (Pixels { units: width as i64 }, Some(Pixels { units: height as i64 }))
        },
    }
}

/// What the wrapped panel, or the keyboard, tells a floating panel.
#[derive(Clone, Copy, Debug, PartialEq, Eq, Structural)]
pub enum OverlayEvent {
    /// The panel asks to be closed.
    PanelClose,
    /// The panel reports anything else.
    PanelOther,
    /// Escape was pressed. It closes the overlay even where the panel has a
    /// use of its own for the key.
    Cancel,
}

/// Asks for the overlay to be taken away.
#[derive(Clone, Copy, Debug, PartialEq, Eq, Structural)]
pub struct DismissEvent;

/// How a floating panel is drawn.
#[derive(Clone, Copy, Debug, PartialEq, Eq, Structural)]
pub struct PanelLayout {
    pub width: Pixels,
    pub height: Option<Pixels>,
    /// Whether the height is capped, there being no fixed one.
    pub cap_height: bool,
    /// Whether the panel is stretched to the overlay. With a fixed height it
    /// has to be, or a short panel would leave empty space below it.
    pub stretch_panel: bool,
}

/// Shows a panel as a centered overlay. It closes when the panel asks for it
/// or when Escape is pressed.
pub struct FloatingPanel<T> {
    panel: T,
}

impl<T> FloatingPanel<T> {
    /// The panel that is shown.
    pub closed spec fn shown(self) -> T {
        self.panel
    }

    pub fn new(panel: T) -> (floating: Self)
        ensures
            floating.shown() == panel,
    {
        FloatingPanel { panel }
    }

    /// The panel that is shown, which is also what has the focus.
    pub fn panel(&self) -> (panel: &T)
        ensures
            *panel == self.shown(),
    {
        &self.panel
    }

    /// What the overlay emits on an event.
    pub fn handle(&self, event: OverlayEvent) -> (emitted: Option<DismissEvent>)
        ensures
            emitted == match event {
                OverlayEvent::PanelClose => Some(DismissEvent),
                OverlayEvent::PanelOther => None,
                OverlayEvent::Cancel => Some(DismissEvent),
            },
    {
        match event {
            OverlayEvent::PanelClose => Some(DismissEvent),
            OverlayEvent::PanelOther => None,
            OverlayEvent::Cancel => Some(DismissEvent),
        }
    }

    /// How the overlay is drawn. `default_size` is the width that the panel
    /// itself prefers.
    pub fn layout(
        &self,
        default_size: Pixels,
        viewport: Size,
        settings: FloatingPanelSettings,
    ) -> (layout: PanelLayout)
        requires
            fits(viewport, settings),
        ensures
            (layout.width, layout.height) == panel_size(default_size, viewport, settings),
            match settings.floating_panel_size {
                FloatingPanelSize::Small => layout.width == default_size && layout.height is None,
                FloatingPanelSize::Medium => {
                    &&& layout.width.units == rounding::nearest(viewport.width.units * 7, 10)
                    &&& layout.height is Some
                    &&& layout.height->0.units == rounding::nearest(viewport.height.units * 7, 10)
                },
                FloatingPanelSize::Large => {
                    &&& layout.width.units == rounding::nearest(viewport.width.units * 9, 10)
                    &&& layout.height is Some
                    &&& layout.height->0.units == rounding::nearest(viewport.height.units * 9, 10)
                },
                FloatingPanelSize::Fullscreen => {
                    let padding = settings.floating_panel_padding.units;
                    &&& layout.width.units == viewport.width.units - 2 * padding
                    &&& layout.height is Some
                    &&& layout.height->0.units == viewport.height.units - 2 * padding
                },
            },
            layout.cap_height == (layout.height is None),
            layout.stretch_panel == (layout.height is Some),
    {
        let (width, height) = modal_size(default_size, viewport, settings);
        PanelLayout {
            width,
            height,
            cap_height: height.is_none(),
            stretch_panel: height.is_some(),
        }
    }
}

/// A panel of size `Small` is as wide as it prefers to be and has no fixed
/// height, whatever the viewport and the padding are.
pub proof fn small_keeps_the_preferred_width(
    default_size: Pixels,
    viewport: Size,
    settings: FloatingPanelSettings,
)
    requires
        settings.floating_panel_size == FloatingPanelSize::Small,
    ensures
        fits(viewport, settings),
        panel_size(default_size, viewport, settings).0.units == default_size.units,
        panel_size(default_size, viewport, settings).1 is None,
{
}

/// A panel of size `Medium` takes seven tenths of either side of the viewport,
/// one of size `Large` nine tenths, each to the nearest unit, halves up. The
/// width that the panel prefers and the padding play no part.
pub proof fn presets_take_tenths_of_the_viewport(
    default_size: Pixels,
    viewport: Size,
    settings: FloatingPanelSettings,
)
    requires
        settings.floating_panel_size == FloatingPanelSize::Medium || settings.floating_panel_size
            == FloatingPanelSize::Large,
    ensures
        fits(viewport, settings),
        ({
            let (width, height) = panel_size(default_size, viewport, settings);
            &&& height is Some
            &&& settings.floating_panel_size == FloatingPanelSize::Medium ==> {
                &&& 20 * width.units - 10 <= 14 * viewport.width.units < 20 * width.units + 10
                &&& 20 * height->0.units - 10 <= 14 * viewport.height.units < 20 * height->0.units
                    + 10
            }
            &&& settings.floating_panel_size == FloatingPanelSize::Large ==> {
                &&& 20 * width.units - 10 <= 18 * viewport.width.units < 20 * width.units + 10
                &&& 20 * height->0.units - 10 <= 18 * viewport.height.units < 20 * height->0.units
                    + 10
            }
        }),
{
}

/// A panel of size `Fullscreen` can be laid out whenever both sides of the
/// viewport, less the padding at either end, are lengths.
pub proof fn fullscreen_fits_lengths(viewport: Size, settings: FloatingPanelSettings)
    requires
        settings.floating_panel_size == FloatingPanelSize::Fullscreen,
    ensures
        ({
            let padding = settings.floating_panel_padding.units;
            fits(viewport, settings) <==> {
                &&& i64::MIN <= viewport.width.units - 2 * padding <= i64::MAX
                &&& i64::MIN <= viewport.height.units - 2 * padding <= i64::MAX
            }
        }),
{
}

/// The margins of a panel of size `Fullscreen` are the padding on either side,
/// and likewise above and below.
pub proof fn fullscreen_leaves_the_padding(
    default_size: Pixels,
    viewport: Size,
    settings: FloatingPanelSettings,
)
    requires
        settings.floating_panel_size == FloatingPanelSize::Fullscreen,
        fits(viewport, settings),
    ensures
        ({
            let (width, height) = panel_size(default_size, viewport, settings);
            let padding = settings.floating_panel_padding;
            &&& padding.units + width.units + padding.units == viewport.width.units
            &&& height matches Some(height)
            &&& padding.units + height.units + padding.units == viewport.height.units
        }),
{
}

/// A larger preset is no smaller, and none is larger than the viewport.
pub proof fn presets_grow(length: Pixels)
    requires
        0 <= length.units,
    ensures
        0 <= scaled(length, 7).units <= scaled(length, 9).units <= length.units,
{
}

} // verus!
