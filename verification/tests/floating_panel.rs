use workspace_appearance::floating_panel::{
    modal_size, DismissEvent, FloatingPanel, FloatingPanelSettings, FloatingPanelSize,
    OverlayEvent, Pixels, Size,
};

fn px(pixels: i64) -> Pixels {
    Pixels { units: pixels * 65536 }
}

fn settings(floating_panel_size: FloatingPanelSize, padding: i64) -> FloatingPanelSettings {
    FloatingPanelSettings { floating_panel_size, floating_panel_padding: px(padding) }
}

fn viewport() -> Size {
    Size { width: px(1920), height: px(1080) }
}

#[test]
fn small_takes_the_width_of_the_panel() {
    let size = modal_size(px(320), viewport(), settings(FloatingPanelSize::Small, 80));
    assert_eq!(size, (px(320), None));
}

#[test]
fn medium_takes_seven_tenths() {
    let size = modal_size(px(320), viewport(), settings(FloatingPanelSize::Medium, 80));
    assert_eq!(size, (px(1344), Some(px(756))));
}

#[test]
fn large_takes_nine_tenths() {
    let size = modal_size(px(320), viewport(), settings(FloatingPanelSize::Large, 80));
    assert_eq!(size, (px(1728), Some(px(972))));
}

#[test]
fn fullscreen_leaves_the_padding_on_all_sides() {
    let size = modal_size(px(320), viewport(), settings(FloatingPanelSize::Fullscreen, 80));
    assert_eq!(size, (px(1760), Some(px(920))));
    let none = modal_size(px(320), viewport(), settings(FloatingPanelSize::Fullscreen, 0));
    assert_eq!(none, (px(1920), Some(px(1080))));
}

#[test]
fn fullscreen_padding_may_exceed_the_viewport() {
    let tiny = Size { width: px(100), height: px(200) };
    let size = modal_size(px(320), tiny, settings(FloatingPanelSize::Fullscreen, 80));
    assert_eq!(size, (px(-60), Some(px(40))));
}

#[test]
fn fractions_round_to_the_nearest_unit() {
    let odd = Size { width: Pixels { units: 3 }, height: Pixels { units: -3 } };
    let (width, height) = modal_size(px(0), odd, settings(FloatingPanelSize::Medium, 0));
    assert_eq!(width.units, 2);
    assert_eq!(height, Some(Pixels { units: -2 }));
    let (width, height) = modal_size(px(0), odd, settings(FloatingPanelSize::Large, 0));
    assert_eq!(width.units, 3);
    assert_eq!(height, Some(Pixels { units: -3 }));
}

#[test]
fn presets_grow_up_to_the_viewport() {
    for width in 0..500 {
        let window = Size { width: Pixels { units: width }, height: Pixels { units: width } };
        let medium = modal_size(px(0), window, settings(FloatingPanelSize::Medium, 0)).0;
        let large = modal_size(px(0), window, settings(FloatingPanelSize::Large, 0)).0;
        assert!(0 <= medium.units && medium.units <= large.units && large.units <= width);
    }
}

#[test]
fn panel_is_the_one_that_was_given() {
    let floating = FloatingPanel::new("terminal");
    assert_eq!(*floating.panel(), "terminal");
}

#[test]
fn close_and_escape_dismiss() {
    let floating = FloatingPanel::new(7);
    assert_eq!(floating.handle(OverlayEvent::PanelClose), Some(DismissEvent));
    assert_eq!(floating.handle(OverlayEvent::Cancel), Some(DismissEvent));
    assert_eq!(floating.handle(OverlayEvent::PanelOther), None);
}

#[test]
fn fixed_height_stretches_the_panel() {
    let floating = FloatingPanel::new(());
    let large = floating.layout(px(320), viewport(), settings(FloatingPanelSize::Large, 80));
    assert_eq!(large.width, px(1728));
    assert_eq!(large.height, Some(px(972)));
    assert!(large.stretch_panel);
    assert!(!large.cap_height);
    let small = floating.layout(px(320), viewport(), settings(FloatingPanelSize::Small, 80));
    assert_eq!(small.width, px(320));
    assert_eq!(small.height, None);
    assert!(!small.stretch_panel);
    assert!(small.cap_height);
}
