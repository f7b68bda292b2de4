use healslut::actor::Msg;
use healslut::config::{Channel, TargetSpec};
use healslut::gui::{preview_cells, ButtonLabel, GuiState, PreviewCell, UiEvent};
use healslut::plug::Capture;

#[test]
fn clicks_follow_the_flags() {
    let mut gui = GuiState::new();
    assert!(matches!(gui.on_click(), Msg::Scan));

    gui.event(UiEvent::StartScan);
    assert!(matches!(gui.on_click(), Msg::StopScan));

    gui.event(UiEvent::Connect);
    assert!(matches!(gui.on_click(), Msg::Disconnect));
}

#[test]
fn labels_follow_the_notifications() {
    let mut gui = GuiState::new();
    assert_eq!(gui.event(UiEvent::StartScan), Some(ButtonLabel::Stop));
    assert!(gui.scanning);

    assert_eq!(gui.event(UiEvent::StopScan), Some(ButtonLabel::Scan));
    assert!(!gui.scanning);

    assert_eq!(gui.event(UiEvent::Connect), Some(ButtonLabel::Disconnect));
    assert!(gui.connected);

    // Connected, scan notifications keep the label.
    assert_eq!(gui.event(UiEvent::StartScan), None);
    assert_eq!(gui.event(UiEvent::StopScan), None);

    assert_eq!(gui.event(UiEvent::Disconnect), Some(ButtonLabel::Scan));
    assert!(!gui.connected);
}

#[test]
fn disconnecting_while_scanning_offers_stop() {
    let mut gui = GuiState::new();
    gui.event(UiEvent::StartScan);
    gui.event(UiEvent::Connect);
    assert_eq!(gui.event(UiEvent::Disconnect), Some(ButtonLabel::Stop));
}

#[test]
fn preview_shades_by_bit_and_budget() {
    // One row, both pixels red 200 over threshold 0: both bits set.
    let frame = Capture {
        width: 2,
        height: 1,
        rowstride: 8,
        bytes: vec![0, 0, 200, 255, 0, 0, 200, 255],
    };
    let spec = TargetSpec { x: 0, y: 0, size: 2, channel: Channel::Red, threshold: 0, count: 0 };
    let mask = frame.extract(&spec);

    let strict = preview_cells(&mask, 0);
    assert_eq!(strict, vec![PreviewCell::Bright, PreviewCell::Dim]);

    let loose = preview_cells(&mask, 1);
    assert_eq!(loose, vec![PreviewCell::Bright, PreviewCell::Bright]);
}

#[test]
fn preview_leaves_clear_bits_dark() {
    // Red 100 then red 200 rescale to a clear and a set bit.
    let frame = Capture {
        width: 2,
        height: 1,
        rowstride: 8,
        bytes: vec![0, 0, 100, 255, 0, 0, 200, 255],
    };
    let spec = TargetSpec { x: 0, y: 0, size: 2, channel: Channel::Red, threshold: 128, count: 0 };
    let mask = frame.extract(&spec);
    assert_eq!(preview_cells(&mask, 0), vec![PreviewCell::Dark, PreviewCell::Bright]);
}
