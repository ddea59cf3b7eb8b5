use masonry_wayland::{
    is_paste_shortcut, masonry_resize_direction_to_wayland, MasonryState, NewWindow, Platform,
    ResizeDirection, ResizeEdge, SignalEffect, SignalKind, SignalRound, Window, WindowId,
};

struct TestPlatform;

impl Platform for TestPlatform {
    type RenderRoot = String;
    type Color = u32;
    type WindowAttributes = ();
    type RootWidget = String;
    type Surface = ();
    type Instant = u64;
    type ScaleFactor = u32;
    type Action = String;
    type WidgetId = u64;
    type Resources = ();
}

fn state_with_window(id: u64, handle: u64) -> MasonryState<TestPlatform> {
    let mut state = MasonryState::new(());
    state
        .new_windows(vec![(NewWindow::new_with_id(WindowId(id), (), "root".to_string()), true)])
        .unwrap();
    let new = state.take_new_window().unwrap();
    state.open_window(WindowId(handle), Window::new(new.id, new.root_widget, 0, 1));
    state
}

#[test]
fn resize_directions_map_to_edges() {
    let cases = [
        (ResizeDirection::East, ResizeEdge::Right),
        (ResizeDirection::North, ResizeEdge::Top),
        (ResizeDirection::NorthEast, ResizeEdge::TopRight),
        (ResizeDirection::NorthWest, ResizeEdge::TopLeft),
        (ResizeDirection::South, ResizeEdge::Bottom),
        (ResizeDirection::SouthEast, ResizeEdge::BottomRight),
        (ResizeDirection::SouthWest, ResizeEdge::BottomLeft),
        (ResizeDirection::West, ResizeEdge::Left),
    ];
    for (dir, edge) in cases {
        assert_eq!(masonry_resize_direction_to_wayland(dir), edge);
    }
    for (a, _) in cases {
        for (b, _) in cases {
            let ea = masonry_resize_direction_to_wayland(a);
            let eb = masonry_resize_direction_to_wayland(b);
            assert_ne!(ea, ResizeEdge::NoEdge);
            assert_eq!(ea == eb, a == b);
        }
    }
}

#[test]
fn paste_shortcut() {
    assert!(is_paste_shortcut(Some("v"), true, true));
    assert!(is_paste_shortcut(Some("V"), true, true));
    assert!(!is_paste_shortcut(Some("v"), false, true));
    assert!(!is_paste_shortcut(Some("v"), true, false));
    assert!(!is_paste_shortcut(Some("x"), true, true));
    assert!(!is_paste_shortcut(Some("vv"), true, true));
    assert!(!is_paste_shortcut(Some(""), true, true));
    assert!(!is_paste_shortcut(Some("\u{76}\u{301}"), true, true));
    assert!(!is_paste_shortcut(None, true, true));
}

#[test]
fn abandoned_round_redraws_nothing() {
    let mut state = state_with_window(5, 50);
    let mut round = SignalRound::new();
    state.handle_signal(&mut round, WindowId(5), SignalKind::RequestRedraw, false);
    round.note_inspection(true);
    assert!(!round.is_abandoned());
    round.note_inspection(false);
    assert!(round.is_abandoned());
    round.note_inspection(true);
    assert!(round.is_abandoned());
    assert!(round.finish().is_empty());
}

#[test]
fn signal_effects_when_unlocked() {
    let mut state = state_with_window(5, 50);
    let mut round = SignalRound::new();
    let cases = [
        (SignalKind::Action, SignalEffect::DispatchAction),
        (SignalKind::StartIme, SignalEffect::Nothing),
        (SignalKind::EndIme, SignalEffect::Nothing),
        (SignalKind::ImeMoved, SignalEffect::Nothing),
        (SignalKind::ClipboardStore, SignalEffect::StoreClipboard),
        (SignalKind::TakeFocus, SignalEffect::Nothing),
        (SignalKind::SetCursor, SignalEffect::SetCursor),
        (SignalKind::SetSize, SignalEffect::RequestInnerSize),
        (SignalKind::SetTitle, SignalEffect::SetTitle),
        (SignalKind::DragWindow, SignalEffect::DragWindow),
        (
            SignalKind::DragResizeWindow(ResizeDirection::SouthWest),
            SignalEffect::DragResizeWindow(ResizeEdge::BottomLeft),
        ),
        (SignalKind::ToggleMaximized, SignalEffect::ToggleMaximized),
        (SignalKind::Minimize, SignalEffect::Minimize),
        (SignalKind::ShowWindowMenu, SignalEffect::ShowWindowMenu),
        (SignalKind::WidgetSelectedInInspector, SignalEffect::InspectWidget),
        (SignalKind::Other, SignalEffect::Nothing),
    ];
    for (signal, effect) in cases {
        assert_eq!(
            state.handle_signal(&mut round, WindowId(5), signal, false),
            (WindowId(50), effect)
        );
    }
    assert!(!state.stop_requested());
    assert!(round.finish().is_empty());
}

#[test]
fn signal_effects_when_locked() {
    let mut state = state_with_window(5, 50);
    let mut round = SignalRound::new();
    let cases = [
        (SignalKind::Action, SignalEffect::DispatchAction),
        (SignalKind::ClipboardStore, SignalEffect::StoreClipboard),
        (SignalKind::SetCursor, SignalEffect::SetCursor),
        (SignalKind::WidgetSelectedInInspector, SignalEffect::InspectWidget),
        (SignalKind::SetSize, SignalEffect::Nothing),
        (SignalKind::SetTitle, SignalEffect::Nothing),
        (SignalKind::DragWindow, SignalEffect::Nothing),
        (SignalKind::DragResizeWindow(ResizeDirection::East), SignalEffect::Nothing),
        (SignalKind::ToggleMaximized, SignalEffect::Nothing),
        (SignalKind::Minimize, SignalEffect::Nothing),
        (SignalKind::ShowWindowMenu, SignalEffect::Nothing),
        (SignalKind::TakeFocus, SignalEffect::Nothing),
    ];
    for (signal, effect) in cases {
        assert_eq!(
            state.handle_signal(&mut round, WindowId(5), signal, true),
            (WindowId(50), effect)
        );
    }
}

#[test]
fn redraw_signals_batch_per_window() {
    let mut state = state_with_window(5, 50);
    let mut round = SignalRound::new();
    let a = state.handle_signal(&mut round, WindowId(5), SignalKind::RequestRedraw, false);
    let b = state.handle_signal(&mut round, WindowId(5), SignalKind::RequestAnimFrame, true);
    assert_eq!(a, (WindowId(50), SignalEffect::Nothing));
    assert_eq!(b, (WindowId(50), SignalEffect::Nothing));
    let redraws = round.finish();
    assert_eq!(redraws.len(), 1);
    assert!(redraws.contains(&50));
}

#[test]
fn exit_signal_requests_stop() {
    let mut state = state_with_window(5, 50);
    let mut round = SignalRound::new();
    let out = state.handle_signal(&mut round, WindowId(5), SignalKind::Exit, true);
    assert_eq!(out, (WindowId(50), SignalEffect::Nothing));
    assert!(state.stop_requested());
    assert!(state.has_window(WindowId(50)));
}
