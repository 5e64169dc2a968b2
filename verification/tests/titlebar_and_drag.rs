use zalo_tauri::drag::{DragEffect, DragTracker, Propagation, MOVE_BUTTON, PRIMARY_BUTTON};
use zalo_tauri::titlebar::{
    button_spec, on_button_clicked, window_controls, TitlebarButton, BUTTON_CLASS,
    CLOSE_BUTTON_CLASS, CONTROLS_CLASS, CONTROLS_SPACING, HEADER_CLASS, TITLE, TITLE_CLASS,
};
use zalo_tauri::window::{handle_event, Command, WindowEvent};

fn far(origin: (f64, f64), at: (f64, f64)) -> bool {
    (at.0 - origin.0).abs() > 4.0 || (at.1 - origin.1).abs() > 4.0
}

#[test]
fn controls_are_minimize_maximize_close() {
    assert_eq!(
        window_controls(),
        vec![TitlebarButton::Minimize, TitlebarButton::Maximize, TitlebarButton::Close]
    );
}

#[test]
fn button_looks() {
    let m = button_spec(TitlebarButton::Minimize);
    assert_eq!((m.icon, m.tooltip, m.close_style), ("window-minimize-symbolic", "Thu nhỏ", false));
    let x = button_spec(TitlebarButton::Maximize);
    assert_eq!(
        (x.icon, x.tooltip, x.close_style),
        ("window-maximize-symbolic", "Phóng to / Khôi phục", false)
    );
    let c = button_spec(TitlebarButton::Close);
    assert_eq!(
        (c.icon, c.tooltip, c.close_style),
        ("window-close-symbolic", "Đóng xuống khay hệ thống", true)
    );
}

#[test]
fn titlebar_settings() {
    assert_eq!(TITLE, "Zalo");
    assert_eq!(HEADER_CLASS, "zalo-compact-titlebar");
    assert_eq!(TITLE_CLASS, "zalo-title");
    assert_eq!(CONTROLS_CLASS, "zalo-window-controls");
    assert_eq!(BUTTON_CLASS, "zalo-window-button");
    assert_eq!(CLOSE_BUTTON_CLASS, "zalo-close-button");
    assert_eq!(CONTROLS_SPACING, 2);
}

#[test]
fn button_clicks() {
    assert_eq!(on_button_clicked(TitlebarButton::Minimize, false), Command::Iconify);
    assert_eq!(on_button_clicked(TitlebarButton::Maximize, false), Command::Maximize);
    assert_eq!(on_button_clicked(TitlebarButton::Maximize, true), Command::Unmaximize);
    assert_eq!(on_button_clicked(TitlebarButton::Close, true), Command::Hide);
}

#[test]
fn close_button_hides_like_close_request() {
    let close = on_button_clicked(TitlebarButton::Close, false);
    assert!(handle_event(WindowEvent::CloseRequested).contains(&close));
    assert!(!matches!(close, Command::Exit(_)));
}

#[test]
fn new_tracker_is_unarmed() {
    let t: DragTracker<(f64, f64)> = DragTracker::new();
    assert!(t.origin().is_none());
}

#[test]
fn primary_press_arms_at_pointer() {
    let mut t = DragTracker::new();
    let out = t.on_button_press(PRIMARY_BUTTON, false, (10.0, 20.0));
    assert_eq!(out.propagation, Propagation::Stop);
    assert!(matches!(out.effect, DragEffect::Nothing));
    assert_eq!(t.origin(), Some(&(10.0, 20.0)));
}

#[test]
fn other_buttons_are_left_alone() {
    let mut t = DragTracker::new();
    t.on_button_press(PRIMARY_BUTTON, false, (1.0, 1.0));
    let out = t.on_button_press(3, false, (50.0, 50.0));
    assert_eq!(out.propagation, Propagation::Proceed);
    assert!(matches!(out.effect, DragEffect::Nothing));
    assert_eq!(t.origin(), Some(&(1.0, 1.0)));
    let out = t.on_button_press(2, true, (50.0, 50.0));
    assert_eq!(out.propagation, Propagation::Proceed);
    assert_eq!(t.origin(), Some(&(1.0, 1.0)));
}

#[test]
fn double_click_toggles_and_disarms() {
    let mut t = DragTracker::new();
    t.on_button_press(PRIMARY_BUTTON, false, (1.0, 1.0));
    let out = t.on_button_press(PRIMARY_BUTTON, true, (1.0, 1.0));
    assert_eq!(out.propagation, Propagation::Stop);
    assert!(matches!(out.effect, DragEffect::ToggleMaximized));
    assert!(t.origin().is_none());
}

#[test]
fn drag_past_threshold_moves_once() {
    let mut t = DragTracker::new();
    t.on_button_press(PRIMARY_BUTTON, false, (100.0, 100.0));

    let small = (103.0, 96.5);
    let out = t.on_motion(true, small, far(*t.origin().unwrap(), small), 5);
    assert_eq!(out.propagation, Propagation::Proceed);
    assert!(matches!(out.effect, DragEffect::Nothing));
    assert!(t.origin().is_some());

    let big = (104.5, 100.0);
    let out = t.on_motion(true, big, far(*t.origin().unwrap(), big), 9);
    assert_eq!(out.propagation, Propagation::Stop);
    match out.effect {
        DragEffect::BeginMoveDrag { button, at, time } => {
            assert_eq!(button, MOVE_BUTTON);
            assert_eq!(button, 1);
            assert_eq!(at, (104.5, 100.0));
            assert_eq!(time, 9);
        }
        _ => panic!("expected a move"),
    }
    assert!(t.origin().is_none());

    let out = t.on_motion(true, (300.0, 300.0), true, 10);
    assert_eq!(out.propagation, Propagation::Proceed);
    assert!(matches!(out.effect, DragEffect::Nothing));
}

#[test]
fn motion_without_primary_button_does_not_move() {
    let mut t = DragTracker::new();
    t.on_button_press(PRIMARY_BUTTON, false, (0.0, 0.0));
    let out = t.on_motion(false, (50.0, 50.0), true, 1);
    assert!(matches!(out.effect, DragEffect::Nothing));
    assert_eq!(out.propagation, Propagation::Proceed);
    assert_eq!(t.origin(), Some(&(0.0, 0.0)));
}

#[test]
fn unarmed_motion_does_not_move() {
    let mut t: DragTracker<(f64, f64)> = DragTracker::new();
    let out = t.on_motion(true, (50.0, 50.0), true, 1);
    assert!(matches!(out.effect, DragEffect::Nothing));
    assert!(t.origin().is_none());
}

#[test]
fn release_disarms() {
    let mut t = DragTracker::new();
    t.on_button_press(PRIMARY_BUTTON, false, (0.0, 0.0));
    let out = t.on_button_release();
    assert_eq!(out.propagation, Propagation::Proceed);
    assert!(matches!(out.effect, DragEffect::Nothing));
    assert!(t.origin().is_none());
    let out = t.on_motion(true, (99.0, 99.0), true, 2);
    assert!(matches!(out.effect, DragEffect::Nothing));
}
