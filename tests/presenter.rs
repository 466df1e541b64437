use voice_prompt::platform::{
    startup_actions, Action, Platform, FLOATING_COLLECTION_BEHAVIOR, POPUP_MENU_WINDOW_LEVEL,
};
use voice_prompt::position::{
    centered_below, cursor_show_position, tray_show_position, Position,
};
use voice_prompt::presenter::Presenter;

fn pos(x: i32, y: i32) -> Position {
    Position { x, y }
}

#[test]
fn tray_click_near_left_edge_clamps_x() {
    assert_eq!(tray_show_position(pos(100, 100)), pos(0, 105));
}

#[test]
fn tray_click_away_from_edge() {
    assert_eq!(tray_show_position(pos(1000, 0)), pos(820, 5));
}

#[test]
fn cursor_position_below_cursor() {
    assert_eq!(cursor_show_position(pos(500, 300)), pos(320, 310));
    assert_eq!(cursor_show_position(pos(180, 0)), pos(0, 10));
}

#[test]
fn positions_never_negative() {
    for &(x, y) in &[(0, 0), (-50, -50), (i32::MIN, i32::MIN), (179, -6), (181, -4)] {
        let t = tray_show_position(pos(x, y));
        let c = cursor_show_position(pos(x, y));
        assert!(t.x >= 0 && t.y >= 0);
        assert!(c.x >= 0 && c.y >= 0);
    }
    assert_eq!(tray_show_position(pos(0, -6)), pos(0, 0));
    assert_eq!(tray_show_position(pos(181, -4)), pos(1, 1));
}

#[test]
fn positions_saturate_at_largest_coordinate() {
    assert_eq!(
        cursor_show_position(pos(i32::MAX, i32::MAX)),
        pos(i32::MAX - 180, i32::MAX)
    );
    assert_eq!(centered_below(pos(10, 10), u32::MAX, u32::MAX), pos(0, i32::MAX));
}

#[test]
fn floating_behavior_bitmask() {
    assert_eq!(FLOATING_COLLECTION_BEHAVIOR, 0x111);
    assert_eq!(POPUP_MENU_WINDOW_LEVEL, 101);
}

#[test]
fn startup_hides_dock_icon_on_macos_only() {
    assert_eq!(startup_actions(Platform::MacOs), vec![Action::UseAccessoryPolicy]);
    assert_eq!(startup_actions(Platform::Windows), vec![]);
    assert_eq!(startup_actions(Platform::Other), vec![]);
}

#[test]
fn show_at_on_each_platform() {
    let mut mac = Presenter::new(Platform::MacOs, false);
    assert_eq!(
        mac.show_at(pos(7, 8)),
        vec![
            Action::SetCollectionBehavior(0x111),
            Action::SetWindowLevel(101),
            Action::SetPosition(pos(7, 8)),
            Action::Show,
            Action::Focus,
            Action::ActivateApp,
        ]
    );
    assert!(mac.window.visible && mac.window.focused);
    assert_eq!(mac.window.position, Some(pos(7, 8)));

    let mut win = Presenter::new(Platform::Windows, false);
    assert_eq!(
        win.show_at(pos(7, 8)),
        vec![
            Action::SetTopmost,
            Action::SetPosition(pos(7, 8)),
            Action::Show,
            Action::Focus,
            Action::BringToForeground,
        ]
    );

    let mut other = Presenter::new(Platform::Other, false);
    assert_eq!(
        other.show_at(pos(7, 8)),
        vec![Action::SetPosition(pos(7, 8)), Action::Show, Action::Focus]
    );
}

#[test]
fn toggle_twice_restores_visibility() {
    for &start in &[false, true] {
        let mut p = Presenter::new(Platform::Windows, start);
        p.toggle_from_tray(pos(100, 100));
        assert_eq!(p.window.visible, !start);
        p.toggle_from_tray(pos(300, 40));
        assert_eq!(p.window.visible, start);
    }
}

#[test]
fn toggle_shows_hidden_window_below_click() {
    let mut p = Presenter::new(Platform::Other, false);
    let a = p.toggle_from_tray(pos(100, 100));
    assert_eq!(a, vec![Action::SetPosition(pos(0, 105)), Action::Show, Action::Focus]);
    assert_eq!(p.toggle_from_tray(pos(100, 100)), vec![Action::Hide]);
    assert!(!p.window.visible && !p.window.focused);
}

#[test]
fn toggle_hides_observed_visible_window() {
    let mut p = Presenter::new(Platform::MacOs, false);
    p.observe_visibility(true);
    assert_eq!(p.toggle_from_tray(pos(1, 1)), vec![Action::Hide]);
}

#[test]
fn cursor_read_failure_still_shows_and_focuses() {
    let mut p = Presenter::new(Platform::Windows, false);
    let a = p.show_at_cursor(None);
    assert_eq!(
        a,
        vec![Action::SetTopmost, Action::Show, Action::Focus, Action::BringToForeground]
    );
    assert!(p.window.visible && p.window.focused);
    assert_eq!(p.window.position, None);
}

#[test]
fn cursor_read_success_positions_window() {
    let mut p = Presenter::new(Platform::Other, false);
    let a = p.show_at_cursor(Some(pos(100, 100)));
    assert_eq!(a, vec![Action::SetPosition(pos(0, 110)), Action::Show, Action::Focus]);
    assert_eq!(p.window.position, Some(pos(0, 110)));
}

#[test]
fn cancelled_quit_changes_nothing() {
    let mut p = Presenter::new(Platform::MacOs, true);
    let before = p;
    assert_eq!(p.request_quit(false), vec![]);
    assert_eq!(p, before);
    assert!(p.running);
}

#[test]
fn confirmed_quit_exits_with_zero() {
    let mut p = Presenter::new(Platform::MacOs, true);
    assert_eq!(p.request_quit(true), vec![Action::Exit(0)]);
    assert!(!p.running);
    assert!(p.window.visible);
}

#[test]
fn cancelled_close_keeps_window_open() {
    let mut p = Presenter::new(Platform::Other, true);
    let before = p;
    assert_eq!(p.request_close(false), vec![Action::PreventClose]);
    assert_eq!(p, before);
}

#[test]
fn confirmed_close_hides_then_toggle_shows_again() {
    let mut p = Presenter::new(Platform::Other, true);
    assert_eq!(p.request_close(true), vec![Action::PreventClose, Action::Hide]);
    assert!(!p.window.visible);
    assert!(p.running);
    let a = p.toggle_from_tray(pos(400, 20));
    assert_eq!(a, vec![Action::SetPosition(pos(220, 25)), Action::Show, Action::Focus]);
    assert!(p.window.visible);
}

#[test]
fn observe_hidden_clears_focus() {
    let mut p = Presenter::new(Platform::Other, false);
    p.show_at(pos(0, 0));
    p.observe_visibility(false);
    assert!(!p.window.visible && !p.window.focused);
}
