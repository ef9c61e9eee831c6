use bex_shell::lifecycle::{on_close_requested, popup_window_config, show_main_window, show_or_create_popup, ShellAction};
use bex_shell::shell::{route, ShellEvent, ShellState};
use bex_shell::shortcut::{is_trigger, quick_check_shortcut, ShortcutState};
use bex_shell::tray::{is_reveal_click, menu_command, tray_menu, MenuCommand, MouseButton, MouseButtonState};
use bex_shell::window::{window_label, Visibility, WindowLabel, WindowState};

fn shown_focused(identity: u64) -> WindowState {
    WindowState { visibility: Visibility::Shown, focused: true, identity }
}

#[test]
fn quick_check_menu_creates_popup_when_absent() {
    let mut s = ShellState::new();
    let action = s.handle(ShellEvent::Menu(menu_command("quick_check")));
    assert_eq!(action, ShellAction::CreatePopup);
    assert_eq!(s.windows_created, 2);
    assert_eq!(s.popup, Some(shown_focused(1)));
    let cfg = popup_window_config();
    assert_eq!(cfg.label, "popup");
    assert_eq!(cfg.route, "/popup");
    assert_eq!(cfg.title, "Bex \u{2014} Quick Check");
    assert_eq!((cfg.width, cfg.height), (500, 400));
    assert!(cfg.resizable && cfg.always_on_top && cfg.centered);
}

#[test]
fn close_main_is_vetoed_and_hides() {
    let mut s = ShellState::new();
    let action = s.handle(ShellEvent::CloseRequested(window_label("main")));
    assert_eq!(action, ShellAction::PreventCloseAndHide(WindowLabel::Main));
    let m = s.main.unwrap();
    assert_eq!(m.visibility, Visibility::Hidden);
    assert_eq!(m.identity, 0);
    assert_eq!(s.exit_code, None);
}

#[test]
fn close_popup_is_allowed_and_destroys() {
    let mut s = ShellState::new();
    s.reveal_or_create_popup();
    assert!(s.popup.is_some());
    let action = s.handle(ShellEvent::CloseRequested(window_label("popup")));
    assert_eq!(action, ShellAction::AllowClose(WindowLabel::Popup));
    assert_eq!(s.popup, None);
    assert_eq!(s.exit_code, None);
}

#[test]
fn close_other_window_is_allowed() {
    assert_eq!(window_label("settings"), WindowLabel::Other);
    assert_eq!(on_close_requested(WindowLabel::Other), ShellAction::AllowClose(WindowLabel::Other));
}

#[test]
fn left_click_up_reveals_hidden_main() {
    let mut s = ShellState::new();
    s.handle(ShellEvent::CloseRequested(WindowLabel::Main));
    assert_eq!(s.main.unwrap().visibility, Visibility::Hidden);
    let action = s.handle(ShellEvent::TrayClick(MouseButton::Left, MouseButtonState::Up));
    assert_eq!(action, ShellAction::Reveal(WindowLabel::Main));
    assert_eq!(s.main, Some(shown_focused(0)));
}

#[test]
fn other_tray_clicks_are_ignored() {
    assert!(is_reveal_click(MouseButton::Left, MouseButtonState::Up));
    assert!(!is_reveal_click(MouseButton::Left, MouseButtonState::Down));
    assert!(!is_reveal_click(MouseButton::Right, MouseButtonState::Up));
    assert!(!is_reveal_click(MouseButton::Middle, MouseButtonState::Up));
    let mut s = ShellState::new();
    s.handle(ShellEvent::CloseRequested(WindowLabel::Main));
    let before = s;
    let action = s.handle(ShellEvent::TrayClick(MouseButton::Right, MouseButtonState::Up));
    assert_eq!(action, ShellAction::Ignore);
    assert_eq!(s, before);
}

#[test]
fn shortcut_press_matches_quick_check_menu() {
    let mut by_menu = ShellState::new();
    let mut by_key = ShellState::new();
    let a = by_menu.handle(ShellEvent::Menu(MenuCommand::QuickCheck));
    let b = by_key.handle(ShellEvent::Shortcut(ShortcutState::Pressed));
    assert_eq!(a, b);
    assert_eq!(by_menu, by_key);
    let a = by_menu.handle(ShellEvent::Menu(MenuCommand::QuickCheck));
    let b = by_key.handle(ShellEvent::Shortcut(ShortcutState::Pressed));
    assert_eq!(a, ShellAction::Reveal(WindowLabel::Popup));
    assert_eq!(a, b);
    assert_eq!(by_menu, by_key);
}

#[test]
fn shortcut_release_is_ignored() {
    assert!(is_trigger(ShortcutState::Pressed));
    assert!(!is_trigger(ShortcutState::Released));
    let mut s = ShellState::new();
    let before = s;
    assert_eq!(s.handle(ShellEvent::Shortcut(ShortcutState::Released)), ShellAction::Ignore);
    assert_eq!(s, before);
    assert_eq!(quick_check_shortcut(), "super+shift+g");
}

#[test]
fn reveal_main_from_every_state() {
    let mut s = ShellState::new();
    s.minimize(WindowLabel::Main);
    assert_eq!(s.main.unwrap().visibility, Visibility::Minimized);
    s.reveal_main();
    assert_eq!(s.main, Some(shown_focused(0)));
    s.reveal_main();
    assert_eq!(s.main, Some(shown_focused(0)));
    s.handle(ShellEvent::CloseRequested(WindowLabel::Main));
    s.handle(ShellEvent::Menu(MenuCommand::Open));
    assert_eq!(s.main, Some(shown_focused(0)));
}

#[test]
fn reveal_main_without_main_is_a_no_op() {
    assert_eq!(show_main_window(false), ShellAction::Ignore);
    assert_eq!(show_main_window(true), ShellAction::Reveal(WindowLabel::Main));
    let mut s = ShellState::new();
    s.apply(ShellAction::AllowClose(WindowLabel::Main));
    assert_eq!(s.main, None);
    let before = s;
    s.reveal_main();
    assert_eq!(s, before);
}

#[test]
fn popup_twice_creates_one_window() {
    assert_eq!(show_or_create_popup(false), ShellAction::CreatePopup);
    assert_eq!(show_or_create_popup(true), ShellAction::Reveal(WindowLabel::Popup));
    let mut s = ShellState::new();
    s.reveal_or_create_popup();
    s.reveal_or_create_popup();
    assert_eq!(s.windows_created, 2);
    assert_eq!(s.popup, Some(shown_focused(1)));
    assert!(!s.main.unwrap().focused);
}

#[test]
fn existing_minimized_popup_is_revealed_not_recreated() {
    let mut s = ShellState::new();
    s.reveal_or_create_popup();
    s.minimize(WindowLabel::Popup);
    s.reveal_main();
    assert!(!s.popup.unwrap().focused);
    s.reveal_or_create_popup();
    assert_eq!(s.windows_created, 2);
    assert_eq!(s.popup, Some(shown_focused(1)));
}

#[test]
fn closed_popup_is_recreated_with_new_identity() {
    let mut s = ShellState::new();
    s.reveal_or_create_popup();
    let first = s.popup.unwrap().identity;
    s.handle(ShellEvent::CloseRequested(WindowLabel::Popup));
    s.handle(ShellEvent::Shortcut(ShortcutState::Pressed));
    let second = s.popup.unwrap().identity;
    assert_ne!(first, second);
    assert_eq!(s.popup, Some(shown_focused(2)));
    assert_eq!(s.windows_created, 3);
}

#[test]
fn popup_creation_fails_quietly_when_identities_run_out() {
    let mut s = ShellState::new();
    s.windows_created = u64::MAX;
    let before = s;
    s.apply(ShellAction::CreatePopup);
    assert_eq!(s, before);
}

#[test]
fn only_quit_exits_with_zero() {
    let events = [
        ShellEvent::Menu(MenuCommand::Open),
        ShellEvent::Menu(MenuCommand::QuickCheck),
        ShellEvent::Menu(MenuCommand::Unknown),
        ShellEvent::TrayClick(MouseButton::Left, MouseButtonState::Up),
        ShellEvent::TrayClick(MouseButton::Right, MouseButtonState::Down),
        ShellEvent::Shortcut(ShortcutState::Pressed),
        ShellEvent::Shortcut(ShortcutState::Released),
        ShellEvent::CloseRequested(WindowLabel::Main),
        ShellEvent::CloseRequested(WindowLabel::Popup),
        ShellEvent::CloseRequested(WindowLabel::Other),
    ];
    let mut s = ShellState::new();
    for e in events {
        s.handle(e);
        assert_eq!(s.exit_code, None);
    }
    assert_eq!(s.handle(ShellEvent::Menu(menu_command("quit"))), ShellAction::Exit(0));
    assert_eq!(s.exit_code, Some(0));
}

#[test]
fn menu_ids_parse() {
    assert_eq!(menu_command("open"), MenuCommand::Open);
    assert_eq!(menu_command("quick_check"), MenuCommand::QuickCheck);
    assert_eq!(menu_command("quit"), MenuCommand::Quit);
    assert_eq!(menu_command("settings"), MenuCommand::Unknown);
    assert_eq!(menu_command(""), MenuCommand::Unknown);
    assert_eq!(menu_command("Quit"), MenuCommand::Unknown);
    assert_eq!(route(ShellEvent::Menu(MenuCommand::Unknown), true, true), ShellAction::Ignore);
}

#[test]
fn tray_menu_has_three_enabled_entries() {
    let menu = tray_menu();
    let got: Vec<(String, String, bool)> =
        menu.into_iter().map(|e| (e.id, e.text, e.enabled)).collect();
    assert_eq!(
        got,
        vec![
            ("open".to_string(), "Open Bex".to_string(), true),
            ("quick_check".to_string(), "Quick Check".to_string(), true),
            ("quit".to_string(), "Quit".to_string(), true),
        ]
    );
}

#[test]
fn window_labels_parse() {
    assert_eq!(window_label("main"), WindowLabel::Main);
    assert_eq!(window_label("popup"), WindowLabel::Popup);
    assert_eq!(window_label("Main"), WindowLabel::Other);
    assert_eq!(window_label(""), WindowLabel::Other);
}
