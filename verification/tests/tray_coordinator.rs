use clype_shell::effect::{Effect, LogLevel, WindowOp};
use clype_shell::text::same_text;
use clype_shell::tray::{
    on_menu_event, on_tray_icon_event, tray_menu, update_tray_tooltip, MenuEntry, MouseButton,
    MouseButtonState, TrayIconEvent,
};

fn entry(id: &str, label: &str) -> MenuEntry {
    MenuEntry { id: id.to_string(), label: label.to_string(), enabled: true }
}

#[test]
fn the_tray_menu_is_show_hide_quit() {
    assert_eq!(
        tray_menu(),
        vec![entry("show", "Show"), entry("hide", "Hide"), entry("quit", "Quit")]
    );
}

#[test]
fn quit_exits_with_code_zero() {
    assert_eq!(on_menu_event("quit", true), vec![Effect::Exit { code: 0 }]);
}

#[test]
fn quit_does_not_need_a_window() {
    assert_eq!(on_menu_event("quit", false), vec![Effect::Exit { code: 0 }]);
}

#[test]
fn show_shows_and_focuses() {
    assert_eq!(
        on_menu_event("show", true),
        vec![Effect::Window(WindowOp::Show), Effect::Window(WindowOp::SetFocus)]
    );
}

#[test]
fn hide_hides() {
    assert_eq!(on_menu_event("hide", true), vec![Effect::Window(WindowOp::Hide)]);
}

#[test]
fn show_and_hide_without_window_are_no_ops() {
    assert_eq!(on_menu_event("show", false), Vec::<Effect>::new());
    assert_eq!(on_menu_event("hide", false), Vec::<Effect>::new());
}

#[test]
fn unknown_menu_identifiers_are_ignored() {
    for id in ["", "Quit", "QUIT", "quit ", " quit", "qui", "quits", "shows", "hid", "settings", "sh\u{f6}w"] {
        assert_eq!(on_menu_event(id, true), Vec::<Effect>::new(), "id {:?}", id);
        assert_eq!(on_menu_event(id, false), Vec::<Effect>::new(), "id {:?}", id);
    }
}

#[test]
fn left_click_on_release_surfaces_the_window() {
    let click = TrayIconEvent::Click {
        button: MouseButton::Left,
        button_state: MouseButtonState::Up,
    };
    assert_eq!(
        on_tray_icon_event(click, true),
        vec![Effect::Window(WindowOp::Show), Effect::Window(WindowOp::SetFocus)]
    );
    assert_eq!(on_tray_icon_event(click, false), Vec::<Effect>::new());
}

#[test]
fn every_other_tray_event_is_ignored() {
    let others = [
        TrayIconEvent::Click { button: MouseButton::Left, button_state: MouseButtonState::Down },
        TrayIconEvent::Click { button: MouseButton::Right, button_state: MouseButtonState::Up },
        TrayIconEvent::Click { button: MouseButton::Right, button_state: MouseButtonState::Down },
        TrayIconEvent::Click { button: MouseButton::Middle, button_state: MouseButtonState::Up },
        TrayIconEvent::Click { button: MouseButton::Middle, button_state: MouseButtonState::Down },
        TrayIconEvent::DoubleClick { button: MouseButton::Left },
        TrayIconEvent::DoubleClick { button: MouseButton::Right },
        TrayIconEvent::DoubleClick { button: MouseButton::Middle },
        TrayIconEvent::Enter,
        TrayIconEvent::Move,
        TrayIconEvent::Leave,
    ];
    for event in others {
        assert_eq!(on_tray_icon_event(event, true), Vec::<Effect>::new(), "{:?}", event);
        assert_eq!(on_tray_icon_event(event, false), Vec::<Effect>::new(), "{:?}", event);
    }
}

#[test]
fn a_tray_status_is_logged_and_nothing_else() {
    assert_eq!(
        update_tray_tooltip("online".to_string()),
        vec![Effect::Log { level: LogLevel::Info, message: "Tray status: online".to_string() }]
    );
}

#[test]
fn an_empty_tray_status_is_logged_too() {
    assert_eq!(
        update_tray_tooltip(String::new()),
        vec![Effect::Log { level: LogLevel::Info, message: "Tray status: ".to_string() }]
    );
}

#[test]
fn same_text_compares_characters() {
    assert!(same_text("", ""));
    assert!(same_text("quit", "quit"));
    assert!(!same_text("quit", "quiT"));
    assert!(!same_text("quit", "qui"));
    assert!(!same_text("qui", "quit"));
    assert!(!same_text("show", "hide"));
    assert!(same_text("gr\u{fc}n \u{2713}", "gr\u{fc}n \u{2713}"));
    assert!(!same_text("gr\u{fc}n", "grun"));
    assert!(!same_text("\u{e9}", "e\u{301}"));
}
