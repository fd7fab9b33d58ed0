use clype_shell::deep_link::on_open_url;
use clype_shell::effect::{Effect, LogLevel, WindowOp};
use clype_shell::notification::show_notification;
use clype_shell::shell::{Event, Shell};
use clype_shell::window::{MainWindow, WindowState};

fn emitted(effects: &[Effect]) -> Vec<(String, String)> {
    let mut found = Vec::new();
    for effect in effects {
        if let Effect::Emit { event, payload } = effect {
            found.push((event.clone(), payload.clone()));
        }
    }
    found
}

#[test]
fn only_the_first_url_of_an_activation_is_forwarded() {
    let urls = vec!["clype://auth?token=abc".to_string(), "clype://ignored".to_string()];
    let effects = on_open_url(&urls, true);
    assert_eq!(
        effects,
        vec![
            Effect::Log {
                level: LogLevel::Info,
                message: "Deep link received: clype://auth?token=abc".to_string(),
            },
            Effect::Emit {
                event: "oauth-callback".to_string(),
                payload: "clype://auth?token=abc".to_string(),
            },
            Effect::Window(WindowOp::Show),
            Effect::Window(WindowOp::SetFocus),
        ]
    );
    assert_eq!(
        emitted(&effects),
        vec![("oauth-callback".to_string(), "clype://auth?token=abc".to_string())]
    );
}

#[test]
fn an_activation_surfaces_a_hidden_window() {
    let mut shell = Shell::new(Some(MainWindow::new(false, true)));
    let event = Event::OpenUrl {
        urls: vec!["clype://auth?token=abc".to_string(), "clype://ignored".to_string()],
    };
    let effects = shell.handle(&event);
    assert_eq!(emitted(&effects).len(), 1);
    assert_eq!(effects[effects.len() - 2], Effect::Window(WindowOp::Show));
    assert_eq!(effects[effects.len() - 1], Effect::Window(WindowOp::SetFocus));
    assert_eq!(shell.window_state(), Some(WindowState::ShownMaximized));
    assert!(shell.is_running());
}

#[test]
fn the_url_is_not_inspected() {
    let urls = vec!["clype://not-an-oauth-callback".to_string()];
    let effects = on_open_url(&urls, true);
    assert_eq!(
        emitted(&effects),
        vec![("oauth-callback".to_string(), "clype://not-an-oauth-callback".to_string())]
    );
    assert_eq!(effects[2], Effect::Window(WindowOp::Show));
    assert_eq!(effects[3], Effect::Window(WindowOp::SetFocus));
    assert_eq!(effects.len(), 4);
}

#[test]
fn an_activation_without_urls_asks_for_nothing() {
    assert_eq!(on_open_url(&Vec::new(), true), Vec::<Effect>::new());
    assert_eq!(on_open_url(&Vec::new(), false), Vec::<Effect>::new());
}

#[test]
fn without_a_window_the_url_is_logged_only() {
    let urls = vec!["clype://auth?code=1".to_string()];
    assert_eq!(
        on_open_url(&urls, false),
        vec![Effect::Log {
            level: LogLevel::Info,
            message: "Deep link received: clype://auth?code=1".to_string(),
        }]
    );
}

#[test]
fn a_notification_carries_title_and_body_unchanged() {
    assert_eq!(
        show_notification("New message".to_string(), "Ada: hello".to_string()),
        vec![Effect::Notify { title: "New message".to_string(), body: "Ada: hello".to_string() }]
    );
}

#[test]
fn an_empty_notification_is_still_submitted() {
    assert_eq!(
        show_notification(String::new(), String::new()),
        vec![Effect::Notify { title: String::new(), body: String::new() }]
    );
}
