use clype_shell::command::{dispatch, Command};
use clype_shell::effect::{Effect, LogLevel, WindowOp};
use clype_shell::shell::{route, Event};
use clype_shell::tray::{MouseButton, MouseButtonState, TrayIconEvent};
use clype_shell::window::WindowEvent;

#[test]
fn commands_carry_their_frontend_names() {
    assert_eq!(Command::MinimizeWindow.name(), "minimize_window");
    assert_eq!(Command::MaximizeWindow.name(), "maximize_window");
    assert_eq!(Command::CloseWindow.name(), "close_window");
    assert_eq!(Command::IsMaximized.name(), "is_maximized");
    assert_eq!(
        Command::ShowNotification { title: "t".to_string(), body: "b".to_string() }.name(),
        "show_notification"
    );
    assert_eq!(
        Command::UpdateTrayTooltip { status: "s".to_string() }.name(),
        "update_tray_tooltip"
    );
}

#[test]
fn window_commands_go_to_the_window_controller() {
    assert_eq!(
        dispatch(&Command::MinimizeWindow, true, Some(true), None),
        vec![Effect::Window(WindowOp::Minimize)]
    );
    assert_eq!(
        dispatch(&Command::MaximizeWindow, true, Some(true), Some(false)),
        vec![Effect::Window(WindowOp::Maximize)]
    );
    assert_eq!(
        dispatch(&Command::MaximizeWindow, true, Some(true), Some(true)),
        vec![Effect::Window(WindowOp::Unmaximize)]
    );
    assert_eq!(
        dispatch(&Command::CloseWindow, true, Some(true), None),
        vec![Effect::Window(WindowOp::Hide)]
    );
}

#[test]
fn the_toggle_command_leaves_a_hidden_window_alone() {
    assert_eq!(
        dispatch(&Command::MaximizeWindow, true, Some(false), Some(false)),
        Vec::<Effect>::new()
    );
    assert_eq!(
        dispatch(&Command::MaximizeWindow, true, Some(false), Some(true)),
        Vec::<Effect>::new()
    );
    assert_eq!(dispatch(&Command::MaximizeWindow, true, None, Some(false)), Vec::<Effect>::new());
    assert_eq!(
        route(&Event::Invoke(Command::MaximizeWindow), true, Some(false), Some(false)),
        Vec::<Effect>::new()
    );
    assert_eq!(
        route(&Event::Invoke(Command::MaximizeWindow), true, Some(true), Some(false)),
        vec![Effect::Window(WindowOp::Maximize)]
    );
}

#[test]
fn the_other_commands_do_not_read_the_visibility() {
    for visible in [None, Some(false), Some(true)] {
        assert_eq!(
            dispatch(&Command::MinimizeWindow, true, visible, None),
            vec![Effect::Window(WindowOp::Minimize)]
        );
        assert_eq!(
            dispatch(&Command::CloseWindow, true, visible, None),
            vec![Effect::Window(WindowOp::Hide)]
        );
        assert_eq!(
            dispatch(&Command::IsMaximized, true, visible, Some(true)),
            vec![Effect::Reply { value: true }]
        );
    }
}

#[test]
fn window_commands_without_window_are_no_ops() {
    assert_eq!(dispatch(&Command::MinimizeWindow, false, None, None), Vec::<Effect>::new());
    assert_eq!(dispatch(&Command::MaximizeWindow, false, None, None), Vec::<Effect>::new());
    assert_eq!(dispatch(&Command::CloseWindow, false, None, None), Vec::<Effect>::new());
}

#[test]
fn is_maximized_answers_the_frontend() {
    assert_eq!(
        dispatch(&Command::IsMaximized, true, Some(true), Some(true)),
        vec![Effect::Reply { value: true }]
    );
    assert_eq!(
        dispatch(&Command::IsMaximized, true, Some(true), Some(false)),
        vec![Effect::Reply { value: false }]
    );
    assert_eq!(
        dispatch(&Command::IsMaximized, true, Some(true), None),
        vec![Effect::Reply { value: false }]
    );
    assert_eq!(
        dispatch(&Command::IsMaximized, false, None, Some(true)),
        vec![Effect::Reply { value: false }]
    );
}

#[test]
fn show_notification_goes_to_the_notification_dispatcher() {
    let command =
        Command::ShowNotification { title: "Build".to_string(), body: "finished".to_string() };
    let wanted =
        vec![Effect::Notify { title: "Build".to_string(), body: "finished".to_string() }];
    assert_eq!(dispatch(&command, true, Some(true), None), wanted);
    assert_eq!(dispatch(&command, false, None, None), wanted);
}

#[test]
fn update_tray_tooltip_only_logs() {
    let command = Command::UpdateTrayTooltip { status: "3 unread".to_string() };
    let wanted = vec![Effect::Log {
        level: LogLevel::Info,
        message: "Tray status: 3 unread".to_string(),
    }];
    assert_eq!(dispatch(&command, true, Some(true), Some(true)), wanted);
    assert_eq!(dispatch(&command, false, None, None), wanted);
}

#[test]
fn dispatching_twice_asks_for_the_same() {
    let command = Command::CloseWindow;
    assert_eq!(
        dispatch(&command, true, Some(true), Some(false)),
        dispatch(&command, true, Some(true), Some(false))
    );
}

#[test]
fn route_sends_each_event_to_its_component() {
    assert_eq!(
        route(&Event::Invoke(Command::CloseWindow), true, Some(true), None),
        vec![Effect::Window(WindowOp::Hide)]
    );
    assert_eq!(
        route(&Event::Menu { id: "quit".to_string() }, true, Some(true), None),
        vec![Effect::Exit { code: 0 }]
    );
    assert_eq!(
        route(
            &Event::TrayIcon(TrayIconEvent::Click {
                button: MouseButton::Left,
                button_state: MouseButtonState::Up,
            }),
            true,
            Some(true),
            None
        ),
        vec![Effect::Window(WindowOp::Show), Effect::Window(WindowOp::SetFocus)]
    );
    assert_eq!(
        route(&Event::Window(WindowEvent::CloseRequested), true, Some(true), None),
        vec![Effect::Window(WindowOp::Hide), Effect::PreventClose]
    );
    assert_eq!(
        route(&Event::OpenUrl { urls: vec!["clype://x".to_string()] }, false, None, None),
        vec![Effect::Log {
            level: LogLevel::Info,
            message: "Deep link received: clype://x".to_string(),
        }]
    );
}
