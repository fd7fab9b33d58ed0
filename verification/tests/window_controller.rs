use clype_shell::effect::{Effect, WindowOp};
use clype_shell::window::{
    close_window, is_maximized, main_window_label, maximize_window, minimize_window,
    on_window_event, surface_window, MainWindow, WindowEvent, WindowState,
};

#[test]
fn minimize_asks_for_one_minimize() {
    assert_eq!(minimize_window(true), vec![Effect::Window(WindowOp::Minimize)]);
}

#[test]
fn minimize_without_window_is_a_no_op() {
    assert_eq!(minimize_window(false), Vec::<Effect>::new());
}

#[test]
fn maximize_window_maximizes_a_normal_window() {
    assert_eq!(
        maximize_window(true, Some(true), Some(false)),
        vec![Effect::Window(WindowOp::Maximize)]
    );
}

#[test]
fn maximize_window_restores_a_maximized_window() {
    assert_eq!(
        maximize_window(true, Some(true), Some(true)),
        vec![Effect::Window(WindowOp::Unmaximize)]
    );
}

#[test]
fn maximize_window_takes_a_failed_query_as_not_maximized() {
    assert_eq!(maximize_window(true, Some(true), None), vec![Effect::Window(WindowOp::Maximize)]);
}

#[test]
fn maximize_window_leaves_a_hidden_window_alone() {
    assert_eq!(maximize_window(true, Some(false), Some(false)), Vec::<Effect>::new());
    assert_eq!(maximize_window(true, Some(false), Some(true)), Vec::<Effect>::new());
    assert_eq!(maximize_window(true, Some(false), None), Vec::<Effect>::new());
}

#[test]
fn maximize_window_takes_a_failed_visibility_query_as_not_shown() {
    assert_eq!(maximize_window(true, None, Some(false)), Vec::<Effect>::new());
    assert_eq!(maximize_window(true, None, Some(true)), Vec::<Effect>::new());
    assert_eq!(maximize_window(true, None, None), Vec::<Effect>::new());
}

#[test]
fn maximize_window_without_window_is_a_no_op() {
    for visible in [None, Some(false), Some(true)] {
        for maximized in [None, Some(false), Some(true)] {
            assert_eq!(maximize_window(false, visible, maximized), Vec::<Effect>::new());
        }
    }
}

#[test]
fn close_window_hides() {
    assert_eq!(close_window(true), vec![Effect::Window(WindowOp::Hide)]);
    assert_eq!(close_window(false), Vec::<Effect>::new());
}

#[test]
fn is_maximized_reports_the_query() {
    assert!(is_maximized(true, Some(true)));
    assert!(!is_maximized(true, Some(false)));
}

#[test]
fn is_maximized_defaults_to_false() {
    assert!(!is_maximized(true, None));
    assert!(!is_maximized(false, Some(true)));
    assert!(!is_maximized(false, None));
}

#[test]
fn surface_shows_then_focuses() {
    assert_eq!(
        surface_window(true),
        vec![Effect::Window(WindowOp::Show), Effect::Window(WindowOp::SetFocus)]
    );
    assert_eq!(surface_window(false), Vec::<Effect>::new());
}

#[test]
fn close_request_hides_and_is_cancelled() {
    assert_eq!(
        on_window_event(WindowEvent::CloseRequested),
        vec![Effect::Window(WindowOp::Hide), Effect::PreventClose]
    );
}

#[test]
fn other_window_events_ask_for_nothing() {
    let others = [
        WindowEvent::Resized,
        WindowEvent::Moved,
        WindowEvent::Destroyed,
        WindowEvent::Focused(true),
        WindowEvent::Focused(false),
        WindowEvent::ScaleFactorChanged,
        WindowEvent::DragDrop,
        WindowEvent::ThemeChanged,
    ];
    for event in others {
        assert_eq!(on_window_event(event), Vec::<Effect>::new());
    }
}

#[test]
fn the_main_window_is_called_main() {
    assert_eq!(main_window_label(), "main");
}

#[test]
fn window_states_follow_the_attributes() {
    assert_eq!(MainWindow::new(false, false).current_state(), WindowState::Hidden);
    assert_eq!(MainWindow::new(false, true).current_state(), WindowState::Hidden);
    assert_eq!(MainWindow::new(true, false).current_state(), WindowState::ShownNormal);
    assert_eq!(MainWindow::new(true, true).current_state(), WindowState::ShownMaximized);
}

#[test]
fn show_and_hide_change_the_visibility_only() {
    let mut window = MainWindow::new(false, true);
    window.apply(WindowOp::Show);
    assert_eq!(window, MainWindow { visible: true, maximized: true });
    window.apply(WindowOp::Hide);
    assert_eq!(window, MainWindow { visible: false, maximized: true });
    window.apply(WindowOp::Hide);
    assert_eq!(window, MainWindow { visible: false, maximized: true });
}

#[test]
fn maximize_and_unmaximize_change_the_maximize_attribute_only() {
    let mut window = MainWindow::new(true, false);
    window.apply(WindowOp::Maximize);
    assert_eq!(window, MainWindow { visible: true, maximized: true });
    window.apply(WindowOp::Unmaximize);
    assert_eq!(window, MainWindow { visible: true, maximized: false });
    let mut hidden = MainWindow::new(false, false);
    hidden.apply(WindowOp::Maximize);
    assert_eq!(hidden, MainWindow { visible: false, maximized: true });
    assert_eq!(hidden.current_state(), WindowState::Hidden);
}

#[test]
fn minimize_and_focus_leave_the_state_alone() {
    for visible in [false, true] {
        for maximized in [false, true] {
            let mut window = MainWindow::new(visible, maximized);
            window.apply(WindowOp::Minimize);
            assert_eq!(window, MainWindow { visible, maximized });
            window.apply(WindowOp::SetFocus);
            assert_eq!(window, MainWindow { visible, maximized });
        }
    }
}
