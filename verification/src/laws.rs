//! What holds of every shell, every window and every run of events.
//!
//! Each law is a proof over the definitions that the contracts of the
//! executable functions use: [`Shell::after`] is what [`Shell::handle`] does,
//! [`Shell::after_all`] what [`Shell::handle_all`] does.

use crate::command::CommandView;
use crate::deep_link::{oauth_callback_event, open_url_effects};
use crate::effect::{EffectView, WindowOp};
use crate::shell::{EventView, Shell};
use crate::tray::{
    is_activation, lemma_menu_identifiers_differ, MouseButton, MouseButtonState, TrayIconEvent,
};
use crate::window::{MainWindow, WindowEvent, WindowState};
use vstd::prelude::*;

verus! {

/// The visibility that an event asks for: `Some(true)` for an event that
/// shows the window, `Some(false)` for one that hides it, `None` for an event
/// that leaves the visibility alone.
pub open spec fn visibility_request(event: EventView) -> Option<bool> {
    match event {
        EventView::Menu { id } => if id == "show"@ {
            Some(true)
        } else if id == "hide"@ {
            Some(false)
        } else {
            None
        },
        EventView::TrayIcon(event) => if is_activation(event) {
            Some(true)
        } else {
            None
        },
        EventView::Window(event) => if event == WindowEvent::CloseRequested {
            Some(false)
        } else {
            None
        },
        EventView::Invoke(command) => if command is CloseWindow {
            Some(false)
        } else {
            None
        },
        EventView::OpenUrl { urls } => if urls.len() > 0 {
            Some(true)
        } else {
            None
        },
    }
}

/// Whether the event is the selection of the tray menu's "quit".
pub open spec fn is_quit(event: EventView) -> bool {
    event matches EventView::Menu { id } && id == "quit"@
}

/// The frontend's command to toggle the maximize state, as an event.
pub open spec fn toggle_maximize() -> EventView {
    EventView::Invoke(CommandView::MaximizeWindow)
}

/// The visibility that the last event with a visibility request asks for.
pub open spec fn last_visibility_request(events: Seq<EventView>) -> Option<bool>
    decreases events.len(),
{
    if events.len() == 0 {
        None
    } else {
        match visibility_request(events.last()) {
            Some(visible) => Some(visible),
            None => last_visibility_request(events.drop_last()),
        }
    }
}

/// How many messages to the frontend a list of effects holds.
pub open spec fn emitted(effects: Seq<EffectView>) -> nat
    decreases effects.len(),
{
    if effects.len() == 0 {
        0
    } else {
        emitted(effects.drop_last()) + if effects.last() is Emit {
            1nat
        } else {
            0nat
        }
    }
}

/// An event that asks for a visibility is not the menu's "quit": the three
/// identifiers of the tray menu differ.
pub proof fn lemma_visibility_requests_do_not_quit(event: EventView)
    requires
        visibility_request(event) is Some,
    ensures
        !is_quit(event),
{
    lemma_menu_identifiers_differ();
}

/// Carrying out a short list of effects is carrying out its members one
/// after the other.
pub proof fn lemma_performed_short(shell: Shell, effects: Seq<EffectView>)
    ensures
        effects.len() == 0 ==> shell.performed_all(effects) == shell,
        effects.len() == 1 ==> shell.performed_all(effects) == shell.performed(effects[0]),
        effects.len() == 2 ==> shell.performed_all(effects) == shell.performed(
            effects[0],
        ).performed(effects[1]),
        effects.len() == 3 ==> shell.performed_all(effects) == shell.performed(
            effects[0],
        ).performed(effects[1]).performed(effects[2]),
        effects.len() == 4 ==> shell.performed_all(effects) == shell.performed(
            effects[0],
        ).performed(effects[1]).performed(effects[2]).performed(effects[3]),
{
    reveal_with_fuel(Shell::performed_all, 5);
}

/// Nothing is carried out in a process that has exited.
pub proof fn lemma_performed_after_exit(shell: Shell, effects: Seq<EffectView>)
    requires
        !shell.running(),
    ensures
        shell.performed_all(effects) == shell,
    decreases effects.len(),
{
    if effects.len() > 0 {
        lemma_performed_after_exit(shell, effects.drop_last());
    }
}

/// Carrying out effects neither makes nor destroys the window, and leaves the
/// tray and the deep-link registration as they are.
pub proof fn lemma_performed_keeps_parts(shell: Shell, effects: Seq<EffectView>)
    ensures
        shell.performed_all(effects).window is Some <==> shell.window is Some,
        shell.performed_all(effects).tray_installed == shell.tray_installed,
        shell.performed_all(effects).deep_links_registered == shell.deep_links_registered,
    decreases effects.len(),
{
    if effects.len() > 0 {
        lemma_performed_keeps_parts(shell, effects.drop_last());
    }
}

/// What one event does to the visibility of a live shell's window: an event
/// with a visibility request sets it to the request, any other event but
/// "quit" leaves it as it was. The process stays alive and keeps its window.
pub proof fn lemma_event_sets_visibility(shell: Shell, event: EventView)
    requires
        shell.running(),
        shell.window is Some,
        !is_quit(event),
    ensures
        shell.after(event).running(),
        shell.after(event).window is Some,
        shell.after(event).window->0.visible == match visibility_request(event) {
            Some(visible) => visible,
            None => shell.window->0.visible,
        },
{
    lemma_performed_short(shell, shell.effects_of(event));
}

/// After any run of events without a "quit", the window is visible exactly
/// if the last event that asked for a visibility asked to show it; if no
/// event asked, the visibility is what it was. A shell without a window
/// stays without one, and a process that has exited is not changed.
pub proof fn lemma_visibility_follows_last_request(shell: Shell, events: Seq<EventView>)
    requires
        forall|i: int| 0 <= i < events.len() ==> !is_quit(#[trigger] events[i]),
    ensures
        shell.after_all(events).running() == shell.running(),
        !shell.running() ==> shell.after_all(events) == shell,
        match shell.window {
            None => shell.after_all(events).window is None,
            Some(window) => shell.after_all(events).window is Some && (shell.running()
                ==> shell.after_all(events).window->0.visible == match last_visibility_request(
                events,
            ) {
                Some(visible) => visible,
                None => window.visible,
            }),
        },
    decreases events.len(),
{
    if events.len() > 0 {
        let before = events.drop_last();
        let middle = shell.after_all(before);
        lemma_visibility_follows_last_request(shell, before);
        if !middle.running() || middle.window is None {
            lemma_performed_keeps_parts(middle, middle.effects_of(events.last()));
            lemma_performed_short(middle, middle.effects_of(events.last()));
        } else {
            lemma_event_sets_visibility(middle, events.last());
        }
    }
}

/// In a run of show and hide requests alone, the window ends up as the last
/// of them asks: shown after a show, hidden after a hide.
pub proof fn lemma_last_show_or_hide_wins(shell: Shell, events: Seq<EventView>)
    requires
        shell.running(),
        shell.window is Some,
        events.len() > 0,
        forall|i: int| 0 <= i < events.len() ==> visibility_request(#[trigger] events[i]) is Some,
    ensures
        shell.after_all(events).running(),
        shell.after_all(events).window is Some,
        Some(shell.after_all(events).window->0.visible) == visibility_request(events.last()),
{
    assert forall|i: int| 0 <= i < events.len() implies !is_quit(#[trigger] events[i]) by {
        lemma_visibility_requests_do_not_quit(events[i]);
    }
    lemma_visibility_follows_last_request(shell, events);
}

/// Whether the shell is alive and its window is there and shown: the one
/// situation in which the toggle of the maximize state acts.
pub open spec fn window_is_shown(shell: Shell) -> bool {
    shell.running() && shell.window is Some && shell.window->0.visible
}

/// Toggling the maximize state of a shown window flips its maximize
/// attribute and leaves it shown; toggling twice gives back the shell one
/// started from. A hidden window is not touched by the toggle, nor is a
/// shell without a window or a process that has exited.
pub proof fn lemma_toggle_maximize_is_involution(shell: Shell)
    ensures
        shell.after(toggle_maximize()).after(toggle_maximize()) == shell,
        window_is_shown(shell) ==> shell.after(toggle_maximize()) == (Shell {
            window: Some(MainWindow { visible: true, maximized: !shell.window->0.maximized }),
            ..shell
        }),
        !window_is_shown(shell) ==> shell.after(toggle_maximize()) == shell,
{
    let once = shell.after(toggle_maximize());
    lemma_performed_short(shell, shell.effects_of(toggle_maximize()));
    lemma_performed_short(once, once.effects_of(toggle_maximize()));
}

/// A toggle while the window is hidden is lost: it asks for nothing, and the
/// window comes back, when it is shown, in the sub-state it was hidden with.
pub proof fn lemma_toggle_leaves_hidden_window_alone(shell: Shell, show: EventView)
    requires
        shell.running(),
        shell.window is Some,
        !shell.window->0.visible,
        visibility_request(show) == Some(true),
    ensures
        shell.effects_of(toggle_maximize()) == Seq::<EffectView>::empty(),
        shell.after(toggle_maximize()) == shell,
        shell.after(toggle_maximize()).after(show).window == Some(
            MainWindow { visible: true, maximized: shell.window->0.maximized },
        ),
{
    lemma_toggle_maximize_is_involution(shell);
    lemma_visibility_requests_do_not_quit(show);
    lemma_performed_short(shell, shell.effects_of(show));
}

/// The maximize attribute changes by nothing but the toggle, and by the
/// toggle only while the window is shown: every other event, and every event
/// that meets a hidden window, leaves the attribute as it was.
pub proof fn lemma_only_toggle_of_shown_window_changes_sub_state(shell: Shell, event: EventView)
    requires
        shell.window is Some,
    ensures
        shell.after(event).window is Some,
        shell.after(event).window->0.maximized != shell.window->0.maximized ==> event
            == toggle_maximize() && window_is_shown(shell),
{
    lemma_performed_short(shell, shell.effects_of(event));
}

/// A toggle of the maximize state moves a shown window between
/// `ShownNormal` and `ShownMaximized`, and leaves a hidden window `Hidden`.
pub proof fn lemma_toggle_moves_between_shown_states(shell: Shell)
    requires
        shell.running(),
        shell.window is Some,
    ensures
        shell.after(toggle_maximize()).window is Some,
        shell.after(toggle_maximize()).window->0.state() == match shell.window->0.state() {
            WindowState::Hidden => WindowState::Hidden,
            WindowState::ShownNormal => WindowState::ShownMaximized,
            WindowState::ShownMaximized => WindowState::ShownNormal,
        },
{
    lemma_toggle_maximize_is_involution(shell);
}

/// The tray menu's "quit" ends the process, whatever the shell was: a live
/// process exits with code 0 and is asked for nothing but that; a process
/// that had exited stays exited.
pub proof fn lemma_quit_terminates(shell: Shell, event: EventView)
    requires
        is_quit(event),
    ensures
        !shell.after(event).running(),
        shell.running() ==> shell.effects_of(event) == seq![EffectView::Exit { code: 0 }],
        shell.running() ==> shell.after(event) == (Shell { exit_code: Some(0), ..shell }),
        !shell.running() ==> shell.after(event) == shell,
{
    lemma_performed_short(shell, shell.effects_of(event));
}

/// Once the process has exited, no run of events changes the shell or asks
/// for anything.
pub proof fn lemma_exit_is_final(shell: Shell, events: Seq<EventView>)
    requires
        !shell.running(),
    ensures
        shell.after_all(events) == shell,
        shell.trace(events) == Seq::<EffectView>::empty(),
    decreases events.len(),
{
    if events.len() > 0 {
        lemma_exit_is_final(shell, events.drop_last());
        lemma_performed_short(shell, shell.effects_of(events.last()));
    }
}

/// What one event does to the life of a live process: it ends it, with exit
/// code 0, exactly if it is the menu's "quit".
pub proof fn lemma_event_ends_process_iff_quit(shell: Shell, event: EventView)
    requires
        shell.running(),
    ensures
        shell.after(event).running() <==> !is_quit(event),
        is_quit(event) ==> shell.after(event).exit_code == Some(0i32),
{
    lemma_performed_short(shell, shell.effects_of(event));
}

/// Only "quit" ends the process: after a run of events a process that was
/// alive is still alive exactly if none of them was the menu's "quit", and
/// if it has exited, then with exit code 0.
pub proof fn lemma_only_quit_ends_the_process(shell: Shell, events: Seq<EventView>)
    requires
        shell.running(),
    ensures
        shell.after_all(events).running() <==> forall|i: int|
            0 <= i < events.len() ==> !is_quit(#[trigger] events[i]),
        !shell.after_all(events).running() ==> shell.after_all(events).exit_code == Some(0i32),
    decreases events.len(),
{
    if events.len() > 0 {
        let before = events.drop_last();
        let middle = shell.after_all(before);
        lemma_only_quit_ends_the_process(shell, before);
        if middle.running() {
            lemma_event_ends_process_iff_quit(middle, events.last());
            assert forall|i: int| 0 <= i < before.len() implies !is_quit(
                #[trigger] events[i],
            ) by {
                assert(before[i] == events[i]);
            }
        } else {
            lemma_performed_short(middle, middle.effects_of(events.last()));
            let i = choose|i: int| 0 <= i < before.len() && is_quit(#[trigger] before[i]);
        }
    }
}

/// The main window is never destroyed and never made by an event, and the
/// tray and the deep-link registration last as long as the process: after
/// any run of events the shell has the parts it had.
pub proof fn lemma_parts_last_for_the_process(shell: Shell, events: Seq<EventView>)
    ensures
        shell.after_all(events).window is Some <==> shell.window is Some,
        shell.after_all(events).tray_installed == shell.tray_installed,
        shell.after_all(events).deep_links_registered == shell.deep_links_registered,
    decreases events.len(),
{
    if events.len() > 0 {
        let middle = shell.after_all(events.drop_last());
        lemma_parts_last_for_the_process(shell, events.drop_last());
        lemma_performed_keeps_parts(middle, middle.effects_of(events.last()));
    }
}

/// A close request never ends the process: the exit state is what it was.
/// In a live shell the window, if there is one, is hidden with its maximize
/// attribute kept, and the request itself is cancelled.
pub proof fn lemma_close_request_hides_and_keeps_alive(shell: Shell)
    ensures
        shell.after(EventView::Window(WindowEvent::CloseRequested)).exit_code == shell.exit_code,
        shell.running() ==> shell.effects_of(EventView::Window(WindowEvent::CloseRequested))
            == seq![EffectView::Window(WindowOp::Hide), EffectView::PreventClose],
        shell.running() ==> match shell.window {
            Some(window) => shell.after(EventView::Window(WindowEvent::CloseRequested)).window
                == Some(MainWindow { visible: false, maximized: window.maximized }),
            None => shell.after(EventView::Window(WindowEvent::CloseRequested)).window is None,
        },
        shell.running() && shell.window is Some ==> shell.after(
            EventView::Window(WindowEvent::CloseRequested),
        ).window->0.state() == WindowState::Hidden,
{
    let event = EventView::Window(WindowEvent::CloseRequested);
    lemma_performed_short(shell, shell.effects_of(event));
}

/// Asked right after a toggle of a shown window that was not maximized,
/// `is_maximized` answers `true`; asked again after a second toggle, it
/// answers `false`.
pub proof fn lemma_is_maximized_follows_toggle(shell: Shell)
    requires
        shell.running(),
        shell.window is Some,
        shell.window->0.visible,
        !shell.window->0.maximized,
    ensures
        shell.after(toggle_maximize()).effects_of(EventView::Invoke(CommandView::IsMaximized))
            == seq![EffectView::Reply { value: true }],
        shell.after(toggle_maximize()).after(toggle_maximize()).effects_of(
            EventView::Invoke(CommandView::IsMaximized),
        ) == seq![EffectView::Reply { value: false }],
{
    lemma_toggle_maximize_is_involution(shell);
}

/// Asking whether the window is maximized changes nothing.
pub proof fn lemma_is_maximized_changes_nothing(shell: Shell)
    ensures
        shell.after(EventView::Invoke(CommandView::IsMaximized)) == shell,
{
    let event = EventView::Invoke(CommandView::IsMaximized);
    lemma_performed_short(shell, shell.effects_of(event));
}

/// Invoking a command twice leaves the shell where invoking it once leaves
/// it, for every command but the toggle of the maximize state, whose own
/// meaning is to alternate. Hiding twice, for one, is hiding once.
pub proof fn lemma_commands_do_not_compound(shell: Shell, command: CommandView)
    requires
        !(command is MaximizeWindow),
    ensures
        shell.after(EventView::Invoke(command)).after(EventView::Invoke(command)) == shell.after(
            EventView::Invoke(command),
        ),
{
    let event = EventView::Invoke(command);
    let once = shell.after(event);
    lemma_performed_short(shell, shell.effects_of(event));
    lemma_performed_short(once, once.effects_of(event));
}

/// A left click on the tray icon, on release, asks to show and to focus the
/// window, and leaves a live shell's window shown in the maximize sub-state
/// it had; from `Hidden` it comes to `ShownNormal` or `ShownMaximized`.
pub proof fn lemma_tray_click_surfaces_window(shell: Shell, event: TrayIconEvent)
    requires
        shell.running(),
        shell.window is Some,
        is_activation(event),
    ensures
        shell.effects_of(EventView::TrayIcon(event)) == seq![
            EffectView::Window(WindowOp::Show),
            EffectView::Window(WindowOp::SetFocus),
        ],
        shell.after(EventView::TrayIcon(event)) == (Shell {
            window: Some(MainWindow { visible: true, maximized: shell.window->0.maximized }),
            ..shell
        }),
        shell.after(EventView::TrayIcon(event)).window->0.state() != WindowState::Hidden,
{
    lemma_performed_short(shell, shell.effects_of(EventView::TrayIcon(event)));
}

/// Every other event on the tray icon asks for nothing and changes nothing:
/// a click of the right or the middle button, a button going down, a double
/// click, the pointer entering, moving or leaving.
pub proof fn lemma_other_tray_events_are_ignored(shell: Shell, event: TrayIconEvent)
    requires
        !is_activation(event),
    ensures
        shell.effects_of(EventView::TrayIcon(event)) == Seq::<EffectView>::empty(),
        shell.after(EventView::TrayIcon(event)) == shell,
{
    lemma_performed_short(shell, shell.effects_of(EventView::TrayIcon(event)));
}

/// A click of the right button on the tray icon, going down or coming up,
/// asks for nothing and leaves the shell as it is.
pub proof fn lemma_right_click_changes_nothing(shell: Shell, button_state: MouseButtonState)
    ensures
        shell.effects_of(
            EventView::TrayIcon(TrayIconEvent::Click { button: MouseButton::Right, button_state }),
        ) == Seq::<EffectView>::empty(),
        shell.after(
            EventView::TrayIcon(TrayIconEvent::Click { button: MouseButton::Right, button_state }),
        ) == shell,
{
    lemma_other_tray_events_are_ignored(
        shell,
        TrayIconEvent::Click { button: MouseButton::Right, button_state },
    );
}

/// Showing the window keeps the maximize sub-state: a shown window that is
/// hidden and then shown, by whichever events, is again as it was.
pub proof fn lemma_hide_then_show_restores(shell: Shell, hide: EventView, show: EventView)
    requires
        shell.running(),
        shell.window is Some,
        shell.window->0.visible,
        visibility_request(hide) == Some(false),
        visibility_request(show) == Some(true),
    ensures
        shell.after(hide).window is Some,
        shell.after(hide).window->0.state() == WindowState::Hidden,
        shell.after(hide).after(show) == shell,
{
    lemma_visibility_requests_do_not_quit(hide);
    lemma_visibility_requests_do_not_quit(show);
    let hidden = shell.after(hide);
    lemma_performed_short(shell, shell.effects_of(hide));
    lemma_performed_short(hidden, hidden.effects_of(show));
}

/// An activation of the URL scheme emits at most one message: none without
/// a URL or without a window, else exactly one, named "oauth-callback" and
/// carrying the first URL as it came.
pub proof fn lemma_one_callback_per_activation(urls: Seq<Seq<char>>, window_present: bool)
    ensures
        emitted(open_url_effects(urls, window_present)) == if urls.len() > 0 && window_present {
            1nat
        } else {
            0nat
        },
        urls.len() > 0 && window_present ==> open_url_effects(urls, window_present)[1] == (
        EffectView::Emit { event: oauth_callback_event(), payload: urls[0] }),
{
    reveal_with_fuel(emitted, 5);
}

/// An activation of the URL scheme with at least one URL leaves a live
/// shell's window shown, in the maximize sub-state it had.
pub proof fn lemma_activation_surfaces_window(shell: Shell, urls: Seq<Seq<char>>)
    requires
        shell.running(),
        shell.window is Some,
        urls.len() > 0,
    ensures
        shell.after(EventView::OpenUrl { urls }) == (Shell {
            window: Some(MainWindow { visible: true, maximized: shell.window->0.maximized }),
            ..shell
        }),
{
    lemma_performed_short(shell, shell.effects_of(EventView::OpenUrl { urls }));
}

} // verus!
