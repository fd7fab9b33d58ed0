//! The command dispatcher: the operations the frontend can invoke, each
//! routed to the component that carries it out and to nothing else.

use crate::effect::{Effect, EffectView};
use crate::notification::{notification_effects, show_notification};
use crate::tray::{tray_status_effects, update_tray_tooltip};
use crate::window::{
    close_effects, close_window, is_maximized, maximize_effects, maximize_window,
    maximized_answer, minimize_effects, minimize_window,
};
use vstd::prelude::*;

verus! {

/// An operation that the frontend invokes, with its arguments.
#[derive(Clone, Debug, PartialEq, Eq)]
pub enum Command {
    MinimizeWindow,
    MaximizeWindow,
    CloseWindow,
    IsMaximized,
    ShowNotification { title: String, body: String },
    UpdateTrayTooltip { status: String },
}

/// The mathematical value of a [`Command`].
pub enum CommandView {
    MinimizeWindow,
    MaximizeWindow,
    CloseWindow,
    IsMaximized,
    ShowNotification { title: Seq<char>, body: Seq<char> },
    UpdateTrayTooltip { status: Seq<char> },
}

impl View for Command {
    type V = CommandView;

    open spec fn view(&self) -> CommandView {
        match self {
            Command::MinimizeWindow => CommandView::MinimizeWindow,
            Command::MaximizeWindow => CommandView::MaximizeWindow,
            Command::CloseWindow => CommandView::CloseWindow,
            Command::IsMaximized => CommandView::IsMaximized,
            Command::ShowNotification { title, body } => CommandView::ShowNotification {
                title: title@,
                body: body@,
            },
            Command::UpdateTrayTooltip { status } => CommandView::UpdateTrayTooltip {
                status: status@,
            },
        }
    }
}

impl DeepView for Command {
    type V = CommandView;

    open spec fn deep_view(&self) -> CommandView {
        self@
    }
}

/// The name under which the frontend invokes a command.
pub open spec fn command_name(command: CommandView) -> Seq<char> {
    match command {
        CommandView::MinimizeWindow => "minimize_window"@,
        CommandView::MaximizeWindow => "maximize_window"@,
        CommandView::CloseWindow => "close_window"@,
        CommandView::IsMaximized => "is_maximized"@,
        CommandView::ShowNotification { .. } => "show_notification"@,
        CommandView::UpdateTrayTooltip { .. } => "update_tray_tooltip"@,
    }
}

/// What a command asks for: exactly what its target operation asks for.
/// `is_maximized` answers the frontend and asks for nothing else.
pub open spec fn command_effects(
    command: CommandView,
    window_present: bool,
    visible: Option<bool>,
    maximized: Option<bool>,
) -> Seq<EffectView> {
    match command {
        CommandView::MinimizeWindow => minimize_effects(window_present),
        CommandView::MaximizeWindow => maximize_effects(window_present, visible, maximized),
        CommandView::CloseWindow => close_effects(window_present),
        CommandView::IsMaximized => seq![
            EffectView::Reply { value: maximized_answer(window_present, maximized) },
        ],
        CommandView::ShowNotification { title, body } => notification_effects(title, body),
        CommandView::UpdateTrayTooltip { status } => tray_status_effects(status),
    }
}

impl Command {
    /// The name under which the frontend invokes this command.
    pub fn name(&self) -> (name: &'static str)
        ensures
            name@ == command_name(self@),
    {
        match self {
            Command::MinimizeWindow => "minimize_window",
            Command::MaximizeWindow => "maximize_window",
            Command::CloseWindow => "close_window",
            Command::IsMaximized => "is_maximized",
            Command::ShowNotification { .. } => "show_notification",
            Command::UpdateTrayTooltip { .. } => "update_tray_tooltip",
        }
    }
}

/// Routes a command to its operation. The dispatcher keeps no state and adds
/// no logic of its own: the same command on the same window asks for the same.
///
/// `window_present` says whether the lookup found the main window; `visible`
/// and `maximized` are the answers to the two queries, `None` for a query
/// that failed.
pub fn dispatch(
    command: &Command,
    window_present: bool,
    visible: Option<bool>,
    maximized: Option<bool>,
) -> (effects: Vec<Effect>)
    ensures
        effects.deep_view() == command_effects(command@, window_present, visible, maximized),
{
    match command {
        Command::MinimizeWindow => minimize_window(window_present),
        Command::MaximizeWindow => maximize_window(window_present, visible, maximized),
        Command::CloseWindow => close_window(window_present),
        Command::IsMaximized => {
            let value = is_maximized(window_present, maximized);
            let mut effects: Vec<Effect> = Vec::new();
            effects.push(Effect::Reply { value });
            effects
        },
        Command::ShowNotification { title, body } => show_notification(title.clone(), body.clone()),
        Command::UpdateTrayTooltip { status } => update_tray_tooltip(status.clone()),
    }
}

} // verus!
