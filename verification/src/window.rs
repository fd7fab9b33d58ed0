//! The window controller: the main window as the shell sees it, the requests
//! the frontend can make of it, and the interception of its close box.
//!
//! Every operation is a decision over plain values. The caller looks the main
//! window up at the time of the event and says whether it found it; where an
//! operation depends on the visibility or on the maximize state, the caller
//! hands in the answer of the window manager, or `None` when the query failed.

use crate::effect::{no_effects, one_window_op, Effect, EffectView, WindowOp};
use vstd::prelude::*;

verus! {

/// The three states of the main window that the shell distinguishes.
#[derive(Clone, Copy, Debug, PartialEq, Eq, Structural)]
pub enum WindowState {
    Hidden,
    ShownNormal,
    ShownMaximized,
}

/// The main window as the shell sees it: whether it is on screen, and whether
/// it is maximized. The maximize attribute of a shown window is its sub-state,
/// normal or maximized. A hidden window keeps the attribute it was hidden
/// with: the shell asks for no maximize and no restore while the window is
/// hidden, so showing it again brings back the sub-state it had.
#[derive(Clone, Copy, Debug, PartialEq, Eq, Structural)]
pub struct MainWindow {
    pub visible: bool,
    pub maximized: bool,
}

/// An event the window manager reports about the main window.
#[derive(Clone, Copy, Debug, PartialEq, Eq, Structural)]
pub enum WindowEvent {
    Resized,
    Moved,
    CloseRequested,
    Destroyed,
    Focused(bool),
    ScaleFactorChanged,
    DragDrop,
    ThemeChanged,
}

impl MainWindow {
    /// The state of the window, read off its two attributes.
    pub open spec fn state(self) -> WindowState {
        if !self.visible {
            WindowState::Hidden
        } else if self.maximized {
            WindowState::ShownMaximized
        } else {
            WindowState::ShownNormal
        }
    }

    /// The window after the window manager has carried out `op`.
    ///
    /// Showing and hiding change the visibility only, maximizing and restoring
    /// the maximize attribute only. Minimizing and focusing change neither.
    pub open spec fn after(self, op: WindowOp) -> MainWindow {
        match op {
            WindowOp::Show => MainWindow { visible: true, ..self },
            WindowOp::Hide => MainWindow { visible: false, ..self },
            WindowOp::Maximize => MainWindow { maximized: true, ..self },
            WindowOp::Unmaximize => MainWindow { maximized: false, ..self },
            WindowOp::Minimize => self,
            WindowOp::SetFocus => self,
        }
    }

    /// A window with the given attributes.
    pub fn new(visible: bool, maximized: bool) -> (window: MainWindow)
        ensures
            window.visible == visible,
            window.maximized == maximized,
    {
        MainWindow { visible, maximized }
    }

    /// Computes the state of the window.
    pub fn current_state(&self) -> (state: WindowState)
        ensures
            state == self.state(),
    {
        if !self.visible {
            WindowState::Hidden
        } else if self.maximized {
            WindowState::ShownMaximized
        } else {
            WindowState::ShownNormal
        }
    }

    /// Carries out `op` on the window.
    pub fn apply(&mut self, op: WindowOp)
        ensures
            *final(self) == old(self).after(op),
    {
        match op {
            WindowOp::Show => {
                self.visible = true;
            },
            WindowOp::Hide => {
                self.visible = false;
            },
            WindowOp::Maximize => {
                self.maximized = true;
            },
            WindowOp::Unmaximize => {
                self.maximized = false;
            },
            WindowOp::Minimize => {},
            WindowOp::SetFocus => {},
        }
    }
}

/// The label under which the main window is looked up.
pub fn main_window_label() -> (label: &'static str)
    ensures
        label@ == "main"@,
{
    "main"
}

/// What `minimize_window` asks for: a minimize of the window that was found.
pub open spec fn minimize_effects(window_present: bool) -> Seq<EffectView> {
    if window_present {
        seq![EffectView::Window(WindowOp::Minimize)]
    } else {
        Seq::empty()
    }
}

/// The request that toggles the maximize state, given the answer to the query.
/// A query that failed counts as "not maximized".
pub open spec fn toggle_op(maximized: Option<bool>) -> WindowOp {
    if maximized == Some(true) {
        WindowOp::Unmaximize
    } else {
        WindowOp::Maximize
    }
}

/// Whether the toggle may act: there is a window and it is known to be
/// shown. A visibility query that failed counts as "not shown".
pub open spec fn toggle_applies(window_present: bool, visible: Option<bool>) -> bool {
    window_present && visible == Some(true)
}

/// What `maximize_window` asks for: of a window that is shown, restore it if
/// it is maximized and maximize it if it is not; of a hidden window, nothing.
pub open spec fn maximize_effects(
    window_present: bool,
    visible: Option<bool>,
    maximized: Option<bool>,
) -> Seq<EffectView> {
    if toggle_applies(window_present, visible) {
        seq![EffectView::Window(toggle_op(maximized))]
    } else {
        Seq::empty()
    }
}

/// What `close_window` asks for: hide the window that was found.
pub open spec fn close_effects(window_present: bool) -> Seq<EffectView> {
    if window_present {
        seq![EffectView::Window(WindowOp::Hide)]
    } else {
        Seq::empty()
    }
}

/// The answer of `is_maximized`: the maximize state, and `false` where there
/// is no window or the query failed.
pub open spec fn maximized_answer(window_present: bool, maximized: Option<bool>) -> bool {
    window_present && maximized == Some(true)
}

/// What a window event asks for: a close request hides the window and is
/// then cancelled; every other event asks for nothing.
pub open spec fn window_event_effects(event: WindowEvent) -> Seq<EffectView> {
    if event == WindowEvent::CloseRequested {
        seq![EffectView::Window(WindowOp::Hide), EffectView::PreventClose]
    } else {
        Seq::empty()
    }
}

/// What surfacing the window asks for: show it, then request input focus.
pub open spec fn surface_effects(window_present: bool) -> Seq<EffectView> {
    if window_present {
        seq![EffectView::Window(WindowOp::Show), EffectView::Window(WindowOp::SetFocus)]
    } else {
        Seq::empty()
    }
}

/// Brings the main window to the user: shows it and requests input focus,
/// if there is a window.
pub fn surface_window(window_present: bool) -> (effects: Vec<Effect>)
    ensures
        effects.deep_view() == surface_effects(window_present),
{
    if !window_present {
        return no_effects();
    }
    let mut effects: Vec<Effect> = Vec::new();
    effects.push(Effect::Window(WindowOp::Show));
    effects.push(Effect::Window(WindowOp::SetFocus));
    effects
}

/// Minimizes the main window, if there is one.
pub fn minimize_window(window_present: bool) -> (effects: Vec<Effect>)
    ensures
        effects.deep_view() == minimize_effects(window_present),
{
    if window_present {
        one_window_op(WindowOp::Minimize)
    } else {
        no_effects()
    }
}

/// Toggles the main window between maximized and restored, if there is one
/// and it is shown. A hidden window is left as it is: the toggle neither
/// shows it nor changes the sub-state it will come back with.
///
/// `visible` and `maximized` are the window manager's answers to "is the
/// window visible?" and "is the window maximized?", each `None` when the
/// query failed. A failed visibility query is taken as "not shown", so the
/// toggle asks for nothing; a failed maximize query is taken as "not
/// maximized", so the toggle maximizes.
pub fn maximize_window(
    window_present: bool,
    visible: Option<bool>,
    maximized: Option<bool>,
) -> (effects: Vec<Effect>)
    ensures
        effects.deep_view() == maximize_effects(window_present, visible, maximized),
{
    let shown = match visible {
        Some(answer) => answer,
        None => false,
    };
    if !window_present || !shown {
        return no_effects();
    }
    let currently_maximized = match maximized {
        Some(answer) => answer,
        None => false,
    };
    if currently_maximized {
        one_window_op(WindowOp::Unmaximize)
    } else {
        one_window_op(WindowOp::Maximize)
    }
}

/// Hides the main window, if there is one. This is what the frontend's own
/// "close" does: the window leaves the screen and the process lives on.
pub fn close_window(window_present: bool) -> (effects: Vec<Effect>)
    ensures
        effects.deep_view() == close_effects(window_present),
{
    if window_present {
        one_window_op(WindowOp::Hide)
    } else {
        no_effects()
    }
}

/// Says whether the main window is maximized; `false` where there is no
/// window or the query failed.
pub fn is_maximized(window_present: bool, maximized: Option<bool>) -> (answer: bool)
    ensures
        answer == maximized_answer(window_present, maximized),
{
    if !window_present {
        return false;
    }
    match maximized {
        Some(answer) => answer,
        None => false,
    }
}

/// Reacts to an event of the main window. A close request never closes the
/// window: the window is hidden and the request is cancelled.
pub fn on_window_event(event: WindowEvent) -> (effects: Vec<Effect>)
    ensures
        effects.deep_view() == window_event_effects(event),
{
    match event {
        WindowEvent::CloseRequested => {
            let mut effects: Vec<Effect> = Vec::new();
            effects.push(Effect::Window(WindowOp::Hide));
            effects.push(Effect::PreventClose);
            effects
        },
        _ => no_effects(),
    }
}

} // verus!
