//! What the shell asks of its surroundings: requests to the main window,
//! messages to the frontend, notifications, log lines and process exit.

use vstd::prelude::*;

verus! {

/// A request to the window manager about the main window.
#[derive(Clone, Copy, Debug, PartialEq, Eq, Structural)]
pub enum WindowOp {
    Minimize,
    Maximize,
    Unmaximize,
    Show,
    Hide,
    SetFocus,
}

/// Where a log line goes: the ordinary developer log or the error log.
#[derive(Clone, Copy, Debug, PartialEq, Eq, Structural)]
pub enum LogLevel {
    Info,
    Error,
}

/// One thing the embedding event loop has to carry out, in the order given.
#[derive(Clone, Debug, PartialEq, Eq)]
pub enum Effect {
    /// Perform a request on the main window; a failure is ignored.
    Window(WindowOp),
    /// Emit a named message with a string payload to the frontend.
    Emit { event: String, payload: String },
    /// Submit a notification to the operating system; a failure is ignored.
    Notify { title: String, body: String },
    /// Write a line to a developer-facing log.
    Log { level: LogLevel, message: String },
    /// The value a command hands back to the frontend.
    Reply { value: bool },
    /// Keep the window alive although its close box was used.
    PreventClose,
    /// Terminate the process with the given exit code.
    Exit { code: i32 },
}

/// The mathematical value of an [`Effect`]: strings are sequences of characters.
pub enum EffectView {
    Window(WindowOp),
    Emit { event: Seq<char>, payload: Seq<char> },
    Notify { title: Seq<char>, body: Seq<char> },
    Log { level: LogLevel, message: Seq<char> },
    Reply { value: bool },
    PreventClose,
    Exit { code: i32 },
}

impl View for Effect {
    type V = EffectView;

    open spec fn view(&self) -> EffectView {
        match self {
            Effect::Window(op) => EffectView::Window(*op),
            Effect::Emit { event, payload } => EffectView::Emit {
                event: event@,
                payload: payload@,
            },
            Effect::Notify { title, body } => EffectView::Notify { title: title@, body: body@ },
            Effect::Log { level, message } => EffectView::Log { level: *level, message: message@ },
            Effect::Reply { value } => EffectView::Reply { value: *value },
            Effect::PreventClose => EffectView::PreventClose,
            Effect::Exit { code } => EffectView::Exit { code: *code },
        }
    }
}

impl DeepView for Effect {
    type V = EffectView;

    open spec fn deep_view(&self) -> EffectView {
        self@
    }
}

/// The list that holds nothing.
pub(crate) fn no_effects() -> (effects: Vec<Effect>)
    ensures
        effects.deep_view() == Seq::<EffectView>::empty(),
{
    let effects: Vec<Effect> = Vec::new();
    effects
}

/// The list that holds one request to the main window.
pub(crate) fn one_window_op(op: WindowOp) -> (effects: Vec<Effect>)
    ensures
        effects.deep_view() == seq![EffectView::Window(op)],
{
    let mut effects: Vec<Effect> = Vec::new();
    effects.push(Effect::Window(op));
    effects
}

} // verus!
