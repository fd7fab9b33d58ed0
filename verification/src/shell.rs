//! The shell as a whole: one context that owns the main window, the tray and
//! the deep-link registration, takes events in arrival order and says what
//! each of them asks for.
//!
//! The routing is stateless: [`route`] looks at one event and at what the
//! lookup of the main window found. [`Shell`] is the machine that the routing
//! drives: it carries out the effects on a window of its own, so that whole
//! runs can be stated, replayed and reasoned about.

use crate::command::{command_effects, dispatch, Command, CommandView};
use crate::deep_link::{on_open_url, open_url_effects};
use crate::effect::{no_effects, Effect, EffectView, LogLevel};
use crate::tray::{
    menu_event_effects, on_menu_event, on_tray_icon_event, tray_icon_event_effects, TrayIconEvent,
};
use crate::window::{on_window_event, window_event_effects, MainWindow, WindowEvent, WindowState};
use vstd::prelude::*;

verus! {

/// Something that happens to the shell: the frontend invokes a command, the
/// user picks a tray menu entry or clicks the tray icon, the window manager
/// reports on the main window, or the URL scheme is activated.
#[derive(Clone, Debug, PartialEq, Eq)]
pub enum Event {
    Invoke(Command),
    Menu { id: String },
    TrayIcon(TrayIconEvent),
    Window(WindowEvent),
    OpenUrl { urls: Vec<String> },
}

/// The mathematical value of an [`Event`].
pub enum EventView {
    Invoke(CommandView),
    Menu { id: Seq<char> },
    TrayIcon(TrayIconEvent),
    Window(WindowEvent),
    OpenUrl { urls: Seq<Seq<char>> },
}

impl View for Event {
    type V = EventView;

    open spec fn view(&self) -> EventView {
        match self {
            Event::Invoke(command) => EventView::Invoke(command@),
            Event::Menu { id } => EventView::Menu { id: id@ },
            Event::TrayIcon(event) => EventView::TrayIcon(*event),
            Event::Window(event) => EventView::Window(*event),
            Event::OpenUrl { urls } => EventView::OpenUrl { urls: urls.deep_view() },
        }
    }
}

impl DeepView for Event {
    type V = EventView;

    open spec fn deep_view(&self) -> EventView {
        self@
    }
}

/// Why a part of the startup failed. The shell goes on without that part.
#[derive(Clone, Debug, PartialEq, Eq)]
pub enum SetupError {
    Tray { reason: String },
    DeepLinks { reason: String },
}

/// The mathematical value of a [`SetupError`].
pub enum SetupErrorView {
    Tray { reason: Seq<char> },
    DeepLinks { reason: Seq<char> },
}

impl View for SetupError {
    type V = SetupErrorView;

    open spec fn view(&self) -> SetupErrorView {
        match self {
            SetupError::Tray { reason } => SetupErrorView::Tray { reason: reason@ },
            SetupError::DeepLinks { reason } => SetupErrorView::DeepLinks { reason: reason@ },
        }
    }
}

/// The line that reports a setup error in the error log.
pub open spec fn setup_error_line(error: SetupErrorView) -> Seq<char> {
    match error {
        SetupErrorView::Tray { reason } => "Failed to setup tray: "@ + reason,
        SetupErrorView::DeepLinks { reason } => "Failed to setup deep links: "@ + reason,
    }
}

impl SetupError {
    /// The line that reports this error in the error log.
    pub fn log_line(&self) -> (line: String)
        ensures
            line@ == setup_error_line(self@),
    {
        match self {
            SetupError::Tray { reason } => {
                let mut line = "Failed to setup tray: ".to_owned();
                line.append(reason.as_str());
                line
            },
            SetupError::DeepLinks { reason } => {
                let mut line = "Failed to setup deep links: ".to_owned();
                line.append(reason.as_str());
                line
            },
        }
    }
}

/// What an event asks for, given what the lookup of the main window found
/// and, if it was found, the answers to the visibility and the maximize
/// query.
pub open spec fn event_effects(
    event: EventView,
    window_present: bool,
    visible: Option<bool>,
    maximized: Option<bool>,
) -> Seq<EffectView> {
    match event {
        EventView::Invoke(command) => command_effects(
            command,
            window_present,
            visible,
            maximized,
        ),
        EventView::Menu { id } => menu_event_effects(id, window_present),
        EventView::TrayIcon(event) => tray_icon_event_effects(event, window_present),
        EventView::Window(event) => window_event_effects(event),
        EventView::OpenUrl { urls } => open_url_effects(urls, window_present),
    }
}

/// Routes one event to the component that answers it.
///
/// `window_present` says whether the lookup found the main window; `visible`
/// and `maximized` are the answers to the two queries, `None` for a query
/// that failed.
pub fn route(
    event: &Event,
    window_present: bool,
    visible: Option<bool>,
    maximized: Option<bool>,
) -> (effects: Vec<Effect>)
    ensures
        effects.deep_view() == event_effects(event@, window_present, visible, maximized),
{
    match event {
        Event::Invoke(command) => dispatch(command, window_present, visible, maximized),
        Event::Menu { id } => on_menu_event(id.as_str(), window_present),
        Event::TrayIcon(event) => on_tray_icon_event(*event, window_present),
        Event::Window(event) => on_window_event(*event),
        Event::OpenUrl { urls } => on_open_url(urls, window_present),
    }
}

/// The process-wide context: at most one main window, at most one tray, at
/// most one deep-link registration, and whether the process has exited.
///
/// The shell's window carries out every request made of it and answers every
/// query. A window manager may refuse a request; the real window then stays
/// as it was, and the next event is routed by what the lookup and the
/// queries find at that time.
#[derive(Clone, Copy, Debug, PartialEq, Eq)]
pub struct Shell {
    /// The main window, if the lookup finds one.
    pub window: Option<MainWindow>,
    /// Whether the tray icon and its menu were built.
    pub tray_installed: bool,
    /// Whether the URL scheme is registered and listened to.
    pub deep_links_registered: bool,
    /// The exit code, once the process has been told to exit.
    pub exit_code: Option<i32>,
}

/// The error-log lines of a startup, the tray's before the deep links'.
pub open spec fn startup_effects(
    tray_built: Result<(), Seq<char>>,
    links_registered: Result<(), Seq<char>>,
) -> Seq<EffectView> {
    let tray_lines = match tray_built {
        Ok(_) => Seq::<EffectView>::empty(),
        Err(reason) => seq![
            EffectView::Log {
                level: LogLevel::Error,
                message: setup_error_line(SetupErrorView::Tray { reason }),
            },
        ],
    };
    let link_lines = match links_registered {
        Ok(_) => Seq::<EffectView>::empty(),
        Err(reason) => seq![
            EffectView::Log {
                level: LogLevel::Error,
                message: setup_error_line(SetupErrorView::DeepLinks { reason }),
            },
        ],
    };
    tray_lines + link_lines
}

/// The text of a setup outcome, as contracts speak of it.
pub open spec fn outcome_view(outcome: Result<(), String>) -> Result<(), Seq<char>> {
    match outcome {
        Ok(_) => Ok(()),
        Err(reason) => Err(reason@),
    }
}

impl Shell {
    /// Whether the process is still alive.
    pub open spec fn running(self) -> bool {
        self.exit_code is None
    }

    /// The answer of the shell's own window to the visibility query.
    pub open spec fn visibility_query(self) -> Option<bool> {
        match self.window {
            Some(window) => Some(window.visible),
            None => None,
        }
    }

    /// The answer of the shell's own window to the maximize query.
    pub open spec fn maximize_query(self) -> Option<bool> {
        match self.window {
            Some(window) => Some(window.maximized),
            None => None,
        }
    }

    /// The shell just after the process has come up with the given window.
    pub open spec fn fresh(window: Option<MainWindow>) -> Shell {
        Shell { window, tray_installed: false, deep_links_registered: false, exit_code: None }
    }

    /// The shell after both setup steps of the startup.
    pub open spec fn started(self, tray_built: bool, links_registered: bool) -> Shell {
        Shell {
            tray_installed: self.tray_installed || tray_built,
            deep_links_registered: self.deep_links_registered || links_registered,
            ..self
        }
    }

    /// What `event` asks of this shell. A process that has exited takes no
    /// events.
    pub open spec fn effects_of(self, event: EventView) -> Seq<EffectView> {
        if self.running() {
            event_effects(
                event,
                self.window is Some,
                self.visibility_query(),
                self.maximize_query(),
            )
        } else {
            Seq::empty()
        }
    }

    /// The shell after one effect was carried out. A request to the window
    /// changes the window, if there is one; an exit ends the process; the
    /// other effects leave the shell as it is. Nothing happens in a process
    /// that has exited.
    pub open spec fn performed(self, effect: EffectView) -> Shell {
        if !self.running() {
            self
        } else {
            match effect {
                EffectView::Window(op) => match self.window {
                    Some(window) => Shell { window: Some(window.after(op)), ..self },
                    None => self,
                },
                EffectView::Exit { code } => Shell { exit_code: Some(code), ..self },
                _ => self,
            }
        }
    }

    /// The shell after the effects were carried out, first to last.
    pub open spec fn performed_all(self, effects: Seq<EffectView>) -> Shell
        decreases effects.len(),
    {
        if effects.len() == 0 {
            self
        } else {
            self.performed_all(effects.drop_last()).performed(effects.last())
        }
    }

    /// The shell after `event`: what the event asks for, carried out.
    pub open spec fn after(self, event: EventView) -> Shell {
        self.performed_all(self.effects_of(event))
    }

    /// The shell after the events, handled in arrival order.
    pub open spec fn after_all(self, events: Seq<EventView>) -> Shell
        decreases events.len(),
    {
        if events.len() == 0 {
            self
        } else {
            self.after_all(events.drop_last()).after(events.last())
        }
    }

    /// Everything the events ask for, in the order in which it is asked.
    pub open spec fn trace(self, events: Seq<EventView>) -> Seq<EffectView>
        decreases events.len(),
    {
        if events.len() == 0 {
            Seq::empty()
        } else {
            self.trace(events.drop_last()) + self.after_all(events.drop_last()).effects_of(
                events.last(),
            )
        }
    }

    /// The shell of a process that has just come up: no tray yet, no deep
    /// links yet, alive.
    pub fn new(window: Option<MainWindow>) -> (shell: Shell)
        ensures
            shell == Shell::fresh(window),
    {
        Shell { window, tray_installed: false, deep_links_registered: false, exit_code: None }
    }

    /// Whether the process is still alive.
    pub fn is_running(&self) -> (alive: bool)
        ensures
            alive == self.running(),
    {
        self.exit_code.is_none()
    }

    /// The state of the main window, if there is one.
    pub fn window_state(&self) -> (state: Option<WindowState>)
        ensures
            match self.window {
                Some(window) => state == Some(window.state()),
                None => state is None,
            },
    {
        match self.window {
            Some(window) => Some(window.current_state()),
            None => None,
        }
    }

    /// Records how building the tray went. On success the shell has its
    /// tray. On failure the error is handed back and the shell stays as it
    /// was: it runs on without a tray.
    pub fn setup_tray(&mut self, built: Result<(), String>) -> (outcome: Result<(), SetupError>)
        ensures
            match built {
                Ok(_) => outcome is Ok && *final(self) == (Shell {
                    tray_installed: true,
                    ..*old(self)
                }),
                Err(reason) => outcome is Err && outcome->Err_0@ == (SetupErrorView::Tray {
                    reason: reason@,
                }) && *final(self) == *old(self),
            },
    {
        match built {
            Ok(_) => {
                self.tray_installed = true;
                Ok(())
            },
            Err(reason) => Err(SetupError::Tray { reason }),
        }
    }

    /// Records how registering the URL scheme went. On success the shell is
    /// registered and listens. On failure the error is handed back and the
    /// shell stays unregistered: it runs on without deep links.
    pub fn setup_deep_links(&mut self, registered: Result<(), String>) -> (outcome: Result<
        (),
        SetupError,
    >)
        ensures
            match registered {
                Ok(_) => outcome is Ok && *final(self) == (Shell {
                    deep_links_registered: true,
                    ..*old(self)
                }),
                Err(reason) => outcome is Err && outcome->Err_0@ == (SetupErrorView::DeepLinks {
                    reason: reason@,
                }) && *final(self) == *old(self),
            },
    {
        match registered {
            Ok(_) => {
                self.deep_links_registered = true;
                Ok(())
            },
            Err(reason) => Err(SetupError::DeepLinks { reason }),
        }
    }

    /// The setup of the startup: the tray first, then the deep links. A part
    /// that fails is reported in the error log and left out; the startup
    /// itself never fails, and the process stays alive.
    pub fn start(
        &mut self,
        tray_built: Result<(), String>,
        links_registered: Result<(), String>,
    ) -> (effects: Vec<Effect>)
        ensures
            *final(self) == old(self).started(tray_built is Ok, links_registered is Ok),
            effects.deep_view() == startup_effects(
                outcome_view(tray_built),
                outcome_view(links_registered),
            ),
    {
        let mut effects: Vec<Effect> = Vec::new();
        if let Err(error) = self.setup_tray(tray_built) {
            effects.push(Effect::Log { level: LogLevel::Error, message: error.log_line() });
        }
        if let Err(error) = self.setup_deep_links(links_registered) {
            effects.push(Effect::Log { level: LogLevel::Error, message: error.log_line() });
        }
        effects
    }

    /// Carries out one effect on the shell.
    pub fn perform(&mut self, effect: &Effect)
        ensures
            *final(self) == old(self).performed(effect@),
    {
        if self.exit_code.is_none() {
            match effect {
                Effect::Window(op) => {
                    if let Some(window) = self.window {
                        let mut changed = window;
                        changed.apply(*op);
                        self.window = Some(changed);
                    }
                },
                Effect::Exit { code } => {
                    self.exit_code = Some(*code);
                },
                _ => {},
            }
        }
    }

    /// Carries out the effects on the shell, first to last.
    pub fn perform_all(&mut self, effects: &Vec<Effect>)
        ensures
            *final(self) == old(self).performed_all(effects.deep_view()),
    {
        let ghost all = effects.deep_view();
        let mut i: usize = 0;
        while i < effects.len()
            invariant
                i <= effects.len(),
                all == effects.deep_view(),
                *self == old(self).performed_all(all.take(i as int)),
            decreases effects.len() - i,
        {
            self.perform(&effects[i]);
            assert(all.take(i + 1).drop_last() =~= all.take(i as int));
            i += 1;
        }
        assert(all.take(i as int) =~= all);
    }

    /// Handles one event: says what it asks for and carries it out on the
    /// shell's own window. A process that has exited handles nothing.
    pub fn handle(&mut self, event: &Event) -> (effects: Vec<Effect>)
        ensures
            effects.deep_view() == old(self).effects_of(event@),
            *final(self) == old(self).after(event@),
    {
        if self.exit_code.is_some() {
            return no_effects();
        }
        let window_present = self.window.is_some();
        let visible = match self.window {
            Some(window) => Some(window.visible),
            None => None,
        };
        let maximized = match self.window {
            Some(window) => Some(window.maximized),
            None => None,
        };
        let effects = route(event, window_present, visible, maximized);
        self.perform_all(&effects);
        effects
    }

    /// Handles the events in arrival order and hands back everything they
    /// asked for.
    pub fn handle_all(&mut self, events: &Vec<Event>) -> (effects: Vec<Effect>)
        ensures
            effects.deep_view() == old(self).trace(events.deep_view()),
            *final(self) == old(self).after_all(events.deep_view()),
    {
        let ghost all = events.deep_view();
        let mut effects: Vec<Effect> = Vec::new();
        let mut i: usize = 0;
        while i < events.len()
            invariant
                i <= events.len(),
                all == events.deep_view(),
                *self == old(self).after_all(all.take(i as int)),
                effects.deep_view() == old(self).trace(all.take(i as int)),
            decreases events.len() - i,
        {
            let mut asked = self.handle(&events[i]);
            effects.append(&mut asked);
            assert(all.take(i + 1).drop_last() =~= all.take(i as int));
            i += 1;
        }
        assert(all.take(i as int) =~= all);
        effects
    }
}

/// Runs a shell from startup over a batch of events.
///
/// The process comes up with `window`, sets up the tray and the deep links
/// with the given outcomes, and then handles `events` in arrival order until
/// they are used up or the process has exited. The result is the shell at the
/// end and everything that was asked for on the way, the startup's log lines
/// first.
pub fn run(
    window: Option<MainWindow>,
    tray_built: Result<(), String>,
    links_registered: Result<(), String>,
    events: &Vec<Event>,
) -> (result: (Shell, Vec<Effect>))
    ensures
        result.0 == Shell::fresh(window).started(
            tray_built is Ok,
            links_registered is Ok,
        ).after_all(events.deep_view()),
        result.1.deep_view() == startup_effects(
            outcome_view(tray_built),
            outcome_view(links_registered),
        ) + Shell::fresh(window).started(tray_built is Ok, links_registered is Ok).trace(
            events.deep_view(),
        ),
{
    let mut shell = Shell::new(window);
    let mut effects = shell.start(tray_built, links_registered);
    let mut asked = shell.handle_all(events);
    effects.append(&mut asked);
    (shell, effects)
}

} // verus!
