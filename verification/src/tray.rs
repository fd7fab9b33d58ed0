//! The tray coordinator: the tray menu, and the routing of menu selections
//! and clicks on the tray icon back to the main window.

use crate::effect::{no_effects, Effect, EffectView, LogLevel};
use crate::text::same_text;
use crate::window::{close_effects, close_window, surface_effects, surface_window};
use vstd::prelude::*;

verus! {

/// One entry of the tray menu: the identifier that a selection reports, the
/// label that the user reads, and whether the entry can be selected.
#[derive(Clone, Debug, PartialEq, Eq)]
pub struct MenuEntry {
    pub id: String,
    pub label: String,
    pub enabled: bool,
}

/// The mathematical value of a [`MenuEntry`].
pub struct MenuEntryView {
    pub id: Seq<char>,
    pub label: Seq<char>,
    pub enabled: bool,
}

impl View for MenuEntry {
    type V = MenuEntryView;

    open spec fn view(&self) -> MenuEntryView {
        MenuEntryView { id: self.id@, label: self.label@, enabled: self.enabled }
    }
}

impl DeepView for MenuEntry {
    type V = MenuEntryView;

    open spec fn deep_view(&self) -> MenuEntryView {
        self@
    }
}

/// Which mouse button a tray event reports.
#[derive(Clone, Copy, Debug, PartialEq, Eq, Structural)]
pub enum MouseButton {
    Left,
    Right,
    Middle,
}

/// Whether the button went down or came up.
#[derive(Clone, Copy, Debug, PartialEq, Eq, Structural)]
pub enum MouseButtonState {
    Up,
    Down,
}

/// An event on the tray icon, reduced to what the routing reads.
#[derive(Clone, Copy, Debug, PartialEq, Eq, Structural)]
pub enum TrayIconEvent {
    Click { button: MouseButton, button_state: MouseButtonState },
    DoubleClick { button: MouseButton },
    Enter,
    Move,
    Leave,
}

/// The tray menu: Show, Hide, Quit, in this order, all enabled.
pub open spec fn tray_menu_entries() -> Seq<MenuEntryView> {
    seq![
        MenuEntryView { id: "show"@, label: "Show"@, enabled: true },
        MenuEntryView { id: "hide"@, label: "Hide"@, enabled: true },
        MenuEntryView { id: "quit"@, label: "Quit"@, enabled: true },
    ]
}

/// What the selection of the menu entry `id` asks for.
///
/// "quit" ends the process with exit code 0, whether or not there is a
/// window. "show" surfaces the window, "hide" hides it. Any other identifier
/// asks for nothing.
pub open spec fn menu_event_effects(id: Seq<char>, window_present: bool) -> Seq<EffectView> {
    if id == "quit"@ {
        seq![EffectView::Exit { code: 0 }]
    } else if id == "show"@ {
        surface_effects(window_present)
    } else if id == "hide"@ {
        close_effects(window_present)
    } else {
        Seq::empty()
    }
}

/// The one tray event that activates the window: the left button coming up.
pub open spec fn is_activation(event: TrayIconEvent) -> bool {
    event == (TrayIconEvent::Click {
        button: MouseButton::Left,
        button_state: MouseButtonState::Up,
    })
}

/// What an event on the tray icon asks for: an activation surfaces the
/// window, every other event asks for nothing.
pub open spec fn tray_icon_event_effects(event: TrayIconEvent, window_present: bool) -> Seq<
    EffectView,
> {
    if is_activation(event) {
        surface_effects(window_present)
    } else {
        Seq::empty()
    }
}

/// The line that `update_tray_tooltip` logs for `status`.
pub open spec fn tray_status_line(status: Seq<char>) -> Seq<char> {
    "Tray status: "@ + status
}

/// What `update_tray_tooltip` asks for: one line in the developer log.
pub open spec fn tray_status_effects(status: Seq<char>) -> Seq<EffectView> {
    seq![EffectView::Log { level: LogLevel::Info, message: tray_status_line(status) }]
}

/// The three identifiers of the tray menu differ from each other.
pub proof fn lemma_menu_identifiers_differ()
    ensures
        "show"@ != "hide"@,
        "show"@ != "quit"@,
        "hide"@ != "quit"@,
{
    reveal_strlit("show");
    reveal_strlit("hide");
    reveal_strlit("quit");
    assert("show"@[0] != "hide"@[0]);
    assert("show"@[0] != "quit"@[0]);
    assert("hide"@[0] != "quit"@[0]);
}

/// Every entry of the tray menu has its own route: "show" surfaces the
/// window, "hide" hides it, "quit" ends the process.
pub proof fn lemma_tray_menu_is_routed(window_present: bool)
    ensures
        menu_event_effects(tray_menu_entries()[0].id, window_present) == surface_effects(
            window_present,
        ),
        menu_event_effects(tray_menu_entries()[1].id, window_present) == close_effects(
            window_present,
        ),
        menu_event_effects(tray_menu_entries()[2].id, window_present) == seq![
            EffectView::Exit { code: 0 },
        ],
{
    lemma_menu_identifiers_differ();
}

/// Builds the entries of the tray menu.
pub fn tray_menu() -> (entries: Vec<MenuEntry>)
    ensures
        entries.deep_view() == tray_menu_entries(),
{
    let mut entries: Vec<MenuEntry> = Vec::new();
    entries.push(MenuEntry { id: "show".to_owned(), label: "Show".to_owned(), enabled: true });
    entries.push(MenuEntry { id: "hide".to_owned(), label: "Hide".to_owned(), enabled: true });
    entries.push(MenuEntry { id: "quit".to_owned(), label: "Quit".to_owned(), enabled: true });
    entries
}

/// Routes the selection of a tray menu entry.
pub fn on_menu_event(id: &str, window_present: bool) -> (effects: Vec<Effect>)
    ensures
        effects.deep_view() == menu_event_effects(id@, window_present),
{
    if same_text(id, "quit") {
        let mut effects: Vec<Effect> = Vec::new();
        effects.push(Effect::Exit { code: 0 });
        effects
    } else if same_text(id, "show") {
        surface_window(window_present)
    } else if same_text(id, "hide") {
        close_window(window_present)
    } else {
        no_effects()
    }
}

/// Routes an event on the tray icon: a left click, on release, is the same
/// as the menu's "show"; every other event is ignored.
pub fn on_tray_icon_event(event: TrayIconEvent, window_present: bool) -> (effects: Vec<Effect>)
    ensures
        effects.deep_view() == tray_icon_event_effects(event, window_present),
{
    match event {
        TrayIconEvent::Click { button: MouseButton::Left, button_state: MouseButtonState::Up } => {
            surface_window(window_present)
        },
        _ => no_effects(),
    }
}

/// Takes note of a new tray status. The tray itself does not change: the
/// status is written to the developer log and nothing else happens.
pub fn update_tray_tooltip(status: String) -> (effects: Vec<Effect>)
    ensures
        effects.deep_view() == tray_status_effects(status@),
{
    let mut message = "Tray status: ".to_owned();
    message.append(status.as_str());
    let mut effects: Vec<Effect> = Vec::new();
    effects.push(Effect::Log { level: LogLevel::Info, message });
    effects
}

} // verus!
