//! Coordination core of a desktop host shell.
//!
//! A host shell owns one main window, a tray icon with a small menu, the
//! registration of a URL scheme, and a set of commands that its frontend can
//! invoke. This crate holds the decisions of such a shell, and nothing that
//! touches the operating system: every function takes plain values and says,
//! as a list of [`Effect`]s, what is to be done.
//!
//! - [`window`]: the main window's state, the window commands, and the
//!   close box that hides instead of closing.
//! - [`notification`]: notifications for the operating system.
//! - [`tray`]: the tray menu and the routing of its events.
//! - [`deep_link`]: activations of the URL scheme.
//! - [`command`]: the commands of the frontend and their dispatch.
//! - [`shell`]: the process-wide context, the routing of any event, and
//!   whole runs of events.
//! - [`laws`]: what holds of every run, proved.
//! - [`effect`], [`text`]: the vocabulary of effects, and string comparison.
//!
//! The embedding event loop looks the main window up when an event arrives,
//! calls the function for that event, and carries the effects out in order.
//! A request that fails there is dropped: no function here takes the outcome
//! of an effect, so nothing is retried or shown to the user.

pub mod command;
pub mod deep_link;
pub mod effect;
pub mod laws;
pub mod notification;
pub mod shell;
pub mod text;
pub mod tray;
pub mod window;

pub use command::{dispatch, Command};
pub use effect::{Effect, LogLevel, WindowOp};
pub use shell::{route, run, Event, SetupError, Shell};
pub use window::{MainWindow, WindowEvent, WindowState};
