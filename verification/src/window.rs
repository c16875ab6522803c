//! The main window, the error dialog, and when the application ends.

use vstd::prelude::*;

verus! {

/// Title of the main window.
pub const WINDOW_TITLE: &'static str = "System Services";

/// Width and height that the main window opens with.
pub const WINDOW_SIZE: i32 = 500;

/// Title of the dialog that presents a backend error.
pub const ERROR_TITLE: &'static str = "Systemd Error";

/// Margin to the left and to the right of an error's text.
pub const ERROR_MARGIN: i32 = 5;

/// How the main window is set up.
#[derive(Clone, Debug, PartialEq, Eq)]
pub struct WindowSetup {
    pub title: String,
    pub default_width: i32,
    pub default_height: i32,
}

/// A dialog that presents one error of the backend.
#[derive(Clone, Debug, PartialEq, Eq)]
pub struct ErrorDialog {
    pub title: String,
    /// The text shown.
    pub text: String,
    /// Whether the user can change the text.
    pub editable: bool,
    pub left_margin: i32,
    pub right_margin: i32,
}

/// The application runs until its window is closed.
#[derive(Clone, Copy, Debug, PartialEq, Eq, Structural)]
pub enum AppState {
    Running,
    Terminated,
}

/// The keys that the main window tells apart.
#[derive(Clone, Copy, Debug, PartialEq, Eq, Structural)]
pub enum Key {
    Escape,
    Other,
}

/// What can happen to the main window.
#[derive(Clone, Copy, Debug, PartialEq, Eq, Structural)]
pub enum WindowEvent {
    /// The user asked the window to close.
    CloseRequested,
    /// A key was pressed while the window had the focus.
    KeyPressed(Key),
}

/// The answer to a window event.
#[derive(Clone, Copy, Debug, PartialEq, Eq, Structural)]
pub struct Reaction {
    /// The application's state after the event.
    pub next: AppState,
    /// Whether the event is kept from the toolkit's other handlers.
    pub inhibit: bool,
}

/// Whether `event` ends the application: a request to close does, and so
/// does the Escape key.
pub open spec fn ends_application(event: WindowEvent) -> bool {
    event == WindowEvent::CloseRequested || event == WindowEvent::KeyPressed(Key::Escape)
}

/// The application's state after `event`. What has ended stays ended.
pub open spec fn state_after(state: AppState, event: WindowEvent) -> AppState {
    if ends_application(event) {
        AppState::Terminated
    } else {
        state
    }
}

/// The setup of the main window: titled `System Services`, 500 by 500.
pub fn main_window() -> (setup: WindowSetup)
    ensures
        setup.title@ == "System Services"@,
        setup.default_width == 500,
        setup.default_height == 500,
{
    WindowSetup {
        title: WINDOW_TITLE.to_owned(),
        default_width: WINDOW_SIZE,
        default_height: WINDOW_SIZE,
    }
}

/// The dialog for an error that the backend reported as `message`: the
/// message itself, unchanged and read-only, between small margins, under a
/// title that names the backend.
pub fn print_dialog(message: &str) -> (dialog: ErrorDialog)
    ensures
        dialog.title@ == "Systemd Error"@,
        dialog.text@ == message@,
        !dialog.editable,
        dialog.left_margin == 5,
        dialog.right_margin == 5,
{
    ErrorDialog {
        title: ERROR_TITLE.to_owned(),
        text: message.to_owned(),
        editable: false,
        left_margin: ERROR_MARGIN,
        right_margin: ERROR_MARGIN,
    }
}

/// Answers an event of the main window.
///
/// A request to close ends the application and is kept from the toolkit,
/// which would otherwise tear the window down itself. A key press is
/// always passed on; Escape ends the application, any other key does not.
pub fn on_window_event(state: AppState, event: WindowEvent) -> (reaction: Reaction)
    ensures
        reaction.next == state_after(state, event),
        reaction.inhibit == (event == WindowEvent::CloseRequested),
{
    match event {
        WindowEvent::CloseRequested => Reaction { next: AppState::Terminated, inhibit: true },
        WindowEvent::KeyPressed(Key::Escape) => Reaction {
            next: AppState::Terminated,
            inhibit: false,
        },
        WindowEvent::KeyPressed(Key::Other) => Reaction { next: state, inhibit: false },
    }
}

/// Once the application has ended, no event brings it back.
pub proof fn lemma_terminated_is_final(event: WindowEvent)
    ensures
        state_after(AppState::Terminated, event) == AppState::Terminated,
{
}

} // verus!
