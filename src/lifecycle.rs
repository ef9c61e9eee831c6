use vstd::prelude::*;
use crate::window::WindowLabel;

verus! {

/// What the host shell is asked to do in answer to one event.
#[derive(Clone, Copy, Debug, PartialEq, Eq, Structural)]
pub enum ShellAction {
    /// Nothing to do.
    Ignore,
    /// Show the existing window, clear its minimized state and focus it.
    Reveal(WindowLabel),
    /// Create the popup window with [`popup_window_config`]; a failure is
    /// swallowed.
    CreatePopup,
    /// Veto the pending close of the window and hide it instead.
    PreventCloseAndHide(WindowLabel),
    /// Let the pending close proceed: the window is destroyed.
    AllowClose(WindowLabel),
    /// Terminate the process with the given status.
    Exit(i32),
}

/// RevealMain: the main window is revealed when it exists; its absence is no
/// fault, only nothing to reveal.
pub open spec fn main_reveal_action(main_exists: bool) -> ShellAction {
    if main_exists {
        ShellAction::Reveal(WindowLabel::Main)
    } else {
        ShellAction::Ignore
    }
}

/// RevealOrCreatePopup: an existing popup is revealed, a missing one created.
pub open spec fn popup_reveal_action(popup_exists: bool) -> ShellAction {
    if popup_exists {
        ShellAction::Reveal(WindowLabel::Popup)
    } else {
        ShellAction::CreatePopup
    }
}

/// The close policy: the main window is hidden instead of closed, every other
/// window closes normally.
pub open spec fn close_action(label: WindowLabel) -> ShellAction {
    if label == WindowLabel::Main {
        ShellAction::PreventCloseAndHide(WindowLabel::Main)
    } else {
        ShellAction::AllowClose(label)
    }
}

/// Decides how to reveal the main window, given whether the host has it.
pub fn show_main_window(main_exists: bool) -> (r: ShellAction)
    ensures
        r == main_reveal_action(main_exists),
{
    if main_exists {
        ShellAction::Reveal(WindowLabel::Main)
    } else {
        ShellAction::Ignore
    }
}

/// Decides how to reveal the popup window, given whether the host has it.
pub fn show_or_create_popup(popup_exists: bool) -> (r: ShellAction)
    ensures
        r == popup_reveal_action(popup_exists),
{
    if popup_exists {
        ShellAction::Reveal(WindowLabel::Popup)
    } else {
        ShellAction::CreatePopup
    }
}

/// Decides what happens to a window whose close was requested.
pub fn on_close_requested(label: WindowLabel) -> (r: ShellAction)
    ensures
        r == close_action(label),
{
    match label {
        WindowLabel::Main => ShellAction::PreventCloseAndHide(WindowLabel::Main),
        _ => ShellAction::AllowClose(label),
    }
}

/// How the popup window is created.
pub struct PopupWindowConfig {
    pub label: String,
    /// The application route that the window loads.
    pub route: String,
    pub title: String,
    /// Initial inner width, in logical units.
    pub width: u32,
    /// Initial inner height, in logical units.
    pub height: u32,
    pub resizable: bool,
    pub always_on_top: bool,
    /// Whether the window starts centered on screen.
    pub centered: bool,
}

/// The creation options of the popup window.
pub fn popup_window_config() -> (r: PopupWindowConfig)
    ensures
        r.label@ == "popup"@,
        r.route@ == "/popup"@,
        r.title@ == "Bex \u{2014} Quick Check"@,
        r.width == 500,
        r.height == 400,
        r.resizable,
        r.always_on_top,
        r.centered,
{
    PopupWindowConfig {
        label: "popup".to_owned(),
        route: "/popup".to_owned(),
        title: "Bex \u{2014} Quick Check".to_owned(),
        width: 500,
        height: 400,
        resizable: true,
        always_on_top: true,
        centered: true,
    }
}

} // verus!
