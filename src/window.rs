use vstd::prelude::*;

verus! {

/// The windows this application knows by label.
#[derive(Clone, Copy, Debug, PartialEq, Eq, Structural)]
pub enum WindowLabel {
    /// The primary window, created by the host at startup.
    Main,
    /// The quick-check window, created on demand.
    Popup,
    /// Any other window.
    Other,
}

/// What a label string names.
pub open spec fn label_of(s: Seq<char>) -> WindowLabel {
    if s == "main"@ {
        WindowLabel::Main
    } else if s == "popup"@ {
        WindowLabel::Popup
    } else {
        WindowLabel::Other
    }
}

/// Classifies a window label as reported by the host.
pub fn window_label(label: &str) -> (r: WindowLabel)
    ensures
        r == label_of(label@),
{
    let owned: String = label.to_owned();
    if owned == "main".to_owned() {
        WindowLabel::Main
    } else if owned == "popup".to_owned() {
        WindowLabel::Popup
    } else {
        WindowLabel::Other
    }
}

/// How a window that exists is displayed.
#[derive(Clone, Copy, Debug, PartialEq, Eq, Structural)]
pub enum Visibility {
    Hidden,
    Shown,
    Minimized,
}

/// The observable state of one existing window.
#[derive(Clone, Copy, Debug, PartialEq, Eq, Structural)]
pub struct WindowState {
    pub visibility: Visibility,
    pub focused: bool,
    /// Distinguishes this window from every other window created under the
    /// same label during the process lifetime.
    pub identity: u64,
}

/// The window after it has been shown, unminimized and focused.
pub open spec fn revealed(w: WindowState) -> WindowState {
    WindowState { visibility: Visibility::Shown, focused: true, identity: w.identity }
}

/// The window after it has been hidden.
pub open spec fn hidden(w: WindowState) -> WindowState {
    WindowState { visibility: Visibility::Hidden, focused: false, identity: w.identity }
}

/// The window after another window took the input focus.
pub open spec fn unfocused(w: WindowState) -> WindowState {
    WindowState { focused: false, ..w }
}

impl WindowState {
    /// Shows the window, clears its minimized state and gives it focus.
    pub fn show_focused(&mut self)
        ensures
            *final(self) == revealed(*old(self)),
    {
        self.visibility = Visibility::Shown;
        self.focused = true;
    }

    /// Hides the window.
    pub fn conceal(&mut self)
        ensures
            *final(self) == hidden(*old(self)),
    {
        self.visibility = Visibility::Hidden;
        self.focused = false;
    }

    /// Takes the input focus away from the window.
    pub fn blur(&mut self)
        ensures
            *final(self) == unfocused(*old(self)),
    {
        self.focused = false;
    }

    /// Minimizes the window, as the user may do at any time.
    pub fn minimize(&mut self)
        ensures
            final(self).visibility == Visibility::Minimized,
            final(self).focused == false,
            final(self).identity == old(self).identity,
    {
        self.visibility = Visibility::Minimized;
        self.focused = false;
    }
}

} // verus!
