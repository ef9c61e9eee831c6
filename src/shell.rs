use vstd::prelude::*;
use crate::lifecycle::{
    close_action, main_reveal_action, on_close_requested, popup_reveal_action, show_main_window,
    show_or_create_popup, ShellAction,
};
use crate::shortcut::{is_trigger, ShortcutState};
use crate::tray::{click_reveals_main, is_reveal_click, MenuCommand, MouseButton, MouseButtonState};
use crate::window::{hidden, revealed, unfocused, Visibility, WindowLabel, WindowState};

verus! {

/// An input event delivered by the host shell.
#[derive(Clone, Copy, Debug, PartialEq, Eq, Structural)]
pub enum ShellEvent {
    /// A tray menu entry was activated.
    Menu(MenuCommand),
    /// The tray icon was clicked.
    TrayClick(MouseButton, MouseButtonState),
    /// The global shortcut changed state.
    Shortcut(ShortcutState),
    /// The user asked to close a window.
    CloseRequested(WindowLabel),
}

/// The action that answers an event, given which windows exist.
pub open spec fn decision(e: ShellEvent, main_exists: bool, popup_exists: bool) -> ShellAction {
    match e {
        ShellEvent::Menu(MenuCommand::Open) => main_reveal_action(main_exists),
        ShellEvent::Menu(MenuCommand::QuickCheck) => popup_reveal_action(popup_exists),
        ShellEvent::Menu(MenuCommand::Quit) => ShellAction::Exit(0),
        ShellEvent::Menu(MenuCommand::Unknown) => ShellAction::Ignore,
        ShellEvent::TrayClick(b, st) => if click_reveals_main(b, st) {
            main_reveal_action(main_exists)
        } else {
            ShellAction::Ignore
        },
        ShellEvent::Shortcut(st) => if st == ShortcutState::Pressed {
            popup_reveal_action(popup_exists)
        } else {
            ShellAction::Ignore
        },
        ShellEvent::CloseRequested(label) => close_action(label),
    }
}

/// Routes an event to the window lifecycle operation it asks for.
pub fn route(event: ShellEvent, main_exists: bool, popup_exists: bool) -> (r: ShellAction)
    ensures
        r == decision(event, main_exists, popup_exists),
{
    match event {
        ShellEvent::Menu(MenuCommand::Open) => show_main_window(main_exists),
        ShellEvent::Menu(MenuCommand::QuickCheck) => show_or_create_popup(popup_exists),
        ShellEvent::Menu(MenuCommand::Quit) => ShellAction::Exit(0),
        ShellEvent::Menu(MenuCommand::Unknown) => ShellAction::Ignore,
        ShellEvent::TrayClick(b, st) => {
            if is_reveal_click(b, st) {
                show_main_window(main_exists)
            } else {
                ShellAction::Ignore
            }
        },
        ShellEvent::Shortcut(st) => {
            if is_trigger(st) {
                show_or_create_popup(popup_exists)
            } else {
                ShellAction::Ignore
            }
        },
        ShellEvent::CloseRequested(label) => on_close_requested(label),
    }
}

/// The host's window registry and process status, as far as this library
/// observes them.
#[derive(Clone, Copy, Debug, PartialEq, Eq, Structural)]
pub struct ShellState {
    pub main: Option<WindowState>,
    pub popup: Option<WindowState>,
    /// How many windows have been created so far; the next one gets this
    /// number as its identity.
    pub windows_created: u64,
    /// The status the process was asked to exit with, once asked.
    pub exit_code: Option<i32>,
}

pub open spec fn reveal_in(w: Option<WindowState>) -> Option<WindowState> {
    match w {
        Some(x) => Some(revealed(x)),
        None => None,
    }
}

pub open spec fn hide_in(w: Option<WindowState>) -> Option<WindowState> {
    match w {
        Some(x) => Some(hidden(x)),
        None => None,
    }
}

pub open spec fn blur_in(w: Option<WindowState>) -> Option<WindowState> {
    match w {
        Some(x) => Some(unfocused(x)),
        None => None,
    }
}

/// A freshly created window: shown and focused.
pub open spec fn fresh_window(identity: u64) -> WindowState {
    WindowState { visibility: Visibility::Shown, focused: true, identity }
}

/// The registry after the host performed an action. Revealing or creating a
/// window moves the focus to it; creation fails, without effect, where the
/// label is taken or no identity is left.
pub open spec fn applied(s: ShellState, a: ShellAction) -> ShellState {
    match a {
        ShellAction::Ignore => s,
        ShellAction::Reveal(WindowLabel::Main) => if s.main is Some {
            ShellState { main: reveal_in(s.main), popup: blur_in(s.popup), ..s }
        } else {
            s
        },
        ShellAction::Reveal(WindowLabel::Popup) => if s.popup is Some {
            ShellState { main: blur_in(s.main), popup: reveal_in(s.popup), ..s }
        } else {
            s
        },
        ShellAction::Reveal(WindowLabel::Other) => s,
        ShellAction::CreatePopup => if s.popup is None && s.windows_created < u64::MAX {
            ShellState {
                main: blur_in(s.main),
                popup: Some(fresh_window(s.windows_created)),
                windows_created: (s.windows_created + 1) as u64,
                ..s
            }
        } else {
            s
        },
        ShellAction::PreventCloseAndHide(WindowLabel::Main) => ShellState { main: hide_in(s.main), ..s },
        ShellAction::PreventCloseAndHide(WindowLabel::Popup) => ShellState { popup: hide_in(s.popup), ..s },
        ShellAction::PreventCloseAndHide(WindowLabel::Other) => s,
        ShellAction::AllowClose(WindowLabel::Main) => ShellState { main: None, ..s },
        ShellAction::AllowClose(WindowLabel::Popup) => ShellState { popup: None, ..s },
        ShellAction::AllowClose(WindowLabel::Other) => s,
        ShellAction::Exit(code) => ShellState { exit_code: Some(code), ..s },
    }
}

/// The registry after one event was decided and acted on.
pub open spec fn step(s: ShellState, e: ShellEvent) -> ShellState {
    applied(s, decision(e, s.main is Some, s.popup is Some))
}

/// The registry after a sequence of events, in arrival order.
pub open spec fn run_events(s: ShellState, events: Seq<ShellEvent>) -> ShellState
    decreases events.len(),
{
    if events.len() == 0 {
        s
    } else {
        run_events(step(s, events[0]), events.drop_first())
    }
}

/// Every action keeps the registry well formed.
pub proof fn lemma_applied_wf(s: ShellState, a: ShellAction)
    requires
        s.wf(),
    ensures
        applied(s, a).wf(),
{
    let t = applied(s, a);
    if let Some(m) = t.main {
        assert(s.main is Some && s.main.unwrap().identity == m.identity);
    }
    if let Some(p) = t.popup {
        if s.popup is Some {
            assert(s.popup.unwrap().identity == p.identity);
        } else {
            assert(p.identity == s.windows_created);
        }
    }
}

fn reveal_slot(w: &mut Option<WindowState>)
    ensures
        *final(w) == reveal_in(*old(w)),
{
    if let Some(mut x) = *w {
        x.show_focused();
        *w = Some(x);
    }
}

fn hide_slot(w: &mut Option<WindowState>)
    ensures
        *final(w) == hide_in(*old(w)),
{
    if let Some(mut x) = *w {
        x.conceal();
        *w = Some(x);
    }
}

fn blur_slot(w: &mut Option<WindowState>)
    ensures
        *final(w) == blur_in(*old(w)),
{
    if let Some(mut x) = *w {
        x.blur();
        *w = Some(x);
    }
}

impl ShellState {
    /// Every window's identity was handed out before, and no two live
    /// windows share one.
    pub open spec fn wf(&self) -> bool {
        &&& (self.main is Some ==> self.main.unwrap().identity < self.windows_created)
        &&& (self.popup is Some ==> self.popup.unwrap().identity < self.windows_created)
        &&& (self.main is Some && self.popup is Some ==> self.main.unwrap().identity
            != self.popup.unwrap().identity)
    }

    /// The state at startup: the host created the main window, shown and
    /// focused; there is no popup yet.
    pub fn new() -> (r: ShellState)
        ensures
            r.wf(),
            r.main == Some(fresh_window(0)),
            r.popup is None,
            r.windows_created == 1,
            r.exit_code is None,
    {
        ShellState {
            main: Some(WindowState { visibility: Visibility::Shown, focused: true, identity: 0 }),
            popup: None,
            windows_created: 1,
            exit_code: None,
        }
    }

    /// Performs an action on the registry.
    pub fn apply(&mut self, action: ShellAction)
        requires
            old(self).wf(),
        ensures
            *final(self) == applied(*old(self), action),
            final(self).wf(),
    {
        match action {
            ShellAction::Ignore => {},
            ShellAction::Reveal(WindowLabel::Main) => {
                if self.main.is_some() {
                    reveal_slot(&mut self.main);
                    blur_slot(&mut self.popup);
                }
            },
            ShellAction::Reveal(WindowLabel::Popup) => {
                if self.popup.is_some() {
                    blur_slot(&mut self.main);
                    reveal_slot(&mut self.popup);
                }
            },
            ShellAction::Reveal(WindowLabel::Other) => {},
            ShellAction::CreatePopup => {
                if self.popup.is_none() && self.windows_created < u64::MAX {
                    blur_slot(&mut self.main);
                    self.popup = Some(
                        WindowState {
                            visibility: Visibility::Shown,
                            focused: true,
                            identity: self.windows_created,
                        },
                    );
                    self.windows_created = self.windows_created + 1;
                }
            },
            ShellAction::PreventCloseAndHide(WindowLabel::Main) => hide_slot(&mut self.main),
            ShellAction::PreventCloseAndHide(WindowLabel::Popup) => hide_slot(&mut self.popup),
            ShellAction::PreventCloseAndHide(WindowLabel::Other) => {},
            ShellAction::AllowClose(WindowLabel::Main) => self.main = None,
            ShellAction::AllowClose(WindowLabel::Popup) => self.popup = None,
            ShellAction::AllowClose(WindowLabel::Other) => {},
            ShellAction::Exit(code) => self.exit_code = Some(code),
        }
        proof {
            lemma_applied_wf(*old(self), action);
        }
    }

    /// Decides the action for an event, performs it, and returns it.
    pub fn handle(&mut self, event: ShellEvent) -> (r: ShellAction)
        requires
            old(self).wf(),
        ensures
            r == decision(event, old(self).main is Some, old(self).popup is Some),
            *final(self) == step(*old(self), event),
            final(self).wf(),
    {
        let action = route(event, self.main.is_some(), self.popup.is_some());
        self.apply(action);
        action
    }

    /// RevealMain on this registry.
    pub fn reveal_main(&mut self)
        requires
            old(self).wf(),
        ensures
            *final(self) == applied(*old(self), main_reveal_action(old(self).main is Some)),
            final(self).wf(),
    {
        let action = show_main_window(self.main.is_some());
        self.apply(action);
    }

    /// RevealOrCreatePopup on this registry.
    pub fn reveal_or_create_popup(&mut self)
        requires
            old(self).wf(),
        ensures
            *final(self) == applied(*old(self), popup_reveal_action(old(self).popup is Some)),
            final(self).wf(),
    {
        let action = show_or_create_popup(self.popup.is_some());
        self.apply(action);
    }

    /// The user minimizes a window; the host does this without asking.
    pub fn minimize(&mut self, label: WindowLabel)
        requires
            old(self).wf(),
        ensures
            final(self).wf(),
            final(self).windows_created == old(self).windows_created,
            final(self).exit_code == old(self).exit_code,
            label == WindowLabel::Main ==> final(self).popup == old(self).popup,
            label != WindowLabel::Main ==> final(self).main == old(self).main,
            label == WindowLabel::Main ==> match old(self).main {
                Some(m) => final(self).main == Some(
                    WindowState { visibility: Visibility::Minimized, focused: false, identity: m.identity },
                ),
                None => final(self).main is None,
            },
            label == WindowLabel::Popup ==> match old(self).popup {
                Some(p) => final(self).popup == Some(
                    WindowState { visibility: Visibility::Minimized, focused: false, identity: p.identity },
                ),
                None => final(self).popup is None,
            },
            label == WindowLabel::Other ==> final(self).popup == old(self).popup,
    {
        match label {
            WindowLabel::Main => {
                if let Some(mut m) = self.main {
                    m.minimize();
                    self.main = Some(m);
                }
            },
            WindowLabel::Popup => {
                if let Some(mut p) = self.popup {
                    p.minimize();
                    self.popup = Some(p);
                }
            },
            WindowLabel::Other => {},
        }
    }
}

} // verus!
