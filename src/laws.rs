use vstd::prelude::*;
use crate::lifecycle::{popup_reveal_action, ShellAction};
use crate::shell::{decision, fresh_window, run_events, step, ShellEvent, ShellState};
use crate::shortcut::ShortcutState;
use crate::tray::{click_reveals_main, MenuCommand};
use crate::window::{hidden, revealed, Visibility, WindowLabel};

verus! {

/// The events that ask to reveal the main window: the `open` menu entry and a
/// completed primary click on the tray icon.
pub open spec fn reveals_main(e: ShellEvent) -> bool {
    match e {
        ShellEvent::Menu(c) => c == MenuCommand::Open,
        ShellEvent::TrayClick(b, st) => click_reveals_main(b, st),
        _ => false,
    }
}

/// Whatever state the main window is in (hidden, minimized or shown), any
/// non-empty run of reveal requests leaves it shown and focused, the same
/// window as before.
pub proof fn lemma_reveal_main_always_shows(s: ShellState, events: Seq<ShellEvent>)
    requires
        s.main is Some,
        events.len() > 0,
        forall|i: int| 0 <= i < events.len() ==> reveals_main(#[trigger] events[i]),
    ensures
        run_events(s, events).main == Some(revealed(s.main.unwrap())),
        run_events(s, events).main.unwrap().visibility == Visibility::Shown,
        run_events(s, events).main.unwrap().focused,
    decreases events.len(),
{
    let s1 = step(s, events[0]);
    assert(reveals_main(events[0]));
    assert(s1.main == Some(revealed(s.main.unwrap())));
    let rest = events.drop_first();
    if rest.len() > 0 {
        assert forall|i: int| 0 <= i < rest.len() implies reveals_main(#[trigger] rest[i]) by {
            assert(rest[i] == events[i + 1]);
        }
        lemma_reveal_main_always_shows(s1, rest);
    }
}

/// Asking twice for the popup while it is absent creates exactly one window,
/// which the second request only reveals.
pub proof fn lemma_popup_twice_creates_one(s: ShellState)
    requires
        s.wf(),
        s.popup is None,
        s.windows_created < u64::MAX,
    ensures
        step(s, ShellEvent::Menu(MenuCommand::QuickCheck)).windows_created == s.windows_created + 1,
        step(step(s, ShellEvent::Menu(MenuCommand::QuickCheck)), ShellEvent::Menu(MenuCommand::QuickCheck)).windows_created
            == s.windows_created + 1,
        step(step(s, ShellEvent::Menu(MenuCommand::QuickCheck)), ShellEvent::Menu(MenuCommand::QuickCheck)).popup
            == Some(fresh_window(s.windows_created)),
{
}

/// Asking for the popup while it exists creates nothing: the same window is
/// shown and focused.
pub proof fn lemma_existing_popup_only_revealed(s: ShellState)
    requires
        s.popup is Some,
    ensures
        decision(ShellEvent::Menu(MenuCommand::QuickCheck), s.main is Some, true)
            == ShellAction::Reveal(WindowLabel::Popup),
        step(s, ShellEvent::Menu(MenuCommand::QuickCheck)).windows_created == s.windows_created,
        step(s, ShellEvent::Menu(MenuCommand::QuickCheck)).popup == Some(revealed(s.popup.unwrap())),
{
}

/// No event destroys the main window: a close request only hides it.
pub proof fn lemma_main_never_destroyed(s: ShellState, e: ShellEvent)
    requires
        s.main is Some,
    ensures
        step(s, e).main is Some,
        step(s, e).main.unwrap().identity == s.main.unwrap().identity,
{
}

/// Closing the main window hides it and keeps the process running; a later
/// reveal request shows it again.
pub proof fn lemma_close_main_then_reveal(s: ShellState)
    requires
        s.main is Some,
    ensures
        step(s, ShellEvent::CloseRequested(WindowLabel::Main)).main == Some(hidden(s.main.unwrap())),
        step(s, ShellEvent::CloseRequested(WindowLabel::Main)).exit_code == s.exit_code,
        step(step(s, ShellEvent::CloseRequested(WindowLabel::Main)), ShellEvent::Menu(MenuCommand::Open)).main
            == Some(revealed(s.main.unwrap())),
{
}

/// Closing the popup destroys it; the next request creates a new window
/// under the same label, with an identity it never had.
pub proof fn lemma_close_popup_then_recreate(s: ShellState)
    requires
        s.wf(),
        s.popup is Some,
        s.windows_created < u64::MAX,
    ensures
        step(s, ShellEvent::CloseRequested(WindowLabel::Popup)).popup is None,
        step(step(s, ShellEvent::CloseRequested(WindowLabel::Popup)), ShellEvent::Menu(MenuCommand::QuickCheck)).popup
            == Some(fresh_window(s.windows_created)),
        s.popup.unwrap().identity != s.windows_created,
{
}

/// Only the `quit` menu entry ends the process, and it ends it with status 0.
pub proof fn lemma_only_quit_exits(s: ShellState, e: ShellEvent)
    ensures
        (decision(e, s.main is Some, s.popup is Some) is Exit) <==> e == ShellEvent::Menu(MenuCommand::Quit),
        e == ShellEvent::Menu(MenuCommand::Quit) ==> step(s, e).exit_code == Some(0i32),
        e != ShellEvent::Menu(MenuCommand::Quit) ==> step(s, e).exit_code == s.exit_code,
{
}

/// Pressing the global shortcut does exactly what the `quick_check` menu
/// entry does; releasing it does nothing.
pub proof fn lemma_shortcut_press_is_quick_check(s: ShellState)
    ensures
        decision(ShellEvent::Shortcut(ShortcutState::Pressed), s.main is Some, s.popup is Some)
            == decision(ShellEvent::Menu(MenuCommand::QuickCheck), s.main is Some, s.popup is Some),
        decision(ShellEvent::Shortcut(ShortcutState::Pressed), s.main is Some, s.popup is Some)
            == popup_reveal_action(s.popup is Some),
        step(s, ShellEvent::Shortcut(ShortcutState::Pressed)) == step(s, ShellEvent::Menu(MenuCommand::QuickCheck)),
        step(s, ShellEvent::Shortcut(ShortcutState::Released)) == s,
{
}

} // verus!
