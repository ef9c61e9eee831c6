use vstd::prelude::*;

verus! {

/// The phase of a global shortcut.
#[derive(Clone, Copy, Debug, PartialEq, Eq, Structural)]
pub enum ShortcutState {
    Pressed,
    Released,
}

/// The one global key combination, which opens the quick-check window.
pub fn quick_check_shortcut() -> (r: &'static str)
    ensures
        r@ == "super+shift+g"@,
{
    "super+shift+g"
}

/// Whether a shortcut event triggers: on press only, never on release.
pub fn is_trigger(state: ShortcutState) -> (r: bool)
    ensures
        r == (state == ShortcutState::Pressed),
{
    match state {
        ShortcutState::Pressed => true,
        ShortcutState::Released => false,
    }
}

} // verus!
