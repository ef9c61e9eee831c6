use vstd::prelude::*;

verus! {

/// One entry of the tray menu.
pub struct MenuEntry {
    /// Stable id used for dispatch.
    pub id: String,
    /// Text shown to the user.
    pub text: String,
    pub enabled: bool,
}

/// What an activated menu id asks for.
#[derive(Clone, Copy, Debug, PartialEq, Eq, Structural)]
pub enum MenuCommand {
    /// Reveal the main window.
    Open,
    /// Reveal or create the popup window.
    QuickCheck,
    /// End the process.
    Quit,
    /// An id this version does not know; ignored.
    Unknown,
}

/// The command named by a menu id.
pub open spec fn command_of(id: Seq<char>) -> MenuCommand {
    if id == "open"@ {
        MenuCommand::Open
    } else if id == "quick_check"@ {
        MenuCommand::QuickCheck
    } else if id == "quit"@ {
        MenuCommand::Quit
    } else {
        MenuCommand::Unknown
    }
}

/// The entry with the given id, text and enabled flag.
pub open spec fn entry_is(e: MenuEntry, id: Seq<char>, text: Seq<char>, enabled: bool) -> bool {
    e.id@ == id && e.text@ == text && e.enabled == enabled
}

/// Builds one enabled menu entry.
fn enabled_entry(id: &str, text: &str) -> (r: MenuEntry)
    ensures
        entry_is(r, id@, text@, true),
{
    MenuEntry { id: id.to_owned(), text: text.to_owned(), enabled: true }
}

/// The tray menu, in display order: open, quick check, quit, all enabled.
pub fn tray_menu() -> (r: Vec<MenuEntry>)
    ensures
        r@.len() == 3,
        entry_is(r@[0], "open"@, "Open Bex"@, true),
        entry_is(r@[1], "quick_check"@, "Quick Check"@, true),
        entry_is(r@[2], "quit"@, "Quit"@, true),
        forall|i: int, j: int|
            0 <= i < j < r@.len() ==> #[trigger] r@[i].id@ != #[trigger] r@[j].id@,
        forall|i: int| 0 <= i < r@.len() ==> #[trigger] command_of(r@[i].id@) != MenuCommand::Unknown,
{
    let mut r: Vec<MenuEntry> = Vec::new();
    r.push(enabled_entry("open", "Open Bex"));
    r.push(enabled_entry("quick_check", "Quick Check"));
    r.push(enabled_entry("quit", "Quit"));
    proof {
        reveal_strlit("open");
        reveal_strlit("quick_check");
        reveal_strlit("quit");
        assert("open"@.len() != "quick_check"@.len());
        assert("quick_check"@.len() != "quit"@.len());
        assert("open"@[1] != "quit"@[1]);
    }
    r
}

/// Parses an activated menu id.
pub fn menu_command(id: &str) -> (r: MenuCommand)
    ensures
        r == command_of(id@),
{
    let owned: String = id.to_owned();
    if owned == "open".to_owned() {
        MenuCommand::Open
    } else if owned == "quick_check".to_owned() {
        MenuCommand::QuickCheck
    } else if owned == "quit".to_owned() {
        MenuCommand::Quit
    } else {
        MenuCommand::Unknown
    }
}

/// A mouse button, as reported with a tray icon click.
#[derive(Clone, Copy, Debug, PartialEq, Eq, Structural)]
pub enum MouseButton {
    Left,
    Right,
    Middle,
}

/// The phase of a click: the press or the release.
#[derive(Clone, Copy, Debug, PartialEq, Eq, Structural)]
pub enum MouseButtonState {
    Up,
    Down,
}

/// Whether a tray icon click asks for the main window: a completed click
/// (release) of the primary button.
pub open spec fn click_reveals_main(button: MouseButton, state: MouseButtonState) -> bool {
    button == MouseButton::Left && state == MouseButtonState::Up
}

/// Filters tray icon clicks; other buttons and the press are left to the host.
pub fn is_reveal_click(button: MouseButton, state: MouseButtonState) -> (r: bool)
    ensures
        r == click_reveals_main(button, state),
{
    match (button, state) {
        (MouseButton::Left, MouseButtonState::Up) => true,
        _ => false,
    }
}

} // verus!
