use vstd::prelude::*;
use vstd::string::StringExecFns;

verus! {

/// A key combination: modifier flags and the main key, in upper case.
#[derive(Clone, Copy, PartialEq, Eq, Structural)]
pub struct Shortcut {
    pub control: bool,
    pub alt: bool,
    pub shift: bool,
    pub meta: bool,
    pub key: char,
}

/// Whether a key went down or came back up.
#[derive(Clone, Copy, PartialEq, Eq, Structural)]
pub enum KeyState {
    Pressed,
    Released,
}

/// A mouse button.
#[derive(Clone, Copy, PartialEq, Eq, Structural)]
pub enum MouseButton {
    Left,
    Right,
    Middle,
}

/// Whether a mouse button went down or came back up.
#[derive(Clone, Copy, PartialEq, Eq, Structural)]
pub enum ButtonState {
    Down,
    Up,
}

/// Something that happened to the application shell.
pub enum ShellEvent {
    /// The main window gained (`true`) or lost (`false`) the focus.
    WindowFocus(bool),
    /// A registered global shortcut changed state.
    GlobalShortcut(Shortcut, KeyState),
    /// The tray icon was clicked.
    TrayClick(MouseButton, ButtonState),
    /// A tray menu entry was chosen, by its identifier.
    MenuChosen(String),
}

/// What the shell does in response.
#[derive(Clone, Copy, PartialEq, Eq, Structural)]
pub enum ShellAction {
    /// Leave everything as it is.
    Ignore,
    /// Hide the main window.
    HideWindow,
    /// Show the main window, give it the focus and put the cursor at its centre.
    SummonWindow,
    /// Exit the application with status 0.
    Quit,
}

/// The shortcut that summons the main window: Ctrl+Alt+S.
pub open spec fn summon_shortcut_spec() -> Shortcut {
    Shortcut { control: true, alt: true, shift: false, meta: false, key: 'S' }
}

/// Identifier of the tray menu entry that opens the main window.
pub open spec fn open_id() -> Seq<char> {
    seq!['o', 'p', 'e', 'n']
}

/// Identifier of the tray menu entry that quits.
pub open spec fn quit_id() -> Seq<char> {
    seq!['q', 'u', 'i', 't']
}

/// The response to each event: losing the focus hides the window; releasing
/// the summon shortcut, a left click released on the tray icon, and the
/// "open" entry summon it; the "quit" entry quits; anything else is ignored.
pub open spec fn action_for(event: ShellEvent) -> ShellAction {
    match event {
        ShellEvent::WindowFocus(focused) => if focused {
            ShellAction::Ignore
        } else {
            ShellAction::HideWindow
        },
        ShellEvent::GlobalShortcut(s, state) => if s == summon_shortcut_spec() && state
            == KeyState::Released {
            ShellAction::SummonWindow
        } else {
            ShellAction::Ignore
        },
        ShellEvent::TrayClick(button, state) => if button == MouseButton::Left && state
            == ButtonState::Up {
            ShellAction::SummonWindow
        } else {
            ShellAction::Ignore
        },
        ShellEvent::MenuChosen(id) => if id@ == quit_id() {
            ShellAction::Quit
        } else if id@ == open_id() {
            ShellAction::SummonWindow
        } else {
            ShellAction::Ignore
        },
    }
}

/// The shortcut to register for summoning the main window.
pub fn summon_shortcut() -> (r: Shortcut)
    ensures
        r == summon_shortcut_spec(),
{
    Shortcut { control: true, alt: true, shift: false, meta: false, key: 'S' }
}

/// The tray menu as (identifier, label) pairs, in display order.
pub fn tray_menu() -> (r: Vec<(String, String)>)
    ensures
        r@.len() == 2,
        r@[0].0@ == open_id(),
        r@[0].1@ == seq!['O', 'p', 'e', 'n'],
        r@[1].0@ == quit_id(),
        r@[1].1@ == seq!['Q', 'u', 'i', 't'],
{
    proof {
        reveal_strlit("open");
        reveal_strlit("Open");
        reveal_strlit("quit");
        reveal_strlit("Quit");
    }
    let mut r: Vec<(String, String)> = Vec::new();
    r.push((String::from_str("open"), String::from_str("Open")));
    r.push((String::from_str("quit"), String::from_str("Quit")));
    r
}

/// Decides how the shell responds to an event.
pub fn respond(event: &ShellEvent) -> (r: ShellAction)
    ensures
        r == action_for(*event),
{
    match event {
        ShellEvent::WindowFocus(focused) => if *focused {
            ShellAction::Ignore
        } else {
            ShellAction::HideWindow
        },
        ShellEvent::GlobalShortcut(s, state) => {
            let summon = summon_shortcut();
            if *s == summon && *state == KeyState::Released {
                ShellAction::SummonWindow
            } else {
                ShellAction::Ignore
            }
        },
        ShellEvent::TrayClick(button, state) => {
            if *button == MouseButton::Left && *state == ButtonState::Up {
                ShellAction::SummonWindow
            } else {
                ShellAction::Ignore
            }
        },
        ShellEvent::MenuChosen(id) => {
            proof {
                reveal_strlit("quit");
                reveal_strlit("open");
            }
            let quit = String::from_str("quit");
            let open = String::from_str("open");
            assert(quit@ =~= quit_id());
            assert(open@ =~= open_id());
            if *id == quit {
                ShellAction::Quit
            } else if *id == open {
                ShellAction::SummonWindow
            } else {
                ShellAction::Ignore
            }
        },
    }
}

} // verus!
