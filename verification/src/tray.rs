//! What the tray icon shows and what its menu does.

use vstd::prelude::*;
use crate::text::str_equal;

verus! {

/// What the tray icon stands for.
#[derive(Clone, Copy, Debug, PartialEq, Eq, Structural)]
pub enum TrayState {
    Idle,
    Listening,
    Recording,
}

/// The tooltip of the tray icon in the state `state`.
pub open spec fn tooltip_spec(state: TrayState) -> Seq<char> {
    match state {
        TrayState::Idle => "Transcribble - Idle"@,
        TrayState::Listening => "Transcribble - Listening"@,
        TrayState::Recording => "Transcribble - Recording..."@,
    }
}

impl TrayState {
    /// The tooltip of the tray icon.
    pub fn tooltip(&self) -> (text: &'static str)
        ensures
            text@ == tooltip_spec(*self),
    {
        match self {
            TrayState::Idle => "Transcribble - Idle",
            TrayState::Listening => "Transcribble - Listening",
            TrayState::Recording => "Transcribble - Recording...",
        }
    }
}

/// What an entry of the tray menu does.
#[derive(Clone, Copy, Debug, PartialEq, Eq, Structural)]
pub enum MenuAction {
    Quit,
    ShowWindow,
    HideWindow,
    Nothing,
}

/// The action of the menu entry with the identifier `id`.
pub open spec fn menu_action_spec(id: Seq<char>) -> MenuAction {
    if id == "quit"@ {
        MenuAction::Quit
    } else if id == "show"@ {
        MenuAction::ShowWindow
    } else if id == "hide"@ {
        MenuAction::HideWindow
    } else {
        MenuAction::Nothing
    }
}

/// Finds what a menu entry does.
pub fn menu_action(id: &str) -> (action: MenuAction)
    ensures
        action == menu_action_spec(id@),
{
    if str_equal(id, "quit") {
        MenuAction::Quit
    } else if str_equal(id, "show") {
        MenuAction::ShowWindow
    } else if str_equal(id, "hide") {
        MenuAction::HideWindow
    } else {
        MenuAction::Nothing
    }
}

/// What a left click on the tray icon does to a window that is or is not
/// visible: it hides a visible window and shows a hidden one.
pub fn toggle_window(visible: bool) -> (action: MenuAction)
    ensures
        action == if visible {
            MenuAction::HideWindow
        } else {
            MenuAction::ShowWindow
        },
{
    if visible {
        MenuAction::HideWindow
    } else {
        MenuAction::ShowWindow
    }
}

} // verus!
