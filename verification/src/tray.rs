//! The tray menu: which entry asks for what.

use crate::text::same_text;
use vstd::prelude::*;

verus! {

/// What a click on an entry of the tray menu asks for.
#[derive(Debug, Clone, Copy, PartialEq, Eq, Structural)]
pub enum TrayCommand {
    Show,
    Hide,
    ToggleAlwaysOnTop,
    Refresh,
    Quit,
    /// An entry that the menu does not know.
    Nothing,
}

/// The command of the menu entry `id`.
pub open spec fn command_of(id: Seq<char>) -> TrayCommand {
    if id == "show"@ {
        TrayCommand::Show
    } else if id == "hide"@ {
        TrayCommand::Hide
    } else if id == "always_on_top"@ {
        TrayCommand::ToggleAlwaysOnTop
    } else if id == "refresh"@ {
        TrayCommand::Refresh
    } else if id == "quit"@ {
        TrayCommand::Quit
    } else {
        TrayCommand::Nothing
    }
}

/// The tray of a build without tray support: there is none.
pub fn create_system_tray() -> (r: Option<()>)
    ensures
        r is None,
{
    None
}

/// The command of the menu entry `id`.
pub fn menu_command(id: &str) -> (r: TrayCommand)
    ensures
        r == command_of(id@),
{
    if same_text(id, "show") {
        TrayCommand::Show
    } else if same_text(id, "hide") {
        TrayCommand::Hide
    } else if same_text(id, "always_on_top") {
        TrayCommand::ToggleAlwaysOnTop
    } else if same_text(id, "refresh") {
        TrayCommand::Refresh
    } else if same_text(id, "quit") {
        TrayCommand::Quit
    } else {
        TrayCommand::Nothing
    }
}

} // verus!
