use vstd::prelude::*;

use crate::json::str_eq;

verus! {

pub const TRAY_ID: &'static str = "waifudex-tray";
pub const ALWAYS_ON_TOP_ID: &'static str = "always-on-top";
pub const CHARACTER_VISIBILITY_ID: &'static str = "character-visibility";
pub const SETTINGS_ID: &'static str = "settings";
pub const QUIT_ID: &'static str = "quit";

/// What a click on an item of the tray menu asks for.
#[derive(Debug, Clone, Copy, PartialEq, Eq, Structural)]
pub enum TrayCommand {
    ToggleCharacter,
    ToggleAlwaysOnTop,
    OpenSettings,
    Quit,
    Ignore,
}

/// The command of the tray menu item with id `id`.
pub open spec fn command_of(id: Seq<char>) -> TrayCommand {
    if id == "character-visibility"@ {
        TrayCommand::ToggleCharacter
    } else if id == "always-on-top"@ {
        TrayCommand::ToggleAlwaysOnTop
    } else if id == "settings"@ {
        TrayCommand::OpenSettings
    } else if id == "quit"@ {
        TrayCommand::Quit
    } else {
        TrayCommand::Ignore
    }
}

pub fn tray_command_for(id: &str) -> (r: TrayCommand)
    ensures
        r == command_of(id@),
{
    if str_eq(id, CHARACTER_VISIBILITY_ID) {
        TrayCommand::ToggleCharacter
    } else if str_eq(id, ALWAYS_ON_TOP_ID) {
        TrayCommand::ToggleAlwaysOnTop
    } else if str_eq(id, SETTINGS_ID) {
        TrayCommand::OpenSettings
    } else if str_eq(id, QUIT_ID) {
        TrayCommand::Quit
    } else {
        TrayCommand::Ignore
    }
}

/// The text of the menu item that shows or hides the character.
pub open spec fn toggle_label(visible: bool) -> Seq<char> {
    if visible { "Hide character"@ } else { "Show character"@ }
}

pub fn character_toggle_label(visible: bool) -> (r: &'static str)
    ensures
        r@ == toggle_label(visible),
{
    if visible {
        "Hide character"
    } else {
        "Show character"
    }
}

} // verus!
