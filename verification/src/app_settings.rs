use vstd::prelude::*;

use crate::mascot_window::MascotWindowPlacement;
use crate::text::clone_opt;
use crate::codex::parser::opt_view;

verus! {

pub const APP_SETTINGS_CHANGED_EVENT: &'static str = "waifudex://app-settings-changed";
pub const SETTINGS_FILE_NAME: &'static str = "settings.json";
pub const BASE_MASCOT_WIDTH: u32 = 420;
pub const BASE_MASCOT_HEIGHT: u32 = 720;

/// The top-left corner of the character window on the desktop.
#[derive(Debug, Clone, Copy, PartialEq, Eq, Structural)]
pub struct CharacterWindowPosition {
    pub x: i32,
    pub y: i32,
}

/// Where the settings keep the character window: its monitor and position.
#[derive(Debug, Clone, PartialEq, Eq)]
pub struct CharacterPlacement {
    pub display_monitor_id: Option<String>,
    pub character_window_position: Option<CharacterWindowPosition>,
}

/// The reported monitor and position are those the settings already hold.
pub open spec fn unchanged_placement(current: CharacterPlacement, monitor: Option<Seq<char>>,
    position: Option<CharacterWindowPosition>) -> bool
{
    opt_view(current.display_monitor_id) == monitor && current.character_window_position == position
}

/// The placement settings after the window reported `display_monitor_id` and `position`;
/// `None` when nothing changed.
pub fn merge_character_window_placement(
    current: &CharacterPlacement,
    display_monitor_id: Option<String>,
    position: Option<CharacterWindowPosition>,
) -> (r: Option<CharacterPlacement>)
    ensures
        unchanged_placement(*current, opt_view(display_monitor_id), position) ==> r is None,
        !unchanged_placement(*current, opt_view(display_monitor_id), position)
            ==> r == Some(CharacterPlacement { display_monitor_id, character_window_position: position }),
{
    if same_id(&current.display_monitor_id, &display_monitor_id) && same_position(current.character_window_position, position) {
        return None;
    }
    Some(CharacterPlacement { display_monitor_id, character_window_position: position })
}

/// The placement to keep after a move of the window: what the window reports, or the
/// previous placement when that reports nothing new.
pub fn resolve_window_move_update(previous: &CharacterPlacement, placement: MascotWindowPlacement) -> (r: CharacterPlacement)
    ensures
        opt_view(r.display_monitor_id) == opt_view(placement.monitor_id),
        r.character_window_position == placement.position,
{
    match merge_character_window_placement(previous, placement.monitor_id, placement.position) {
        Some(resolved) => resolved,
        None => CharacterPlacement {
            display_monitor_id: clone_opt(&previous.display_monitor_id),
            character_window_position: previous.character_window_position,
        },
    }
}

fn same_id(a: &Option<String>, b: &Option<String>) -> (r: bool)
    ensures
        r == (opt_view(*a) == opt_view(*b)),
{
    match (a, b) {
        (Some(x), Some(y)) => {
            crate::json::str_eq(x.as_str(), y.as_str())
        },
        (None, None) => true,
        _ => false,
    }
}

fn same_position(a: Option<CharacterWindowPosition>, b: Option<CharacterWindowPosition>) -> (r: bool)
    ensures
        r == (a == b),
{
    match (a, b) {
        (Some(x), Some(y)) => x.x == y.x && x.y == y.y,
        (None, None) => true,
        _ => false,
    }
}

} // verus!
