//! The keys that switch the game's top-level states: Escape pauses and resumes play or closes
//! the window from the menus, F3 and Q enter and leave the debug mode.
use vstd::prelude::*;

use crate::states::{MainState, PauseState};

verus! {

/// The pause state that Escape asks for: it pauses play and resumes it, except while the
/// pause menu is open, which handles Escape itself.
pub fn escape_pause_toggle(pause: PauseState, pause_menu_open: bool, escape_pressed: bool) -> (r: Option<PauseState>)
    ensures
        r == (if !escape_pressed || (pause == PauseState::Paused && pause_menu_open) {
            None
        } else {
            Some(match pause {
                PauseState::Unpaused => PauseState::Paused,
                PauseState::Paused => PauseState::Unpaused,
            })
        }),
{
    if !escape_pressed {
        return None;
    }
    if pause == PauseState::Paused && pause_menu_open {
        return None;
    }
    match pause {
        PauseState::Unpaused => Some(PauseState::Paused),
        PauseState::Paused => Some(PauseState::Unpaused),
    }
}

/// Escape asks to close the window everywhere but in play.
pub fn escape_closes_window(main: MainState, escape_pressed: bool) -> (r: bool)
    ensures
        r == (escape_pressed && main != MainState::InGame),
{
    escape_pressed && main != MainState::InGame
}

/// The main state that F3 and Q ask for: F3 enters the debug mode, or leaves it for the menu;
/// without F3, Q leaves the debug mode for the menu.
pub fn debug_mode_toggle(main: MainState, f3_pressed: bool, q_pressed: bool) -> (r: Option<MainState>)
    ensures
        r == (if f3_pressed {
            Some(if main == MainState::Debug { MainState::Menu } else { MainState::Debug })
        } else if main == MainState::Debug && q_pressed {
            Some(MainState::Menu)
        } else {
            None
        }),
{
    if !f3_pressed {
        if main == MainState::Debug && q_pressed {
            return Some(MainState::Menu);
        }
        return None;
    }
    match main {
        MainState::Debug => Some(MainState::Menu),
        _ => Some(MainState::Debug),
    }
}

/// What the debug shortcuts spawn at the cursor: Ctrl with N a text window, Ctrl with F a
/// firework; nothing while the debug menu is open or without a cursor position.
#[derive(Debug, Clone, Copy, PartialEq, Eq, Structural)]
pub struct DebugSpawns {
    pub text_window: bool,
    pub firework: bool,
}

pub fn debug_shortcuts(
    menu_open: bool,
    ctrl_down: bool,
    cursor_known: bool,
    n_pressed: bool,
    f_pressed: bool,
) -> (r: DebugSpawns)
    ensures
        r == (if menu_open || !ctrl_down || !cursor_known {
            DebugSpawns { text_window: false, firework: false }
        } else {
            DebugSpawns { text_window: n_pressed, firework: f_pressed }
        }),
{
    if menu_open || !ctrl_down || !cursor_known {
        return DebugSpawns { text_window: false, firework: false };
    }
    DebugSpawns { text_window: n_pressed, firework: f_pressed }
}

} // verus!
