//! The ending scene: which ending to show, and the way back to the menu when there is none.
use vstd::prelude::*;

use crate::runtime::SceneNavigator;
use crate::scenes::{EndingScene, Scene};
use crate::states::{MainState, StateVector};
use crate::text::{push_str, string_of};

verus! {

/// An ending as its content file gives it.
#[derive(Debug, Clone, Default)]
pub struct Ending {
    pub name: String,
    pub description: String,
    pub narration: String,
    pub narration_path: String,
}

/// The menu's states, where play goes when no ending can be shown.
pub open spec fn menu_states() -> StateVector {
    StateVector { main: Some(MainState::Menu), game: None, sub: None }
}

/// The ending to show for the scene now playing, or the states to fall back to when the
/// scene is no ending.
pub fn ending_to_show(current: Scene) -> (r: Result<EndingScene, StateVector>)
    ensures
        r == (match current {
            Scene::Ending(ending) => Ok::<EndingScene, StateVector>(ending),
            _ => Err(menu_states()),
        }),
{
    match current {
        Scene::Ending(ending) => Ok(ending),
        _ => Err(SceneNavigator::fallback_state_vector()),
    }
}

/// The ending to show once its content was read, or the states to fall back to when it could
/// not be read.
pub fn ending_or_fallback<E>(content: Result<Ending, E>) -> (r: Result<Ending, StateVector>)
    ensures
        match content {
            Ok(ending) => r == Ok::<Ending, StateVector>(ending),
            Err(_) => r == Err::<Ending, StateVector>(menu_states()),
        },
{
    match content {
        Ok(ending) => Ok(ending),
        Err(_) => Err(SceneNavigator::fallback_state_vector()),
    }
}

/// The title of the window that describes an ending.
pub fn description_title(ending: &Ending) -> (r: String)
    ensures
        r@ == "Description: "@ + ending.name@,
{
    let mut r = string_of("Description: ");
    push_str(&mut r, ending.name.as_str());
    r
}

/// The big title of the ending scene.
pub const ENDING_TITLE: &'static str = "FALSE START";

/// The text of the button that starts the game over.
pub const ENDING_BUTTON_TEXT: &'static str = "[Click Here or Press Enter to Fade into Oblivion]";

} // verus!
