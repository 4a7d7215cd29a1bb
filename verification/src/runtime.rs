//! Moving from one scene to the next: which states each scene needs.
use vstd::prelude::*;

use crate::scenes::{Scene, SceneQueue};
use crate::states::{DilemmaPhase, GameState, MainState, StateVector};

verus! {

#[derive(Debug, Clone, Copy, PartialEq, Eq, Structural)]
pub enum SceneNavigationError {
    EmptyQueue,
}

pub struct SceneNavigator;

/// The states that `scene` is played in: the menu alone, or in-game with the scene's kind,
/// and a dilemma starts at its intro.
pub open spec fn state_vector_spec(scene: Scene) -> StateVector {
    match scene {
        Scene::Menu => StateVector { main: Some(MainState::Menu), game: None, sub: None },
        Scene::Loading => StateVector { main: Some(MainState::InGame), game: Some(GameState::Loading), sub: None },
        Scene::Dialogue(_) => StateVector { main: Some(MainState::InGame), game: Some(GameState::Dialogue), sub: None },
        Scene::Dilemma(_) => StateVector {
            main: Some(MainState::InGame),
            game: Some(GameState::Dilemma),
            sub: Some(DilemmaPhase::Intro),
        },
        Scene::Ending(_) => StateVector { main: Some(MainState::InGame), game: Some(GameState::Ending), sub: None },
    }
}

impl SceneNavigator {
    /// Where play goes when nothing else is known: the menu.
    pub fn fallback_state_vector() -> (r: StateVector)
        ensures
            r == (StateVector { main: Some(MainState::Menu), game: None, sub: None }),
    {
        StateVector::new(Some(MainState::Menu), None, None)
    }

    pub fn state_vector_for(scene: Scene) -> (r: StateVector)
        ensures
            r == state_vector_spec(scene),
    {
        match scene {
            Scene::Menu => StateVector::new(Some(MainState::Menu), None, None),
            Scene::Loading => StateVector::new(Some(MainState::InGame), Some(GameState::Loading), None),
            Scene::Dialogue(_) => StateVector::new(Some(MainState::InGame), Some(GameState::Dialogue), None),
            Scene::Dilemma(_) => StateVector::new(
                Some(MainState::InGame),
                Some(GameState::Dilemma),
                Some(DilemmaPhase::Intro),
            ),
            Scene::Ending(_) => StateVector::new(Some(MainState::InGame), Some(GameState::Ending), None),
        }
    }

    /// Moves the queue on one scene and gives that scene with its states; an empty queue is an
    /// error and is left as it is.
    pub fn advance(queue: &mut SceneQueue) -> (r: Result<(Scene, StateVector), SceneNavigationError>)
        ensures
            old(queue).pending().len() == 0 ==> {
                &&& r == Err::<(Scene, StateVector), SceneNavigationError>(SceneNavigationError::EmptyQueue)
                &&& final(queue).pending() == old(queue).pending()
                &&& final(queue).current() == old(queue).current()
                &&& final(queue).mode() == old(queue).mode()
            },
            old(queue).pending().len() > 0 ==> {
                &&& r == Ok::<(Scene, StateVector), SceneNavigationError>((old(queue).pending()[0], state_vector_spec(old(queue).pending()[0])))
                &&& final(queue).pending() == old(queue).pending().drop_first()
                &&& final(queue).current() == old(queue).pending()[0]
                &&& final(queue).mode() == old(queue).mode()
            },
    {
        match queue.try_pop() {
            Some(scene) => Ok((scene, Self::state_vector_for(scene))),
            None => Err(SceneNavigationError::EmptyQueue),
        }
    }
}

} // verus!
