//! The state machine layers the game switches between: main, in-game, dilemma phase, pause.
use vstd::prelude::*;

verus! {

#[derive(Debug, Clone, Copy, PartialEq, Eq, Hash, Structural)]
pub enum MainState {
    Menu,
    InGame,
    Debug,
}

#[derive(Debug, Clone, Copy, PartialEq, Eq, Hash, Structural)]
pub enum GameState {
    Loading,
    Dialogue,
    Dilemma,
    Ending,
}

#[derive(Debug, Clone, Copy, PartialEq, Eq, Hash, Structural)]
pub enum DilemmaPhase {
    Intro,
    DilemmaTransition,
    Decision,
    DecisionDecisionTransition,
    Skip,
    Consequence,
    Results,
}

#[derive(Debug, Clone, Copy, PartialEq, Eq, Hash, Structural)]
pub enum PauseState {
    Unpaused,
    Paused,
}

/// The states to switch to, one per layer; `None` leaves that layer as it is.
#[derive(Debug, Clone, Copy, PartialEq, Eq, Hash, Structural)]
pub struct StateVector {
    pub main: Option<MainState>,
    pub game: Option<GameState>,
    pub sub: Option<DilemmaPhase>,
}

impl StateVector {
    pub fn new(main: Option<MainState>, game: Option<GameState>, sub: Option<DilemmaPhase>) -> (r: StateVector)
        ensures
            r == (StateVector { main, game, sub }),
    {
        StateVector { main, game, sub }
    }
}

} // verus!
