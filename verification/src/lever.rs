//! The lever that the player pulls to choose among a dilemma's options.
use vstd::prelude::*;

verus! {

/// The option the lever points at, or `Random` when it points at none.
#[derive(Debug, Clone, Copy, PartialEq, Eq, Hash, Structural)]
pub enum LeverState {
    Selected(usize),
    Random,
}

/// The option index that `state` points at.
pub open spec fn lever_index(state: LeverState) -> Option<usize> {
    match state {
        LeverState::Selected(index) => Some(index),
        LeverState::Random => None,
    }
}

impl LeverState {
    pub fn to_int(&self) -> (r: Option<usize>)
        ensures
            r == lever_index(*self),
    {
        match self {
            LeverState::Selected(index) => Some(*index),
            LeverState::Random => None,
        }
    }

    pub fn from_option_index(option_index: Option<usize>) -> (r: LeverState)
        ensures
            lever_index(r) == option_index,
    {
        match option_index {
            Some(index) => LeverState::Selected(index),
            None => LeverState::Random,
        }
    }
}

/// The lever: where it points, and how many options it chooses among.
#[derive(Debug, Clone, Copy, PartialEq, Eq, Structural)]
pub struct Lever(pub LeverState, pub usize);

/// A lever always has at least one option.
pub open spec fn normalized_count(option_count: usize) -> usize {
    if option_count < 1 { 1 } else { option_count }
}

/// `state` brought within `count` options: a selected index past the last option points at
/// the last option.
pub open spec fn clamp_state(state: LeverState, count: usize) -> LeverState {
    match state {
        LeverState::Selected(index) => LeverState::Selected(if index < count { index } else { (count - 1) as usize }),
        LeverState::Random => LeverState::Random,
    }
}

impl Lever {
    pub fn with_option_count(state: LeverState, option_count: usize) -> (r: Lever)
        ensures
            r.1 == normalized_count(option_count),
            r.0 == clamp_state(state, normalized_count(option_count)),
    {
        let normalized = if option_count < 1 { 1 } else { option_count };
        let normalized_state = match state {
            LeverState::Selected(index) => LeverState::Selected(if index < normalized { index } else { normalized - 1 }),
            LeverState::Random => LeverState::Random,
        };
        Lever(normalized_state, normalized)
    }

    pub fn set_state_and_options(&mut self, state: LeverState, option_count: usize)
        ensures
            final(self).1 == normalized_count(option_count),
            final(self).0 == clamp_state(state, normalized_count(option_count)),
    {
        *self = Lever::with_option_count(state, option_count);
    }

    fn normalized_option_count(&self) -> (r: usize)
        ensures
            r == normalized_count(self.1),
    {
        if self.1 < 1 { 1 } else { self.1 }
    }

    /// The option the lever points at, within the options it has.
    pub fn selected_index(&self) -> (r: Option<usize>)
        ensures
            r == lever_index(clamp_state(self.0, normalized_count(self.1))),
            r matches Some(i) ==> i < normalized_count(self.1),
    {
        let option_count = self.normalized_option_count();
        match self.0 {
            LeverState::Selected(index) => Some(if index < option_count { index } else { option_count - 1 }),
            LeverState::Random => None,
        }
    }

    /// Points the lever at `selected_index`, or at no option.
    pub fn set_selected_index(&mut self, selected_index: Option<usize>)
        ensures
            final(self).1 == old(self).1,
            final(self).0 == clamp_state(LeverState::from_spec(selected_index), normalized_count(old(self).1)),
    {
        let count = self.normalized_option_count();
        self.0 = match selected_index {
            Some(index) => LeverState::Selected(if index < count { index } else { count - 1 }),
            None => LeverState::Random,
        };
    }
}

impl LeverState {
    /// The state that points at `option_index`.
    pub open spec fn from_spec(option_index: Option<usize>) -> LeverState {
        match option_index {
            Some(index) => LeverState::Selected(index),
            None => LeverState::Random,
        }
    }
}

impl Default for Lever {
    fn default() -> (r: Lever)
        ensures
            r == Lever(LeverState::Random, 1),
    {
        Lever(LeverState::Random, 1)
    }
}

} // verus!
