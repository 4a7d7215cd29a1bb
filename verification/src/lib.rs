//! Scene flow of a trolley-problem game: scene identifiers, the campaign graph,
//! its validation and evaluation, and the scene queue that drives play.
use vstd::prelude::*;

pub mod controls;
pub mod decision;
pub mod dialogue;
pub mod dilemma;
pub mod ending;
pub mod engine;
pub mod ids;
pub mod lever;
pub mod loading;
pub mod menu_control;
pub mod menus;
pub mod results;
pub mod runtime;
pub mod scenes;
pub mod schema;
pub mod states;
pub mod stats;
pub mod text;
pub mod validate;
pub mod video;
pub mod viewer;
pub mod visualize;
pub mod visuals;

verus! {

} // verus!
