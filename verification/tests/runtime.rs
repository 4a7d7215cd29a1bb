use scene_flow::runtime::{SceneNavigationError, SceneNavigator};
use scene_flow::scenes::{
    DialogueScene, DilemmaScene, EndingScene, Lab0Dialogue, Lab0Dilemma, Scene, SceneQueue,
};
use scene_flow::states::{DilemmaPhase, GameState, MainState, StateVector};

#[test]
fn state_vector_for_dilemma_sets_intro_substate() {
    let scene = Scene::Dilemma(DilemmaScene::Lab0(Lab0Dilemma::IncompetentBandit));

    assert_eq!(
        SceneNavigator::state_vector_for(scene),
        StateVector::new(
            Some(MainState::InGame),
            Some(GameState::Dilemma),
            Some(DilemmaPhase::Intro),
        )
    );
}

#[test]
fn state_vector_for_menu_sets_only_main_state() {
    assert_eq!(
        SceneNavigator::state_vector_for(Scene::Menu),
        StateVector::new(Some(MainState::Menu), None, None)
    );
}

#[test]
fn fallback_state_vector_routes_to_menu() {
    assert_eq!(
        SceneNavigator::fallback_state_vector(),
        StateVector::new(Some(MainState::Menu), None, None)
    );
}

#[test]
fn advance_moves_queue_and_returns_route() {
    let mut queue = SceneQueue::default();

    let (scene, state_vector) = SceneNavigator::advance(&mut queue).expect("queue should advance");

    assert!(matches!(scene, Scene::Loading));
    assert_eq!(
        state_vector,
        StateVector::new(Some(MainState::InGame), Some(GameState::Loading), None)
    );
    assert!(matches!(queue.current_scene(), Scene::Loading));
    assert!(matches!(
        queue.next_scene(),
        Some(Scene::Dialogue(DialogueScene::Lab0(Lab0Dialogue::Intro)))
    ));
}

#[test]
fn advance_on_empty_queue_returns_error() {
    let mut queue = SceneQueue::default();
    queue.replace(vec![]);

    assert!(matches!(
        SceneNavigator::advance(&mut queue),
        Err(SceneNavigationError::EmptyQueue)
    ));
}

#[test]
fn state_vector_for_ending_routes_to_ending_game_state() {
    let scene = Scene::Ending(EndingScene::TrueNeutral);

    assert_eq!(
        SceneNavigator::state_vector_for(scene),
        StateVector::new(Some(MainState::InGame), Some(GameState::Ending), None)
    );
}

#[test]
fn dialogue_and_loading_scenes_play_in_game() {
    let dialogue = Scene::Dialogue(DialogueScene::Lab0(Lab0Dialogue::Intro));
    assert_eq!(
        SceneNavigator::state_vector_for(dialogue),
        StateVector::new(Some(MainState::InGame), Some(GameState::Dialogue), None)
    );
    assert_eq!(
        SceneNavigator::state_vector_for(Scene::Loading),
        StateVector::new(Some(MainState::InGame), Some(GameState::Loading), None)
    );
}
