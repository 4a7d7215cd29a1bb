use scene_flow::engine::{
    build_context, check_campaign_graph, evaluate_next_scenes_from_graph, evaluate_with_graph,
    next_scenes_for_current_dilemma, runtime_scene_from_typed_scene_ref,
    typed_scene_ref_for_runtime_scene, FlowEvalError,
};
use scene_flow::ids::{DilemmaSceneId, TypedSceneRef};
use scene_flow::lever::LeverState;
use scene_flow::scenes::{
    DialogueScene, DilemmaPathUtilitarian, DilemmaScene, EndingScene, Lab0Dilemma, Lab1aDialogue,
    Lab4Dilemma, Scene,
};
use scene_flow::schema::{FlowCondition, RouteDefinition, RouteRule, SceneProgressionGraph, SceneRef};
use scene_flow::stats::{DilemmaStats, GameStats};

fn lab0_graph() -> SceneProgressionGraph {
    SceneProgressionGraph {
        version: 1,
        routes: vec![RouteDefinition {
            from: SceneRef::Dilemma {
                id: String::from("lab_0.incompetent_bandit"),
            },
            rules: vec![RouteRule {
                name: String::from("fatalities_gt_0"),
                when: vec![FlowCondition::FatalitiesGt { value: 0 }],
                then_scenes: vec![SceneRef::Ending {
                    id: String::from("idiotic_psychopath"),
                }],
            }],
            default_then: vec![
                SceneRef::Dialogue {
                    id: String::from("lab_1.a.pass"),
                },
                SceneRef::Dilemma {
                    id: String::from("path_utilitarian.1"),
                },
            ],
        }],
    }
}

fn lab0() -> Scene {
    Scene::Dilemma(DilemmaScene::Lab0(Lab0Dilemma::IncompetentBandit))
}

#[test]
fn a_rule_that_holds_picks_its_scenes() {
    let latest = DilemmaStats {
        num_fatalities: 1,
        ..Default::default()
    };
    let next = evaluate_with_graph(&lab0_graph(), lab0(), &latest, &GameStats::default())
        .expect("graph evaluation should succeed");
    assert_eq!(next, Some(vec![Scene::Ending(EndingScene::IdioticPsychopath)]));
}

#[test]
fn without_a_rule_that_holds_the_default_scenes_follow() {
    let latest = DilemmaStats {
        result: Some(LeverState::Selected(0)),
        ..Default::default()
    };
    let next = evaluate_with_graph(&lab0_graph(), lab0(), &latest, &GameStats::default())
        .expect("graph evaluation should succeed");
    assert_eq!(
        next,
        Some(vec![
            Scene::Dialogue(DialogueScene::Lab1a(Lab1aDialogue::Pass)),
            Scene::Dilemma(DilemmaScene::PathUtilitarian(DilemmaPathUtilitarian::MarginOfError, 1)),
        ])
    );
}

#[test]
fn returns_none_when_scene_has_no_route_in_graph() {
    let next = evaluate_with_graph(
        &lab0_graph(),
        Scene::Dilemma(DilemmaScene::Lab4(Lab4Dilemma::RandomDeaths)),
        &DilemmaStats::default(),
        &GameStats::default(),
    )
    .expect("graph evaluation should succeed");
    assert_eq!(next, None);
    let from_dialogue = evaluate_with_graph(
        &lab0_graph(),
        Scene::Dialogue(DialogueScene::Lab1a(Lab1aDialogue::Pass)),
        &DilemmaStats::default(),
        &GameStats::default(),
    )
    .expect("graph evaluation should succeed");
    assert_eq!(from_dialogue, None);
}

#[test]
fn a_path_stage_without_a_dilemma_is_a_mapping_error() {
    let graph = SceneProgressionGraph {
        version: 1,
        routes: vec![RouteDefinition {
            from: SceneRef::Dilemma {
                id: String::from("lab_0.incompetent_bandit"),
            },
            rules: vec![],
            default_then: vec![SceneRef::Dilemma {
                id: String::from("path_utilitarian.3"),
            }],
        }],
    };
    match evaluate_with_graph(&graph, lab0(), &DilemmaStats::default(), &GameStats::default()) {
        Err(FlowEvalError::RouteMapping(message)) => {
            assert_eq!(message, "path_utilitarian stage 3 is out of range")
        }
        other => panic!("unexpected result: {other:?}"),
    }
}

#[test]
fn an_unknown_id_in_a_resolved_route_is_reported() {
    let graph = SceneProgressionGraph {
        version: 1,
        routes: vec![RouteDefinition {
            from: SceneRef::Dilemma {
                id: String::from("lab_0.incompetent_bandit"),
            },
            rules: vec![],
            default_then: vec![SceneRef::Ending {
                id: String::from("happily_ever_after"),
            }],
        }],
    };
    match evaluate_with_graph(&graph, lab0(), &DilemmaStats::default(), &GameStats::default()) {
        Err(FlowEvalError::RouteMapping(message)) => assert_eq!(
            message,
            "invalid scene id in resolved route: unknown ending id `happily_ever_after`"
        ),
        other => panic!("unexpected result: {other:?}"),
    }
}

#[test]
fn a_graph_that_could_not_be_had_leads_back_to_the_menu() {
    let missing: Result<SceneProgressionGraph, FlowEvalError> =
        Err(FlowEvalError::GraphParse(String::from("failed to parse campaign graph: eof")));
    let next = next_scenes_for_current_dilemma(&missing, lab0(), &DilemmaStats::default(), &GameStats::default());
    assert_eq!(next, Some(vec![Scene::Menu]));
    match evaluate_next_scenes_from_graph(&missing, lab0(), &DilemmaStats::default(), &GameStats::default()) {
        Err(error) => assert_eq!(error.to_string(), "failed to parse campaign graph: eof"),
        Ok(_) => panic!("expected the parse error"),
    }
}

#[test]
fn a_graph_with_problems_is_refused_with_their_count() {
    let graph = SceneProgressionGraph {
        version: 1,
        routes: vec![RouteDefinition {
            from: SceneRef::Menu,
            rules: vec![],
            default_then: vec![],
        }],
    };
    match check_campaign_graph(graph) {
        Err(error) => {
            assert!(matches!(error, FlowEvalError::GraphValidation(ref errors) if errors.len() == 2));
            assert_eq!(error.to_string(), "campaign graph failed validation with 2 error(s)");
        }
        Ok(_) => panic!("expected validation errors"),
    }
    assert!(check_campaign_graph(lab0_graph()).is_ok());
}

#[test]
fn a_mapping_error_falls_back_to_the_menu() {
    let graph = SceneProgressionGraph {
        version: 1,
        routes: vec![RouteDefinition {
            from: SceneRef::Dilemma {
                id: String::from("lab_0.incompetent_bandit"),
            },
            rules: vec![],
            default_then: vec![SceneRef::Dilemma {
                id: String::from("path_deontological.3"),
            }],
        }],
    };
    let next = next_scenes_for_current_dilemma(&Ok(graph), lab0(), &DilemmaStats::default(), &GameStats::default());
    assert_eq!(next, Some(vec![Scene::Menu]));
}

#[test]
fn random_deaths_scene_has_no_followup_route() {
    let next = next_scenes_for_current_dilemma(
        &Ok(lab0_graph()),
        Scene::Dilemma(DilemmaScene::Lab4(Lab4Dilemma::RandomDeaths)),
        &DilemmaStats::default(),
        &GameStats::default(),
    );
    assert!(next.is_none());
}

#[test]
fn the_context_lists_earlier_dilemmas_most_recent_first() {
    let stats = GameStats {
        total_decisions: 7,
        dilemma_stats: vec![
            DilemmaStats {
                result: Some(LeverState::Selected(1)),
                num_decisions: 3,
                ..Default::default()
            },
            DilemmaStats {
                result: Some(LeverState::Random),
                num_decisions: 4,
                ..Default::default()
            },
        ],
        ..Default::default()
    };
    let latest = DilemmaStats {
        result: Some(LeverState::Selected(2)),
        num_fatalities: 5,
        num_decisions: 1,
        duration_remaining_at_last_decision_ms: Some(1500),
        ..Default::default()
    };
    let context = build_context(&latest, &stats);
    assert_eq!(context.num_fatalities, 5);
    assert_eq!(context.num_decisions, 1);
    assert_eq!(context.total_decisions, 7);
    assert_eq!(context.selected_option, Some(2));
    assert_eq!(context.duration_remaining_at_last_decision_ms, Some(1500));
    assert_eq!(context.overall_avg_time_remaining_ms, None);
    assert_eq!(context.previous_selected_options, vec![None, Some(1)]);
    assert_eq!(context.previous_num_decisions, vec![4, 3]);
}

#[test]
fn runtime_scenes_and_graph_ids_correspond() {
    let dilemma = TypedSceneRef::Dilemma(DilemmaSceneId::PathUtilitarian { stage: 2 });
    let scene = runtime_scene_from_typed_scene_ref(dilemma).expect("stage 2 exists");
    assert_eq!(
        scene,
        Scene::Dilemma(DilemmaScene::PathUtilitarian(DilemmaPathUtilitarian::NegligibleDifference, 2))
    );
    assert_eq!(typed_scene_ref_for_runtime_scene(scene), Some(dilemma));
    assert_eq!(typed_scene_ref_for_runtime_scene(Scene::Menu), Some(TypedSceneRef::Menu));
    assert_eq!(
        typed_scene_ref_for_runtime_scene(Scene::Ending(EndingScene::TrueNeutral)),
        None
    );
}
