use scene_flow::engine::next_scenes_for_current_dilemma;
use scene_flow::lever::LeverState;
use scene_flow::scenes::{
    DialogueScene, DilemmaScene, EndingScene, Lab0Dilemma, Lab1Dilemma, Lab1aDialogue,
    Lab1bDialogue, Lab2Dilemma, Lab2aDialogue, Lab2bDialogue, Lab3Dilemma, Lab3aDialogue,
    Lab3bDialogue, Lab4Dialogue, Lab4Dilemma, PathOutcome, Scene,
};
use scene_flow::schema::{FlowCondition, RouteDefinition, RouteRule, SceneProgressionGraph, SceneRef};
use scene_flow::stats::{DilemmaStats, GameStats};
use scene_flow::validate::validate_graph;

fn dialogue(id: &str) -> SceneRef {
    SceneRef::Dialogue { id: String::from(id) }
}

fn dilemma(id: &str) -> SceneRef {
    SceneRef::Dilemma { id: String::from(id) }
}

fn ending(id: &str) -> SceneRef {
    SceneRef::Ending { id: String::from(id) }
}

fn rule(name: &str, when: Vec<FlowCondition>, then_scenes: Vec<SceneRef>) -> RouteRule {
    RouteRule { name: String::from(name), when, then_scenes }
}

fn route(from: SceneRef, rules: Vec<RouteRule>, default_then: Vec<SceneRef>) -> RouteDefinition {
    RouteDefinition { from, rules, default_then }
}

fn to_lab_one(first: &str) -> Vec<SceneRef> {
    vec![dialogue(first), dialogue("lab_1.b.intro"), dilemma("lab_1.near_sighted_bandit")]
}

fn to_lab_two(first: &str) -> Vec<SceneRef> {
    vec![dialogue(first), dialogue("lab_2.b.intro"), dilemma("lab_2.the_trolley_problem")]
}

fn to_utilitarian_path() -> Vec<SceneRef> {
    vec![
        dialogue("lab_3.a.pass_utilitarian"),
        dialogue("lab_3.b.intro"),
        dilemma("path_utilitarian.0"),
    ]
}

fn to_random_deaths(first: String) -> Vec<SceneRef> {
    vec![
        SceneRef::Dialogue { id: first },
        dialogue("lab_4.outro"),
        dilemma("lab_4.random_deaths"),
    ]
}

/// The campaign's lab, inaction and utilitarian branches as a graph: the routes that the game
/// took before its flow was read from a graph.
fn campaign_graph() -> SceneProgressionGraph {
    let one_second = 1000;
    let mut routes = vec![
        route(
            dilemma("lab_0.incompetent_bandit"),
            vec![
                rule(
                    "fatal",
                    vec![FlowCondition::FatalitiesGt { value: 0 }],
                    vec![dialogue("lab_1.a.fail"), dilemma("path_psychopath.0")],
                ),
                rule(
                    "very_indecisive",
                    vec![
                        FlowCondition::DecisionsGt { value: 10 },
                        FlowCondition::LastDecisionRemainingIsSome,
                    ],
                    vec![dialogue("lab_1.a.fail_very_indecisive"), ending("leverophile")],
                ),
                rule(
                    "slow",
                    vec![
                        FlowCondition::DecisionsGt { value: 0 },
                        FlowCondition::LastDecisionRemainingLtSecs { millis: one_second },
                    ],
                    to_lab_one("lab_1.a.pass_slow"),
                ),
                rule(
                    "indecisive",
                    vec![FlowCondition::DecisionsGt { value: 0 }],
                    to_lab_one("lab_1.a.pass_indecisive"),
                ),
            ],
            to_lab_one("lab_1.a.pass"),
        ),
        route(
            dilemma("lab_1.near_sighted_bandit"),
            vec![
                rule(
                    "fatal_indecisive",
                    vec![FlowCondition::FatalitiesGt { value: 0 }, FlowCondition::DecisionsGt { value: 0 }],
                    vec![dialogue("lab_2.a.fail_indecisive"), ending("leverophile")],
                ),
                rule(
                    "fatal_never_acted",
                    vec![FlowCondition::FatalitiesGt { value: 0 }, FlowCondition::TotalDecisionsEq { value: 0 }],
                    vec![dialogue("path_inaction.0.fail"), dilemma("path_inaction.0")],
                ),
                rule(
                    "fatal",
                    vec![FlowCondition::FatalitiesGt { value: 0 }],
                    vec![dialogue("lab_2.a.fail"), ending("impatient_psychopath")],
                ),
                rule(
                    "slow_again",
                    vec![
                        FlowCondition::DecisionsGt { value: 0 },
                        FlowCondition::LastDecisionRemainingIsSome,
                        FlowCondition::OverallAvgRemainingLtSecs { millis: one_second },
                    ],
                    to_lab_two("lab_2.a.pass_slow_again"),
                ),
                rule(
                    "slow",
                    vec![
                        FlowCondition::DecisionsGt { value: 0 },
                        FlowCondition::OverallAvgRemainingIsSome,
                        FlowCondition::LastDecisionRemainingLtSecs { millis: one_second },
                    ],
                    to_lab_two("lab_2.a.pass_slow"),
                ),
            ],
            to_lab_two("lab_2.a.pass"),
        ),
        route(
            dilemma("lab_2.the_trolley_problem"),
            vec![
                rule(
                    "fatal_indecisive",
                    vec![FlowCondition::FatalitiesEq { value: 5 }, FlowCondition::DecisionsGt { value: 0 }],
                    vec![dialogue("lab_3.a.fail_indecisive")],
                ),
                rule(
                    "fatal_inaction",
                    vec![FlowCondition::FatalitiesEq { value: 5 }],
                    vec![dialogue("lab_3.a.fail_inaction"), dilemma("lab_3.asleep_at_the_job")],
                ),
            ],
            to_utilitarian_path(),
        ),
        route(
            dilemma("lab_3.asleep_at_the_job"),
            vec![
                rule(
                    "fatal_indecisive",
                    vec![FlowCondition::FatalitiesEq { value: 5 }, FlowCondition::DecisionsGt { value: 0 }],
                    vec![dialogue("lab_3.a.fail_indecisive")],
                ),
                rule(
                    "fatal_inaction",
                    vec![FlowCondition::FatalitiesEq { value: 5 }],
                    vec![dialogue("path_deontological.0.fail"), dilemma("path_deontological.0")],
                ),
            ],
            to_utilitarian_path(),
        ),
    ];
    for current in 0..7usize {
        let next = current + 1;
        let rules = if next < 6 {
            vec![rule(
                "acted_before",
                vec![FlowCondition::TotalDecisionsGt { value: 0 }],
                vec![
                    SceneRef::Dialogue { id: format!("path_inaction.{next}.pass") },
                    dialogue("lab_2.b.intro"),
                    dilemma("lab_2.the_trolley_problem"),
                ],
            )]
        } else {
            vec![]
        };
        let default_then = if next < 7 {
            vec![
                SceneRef::Dialogue { id: format!("path_inaction.{next}.fail") },
                SceneRef::Dilemma { id: format!("path_inaction.{next}") },
            ]
        } else {
            vec![ending("true_neutral")]
        };
        routes.push(route(SceneRef::Dilemma { id: format!("path_inaction.{current}") }, rules, default_then));
    }
    for current in 0..3usize {
        let next = current + 1;
        let rules = vec![rule(
            "chose_the_other_track",
            vec![FlowCondition::SelectedOptionEq { value: 1 }],
            vec![
                SceneRef::Dialogue { id: format!("path_utilitarian.{next}.pass") },
                SceneRef::Dilemma { id: format!("path_utilitarian.{next}") },
            ],
        )];
        let default_then = to_random_deaths(format!("path_utilitarian.{next}.fail"));
        routes.push(route(SceneRef::Dilemma { id: format!("path_utilitarian.{current}") }, rules, default_then));
    }
    let graph = SceneProgressionGraph { version: 1, routes };
    assert!(validate_graph(&graph).is_empty(), "campaign graph should validate");
    graph
}

fn next(scene: Scene, latest: &DilemmaStats, stats: &GameStats) -> Option<Vec<Scene>> {
    next_scenes_for_current_dilemma(&Ok(campaign_graph()), scene, latest, stats)
}

fn inaction_dilemma(stage: usize) -> DilemmaScene {
    DilemmaScene::path_inaction(stage).unwrap()
}

fn utilitarian_dilemma(stage: usize) -> DilemmaScene {
    DilemmaScene::path_utilitarian(stage).unwrap()
}

fn lab_one_with(first: Lab1aDialogue) -> Vec<Scene> {
    vec![
        Scene::Dialogue(DialogueScene::Lab1a(first)),
        Scene::Dialogue(DialogueScene::Lab1b(Lab1bDialogue::DilemmaIntro)),
        Scene::Dilemma(DilemmaScene::Lab1(Lab1Dilemma::NearSightedBandit)),
    ]
}

fn lab_two_with(first: Lab2aDialogue) -> Vec<Scene> {
    vec![
        Scene::Dialogue(DialogueScene::Lab2a(first)),
        Scene::Dialogue(DialogueScene::Lab2b(Lab2bDialogue::Intro)),
        Scene::Dilemma(DilemmaScene::Lab2(Lab2Dilemma::TheTrolleyProblem)),
    ]
}

fn utilitarian_start() -> Vec<Scene> {
    vec![
        Scene::Dialogue(DialogueScene::Lab3a(Lab3aDialogue::PassUtilitarian)),
        Scene::Dialogue(DialogueScene::Lab3b(Lab3bDialogue::Intro)),
        Scene::Dilemma(utilitarian_dilemma(0)),
    ]
}

fn random_deaths_after(first: DialogueScene) -> Vec<Scene> {
    vec![
        Scene::Dialogue(first),
        Scene::Dialogue(DialogueScene::Lab4(Lab4Dialogue::Outro)),
        Scene::Dilemma(DilemmaScene::Lab4(Lab4Dilemma::RandomDeaths)),
    ]
}

fn baseline_lab_one(latest: &DilemmaStats) -> Vec<Scene> {
    if latest.num_fatalities > 0 {
        vec![
            Scene::Dialogue(DialogueScene::Lab1a(Lab1aDialogue::Fail)),
            Scene::Dilemma(DilemmaScene::path_psychopath(0).unwrap()),
        ]
    } else if latest.num_decisions > 0 {
        if let Some(remaining_ms) = latest.duration_remaining_at_last_decision_ms {
            if latest.num_decisions > 10 {
                vec![
                    Scene::Dialogue(DialogueScene::Lab1a(Lab1aDialogue::FailVeryIndecisive)),
                    Scene::Ending(EndingScene::Leverophile),
                ]
            } else if remaining_ms < 1000 {
                lab_one_with(Lab1aDialogue::PassSlow)
            } else {
                lab_one_with(Lab1aDialogue::PassIndecisive)
            }
        } else {
            lab_one_with(Lab1aDialogue::PassIndecisive)
        }
    } else {
        lab_one_with(Lab1aDialogue::Pass)
    }
}

fn baseline_lab_two(latest: &DilemmaStats, stats: &GameStats) -> Vec<Scene> {
    if latest.num_fatalities > 0 {
        if latest.num_decisions > 0 {
            vec![
                Scene::Dialogue(DialogueScene::Lab2a(Lab2aDialogue::FailIndecisive)),
                Scene::Ending(EndingScene::Leverophile),
            ]
        } else if stats.total_decisions == 0 {
            vec![
                Scene::Dialogue(DialogueScene::path_inaction(0, PathOutcome::Fail)),
                Scene::Dilemma(inaction_dilemma(0)),
            ]
        } else {
            vec![
                Scene::Dialogue(DialogueScene::Lab2a(Lab2aDialogue::Fail)),
                Scene::Ending(EndingScene::ImpatientPsychopath),
            ]
        }
    } else if latest.num_decisions > 0 {
        if let (Some(remaining_ms), Some(average_ms)) =
            (latest.duration_remaining_at_last_decision_ms, stats.overall_avg_time_remaining_ms)
        {
            if average_ms < 1000 {
                lab_two_with(Lab2aDialogue::PassSlowAgain)
            } else if remaining_ms < 1000 {
                lab_two_with(Lab2aDialogue::PassSlow)
            } else {
                lab_two_with(Lab2aDialogue::Pass)
            }
        } else {
            lab_two_with(Lab2aDialogue::Pass)
        }
    } else {
        lab_two_with(Lab2aDialogue::Pass)
    }
}

fn baseline_lab_three(latest: &DilemmaStats, junction: bool) -> Vec<Scene> {
    if latest.num_fatalities == 5 {
        if latest.num_decisions > 0 {
            vec![Scene::Dialogue(DialogueScene::Lab3a(Lab3aDialogue::FailIndecisive))]
        } else if junction {
            vec![
                Scene::Dialogue(DialogueScene::path_deontological(0, PathOutcome::Fail)),
                Scene::Dilemma(DilemmaScene::path_deontological(0).unwrap()),
            ]
        } else {
            vec![
                Scene::Dialogue(DialogueScene::Lab3a(Lab3aDialogue::FailInaction)),
                Scene::Dilemma(DilemmaScene::Lab3(Lab3Dilemma::AsleepAtTheJob)),
            ]
        }
    } else {
        utilitarian_start()
    }
}

fn baseline_inaction_path(stats: &GameStats, stage: usize) -> Vec<Scene> {
    if stats.total_decisions > 0 && stage < 6 {
        vec![
            Scene::Dialogue(DialogueScene::path_inaction(stage, PathOutcome::Pass)),
            Scene::Dialogue(DialogueScene::Lab2b(Lab2bDialogue::Intro)),
            Scene::Dilemma(DilemmaScene::Lab2(Lab2Dilemma::TheTrolleyProblem)),
        ]
    } else if stage < 7 {
        vec![
            Scene::Dialogue(DialogueScene::path_inaction(stage, PathOutcome::Fail)),
            Scene::Dilemma(inaction_dilemma(stage)),
        ]
    } else {
        vec![Scene::Ending(EndingScene::TrueNeutral)]
    }
}

fn baseline_utilitarian_path(latest: &DilemmaStats, stage: usize) -> Vec<Scene> {
    let selected_option = match latest.result {
        Some(LeverState::Selected(index)) => index,
        _ => 0,
    };
    match (selected_option, stage) {
        (0, 4) => random_deaths_after(DialogueScene::path_utilitarian(stage, PathOutcome::Pass)),
        (_, 4) => random_deaths_after(DialogueScene::path_utilitarian(stage, PathOutcome::Fail)),
        (selected, next_stage) if selected > 0 => vec![
            Scene::Dialogue(DialogueScene::path_utilitarian(next_stage, PathOutcome::Pass)),
            Scene::Dilemma(utilitarian_dilemma(next_stage)),
        ],
        _ => random_deaths_after(DialogueScene::path_utilitarian(stage, PathOutcome::Fail)),
    }
}

fn baseline_route_for_unchanged_branches(scene: Scene, latest: &DilemmaStats, stats: &GameStats) -> Option<Vec<Scene>> {
    match scene {
        Scene::Dilemma(DilemmaScene::Lab0(_)) => Some(baseline_lab_one(latest)),
        Scene::Dilemma(DilemmaScene::Lab1(_)) => Some(baseline_lab_two(latest, stats)),
        Scene::Dilemma(DilemmaScene::PathInaction(_, stage)) => Some(baseline_inaction_path(stats, stage + 1)),
        Scene::Dilemma(DilemmaScene::Lab2(_)) => Some(baseline_lab_three(latest, false)),
        Scene::Dilemma(DilemmaScene::Lab3(_)) => Some(baseline_lab_three(latest, true)),
        Scene::Dilemma(DilemmaScene::PathUtilitarian(_, stage)) => Some(baseline_utilitarian_path(latest, stage + 1)),
        _ => None,
    }
}

#[test]
fn lab_three_junction_without_five_fatalities_routes_to_utilitarian_path() {
    let latest = DilemmaStats { num_fatalities: 1, ..Default::default() };
    let result = next(
        Scene::Dilemma(DilemmaScene::Lab3(Lab3Dilemma::AsleepAtTheJob)),
        &latest,
        &GameStats::default(),
    )
    .expect("expected a route");
    assert_eq!(result, utilitarian_start());
}

#[test]
fn utilitarian_path_with_no_selection_defaults_to_fail_route() {
    let latest = DilemmaStats { result: Some(LeverState::Selected(0)), ..Default::default() };
    let result = next(Scene::Dilemma(utilitarian_dilemma(0)), &latest, &GameStats::default())
        .expect("expected a route");
    assert!(matches!(
        result.as_slice(),
        [
            Scene::Dialogue(DialogueScene::Lab4(Lab4Dialogue::UtilitarianPath(_))),
            Scene::Dialogue(DialogueScene::Lab4(Lab4Dialogue::Outro)),
            Scene::Dilemma(DilemmaScene::Lab4(Lab4Dilemma::RandomDeaths))
        ]
    ));
}

#[test]
fn graph_routes_lab0_to_pass_path_when_no_decision_or_fatality() {
    let latest = DilemmaStats { result: Some(LeverState::Selected(0)), ..Default::default() };
    let result = next(
        Scene::Dilemma(DilemmaScene::Lab0(Lab0Dilemma::IncompetentBandit)),
        &latest,
        &GameStats::default(),
    )
    .expect("expected a route");
    assert!(matches!(
        result.as_slice(),
        [
            Scene::Dialogue(DialogueScene::Lab1a(Lab1aDialogue::Pass)),
            Scene::Dialogue(_),
            Scene::Dilemma(_)
        ]
    ));
}

#[test]
fn graph_parity_matches_pre_json_baseline_for_unchanged_branches() {
    let graph = Ok(campaign_graph());
    let mut scenes = vec![
        Scene::Dilemma(DilemmaScene::Lab0(Lab0Dilemma::IncompetentBandit)),
        Scene::Dilemma(DilemmaScene::Lab1(Lab1Dilemma::NearSightedBandit)),
        Scene::Dilemma(DilemmaScene::Lab2(Lab2Dilemma::TheTrolleyProblem)),
        Scene::Dilemma(DilemmaScene::Lab3(Lab3Dilemma::AsleepAtTheJob)),
        Scene::Dilemma(DilemmaScene::Lab4(Lab4Dilemma::RandomDeaths)),
    ];
    for stage in 0..7 {
        scenes.push(Scene::Dilemma(inaction_dilemma(stage)));
    }
    for stage in 0..3 {
        scenes.push(Scene::Dilemma(utilitarian_dilemma(stage)));
    }
    let fatalities_values = [0usize, 1, 5];
    let decisions_values = [0usize, 1, 2, 11];
    let total_decisions_values = [0usize, 1, 3];
    let result_values = [None, Some(LeverState::Selected(0)), Some(LeverState::Selected(1))];
    let last_remaining_values = [None, Some(500u64), Some(2000u64)];
    let overall_avg_values = [None, Some(500u64), Some(2000u64)];
    for scene in scenes {
        for num_fatalities in fatalities_values {
            for num_decisions in decisions_values {
                for total_decisions in total_decisions_values {
                    for result in result_values {
                        for last_remaining in last_remaining_values {
                            for overall_avg in overall_avg_values {
                                let latest = DilemmaStats {
                                    num_fatalities,
                                    num_decisions,
                                    result,
                                    duration_remaining_at_last_decision_ms: last_remaining,
                                    ..Default::default()
                                };
                                let stats = GameStats {
                                    total_decisions,
                                    overall_avg_time_remaining_ms: overall_avg,
                                    ..Default::default()
                                };
                                // Passing the last utilitarian stage names a fourth stage
                                // that the game does not have: there is no route to compare.
                                if scene == Scene::Dilemma(utilitarian_dilemma(2))
                                    && result == Some(LeverState::Selected(1))
                                {
                                    continue;
                                }
                                let baseline = baseline_route_for_unchanged_branches(scene, &latest, &stats);
                                let routed = next_scenes_for_current_dilemma(&graph, scene, &latest, &stats);
                                assert!(
                                    routed == baseline,
                                    "graph/baseline mismatch for {scene:?}; fatalities={num_fatalities}, decisions={num_decisions}, total_decisions={total_decisions}, result={result:?}, last_remaining={last_remaining:?}, overall_avg={overall_avg:?}"
                                );
                            }
                        }
                    }
                }
            }
        }
    }
}
