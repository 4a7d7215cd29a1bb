use scene_flow::engine::evaluate_with_graph;
use scene_flow::scenes::{
    DialogueScene, DilemmaScene, EndingScene, Lab0Dilemma, Lab1aDialogue, Lab2Dilemma, Scene,
};
use scene_flow::schema::{FlowCondition, RouteDefinition, RouteRule, SceneProgressionGraph, SceneRef};
use scene_flow::stats::{DilemmaStats, GameStats};
use scene_flow::validate::validate_graph;
use scene_flow::visualize::{build_mermaid_diagram, RouteFilter};

fn dialogue(id: &str) -> SceneRef {
    SceneRef::Dialogue { id: String::from(id) }
}

fn dilemma(id: &str) -> SceneRef {
    SceneRef::Dilemma { id: String::from(id) }
}

/// A small campaign graph in the shape of the example graph: the first dilemma ends the game
/// when anyone died, and otherwise leads on to the second lab.
fn example_graph() -> SceneProgressionGraph {
    let graph = SceneProgressionGraph {
        version: 1,
        routes: vec![
            RouteDefinition {
                from: dilemma("lab_0.incompetent_bandit"),
                rules: vec![RouteRule {
                    name: String::from("fatalities_gt_0"),
                    when: vec![FlowCondition::FatalitiesGt { value: 0 }],
                    then_scenes: vec![
                        dialogue("lab_1.a.fail"),
                        SceneRef::Ending { id: String::from("idiotic_psychopath") },
                    ],
                }],
                default_then: vec![
                    dialogue("lab_1.a.pass"),
                    dialogue("lab_1.b.intro"),
                    dilemma("lab_1.near_sighted_bandit"),
                ],
            },
            RouteDefinition {
                from: dilemma("lab_1.near_sighted_bandit"),
                rules: vec![RouteRule {
                    name: String::from("decisions_gt_0"),
                    when: vec![FlowCondition::DecisionsGt { value: 0 }],
                    then_scenes: vec![dialogue("lab_2.a.pass")],
                }],
                default_then: vec![dialogue("lab_2.a.fail"), SceneRef::Menu],
            },
        ],
    };
    assert!(validate_graph(&graph).is_empty(), "example graph should validate");
    graph
}

#[test]
fn example_graph_passes_validation() {
    let graph = example_graph();
    let errors = validate_graph(&graph);
    assert!(errors.is_empty(), "unexpected errors: {errors:?}");
}

#[test]
fn evaluates_example_fatality_route() {
    let graph = example_graph();
    let latest = DilemmaStats {
        num_fatalities: 1,
        ..Default::default()
    };
    let stats = GameStats::default();

    let resolved = evaluate_with_graph(
        &graph,
        Scene::Dilemma(DilemmaScene::Lab0(Lab0Dilemma::IncompetentBandit)),
        &latest,
        &stats,
    )
    .expect("graph evaluation should succeed");

    assert!(matches!(
        resolved.as_deref(),
        Some([
            Scene::Dialogue(DialogueScene::Lab1a(Lab1aDialogue::Fail)),
            Scene::Ending(EndingScene::IdioticPsychopath)
        ])
    ));
}

#[test]
fn example_graph_has_no_route_from_the_trolley_problem() {
    let graph = example_graph();
    let resolved = evaluate_with_graph(
        &graph,
        Scene::Dilemma(DilemmaScene::Lab2(Lab2Dilemma::TheTrolleyProblem)),
        &DilemmaStats::default(),
        &GameStats::default(),
    )
    .expect("graph evaluation should succeed");

    assert!(resolved.is_none());
}

#[test]
fn generates_mermaid_with_rule_and_default_labels() {
    let graph = example_graph();
    let diagram = build_mermaid_diagram(&graph, RouteFilter::All);

    assert!(diagram.contains("rule "));
    assert!(diagram.contains("default"));
}
