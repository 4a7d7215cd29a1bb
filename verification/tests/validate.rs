use scene_flow::schema::{RouteDefinition, RouteRule, SceneProgressionGraph, SceneRef};
use scene_flow::validate::{validate_graph, GraphValidationError};

#[test]
fn reports_unknown_scene_ids() {
    let graph = SceneProgressionGraph {
        version: 1,
        routes: vec![RouteDefinition {
            from: SceneRef::Dilemma {
                id: String::from("lab_0.incompetent_bandit"),
            },
            rules: vec![],
            default_then: vec![SceneRef::Dialogue {
                id: String::from("lab_999.invalid"),
            }],
        }],
    };

    let errors = validate_graph(&graph);

    assert!(matches!(
        errors.as_slice(),
        [GraphValidationError::UnknownSceneId { .. }]
    ));
}

#[test]
fn reports_duplicate_route_sources() {
    let route = RouteDefinition {
        from: SceneRef::Dilemma {
            id: String::from("lab_0.incompetent_bandit"),
        },
        rules: vec![],
        default_then: vec![SceneRef::Menu],
    };

    let graph = SceneProgressionGraph {
        version: 1,
        routes: vec![route.clone(), route],
    };

    let errors = validate_graph(&graph);

    assert!(errors.iter().any(|error| matches!(
        error,
        GraphValidationError::DuplicateRouteSource { .. }
    )));
}

#[test]
fn reports_empty_default_routes() {
    let graph = SceneProgressionGraph {
        version: 1,
        routes: vec![RouteDefinition {
            from: SceneRef::Dilemma {
                id: String::from("lab_1.near_sighted_bandit"),
            },
            rules: vec![],
            default_then: vec![],
        }],
    };

    let errors = validate_graph(&graph);

    assert!(errors.iter().any(|error| matches!(
        error,
        GraphValidationError::EmptyDefaultRoute { .. }
    )));
}

#[test]
fn reports_duplicate_rule_names() {
    let graph = SceneProgressionGraph {
        version: 1,
        routes: vec![RouteDefinition {
            from: SceneRef::Dilemma {
                id: String::from("lab_2.the_trolley_problem"),
            },
            rules: vec![
                RouteRule {
                    name: String::from("duplicate"),
                    when: vec![],
                    then_scenes: vec![SceneRef::Menu],
                },
                RouteRule {
                    name: String::from("duplicate"),
                    when: vec![],
                    then_scenes: vec![SceneRef::Loading],
                },
            ],
            default_then: vec![SceneRef::Menu],
        }],
    };

    let errors = validate_graph(&graph);

    assert!(errors.iter().any(|error| matches!(
        error,
        GraphValidationError::DuplicateRuleName { .. }
    )));
}

#[test]
fn reports_unsupported_non_dilemma_route_sources() {
    let graph = SceneProgressionGraph {
        version: 1,
        routes: vec![RouteDefinition {
            from: SceneRef::Dialogue {
                id: String::from("lab_1.a.fail"),
            },
            rules: vec![],
            default_then: vec![SceneRef::Menu],
        }],
    };

    let errors = validate_graph(&graph);

    assert!(errors.iter().any(|error| matches!(
        error,
        GraphValidationError::UnsupportedRouteSource { .. }
    )));
}

#[test]
fn reports_every_problem_in_order_with_its_place() {
    let graph = SceneProgressionGraph {
        version: 1,
        routes: vec![
            RouteDefinition {
                from: SceneRef::Dilemma { id: String::from("lab_0.incompetent_bandit") },
                rules: vec![],
                default_then: vec![SceneRef::Menu],
            },
            RouteDefinition {
                from: SceneRef::Dilemma { id: String::from("lab_0.incompetent_bandit") },
                rules: vec![
                    RouteRule { name: String::from("a"), when: vec![], then_scenes: vec![] },
                    RouteRule {
                        name: String::from("a"),
                        when: vec![],
                        then_scenes: vec![SceneRef::Menu, SceneRef::Ending { id: String::from("bad") }],
                    },
                ],
                default_then: vec![SceneRef::Loading, SceneRef::Dialogue { id: String::from("nope") }],
            },
        ],
    };
    let from = SceneRef::Dilemma { id: String::from("lab_0.incompetent_bandit") };
    let errors = validate_graph(&graph);
    assert_eq!(
        errors,
        vec![
            GraphValidationError::DuplicateRouteSource { from: from.clone() },
            GraphValidationError::UnknownSceneId {
                context: String::from("route.default[1]"),
                error: scene_flow::ids::SceneIdParseError::UnknownDialogueId(String::from("nope")),
            },
            GraphValidationError::EmptyRuleRoute { from: from.clone(), rule_name: String::from("a") },
            GraphValidationError::DuplicateRuleName { from: from.clone(), rule_name: String::from("a") },
            GraphValidationError::UnknownSceneId {
                context: String::from("route.rules[1].then[1]"),
                error: scene_flow::ids::SceneIdParseError::UnknownEndingId(String::from("bad")),
            },
        ]
    );
}

#[test]
fn a_well_formed_graph_has_no_problems() {
    let graph = SceneProgressionGraph {
        version: 1,
        routes: vec![RouteDefinition {
            from: SceneRef::Dilemma { id: String::from("path_inaction.3") },
            rules: vec![RouteRule {
                name: String::from("acted"),
                when: vec![],
                then_scenes: vec![SceneRef::Dialogue { id: String::from("path_inaction.4.pass") }],
            }],
            default_then: vec![SceneRef::Ending { id: String::from("true_neutral") }],
        }],
    };
    assert!(validate_graph(&graph).is_empty());
}
