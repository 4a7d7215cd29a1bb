use scene_flow::ids::SceneIdParseError;
use scene_flow::schema::{FlowCondition, RouteDefinition, RouteRule, SceneProgressionGraph, SceneRef};
use scene_flow::validate::GraphValidationError;
use scene_flow::visualize::{
    build_mermaid_diagram, describe_validation_error, escape_html, rule_entry_label,
    sanitize_mermaid_label_text, scene_css_class, scene_key, scene_label, RouteFilter,
};

const CLASS_DEFS: &str = "\n    classDef scene_menu fill:#6fa8dc,stroke:#1b3b5a,color:#0f1117;\n    classDef scene_loading fill:#ffe599,stroke:#8f6c00,color:#0f1117;\n    classDef scene_dialogue fill:#b4a7d6,stroke:#4d3f71,color:#0f1117;\n    classDef scene_dilemma fill:#93c47d,stroke:#2f5b23,color:#0f1117;\n    classDef scene_ending fill:#ea9999,stroke:#7a2f2f,color:#0f1117;\n";

fn two_path_graph() -> SceneProgressionGraph {
    SceneProgressionGraph {
        version: 1,
        routes: vec![
            RouteDefinition {
                from: SceneRef::Dilemma {
                    id: String::from("path_utilitarian.1"),
                },
                rules: vec![],
                default_then: vec![SceneRef::Dialogue {
                    id: String::from("path_utilitarian.1.pass"),
                }],
            },
            RouteDefinition {
                from: SceneRef::Dilemma {
                    id: String::from("path_inaction.1"),
                },
                rules: vec![],
                default_then: vec![SceneRef::Dialogue {
                    id: String::from("path_inaction.1.fail"),
                }],
            },
        ],
    }
}

#[test]
fn utilitarian_filter_only_keeps_utilitarian_routes() {
    let graph = two_path_graph();

    let utilitarian = build_mermaid_diagram(&graph, RouteFilter::Utilitarian);
    assert!(utilitarian.contains("path_utilitarian"));
    assert!(!utilitarian.contains("path_inaction"));
}

#[test]
fn utilitarian_diagram_is_exact() {
    let graph = two_path_graph();
    let expected = format!(
        "flowchart TD\n    N0[\"Dialogue: path_utilitarian.1.pass\"]:::scene_dialogue\n    N1[\"Dilemma: path_utilitarian.1\"]:::scene_dilemma\n    N1 -->|default| N0\n{}",
        CLASS_DEFS
    );
    assert_eq!(build_mermaid_diagram(&graph, RouteFilter::Utilitarian), expected);
}

#[test]
fn all_routes_diagram_numbers_nodes_in_key_order() {
    let graph = two_path_graph();
    let expected = format!(
        "flowchart TD\n    N0[\"Dialogue: path_inaction.1.fail\"]:::scene_dialogue\n    N1[\"Dialogue: path_utilitarian.1.pass\"]:::scene_dialogue\n    N2[\"Dilemma: path_inaction.1\"]:::scene_dilemma\n    N3[\"Dilemma: path_utilitarian.1\"]:::scene_dilemma\n    N3 -->|default| N1\n    N2 -->|default| N0\n{}",
        CLASS_DEFS
    );
    assert_eq!(build_mermaid_diagram(&graph, RouteFilter::All), expected);
}

#[test]
fn filter_without_routes_gives_the_empty_diagram() {
    let graph = two_path_graph();
    assert_eq!(
        build_mermaid_diagram(&graph, RouteFilter::Deontological),
        "flowchart TD\n    empty[\"No routes for this filter\"]"
    );
    assert_eq!(
        build_mermaid_diagram(&graph, RouteFilter::Lab),
        "flowchart TD\n    empty[\"No routes for this filter\"]"
    );
}

#[test]
fn rule_edges_come_first_then_the_default_chain() {
    let graph = SceneProgressionGraph {
        version: 1,
        routes: vec![RouteDefinition {
            from: SceneRef::Dilemma {
                id: String::from("lab_0.incompetent_bandit"),
            },
            rules: vec![RouteRule {
                name: String::from("fatalities_gt_0"),
                when: vec![FlowCondition::FatalitiesGt { value: 0 }],
                then_scenes: vec![SceneRef::Ending {
                    id: String::from("idiotic_psychopath"),
                }],
            }],
            default_then: vec![SceneRef::Loading, SceneRef::Menu],
        }],
    };
    let expected = format!(
        "flowchart TD\n    N0[\"Dilemma: lab_0.incompetent_bandit\"]:::scene_dilemma\n    N1[\"Ending: idiotic_psychopath\"]:::scene_ending\n    N2[\"Loading\"]:::scene_loading\n    N3[\"Menu\"]:::scene_menu\n    N0 -->|rule fatalities gt 0| N1\n    N0 -->|default| N2\n    N2 -->|then| N3\n{}",
        CLASS_DEFS
    );
    let diagram = build_mermaid_diagram(&graph, RouteFilter::All);
    assert_eq!(diagram, expected);
    assert!(diagram.contains("rule "));
    assert!(diagram.contains("default"));
}

#[test]
fn route_filters_have_keys_and_titles_in_tab_order() {
    let order = RouteFilter::order();
    let keys: Vec<&str> = order.iter().map(|f| f.key()).collect();
    let titles: Vec<&str> = order.iter().map(|f| f.title()).collect();
    assert_eq!(keys, vec!["all", "lab", "inaction", "deontological", "utilitarian"]);
    assert_eq!(
        titles,
        vec![
            "All Routes",
            "Lab Routes",
            "Inaction Path Routes",
            "Deontological Path Routes",
            "Utilitarian Path Routes"
        ]
    );
}

#[test]
fn filters_match_routes_by_source_prefix() {
    let route = |from: SceneRef| RouteDefinition {
        from,
        rules: vec![],
        default_then: vec![SceneRef::Menu],
    };
    let lab = route(SceneRef::Dilemma { id: String::from("lab_2.the_trolley_problem") });
    let deon = route(SceneRef::Dilemma { id: String::from("path_deontological.1") });
    let menu = route(SceneRef::Menu);
    assert!(RouteFilter::Lab.matches_route(&lab));
    assert!(!RouteFilter::Lab.matches_route(&deon));
    assert!(RouteFilter::Deontological.matches_route(&deon));
    assert!(!RouteFilter::Utilitarian.matches_route(&deon));
    assert!(RouteFilter::All.matches_route(&menu));
    assert!(!RouteFilter::Lab.matches_route(&menu));
}

#[test]
fn scene_keys_labels_and_classes() {
    let dialogue = SceneRef::Dialogue { id: String::from("lab_1.a.pass") };
    assert_eq!(scene_key(&SceneRef::Menu), "menu");
    assert_eq!(scene_key(&SceneRef::Loading), "loading");
    assert_eq!(scene_key(&dialogue), "dialogue:lab_1.a.pass");
    assert_eq!(scene_label(&dialogue), "Dialogue: lab_1.a.pass");
    assert_eq!(scene_label(&SceneRef::Menu), "Menu");
    assert_eq!(scene_css_class(&dialogue), "scene_dialogue");
    assert_eq!(
        scene_css_class(&SceneRef::Ending { id: String::from("x") }),
        "scene_ending"
    );
}

#[test]
fn mermaid_labels_lose_their_special_characters() {
    assert_eq!(
        sanitize_mermaid_label_text("a&b<c>d|e\"f`g"),
        "a and b lt c gt d/efg"
    );
    assert_eq!(sanitize_mermaid_label_text("plain"), "plain");
}

#[test]
fn html_escapes_ampersand_and_angle_brackets() {
    assert_eq!(escape_html("<a & b>"), "&lt;a &amp; b&gt;");
    assert_eq!(escape_html("\"quoted\""), "\"quoted\"");
}

#[test]
fn rule_labels_replace_underscores_with_spaces() {
    let rule = RouteRule {
        name: String::from("deaths_>_5"),
        when: vec![],
        then_scenes: vec![],
    };
    assert_eq!(rule_entry_label(&rule), "rule deaths  gt  5");
}

#[test]
fn validation_errors_are_described_with_scene_keys() {
    let from = SceneRef::Dilemma { id: String::from("lab_0.incompetent_bandit") };
    assert_eq!(
        describe_validation_error(&GraphValidationError::DuplicateRouteSource { from: from.clone() }),
        "duplicate route source: dilemma:lab_0.incompetent_bandit"
    );
    assert_eq!(
        describe_validation_error(&GraphValidationError::UnsupportedRouteSource { from: SceneRef::Menu }),
        "unsupported route source (must be dilemma): menu"
    );
    assert_eq!(
        describe_validation_error(&GraphValidationError::EmptyDefaultRoute { from: from.clone() }),
        "empty default route for source: dilemma:lab_0.incompetent_bandit"
    );
    assert_eq!(
        describe_validation_error(&GraphValidationError::EmptyRuleRoute {
            from: from.clone(),
            rule_name: String::from("r"),
        }),
        "empty rule route for source dilemma:lab_0.incompetent_bandit rule `r`"
    );
    assert_eq!(
        describe_validation_error(&GraphValidationError::DuplicateRuleName {
            from,
            rule_name: String::from("dup"),
        }),
        "duplicate rule name for source dilemma:lab_0.incompetent_bandit rule `dup`"
    );
    assert_eq!(
        describe_validation_error(&GraphValidationError::UnknownSceneId {
            context: String::from("routes[0].from"),
            error: SceneIdParseError::UnknownDilemmaId(String::from("lab_9.x")),
        }),
        "unknown scene id at routes[0].from: unknown dilemma id `lab_9.x`"
    );
}
