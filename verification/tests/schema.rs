use scene_flow::schema::{FlowCondition, FlowEvalContext, RouteDefinition, RouteRule, SceneRef};

#[test]
fn resolve_then_uses_first_matching_rule_in_declared_order() {
    let route = RouteDefinition {
        from: SceneRef::Dilemma {
            id: String::from("lab_0.incompetent_bandit"),
        },
        rules: vec![
            RouteRule {
                name: String::from("fatalities_gt_0"),
                when: vec![FlowCondition::FatalitiesGt { value: 0 }],
                then_scenes: vec![SceneRef::Ending {
                    id: String::from("idiotic_psychopath"),
                }],
            },
            RouteRule {
                name: String::from("fallback_decisions_gt_0"),
                when: vec![FlowCondition::DecisionsGt { value: 0 }],
                then_scenes: vec![SceneRef::Dialogue {
                    id: String::from("lab_1.a.pass_indecisive"),
                }],
            },
        ],
        default_then: vec![SceneRef::Menu],
    };

    let context = FlowEvalContext {
        num_fatalities: 1,
        num_decisions: 10,
        total_decisions: 10,
        selected_option: None,
        duration_remaining_at_last_decision_ms: None,
        overall_avg_time_remaining_ms: None,
        previous_selected_options: vec![],
        previous_num_decisions: vec![],
    };

    let resolved = route.resolve_then(&context);

    assert_eq!(
        resolved,
        &[SceneRef::Ending {
            id: String::from("idiotic_psychopath")
        }]
    );
}

#[test]
fn resolve_then_falls_back_to_default_when_no_rules_match() {
    let route = RouteDefinition {
        from: SceneRef::Dilemma {
            id: String::from("lab_2.the_trolley_problem"),
        },
        rules: vec![RouteRule {
            name: String::from("requires_selected_option_1"),
            when: vec![FlowCondition::SelectedOptionEq { value: 1 }],
            then_scenes: vec![SceneRef::Ending {
                id: String::from("leverophile"),
            }],
        }],
        default_then: vec![SceneRef::Dialogue {
            id: String::from("lab_3.a.pass_utilitarian"),
        }],
    };

    let context = FlowEvalContext {
        selected_option: Some(0),
        ..Default::default()
    };

    let resolved = route.resolve_then(&context);

    assert_eq!(
        resolved,
        &[SceneRef::Dialogue {
            id: String::from("lab_3.a.pass_utilitarian")
        }]
    );
}

#[test]
fn time_conditions_compare_whole_milliseconds() {
    let known = FlowEvalContext {
        duration_remaining_at_last_decision_ms: Some(999),
        overall_avg_time_remaining_ms: Some(1000),
        ..Default::default()
    };
    assert!(FlowCondition::LastDecisionRemainingLtSecs { millis: 1000 }.matches(&known));
    assert!(!FlowCondition::LastDecisionRemainingGteSecs { millis: 1000 }.matches(&known));
    assert!(!FlowCondition::OverallAvgRemainingLtSecs { millis: 1000 }.matches(&known));
    assert!(FlowCondition::OverallAvgRemainingGteSecs { millis: 1000 }.matches(&known));
    let unknown = FlowEvalContext::default();
    assert!(!FlowCondition::LastDecisionRemainingLtSecs { millis: 1000 }.matches(&unknown));
    assert!(!FlowCondition::LastDecisionRemainingGteSecs { millis: 0 }.matches(&unknown));
    assert!(FlowCondition::LastDecisionRemainingIsNone.matches(&unknown));
    assert!(FlowCondition::OverallAvgRemainingIsNone.matches(&unknown));
    assert!(FlowCondition::OverallAvgRemainingIsSome.matches(&known));
}

#[test]
fn previous_conditions_count_back_from_one() {
    let context = FlowEvalContext {
        previous_selected_options: vec![Some(1), None, Some(0)],
        previous_num_decisions: vec![4, 0, 2],
        ..Default::default()
    };
    assert_eq!(context.previous_selected_option(0), None);
    assert_eq!(context.previous_selected_option(1), Some(1));
    assert_eq!(context.previous_selected_option(2), None);
    assert_eq!(context.previous_selected_option(3), Some(0));
    assert_eq!(context.previous_selected_option(4), None);
    assert_eq!(context.previous_num_decisions(3), Some(2));
    assert!(FlowCondition::PreviousSelectedOptionEq { back: 1, value: 1 }.matches(&context));
    assert!(!FlowCondition::PreviousSelectedOptionEq { back: 2, value: 0 }.matches(&context));
    assert!(FlowCondition::PreviousDecisionsEq { back: 2, value: 0 }.matches(&context));
    assert!(FlowCondition::PreviousDecisionsGt { back: 1, value: 3 }.matches(&context));
    assert!(!FlowCondition::PreviousDecisionsGt { back: 9, value: 0 }.matches(&context));
}

#[test]
fn a_rule_matches_only_when_every_condition_holds() {
    let context = FlowEvalContext {
        num_fatalities: 5,
        num_decisions: 0,
        total_decisions: 3,
        ..Default::default()
    };
    let rule = RouteRule {
        name: String::from("both"),
        when: vec![
            FlowCondition::FatalitiesEq { value: 5 },
            FlowCondition::DecisionsEq { value: 0 },
            FlowCondition::TotalDecisionsGt { value: 2 },
        ],
        then_scenes: vec![SceneRef::Menu],
    };
    assert!(rule.matches(&context));
    let failing = RouteRule {
        name: String::from("one_fails"),
        when: vec![FlowCondition::FatalitiesEq { value: 5 }, FlowCondition::TotalDecisionsEq { value: 2 }],
        then_scenes: vec![SceneRef::Menu],
    };
    assert!(!failing.matches(&context));
    let empty = RouteRule { name: String::from("always"), when: vec![], then_scenes: vec![] };
    assert!(empty.matches(&context));
}
