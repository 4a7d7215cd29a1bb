use scene_flow::ending::{description_title, ending_or_fallback, ending_to_show, Ending, ENDING_TITLE};
use scene_flow::lever::{Lever, LeverState};
use scene_flow::loading::{button_message, LoadingBar};
use scene_flow::scenes::{EndingScene, Scene};
use scene_flow::schema::{RouteDefinition, SceneProgressionGraph, SceneRef};
use scene_flow::states::{MainState, StateVector};
use scene_flow::stats::{DilemmaOptionConsequences, DilemmaStats, GameStats};
use scene_flow::text::{chars_of, parse_usize_chars, replace_chars, trim_chars, IntParseError};
use scene_flow::viewer::{build_parse_error_html, campaign_graph_export};
use scene_flow::visualize::CampaignGraphExportSummary;

fn text(v: &[char]) -> String {
    v.iter().collect()
}

#[test]
fn trimming_drops_unicode_whitespace_at_both_ends() {
    assert_eq!(text(&trim_chars(&chars_of("  a b \t\n"))), "a b");
    assert_eq!(text(&trim_chars(&chars_of("\u{3000}x\u{a0}"))), "x");
    assert_eq!(text(&trim_chars(&chars_of(" \t "))), "");
    assert_eq!(text(&trim_chars(&chars_of("q"))), "q");
}

#[test]
fn usize_reading_matches_from_str() {
    for s in ["0", "42", "+7", "", "+", "-1", "1_000", "18446744073709551615", "18446744073709551616", "99999999999999999999x", "12a"] {
        let expected = match s.parse::<usize>() {
            Ok(v) => Ok(v),
            Err(e) => Err(match e.kind() {
                std::num::IntErrorKind::Empty => IntParseError::Empty,
                std::num::IntErrorKind::InvalidDigit => IntParseError::InvalidDigit,
                std::num::IntErrorKind::PosOverflow => IntParseError::PosOverflow,
                other => panic!("unexpected kind {other:?}"),
            }),
        };
        assert_eq!(parse_usize_chars(&chars_of(s)), expected, "reading {s:?}");
    }
    assert_eq!(IntParseError::Empty.message(), "".parse::<usize>().unwrap_err().to_string());
    assert_eq!(IntParseError::InvalidDigit.message(), "x".parse::<usize>().unwrap_err().to_string());
    assert_eq!(IntParseError::PosOverflow.message(), "300".parse::<u8>().unwrap_err().to_string());
}

#[test]
fn replacing_matches_str_replace() {
    for (s, pat, rep) in [("aaa", "aa", "b"), ("{x}{x}", "{x}", "12"), ("none", "zz", "y"), ("", "a", "b")] {
        let replaced = replace_chars(&chars_of(s), &chars_of(pat), &chars_of(rep));
        assert_eq!(text(&replaced), s.replace(pat, rep));
    }
}

#[test]
fn loading_bar_cycles_messages_until_full() {
    let messages = vec![String::from("one"), String::from("two")];
    let mut bar = LoadingBar::new(String::from("Loading: "), String::from("done"));
    assert_eq!(bar.shown_message(&messages), Some(String::from("one")));
    bar.record_step(Some(false));
    assert_eq!(bar.shown_message(&messages), Some(String::from("two")));
    bar.record_step(None);
    assert_eq!(bar.shown_message(&messages), Some(String::from("one")));
    bar.record_step(Some(true));
    assert!(bar.finished);
    bar.record_step(Some(false));
    assert!(bar.finished);
    assert_eq!(bar.index, 4);
    assert_eq!(bar.shown_message(&messages), Some(String::from("done")));
    assert_eq!(bar.shown_message(&vec![]), None);
    assert_eq!(button_message(&messages, 1), Some(String::from("two")));
    assert_eq!(button_message(&messages, 2), None);
}

#[test]
fn endings_show_or_fall_back_to_the_menu() {
    let menu = StateVector { main: Some(MainState::Menu), game: None, sub: None };
    assert_eq!(ending_to_show(Scene::Ending(EndingScene::TrueNeutral)), Ok(EndingScene::TrueNeutral));
    assert_eq!(ending_to_show(Scene::Loading), Err(menu));
    let ending = Ending {
        name: String::from("True Neutral"),
        description: String::from("d"),
        narration: String::from("n"),
        narration_path: String::from("p"),
    };
    assert_eq!(description_title(&ending), "Description: True Neutral");
    assert!(ending_or_fallback::<String>(Ok(ending)).is_ok());
    assert_eq!(
        ending_or_fallback::<String>(Err(String::from("bad json"))).err(),
        Some(menu)
    );
    assert_eq!(ENDING_TITLE, "FALSE START");
}

#[test]
fn the_lever_stays_within_its_options() {
    let lever = Lever::with_option_count(LeverState::Selected(5), 3);
    assert_eq!(lever, Lever(LeverState::Selected(2), 3));
    assert_eq!(lever.selected_index(), Some(2));
    let none = Lever::with_option_count(LeverState::Selected(1), 0);
    assert_eq!(none, Lever(LeverState::Selected(0), 1));
    let mut lever = Lever::default();
    assert_eq!(lever, Lever(LeverState::Random, 1));
    lever.set_state_and_options(LeverState::Selected(1), 2);
    lever.set_selected_index(Some(9));
    assert_eq!(lever.selected_index(), Some(1));
    lever.set_selected_index(None);
    assert_eq!(lever.selected_index(), None);
    assert_eq!(LeverState::Selected(4).to_int(), Some(4));
    assert_eq!(LeverState::from_option_index(None), LeverState::Random);
}

#[test]
fn dilemma_stats_record_pulls_and_the_outcome() {
    let mut stats = DilemmaStats::new(10_000);
    stats.update(&LeverState::Selected(1), 2_000, 10_000, 8_000);
    stats.update(&LeverState::Selected(0), 5_000, 10_000, 5_000);
    assert_eq!(stats.num_decisions, 2);
    assert_eq!(stats.duration_before_first_decision_ms, Some(2_000));
    assert_eq!(stats.duration_remaining_at_last_decision_ms, Some(5_000));
    stats.finalize(&DilemmaOptionConsequences { total_fatalities: 5 }, &LeverState::Selected(0), 10_000);
    assert_eq!(stats.result, Some(LeverState::Selected(0)));
    assert_eq!(stats.num_fatalities, 5);
    assert_eq!(stats.decision_time_used_ms, 10_000);
    stats.reset();
    assert_eq!(stats.num_decisions, 0);
    assert_eq!(stats.result, None);
    assert_eq!(stats.decision_time_available_ms, 10_000);
}

#[test]
fn game_stats_total_and_average_the_dilemmas() {
    let mut game = GameStats::default();
    let mut first = DilemmaStats::new(10_000);
    first.update(&LeverState::Selected(1), 1_000, 10_000, 9_000);
    first.finalize(&DilemmaOptionConsequences { total_fatalities: 1 }, &LeverState::Selected(1), 10_000);
    let mut second = DilemmaStats::new(10_000);
    second.update(&LeverState::Selected(0), 2_001, 10_000, 7_998);
    second.finalize(&DilemmaOptionConsequences { total_fatalities: 4 }, &LeverState::Selected(0), 10_000);
    let third = DilemmaStats::new(10_000);
    game.update(first);
    game.update(second);
    game.update(third);
    assert_eq!(game.num_dilemmas, 3);
    assert_eq!(game.total_fatalities, 5);
    assert_eq!(game.total_decisions, 2);
    assert_eq!(game.overall_avg_first_pull_time_ms, Some(1_500));
    assert_eq!(game.overall_avg_time_remaining_ms, Some(8_499));
}

#[test]
fn export_summarises_the_graph_or_the_parse_error() {
    let graph = SceneProgressionGraph {
        version: 1,
        routes: vec![RouteDefinition {
            from: SceneRef::Dilemma { id: String::from("lab_1.near_sighted_bandit") },
            rules: vec![],
            default_then: vec![],
        }],
    };
    let (html, summary) = campaign_graph_export(&Ok(graph));
    assert_eq!(summary, CampaignGraphExportSummary { route_count: 1, validation_error_count: 1 });
    assert!(html.contains("Validation: FAIL (1 errors)"));
    assert!(html.contains("<li><code>empty default route for source: dilemma:lab_1.near_sighted_bandit</code></li>"));
    assert!(html.contains("Routes: <strong>1</strong>"));
    assert!(html.contains(r#"<button class="tab active" data-target="all">All Routes</button>"#));
    assert!(html.contains(r#"<button class="tab " data-target="lab">Lab Routes</button>"#));

    let clean = SceneProgressionGraph {
        version: 1,
        routes: vec![RouteDefinition {
            from: SceneRef::Dilemma { id: String::from("lab_1.near_sighted_bandit") },
            rules: vec![],
            default_then: vec![SceneRef::Menu],
        }],
    };
    let (clean_html, clean_summary) = campaign_graph_export(&Ok(clean));
    assert_eq!(clean_summary, CampaignGraphExportSummary { route_count: 1, validation_error_count: 0 });
    assert!(clean_html.contains("Validation: PASS"));
    assert!(clean_html.contains("<p>No validation errors.</p>"));

    let (error_html, error_summary) = campaign_graph_export(&Err(String::from("expected `,` <here>")));
    assert_eq!(error_summary, CampaignGraphExportSummary { route_count: 0, validation_error_count: 1 });
    assert_eq!(error_html, build_parse_error_html("expected `,` <here>"));
    assert!(error_html.contains("<p><code>expected `,` &lt;here&gt;</code></p>"));
    assert!(error_html.contains("Validation: FAIL (parse error)"));
}
