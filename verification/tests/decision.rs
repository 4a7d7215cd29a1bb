use scene_flow::decision::{
    estimate_wrapped_lines, lever_action_for_option, lever_click_pong_actions, locked_consequence,
    LeverActions,
};
use scene_flow::dilemma::{DilemmaOption, DilemmaStage};
use scene_flow::lever::{Lever, LeverState};
use scene_flow::results::{results_tab_labels, shows_stage_tabs, tab_table_visible};
use scene_flow::stats::DilemmaOptionConsequences;

fn option(index: usize, deaths: usize) -> DilemmaOption {
    DilemmaOption {
        index,
        name: format!("option {index}"),
        description: String::new(),
        consequences: DilemmaOptionConsequences { total_fatalities: deaths },
        num_humans: deaths,
    }
}

fn stage(default_option: Option<usize>) -> DilemmaStage {
    DilemmaStage {
        countdown_duration_ms: 5_000,
        options: vec![option(0, 1), option(1, 5)],
        default_option,
        speed_thousandths: 70_000,
    }
}

#[test]
fn the_first_nine_options_have_lever_actions() {
    assert_eq!(lever_action_for_option(0), Some(LeverActions::SelectOption1));
    assert_eq!(lever_action_for_option(8), Some(LeverActions::SelectOption9));
    assert_eq!(lever_action_for_option(9), None);
    assert_eq!(
        lever_click_pong_actions(2),
        vec![vec![LeverActions::SelectOption1], vec![LeverActions::SelectOption2]]
    );
    assert_eq!(lever_click_pong_actions(12).len(), 9);
    assert!(lever_click_pong_actions(0).is_empty());
}

#[test]
fn option_text_wraps_at_forty_two_characters() {
    assert_eq!(estimate_wrapped_lines(""), 1);
    assert_eq!(estimate_wrapped_lines("short"), 1);
    assert_eq!(estimate_wrapped_lines(&"x".repeat(42)), 1);
    assert_eq!(estimate_wrapped_lines(&"x".repeat(43)), 2);
    assert_eq!(estimate_wrapped_lines("a\nb\n"), 2);
    assert_eq!(estimate_wrapped_lines("a\n\nb"), 3);
    assert_eq!(estimate_wrapped_lines("a\r\nb"), 2);
    let long_crlf = format!("{}\r\nb", "x".repeat(42));
    assert_eq!(estimate_wrapped_lines(&long_crlf), 2);
    let long_cr = format!("b\n{}\r", "x".repeat(42));
    assert_eq!(estimate_wrapped_lines(&long_cr), 3);
}

#[test]
fn the_decision_locks_in_the_lever_or_the_default() {
    let pointed = Lever(LeverState::Selected(1), 2);
    assert_eq!(
        locked_consequence(&pointed, &stage(Some(0))),
        Some(DilemmaOptionConsequences { total_fatalities: 5 })
    );
    let random = Lever(LeverState::Random, 2);
    assert_eq!(
        locked_consequence(&random, &stage(Some(0))),
        Some(DilemmaOptionConsequences { total_fatalities: 1 })
    );
    assert_eq!(locked_consequence(&random, &stage(None)), None);
    assert_eq!(locked_consequence(&random, &stage(Some(7))), None);
    let beyond = Lever(LeverState::Selected(4), 5);
    assert_eq!(locked_consequence(&beyond, &stage(None)), None);
}

#[test]
fn results_tabs_cover_the_run_then_each_stage() {
    assert!(shows_stage_tabs(3, 2));
    assert!(!shows_stage_tabs(1, 2));
    assert!(!shows_stage_tabs(3, 1));
    assert_eq!(results_tab_labels(3), vec!["All", "1", "2", "3"]);
    assert_eq!(results_tab_labels(0), vec!["All"]);
    assert!(tab_table_visible(0, None));
    assert!(!tab_table_visible(1, None));
    assert!(tab_table_visible(2, Some(2)));
}

use scene_flow::controls::{debug_mode_toggle, debug_shortcuts, escape_closes_window, escape_pause_toggle, DebugSpawns};
use scene_flow::dilemma::{DilemmaTimer, PulseDecision};
use scene_flow::states::{MainState, PauseState};

#[test]
fn escape_pauses_and_resumes_unless_the_pause_menu_is_open() {
    assert_eq!(escape_pause_toggle(PauseState::Unpaused, false, true), Some(PauseState::Paused));
    assert_eq!(escape_pause_toggle(PauseState::Paused, false, true), Some(PauseState::Unpaused));
    assert_eq!(escape_pause_toggle(PauseState::Paused, true, true), None);
    assert_eq!(escape_pause_toggle(PauseState::Unpaused, true, true), Some(PauseState::Paused));
    assert_eq!(escape_pause_toggle(PauseState::Unpaused, false, false), None);
    assert!(escape_closes_window(MainState::Menu, true));
    assert!(!escape_closes_window(MainState::InGame, true));
    assert!(!escape_closes_window(MainState::Debug, false));
}

#[test]
fn debug_mode_keys() {
    assert_eq!(debug_mode_toggle(MainState::Menu, true, false), Some(MainState::Debug));
    assert_eq!(debug_mode_toggle(MainState::InGame, true, true), Some(MainState::Debug));
    assert_eq!(debug_mode_toggle(MainState::Debug, true, false), Some(MainState::Menu));
    assert_eq!(debug_mode_toggle(MainState::Debug, false, true), Some(MainState::Menu));
    assert_eq!(debug_mode_toggle(MainState::Menu, false, true), None);
    assert_eq!(
        debug_shortcuts(false, true, true, true, false),
        DebugSpawns { text_window: true, firework: false }
    );
    assert_eq!(
        debug_shortcuts(true, true, true, true, true),
        DebugSpawns { text_window: false, firework: false }
    );
    assert_eq!(
        debug_shortcuts(false, false, true, true, true),
        DebugSpawns { text_window: false, firework: false }
    );
}

#[test]
fn the_countdown_runs_out_and_its_pulse_speeds_up_once() {
    let second = 1_000_000_000;
    let mut timer = DilemmaTimer::new(10 * second, 3 * second, 2 * second);
    assert!(!timer.tick(4 * second));
    assert_eq!(timer.remaining_ns(), 6 * second);
    assert_eq!(
        timer.pulse(second, second / 10),
        PulseDecision { active: false, speed_up: false }
    );
    assert!(!timer.tick(3 * second));
    assert_eq!(
        timer.pulse(second / 2, second / 10),
        PulseDecision { active: true, speed_up: false }
    );
    assert!(!timer.tick(second / 2));
    assert_eq!(
        timer.pulse(second / 2, second / 10),
        PulseDecision { active: true, speed_up: true }
    );
    assert_eq!(
        timer.pulse(second / 2, second / 10),
        PulseDecision { active: true, speed_up: false }
    );
    assert!(timer.tick(10 * second));
    assert_eq!(timer.remaining_ns(), 0);
    assert_eq!(timer.elapsed_ns, 10 * second);
}
