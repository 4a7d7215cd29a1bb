use scene_flow::menu_control::{
    any_open, click_outside_dropdown, cycle_option, handle_menu_command, leave_menu_page,
    modal_shortcut_button, pick_resolution, press_modal_button, resolution_dropdown_keys,
    DropdownKeyAction, DropdownKeys, DropdownLayer, MenuCommandOutcome, MenuDropdownState, MenuNavigationState,
    PageUpdate, VideoModalButton, VideoModalKind, VideoPageFocus,
};
use scene_flow::menus::{
    collect_shortcut_commands, dropdown_resolution_shortcut_index, page_definition,
    sanitize_selection_index, video_resolution_option_index, MenuCommand, MenuHost, MenuPage,
    MenuShortcutKey, MenuStack, ShortcutCandidate, VIDEO_MENU_RESOLUTION_TEXT,
};
use scene_flow::states::{MainState, PauseState};
use scene_flow::video::{
    display_mode_text, present_mode_text, VideoDisplayMode, VideoSettingsSnapshot,
    VideoSettingsState,
};

fn no_outcome() -> MenuCommandOutcome {
    MenuCommandOutcome {
        page: PageUpdate::Unchanged,
        close_dropdown: false,
        open_dropdown_at: None,
        prompt_unsaved_exit: false,
        apply_to_window: None,
        next_pause: None,
        next_main: None,
        exit_application: false,
    }
}

fn ready_settings() -> VideoSettingsState {
    VideoSettingsState {
        initialized: true,
        ..VideoSettingsState::default()
    }
}

#[test]
fn a_new_stack_shows_its_root_page_with_the_first_option() {
    let stack = MenuStack::new(MenuPage::PauseRoot);
    assert_eq!(stack.current_page(), Some(MenuPage::PauseRoot));
    assert_eq!(stack.current_selected_index(), 0);
}

#[test]
fn closing_a_page_restores_the_selection_below() {
    let mut stack = MenuStack::new(MenuPage::PauseRoot);
    stack.remember_selected_index(2);
    stack.push(MenuPage::Options);
    assert_eq!(stack.current_page(), Some(MenuPage::Options));
    assert_eq!(stack.current_selected_index(), 0);
    stack.remember_selected_index(3);
    stack.push(MenuPage::Video);
    assert_eq!(stack.pop(), Some(3));
    assert_eq!(stack.current_page(), Some(MenuPage::Options));
    assert_eq!(stack.pop(), Some(2));
    assert_eq!(stack.current_page(), Some(MenuPage::PauseRoot));
    assert_eq!(stack.pop(), None);
    assert_eq!(stack.current_page(), Some(MenuPage::PauseRoot));
}

#[test]
fn pages_list_their_options_in_order() {
    let pause = page_definition(MenuPage::PauseRoot);
    assert_eq!(pause.title, "PAUSED");
    assert_eq!(pause.name_prefix, "pause_menu");
    let commands: Vec<MenuCommand> = pause.options.iter().map(|o| o.command).collect();
    assert_eq!(
        commands,
        vec![
            MenuCommand::Push(MenuPage::Options),
            MenuCommand::SetPauseAndMain(PauseState::Unpaused, MainState::Menu),
            MenuCommand::ExitApplication,
            MenuCommand::SetPause(PauseState::Unpaused),
        ]
    );
    assert_eq!(pause.options[3].shortcut, Some(MenuShortcutKey::Backspace));
    assert_eq!(pause.options[3].label, "RESUME [⌫]");

    let debug = page_definition(MenuPage::DebugRoot);
    assert_eq!(debug.options.len(), 2);
    assert_eq!(debug.options[0].command, MenuCommand::CloseMenu);
    assert_eq!(debug.options[0].shortcut, None);

    let video = page_definition(MenuPage::Video);
    assert_eq!(video.options.len(), 6);
    assert!(video.options[0].cyclable);
    assert!(!video.options[1].cyclable);
    assert_eq!(video.options[1].label, VIDEO_MENU_RESOLUTION_TEXT);
    assert_eq!(page_definition(MenuPage::Options).hint, "[ARROW UP/ARROW DOWN + ENTER]");
}

#[test]
fn the_resolution_option_is_the_second_video_row() {
    assert_eq!(video_resolution_option_index(), 1);
}

#[test]
fn digit_keys_pick_resolutions_in_range() {
    let mut pressed = [false; 10];
    assert_eq!(dropdown_resolution_shortcut_index(&pressed), None);
    pressed[2] = true;
    assert_eq!(dropdown_resolution_shortcut_index(&pressed), Some(2));
    pressed[0] = true;
    assert_eq!(dropdown_resolution_shortcut_index(&pressed), Some(0));
    let mut six = [false; 10];
    six[5] = true;
    six[1] = false;
    assert_eq!(dropdown_resolution_shortcut_index(&six), None);
    let mut six_and_two = six;
    six_and_two[1] = true;
    assert_eq!(dropdown_resolution_shortcut_index(&six_and_two), Some(1));
    let mut zero = [false; 10];
    zero[9] = true;
    assert_eq!(dropdown_resolution_shortcut_index(&zero), None);
}

#[test]
fn selection_moves_onto_an_existing_option() {
    assert_eq!(sanitize_selection_index(&vec![], 4), 0);
    assert_eq!(sanitize_selection_index(&vec![3, 1, 2, 1], 2), 2);
    assert_eq!(sanitize_selection_index(&vec![3, 5, 4], 0), 3);
    assert_eq!(sanitize_selection_index(&vec![7], 7), 7);
}

#[test]
fn each_menu_takes_only_its_first_pressed_shortcut() {
    let candidate = |menu: u64, menu_active: bool, key_pressed: bool, command: MenuCommand| ShortcutCandidate {
        menu,
        menu_active,
        key_pressed,
        command,
    };
    let candidates = vec![
        candidate(1, true, false, MenuCommand::ToggleVsync),
        candidate(1, true, true, MenuCommand::ToggleDisplayMode),
        candidate(2, false, true, MenuCommand::Pop),
        candidate(1, true, true, MenuCommand::Pop),
        candidate(3, true, true, MenuCommand::CloseMenu),
    ];
    assert_eq!(
        collect_shortcut_commands(&candidates),
        vec![(1, MenuCommand::ToggleDisplayMode), (3, MenuCommand::CloseMenu)]
    );
    assert!(collect_shortcut_commands(&vec![]).is_empty());
}

#[test]
fn display_texts() {
    assert_eq!(display_mode_text(VideoDisplayMode::Windowed), "Windowed");
    assert_eq!(display_mode_text(VideoDisplayMode::Borderless), "Borderless");
    assert_eq!(present_mode_text(true), "On");
    assert_eq!(present_mode_text(false), "Off");
}

#[test]
fn toggles_wait_for_the_settings_to_be_read() {
    let mut settings = VideoSettingsState::default();
    settings.toggle_vsync();
    settings.toggle_display_mode();
    assert_eq!(settings, VideoSettingsState::default());
    let mut ready = ready_settings();
    ready.toggle_vsync();
    ready.toggle_display_mode();
    assert!(!ready.pending.vsync_enabled);
    assert_eq!(ready.pending.display_mode, VideoDisplayMode::Borderless);
    assert!(ready.is_dirty());
    ready.toggle_vsync();
    ready.toggle_display_mode();
    assert_eq!(ready, ready_settings());
}

#[test]
fn apply_then_keep_saves_the_change() {
    let mut settings = ready_settings();
    settings.choose_resolution(3);
    let applied = settings.apply().expect("there is a change to apply");
    assert_eq!(applied.resolution_index, 3);
    assert_eq!(settings.revert_snapshot, Some(VideoSettingsSnapshot::default()));
    assert_eq!(settings.apply_elapsed_ms, Some(0));
    settings.keep_applied();
    assert!(!settings.is_dirty());
    assert_eq!(settings.saved.resolution_index, 3);
    assert_eq!(settings.revert_snapshot, None);
    assert_eq!(settings.apply_elapsed_ms, None);
    assert_eq!(settings.apply(), None);
}

#[test]
fn apply_then_revert_restores_what_was_saved() {
    let mut settings = ready_settings();
    settings.choose_resolution(99);
    assert_eq!(settings.pending.resolution_index, 4);
    settings.apply();
    let restored = settings.revert_applied();
    assert_eq!(restored, Some(VideoSettingsSnapshot::default()));
    assert_eq!(settings.pending, VideoSettingsSnapshot::default());
    assert!(!settings.is_dirty());
}

#[test]
fn the_confirmation_countdown_reverts_after_thirty_seconds() {
    let mut settings = ready_settings();
    settings.toggle_vsync();
    settings.apply();
    let tick = settings.tick_apply_countdown(1).expect("countdown runs");
    assert_eq!(tick.seconds_left, 30);
    assert!(!tick.expired);
    let tick = settings.tick_apply_countdown(1000).expect("countdown runs");
    assert_eq!(tick.seconds_left, 29);
    let tick = settings.tick_apply_countdown(28_999).expect("countdown runs");
    assert_eq!(tick.seconds_left, 0);
    assert!(tick.expired);
    assert_eq!(tick.restore, Some(VideoSettingsSnapshot::default()));
    assert!(settings.pending.vsync_enabled);
    assert_eq!(settings.apply_elapsed_ms, None);
    assert_eq!(settings.tick_apply_countdown(5), None);
}

#[test]
fn leaving_video_with_unsaved_changes_asks_first() {
    let mut stack = MenuStack::new(MenuPage::PauseRoot);
    stack.push(MenuPage::Options);
    stack.push(MenuPage::Video);
    let mut selected = 5;
    let mut settings = ready_settings();
    settings.toggle_vsync();
    let mut navigation = MenuNavigationState::default();
    let mut dropdown = MenuDropdownState::default();
    let mut suppress = false;
    let outcome = handle_menu_command(
        MenuCommand::Pop, 7, &mut stack, &mut selected, &mut settings, &mut navigation,
        &mut dropdown, false, &mut suppress,
    );
    assert_eq!(
        outcome,
        Some(MenuCommandOutcome { close_dropdown: true, prompt_unsaved_exit: true, ..no_outcome() })
    );
    assert_eq!(stack.current_page(), Some(MenuPage::Video));
    assert_eq!(navigation.exit_prompt_target_menu, Some(7));

    let restored = press_modal_button(VideoModalButton::ExitWithoutSaving, &mut settings, &mut navigation);
    assert_eq!(restored, None);
    assert!(!settings.is_dirty());
    assert_eq!(navigation.pending_exit_menu, Some(7));
    assert_eq!(navigation.exit_prompt_target_menu, None);

    let pending = navigation.take_pending_exit();
    assert_eq!(pending, Some((7, false)));
    assert_eq!(navigation, MenuNavigationState::default());
    let (page, pause) = leave_menu_page(MenuHost::Pause, false, &mut stack, &mut selected);
    assert_eq!((page, pause), (PageUpdate::Rebuild, None));
    assert_eq!(stack.current_page(), Some(MenuPage::Options));
    assert_eq!(selected, 0);
}

#[test]
fn pushing_and_popping_pages_remembers_selections() {
    let mut stack = MenuStack::new(MenuPage::PauseRoot);
    let mut selected = 0;
    let mut settings = ready_settings();
    let mut navigation = MenuNavigationState::default();
    let mut dropdown = MenuDropdownState::default();
    let mut suppress = false;
    let pushed = handle_menu_command(
        MenuCommand::Push(MenuPage::Options), 1, &mut stack, &mut selected, &mut settings,
        &mut navigation, &mut dropdown, false, &mut suppress,
    );
    assert_eq!(pushed, Some(MenuCommandOutcome { page: PageUpdate::Rebuild, close_dropdown: true, ..no_outcome() }));
    assert_eq!(stack.current_page(), Some(MenuPage::Options));
    selected = 3;
    let popped = handle_menu_command(
        MenuCommand::Pop, 1, &mut stack, &mut selected, &mut settings, &mut navigation,
        &mut dropdown, false, &mut suppress,
    );
    assert_eq!(popped, Some(MenuCommandOutcome { page: PageUpdate::Rebuild, close_dropdown: true, ..no_outcome() }));
    assert_eq!(selected, 0);
    let closed = handle_menu_command(
        MenuCommand::Pop, 1, &mut stack, &mut selected, &mut settings, &mut navigation,
        &mut dropdown, false, &mut suppress,
    );
    assert_eq!(closed, Some(MenuCommandOutcome { page: PageUpdate::Close, close_dropdown: true, ..no_outcome() }));
}

#[test]
fn clicks_are_ignored_under_a_dialog_or_an_open_list() {
    let mut stack = MenuStack::new(MenuPage::Video);
    let mut selected = 0;
    let mut settings = ready_settings();
    let mut navigation = MenuNavigationState::default();
    let mut dropdown = MenuDropdownState { open_menu: Some(4), suppress_toggle_once: false };
    let mut suppress = false;
    assert_eq!(
        handle_menu_command(
            MenuCommand::ToggleVsync, 4, &mut stack, &mut selected, &mut settings,
            &mut navigation, &mut dropdown, false, &mut suppress,
        ),
        None
    );
    assert_eq!(
        handle_menu_command(
            MenuCommand::ToggleVsync, 4, &mut stack, &mut selected, &mut settings,
            &mut navigation, &mut MenuDropdownState::default(), true, &mut suppress,
        ),
        None
    );
    assert!(settings.pending.vsync_enabled);
    let toggled = handle_menu_command(
        MenuCommand::ToggleResolutionDropdown, 4, &mut stack, &mut selected, &mut settings,
        &mut navigation, &mut dropdown, false, &mut suppress,
    );
    assert_eq!(toggled, Some(MenuCommandOutcome { close_dropdown: true, ..no_outcome() }));
    assert_eq!(dropdown.open_menu, None);
    let reopened = handle_menu_command(
        MenuCommand::ToggleResolutionDropdown, 4, &mut stack, &mut selected, &mut settings,
        &mut navigation, &mut dropdown, false, &mut suppress,
    );
    assert_eq!(reopened, Some(MenuCommandOutcome { open_dropdown_at: Some(0), ..no_outcome() }));
    suppress = true;
    let suppressed = handle_menu_command(
        MenuCommand::ToggleResolutionDropdown, 4, &mut stack, &mut selected, &mut settings,
        &mut navigation, &mut dropdown, false, &mut suppress,
    );
    assert_eq!(suppressed, Some(no_outcome()));
    assert!(!suppress);
}

#[test]
fn state_commands_ask_for_state_changes() {
    let mut stack = MenuStack::new(MenuPage::PauseRoot);
    let mut selected = 1;
    let mut settings = VideoSettingsState::default();
    let mut navigation = MenuNavigationState::default();
    let mut dropdown = MenuDropdownState::default();
    let mut suppress = false;
    let mut run = |command: MenuCommand| {
        handle_menu_command(
            command, 2, &mut stack, &mut selected, &mut settings, &mut navigation,
            &mut dropdown, false, &mut suppress,
        )
    };
    assert_eq!(
        run(MenuCommand::SetPauseAndMain(PauseState::Unpaused, MainState::Menu)),
        Some(MenuCommandOutcome {
            next_pause: Some(PauseState::Unpaused),
            next_main: Some(MainState::Menu),
            ..no_outcome()
        })
    );
    assert_eq!(run(MenuCommand::ExitApplication), Some(MenuCommandOutcome { exit_application: true, ..no_outcome() }));
    assert_eq!(run(MenuCommand::CloseMenu), Some(MenuCommandOutcome { page: PageUpdate::Close, ..no_outcome() }));
    assert_eq!(run(MenuCommand::NoAction), Some(no_outcome()));
    assert_eq!(run(MenuCommand::ApplyVideoSettings), Some(no_outcome()));
    assert_eq!(run(MenuCommand::ToggleResolutionDropdown), Some(no_outcome()));
}

#[test]
fn apply_command_puts_pending_settings_on_the_window() {
    let mut stack = MenuStack::new(MenuPage::Video);
    let mut selected = 3;
    let mut settings = ready_settings();
    settings.toggle_display_mode();
    let mut navigation = MenuNavigationState::default();
    let mut dropdown = MenuDropdownState::default();
    let mut suppress = false;
    let outcome = handle_menu_command(
        MenuCommand::ApplyVideoSettings, 9, &mut stack, &mut selected, &mut settings,
        &mut navigation, &mut dropdown, false, &mut suppress,
    );
    let expected_snapshot = VideoSettingsSnapshot {
        display_mode: VideoDisplayMode::Borderless,
        resolution_index: 0,
        vsync_enabled: true,
    };
    assert_eq!(
        outcome,
        Some(MenuCommandOutcome { close_dropdown: true, apply_to_window: Some(expected_snapshot), ..no_outcome() })
    );
    assert_eq!(settings.revert_snapshot, Some(VideoSettingsSnapshot::default()));
    let reset = handle_menu_command(
        MenuCommand::ResetVideoDefaults, 9, &mut stack, &mut selected, &mut settings,
        &mut navigation, &mut dropdown, false, &mut suppress,
    );
    assert_eq!(reset, Some(MenuCommandOutcome { close_dropdown: true, ..no_outcome() }));
    assert_eq!(settings.pending, VideoSettingsSnapshot::default());
}

#[test]
fn leaving_the_whole_menu_system_unpauses_or_closes() {
    let mut stack = MenuStack::new(MenuPage::Options);
    let mut selected = 2;
    assert_eq!(
        leave_menu_page(MenuHost::Pause, true, &mut stack, &mut selected),
        (PageUpdate::Unchanged, Some(PauseState::Unpaused))
    );
    assert_eq!(
        leave_menu_page(MenuHost::Debug, true, &mut stack, &mut selected),
        (PageUpdate::Close, None)
    );
    assert_eq!(
        leave_menu_page(MenuHost::Main, false, &mut stack, &mut selected),
        (PageUpdate::Close, None)
    );
    assert_eq!(selected, 2);
}

#[test]
fn dialog_keys_answer_yes_or_no() {
    assert_eq!(
        modal_shortcut_button(Some(VideoModalKind::ApplyConfirm), true, true, false),
        Some(VideoModalButton::ApplyKeep)
    );
    assert_eq!(
        modal_shortcut_button(Some(VideoModalKind::ApplyConfirm), false, false, true),
        Some(VideoModalButton::ApplyRevert)
    );
    assert_eq!(
        modal_shortcut_button(Some(VideoModalKind::ExitUnsaved), false, true, false),
        Some(VideoModalButton::ExitCancel)
    );
    assert_eq!(
        modal_shortcut_button(Some(VideoModalKind::ExitUnsaved), true, false, false),
        Some(VideoModalButton::ExitWithoutSaving)
    );
    assert_eq!(modal_shortcut_button(Some(VideoModalKind::ExitUnsaved), false, false, false), None);
    assert_eq!(modal_shortcut_button(None, true, false, false), None);
}

#[test]
fn cancelling_the_exit_prompt_forgets_it() {
    let mut settings = ready_settings();
    settings.toggle_vsync();
    let mut navigation = MenuNavigationState {
        pending_exit_menu: None,
        pending_exit_closes_menu_system: false,
        exit_prompt_target_menu: Some(3),
        exit_prompt_closes_menu_system: true,
    };
    assert_eq!(press_modal_button(VideoModalButton::ExitCancel, &mut settings, &mut navigation), None);
    assert_eq!(navigation, MenuNavigationState::default());
    assert!(settings.is_dirty());
}

#[test]
fn cyclers_switch_settings_only_when_free() {
    let mut settings = ready_settings();
    let closed = MenuDropdownState::default();
    assert!(cycle_option(MenuCommand::ToggleVsync, true, false, &mut settings, &closed, false));
    assert!(!settings.pending.vsync_enabled);
    assert!(!cycle_option(MenuCommand::ToggleVsync, false, false, &mut settings, &closed, false));
    assert!(!cycle_option(MenuCommand::ToggleVsync, true, false, &mut settings, &closed, true));
    let open = MenuDropdownState { open_menu: Some(1), suppress_toggle_once: false };
    assert!(!cycle_option(MenuCommand::ToggleDisplayMode, false, true, &mut settings, &open, false));
    assert!(cycle_option(MenuCommand::Pop, false, true, &mut settings, &closed, false));
    assert!(!settings.pending.vsync_enabled);
}

#[test]
fn picking_a_resolution_closes_the_lists() {
    let mut settings = ready_settings();
    let mut dropdown = MenuDropdownState { open_menu: Some(2), suppress_toggle_once: false };
    assert!(pick_resolution(&mut settings, &mut dropdown, 2));
    assert_eq!(settings.pending.resolution_index, 2);
    assert_eq!(dropdown, MenuDropdownState { open_menu: None, suppress_toggle_once: true });
    let mut unread = VideoSettingsState::default();
    let mut other = MenuDropdownState { open_menu: Some(2), suppress_toggle_once: false };
    assert!(!pick_resolution(&mut unread, &mut other, 2));
    assert_eq!(other.open_menu, Some(2));
}

#[test]
fn a_click_beside_the_list_closes_it() {
    let settings = ready_settings();
    let mut dropdown = MenuDropdownState { open_menu: Some(2), suppress_toggle_once: false };
    assert!(!click_outside_dropdown(&settings, &mut dropdown, true, true, true));
    assert!(!click_outside_dropdown(&settings, &mut dropdown, false, false, true));
    assert!(click_outside_dropdown(&settings, &mut dropdown, true, false, true));
    assert_eq!(dropdown, MenuDropdownState { open_menu: None, suppress_toggle_once: true });
}

#[test]
fn keys_steer_the_resolution_list() {
    let menus = vec![
        VideoPageFocus { menu: 1, selected_index: 0 },
        VideoPageFocus { menu: 2, selected_index: 1 },
    ];
    let keys = |left: bool, right: bool, shortcut: Option<usize>| DropdownKeys {
        left,
        right,
        backspace: false,
        escape: false,
        resolution_shortcut: shortcut,
    };
    let mut settings = ready_settings();
    settings.choose_resolution(3);
    let mut dropdown = MenuDropdownState::default();
    assert_eq!(
        resolution_dropdown_keys(&mut settings, &mut dropdown, &menus, keys(false, true, None), false, 1),
        DropdownKeyAction::Open { menu: 2, at: 3 }
    );
    assert_eq!(
        resolution_dropdown_keys(&mut settings, &mut dropdown, &menus, keys(true, true, None), false, 1),
        DropdownKeyAction::Idle
    );
    dropdown.open_for_menu(2, 3, &vec![layer(20, 2, false)]);
    assert_eq!(
        resolution_dropdown_keys(&mut settings, &mut dropdown, &menus, keys(false, false, None), false, 1),
        DropdownKeyAction::HoldOpen { menu: 2, close: false }
    );
    assert_eq!(
        resolution_dropdown_keys(&mut settings, &mut dropdown, &menus, keys(false, false, Some(1)), false, 1),
        DropdownKeyAction::HoldOpen { menu: 2, close: true }
    );
    assert_eq!(settings.pending.resolution_index, 1);
    assert_eq!(dropdown, MenuDropdownState { open_menu: None, suppress_toggle_once: true });
    dropdown.open_for_menu(5, 0, &vec![layer(50, 5, false)]);
    assert_eq!(
        resolution_dropdown_keys(&mut settings, &mut dropdown, &menus, keys(false, false, None), false, 1),
        DropdownKeyAction::CloseAll
    );
    assert_eq!(dropdown.open_menu, None);
    assert_eq!(
        resolution_dropdown_keys(&mut settings, &mut dropdown, &menus, keys(false, true, None), true, 1),
        DropdownKeyAction::Idle
    );
}

fn layer(dropdown: u64, parent_menu: u64, visible: bool) -> DropdownLayer {
    DropdownLayer { dropdown, parent_menu, visible, selection: None }
}

#[test]
fn only_the_open_menus_list_stays_visible() {
    let mut state = MenuDropdownState { open_menu: Some(20), suppress_toggle_once: true };
    let layers = vec![layer(1, 10, true), layer(2, 20, true), layer(3, 30, false)];
    let shown = state.enforce_single_visible_layer(true, false, &layers);
    assert_eq!(shown, vec![false, true, false]);
    assert_eq!(state.open_menu, Some(20));
    assert!(state.suppress_toggle_once);
}

#[test]
fn without_an_open_menu_the_first_visible_list_stays() {
    let mut state = MenuDropdownState::default();
    let layers = vec![layer(1, 10, false), layer(2, 20, true), layer(3, 30, true)];
    let shown = state.enforce_single_visible_layer(false, false, &layers);
    assert_eq!(shown, vec![false, true, false]);
    assert_eq!(state.open_menu, Some(20));
}

#[test]
fn a_gone_open_menu_is_forgotten_before_choosing() {
    let mut state = MenuDropdownState { open_menu: Some(30), suppress_toggle_once: false };
    let layers = vec![layer(1, 10, true), layer(3, 30, true)];
    let shown = state.enforce_single_visible_layer(false, false, &layers);
    assert_eq!(shown, vec![true, false]);
    assert_eq!(state.open_menu, Some(10));
}

#[test]
fn a_modal_hides_every_list() {
    let mut state = MenuDropdownState { open_menu: Some(10), suppress_toggle_once: false };
    let layers = vec![layer(1, 10, true), layer(2, 20, false)];
    let shown = state.enforce_single_visible_layer(true, true, &layers);
    assert_eq!(shown, vec![false, false]);
    assert_eq!(state.open_menu, None);
}

#[test]
fn with_no_list_visible_no_menu_is_open() {
    let mut state = MenuDropdownState { open_menu: Some(10), suppress_toggle_once: false };
    let layers = vec![layer(1, 10, false)];
    let shown = state.enforce_single_visible_layer(true, false, &layers);
    assert_eq!(shown, vec![false]);
    assert_eq!(state.open_menu, None);
}

fn selectable(dropdown: u64, parent_menu: u64, visible: bool, selection: usize) -> DropdownLayer {
    DropdownLayer { dropdown, parent_menu, visible, selection: Some(selection) }
}

#[test]
fn opening_a_menus_lists_shows_them_at_the_index_and_hides_the_rest() {
    let mut state = MenuDropdownState::default();
    let layers = vec![selectable(1, 10, true, 0), selectable(2, 20, false, 4), layer(3, 20, false)];
    let after = state.open_for_menu(20, 2, &layers);
    assert_eq!(
        after,
        vec![selectable(1, 10, false, 0), selectable(2, 20, true, 2), layer(3, 20, true)]
    );
    assert_eq!(state.open_menu, Some(20));
    assert!(any_open(&after));
}

#[test]
fn opening_a_menu_without_lists_forgets_it() {
    let mut state = MenuDropdownState { open_menu: Some(30), suppress_toggle_once: true };
    let layers = vec![selectable(1, 10, true, 1)];
    let after = state.open_for_menu(30, 5, &layers);
    assert_eq!(after, vec![selectable(1, 10, false, 1)]);
    assert_eq!(state, MenuDropdownState { open_menu: None, suppress_toggle_once: true });
    assert!(!any_open(&after));

    let mut other = MenuDropdownState { open_menu: Some(10), suppress_toggle_once: false };
    other.open_for_menu(30, 5, &layers);
    assert_eq!(other.open_menu, Some(10));
}

#[test]
fn closing_hides_a_menus_lists_or_all_of_them() {
    let layers = vec![layer(1, 10, true), layer(2, 20, true), layer(3, 10, false)];
    let mut state = MenuDropdownState { open_menu: Some(10), suppress_toggle_once: false };
    assert_eq!(state.close_for_menu(10, &layers), vec![false, true, false]);
    assert_eq!(state.open_menu, None);

    let mut kept = MenuDropdownState { open_menu: Some(20), suppress_toggle_once: false };
    assert_eq!(kept.close_for_menu(10, &layers), vec![false, true, false]);
    assert_eq!(kept.open_menu, Some(20));

    assert_eq!(kept.close_all(&layers), vec![false, false, false]);
    assert_eq!(kept.open_menu, None);
    assert!(any_open(&layers));
    assert!(!any_open(&vec![]));
}
