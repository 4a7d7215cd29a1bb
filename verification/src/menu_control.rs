//! What the system menu's options, dialog buttons and keys decide: how the page stack, the
//! video settings, the open resolution list and the game states change, and what the caller
//! then shows, hides, spawns or closes. Menus are named by an id of the caller's choosing.
use vstd::prelude::*;
use crate::menus::{popped, pushed, remembered, top_page, MenuCommand, MenuHost, MenuPage, MenuStack};
use crate::states::{MainState, PauseState};
use crate::video::{
    applied, can_apply, clamp_resolution, clamped_resolution_index, discarded, display_mode_toggled,
    is_dirty, kept, reset_to_defaults, resolution_chosen, reverted, vsync_toggled,
    VideoSettingsSnapshot, VideoSettingsState,
};

verus! {

/// Which menu has its resolution list open, and whether the next toggle of the list is to be
/// ignored (the click that closed the list also reaches the option under it).
#[derive(Debug, Clone, Copy, PartialEq, Eq, Structural)]
pub struct MenuDropdownState {
    pub open_menu: Option<u64>,
    pub suppress_toggle_once: bool,
}

impl Default for MenuDropdownState {
    fn default() -> (r: MenuDropdownState)
        ensures
            r == (MenuDropdownState { open_menu: None, suppress_toggle_once: false }),
    {
        MenuDropdownState { open_menu: None, suppress_toggle_once: false }
    }
}

/// The state after the list of `menu` is closed.
pub open spec fn closed_for(d: MenuDropdownState, menu: u64) -> MenuDropdownState {
    if d.open_menu == Some(menu) { MenuDropdownState { open_menu: None, ..d } } else { d }
}

impl MenuDropdownState {
    /// Forgets `menu` as the open one, if it is.
    pub(crate) fn forget_menu(&mut self, menu: u64)
        ensures
            *final(self) == closed_for(*old(self), menu),
    {
        if self.open_menu == Some(menu) {
            self.open_menu = None;
        }
    }

    /// Forgets the open menu.
    pub(crate) fn forget_all(&mut self)
        ensures
            *final(self) == (MenuDropdownState { open_menu: None, ..*old(self) }),
    {
        self.open_menu = None;
    }

    /// Closes the lists of `menu`: they are hidden, the others keep showing or not, and `menu`
    /// is no longer the open one. Returns whether each of `layers` shows afterwards.
    pub fn close_for_menu(&mut self, menu: u64, layers: &Vec<DropdownLayer>) -> (shown: Vec<bool>)
        ensures
            *final(self) == closed_for(*old(self), menu),
            shown@.len() == layers@.len(),
            forall|i: int| 0 <= i < layers@.len()
                ==> shown@[i] == (layers@[i].visible && layers@[i].parent_menu != menu),
    {
        self.forget_menu(menu);
        let n = layers.len();
        let mut shown: Vec<bool> = Vec::new();
        let mut i: usize = 0;
        while i < n
            invariant
                n == layers@.len(),
                i <= n,
                shown@.len() == i,
                forall|j: int| 0 <= j < i ==> shown@[j] == (layers@[j].visible && layers@[j].parent_menu != menu),
            decreases n - i,
        {
            shown.push(layers[i].visible && layers[i].parent_menu != menu);
            i = i + 1;
        }
        shown
    }

    /// Hides every list and forgets the open menu. Returns whether each of `layers` shows
    /// afterwards: none does.
    pub fn close_all(&mut self, layers: &Vec<DropdownLayer>) -> (shown: Vec<bool>)
        ensures
            *final(self) == (MenuDropdownState { open_menu: None, ..*old(self) }),
            shown@.len() == layers@.len(),
            forall|i: int| 0 <= i < layers@.len() ==> !shown@[i],
    {
        self.forget_all();
        let n = layers.len();
        let mut shown: Vec<bool> = Vec::new();
        let mut i: usize = 0;
        while i < n
            invariant
                n == layers@.len(),
                i <= n,
                shown@.len() == i,
                forall|j: int| 0 <= j < i ==> !shown@[j],
            decreases n - i,
        {
            shown.push(false);
            i = i + 1;
        }
        shown
    }

    /// Opens the lists of `menu`: each of them shows with `selected_index` as its selection
    /// (where it has one), every other list is hidden, and `menu` becomes the open one when it
    /// has a list; else it is forgotten, if it was the open one. Returns the lists as they are
    /// afterwards.
    pub fn open_for_menu(&mut self, menu: u64, selected_index: usize, layers: &Vec<DropdownLayer>) -> (r: Vec<DropdownLayer>)
        ensures
            r@.len() == layers@.len(),
            forall|i: int| 0 <= i < layers@.len() ==> r@[i] == opened_layer(layers@[i], menu, selected_index),
            *final(self) == (if exists|i: int| 0 <= i < layers@.len() && (#[trigger] layers@[i]).parent_menu == menu {
                MenuDropdownState { open_menu: Some(menu), ..*old(self) }
            } else {
                closed_for(*old(self), menu)
            }),
    {
        let n = layers.len();
        let mut r: Vec<DropdownLayer> = Vec::new();
        let mut found = false;
        let mut i: usize = 0;
        while i < n
            invariant
                n == layers@.len(),
                i <= n,
                r@.len() == i,
                forall|j: int| 0 <= j < i ==> r@[j] == opened_layer(layers@[j], menu, selected_index),
                found == exists|j: int| 0 <= j < i && (#[trigger] layers@[j]).parent_menu == menu,
            decreases n - i,
        {
            let layer = layers[i];
            let mine = layer.parent_menu == menu;
            let selection = if mine && layer.selection.is_some() { Some(selected_index) } else { layer.selection };
            r.push(DropdownLayer { visible: mine, selection, ..layer });
            if mine {
                found = true;
            }
            i = i + 1;
        }
        if found {
            self.open_menu = Some(menu);
        } else {
            self.forget_menu(menu);
        }
        r
    }

    /// Reads and clears the request to ignore the next toggle.
    pub fn take_suppress_toggle(&mut self) -> (r: bool)
        ensures
            r == old(self).suppress_toggle_once,
            *final(self) == (MenuDropdownState { suppress_toggle_once: false, ..*old(self) }),
    {
        let r = self.suppress_toggle_once;
        self.suppress_toggle_once = false;
        r
    }
}

/// One resolution list as the caller finds it: its id, the menu it belongs to, whether it
/// shows, and the option it has selected (none when it cannot select).
#[derive(Debug, Clone, Copy, PartialEq, Eq, Structural)]
pub struct DropdownLayer {
    pub dropdown: u64,
    pub parent_menu: u64,
    pub visible: bool,
    pub selection: Option<usize>,
}

/// `l` once the lists of `menu` are opened at `selected_index`.
pub open spec fn opened_layer(l: DropdownLayer, menu: u64, selected_index: usize) -> DropdownLayer {
    DropdownLayer {
        visible: l.parent_menu == menu,
        selection: if l.parent_menu == menu && l.selection is Some { Some(selected_index) } else { l.selection },
        ..l
    }
}

/// Whether any of `layers` shows.
pub fn any_open(layers: &Vec<DropdownLayer>) -> (r: bool)
    ensures
        r == exists|i: int| 0 <= i < layers@.len() && (#[trigger] layers@[i]).visible,
{
    let mut i: usize = 0;
    while i < layers.len()
        invariant
            i <= layers@.len(),
            forall|j: int| 0 <= j < i ==> !(#[trigger] layers@[j]).visible,
        decreases layers.len() - i,
    {
        if layers[i].visible {
            return true;
        }
        i = i + 1;
    }
    false
}

/// Whether `layer` shows and, when `menu` names one, belongs to that menu.
pub open spec fn shows_under(layer: DropdownLayer, menu: Option<u64>) -> bool {
    layer.visible && match menu {
        Some(m) => layer.parent_menu == m,
        None => true,
    }
}

/// The first position from `k` on whose list shows under `menu`.
pub open spec fn first_shown_from(layers: Seq<DropdownLayer>, menu: Option<u64>, k: int) -> Option<int>
    decreases layers.len() - k,
{
    if k < 0 || k >= layers.len() {
        None
    } else if shows_under(layers[k], menu) {
        Some(k)
    } else {
        first_shown_from(layers, menu, k + 1)
    }
}

/// The menu of the last list before position `k` that has the id `dropdown`.
pub open spec fn last_parent_before(layers: Seq<DropdownLayer>, dropdown: u64, k: int) -> Option<u64>
    decreases k,
{
    if k <= 0 || k > layers.len() {
        None
    } else if layers[k - 1].dropdown == dropdown {
        Some(layers[k - 1].parent_menu)
    } else {
        last_parent_before(layers, dropdown, k - 1)
    }
}

/// The open menu once a menu whose root is gone is forgotten.
pub open spec fn live_open_menu(open_menu: Option<u64>, open_root_exists: bool) -> Option<u64> {
    if open_menu is Some && !open_root_exists { None } else { open_menu }
}

/// The position of the list that stays: the first showing list of the open menu, or else the
/// first showing list.
pub open spec fn kept_layer(layers: Seq<DropdownLayer>, open_menu: Option<u64>) -> Option<int> {
    match open_menu {
        Some(m) => match first_shown_from(layers, Some(m), 0) {
            Some(j) => Some(j),
            None => first_shown_from(layers, None, 0),
        },
        None => first_shown_from(layers, None, 0),
    }
}

/// The first position whose list shows under `menu`.
fn find_shown(layers: &Vec<DropdownLayer>, menu: Option<u64>) -> (r: Option<usize>)
    ensures
        match r {
            Some(j) => first_shown_from(layers@, menu, 0) == Some(j as int),
            None => first_shown_from(layers@, menu, 0) is None,
        },
{
    let mut i: usize = 0;
    while i < layers.len()
        invariant
            i <= layers@.len(),
            first_shown_from(layers@, menu, 0) == first_shown_from(layers@, menu, i as int),
        decreases layers.len() - i,
    {
        let layer = layers[i];
        let shows = layer.visible && match menu {
            Some(m) => layer.parent_menu == m,
            None => true,
        };
        if shows {
            return Some(i);
        }
        i = i + 1;
    }
    None
}

impl MenuDropdownState {
    /// Leaves at most one resolution list showing. A remembered open menu whose root is gone
    /// (`open_root_exists` false) is forgotten first. Under a modal dialog every list is hidden
    /// and no menu is open; with no list showing, none is open. Otherwise the first showing
    /// list of the open menu stays (the first showing list when the open menu shows none), the
    /// others are hidden, and its menu becomes the open one. Returns whether each of `layers`
    /// shows afterwards, in order.
    pub fn enforce_single_visible_layer(
        &mut self,
        open_root_exists: bool,
        modal_open: bool,
        layers: &Vec<DropdownLayer>,
    ) -> (shown: Vec<bool>)
        ensures
            shown@.len() == layers@.len(),
            final(self).suppress_toggle_once == old(self).suppress_toggle_once,
            modal_open ==> final(self).open_menu is None
                && forall|i: int| 0 <= i < layers@.len() ==> !shown@[i],
            !modal_open ==> match kept_layer(layers@, live_open_menu(old(self).open_menu, open_root_exists)) {
                None => final(self).open_menu is None
                    && forall|i: int| 0 <= i < layers@.len() ==> shown@[i] == layers@[i].visible,
                Some(k) => {
                    &&& 0 <= k < layers@.len()
                    &&& final(self).open_menu == last_parent_before(layers@, layers@[k].dropdown, layers@.len() as int)
                    &&& forall|i: int| 0 <= i < layers@.len() ==> shown@[i] == (layers@[i].dropdown == layers@[k].dropdown)
                },
            },
            (forall|a: int, b: int| 0 <= a < b < layers@.len() ==> layers@[a].dropdown != layers@[b].dropdown)
                ==> forall|a: int, b: int| 0 <= a < layers@.len() && 0 <= b < layers@.len() && shown@[a] && shown@[b] ==> a == b,
    {
        if self.open_menu.is_some() && !open_root_exists {
            self.open_menu = None;
        }
        let n = layers.len();
        let mut shown: Vec<bool> = Vec::new();
        if modal_open {
            let mut i: usize = 0;
            while i < n
                invariant
                    n == layers@.len(),
                    i <= n,
                    shown@.len() == i,
                    forall|j: int| 0 <= j < i ==> !shown@[j],
                decreases n - i,
            {
                shown.push(false);
                i = i + 1;
            }
            self.open_menu = None;
            return shown;
        }
        let first = find_shown(layers, None);
        let keep = match self.open_menu {
            Some(m) => match find_shown(layers, Some(m)) {
                Some(j) => Some(j),
                None => first,
            },
            None => first,
        };
        proof {
            lemma_first_shown_in_range(layers@, None, 0);
            lemma_first_shown_in_range(layers@, self.open_menu, 0);
            lemma_first_shown_none(layers@, None, 0);
        }
        match keep {
            None => {
                let mut i: usize = 0;
                while i < n
                    invariant
                        n == layers@.len(),
                        i <= n,
                        shown@.len() == i,
                        forall|j: int| 0 <= j < i ==> shown@[j] == layers@[j].visible,
                    decreases n - i,
                {
                    shown.push(layers[i].visible);
                    i = i + 1;
                }
                self.open_menu = None;
                shown
            },
            Some(k) => {
                let keep_id = layers[k].dropdown;
                let mut keep_parent: Option<u64> = None;
                let mut i: usize = 0;
                while i < n
                    invariant
                        n == layers@.len(),
                        i <= n,
                        shown@.len() == i,
                        forall|j: int| 0 <= j < i ==> shown@[j] == (layers@[j].dropdown == keep_id),
                        keep_parent == last_parent_before(layers@, keep_id, i as int),
                    decreases n - i,
                {
                    let layer = layers[i];
                    if layer.dropdown == keep_id {
                        keep_parent = Some(layer.parent_menu);
                    }
                    shown.push(layer.dropdown == keep_id);
                    i = i + 1;
                }
                self.open_menu = keep_parent;
                shown
            },
        }
    }
}

/// When `first_shown_from` gives nothing, no list from `k` on shows under `menu`.
proof fn lemma_first_shown_none(layers: Seq<DropdownLayer>, menu: Option<u64>, k: int)
    requires
        0 <= k,
    ensures
        first_shown_from(layers, menu, k) is None ==> forall|j: int| k <= j < layers.len() ==> !shows_under(layers[j], menu),
    decreases layers.len() - k,
{
    if k < layers.len() {
        lemma_first_shown_none(layers, menu, k + 1);
    }
}

/// A position that `first_shown_from` gives lies in range and holds a showing list.
proof fn lemma_first_shown_in_range(layers: Seq<DropdownLayer>, menu: Option<u64>, k: int)
    ensures
        first_shown_from(layers, menu, k) matches Some(j) ==> k <= j < layers.len() && shows_under(layers[j], menu),
    decreases layers.len() - k,
{
    if k >= 0 && k < layers.len() && !shows_under(layers[k], menu) {
        lemma_first_shown_in_range(layers, menu, k + 1);
    }
}

/// The menu that asked whether to leave with unsaved video settings, and the menu to leave
/// once the answer came.
#[derive(Debug, Clone, Copy, PartialEq, Eq, Structural)]
pub struct MenuNavigationState {
    pub pending_exit_menu: Option<u64>,
    pub pending_exit_closes_menu_system: bool,
    pub exit_prompt_target_menu: Option<u64>,
    pub exit_prompt_closes_menu_system: bool,
}

pub open spec fn idle_navigation() -> MenuNavigationState {
    MenuNavigationState {
        pending_exit_menu: None,
        pending_exit_closes_menu_system: false,
        exit_prompt_target_menu: None,
        exit_prompt_closes_menu_system: false,
    }
}

impl Default for MenuNavigationState {
    fn default() -> (r: MenuNavigationState)
        ensures
            r == idle_navigation(),
    {
        MenuNavigationState {
            pending_exit_menu: None,
            pending_exit_closes_menu_system: false,
            exit_prompt_target_menu: None,
            exit_prompt_closes_menu_system: false,
        }
    }
}

impl MenuNavigationState {
    /// Takes the menu left to leave, with whether leaving closes the whole menu system.
    pub fn take_pending_exit(&mut self) -> (r: Option<(u64, bool)>)
        ensures
            match old(self).pending_exit_menu {
                None => r is None && *final(self) == *old(self),
                Some(menu) => r == Some((menu, old(self).pending_exit_closes_menu_system))
                    && *final(self) == (MenuNavigationState {
                        pending_exit_menu: None,
                        pending_exit_closes_menu_system: false,
                        ..*old(self)
                    }),
            },
    {
        match self.pending_exit_menu {
            None => None,
            Some(menu) => {
                let closes = self.pending_exit_closes_menu_system;
                self.pending_exit_menu = None;
                self.pending_exit_closes_menu_system = false;
                Some((menu, closes))
            },
        }
    }

    /// Forgets a prompt that belonged to a menu that closed.
    pub fn forget_closed_menu(&mut self, menu: u64)
        ensures
            *final(self) == (if old(self).exit_prompt_target_menu == Some(menu) {
                MenuNavigationState { exit_prompt_target_menu: None, ..*old(self) }
            } else {
                *old(self)
            }),
    {
        if self.exit_prompt_target_menu == Some(menu) {
            self.exit_prompt_target_menu = None;
        }
    }
}

/// The buttons of the two video dialogs: confirm an applied change, or leave with unsaved
/// changes.
#[derive(Debug, Clone, Copy, PartialEq, Eq, Hash, Structural)]
pub enum VideoModalButton {
    ApplyKeep,
    ApplyRevert,
    ExitWithoutSaving,
    ExitCancel,
}

#[derive(Debug, Clone, Copy, PartialEq, Eq, Hash, Structural)]
pub enum VideoModalKind {
    ApplyConfirm,
    ExitUnsaved,
}

/// The button that the keys Y, N and Backspace or Escape (`cancel_pressed`) press on a dialog
/// of `kind`: Y answers yes, N or cancel answers no.
pub fn modal_shortcut_button(kind: Option<VideoModalKind>, yes_pressed: bool, no_pressed: bool, cancel_pressed: bool) -> (r: Option<VideoModalButton>)
    ensures
        r == (match kind {
            None => None,
            Some(VideoModalKind::ApplyConfirm) => if yes_pressed {
                Some(VideoModalButton::ApplyKeep)
            } else if no_pressed || cancel_pressed {
                Some(VideoModalButton::ApplyRevert)
            } else {
                None
            },
            Some(VideoModalKind::ExitUnsaved) => if yes_pressed {
                Some(VideoModalButton::ExitWithoutSaving)
            } else if no_pressed || cancel_pressed {
                Some(VideoModalButton::ExitCancel)
            } else {
                None
            },
        }),
{
    match kind {
        None => None,
        Some(VideoModalKind::ApplyConfirm) => {
            if yes_pressed {
                Some(VideoModalButton::ApplyKeep)
            } else if no_pressed || cancel_pressed {
                Some(VideoModalButton::ApplyRevert)
            } else {
                None
            }
        },
        Some(VideoModalKind::ExitUnsaved) => {
            if yes_pressed {
                Some(VideoModalButton::ExitWithoutSaving)
            } else if no_pressed || cancel_pressed {
                Some(VideoModalButton::ExitCancel)
            } else {
                None
            }
        },
    }
}

/// The navigation state once the user chose to leave without saving: the prompting menu is
/// the one to leave now.
pub open spec fn exit_confirmed(n: MenuNavigationState) -> MenuNavigationState {
    MenuNavigationState {
        pending_exit_menu: n.exit_prompt_target_menu,
        pending_exit_closes_menu_system: n.exit_prompt_closes_menu_system,
        exit_prompt_target_menu: None,
        exit_prompt_closes_menu_system: false,
    }
}

/// Once the user chose to leave without saving, the menu that asked is the menu left next,
/// as far as the prompt said, and no prompt is left open.
pub proof fn lemma_confirmed_exit_leaves_the_asking_menu(n: MenuNavigationState, menu: u64)
    requires
        n.exit_prompt_target_menu == Some(menu),
    ensures
        exit_confirmed(n).pending_exit_menu == Some(menu),
        exit_confirmed(n).pending_exit_closes_menu_system == n.exit_prompt_closes_menu_system,
        exit_confirmed(n).exit_prompt_target_menu is None,
        !exit_confirmed(n).exit_prompt_closes_menu_system,
{
}

/// Answers an open video dialog; the dialogs then close. Returns the snapshot to put back on
/// the window, when the answer reverts an applied change.
pub fn press_modal_button(
    button: VideoModalButton,
    settings: &mut VideoSettingsState,
    navigation: &mut MenuNavigationState,
) -> (r: Option<VideoSettingsSnapshot>)
    ensures
        match button {
            VideoModalButton::ApplyKeep => r is None && *final(settings) == kept(*old(settings))
                && *final(navigation) == *old(navigation),
            VideoModalButton::ApplyRevert => r == old(settings).revert_snapshot
                && *final(settings) == reverted(*old(settings)) && *final(navigation) == *old(navigation),
            VideoModalButton::ExitWithoutSaving => r is None && *final(settings) == discarded(*old(settings))
                && *final(navigation) == exit_confirmed(*old(navigation)),
            VideoModalButton::ExitCancel => r is None && *final(settings) == *old(settings)
                && *final(navigation) == idle_navigation(),
        },
{
    match button {
        VideoModalButton::ApplyKeep => {
            settings.keep_applied();
            None
        },
        VideoModalButton::ApplyRevert => settings.revert_applied(),
        VideoModalButton::ExitWithoutSaving => {
            settings.discard_pending();
            navigation.pending_exit_menu = navigation.exit_prompt_target_menu;
            navigation.exit_prompt_target_menu = None;
            navigation.pending_exit_closes_menu_system = navigation.exit_prompt_closes_menu_system;
            navigation.exit_prompt_closes_menu_system = false;
            None
        },
        VideoModalButton::ExitCancel => {
            navigation.exit_prompt_target_menu = None;
            navigation.pending_exit_menu = None;
            navigation.exit_prompt_closes_menu_system = false;
            navigation.pending_exit_closes_menu_system = false;
            None
        },
    }
}

/// What becomes of a menu's page after a command.
#[derive(Debug, Clone, Copy, PartialEq, Eq, Structural)]
pub enum PageUpdate {
    Unchanged,
    /// The page on top changed: draw it anew.
    Rebuild,
    /// The menu closes.
    Close,
}

/// Leaves the page on top of a menu that was asked to leave. Leaving the whole menu system
/// unpauses a pause menu and closes any other; else the page on top closes, and the menu
/// closes with its root page.
pub fn leave_menu_page(
    host: MenuHost,
    closes_menu_system: bool,
    stack: &mut MenuStack,
    selected_index: &mut usize,
) -> (r: (PageUpdate, Option<PauseState>))
    ensures
        closes_menu_system ==> final(stack)@ == old(stack)@ && *final(selected_index) == *old(selected_index)
            && r == (match host {
                MenuHost::Pause => (PageUpdate::Unchanged, Some(PauseState::Unpaused)),
                _ => (PageUpdate::Close, None),
            }),
        !closes_menu_system ==> final(stack)@ == popped(old(stack)@).0 && match popped(old(stack)@).1 {
            Some(i) => *final(selected_index) == i && r == (PageUpdate::Rebuild, None::<PauseState>),
            None => *final(selected_index) == *old(selected_index) && r == (PageUpdate::Close, None::<PauseState>),
        },
{
    if closes_menu_system {
        match host {
            MenuHost::Pause => (PageUpdate::Unchanged, Some(PauseState::Unpaused)),
            MenuHost::Debug | MenuHost::Main => (PageUpdate::Close, None),
        }
    } else {
        match stack.pop() {
            Some(i) => {
                *selected_index = i;
                (PageUpdate::Rebuild, None)
            },
            None => (PageUpdate::Close, None),
        }
    }
}

/// What a command asks the caller to do besides the state it changed.
#[derive(Debug, Clone, Copy, PartialEq, Eq, Structural)]
pub struct MenuCommandOutcome {
    pub page: PageUpdate,
    /// Hide the menu's resolution list.
    pub close_dropdown: bool,
    /// Show the menu's resolution list with this resolution selected.
    pub open_dropdown_at: Option<usize>,
    /// Ask whether to leave with unsaved video settings.
    pub prompt_unsaved_exit: bool,
    /// Put this snapshot on the window and ask to confirm it.
    pub apply_to_window: Option<VideoSettingsSnapshot>,
    pub next_pause: Option<PauseState>,
    pub next_main: Option<MainState>,
    pub exit_application: bool,
}

/// A command that asks for nothing.
pub open spec fn no_outcome() -> MenuCommandOutcome {
    MenuCommandOutcome {
        page: PageUpdate::Unchanged,
        close_dropdown: false,
        open_dropdown_at: None,
        prompt_unsaved_exit: false,
        apply_to_window: None,
        next_pause: None,
        next_main: None,
        exit_application: false,
    }
}

fn nothing() -> (r: MenuCommandOutcome)
    ensures
        r == no_outcome(),
{
    MenuCommandOutcome {
        page: PageUpdate::Unchanged,
        close_dropdown: false,
        open_dropdown_at: None,
        prompt_unsaved_exit: false,
        apply_to_window: None,
        next_pause: None,
        next_main: None,
        exit_application: false,
    }
}

/// A click is ignored while a video dialog is open, and, while the menu's resolution list is
/// open, on anything but the option that toggles the list.
pub open spec fn click_ignored(command: MenuCommand, menu: u64, dropdown: MenuDropdownState, modal_open: bool) -> bool {
    modal_open || (dropdown.open_menu == Some(menu) && command != MenuCommand::ToggleResolutionDropdown)
}

/// Leaving the video or options page with unsaved video settings asks first.
pub open spec fn must_prompt_before_leaving(page: Option<MenuPage>, settings: VideoSettingsState) -> bool {
    settings.initialized && is_dirty(settings) && (page == Some(MenuPage::Video) || page == Some(MenuPage::Options))
}

/// Carries out the command of an option clicked in `menu`, whose selection is
/// `selected_index`. Returns `None` when the click is ignored; otherwise the option's sound
/// plays and the selection is remembered for the page, before the command acts.
/// `suppress_toggle` carries over from one click to the next within a frame.
pub fn handle_menu_command(
    command: MenuCommand,
    menu: u64,
    stack: &mut MenuStack,
    selected_index: &mut usize,
    settings: &mut VideoSettingsState,
    navigation: &mut MenuNavigationState,
    dropdown: &mut MenuDropdownState,
    modal_open: bool,
    suppress_toggle: &mut bool,
) -> (r: Option<MenuCommandOutcome>)
    ensures
        click_ignored(command, menu, *old(dropdown), modal_open) ==> r is None
            && final(stack)@ == old(stack)@ && *final(selected_index) == *old(selected_index)
            && *final(settings) == *old(settings) && *final(navigation) == *old(navigation)
            && *final(dropdown) == *old(dropdown) && *final(suppress_toggle) == *old(suppress_toggle),
        !click_ignored(command, menu, *old(dropdown), modal_open) ==> r is Some && {
            let kept_stack = remembered(old(stack)@, *old(selected_index));
            let out = r->0;
            match command {
                MenuCommand::Push(page) => final(stack)@ == pushed(kept_stack, page)
                    && *final(selected_index) == 0
                    && *final(dropdown) == closed_for(*old(dropdown), menu)
                    && out == (MenuCommandOutcome { page: PageUpdate::Rebuild, close_dropdown: true, ..no_outcome() })
                    && *final(settings) == *old(settings) && *final(navigation) == *old(navigation)
                    && *final(suppress_toggle) == *old(suppress_toggle),
                MenuCommand::Pop => *final(dropdown) == closed_for(*old(dropdown), menu)
                    && *final(settings) == *old(settings) && *final(suppress_toggle) == *old(suppress_toggle)
                    && if must_prompt_before_leaving(top_page(old(stack)@), *old(settings)) {
                        final(stack)@ == kept_stack && *final(selected_index) == *old(selected_index)
                        && *final(navigation) == (MenuNavigationState {
                            exit_prompt_target_menu: Some(menu),
                            exit_prompt_closes_menu_system: false,
                            ..*old(navigation)
                        })
                        && out == (MenuCommandOutcome { close_dropdown: true, prompt_unsaved_exit: true, ..no_outcome() })
                    } else {
                        *final(navigation) == *old(navigation) && final(stack)@ == popped(kept_stack).0
                        && match popped(kept_stack).1 {
                            Some(i) => *final(selected_index) == i
                                && out == (MenuCommandOutcome { page: PageUpdate::Rebuild, close_dropdown: true, ..no_outcome() }),
                            None => *final(selected_index) == *old(selected_index)
                                && out == (MenuCommandOutcome { page: PageUpdate::Close, close_dropdown: true, ..no_outcome() }),
                        }
                    },
                MenuCommand::ToggleResolutionDropdown => final(stack)@ == kept_stack
                    && *final(selected_index) == *old(selected_index)
                    && *final(settings) == *old(settings) && *final(navigation) == *old(navigation)
                    && if !old(settings).initialized {
                        out == no_outcome() && *final(dropdown) == *old(dropdown)
                        && *final(suppress_toggle) == *old(suppress_toggle)
                    } else if *old(suppress_toggle) {
                        out == no_outcome() && *final(dropdown) == *old(dropdown) && !*final(suppress_toggle)
                    } else if old(dropdown).open_menu == Some(menu) {
                        out == (MenuCommandOutcome { close_dropdown: true, ..no_outcome() })
                        && *final(dropdown) == closed_for(*old(dropdown), menu)
                        && *final(suppress_toggle) == *old(suppress_toggle)
                    } else {
                        out == (MenuCommandOutcome {
                            open_dropdown_at: Some(clamp_resolution(old(settings).pending.resolution_index)),
                            ..no_outcome()
                        })
                        && *final(dropdown) == *old(dropdown) && *final(suppress_toggle) == *old(suppress_toggle)
                    },
                MenuCommand::ToggleDisplayMode => final(stack)@ == kept_stack
                    && *final(selected_index) == *old(selected_index) && *final(navigation) == *old(navigation)
                    && *final(suppress_toggle) == *old(suppress_toggle)
                    && *final(settings) == display_mode_toggled(*old(settings))
                    && if old(settings).initialized {
                        *final(dropdown) == closed_for(*old(dropdown), menu)
                        && out == (MenuCommandOutcome { close_dropdown: true, ..no_outcome() })
                    } else {
                        *final(dropdown) == *old(dropdown) && out == no_outcome()
                    },
                MenuCommand::ToggleVsync => final(stack)@ == kept_stack
                    && *final(selected_index) == *old(selected_index) && *final(navigation) == *old(navigation)
                    && *final(suppress_toggle) == *old(suppress_toggle)
                    && *final(settings) == vsync_toggled(*old(settings))
                    && if old(settings).initialized {
                        *final(dropdown) == closed_for(*old(dropdown), menu)
                        && out == (MenuCommandOutcome { close_dropdown: true, ..no_outcome() })
                    } else {
                        *final(dropdown) == *old(dropdown) && out == no_outcome()
                    },
                MenuCommand::ApplyVideoSettings => final(stack)@ == kept_stack
                    && *final(selected_index) == *old(selected_index) && *final(navigation) == *old(navigation)
                    && *final(suppress_toggle) == *old(suppress_toggle)
                    && *final(settings) == applied(*old(settings))
                    && if can_apply(*old(settings)) {
                        *final(dropdown) == closed_for(*old(dropdown), menu)
                        && out == (MenuCommandOutcome {
                            close_dropdown: true,
                            apply_to_window: Some(old(settings).pending),
                            ..no_outcome()
                        })
                    } else {
                        *final(dropdown) == *old(dropdown) && out == no_outcome()
                    },
                MenuCommand::ResetVideoDefaults => final(stack)@ == kept_stack
                    && *final(selected_index) == *old(selected_index) && *final(navigation) == *old(navigation)
                    && *final(suppress_toggle) == *old(suppress_toggle)
                    && *final(settings) == reset_to_defaults(*old(settings))
                    && if old(settings).initialized {
                        *final(dropdown) == closed_for(*old(dropdown), menu)
                        && out == (MenuCommandOutcome { close_dropdown: true, ..no_outcome() })
                    } else {
                        *final(dropdown) == *old(dropdown) && out == no_outcome()
                    },
                _ => final(stack)@ == kept_stack
                    && *final(selected_index) == *old(selected_index) && *final(navigation) == *old(navigation)
                    && *final(suppress_toggle) == *old(suppress_toggle)
                    && *final(settings) == *old(settings) && *final(dropdown) == *old(dropdown)
                    && out == (match command {
                        MenuCommand::SetPause(p) => MenuCommandOutcome { next_pause: Some(p), ..no_outcome() },
                        MenuCommand::SetMain(m) => MenuCommandOutcome { next_main: Some(m), ..no_outcome() },
                        MenuCommand::SetPauseAndMain(p, m) => MenuCommandOutcome {
                            next_pause: Some(p),
                            next_main: Some(m),
                            ..no_outcome()
                        },
                        MenuCommand::ExitApplication => MenuCommandOutcome { exit_application: true, ..no_outcome() },
                        MenuCommand::CloseMenu => MenuCommandOutcome { page: PageUpdate::Close, ..no_outcome() },
                        _ => no_outcome(),
                    }),
            }
        },
{
    if modal_open {
        return None;
    }
    if dropdown.open_menu == Some(menu) && command != MenuCommand::ToggleResolutionDropdown {
        return None;
    }
    stack.remember_selected_index(*selected_index);
    let current_page = stack.current_page();
    let mut out = nothing();
    match command {
        MenuCommand::NoAction => {},
        MenuCommand::Push(page) => {
            dropdown.forget_menu(menu);
            out.close_dropdown = true;
            stack.push(page);
            *selected_index = stack.current_selected_index();
            out.page = PageUpdate::Rebuild;
        },
        MenuCommand::Pop => {
            dropdown.forget_menu(menu);
            out.close_dropdown = true;
            let leaving_video_options = match current_page {
                Some(MenuPage::Video) | Some(MenuPage::Options) => true,
                _ => false,
            };
            if settings.initialized && settings.is_dirty() && leaving_video_options {
                navigation.exit_prompt_target_menu = Some(menu);
                navigation.exit_prompt_closes_menu_system = false;
                out.prompt_unsaved_exit = true;
            } else {
                match stack.pop() {
                    Some(i) => {
                        *selected_index = i;
                        out.page = PageUpdate::Rebuild;
                    },
                    None => {
                        out.page = PageUpdate::Close;
                    },
                }
            }
        },
        MenuCommand::ToggleResolutionDropdown => {
            if !settings.initialized {
            } else if *suppress_toggle {
                *suppress_toggle = false;
            } else if dropdown.open_menu == Some(menu) {
                dropdown.forget_menu(menu);
                out.close_dropdown = true;
            } else {
                out.open_dropdown_at = Some(clamped_resolution_index(settings.pending.resolution_index));
            }
        },
        MenuCommand::SetPause(state) => {
            out.next_pause = Some(state);
        },
        MenuCommand::ToggleDisplayMode => {
            if settings.initialized {
                dropdown.forget_menu(menu);
                out.close_dropdown = true;
            }
            settings.toggle_display_mode();
        },
        MenuCommand::ToggleVsync => {
            if settings.initialized {
                dropdown.forget_menu(menu);
                out.close_dropdown = true;
            }
            settings.toggle_vsync();
        },
        MenuCommand::ApplyVideoSettings => {
            if settings.initialized && settings.is_dirty() {
                dropdown.forget_menu(menu);
                out.close_dropdown = true;
            }
            out.apply_to_window = settings.apply();
        },
        MenuCommand::ResetVideoDefaults => {
            if settings.initialized {
                dropdown.forget_menu(menu);
                out.close_dropdown = true;
            }
            settings.reset_to_defaults();
        },
        MenuCommand::SetMain(state) => {
            out.next_main = Some(state);
        },
        MenuCommand::SetPauseAndMain(pause_state, main_state) => {
            out.next_pause = Some(pause_state);
            out.next_main = Some(main_state);
        },
        MenuCommand::ExitApplication => {
            out.exit_application = true;
        },
        MenuCommand::CloseMenu => {
            out.page = PageUpdate::Close;
        },
    }
    Some(out)
}

/// A menu showing the video page that takes input now, with its selection.
#[derive(Debug, Clone, Copy, PartialEq, Eq, Structural)]
pub struct VideoPageFocus {
    pub menu: u64,
    pub selected_index: usize,
}

/// The keys just pressed that steer the resolution list; `resolution_shortcut` is what
/// `dropdown_resolution_shortcut_index` read from the digit keys.
#[derive(Debug, Clone, Copy, PartialEq, Eq, Structural)]
pub struct DropdownKeys {
    pub left: bool,
    pub right: bool,
    pub backspace: bool,
    pub escape: bool,
    pub resolution_shortcut: Option<usize>,
}

/// What the keys did to the resolution lists.
#[derive(Debug, Clone, Copy, PartialEq, Eq, Structural)]
pub enum DropdownKeyAction {
    Idle,
    /// The list of `menu` was open: its resolution option stays selected and highlighted, and
    /// the list is hidden if `close`.
    HoldOpen { menu: u64, close: bool },
    /// A list was open in a menu that no longer takes input: hide every list.
    CloseAll,
    /// Show the list of `menu` with resolution `at` selected.
    Open { menu: u64, at: usize },
}

/// The first menu whose selection is on the resolution option.
pub open spec fn first_on_row(menus: Seq<VideoPageFocus>, row: usize) -> Option<int> {
    if exists|i: int| 0 <= i < menus.len() && menus[i].selected_index == row {
        Some(choose|i: int| 0 <= i < menus.len() && menus[i].selected_index == row
            && forall|j: int| 0 <= j < i ==> menus[j].selected_index != row)
    } else {
        None
    }
}

/// Some menu of `menus` is `menu`.
pub open spec fn lists_menu(menus: Seq<VideoPageFocus>, menu: u64) -> bool {
    exists|i: int| 0 <= i < menus.len() && menus[i].menu == menu
}

/// The keys do nothing: the settings are not read yet, a dialog is open, or no key that
/// steers the list was pressed while no list is open.
pub open spec fn dropdown_keys_idle(settings: VideoSettingsState, dropdown: MenuDropdownState, keys: DropdownKeys, modal_open: bool) -> bool {
    !settings.initialized || modal_open || !(keys.left || keys.right || keys.backspace || keys.escape
        || keys.resolution_shortcut is Some || dropdown.open_menu is Some)
}

/// Steers the resolution list by keys. In an open list a digit picks a resolution and closes
/// the list, and Left (without Right), Backspace or Escape closes it; Right alone opens the
/// list of the first menu whose selection is on the resolution option (`resolution_row`).
pub fn resolution_dropdown_keys(
    settings: &mut VideoSettingsState,
    dropdown: &mut MenuDropdownState,
    menus: &Vec<VideoPageFocus>,
    keys: DropdownKeys,
    modal_open: bool,
    resolution_row: usize,
) -> (r: DropdownKeyAction)
    ensures
        dropdown_keys_idle(*old(settings), *old(dropdown), keys, modal_open) ==> r == DropdownKeyAction::Idle
            && *final(settings) == *old(settings) && *final(dropdown) == *old(dropdown),
        !dropdown_keys_idle(*old(settings), *old(dropdown), keys, modal_open) ==> match old(dropdown).open_menu {
            Some(open) => if lists_menu(menus@, open) {
                match keys.resolution_shortcut {
                    Some(picked) => *final(settings) == resolution_chosen(*old(settings), picked)
                        && *final(dropdown) == (MenuDropdownState { open_menu: None, suppress_toggle_once: true })
                        && r == (DropdownKeyAction::HoldOpen { menu: open, close: true }),
                    None => *final(settings) == *old(settings)
                        && if (keys.left && !keys.right) || keys.backspace || keys.escape {
                            *final(dropdown) == closed_for(*old(dropdown), open)
                            && r == (DropdownKeyAction::HoldOpen { menu: open, close: true })
                        } else {
                            *final(dropdown) == *old(dropdown) && r == (DropdownKeyAction::HoldOpen { menu: open, close: false })
                        },
                }
            } else {
                *final(settings) == *old(settings)
                && *final(dropdown) == (MenuDropdownState { open_menu: None, ..*old(dropdown) })
                && r == DropdownKeyAction::CloseAll
            },
            None => *final(settings) == *old(settings) && *final(dropdown) == *old(dropdown)
                && r == (if keys.right && !keys.left && !keys.backspace && !keys.escape && first_on_row(menus@, resolution_row) is Some {
                    DropdownKeyAction::Open {
                        menu: menus@[first_on_row(menus@, resolution_row)->0].menu,
                        at: clamp_resolution(old(settings).pending.resolution_index),
                    }
                } else {
                    DropdownKeyAction::Idle
                }),
        },
{
    if !settings.initialized || modal_open {
        return DropdownKeyAction::Idle;
    }
    let dropdown_open = dropdown.open_menu.is_some();
    if !(keys.left || keys.right || keys.backspace || keys.escape || keys.resolution_shortcut.is_some() || dropdown_open) {
        return DropdownKeyAction::Idle;
    }
    let mut candidate: Option<u64> = None;
    let mut i: usize = 0;
    while i < menus.len()
        invariant
            i <= menus.len(),
            *settings == *old(settings),
            *dropdown == *old(dropdown),
            !dropdown_keys_idle(*old(settings), *old(dropdown), keys, modal_open),
            forall|j: int| 0 <= j < i ==> Some(#[trigger] menus@[j].menu) != dropdown.open_menu,
            match candidate {
                None => forall|j: int| 0 <= j < i ==> #[trigger] menus@[j].selected_index != resolution_row,
                Some(c) => first_on_row(menus@, resolution_row) is Some
                    && first_on_row(menus@, resolution_row)->0 < i
                    && menus@[first_on_row(menus@, resolution_row)->0].menu == c,
            },
        decreases menus.len() - i,
    {
        let focus = menus[i];
        if dropdown.open_menu == Some(focus.menu) {
            assert(lists_menu(menus@, focus.menu));
            match keys.resolution_shortcut {
                Some(picked) => {
                    settings.choose_resolution(picked);
                    dropdown.suppress_toggle_once = true;
                    dropdown.forget_menu(focus.menu);
                    return DropdownKeyAction::HoldOpen { menu: focus.menu, close: true };
                },
                None => {
                    if (keys.left && !keys.right) || keys.backspace || keys.escape {
                        dropdown.forget_menu(focus.menu);
                        return DropdownKeyAction::HoldOpen { menu: focus.menu, close: true };
                    }
                    return DropdownKeyAction::HoldOpen { menu: focus.menu, close: false };
                },
            }
        }
        if focus.selected_index == resolution_row && candidate.is_none() {
            proof {
                assert(exists|k: int| 0 <= k < menus@.len() && menus@[k].selected_index == resolution_row) by {
                    assert(menus@[i as int].selected_index == resolution_row);
                }
                let f = first_on_row(menus@, resolution_row)->0;
                assert(!(f < i)) by {
                    if f < i {
                        assert(menus@[f].selected_index != resolution_row);
                    }
                }
                assert(!(i < f)) by {
                    if (i as int) < f {
                        assert(menus@[i as int].selected_index != resolution_row);
                    }
                }
            }
            candidate = Some(focus.menu);
        }
        i += 1;
    }
    if dropdown_open {
        proof {
            let open = dropdown.open_menu->0;
            assert(!lists_menu(menus@, open)) by {
                if lists_menu(menus@, open) {
                    let k = choose|k: int| 0 <= k < menus@.len() && menus@[k].menu == open;
                    assert(Some(menus@[k].menu) != dropdown.open_menu);
                }
            }
        }
        dropdown.forget_all();
        return DropdownKeyAction::CloseAll;
    }
    if keys.right && !keys.left && !keys.backspace && !keys.escape {
        match candidate {
            Some(menu) => {
                return DropdownKeyAction::Open {
                    menu,
                    at: clamped_resolution_index(settings.pending.resolution_index),
                };
            },
            None => {
                assert(first_on_row(menus@, resolution_row) is None) by {
                    if exists|k: int| 0 <= k < menus@.len() && menus@[k].selected_index == resolution_row {
                        let k = choose|k: int| 0 <= k < menus@.len() && menus@[k].selected_index == resolution_row;
                        assert(menus@[k].selected_index != resolution_row);
                    }
                }
            },
        }
    }
    DropdownKeyAction::Idle
}

/// Steps a cyclable option left or right, which switches the setting it shows. The option
/// reacts, and its sound plays, only when a direction was pressed, no dialog or resolution
/// list is open and the settings were read; the result says whether it reacted.
pub fn cycle_option(
    command: MenuCommand,
    left_pressed: bool,
    right_pressed: bool,
    settings: &mut VideoSettingsState,
    dropdown: &MenuDropdownState,
    modal_open: bool,
) -> (r: bool)
    ensures
        r == ((left_pressed || right_pressed) && !modal_open && dropdown.open_menu is None && old(settings).initialized),
        *final(settings) == (if r {
            match command {
                MenuCommand::ToggleDisplayMode => display_mode_toggled(*old(settings)),
                MenuCommand::ToggleVsync => vsync_toggled(*old(settings)),
                _ => *old(settings),
            }
        } else {
            *old(settings)
        }),
{
    if !(left_pressed || right_pressed) {
        return false;
    }
    if modal_open || dropdown.open_menu.is_some() || !settings.initialized {
        return false;
    }
    match command {
        MenuCommand::ToggleDisplayMode => settings.toggle_display_mode(),
        MenuCommand::ToggleVsync => settings.toggle_vsync(),
        _ => {},
    }
    true
}

/// Picks resolution `index` from a shown list; the lists close and the click does not also
/// toggle the list. Nothing happens before the settings are read; the result says whether
/// the pick was taken.
pub fn pick_resolution(settings: &mut VideoSettingsState, dropdown: &mut MenuDropdownState, index: usize) -> (r: bool)
    ensures
        r == old(settings).initialized,
        r ==> *final(settings) == resolution_chosen(*old(settings), index)
            && *final(dropdown) == (MenuDropdownState { open_menu: None, suppress_toggle_once: true }),
        !r ==> *final(settings) == *old(settings) && *final(dropdown) == *old(dropdown),
{
    if !settings.initialized {
        return false;
    }
    settings.choose_resolution(index);
    dropdown.suppress_toggle_once = true;
    dropdown.forget_all();
    true
}

/// A left click that hit no row of an open, shown list closes the lists, and the click does
/// not also toggle the list; the result says whether it did.
pub fn click_outside_dropdown(
    settings: &VideoSettingsState,
    dropdown: &mut MenuDropdownState,
    left_clicked: bool,
    clicked_list_row: bool,
    list_shown: bool,
) -> (r: bool)
    ensures
        r == (settings.initialized && old(dropdown).open_menu is Some && left_clicked && !clicked_list_row && list_shown),
        r ==> *final(dropdown) == (MenuDropdownState { open_menu: None, suppress_toggle_once: true }),
        !r ==> *final(dropdown) == *old(dropdown),
{
    if !settings.initialized || dropdown.open_menu.is_none() || !left_clicked {
        return false;
    }
    if clicked_list_row || !list_shown {
        return false;
    }
    dropdown.suppress_toggle_once = true;
    dropdown.forget_all();
    true
}

} // verus!
