//! The system menu: its pages and their options, the stack of pages a menu has opened with
//! the selection it left on each, and how key presses pick options.
use vstd::prelude::*;
use crate::states::{MainState, PauseState};

verus! {

/// What a menu was opened over.
#[derive(Debug, Clone, Copy, PartialEq, Eq, Hash, Structural)]
pub enum MenuHost {
    Pause,
    Debug,
    Main,
}

#[derive(Debug, Clone, Copy, PartialEq, Eq, Hash, Structural)]
pub enum MenuPage {
    PauseRoot,
    DebugRoot,
    Options,
    Video,
}

/// One opened page, with the option that was selected on it.
#[derive(Debug, Clone, Copy, PartialEq, Eq, Structural)]
struct MenuFrame {
    page: MenuPage,
    selected_index: usize,
}

/// The pages a menu has opened, the root first; it always keeps its root page.
#[derive(Debug)]
pub struct MenuStack {
    frames: Vec<MenuFrame>,
}

/// A stack of pages as a sequence of (page, selected option) pairs, the root first.
pub type PageFrames = Seq<(MenuPage, usize)>;

/// The stack after `selected_index` is remembered for the page on top.
pub open spec fn remembered(frames: PageFrames, selected_index: usize) -> PageFrames {
    if frames.len() == 0 {
        frames
    } else {
        frames.update(frames.len() - 1, (frames.last().0, selected_index))
    }
}

/// The selection remembered for the page on top, 0 for an empty stack.
pub open spec fn top_selected_index(frames: PageFrames) -> usize {
    if frames.len() == 0 { 0 } else { frames.last().1 }
}

/// The page on top.
pub open spec fn top_page(frames: PageFrames) -> Option<MenuPage> {
    if frames.len() == 0 { None } else { Some(frames.last().0) }
}

/// The stack after `page` is opened on top, with its first option selected.
pub open spec fn pushed(frames: PageFrames, page: MenuPage) -> PageFrames {
    frames.push((page, 0))
}

/// The stack after the page on top is closed, and the selection to restore; the root page
/// is never closed.
pub open spec fn popped(frames: PageFrames) -> (PageFrames, Option<usize>) {
    if frames.len() <= 1 {
        (frames, None)
    } else {
        (frames.drop_last(), Some(top_selected_index(frames.drop_last())))
    }
}

impl View for MenuStack {
    type V = PageFrames;

    closed spec fn view(&self) -> PageFrames {
        Seq::new(self.frames@.len(), |i: int| (self.frames@[i].page, self.frames@[i].selected_index))
    }
}

impl MenuStack {
    pub fn new(initial_page: MenuPage) -> (r: MenuStack)
        ensures
            r@ == seq![(initial_page, 0usize)],
    {
        let r = MenuStack { frames: vec![MenuFrame { page: initial_page, selected_index: 0 }] };
        assert(r@ =~= seq![(initial_page, 0usize)]);
        r
    }

    pub fn current_page(&self) -> (r: Option<MenuPage>)
        ensures
            r == top_page(self@),
    {
        let n = self.frames.len();
        if n == 0 {
            None
        } else {
            Some(self.frames[n - 1].page)
        }
    }

    pub fn remember_selected_index(&mut self, selected_index: usize)
        ensures
            final(self)@ == remembered(old(self)@, selected_index),
    {
        let n = self.frames.len();
        if n > 0 {
            let page = self.frames[n - 1].page;
            self.frames.set(n - 1, MenuFrame { page, selected_index });
        }
        assert(self@ =~= remembered(old(self)@, selected_index));
    }

    pub fn current_selected_index(&self) -> (r: usize)
        ensures
            r == top_selected_index(self@),
    {
        let n = self.frames.len();
        if n == 0 {
            0
        } else {
            self.frames[n - 1].selected_index
        }
    }

    pub fn push(&mut self, page: MenuPage)
        ensures
            final(self)@ == pushed(old(self)@, page),
    {
        self.frames.push(MenuFrame { page, selected_index: 0 });
        assert(self@ =~= pushed(old(self)@, page));
    }

    pub fn pop(&mut self) -> (r: Option<usize>)
        ensures
            (final(self)@, r) == popped(old(self)@),
    {
        if self.frames.len() <= 1 {
            return None;
        }
        self.frames.pop();
        assert(self@ =~= old(self)@.drop_last());
        Some(self.current_selected_index())
    }
}

/// Closing a page gives back the selection that was remembered on the page below when the
/// closed page was opened, and leaves the stack as it was before the opening.
pub proof fn lemma_pop_undoes_push(frames: PageFrames, selected_index: usize, page: MenuPage)
    requires
        frames.len() >= 1,
    ensures
        popped(pushed(remembered(frames, selected_index), page))
            == (remembered(frames, selected_index), Some(selected_index)),
{
    let kept = remembered(frames, selected_index);
    assert(pushed(kept, page).drop_last() =~= kept);
}

/// A menu's stack never loses its root page: closing a page keeps at least one page, and a
/// stack with only its root page is left as it is.
pub proof fn lemma_pop_keeps_root(frames: PageFrames)
    requires
        frames.len() >= 1,
    ensures
        popped(frames).0.len() >= 1,
        popped(frames).0[0] == frames[0],
        frames.len() == 1 ==> popped(frames) == (frames, None::<usize>),
{
}

/// What choosing a menu option does.
#[derive(Debug, Clone, Copy, PartialEq, Eq, Structural)]
pub enum MenuCommand {
    NoAction,
    Push(MenuPage),
    Pop,
    ToggleResolutionDropdown,
    ToggleDisplayMode,
    ToggleVsync,
    ApplyVideoSettings,
    ResetVideoDefaults,
    SetPause(PauseState),
    SetMain(MainState),
    SetPauseAndMain(PauseState, MainState),
    ExitApplication,
    CloseMenu,
}

/// The keys that menu options answer to.
#[derive(Debug, Clone, Copy, PartialEq, Eq, Hash, Structural)]
pub enum MenuShortcutKey {
    KeyO,
    KeyM,
    KeyD,
    Backspace,
    KeyF,
    KeyR,
    KeyV,
    KeyA,
    KeyZ,
}

/// One option of a menu page.
#[derive(Debug, Clone, Copy)]
pub struct MenuOptionDef {
    pub name: &'static str,
    pub label: &'static str,
    pub command: MenuCommand,
    pub shortcut: Option<MenuShortcutKey>,
    pub cyclable: bool,
}

/// A menu page: its title, the hint under it, and its options from top to bottom.
#[derive(Debug)]
pub struct MenuPageDef {
    pub name_prefix: &'static str,
    pub title: &'static str,
    pub hint: &'static str,
    pub options: Vec<MenuOptionDef>,
}

pub const PAUSE_MENU_TITLE: &'static str = "PAUSED";
pub const PAUSE_MENU_HINT: &'static str = "[ESCAPE TO RESUME]\n[ARROW UP/ARROW DOWN + ENTER]";
pub const PAUSE_MENU_RESUME_TEXT: &'static str = "RESUME [⌫]";
pub const PAUSE_MENU_OPTIONS_TEXT: &'static str = "OPTIONS [o]";
pub const PAUSE_MENU_EXIT_TO_MENU_TEXT: &'static str = "EXIT TO MENU [m]";
pub const PAUSE_MENU_EXIT_TO_DESKTOP_TEXT: &'static str = "EXIT TO DESKTOP [d]";
pub const DEBUG_MENU_TITLE: &'static str = "DEBUG OVERLAY MENU";
pub const DEBUG_MENU_HINT: &'static str = "[ARROW UP/ARROW DOWN + ENTER]\n[CLICK ALSO WORKS]";
pub const DEBUG_MENU_RESUME_TEXT: &'static str = "[CLOSE DEBUG MENU]";
pub const DEBUG_MENU_MAIN_MENU_TEXT: &'static str = "[RETURN TO MAIN MENU]";
pub const OPTIONS_MENU_TITLE: &'static str = "OPTIONS";
pub const OPTIONS_MENU_HINT: &'static str = "[ARROW UP/ARROW DOWN + ENTER]";
pub const OPTIONS_MENU_VIDEO_TEXT: &'static str = "VIDEO";
pub const OPTIONS_MENU_AUDIO_TEXT: &'static str = "AUDIO";
pub const OPTIONS_MENU_CONTROLS_TEXT: &'static str = "CONTROLS";
pub const OPTIONS_MENU_BACK_TEXT: &'static str = "BACK [⌫]";
pub const VIDEO_MENU_TITLE: &'static str = "VIDEO";
pub const VIDEO_MENU_HINT: &'static str = "[ARROW UP/ARROW DOWN + ENTER]";
pub const VIDEO_MENU_DISPLAY_MODE_TEXT: &'static str = "DISPLAY MODE [f]";
pub const VIDEO_MENU_RESOLUTION_TEXT: &'static str = "RESOLUTION [r]";
pub const VIDEO_MENU_VSYNC_TEXT: &'static str = "VSYNC [v]";
pub const VIDEO_MENU_APPLY_TEXT: &'static str = "APPLY [a]";
pub const VIDEO_MENU_RESET_TEXT: &'static str = "RESET TO DEFAULTS [z]";
pub const VIDEO_MENU_BACK_TEXT: &'static str = "BACK [⌫]";

/// The row of the resolution option on the video page, should the page lack one.
pub const VIDEO_RESOLUTION_OPTION_INDEX: usize = 1;

pub open spec fn option_def(
    name: &'static str,
    label: &'static str,
    command: MenuCommand,
    shortcut: Option<MenuShortcutKey>,
    cyclable: bool,
) -> MenuOptionDef {
    MenuOptionDef { name, label, command, shortcut, cyclable }
}

/// The options of each page, from top to bottom.
pub open spec fn page_options(page: MenuPage) -> Seq<MenuOptionDef> {
    match page {
        MenuPage::PauseRoot => seq![
            option_def("pause_menu_options_option", PAUSE_MENU_OPTIONS_TEXT, MenuCommand::Push(MenuPage::Options), Some(MenuShortcutKey::KeyO), false),
            option_def("pause_menu_exit_to_menu_option", PAUSE_MENU_EXIT_TO_MENU_TEXT, MenuCommand::SetPauseAndMain(PauseState::Unpaused, MainState::Menu), Some(MenuShortcutKey::KeyM), false),
            option_def("pause_menu_exit_to_desktop_option", PAUSE_MENU_EXIT_TO_DESKTOP_TEXT, MenuCommand::ExitApplication, Some(MenuShortcutKey::KeyD), false),
            option_def("pause_menu_resume_option", PAUSE_MENU_RESUME_TEXT, MenuCommand::SetPause(PauseState::Unpaused), Some(MenuShortcutKey::Backspace), false),
        ],
        MenuPage::DebugRoot => seq![
            option_def("debug_menu_close_option", DEBUG_MENU_RESUME_TEXT, MenuCommand::CloseMenu, None, false),
            option_def("debug_menu_main_menu_option", DEBUG_MENU_MAIN_MENU_TEXT, MenuCommand::SetMain(MainState::Menu), None, false),
        ],
        MenuPage::Options => seq![
            option_def("system_options_video_option", OPTIONS_MENU_VIDEO_TEXT, MenuCommand::Push(MenuPage::Video), None, false),
            option_def("system_options_audio_option", OPTIONS_MENU_AUDIO_TEXT, MenuCommand::NoAction, None, false),
            option_def("system_options_controls_option", OPTIONS_MENU_CONTROLS_TEXT, MenuCommand::NoAction, None, false),
            option_def("system_options_back_option", OPTIONS_MENU_BACK_TEXT, MenuCommand::Pop, Some(MenuShortcutKey::Backspace), false),
        ],
        MenuPage::Video => seq![
            option_def("system_video_display_mode_option", VIDEO_MENU_DISPLAY_MODE_TEXT, MenuCommand::ToggleDisplayMode, Some(MenuShortcutKey::KeyF), true),
            option_def("system_video_resolution_option", VIDEO_MENU_RESOLUTION_TEXT, MenuCommand::ToggleResolutionDropdown, Some(MenuShortcutKey::KeyR), false),
            option_def("system_video_vsync_option", VIDEO_MENU_VSYNC_TEXT, MenuCommand::ToggleVsync, Some(MenuShortcutKey::KeyV), true),
            option_def("system_video_apply_option", VIDEO_MENU_APPLY_TEXT, MenuCommand::ApplyVideoSettings, Some(MenuShortcutKey::KeyA), false),
            option_def("system_video_reset_option", VIDEO_MENU_RESET_TEXT, MenuCommand::ResetVideoDefaults, Some(MenuShortcutKey::KeyZ), false),
            option_def("system_video_back_option", VIDEO_MENU_BACK_TEXT, MenuCommand::Pop, Some(MenuShortcutKey::Backspace), false),
        ],
    }
}

/// Each page's name prefix, title and hint.
pub open spec fn page_heading(page: MenuPage) -> (&'static str, &'static str, &'static str) {
    match page {
        MenuPage::PauseRoot => ("pause_menu", PAUSE_MENU_TITLE, PAUSE_MENU_HINT),
        MenuPage::DebugRoot => ("debug_menu", DEBUG_MENU_TITLE, DEBUG_MENU_HINT),
        MenuPage::Options => ("system_options_menu", OPTIONS_MENU_TITLE, OPTIONS_MENU_HINT),
        MenuPage::Video => ("system_video_menu", VIDEO_MENU_TITLE, VIDEO_MENU_HINT),
    }
}

fn video_menu_options() -> (r: Vec<MenuOptionDef>)
    ensures
        r@ == page_options(MenuPage::Video),
{
    let r = vec![
        MenuOptionDef { name: "system_video_display_mode_option", label: VIDEO_MENU_DISPLAY_MODE_TEXT, command: MenuCommand::ToggleDisplayMode, shortcut: Some(MenuShortcutKey::KeyF), cyclable: true },
        MenuOptionDef { name: "system_video_resolution_option", label: VIDEO_MENU_RESOLUTION_TEXT, command: MenuCommand::ToggleResolutionDropdown, shortcut: Some(MenuShortcutKey::KeyR), cyclable: false },
        MenuOptionDef { name: "system_video_vsync_option", label: VIDEO_MENU_VSYNC_TEXT, command: MenuCommand::ToggleVsync, shortcut: Some(MenuShortcutKey::KeyV), cyclable: true },
        MenuOptionDef { name: "system_video_apply_option", label: VIDEO_MENU_APPLY_TEXT, command: MenuCommand::ApplyVideoSettings, shortcut: Some(MenuShortcutKey::KeyA), cyclable: false },
        MenuOptionDef { name: "system_video_reset_option", label: VIDEO_MENU_RESET_TEXT, command: MenuCommand::ResetVideoDefaults, shortcut: Some(MenuShortcutKey::KeyZ), cyclable: false },
        MenuOptionDef { name: "system_video_back_option", label: VIDEO_MENU_BACK_TEXT, command: MenuCommand::Pop, shortcut: Some(MenuShortcutKey::Backspace), cyclable: false },
    ];
    assert(r@ =~= page_options(MenuPage::Video));
    r
}

pub fn page_definition(page: MenuPage) -> (r: MenuPageDef)
    ensures
        (r.name_prefix, r.title, r.hint) == page_heading(page),
        r.options@ == page_options(page),
{
    match page {
        MenuPage::PauseRoot => {
            let options = vec![
                MenuOptionDef { name: "pause_menu_options_option", label: PAUSE_MENU_OPTIONS_TEXT, command: MenuCommand::Push(MenuPage::Options), shortcut: Some(MenuShortcutKey::KeyO), cyclable: false },
                MenuOptionDef { name: "pause_menu_exit_to_menu_option", label: PAUSE_MENU_EXIT_TO_MENU_TEXT, command: MenuCommand::SetPauseAndMain(PauseState::Unpaused, MainState::Menu), shortcut: Some(MenuShortcutKey::KeyM), cyclable: false },
                MenuOptionDef { name: "pause_menu_exit_to_desktop_option", label: PAUSE_MENU_EXIT_TO_DESKTOP_TEXT, command: MenuCommand::ExitApplication, shortcut: Some(MenuShortcutKey::KeyD), cyclable: false },
                MenuOptionDef { name: "pause_menu_resume_option", label: PAUSE_MENU_RESUME_TEXT, command: MenuCommand::SetPause(PauseState::Unpaused), shortcut: Some(MenuShortcutKey::Backspace), cyclable: false },
            ];
            assert(options@ =~= page_options(page));
            MenuPageDef { name_prefix: "pause_menu", title: PAUSE_MENU_TITLE, hint: PAUSE_MENU_HINT, options }
        },
        MenuPage::DebugRoot => {
            let options = vec![
                MenuOptionDef { name: "debug_menu_close_option", label: DEBUG_MENU_RESUME_TEXT, command: MenuCommand::CloseMenu, shortcut: None, cyclable: false },
                MenuOptionDef { name: "debug_menu_main_menu_option", label: DEBUG_MENU_MAIN_MENU_TEXT, command: MenuCommand::SetMain(MainState::Menu), shortcut: None, cyclable: false },
            ];
            assert(options@ =~= page_options(page));
            MenuPageDef { name_prefix: "debug_menu", title: DEBUG_MENU_TITLE, hint: DEBUG_MENU_HINT, options }
        },
        MenuPage::Options => {
            let options = vec![
                MenuOptionDef { name: "system_options_video_option", label: OPTIONS_MENU_VIDEO_TEXT, command: MenuCommand::Push(MenuPage::Video), shortcut: None, cyclable: false },
                MenuOptionDef { name: "system_options_audio_option", label: OPTIONS_MENU_AUDIO_TEXT, command: MenuCommand::NoAction, shortcut: None, cyclable: false },
                MenuOptionDef { name: "system_options_controls_option", label: OPTIONS_MENU_CONTROLS_TEXT, command: MenuCommand::NoAction, shortcut: None, cyclable: false },
                MenuOptionDef { name: "system_options_back_option", label: OPTIONS_MENU_BACK_TEXT, command: MenuCommand::Pop, shortcut: Some(MenuShortcutKey::Backspace), cyclable: false },
            ];
            assert(options@ =~= page_options(page));
            MenuPageDef { name_prefix: "system_options_menu", title: OPTIONS_MENU_TITLE, hint: OPTIONS_MENU_HINT, options }
        },
        MenuPage::Video => {
            MenuPageDef { name_prefix: "system_video_menu", title: VIDEO_MENU_TITLE, hint: VIDEO_MENU_HINT, options: video_menu_options() }
        },
    }
}

/// The row of the resolution option on the video page.
pub fn video_resolution_option_index() -> (r: usize)
    ensures
        r == 1,
        page_options(MenuPage::Video)[r as int].command == MenuCommand::ToggleResolutionDropdown,
        forall|j: int| 0 <= j < r ==> page_options(MenuPage::Video)[j].command != MenuCommand::ToggleResolutionDropdown,
{
    let options = video_menu_options();
    let mut i: usize = 0;
    while i < options.len()
        invariant
            options@ == page_options(MenuPage::Video),
            i <= options.len(),
            forall|j: int| 0 <= j < i ==> options@[j].command != MenuCommand::ToggleResolutionDropdown,
        decreases options.len() - i,
    {
        if options[i].command == MenuCommand::ToggleResolutionDropdown {
            return i;
        }
        i += 1;
    }
    VIDEO_RESOLUTION_OPTION_INDEX
}

/// How many resolutions the resolution list offers; a digit past it picks none.
pub const RESOLUTION_SHORTCUT_LIMIT: usize = 5;

/// The first digit key pressed, in the order 1 to 9 then 0, by its position in that order.
pub open spec fn first_pressed(pressed: Seq<bool>) -> Option<int> {
    if exists|k: int| 0 <= k < pressed.len() && pressed[k] {
        Some(choose|k: int| 0 <= k < pressed.len() && pressed[k] && forall|j: int| 0 <= j < k ==> !pressed[j])
    } else {
        None
    }
}

/// The resolution picked from the open list by a digit key. `digits_pressed` says, for the
/// keys 1 to 9 and then 0, whether each was just pressed; key `n` picks resolution `n - 1`
/// and key 0 picks the tenth. Only the first key pressed counts.
pub fn dropdown_resolution_shortcut_index(digits_pressed: &[bool; 10]) -> (r: Option<usize>)
    ensures
        match first_pressed(digits_pressed@) {
            None => r is None,
            Some(k) => r == (if k < RESOLUTION_SHORTCUT_LIMIT { Some(k as usize) } else { None::<usize> }),
        },
{
    let mut k: usize = 0;
    while k < 10
        invariant
            k <= 10,
            digits_pressed@.len() == 10,
            forall|j: int| 0 <= j < k ==> !digits_pressed@[j],
        decreases 10 - k,
    {
        if digits_pressed[k] {
            proof {
                let first = choose|i: int| 0 <= i < digits_pressed@.len() && digits_pressed@[i]
                    && forall|j: int| 0 <= j < i ==> !digits_pressed@[j];
                assert(0 <= k < digits_pressed@.len() && digits_pressed@[k as int]);
                assert(!(first < k)) by {
                    if first < k {
                        assert(!digits_pressed@[first]);
                    }
                }
                assert(!(k < first)) by {
                    if (k as int) < first {
                        assert(!digits_pressed@[k as int]);
                    }
                }
            }
            let resolution_index = if k == 9 { 9 } else { k };
            if resolution_index < RESOLUTION_SHORTCUT_LIMIT {
                return Some(resolution_index);
            }
            return None;
        }
        k += 1;
    }
    None
}

/// The selection a menu keeps given the indices of the options it has: the selection itself
/// when an option has it, else the lowest index, and 0 for a menu without options.
pub open spec fn sanitized_selection(indices: Seq<usize>, selected_index: usize) -> usize {
    if indices.len() == 0 {
        0
    } else if indices.contains(selected_index) {
        selected_index
    } else {
        choose|m: usize| indices.contains(m) && forall|k: int| 0 <= k < indices.len() ==> m <= indices[k]
    }
}

/// Brings a menu's selection onto one of its options (`option_indices` in any order, possibly
/// repeated).
pub fn sanitize_selection_index(option_indices: &Vec<usize>, selected_index: usize) -> (r: usize)
    ensures
        r == sanitized_selection(option_indices@, selected_index),
        option_indices@.len() > 0 ==> option_indices@.contains(r),
{
    let n = option_indices.len();
    if n == 0 {
        return 0;
    }
    let mut lowest: usize = option_indices[0];
    let mut found = false;
    let mut i: usize = 0;
    while i < n
        invariant
            n == option_indices@.len(),
            0 < n,
            i <= n,
            option_indices@.contains(lowest),
            forall|k: int| 0 <= k < i ==> lowest <= option_indices@[k],
            found <==> exists|k: int| 0 <= k < i && option_indices@[k] == selected_index,
        decreases n - i,
    {
        let v = option_indices[i];
        if v == selected_index {
            found = true;
        }
        if v < lowest {
            lowest = v;
        }
        i += 1;
    }
    if found {
        assert(option_indices@.contains(selected_index));
        selected_index
    } else {
        assert(!option_indices@.contains(selected_index));
        proof {
            let m = choose|m: usize| option_indices@.contains(m)
                && forall|k: int| 0 <= k < option_indices@.len() ==> m <= option_indices@[k];
            assert(option_indices@.contains(lowest)
                && forall|k: int| 0 <= k < option_indices@.len() ==> lowest <= option_indices@[k]);
            let km = choose|k: int| 0 <= k < option_indices@.len() && option_indices@[k] == m;
            let kl = choose|k: int| 0 <= k < option_indices@.len() && option_indices@[k] == lowest;
            assert(m <= option_indices@[kl]);
            assert(lowest <= option_indices@[km]);
        }
        lowest
    }
}

/// An option that answers to a key, in the menu it belongs to.
#[derive(Debug, Clone, Copy, PartialEq, Eq, Structural)]
pub struct ShortcutCandidate {
    pub menu: u64,
    /// The menu takes input now.
    pub menu_active: bool,
    /// The option's key was just pressed.
    pub key_pressed: bool,
    pub command: MenuCommand,
}

/// `taken` names `menu` already.
pub open spec fn menu_taken(taken: Seq<(u64, MenuCommand)>, menu: u64) -> bool {
    exists|k: int| 0 <= k < taken.len() && taken[k].0 == menu
}

/// The commands that key presses trigger, after `taken`: each candidate of an active menu
/// whose key was pressed, in order, and at most one per menu, the first.
pub open spec fn shortcut_commands(candidates: Seq<ShortcutCandidate>, taken: Seq<(u64, MenuCommand)>) -> Seq<(u64, MenuCommand)>
    decreases candidates.len(),
{
    if candidates.len() == 0 {
        taken
    } else {
        let c = candidates[0];
        let next = if c.menu_active && c.key_pressed && !menu_taken(taken, c.menu) {
            taken.push((c.menu, c.command))
        } else {
            taken
        };
        shortcut_commands(candidates.drop_first(), next)
    }
}

fn taken_by(taken: &Vec<(u64, MenuCommand)>, menu: u64) -> (r: bool)
    ensures
        r == menu_taken(taken@, menu),
{
    let mut k: usize = 0;
    while k < taken.len()
        invariant
            k <= taken.len(),
            forall|j: int| 0 <= j < k ==> taken@[j].0 != menu,
        decreases taken.len() - k,
    {
        if taken[k].0 == menu {
            return true;
        }
        k += 1;
    }
    false
}

/// The commands that the pressed keys trigger, one per menu at most.
pub fn collect_shortcut_commands(candidates: &Vec<ShortcutCandidate>) -> (r: Vec<(u64, MenuCommand)>)
    ensures
        r@ == shortcut_commands(candidates@, Seq::empty()),
{
    let mut out: Vec<(u64, MenuCommand)> = Vec::new();
    let mut i: usize = 0;
    assert(candidates@.skip(0) =~= candidates@);
    while i < candidates.len()
        invariant
            i <= candidates.len(),
            shortcut_commands(candidates@.skip(i as int), out@) == shortcut_commands(candidates@, Seq::empty()),
        decreases candidates.len() - i,
    {
        let c = candidates[i];
        assert(candidates@.skip(i as int).drop_first() =~= candidates@.skip(i + 1));
        if c.menu_active && c.key_pressed && !taken_by(&out, c.menu) {
            out.push((c.menu, c.command));
        }
        i += 1;
    }
    assert(candidates@.skip(i as int) =~= Seq::<ShortcutCandidate>::empty());
    out
}

} // verus!
