//! Video settings as the options menu edits them: a saved snapshot, the pending edits, and
//! the applied-but-unconfirmed state that reverts by itself when its countdown runs out.
use vstd::prelude::*;

verus! {

/// How many resolutions the menu offers.
pub const RESOLUTION_COUNT: usize = 5;

/// How long an applied change waits for confirmation before it reverts, in milliseconds.
pub const APPLY_CONFIRM_MS: u64 = 30000;

#[derive(Debug, Clone, Copy, PartialEq, Eq, Hash, Structural)]
pub enum VideoDisplayMode {
    Windowed,
    Borderless,
}

#[derive(Debug, Clone, Copy, PartialEq, Eq, Hash, Structural)]
pub struct VideoSettingsSnapshot {
    pub display_mode: VideoDisplayMode,
    pub resolution_index: usize,
    pub vsync_enabled: bool,
}

/// Windowed, the first resolution, vsync on.
pub open spec fn default_snapshot() -> VideoSettingsSnapshot {
    VideoSettingsSnapshot { display_mode: VideoDisplayMode::Windowed, resolution_index: 0, vsync_enabled: true }
}

impl Default for VideoSettingsSnapshot {
    fn default() -> (r: VideoSettingsSnapshot)
        ensures
            r == default_snapshot(),
    {
        VideoSettingsSnapshot { display_mode: VideoDisplayMode::Windowed, resolution_index: 0, vsync_enabled: true }
    }
}

pub fn default_video_settings() -> (r: VideoSettingsSnapshot)
    ensures
        r == default_snapshot(),
{
    VideoSettingsSnapshot::default()
}

/// The other display mode.
pub open spec fn flipped(mode: VideoDisplayMode) -> VideoDisplayMode {
    match mode {
        VideoDisplayMode::Windowed => VideoDisplayMode::Borderless,
        VideoDisplayMode::Borderless => VideoDisplayMode::Windowed,
    }
}

pub fn display_mode_text(mode: VideoDisplayMode) -> (r: &'static str)
    ensures
        r == (match mode {
            VideoDisplayMode::Windowed => "Windowed",
            VideoDisplayMode::Borderless => "Borderless",
        }),
{
    match mode {
        VideoDisplayMode::Windowed => "Windowed",
        VideoDisplayMode::Borderless => "Borderless",
    }
}

pub fn present_mode_text(vsync_enabled: bool) -> (r: &'static str)
    ensures
        r == (if vsync_enabled { "On" } else { "Off" }),
{
    if vsync_enabled {
        "On"
    } else {
        "Off"
    }
}

/// The resolution index brought within the offered resolutions.
pub open spec fn clamp_resolution(index: usize) -> usize {
    if index < RESOLUTION_COUNT { index } else { (RESOLUTION_COUNT - 1) as usize }
}

pub fn clamped_resolution_index(index: usize) -> (r: usize)
    ensures
        r == clamp_resolution(index),
{
    if index < RESOLUTION_COUNT { index } else { RESOLUTION_COUNT - 1 }
}

/// The settings that the menu reads and edits. `apply_elapsed_ms` runs while an applied
/// change waits for confirmation.
#[derive(Debug, Clone, Copy, PartialEq, Eq, Structural)]
pub struct VideoSettingsState {
    pub initialized: bool,
    pub saved: VideoSettingsSnapshot,
    pub pending: VideoSettingsSnapshot,
    pub revert_snapshot: Option<VideoSettingsSnapshot>,
    pub apply_elapsed_ms: Option<u64>,
}

/// The settings before the window has been read: not initialized, defaults saved and pending.
pub open spec fn initial_settings() -> VideoSettingsState {
    VideoSettingsState {
        initialized: false,
        saved: default_snapshot(),
        pending: default_snapshot(),
        revert_snapshot: None,
        apply_elapsed_ms: None,
    }
}

impl Default for VideoSettingsState {
    fn default() -> (r: VideoSettingsState)
        ensures
            r == initial_settings(),
    {
        let snapshot = VideoSettingsSnapshot::default();
        VideoSettingsState {
            initialized: false,
            saved: snapshot,
            pending: snapshot,
            revert_snapshot: None,
            apply_elapsed_ms: None,
        }
    }
}

/// The pending edits differ from what is saved.
pub open spec fn is_dirty(s: VideoSettingsState) -> bool {
    s.pending != s.saved
}

/// The settings after the display mode is switched; nothing changes before initialization.
pub open spec fn display_mode_toggled(s: VideoSettingsState) -> VideoSettingsState {
    if s.initialized {
        VideoSettingsState { pending: VideoSettingsSnapshot { display_mode: flipped(s.pending.display_mode), ..s.pending }, ..s }
    } else {
        s
    }
}

/// The settings after vsync is switched; nothing changes before initialization.
pub open spec fn vsync_toggled(s: VideoSettingsState) -> VideoSettingsState {
    if s.initialized {
        VideoSettingsState { pending: VideoSettingsSnapshot { vsync_enabled: !s.pending.vsync_enabled, ..s.pending }, ..s }
    } else {
        s
    }
}

/// The settings after the pending edits are reset to the defaults.
pub open spec fn reset_to_defaults(s: VideoSettingsState) -> VideoSettingsState {
    if s.initialized {
        VideoSettingsState { pending: default_snapshot(), ..s }
    } else {
        s
    }
}

/// The settings after a resolution is chosen from the list.
pub open spec fn resolution_chosen(s: VideoSettingsState, index: usize) -> VideoSettingsState {
    VideoSettingsState { pending: VideoSettingsSnapshot { resolution_index: clamp_resolution(index), ..s.pending }, ..s }
}

/// Applying takes effect only on initialized settings with pending edits.
pub open spec fn can_apply(s: VideoSettingsState) -> bool {
    s.initialized && is_dirty(s)
}

/// The settings while an applied change waits for confirmation: what was saved is kept to
/// revert to, and the countdown starts.
pub open spec fn applied(s: VideoSettingsState) -> VideoSettingsState {
    if can_apply(s) {
        VideoSettingsState { revert_snapshot: Some(s.saved), apply_elapsed_ms: Some(0), ..s }
    } else {
        s
    }
}

/// The settings once the applied change is kept: it becomes what is saved.
pub open spec fn kept(s: VideoSettingsState) -> VideoSettingsState {
    VideoSettingsState { saved: s.pending, revert_snapshot: None, apply_elapsed_ms: None, ..s }
}

/// The settings once the applied change is reverted: the pending edits go back to the kept
/// snapshot, if there is one.
pub open spec fn reverted(s: VideoSettingsState) -> VideoSettingsState {
    match s.revert_snapshot {
        Some(snapshot) => VideoSettingsState { pending: snapshot, revert_snapshot: None, apply_elapsed_ms: None, ..s },
        None => VideoSettingsState { apply_elapsed_ms: None, ..s },
    }
}

/// The settings once the user leaves without saving: the pending edits are dropped.
pub open spec fn discarded(s: VideoSettingsState) -> VideoSettingsState {
    VideoSettingsState { pending: s.saved, ..s }
}

/// The countdown after `delta_ms` more milliseconds; it stops at its duration.
pub open spec fn ticked(elapsed_ms: u64, delta_ms: u64) -> u64 {
    if elapsed_ms + delta_ms >= APPLY_CONFIRM_MS { APPLY_CONFIRM_MS } else { (elapsed_ms + delta_ms) as u64 }
}

/// The whole seconds left on the countdown, rounded up.
pub open spec fn seconds_left(elapsed_ms: u64) -> u64 {
    if elapsed_ms >= APPLY_CONFIRM_MS {
        0
    } else {
        ((APPLY_CONFIRM_MS - elapsed_ms + 999) / 1000) as u64
    }
}

/// What one tick of the confirmation countdown shows and does.
#[derive(Debug, Clone, Copy, PartialEq, Eq, Structural)]
pub struct CountdownTick {
    /// The whole seconds left, for the "Reverting in" text.
    pub seconds_left: u64,
    /// The countdown ran out: the change was reverted and the dialog closes.
    pub expired: bool,
    /// The snapshot to put back on the window, when the change was reverted.
    pub restore: Option<VideoSettingsSnapshot>,
}

impl VideoSettingsState {
    pub fn is_dirty(&self) -> (r: bool)
        ensures
            r == is_dirty(*self),
    {
        self.pending != self.saved
    }

    pub fn toggle_display_mode(&mut self)
        ensures
            *final(self) == display_mode_toggled(*old(self)),
    {
        if self.initialized {
            self.pending.display_mode = match self.pending.display_mode {
                VideoDisplayMode::Windowed => VideoDisplayMode::Borderless,
                VideoDisplayMode::Borderless => VideoDisplayMode::Windowed,
            };
        }
    }

    pub fn toggle_vsync(&mut self)
        ensures
            *final(self) == vsync_toggled(*old(self)),
    {
        if self.initialized {
            self.pending.vsync_enabled = !self.pending.vsync_enabled;
        }
    }

    pub fn reset_to_defaults(&mut self)
        ensures
            *final(self) == reset_to_defaults(*old(self)),
    {
        if self.initialized {
            self.pending = default_video_settings();
        }
    }

    pub fn choose_resolution(&mut self, index: usize)
        ensures
            *final(self) == resolution_chosen(*old(self), index),
    {
        self.pending.resolution_index = clamped_resolution_index(index);
    }

    /// Applies the pending edits, when there are any, and returns the snapshot to put on the
    /// window; the confirmation countdown starts.
    pub fn apply(&mut self) -> (r: Option<VideoSettingsSnapshot>)
        ensures
            *final(self) == applied(*old(self)),
            r == (if can_apply(*old(self)) { Some(old(self).pending) } else { None }),
    {
        if self.initialized && self.is_dirty() {
            self.revert_snapshot = Some(self.saved);
            self.apply_elapsed_ms = Some(0);
            Some(self.pending)
        } else {
            None
        }
    }

    /// Keeps the applied change.
    pub fn keep_applied(&mut self)
        ensures
            *final(self) == kept(*old(self)),
    {
        self.saved = self.pending;
        self.revert_snapshot = None;
        self.apply_elapsed_ms = None;
    }

    /// Reverts the applied change, and returns the snapshot to put back on the window.
    pub fn revert_applied(&mut self) -> (r: Option<VideoSettingsSnapshot>)
        ensures
            *final(self) == reverted(*old(self)),
            r == old(self).revert_snapshot,
    {
        let snapshot = self.revert_snapshot;
        match snapshot {
            Some(s) => {
                self.pending = s;
                self.revert_snapshot = None;
            },
            None => {},
        }
        self.apply_elapsed_ms = None;
        snapshot
    }

    /// Drops the pending edits.
    pub fn discard_pending(&mut self)
        ensures
            *final(self) == discarded(*old(self)),
    {
        self.pending = self.saved;
    }

    /// Advances the confirmation countdown by `delta_ms`; when it runs out the applied change
    /// is reverted. Nothing happens when no change waits for confirmation.
    pub fn tick_apply_countdown(&mut self, delta_ms: u64) -> (r: Option<CountdownTick>)
        ensures
            match old(self).apply_elapsed_ms {
                None => r is None && *final(self) == *old(self),
                Some(elapsed) => {
                    let now = ticked(elapsed, delta_ms);
                    r == Some(CountdownTick {
                        seconds_left: seconds_left(now),
                        expired: now >= APPLY_CONFIRM_MS,
                        restore: if now >= APPLY_CONFIRM_MS { old(self).revert_snapshot } else { None },
                    })
                    && *final(self) == (if now >= APPLY_CONFIRM_MS {
                        reverted(*old(self))
                    } else {
                        VideoSettingsState { apply_elapsed_ms: Some(now), ..*old(self) }
                    })
                },
            },
    {
        match self.apply_elapsed_ms {
            None => None,
            Some(elapsed) => {
                let now = if elapsed >= APPLY_CONFIRM_MS || delta_ms >= APPLY_CONFIRM_MS - elapsed {
                    APPLY_CONFIRM_MS
                } else {
                    elapsed + delta_ms
                };
                let left = if now >= APPLY_CONFIRM_MS { 0 } else { (APPLY_CONFIRM_MS - now + 999) / 1000 };
                if now >= APPLY_CONFIRM_MS {
                    let restore = self.revert_applied();
                    Some(CountdownTick { seconds_left: left, expired: true, restore })
                } else {
                    self.apply_elapsed_ms = Some(now);
                    Some(CountdownTick { seconds_left: left, expired: false, restore: None })
                }
            },
        }
    }
}

/// Resetting forgets every edit: on initialized settings the pending settings become the
/// ones that fresh settings start with, whatever was saved or pending before, so two resets
/// give the same pending settings; nothing else changes, a second reset changes nothing, and
/// settings not yet initialized are left alone.
pub proof fn lemma_reset_forgets_edits(s: VideoSettingsState, t: VideoSettingsState)
    ensures
        s.initialized && t.initialized ==> reset_to_defaults(s).pending == reset_to_defaults(t).pending,
        s.initialized ==> reset_to_defaults(s).pending == initial_settings().pending,
        reset_to_defaults(s).initialized == s.initialized,
        reset_to_defaults(s).saved == s.saved,
        reset_to_defaults(s).revert_snapshot == s.revert_snapshot,
        reset_to_defaults(s).apply_elapsed_ms == s.apply_elapsed_ms,
        reset_to_defaults(reset_to_defaults(s)) == reset_to_defaults(s),
        !s.initialized ==> reset_to_defaults(s) == s,
{
}

/// Keeping an applied change leaves nothing pending: what was applied is now saved.
pub proof fn lemma_apply_then_keep_saves(s: VideoSettingsState)
    requires
        can_apply(s),
    ensures
        kept(applied(s)).saved == s.pending,
        !is_dirty(kept(applied(s))),
        kept(applied(s)).revert_snapshot is None,
        kept(applied(s)).apply_elapsed_ms is None,
{
}

/// Reverting an applied change undoes it: the pending edits go back to what was saved before,
/// which is still saved.
pub proof fn lemma_apply_then_revert_restores(s: VideoSettingsState)
    requires
        can_apply(s),
    ensures
        reverted(applied(s)).pending == s.saved,
        reverted(applied(s)).saved == s.saved,
        !is_dirty(reverted(applied(s))),
        reverted(applied(s)).apply_elapsed_ms is None,
{
}

/// Leaving without saving leaves nothing pending.
pub proof fn lemma_discard_is_clean(s: VideoSettingsState)
    ensures
        !is_dirty(discarded(s)),
        discarded(s).saved == s.saved,
{
}

/// Switching the display mode, or vsync, twice gives back the settings one started from.
pub proof fn lemma_toggles_are_involutions(s: VideoSettingsState)
    ensures
        display_mode_toggled(display_mode_toggled(s)) == s,
        vsync_toggled(vsync_toggled(s)) == s,
{
}

/// Applying without edits does nothing, and applied settings change nothing but the revert
/// snapshot and the countdown.
pub proof fn lemma_apply_needs_edits(s: VideoSettingsState)
    ensures
        !can_apply(s) ==> applied(s) == s,
        applied(s).saved == s.saved,
        applied(s).pending == s.pending,
{
}

/// Left to run out, the countdown reverts the applied change as the revert button does.
pub proof fn lemma_countdown_runs_out_to_revert(s: VideoSettingsState, delta_ms: u64)
    requires
        can_apply(s),
        delta_ms >= APPLY_CONFIRM_MS,
    ensures
        ticked(applied(s).apply_elapsed_ms->0, delta_ms) == APPLY_CONFIRM_MS,
        seconds_left(APPLY_CONFIRM_MS) == 0,
        reverted(applied(s)).pending == s.saved,
{
}

} // verus!
