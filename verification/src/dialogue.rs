//! A dialogue played line by line as a terminal session: each line opens with the speaker's
//! shell prompt and is typed out one character per tick; the first skip speeds the typing
//! up, the second shows the rest of the line at once.
use vstd::prelude::*;
use vstd::string::StrSliceExecFns;
use vstd::utf8::encode_utf8;

use crate::text::{push_str, string_of};

verus! {

/// One line of a dialogue: who says it, from which host, what is said, and the text of the
/// button that moves on.
#[derive(Debug, Clone)]
pub struct DialogueLine {
    pub raw_text: String,
    pub username: String,
    pub hostname: String,
    pub instruction: String,
}

/// A dialogue being played. `num_spans` counts the text spans shown so far; the last one is
/// where the current line is typed.
#[derive(Debug)]
pub struct Dialogue {
    pub lines: Vec<DialogueLine>,
    pub current_line_index: usize,
    pub current_char_index: usize,
    pub playing: bool,
    pub skip_count: usize,
    pub char_duration_millis: u64,
    pub num_spans: usize,
}

/// What the player is asked to do once a line is typed out.
#[derive(Debug, Clone, Copy, PartialEq, Eq, Structural)]
pub enum LineFollowUp {
    /// Show the next line.
    AdvanceDialogue,
    /// The dialogue is over: go on to the next scene.
    NextScene,
}

/// What starting to play does.
#[derive(Debug, Clone, Copy, PartialEq, Eq, Structural)]
pub enum PlayAction {
    Idle,
    /// Show the prompt of the current line's speaker in two new spans, and start typing.
    StartLine,
    /// A line is being typed: keep the speaker's voice playing.
    KeepVoice,
}

/// What a skip does.
#[derive(Debug, Clone, Copy, PartialEq, Eq, Structural)]
pub enum SkipAction {
    Idle,
    /// Type four times as fast.
    SpeedUp,
    /// Stop the voice and show the whole line.
    RevealLine,
}

/// What a tick of the typing does.
#[derive(Debug, Clone, Copy, PartialEq, Eq, Structural)]
pub enum TypeAction {
    Idle,
    /// Type this character.
    Type(char),
    /// The line is done: stop the voice, end the span with a newline, restore normal speed and
    /// show the button that leads on.
    FinishLine(LineFollowUp),
}

/// The length in bytes of the text `s` in UTF-8, which `str::len` gives.
pub open spec fn byte_len(s: Seq<char>) -> nat {
    encode_utf8(s).len()
}

/// Every character takes at least one byte.
pub proof fn lemma_byte_len_at_least_chars(s: Seq<char>)
    ensures
        byte_len(s) >= s.len(),
    decreases s.len(),
{
    if s.len() > 0 {
        lemma_byte_len_at_least_chars(s.drop_first());
    }
}

fn text_byte_len(s: &String) -> (r: usize)
    ensures
        r == byte_len(s@) as usize,
{
    let t = s.as_str();
    t.len()
}

impl Dialogue {
    /// A dialogue is well formed when a line being typed is one of its lines and its span
    /// count is at least one.
    pub open spec fn wf(&self) -> bool {
        &&& self.playing ==> self.current_line_index < self.lines@.len()
        &&& self.num_spans >= 1
    }

    /// The dialogue of `lines`, not yet started, typing a character every 50 ms.
    pub fn new(lines: Vec<DialogueLine>) -> (r: Dialogue)
        ensures
            r.lines@ == lines@,
            r.current_line_index == 0,
            r.current_char_index == 0,
            !r.playing,
            r.skip_count == 0,
            r.char_duration_millis == 50,
            r.num_spans == 1,
            r.wf(),
    {
        Dialogue {
            lines,
            current_line_index: 0,
            current_char_index: 0,
            playing: false,
            skip_count: 0,
            char_duration_millis: 50,
            num_spans: 1,
        }
    }

    /// Starts the current line when the player asked to go on (`advance_requested`), or at
    /// once for the first line; a line being typed keeps its voice playing.
    pub fn play(&mut self, advance_requested: bool) -> (r: PlayAction)
        requires
            old(self).wf(),
            old(self).num_spans + 2 <= usize::MAX,
        ensures
            final(self).wf(),
            final(self).lines@ == old(self).lines@,
            final(self).current_line_index == old(self).current_line_index,
            final(self).current_char_index == old(self).current_char_index,
            final(self).skip_count == old(self).skip_count,
            final(self).char_duration_millis == old(self).char_duration_millis,
            old(self).current_line_index >= old(self).lines@.len() ==> r == PlayAction::Idle
                && final(self).playing == old(self).playing && final(self).num_spans == old(self).num_spans,
            old(self).current_line_index < old(self).lines@.len() ==> if !old(self).playing
                && (advance_requested || old(self).current_line_index == 0) {
                r == PlayAction::StartLine && final(self).playing && final(self).num_spans == old(self).num_spans + 2
            } else {
                r == (if old(self).playing { PlayAction::KeepVoice } else { PlayAction::Idle })
                    && final(self).playing == old(self).playing && final(self).num_spans == old(self).num_spans
            },
    {
        if self.current_line_index >= self.lines.len() {
            return PlayAction::Idle;
        }
        if !self.playing && (advance_requested || self.current_line_index == 0) {
            self.num_spans = self.num_spans + 2;
            self.playing = true;
            PlayAction::StartLine
        } else if self.playing {
            PlayAction::KeepVoice
        } else {
            PlayAction::Idle
        }
    }

    /// Skips while a line is typed: the first skip speeds the typing up; a later one shows
    /// the rest of the line at once, when its span is there (`span_present`), and puts the
    /// typing past the line's last byte so that the next tick finishes the line.
    pub fn skip(&mut self, span_present: bool) -> (r: SkipAction)
        requires
            old(self).wf(),
            old(self).skip_count < usize::MAX,
        ensures
            final(self).wf(),
            final(self).lines@ == old(self).lines@,
            final(self).current_line_index == old(self).current_line_index,
            final(self).playing == old(self).playing,
            final(self).num_spans == old(self).num_spans,
            final(self).char_duration_millis == old(self).char_duration_millis,
            !old(self).playing ==> r == SkipAction::Idle && final(self).skip_count == old(self).skip_count
                && final(self).current_char_index == old(self).current_char_index,
            old(self).playing && old(self).skip_count == 0 ==> r == SkipAction::SpeedUp
                && final(self).skip_count == 1 && final(self).current_char_index == old(self).current_char_index,
            old(self).playing && old(self).skip_count > 0 ==> r == SkipAction::RevealLine && if span_present {
                final(self).skip_count == old(self).skip_count + 1
                && final(self).current_char_index
                    == byte_len(old(self).lines@[old(self).current_line_index as int].raw_text@) as usize
            } else {
                final(self).skip_count == old(self).skip_count
                && final(self).current_char_index == old(self).current_char_index
            },
    {
        if !self.playing {
            return SkipAction::Idle;
        }
        if self.skip_count == 0 {
            self.skip_count = self.skip_count + 1;
            return SkipAction::SpeedUp;
        }
        if span_present {
            self.current_char_index = text_byte_len(&self.lines[self.current_line_index].raw_text);
            self.skip_count = self.skip_count + 1;
        }
        SkipAction::RevealLine
    }

    /// One tick of the typing. Nothing happens unless a line is typed and either the
    /// character timer ran out (`timer_finished`) or the player skipped twice. Otherwise the
    /// next character of the line is typed; past the line's end the line is finished and the
    /// dialogue waits at the next line.
    pub fn advance(&mut self, timer_finished: bool) -> (r: TypeAction)
        requires
            old(self).wf(),
        ensures
            final(self).wf(),
            (*final(self), r) == typed(*old(self), timer_finished),
    {
        if !self.playing || (!timer_finished && self.skip_count <= 1) {
            return TypeAction::Idle;
        }
        let line_count = self.lines.len();
        let text = self.lines[self.current_line_index].raw_text.as_str();
        let n = text.unicode_len();
        if self.current_char_index < n {
            let c = text.get_char(self.current_char_index);
            self.current_char_index = self.current_char_index + 1;
            TypeAction::Type(c)
        } else {
            let follow_up = if self.current_line_index >= line_count - 1 {
                LineFollowUp::NextScene
            } else {
                LineFollowUp::AdvanceDialogue
            };
            self.current_line_index = self.current_line_index + 1;
            self.current_char_index = 0;
            self.skip_count = 0;
            self.playing = false;
            TypeAction::FinishLine(follow_up)
        }
    }
}

/// The lines of several scripts, one script after the other.
pub open spec fn all_lines(scripts: Seq<Vec<DialogueLine>>) -> Seq<DialogueLine>
    decreases scripts.len(),
{
    if scripts.len() == 0 {
        Seq::empty()
    } else {
        all_lines(scripts.drop_last()) + scripts.last()@
    }
}

impl Dialogue {
    /// One dialogue playing the scripts one after the other; there must be at least one.
    pub fn from_scripts(scripts: Vec<Vec<DialogueLine>>) -> (r: Dialogue)
        requires
            scripts@.len() > 0,
        ensures
            r.lines@ == all_lines(scripts@),
            r.current_line_index == 0,
            r.current_char_index == 0,
            !r.playing,
            r.skip_count == 0,
            r.char_duration_millis == 50,
            r.num_spans == 1,
            r.wf(),
    {
        let mut rest = scripts;
        let ghost all = rest@;
        let mut lines: Vec<DialogueLine> = Vec::new();
        let mut i: usize = 0;
        assert(all.take(0) =~= Seq::<Vec<DialogueLine>>::empty());
        assert(all.skip(0) =~= all);
        assert(rest.len() == all.len());
        while rest.len() > 0
            invariant
                all.len() <= usize::MAX,
                i + rest@.len() == all.len(),
                rest@ == all.skip(i as int),
                lines@ == all_lines(all.take(i as int)),
            decreases rest.len(),
        {
            let mut script = rest.remove(0);
            assert(script == all[i as int]);
            assert(all.take(i + 1).drop_last() =~= all.take(i as int));
            assert(all.take(i + 1).last() == all[i as int]);
            lines.append(&mut script);
            assert(rest@ =~= all.skip(i + 1));
            i = i + 1;
        }
        assert(all.take(i as int) =~= all);
        Dialogue::new(lines)
    }
}

/// The dialogue after one tick of the typing, and what the tick does.
pub open spec fn typed(d: Dialogue, timer_finished: bool) -> (Dialogue, TypeAction) {
    if !d.playing || (!timer_finished && d.skip_count <= 1) {
        (d, TypeAction::Idle)
    } else {
        let text = d.lines@[d.current_line_index as int].raw_text@;
        if d.current_char_index < text.len() {
            (Dialogue { current_char_index: (d.current_char_index + 1) as usize, ..d }, TypeAction::Type(text[d.current_char_index as int]))
        } else {
            (
                Dialogue {
                    current_line_index: (d.current_line_index + 1) as usize,
                    current_char_index: 0,
                    skip_count: 0,
                    playing: false,
                    ..d
                },
                TypeAction::FinishLine(if d.current_line_index >= d.lines@.len() - 1 {
                    LineFollowUp::NextScene
                } else {
                    LineFollowUp::AdvanceDialogue
                }),
            )
        }
    }
}

/// The prompt that opens a line: the speaker and host, then the line indented on the next
/// row.
pub fn shell_prompt(username: &str, hostname: &str) -> (r: String)
    ensures
        r@ == username@ + "@"@ + hostname@ + ":\n    "@,
{
    let mut r = string_of(username);
    push_str(&mut r, "@");
    push_str(&mut r, hostname);
    push_str(&mut r, ":\n    ");
    r
}

/// The text of the button that leads on after a line.
pub fn next_button_label(instruction: &str) -> (r: String)
    ensures
        r@ == "["@ + instruction@ + "]"@,
{
    let mut r = string_of("[");
    push_str(&mut r, instruction);
    push_str(&mut r, "]");
    r
}

/// Once the player has skipped a line a second time, the next tick finishes it, whether or not
/// the character timer ran out: the whole line is already shown.
pub proof fn lemma_second_skip_finishes_line(d: Dialogue, revealed: Dialogue, timer_finished: bool)
    requires
        d.wf(),
        d.playing,
        0 < d.skip_count < usize::MAX,
        byte_len(d.lines@[d.current_line_index as int].raw_text@) <= usize::MAX,
        revealed == (Dialogue {
            skip_count: (d.skip_count + 1) as usize,
            current_char_index: byte_len(d.lines@[d.current_line_index as int].raw_text@) as usize,
            ..d
        }),
    ensures
        typed(revealed, timer_finished).1 is FinishLine,
        !typed(revealed, timer_finished).0.playing,
        typed(revealed, timer_finished).0.current_line_index == d.current_line_index + 1,
{
    lemma_byte_len_at_least_chars(d.lines@[d.current_line_index as int].raw_text@);
    assert(d.lines.len() == d.lines@.len());
}

/// Finishing the last line leads to the next scene; finishing any other leads to the next
/// line.
pub proof fn lemma_last_line_leads_on(d: Dialogue, timer_finished: bool)
    requires
        d.wf(),
        typed(d, timer_finished).1 is FinishLine,
    ensures
        typed(d, timer_finished).1 == TypeAction::FinishLine(if d.current_line_index + 1 == d.lines@.len() {
            LineFollowUp::NextScene
        } else {
            LineFollowUp::AdvanceDialogue
        }),
{
}

} // verus!
