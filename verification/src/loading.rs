//! The loading screen's progress bar: it fills in random steps, cycling through its messages
//! until it is full, then shows its final message.
use vstd::prelude::*;

verus! {

/// The message sets of loading bars.
#[derive(Debug, Clone, Copy, PartialEq, Eq, Hash, Structural)]
pub enum LoadingBarMessages {
    Lab0intro,
}

/// The message sets of the button that leaves the loading screen.
#[derive(Debug, Clone, Copy, PartialEq, Eq, Hash, Structural)]
pub enum LoadingButtonMessages {
    Lab0intro,
}

/// A loading bar's texts: the prefix before the message, the messages it cycles through,
/// and the message once it is full.
#[derive(Debug, Clone)]
pub struct LoadingBarConfig {
    pub prefix: String,
    pub final_message: String,
    pub messages: Vec<String>,
}

/// A loading bar: how many steps it has taken, and whether it is full.
#[derive(Debug, Clone)]
pub struct LoadingBar {
    pub prefix: String,
    pub final_message: String,
    pub index: usize,
    pub finished: bool,
}

impl LoadingBar {
    pub fn new(prefix: String, final_message: String) -> (r: LoadingBar)
        ensures
            r.prefix == prefix,
            r.final_message == final_message,
            r.index == 0,
            !r.finished,
    {
        LoadingBar { prefix, final_message, index: 0, finished: false }
    }

    /// One step of the bar, when its timer runs out. `bar_full` says whether the bar, grown by
    /// this step, is now full, when the bar is drawn; a full bar stays full.
    pub fn record_step(&mut self, bar_full: Option<bool>)
        requires
            old(self).index < usize::MAX,
        ensures
            final(self).index == old(self).index + 1,
            final(self).prefix == old(self).prefix,
            final(self).final_message == old(self).final_message,
            final(self).finished == (if old(self).finished {
                true
            } else {
                match bar_full {
                    Some(full) => full,
                    None => false,
                }
            }),
    {
        self.index = self.index + 1;
        if !self.finished {
            match bar_full {
                Some(full) => {
                    self.finished = full;
                },
                None => {},
            }
        }
    }

    /// The message the bar shows: nothing without messages, the final message once full,
    /// else the messages in turn.
    pub fn shown_message(&self, messages: &Vec<String>) -> (r: Option<String>)
        ensures
            messages@.len() == 0 ==> r is None,
            messages@.len() > 0 && self.finished ==> r == Some(self.final_message),
            messages@.len() > 0 && !self.finished ==> r == Some(messages@[self.index as int % messages@.len() as int]),
    {
        let n = messages.len();
        if n == 0 {
            None
        } else if self.finished {
            Some(self.final_message.clone())
        } else {
            Some(messages[self.index % n].clone())
        }
    }
}

/// The button's message after its update timer has run out `times_finished` times; none once
/// the messages are used up.
pub fn button_message(messages: &Vec<String>, times_finished: usize) -> (r: Option<String>)
    ensures
        r == (if times_finished < messages@.len() { Some(messages@[times_finished as int]) } else { None }),
{
    if times_finished < messages.len() {
        Some(messages[times_finished].clone())
    } else {
        None
    }
}

} // verus!
