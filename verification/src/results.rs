//! The results screen after a dilemma: one window for a single stage, or a window with a tab
//! for the whole run and one per stage.
use vstd::prelude::*;

use crate::text::{decimal_spec, decimal_string, string_of};

verus! {

/// The results show a tab per stage when the dilemma has several stages and several were
/// recorded.
pub fn shows_stage_tabs(expected_stage_count: usize, recorded_stages: usize) -> (r: bool)
    ensures
        r == (expected_stage_count > 1 && recorded_stages > 1),
{
    expected_stage_count > 1 && recorded_stages > 1
}

/// The labels of the tabs: `All`, then the stages by number from 1.
pub fn results_tab_labels(stage_count: usize) -> (r: Vec<String>)
    requires
        stage_count < usize::MAX,
    ensures
        r@.len() == stage_count + 1,
        r@[0]@ == "All"@,
        forall|i: int| 1 <= i <= stage_count ==> #[trigger] r@[i]@ == decimal_spec(i as nat),
{
    let mut r: Vec<String> = Vec::new();
    r.push(string_of("All"));
    let mut i: usize = 1;
    while i <= stage_count
        invariant
            1 <= i <= stage_count + 1,
            stage_count < usize::MAX,
            r@.len() == i,
            r@[0]@ == "All"@,
            forall|k: int| 1 <= k < i ==> #[trigger] r@[k]@ == decimal_spec(k as nat),
        decreases stage_count + 1 - i,
    {
        r.push(decimal_string(i));
        i = i + 1;
    }
    r
}

/// A tab's table shows when its tab is the window's active one; a window whose active tab is
/// not known shows its first.
pub fn tab_table_visible(tab_index: usize, active_index: Option<usize>) -> (r: bool)
    ensures
        r == (tab_index == match active_index {
            Some(a) => a,
            None => 0,
        }),
{
    let active = match active_index {
        Some(a) => a,
        None => 0,
    };
    tab_index == active
}

} // verus!
