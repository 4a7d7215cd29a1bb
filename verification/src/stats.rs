//! What the player did in each dilemma, and the totals over the campaign. Times are whole
//! milliseconds.
use vstd::prelude::*;

use crate::lever::LeverState;

verus! {

/// One pull of the lever: when it happened and where it left the lever.
#[derive(Debug, Clone, Copy, PartialEq, Eq, Structural)]
pub struct Decision {
    pub time_ms: u64,
    pub choice: LeverState,
}

/// How many people an option's track kills.
#[derive(Debug, Clone, Copy, PartialEq, Eq, Structural)]
pub struct DilemmaOptionConsequences {
    pub total_fatalities: usize,
}

/// What the player did in one dilemma.
#[derive(Debug, Clone)]
pub struct DilemmaStats {
    pub decisions: Vec<Decision>,
    pub result: Option<LeverState>,
    pub decision_time_available_ms: u64,
    pub decision_time_used_ms: u64,
    pub num_fatalities: usize,
    pub num_decisions: usize,
    pub duration_before_first_decision_ms: Option<u64>,
    pub duration_remaining_at_last_decision_ms: Option<u64>,
}

impl Default for DilemmaStats {
    fn default() -> (r: DilemmaStats)
        ensures
            r.decisions@.len() == 0,
            r.result is None,
            r.decision_time_available_ms == 0,
            r.decision_time_used_ms == 0,
            r.num_fatalities == 0,
            r.num_decisions == 0,
            r.duration_before_first_decision_ms is None,
            r.duration_remaining_at_last_decision_ms is None,
    {
        DilemmaStats::new(0)
    }
}

impl DilemmaStats {
    /// Nothing done yet, with `decision_time_available_ms` to decide in.
    pub fn new(decision_time_available_ms: u64) -> (r: DilemmaStats)
        ensures
            r.decisions@.len() == 0,
            r.result is None,
            r.decision_time_available_ms == decision_time_available_ms,
            r.decision_time_used_ms == 0,
            r.num_fatalities == 0,
            r.num_decisions == 0,
            r.duration_before_first_decision_ms is None,
            r.duration_remaining_at_last_decision_ms is None,
    {
        DilemmaStats {
            decisions: Vec::new(),
            result: None,
            decision_time_available_ms,
            decision_time_used_ms: 0,
            num_fatalities: 0,
            num_decisions: 0,
            duration_before_first_decision_ms: None,
            duration_remaining_at_last_decision_ms: None,
        }
    }

    /// Records a pull of the lever to `lever`, made `elapsed_ms` into a countdown of
    /// `duration_ms` with `remaining_ms` left.
    pub fn update(&mut self, lever: &LeverState, elapsed_ms: u64, duration_ms: u64, remaining_ms: u64)
        ensures
            final(self).decisions@ == old(self).decisions@.push(Decision { time_ms: elapsed_ms, choice: *lever }),
            final(self).num_decisions == final(self).decisions@.len(),
            final(self).decision_time_available_ms == duration_ms,
            final(self).duration_before_first_decision_ms == (match old(self).duration_before_first_decision_ms {
                Some(t) => Some(t),
                None => Some(elapsed_ms),
            }),
            final(self).duration_remaining_at_last_decision_ms == Some(remaining_ms),
            final(self).result == old(self).result,
            final(self).decision_time_used_ms == old(self).decision_time_used_ms,
            final(self).num_fatalities == old(self).num_fatalities,
    {
        self.decisions.push(Decision { time_ms: elapsed_ms, choice: *lever });
        self.num_decisions = self.decisions.len();
        self.decision_time_available_ms = duration_ms;
        if self.duration_before_first_decision_ms.is_none() {
            self.duration_before_first_decision_ms = Some(elapsed_ms);
        }
        self.duration_remaining_at_last_decision_ms = Some(remaining_ms);
    }

    /// Records how the dilemma ended: the lever's last state, the deaths it caused, and the
    /// time used.
    pub fn finalize(&mut self, consequence: &DilemmaOptionConsequences, lever: &LeverState, elapsed_ms: u64)
        ensures
            final(self).result == Some(*lever),
            final(self).num_fatalities == consequence.total_fatalities,
            final(self).decision_time_used_ms == elapsed_ms,
            final(self).decisions@ == old(self).decisions@,
            final(self).num_decisions == old(self).num_decisions,
            final(self).decision_time_available_ms == old(self).decision_time_available_ms,
            final(self).duration_before_first_decision_ms == old(self).duration_before_first_decision_ms,
            final(self).duration_remaining_at_last_decision_ms == old(self).duration_remaining_at_last_decision_ms,
    {
        self.result = Some(*lever);
        self.num_fatalities = consequence.total_fatalities;
        self.decision_time_used_ms = elapsed_ms;
    }

    /// Forgets the decisions and the outcome; the time available and used stay.
    pub fn reset(&mut self)
        ensures
            final(self).decisions@.len() == 0,
            final(self).result is None,
            final(self).num_fatalities == 0,
            final(self).num_decisions == 0,
            final(self).duration_before_first_decision_ms is None,
            final(self).duration_remaining_at_last_decision_ms is None,
            final(self).decision_time_available_ms == old(self).decision_time_available_ms,
            final(self).decision_time_used_ms == old(self).decision_time_used_ms,
    {
        self.decisions = Vec::new();
        self.result = None;
        self.num_fatalities = 0;
        self.num_decisions = 0;
        self.duration_before_first_decision_ms = None;
        self.duration_remaining_at_last_decision_ms = None;
    }

    /// A copy with the same contents.
    pub fn duplicate(&self) -> (r: DilemmaStats)
        ensures
            r.decisions@ == self.decisions@,
            r.result == self.result,
            r.decision_time_available_ms == self.decision_time_available_ms,
            r.decision_time_used_ms == self.decision_time_used_ms,
            r.num_fatalities == self.num_fatalities,
            r.num_decisions == self.num_decisions,
            r.duration_before_first_decision_ms == self.duration_before_first_decision_ms,
            r.duration_remaining_at_last_decision_ms == self.duration_remaining_at_last_decision_ms,
    {
        let mut decisions: Vec<Decision> = Vec::new();
        let mut i: usize = 0;
        while i < self.decisions.len()
            invariant
                i <= self.decisions@.len(),
                decisions@ == self.decisions@.subrange(0, i as int),
            decreases self.decisions.len() - i,
        {
            decisions.push(self.decisions[i]);
            assert(self.decisions@.subrange(0, i + 1) =~= self.decisions@.subrange(0, i as int).push(self.decisions@[i as int]));
            i = i + 1;
        }
        assert(self.decisions@.subrange(0, self.decisions@.len() as int) =~= self.decisions@);
        DilemmaStats {
            decisions,
            result: self.result,
            decision_time_available_ms: self.decision_time_available_ms,
            decision_time_used_ms: self.decision_time_used_ms,
            num_fatalities: self.num_fatalities,
            num_decisions: self.num_decisions,
            duration_before_first_decision_ms: self.duration_before_first_decision_ms,
            duration_remaining_at_last_decision_ms: self.duration_remaining_at_last_decision_ms,
        }
    }
}

/// The deaths over the dilemmas in `s`.
pub open spec fn sum_fatalities(s: Seq<DilemmaStats>) -> nat
    decreases s.len(),
{
    if s.len() == 0 { 0 } else { sum_fatalities(s.drop_last()) + s.last().num_fatalities as nat }
}

/// The lever pulls over the dilemmas in `s`.
pub open spec fn sum_decisions(s: Seq<DilemmaStats>) -> nat
    decreases s.len(),
{
    if s.len() == 0 { 0 } else { sum_decisions(s.drop_last()) + s.last().num_decisions as nat }
}

/// The times before the first pull, over the dilemmas in `s` that had one.
pub open spec fn sum_first_pull(s: Seq<DilemmaStats>) -> nat
    decreases s.len(),
{
    if s.len() == 0 {
        0
    } else {
        sum_first_pull(s.drop_last()) + match s.last().duration_before_first_decision_ms {
            Some(t) => t as nat,
            None => 0,
        }
    }
}

/// How many dilemmas in `s` had a pull.
pub open spec fn count_first_pull(s: Seq<DilemmaStats>) -> nat
    decreases s.len(),
{
    if s.len() == 0 {
        0
    } else {
        count_first_pull(s.drop_last()) + if s.last().duration_before_first_decision_ms is Some { 1nat } else { 0nat }
    }
}

/// The times left at the last pull, over the dilemmas in `s` that had one.
pub open spec fn sum_remaining(s: Seq<DilemmaStats>) -> nat
    decreases s.len(),
{
    if s.len() == 0 {
        0
    } else {
        sum_remaining(s.drop_last()) + match s.last().duration_remaining_at_last_decision_ms {
            Some(t) => t as nat,
            None => 0,
        }
    }
}

/// How many dilemmas in `s` had a last pull.
pub open spec fn count_remaining(s: Seq<DilemmaStats>) -> nat
    decreases s.len(),
{
    if s.len() == 0 {
        0
    } else {
        count_remaining(s.drop_last()) + if s.last().duration_remaining_at_last_decision_ms is Some { 1nat } else { 0nat }
    }
}

/// The mean of `count` times that add up to `sum`, in whole milliseconds rounded down (a
/// fraction of a millisecond in the exact mean is dropped); none without times.
pub open spec fn mean_ms(sum: nat, count: nat) -> Option<u64> {
    if count == 0 { None } else { Some((sum / count) as u64) }
}

/// The totals over the campaign so far.
pub struct GameStats {
    pub num_dilemmas: usize,
    pub total_fatalities: usize,
    pub total_decisions: usize,
    pub dilemma_stats: Vec<DilemmaStats>,
    pub overall_avg_first_pull_time_ms: Option<u64>,
    pub overall_avg_time_remaining_ms: Option<u64>,
}

impl Default for GameStats {
    fn default() -> (r: GameStats)
        ensures
            r.num_dilemmas == 0,
            r.total_fatalities == 0,
            r.total_decisions == 0,
            r.dilemma_stats@.len() == 0,
            r.overall_avg_first_pull_time_ms is None,
            r.overall_avg_time_remaining_ms is None,
    {
        GameStats {
            num_dilemmas: 0,
            total_fatalities: 0,
            total_decisions: 0,
            dilemma_stats: Vec::new(),
            overall_avg_first_pull_time_ms: None,
            overall_avg_time_remaining_ms: None,
        }
    }
}

proof fn lemma_sum_bounds(s: Seq<DilemmaStats>)
    ensures
        sum_first_pull(s) <= count_first_pull(s) * 0xFFFF_FFFF_FFFF_FFFFnat,
        sum_remaining(s) <= count_remaining(s) * 0xFFFF_FFFF_FFFF_FFFFnat,
        count_first_pull(s) <= s.len(),
        count_remaining(s) <= s.len(),
    decreases s.len(),
{
    if s.len() > 0 {
        lemma_sum_bounds(s.drop_last());
    }
}

proof fn lemma_mean_fits(sum: nat, count: nat)
    requires
        count > 0,
        sum <= count * 0xFFFF_FFFF_FFFF_FFFFnat,
    ensures
        sum / count <= 0xFFFF_FFFF_FFFF_FFFFnat,
{
    assert(sum / count <= 0xFFFF_FFFF_FFFF_FFFFnat) by (nonlinear_arith)
        requires
            count > 0,
            sum <= count * 0xFFFF_FFFF_FFFF_FFFFnat,
    ;
}

impl GameStats {
    /// Adds the stats of a finished dilemma and recomputes the totals and mean times.
    pub fn update(&mut self, new_dilemma_stats: DilemmaStats)
        requires
            sum_fatalities(old(self).dilemma_stats@.push(new_dilemma_stats)) <= usize::MAX,
            sum_decisions(old(self).dilemma_stats@.push(new_dilemma_stats)) <= usize::MAX,
        ensures
            final(self).dilemma_stats@ == old(self).dilemma_stats@.push(new_dilemma_stats),
            final(self).num_dilemmas == final(self).dilemma_stats@.len(),
            final(self).total_fatalities == sum_fatalities(final(self).dilemma_stats@),
            final(self).total_decisions == sum_decisions(final(self).dilemma_stats@),
            final(self).overall_avg_first_pull_time_ms == mean_ms(
                sum_first_pull(final(self).dilemma_stats@),
                count_first_pull(final(self).dilemma_stats@),
            ),
            final(self).overall_avg_time_remaining_ms == mean_ms(
                sum_remaining(final(self).dilemma_stats@),
                count_remaining(final(self).dilemma_stats@),
            ),
    {
        self.dilemma_stats.push(new_dilemma_stats);
        self.num_dilemmas = self.dilemma_stats.len();
        let ghost all = self.dilemma_stats@;
        let mut fatalities: usize = 0;
        let mut decisions: usize = 0;
        let mut first_sum: u128 = 0;
        let mut first_count: u64 = 0;
        let mut remaining_sum: u128 = 0;
        let mut remaining_count: u64 = 0;
        let mut i: usize = 0;
        proof {
            lemma_sum_bounds(all);
        }
        while i < self.dilemma_stats.len()
            invariant
                all == self.dilemma_stats@,
                i <= all.len(),
                all.len() <= usize::MAX,
                sum_fatalities(all) <= usize::MAX,
                sum_decisions(all) <= usize::MAX,
                fatalities == sum_fatalities(all.subrange(0, i as int)),
                decisions == sum_decisions(all.subrange(0, i as int)),
                first_sum == sum_first_pull(all.subrange(0, i as int)),
                first_count == count_first_pull(all.subrange(0, i as int)),
                remaining_sum == sum_remaining(all.subrange(0, i as int)),
                remaining_count == count_remaining(all.subrange(0, i as int)),
            decreases all.len() - i,
        {
            let ghost prefix = all.subrange(0, i as int);
            let ghost next = all.subrange(0, i + 1);
            assert(next.drop_last() =~= prefix);
            proof {
                lemma_sum_bounds(next);
                lemma_prefix_sums_le(all, i + 1);
            }
            let stats = &self.dilemma_stats[i];
            fatalities = fatalities + stats.num_fatalities;
            decisions = decisions + stats.num_decisions;
            if let Some(t) = stats.duration_before_first_decision_ms {
                assert(first_sum + t <= (first_count + 1) * 0xFFFF_FFFF_FFFF_FFFFnat);
                first_sum = first_sum + t as u128;
                first_count = first_count + 1;
            }
            if let Some(t) = stats.duration_remaining_at_last_decision_ms {
                remaining_sum = remaining_sum + t as u128;
                remaining_count = remaining_count + 1;
            }
            i = i + 1;
        }
        assert(all.subrange(0, all.len() as int) =~= all);
        self.total_fatalities = fatalities;
        self.total_decisions = decisions;
        self.overall_avg_first_pull_time_ms = if first_count == 0 {
            None
        } else {
            proof {
                lemma_mean_fits(first_sum as nat, first_count as nat);
            }
            Some((first_sum / (first_count as u128)) as u64)
        };
        self.overall_avg_time_remaining_ms = if remaining_count == 0 {
            None
        } else {
            proof {
                lemma_mean_fits(remaining_sum as nat, remaining_count as nat);
            }
            Some((remaining_sum / (remaining_count as u128)) as u64)
        };
    }
}

proof fn lemma_prefix_sums_le(all: Seq<DilemmaStats>, k: int)
    requires
        0 <= k <= all.len(),
    ensures
        sum_fatalities(all.subrange(0, k)) <= sum_fatalities(all),
        sum_decisions(all.subrange(0, k)) <= sum_decisions(all),
    decreases all.len() - k,
{
    if k < all.len() {
        lemma_prefix_sums_le(all, k + 1);
        assert(all.subrange(0, k + 1).drop_last() =~= all.subrange(0, k));
    } else {
        assert(all.subrange(0, k) =~= all);
    }
}

} // verus!
