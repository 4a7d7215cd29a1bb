//! A dilemma as its content file describes it, and the dilemma the game plays from it: each
//! stage repeated as often as asked, its options cut to the number drawn, and each option's
//! death toll drawn where the file gives a range.
use vstd::prelude::*;
use rand::Rng;

use crate::engine::{evaluate_with_earlier_spec, next_scenes_with_earlier, FlowEvalError};
use crate::runtime::SceneNavigator;
use crate::scenes::{DilemmaScene, Scene, SceneFlowMode, SceneQueue};
use crate::states::{MainState, StateVector};
use crate::schema::SceneProgressionGraph;
use crate::stats::{DilemmaOptionConsequences, GameStats};
use crate::text::{
    chars_of, chars_start_with, decimal_spec, decimal_string, parse_usize_chars, parse_usize_spec,
    push_chars, push_str, replace_chars, replaced, split_chars, split_on, string_of, trim_chars,
    trimmed, views_of, lemma_split_on_nonempty, IntParseError,
};

verus! {

/// A count that a content file gives either as a number or as `uniform(min, max)`, a number
/// drawn between `min` and `max`, both included.
#[derive(Debug, Clone, Copy, PartialEq, Eq, Hash, Structural)]
pub enum RandomizableUsize {
    Fixed(usize),
    Uniform { min: usize, max: usize },
}

/// The least value `r` can give.
pub open spec fn least(r: RandomizableUsize) -> usize {
    match r {
        RandomizableUsize::Fixed(v) => v,
        RandomizableUsize::Uniform { min, .. } => min,
    }
}

/// The greatest value `r` can give.
pub open spec fn greatest(r: RandomizableUsize) -> usize {
    match r {
        RandomizableUsize::Fixed(v) => v,
        RandomizableUsize::Uniform { max, .. } => max,
    }
}

/// A range can be drawn from when it is not empty.
pub open spec fn drawable(r: RandomizableUsize) -> bool {
    least(r) <= greatest(r)
}

/// `rand::Rng::random_range` on the range `min..=max`, with the thread's generator
/// `rand::rng()`. Its source draws uniformly from the range, so the result lies between
/// `min` and `max`, both included; it panics on an empty range, which `requires` rules out.
/// Which number comes out is left open.
#[verifier::external_body]
fn random_usize_inclusive(min: usize, max: usize) -> (r: usize)
    requires
        min <= max,
    ensures
        min <= r <= max,
{
    rand::rng().random_range(min..=max)
}

impl RandomizableUsize {
    /// The count: the fixed number, or a number drawn from the range.
    pub fn resolve(&self) -> (r: usize)
        requires
            drawable(*self),
        ensures
            least(*self) <= r <= greatest(*self),
    {
        match self {
            RandomizableUsize::Fixed(v) => *v,
            RandomizableUsize::Uniform { min, max } => random_usize_inclusive(*min, *max),
        }
    }
}

/// Why a string is no count: a bound of `uniform(..)` is no number, or the string has
/// neither form.
#[derive(Debug, Clone, PartialEq, Eq)]
pub enum RandomizableUsizeError {
    InvalidBound(IntParseError),
    InvalidFormat(String),
}

pub enum RandomizableUsizeErrorView {
    InvalidBound(IntParseError),
    InvalidFormat(Seq<char>),
}

impl View for RandomizableUsizeError {
    type V = RandomizableUsizeErrorView;

    open spec fn view(&self) -> RandomizableUsizeErrorView {
        match self {
            RandomizableUsizeError::InvalidBound(e) => RandomizableUsizeErrorView::InvalidBound(*e),
            RandomizableUsizeError::InvalidFormat(s) => RandomizableUsizeErrorView::InvalidFormat(s@),
        }
    }
}

/// The text of each error.
pub open spec fn randomizable_error_text(e: RandomizableUsizeErrorView) -> Seq<char> {
    match e {
        RandomizableUsizeErrorView::InvalidBound(k) => match k {
            IntParseError::Empty => "cannot parse integer from empty string"@,
            IntParseError::InvalidDigit => "invalid digit found in string"@,
            IntParseError::PosOverflow => "number too large to fit in target type"@,
        },
        RandomizableUsizeErrorView::InvalidFormat(s) => "Invalid randomizable usize format: "@ + s,
    }
}

impl RandomizableUsizeError {
    pub fn to_string(&self) -> (r: String)
        ensures
            r@ == randomizable_error_text(self@),
    {
        match self {
            RandomizableUsizeError::InvalidBound(e) => string_of(e.message()),
            RandomizableUsizeError::InvalidFormat(s) => {
                let mut r = string_of("Invalid randomizable usize format: ");
                push_str(&mut r, s.as_str());
                r
            },
        }
    }
}

/// What is between `uniform(` and the last `)` of `s`, when `s` has that form.
pub open spec fn uniform_inner(s: Seq<char>) -> Option<Seq<char>> {
    let p = "uniform("@;
    if p.len() < s.len() && s.subrange(0, p.len() as int) == p && s.last() == ')' {
        Some(s.subrange(p.len() as int, s.len() - 1))
    } else {
        None
    }
}

/// How a content file's string reads as a count: a number, else `uniform(min,max)` with the
/// bounds read after trimming whitespace.
pub open spec fn parse_randomizable_spec(s: Seq<char>) -> Result<RandomizableUsize, RandomizableUsizeErrorView> {
    match parse_usize_spec(s) {
        Ok(v) => Ok(RandomizableUsize::Fixed(v)),
        Err(_) => match uniform_inner(s) {
            Some(inner) => {
                let parts = split_on(inner, ',');
                if parts.len() == 2 {
                    match parse_usize_spec(trimmed(parts[0])) {
                        Err(e) => Err(RandomizableUsizeErrorView::InvalidBound(e)),
                        Ok(min) => match parse_usize_spec(trimmed(parts[1])) {
                            Err(e) => Err(RandomizableUsizeErrorView::InvalidBound(e)),
                            Ok(max) => Ok(RandomizableUsize::Uniform { min, max }),
                        },
                    }
                } else {
                    Err(RandomizableUsizeErrorView::InvalidFormat(s))
                }
            },
            None => Err(RandomizableUsizeErrorView::InvalidFormat(s)),
        },
    }
}

pub open spec fn randomizable_result_view(r: Result<RandomizableUsize, RandomizableUsizeError>) -> Result<RandomizableUsize, RandomizableUsizeErrorView> {
    match r {
        Ok(v) => Ok(v),
        Err(e) => Err(e@),
    }
}

/// Reads a count written as a string in a content file.
pub fn parse_randomizable_usize(s: &str) -> (r: Result<RandomizableUsize, RandomizableUsizeError>)
    ensures
        randomizable_result_view(r) == parse_randomizable_spec(s@),
{
    let chars = chars_of(s);
    match parse_usize_chars(&chars) {
        Ok(v) => {
            return Ok(RandomizableUsize::Fixed(v));
        },
        Err(_) => {},
    }
    let n = chars.len();
    let has_prefix = chars_start_with(&chars, "uniform(");
    proof {
        reveal_strlit("uniform(");
    }
    if !(has_prefix && 8 < n && chars[n - 1] == ')') {
        return Err(RandomizableUsizeError::InvalidFormat(string_of(s)));
    }
    let mut inner: Vec<char> = Vec::new();
    let mut i: usize = 8;
    while i < n - 1
        invariant
            n == chars@.len(),
            8 < n,
            8 <= i <= n - 1,
            inner@ == chars@.subrange(8, i as int),
        decreases n - 1 - i,
    {
        inner.push(chars[i]);
        assert(chars@.subrange(8, i + 1) =~= chars@.subrange(8, i as int).push(chars@[i as int]));
        i = i + 1;
    }
    assert(uniform_inner(s@) == Some(inner@));
    let parts = split_chars(&inner, ',');
    proof {
        lemma_split_on_nonempty(inner@, ',');
    }
    if parts.len() != 2 {
        return Err(RandomizableUsizeError::InvalidFormat(string_of(s)));
    }
    assert(views_of(parts@)[0] == parts@[0]@);
    assert(views_of(parts@)[1] == parts@[1]@);
    let low_text = trim_chars(&parts[0]);
    let min = match parse_usize_chars(&low_text) {
        Ok(v) => v,
        Err(e) => {
            return Err(RandomizableUsizeError::InvalidBound(e));
        },
    };
    let high_text = trim_chars(&parts[1]);
    let max = match parse_usize_chars(&high_text) {
        Ok(v) => v,
        Err(e) => {
            return Err(RandomizableUsizeError::InvalidBound(e));
        },
    };
    Ok(RandomizableUsize::Uniform { min, max })
}

/// An option as a content file gives it. `listed_humans` is how many people the file lists
/// on the option's track, when it lists them.
#[derive(Debug, Clone)]
pub struct DilemmaOptionLoader {
    pub index: usize,
    pub name: String,
    pub description: String,
    pub listed_humans: Option<usize>,
    pub num_humans: Option<RandomizableUsize>,
}

/// A stage as a content file gives it: how often it repeats, its countdown, its options, how
/// many of them to offer, the option the lever starts on, and the train's speed in
/// thousandths.
#[derive(Debug, Clone)]
pub struct DilemmaStageLoader {
    pub repeat: usize,
    pub countdown_duration_ms: u64,
    pub options: Vec<DilemmaOptionLoader>,
    pub option_count: Option<RandomizableUsize>,
    pub default_option: Option<usize>,
    pub speed_thousandths: u64,
}

/// A stage that does not say how often it repeats is played once.
pub fn default_repeat() -> (r: usize)
    ensures
        r == 1,
{
    1
}

/// A stage that does not give the train's speed runs it at 70.
pub fn default_speed_thousandths() -> (r: u64)
    ensures
        r == 70000,
{
    70000
}

/// A dilemma as a content file gives it.
#[derive(Debug, Clone)]
pub struct DilemmaLoader {
    pub index: String,
    pub name: String,
    pub narration_path: String,
    pub description: String,
    pub stages: Vec<DilemmaStageLoader>,
    pub music_path: String,
}

/// An option as the game offers it: `num_humans` people on its track, all of whom die if the
/// train takes it.
#[derive(Debug, Clone)]
pub struct DilemmaOption {
    pub index: usize,
    pub name: String,
    pub description: String,
    pub consequences: DilemmaOptionConsequences,
    pub num_humans: usize,
}

#[derive(Debug, Clone)]
pub struct DilemmaStage {
    pub countdown_duration_ms: u64,
    pub options: Vec<DilemmaOption>,
    pub default_option: Option<usize>,
    pub speed_thousandths: u64,
}

#[derive(Debug, Clone)]
pub struct Dilemma {
    pub index: String,
    pub name: String,
    pub narration_path: String,
    pub description: String,
    pub stages: Vec<DilemmaStage>,
    pub music_path: String,
}

/// The placeholder in an option's description that the head count replaces.
pub open spec fn head_count_placeholder() -> Seq<char> {
    "{num_humans}"@
}

/// `o` is the option made from `l` with `num_humans` people on its track.
pub open spec fn option_with_head_count(o: DilemmaOption, l: DilemmaOptionLoader, num_humans: usize) -> bool {
    &&& o.index == l.index
    &&& o.name@ == l.name@
    &&& o.num_humans == num_humans
    &&& o.consequences.total_fatalities == num_humans
    &&& o.description@ == replaced(l.description@, head_count_placeholder(), decimal_spec(num_humans as nat))
}

/// The head counts an option made from `l` can have: one drawn from its range, or else as
/// many as the file lists (none when it lists none).
pub open spec fn head_count_allowed(l: DilemmaOptionLoader, num_humans: usize) -> bool {
    match l.num_humans {
        Some(r) => least(r) <= num_humans <= greatest(r),
        None => num_humans == match l.listed_humans {
            Some(n) => n,
            None => 0,
        },
    }
}

/// `o` is an option the game can make from `l`.
pub open spec fn option_drawn_from(o: DilemmaOption, l: DilemmaOptionLoader) -> bool {
    head_count_allowed(l, o.num_humans) && option_with_head_count(o, l, o.num_humans)
}

/// An option's range, if it has one, can be drawn from.
pub open spec fn option_drawable(l: DilemmaOptionLoader) -> bool {
    l.num_humans matches Some(r) ==> drawable(r)
}

impl DilemmaOption {
    /// The option made from `loader` with `num_humans` people on its track: the head count
    /// is written into the description in place of `{num_humans}`.
    pub fn with_head_count(loader: &DilemmaOptionLoader, num_humans: usize) -> (r: DilemmaOption)
        ensures
            option_with_head_count(r, *loader, num_humans),
    {
        let description_chars = chars_of(loader.description.as_str());
        let placeholder = chars_of("{num_humans}");
        proof {
            reveal_strlit("{num_humans}");
        }
        let count_text = decimal_string(num_humans);
        let count_chars = chars_of(count_text.as_str());
        let replaced_chars = replace_chars(&description_chars, &placeholder, &count_chars);
        let mut description = String::new();
        push_chars(&mut description, &replaced_chars);
        assert(description@ =~= replaced_chars@);
        DilemmaOption {
            index: loader.index,
            name: loader.name.clone(),
            description,
            consequences: DilemmaOptionConsequences { total_fatalities: num_humans },
            num_humans,
        }
    }

    /// The option the game offers from `loader`; its head count is drawn from the option's
    /// range, else it is the number of people the file lists.
    pub fn from_loader(loader: &DilemmaOptionLoader) -> (r: DilemmaOption)
        requires
            option_drawable(*loader),
        ensures
            option_drawn_from(r, *loader),
    {
        let num_humans = match loader.num_humans {
            Some(v) => v.resolve(),
            None => match loader.listed_humans {
                Some(n) => n,
                None => 0,
            },
        };
        DilemmaOption::with_head_count(loader, num_humans)
    }
}

/// `v` brought between 1 and `total` (at least 1).
pub open spec fn clamp_count(v: int, total: int) -> int {
    let upper = if total < 1 { 1 } else { total };
    if v < 1 { 1 } else if v > upper { upper } else { v }
}

/// The most options a stage made from `l` can offer.
pub open spec fn max_option_count(l: DilemmaStageLoader) -> int {
    match l.option_count {
        Some(r) => clamp_count(greatest(r) as int, l.options@.len() as int),
        None => l.options@.len() as int,
    }
}

/// The stage loader can be played: a stage that is played at all has an option, and its
/// ranges, where it gives them, can be drawn from.
pub open spec fn stage_playable(l: DilemmaStageLoader) -> bool {
    l.repeat > 0 ==> {
        &&& l.options@.len() > 0
        &&& (l.option_count matches Some(r) ==> drawable(r))
        &&& forall|i: int| 0 <= i < max_option_count(l) ==> option_drawable(#[trigger] l.options@[i])
    }
}

/// Why a stage that is played cannot be made from its loader.
#[derive(Debug, Clone, Copy, PartialEq, Eq, Structural)]
pub enum StageProblem {
    /// The stage has no option.
    NoOptions,
    /// A range it would draw from (its option count, or the head count of an option it may
    /// offer) is empty.
    EmptyRange,
}

/// What keeps a stage made from `l` from being played, checked in the order the stage is
/// made: its options, then its option count, then the options it may offer.
pub open spec fn stage_problem(l: DilemmaStageLoader) -> Option<StageProblem> {
    if l.repeat == 0 {
        None
    } else if l.options@.len() == 0 {
        Some(StageProblem::NoOptions)
    } else if l.option_count matches Some(r) && !drawable(r) {
        Some(StageProblem::EmptyRange)
    } else if exists|i: int| 0 <= i < max_option_count(l) && !option_drawable(#[trigger] l.options@[i]) {
        Some(StageProblem::EmptyRange)
    } else {
        None
    }
}

/// The problem of the first stage from position `k` on that has one.
pub open spec fn stage_problem_from(stages: Seq<DilemmaStageLoader>, k: int) -> Option<StageProblem>
    decreases stages.len() - k,
{
    if k < 0 || k >= stages.len() {
        None
    } else {
        match stage_problem(stages[k]) {
            Some(p) => Some(p),
            None => stage_problem_from(stages, k + 1),
        }
    }
}

/// The problem of the stage made from `loader`, if it has one.
fn stage_problem_of(loader: &DilemmaStageLoader) -> (r: Option<StageProblem>)
    ensures
        r == stage_problem(*loader),
        r is None <==> stage_playable(*loader),
{
    if loader.repeat == 0 {
        return None;
    }
    let total = loader.options.len();
    if total == 0 {
        return Some(StageProblem::NoOptions);
    }
    let most = match loader.option_count {
        Some(r) => {
            let (low, high) = match r {
                RandomizableUsize::Fixed(v) => (v, v),
                RandomizableUsize::Uniform { min, max } => (min, max),
            };
            if low > high {
                return Some(StageProblem::EmptyRange);
            }
            if high < 1 { 1 } else if high > total { total } else { high }
        },
        None => total,
    };
    assert(most == max_option_count(*loader));
    let mut i: usize = 0;
    while i < most
        invariant
            most == max_option_count(*loader),
            most <= total,
            total == loader.options@.len(),
            total > 0,
            loader.repeat > 0,
            loader.option_count matches Some(r) ==> drawable(r),
            i <= most,
            forall|k: int| 0 <= k < i ==> option_drawable(#[trigger] loader.options@[k]),
        decreases most - i,
    {
        let drawable_here = match loader.options[i].num_humans {
            Some(RandomizableUsize::Uniform { min, max }) => min <= max,
            _ => true,
        };
        if !drawable_here {
            assert(!option_drawable(loader.options@[i as int]));
            return Some(StageProblem::EmptyRange);
        }
        i = i + 1;
    }
    None
}

impl Dilemma {
    /// The problem of the first stage in `loader` that cannot be played, if any; `None`
    /// exactly when [`Dilemma::new`] can make the dilemma.
    pub fn unplayable_stage(loader: &DilemmaLoader) -> (r: Option<StageProblem>)
        ensures
            r == stage_problem_from(loader.stages@, 0),
            r is None <==> forall|j: int| 0 <= j < loader.stages@.len() ==> stage_playable(#[trigger] loader.stages@[j]),
    {
        let n = loader.stages.len();
        let mut j: usize = 0;
        while j < n
            invariant
                n == loader.stages@.len(),
                j <= n,
                stage_problem_from(loader.stages@, 0) == stage_problem_from(loader.stages@, j as int),
                forall|q: int| 0 <= q < j ==> stage_playable(#[trigger] loader.stages@[q]),
            decreases n - j,
        {
            match stage_problem_of(&loader.stages[j]) {
                Some(p) => return Some(p),
                None => {},
            }
            j = j + 1;
        }
        proof {
            lemma_no_problem_from(loader.stages@, j as int);
        }
        None
    }
}

/// Past the last stage there is no problem left.
proof fn lemma_no_problem_from(stages: Seq<DilemmaStageLoader>, k: int)
    requires
        k >= stages.len(),
    ensures
        stage_problem_from(stages, k) is None,
{
}

/// `st` is the stage made from `l` with `count` of its options, the first ones.
pub open spec fn stage_with_count(st: DilemmaStage, l: DilemmaStageLoader, count: int) -> bool {
    &&& st.countdown_duration_ms == l.countdown_duration_ms
    &&& st.speed_thousandths == l.speed_thousandths
    &&& st.options@.len() == count
    &&& forall|i: int| 0 <= i < count ==> option_drawn_from(#[trigger] st.options@[i], l.options@[i])
    &&& st.default_option == match l.default_option {
        Some(d) => Some(if d < count { d } else { (count - 1) as usize }),
        None => None,
    }
}

/// The option counts a stage made from `l` can have: the number drawn, or all the options,
/// brought between 1 and the number of options.
pub open spec fn option_count_allowed(l: DilemmaStageLoader, count: int) -> bool {
    match l.option_count {
        Some(r) => exists|v: usize| least(r) <= v <= greatest(r) && count == clamp_count(v as int, l.options@.len() as int),
        None => count == clamp_count(l.options@.len() as int, l.options@.len() as int),
    }
}

/// `st` is a stage the game can make from `l`.
pub open spec fn stage_drawn_from(st: DilemmaStage, l: DilemmaStageLoader) -> bool {
    option_count_allowed(l, st.options@.len() as int) && stage_with_count(st, l, st.options@.len() as int)
}

impl DilemmaStage {
    /// The stage made from `loader` offering its first `resolved_option_count` options,
    /// brought between 1 and the number of options.
    pub fn with_option_count(loader: &DilemmaStageLoader, resolved_option_count: usize) -> (r: DilemmaStage)
        requires
            loader.options@.len() > 0,
            forall|i: int| 0 <= i < clamp_count(resolved_option_count as int, loader.options@.len() as int)
                ==> option_drawable(#[trigger] loader.options@[i]),
        ensures
            stage_with_count(r, *loader, clamp_count(resolved_option_count as int, loader.options@.len() as int)),
    {
        let total = loader.options.len();
        let count = if resolved_option_count < 1 {
            1
        } else if resolved_option_count > total {
            total
        } else {
            resolved_option_count
        };
        let mut options: Vec<DilemmaOption> = Vec::new();
        let mut i: usize = 0;
        while i < count
            invariant
                count <= total,
                total == loader.options@.len(),
                count == clamp_count(resolved_option_count as int, total as int),
                forall|k: int| 0 <= k < count ==> option_drawable(#[trigger] loader.options@[k]),
                i <= count,
                options@.len() == i,
                forall|k: int| 0 <= k < i ==> option_drawn_from(#[trigger] options@[k], loader.options@[k]),
            decreases count - i,
        {
            let option = DilemmaOption::from_loader(&loader.options[i]);
            options.push(option);
            i = i + 1;
        }
        let default_option = match loader.default_option {
            Some(d) => Some(if d < count { d } else { count - 1 }),
            None => None,
        };
        DilemmaStage {
            countdown_duration_ms: loader.countdown_duration_ms,
            options,
            default_option,
            speed_thousandths: loader.speed_thousandths,
        }
    }

    /// A stage the game plays from `loader`: how many options it offers is drawn from the
    /// stage's range, else it offers all.
    pub fn from_loader(loader: &DilemmaStageLoader) -> (r: DilemmaStage)
        requires
            loader.repeat > 0,
            stage_playable(*loader),
        ensures
            stage_drawn_from(r, *loader),
    {
        let total = loader.options.len();
        let resolved = match loader.option_count {
            Some(v) => v.resolve(),
            None => total,
        };
        proof {
            let c = clamp_count(resolved as int, total as int);
            assert forall|i: int| 0 <= i < c implies option_drawable(#[trigger] loader.options@[i]) by {
                assert(i < max_option_count(*loader));
            }
        }
        let r = DilemmaStage::with_option_count(loader, resolved);
        proof {
            match loader.option_count {
                Some(v) => {
                    assert(least(v) <= resolved <= greatest(v)
                        && r.options@.len() == clamp_count(resolved as int, total as int));
                },
                None => {},
            }
        }
        r
    }
}

/// For each stage the dilemma plays, the stage loader it comes from: each loader in turn,
/// as often as it repeats.
pub open spec fn stage_sources(loaders: Seq<DilemmaStageLoader>) -> Seq<int>
    decreases loaders.len(),
{
    if loaders.len() == 0 {
        Seq::empty()
    } else {
        stage_sources(loaders.drop_last()) + Seq::new(loaders.last().repeat as nat, |k: int| loaders.len() - 1)
    }
}

/// `d` is a dilemma the game can make from `l`.
pub open spec fn dilemma_drawn_from(d: Dilemma, l: DilemmaLoader) -> bool {
    let sources = stage_sources(l.stages@);
    &&& d.index@ == l.index@
    &&& d.name@ == l.name@
    &&& d.narration_path@ == l.narration_path@
    &&& d.description@ == l.description@
    &&& d.music_path@ == l.music_path@
    &&& d.stages@.len() == sources.len()
    &&& forall|k: int| 0 <= k < sources.len() ==> stage_drawn_from(#[trigger] d.stages@[k], l.stages@[sources[k]])
}

impl Dilemma {
    /// The dilemma the game plays from `loader`: every stage as often as it repeats, each
    /// repetition with its own draws.
    pub fn new(loader: &DilemmaLoader) -> (r: Dilemma)
        requires
            forall|j: int| 0 <= j < loader.stages@.len() ==> stage_playable(#[trigger] loader.stages@[j]),
        ensures
            dilemma_drawn_from(r, *loader),
    {
        let mut stages: Vec<DilemmaStage> = Vec::new();
        let mut j: usize = 0;
        let ghost all = loader.stages@;
        assert(all.take(0) =~= Seq::<DilemmaStageLoader>::empty());
        while j < loader.stages.len()
            invariant
                j <= all.len(),
                all == loader.stages@,
                forall|q: int| 0 <= q < all.len() ==> stage_playable(#[trigger] all[q]),
                stages@.len() == stage_sources(all.take(j as int)).len(),
                forall|k: int| 0 <= k < stages@.len() ==> stage_drawn_from(#[trigger] stages@[k], all[stage_sources(all.take(j as int))[k]]),
            decreases all.len() - j,
        {
            let stage_loader = &loader.stages[j];
            let ghost before = stage_sources(all.take(j as int));
            assert(all.take(j + 1).drop_last() =~= all.take(j as int));
            assert(all.take(j + 1).last() == all[j as int]);
            let mut rep: usize = 0;
            while rep < stage_loader.repeat
                invariant
                    j < all.len(),
                    all == loader.stages@,
                    *stage_loader == all[j as int],
                    stage_playable(all[j as int]),
                    rep <= stage_loader.repeat,
                    stages@.len() == before.len() + rep,
                    forall|k: int| 0 <= k < before.len() ==> stage_drawn_from(#[trigger] stages@[k], all[before[k]]),
                    forall|k: int| before.len() <= k < stages@.len() ==> stage_drawn_from(#[trigger] stages@[k], all[j as int]),
                decreases stage_loader.repeat - rep,
            {
                let stage = DilemmaStage::from_loader(stage_loader);
                stages.push(stage);
                rep = rep + 1;
            }
            proof {
                let after = stage_sources(all.take(j + 1));
                assert(after =~= before + Seq::new(all[j as int].repeat as nat, |k: int| (j + 1) - 1));
                assert forall|k: int| 0 <= k < stages@.len() implies stage_drawn_from(#[trigger] stages@[k], all[after[k]]) by {
                    if k < before.len() {
                        assert(after[k] == before[k]);
                    } else {
                        assert(after[k] == j);
                    }
                }
            }
            j = j + 1;
        }
        assert(all.take(j as int) =~= all);
        Dilemma {
            index: loader.index.clone(),
            name: loader.name.clone(),
            narration_path: loader.narration_path.clone(),
            description: loader.description.clone(),
            stages,
            music_path: loader.music_path.clone(),
        }
    }
}

/// The scenes the campaign graph sets after `current` given how the dilemma `latest` went,
/// the totals of `stats` and the dilemmas played before it (`earlier`); the menu when the
/// graph cannot be had or followed, and `None` when it sets nothing.
pub open spec fn scenes_after(
    graph: Result<SceneProgressionGraph, FlowEvalError>,
    current: Scene,
    latest: crate::stats::DilemmaStats,
    stats: GameStats,
    earlier: Seq<crate::stats::DilemmaStats>,
) -> Option<Seq<Scene>> {
    match graph {
        Ok(g) => match evaluate_with_earlier_spec(g, current, latest, stats, earlier) {
            Ok(Some(scenes)) => Some(scenes),
            Ok(None) => None,
            Err(_) => Some(seq![Scene::Menu]),
        },
        Err(_) => Some(seq![Scene::Menu]),
    }
}

impl Dilemma {
    /// Once a dilemma's consequence has played: in a campaign, the scenes that the campaign
    /// graph sets after it, for the last dilemma recorded in `stats` (the ones recorded before
    /// it being the earlier dilemmas), take the place of the queued ones. A single level, or a
    /// run without recorded dilemmas, keeps its queue.
    pub fn update_queue(
        queue: &mut SceneQueue,
        stats: &GameStats,
        graph: &Result<SceneProgressionGraph, FlowEvalError>,
    )
        ensures
            final(queue).current() == old(queue).current(),
            final(queue).mode() == old(queue).mode(),
            ({
                let replacement = if old(queue).mode() == SceneFlowMode::SingleLevel || stats.dilemma_stats@.len() == 0 {
                    None
                } else {
                    scenes_after(
                        *graph,
                        old(queue).current(),
                        stats.dilemma_stats@.last(),
                        *stats,
                        stats.dilemma_stats@.drop_last(),
                    )
                };
                final(queue).pending() == match replacement {
                    Some(scenes) => scenes,
                    None => old(queue).pending(),
                }
            }),
    {
        if queue.flow_mode() == SceneFlowMode::SingleLevel {
            return;
        }
        let n = stats.dilemma_stats.len();
        if n == 0 {
            return;
        }
        let latest = &stats.dilemma_stats[n - 1];
        let earlier = vstd::slice::slice_subrange(stats.dilemma_stats.as_slice(), 0, n - 1);
        assert(earlier@ =~= stats.dilemma_stats@.drop_last());
        match next_scenes_with_earlier(graph, queue.current_scene(), latest, stats, earlier) {
            Some(next_scenes) => queue.replace(next_scenes),
            None => {},
        }
    }
}

/// The countdowns of `stages` added up, in milliseconds.
pub open spec fn total_countdown(stages: Seq<DilemmaStage>) -> int
    decreases stages.len(),
{
    if stages.len() == 0 {
        0
    } else {
        total_countdown(stages.drop_last()) + stages.last().countdown_duration_ms
    }
}

/// The time the player has for a whole dilemma: the countdowns of its stages added up.
pub fn total_countdown_ms(stages: &Vec<DilemmaStage>) -> (r: u64)
    requires
        total_countdown(stages@) <= u64::MAX,
    ensures
        r == total_countdown(stages@),
{
    let mut total: u64 = 0;
    let mut i: usize = 0;
    while i < stages.len()
        invariant
            i <= stages@.len(),
            total == total_countdown(stages@.take(i as int)),
            total_countdown(stages@) <= u64::MAX,
        decreases stages.len() - i,
    {
        proof {
            assert(stages@.take(i + 1).drop_last() =~= stages@.take(i as int));
            lemma_total_countdown_prefix(stages@, i + 1);
        }
        total = total + stages[i].countdown_duration_ms;
        i = i + 1;
    }
    assert(stages@.take(i as int) =~= stages@);
    total
}

proof fn lemma_total_countdown_prefix(stages: Seq<DilemmaStage>, k: int)
    requires
        0 <= k <= stages.len(),
    ensures
        total_countdown(stages.take(k)) <= total_countdown(stages),
    decreases stages.len() - k,
{
    if k < stages.len() {
        lemma_total_countdown_prefix(stages, k + 1);
        assert(stages.take(k + 1).drop_last() =~= stages.take(k));
    } else {
        assert(stages.take(k) =~= stages);
    }
}

/// The menu's states, where a dilemma scene falls back to.
pub open spec fn dilemma_fallback() -> StateVector {
    StateVector { main: Some(MainState::Menu), game: None, sub: None }
}

/// The dilemma to play for the scene now playing, or the states to fall back to when the
/// scene is no dilemma.
pub fn dilemma_to_play(current: Scene) -> (r: Result<DilemmaScene, StateVector>)
    ensures
        r == (match current {
            Scene::Dilemma(d) => Ok::<DilemmaScene, StateVector>(d),
            _ => Err(dilemma_fallback()),
        }),
{
    match current {
        Scene::Dilemma(d) => Ok(d),
        _ => Err(SceneNavigator::fallback_state_vector()),
    }
}

/// How a dilemma starts: with its first stage, and the time of all its stages to decide in;
/// a dilemma without stages falls back to the menu.
pub fn dilemma_start(dilemma: &Dilemma) -> (r: Result<u64, StateVector>)
    requires
        total_countdown(dilemma.stages@) <= u64::MAX,
    ensures
        dilemma.stages@.len() == 0 ==> r == Err::<u64, StateVector>(dilemma_fallback()),
        dilemma.stages@.len() > 0 ==> r == Ok::<u64, StateVector>(total_countdown(dilemma.stages@) as u64),
{
    if dilemma.stages.len() == 0 {
        return Err(SceneNavigator::fallback_state_vector());
    }
    Ok(total_countdown_ms(&dilemma.stages))
}

/// The countdown of a dilemma stage, in nanoseconds: how long it runs and has run, when its
/// text starts to pulse and when the pulse speeds up, and whether it has.
#[derive(Debug, Clone, Copy, PartialEq, Eq, Structural)]
pub struct DilemmaTimer {
    pub duration_ns: u64,
    pub elapsed_ns: u64,
    pub pulse_start_ns: u64,
    pub pulse_speedup_ns: u64,
    pub sped_up: bool,
}

/// Half a second, in nanoseconds.
pub const HALF_SECOND_NS: u64 = 500_000_000;

/// What the countdown's pulse does now: whether it shows, and whether it speeds up (once).
#[derive(Debug, Clone, Copy, PartialEq, Eq, Structural)]
pub struct PulseDecision {
    pub active: bool,
    pub speed_up: bool,
}

impl DilemmaTimer {
    pub fn new(duration_ns: u64, pulse_start_ns: u64, pulse_speedup_ns: u64) -> (r: DilemmaTimer)
        ensures
            r == (DilemmaTimer { duration_ns, elapsed_ns: 0, pulse_start_ns, pulse_speedup_ns, sped_up: false }),
    {
        DilemmaTimer { duration_ns, elapsed_ns: 0, pulse_start_ns, pulse_speedup_ns, sped_up: false }
    }

    /// The time left, none once the countdown has run out.
    pub open spec fn remaining_spec(self) -> u64 {
        if self.elapsed_ns >= self.duration_ns { 0 } else { (self.duration_ns - self.elapsed_ns) as u64 }
    }

    pub fn remaining_ns(&self) -> (r: u64)
        ensures
            r == self.remaining_spec(),
    {
        if self.elapsed_ns >= self.duration_ns { 0 } else { self.duration_ns - self.elapsed_ns }
    }

    /// Runs the countdown `delta_ns` on, stopping at its end; the result says whether it has
    /// run out, which ends the decision.
    pub fn tick(&mut self, delta_ns: u64) -> (r: bool)
        ensures
            final(self).elapsed_ns == (if old(self).elapsed_ns + delta_ns >= old(self).duration_ns {
                old(self).duration_ns
            } else {
                (old(self).elapsed_ns + delta_ns) as u64
            }),
            final(self).duration_ns == old(self).duration_ns,
            final(self).pulse_start_ns == old(self).pulse_start_ns,
            final(self).pulse_speedup_ns == old(self).pulse_speedup_ns,
            final(self).sped_up == old(self).sped_up,
            r == (final(self).elapsed_ns >= final(self).duration_ns),
    {
        if self.elapsed_ns >= self.duration_ns || delta_ns >= self.duration_ns - self.elapsed_ns {
            self.elapsed_ns = self.duration_ns;
        } else {
            self.elapsed_ns = self.elapsed_ns + delta_ns;
        }
        self.elapsed_ns >= self.duration_ns
    }

    /// The pulse of the countdown's text, whose blink takes `interval_ns` between pulses of
    /// `pulse_ns`: it shows once the time left is within its start plus one blink, and speeds
    /// up, once, when the time left is within the speed-up time plus half a second and a pulse.
    pub fn pulse(&mut self, interval_ns: u64, pulse_ns: u64) -> (r: PulseDecision)
        requires
            old(self).pulse_start_ns + interval_ns + pulse_ns <= u64::MAX,
            old(self).pulse_speedup_ns + HALF_SECOND_NS + pulse_ns <= u64::MAX,
        ensures
            r.active == (old(self).remaining_spec() <= old(self).pulse_start_ns + interval_ns + pulse_ns),
            r.speed_up == (old(self).remaining_spec() <= old(self).pulse_speedup_ns + HALF_SECOND_NS + pulse_ns
                && !old(self).sped_up),
            *final(self) == (DilemmaTimer { sped_up: old(self).sped_up || r.speed_up, ..*old(self) }),
    {
        let remaining = self.remaining_ns();
        let active = remaining <= self.pulse_start_ns + interval_ns + pulse_ns;
        let speed_up = remaining <= self.pulse_speedup_ns + HALF_SECOND_NS + pulse_ns && !self.sped_up;
        if speed_up {
            self.sped_up = true;
        }
        PulseDecision { active, speed_up }
    }
}

} // verus!
