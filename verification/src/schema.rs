//! The campaign graph: where each dilemma leads, and the conditions that choose the way.
use vstd::prelude::*;

verus! {

/// A scene named in the campaign graph; dialogue, dilemma and ending scenes carry their id.
#[derive(Debug, Clone, PartialEq, Eq, Hash)]
pub enum SceneRef {
    Menu,
    Loading,
    Dialogue { id: String },
    Dilemma { id: String },
    Ending { id: String },
}

/// What a [`SceneRef`] names: its kind and the characters of its id.
pub enum SceneRefView {
    Menu,
    Loading,
    Dialogue(Seq<char>),
    Dilemma(Seq<char>),
    Ending(Seq<char>),
}

impl View for SceneRef {
    type V = SceneRefView;

    open spec fn view(&self) -> SceneRefView {
        match self {
            SceneRef::Menu => SceneRefView::Menu,
            SceneRef::Loading => SceneRefView::Loading,
            SceneRef::Dialogue { id } => SceneRefView::Dialogue(id@),
            SceneRef::Dilemma { id } => SceneRefView::Dilemma(id@),
            SceneRef::Ending { id } => SceneRefView::Ending(id@),
        }
    }
}

impl SceneRef {
    /// A copy of this reference, naming the same scene.
    pub fn duplicate(&self) -> (r: SceneRef)
        ensures
            r@ == self@,
    {
        match self {
            SceneRef::Menu => SceneRef::Menu,
            SceneRef::Loading => SceneRef::Loading,
            SceneRef::Dialogue { id } => SceneRef::Dialogue { id: id.clone() },
            SceneRef::Dilemma { id } => SceneRef::Dilemma { id: id.clone() },
            SceneRef::Ending { id } => SceneRef::Ending { id: id.clone() },
        }
    }

    /// Whether both references name the same scene.
    pub fn same_scene(&self, other: &SceneRef) -> (r: bool)
        ensures
            r == (self@ == other@),
    {
        match (self, other) {
            (SceneRef::Menu, SceneRef::Menu) => true,
            (SceneRef::Loading, SceneRef::Loading) => true,
            (SceneRef::Dialogue { id: a }, SceneRef::Dialogue { id: b }) => String::eq(a, b),
            (SceneRef::Dilemma { id: a }, SceneRef::Dilemma { id: b }) => String::eq(a, b),
            (SceneRef::Ending { id: a }, SceneRef::Ending { id: b }) => String::eq(a, b),
            _ => false,
        }
    }
}

/// The whole campaign graph: one route per dilemma that has a way on.
#[derive(Debug, Clone, PartialEq)]
pub struct SceneProgressionGraph {
    pub version: u32,
    pub routes: Vec<RouteDefinition>,
}

/// Where a scene leads: the first rule whose conditions all hold, else the default scenes.
#[derive(Debug, Clone, PartialEq)]
pub struct RouteDefinition {
    pub from: SceneRef,
    pub rules: Vec<RouteRule>,
    pub default_then: Vec<SceneRef>,
}

/// A named rule: when every condition holds, the scenes in `then_scenes` follow.
#[derive(Debug, Clone, PartialEq)]
pub struct RouteRule {
    pub name: String,
    pub when: Vec<FlowCondition>,
    pub then_scenes: Vec<SceneRef>,
}

/// A test on the outcome of the dilemma just played and on the campaign so far.
///
/// Times, both the remaining times that the conditions read and the thresholds (`millis`) they
/// compare against, are whole milliseconds: a remaining time keeps its whole milliseconds and
/// drops the rest, and a threshold given in seconds is rounded up to the next whole
/// millisecond. A comparison therefore decides as it would on exact times except when the
/// remaining time and the threshold fall within the same millisecond; there a remaining time
/// just above the threshold still counts as below it.
#[derive(Debug, Clone, Copy, PartialEq, Eq, Structural)]
pub enum FlowCondition {
    FatalitiesGt { value: usize },
    FatalitiesEq { value: usize },
    DecisionsGt { value: usize },
    DecisionsEq { value: usize },
    TotalDecisionsGt { value: usize },
    TotalDecisionsEq { value: usize },
    SelectedOptionEq { value: usize },
    LastDecisionRemainingIsSome,
    LastDecisionRemainingIsNone,
    LastDecisionRemainingLtSecs { millis: u64 },
    LastDecisionRemainingGteSecs { millis: u64 },
    OverallAvgRemainingIsSome,
    OverallAvgRemainingIsNone,
    OverallAvgRemainingLtSecs { millis: u64 },
    OverallAvgRemainingGteSecs { millis: u64 },
    PreviousSelectedOptionEq { back: usize, value: usize },
    PreviousDecisionsEq { back: usize, value: usize },
    PreviousDecisionsGt { back: usize, value: usize },
}

/// What the conditions read: the last dilemma, the campaign totals, and the earlier dilemmas
/// (`previous_*[0]` is the dilemma played just before the last one).
#[derive(Debug, Clone, PartialEq)]
pub struct FlowEvalContext {
    pub num_fatalities: usize,
    pub num_decisions: usize,
    pub total_decisions: usize,
    pub selected_option: Option<usize>,
    pub duration_remaining_at_last_decision_ms: Option<u64>,
    pub overall_avg_time_remaining_ms: Option<u64>,
    pub previous_selected_options: Vec<Option<usize>>,
    pub previous_num_decisions: Vec<usize>,
}

/// What a [`FlowEvalContext`] holds, with the earlier dilemmas as sequences.
pub struct FlowEvalContextView {
    pub num_fatalities: usize,
    pub num_decisions: usize,
    pub total_decisions: usize,
    pub selected_option: Option<usize>,
    pub duration_remaining_at_last_decision_ms: Option<u64>,
    pub overall_avg_time_remaining_ms: Option<u64>,
    pub previous_selected_options: Seq<Option<usize>>,
    pub previous_num_decisions: Seq<usize>,
}

impl View for FlowEvalContext {
    type V = FlowEvalContextView;

    open spec fn view(&self) -> FlowEvalContextView {
        FlowEvalContextView {
            num_fatalities: self.num_fatalities,
            num_decisions: self.num_decisions,
            total_decisions: self.total_decisions,
            selected_option: self.selected_option,
            duration_remaining_at_last_decision_ms: self.duration_remaining_at_last_decision_ms,
            overall_avg_time_remaining_ms: self.overall_avg_time_remaining_ms,
            previous_selected_options: self.previous_selected_options@,
            previous_num_decisions: self.previous_num_decisions@,
        }
    }
}

impl Default for FlowEvalContext {
    fn default() -> (r: FlowEvalContext)
        ensures
            r.num_fatalities == 0,
            r.num_decisions == 0,
            r.total_decisions == 0,
            r.selected_option is None,
            r.duration_remaining_at_last_decision_ms is None,
            r.overall_avg_time_remaining_ms is None,
            r.previous_selected_options@.len() == 0,
            r.previous_num_decisions@.len() == 0,
    {
        FlowEvalContext {
            num_fatalities: 0,
            num_decisions: 0,
            total_decisions: 0,
            selected_option: None,
            duration_remaining_at_last_decision_ms: None,
            overall_avg_time_remaining_ms: None,
            previous_selected_options: Vec::new(),
            previous_num_decisions: Vec::new(),
        }
    }
}

/// The option chosen `back` dilemmas before the last one; `back` counts from 1.
pub open spec fn previous_selected_option_spec(ctx: FlowEvalContextView, back: usize) -> Option<usize> {
    if back == 0 || back - 1 >= ctx.previous_selected_options.len() {
        None
    } else {
        ctx.previous_selected_options[back - 1]
    }
}

/// The lever pulls `back` dilemmas before the last one; `back` counts from 1.
pub open spec fn previous_num_decisions_spec(ctx: FlowEvalContextView, back: usize) -> Option<usize> {
    if back == 0 || back - 1 >= ctx.previous_num_decisions.len() {
        None
    } else {
        Some(ctx.previous_num_decisions[back - 1])
    }
}

/// Whether `time` is known and below `millis`.
pub open spec fn known_below(time: Option<u64>, millis: u64) -> bool {
    match time {
        Some(t) => t < millis,
        None => false,
    }
}

/// Whether `time` is known and at least `millis`.
pub open spec fn known_at_least(time: Option<u64>, millis: u64) -> bool {
    match time {
        Some(t) => t >= millis,
        None => false,
    }
}

/// Whether `condition` holds in `ctx`.
pub open spec fn condition_holds(condition: FlowCondition, ctx: FlowEvalContextView) -> bool {
    match condition {
        FlowCondition::FatalitiesGt { value } => ctx.num_fatalities > value,
        FlowCondition::FatalitiesEq { value } => ctx.num_fatalities == value,
        FlowCondition::DecisionsGt { value } => ctx.num_decisions > value,
        FlowCondition::DecisionsEq { value } => ctx.num_decisions == value,
        FlowCondition::TotalDecisionsGt { value } => ctx.total_decisions > value,
        FlowCondition::TotalDecisionsEq { value } => ctx.total_decisions == value,
        FlowCondition::SelectedOptionEq { value } => ctx.selected_option == Some(value),
        FlowCondition::LastDecisionRemainingIsSome => ctx.duration_remaining_at_last_decision_ms is Some,
        FlowCondition::LastDecisionRemainingIsNone => ctx.duration_remaining_at_last_decision_ms is None,
        FlowCondition::LastDecisionRemainingLtSecs { millis } => known_below(ctx.duration_remaining_at_last_decision_ms, millis),
        FlowCondition::LastDecisionRemainingGteSecs { millis } => known_at_least(ctx.duration_remaining_at_last_decision_ms, millis),
        FlowCondition::OverallAvgRemainingIsSome => ctx.overall_avg_time_remaining_ms is Some,
        FlowCondition::OverallAvgRemainingIsNone => ctx.overall_avg_time_remaining_ms is None,
        FlowCondition::OverallAvgRemainingLtSecs { millis } => known_below(ctx.overall_avg_time_remaining_ms, millis),
        FlowCondition::OverallAvgRemainingGteSecs { millis } => known_at_least(ctx.overall_avg_time_remaining_ms, millis),
        FlowCondition::PreviousSelectedOptionEq { back, value } => previous_selected_option_spec(ctx, back) == Some(value),
        FlowCondition::PreviousDecisionsEq { back, value } => previous_num_decisions_spec(ctx, back) == Some(value),
        FlowCondition::PreviousDecisionsGt { back, value } => match previous_num_decisions_spec(ctx, back) {
            Some(d) => d > value,
            None => false,
        },
    }
}

/// Whether every condition of `rule` holds in `ctx` (a rule without conditions always holds).
pub open spec fn rule_matches(rule: RouteRule, ctx: FlowEvalContextView) -> bool {
    forall|i: int| 0 <= i < rule.when@.len() ==> condition_holds(#[trigger] rule.when@[i], ctx)
}

/// The scenes that follow: those of the first rule in `rules` that matches, else `default`.
pub open spec fn first_match_scenes(rules: Seq<RouteRule>, ctx: FlowEvalContextView, default: Seq<SceneRef>) -> Seq<SceneRef>
    decreases rules.len(),
{
    if rules.len() == 0 {
        default
    } else if rule_matches(rules[0], ctx) {
        rules[0].then_scenes@
    } else {
        first_match_scenes(rules.drop_first(), ctx, default)
    }
}

/// The scenes that `route` leads to in `ctx`.
pub open spec fn resolved_scenes(route: RouteDefinition, ctx: FlowEvalContextView) -> Seq<SceneRef> {
    first_match_scenes(route.rules@, ctx, route.default_then@)
}

impl FlowCondition {
    pub fn matches(&self, context: &FlowEvalContext) -> (r: bool)
        ensures
            r == condition_holds(*self, context@),
    {
        match *self {
            FlowCondition::FatalitiesGt { value } => context.num_fatalities > value,
            FlowCondition::FatalitiesEq { value } => context.num_fatalities == value,
            FlowCondition::DecisionsGt { value } => context.num_decisions > value,
            FlowCondition::DecisionsEq { value } => context.num_decisions == value,
            FlowCondition::TotalDecisionsGt { value } => context.total_decisions > value,
            FlowCondition::TotalDecisionsEq { value } => context.total_decisions == value,
            FlowCondition::SelectedOptionEq { value } => match context.selected_option {
                Some(selected) => selected == value,
                None => false,
            },
            FlowCondition::LastDecisionRemainingIsSome => context.duration_remaining_at_last_decision_ms.is_some(),
            FlowCondition::LastDecisionRemainingIsNone => context.duration_remaining_at_last_decision_ms.is_none(),
            FlowCondition::LastDecisionRemainingLtSecs { millis } => match context.duration_remaining_at_last_decision_ms {
                Some(t) => t < millis,
                None => false,
            },
            FlowCondition::LastDecisionRemainingGteSecs { millis } => match context.duration_remaining_at_last_decision_ms {
                Some(t) => t >= millis,
                None => false,
            },
            FlowCondition::OverallAvgRemainingIsSome => context.overall_avg_time_remaining_ms.is_some(),
            FlowCondition::OverallAvgRemainingIsNone => context.overall_avg_time_remaining_ms.is_none(),
            FlowCondition::OverallAvgRemainingLtSecs { millis } => match context.overall_avg_time_remaining_ms {
                Some(t) => t < millis,
                None => false,
            },
            FlowCondition::OverallAvgRemainingGteSecs { millis } => match context.overall_avg_time_remaining_ms {
                Some(t) => t >= millis,
                None => false,
            },
            FlowCondition::PreviousSelectedOptionEq { back, value } => match context.previous_selected_option(back) {
                Some(selected) => selected == value,
                None => false,
            },
            FlowCondition::PreviousDecisionsEq { back, value } => match context.previous_num_decisions(back) {
                Some(decisions) => decisions == value,
                None => false,
            },
            FlowCondition::PreviousDecisionsGt { back, value } => match context.previous_num_decisions(back) {
                Some(decisions) => decisions > value,
                None => false,
            },
        }
    }
}

impl FlowEvalContext {
    pub fn previous_selected_option(&self, back: usize) -> (r: Option<usize>)
        ensures
            r == previous_selected_option_spec(self@, back),
    {
        if back == 0 || back - 1 >= self.previous_selected_options.len() {
            return None;
        }
        self.previous_selected_options[back - 1]
    }

    pub fn previous_num_decisions(&self, back: usize) -> (r: Option<usize>)
        ensures
            r == previous_num_decisions_spec(self@, back),
    {
        if back == 0 || back - 1 >= self.previous_num_decisions.len() {
            return None;
        }
        Some(self.previous_num_decisions[back - 1])
    }
}

impl RouteRule {
    pub fn matches(&self, context: &FlowEvalContext) -> (r: bool)
        ensures
            r == rule_matches(*self, context@),
    {
        let mut i: usize = 0;
        while i < self.when.len()
            invariant
                i <= self.when@.len(),
                forall|j: int| 0 <= j < i ==> condition_holds(#[trigger] self.when@[j], context@),
            decreases self.when.len() - i,
        {
            if !self.when[i].matches(context) {
                return false;
            }
            i = i + 1;
        }
        true
    }
}

impl RouteDefinition {
    /// The scenes that follow this route's dilemma: the scenes of the first rule, in declared
    /// order, whose conditions all hold; the default scenes when no rule holds.
    pub fn resolve_then<'a>(&'a self, context: &FlowEvalContext) -> (r: &'a Vec<SceneRef>)
        ensures
            r@ == resolved_scenes(*self, context@),
            (exists|i: int|
                #![trigger self.rules@[i]]
                0 <= i < self.rules@.len()
                && rule_matches(self.rules@[i], context@)
                && (forall|j: int| 0 <= j < i ==> !rule_matches(#[trigger] self.rules@[j], context@))
                && r@ == self.rules@[i].then_scenes@)
            || ((forall|j: int| 0 <= j < self.rules@.len() ==> !rule_matches(#[trigger] self.rules@[j], context@))
                && r@ == self.default_then@),
    {
        let mut i: usize = 0;
        assert(self.rules@.skip(0) =~= self.rules@);
        while i < self.rules.len()
            invariant
                i <= self.rules@.len(),
                forall|j: int| 0 <= j < i ==> !rule_matches(#[trigger] self.rules@[j], context@),
                first_match_scenes(self.rules@.skip(i as int), context@, self.default_then@)
                    == resolved_scenes(*self, context@),
            decreases self.rules.len() - i,
        {
            assert(self.rules@.skip(i as int)[0] == self.rules@[i as int]);
            if self.rules[i].matches(context) {
                return &self.rules[i].then_scenes;
            }
            assert(self.rules@.skip(i as int).drop_first() =~= self.rules@.skip(i + 1));
            i = i + 1;
        }
        assert(self.rules@.skip(i as int).len() == 0);
        &self.default_then
    }
}

} // verus!
