//! Checks that a campaign graph is well formed before play follows it.
use vstd::prelude::*;

use crate::ids::{typed_scene_ref_from, SceneIdParseError, SceneIdParseErrorView, TypedSceneRef};
use crate::schema::{RouteDefinition, RouteRule, SceneProgressionGraph, SceneRef, SceneRefView};
use crate::text::{decimal_spec, push_decimal, push_str, string_of};

verus! {

#[derive(Debug, Clone, PartialEq, Eq)]
pub enum GraphValidationError {
    DuplicateRouteSource { from: SceneRef },
    UnsupportedRouteSource { from: SceneRef },
    EmptyDefaultRoute { from: SceneRef },
    EmptyRuleRoute { from: SceneRef, rule_name: String },
    DuplicateRuleName { from: SceneRef, rule_name: String },
    UnknownSceneId { context: String, error: SceneIdParseError },
}

/// What a [`GraphValidationError`] reports.
pub enum GraphValidationErrorView {
    DuplicateRouteSource(SceneRefView),
    UnsupportedRouteSource(SceneRefView),
    EmptyDefaultRoute(SceneRefView),
    EmptyRuleRoute(SceneRefView, Seq<char>),
    DuplicateRuleName(SceneRefView, Seq<char>),
    UnknownSceneId(Seq<char>, SceneIdParseErrorView),
}

impl View for GraphValidationError {
    type V = GraphValidationErrorView;

    open spec fn view(&self) -> GraphValidationErrorView {
        match self {
            GraphValidationError::DuplicateRouteSource { from } => GraphValidationErrorView::DuplicateRouteSource(from@),
            GraphValidationError::UnsupportedRouteSource { from } => GraphValidationErrorView::UnsupportedRouteSource(from@),
            GraphValidationError::EmptyDefaultRoute { from } => GraphValidationErrorView::EmptyDefaultRoute(from@),
            GraphValidationError::EmptyRuleRoute { from, rule_name } => GraphValidationErrorView::EmptyRuleRoute(from@, rule_name@),
            GraphValidationError::DuplicateRuleName { from, rule_name } => GraphValidationErrorView::DuplicateRuleName(from@, rule_name@),
            GraphValidationError::UnknownSceneId { context, error } => GraphValidationErrorView::UnknownSceneId(context@, error@),
        }
    }
}

impl GraphValidationError {
    /// A copy with the same report.
    pub fn duplicate(&self) -> (r: GraphValidationError)
        ensures
            r@ == self@,
    {
        match self {
            GraphValidationError::DuplicateRouteSource { from } => GraphValidationError::DuplicateRouteSource { from: from.duplicate() },
            GraphValidationError::UnsupportedRouteSource { from } => GraphValidationError::UnsupportedRouteSource { from: from.duplicate() },
            GraphValidationError::EmptyDefaultRoute { from } => GraphValidationError::EmptyDefaultRoute { from: from.duplicate() },
            GraphValidationError::EmptyRuleRoute { from, rule_name } => GraphValidationError::EmptyRuleRoute {
                from: from.duplicate(),
                rule_name: rule_name.clone(),
            },
            GraphValidationError::DuplicateRuleName { from, rule_name } => GraphValidationError::DuplicateRuleName {
                from: from.duplicate(),
                rule_name: rule_name.clone(),
            },
            GraphValidationError::UnknownSceneId { context, error } => GraphValidationError::UnknownSceneId {
                context: context.clone(),
                error: error.duplicate(),
            },
        }
    }
}

/// The reports of a list of errors, in order.
pub open spec fn errors_view(errors: Seq<GraphValidationError>) -> Seq<GraphValidationErrorView> {
    errors.map_values(|e: GraphValidationError| e@)
}

/// The report on one scene reference: none when its id is known.
pub open spec fn ref_errors(scene: SceneRefView, context: Seq<char>) -> Seq<GraphValidationErrorView> {
    match typed_scene_ref_from(scene) {
        Ok(_) => Seq::empty(),
        Err(e) => seq![GraphValidationErrorView::UnknownSceneId(context, e)],
    }
}

/// Where the `i`th default scene stands: `route.default[i]`.
pub open spec fn default_context(i: nat) -> Seq<char> {
    "route.default["@ + decimal_spec(i) + "]"@
}

/// Where the `t`th scene of the `r`th rule stands: `route.rules[r].then[t]`.
pub open spec fn rule_scene_context(r: nat, t: nat) -> Seq<char> {
    "route.rules["@ + decimal_spec(r) + "].then["@ + decimal_spec(t) + "]"@
}

/// The reports on the first `n` default scenes.
pub open spec fn default_errors(scenes: Seq<SceneRef>, n: nat) -> Seq<GraphValidationErrorView>
    decreases n,
{
    if n == 0 {
        Seq::empty()
    } else {
        default_errors(scenes, (n - 1) as nat) + ref_errors(scenes[n - 1]@, default_context((n - 1) as nat))
    }
}

/// The reports on the first `n` scenes of the `r`th rule.
pub open spec fn rule_scene_errors(r: nat, scenes: Seq<SceneRef>, n: nat) -> Seq<GraphValidationErrorView>
    decreases n,
{
    if n == 0 {
        Seq::empty()
    } else {
        rule_scene_errors(r, scenes, (n - 1) as nat) + ref_errors(scenes[n - 1]@, rule_scene_context(r, (n - 1) as nat))
    }
}

/// Whether an earlier rule than the `k`th has the same name.
pub open spec fn rule_name_seen_before(rules: Seq<RouteRule>, k: int) -> bool {
    exists|j: int| 0 <= j < k && #[trigger] rules[j].name@ == rules[k].name@
}

/// The reports on the `k`th rule of a route from `from`.
pub open spec fn one_rule_errors(from: SceneRefView, rules: Seq<RouteRule>, k: int) -> Seq<GraphValidationErrorView> {
    (if rule_name_seen_before(rules, k) {
        seq![GraphValidationErrorView::DuplicateRuleName(from, rules[k].name@)]
    } else {
        Seq::empty()
    }) + (if rules[k].then_scenes@.len() == 0 {
        seq![GraphValidationErrorView::EmptyRuleRoute(from, rules[k].name@)]
    } else {
        Seq::empty()
    }) + rule_scene_errors(k as nat, rules[k].then_scenes@, rules[k].then_scenes@.len())
}

/// The reports on the first `n` rules of a route from `from`.
pub open spec fn rules_errors(from: SceneRefView, rules: Seq<RouteRule>, n: nat) -> Seq<GraphValidationErrorView>
    decreases n,
{
    if n == 0 {
        Seq::empty()
    } else {
        rules_errors(from, rules, (n - 1) as nat) + one_rule_errors(from, rules, n - 1)
    }
}

/// Whether `scene` names a known dilemma: only dilemmas may have routes.
pub open spec fn is_dilemma_source(scene: SceneRefView) -> bool {
    typed_scene_ref_from(scene) matches Ok(TypedSceneRef::Dilemma(_))
}

/// The reports on one route, in the order they are found: its source, whether the source is
/// a dilemma, an empty default, each default scene, then each rule.
pub open spec fn route_errors(route: RouteDefinition) -> Seq<GraphValidationErrorView> {
    ref_errors(route.from@, "route.from"@)
    + (if !is_dilemma_source(route.from@) {
        seq![GraphValidationErrorView::UnsupportedRouteSource(route.from@)]
    } else {
        Seq::empty()
    })
    + (if route.default_then@.len() == 0 {
        seq![GraphValidationErrorView::EmptyDefaultRoute(route.from@)]
    } else {
        Seq::empty()
    })
    + default_errors(route.default_then@, route.default_then@.len())
    + rules_errors(route.from@, route.rules@, route.rules@.len())
}

/// Whether an earlier route than the `k`th leaves from the same scene.
pub open spec fn route_source_seen_before(routes: Seq<RouteDefinition>, k: int) -> bool {
    exists|j: int| 0 <= j < k && #[trigger] routes[j].from@ == routes[k].from@
}

/// The reports on the first `n` routes.
pub open spec fn graph_errors(routes: Seq<RouteDefinition>, n: nat) -> Seq<GraphValidationErrorView>
    decreases n,
{
    if n == 0 {
        Seq::empty()
    } else {
        graph_errors(routes, (n - 1) as nat)
        + (if route_source_seen_before(routes, n - 1) {
            seq![GraphValidationErrorView::DuplicateRouteSource(routes[n - 1].from@)]
        } else {
            Seq::empty()
        })
        + route_errors(routes[n - 1])
    }
}

proof fn lemma_errors_view_push(v: Seq<GraphValidationError>, e: GraphValidationError)
    ensures
        errors_view(v.push(e)) == errors_view(v).push(e@),
{
    assert(errors_view(v.push(e)) =~= errors_view(v).push(e@));
}

fn push_error(errors: &mut Vec<GraphValidationError>, e: GraphValidationError)
    ensures
        errors_view(final(errors)@) == errors_view(old(errors)@).push(e@),
{
    proof {
        lemma_errors_view_push(errors@, e);
    }
    errors.push(e);
}

/// Every problem in `graph`, in the order found: per route, a repeated source first, then the
/// route's own problems.
pub fn validate_graph(graph: &SceneProgressionGraph) -> (errors: Vec<GraphValidationError>)
    ensures
        errors_view(errors@) == graph_errors(graph.routes@, graph.routes@.len()),
{
    let mut errors: Vec<GraphValidationError> = Vec::new();
    let mut k: usize = 0;
    assert(errors_view(errors@) =~= Seq::<GraphValidationErrorView>::empty());
    while k < graph.routes.len()
        invariant
            k <= graph.routes@.len(),
            errors_view(errors@) == graph_errors(graph.routes@, k as nat),
        decreases graph.routes.len() - k,
    {
        let route = &graph.routes[k];
        let mut seen = false;
        let mut j: usize = 0;
        while j < k
            invariant
                j <= k < graph.routes@.len(),
                route == graph.routes@[k as int],
                seen == exists|i: int| 0 <= i < j && #[trigger] graph.routes@[i].from@ == route.from@,
            decreases k - j,
        {
            if graph.routes[j].from.same_scene(&route.from) {
                seen = true;
            }
            j = j + 1;
        }
        let ghost before = errors_view(errors@);
        if seen {
            push_error(&mut errors, GraphValidationError::DuplicateRouteSource { from: route.from.duplicate() });
        }
        let ghost middle = errors_view(errors@);
        validate_route(route, &mut errors);
        assert(errors_view(errors@) =~= graph_errors(graph.routes@, (k + 1) as nat));
        k = k + 1;
    }
    errors
}

/// Appends the problems of one route to `errors`.
pub fn validate_route(route: &RouteDefinition, errors: &mut Vec<GraphValidationError>)
    ensures
        errors_view(final(errors)@) == errors_view(old(errors)@) + route_errors(*route),
{
    let ghost start = errors_view(errors@);
    validate_scene_ref(&route.from, "route.from", errors);
    let typed = TypedSceneRef::try_from(&route.from);
    let is_dilemma = match typed {
        Ok(TypedSceneRef::Dilemma(_)) => true,
        _ => false,
    };
    if !is_dilemma {
        push_error(errors, GraphValidationError::UnsupportedRouteSource { from: route.from.duplicate() });
    }
    if route.default_then.len() == 0 {
        push_error(errors, GraphValidationError::EmptyDefaultRoute { from: route.from.duplicate() });
    }
    let ghost after_head = errors_view(errors@);
    let mut i: usize = 0;
    while i < route.default_then.len()
        invariant
            i <= route.default_then@.len(),
            errors_view(errors@) == after_head + default_errors(route.default_then@, i as nat),
        decreases route.default_then.len() - i,
    {
        let mut context = string_of("route.default[");
        push_decimal(&mut context, i);
        push_str(&mut context, "]");
        validate_scene_ref(&route.default_then[i], context.as_str(), errors);
        assert(errors_view(errors@) =~= after_head + default_errors(route.default_then@, (i + 1) as nat));
        i = i + 1;
    }
    let ghost after_defaults = errors_view(errors@);
    let mut r: usize = 0;
    while r < route.rules.len()
        invariant
            r <= route.rules@.len(),
            errors_view(errors@) == after_defaults + rules_errors(route.from@, route.rules@, r as nat),
        decreases route.rules.len() - r,
    {
        let rule = &route.rules[r];
        let ghost before_rule = errors_view(errors@);
        let mut seen = false;
        let mut j: usize = 0;
        while j < r
            invariant
                j <= r < route.rules@.len(),
                rule == route.rules@[r as int],
                seen == exists|i: int| 0 <= i < j && #[trigger] route.rules@[i].name@ == rule.name@,
            decreases r - j,
        {
            if String::eq(&route.rules[j].name, &rule.name) {
                seen = true;
            }
            j = j + 1;
        }
        if seen {
            push_error(errors, GraphValidationError::DuplicateRuleName {
                from: route.from.duplicate(),
                rule_name: rule.name.clone(),
            });
        }
        if rule.then_scenes.len() == 0 {
            push_error(errors, GraphValidationError::EmptyRuleRoute {
                from: route.from.duplicate(),
                rule_name: rule.name.clone(),
            });
        }
        let ghost after_rule_head = errors_view(errors@);
        let mut t: usize = 0;
        while t < rule.then_scenes.len()
            invariant
                t <= rule.then_scenes@.len(),
                errors_view(errors@) == after_rule_head + rule_scene_errors(r as nat, rule.then_scenes@, t as nat),
            decreases rule.then_scenes.len() - t,
        {
            let mut context = string_of("route.rules[");
            push_decimal(&mut context, r);
            push_str(&mut context, "].then[");
            push_decimal(&mut context, t);
            push_str(&mut context, "]");
            validate_scene_ref(&rule.then_scenes[t], context.as_str(), errors);
            assert(errors_view(errors@) =~= after_rule_head + rule_scene_errors(r as nat, rule.then_scenes@, (t + 1) as nat));
            t = t + 1;
        }
        assert(errors_view(errors@) =~= after_defaults + rules_errors(route.from@, route.rules@, (r + 1) as nat));
        r = r + 1;
    }
    assert(errors_view(errors@) =~= start + route_errors(*route));
}

/// Appends a report on `scene_ref` when its id is unknown.
pub fn validate_scene_ref(scene_ref: &SceneRef, context: &str, errors: &mut Vec<GraphValidationError>)
    ensures
        errors_view(final(errors)@) == errors_view(old(errors)@) + ref_errors(scene_ref@, context@),
{
    match TypedSceneRef::try_from(scene_ref) {
        Ok(_) => {
            assert(errors_view(errors@) + ref_errors(scene_ref@, context@) =~= errors_view(errors@));
        },
        Err(error) => {
            let ghost before = errors_view(errors@);
            push_error(errors, GraphValidationError::UnknownSceneId { context: string_of(context), error });
            assert(errors_view(errors@) =~= before + ref_errors(scene_ref@, context@));
        },
    }
}

/// The reports on the first `m` routes come first among those on the first `n`.
proof fn lemma_graph_errors_prefix(routes: Seq<RouteDefinition>, m: nat, n: nat)
    requires
        m <= n,
    ensures
        graph_errors(routes, m).len() <= graph_errors(routes, n).len(),
        forall|i: int| 0 <= i < graph_errors(routes, m).len()
            ==> graph_errors(routes, n)[i] == graph_errors(routes, m)[i],
    decreases n - m,
{
    if m < n {
        lemma_graph_errors_prefix(routes, m, (n - 1) as nat);
    }
}

/// Two routes that leave from the same scene are reported: the later of them, whichever
/// routes stand between them, gives a duplicate-source report.
pub proof fn lemma_repeated_source_is_reported(routes: Seq<RouteDefinition>, j: int, k: int)
    requires
        0 <= j < k < routes.len(),
        routes[j].from@ == routes[k].from@,
    ensures
        graph_errors(routes, routes.len()).contains(GraphValidationErrorView::DuplicateRouteSource(routes[k].from@)),
{
    let before = graph_errors(routes, k as nat);
    let upto = graph_errors(routes, (k + 1) as nat);
    assert(routes[j].from@ == routes[k].from@);
    assert(route_source_seen_before(routes, k));
    assert(upto[before.len() as int] == GraphValidationErrorView::DuplicateRouteSource(routes[k].from@));
    lemma_graph_errors_prefix(routes, (k + 1) as nat, routes.len());
    let all = graph_errors(routes, routes.len());
    assert(all[before.len() as int] == GraphValidationErrorView::DuplicateRouteSource(routes[k].from@));
}

/// A graph with nothing to report has routes that all leave from different scenes.
pub proof fn lemma_clean_graph_has_distinct_sources(routes: Seq<RouteDefinition>)
    requires
        graph_errors(routes, routes.len()).len() == 0,
    ensures
        forall|j: int, k: int| 0 <= j < k < routes.len() ==> routes[j].from@ != routes[k].from@,
{
    assert forall|j: int, k: int| 0 <= j < k < routes.len() implies routes[j].from@ != routes[k].from@ by {
        if routes[j].from@ == routes[k].from@ {
            lemma_repeated_source_is_reported(routes, j, k);
        }
    }
}

} // verus!
