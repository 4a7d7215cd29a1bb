//! Renders the campaign graph as Mermaid flowcharts inside an HTML viewer page.
use vstd::prelude::*;

use crate::ids::parse_error_message;
use crate::schema::{RouteDefinition, RouteRule, SceneProgressionGraph, SceneRef, SceneRefView};
use crate::text::{
    chars_eq, chars_lt, chars_of, chars_start_with, decimal_spec, lemma_seq_lt_irreflexive,
    lemma_seq_lt_total, lemma_seq_lt_transitive, push_char, push_decimal, push_str,
    seq_lt, string_of, views_of,
};
use crate::validate::{GraphValidationError, GraphValidationErrorView};

verus! {

/// How many routes were drawn and how many problems were found.
#[derive(Debug, Clone, Copy, PartialEq, Eq, Structural)]
pub struct CampaignGraphExportSummary {
    pub route_count: usize,
    pub validation_error_count: usize,
}

/// Which routes a diagram shows, by the dilemma they leave from.
#[derive(Debug, Clone, Copy, PartialEq, Eq, Structural)]
pub enum RouteFilter {
    All,
    Lab,
    Inaction,
    Deontological,
    Utilitarian,
}

/// The diagrams of the viewer, in tab order.
pub open spec fn filter_order() -> Seq<RouteFilter> {
    seq![RouteFilter::All, RouteFilter::Lab, RouteFilter::Inaction, RouteFilter::Deontological, RouteFilter::Utilitarian]
}

pub open spec fn filter_key(filter: RouteFilter) -> Seq<char> {
    match filter {
        RouteFilter::All => "all"@,
        RouteFilter::Lab => "lab"@,
        RouteFilter::Inaction => "inaction"@,
        RouteFilter::Deontological => "deontological"@,
        RouteFilter::Utilitarian => "utilitarian"@,
    }
}

pub open spec fn filter_title(filter: RouteFilter) -> Seq<char> {
    match filter {
        RouteFilter::All => "All Routes"@,
        RouteFilter::Lab => "Lab Routes"@,
        RouteFilter::Inaction => "Inaction Path Routes"@,
        RouteFilter::Deontological => "Deontological Path Routes"@,
        RouteFilter::Utilitarian => "Utilitarian Path Routes"@,
    }
}

/// Whether `s` begins with `prefix`.
pub open spec fn starts_with(s: Seq<char>, prefix: Seq<char>) -> bool {
    prefix.len() <= s.len() && s.subrange(0, prefix.len() as int) == prefix
}

/// Whether `filter` keeps a route from `from`: all routes, or a route from a dilemma whose id
/// begins with the filter's prefix.
pub open spec fn filter_keeps(filter: RouteFilter, from: SceneRefView) -> bool {
    match filter {
        RouteFilter::All => true,
        _ => match from {
            SceneRefView::Dilemma(id) => match filter {
                RouteFilter::Lab => starts_with(id, "lab_"@),
                RouteFilter::Inaction => starts_with(id, "path_inaction."@),
                RouteFilter::Deontological => starts_with(id, "path_deontological."@),
                RouteFilter::Utilitarian => starts_with(id, "path_utilitarian."@),
                RouteFilter::All => true,
            },
            _ => false,
        },
    }
}

impl RouteFilter {
    pub fn order() -> (r: Vec<RouteFilter>)
        ensures
            r@ == filter_order(),
    {
        let mut r: Vec<RouteFilter> = Vec::new();
        r.push(RouteFilter::All);
        r.push(RouteFilter::Lab);
        r.push(RouteFilter::Inaction);
        r.push(RouteFilter::Deontological);
        r.push(RouteFilter::Utilitarian);
        assert(r@ =~= filter_order());
        r
    }

    pub fn key(self) -> (r: &'static str)
        ensures
            r@ == filter_key(self),
    {
        match self {
            RouteFilter::All => "all",
            RouteFilter::Lab => "lab",
            RouteFilter::Inaction => "inaction",
            RouteFilter::Deontological => "deontological",
            RouteFilter::Utilitarian => "utilitarian",
        }
    }

    pub fn title(self) -> (r: &'static str)
        ensures
            r@ == filter_title(self),
    {
        match self {
            RouteFilter::All => "All Routes",
            RouteFilter::Lab => "Lab Routes",
            RouteFilter::Inaction => "Inaction Path Routes",
            RouteFilter::Deontological => "Deontological Path Routes",
            RouteFilter::Utilitarian => "Utilitarian Path Routes",
        }
    }

    pub fn matches_route(self, route: &RouteDefinition) -> (r: bool)
        ensures
            r == filter_keeps(self, route.from@),
    {
        if self == RouteFilter::All {
            return true;
        }
        let id = match &route.from {
            SceneRef::Dilemma { id } => id,
            _ => return false,
        };
        let chars = chars_of(id.as_str());
        match self {
            RouteFilter::All => true,
            RouteFilter::Lab => chars_start_with(&chars, "lab_"),
            RouteFilter::Inaction => chars_start_with(&chars, "path_inaction."),
            RouteFilter::Deontological => chars_start_with(&chars, "path_deontological."),
            RouteFilter::Utilitarian => chars_start_with(&chars, "path_utilitarian."),
        }
    }
}

/// The key that tells scenes apart in a diagram: `menu`, `loading`, or the kind, a colon and the id.
pub open spec fn scene_key_spec(scene: SceneRefView) -> Seq<char> {
    match scene {
        SceneRefView::Menu => "menu"@,
        SceneRefView::Loading => "loading"@,
        SceneRefView::Dialogue(id) => "dialogue:"@ + id,
        SceneRefView::Dilemma(id) => "dilemma:"@ + id,
        SceneRefView::Ending(id) => "ending:"@ + id,
    }
}

/// The label a scene's node shows.
pub open spec fn scene_label_spec(scene: SceneRefView) -> Seq<char> {
    match scene {
        SceneRefView::Menu => "Menu"@,
        SceneRefView::Loading => "Loading"@,
        SceneRefView::Dialogue(id) => "Dialogue: "@ + id,
        SceneRefView::Dilemma(id) => "Dilemma: "@ + id,
        SceneRefView::Ending(id) => "Ending: "@ + id,
    }
}

/// The style class of a scene's node.
pub open spec fn scene_css_class_spec(scene: SceneRefView) -> Seq<char> {
    match scene {
        SceneRefView::Menu => "scene_menu"@,
        SceneRefView::Loading => "scene_loading"@,
        SceneRefView::Dialogue(_) => "scene_dialogue"@,
        SceneRefView::Dilemma(_) => "scene_dilemma"@,
        SceneRefView::Ending(_) => "scene_ending"@,
    }
}

pub fn scene_key(scene: &SceneRef) -> (r: String)
    ensures
        r@ == scene_key_spec(scene@),
{
    match scene {
        SceneRef::Menu => string_of("menu"),
        SceneRef::Loading => string_of("loading"),
        SceneRef::Dialogue { id } => {
            let mut r = string_of("dialogue:");
            push_str(&mut r, id.as_str());
            r
        },
        SceneRef::Dilemma { id } => {
            let mut r = string_of("dilemma:");
            push_str(&mut r, id.as_str());
            r
        },
        SceneRef::Ending { id } => {
            let mut r = string_of("ending:");
            push_str(&mut r, id.as_str());
            r
        },
    }
}

pub fn scene_label(scene: &SceneRef) -> (r: String)
    ensures
        r@ == scene_label_spec(scene@),
{
    match scene {
        SceneRef::Menu => string_of("Menu"),
        SceneRef::Loading => string_of("Loading"),
        SceneRef::Dialogue { id } => {
            let mut r = string_of("Dialogue: ");
            push_str(&mut r, id.as_str());
            r
        },
        SceneRef::Dilemma { id } => {
            let mut r = string_of("Dilemma: ");
            push_str(&mut r, id.as_str());
            r
        },
        SceneRef::Ending { id } => {
            let mut r = string_of("Ending: ");
            push_str(&mut r, id.as_str());
            r
        },
    }
}

pub fn scene_css_class(scene: &SceneRef) -> (r: &'static str)
    ensures
        r@ == scene_css_class_spec(scene@),
{
    match scene {
        SceneRef::Menu => "scene_menu",
        SceneRef::Loading => "scene_loading",
        SceneRef::Dialogue { .. } => "scene_dialogue",
        SceneRef::Dilemma { .. } => "scene_dilemma",
        SceneRef::Ending { .. } => "scene_ending",
    }
}

/// What one character becomes in a Mermaid label: `&`, `<`, `>` are spelled out, `|` becomes
/// `/`, quotes and backquotes are dropped.
pub open spec fn mermaid_char(c: char) -> Seq<char> {
    if c == '&' {
        " and "@
    } else if c == '<' {
        " lt "@
    } else if c == '>' {
        " gt "@
    } else if c == '|' {
        "/"@
    } else if c == '"' || c == '`' {
        Seq::empty()
    } else {
        seq![c]
    }
}

/// `s` made safe for a Mermaid label, one character at a time.
pub open spec fn mermaid_text(s: Seq<char>) -> Seq<char>
    decreases s.len(),
{
    if s.len() == 0 {
        Seq::empty()
    } else {
        mermaid_text(s.drop_last()) + mermaid_char(s.last())
    }
}

/// What one character becomes in HTML text: `&`, `<`, `>` become entities.
pub open spec fn html_char(c: char) -> Seq<char> {
    if c == '&' {
        "&amp;"@
    } else if c == '<' {
        "&lt;"@
    } else if c == '>' {
        "&gt;"@
    } else {
        seq![c]
    }
}

/// `s` made safe for HTML text, one character at a time.
pub open spec fn html_text(s: Seq<char>) -> Seq<char>
    decreases s.len(),
{
    if s.len() == 0 {
        Seq::empty()
    } else {
        html_text(s.drop_last()) + html_char(s.last())
    }
}

/// The characters that would end or break a Mermaid label.
pub open spec fn breaks_mermaid(c: char) -> bool {
    c == '&' || c == '<' || c == '>' || c == '|' || c == '"' || c == '`'
}

/// A sanitized Mermaid label holds no character that would end or break it.
pub proof fn lemma_mermaid_text_is_safe(s: Seq<char>)
    ensures
        forall|i: int| 0 <= i < mermaid_text(s).len() ==> !breaks_mermaid(#[trigger] mermaid_text(s)[i]),
    decreases s.len(),
{
    if s.len() > 0 {
        lemma_mermaid_text_is_safe(s.drop_last());
        reveal_strlit(" and ");
        reveal_strlit(" lt ");
        reveal_strlit(" gt ");
        reveal_strlit("/");
        let prev = mermaid_text(s.drop_last());
        let tail = mermaid_char(s.last());
        assert forall|i: int| 0 <= i < mermaid_text(s).len() implies !breaks_mermaid(#[trigger] mermaid_text(s)[i]) by {
            if i >= prev.len() {
                assert(mermaid_text(s)[i] == tail[i - prev.len()]);
            } else {
                assert(mermaid_text(s)[i] == prev[i]);
            }
        }
    }
}

/// HTML-escaped text holds no angle bracket, so it cannot open or close a tag.
pub proof fn lemma_html_text_has_no_tags(s: Seq<char>)
    ensures
        forall|i: int| 0 <= i < html_text(s).len() ==> #[trigger] html_text(s)[i] != '<' && html_text(s)[i] != '>',
    decreases s.len(),
{
    if s.len() > 0 {
        lemma_html_text_has_no_tags(s.drop_last());
        reveal_strlit("&amp;");
        reveal_strlit("&lt;");
        reveal_strlit("&gt;");
        let prev = html_text(s.drop_last());
        let tail = html_char(s.last());
        assert forall|i: int| 0 <= i < html_text(s).len() implies #[trigger] html_text(s)[i] != '<' && html_text(s)[i] != '>' by {
            if i >= prev.len() {
                assert(html_text(s)[i] == tail[i - prev.len()]);
            } else {
                assert(html_text(s)[i] == prev[i]);
            }
        }
    }
}

/// `s` with each underscore read as a space.
pub open spec fn spaced_text(s: Seq<char>) -> Seq<char>
    decreases s.len(),
{
    if s.len() == 0 {
        Seq::empty()
    } else {
        spaced_text(s.drop_last()).push(if s.last() == '_' { ' ' } else { s.last() })
    }
}

pub fn sanitize_mermaid_label_text(input: &str) -> (r: String)
    ensures
        r@ == mermaid_text(input@),
{
    let chars = chars_of(input);
    let mut out = String::new();
    let mut i: usize = 0;
    while i < chars.len()
        invariant
            chars@ == input@,
            i <= chars@.len(),
            out@ == mermaid_text(chars@.subrange(0, i as int)),
        decreases chars.len() - i,
    {
        let c = chars[i];
        let ghost next = chars@.subrange(0, i + 1);
        assert(next.drop_last() =~= chars@.subrange(0, i as int));
        if c == '&' {
            push_str(&mut out, " and ");
        } else if c == '<' {
            push_str(&mut out, " lt ");
        } else if c == '>' {
            push_str(&mut out, " gt ");
        } else if c == '|' {
            push_str(&mut out, "/");
        } else if c == '"' || c == '`' {
            assert(out@ + Seq::<char>::empty() =~= out@);
        } else {
            push_char(&mut out, c);
            assert(out@ =~= mermaid_text(chars@.subrange(0, i as int)) + seq![c]);
        }
        i = i + 1;
    }
    assert(chars@.subrange(0, chars@.len() as int) =~= chars@);
    out
}

pub fn sanitize_mermaid_node_label(input: &str) -> (r: String)
    ensures
        r@ == mermaid_text(input@),
{
    sanitize_mermaid_label_text(input)
}

pub fn sanitize_mermaid_edge_label(input: &str) -> (r: String)
    ensures
        r@ == mermaid_text(input@),
{
    sanitize_mermaid_label_text(input)
}

pub fn escape_html(input: &str) -> (r: String)
    ensures
        r@ == html_text(input@),
{
    let chars = chars_of(input);
    let mut out = String::new();
    let mut i: usize = 0;
    while i < chars.len()
        invariant
            chars@ == input@,
            i <= chars@.len(),
            out@ == html_text(chars@.subrange(0, i as int)),
        decreases chars.len() - i,
    {
        let c = chars[i];
        let ghost next = chars@.subrange(0, i + 1);
        assert(next.drop_last() =~= chars@.subrange(0, i as int));
        if c == '&' {
            push_str(&mut out, "&amp;");
        } else if c == '<' {
            push_str(&mut out, "&lt;");
        } else if c == '>' {
            push_str(&mut out, "&gt;");
        } else {
            push_char(&mut out, c);
            assert(out@ =~= html_text(chars@.subrange(0, i as int)) + seq![c]);
        }
        i = i + 1;
    }
    assert(chars@.subrange(0, chars@.len() as int) =~= chars@);
    out
}

/// The label of the edge into a rule's first scene: `rule ` and the rule's name, made safe and
/// with underscores read as spaces.
pub open spec fn rule_entry_label_spec(name: Seq<char>) -> Seq<char> {
    "rule "@ + spaced_text(mermaid_text(name))
}

pub fn rule_entry_label(rule: &RouteRule) -> (r: String)
    ensures
        r@ == rule_entry_label_spec(rule.name@),
{
    let sanitized = sanitize_mermaid_label_text(rule.name.as_str());
    let chars = chars_of(sanitized.as_str());
    let mut out = string_of("rule ");
    let ghost head = out@;
    let mut i: usize = 0;
    while i < chars.len()
        invariant
            chars@ == mermaid_text(rule.name@),
            head == "rule "@,
            i <= chars@.len(),
            out@ == head + spaced_text(chars@.subrange(0, i as int)),
        decreases chars.len() - i,
    {
        let c = chars[i];
        let ghost next = chars@.subrange(0, i + 1);
        assert(next.drop_last() =~= chars@.subrange(0, i as int));
        if c == '_' {
            push_char(&mut out, ' ');
        } else {
            push_char(&mut out, c);
        }
        assert(out@ =~= head + spaced_text(next));
        i = i + 1;
    }
    assert(chars@.subrange(0, chars@.len() as int) =~= chars@);
    out
}

/// The sentence that describes a validation problem.
pub open spec fn describe_spec(error: GraphValidationErrorView) -> Seq<char> {
    match error {
        GraphValidationErrorView::DuplicateRouteSource(from) =>
            "duplicate route source: "@ + scene_key_spec(from),
        GraphValidationErrorView::UnsupportedRouteSource(from) =>
            "unsupported route source (must be dilemma): "@ + scene_key_spec(from),
        GraphValidationErrorView::EmptyDefaultRoute(from) =>
            "empty default route for source: "@ + scene_key_spec(from),
        GraphValidationErrorView::EmptyRuleRoute(from, name) =>
            "empty rule route for source "@ + scene_key_spec(from) + " rule `"@ + name + "`"@,
        GraphValidationErrorView::DuplicateRuleName(from, name) =>
            "duplicate rule name for source "@ + scene_key_spec(from) + " rule `"@ + name + "`"@,
        GraphValidationErrorView::UnknownSceneId(context, e) =>
            "unknown scene id at "@ + context + ": "@ + parse_error_message(e),
    }
}

pub fn describe_validation_error(error: &GraphValidationError) -> (r: String)
    ensures
        r@ == describe_spec(error@),
{
    match error {
        GraphValidationError::DuplicateRouteSource { from } => {
            let mut r = string_of("duplicate route source: ");
            let key = scene_key(from);
            push_str(&mut r, key.as_str());
            r
        },
        GraphValidationError::UnsupportedRouteSource { from } => {
            let mut r = string_of("unsupported route source (must be dilemma): ");
            let key = scene_key(from);
            push_str(&mut r, key.as_str());
            r
        },
        GraphValidationError::EmptyDefaultRoute { from } => {
            let mut r = string_of("empty default route for source: ");
            let key = scene_key(from);
            push_str(&mut r, key.as_str());
            r
        },
        GraphValidationError::EmptyRuleRoute { from, rule_name } => {
            let mut r = string_of("empty rule route for source ");
            let key = scene_key(from);
            push_str(&mut r, key.as_str());
            push_str(&mut r, " rule `");
            push_str(&mut r, rule_name.as_str());
            push_str(&mut r, "`");
            r
        },
        GraphValidationError::DuplicateRuleName { from, rule_name } => {
            let mut r = string_of("duplicate rule name for source ");
            let key = scene_key(from);
            push_str(&mut r, key.as_str());
            push_str(&mut r, " rule `");
            push_str(&mut r, rule_name.as_str());
            push_str(&mut r, "`");
            r
        },
        GraphValidationError::UnknownSceneId { context, error } => {
            let mut r = string_of("unknown scene id at ");
            push_str(&mut r, context.as_str());
            push_str(&mut r, ": ");
            let message = error.to_string();
            push_str(&mut r, message.as_str());
            r
        },
    }
}


/// An arrow of a diagram: between two scenes, with a label.
#[derive(Debug, Clone)]
pub struct EdgeLine {
    pub from: SceneRef,
    pub to: SceneRef,
    pub label: String,
}

/// What an [`EdgeLine`] draws.
pub struct EdgeView {
    pub from: SceneRefView,
    pub to: SceneRefView,
    pub label: Seq<char>,
}

impl View for EdgeLine {
    type V = EdgeView;

    open spec fn view(&self) -> EdgeView {
        EdgeView { from: self.from@, to: self.to@, label: self.label@ }
    }
}

/// The scenes that a list of references names.
pub open spec fn scene_views(s: Seq<SceneRef>) -> Seq<SceneRefView> {
    s.map_values(|r: SceneRef| r@)
}

/// What a list of arrows draws.
pub open spec fn edge_views(s: Seq<EdgeLine>) -> Seq<EdgeView> {
    s.map_values(|e: EdgeLine| e@)
}

/// The arrows of a sequence of scenes that follows `from`: into the first scene with
/// `first_label`, then from each scene to the next with `then`.
pub open spec fn sequence_edges(from: SceneRefView, scenes: Seq<SceneRefView>, first_label: Seq<char>) -> Seq<EdgeView> {
    if scenes.len() == 0 {
        Seq::empty()
    } else {
        seq![EdgeView { from, to: scenes[0], label: first_label }]
        + Seq::new((scenes.len() - 1) as nat, |i: int| EdgeView { from: scenes[i], to: scenes[i + 1], label: "then"@ })
    }
}

/// The arrows of the first `n` rules of a route from `from`.
pub open spec fn rules_edges(from: SceneRefView, rules: Seq<RouteRule>, n: nat) -> Seq<EdgeView>
    decreases n,
{
    if n == 0 {
        Seq::empty()
    } else {
        rules_edges(from, rules, (n - 1) as nat)
        + sequence_edges(from, scene_views(rules[n - 1].then_scenes@), rule_entry_label_spec(rules[n - 1].name@))
    }
}

/// The arrows of a route: those of each rule, then those of the default scenes.
pub open spec fn route_edges(route: RouteDefinition) -> Seq<EdgeView> {
    rules_edges(route.from@, route.rules@, route.rules@.len())
    + sequence_edges(route.from@, scene_views(route.default_then@), "default"@)
}

/// The arrows of the first `n` routes that `filter` keeps.
pub open spec fn filtered_edges(routes: Seq<RouteDefinition>, filter: RouteFilter, n: nat) -> Seq<EdgeView>
    decreases n,
{
    if n == 0 {
        Seq::empty()
    } else {
        filtered_edges(routes, filter, (n - 1) as nat)
        + if filter_keeps(filter, routes[n - 1].from@) { route_edges(routes[n - 1]) } else { Seq::empty() }
    }
}

proof fn lemma_edge_views_push(v: Seq<EdgeLine>, e: EdgeLine)
    ensures
        edge_views(v.push(e)) == edge_views(v).push(e@),
{
    assert(edge_views(v.push(e)) =~= edge_views(v).push(e@));
}

/// Appends the arrows of `then_scenes` following `from` to `edges`.
pub fn push_sequence_edges(from: SceneRef, then_scenes: &Vec<SceneRef>, first_label: String, edges: &mut Vec<EdgeLine>)
    ensures
        edge_views(final(edges)@) == edge_views(old(edges)@)
            + sequence_edges(from@, scene_views(then_scenes@), first_label@),
{
    if then_scenes.len() == 0 {
        assert(edge_views(edges@) + sequence_edges(from@, scene_views(then_scenes@), first_label@) =~= edge_views(edges@));
        return;
    }
    let ghost start = edge_views(edges@);
    let ghost views = scene_views(then_scenes@);
    let first = EdgeLine { from: from.duplicate(), to: then_scenes[0].duplicate(), label: first_label };
    proof {
        lemma_edge_views_push(edges@, first);
    }
    edges.push(first);
    let mut i: usize = 1;
    while i < then_scenes.len()
        invariant
            1 <= i <= then_scenes@.len(),
            views == scene_views(then_scenes@),
            edge_views(edges@) == start
                + seq![EdgeView { from: from@, to: views[0], label: first_label@ }]
                + Seq::new((i - 1) as nat, |j: int| EdgeView { from: views[j], to: views[j + 1], label: "then"@ }),
        decreases then_scenes.len() - i,
    {
        let edge = EdgeLine {
            from: then_scenes[i - 1].duplicate(),
            to: then_scenes[i].duplicate(),
            label: string_of("then"),
        };
        let ghost before = edge_views(edges@);
        proof {
            lemma_edge_views_push(edges@, edge);
        }
        edges.push(edge);
        assert(edge_views(edges@) =~= start
            + seq![EdgeView { from: from@, to: views[0], label: first_label@ }]
            + Seq::new(i as nat, |j: int| EdgeView { from: views[j], to: views[j + 1], label: "then"@ }));
        i = i + 1;
    }
    assert(edge_views(edges@) =~= start + sequence_edges(from@, views, first_label@));
}

/// Appends the arrows of `route` to `edges`.
pub fn build_route_edges(route: &RouteDefinition, edges: &mut Vec<EdgeLine>)
    ensures
        edge_views(final(edges)@) == edge_views(old(edges)@) + route_edges(*route),
{
    let ghost start = edge_views(edges@);
    let mut k: usize = 0;
    while k < route.rules.len()
        invariant
            k <= route.rules@.len(),
            edge_views(edges@) == start + rules_edges(route.from@, route.rules@, k as nat),
        decreases route.rules.len() - k,
    {
        let rule = &route.rules[k];
        let first_label = rule_entry_label(rule);
        push_sequence_edges(route.from.duplicate(), &rule.then_scenes, first_label, edges);
        assert(edge_views(edges@) =~= start + rules_edges(route.from@, route.rules@, (k + 1) as nat));
        k = k + 1;
    }
    push_sequence_edges(route.from.duplicate(), &route.default_then, string_of("default"), edges);
    assert(edge_views(edges@) =~= start + route_edges(*route));
}

/// The arrows of all routes of `graph` that `filter` keeps.
pub fn collect_edges(graph: &SceneProgressionGraph, filter: RouteFilter) -> (edges: Vec<EdgeLine>)
    ensures
        edge_views(edges@) == filtered_edges(graph.routes@, filter, graph.routes@.len()),
{
    let mut edges: Vec<EdgeLine> = Vec::new();
    let mut k: usize = 0;
    assert(edge_views(edges@) =~= Seq::<EdgeView>::empty());
    while k < graph.routes.len()
        invariant
            k <= graph.routes@.len(),
            edge_views(edges@) == filtered_edges(graph.routes@, filter, k as nat),
        decreases graph.routes.len() - k,
    {
        let route = &graph.routes[k];
        if filter.matches_route(route) {
            build_route_edges(route, &mut edges);
        } else {
            assert(edge_views(edges@) + Seq::<EdgeView>::empty() =~= edge_views(edges@));
        }
        assert(edge_views(edges@) =~= filtered_edges(graph.routes@, filter, (k + 1) as nat));
        k = k + 1;
    }
    edges
}

/// Whether `scene` is at one end of one of `edges`.
pub open spec fn is_endpoint(edges: Seq<EdgeView>, scene: SceneRefView) -> bool {
    exists|e: int| 0 <= e < edges.len() && (#[trigger] edges[e].from == scene || edges[e].to == scene)
}

/// Whether `keys` lists, in strictly increasing order, the keys of the scenes at the ends of
/// `edges`, with `scenes[i]` the scene of `keys[i]`.
pub open spec fn node_listing(keys: Seq<Seq<char>>, scenes: Seq<SceneRefView>, edges: Seq<EdgeView>) -> bool {
    &&& keys.len() == scenes.len()
    &&& forall|i: int, j: int| 0 <= i < j < keys.len() ==> seq_lt(#[trigger] keys[i], #[trigger] keys[j])
    &&& forall|i: int| 0 <= i < keys.len() ==> #[trigger] keys[i] == scene_key_spec(scenes[i])
    &&& forall|i: int| 0 <= i < scenes.len() ==> is_endpoint(edges, #[trigger] scenes[i])
    &&& forall|e: int| 0 <= e < edges.len() ==> keys.contains(scene_key_spec(#[trigger] edges[e].from))
        && keys.contains(scene_key_spec(edges[e].to))
}

/// The position of `key` in `keys`.
pub open spec fn key_index(keys: Seq<Seq<char>>, key: Seq<char>) -> int {
    choose|i: int| 0 <= i < keys.len() && keys[i] == key
}

/// The node line of the `i`th scene.
pub open spec fn node_line(i: nat, scene: SceneRefView) -> Seq<char> {
    "    N"@ + decimal_spec(i) + "[\""@ + mermaid_text(scene_label_spec(scene)) + "\"]:::"@
        + scene_css_class_spec(scene) + "\n"@
}

/// The node lines of the first `n` scenes.
pub open spec fn node_lines(scenes: Seq<SceneRefView>, n: nat) -> Seq<char>
    decreases n,
{
    if n == 0 { Seq::empty() } else { node_lines(scenes, (n - 1) as nat) + node_line((n - 1) as nat, scenes[n - 1]) }
}

/// The line of an arrow between the nodes of its ends, labelled when the label is not empty.
pub open spec fn edge_line(edge: EdgeView, keys: Seq<Seq<char>>) -> Seq<char> {
    let a = decimal_spec(key_index(keys, scene_key_spec(edge.from)) as nat);
    let b = decimal_spec(key_index(keys, scene_key_spec(edge.to)) as nat);
    let label = mermaid_text(edge.label);
    if label.len() == 0 {
        "    N"@ + a + " --> N"@ + b + "\n"@
    } else {
        "    N"@ + a + " -->|"@ + label + "| N"@ + b + "\n"@
    }
}

/// The lines of the first `n` arrows.
pub open spec fn edge_lines(edges: Seq<EdgeView>, keys: Seq<Seq<char>>, n: nat) -> Seq<char>
    decreases n,
{
    if n == 0 { Seq::empty() } else { edge_lines(edges, keys, (n - 1) as nat) + edge_line(edges[n - 1], keys) }
}

/// The diagram shown when a filter keeps no arrow.
pub open spec fn empty_diagram() -> Seq<char> {
    "flowchart TD\n    empty[\"No routes for this filter\"]"@
}

/// The style classes of the five kinds of scene.
pub open spec fn class_defs() -> Seq<char> {
    "    classDef scene_menu fill:#6fa8dc,stroke:#1b3b5a,color:#0f1117;\n"@
    + "    classDef scene_loading fill:#ffe599,stroke:#8f6c00,color:#0f1117;\n"@
    + "    classDef scene_dialogue fill:#b4a7d6,stroke:#4d3f71,color:#0f1117;\n"@
    + "    classDef scene_dilemma fill:#93c47d,stroke:#2f5b23,color:#0f1117;\n"@
    + "    classDef scene_ending fill:#ea9999,stroke:#7a2f2f,color:#0f1117;\n"@
}

/// A diagram: a node per scene in key order, then an arrow per edge in order, then the styles.
pub open spec fn render_diagram(edges: Seq<EdgeView>, keys: Seq<Seq<char>>, scenes: Seq<SceneRefView>) -> Seq<char> {
    "flowchart TD\n"@ + node_lines(scenes, scenes.len()) + edge_lines(edges, keys, edges.len()) + "\n"@ + class_defs()
}

/// The diagram of the routes of `routes` that `filter` keeps.
pub open spec fn is_diagram_of(text: Seq<char>, routes: Seq<RouteDefinition>, filter: RouteFilter) -> bool {
    let edges = filtered_edges(routes, filter, routes.len());
    if edges.len() == 0 {
        text == empty_diagram()
    } else {
        exists|keys: Seq<Seq<char>>, scenes: Seq<SceneRefView>|
            #[trigger] node_listing(keys, scenes, edges) && text == render_diagram(edges, keys, scenes)
    }
}

/// The nodes of a diagram: the keys, sorted and each once, with their scenes.
fn collect_nodes(edges: &Vec<EdgeLine>) -> (r: (Vec<Vec<char>>, Vec<SceneRef>))
    ensures
        node_listing(views_of(r.0@), scene_views(r.1@), edge_views(edges@)),
{
    let mut keys: Vec<Vec<char>> = Vec::new();
    let mut scenes: Vec<SceneRef> = Vec::new();
    let ghost all = edge_views(edges@);
    let mut e: usize = 0;
    while e < edges.len()
        invariant
            e <= edges@.len(),
            all == edge_views(edges@),
            node_listing(views_of(keys@), scene_views(scenes@), all.subrange(0, e as int)),
        decreases edges.len() - e,
    {
        let ghost prev = all.subrange(0, e as int);
        let ghost next = all.subrange(0, e + 1);
        assert(prev =~= next.subrange(0, e as int));
        assert(next[e as int] == edges@[e as int]@);
        assert(next[e as int].from == edges@[e as int].from@);
        assert(next[e as int].to == edges@[e as int].to@);
        assert(is_endpoint(next, edges@[e as int].from@));
        assert(is_endpoint(next, edges@[e as int].to@));
        proof {
            lemma_listing_grows(views_of(keys@), scene_views(scenes@), prev, next);
        }
        insert_node(&mut keys, &mut scenes, &edges[e].from, Ghost(next));
        insert_node(&mut keys, &mut scenes, &edges[e].to, Ghost(next));
        proof {
            assert(next[e as int] == all[e as int]);
            assert forall|x: int| 0 <= x < next.len() implies views_of(keys@).contains(scene_key_spec(#[trigger] next[x].from))
                && views_of(keys@).contains(scene_key_spec(next[x].to)) by {
                if x < e {
                    assert(next[x] == prev[x]);
                }
            }
        }
        e = e + 1;
    }
    assert(all.subrange(0, edges@.len() as int) =~= all);
    (keys, scenes)
}

proof fn lemma_listing_grows(keys: Seq<Seq<char>>, scenes: Seq<SceneRefView>, prev: Seq<EdgeView>, next: Seq<EdgeView>)
    requires
        node_listing(keys, scenes, prev),
        prev.len() + 1 == next.len(),
        prev == next.subrange(0, prev.len() as int),
    ensures
        forall|i: int| 0 <= i < scenes.len() ==> is_endpoint(next, #[trigger] scenes[i]),
        forall|e: int| 0 <= e < prev.len() ==> keys.contains(scene_key_spec(#[trigger] next[e].from))
            && keys.contains(scene_key_spec(next[e].to)),
{
    assert forall|i: int| 0 <= i < scenes.len() implies is_endpoint(next, #[trigger] scenes[i]) by {
        let e = choose|e: int| 0 <= e < prev.len() && (#[trigger] prev[e].from == scenes[i] || prev[e].to == scenes[i]);
        assert(next[e] == prev[e]);
    }
    assert forall|e: int| 0 <= e < prev.len() implies keys.contains(scene_key_spec(#[trigger] next[e].from))
        && keys.contains(scene_key_spec(next[e].to)) by {
        assert(next[e] == prev[e]);
    }
}

/// Adds the key of `scene` in its place in `keys`, unless it is there already.
fn insert_node(keys: &mut Vec<Vec<char>>, scenes: &mut Vec<SceneRef>, scene: &SceneRef, Ghost(edges): Ghost<Seq<EdgeView>>)
    requires
        views_of(old(keys)@).len() == scene_views(old(scenes)@).len(),
        forall|i: int, j: int| 0 <= i < j < views_of(old(keys)@).len() ==> seq_lt(#[trigger] views_of(old(keys)@)[i], #[trigger] views_of(old(keys)@)[j]),
        forall|i: int| 0 <= i < views_of(old(keys)@).len() ==> #[trigger] views_of(old(keys)@)[i] == scene_key_spec(scene_views(old(scenes)@)[i]),
        forall|i: int| 0 <= i < scene_views(old(scenes)@).len() ==> is_endpoint(edges, #[trigger] scene_views(old(scenes)@)[i]),
        is_endpoint(edges, scene@),
    ensures
        views_of(final(keys)@).len() == scene_views(final(scenes)@).len(),
        forall|i: int, j: int| 0 <= i < j < views_of(final(keys)@).len() ==> seq_lt(#[trigger] views_of(final(keys)@)[i], #[trigger] views_of(final(keys)@)[j]),
        forall|i: int| 0 <= i < views_of(final(keys)@).len() ==> #[trigger] views_of(final(keys)@)[i] == scene_key_spec(scene_views(final(scenes)@)[i]),
        forall|i: int| 0 <= i < scene_views(final(scenes)@).len() ==> is_endpoint(edges, #[trigger] scene_views(final(scenes)@)[i]),
        views_of(final(keys)@).contains(scene_key_spec(scene@)),
        forall|k: Seq<char>| views_of(old(keys)@).contains(k) ==> #[trigger] views_of(final(keys)@).contains(k),
{
    let key_string = scene_key(scene);
    let key = chars_of(key_string.as_str());
    let ghost kv = key@;
    let ghost old_keys = views_of(keys@);
    let ghost old_scenes = scene_views(scenes@);
    let mut j: usize = 0;
    while j < keys.len() && chars_lt(&keys[j], &key)
        invariant
            j <= keys@.len(),
            views_of(keys@) == old_keys,
            keys@ == old(keys)@,
            scenes@ == old(scenes)@,
            kv == key@,
            forall|i: int| 0 <= i < j ==> seq_lt(#[trigger] old_keys[i], kv),
        decreases keys.len() - j,
    {
        j = j + 1;
    }
    if j < keys.len() && chars_eq(&keys[j], &key) {
        assert(old_keys[j as int] == kv);
        return;
    }
    proof {
        if j < old_keys.len() {
            lemma_seq_lt_total(old_keys[j as int], kv);
            assert(seq_lt(kv, old_keys[j as int]));
        }
    }
    keys.insert(j, key);
    scenes.insert(j, scene.duplicate());
    let ghost new_keys = views_of(keys@);
    let ghost new_scenes = scene_views(scenes@);
    assert(new_keys =~= old_keys.insert(j as int, kv));
    assert(new_scenes =~= old_scenes.insert(j as int, scene@));
    assert forall|a: int, b: int| 0 <= a < b < new_keys.len() implies seq_lt(#[trigger] new_keys[a], #[trigger] new_keys[b]) by {
        if b < j {
            assert(seq_lt(old_keys[a], old_keys[b]));
        } else if b == j {
        } else if a < j {
            assert(seq_lt(old_keys[a], old_keys[b - 1]));
        } else if a == j {
            if b - 1 > j as int {
                assert(seq_lt(old_keys[j as int], old_keys[b - 1]));
                lemma_seq_lt_transitive(kv, old_keys[j as int], old_keys[b - 1]);
            }
        } else {
            assert(seq_lt(old_keys[a - 1], old_keys[b - 1]));
        }
    }
    assert forall|i: int| 0 <= i < new_keys.len() implies #[trigger] new_keys[i] == scene_key_spec(new_scenes[i]) by {
        if i < j {
            assert(old_keys[i] == scene_key_spec(old_scenes[i]));
        } else if i > j {
            assert(old_keys[i - 1] == scene_key_spec(old_scenes[i - 1]));
        }
    }
    assert forall|i: int| 0 <= i < new_scenes.len() implies is_endpoint(edges, #[trigger] new_scenes[i]) by {
        if i < j {
            assert(is_endpoint(edges, old_scenes[i]));
        } else if i > j {
            assert(is_endpoint(edges, old_scenes[i - 1]));
        }
    }
    assert forall|k: Seq<char>| old_keys.contains(k) implies #[trigger] new_keys.contains(k) by {
        let i = choose|i: int| 0 <= i < old_keys.len() && old_keys[i] == k;
        if i < j {
            assert(new_keys[i] == k);
        } else {
            assert(new_keys[i + 1] == k);
        }
    }
    assert(new_keys[j as int] == kv);
}

/// The position of `key` in `keys`, where it stands exactly once.
fn key_position(keys: &Vec<Vec<char>>, key: &Vec<char>) -> (r: usize)
    requires
        views_of(keys@).contains(key@),
        forall|i: int, j: int| 0 <= i < j < views_of(keys@).len() ==> seq_lt(#[trigger] views_of(keys@)[i], #[trigger] views_of(keys@)[j]),
    ensures
        r == key_index(views_of(keys@), key@),
        r < keys@.len(),
{
    let ghost kd = views_of(keys@);
    let mut i: usize = 0;
    while i < keys.len()
        invariant
            i <= keys@.len(),
            kd == views_of(keys@),
            kd.contains(key@),
            forall|a: int, b: int| 0 <= a < b < kd.len() ==> seq_lt(#[trigger] kd[a], #[trigger] kd[b]),
            forall|j: int| 0 <= j < i ==> kd[j] != key@,
        decreases keys.len() - i,
    {
        if chars_eq(&keys[i], key) {
            proof {
                let c = key_index(kd, key@);
                assert(0 <= c < kd.len() && kd[c] == key@);
                if c > i as int {
                    lemma_seq_lt_irreflexive(key@);
                    assert(seq_lt(kd[i as int], kd[c]));
                }
            }
            return i;
        }
        i = i + 1;
    }
    assert(false);
    0
}

/// Appends the node line of each scene, in order.
fn push_node_lines(output: &mut String, scenes: &Vec<SceneRef>)
    ensures
        final(output)@ == old(output)@ + node_lines(scene_views(scenes@), scenes@.len()),
{
    let ghost sv = scene_views(scenes@);
    let ghost head = output@;
    let mut i: usize = 0;
    assert(head + node_lines(sv, 0) =~= head);
    while i < scenes.len()
        invariant
            i <= scenes@.len(),
            sv == scene_views(scenes@),
            output@ == head + node_lines(sv, i as nat),
        decreases scenes.len() - i,
    {
        let scene = &scenes[i];
        let label = scene_label(scene);
        let sanitized = sanitize_mermaid_node_label(label.as_str());
        let ghost before = output@;
        push_str(output, "    N");
        push_decimal(output, i);
        push_str(output, "[\"");
        push_str(output, sanitized.as_str());
        push_str(output, "\"]:::");
        push_str(output, scene_css_class(scene));
        push_str(output, "\n");
        assert(output@ =~= before + node_line(i as nat, sv[i as int]));
        assert(output@ =~= head + node_lines(sv, (i + 1) as nat));
        i = i + 1;
    }
}

/// Appends the line of each arrow, in order, naming the nodes of its ends by position in `keys`.
fn push_edge_lines(output: &mut String, edges: &Vec<EdgeLine>, keys: &Vec<Vec<char>>)
    requires
        forall|a: int, b: int| 0 <= a < b < views_of(keys@).len() ==> seq_lt(#[trigger] views_of(keys@)[a], #[trigger] views_of(keys@)[b]),
        forall|e: int| 0 <= e < edge_views(edges@).len() ==> views_of(keys@).contains(scene_key_spec(#[trigger] edge_views(edges@)[e].from))
            && views_of(keys@).contains(scene_key_spec(edge_views(edges@)[e].to)),
    ensures
        final(output)@ == old(output)@ + edge_lines(edge_views(edges@), views_of(keys@), edges@.len()),
{
    let ghost ev = edge_views(edges@);
    let ghost kv = views_of(keys@);
    let ghost head = output@;
    let mut e: usize = 0;
    assert(head + edge_lines(ev, kv, 0) =~= head);
    while e < edges.len()
        invariant
            e <= edges@.len(),
            ev == edge_views(edges@),
            kv == views_of(keys@),
            forall|a: int, b: int| 0 <= a < b < kv.len() ==> seq_lt(#[trigger] kv[a], #[trigger] kv[b]),
            forall|x: int| 0 <= x < ev.len() ==> kv.contains(scene_key_spec(#[trigger] ev[x].from))
                && kv.contains(scene_key_spec(ev[x].to)),
            output@ == head + edge_lines(ev, kv, e as nat),
        decreases edges.len() - e,
    {
        let edge = &edges[e];
        assert(ev[e as int] == edge@);
        let from_key = scene_key(&edge.from);
        let from_chars = chars_of(from_key.as_str());
        let to_key = scene_key(&edge.to);
        let to_chars = chars_of(to_key.as_str());
        assert(kv.contains(scene_key_spec(ev[e as int].from)));
        assert(kv.contains(scene_key_spec(ev[e as int].to)));
        let a = key_position(keys, &from_chars);
        let b = key_position(keys, &to_chars);
        let label = sanitize_mermaid_edge_label(edge.label.as_str());
        let ghost before = output@;
        push_str(output, "    N");
        push_decimal(output, a);
        if label.as_str().is_empty() {
            push_str(output, " --> N");
        } else {
            push_str(output, " -->|");
            push_str(output, label.as_str());
            push_str(output, "| N");
        }
        push_decimal(output, b);
        push_str(output, "\n");
        assert(output@ =~= before + edge_line(ev[e as int], kv));
        assert(output@ =~= head + edge_lines(ev, kv, (e + 1) as nat));
        e = e + 1;
    }
}

/// The Mermaid flowchart of the routes of `graph` that `filter` keeps: one node per scene, in
/// the order of the scenes' keys, then one arrow per step of each rule and default sequence.
#[verifier::spinoff_prover]
pub fn build_mermaid_diagram(graph: &SceneProgressionGraph, filter: RouteFilter) -> (r: String)
    ensures
        is_diagram_of(r@, graph.routes@, filter),
{
    let edges = collect_edges(graph, filter);
    if edges.len() == 0 {
        return string_of("flowchart TD\n    empty[\"No routes for this filter\"]");
    }
    let (keys, scenes) = collect_nodes(&edges);
    let ghost ev = edge_views(edges@);
    let ghost kv = views_of(keys@);
    let ghost sv = scene_views(scenes@);
    let mut output = string_of("flowchart TD\n");
    push_node_lines(&mut output, &scenes);
    push_edge_lines(&mut output, &edges, &keys);
    push_str(&mut output, "\n");
    push_str(&mut output, "    classDef scene_menu fill:#6fa8dc,stroke:#1b3b5a,color:#0f1117;\n");
    push_str(&mut output, "    classDef scene_loading fill:#ffe599,stroke:#8f6c00,color:#0f1117;\n");
    push_str(&mut output, "    classDef scene_dialogue fill:#b4a7d6,stroke:#4d3f71,color:#0f1117;\n");
    push_str(&mut output, "    classDef scene_dilemma fill:#93c47d,stroke:#2f5b23,color:#0f1117;\n");
    push_str(&mut output, "    classDef scene_ending fill:#ea9999,stroke:#7a2f2f,color:#0f1117;\n");
    assert(output@ =~= render_diagram(ev, kv, sv));
    assert(node_listing(kv, sv, ev));
    output
}

/// The prefix that a filter other than `All` asks of a route's dilemma id.
pub open spec fn filter_prefix(filter: RouteFilter) -> Seq<char> {
    match filter {
        RouteFilter::All => Seq::empty(),
        RouteFilter::Lab => "lab_"@,
        RouteFilter::Inaction => "path_inaction."@,
        RouteFilter::Deontological => "path_deontological."@,
        RouteFilter::Utilitarian => "path_utilitarian."@,
    }
}

proof fn lemma_prefix_char(s: Seq<char>, prefix: Seq<char>, i: int)
    requires
        starts_with(s, prefix),
        0 <= i < prefix.len(),
    ensures
        s[i] == prefix[i],
{
    assert(s.subrange(0, prefix.len() as int)[i] == s[i]);
}

/// The tabs other than `All` share no route: no route is drawn under two of them.
pub proof fn lemma_path_filters_are_disjoint(f: RouteFilter, g: RouteFilter, from: SceneRefView)
    requires
        f != RouteFilter::All,
        g != RouteFilter::All,
        f != g,
    ensures
        !(filter_keeps(f, from) && filter_keeps(g, from)),
{
    reveal_strlit("lab_");
    reveal_strlit("path_inaction.");
    reveal_strlit("path_deontological.");
    reveal_strlit("path_utilitarian.");
    if filter_keeps(f, from) && filter_keeps(g, from) {
        let id = from->Dilemma_0;
        let pf = filter_prefix(f);
        let pg = filter_prefix(g);
        assert(starts_with(id, pf));
        assert(starts_with(id, pg));
        lemma_prefix_char(id, pf, 0);
        lemma_prefix_char(id, pg, 0);
        if f != RouteFilter::Lab && g != RouteFilter::Lab {
            lemma_prefix_char(id, pf, 5);
            lemma_prefix_char(id, pg, 5);
        }
    }
}

/// Each tab other than `All` draws every route from a dilemma of its own path (or, for
/// `Lab`, of the labs) whatever follows the prefix, and only those: no route from a dilemma
/// without that prefix, nor from any other scene. `All` draws every route.
pub proof fn lemma_filters_keep_their_own_routes(f: RouteFilter, rest: Seq<char>, from: SceneRefView)
    ensures
        f != RouteFilter::All ==> filter_keeps(f, SceneRefView::Dilemma(filter_prefix(f) + rest)),
        f != RouteFilter::All && filter_keeps(f, from) ==> (from matches SceneRefView::Dilemma(id)
            && starts_with(id, filter_prefix(f))),
        f != RouteFilter::All && !(from is Dilemma) ==> !filter_keeps(f, from),
        filter_keeps(RouteFilter::All, from),
{
    if f != RouteFilter::All {
        let id = filter_prefix(f) + rest;
        assert(id.subrange(0, filter_prefix(f).len() as int) =~= filter_prefix(f));
    }
}

} // verus!
