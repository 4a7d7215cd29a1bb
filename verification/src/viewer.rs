//! The HTML page that shows the campaign graph's diagrams and its validation report.
use vstd::prelude::*;

use crate::schema::SceneProgressionGraph;
use crate::text::{decimal_spec, push_decimal, push_str, string_of};
use crate::validate::{errors_view, graph_errors, validate_graph, GraphValidationError, GraphValidationErrorView};
use crate::visualize::{
    build_mermaid_diagram, describe_spec, describe_validation_error, escape_html, filter_key,
    filter_order, filter_title, html_text, is_diagram_of, CampaignGraphExportSummary, RouteFilter,
};

verus! {

pub const HTML_PART_0: &'static str = r##"<!doctype html>
<html lang="en">
<head>
  <meta charset="utf-8" />
  <meta name="viewport" content="width=device-width, initial-scale=1" />
  <title>Campaign Graph Viewer</title>
  <style>
    :root {
      --bg: #0f1117;
      --panel: #181c25;
      --text: #e5e9f0;
      --muted: #9aa6bd;
      --ok: #66d17a;
      --err: #ff6b6b;
      --accent: #6ea8ff;
      --border: #2b3240;
    }
    body {
      margin: 0;
      background: var(--bg);
      color: var(--text);
      font-family: ui-sans-serif, system-ui, -apple-system, Segoe UI, Roboto, Arial, sans-serif;
    }
    main {
      max-width: 1400px;
      margin: 0 auto;
      padding: 20px;
      display: grid;
      gap: 16px;
    }
    .card {
      background: var(--panel);
      border: 1px solid var(--border);
      border-radius: 12px;
      padding: 14px 16px;
    }
    .status {
      font-weight: 700;
    }
    .status.pass { color: var(--ok); }
    .status.fail { color: var(--err); }
    .meta {
      color: var(--muted);
      margin-top: 8px;
      font-size: 0.95rem;
    }
    .tabs {
      display: flex;
      flex-wrap: wrap;
      gap: 8px;
      margin-bottom: 12px;
    }
    .tab {
      border: 1px solid var(--border);
      color: var(--text);
      background: transparent;
      border-radius: 8px;
      padding: 8px 12px;
      cursor: pointer;
      font-weight: 600;
    }
    .tab.active {
      border-color: var(--accent);
      color: var(--accent);
      background: rgba(110, 168, 255, 0.12);
    }
    .diagram-panel { display: none; }
    .diagram-panel.active { display: block; }
    .diagram-source {
      display: none;
    }
    .diagram-canvas {
      background: #111520;
      border: 1px solid var(--border);
      border-radius: 8px;
      padding: 8px;
      overflow: auto;
      min-height: 160px;
    }
    .diagram-canvas > svg {
      width: 100%;
      height: auto;
    }
    pre.parse-error {
      background: #111520;
      border: 1px solid var(--border);
      border-radius: 8px;
      padding: 8px;
      overflow: auto;
      color: #ff6b6b;
    }
    code {
      color: #f7d37a;
      white-space: pre-wrap;
      word-break: break-word;
    }
  </style>
</head>
<body>
  <main>
    <section class="card">
      <h1>Campaign Graph Viewer</h1>
      <div class="status "##;

pub const HTML_PART_1: &'static str = r##"">"##;

pub const HTML_PART_2: &'static str = r##"</div>
      <div class="meta">
        Source: <code>src/scenes/flow/content/campaign_graph.json</code><br/>
        Routes: <strong>"##;

pub const HTML_PART_3: &'static str = r##"</strong>
      </div>
    </section>

    <section class="card">
      <h2>Validation Details</h2>
      "##;

pub const HTML_PART_4: &'static str = r##"
    </section>

    <section class="card">
      <h2>Route Diagrams</h2>
      <div class="tabs">
        "##;

pub const HTML_PART_5: &'static str = r##"
      </div>
      "##;

pub const HTML_PART_6: &'static str = r##"
    </section>
  </main>

  <script src="https://cdn.jsdelivr.net/npm/mermaid@10/dist/mermaid.min.js"></script>
  <script>
    mermaid.initialize({ startOnLoad: false, securityLevel: "loose", theme: "dark" });

    const tabs = Array.from(document.querySelectorAll(".tab"));
    const panels = Array.from(document.querySelectorAll(".diagram-panel"));

    async function renderPanel(key) {
      const panel = document.getElementById(`panel-${key}`);
      if (!panel || panel.dataset.rendered === "true") {
        return;
      }

      const source = panel.querySelector(".diagram-source")?.textContent ?? "";
      const canvas = panel.querySelector(".diagram-canvas");
      if (!canvas) {
        panel.dataset.rendered = "true";
        return;
      }

      try {
        const renderId = `campaign-${key}-${Math.random().toString(36).slice(2)}`;
        const result = await mermaid.render(renderId, source);
        canvas.innerHTML = result.svg;
        if (result.bindFunctions) {
          result.bindFunctions(canvas);
        }
      } catch (error) {
        console.error("Mermaid parse failed", key, error, source);
        const message = error && typeof error.message === "string"
          ? error.message
          : String(error);
        const pre = document.createElement("pre");
        pre.className = "parse-error";
        pre.textContent = `Mermaid parse failed in panel '${key}': ${message}\n\n${source}`;
        canvas.replaceChildren(pre);
      }

      panel.dataset.rendered = "true";
    }

    function activate(key) {
      for (const tab of tabs) {
        tab.classList.toggle("active", tab.dataset.target === key);
      }
      for (const panel of panels) {
        panel.classList.toggle("active", panel.id === `panel-${key}`);
      }
      void renderPanel(key);
    }

    for (const tab of tabs) {
      tab.addEventListener("click", () => activate(tab.dataset.target));
    }

    activate("all");
  </script>
</body>
</html>
"##;

pub const PARSE_ERROR_HTML_PART_0: &'static str = r##"<!doctype html>
<html lang="en">
<head>
  <meta charset="utf-8" />
  <meta name="viewport" content="width=device-width, initial-scale=1" />
  <title>Campaign Graph Viewer</title>
  <style>
    body {
      background: #0f1117;
      color: #e5e9f0;
      font-family: ui-sans-serif, system-ui, -apple-system, Segoe UI, Roboto, Arial, sans-serif;
      margin: 0;
      padding: 24px;
    }
    .card {
      max-width: 1000px;
      margin: 0 auto;
      background: #181c25;
      border: 1px solid #2b3240;
      border-radius: 12px;
      padding: 16px;
    }
    .error {
      color: #ff6b6b;
      font-weight: 700;
    }
    code {
      color: #f7d37a;
      white-space: pre-wrap;
    }
  </style>
</head>
<body>
  <section class="card">
    <h1>Campaign Graph Viewer</h1>
    <p class="error">Validation: FAIL (parse error)</p>
    <p><code>"##;

pub const PARSE_ERROR_HTML_PART_1: &'static str = r##"</code></p>
  </section>
</body>
</html>"##;


/// The item that reports one problem.
pub open spec fn error_item(e: GraphValidationErrorView) -> Seq<char> {
    "<li><code>"@ + html_text(describe_spec(e)) + "</code></li>\n"@
}

/// The items of the first `n` problems.
pub open spec fn error_items(errors: Seq<GraphValidationErrorView>, n: nat) -> Seq<char>
    decreases n,
{
    if n == 0 { Seq::empty() } else { error_items(errors, (n - 1) as nat) + error_item(errors[n - 1]) }
}

/// The validation report: a list of the problems, or a line saying there are none.
pub open spec fn validation_list_spec(errors: Seq<GraphValidationErrorView>) -> Seq<char> {
    if errors.len() > 0 {
        "<ul>\n"@ + error_items(errors, errors.len()) + "</ul>\n"@
    } else {
        "<p>No validation errors.</p>\n"@
    }
}

/// The class of the first tab and panel, which show at first.
pub open spec fn active_class(index: int) -> Seq<char> {
    if index == 0 { "active"@ } else { ""@ }
}

/// The tab button of the `index`th diagram.
pub open spec fn tab_line(index: int, filter: RouteFilter) -> Seq<char> {
    "<button class=\"tab "@ + active_class(index) + "\" data-target=\""@ + filter_key(filter) + "\">"@
        + filter_title(filter) + "</button>\n"@
}

/// The panel of the `index`th diagram, holding its Mermaid source.
pub open spec fn panel_line(index: int, filter: RouteFilter, diagram: Seq<char>) -> Seq<char> {
    "<section id=\"panel-"@ + filter_key(filter) + "\" class=\"diagram-panel "@ + active_class(index)
        + "\" data-key=\""@ + filter_key(filter)
        + "\" data-rendered=\"false\"><pre class=\"diagram-source\">"@ + diagram
        + "</pre><div class=\"diagram-canvas\"></div></section>\n"@
}

/// The tab buttons of the first `n` diagrams.
pub open spec fn tab_lines(n: nat) -> Seq<char>
    decreases n,
{
    if n == 0 { Seq::empty() } else { tab_lines((n - 1) as nat) + tab_line(n - 1, filter_order()[n - 1]) }
}

/// The panels of the first `n` diagrams.
pub open spec fn panel_lines(diagrams: Seq<Seq<char>>, n: nat) -> Seq<char>
    decreases n,
{
    if n == 0 {
        Seq::empty()
    } else {
        panel_lines(diagrams, (n - 1) as nat) + panel_line(n - 1, filter_order()[n - 1], diagrams[n - 1])
    }
}

/// The status line: pass, or fail with the number of problems.
pub open spec fn status_text_spec(error_count: nat) -> Seq<char> {
    if error_count > 0 {
        "Validation: FAIL ("@ + decimal_spec(error_count) + " errors)"@
    } else {
        "Validation: PASS"@
    }
}

pub open spec fn status_class_spec(error_count: nat) -> Seq<char> {
    if error_count > 0 { "fail"@ } else { "pass"@ }
}

/// The viewer page for a graph of `route_count` routes, its problems, and the diagram of each
/// filter in tab order.
pub open spec fn html_spec(route_count: nat, errors: Seq<GraphValidationErrorView>, diagrams: Seq<Seq<char>>) -> Seq<char> {
    HTML_PART_0@ + status_class_spec(errors.len()) + HTML_PART_1@ + status_text_spec(errors.len())
        + HTML_PART_2@ + decimal_spec(route_count) + HTML_PART_3@ + validation_list_spec(errors)
        + HTML_PART_4@ + tab_lines(5) + HTML_PART_5@ + panel_lines(diagrams, 5) + HTML_PART_6@
}

/// Whether `diagrams` holds, in tab order, the diagram of each filter over `graph`.
pub open spec fn diagrams_of(diagrams: Seq<Seq<char>>, graph: SceneProgressionGraph) -> bool {
    &&& diagrams.len() == 5
    &&& forall|i: int| 0 <= i < 5 ==> is_diagram_of(#[trigger] diagrams[i], graph.routes@, filter_order()[i])
}

/// The viewer page for `graph` with the problems `validation_errors`.
pub fn build_html(graph: &SceneProgressionGraph, validation_errors: &Vec<GraphValidationError>) -> (r: String)
    ensures
        exists|diagrams: Seq<Seq<char>>|
            #[trigger] diagrams_of(diagrams, *graph)
            && r@ == html_spec(graph.routes@.len(), errors_view(validation_errors@), diagrams),
{
    let filters = RouteFilter::order();
    let mut diagrams: Vec<String> = Vec::new();
    let mut i: usize = 0;
    while i < filters.len()
        invariant
            filters@ == filter_order(),
            i <= 5,
            diagrams@.len() == i,
            forall|j: int| 0 <= j < i ==> is_diagram_of(#[trigger] diagrams@[j]@, graph.routes@, filter_order()[j]),
        decreases filters.len() - i,
    {
        diagrams.push(build_mermaid_diagram(graph, filters[i]));
        i = i + 1;
    }
    let ghost dv = diagrams@.map_values(|d: String| d@);
    let ghost ev = errors_view(validation_errors@);
    let has_errors = validation_errors.len() > 0;

    let mut tabs_html = String::new();
    let mut panels_html = String::new();
    let mut index: usize = 0;
    assert(tabs_html@ =~= tab_lines(0));
    assert(panels_html@ =~= panel_lines(dv, 0));
    while index < filters.len()
        invariant
            filters@ == filter_order(),
            diagrams@.len() == 5,
            dv == diagrams@.map_values(|d: String| d@),
            index <= 5,
            tabs_html@ == tab_lines(index as nat),
            panels_html@ == panel_lines(dv, index as nat),
        decreases filters.len() - index,
    {
        let filter = filters[index];
        let active_class = if index == 0 { "active" } else { "" };
        push_str(&mut tabs_html, "<button class=\"tab ");
        push_str(&mut tabs_html, active_class);
        push_str(&mut tabs_html, "\" data-target=\"");
        push_str(&mut tabs_html, filter.key());
        push_str(&mut tabs_html, "\">");
        push_str(&mut tabs_html, filter.title());
        push_str(&mut tabs_html, "</button>\n");
        assert(tabs_html@ =~= tab_lines((index + 1) as nat));

        push_str(&mut panels_html, "<section id=\"panel-");
        push_str(&mut panels_html, filter.key());
        push_str(&mut panels_html, "\" class=\"diagram-panel ");
        push_str(&mut panels_html, active_class);
        push_str(&mut panels_html, "\" data-key=\"");
        push_str(&mut panels_html, filter.key());
        push_str(&mut panels_html, "\" data-rendered=\"false\"><pre class=\"diagram-source\">");
        push_str(&mut panels_html, diagrams[index].as_str());
        push_str(&mut panels_html, "</pre><div class=\"diagram-canvas\"></div></section>\n");
        assert(panels_html@ =~= panel_lines(dv, (index + 1) as nat));
        index = index + 1;
    }

    let mut validation_list = String::new();
    if has_errors {
        push_str(&mut validation_list, "<ul>\n");
        let ghost head = validation_list@;
        let mut k: usize = 0;
        assert(head + error_items(ev, 0) =~= head);
        while k < validation_errors.len()
            invariant
                k <= validation_errors@.len(),
                ev == errors_view(validation_errors@),
                validation_list@ == head + error_items(ev, k as nat),
            decreases validation_errors.len() - k,
        {
            let description = describe_validation_error(&validation_errors[k]);
            let escaped = escape_html(description.as_str());
            push_str(&mut validation_list, "<li><code>");
            push_str(&mut validation_list, escaped.as_str());
            push_str(&mut validation_list, "</code></li>\n");
            assert(validation_list@ =~= head + error_items(ev, (k + 1) as nat));
            k = k + 1;
        }
        push_str(&mut validation_list, "</ul>\n");
    } else {
        push_str(&mut validation_list, "<p>No validation errors.</p>\n");
    }
    assert(validation_list@ =~= validation_list_spec(ev));

    let mut html = string_of(HTML_PART_0);
    push_str(&mut html, if has_errors { "fail" } else { "pass" });
    push_str(&mut html, HTML_PART_1);
    if has_errors {
        push_str(&mut html, "Validation: FAIL (");
        push_decimal(&mut html, validation_errors.len());
        push_str(&mut html, " errors)");
    } else {
        push_str(&mut html, "Validation: PASS");
    }
    push_str(&mut html, HTML_PART_2);
    push_decimal(&mut html, graph.routes.len());
    push_str(&mut html, HTML_PART_3);
    push_str(&mut html, validation_list.as_str());
    push_str(&mut html, HTML_PART_4);
    push_str(&mut html, tabs_html.as_str());
    push_str(&mut html, HTML_PART_5);
    push_str(&mut html, panels_html.as_str());
    push_str(&mut html, HTML_PART_6);
    assert(html@ =~= html_spec(graph.routes@.len(), ev, dv));
    assert(diagrams_of(dv, *graph));
    html
}

/// The viewer page shown when the graph could not be read, with the reader's message.
pub open spec fn parse_error_html_spec(error: Seq<char>) -> Seq<char> {
    PARSE_ERROR_HTML_PART_0@ + html_text(error) + PARSE_ERROR_HTML_PART_1@
}

pub fn build_parse_error_html(error: &str) -> (r: String)
    ensures
        r@ == parse_error_html_spec(error@),
{
    let mut html = string_of(PARSE_ERROR_HTML_PART_0);
    let escaped = escape_html(error);
    push_str(&mut html, escaped.as_str());
    push_str(&mut html, PARSE_ERROR_HTML_PART_1);
    html
}

/// The viewer page and its summary, for a graph that was read, or for the message of why it
/// could not be read.
pub fn campaign_graph_export(parsed: &Result<SceneProgressionGraph, String>) -> (r: (String, CampaignGraphExportSummary))
    ensures
        match parsed {
            Ok(graph) => {
                let errors = graph_errors(graph.routes@, graph.routes@.len());
                &&& r.1.route_count == graph.routes@.len()
                &&& r.1.validation_error_count == errors.len()
                &&& exists|diagrams: Seq<Seq<char>>|
                    #[trigger] diagrams_of(diagrams, *graph)
                    && r.0@ == html_spec(graph.routes@.len(), errors, diagrams)
            },
            Err(message) => {
                &&& r.0@ == parse_error_html_spec(message@)
                &&& r.1 == CampaignGraphExportSummary { route_count: 0, validation_error_count: 1 }
            },
        },
{
    match parsed {
        Ok(graph) => {
            let validation_errors = validate_graph(graph);
            let html = build_html(graph, &validation_errors);
            let summary = CampaignGraphExportSummary {
                route_count: graph.routes.len(),
                validation_error_count: validation_errors.len(),
            };
            (html, summary)
        },
        Err(message) => {
            let html = build_parse_error_html(message.as_str());
            (html, CampaignGraphExportSummary { route_count: 0, validation_error_count: 1 })
        },
    }
}

} // verus!
