# Athena

Athena runs research campaigns on Kubernetes: a campaign proposes experiments, an operator runs
them, and the results are curated into reports. This crate is the logic behind its consoles and its
dossiers, written in Verus: every function states what it returns, and Verus proves it.

## Layout

- `src/` is the library. Nothing in it does I/O.
  - `common`, `experiment`, `experiment_template`, `metric_source`, `benchmark_run`,
    `benchmark_suite`, `research_campaign`, `research_drive`, `research_report`, `runtime_profile`
    hold the resources of the cluster; `defaults` fills in what a RuntimeProfile leaves out.
  - `dossier` composes the research dossier of a campaign, in Markdown and in LaTeX, checks that
    the Markdown is a valid knowledge document, and reconciles its citations.
  - `snapshot`, `scheduling` and `reports` are what the backend makes of the cluster: the rows that
    the consoles show, the state of the GPU pools, and the rules on storing reports.
  - `console` is the desktop console as a state machine; `web`, `curator`, `workspace`, `datatable`
    and `tables` are the pages, the report curator, the panel workspaces and the tables of the web
    console.
  - `text`, `numeral`, `number`, `order`, `calendar`, `textmap`, `textset` and `json` are what the
    rest is built from.
- `tests/` runs the library.
- `app/` is ordinary Rust around it: the desktop console's window, the backend's HTTP server, the
  web console's frontend, and the wire forms of the resources.

## What is taken on trust

Outside code enters the library in four places, each with its own doc comment: that `String::push`
appends a character, how `serde_json` quotes a text, that lowercasing a text depends on the text alone, and
that the error of `std::fmt` is a type. Everything else is proved.

Floating-point numbers enter the library with their order and their decimal renderings
(`number::Real`); arithmetic on them stays outside.
