//! The texts that the screens show for the dashboard's state: load progress and memory,
//! model states and actions, search and download status, the chat composer's model.
use vstd::prelude::*;

use crate::app::App;
use crate::chat_settings::{chat_model, parameters_for};
use crate::content::{chars_of, find, find_in};
use crate::dialogs::LoadDialog;
use crate::format::{binary_size, binary_size_chars, human_bytes, human_bytes_chars, memory_fit_points, progress_basis_points, transfer_tenths};
use crate::records::{ActivityEvent, LocalModelInfo};
use crate::text::{ascii_upper, decimal, decimal_chars, equals, join, uppercase};

verus! {

/// The frames of the busy spinner.
pub open spec fn spinner_frame(tick: u64) -> Seq<char> {
    let i = tick % 10;
    if i == 0 {
        "⠋"@
    } else if i == 1 {
        "⠙"@
    } else if i == 2 {
        "⠹"@
    } else if i == 3 {
        "⠸"@
    } else if i == 4 {
        "⠼"@
    } else if i == 5 {
        "⠴"@
    } else if i == 6 {
        "⠦"@
    } else if i == 7 {
        "⠧"@
    } else if i == 8 {
        "⠇"@
    } else {
        "⠏"@
    }
}

/// The frame of the busy spinner at animation tick `tick`.
pub fn spinner(tick: u64) -> (frame: &'static str)
    ensures
        frame@ == spinner_frame(tick),
{
    let i = tick % 10;
    if i == 0 {
        "⠋"
    } else if i == 1 {
        "⠙"
    } else if i == 2 {
        "⠹"
    } else if i == 3 {
        "⠸"
    } else if i == 4 {
        "⠼"
    } else if i == 5 {
        "⠴"
    } else if i == 6 {
        "⠦"
    } else if i == 7 {
        "⠧"
    } else if i == 8 {
        "⠇"
    } else {
        "⠏"
    }
}

/// The memory line of the load dialog: the fit, what the model needs against the budget,
/// the safe context, the cache, and whether the load is forced.
pub open spec fn memory_line(dialog: LoadDialog) -> Seq<char> {
    match dialog.memory {
        None => "memory estimate unavailable"@,
        Some(m) => m.fit@ + " · need "@ + binary_size_chars(m.required_bytes as nat) + " / budget "@
            + match m.budget_bytes {
            Some(b) => binary_size_chars(b as nat),
            None => "unknown"@,
        } + " · safe ctx "@ + match m.max_safe_context_tokens {
            Some(t) => decimal_chars(t as nat),
            None => "unknown"@,
        } + " · cache "@ + decimal_chars(m.configured_cache_tokens as nat) + if dialog.force {
            " · FORCE"@
        } else {
            Seq::<char>::empty()
        },
    }
}

/// The memory gauge of the load dialog, in hundredths of a percent of the budget, and its
/// line.
pub fn memory_summary(dialog: &LoadDialog) -> (summary: (u16, String))
    ensures
        summary.0 == match dialog.memory {
            None => 0,
            Some(m) => match m.budget_bytes {
                Some(b) => if b > 0 {
                    if m.required_bytes * 10_000 / (b as int) <= 10_000 {
                        (m.required_bytes * 10_000 / (b as int)) as u16
                    } else {
                        10_000
                    }
                } else {
                    0
                },
                None => 0,
            },
        },
        summary.1@ == memory_line(*dialog),
{
    let memory = match &dialog.memory {
        None => return (0, "memory estimate unavailable".to_owned()),
        Some(m) => m,
    };
    let points = memory_fit_points(memory.required_bytes, memory.budget_bytes);
    let mut text = join(memory.fit.as_str(), " · need ");
    text.append(binary_size(memory.required_bytes).as_str());
    text.append(" / budget ");
    match memory.budget_bytes {
        Some(b) => text.append(binary_size(b).as_str()),
        None => text.append("unknown"),
    }
    text.append(" · safe ctx ");
    match memory.max_safe_context_tokens {
        Some(t) => text.append(decimal(t).as_str()),
        None => text.append("unknown"),
    }
    text.append(" · cache ");
    text.append(decimal(memory.configured_cache_tokens).as_str());
    if dialog.force {
        text.append(" · FORCE");
    } else {
        proof {
            assert(text@ + Seq::<char>::empty() =~= text@);
        }
    }
    (points, text)
}

/// What the loading view of the load dialog shows.
#[derive(Debug)]
pub struct LoadingView {
    /// The stage's title.
    pub title: &'static str,
    /// What happens in the stage.
    pub detail: String,
    /// The gauge, in hundredths of a percent.
    pub points: u16,
    /// The gauge's label.
    pub label: String,
}

/// The loading view of a dialog whose load reports `progress` in phase `phase`.
pub open spec fn loading_view(dialog: LoadDialog, view: LoadingView) -> bool {
    match dialog.progress {
        None => {
            &&& view.title@ == "STARTING"@
            &&& view.detail@ == "Waiting for the server to begin model inspection"@
            &&& view.points == 0
            &&& view.label@ == "starting"@
        },
        Some(event) => if event.phase@ == "resolving"@ {
            &&& view.title@ == "RESOLVING CONFIGURATION"@
            &&& view.detail@ == "Inspecting model metadata, tokenizer, and saved overrides"@
            &&& view.points == 0
            &&& view.label@ == "metadata"@
        } else if event.phase@ == "checking_memory"@ {
            &&& view.title@ == "CHECKING DEVICE MEMORY"@
            &&& view.detail@ == event.detail@
            &&& view.points == 0
            &&& view.label@ == "memory preflight"@
        } else if event.phase@ == "loading"@ {
            let points = match event.total {
                Some(t) => if t > 0 {
                    (((if event.current <= t { event.current } else { t }) * 10_000) / (t as int)) as u16
                } else {
                    0
                },
                None => 0,
            };
            &&& view.title@ == "MAPPING WEIGHT SHARDS"@
            &&& view.detail@ == event.detail@
            &&& view.points == points
            &&& view.label@ == "weights "@ + decimal_chars((points / 100) as nat) + "%"@
        } else if event.phase@ == "initializing"@ {
            &&& view.title@ == "INITIALIZING RUNTIME"@
            &&& view.detail@
                == "Weights are mapped; building backend execution state and warming kernels"@
            &&& view.points == 10_000
            &&& view.label@ == "weights 100% · runtime initialization still active"@
        } else {
            &&& view.title@ == "WORKING"@
            &&& view.detail@ == event.detail@
            &&& view.points == 0
            &&& view.label@ == event.phase@
        },
    }
}

/// The loading view of the load dialog.
pub fn loading_state(dialog: &LoadDialog) -> (view: LoadingView)
    ensures
        loading_view(*dialog, view),
{
    let event = match &dialog.progress {
        None => {
            return LoadingView {
                title: "STARTING",
                detail: "Waiting for the server to begin model inspection".to_owned(),
                points: 0,
                label: "starting".to_owned(),
            };
        },
        Some(event) => event,
    };
    let phase = event.phase.as_str();
    if equals(phase, "resolving") {
        LoadingView {
            title: "RESOLVING CONFIGURATION",
            detail: "Inspecting model metadata, tokenizer, and saved overrides".to_owned(),
            points: 0,
            label: "metadata".to_owned(),
        }
    } else if equals(phase, "checking_memory") {
        LoadingView {
            title: "CHECKING DEVICE MEMORY",
            detail: event.detail.clone(),
            points: 0,
            label: "memory preflight".to_owned(),
        }
    } else if equals(phase, "loading") {
        let points = progress_basis_points(event.current, event.total);
        let mut label = join("weights ", decimal((points / 100) as u64).as_str());
        label.append("%");
        LoadingView { title: "MAPPING WEIGHT SHARDS", detail: event.detail.clone(), points, label }
    } else if equals(phase, "initializing") {
        LoadingView {
            title: "INITIALIZING RUNTIME",
            detail: "Weights are mapped; building backend execution state and warming kernels".to_owned(),
            points: 10_000,
            label: "weights 100% · runtime initialization still active".to_owned(),
        }
    } else {
        LoadingView {
            title: "WORKING",
            detail: event.detail.clone(),
            points: 0,
            label: event.phase.clone(),
        }
    }
}

/// Whether `event` is a load or download that still works on `model`.
pub open spec fn works_on(event: ActivityEvent, model: LocalModelInfo) -> bool {
    &&& (event.target@ == model.id@ || event.target@ == model.repo_id@)
    &&& (event.state@ == "queued"@ || event.state@ == "running"@ || event.state@ == "cancelling"@)
    &&& (find(event.kind@, "load"@) is Some || find(event.kind@, "pull"@) is Some || find(
        event.kind@,
        "download"@,
    ) is Some)
}

/// The state that the models list shows for a local model: working while a load or download
/// on it runs, an error when it cannot be loaded, else its state in capitals.
pub open spec fn model_state_chars(activities: Seq<ActivityEvent>, model: LocalModelInfo) -> Seq<char> {
    if exists|i: int| 0 <= i < activities.len() && works_on(#[trigger] activities[i], model) {
        "◌ WORKING"@
    } else if model.state@ == "available"@ && !model.loadable {
        "ERROR"@
    } else {
        model.state@.map_values(|c: char| ascii_upper(c))
    }
}

/// Whether `pat` occurs in `s`.
fn contains_text(s: &str, pat: &str) -> (found: bool)
    requires
        pat@.len() > 0,
    ensures
        found == (find(s@, pat@) is Some),
{
    let chars = chars_of(s);
    let pattern = chars_of(pat);
    proof {
        assert(chars@.subrange(0, chars@.len() as int) =~= chars@);
    }
    find_in(&chars, 0, chars.len(), &pattern).is_some()
}

impl App {
    /// The state that the models list shows for local model `model`.
    pub fn model_state(&self, model: &LocalModelInfo) -> (state: String)
        ensures
            state@ == model_state_chars(self.activities@, *model),
    {
        proof {
            reveal_strlit("load");
            reveal_strlit("pull");
            reveal_strlit("download");
        }
        let mut i: usize = 0;
        while i < self.activities.len()
            invariant
                i <= self.activities@.len(),
                "load"@.len() > 0,
                "pull"@.len() > 0,
                "download"@.len() > 0,
                forall|j: int| 0 <= j < i ==> !works_on(self.activities@[j], *model),
            decreases self.activities@.len() - i,
        {
            let event = &self.activities[i];
            let target = event.target.as_str();
            let state = event.state.as_str();
            let kind = event.kind.as_str();
            if (equals(target, model.id.as_str()) || equals(target, model.repo_id.as_str()))
                && (equals(state, "queued") || equals(state, "running") || equals(state, "cancelling"))
                && (contains_text(kind, "load") || contains_text(kind, "pull") || contains_text(
                kind,
                "download",
            )) {
                proof {
                    assert(works_on(self.activities@[i as int], *model));
                }
                return "◌ WORKING".to_owned();
            }
            i += 1;
        }
        if equals(model.state.as_str(), "available") && !model.loadable {
            "ERROR".to_owned()
        } else {
            uppercase(model.state.as_str())
        }
    }

    /// The title of the search results: searching with a spinner, the failure, or results.
    pub fn catalog_title(&self) -> (title: String)
        ensures
            title@ == if self.catalog_search_pending {
                " "@ + spinner_frame(self.animation_tick) + " SEARCHING HUGGING FACE "@
            } else if self.catalog_error is Some {
                " SEARCH FAILED — "@ + self.catalog_error->0@ + " "@
            } else {
                " HUGGING FACE RESULTS "@
            },
    {
        if self.catalog_search_pending {
            let mut title = join(" ", spinner(self.animation_tick));
            title.append(" SEARCHING HUGGING FACE ");
            title
        } else if let Some(error) = &self.catalog_error {
            let mut title = join(" SEARCH FAILED — ", error.as_str());
            title.append(" ");
            title
        } else {
            " HUGGING FACE RESULTS ".to_owned()
        }
    }

    /// The label of the download gauge, and the gauge in tenths of a percent: waiting for the
    /// total size with what has arrived, or the percentage with what has arrived of the total.
    pub fn transfer_progress(&self) -> (progress: (u16, String))
        ensures
            match self.transfer_total_bytes {
                Some(total) if total > 0 => {
                    let current = if self.transfer_downloaded_bytes <= total {
                        self.transfer_downloaded_bytes
                    } else {
                        total
                    };
                    let tenths = (current * 1_000 / (total as int)) as u16;
                    &&& progress.0 == tenths
                    &&& progress.1@ == decimal_chars((tenths / 10) as nat) + "."@ + decimal_chars(
                        (tenths % 10) as nat,
                    ) + "%  ·  "@ + human_bytes_chars(current as nat) + " / "@ + human_bytes_chars(
                        total as nat,
                    )
                },
                _ => {
                    &&& progress.0 == 0
                    &&& progress.1@ == spinner_frame(self.animation_tick)
                        + " waiting for total size · "@ + human_bytes_chars(
                        self.transfer_downloaded_bytes as nat,
                    ) + " received"@
                },
            },
    {
        match self.transfer_total_bytes {
            Some(total) => {
                if total > 0 {
                    let current = if self.transfer_downloaded_bytes <= total {
                        self.transfer_downloaded_bytes
                    } else {
                        total
                    };
                    let tenths = transfer_tenths(current, total);
                    let mut text = decimal((tenths / 10) as u64);
                    text.append(".");
                    text.append(decimal((tenths % 10) as u64).as_str());
                    text.append("%  ·  ");
                    text.append(human_bytes(current).as_str());
                    text.append(" / ");
                    text.append(human_bytes(total).as_str());
                    return (tenths, text);
                }
            },
            None => {},
        }
        let mut text = join(spinner(self.animation_tick), " waiting for total size · ");
        text.append(human_bytes(self.transfer_downloaded_bytes).as_str());
        text.append(" received");
        (0, text)
    }

    /// The composer's model line: the chat model, or that there is none, marked when one-off
    /// parameters apply to it.
    pub fn composer_model_label(&self) -> (label: String)
        ensures
            label@ == "＋ attach   "@ + match chat_model(*self) {
                Some(m) => m.id@,
                None => "no model"@,
            } + if parameters_for(*self, match chat_model(*self) {
                Some(m) => m.id@,
                None => "no model"@,
            }) {
                " · ONE-OFF PARAMETERS"@
            } else {
                Seq::<char>::empty()
            },
    {
        let model = match self.selected_chat_model() {
            Some(m) => m.id.as_str(),
            None => "no model",
        };
        let mut label = join("＋ attach   ", model);
        let matches = match &self.chat_parameters {
            Some(p) => equals(p.model.as_str(), model),
            None => false,
        };
        if matches {
            label.append(" · ONE-OFF PARAMETERS");
        } else {
            proof {
                assert(label@ + Seq::<char>::empty() =~= label@);
            }
        }
        label
    }
}

/// What the models list offers for a local model in `state` (as shown), where `managed` says
/// whether Mirmir manages its files.
pub open spec fn actions_chars(state: Seq<char>, managed: bool) -> Seq<char> {
    if state == "READY"@ {
        "■ unload"@
    } else if state == "AVAILABLE"@ {
        if managed { "▶ load  × remove"@ } else { "▶ load"@ }
    } else if state == "ERROR"@ && managed {
        "× remove"@
    } else if state == "PAUSED"@ || state == "PARTIAL"@ || state == "FAILED"@ {
        "↻ resume  × remove"@
    } else if state == "LOADING"@ || state == "UNLOADING"@ || state == "REMOVING"@ || state
        == "◌ WORKING"@ {
        "◌ working  ■ stop"@
    } else {
        "—"@
    }
}

/// What the models list offers for a local model in `state` (as shown).
pub fn actions(state: &str, managed: bool) -> (text: &'static str)
    ensures
        text@ == actions_chars(state@, managed),
{
    if equals(state, "READY") {
        "■ unload"
    } else if equals(state, "AVAILABLE") {
        if managed { "▶ load  × remove" } else { "▶ load" }
    } else if equals(state, "ERROR") && managed {
        "× remove"
    } else if equals(state, "PAUSED") || equals(state, "PARTIAL") || equals(state, "FAILED") {
        "↻ resume  × remove"
    } else if equals(state, "LOADING") || equals(state, "UNLOADING") || equals(state, "REMOVING")
        || equals(state, "◌ WORKING") {
        "◌ working  ■ stop"
    } else {
        "—"
    }
}

} // verus!
