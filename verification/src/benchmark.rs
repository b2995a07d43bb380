//! The benchmarks screen: its settings, starting and cancelling a run, and following it.
use vstd::prelude::*;

use crate::app::{App, BenchmarkControls, BenchmarkStatus, Command};
use crate::input::{KeyCode, KeyEvent};
use crate::records::GenerateRequest;
use crate::text::{decimal, decimal_chars, has_content, has_text, join, pop_char, push_char, trim_chars, trimmed};

verus! {

/// Tokens that each benchmark generation may produce.
pub const BENCHMARK_MAX_TOKENS: u64 = 128;

/// The seed of every benchmark generation, so that runs compare.
pub const BENCHMARK_SEED: u64 = 42;

/// Most samples of one run.
pub const MAX_SAMPLES: usize = 20;

/// Most warmup generations of one run.
pub const MAX_WARMUP: usize = 10;

/// What the benchmark run reports.
#[derive(Debug)]
pub enum BenchmarkEvent {
    /// The run entered this phase.
    Phase(String),
    /// A generation of the run started as this operation.
    Started(String),
    /// A sample was measured.
    Sample,
    /// The run is over.
    Finished,
}

/// `app` with the benchmark controls changed to `controls`.
pub open spec fn with_benchmark(app: App, controls: BenchmarkControls) -> App {
    App { benchmark: controls, ..app }
}

/// `n` less one, stopping at zero.
pub open spec fn one_less(n: usize) -> usize {
    (if n > 0 { n - 1 } else { 0 }) as usize
}

/// `n` plus one, stopping at `bound`.
pub open spec fn one_more_up_to(n: usize, bound: usize) -> usize {
    (if n + 1 <= bound { n + 1 } else { bound as int }) as usize
}

/// The request of every generation of a benchmark run on `model` with `prompt`.
pub open spec fn benchmark_request(request: GenerateRequest, model: Seq<char>, prompt: Seq<char>) -> bool {
    &&& request.model@ == model
    &&& request.prompt@ == prompt
    &&& request.max_tokens == Some(BENCHMARK_MAX_TOKENS)
    &&& request.temperature is None
    &&& request.top_p is None
    &&& request.top_k is None
    &&& request.repetition_penalty is None
    &&& request.seed == Some(BENCHMARK_SEED)
    &&& request.messages@.len() == 0
    &&& request.image is None
}

/// `app` after Enter on the benchmarks screen: without a model at the benchmark selection,
/// or with a prompt of white space alone, the error says so; otherwise a run of the trimmed
/// prompt starts on that model with the chosen warmup and samples.
pub open spec fn benchmark_started(pre: App, post: App, command: Option<Command>) -> bool {
    let b = pre.benchmark;
    if (b.model_index as int) >= pre.models@.len() {
        command is None && post == with_benchmark(pre, BenchmarkControls { error: post.benchmark.error, ..b })
            && (post.benchmark.error matches Some(m) && m@ == "load a model before benchmarking"@)
    } else if !has_content(b.prompt@) {
        command is None && post == with_benchmark(pre, BenchmarkControls { error: post.benchmark.error, ..b })
            && (post.benchmark.error matches Some(m) && m@ == "enter a benchmark prompt"@)
    } else {
        let model = pre.models@[b.model_index as int].id@;
        &&& command matches Some(Command::StartBenchmark { request, warmup, samples })
        &&& benchmark_request(request, model, trim_chars(b.prompt@))
        &&& warmup == b.warmup
        &&& samples == b.samples
        &&& post == with_benchmark(
            pre,
            BenchmarkControls {
                running_model: post.benchmark.running_model,
                completed: 0,
                phase: post.benchmark.phase,
                status: BenchmarkStatus::Running,
                error: None,
                ..b
            },
        )
        &&& post.benchmark.running_model@ == model
        &&& post.benchmark.phase@ == "starting"@
    }
}

/// `app` after the run ended: idle in `phase`, with no operation.
pub open spec fn benchmark_ended(pre: App, phase: Seq<char>, error: Option<String>, post: App) -> bool {
    &&& post == with_benchmark(
        pre,
        BenchmarkControls {
            phase: post.benchmark.phase,
            status: BenchmarkStatus::Idle,
            operation_id: None,
            error,
            ..pre.benchmark
        },
    )
    &&& post.benchmark.phase@ == phase
}

/// The benchmark controls after the run reported `event`.
pub open spec fn controls_after_event(b: BenchmarkControls, event: BenchmarkEvent, post: BenchmarkControls) -> bool {
    match event {
        BenchmarkEvent::Phase(phase) => post == BenchmarkControls { phase, ..b },
        BenchmarkEvent::Started(id) => post == BenchmarkControls { operation_id: Some(id), ..b },
        BenchmarkEvent::Sample => post == BenchmarkControls {
            completed: one_more_up_to(b.completed, usize::MAX),
            ..b
        },
        BenchmarkEvent::Finished => post == BenchmarkControls {
            phase: post.phase,
            status: BenchmarkStatus::Idle,
            operation_id: None,
            ..b
        } && post.phase@ == "completed"@,
    }
}

/// `app` after the run reported `event`.
pub open spec fn benchmark_event_applied(pre: App, event: BenchmarkEvent, post: App) -> bool {
    post == with_benchmark(pre, post.benchmark) && controls_after_event(pre.benchmark, event, post.benchmark)
}

/// The benchmark controls after a key without Control other than Enter, while no run goes
/// on; `models` is the number of loaded models.
pub open spec fn controls_keyed(b: BenchmarkControls, code: KeyCode, models: nat, post: BenchmarkControls) -> bool {
    match code {
        KeyCode::Backspace => post == BenchmarkControls { prompt: post.prompt, ..b } && post.prompt@ == (
        if b.prompt@.len() > 0 {
            b.prompt@.drop_last()
        } else {
            b.prompt@
        }),
        KeyCode::Left => post == BenchmarkControls { model_index: one_less(b.model_index), ..b },
        KeyCode::Right => post == BenchmarkControls {
            model_index: one_more_up_to(b.model_index, one_less(models as usize)),
            ..b
        },
        KeyCode::Up => post == BenchmarkControls { samples: one_more_up_to(b.samples, MAX_SAMPLES), ..b },
        KeyCode::Down => post == BenchmarkControls {
            samples: if b.samples > 1 { (b.samples - 1) as usize } else { 1 },
            ..b
        },
        KeyCode::PageUp => post == BenchmarkControls { warmup: one_more_up_to(b.warmup, MAX_WARMUP), ..b },
        KeyCode::PageDown => post == BenchmarkControls { warmup: one_less(b.warmup), ..b },
        KeyCode::Char(c) => post == BenchmarkControls { prompt: post.prompt, ..b } && post.prompt@
            == b.prompt@.push(c),
        _ => post == b,
    }
}

/// `app` after a key on the benchmarks screen. During a run only `x` acts: it asks to cancel
/// the run once its operation is known. Otherwise Control+`k` clears the prompt, Control+`e`
/// asks to export the last run; Enter starts a run, the arrows pick the model (left, right)
/// and the samples (up, down, one to twenty), the page keys the warmup (zero to ten), and
/// typing and Backspace edit the prompt.
#[verifier::opaque]
pub open spec fn benchmark_key_handled(pre: App, key: KeyEvent, post: App, command: Option<Command>) -> bool {
    let b = pre.benchmark;
    let code = key.code;
    if b.status == BenchmarkStatus::Running {
        if (code == KeyCode::Char('x') || code == KeyCode::Char('X')) && b.operation_id is Some {
            &&& command == Some(Command::CancelOperation { operation_id: b.operation_id->0 })
            &&& post == with_benchmark(pre, BenchmarkControls { phase: post.benchmark.phase, ..b })
            &&& post.benchmark.phase@ == "cancelling"@
        } else {
            command is None && post == pre
        }
    } else if key.control {
        match code {
            KeyCode::Char('k') | KeyCode::Char('K') => command is None && post == with_benchmark(
                pre,
                BenchmarkControls { prompt: post.benchmark.prompt, ..b },
            ) && post.benchmark.prompt@.len() == 0,
            KeyCode::Char('e') | KeyCode::Char('E') => command == Some(Command::ExportBenchmark)
                && post == pre,
            _ => command is None && post == pre,
        }
    } else if code == KeyCode::Enter {
        benchmark_started(pre, post, command)
    } else {
        &&& command is None
        &&& post == with_benchmark(pre, post.benchmark)
        &&& controls_keyed(b, code, pre.models@.len(), post.benchmark)
    }
}

/// The phase text of generation `index` of `total`, such as `sample 2/3`.
pub fn run_phase(kind: &str, index: usize, total: usize) -> (phase: String)
    ensures
        phase@ == kind@ + " "@ + decimal_chars(index as nat) + "/"@ + decimal_chars(total as nat),
{
    let mut phase = join(kind, " ");
    phase.append(decimal(index as u64).as_str());
    phase.append("/");
    phase.append(decimal(total as u64).as_str());
    phase
}

/// A model name as a file name: each character that is not an ASCII letter or digit becomes
/// `-`.
pub open spec fn file_name_chars(model: Seq<char>) -> Seq<char> {
    model.map_values(|c: char| if ('a' <= c <= 'z') || ('A' <= c <= 'Z') || ('0' <= c <= '9') {
        c
    } else {
        '-'
    })
}

/// The file name, without extension, of a run of `model` exported at `stamp` seconds after
/// the epoch.
pub fn export_stem(stamp: u64, model: &str) -> (stem: String)
    ensures
        stem@ == decimal_chars(stamp as nat) + "-"@ + file_name_chars(model@),
{
    let mut stem = decimal(stamp);
    stem.append("-");
    let ghost prefix = stem@;
    let count = vstd::string::StrSliceExecFns::unicode_len(model);
    let mut i: usize = 0;
    while i < count
        invariant
            count == model@.len(),
            i <= count,
            stem@ == prefix + file_name_chars(model@.take(i as int)),
        decreases count - i,
    {
        let c = vstd::string::StrSliceExecFns::get_char(model, i);
        let kept = ('a' <= c && c <= 'z') || ('A' <= c && c <= 'Z') || ('0' <= c && c <= '9');
        push_char(&mut stem, if kept { c } else { '-' });
        proof {
            assert(file_name_chars(model@.take(i + 1)) =~= file_name_chars(model@.take(i as int)).push(
                if kept { c } else { '-' },
            ));
        }
        i += 1;
    }
    proof {
        assert(model@.take(count as int) =~= model@);
    }
    stem
}

impl BenchmarkControls {
    /// A copy of the controls.
    pub fn clone_controls(&self) -> (copy: BenchmarkControls)
        ensures
            copy == *self,
    {
        BenchmarkControls {
            prompt: self.prompt.clone(),
            warmup: self.warmup,
            samples: self.samples,
            completed: self.completed,
            phase: self.phase.clone(),
            status: self.status,
            model_index: self.model_index,
            error: match &self.error {
                Some(e) => Some(e.clone()),
                None => None,
            },
            operation_id: match &self.operation_id {
                Some(id) => Some(id.clone()),
                None => None,
            },
            running_model: self.running_model.clone(),
        }
    }

    /// The controls after the run reported `event`.
    pub fn after_event(self, event: BenchmarkEvent) -> (post: BenchmarkControls)
        ensures
            controls_after_event(self, event, post),
    {
        let mut b = self;
        match event {
            BenchmarkEvent::Phase(phase) => b.phase = phase,
            BenchmarkEvent::Started(id) => b.operation_id = Some(id),
            BenchmarkEvent::Sample => b.completed = b.completed.saturating_add(1),
            BenchmarkEvent::Finished => {
                b.status = BenchmarkStatus::Idle;
                b.phase = "completed".to_owned();
                b.operation_id = None;
            },
        }
        b
    }

    /// The controls after a key without Control other than Enter; `models` is the number of
    /// loaded models.
    pub fn keyed(self, code: KeyCode, models: usize) -> (post: BenchmarkControls)
        ensures
            controls_keyed(self, code, models as nat, post),
    {
        let mut b = self;
        match code {
            KeyCode::Backspace => {
                pop_char(&mut b.prompt);
            },
            KeyCode::Left => b.model_index = b.model_index.saturating_sub(1),
            KeyCode::Right => {
                let next = b.model_index.saturating_add(1);
                let last = models.saturating_sub(1);
                b.model_index = if next < last { next } else { last };
            },
            KeyCode::Up => {
                let next = b.samples.saturating_add(1);
                b.samples = if next < MAX_SAMPLES { next } else { MAX_SAMPLES };
            },
            KeyCode::Down => {
                let next = b.samples.saturating_sub(1);
                b.samples = if next > 1 { next } else { 1 };
            },
            KeyCode::PageUp => {
                let next = b.warmup.saturating_add(1);
                b.warmup = if next < MAX_WARMUP { next } else { MAX_WARMUP };
            },
            KeyCode::PageDown => b.warmup = b.warmup.saturating_sub(1),
            KeyCode::Char(c) => push_char(&mut b.prompt, c),
            _ => {},
        }
        b
    }
}

impl App {
    /// Starts a benchmark run of the prompt on the model at the benchmark selection.
    pub fn start_benchmark(&mut self) -> (command: Option<Command>)
        ensures
            benchmark_started(*old(self), *final(self), command),
    {
        if self.benchmark.model_index >= self.models.len() {
            self.benchmark.error = Some("load a model before benchmarking".to_owned());
            return None;
        }
        if !has_text(self.benchmark.prompt.as_str()) {
            self.benchmark.error = Some("enter a benchmark prompt".to_owned());
            return None;
        }
        let prompt = trimmed(self.benchmark.prompt.as_str());
        let model = self.models[self.benchmark.model_index].id.clone();
        let request = GenerateRequest {
            model: model.clone(),
            prompt,
            max_tokens: Some(BENCHMARK_MAX_TOKENS),
            temperature: None,
            top_p: None,
            top_k: None,
            repetition_penalty: None,
            seed: Some(BENCHMARK_SEED),
            messages: Vec::new(),
            image: None,
        };
        self.benchmark.running_model = model;
        self.benchmark.completed = 0;
        self.benchmark.phase = "starting".to_owned();
        self.benchmark.status = BenchmarkStatus::Running;
        self.benchmark.error = None;
        Some(
            Command::StartBenchmark {
                request,
                warmup: self.benchmark.warmup,
                samples: self.benchmark.samples,
            },
        )
    }

    /// Takes an event of the benchmark run.
    pub fn apply_benchmark_event(&mut self, event: BenchmarkEvent)
        ensures
            benchmark_event_applied(*old(self), event, *final(self)),
    {
        let controls = self.benchmark.clone_controls().after_event(event);
        self.benchmark = controls;
    }

    /// The benchmark run failed with `error`.
    pub fn fail_benchmark(&mut self, error: String)
        ensures
            benchmark_ended(*old(self), "failed"@, Some(error), *final(self)),
    {
        self.benchmark.error = Some(error);
        self.benchmark.status = BenchmarkStatus::Idle;
        self.benchmark.phase = "failed".to_owned();
        self.benchmark.operation_id = None;
    }

    /// The benchmark stream ended: a run that was still going fails.
    pub fn benchmark_closed(&mut self)
        ensures
            old(self).benchmark.status == BenchmarkStatus::Running ==> benchmark_ended(
                *old(self),
                "failed"@,
                final(self).benchmark.error,
                *final(self),
            ) && (final(self).benchmark.error matches Some(m) && m@
                == "benchmark stream ended unexpectedly"@),
            old(self).benchmark.status != BenchmarkStatus::Running ==> *final(self) == *old(self),
    {
        if self.benchmark.status == BenchmarkStatus::Running {
            self.fail_benchmark("benchmark stream ended unexpectedly".to_owned());
        }
    }

    /// Takes the outcome of an export: the path stem of the written files, or the error.
    pub fn apply_export_result(&mut self, result: Result<String, String>)
        ensures
            *final(self) == with_benchmark(
                *old(self),
                BenchmarkControls { error: final(self).benchmark.error, ..old(self).benchmark },
            ),
            final(self).benchmark.error matches Some(m) && m@ == match result {
                Ok(stem) => "exported "@ + stem@ + ".json and .csv"@,
                Err(e) => e@,
            },
    {
        let message = match result {
            Ok(stem) => {
                let mut message = join("exported ", stem.as_str());
                message.append(".json and .csv");
                message
            },
            Err(error) => error,
        };
        self.benchmark.error = Some(message);
    }

    /// A key while a run goes on: `x` asks to cancel it once its operation is known.
    fn running_benchmark_key(&mut self, key: KeyEvent) -> (command: Option<Command>)
        requires
            old(self).benchmark.status == BenchmarkStatus::Running,
        ensures
            benchmark_key_handled(*old(self), key, *final(self), command),
    {
        reveal(benchmark_key_handled);
        let cancel = match key.code {
            KeyCode::Char(c) => c == 'x' || c == 'X',
            _ => false,
        };
        if !cancel {
            return None;
        }
        match &self.benchmark.operation_id {
            Some(id) => {
                let operation_id = id.clone();
                self.benchmark.phase = "cancelling".to_owned();
                Some(Command::CancelOperation { operation_id })
            },
            None => None,
        }
    }

    /// A key on the benchmarks screen.
    pub fn handle_benchmark_key(&mut self, key: KeyEvent) -> (command: Option<Command>)
        ensures
            benchmark_key_handled(*old(self), key, *final(self), command),
    {
        if self.benchmark.status == BenchmarkStatus::Running {
            return self.running_benchmark_key(key);
        }
        self.idle_benchmark_key(key)
    }

    /// A key on the benchmarks screen while no run goes on.
    fn idle_benchmark_key(&mut self, key: KeyEvent) -> (command: Option<Command>)
        requires
            old(self).benchmark.status != BenchmarkStatus::Running,
        ensures
            benchmark_key_handled(*old(self), key, *final(self), command),
    {
        reveal(benchmark_key_handled);
        if key.control {
            return match key.code {
                KeyCode::Char(c) => if c == 'k' || c == 'K' {
                    self.benchmark.prompt = String::new();
                    None
                } else if c == 'e' || c == 'E' {
                    Some(Command::ExportBenchmark)
                } else {
                    None
                },
                _ => None,
            };
        }
        if key.code == KeyCode::Enter {
            return self.start_benchmark();
        }
        let controls = self.benchmark.clone_controls().keyed(key.code, self.models.len());
        self.benchmark = controls;
        None
    }
}

} // verus!
