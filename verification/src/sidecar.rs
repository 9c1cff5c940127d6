//! The llama-server sidecar: its settings, how it is launched, what its
//! status reports, and which installed model a request runs on.
use vstd::prelude::*;
use crate::text::{
    opt_text, same_chars, chars_of, string_of, owned, decimal, decimal_chars, signed_decimal, signed_decimal_chars, push_all,
    to_lowercase, lowercase, replace, replace_all, contains, contains_seq,
};
use crate::json::push_text;
use crate::models::{ModelListing, pulled_filename, find_file_spec, find_file, lemma_find_file_spec};
use crate::model_resolver::resolve_model_source;

verus! {

/// What the status of the sidecar reports.
pub struct SidecarStatus {
    pub is_running: bool,
    pub current_model: Option<String>,
    pub host: String,
    pub port: u16,
    pub api_url: String,
    pub n_gpu_layers: i32,
    pub context_size: usize,
    pub threads: usize,
}

/// The sidecar's settings and the model it was last started on.
pub struct SidecarSettings {
    pub current_model: Option<String>,
    pub current_model_path: Option<String>,
    pub host: String,
    pub port: u16,
    pub internal_port: u16,
    pub n_gpu_layers: i32,
    pub context_size: usize,
    pub threads: usize,
}

/// The contents of a [`SidecarStatus`].
pub struct StatusView {
    pub is_running: bool,
    pub current_model: Option<Seq<char>>,
    pub host: Seq<char>,
    pub port: u16,
    pub api_url: Seq<char>,
    pub n_gpu_layers: i32,
    pub context_size: usize,
    pub threads: usize,
}

impl View for SidecarStatus {
    type V = StatusView;

    open spec fn view(&self) -> StatusView {
        StatusView {
            is_running: self.is_running,
            current_model: opt_text(self.current_model),
            host: self.host@,
            port: self.port,
            api_url: self.api_url@,
            n_gpu_layers: self.n_gpu_layers,
            context_size: self.context_size,
            threads: self.threads,
        }
    }
}

/// The contents of [`SidecarSettings`].
pub struct SettingsView {
    pub current_model: Option<Seq<char>>,
    pub current_model_path: Option<Seq<char>>,
    pub host: Seq<char>,
    pub port: u16,
    pub internal_port: u16,
    pub n_gpu_layers: i32,
    pub context_size: usize,
    pub threads: usize,
}

impl View for SidecarSettings {
    type V = SettingsView;

    open spec fn view(&self) -> SettingsView {
        SettingsView {
            current_model: opt_text(self.current_model),
            current_model_path: opt_text(self.current_model_path),
            host: self.host@,
            port: self.port,
            internal_port: self.internal_port,
            n_gpu_layers: self.n_gpu_layers,
            context_size: self.context_size,
            threads: self.threads,
        }
    }
}

/// The settings once the sidecar has been stopped: no model, the rest kept.
pub open spec fn stopped(s: SettingsView) -> SettingsView {
    SettingsView { current_model: None, current_model_path: None, ..s }
}

/// The status reported for settings `s`, given whether the engine runs.
pub open spec fn status_of(s: SettingsView, is_running: bool) -> StatusView {
    StatusView {
        is_running,
        current_model: s.current_model,
        host: s.host,
        port: s.port,
        api_url: api_url_text(s.host, s.port as nat),
        n_gpu_layers: s.n_gpu_layers,
        context_size: s.context_size,
        threads: s.threads,
    }
}

/// The settings after launching `model_path` (file name `filename`) with
/// `host`, `port`, GPU layers, context size and threads.
pub open spec fn launched(
    s: SettingsView,
    host: Seq<char>,
    port: u16,
    n_gpu_layers: i32,
    context_size: usize,
    threads: usize,
    model_path: Seq<char>,
    filename: Seq<char>,
) -> SettingsView {
    SettingsView {
        current_model: Some(filename),
        current_model_path: Some(model_path),
        host,
        port,
        internal_port: s.internal_port,
        n_gpu_layers,
        context_size,
        threads,
    }
}

/// The number of threads used when none is asked for: the machine's
/// parallelism (four when unknown), at most eight.
pub open spec fn default_threads_spec(available: Option<usize>) -> usize {
    let n = match available {
        Some(n) => n,
        None => 4,
    };
    if n < 8 { n } else { 8 }
}

/// The number of threads used when none is asked for.
pub fn default_threads(available: Option<usize>) -> (res: usize)
    ensures
        res == default_threads_spec(available),
{
    let n = match available {
        Some(n) => n,
        None => 4,
    };
    if n < 8 { n } else { 8 }
}

/// `http://<host>:<port>`.
pub open spec fn api_url_text(host: Seq<char>, port: nat) -> Seq<char> {
    "http://"@ + host + ":"@ + decimal(port)
}

fn api_url(host: &str, port: u16) -> (res: String)
    ensures
        res@ == api_url_text(host@, port as nat),
{
    let mut out = chars_of("http://");
    push_text(&mut out, host);
    push_text(&mut out, ":");
    push_all(&mut out, &decimal_chars(port as u64));
    string_of(&out)
}

impl SidecarSettings {
    /// The settings of a sidecar that has not been started: loopback host,
    /// public port 11434, engine port 11435, 99 GPU layers, an 8192-token
    /// context and the default thread count.
    pub fn new(available: Option<usize>) -> (res: SidecarSettings)
        ensures
            res.current_model is None,
            res.current_model_path is None,
            res.host@ == "127.0.0.1"@,
            res.port == 11434,
            res.internal_port == 11435,
            res.n_gpu_layers == 99,
            res.context_size == 8192,
            res.threads == default_threads_spec(available),
    {
        SidecarSettings {
            current_model: None,
            current_model_path: None,
            host: owned("127.0.0.1"),
            port: 11434,
            internal_port: 11435,
            n_gpu_layers: 99,
            context_size: 8192,
            threads: default_threads(available),
        }
    }

    /// Forgets the model once the sidecar has been stopped.
    pub fn stop(&mut self)
        ensures
            final(self)@ == stopped(old(self)@),
    {
        self.current_model = None;
        self.current_model_path = None;
    }

    /// The status reported, given whether the engine process is running.
    pub fn status(&self, is_running: bool) -> (res: SidecarStatus)
        ensures
            res@ == status_of(self@, is_running),
    {
        SidecarStatus {
            is_running,
            current_model: match &self.current_model {
                Some(m) => Some(owned(m.as_str())),
                None => None,
            },
            host: owned(self.host.as_str()),
            port: self.port,
            api_url: api_url(self.host.as_str(), self.port),
            n_gpu_layers: self.n_gpu_layers,
            context_size: self.context_size,
            threads: self.threads,
        }
    }
}

/// How the engine is launched: its arguments and the settings it runs with.
pub struct LaunchPlan {
    pub args: Vec<String>,
    pub host: String,
    pub port: u16,
    pub n_gpu_layers: i32,
    pub context_size: usize,
    pub threads: usize,
}

/// The engine's command-line arguments.
pub open spec fn launch_args(model_path: Seq<char>, host: Seq<char>, internal_port: nat, n_gpu_layers: int, context_size: nat, threads: nat) -> Seq<Seq<char>> {
    seq!["-m"@, model_path, "--host"@, host, "--port"@, decimal(internal_port), "-ngl"@, signed_decimal(n_gpu_layers),
        "-c"@, decimal(context_size), "-t"@, decimal(threads)]
}

/// The launch for `model_path` with the settings asked for, defaulting to a
/// loopback host, public port 11434, 99 GPU layers, an 8192-token context
/// and the default thread count; the engine listens on `internal_port`.
pub fn plan_launch(
    model_path: &str,
    host: Option<String>,
    public_port: Option<u16>,
    n_gpu_layers: Option<i32>,
    context_size: Option<usize>,
    threads: Option<usize>,
    internal_port: u16,
    available: Option<usize>,
) -> (res: LaunchPlan)
    ensures
        res.host@ == match host {
            Some(h) => h@,
            None => "127.0.0.1"@,
        },
        res.port == match public_port {
            Some(p) => p,
            None => 11434u16,
        },
        res.n_gpu_layers == match n_gpu_layers {
            Some(n) => n,
            None => 99i32,
        },
        res.context_size == match context_size {
            Some(c) => c,
            None => 8192usize,
        },
        res.threads == match threads {
            Some(t) => t,
            None => default_threads_spec(available),
        },
        crate::text::string_views(res.args@) == launch_args(
            model_path@,
            res.host@,
            internal_port as nat,
            res.n_gpu_layers as int,
            res.context_size as nat,
            res.threads as nat,
        ),
{
    let target_host = match host {
        Some(h) => h,
        None => owned("127.0.0.1"),
    };
    let port = match public_port {
        Some(p) => p,
        None => 11434,
    };
    let ngl = match n_gpu_layers {
        Some(n) => n,
        None => 99,
    };
    let ctx = match context_size {
        Some(c) => c,
        None => 8192,
    };
    let t = match threads {
        Some(t) => t,
        None => default_threads(available),
    };
    let mut args: Vec<String> = Vec::new();
    args.push(owned("-m"));
    args.push(owned(model_path));
    args.push(owned("--host"));
    args.push(owned(target_host.as_str()));
    args.push(owned("--port"));
    args.push(string_of(&decimal_chars(internal_port as u64)));
    args.push(owned("-ngl"));
    args.push(string_of(&signed_decimal_chars(ngl)));
    args.push(owned("-c"));
    args.push(string_of(&decimal_chars(ctx as u64)));
    args.push(owned("-t"));
    args.push(string_of(&decimal_chars(t as u64)));
    assert(crate::text::string_views(args@) =~= launch_args(
        model_path@,
        target_host@,
        internal_port as nat,
        ngl as int,
        ctx as nat,
        t as nat,
    ));
    LaunchPlan { args, host: target_host, port, n_gpu_layers: ngl, context_size: ctx, threads: t }
}

impl SidecarSettings {
    /// Records a launch of `model_path` (file name `filename`) by `plan`.
    pub fn record_launch(&mut self, plan: &LaunchPlan, model_path: &str, filename: &str)
        ensures
            final(self)@ == launched(
                old(self)@,
                plan.host@,
                plan.port,
                plan.n_gpu_layers,
                plan.context_size,
                plan.threads,
                model_path@,
                filename@,
            ),
    {
        self.current_model = Some(owned(filename));
        self.current_model_path = Some(owned(model_path));
        self.host = owned(plan.host.as_str());
        self.port = plan.port;
        self.n_gpu_layers = plan.n_gpu_layers;
        self.context_size = plan.context_size;
        self.threads = plan.threads;
    }
}

/// The status returned right after launching `model_path` by `plan`: running,
/// on that path, with the plan's settings.
pub fn launch_status(plan: &LaunchPlan, model_path: &str) -> (res: SidecarStatus)
    ensures
        res@ == (StatusView {
            is_running: true,
            current_model: Some(model_path@),
            host: plan.host@,
            port: plan.port,
            api_url: api_url_text(plan.host@, plan.port as nat),
            n_gpu_layers: plan.n_gpu_layers,
            context_size: plan.context_size,
            threads: plan.threads,
        }),
{
    SidecarStatus {
        is_running: true,
        current_model: Some(owned(model_path)),
        host: owned(plan.host.as_str()),
        port: plan.port,
        api_url: api_url(plan.host.as_str(), plan.port),
        n_gpu_layers: plan.n_gpu_layers,
        context_size: plan.context_size,
        threads: plan.threads,
    }
}

} // verus!

verus! {

/// How a model hint is compared with model names: without `:latest`, lower-cased.
pub open spec fn hint_key(hint: Seq<char>) -> Seq<char> {
    lowercase(replace_all(hint, ":latest"@, Seq::<char>::empty()))
}

/// Which model a request runs on.
pub enum ModelChoice {
    /// Keep the running model, by this name.
    Keep(String),
    /// Start the installed model at this index.
    Start(usize),
    /// No model is installed.
    NoneInstalled,
}

/// The first installed model whose lower-cased file name contains `key`.
pub open spec fn first_containing(installed: Seq<ModelListing>, key: Seq<char>) -> Option<int>
    decreases installed.len(),
{
    if installed.len() == 0 {
        None
    } else {
        match first_containing(installed.drop_last(), key) {
            Some(i) => Some(i),
            None => if contains_seq(lowercase(installed.last().filename@), key) {
                Some(installed.len() - 1)
            } else {
                None
            },
        }
    }
}

proof fn lemma_first_containing(installed: Seq<ModelListing>, key: Seq<char>)
    ensures
        match first_containing(installed, key) {
            Some(i) => 0 <= i < installed.len() && contains_seq(lowercase(installed[i].filename@), key)
                && forall|k: int| 0 <= k < i ==> !contains_seq(lowercase(#[trigger] installed[k].filename@), key),
            None => forall|k: int|
                0 <= k < installed.len() ==> !contains_seq(lowercase(#[trigger] installed[k].filename@), key),
        },
    decreases installed.len(),
{
    if installed.len() > 0 {
        lemma_first_containing(installed.drop_last(), key);
        assert forall|k: int| 0 <= k < installed.len() - 1 implies installed[k] == installed.drop_last()[k] by {}
    }
}

/// The model a request with `hint` runs on: the running model when there is
/// one and the hint is empty, names it, or is a name that a pull stores in
/// its file; otherwise the installed file that a pull of the hint stores,
/// then the first installed model whose name contains the hint, then the
/// first installed model.
pub open spec fn model_choice_spec(is_running: bool, current: Option<Seq<char>>, hint: Seq<char>, installed: Seq<ModelListing>) -> (int, Seq<char>) {
    let key = hint_key(hint);
    let target = pulled_filename(hint);
    if is_running && current is Some && (key.len() == 0 || contains_seq(lowercase(current->0), key)
        || target == Some(current->0)) {
        (0, current->0)
    } else if installed.len() == 0 {
        (1, Seq::empty())
    } else if key.len() == 0 {
        (2, Seq::empty())
    } else if target is Some && find_file_spec(installed, target->0) is Some {
        (2 + find_file_spec(installed, target->0)->0, Seq::empty())
    } else {
        match first_containing(installed, key) {
            Some(i) => (2 + i, Seq::empty()),
            None => (2, Seq::empty()),
        }
    }
}

/// Law: a request whose hint names no running model runs on the model the
/// hint names, whether or not an engine is running: the installed file
/// that a pull of the hint stores, when one is installed; else the first
/// installed model whose lower-cased file name contains the hint's key;
/// only when neither exists, the first installed model.
pub proof fn lemma_choice_follows_the_hint(
    is_running: bool,
    current: Option<Seq<char>>,
    hint: Seq<char>,
    installed: Seq<ModelListing>,
)
    requires
        installed.len() > 0,
        hint_key(hint).len() > 0,
        !(is_running && current is Some && (contains_seq(lowercase(current->0), hint_key(hint))
            || pulled_filename(hint) == current)),
    ensures
        ({
            let j = model_choice_spec(is_running, current, hint, installed).0 - 2;
            let key = hint_key(hint);
            let pulled_installed = exists|i: int|
                0 <= i < installed.len() && pulled_filename(hint) == Some(#[trigger] installed[i].filename@);
            let some_contains = exists|i: int|
                0 <= i < installed.len() && contains_seq(lowercase(#[trigger] installed[i].filename@), key);
            &&& 0 <= j < installed.len()
            &&& pulled_installed ==> pulled_filename(hint) == Some(installed[j].filename@)
            &&& (!pulled_installed && some_contains) ==> contains_seq(lowercase(installed[j].filename@), key)
                && forall|k: int| 0 <= k < j ==> !contains_seq(lowercase(#[trigger] installed[k].filename@), key)
            &&& (!pulled_installed && !some_contains) ==> j == 0
        }),
{
    let key = hint_key(hint);
    lemma_first_containing(installed, key);
    match pulled_filename(hint) {
        Some(f) => {
            lemma_find_file_spec(installed, f);
        },
        None => {},
    }
}

/// Law: a request runs on the running model when its hint is empty, names
/// that model, or is a name a pull stores in that model's file.
pub proof fn lemma_running_model_kept(current: Seq<char>, hint: Seq<char>, installed: Seq<ModelListing>)
    requires
        hint_key(hint).len() == 0 || contains_seq(lowercase(current), hint_key(hint))
            || pulled_filename(hint) == Some(current),
    ensures
        model_choice_spec(true, Some(current), hint, installed) == (0int, current),
{
}

/// Chooses the model a request with `hint` runs on (the decision of
/// ensuring a model is running).
pub fn choose_model(is_running: bool, current: Option<&str>, hint: &str, installed: &Vec<ModelListing>) -> (res: ModelChoice)
    ensures
        ({
            let s = model_choice_spec(
                is_running,
                match current { Some(c) => Some(c@), None => None },
                hint@,
                installed@,
            );
            match res {
                ModelChoice::Keep(name) => s.0 == 0 && name@ == s.1,
                ModelChoice::NoneInstalled => s.0 == 1,
                ModelChoice::Start(i) => s.0 == 2 + i && i < installed@.len(),
            }
        }),
{
    proof {
        reveal_strlit(":latest");
        lemma_first_containing(installed@, hint_key(hint@));
    }
    let stripped = replace(&chars_of(hint), &chars_of(":latest"), &Vec::new());
    let key = to_lowercase(&stripped);
    let target = match resolve_model_source(hint) {
        Some(src) => Some(src.filename),
        None => None,
    };
    assert(opt_text(target) == pulled_filename(hint@));
    if is_running {
        match current {
            Some(cur) => {
                let names_target = match &target {
                    Some(f) => same_chars(&chars_of(f.as_str()), &chars_of(cur)),
                    None => false,
                };
                if key.len() == 0 || contains(&to_lowercase(&chars_of(cur)), &key) || names_target {
                    return ModelChoice::Keep(owned(cur));
                }
            },
            None => {},
        }
    }
    if installed.len() == 0 {
        return ModelChoice::NoneInstalled;
    }
    if key.len() == 0 {
        return ModelChoice::Start(0);
    }
    match &target {
        Some(f) => {
            proof {
                lemma_find_file_spec(installed@, f@);
            }
            match find_file(installed, f.as_str()) {
                Some(i) => {
                    assert(find_file_spec(installed@, f@) == Some(i as int));
                    return ModelChoice::Start(i);
                },
                None => {},
            }
        },
        None => {},
    }
    let n = installed.len();
    for i in 0..n
        invariant
            n == installed@.len(),
            n > 0,
            key@ == hint_key(hint@),
            key@.len() > 0,
            !(is_running && current is Some && (contains_seq(lowercase(current->0@), key@)
                || pulled_filename(hint@) == Some(current->0@))),
            !(pulled_filename(hint@) is Some && find_file_spec(installed@, pulled_filename(hint@)->0) is Some),
            forall|k: int| 0 <= k < i ==> !contains_seq(lowercase(#[trigger] installed@[k].filename@), key@),
            match first_containing(installed@, key@) {
                Some(j) => 0 <= j < installed@.len() && contains_seq(lowercase(installed@[j].filename@), key@)
                    && forall|k: int| 0 <= k < j ==> !contains_seq(lowercase(#[trigger] installed@[k].filename@), key@),
                None => forall|k: int|
                    0 <= k < installed@.len() ==> !contains_seq(lowercase(#[trigger] installed@[k].filename@), key@),
            },
    {
        if contains(&to_lowercase(&chars_of(installed[i].filename.as_str())), &key) {
            return ModelChoice::Start(i);
        }
    }
    ModelChoice::Start(0)
}

/// The error when no model is installed.
pub fn no_models_message() -> (res: String)
    ensures
        res@ == "No installed models found. Download or import a model in the Models tab first."@,
{
    owned("No installed models found. Download or import a model in the Models tab first.")
}

/// The error when the engine binary is missing.
pub fn engine_missing_message() -> (res: String)
    ensures
        res@ == "llama-server binary is not installed. Please download engine in the Engine tab first."@,
{
    owned("llama-server binary is not installed. Please download engine in the Engine tab first.")
}

/// The error when the model file to start is missing.
pub fn model_file_missing_message(model_path: &str) -> (res: String)
    ensures
        res@ == "Model file not found: "@ + model_path@,
{
    let mut out = chars_of("Model file not found: ");
    push_text(&mut out, model_path);
    string_of(&out)
}

} // verus!

verus! {

/// Law: the status read after a launch gives back what was launched: the
/// engine runs the launched file, with the launch's host, port, GPU layers,
/// context size and threads.
pub proof fn lemma_status_reads_back_launch(
    s: SettingsView,
    host: Seq<char>,
    port: u16,
    n_gpu_layers: i32,
    context_size: usize,
    threads: usize,
    model_path: Seq<char>,
    filename: Seq<char>,
)
    ensures
        status_of(launched(s, host, port, n_gpu_layers, context_size, threads, model_path, filename), true)
            == (StatusView {
            is_running: true,
            current_model: Some(filename),
            host,
            port,
            api_url: api_url_text(host, port as nat),
            n_gpu_layers,
            context_size,
            threads,
        }),
{
}

/// Law: after a stop the status names no model, and reports every setting
/// as before.
pub proof fn lemma_stop_forgets_model(s: SettingsView, is_running: bool)
    ensures
        status_of(stopped(s), is_running).current_model is None,
        status_of(stopped(s), is_running) == (StatusView { current_model: None, ..status_of(s, is_running) }),
{
}

/// Law: stopping twice is stopping once.
pub proof fn lemma_stop_is_idempotent(s: SettingsView)
    ensures
        stopped(stopped(s)) == stopped(s),
{
}

} // verus!
