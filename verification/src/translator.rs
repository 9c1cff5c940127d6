//! Translation between Ollama requests and the inference engine's API, and
//! the newline-delimited JSON lines that stream back to Ollama clients.
use vstd::prelude::*;
use crate::text::{decimal, string_of, owned, chars_of};
use crate::json::{Json, json_document, parse_json, at_key, at_index, text_in, flag_in, take_key, take_index, take_text, text_at, flag_at, json_quoted, push_text, push_json_string, push_decimal, lemma_quoted_has_no_line_feed, members_view, member, get_member};
use crate::clock::{chrono_iso_now, epoch_millis_text};

verus! {

/// `true` or `false` as JSON.
pub open spec fn json_bool(b: bool) -> Seq<char> {
    if b { "true"@ } else { "false"@ }
}

fn push_bool(out: &mut Vec<char>, b: bool)
    ensures
        final(out)@ == old(out)@ + json_bool(b),
{
    if b {
        push_text(out, "true");
    } else {
        push_text(out, "false");
    }
}

/// One streamed chat line: the assistant message fragment `content` of
/// `model`, stamped `created_at`.
pub open spec fn chat_chunk_text(model: Seq<char>, content: Seq<char>, done: bool, created_at: Seq<char>) -> Seq<char> {
    "{\"created_at\":"@ + json_quoted(created_at) + ",\"done\":"@ + json_bool(done)
        + ",\"message\":{\"content\":"@ + json_quoted(content) + ",\"role\":\"assistant\"},\"model\":"@
        + json_quoted(model) + "}\n"@
}

/// One streamed generate line: the response fragment of `model`, stamped `created_at`.
pub open spec fn generate_chunk_text(model: Seq<char>, response: Seq<char>, done: bool, created_at: Seq<char>) -> Seq<char> {
    "{\"created_at\":"@ + json_quoted(created_at) + ",\"done\":"@ + json_bool(done) + ",\"model\":"@
        + json_quoted(model) + ",\"response\":"@ + json_quoted(response) + "}\n"@
}

/// The chat line for `model`, `content` and `is_done`, stamped with `created_at`.
pub fn chat_chunk_at(model: &str, content: &str, is_done: bool, created_at: &str) -> (res: String)
    ensures
        res@ == chat_chunk_text(model@, content@, is_done, created_at@),
{
    let mut out: Vec<char> = Vec::new();
    push_text(&mut out, "{\"created_at\":");
    push_json_string(&mut out, created_at);
    push_text(&mut out, ",\"done\":");
    push_bool(&mut out, is_done);
    push_text(&mut out, ",\"message\":{\"content\":");
    push_json_string(&mut out, content);
    push_text(&mut out, ",\"role\":\"assistant\"},\"model\":");
    push_json_string(&mut out, model);
    push_text(&mut out, "}\n");
    string_of(&out)
}

/// The generate line for `model`, `response` and `is_done`, stamped with `created_at`.
pub fn generate_chunk_at(model: &str, response: &str, is_done: bool, created_at: &str) -> (res: String)
    ensures
        res@ == generate_chunk_text(model@, response@, is_done, created_at@),
{
    let mut out: Vec<char> = Vec::new();
    push_text(&mut out, "{\"created_at\":");
    push_json_string(&mut out, created_at);
    push_text(&mut out, ",\"done\":");
    push_bool(&mut out, is_done);
    push_text(&mut out, ",\"model\":");
    push_json_string(&mut out, model);
    push_text(&mut out, ",\"response\":");
    push_json_string(&mut out, response);
    push_text(&mut out, "}\n");
    string_of(&out)
}

/// A streamed chat line for `model` stamped with the current time.
pub fn format_ollama_chat_chunk(model: &str, content: &str, is_done: bool) -> (res: String)
    ensures
        exists|secs: u64, millis: u32|
            millis < 1000 && res@ == chat_chunk_text(model@, content@, is_done, epoch_millis_text(secs as nat, millis as nat)),
{
    let now = chrono_iso_now();
    chat_chunk_at(model, content, is_done, now.as_str())
}

/// A streamed generate line for `model` stamped with the current time.
pub fn format_ollama_generate_chunk(model: &str, response: &str, is_done: bool) -> (res: String)
    ensures
        exists|secs: u64, millis: u32|
            millis < 1000 && res@ == generate_chunk_text(model@, response@, is_done, epoch_millis_text(secs as nat, millis as nat)),
{
    let now = chrono_iso_now();
    generate_chunk_at(model, response, is_done, now.as_str())
}

/// The pull progress line that opens every pull.
pub fn format_pull_manifest_chunk() -> (res: String)
    ensures
        res@ == "{\"status\":\"pulling manifest\"}\n"@,
{
    let mut out: Vec<char> = Vec::new();
    push_text(&mut out, "{\"status\":\"pulling manifest\"}\n");
    string_of(&out)
}

/// The pull progress line for a download of `total` bytes, `completed` so far.
pub open spec fn pull_download_text(digest: Seq<char>, total: nat, completed: nat) -> Seq<char> {
    "{\"completed\":"@ + decimal(completed) + ",\"digest\":"@ + json_quoted(digest)
        + ",\"status\":\"downloading\",\"total\":"@ + decimal(total) + "}\n"@
}

/// The pull progress line reporting `completed` of `total` bytes under `digest`.
pub fn format_pull_download_chunk(digest: &str, total: u64, completed: u64) -> (res: String)
    ensures
        res@ == pull_download_text(digest@, total as nat, completed as nat),
{
    let mut out: Vec<char> = Vec::new();
    push_text(&mut out, "{\"completed\":");
    push_decimal(&mut out, completed);
    push_text(&mut out, ",\"digest\":");
    push_json_string(&mut out, digest);
    push_text(&mut out, ",\"status\":\"downloading\",\"total\":");
    push_decimal(&mut out, total);
    push_text(&mut out, "}\n");
    string_of(&out)
}

/// The pull progress line announcing verification.
pub fn format_pull_verifying_chunk() -> (res: String)
    ensures
        res@ == "{\"status\":\"verifying sha256 digest\"}\n"@,
{
    let mut out: Vec<char> = Vec::new();
    push_text(&mut out, "{\"status\":\"verifying sha256 digest\"}\n");
    string_of(&out)
}

/// The pull progress line that closes a successful pull.
pub fn format_pull_success_chunk() -> (res: String)
    ensures
        res@ == "{\"status\":\"success\"}\n"@,
{
    let mut out: Vec<char> = Vec::new();
    push_text(&mut out, "{\"status\":\"success\"}\n");
    string_of(&out)
}

/// `line` is one NDJSON record: it ends with its only line feed.
pub open spec fn is_single_line(line: Seq<char>) -> bool {
    line.len() > 0 && line.last() == '\n' && !line.drop_last().contains('\n')
}

} // verus!

verus! {

/// Joining two sequences without line feeds gives one without line feeds.
pub proof fn lemma_no_line_feed_concat(a: Seq<char>, b: Seq<char>)
    requires
        !a.contains('\n'),
        !b.contains('\n'),
    ensures
        !(a + b).contains('\n'),
{
    assert forall|i: int| 0 <= i < (a + b).len() implies (a + b)[i] != '\n' by {
        if i < a.len() {
            assert((a + b)[i] == a[i]);
        } else {
            assert((a + b)[i] == b[i - a.len()]);
        }
    }
}

proof fn lemma_line_of(body: Seq<char>)
    requires
        !body.contains('\n'),
    ensures
        is_single_line(body + "}\n"@),
{
    reveal_strlit("}\n");
    let line = body + "}\n"@;
    assert(line.drop_last() == body + seq!['}']);
    assert(!seq!['}'].contains('\n'));
    lemma_no_line_feed_concat(body, seq!['}']);
}

proof fn lemma_bool_has_no_line_feed(b: bool)
    ensures
        !json_bool(b).contains('\n'),
{
    reveal_strlit("true");
    reveal_strlit("false");
}

/// Law: every streamed chat line is a single NDJSON record.
pub proof fn lemma_chat_chunk_is_single_line(model: Seq<char>, content: Seq<char>, done: bool, created_at: Seq<char>)
    ensures
        is_single_line(chat_chunk_text(model, content, done, created_at)),
{
    reveal_strlit("{\"created_at\":");
    reveal_strlit(",\"done\":");
    reveal_strlit(",\"message\":{\"content\":");
    reveal_strlit(",\"role\":\"assistant\"},\"model\":");
    lemma_quoted_has_no_line_feed(created_at);
    lemma_quoted_has_no_line_feed(content);
    lemma_quoted_has_no_line_feed(model);
    lemma_bool_has_no_line_feed(done);
    let p1 = "{\"created_at\":"@ + json_quoted(created_at);
    lemma_no_line_feed_concat("{\"created_at\":"@, json_quoted(created_at));
    let p2 = p1 + ",\"done\":"@;
    lemma_no_line_feed_concat(p1, ",\"done\":"@);
    let p3 = p2 + json_bool(done);
    lemma_no_line_feed_concat(p2, json_bool(done));
    let p4 = p3 + ",\"message\":{\"content\":"@;
    lemma_no_line_feed_concat(p3, ",\"message\":{\"content\":"@);
    let p5 = p4 + json_quoted(content);
    lemma_no_line_feed_concat(p4, json_quoted(content));
    let p6 = p5 + ",\"role\":\"assistant\"},\"model\":"@;
    lemma_no_line_feed_concat(p5, ",\"role\":\"assistant\"},\"model\":"@);
    let p7 = p6 + json_quoted(model);
    lemma_no_line_feed_concat(p6, json_quoted(model));
    lemma_line_of(p7);
}

/// Law: every streamed generate line is a single NDJSON record.
pub proof fn lemma_generate_chunk_is_single_line(model: Seq<char>, response: Seq<char>, done: bool, created_at: Seq<char>)
    ensures
        is_single_line(generate_chunk_text(model, response, done, created_at)),
{
    reveal_strlit("{\"created_at\":");
    reveal_strlit(",\"done\":");
    reveal_strlit(",\"model\":");
    reveal_strlit(",\"response\":");
    lemma_quoted_has_no_line_feed(created_at);
    lemma_quoted_has_no_line_feed(response);
    lemma_quoted_has_no_line_feed(model);
    lemma_bool_has_no_line_feed(done);
    let p1 = "{\"created_at\":"@ + json_quoted(created_at);
    lemma_no_line_feed_concat("{\"created_at\":"@, json_quoted(created_at));
    let p2 = p1 + ",\"done\":"@;
    lemma_no_line_feed_concat(p1, ",\"done\":"@);
    let p3 = p2 + json_bool(done);
    lemma_no_line_feed_concat(p2, json_bool(done));
    let p4 = p3 + ",\"model\":"@;
    lemma_no_line_feed_concat(p3, ",\"model\":"@);
    let p5 = p4 + json_quoted(model);
    lemma_no_line_feed_concat(p4, json_quoted(model));
    let p6 = p5 + ",\"response\":"@;
    lemma_no_line_feed_concat(p5, ",\"response\":"@);
    let p7 = p6 + json_quoted(response);
    lemma_no_line_feed_concat(p6, json_quoted(response));
    lemma_line_of(p7);
}

/// Law: every pull progress line is a single NDJSON record.
pub proof fn lemma_pull_download_is_single_line(digest: Seq<char>, total: nat, completed: nat)
    ensures
        is_single_line(pull_download_text(digest, total, completed)),
{
    reveal_strlit("{\"completed\":");
    reveal_strlit(",\"digest\":");
    reveal_strlit(",\"status\":\"downloading\",\"total\":");
    lemma_decimal_has_no_line_feed(completed);
    lemma_decimal_has_no_line_feed(total);
    lemma_quoted_has_no_line_feed(digest);
    let p1 = "{\"completed\":"@ + decimal(completed);
    lemma_no_line_feed_concat("{\"completed\":"@, decimal(completed));
    let p2 = p1 + ",\"digest\":"@;
    lemma_no_line_feed_concat(p1, ",\"digest\":"@);
    let p3 = p2 + json_quoted(digest);
    lemma_no_line_feed_concat(p2, json_quoted(digest));
    let p4 = p3 + ",\"status\":\"downloading\",\"total\":"@;
    lemma_no_line_feed_concat(p3, ",\"status\":\"downloading\",\"total\":"@);
    let p5 = p4 + decimal(total);
    lemma_no_line_feed_concat(p4, decimal(total));
    lemma_line_of(p5);
}

/// Decimal digits are never a line feed.
pub proof fn lemma_decimal_has_no_line_feed(n: nat)
    ensures
        !decimal(n).contains('\n'),
    decreases n,
{
    if n >= 10 {
        lemma_decimal_has_no_line_feed(n / 10);
        let d = decimal(n / 10);
        let e = d.push(crate::text::digit_char(n % 10));
        assert forall|i: int| 0 <= i < e.len() implies #[trigger] e[i] != '\n' by {
            if i < d.len() {
                assert(e[i] == d[i]);
            }
        }
    }
}

} // verus!

verus! {

/// A chat message as Ollama clients send it.
pub struct OllamaChatMessage {
    pub role: String,
    pub content: String,
    pub images: Option<Vec<String>>,
}

/// The members of a JSON object. A request whose `options` is present but
/// not an object has none.
pub type JsonMembers = Vec<(String, serde_json::Value)>;

/// An Ollama `/api/chat` request.
pub struct OllamaChatRequest {
    pub model: String,
    pub messages: Vec<OllamaChatMessage>,
    pub stream: Option<bool>,
    pub options: Option<JsonMembers>,
    pub keep_alive: Option<serde_json::Value>,
}

/// An Ollama `/api/generate` request.
pub struct OllamaGenerateRequest {
    pub model: String,
    pub prompt: String,
    pub stream: Option<bool>,
    pub system: Option<String>,
    pub template: Option<String>,
    pub context: Option<Vec<i64>>,
    pub options: Option<JsonMembers>,
}

/// An Ollama `/api/embed` request.
pub struct OllamaEmbedRequest {
    pub model: String,
    pub input: serde_json::Value,
    pub truncate: Option<bool>,
    pub options: Option<JsonMembers>,
    pub keep_alive: Option<serde_json::Value>,
}

/// An Ollama `/api/embeddings` (legacy) request.
pub struct OllamaLegacyEmbeddingsRequest {
    pub model: String,
    pub prompt: String,
    pub options: Option<JsonMembers>,
    pub keep_alive: Option<serde_json::Value>,
}

/// The `stream` value a request has when it names none.
pub fn default_stream_true() -> (res: Option<bool>)
    ensures
        res == Some(true),
{
    Some(true)
}

/// The body of an OpenAI-style chat completion request to the engine.
pub struct ChatCompletionBody {
    pub messages: Vec<(String, String)>,
    pub stream: bool,
    pub sampling: Vec<(String, serde_json::Value)>,
}

/// The body of a raw completion request to the engine.
pub struct CompletionBody {
    pub prompt: String,
    pub stream: bool,
    pub sampling: Vec<(String, serde_json::Value)>,
}

/// The option values carried over, in the order of `renames`: for each
/// (option name, engine name) whose option is set, the engine name with the
/// option's value.
pub open spec fn forwarded(
    opts: Seq<(Seq<char>, serde_json::Value)>,
    renames: Seq<(Seq<char>, Seq<char>)>,
) -> Seq<(Seq<char>, serde_json::Value)>
    decreases renames.len(),
{
    if renames.len() == 0 {
        Seq::empty()
    } else {
        let before = forwarded(opts, renames.drop_last());
        match member(opts, renames.last().0) {
            Some(v) => before.push((renames.last().1, v)),
            None => before,
        }
    }
}

/// Sampling options that a chat request carries over, and their engine names.
pub open spec fn chat_option_renames() -> Seq<(Seq<char>, Seq<char>)> {
    seq![("temperature"@, "temperature"@), ("top_p"@, "top_p"@), ("top_k"@, "top_k"@),
        ("num_predict"@, "max_tokens"@), ("stop"@, "stop"@)]
}

/// Sampling options that a generate request carries over, and their engine names.
pub open spec fn generate_option_renames() -> Seq<(Seq<char>, Seq<char>)> {
    seq![("temperature"@, "temperature"@), ("top_p"@, "top_p"@), ("num_predict"@, "n_predict"@),
        ("stop"@, "stop"@)]
}

/// The forwarded options of an optional option object.
pub open spec fn forwarded_opt(opts: Option<JsonMembers>, renames: Seq<(Seq<char>, Seq<char>)>) -> Seq<(Seq<char>, serde_json::Value)> {
    match opts {
        Some(m) => forwarded(members_view(m@), renames),
        None => Seq::empty(),
    }
}

proof fn lemma_member_push(s: Seq<(Seq<char>, serde_json::Value)>, x: (Seq<char>, serde_json::Value), k: Seq<char>)
    ensures
        member(s.push(x), k) == match member(s, k) {
            Some(v) => Some(v),
            None => if x.0 == k { Some(x.1) } else { None },
        },
    decreases s.len(),
{
    let t = s.push(x);
    if s.len() > 0 {
        assert(t[0] == s[0]);
        assert(t.subrange(1, t.len() as int) == s.subrange(1, s.len() as int).push(x));
        lemma_member_push(s.subrange(1, s.len() as int), x, k);
    } else {
        assert(t[0] == x);
        assert(t.subrange(1, t.len() as int) =~= Seq::<(Seq<char>, serde_json::Value)>::empty());
        assert(member(Seq::<(Seq<char>, serde_json::Value)>::empty(), k) is None);
    }
}

proof fn lemma_member_not_renamed_to(
    opts: Seq<(Seq<char>, serde_json::Value)>,
    renames: Seq<(Seq<char>, Seq<char>)>,
    k: Seq<char>,
)
    requires
        forall|j: int| 0 <= j < renames.len() ==> #[trigger] renames[j].1 != k,
    ensures
        member(forwarded(opts, renames), k) is None,
    decreases renames.len(),
{
    if renames.len() > 0 {
        let rd = renames.drop_last();
        assert forall|j: int| 0 <= j < rd.len() implies #[trigger] rd[j].1 != k by {
            assert(rd[j] == renames[j]);
        }
        lemma_member_not_renamed_to(opts, rd, k);
        match member(opts, renames.last().0) {
            Some(v) => lemma_member_push(forwarded(opts, rd), (renames.last().1, v), k),
            None => {},
        }
    }
}

/// The renamed option `renames[i]` carries the value the option has, when
/// no two options are renamed alike.
proof fn lemma_forwarded_member(opts: Seq<(Seq<char>, serde_json::Value)>, renames: Seq<(Seq<char>, Seq<char>)>, i: int)
    requires
        0 <= i < renames.len(),
        forall|a: int, b: int| 0 <= a < b < renames.len() ==> renames[a].1 != renames[b].1,
    ensures
        member(forwarded(opts, renames), renames[i].1) == member(opts, renames[i].0),
    decreases renames.len(),
{
    let rd = renames.drop_last();
    let last = renames.last();
    let k = renames[i].1;
    if i == renames.len() - 1 {
        assert forall|j: int| 0 <= j < rd.len() implies #[trigger] rd[j].1 != k by {
            assert(rd[j] == renames[j]);
        }
        lemma_member_not_renamed_to(opts, rd, k);
    } else {
        assert(rd[i] == renames[i]);
        assert forall|a: int, b: int| 0 <= a < b < rd.len() implies rd[a].1 != rd[b].1 by {
            assert(rd[a] == renames[a] && rd[b] == renames[b]);
        }
        lemma_forwarded_member(opts, rd, i);
        assert(last.1 != k);
    }
    match member(opts, last.0) {
        Some(v) => lemma_member_push(forwarded(opts, rd), (last.1, v), k),
        None => {},
    }
}

/// Law: every sampling option a chat request sets reaches the engine with
/// its value, under the engine's name: `temperature`, `top_p`, `top_k` and
/// `stop` as they are, `num_predict` as `max_tokens`; and an option the
/// request does not set is not sent.
pub proof fn lemma_chat_options_forwarded(opts: Seq<(Seq<char>, serde_json::Value)>)
    ensures
        member(forwarded(opts, chat_option_renames()), "temperature"@) == member(opts, "temperature"@),
        member(forwarded(opts, chat_option_renames()), "top_p"@) == member(opts, "top_p"@),
        member(forwarded(opts, chat_option_renames()), "top_k"@) == member(opts, "top_k"@),
        member(forwarded(opts, chat_option_renames()), "max_tokens"@) == member(opts, "num_predict"@),
        member(forwarded(opts, chat_option_renames()), "stop"@) == member(opts, "stop"@),
{
    reveal_strlit("temperature");
    reveal_strlit("top_p");
    reveal_strlit("top_k");
    reveal_strlit("max_tokens");
    reveal_strlit("stop");
    let r = chat_option_renames();
    assert("top_p"@[4] != "top_k"@[4]);
    assert("temperature"@[1] != "top_p"@[1] && "temperature"@[1] != "top_k"@[1] && "temperature"@[0] != "max_tokens"@[0]);
    assert("temperature"@[1] != "stop"@[1] && "top_p"@[0] != "max_tokens"@[0] && "top_p"@[0] != "stop"@[0]);
    assert("top_k"@[0] != "max_tokens"@[0] && "top_k"@[0] != "stop"@[0] && "max_tokens"@[0] != "stop"@[0]);
    assert forall|a: int, b: int| 0 <= a < b < r.len() implies r[a].1 != r[b].1 by {}
    lemma_forwarded_member(opts, r, 0);
    lemma_forwarded_member(opts, r, 1);
    lemma_forwarded_member(opts, r, 2);
    lemma_forwarded_member(opts, r, 3);
    lemma_forwarded_member(opts, r, 4);
}

/// Law: every sampling option a generate request sets reaches the engine
/// with its value, under the engine's name: `temperature`, `top_p` and
/// `stop` as they are, `num_predict` as `n_predict`; and an option the
/// request does not set is not sent.
pub proof fn lemma_generate_options_forwarded(opts: Seq<(Seq<char>, serde_json::Value)>)
    ensures
        member(forwarded(opts, generate_option_renames()), "temperature"@) == member(opts, "temperature"@),
        member(forwarded(opts, generate_option_renames()), "top_p"@) == member(opts, "top_p"@),
        member(forwarded(opts, generate_option_renames()), "n_predict"@) == member(opts, "num_predict"@),
        member(forwarded(opts, generate_option_renames()), "stop"@) == member(opts, "stop"@),
{
    reveal_strlit("temperature");
    reveal_strlit("top_p");
    reveal_strlit("n_predict");
    reveal_strlit("stop");
    let r = generate_option_renames();
    assert("temperature"@[0] != "n_predict"@[0] && "top_p"@[0] != "n_predict"@[0] && "stop"@[0] != "n_predict"@[0]);
    assert("temperature"@[1] != "top_p"@[1] && "temperature"@[1] != "stop"@[1] && "top_p"@[0] != "stop"@[0]);
    assert forall|a: int, b: int| 0 <= a < b < r.len() implies r[a].1 != r[b].1 by {}
    lemma_forwarded_member(opts, r, 0);
    lemma_forwarded_member(opts, r, 1);
    lemma_forwarded_member(opts, r, 2);
    lemma_forwarded_member(opts, r, 3);
}

fn forward_one(out: &mut Vec<(String, serde_json::Value)>, opts: &JsonMembers, from: &str, to: &str)
    ensures
        members_view(final(out)@) == match member(members_view(opts@), from@) {
            Some(v) => members_view(old(out)@).push((to@, v)),
            None => members_view(old(out)@),
        },
{
    match get_member(opts, from) {
        Some(v) => {
            let ghost before = members_view(out@);
            out.push((owned(to), v));
            assert(members_view(out@) == before.push((to@, v)));
        },
        None => {},
    }
}

/// Converts an Ollama chat request into the engine's chat completion body:
/// the messages' roles and contents, `stream` (true unless the request says
/// otherwise), and the sampling options renamed for the engine.
pub fn convert_ollama_chat_to_openai(req: &OllamaChatRequest) -> (res: ChatCompletionBody)
    ensures
        res.messages@.len() == req.messages@.len(),
        forall|i: int|
            0 <= i < req.messages@.len() ==> #[trigger] res.messages@[i].0@ == req.messages@[i].role@
                && res.messages@[i].1@ == req.messages@[i].content@,
        res.stream == match req.stream {
            Some(b) => b,
            None => true,
        },
        members_view(res.sampling@) == forwarded_opt(req.options, chat_option_renames()),
        req.options matches Some(m) ==> ({
            let o = members_view(m@);
            let f = members_view(res.sampling@);
            &&& member(f, "temperature"@) == member(o, "temperature"@)
            &&& member(f, "top_p"@) == member(o, "top_p"@)
            &&& member(f, "top_k"@) == member(o, "top_k"@)
            &&& member(f, "max_tokens"@) == member(o, "num_predict"@)
            &&& member(f, "stop"@) == member(o, "stop"@)
        }),
        req.options is None ==> res.sampling@.len() == 0,
{
    let mut messages: Vec<(String, String)> = Vec::new();
    let n = req.messages.len();
    for i in 0..n
        invariant
            n == req.messages@.len(),
            messages@.len() == i,
            forall|j: int|
                #![trigger messages@[j]]
                0 <= j < i ==> messages@[j].0@ == req.messages@[j].role@ && messages@[j].1@
                    == req.messages@[j].content@,
    {
        let m = &req.messages[i];
        messages.push((owned(m.role.as_str()), owned(m.content.as_str())));
    }
    let stream = match req.stream {
        Some(b) => b,
        None => true,
    };
    let mut sampling: Vec<(String, serde_json::Value)> = Vec::new();
    match &req.options {
        Some(opts) => {
            let ghost o = members_view(opts@);
            let ghost r = chat_option_renames();
            assert(members_view(sampling@) =~= Seq::<(Seq<char>, serde_json::Value)>::empty());
            forward_one(&mut sampling, opts, "temperature", "temperature");
            assert(r.take(1).drop_last() =~= Seq::<(Seq<char>, Seq<char>)>::empty());
            assert(forwarded(o, r.take(1).drop_last()) =~= Seq::<(Seq<char>, serde_json::Value)>::empty());
            assert(r.take(1).last() == r[0]);
            assert(members_view(sampling@) == forwarded(o, r.take(1)));
            forward_one(&mut sampling, opts, "top_p", "top_p");
            assert(r.take(2).drop_last() == r.take(1));
            assert(r.take(2).last() == r[1]);
            assert(members_view(sampling@) == forwarded(o, r.take(2)));
            forward_one(&mut sampling, opts, "top_k", "top_k");
            assert(r.take(3).drop_last() == r.take(2));
            assert(r.take(3).last() == r[2]);
            assert(members_view(sampling@) == forwarded(o, r.take(3)));
            forward_one(&mut sampling, opts, "num_predict", "max_tokens");
            assert(r.take(4).drop_last() == r.take(3));
            assert(r.take(4).last() == r[3]);
            assert(members_view(sampling@) == forwarded(o, r.take(4)));
            forward_one(&mut sampling, opts, "stop", "stop");
            assert(r.take(5).drop_last() == r.take(4));
            assert(r.take(5).last() == r[4]);
            assert(r.take(5) == r);
            proof {
                lemma_chat_options_forwarded(o);
            }
        },
        None => {},
    }
    ChatCompletionBody { messages, stream, sampling }
}

/// The prompt sent to the engine: the system text, when there is one, is
/// put before the user's prompt as `System: ...\nUser: ...`.
pub open spec fn generate_prompt(prompt: Seq<char>, system: Option<Seq<char>>) -> Seq<char> {
    match system {
        Some(sys) => "System: "@ + sys + "\nUser: "@ + prompt,
        None => prompt,
    }
}

/// Converts an Ollama generate request into the engine's completion body:
/// the prompt (with the system text put before it), `stream` (true unless
/// the request says otherwise), and the sampling options renamed for the engine.
pub fn convert_ollama_generate_to_llamacpp(req: &OllamaGenerateRequest) -> (res: CompletionBody)
    ensures
        res.prompt@ == generate_prompt(
            req.prompt@,
            match req.system {
                Some(s) => Some(s@),
                None => None,
            },
        ),
        res.stream == match req.stream {
            Some(b) => b,
            None => true,
        },
        members_view(res.sampling@) == forwarded_opt(req.options, generate_option_renames()),
        req.options matches Some(m) ==> ({
            let o = members_view(m@);
            let f = members_view(res.sampling@);
            &&& member(f, "temperature"@) == member(o, "temperature"@)
            &&& member(f, "top_p"@) == member(o, "top_p"@)
            &&& member(f, "n_predict"@) == member(o, "num_predict"@)
            &&& member(f, "stop"@) == member(o, "stop"@)
        }),
        req.options is None ==> res.sampling@.len() == 0,
{
    let prompt = match &req.system {
        Some(sys) => {
            let mut p: Vec<char> = Vec::new();
            push_text(&mut p, "System: ");
            push_text(&mut p, sys.as_str());
            push_text(&mut p, "\nUser: ");
            push_text(&mut p, req.prompt.as_str());
            string_of(&p)
        },
        None => owned(req.prompt.as_str()),
    };
    let stream = match req.stream {
        Some(b) => b,
        None => true,
    };
    let mut sampling: Vec<(String, serde_json::Value)> = Vec::new();
    match &req.options {
        Some(opts) => {
            let ghost o = members_view(opts@);
            let ghost r = generate_option_renames();
            assert(members_view(sampling@) =~= Seq::<(Seq<char>, serde_json::Value)>::empty());
            forward_one(&mut sampling, opts, "temperature", "temperature");
            assert(r.take(1).drop_last() =~= Seq::<(Seq<char>, Seq<char>)>::empty());
            assert(forwarded(o, r.take(1).drop_last()) =~= Seq::<(Seq<char>, serde_json::Value)>::empty());
            assert(r.take(1).last() == r[0]);
            assert(members_view(sampling@) == forwarded(o, r.take(1)));
            forward_one(&mut sampling, opts, "top_p", "top_p");
            assert(r.take(2).drop_last() == r.take(1));
            assert(r.take(2).last() == r[1]);
            assert(members_view(sampling@) == forwarded(o, r.take(2)));
            forward_one(&mut sampling, opts, "num_predict", "n_predict");
            assert(r.take(3).drop_last() == r.take(2));
            assert(r.take(3).last() == r[2]);
            assert(members_view(sampling@) == forwarded(o, r.take(3)));
            forward_one(&mut sampling, opts, "stop", "stop");
            assert(r.take(4).drop_last() == r.take(3));
            assert(r.take(4).last() == r[3]);
            assert(r.take(4) == r);
            proof {
                lemma_generate_options_forwarded(o);
            }
        },
        None => {},
    }
    CompletionBody { prompt, stream, sampling }
}

} // verus!

verus! {

/// The payload of a server-sent event line: the trimmed line after `data: `.
pub open spec fn sse_data_spec(line: Seq<char>) -> Option<Seq<char>> {
    let t = crate::text::trim_seq(line);
    if crate::text::is_prefix_of("data: "@, t) {
        Some(t.subrange(6, t.len() as int))
    } else {
        None
    }
}

/// The payload of a server-sent event line, if it is a `data:` line.
pub fn sse_data(line: &str) -> (res: Option<String>)
    ensures
        match res {
            Some(p) => sse_data_spec(line@) == Some(p@),
            None => sse_data_spec(line@) is None,
        },
{
    let t = crate::text::trim(&chars_of(line));
    let prefix = chars_of("data: ");
    proof {
        reveal_strlit("data: ");
    }
    if crate::text::starts_with(&t, &prefix) {
        Some(string_of(&crate::text::slice(&t, 6, t.len())))
    } else {
        None
    }
}

/// The text at `choices[0].delta.content` of the JSON document `doc`.
pub open spec fn chat_delta_in(doc: Option<Json>) -> Option<Seq<char>> {
    text_in(at_key(at_key(at_index(at_key(doc, "choices"@), 0), "delta"@), "content"@))
}

/// The text at `choices[0].delta.content` of the JSON text `payload`.
fn chat_delta(payload: &str) -> (res: Option<String>)
    ensures
        crate::text::opt_text(res) == chat_delta_in(json_document(payload@)),
{
    let doc = parse_json(payload);
    take_text(take_key(take_key(take_index(take_key(doc, "choices"), 0), "delta"), "content"))
}

/// What one line of the engine's chat event stream means.
pub enum ChatEvent {
    /// Nothing to pass on.
    Ignore,
    /// The stream is over: send the final, empty, done line.
    Done,
    /// A fragment of the assistant's message to pass on.
    Content(String),
}

/// Interprets one line of the engine's chat event stream: `data: [DONE]`
/// ends it, a `data:` line whose JSON carries a content delta passes that
/// text on, anything else is ignored.
pub fn chat_stream_event(line: &str) -> (res: ChatEvent)
    ensures
        match sse_data_spec(line@) {
            None => res is Ignore,
            Some(p) => if p == "[DONE]"@ {
                res is Done
            } else {
                match chat_delta_in(json_document(p)) {
                    Some(c) => res matches ChatEvent::Content(t) && t@ == c,
                    None => res is Ignore,
                }
            },
        },
{
    match sse_data(line) {
        None => ChatEvent::Ignore,
        Some(p) => {
            if crate::text::is_text(&chars_of(p.as_str()), "[DONE]") {
                ChatEvent::Done
            } else {
                match chat_delta(p.as_str()) {
                    Some(c) => ChatEvent::Content(c),
                    None => ChatEvent::Ignore,
                }
            }
        },
    }
}

/// The `content` member of the JSON document `doc` when it is a string,
/// and its `stop` member when it is a boolean; `None` when there is no
/// document.
pub open spec fn completion_fields_in(doc: Option<Json>) -> Option<(Option<Seq<char>>, Option<bool>)> {
    match doc {
        Some(d) => Some((text_in(at_key(Some(d), "content"@)), flag_in(at_key(Some(d), "stop"@)))),
        None => None,
    }
}

/// The `content` text and `stop` flag of the JSON text `payload`.
fn completion_fields(payload: &str) -> (res: Option<(Option<String>, Option<bool>)>)
    ensures
        match res {
            Some(r) => completion_fields_in(json_document(payload@)) == Some((crate::text::opt_text(r.0), r.1)),
            None => completion_fields_in(json_document(payload@)) is None,
        },
{
    match parse_json(payload) {
        Some(d) => Some((text_at(&d, "content"), flag_at(&d, "stop"))),
        None => None,
    }
}

/// The text and stop flag of a completion fragment with fields `f`: empty
/// text when it carries none, not stopped unless it says so.
pub open spec fn completion_delta(f: (Option<Seq<char>>, Option<bool>)) -> (Seq<char>, bool) {
    (
        match f.0 {
            Some(c) => c,
            None => Seq::empty(),
        },
        match f.1 {
            Some(b) => b,
            None => false,
        },
    )
}

fn delta_of(fields: (Option<String>, Option<bool>)) -> (res: (String, bool))
    ensures
        (res.0@, res.1) == completion_delta((crate::text::opt_text(fields.0), fields.1)),
{
    let content = match fields.0 {
        Some(c) => c,
        None => String::new(),
    };
    let stop = match fields.1 {
        Some(b) => b,
        None => false,
    };
    (content, stop)
}

/// A fragment of a streamed completion: its text and whether the engine stopped.
pub struct CompletionEvent {
    pub content: String,
    pub stop: bool,
}

/// Interprets one line of the engine's completion event stream: a `data:`
/// line whose JSON parses yields its content (empty when it has none) and
/// stop flag (false when it has none); anything else is ignored.
pub fn generate_stream_event(line: &str) -> (res: Option<CompletionEvent>)
    ensures
        match sse_data_spec(line@) {
            None => res is None,
            Some(p) => match completion_fields_in(json_document(p)) {
                Some(f) => res matches Some(e) && (e.content@, e.stop) == completion_delta(f),
                None => res is None,
            },
        },
{
    match sse_data(line) {
        None => None,
        Some(p) => match completion_fields(p.as_str()) {
            Some(f) => {
                let d = delta_of(f);
                Some(CompletionEvent { content: d.0, stop: d.1 })
            },
            None => None,
        },
    }
}

/// The text at `choices[0].message.content` of the JSON document `doc`.
pub open spec fn chat_message_in(doc: Option<Json>) -> Option<Seq<char>> {
    text_in(at_key(at_key(at_index(at_key(doc, "choices"@), 0), "message"@), "content"@))
}

/// The assistant's message in the engine's answer to a non-streamed chat:
/// empty when the answer does not parse or carries no such text.
pub fn chat_reply_content(payload: &str) -> (res: String)
    ensures
        res@ == match chat_message_in(json_document(payload@)) {
            Some(c) => c,
            None => Seq::<char>::empty(),
        },
{
    let doc = parse_json(payload);
    match take_text(take_key(take_key(take_index(take_key(doc, "choices"), 0), "message"), "content")) {
        Some(c) => c,
        None => String::new(),
    }
}

/// The generated text in the engine's answer to a non-streamed completion:
/// empty when the answer does not parse or carries no `content` text.
pub fn generate_reply_content(payload: &str) -> (res: String)
    ensures
        res@ == match completion_fields_in(json_document(payload@)) {
            Some(f) => completion_delta(f).0,
            None => Seq::<char>::empty(),
        },
{
    match completion_fields(payload) {
        Some(f) => delta_of(f).0,
        None => String::new(),
    }
}

/// The whole reply to a non-streamed chat: the assistant's `content`, done.
pub open spec fn chat_reply_text(model: Seq<char>, content: Seq<char>, created_at: Seq<char>) -> Seq<char> {
    "{\"created_at\":"@ + json_quoted(created_at) + ",\"done\":true,\"message\":{\"content\":"@
        + json_quoted(content) + ",\"role\":\"assistant\"},\"model\":"@ + json_quoted(model) + "}"@
}

/// The reply body to a non-streamed chat, stamped `created_at`.
pub fn chat_reply_body(model: &str, content: &str, created_at: &str) -> (res: String)
    ensures
        res@ == chat_reply_text(model@, content@, created_at@),
{
    let mut out: Vec<char> = Vec::new();
    push_text(&mut out, "{\"created_at\":");
    push_json_string(&mut out, created_at);
    push_text(&mut out, ",\"done\":true,\"message\":{\"content\":");
    push_json_string(&mut out, content);
    push_text(&mut out, ",\"role\":\"assistant\"},\"model\":");
    push_json_string(&mut out, model);
    push_text(&mut out, "}");
    string_of(&out)
}

/// The whole reply to a non-streamed generate: the `response` text, done.
pub open spec fn generate_reply_text(model: Seq<char>, response: Seq<char>, created_at: Seq<char>) -> Seq<char> {
    "{\"created_at\":"@ + json_quoted(created_at) + ",\"done\":true,\"model\":"@ + json_quoted(model)
        + ",\"response\":"@ + json_quoted(response) + "}"@
}

/// The reply body to a non-streamed generate, stamped `created_at`.
pub fn generate_reply_body(model: &str, response: &str, created_at: &str) -> (res: String)
    ensures
        res@ == generate_reply_text(model@, response@, created_at@),
{
    let mut out: Vec<char> = Vec::new();
    push_text(&mut out, "{\"created_at\":");
    push_json_string(&mut out, created_at);
    push_text(&mut out, ",\"done\":true,\"model\":");
    push_json_string(&mut out, model);
    push_text(&mut out, ",\"response\":");
    push_json_string(&mut out, response);
    push_text(&mut out, "}");
    string_of(&out)
}

/// A generate request with a blank model name unloads the running model
/// instead of generating.
pub fn generate_unloads(model: &str) -> (res: bool)
    ensures
        res == (crate::text::trim_seq(model@).len() == 0),
{
    crate::text::trim(&chars_of(model)).len() == 0
}

/// The URL of `path` on the engine listening on loopback `port`.
pub open spec fn engine_url_text(port: nat, path: Seq<char>) -> Seq<char> {
    "http://127.0.0.1:"@ + decimal(port) + path
}

/// The URL of `path` on the engine listening on loopback `port`.
pub fn engine_url(port: u16, path: &str) -> (res: String)
    ensures
        res@ == engine_url_text(port as nat, path@),
{
    let mut out = chars_of("http://127.0.0.1:");
    crate::text::push_all(&mut out, &crate::text::decimal_chars(port as u64));
    push_text(&mut out, path);
    string_of(&out)
}

} // verus!
