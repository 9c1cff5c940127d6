//! Installed models as the Ollama API lists, shows, matches, copies and
//! deletes them.
use vstd::prelude::*;
use crate::model_resolver::{resolve_spec, resolve_model_source};
use crate::text::{
    chars_of, string_of, owned, to_lowercase, lowercase, replace, replace_all, contains, contains_seq,
    hex, hex_chars, is_suffix_of, ends_with, push_all, same_chars, views, join, join_seq, decimal, trim_seq,
};

verus! {

/// An installed model file, with the parameter-size label shown for it.
pub struct ModelListing {
    pub filename: String,
    pub full_path: String,
    pub size_bytes: u64,
    pub parameter_size: String,
}

/// The family reported for a model file, from its lower-cased name; the
/// Tauri command also recognises Phi models, the REST API does not.
pub open spec fn family_of(lower: Seq<char>, with_phi: bool) -> Seq<char> {
    if contains_seq(lower, "qwen"@) {
        "qwen2"@
    } else if contains_seq(lower, "deepseek"@) {
        "deepseek"@
    } else if contains_seq(lower, "mistral"@) {
        "mistral"@
    } else if contains_seq(lower, "gemma"@) {
        "gemma2"@
    } else if with_phi && contains_seq(lower, "phi"@) {
        "phi3"@
    } else {
        "llama"@
    }
}

/// The family of the model file `filename`.
pub fn model_family(filename: &str, with_phi: bool) -> (res: String)
    ensures
        res@ == family_of(lowercase(filename@), with_phi),
{
    let lower = to_lowercase(&chars_of(filename));
    if contains(&lower, &chars_of("qwen")) {
        owned("qwen2")
    } else if contains(&lower, &chars_of("deepseek")) {
        owned("deepseek")
    } else if contains(&lower, &chars_of("mistral")) {
        owned("mistral")
    } else if contains(&lower, &chars_of("gemma")) {
        owned("gemma2")
    } else if with_phi && contains(&lower, &chars_of("phi")) {
        owned("phi3")
    } else {
        owned("llama")
    }
}

/// The Ollama tag of a model file: every `.gguf` in its name becomes `:latest`.
pub open spec fn tag_of(filename: Seq<char>) -> Seq<char> {
    replace_all(filename, ".gguf"@, ":latest"@)
}

/// The Ollama tag of the model file `filename`.
pub fn model_tag(filename: &str) -> (res: String)
    ensures
        res@ == tag_of(filename@),
{
    let from = chars_of(".gguf");
    proof {
        reveal_strlit(".gguf");
    }
    string_of(&replace(&chars_of(filename), &from, &chars_of(":latest")))
}

/// The digest shown for a model of `size` bytes: its size in hexadecimal.
pub open spec fn digest_of(size: nat) -> Seq<char> {
    "sha256:"@ + hex(size, false)
}

/// The digest shown for a model of `size` bytes.
pub fn model_digest(size: u64) -> (res: String)
    ensures
        res@ == digest_of(size as nat),
{
    let mut out = chars_of("sha256:");
    push_all(&mut out, &hex_chars(size, false));
    string_of(&out)
}

/// How a model name is compared with file names: lower-cased, without `:latest`.
pub open spec fn name_key(name: Seq<char>) -> Seq<char> {
    replace_all(lowercase(name), ":latest"@, Seq::<char>::empty())
}

/// How a file name is compared with model names: lower-cased, without `.gguf`.
pub open spec fn file_key(filename: Seq<char>) -> Seq<char> {
    replace_all(lowercase(filename), ".gguf"@, Seq::<char>::empty())
}

/// A file answers a model name when either key contains the other.
pub open spec fn loosely_matches(filename: Seq<char>, name: Seq<char>) -> bool {
    contains_seq(file_key(filename), name_key(name)) || contains_seq(name_key(name), file_key(filename))
}

/// A file is the one to delete for a model name: its lower-cased name is the
/// key, the key with `.gguf`, or contains the key.
pub open spec fn delete_matches(filename: Seq<char>, name: Seq<char>) -> bool {
    let f = lowercase(filename);
    let k = name_key(name);
    f == k || f == k + ".gguf"@ || contains_seq(f, k)
}

/// A file is the source of a copy: its lower-cased name contains the key.
pub open spec fn copy_matches(filename: Seq<char>, name: Seq<char>) -> bool {
    contains_seq(lowercase(filename), name_key(name))
}

/// Which matching rule a lookup uses.
pub enum MatchRule {
    /// `/api/show` and `/api/pull`: either key contains the other.
    Loose,
    /// `/api/delete`.
    Delete,
    /// `/api/copy`.
    Copy,
}

/// Does `filename` answer `name` under `rule`?
pub open spec fn matches_rule(rule: MatchRule, filename: Seq<char>, name: Seq<char>) -> bool {
    match rule {
        MatchRule::Loose => loosely_matches(filename, name),
        MatchRule::Delete => delete_matches(filename, name),
        MatchRule::Copy => copy_matches(filename, name),
    }
}

fn key_of(s: &str, suffix: &str) -> (res: Vec<char>)
    requires
        suffix@ == ":latest"@ || suffix@ == ".gguf"@,
    ensures
        res@ == replace_all(lowercase(s@), suffix@, Seq::<char>::empty()),
{
    proof {
        reveal_strlit(":latest");
        reveal_strlit(".gguf");
    }
    let lower = to_lowercase(&chars_of(s));
    replace(&lower, &chars_of(suffix), &Vec::new())
}

fn file_answers(rule: &MatchRule, filename: &str, name: &str) -> (res: bool)
    ensures
        res == matches_rule(*rule, filename@, name@),
{
    let k = key_of(name, ":latest");
    match rule {
        MatchRule::Loose => {
            let f = key_of(filename, ".gguf");
            contains(&f, &k) || contains(&k, &f)
        },
        MatchRule::Delete => {
            let f = to_lowercase(&chars_of(filename));
            let mut kg = crate::text::copy_chars(&k);
            push_all(&mut kg, &chars_of(".gguf"));
            same_chars(&f, &k) || same_chars(&f, &kg) || contains(&f, &k)
        },
        MatchRule::Copy => {
            let f = to_lowercase(&chars_of(filename));
            contains(&f, &k)
        },
    }
}

/// The first installed model that answers `name` under `rule`.
pub fn find_installed(installed: &Vec<ModelListing>, name: &str, rule: MatchRule) -> (res: Option<usize>)
    ensures
        match res {
            Some(i) => find_installed_spec(installed@, name@, rule) == Some(i as int),
            None => find_installed_spec(installed@, name@, rule) is None,
        },
{
    proof {
        lemma_find_installed_spec(installed@, name@, rule);
    }
    let n = installed.len();
    for i in 0..n
        invariant
            n == installed@.len(),
            forall|k: int| 0 <= k < i ==> !matches_rule(rule, #[trigger] installed@[k].filename@, name@),
            match find_installed_spec(installed@, name@, rule) {
                Some(j) => 0 <= j < installed@.len() && matches_rule(rule, installed@[j].filename@, name@)
                    && forall|k: int| 0 <= k < j ==> !matches_rule(rule, #[trigger] installed@[k].filename@, name@),
                None => forall|k: int|
                    0 <= k < installed@.len() ==> !matches_rule(rule, #[trigger] installed@[k].filename@, name@),
            },
    {
        if file_answers(&rule, installed[i].filename.as_str(), name) {
            return Some(i);
        }
    }
    None
}

/// The file that a pull of `name` stores, when the name resolves to a source.
pub open spec fn pulled_filename(name: Seq<char>) -> Option<Seq<char>> {
    match resolve_spec(name, lowercase(trim_seq(name))) {
        Some(v) => Some(v.filename),
        None => None,
    }
}

/// The index of the first installed model stored under `filename`.
pub open spec fn find_file_spec(installed: Seq<ModelListing>, filename: Seq<char>) -> Option<int>
    decreases installed.len(),
{
    if installed.len() == 0 {
        None
    } else {
        match find_file_spec(installed.drop_last(), filename) {
            Some(i) => Some(i),
            None => if installed.last().filename@ == filename {
                Some(installed.len() - 1)
            } else {
                None
            },
        }
    }
}

/// The first index is what [`find_file`] reports.
pub proof fn lemma_find_file_spec(installed: Seq<ModelListing>, filename: Seq<char>)
    ensures
        match find_file_spec(installed, filename) {
            Some(i) => 0 <= i < installed.len() && installed[i].filename@ == filename
                && forall|k: int| 0 <= k < i ==> #[trigger] installed[k].filename@ != filename,
            None => forall|k: int| 0 <= k < installed.len() ==> #[trigger] installed[k].filename@ != filename,
        },
    decreases installed.len(),
{
    if installed.len() > 0 {
        lemma_find_file_spec(installed.drop_last(), filename);
        assert forall|k: int| 0 <= k < installed.len() - 1 implies installed[k] == installed.drop_last()[k] by {}
    }
}

/// The first installed model stored under `filename`.
pub fn find_file(installed: &Vec<ModelListing>, filename: &str) -> (res: Option<usize>)
    ensures
        match res {
            Some(i) => find_file_spec(installed@, filename@) == Some(i as int),
            None => find_file_spec(installed@, filename@) is None,
        },
{
    proof {
        lemma_find_file_spec(installed@, filename@);
    }
    let target = chars_of(filename);
    let n = installed.len();
    for i in 0..n
        invariant
            n == installed@.len(),
            target@ == filename@,
            forall|k: int| 0 <= k < i ==> #[trigger] installed@[k].filename@ != filename@,
            match find_file_spec(installed@, filename@) {
                Some(j) => 0 <= j < installed@.len() && installed@[j].filename@ == filename@
                    && forall|k: int| 0 <= k < j ==> #[trigger] installed@[k].filename@ != filename@,
                None => forall|k: int| 0 <= k < installed@.len() ==> #[trigger] installed@[k].filename@ != filename@,
            },
    {
        if same_chars(&chars_of(installed[i].filename.as_str()), &target) {
            return Some(i);
        }
    }
    None
}

/// The installed model a request naming `name` means: the file that a pull
/// of the name stores (so catalog tags such as `deepseek-r1:1.5b` find
/// their file), else the first file that answers the name under `rule`.
pub open spec fn find_model_spec(installed: Seq<ModelListing>, name: Seq<char>, rule: MatchRule) -> Option<int> {
    match pulled_filename(name) {
        Some(f) => match find_file_spec(installed, f) {
            Some(i) => Some(i),
            None => find_installed_spec(installed, name, rule),
        },
        None => find_installed_spec(installed, name, rule),
    }
}

/// Finds the installed model a request naming `name` means.
pub fn find_model(installed: &Vec<ModelListing>, name: &str, rule: MatchRule) -> (res: Option<usize>)
    ensures
        match res {
            Some(i) => find_model_spec(installed@, name@, rule) == Some(i as int) && i < installed@.len(),
            None => find_model_spec(installed@, name@, rule) is None,
        },
{
    proof {
        lemma_find_installed_spec(installed@, name@, rule);
        lemma_find_file_spec(installed@, pulled_filename(name@)->0);
    }
    match resolve_model_source(name) {
        Some(src) => match find_file(installed, src.filename.as_str()) {
            Some(i) => Some(i),
            None => find_installed(installed, name, rule),
        },
        None => find_installed(installed, name, rule),
    }
}

/// The file name a copy is saved under: the destination as given when it
/// ends in `.gguf`, else with colons made underscores and `.gguf` appended.
pub open spec fn copy_destination_spec(destination: Seq<char>) -> Seq<char> {
    if is_suffix_of(".gguf"@, destination) {
        destination
    } else {
        replace_all(destination, ":"@, "_"@) + ".gguf"@
    }
}

/// The file name a copy of a model to `destination` is saved under.
pub fn copy_destination_filename(destination: &str) -> (res: String)
    ensures
        res@ == copy_destination_spec(destination@),
{
    let d = chars_of(destination);
    let gguf = chars_of(".gguf");
    if ends_with(&d, &gguf) {
        return owned(destination);
    }
    proof {
        reveal_strlit(":");
    }
    let mut out = replace(&d, &chars_of(":"), &chars_of("_"));
    push_all(&mut out, &gguf);
    string_of(&out)
}

proof fn lemma_colons_replaced(s: Seq<char>)
    ensures
        !replace_all(s, ":"@, "_"@).contains(':'),
    decreases s.len(),
{
    reveal_strlit(":");
    reveal_strlit("_");
    if s.len() >= 1 {
        let rest = s.subrange(1, s.len() as int);
        lemma_colons_replaced(rest);
        if s.subrange(0, 1) == ":"@ {
            assert(replace_all(s, ":"@, "_"@) == "_"@ + replace_all(rest, ":"@, "_"@));
        } else {
            if s[0] == ':' {
                assert(s.subrange(0, 1) =~= ":"@);
            }
            assert(replace_all(s, ":"@, "_"@) == seq![s[0]] + replace_all(rest, ":"@, "_"@));
        }
        let r = replace_all(s, ":"@, "_"@);
        assert forall|k: int| 0 <= k < r.len() implies r[k] != ':' by {
            if k > 0 {
                assert(r[k] == replace_all(rest, ":"@, "_"@)[k - 1]);
            }
        }
    }
}

/// A copy is always saved under a `.gguf` file name, so the model listing
/// finds it; a name made from a tag holds no colon.
pub proof fn lemma_copy_destination_is_gguf(destination: Seq<char>)
    ensures
        is_suffix_of(".gguf"@, copy_destination_spec(destination)),
        !is_suffix_of(".gguf"@, destination) ==> !copy_destination_spec(destination).contains(':'),
{
    reveal_strlit(".gguf");
    if !is_suffix_of(".gguf"@, destination) {
        let base = replace_all(destination, ":"@, "_"@);
        let full = base + ".gguf"@;
        lemma_colons_replaced(destination);
        assert(full.subrange(full.len() - 5, full.len() as int) =~= ".gguf"@);
        assert forall|k: int| 0 <= k < full.len() implies full[k] != ':' by {
            if k < base.len() {
                assert(full[k] == base[k]);
            } else {
                assert(full[k] == ".gguf"@[k - base.len()]);
            }
        }
    }
}

} // verus!

use crate::json::{json_quoted, push_text, push_json_string, push_decimal};

verus! {

/// A JSON array of already-rendered elements.
pub open spec fn json_array_text(items: Seq<Seq<char>>) -> Seq<char> {
    "["@ + join_seq(items, ","@) + "]"@
}

fn json_array(items: &Vec<Vec<char>>) -> (res: Vec<char>)
    ensures
        res@ == json_array_text(views(items@)),
{
    let mut out = chars_of("[");
    push_all(&mut out, &join(items, &chars_of(",")));
    push_text(&mut out, "]");
    out
}

/// The `details` object of a model of `family` with `parameter_size`.
pub open spec fn details_text(family: Seq<char>, parameter_size: Seq<char>) -> Seq<char> {
    "{\"families\":["@ + json_quoted(family) + "],\"family\":"@ + json_quoted(family)
        + ",\"format\":\"gguf\",\"parameter_size\":"@ + json_quoted(parameter_size)
        + ",\"parent_model\":\"\",\"quantization_level\":\"Q4_K_M\"}"@
}

fn push_details(out: &mut Vec<char>, family: &str, parameter_size: &str)
    ensures
        final(out)@ == old(out)@ + details_text(family@, parameter_size@),
{
    push_text(out, "{\"families\":[");
    push_json_string(out, family);
    push_text(out, "],\"family\":");
    push_json_string(out, family);
    push_text(out, ",\"format\":\"gguf\",\"parameter_size\":");
    push_json_string(out, parameter_size);
    push_text(out, ",\"parent_model\":\"\",\"quantization_level\":\"Q4_K_M\"}");
}

/// One model of the `/api/tags` listing.
pub open spec fn tags_entry_text(filename: Seq<char>, size: nat, parameter_size: Seq<char>) -> Seq<char> {
    let tag = tag_of(filename);
    "{\"details\":"@ + details_text(family_of(lowercase(filename), false), parameter_size) + ",\"digest\":"@
        + json_quoted(digest_of(size)) + ",\"model\":"@ + json_quoted(tag)
        + ",\"modified_at\":\"2026-09-14T12:00:00Z\",\"name\":"@ + json_quoted(tag) + ",\"size\":"@
        + decimal(size) + "}"@
}

/// The `/api/tags` entries of the installed models, in order.
pub open spec fn tags_entries(installed: Seq<ModelListing>) -> Seq<Seq<char>> {
    installed.map_values(|m: ModelListing| tags_entry_text(m.filename@, m.size_bytes as nat, m.parameter_size@))
}

/// The `/api/tags` response body for the installed models.
pub fn tags_body(installed: &Vec<ModelListing>) -> (res: String)
    ensures
        res@ == "{\"models\":"@ + json_array_text(tags_entries(installed@)) + "}"@,
{
    let n = installed.len();
    let mut entries: Vec<Vec<char>> = Vec::new();
    for i in 0..n
        invariant
            n == installed@.len(),
            views(entries@) == tags_entries(installed@).take(i as int),
    {
        let m = &installed[i];
        let family = model_family(m.filename.as_str(), false);
        let tag = model_tag(m.filename.as_str());
        let digest = model_digest(m.size_bytes);
        let mut e = chars_of("{\"details\":");
        push_details(&mut e, family.as_str(), m.parameter_size.as_str());
        push_text(&mut e, ",\"digest\":");
        push_json_string(&mut e, digest.as_str());
        push_text(&mut e, ",\"model\":");
        push_json_string(&mut e, tag.as_str());
        push_text(&mut e, ",\"modified_at\":\"2026-09-14T12:00:00Z\",\"name\":");
        push_json_string(&mut e, tag.as_str());
        push_text(&mut e, ",\"size\":");
        push_decimal(&mut e, m.size_bytes);
        push_text(&mut e, "}");
        let ghost before = views(entries@);
        entries.push(e);
        assert(views(entries@) == before.push(e@));
        assert(tags_entries(installed@).take(i + 1) == tags_entries(installed@).take(i as int).push(
            tags_entries(installed@)[i as int],
        ));
    }
    assert(tags_entries(installed@).take(n as int) == tags_entries(installed@));
    let mut out = chars_of("{\"models\":");
    push_all(&mut out, &json_array(&entries));
    push_text(&mut out, "}");
    string_of(&out)
}

/// One model of the `/v1/models` listing.
pub open spec fn openai_model_text(filename: Seq<char>) -> Seq<char> {
    "{\"created\":1726300000,\"id\":"@ + json_quoted(tag_of(filename))
        + ",\"object\":\"model\",\"owned_by\":\"library\"}"@
}

/// The `/v1/models` entries of the installed models, in order.
pub open spec fn openai_model_entries(installed: Seq<ModelListing>) -> Seq<Seq<char>> {
    installed.map_values(|m: ModelListing| openai_model_text(m.filename@))
}

/// The `/v1/models` response body for the installed models.
pub fn openai_models_body(installed: &Vec<ModelListing>) -> (res: String)
    ensures
        res@ == "{\"data\":"@ + json_array_text(openai_model_entries(installed@)) + ",\"object\":\"list\"}"@,
{
    let n = installed.len();
    let mut entries: Vec<Vec<char>> = Vec::new();
    for i in 0..n
        invariant
            n == installed@.len(),
            views(entries@) == openai_model_entries(installed@).take(i as int),
    {
        let tag = model_tag(installed[i].filename.as_str());
        let mut e = chars_of("{\"created\":1726300000,\"id\":");
        push_json_string(&mut e, tag.as_str());
        push_text(&mut e, ",\"object\":\"model\",\"owned_by\":\"library\"}");
        let ghost before = views(entries@);
        entries.push(e);
        assert(views(entries@) == before.push(e@));
        assert(openai_model_entries(installed@).take(i + 1) == openai_model_entries(installed@).take(
            i as int,
        ).push(openai_model_entries(installed@)[i as int]));
    }
    assert(openai_model_entries(installed@).take(n as int) == openai_model_entries(installed@));
    let mut out = chars_of("{\"data\":");
    push_all(&mut out, &json_array(&entries));
    push_text(&mut out, ",\"object\":\"list\"}");
    string_of(&out)
}

/// The `/api/ps` entry of the running model file `filename`.
pub open spec fn running_model_text(filename: Seq<char>) -> Seq<char> {
    let tag = tag_of(filename);
    "{\"details\":{\"family\":\"llama\",\"format\":\"gguf\",\"parameter_size\":\"7B\",\"quantization_level\":\"Q4_K_M\"},\"digest\":\"sha256:active\",\"expires_at\":\"0001-01-01T00:00:00Z\",\"model\":"@
        + json_quoted(tag) + ",\"name\":"@ + json_quoted(tag)
        + ",\"size\":4920739840,\"size_vram\":4920739840}"@
}

/// The `/api/ps` response body: the current model when the engine is
/// running and has one, else no model.
pub fn ps_body(is_running: bool, current_model: Option<&str>) -> (res: String)
    ensures
        res@ == match (is_running, current_model) {
            (true, Some(name)) => "{\"models\":["@ + running_model_text(name@) + "]}"@,
            _ => "{\"models\":[]}"@,
        },
{
    match (is_running, current_model) {
        (true, Some(name)) => {
            let tag = model_tag(name);
            let mut out = chars_of(
                "{\"models\":[{\"details\":{\"family\":\"llama\",\"format\":\"gguf\",\"parameter_size\":\"7B\",\"quantization_level\":\"Q4_K_M\"},\"digest\":\"sha256:active\",\"expires_at\":\"0001-01-01T00:00:00Z\",\"model\":",
            );
            push_json_string(&mut out, tag.as_str());
            push_text(&mut out, ",\"name\":");
            push_json_string(&mut out, tag.as_str());
            push_text(&mut out, ",\"size\":4920739840,\"size_vram\":4920739840}]}");
            proof {
                reveal_strlit("{\"models\":[");
                reveal_strlit("{\"models\":[{\"details\":{\"family\":\"llama\",\"format\":\"gguf\",\"parameter_size\":\"7B\",\"quantization_level\":\"Q4_K_M\"},\"digest\":\"sha256:active\",\"expires_at\":\"0001-01-01T00:00:00Z\",\"model\":");
                reveal_strlit("{\"details\":{\"family\":\"llama\",\"format\":\"gguf\",\"parameter_size\":\"7B\",\"quantization_level\":\"Q4_K_M\"},\"digest\":\"sha256:active\",\"expires_at\":\"0001-01-01T00:00:00Z\",\"model\":");
                reveal_strlit(",\"size\":4920739840,\"size_vram\":4920739840}]}");
                reveal_strlit(",\"size\":4920739840,\"size_vram\":4920739840}");
                reveal_strlit("]}");
            }
            string_of(&out)
        },
        _ => owned("{\"models\":[]}"),
    }
}

} // verus!

verus! {

/// The Modelfile shown for `model`.
pub open spec fn modelfile_text(model: Seq<char>) -> Seq<char> {
    "# Modelfile generated by Ollama Lite\nFROM "@ + model
        + "\nTEMPLATE \"\"\"{{ if .System }}<|im_start|>system\n{{ .System }}<|im_end|>\n{{ end }}{{ if .Prompt }}<|im_start|>user\n{{ .Prompt }}<|im_end|>\n{{ end }}<|im_start|>assistant\n\"\"\"\nPARAMETER stop \"<|im_end|>\"\nPARAMETER stop \"<|endoftext|>\"\n"@
}

/// The `/api/show` response body for `model` of `family` with `parameter_size`.
pub open spec fn show_body_text(model: Seq<char>, family: Seq<char>, parameter_size: Seq<char>) -> Seq<char> {
    "{\"capabilities\":[\"completion\",\"chat\",\"thinking\"],\"details\":"@ + details_text(family, parameter_size)
        + ",\"license\":\"Apache-2.0 / Model License\",\"modelfile\":"@ + json_quoted(modelfile_text(model))
        + ",\"parameters\":"@ + json_quoted("stop \"<|im_end|>\"\nstop \"<|endoftext|>\""@)
        + ",\"system\":\"\",\"template\":"@ + json_quoted(
        "{{ if .System }}<|im_start|>system\n{{ .System }}<|im_end|>\n{{ end }}{{ if .Prompt }}<|im_start|>user\n{{ .Prompt }}<|im_end|>\n{{ end }}<|im_start|>assistant\n"@,
    ) + "}"@
}

/// The `/api/show` response for `model`: the family and parameter size of
/// the installed model it names (see [`find_model`], loose matching), or
/// `llama` and `7B` when it names none.
pub fn show_body(installed: &Vec<ModelListing>, model: &str) -> (res: String)
    ensures
        res@ == show_body_text(model@, show_family(installed@, model@), show_parameter_size(installed@, model@)),
{
    let (family, parameter_size) = match find_model(installed, model, MatchRule::Loose) {
        Some(i) => (model_family(installed[i].filename.as_str(), false), owned(installed[i].parameter_size.as_str())),
        None => (owned("llama"), owned("7B")),
    };
    let mut modelfile = chars_of("# Modelfile generated by Ollama Lite\nFROM ");
    push_text(&mut modelfile, model);
    push_text(
        &mut modelfile,
        "\nTEMPLATE \"\"\"{{ if .System }}<|im_start|>system\n{{ .System }}<|im_end|>\n{{ end }}{{ if .Prompt }}<|im_start|>user\n{{ .Prompt }}<|im_end|>\n{{ end }}<|im_start|>assistant\n\"\"\"\nPARAMETER stop \"<|im_end|>\"\nPARAMETER stop \"<|endoftext|>\"\n",
    );
    let modelfile_s = string_of(&modelfile);
    let mut out = chars_of("{\"capabilities\":[\"completion\",\"chat\",\"thinking\"],\"details\":");
    push_details(&mut out, family.as_str(), parameter_size.as_str());
    push_text(&mut out, ",\"license\":\"Apache-2.0 / Model License\",\"modelfile\":");
    push_json_string(&mut out, modelfile_s.as_str());
    push_text(&mut out, ",\"parameters\":");
    push_json_string(&mut out, "stop \"<|im_end|>\"\nstop \"<|endoftext|>\"");
    push_text(&mut out, ",\"system\":\"\",\"template\":");
    push_json_string(
        &mut out,
        "{{ if .System }}<|im_start|>system\n{{ .System }}<|im_end|>\n{{ end }}{{ if .Prompt }}<|im_start|>user\n{{ .Prompt }}<|im_end|>\n{{ end }}<|im_start|>assistant\n",
    );
    push_text(&mut out, "}");
    string_of(&out)
}

/// The family `/api/show` reports for `model`: that of the installed model
/// it names, `llama` when it names none.
pub open spec fn show_family(installed: Seq<ModelListing>, model: Seq<char>) -> Seq<char> {
    match find_model_spec(installed, model, MatchRule::Loose) {
        Some(i) => family_of(lowercase(installed[i].filename@), false),
        None => "llama"@,
    }
}

/// The parameter size `/api/show` reports for `model`: that of the
/// installed model it names, `7B` when it names none.
pub open spec fn show_parameter_size(installed: Seq<ModelListing>, model: Seq<char>) -> Seq<char> {
    match find_model_spec(installed, model, MatchRule::Loose) {
        Some(i) => installed[i].parameter_size@,
        None => "7B"@,
    }
}

/// The index of the first installed model that answers `name` under `rule`.
pub open spec fn find_installed_spec(installed: Seq<ModelListing>, name: Seq<char>, rule: MatchRule) -> Option<int>
    decreases installed.len(),
{
    if installed.len() == 0 {
        None
    } else {
        match find_installed_spec(installed.drop_last(), name, rule) {
            Some(i) => Some(i),
            None => if matches_rule(rule, installed.last().filename@, name) {
                Some(installed.len() - 1)
            } else {
                None
            },
        }
    }
}

/// The first index is what [`find_installed`] reports.
pub proof fn lemma_find_installed_spec(installed: Seq<ModelListing>, name: Seq<char>, rule: MatchRule)
    ensures
        match find_installed_spec(installed, name, rule) {
            Some(i) => 0 <= i < installed.len() && matches_rule(rule, installed[i].filename@, name)
                && forall|k: int| 0 <= k < i ==> !matches_rule(rule, #[trigger] installed[k].filename@, name),
            None => forall|k: int|
                0 <= k < installed.len() ==> !matches_rule(rule, #[trigger] installed[k].filename@, name),
        },
    decreases installed.len(),
{
    if installed.len() > 0 {
        lemma_find_installed_spec(installed.drop_last(), name, rule);
        assert forall|k: int| 0 <= k < installed.len() - 1 implies installed[k] == installed.drop_last()[k] by {}
    }
}

} // verus!

verus! {

/// A file extension marks a model file when it is `gguf` in any case.
pub fn is_gguf_extension(ext: &str) -> (res: bool)
    ensures
        res == (lowercase(ext@) == "gguf"@),
{
    crate::text::is_text(&to_lowercase(&chars_of(ext)), "gguf")
}

} // verus!
