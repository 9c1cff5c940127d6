//! Resolution of model identifiers (catalog tags, Hugging Face paths and
//! direct URLs) into a downloadable GGUF source.
use vstd::prelude::*;
use crate::text::{is_trimmed, same_letter, is_ascii_text, ascii_lower, lemma_trim_is_trimmed, lemma_ascii_lowercase, lemma_trimmed_is_fixed, is_tag_char, lemma_tag_text_is_canonical, starts_with_any_case, begins_with_any_case, is_prefix_of, is_suffix_of, split_char, join_seq, is_text, owned, chars_of, string_of, starts_with, ends_with, slice, split, lemma_split_char_nonempty, copy_chars, concat, contains_char, push_all, parts_from, join, trim, trim_seq, to_lowercase, lowercase, lemma_split_char_after_separator, lemma_join_split};

verus! {

/// Where a model can be downloaded from, and how it is described.
pub struct ResolvedModelSource {
    pub tag: String,
    pub filename: String,
    pub download_url: String,
    pub parameter_size: String,
    pub family: String,
}

/// The character contents of a [`ResolvedModelSource`].
pub struct SourceView {
    pub tag: Seq<char>,
    pub filename: Seq<char>,
    pub download_url: Seq<char>,
    pub parameter_size: Seq<char>,
    pub family: Seq<char>,
}

impl View for ResolvedModelSource {
    type V = SourceView;

    open spec fn view(&self) -> SourceView {
        SourceView {
            tag: self.tag@,
            filename: self.filename@,
            download_url: self.download_url@,
            parameter_size: self.parameter_size@,
            family: self.family@,
        }
    }
}

/// The contents of an optional source.
pub open spec fn source_opt_view(o: Option<ResolvedModelSource>) -> Option<SourceView> {
    match o {
        Some(s) => Some(s@),
        None => None,
    }
}

/// A source built from its five parts.
pub open spec fn source_view(
    tag: Seq<char>,
    filename: Seq<char>,
    download_url: Seq<char>,
    parameter_size: Seq<char>,
    family: Seq<char>,
) -> SourceView {
    SourceView { tag, filename, download_url, parameter_size, family }
}

/// The curated catalog: known model tags and their aliases, each mapped to a
/// canonical tag, a GGUF file name, its download URL, a parameter size and a
/// model family.
pub open spec fn catalog_entry(norm: Seq<char>) -> Option<SourceView> {
    if norm == "deepseek-r1"@ || norm == "deepseek-r1:latest"@ || norm == "deepseek-r1:7b"@ {
        Some(source_view("deepseek-r1:7b"@, "DeepSeek-R1-Distill-Qwen-7B-Q4_K_M.gguf"@,
            "https://huggingface.co/unsloth/DeepSeek-R1-Distill-Qwen-7B-GGUF/resolve/main/DeepSeek-R1-Distill-Qwen-7B-Q4_K_M.gguf"@,
            "7B"@, "deepseek"@))
    } else if norm == "deepseek-r1:1.5b"@ {
        Some(source_view("deepseek-r1:1.5b"@, "DeepSeek-R1-Distill-Qwen-1.5B-Q4_K_M.gguf"@,
            "https://huggingface.co/bartowski/DeepSeek-R1-Distill-Qwen-1.5B-GGUF/resolve/main/DeepSeek-R1-Distill-Qwen-1.5B-Q4_K_M.gguf"@,
            "1.5B"@, "deepseek"@))
    } else if norm == "deepseek-r1:8b"@ {
        Some(source_view("deepseek-r1:8b"@, "DeepSeek-R1-Distill-Llama-8B-Q4_K_M.gguf"@,
            "https://huggingface.co/bartowski/DeepSeek-R1-Distill-Llama-8B-GGUF/resolve/main/DeepSeek-R1-Distill-Llama-8B-Q4_K_M.gguf"@,
            "8B"@, "deepseek"@))
    } else if norm == "deepseek-coder-v2"@ || norm == "deepseek-coder-v2:latest"@ || norm == "deepseek-coder-v2:16b"@ {
        Some(source_view("deepseek-coder-v2:16b"@, "DeepSeek-Coder-V2-Lite-Instruct-Q4_K_M.gguf"@,
            "https://huggingface.co/bartowski/DeepSeek-Coder-V2-Lite-Instruct-GGUF/resolve/main/DeepSeek-Coder-V2-Lite-Instruct-Q4_K_M.gguf"@,
            "16B"@, "deepseek"@))
    } else if norm == "llama3.2"@ || norm == "llama3.2:latest"@ || norm == "llama3.2:3b"@ {
        Some(source_view("llama3.2:3b"@, "Llama-3.2-3B-Instruct-Q4_K_M.gguf"@,
            "https://huggingface.co/bartowski/Llama-3.2-3B-Instruct-GGUF/resolve/main/Llama-3.2-3B-Instruct-Q4_K_M.gguf"@,
            "3B"@, "llama"@))
    } else if norm == "llama3.2:1b"@ {
        Some(source_view("llama3.2:1b"@, "Llama-3.2-1B-Instruct-Q4_K_M.gguf"@,
            "https://huggingface.co/bartowski/Llama-3.2-1B-Instruct-GGUF/resolve/main/Llama-3.2-1B-Instruct-Q4_K_M.gguf"@,
            "1B"@, "llama"@))
    } else if norm == "llama3.1"@ || norm == "llama3.1:latest"@ || norm == "llama3.1:8b"@ {
        Some(source_view("llama3.1:8b"@, "Llama-3.1-8B-Instruct-Q4_K_M.gguf"@,
            "https://huggingface.co/bartowski/Llama-3.1-8B-Instruct-GGUF/resolve/main/Llama-3.1-8B-Instruct-Q4_K_M.gguf"@,
            "8B"@, "llama"@))
    } else if norm == "llama2"@ || norm == "llama2:latest"@ || norm == "llama2:7b"@ {
        Some(source_view("llama2:7b"@, "llama-2-7b-chat.Q4_K_M.gguf"@,
            "https://huggingface.co/TheBloke/Llama-2-7B-Chat-GGUF/resolve/main/llama-2-7b-chat.Q4_K_M.gguf"@,
            "7B"@, "llama"@))
    } else if norm == "qwen2.5-coder"@ || norm == "qwen2.5-coder:latest"@ || norm == "qwen2.5-coder:7b"@ {
        Some(source_view("qwen2.5-coder:7b"@, "Qwen2.5-Coder-7B-Instruct-Q4_K_M.gguf"@,
            "https://huggingface.co/Qwen/Qwen2.5-Coder-7B-Instruct-GGUF/resolve/main/qwen2.5-coder-7b-instruct-q4_k_m.gguf"@,
            "7B"@, "qwen2"@))
    } else if norm == "qwen2.5-coder:1.5b"@ {
        Some(source_view("qwen2.5-coder:1.5b"@, "Qwen2.5-Coder-1.5B-Instruct-Q4_K_M.gguf"@,
            "https://huggingface.co/Qwen/Qwen2.5-Coder-1.5B-Instruct-GGUF/resolve/main/qwen2.5-coder-1.5b-instruct-q4_k_m.gguf"@,
            "1.5B"@, "qwen2"@))
    } else if norm == "qwen2.5-coder:14b"@ {
        Some(source_view("qwen2.5-coder:14b"@, "Qwen2.5-Coder-14B-Instruct-Q4_K_M.gguf"@,
            "https://huggingface.co/Qwen/Qwen2.5-Coder-14B-Instruct-GGUF/resolve/main/qwen2.5-coder-14b-instruct-q4_k_m.gguf"@,
            "14B"@, "qwen2"@))
    } else if norm == "qwen2.5"@ || norm == "qwen2.5:latest"@ || norm == "qwen2.5:7b"@ {
        Some(source_view("qwen2.5:7b"@, "Qwen2.5-7B-Instruct-Q4_K_M.gguf"@,
            "https://huggingface.co/Qwen/Qwen2.5-7B-Instruct-GGUF/resolve/main/qwen2.5-7b-instruct-q4_k_m.gguf"@,
            "7B"@, "qwen2"@))
    } else if norm == "qwen2.5:3b"@ {
        Some(source_view("qwen2.5:3b"@, "Qwen2.5-3B-Instruct-Q4_K_M.gguf"@,
            "https://huggingface.co/Qwen/Qwen2.5-3B-Instruct-GGUF/resolve/main/qwen2.5-3b-instruct-q4_k_m.gguf"@,
            "3B"@, "qwen2"@))
    } else if norm == "qwen2.5:0.5b"@ || norm == "qwen2.5-0.5b"@ || norm == "qwen2.5-0.5b-instruct-q4_k_m"@ || norm == "qwen2.5-0.5b-instruct-q4_k_m:latest"@ {
        Some(source_view("qwen2.5:0.5b"@, "Qwen2.5-0.5B-Instruct-Q4_K_M.gguf"@,
            "https://huggingface.co/Qwen/Qwen2.5-0.5B-Instruct-GGUF/resolve/main/qwen2.5-0.5b-instruct-q4_k_m.gguf"@,
            "0.5B"@, "qwen2"@))
    } else if norm == "mistral"@ || norm == "mistral:latest"@ || norm == "mistral:7b"@ {
        Some(source_view("mistral:7b"@, "Mistral-7B-Instruct-v0.3-Q4_K_M.gguf"@,
            "https://huggingface.co/bartowski/Mistral-7B-Instruct-v0.3-GGUF/resolve/main/Mistral-7B-Instruct-v0.3-Q4_K_M.gguf"@,
            "7B"@, "mistral"@))
    } else if norm == "mistral-nemo"@ || norm == "mistral-nemo:latest"@ || norm == "mistral-nemo:12b"@ {
        Some(source_view("mistral-nemo:12b"@, "Mistral-Nemo-Instruct-2407-Q4_K_M.gguf"@,
            "https://huggingface.co/bartowski/Mistral-Nemo-Instruct-2407-GGUF/resolve/main/Mistral-Nemo-Instruct-2407-Q4_K_M.gguf"@,
            "12B"@, "mistral"@))
    } else if norm == "phi4"@ || norm == "phi4:latest"@ || norm == "phi4:14b"@ {
        Some(source_view("phi4:14b"@, "phi-4-Q4_K_M.gguf"@,
            "https://huggingface.co/bartowski/phi-4-GGUF/resolve/main/phi-4-Q4_K_M.gguf"@,
            "14B"@, "phi3"@))
    } else if norm == "phi3.5"@ || norm == "phi3.5:latest"@ || norm == "phi3.5:3.8b"@ {
        Some(source_view("phi3.5:3.8b"@, "Phi-3.5-mini-instruct-Q4_K_M.gguf"@,
            "https://huggingface.co/bartowski/Phi-3.5-mini-instruct-GGUF/resolve/main/Phi-3.5-mini-instruct-Q4_K_M.gguf"@,
            "3.8B"@, "phi3"@))
    } else if norm == "gemma2"@ || norm == "gemma2:latest"@ || norm == "gemma2:2b"@ {
        Some(source_view("gemma2:2b"@, "gemma-2-2b-it-Q4_K_M.gguf"@,
            "https://huggingface.co/bartowski/gemma-2-2b-it-GGUF/resolve/main/gemma-2-2b-it-Q4_K_M.gguf"@,
            "2B"@, "gemma2"@))
    } else if norm == "gemma2:9b"@ {
        Some(source_view("gemma2:9b"@, "gemma-2-9b-it-Q4_K_M.gguf"@,
            "https://huggingface.co/bartowski/gemma-2-9b-it-GGUF/resolve/main/gemma-2-9b-it-Q4_K_M.gguf"@,
            "9B"@, "gemma2"@))
    } else if norm == "nomic-embed-text"@ || norm == "nomic-embed-text:latest"@ || norm == "nomic-embed"@ {
        Some(source_view("nomic-embed-text:latest"@, "nomic-embed-text-v1.5.Q4_K_M.gguf"@,
            "https://huggingface.co/nomic-ai/nomic-embed-text-v1.5-GGUF/resolve/main/nomic-embed-text-v1.5.Q4_K_M.gguf"@,
            "137M"@, "nomic-bert"@))
    } else if norm == "smollm2"@ || norm == "smollm2:latest"@ || norm == "smollm2:1.7b"@ {
        Some(source_view("smollm2:1.7b"@, "SmolLM2-1.7B-Instruct-Q4_K_M.gguf"@,
            "https://huggingface.co/bartowski/SmolLM2-1.7B-Instruct-GGUF/resolve/main/SmolLM2-1.7B-Instruct-Q4_K_M.gguf"@,
            "1.7B"@, "smollm"@))
    } else if norm == "smollm2:360m"@ {
        Some(source_view("smollm2:360m"@, "SmolLM2-360M-Instruct-Q4_K_M.gguf"@,
            "https://huggingface.co/bartowski/SmolLM2-360M-Instruct-GGUF/resolve/main/SmolLM2-360M-Instruct-Q4_K_M.gguf"@,
            "360M"@, "smollm"@))
    } else if norm == "hermes3"@ || norm == "hermes3:latest"@ || norm == "hermes3:8b"@ {
        Some(source_view("hermes3:8b"@, "Hermes-3-Llama-3.1-8B-Q4_K_M.gguf"@,
            "https://huggingface.co/NousResearch/Hermes-3-Llama-3.1-8B-GGUF/resolve/main/Hermes-3-Llama-3.1-8B-Q4_K_M.gguf"@,
            "8B"@, "llama"@))
    } else {
        None
    }
}

/// `clean` without a leading `ollama.com/library/`.
pub open spec fn normalized(clean: Seq<char>) -> Seq<char> {
    if is_prefix_of("ollama.com/library/"@, clean) {
        clean.subrange("ollama.com/library/"@.len() as int, clean.len() as int)
    } else {
        clean
    }
}

/// `norm` is a direct HTTP or HTTPS URL.
pub open spec fn is_direct_url(norm: Seq<char>) -> bool {
    is_prefix_of("http://"@, norm) || is_prefix_of("https://"@, norm)
}

/// The file name taken from a direct URL: its last path segment up to any
/// query, with `.gguf` appended unless it already ends so.
pub open spec fn url_filename(norm: Seq<char>) -> Seq<char> {
    let base = split_char(split_char(norm, '/').last(), '?')[0];
    if is_suffix_of(".gguf"@, base) {
        base
    } else {
        base + ".gguf"@
    }
}

/// `norm` looks like a Hugging Face shortcut: `hf.co/...`, or a path ending in `.gguf`.
pub open spec fn is_hf_shortcut(norm: Seq<char>) -> bool {
    is_prefix_of("hf.co/"@, norm) || (norm.contains('/') && is_suffix_of(".gguf"@, norm))
}

/// The path segments of a Hugging Face shortcut given as `given`, after a
/// leading `hf.co/` in any ASCII case.
pub open spec fn hf_parts(given: Seq<char>) -> Seq<Seq<char>> {
    let path = if starts_with_any_case(given, "hf.co/"@) {
        given.subrange("hf.co/"@.len() as int, given.len() as int)
    } else {
        given
    };
    split_char(path, '/')
}

/// The download URL for the Hugging Face path segments `p` (user, repository, file path).
pub open spec fn hf_url(p: Seq<Seq<char>>) -> Seq<char> {
    "https://huggingface.co/"@ + p[0] + "/"@ + p[1] + "/resolve/main/"@ + join_seq(
        p.subrange(2, p.len() as int),
        "/"@,
    )
}

/// A URL or Hugging Face path as it was given: `identifier` trimmed,
/// without a leading `ollama.com/library/` in any ASCII case. Its case is
/// kept, since URL paths are case-sensitive.
pub open spec fn as_given(identifier: Seq<char>) -> Seq<char> {
    let t = trim_seq(identifier);
    if starts_with_any_case(t, "ollama.com/library/"@) {
        t.subrange("ollama.com/library/"@.len() as int, t.len() as int)
    } else {
        t
    }
}

/// The source that `identifier` resolves to, given `clean`, its trimmed and
/// lower-cased form.
pub open spec fn resolve_spec(identifier: Seq<char>, clean: Seq<char>) -> Option<SourceView> {
    let norm = normalized(clean);
    if is_direct_url(norm) {
        let url = as_given(identifier);
        Some(source_view(identifier, url_filename(url), url, "Unknown"@, "custom"@))
    } else if is_hf_shortcut(norm) && hf_parts(as_given(identifier)).len() >= 3 {
        let p = hf_parts(as_given(identifier));
        Some(source_view(identifier, p.last(), hf_url(p), "Custom"@, "custom"@))
    } else {
        catalog_entry(norm)
    }
}

fn source(tag: &str, filename: &str, download_url: &str, parameter_size: &str, family: &str) -> (res:
    ResolvedModelSource)
    ensures
        res@ == source_view(tag@, filename@, download_url@, parameter_size@, family@),
{
    ResolvedModelSource {
        tag: owned(tag),
        filename: owned(filename),
        download_url: owned(download_url),
        parameter_size: owned(parameter_size),
        family: owned(family),
    }
}

/// Looks `norm` up in the curated catalog.
pub fn catalog_lookup(norm: &Vec<char>) -> (res: Option<ResolvedModelSource>)
    ensures
        source_opt_view(res) == catalog_entry(norm@),
{
    if is_text(norm, "deepseek-r1") || is_text(norm, "deepseek-r1:latest") || is_text(norm, "deepseek-r1:7b") {
        Some(source("deepseek-r1:7b", "DeepSeek-R1-Distill-Qwen-7B-Q4_K_M.gguf",
            "https://huggingface.co/unsloth/DeepSeek-R1-Distill-Qwen-7B-GGUF/resolve/main/DeepSeek-R1-Distill-Qwen-7B-Q4_K_M.gguf",
            "7B", "deepseek"))
    } else if is_text(norm, "deepseek-r1:1.5b") {
        Some(source("deepseek-r1:1.5b", "DeepSeek-R1-Distill-Qwen-1.5B-Q4_K_M.gguf",
            "https://huggingface.co/bartowski/DeepSeek-R1-Distill-Qwen-1.5B-GGUF/resolve/main/DeepSeek-R1-Distill-Qwen-1.5B-Q4_K_M.gguf",
            "1.5B", "deepseek"))
    } else if is_text(norm, "deepseek-r1:8b") {
        Some(source("deepseek-r1:8b", "DeepSeek-R1-Distill-Llama-8B-Q4_K_M.gguf",
            "https://huggingface.co/bartowski/DeepSeek-R1-Distill-Llama-8B-GGUF/resolve/main/DeepSeek-R1-Distill-Llama-8B-Q4_K_M.gguf",
            "8B", "deepseek"))
    } else if is_text(norm, "deepseek-coder-v2") || is_text(norm, "deepseek-coder-v2:latest") || is_text(norm, "deepseek-coder-v2:16b") {
        Some(source("deepseek-coder-v2:16b", "DeepSeek-Coder-V2-Lite-Instruct-Q4_K_M.gguf",
            "https://huggingface.co/bartowski/DeepSeek-Coder-V2-Lite-Instruct-GGUF/resolve/main/DeepSeek-Coder-V2-Lite-Instruct-Q4_K_M.gguf",
            "16B", "deepseek"))
    } else if is_text(norm, "llama3.2") || is_text(norm, "llama3.2:latest") || is_text(norm, "llama3.2:3b") {
        Some(source("llama3.2:3b", "Llama-3.2-3B-Instruct-Q4_K_M.gguf",
            "https://huggingface.co/bartowski/Llama-3.2-3B-Instruct-GGUF/resolve/main/Llama-3.2-3B-Instruct-Q4_K_M.gguf",
            "3B", "llama"))
    } else if is_text(norm, "llama3.2:1b") {
        Some(source("llama3.2:1b", "Llama-3.2-1B-Instruct-Q4_K_M.gguf",
            "https://huggingface.co/bartowski/Llama-3.2-1B-Instruct-GGUF/resolve/main/Llama-3.2-1B-Instruct-Q4_K_M.gguf",
            "1B", "llama"))
    } else if is_text(norm, "llama3.1") || is_text(norm, "llama3.1:latest") || is_text(norm, "llama3.1:8b") {
        Some(source("llama3.1:8b", "Llama-3.1-8B-Instruct-Q4_K_M.gguf",
            "https://huggingface.co/bartowski/Llama-3.1-8B-Instruct-GGUF/resolve/main/Llama-3.1-8B-Instruct-Q4_K_M.gguf",
            "8B", "llama"))
    } else if is_text(norm, "llama2") || is_text(norm, "llama2:latest") || is_text(norm, "llama2:7b") {
        Some(source("llama2:7b", "llama-2-7b-chat.Q4_K_M.gguf",
            "https://huggingface.co/TheBloke/Llama-2-7B-Chat-GGUF/resolve/main/llama-2-7b-chat.Q4_K_M.gguf",
            "7B", "llama"))
    } else if is_text(norm, "qwen2.5-coder") || is_text(norm, "qwen2.5-coder:latest") || is_text(norm, "qwen2.5-coder:7b") {
        Some(source("qwen2.5-coder:7b", "Qwen2.5-Coder-7B-Instruct-Q4_K_M.gguf",
            "https://huggingface.co/Qwen/Qwen2.5-Coder-7B-Instruct-GGUF/resolve/main/qwen2.5-coder-7b-instruct-q4_k_m.gguf",
            "7B", "qwen2"))
    } else if is_text(norm, "qwen2.5-coder:1.5b") {
        Some(source("qwen2.5-coder:1.5b", "Qwen2.5-Coder-1.5B-Instruct-Q4_K_M.gguf",
            "https://huggingface.co/Qwen/Qwen2.5-Coder-1.5B-Instruct-GGUF/resolve/main/qwen2.5-coder-1.5b-instruct-q4_k_m.gguf",
            "1.5B", "qwen2"))
    } else if is_text(norm, "qwen2.5-coder:14b") {
        Some(source("qwen2.5-coder:14b", "Qwen2.5-Coder-14B-Instruct-Q4_K_M.gguf",
            "https://huggingface.co/Qwen/Qwen2.5-Coder-14B-Instruct-GGUF/resolve/main/qwen2.5-coder-14b-instruct-q4_k_m.gguf",
            "14B", "qwen2"))
    } else if is_text(norm, "qwen2.5") || is_text(norm, "qwen2.5:latest") || is_text(norm, "qwen2.5:7b") {
        Some(source("qwen2.5:7b", "Qwen2.5-7B-Instruct-Q4_K_M.gguf",
            "https://huggingface.co/Qwen/Qwen2.5-7B-Instruct-GGUF/resolve/main/qwen2.5-7b-instruct-q4_k_m.gguf",
            "7B", "qwen2"))
    } else if is_text(norm, "qwen2.5:3b") {
        Some(source("qwen2.5:3b", "Qwen2.5-3B-Instruct-Q4_K_M.gguf",
            "https://huggingface.co/Qwen/Qwen2.5-3B-Instruct-GGUF/resolve/main/qwen2.5-3b-instruct-q4_k_m.gguf",
            "3B", "qwen2"))
    } else if is_text(norm, "qwen2.5:0.5b") || is_text(norm, "qwen2.5-0.5b") || is_text(norm, "qwen2.5-0.5b-instruct-q4_k_m") || is_text(norm, "qwen2.5-0.5b-instruct-q4_k_m:latest") {
        Some(source("qwen2.5:0.5b", "Qwen2.5-0.5B-Instruct-Q4_K_M.gguf",
            "https://huggingface.co/Qwen/Qwen2.5-0.5B-Instruct-GGUF/resolve/main/qwen2.5-0.5b-instruct-q4_k_m.gguf",
            "0.5B", "qwen2"))
    } else if is_text(norm, "mistral") || is_text(norm, "mistral:latest") || is_text(norm, "mistral:7b") {
        Some(source("mistral:7b", "Mistral-7B-Instruct-v0.3-Q4_K_M.gguf",
            "https://huggingface.co/bartowski/Mistral-7B-Instruct-v0.3-GGUF/resolve/main/Mistral-7B-Instruct-v0.3-Q4_K_M.gguf",
            "7B", "mistral"))
    } else if is_text(norm, "mistral-nemo") || is_text(norm, "mistral-nemo:latest") || is_text(norm, "mistral-nemo:12b") {
        Some(source("mistral-nemo:12b", "Mistral-Nemo-Instruct-2407-Q4_K_M.gguf",
            "https://huggingface.co/bartowski/Mistral-Nemo-Instruct-2407-GGUF/resolve/main/Mistral-Nemo-Instruct-2407-Q4_K_M.gguf",
            "12B", "mistral"))
    } else if is_text(norm, "phi4") || is_text(norm, "phi4:latest") || is_text(norm, "phi4:14b") {
        Some(source("phi4:14b", "phi-4-Q4_K_M.gguf",
            "https://huggingface.co/bartowski/phi-4-GGUF/resolve/main/phi-4-Q4_K_M.gguf",
            "14B", "phi3"))
    } else if is_text(norm, "phi3.5") || is_text(norm, "phi3.5:latest") || is_text(norm, "phi3.5:3.8b") {
        Some(source("phi3.5:3.8b", "Phi-3.5-mini-instruct-Q4_K_M.gguf",
            "https://huggingface.co/bartowski/Phi-3.5-mini-instruct-GGUF/resolve/main/Phi-3.5-mini-instruct-Q4_K_M.gguf",
            "3.8B", "phi3"))
    } else if is_text(norm, "gemma2") || is_text(norm, "gemma2:latest") || is_text(norm, "gemma2:2b") {
        Some(source("gemma2:2b", "gemma-2-2b-it-Q4_K_M.gguf",
            "https://huggingface.co/bartowski/gemma-2-2b-it-GGUF/resolve/main/gemma-2-2b-it-Q4_K_M.gguf",
            "2B", "gemma2"))
    } else if is_text(norm, "gemma2:9b") {
        Some(source("gemma2:9b", "gemma-2-9b-it-Q4_K_M.gguf",
            "https://huggingface.co/bartowski/gemma-2-9b-it-GGUF/resolve/main/gemma-2-9b-it-Q4_K_M.gguf",
            "9B", "gemma2"))
    } else if is_text(norm, "nomic-embed-text") || is_text(norm, "nomic-embed-text:latest") || is_text(norm, "nomic-embed") {
        Some(source("nomic-embed-text:latest", "nomic-embed-text-v1.5.Q4_K_M.gguf",
            "https://huggingface.co/nomic-ai/nomic-embed-text-v1.5-GGUF/resolve/main/nomic-embed-text-v1.5.Q4_K_M.gguf",
            "137M", "nomic-bert"))
    } else if is_text(norm, "smollm2") || is_text(norm, "smollm2:latest") || is_text(norm, "smollm2:1.7b") {
        Some(source("smollm2:1.7b", "SmolLM2-1.7B-Instruct-Q4_K_M.gguf",
            "https://huggingface.co/bartowski/SmolLM2-1.7B-Instruct-GGUF/resolve/main/SmolLM2-1.7B-Instruct-Q4_K_M.gguf",
            "1.7B", "smollm"))
    } else if is_text(norm, "smollm2:360m") {
        Some(source("smollm2:360m", "SmolLM2-360M-Instruct-Q4_K_M.gguf",
            "https://huggingface.co/bartowski/SmolLM2-360M-Instruct-GGUF/resolve/main/SmolLM2-360M-Instruct-Q4_K_M.gguf",
            "360M", "smollm"))
    } else if is_text(norm, "hermes3") || is_text(norm, "hermes3:latest") || is_text(norm, "hermes3:8b") {
        Some(source("hermes3:8b", "Hermes-3-Llama-3.1-8B-Q4_K_M.gguf",
            "https://huggingface.co/NousResearch/Hermes-3-Llama-3.1-8B-GGUF/resolve/main/Hermes-3-Llama-3.1-8B-Q4_K_M.gguf",
            "8B", "llama"))
    } else {
        None
    }
}

} // verus!

verus! {

/// Resolves `identifier` whose trimmed, lower-cased form is `clean`: a direct
/// URL, a Hugging Face shortcut, or a catalog tag (after dropping a leading
/// `ollama.com/library/`).
pub fn resolve_cleaned_source(identifier: &str, clean: &str) -> (res: Option<ResolvedModelSource>)
    ensures
        source_opt_view(res) == resolve_spec(identifier@, clean@),
{
    let clean_v = chars_of(clean);
    let lib = chars_of("ollama.com/library/");
    let norm = if starts_with(&clean_v, &lib) {
        slice(&clean_v, lib.len(), clean_v.len())
    } else {
        clean_v
    };
    assert(norm@ == normalized(clean@));
    let trimmed = trim(&chars_of(identifier));
    let given = if begins_with_any_case(&trimmed, &lib) {
        slice(&trimmed, lib.len(), trimmed.len())
    } else {
        trimmed
    };
    assert(given@ == as_given(identifier@));
    if starts_with(&norm, &chars_of("http://")) || starts_with(&norm, &chars_of("https://")) {
        let url = copy_chars(&given);
        let segments = split(&url, '/');
        proof {
            lemma_split_char_nonempty(url@, '/');
        }
        let last = &segments[segments.len() - 1];
        let pieces = split(last, '?');
        proof {
            lemma_split_char_nonempty(last@, '?');
        }
        let base = &pieces[0];
        let gguf = chars_of(".gguf");
        let filename = if ends_with(base, &gguf) {
            copy_chars(base)
        } else {
            concat(base, &gguf)
        };
        return Some(
            ResolvedModelSource {
                tag: owned(identifier),
                filename: string_of(&filename),
                download_url: string_of(&url),
                parameter_size: owned("Unknown"),
                family: owned("custom"),
            },
        );
    }
    let hf = chars_of("hf.co/");
    if starts_with(&norm, &hf) || (contains_char(&norm, '/') && ends_with(&norm, &chars_of(".gguf"))) {
        let path = if begins_with_any_case(&given, &hf) {
            slice(&given, hf.len(), given.len())
        } else {
            copy_chars(&given)
        };
        let parts = split(&path, '/');
        if parts.len() >= 3 {
            let mut url = chars_of("https://huggingface.co/");
            push_all(&mut url, &parts[0]);
            push_all(&mut url, &chars_of("/"));
            push_all(&mut url, &parts[1]);
            push_all(&mut url, &chars_of("/resolve/main/"));
            let rest = parts_from(&parts, 2);
            let file = join(&rest, &chars_of("/"));
            push_all(&mut url, &file);
            let filename = copy_chars(&parts[parts.len() - 1]);
            return Some(
                ResolvedModelSource {
                    tag: owned(identifier),
                    filename: string_of(&filename),
                    download_url: string_of(&url),
                    parameter_size: owned("Custom"),
                    family: owned("custom"),
                },
            );
        }
    }
    catalog_lookup(&norm)
}

/// Resolves a standard Ollama tag, a Hugging Face repository path or a
/// direct URL into a downloadable GGUF source; `None` when the identifier is
/// none of these.
pub fn resolve_model_source(identifier: &str) -> (res: Option<ResolvedModelSource>)
    ensures
        source_opt_view(res) == resolve_spec(identifier@, lowercase(trim_seq(identifier@))),
{
    let chars = chars_of(identifier);
    let trimmed = trim(&chars);
    let lower = to_lowercase(&trimmed);
    let clean = string_of(&lower);
    resolve_cleaned_source(identifier, clean.as_str())
}

} // verus!

verus! {

proof fn lemma_catalog_tag_0(identifier: Seq<char>)
    ensures
        resolve_spec(identifier, "deepseek-r1:7b"@) == Some(source_view("deepseek-r1:7b"@, "DeepSeek-R1-Distill-Qwen-7B-Q4_K_M.gguf"@,
            "https://huggingface.co/unsloth/DeepSeek-R1-Distill-Qwen-7B-GGUF/resolve/main/DeepSeek-R1-Distill-Qwen-7B-Q4_K_M.gguf"@,
            "7B"@, "deepseek"@)),
{
    reveal_strlit("deepseek-r1:7b");
    reveal_strlit("hf.co/");
    reveal_strlit("http://");
    reveal_strlit("https://");
    reveal_strlit("ollama.com/library/");
    assert("deepseek-r1:7b"@.subrange(0, 7)[0] != "http://"@[0]);
    assert("deepseek-r1:7b"@.subrange(0, 8)[0] != "https://"@[0]);
    assert("deepseek-r1:7b"@.subrange(0, 6)[0] != "hf.co/"@[0]);
}

proof fn lemma_catalog_tag_1(identifier: Seq<char>)
    ensures
        resolve_spec(identifier, "deepseek-r1:1.5b"@) == Some(source_view("deepseek-r1:1.5b"@, "DeepSeek-R1-Distill-Qwen-1.5B-Q4_K_M.gguf"@,
            "https://huggingface.co/bartowski/DeepSeek-R1-Distill-Qwen-1.5B-GGUF/resolve/main/DeepSeek-R1-Distill-Qwen-1.5B-Q4_K_M.gguf"@,
            "1.5B"@, "deepseek"@)),
{
    reveal_strlit("deepseek-r1");
    reveal_strlit("deepseek-r1:1.5b");
    reveal_strlit("deepseek-r1:7b");
    reveal_strlit("deepseek-r1:latest");
    reveal_strlit("hf.co/");
    reveal_strlit("http://");
    reveal_strlit("https://");
    reveal_strlit("ollama.com/library/");
    assert("deepseek-r1:1.5b"@.subrange(0, 7)[0] != "http://"@[0]);
    assert("deepseek-r1:1.5b"@.subrange(0, 8)[0] != "https://"@[0]);
    assert("deepseek-r1:1.5b"@.subrange(0, 6)[0] != "hf.co/"@[0]);
}

proof fn lemma_catalog_tag_2(identifier: Seq<char>)
    ensures
        resolve_spec(identifier, "deepseek-r1:8b"@) == Some(source_view("deepseek-r1:8b"@, "DeepSeek-R1-Distill-Llama-8B-Q4_K_M.gguf"@,
            "https://huggingface.co/bartowski/DeepSeek-R1-Distill-Llama-8B-GGUF/resolve/main/DeepSeek-R1-Distill-Llama-8B-Q4_K_M.gguf"@,
            "8B"@, "deepseek"@)),
{
    reveal_strlit("deepseek-r1");
    reveal_strlit("deepseek-r1:1.5b");
    reveal_strlit("deepseek-r1:7b");
    reveal_strlit("deepseek-r1:8b");
    reveal_strlit("deepseek-r1:latest");
    reveal_strlit("hf.co/");
    reveal_strlit("http://");
    reveal_strlit("https://");
    reveal_strlit("ollama.com/library/");
    assert("deepseek-r1:8b"@[12] != "deepseek-r1:7b"@[12]);
    assert("deepseek-r1:8b"@.subrange(0, 7)[0] != "http://"@[0]);
    assert("deepseek-r1:8b"@.subrange(0, 8)[0] != "https://"@[0]);
    assert("deepseek-r1:8b"@.subrange(0, 6)[0] != "hf.co/"@[0]);
}

proof fn lemma_catalog_tag_3(identifier: Seq<char>)
    ensures
        resolve_spec(identifier, "deepseek-coder-v2:16b"@) == Some(source_view("deepseek-coder-v2:16b"@, "DeepSeek-Coder-V2-Lite-Instruct-Q4_K_M.gguf"@,
            "https://huggingface.co/bartowski/DeepSeek-Coder-V2-Lite-Instruct-GGUF/resolve/main/DeepSeek-Coder-V2-Lite-Instruct-Q4_K_M.gguf"@,
            "16B"@, "deepseek"@)),
{
    reveal_strlit("deepseek-coder-v2:16b");
    reveal_strlit("deepseek-r1");
    reveal_strlit("deepseek-r1:1.5b");
    reveal_strlit("deepseek-r1:7b");
    reveal_strlit("deepseek-r1:8b");
    reveal_strlit("deepseek-r1:latest");
    reveal_strlit("hf.co/");
    reveal_strlit("http://");
    reveal_strlit("https://");
    reveal_strlit("ollama.com/library/");
    assert("deepseek-coder-v2:16b"@.subrange(0, 19)[0] != "ollama.com/library/"@[0]);
    assert("deepseek-coder-v2:16b"@.subrange(0, 7)[0] != "http://"@[0]);
    assert("deepseek-coder-v2:16b"@.subrange(0, 8)[0] != "https://"@[0]);
    assert("deepseek-coder-v2:16b"@.subrange(0, 6)[0] != "hf.co/"@[0]);
}

proof fn lemma_catalog_tag_4(identifier: Seq<char>)
    ensures
        resolve_spec(identifier, "llama3.2:3b"@) == Some(source_view("llama3.2:3b"@, "Llama-3.2-3B-Instruct-Q4_K_M.gguf"@,
            "https://huggingface.co/bartowski/Llama-3.2-3B-Instruct-GGUF/resolve/main/Llama-3.2-3B-Instruct-Q4_K_M.gguf"@,
            "3B"@, "llama"@)),
{
    reveal_strlit("deepseek-coder-v2");
    reveal_strlit("deepseek-coder-v2:16b");
    reveal_strlit("deepseek-coder-v2:latest");
    reveal_strlit("deepseek-r1");
    reveal_strlit("deepseek-r1:1.5b");
    reveal_strlit("deepseek-r1:7b");
    reveal_strlit("deepseek-r1:8b");
    reveal_strlit("deepseek-r1:latest");
    reveal_strlit("hf.co/");
    reveal_strlit("http://");
    reveal_strlit("https://");
    reveal_strlit("llama3.2:3b");
    reveal_strlit("ollama.com/library/");
    assert("llama3.2:3b"@[0] != "deepseek-r1"@[0]);
    assert("llama3.2:3b"@.subrange(0, 7)[0] != "http://"@[0]);
    assert("llama3.2:3b"@.subrange(0, 8)[0] != "https://"@[0]);
    assert("llama3.2:3b"@.subrange(0, 6)[0] != "hf.co/"@[0]);
}

proof fn lemma_catalog_tag_5(identifier: Seq<char>)
    ensures
        resolve_spec(identifier, "llama3.2:1b"@) == Some(source_view("llama3.2:1b"@, "Llama-3.2-1B-Instruct-Q4_K_M.gguf"@,
            "https://huggingface.co/bartowski/Llama-3.2-1B-Instruct-GGUF/resolve/main/Llama-3.2-1B-Instruct-Q4_K_M.gguf"@,
            "1B"@, "llama"@)),
{
    reveal_strlit("deepseek-coder-v2");
    reveal_strlit("deepseek-coder-v2:16b");
    reveal_strlit("deepseek-coder-v2:latest");
    reveal_strlit("deepseek-r1");
    reveal_strlit("deepseek-r1:1.5b");
    reveal_strlit("deepseek-r1:7b");
    reveal_strlit("deepseek-r1:8b");
    reveal_strlit("deepseek-r1:latest");
    reveal_strlit("hf.co/");
    reveal_strlit("http://");
    reveal_strlit("https://");
    reveal_strlit("llama3.2");
    reveal_strlit("llama3.2:1b");
    reveal_strlit("llama3.2:3b");
    reveal_strlit("llama3.2:latest");
    reveal_strlit("ollama.com/library/");
    assert("llama3.2:1b"@[0] != "deepseek-r1"@[0]);
    assert("llama3.2:1b"@[9] != "llama3.2:3b"@[9]);
    assert("llama3.2:1b"@.subrange(0, 7)[0] != "http://"@[0]);
    assert("llama3.2:1b"@.subrange(0, 8)[0] != "https://"@[0]);
    assert("llama3.2:1b"@.subrange(0, 6)[0] != "hf.co/"@[0]);
}

proof fn lemma_catalog_tag_6(identifier: Seq<char>)
    ensures
        resolve_spec(identifier, "llama3.1:8b"@) == Some(source_view("llama3.1:8b"@, "Llama-3.1-8B-Instruct-Q4_K_M.gguf"@,
            "https://huggingface.co/bartowski/Llama-3.1-8B-Instruct-GGUF/resolve/main/Llama-3.1-8B-Instruct-Q4_K_M.gguf"@,
            "8B"@, "llama"@)),
{
    reveal_strlit("deepseek-coder-v2");
    reveal_strlit("deepseek-coder-v2:16b");
    reveal_strlit("deepseek-coder-v2:latest");
    reveal_strlit("deepseek-r1");
    reveal_strlit("deepseek-r1:1.5b");
    reveal_strlit("deepseek-r1:7b");
    reveal_strlit("deepseek-r1:8b");
    reveal_strlit("deepseek-r1:latest");
    reveal_strlit("hf.co/");
    reveal_strlit("http://");
    reveal_strlit("https://");
    reveal_strlit("llama3.1:8b");
    reveal_strlit("llama3.2");
    reveal_strlit("llama3.2:1b");
    reveal_strlit("llama3.2:3b");
    reveal_strlit("llama3.2:latest");
    reveal_strlit("ollama.com/library/");
    assert("llama3.1:8b"@[0] != "deepseek-r1"@[0]);
    assert("llama3.1:8b"@[7] != "llama3.2:3b"@[7]);
    assert("llama3.1:8b"@[7] != "llama3.2:1b"@[7]);
    assert("llama3.1:8b"@.subrange(0, 7)[0] != "http://"@[0]);
    assert("llama3.1:8b"@.subrange(0, 8)[0] != "https://"@[0]);
    assert("llama3.1:8b"@.subrange(0, 6)[0] != "hf.co/"@[0]);
}

proof fn lemma_catalog_tag_7(identifier: Seq<char>)
    ensures
        resolve_spec(identifier, "llama2:7b"@) == Some(source_view("llama2:7b"@, "llama-2-7b-chat.Q4_K_M.gguf"@,
            "https://huggingface.co/TheBloke/Llama-2-7B-Chat-GGUF/resolve/main/llama-2-7b-chat.Q4_K_M.gguf"@,
            "7B"@, "llama"@)),
{
    reveal_strlit("deepseek-coder-v2");
    reveal_strlit("deepseek-coder-v2:16b");
    reveal_strlit("deepseek-coder-v2:latest");
    reveal_strlit("deepseek-r1");
    reveal_strlit("deepseek-r1:1.5b");
    reveal_strlit("deepseek-r1:7b");
    reveal_strlit("deepseek-r1:8b");
    reveal_strlit("deepseek-r1:latest");
    reveal_strlit("hf.co/");
    reveal_strlit("http://");
    reveal_strlit("https://");
    reveal_strlit("llama2:7b");
    reveal_strlit("llama3.1");
    reveal_strlit("llama3.1:8b");
    reveal_strlit("llama3.1:latest");
    reveal_strlit("llama3.2");
    reveal_strlit("llama3.2:1b");
    reveal_strlit("llama3.2:3b");
    reveal_strlit("llama3.2:latest");
    reveal_strlit("ollama.com/library/");
    assert("llama2:7b"@.subrange(0, 7)[0] != "http://"@[0]);
    assert("llama2:7b"@.subrange(0, 8)[0] != "https://"@[0]);
    assert("llama2:7b"@.subrange(0, 6)[0] != "hf.co/"@[0]);
}

proof fn lemma_catalog_tag_8(identifier: Seq<char>)
    ensures
        resolve_spec(identifier, "qwen2.5-coder:7b"@) == Some(source_view("qwen2.5-coder:7b"@, "Qwen2.5-Coder-7B-Instruct-Q4_K_M.gguf"@,
            "https://huggingface.co/Qwen/Qwen2.5-Coder-7B-Instruct-GGUF/resolve/main/qwen2.5-coder-7b-instruct-q4_k_m.gguf"@,
            "7B"@, "qwen2"@)),
{
    reveal_strlit("deepseek-coder-v2");
    reveal_strlit("deepseek-coder-v2:16b");
    reveal_strlit("deepseek-coder-v2:latest");
    reveal_strlit("deepseek-r1");
    reveal_strlit("deepseek-r1:1.5b");
    reveal_strlit("deepseek-r1:7b");
    reveal_strlit("deepseek-r1:8b");
    reveal_strlit("deepseek-r1:latest");
    reveal_strlit("hf.co/");
    reveal_strlit("http://");
    reveal_strlit("https://");
    reveal_strlit("llama2");
    reveal_strlit("llama2:7b");
    reveal_strlit("llama2:latest");
    reveal_strlit("llama3.1");
    reveal_strlit("llama3.1:8b");
    reveal_strlit("llama3.1:latest");
    reveal_strlit("llama3.2");
    reveal_strlit("llama3.2:1b");
    reveal_strlit("llama3.2:3b");
    reveal_strlit("llama3.2:latest");
    reveal_strlit("ollama.com/library/");
    reveal_strlit("qwen2.5-coder:7b");
    assert("qwen2.5-coder:7b"@[0] != "deepseek-r1:1.5b"@[0]);
    assert("qwen2.5-coder:7b"@.subrange(0, 7)[0] != "http://"@[0]);
    assert("qwen2.5-coder:7b"@.subrange(0, 8)[0] != "https://"@[0]);
    assert("qwen2.5-coder:7b"@.subrange(0, 6)[0] != "hf.co/"@[0]);
}

proof fn lemma_catalog_tag_9(identifier: Seq<char>)
    ensures
        resolve_spec(identifier, "qwen2.5-coder:1.5b"@) == Some(source_view("qwen2.5-coder:1.5b"@, "Qwen2.5-Coder-1.5B-Instruct-Q4_K_M.gguf"@,
            "https://huggingface.co/Qwen/Qwen2.5-Coder-1.5B-Instruct-GGUF/resolve/main/qwen2.5-coder-1.5b-instruct-q4_k_m.gguf"@,
            "1.5B"@, "qwen2"@)),
{
    reveal_strlit("deepseek-coder-v2");
    reveal_strlit("deepseek-coder-v2:16b");
    reveal_strlit("deepseek-coder-v2:latest");
    reveal_strlit("deepseek-r1");
    reveal_strlit("deepseek-r1:1.5b");
    reveal_strlit("deepseek-r1:7b");
    reveal_strlit("deepseek-r1:8b");
    reveal_strlit("deepseek-r1:latest");
    reveal_strlit("hf.co/");
    reveal_strlit("http://");
    reveal_strlit("https://");
    reveal_strlit("llama2");
    reveal_strlit("llama2:7b");
    reveal_strlit("llama2:latest");
    reveal_strlit("llama3.1");
    reveal_strlit("llama3.1:8b");
    reveal_strlit("llama3.1:latest");
    reveal_strlit("llama3.2");
    reveal_strlit("llama3.2:1b");
    reveal_strlit("llama3.2:3b");
    reveal_strlit("llama3.2:latest");
    reveal_strlit("ollama.com/library/");
    reveal_strlit("qwen2.5-coder");
    reveal_strlit("qwen2.5-coder:1.5b");
    reveal_strlit("qwen2.5-coder:7b");
    reveal_strlit("qwen2.5-coder:latest");
    assert("qwen2.5-coder:1.5b"@[0] != "deepseek-r1:latest"@[0]);
    assert("qwen2.5-coder:1.5b"@.subrange(0, 7)[0] != "http://"@[0]);
    assert("qwen2.5-coder:1.5b"@.subrange(0, 8)[0] != "https://"@[0]);
    assert("qwen2.5-coder:1.5b"@.subrange(0, 6)[0] != "hf.co/"@[0]);
}

proof fn lemma_catalog_tag_10(identifier: Seq<char>)
    ensures
        resolve_spec(identifier, "qwen2.5-coder:14b"@) == Some(source_view("qwen2.5-coder:14b"@, "Qwen2.5-Coder-14B-Instruct-Q4_K_M.gguf"@,
            "https://huggingface.co/Qwen/Qwen2.5-Coder-14B-Instruct-GGUF/resolve/main/qwen2.5-coder-14b-instruct-q4_k_m.gguf"@,
            "14B"@, "qwen2"@)),
{
    reveal_strlit("deepseek-coder-v2");
    reveal_strlit("deepseek-coder-v2:16b");
    reveal_strlit("deepseek-coder-v2:latest");
    reveal_strlit("deepseek-r1");
    reveal_strlit("deepseek-r1:1.5b");
    reveal_strlit("deepseek-r1:7b");
    reveal_strlit("deepseek-r1:8b");
    reveal_strlit("deepseek-r1:latest");
    reveal_strlit("hf.co/");
    reveal_strlit("http://");
    reveal_strlit("https://");
    reveal_strlit("llama2");
    reveal_strlit("llama2:7b");
    reveal_strlit("llama2:latest");
    reveal_strlit("llama3.1");
    reveal_strlit("llama3.1:8b");
    reveal_strlit("llama3.1:latest");
    reveal_strlit("llama3.2");
    reveal_strlit("llama3.2:1b");
    reveal_strlit("llama3.2:3b");
    reveal_strlit("llama3.2:latest");
    reveal_strlit("ollama.com/library/");
    reveal_strlit("qwen2.5-coder");
    reveal_strlit("qwen2.5-coder:1.5b");
    reveal_strlit("qwen2.5-coder:14b");
    reveal_strlit("qwen2.5-coder:7b");
    reveal_strlit("qwen2.5-coder:latest");
    assert("qwen2.5-coder:14b"@[0] != "deepseek-coder-v2"@[0]);
    assert("qwen2.5-coder:14b"@.subrange(0, 7)[0] != "http://"@[0]);
    assert("qwen2.5-coder:14b"@.subrange(0, 8)[0] != "https://"@[0]);
    assert("qwen2.5-coder:14b"@.subrange(0, 6)[0] != "hf.co/"@[0]);
}

proof fn lemma_catalog_tag_11(identifier: Seq<char>)
    ensures
        resolve_spec(identifier, "qwen2.5:7b"@) == Some(source_view("qwen2.5:7b"@, "Qwen2.5-7B-Instruct-Q4_K_M.gguf"@,
            "https://huggingface.co/Qwen/Qwen2.5-7B-Instruct-GGUF/resolve/main/qwen2.5-7b-instruct-q4_k_m.gguf"@,
            "7B"@, "qwen2"@)),
{
    reveal_strlit("deepseek-coder-v2");
    reveal_strlit("deepseek-coder-v2:16b");
    reveal_strlit("deepseek-coder-v2:latest");
    reveal_strlit("deepseek-r1");
    reveal_strlit("deepseek-r1:1.5b");
    reveal_strlit("deepseek-r1:7b");
    reveal_strlit("deepseek-r1:8b");
    reveal_strlit("deepseek-r1:latest");
    reveal_strlit("hf.co/");
    reveal_strlit("http://");
    reveal_strlit("https://");
    reveal_strlit("llama2");
    reveal_strlit("llama2:7b");
    reveal_strlit("llama2:latest");
    reveal_strlit("llama3.1");
    reveal_strlit("llama3.1:8b");
    reveal_strlit("llama3.1:latest");
    reveal_strlit("llama3.2");
    reveal_strlit("llama3.2:1b");
    reveal_strlit("llama3.2:3b");
    reveal_strlit("llama3.2:latest");
    reveal_strlit("ollama.com/library/");
    reveal_strlit("qwen2.5-coder");
    reveal_strlit("qwen2.5-coder:1.5b");
    reveal_strlit("qwen2.5-coder:14b");
    reveal_strlit("qwen2.5-coder:7b");
    reveal_strlit("qwen2.5-coder:latest");
    reveal_strlit("qwen2.5:7b");
    assert("qwen2.5:7b"@.subrange(0, 7)[0] != "http://"@[0]);
    assert("qwen2.5:7b"@.subrange(0, 8)[0] != "https://"@[0]);
    assert("qwen2.5:7b"@.subrange(0, 6)[0] != "hf.co/"@[0]);
}

proof fn lemma_catalog_tag_12(identifier: Seq<char>)
    ensures
        resolve_spec(identifier, "qwen2.5:3b"@) == Some(source_view("qwen2.5:3b"@, "Qwen2.5-3B-Instruct-Q4_K_M.gguf"@,
            "https://huggingface.co/Qwen/Qwen2.5-3B-Instruct-GGUF/resolve/main/qwen2.5-3b-instruct-q4_k_m.gguf"@,
            "3B"@, "qwen2"@)),
{
    reveal_strlit("deepseek-coder-v2");
    reveal_strlit("deepseek-coder-v2:16b");
    reveal_strlit("deepseek-coder-v2:latest");
    reveal_strlit("deepseek-r1");
    reveal_strlit("deepseek-r1:1.5b");
    reveal_strlit("deepseek-r1:7b");
    reveal_strlit("deepseek-r1:8b");
    reveal_strlit("deepseek-r1:latest");
    reveal_strlit("hf.co/");
    reveal_strlit("http://");
    reveal_strlit("https://");
    reveal_strlit("llama2");
    reveal_strlit("llama2:7b");
    reveal_strlit("llama2:latest");
    reveal_strlit("llama3.1");
    reveal_strlit("llama3.1:8b");
    reveal_strlit("llama3.1:latest");
    reveal_strlit("llama3.2");
    reveal_strlit("llama3.2:1b");
    reveal_strlit("llama3.2:3b");
    reveal_strlit("llama3.2:latest");
    reveal_strlit("ollama.com/library/");
    reveal_strlit("qwen2.5");
    reveal_strlit("qwen2.5-coder");
    reveal_strlit("qwen2.5-coder:1.5b");
    reveal_strlit("qwen2.5-coder:14b");
    reveal_strlit("qwen2.5-coder:7b");
    reveal_strlit("qwen2.5-coder:latest");
    reveal_strlit("qwen2.5:3b");
    reveal_strlit("qwen2.5:7b");
    reveal_strlit("qwen2.5:latest");
    assert("qwen2.5:3b"@[8] != "qwen2.5:7b"@[8]);
    assert("qwen2.5:3b"@.subrange(0, 7)[0] != "http://"@[0]);
    assert("qwen2.5:3b"@.subrange(0, 8)[0] != "https://"@[0]);
    assert("qwen2.5:3b"@.subrange(0, 6)[0] != "hf.co/"@[0]);
}

proof fn lemma_catalog_tag_13(identifier: Seq<char>)
    ensures
        resolve_spec(identifier, "qwen2.5:0.5b"@) == Some(source_view("qwen2.5:0.5b"@, "Qwen2.5-0.5B-Instruct-Q4_K_M.gguf"@,
            "https://huggingface.co/Qwen/Qwen2.5-0.5B-Instruct-GGUF/resolve/main/qwen2.5-0.5b-instruct-q4_k_m.gguf"@,
            "0.5B"@, "qwen2"@)),
{
    reveal_strlit("deepseek-coder-v2");
    reveal_strlit("deepseek-coder-v2:16b");
    reveal_strlit("deepseek-coder-v2:latest");
    reveal_strlit("deepseek-r1");
    reveal_strlit("deepseek-r1:1.5b");
    reveal_strlit("deepseek-r1:7b");
    reveal_strlit("deepseek-r1:8b");
    reveal_strlit("deepseek-r1:latest");
    reveal_strlit("hf.co/");
    reveal_strlit("http://");
    reveal_strlit("https://");
    reveal_strlit("llama2");
    reveal_strlit("llama2:7b");
    reveal_strlit("llama2:latest");
    reveal_strlit("llama3.1");
    reveal_strlit("llama3.1:8b");
    reveal_strlit("llama3.1:latest");
    reveal_strlit("llama3.2");
    reveal_strlit("llama3.2:1b");
    reveal_strlit("llama3.2:3b");
    reveal_strlit("llama3.2:latest");
    reveal_strlit("ollama.com/library/");
    reveal_strlit("qwen2.5");
    reveal_strlit("qwen2.5-coder");
    reveal_strlit("qwen2.5-coder:1.5b");
    reveal_strlit("qwen2.5-coder:14b");
    reveal_strlit("qwen2.5-coder:7b");
    reveal_strlit("qwen2.5-coder:latest");
    reveal_strlit("qwen2.5:0.5b");
    reveal_strlit("qwen2.5:3b");
    reveal_strlit("qwen2.5:7b");
    reveal_strlit("qwen2.5:latest");
    assert("qwen2.5:0.5b"@.subrange(0, 7)[0] != "http://"@[0]);
    assert("qwen2.5:0.5b"@.subrange(0, 8)[0] != "https://"@[0]);
    assert("qwen2.5:0.5b"@.subrange(0, 6)[0] != "hf.co/"@[0]);
}

proof fn lemma_catalog_tag_14(identifier: Seq<char>)
    ensures
        resolve_spec(identifier, "mistral:7b"@) == Some(source_view("mistral:7b"@, "Mistral-7B-Instruct-v0.3-Q4_K_M.gguf"@,
            "https://huggingface.co/bartowski/Mistral-7B-Instruct-v0.3-GGUF/resolve/main/Mistral-7B-Instruct-v0.3-Q4_K_M.gguf"@,
            "7B"@, "mistral"@)),
{
    reveal_strlit("deepseek-coder-v2");
    reveal_strlit("deepseek-coder-v2:16b");
    reveal_strlit("deepseek-coder-v2:latest");
    reveal_strlit("deepseek-r1");
    reveal_strlit("deepseek-r1:1.5b");
    reveal_strlit("deepseek-r1:7b");
    reveal_strlit("deepseek-r1:8b");
    reveal_strlit("deepseek-r1:latest");
    reveal_strlit("hf.co/");
    reveal_strlit("http://");
    reveal_strlit("https://");
    reveal_strlit("llama2");
    reveal_strlit("llama2:7b");
    reveal_strlit("llama2:latest");
    reveal_strlit("llama3.1");
    reveal_strlit("llama3.1:8b");
    reveal_strlit("llama3.1:latest");
    reveal_strlit("llama3.2");
    reveal_strlit("llama3.2:1b");
    reveal_strlit("llama3.2:3b");
    reveal_strlit("llama3.2:latest");
    reveal_strlit("mistral:7b");
    reveal_strlit("ollama.com/library/");
    reveal_strlit("qwen2.5");
    reveal_strlit("qwen2.5-0.5b");
    reveal_strlit("qwen2.5-0.5b-instruct-q4_k_m");
    reveal_strlit("qwen2.5-0.5b-instruct-q4_k_m:latest");
    reveal_strlit("qwen2.5-coder");
    reveal_strlit("qwen2.5-coder:1.5b");
    reveal_strlit("qwen2.5-coder:14b");
    reveal_strlit("qwen2.5-coder:7b");
    reveal_strlit("qwen2.5-coder:latest");
    reveal_strlit("qwen2.5:0.5b");
    reveal_strlit("qwen2.5:3b");
    reveal_strlit("qwen2.5:7b");
    reveal_strlit("qwen2.5:latest");
    assert("mistral:7b"@[0] != "qwen2.5:7b"@[0]);
    assert("mistral:7b"@[0] != "qwen2.5:3b"@[0]);
    assert("mistral:7b"@.subrange(0, 7)[0] != "http://"@[0]);
    assert("mistral:7b"@.subrange(0, 8)[0] != "https://"@[0]);
    assert("mistral:7b"@.subrange(0, 6)[0] != "hf.co/"@[0]);
}

proof fn lemma_catalog_tag_15(identifier: Seq<char>)
    ensures
        resolve_spec(identifier, "mistral-nemo:12b"@) == Some(source_view("mistral-nemo:12b"@, "Mistral-Nemo-Instruct-2407-Q4_K_M.gguf"@,
            "https://huggingface.co/bartowski/Mistral-Nemo-Instruct-2407-GGUF/resolve/main/Mistral-Nemo-Instruct-2407-Q4_K_M.gguf"@,
            "12B"@, "mistral"@)),
{
    reveal_strlit("deepseek-coder-v2");
    reveal_strlit("deepseek-coder-v2:16b");
    reveal_strlit("deepseek-coder-v2:latest");
    reveal_strlit("deepseek-r1");
    reveal_strlit("deepseek-r1:1.5b");
    reveal_strlit("deepseek-r1:7b");
    reveal_strlit("deepseek-r1:8b");
    reveal_strlit("deepseek-r1:latest");
    reveal_strlit("hf.co/");
    reveal_strlit("http://");
    reveal_strlit("https://");
    reveal_strlit("llama2");
    reveal_strlit("llama2:7b");
    reveal_strlit("llama2:latest");
    reveal_strlit("llama3.1");
    reveal_strlit("llama3.1:8b");
    reveal_strlit("llama3.1:latest");
    reveal_strlit("llama3.2");
    reveal_strlit("llama3.2:1b");
    reveal_strlit("llama3.2:3b");
    reveal_strlit("llama3.2:latest");
    reveal_strlit("mistral");
    reveal_strlit("mistral-nemo:12b");
    reveal_strlit("mistral:7b");
    reveal_strlit("mistral:latest");
    reveal_strlit("ollama.com/library/");
    reveal_strlit("qwen2.5");
    reveal_strlit("qwen2.5-0.5b");
    reveal_strlit("qwen2.5-0.5b-instruct-q4_k_m");
    reveal_strlit("qwen2.5-0.5b-instruct-q4_k_m:latest");
    reveal_strlit("qwen2.5-coder");
    reveal_strlit("qwen2.5-coder:1.5b");
    reveal_strlit("qwen2.5-coder:14b");
    reveal_strlit("qwen2.5-coder:7b");
    reveal_strlit("qwen2.5-coder:latest");
    reveal_strlit("qwen2.5:0.5b");
    reveal_strlit("qwen2.5:3b");
    reveal_strlit("qwen2.5:7b");
    reveal_strlit("qwen2.5:latest");
    assert("mistral-nemo:12b"@[0] != "deepseek-r1:1.5b"@[0]);
    assert("mistral-nemo:12b"@[0] != "qwen2.5-coder:7b"@[0]);
    assert("mistral-nemo:12b"@.subrange(0, 7)[0] != "http://"@[0]);
    assert("mistral-nemo:12b"@.subrange(0, 8)[0] != "https://"@[0]);
    assert("mistral-nemo:12b"@.subrange(0, 6)[0] != "hf.co/"@[0]);
}

proof fn lemma_catalog_tag_16(identifier: Seq<char>)
    ensures
        resolve_spec(identifier, "phi4:14b"@) == Some(source_view("phi4:14b"@, "phi-4-Q4_K_M.gguf"@,
            "https://huggingface.co/bartowski/phi-4-GGUF/resolve/main/phi-4-Q4_K_M.gguf"@,
            "14B"@, "phi3"@)),
{
    reveal_strlit("deepseek-coder-v2");
    reveal_strlit("deepseek-coder-v2:16b");
    reveal_strlit("deepseek-coder-v2:latest");
    reveal_strlit("deepseek-r1");
    reveal_strlit("deepseek-r1:1.5b");
    reveal_strlit("deepseek-r1:7b");
    reveal_strlit("deepseek-r1:8b");
    reveal_strlit("deepseek-r1:latest");
    reveal_strlit("hf.co/");
    reveal_strlit("http://");
    reveal_strlit("https://");
    reveal_strlit("llama2");
    reveal_strlit("llama2:7b");
    reveal_strlit("llama2:latest");
    reveal_strlit("llama3.1");
    reveal_strlit("llama3.1:8b");
    reveal_strlit("llama3.1:latest");
    reveal_strlit("llama3.2");
    reveal_strlit("llama3.2:1b");
    reveal_strlit("llama3.2:3b");
    reveal_strlit("llama3.2:latest");
    reveal_strlit("mistral");
    reveal_strlit("mistral-nemo");
    reveal_strlit("mistral-nemo:12b");
    reveal_strlit("mistral-nemo:latest");
    reveal_strlit("mistral:7b");
    reveal_strlit("mistral:latest");
    reveal_strlit("ollama.com/library/");
    reveal_strlit("phi4:14b");
    reveal_strlit("qwen2.5");
    reveal_strlit("qwen2.5-0.5b");
    reveal_strlit("qwen2.5-0.5b-instruct-q4_k_m");
    reveal_strlit("qwen2.5-0.5b-instruct-q4_k_m:latest");
    reveal_strlit("qwen2.5-coder");
    reveal_strlit("qwen2.5-coder:1.5b");
    reveal_strlit("qwen2.5-coder:14b");
    reveal_strlit("qwen2.5-coder:7b");
    reveal_strlit("qwen2.5-coder:latest");
    reveal_strlit("qwen2.5:0.5b");
    reveal_strlit("qwen2.5:3b");
    reveal_strlit("qwen2.5:7b");
    reveal_strlit("qwen2.5:latest");
    assert("phi4:14b"@[0] != "llama3.2"@[0]);
    assert("phi4:14b"@[0] != "llama3.1"@[0]);
    assert("phi4:14b"@.subrange(0, 7)[0] != "http://"@[0]);
    assert("phi4:14b"@.subrange(0, 8)[0] != "https://"@[0]);
    assert("phi4:14b"@.subrange(0, 6)[0] != "hf.co/"@[0]);
}

proof fn lemma_catalog_tag_17(identifier: Seq<char>)
    ensures
        resolve_spec(identifier, "phi3.5:3.8b"@) == Some(source_view("phi3.5:3.8b"@, "Phi-3.5-mini-instruct-Q4_K_M.gguf"@,
            "https://huggingface.co/bartowski/Phi-3.5-mini-instruct-GGUF/resolve/main/Phi-3.5-mini-instruct-Q4_K_M.gguf"@,
            "3.8B"@, "phi3"@)),
{
    reveal_strlit("deepseek-coder-v2");
    reveal_strlit("deepseek-coder-v2:16b");
    reveal_strlit("deepseek-coder-v2:latest");
    reveal_strlit("deepseek-r1");
    reveal_strlit("deepseek-r1:1.5b");
    reveal_strlit("deepseek-r1:7b");
    reveal_strlit("deepseek-r1:8b");
    reveal_strlit("deepseek-r1:latest");
    reveal_strlit("hf.co/");
    reveal_strlit("http://");
    reveal_strlit("https://");
    reveal_strlit("llama2");
    reveal_strlit("llama2:7b");
    reveal_strlit("llama2:latest");
    reveal_strlit("llama3.1");
    reveal_strlit("llama3.1:8b");
    reveal_strlit("llama3.1:latest");
    reveal_strlit("llama3.2");
    reveal_strlit("llama3.2:1b");
    reveal_strlit("llama3.2:3b");
    reveal_strlit("llama3.2:latest");
    reveal_strlit("mistral");
    reveal_strlit("mistral-nemo");
    reveal_strlit("mistral-nemo:12b");
    reveal_strlit("mistral-nemo:latest");
    reveal_strlit("mistral:7b");
    reveal_strlit("mistral:latest");
    reveal_strlit("ollama.com/library/");
    reveal_strlit("phi3.5:3.8b");
    reveal_strlit("phi4");
    reveal_strlit("phi4:14b");
    reveal_strlit("phi4:latest");
    reveal_strlit("qwen2.5");
    reveal_strlit("qwen2.5-0.5b");
    reveal_strlit("qwen2.5-0.5b-instruct-q4_k_m");
    reveal_strlit("qwen2.5-0.5b-instruct-q4_k_m:latest");
    reveal_strlit("qwen2.5-coder");
    reveal_strlit("qwen2.5-coder:1.5b");
    reveal_strlit("qwen2.5-coder:14b");
    reveal_strlit("qwen2.5-coder:7b");
    reveal_strlit("qwen2.5-coder:latest");
    reveal_strlit("qwen2.5:0.5b");
    reveal_strlit("qwen2.5:3b");
    reveal_strlit("qwen2.5:7b");
    reveal_strlit("qwen2.5:latest");
    assert("phi3.5:3.8b"@[0] != "deepseek-r1"@[0]);
    assert("phi3.5:3.8b"@[0] != "llama3.2:3b"@[0]);
    assert("phi3.5:3.8b"@[0] != "llama3.2:1b"@[0]);
    assert("phi3.5:3.8b"@[0] != "llama3.1:8b"@[0]);
    assert("phi3.5:3.8b"@[3] != "phi4:latest"@[3]);
    assert("phi3.5:3.8b"@.subrange(0, 7)[0] != "http://"@[0]);
    assert("phi3.5:3.8b"@.subrange(0, 8)[0] != "https://"@[0]);
    assert("phi3.5:3.8b"@.subrange(0, 6)[0] != "hf.co/"@[0]);
}

proof fn lemma_catalog_tag_18(identifier: Seq<char>)
    ensures
        resolve_spec(identifier, "gemma2:2b"@) == Some(source_view("gemma2:2b"@, "gemma-2-2b-it-Q4_K_M.gguf"@,
            "https://huggingface.co/bartowski/gemma-2-2b-it-GGUF/resolve/main/gemma-2-2b-it-Q4_K_M.gguf"@,
            "2B"@, "gemma2"@)),
{
    reveal_strlit("deepseek-coder-v2");
    reveal_strlit("deepseek-coder-v2:16b");
    reveal_strlit("deepseek-coder-v2:latest");
    reveal_strlit("deepseek-r1");
    reveal_strlit("deepseek-r1:1.5b");
    reveal_strlit("deepseek-r1:7b");
    reveal_strlit("deepseek-r1:8b");
    reveal_strlit("deepseek-r1:latest");
    reveal_strlit("gemma2:2b");
    reveal_strlit("hf.co/");
    reveal_strlit("http://");
    reveal_strlit("https://");
    reveal_strlit("llama2");
    reveal_strlit("llama2:7b");
    reveal_strlit("llama2:latest");
    reveal_strlit("llama3.1");
    reveal_strlit("llama3.1:8b");
    reveal_strlit("llama3.1:latest");
    reveal_strlit("llama3.2");
    reveal_strlit("llama3.2:1b");
    reveal_strlit("llama3.2:3b");
    reveal_strlit("llama3.2:latest");
    reveal_strlit("mistral");
    reveal_strlit("mistral-nemo");
    reveal_strlit("mistral-nemo:12b");
    reveal_strlit("mistral-nemo:latest");
    reveal_strlit("mistral:7b");
    reveal_strlit("mistral:latest");
    reveal_strlit("ollama.com/library/");
    reveal_strlit("phi3.5");
    reveal_strlit("phi3.5:3.8b");
    reveal_strlit("phi3.5:latest");
    reveal_strlit("phi4");
    reveal_strlit("phi4:14b");
    reveal_strlit("phi4:latest");
    reveal_strlit("qwen2.5");
    reveal_strlit("qwen2.5-0.5b");
    reveal_strlit("qwen2.5-0.5b-instruct-q4_k_m");
    reveal_strlit("qwen2.5-0.5b-instruct-q4_k_m:latest");
    reveal_strlit("qwen2.5-coder");
    reveal_strlit("qwen2.5-coder:1.5b");
    reveal_strlit("qwen2.5-coder:14b");
    reveal_strlit("qwen2.5-coder:7b");
    reveal_strlit("qwen2.5-coder:latest");
    reveal_strlit("qwen2.5:0.5b");
    reveal_strlit("qwen2.5:3b");
    reveal_strlit("qwen2.5:7b");
    reveal_strlit("qwen2.5:latest");
    assert("gemma2:2b"@[0] != "llama2:7b"@[0]);
    assert("gemma2:2b"@.subrange(0, 7)[0] != "http://"@[0]);
    assert("gemma2:2b"@.subrange(0, 8)[0] != "https://"@[0]);
    assert("gemma2:2b"@.subrange(0, 6)[0] != "hf.co/"@[0]);
}

proof fn lemma_catalog_tag_19(identifier: Seq<char>)
    ensures
        resolve_spec(identifier, "gemma2:9b"@) == Some(source_view("gemma2:9b"@, "gemma-2-9b-it-Q4_K_M.gguf"@,
            "https://huggingface.co/bartowski/gemma-2-9b-it-GGUF/resolve/main/gemma-2-9b-it-Q4_K_M.gguf"@,
            "9B"@, "gemma2"@)),
{
    reveal_strlit("deepseek-coder-v2");
    reveal_strlit("deepseek-coder-v2:16b");
    reveal_strlit("deepseek-coder-v2:latest");
    reveal_strlit("deepseek-r1");
    reveal_strlit("deepseek-r1:1.5b");
    reveal_strlit("deepseek-r1:7b");
    reveal_strlit("deepseek-r1:8b");
    reveal_strlit("deepseek-r1:latest");
    reveal_strlit("gemma2");
    reveal_strlit("gemma2:2b");
    reveal_strlit("gemma2:9b");
    reveal_strlit("gemma2:latest");
    reveal_strlit("hf.co/");
    reveal_strlit("http://");
    reveal_strlit("https://");
    reveal_strlit("llama2");
    reveal_strlit("llama2:7b");
    reveal_strlit("llama2:latest");
    reveal_strlit("llama3.1");
    reveal_strlit("llama3.1:8b");
    reveal_strlit("llama3.1:latest");
    reveal_strlit("llama3.2");
    reveal_strlit("llama3.2:1b");
    reveal_strlit("llama3.2:3b");
    reveal_strlit("llama3.2:latest");
    reveal_strlit("mistral");
    reveal_strlit("mistral-nemo");
    reveal_strlit("mistral-nemo:12b");
    reveal_strlit("mistral-nemo:latest");
    reveal_strlit("mistral:7b");
    reveal_strlit("mistral:latest");
    reveal_strlit("ollama.com/library/");
    reveal_strlit("phi3.5");
    reveal_strlit("phi3.5:3.8b");
    reveal_strlit("phi3.5:latest");
    reveal_strlit("phi4");
    reveal_strlit("phi4:14b");
    reveal_strlit("phi4:latest");
    reveal_strlit("qwen2.5");
    reveal_strlit("qwen2.5-0.5b");
    reveal_strlit("qwen2.5-0.5b-instruct-q4_k_m");
    reveal_strlit("qwen2.5-0.5b-instruct-q4_k_m:latest");
    reveal_strlit("qwen2.5-coder");
    reveal_strlit("qwen2.5-coder:1.5b");
    reveal_strlit("qwen2.5-coder:14b");
    reveal_strlit("qwen2.5-coder:7b");
    reveal_strlit("qwen2.5-coder:latest");
    reveal_strlit("qwen2.5:0.5b");
    reveal_strlit("qwen2.5:3b");
    reveal_strlit("qwen2.5:7b");
    reveal_strlit("qwen2.5:latest");
    assert("gemma2:9b"@[0] != "llama2:7b"@[0]);
    assert("gemma2:9b"@[7] != "gemma2:2b"@[7]);
    assert("gemma2:9b"@.subrange(0, 7)[0] != "http://"@[0]);
    assert("gemma2:9b"@.subrange(0, 8)[0] != "https://"@[0]);
    assert("gemma2:9b"@.subrange(0, 6)[0] != "hf.co/"@[0]);
}

proof fn lemma_catalog_tag_20(identifier: Seq<char>)
    ensures
        resolve_spec(identifier, "nomic-embed-text:latest"@) == Some(source_view("nomic-embed-text:latest"@, "nomic-embed-text-v1.5.Q4_K_M.gguf"@,
            "https://huggingface.co/nomic-ai/nomic-embed-text-v1.5-GGUF/resolve/main/nomic-embed-text-v1.5.Q4_K_M.gguf"@,
            "137M"@, "nomic-bert"@)),
{
    reveal_strlit("deepseek-coder-v2");
    reveal_strlit("deepseek-coder-v2:16b");
    reveal_strlit("deepseek-coder-v2:latest");
    reveal_strlit("deepseek-r1");
    reveal_strlit("deepseek-r1:1.5b");
    reveal_strlit("deepseek-r1:7b");
    reveal_strlit("deepseek-r1:8b");
    reveal_strlit("deepseek-r1:latest");
    reveal_strlit("gemma2");
    reveal_strlit("gemma2:2b");
    reveal_strlit("gemma2:9b");
    reveal_strlit("gemma2:latest");
    reveal_strlit("hf.co/");
    reveal_strlit("http://");
    reveal_strlit("https://");
    reveal_strlit("llama2");
    reveal_strlit("llama2:7b");
    reveal_strlit("llama2:latest");
    reveal_strlit("llama3.1");
    reveal_strlit("llama3.1:8b");
    reveal_strlit("llama3.1:latest");
    reveal_strlit("llama3.2");
    reveal_strlit("llama3.2:1b");
    reveal_strlit("llama3.2:3b");
    reveal_strlit("llama3.2:latest");
    reveal_strlit("mistral");
    reveal_strlit("mistral-nemo");
    reveal_strlit("mistral-nemo:12b");
    reveal_strlit("mistral-nemo:latest");
    reveal_strlit("mistral:7b");
    reveal_strlit("mistral:latest");
    reveal_strlit("nomic-embed-text:latest");
    reveal_strlit("ollama.com/library/");
    reveal_strlit("phi3.5");
    reveal_strlit("phi3.5:3.8b");
    reveal_strlit("phi3.5:latest");
    reveal_strlit("phi4");
    reveal_strlit("phi4:14b");
    reveal_strlit("phi4:latest");
    reveal_strlit("qwen2.5");
    reveal_strlit("qwen2.5-0.5b");
    reveal_strlit("qwen2.5-0.5b-instruct-q4_k_m");
    reveal_strlit("qwen2.5-0.5b-instruct-q4_k_m:latest");
    reveal_strlit("qwen2.5-coder");
    reveal_strlit("qwen2.5-coder:1.5b");
    reveal_strlit("qwen2.5-coder:14b");
    reveal_strlit("qwen2.5-coder:7b");
    reveal_strlit("qwen2.5-coder:latest");
    reveal_strlit("qwen2.5:0.5b");
    reveal_strlit("qwen2.5:3b");
    reveal_strlit("qwen2.5:7b");
    reveal_strlit("qwen2.5:latest");
    assert("nomic-embed-text:latest"@.subrange(0, 19)[0] != "ollama.com/library/"@[0]);
    assert("nomic-embed-text:latest"@.subrange(0, 7)[0] != "http://"@[0]);
    assert("nomic-embed-text:latest"@.subrange(0, 8)[0] != "https://"@[0]);
    assert("nomic-embed-text:latest"@.subrange(0, 6)[0] != "hf.co/"@[0]);
}

proof fn lemma_catalog_tag_21(identifier: Seq<char>)
    ensures
        resolve_spec(identifier, "smollm2:1.7b"@) == Some(source_view("smollm2:1.7b"@, "SmolLM2-1.7B-Instruct-Q4_K_M.gguf"@,
            "https://huggingface.co/bartowski/SmolLM2-1.7B-Instruct-GGUF/resolve/main/SmolLM2-1.7B-Instruct-Q4_K_M.gguf"@,
            "1.7B"@, "smollm"@)),
{
    reveal_strlit("deepseek-coder-v2");
    reveal_strlit("deepseek-coder-v2:16b");
    reveal_strlit("deepseek-coder-v2:latest");
    reveal_strlit("deepseek-r1");
    reveal_strlit("deepseek-r1:1.5b");
    reveal_strlit("deepseek-r1:7b");
    reveal_strlit("deepseek-r1:8b");
    reveal_strlit("deepseek-r1:latest");
    reveal_strlit("gemma2");
    reveal_strlit("gemma2:2b");
    reveal_strlit("gemma2:9b");
    reveal_strlit("gemma2:latest");
    reveal_strlit("hf.co/");
    reveal_strlit("http://");
    reveal_strlit("https://");
    reveal_strlit("llama2");
    reveal_strlit("llama2:7b");
    reveal_strlit("llama2:latest");
    reveal_strlit("llama3.1");
    reveal_strlit("llama3.1:8b");
    reveal_strlit("llama3.1:latest");
    reveal_strlit("llama3.2");
    reveal_strlit("llama3.2:1b");
    reveal_strlit("llama3.2:3b");
    reveal_strlit("llama3.2:latest");
    reveal_strlit("mistral");
    reveal_strlit("mistral-nemo");
    reveal_strlit("mistral-nemo:12b");
    reveal_strlit("mistral-nemo:latest");
    reveal_strlit("mistral:7b");
    reveal_strlit("mistral:latest");
    reveal_strlit("nomic-embed");
    reveal_strlit("nomic-embed-text");
    reveal_strlit("nomic-embed-text:latest");
    reveal_strlit("ollama.com/library/");
    reveal_strlit("phi3.5");
    reveal_strlit("phi3.5:3.8b");
    reveal_strlit("phi3.5:latest");
    reveal_strlit("phi4");
    reveal_strlit("phi4:14b");
    reveal_strlit("phi4:latest");
    reveal_strlit("qwen2.5");
    reveal_strlit("qwen2.5-0.5b");
    reveal_strlit("qwen2.5-0.5b-instruct-q4_k_m");
    reveal_strlit("qwen2.5-0.5b-instruct-q4_k_m:latest");
    reveal_strlit("qwen2.5-coder");
    reveal_strlit("qwen2.5-coder:1.5b");
    reveal_strlit("qwen2.5-coder:14b");
    reveal_strlit("qwen2.5-coder:7b");
    reveal_strlit("qwen2.5-coder:latest");
    reveal_strlit("qwen2.5:0.5b");
    reveal_strlit("qwen2.5:3b");
    reveal_strlit("qwen2.5:7b");
    reveal_strlit("qwen2.5:latest");
    reveal_strlit("smollm2:1.7b");
    assert("smollm2:1.7b"@[0] != "qwen2.5:0.5b"@[0]);
    assert("smollm2:1.7b"@[0] != "qwen2.5-0.5b"@[0]);
    assert("smollm2:1.7b"@[0] != "mistral-nemo"@[0]);
    assert("smollm2:1.7b"@.subrange(0, 7)[0] != "http://"@[0]);
    assert("smollm2:1.7b"@.subrange(0, 8)[0] != "https://"@[0]);
    assert("smollm2:1.7b"@.subrange(0, 6)[0] != "hf.co/"@[0]);
}

proof fn lemma_catalog_tag_22(identifier: Seq<char>)
    ensures
        resolve_spec(identifier, "smollm2:360m"@) == Some(source_view("smollm2:360m"@, "SmolLM2-360M-Instruct-Q4_K_M.gguf"@,
            "https://huggingface.co/bartowski/SmolLM2-360M-Instruct-GGUF/resolve/main/SmolLM2-360M-Instruct-Q4_K_M.gguf"@,
            "360M"@, "smollm"@)),
{
    reveal_strlit("deepseek-coder-v2");
    reveal_strlit("deepseek-coder-v2:16b");
    reveal_strlit("deepseek-coder-v2:latest");
    reveal_strlit("deepseek-r1");
    reveal_strlit("deepseek-r1:1.5b");
    reveal_strlit("deepseek-r1:7b");
    reveal_strlit("deepseek-r1:8b");
    reveal_strlit("deepseek-r1:latest");
    reveal_strlit("gemma2");
    reveal_strlit("gemma2:2b");
    reveal_strlit("gemma2:9b");
    reveal_strlit("gemma2:latest");
    reveal_strlit("hf.co/");
    reveal_strlit("http://");
    reveal_strlit("https://");
    reveal_strlit("llama2");
    reveal_strlit("llama2:7b");
    reveal_strlit("llama2:latest");
    reveal_strlit("llama3.1");
    reveal_strlit("llama3.1:8b");
    reveal_strlit("llama3.1:latest");
    reveal_strlit("llama3.2");
    reveal_strlit("llama3.2:1b");
    reveal_strlit("llama3.2:3b");
    reveal_strlit("llama3.2:latest");
    reveal_strlit("mistral");
    reveal_strlit("mistral-nemo");
    reveal_strlit("mistral-nemo:12b");
    reveal_strlit("mistral-nemo:latest");
    reveal_strlit("mistral:7b");
    reveal_strlit("mistral:latest");
    reveal_strlit("nomic-embed");
    reveal_strlit("nomic-embed-text");
    reveal_strlit("nomic-embed-text:latest");
    reveal_strlit("ollama.com/library/");
    reveal_strlit("phi3.5");
    reveal_strlit("phi3.5:3.8b");
    reveal_strlit("phi3.5:latest");
    reveal_strlit("phi4");
    reveal_strlit("phi4:14b");
    reveal_strlit("phi4:latest");
    reveal_strlit("qwen2.5");
    reveal_strlit("qwen2.5-0.5b");
    reveal_strlit("qwen2.5-0.5b-instruct-q4_k_m");
    reveal_strlit("qwen2.5-0.5b-instruct-q4_k_m:latest");
    reveal_strlit("qwen2.5-coder");
    reveal_strlit("qwen2.5-coder:1.5b");
    reveal_strlit("qwen2.5-coder:14b");
    reveal_strlit("qwen2.5-coder:7b");
    reveal_strlit("qwen2.5-coder:latest");
    reveal_strlit("qwen2.5:0.5b");
    reveal_strlit("qwen2.5:3b");
    reveal_strlit("qwen2.5:7b");
    reveal_strlit("qwen2.5:latest");
    reveal_strlit("smollm2");
    reveal_strlit("smollm2:1.7b");
    reveal_strlit("smollm2:360m");
    reveal_strlit("smollm2:latest");
    assert("smollm2:360m"@[0] != "qwen2.5:0.5b"@[0]);
    assert("smollm2:360m"@[0] != "qwen2.5-0.5b"@[0]);
    assert("smollm2:360m"@[0] != "mistral-nemo"@[0]);
    assert("smollm2:360m"@[8] != "smollm2:1.7b"@[8]);
    assert("smollm2:360m"@.subrange(0, 7)[0] != "http://"@[0]);
    assert("smollm2:360m"@.subrange(0, 8)[0] != "https://"@[0]);
    assert("smollm2:360m"@.subrange(0, 6)[0] != "hf.co/"@[0]);
}

proof fn lemma_catalog_tag_23(identifier: Seq<char>)
    ensures
        resolve_spec(identifier, "hermes3:8b"@) == Some(source_view("hermes3:8b"@, "Hermes-3-Llama-3.1-8B-Q4_K_M.gguf"@,
            "https://huggingface.co/NousResearch/Hermes-3-Llama-3.1-8B-GGUF/resolve/main/Hermes-3-Llama-3.1-8B-Q4_K_M.gguf"@,
            "8B"@, "llama"@)),
{
    reveal_strlit("deepseek-coder-v2");
    reveal_strlit("deepseek-coder-v2:16b");
    reveal_strlit("deepseek-coder-v2:latest");
    reveal_strlit("deepseek-r1");
    reveal_strlit("deepseek-r1:1.5b");
    reveal_strlit("deepseek-r1:7b");
    reveal_strlit("deepseek-r1:8b");
    reveal_strlit("deepseek-r1:latest");
    reveal_strlit("gemma2");
    reveal_strlit("gemma2:2b");
    reveal_strlit("gemma2:9b");
    reveal_strlit("gemma2:latest");
    reveal_strlit("hermes3:8b");
    reveal_strlit("hf.co/");
    reveal_strlit("http://");
    reveal_strlit("https://");
    reveal_strlit("llama2");
    reveal_strlit("llama2:7b");
    reveal_strlit("llama2:latest");
    reveal_strlit("llama3.1");
    reveal_strlit("llama3.1:8b");
    reveal_strlit("llama3.1:latest");
    reveal_strlit("llama3.2");
    reveal_strlit("llama3.2:1b");
    reveal_strlit("llama3.2:3b");
    reveal_strlit("llama3.2:latest");
    reveal_strlit("mistral");
    reveal_strlit("mistral-nemo");
    reveal_strlit("mistral-nemo:12b");
    reveal_strlit("mistral-nemo:latest");
    reveal_strlit("mistral:7b");
    reveal_strlit("mistral:latest");
    reveal_strlit("nomic-embed");
    reveal_strlit("nomic-embed-text");
    reveal_strlit("nomic-embed-text:latest");
    reveal_strlit("ollama.com/library/");
    reveal_strlit("phi3.5");
    reveal_strlit("phi3.5:3.8b");
    reveal_strlit("phi3.5:latest");
    reveal_strlit("phi4");
    reveal_strlit("phi4:14b");
    reveal_strlit("phi4:latest");
    reveal_strlit("qwen2.5");
    reveal_strlit("qwen2.5-0.5b");
    reveal_strlit("qwen2.5-0.5b-instruct-q4_k_m");
    reveal_strlit("qwen2.5-0.5b-instruct-q4_k_m:latest");
    reveal_strlit("qwen2.5-coder");
    reveal_strlit("qwen2.5-coder:1.5b");
    reveal_strlit("qwen2.5-coder:14b");
    reveal_strlit("qwen2.5-coder:7b");
    reveal_strlit("qwen2.5-coder:latest");
    reveal_strlit("qwen2.5:0.5b");
    reveal_strlit("qwen2.5:3b");
    reveal_strlit("qwen2.5:7b");
    reveal_strlit("qwen2.5:latest");
    reveal_strlit("smollm2");
    reveal_strlit("smollm2:1.7b");
    reveal_strlit("smollm2:360m");
    reveal_strlit("smollm2:latest");
    assert("hermes3:8b"@[0] != "qwen2.5:7b"@[0]);
    assert("hermes3:8b"@[0] != "qwen2.5:3b"@[0]);
    assert("hermes3:8b"@[0] != "mistral:7b"@[0]);
    assert("hermes3:8b"@.subrange(0, 7)[1] != "http://"@[1]);
    assert("hermes3:8b"@.subrange(0, 8)[1] != "https://"@[1]);
    assert("hermes3:8b"@.subrange(0, 6)[1] != "hf.co/"@[1]);
}

proof fn lemma_catalog_name_0()
    ensures
        resolve_spec("deepseek-r1"@, lowercase(trim_seq("deepseek-r1"@))) == Some(source_view("deepseek-r1:7b"@, "DeepSeek-R1-Distill-Qwen-7B-Q4_K_M.gguf"@, "https://huggingface.co/unsloth/DeepSeek-R1-Distill-Qwen-7B-GGUF/resolve/main/DeepSeek-R1-Distill-Qwen-7B-Q4_K_M.gguf"@, "7B"@, "deepseek"@)),
{
    reveal_strlit(".gguf");
    reveal_strlit("deepseek-r1");
    reveal_strlit("deepseek-r1:7b");
    reveal_strlit("deepseek-r1:latest");
    reveal_strlit("hf.co/");
    reveal_strlit("http://");
    reveal_strlit("https://");
    reveal_strlit("ollama.com/library/");
    assert forall|i: int| 0 <= i < "deepseek-r1"@.len() implies is_tag_char(#[trigger] "deepseek-r1"@[i]) by {
        assert(i == 0 || i == 1 || i == 2 || i == 3 || i == 4 || i == 5 || i == 6 || i == 7 || i == 8 || i == 9 || i == 10);
    }
    lemma_tag_text_is_canonical("deepseek-r1"@);
    assert("deepseek-r1"@.subrange(0, 7)[0] != "http://"@[0]);
    assert("deepseek-r1"@.subrange(0, 8)[0] != "https://"@[0]);
    assert("deepseek-r1"@.subrange(0, 6)[0] != "hf.co/"@[0]);
    assert("deepseek-r1"@.subrange(6, 11)[0] != ".gguf"@[0]);
}

proof fn lemma_catalog_name_1()
    ensures
        resolve_spec("deepseek-r1:latest"@, lowercase(trim_seq("deepseek-r1:latest"@))) == Some(source_view("deepseek-r1:7b"@, "DeepSeek-R1-Distill-Qwen-7B-Q4_K_M.gguf"@, "https://huggingface.co/unsloth/DeepSeek-R1-Distill-Qwen-7B-GGUF/resolve/main/DeepSeek-R1-Distill-Qwen-7B-Q4_K_M.gguf"@, "7B"@, "deepseek"@)),
{
    reveal_strlit(".gguf");
    reveal_strlit("deepseek-r1");
    reveal_strlit("deepseek-r1:7b");
    reveal_strlit("deepseek-r1:latest");
    reveal_strlit("hf.co/");
    reveal_strlit("http://");
    reveal_strlit("https://");
    reveal_strlit("ollama.com/library/");
    assert forall|i: int| 0 <= i < "deepseek-r1:latest"@.len() implies is_tag_char(#[trigger] "deepseek-r1:latest"@[i]) by {
        assert(i == 0 || i == 1 || i == 2 || i == 3 || i == 4 || i == 5 || i == 6 || i == 7 || i == 8 || i == 9 || i == 10 || i == 11 || i == 12 || i == 13 || i == 14 || i == 15 || i == 16 || i == 17);
    }
    lemma_tag_text_is_canonical("deepseek-r1:latest"@);
    assert("deepseek-r1:latest"@.subrange(0, 7)[0] != "http://"@[0]);
    assert("deepseek-r1:latest"@.subrange(0, 8)[0] != "https://"@[0]);
    assert("deepseek-r1:latest"@.subrange(0, 6)[0] != "hf.co/"@[0]);
    assert("deepseek-r1:latest"@.subrange(13, 18)[0] != ".gguf"@[0]);
}

proof fn lemma_catalog_name_2()
    ensures
        resolve_spec("deepseek-r1:7b"@, lowercase(trim_seq("deepseek-r1:7b"@))) == Some(source_view("deepseek-r1:7b"@, "DeepSeek-R1-Distill-Qwen-7B-Q4_K_M.gguf"@, "https://huggingface.co/unsloth/DeepSeek-R1-Distill-Qwen-7B-GGUF/resolve/main/DeepSeek-R1-Distill-Qwen-7B-Q4_K_M.gguf"@, "7B"@, "deepseek"@)),
{
    reveal_strlit(".gguf");
    reveal_strlit("deepseek-r1");
    reveal_strlit("deepseek-r1:7b");
    reveal_strlit("deepseek-r1:latest");
    reveal_strlit("hf.co/");
    reveal_strlit("http://");
    reveal_strlit("https://");
    reveal_strlit("ollama.com/library/");
    assert forall|i: int| 0 <= i < "deepseek-r1:7b"@.len() implies is_tag_char(#[trigger] "deepseek-r1:7b"@[i]) by {
        assert(i == 0 || i == 1 || i == 2 || i == 3 || i == 4 || i == 5 || i == 6 || i == 7 || i == 8 || i == 9 || i == 10 || i == 11 || i == 12 || i == 13);
    }
    lemma_tag_text_is_canonical("deepseek-r1:7b"@);
    assert("deepseek-r1:7b"@.subrange(0, 7)[0] != "http://"@[0]);
    assert("deepseek-r1:7b"@.subrange(0, 8)[0] != "https://"@[0]);
    assert("deepseek-r1:7b"@.subrange(0, 6)[0] != "hf.co/"@[0]);
    assert("deepseek-r1:7b"@.subrange(9, 14)[0] != ".gguf"@[0]);
}

proof fn lemma_catalog_name_3()
    ensures
        resolve_spec("deepseek-r1:1.5b"@, lowercase(trim_seq("deepseek-r1:1.5b"@))) == Some(source_view("deepseek-r1:1.5b"@, "DeepSeek-R1-Distill-Qwen-1.5B-Q4_K_M.gguf"@, "https://huggingface.co/bartowski/DeepSeek-R1-Distill-Qwen-1.5B-GGUF/resolve/main/DeepSeek-R1-Distill-Qwen-1.5B-Q4_K_M.gguf"@, "1.5B"@, "deepseek"@)),
{
    reveal_strlit(".gguf");
    reveal_strlit("deepseek-r1");
    reveal_strlit("deepseek-r1:1.5b");
    reveal_strlit("deepseek-r1:7b");
    reveal_strlit("deepseek-r1:latest");
    reveal_strlit("hf.co/");
    reveal_strlit("http://");
    reveal_strlit("https://");
    reveal_strlit("ollama.com/library/");
    assert("deepseek-r1:1.5b"@.len() != "deepseek-r1"@.len());
    assert("deepseek-r1:1.5b"@[12] != "deepseek-r1:latest"@[12]);
    assert("deepseek-r1:1.5b"@[12] != "deepseek-r1:7b"@[12]);
    assert forall|i: int| 0 <= i < "deepseek-r1:1.5b"@.len() implies is_tag_char(#[trigger] "deepseek-r1:1.5b"@[i]) by {
        assert(i == 0 || i == 1 || i == 2 || i == 3 || i == 4 || i == 5 || i == 6 || i == 7 || i == 8 || i == 9 || i == 10 || i == 11 || i == 12 || i == 13 || i == 14 || i == 15);
    }
    lemma_tag_text_is_canonical("deepseek-r1:1.5b"@);
    assert("deepseek-r1:1.5b"@.subrange(0, 7)[0] != "http://"@[0]);
    assert("deepseek-r1:1.5b"@.subrange(0, 8)[0] != "https://"@[0]);
    assert("deepseek-r1:1.5b"@.subrange(0, 6)[0] != "hf.co/"@[0]);
    assert("deepseek-r1:1.5b"@.subrange(11, 16)[0] != ".gguf"@[0]);
}

proof fn lemma_catalog_name_4()
    ensures
        resolve_spec("deepseek-r1:8b"@, lowercase(trim_seq("deepseek-r1:8b"@))) == Some(source_view("deepseek-r1:8b"@, "DeepSeek-R1-Distill-Llama-8B-Q4_K_M.gguf"@, "https://huggingface.co/bartowski/DeepSeek-R1-Distill-Llama-8B-GGUF/resolve/main/DeepSeek-R1-Distill-Llama-8B-Q4_K_M.gguf"@, "8B"@, "deepseek"@)),
{
    reveal_strlit(".gguf");
    reveal_strlit("deepseek-r1");
    reveal_strlit("deepseek-r1:1.5b");
    reveal_strlit("deepseek-r1:7b");
    reveal_strlit("deepseek-r1:8b");
    reveal_strlit("deepseek-r1:latest");
    reveal_strlit("hf.co/");
    reveal_strlit("http://");
    reveal_strlit("https://");
    reveal_strlit("ollama.com/library/");
    assert("deepseek-r1:8b"@.len() != "deepseek-r1"@.len());
    assert("deepseek-r1:8b"@[12] != "deepseek-r1:latest"@[12]);
    assert("deepseek-r1:8b"@[12] != "deepseek-r1:7b"@[12]);
    assert("deepseek-r1:8b"@[12] != "deepseek-r1:1.5b"@[12]);
    assert forall|i: int| 0 <= i < "deepseek-r1:8b"@.len() implies is_tag_char(#[trigger] "deepseek-r1:8b"@[i]) by {
        assert(i == 0 || i == 1 || i == 2 || i == 3 || i == 4 || i == 5 || i == 6 || i == 7 || i == 8 || i == 9 || i == 10 || i == 11 || i == 12 || i == 13);
    }
    lemma_tag_text_is_canonical("deepseek-r1:8b"@);
    assert("deepseek-r1:8b"@.subrange(0, 7)[0] != "http://"@[0]);
    assert("deepseek-r1:8b"@.subrange(0, 8)[0] != "https://"@[0]);
    assert("deepseek-r1:8b"@.subrange(0, 6)[0] != "hf.co/"@[0]);
    assert("deepseek-r1:8b"@.subrange(9, 14)[0] != ".gguf"@[0]);
}

proof fn lemma_catalog_name_5()
    ensures
        resolve_spec("deepseek-coder-v2"@, lowercase(trim_seq("deepseek-coder-v2"@))) == Some(source_view("deepseek-coder-v2:16b"@, "DeepSeek-Coder-V2-Lite-Instruct-Q4_K_M.gguf"@, "https://huggingface.co/bartowski/DeepSeek-Coder-V2-Lite-Instruct-GGUF/resolve/main/DeepSeek-Coder-V2-Lite-Instruct-Q4_K_M.gguf"@, "16B"@, "deepseek"@)),
{
    reveal_strlit(".gguf");
    reveal_strlit("deepseek-coder-v2");
    reveal_strlit("deepseek-coder-v2:16b");
    reveal_strlit("deepseek-coder-v2:latest");
    reveal_strlit("deepseek-r1");
    reveal_strlit("deepseek-r1:1.5b");
    reveal_strlit("deepseek-r1:7b");
    reveal_strlit("deepseek-r1:8b");
    reveal_strlit("deepseek-r1:latest");
    reveal_strlit("hf.co/");
    reveal_strlit("http://");
    reveal_strlit("https://");
    reveal_strlit("ollama.com/library/");
    assert("deepseek-coder-v2"@[9] != "deepseek-r1"@[9]);
    assert("deepseek-coder-v2"@[9] != "deepseek-r1:latest"@[9]);
    assert("deepseek-coder-v2"@[9] != "deepseek-r1:7b"@[9]);
    assert("deepseek-coder-v2"@[9] != "deepseek-r1:1.5b"@[9]);
    assert("deepseek-coder-v2"@[9] != "deepseek-r1:8b"@[9]);
    assert forall|i: int| 0 <= i < "deepseek-coder-v2"@.len() implies is_tag_char(#[trigger] "deepseek-coder-v2"@[i]) by {
        assert(i == 0 || i == 1 || i == 2 || i == 3 || i == 4 || i == 5 || i == 6 || i == 7 || i == 8 || i == 9 || i == 10 || i == 11 || i == 12 || i == 13 || i == 14 || i == 15 || i == 16);
    }
    lemma_tag_text_is_canonical("deepseek-coder-v2"@);
    assert("deepseek-coder-v2"@.subrange(0, 7)[0] != "http://"@[0]);
    assert("deepseek-coder-v2"@.subrange(0, 8)[0] != "https://"@[0]);
    assert("deepseek-coder-v2"@.subrange(0, 6)[0] != "hf.co/"@[0]);
    assert("deepseek-coder-v2"@.subrange(12, 17)[0] != ".gguf"@[0]);
}

proof fn lemma_catalog_name_6()
    ensures
        resolve_spec("deepseek-coder-v2:latest"@, lowercase(trim_seq("deepseek-coder-v2:latest"@))) == Some(source_view("deepseek-coder-v2:16b"@, "DeepSeek-Coder-V2-Lite-Instruct-Q4_K_M.gguf"@, "https://huggingface.co/bartowski/DeepSeek-Coder-V2-Lite-Instruct-GGUF/resolve/main/DeepSeek-Coder-V2-Lite-Instruct-Q4_K_M.gguf"@, "16B"@, "deepseek"@)),
{
    reveal_strlit(".gguf");
    reveal_strlit("deepseek-coder-v2");
    reveal_strlit("deepseek-coder-v2:16b");
    reveal_strlit("deepseek-coder-v2:latest");
    reveal_strlit("deepseek-r1");
    reveal_strlit("deepseek-r1:1.5b");
    reveal_strlit("deepseek-r1:7b");
    reveal_strlit("deepseek-r1:8b");
    reveal_strlit("deepseek-r1:latest");
    reveal_strlit("hf.co/");
    reveal_strlit("http://");
    reveal_strlit("https://");
    reveal_strlit("ollama.com/library/");
    assert("deepseek-coder-v2:latest"@[9] != "deepseek-r1"@[9]);
    assert("deepseek-coder-v2:latest"@[9] != "deepseek-r1:latest"@[9]);
    assert("deepseek-coder-v2:latest"@[9] != "deepseek-r1:7b"@[9]);
    assert("deepseek-coder-v2:latest"@[9] != "deepseek-r1:1.5b"@[9]);
    assert("deepseek-coder-v2:latest"@[9] != "deepseek-r1:8b"@[9]);
    assert forall|i: int| 0 <= i < "deepseek-coder-v2:latest"@.len() implies is_tag_char(#[trigger] "deepseek-coder-v2:latest"@[i]) by {
        assert(i == 0 || i == 1 || i == 2 || i == 3 || i == 4 || i == 5 || i == 6 || i == 7 || i == 8 || i == 9 || i == 10 || i == 11 || i == 12 || i == 13 || i == 14 || i == 15 || i == 16 || i == 17 || i == 18 || i == 19 || i == 20 || i == 21 || i == 22 || i == 23);
    }
    lemma_tag_text_is_canonical("deepseek-coder-v2:latest"@);
    assert("deepseek-coder-v2:latest"@.subrange(0, 7)[0] != "http://"@[0]);
    assert("deepseek-coder-v2:latest"@.subrange(0, 8)[0] != "https://"@[0]);
    assert("deepseek-coder-v2:latest"@.subrange(0, 6)[0] != "hf.co/"@[0]);
    assert("deepseek-coder-v2:latest"@.subrange(0, 19)[0] != "ollama.com/library/"@[0]);
    assert("deepseek-coder-v2:latest"@.subrange(19, 24)[0] != ".gguf"@[0]);
}

proof fn lemma_catalog_name_7()
    ensures
        resolve_spec("deepseek-coder-v2:16b"@, lowercase(trim_seq("deepseek-coder-v2:16b"@))) == Some(source_view("deepseek-coder-v2:16b"@, "DeepSeek-Coder-V2-Lite-Instruct-Q4_K_M.gguf"@, "https://huggingface.co/bartowski/DeepSeek-Coder-V2-Lite-Instruct-GGUF/resolve/main/DeepSeek-Coder-V2-Lite-Instruct-Q4_K_M.gguf"@, "16B"@, "deepseek"@)),
{
    reveal_strlit(".gguf");
    reveal_strlit("deepseek-coder-v2");
    reveal_strlit("deepseek-coder-v2:16b");
    reveal_strlit("deepseek-coder-v2:latest");
    reveal_strlit("deepseek-r1");
    reveal_strlit("deepseek-r1:1.5b");
    reveal_strlit("deepseek-r1:7b");
    reveal_strlit("deepseek-r1:8b");
    reveal_strlit("deepseek-r1:latest");
    reveal_strlit("hf.co/");
    reveal_strlit("http://");
    reveal_strlit("https://");
    reveal_strlit("ollama.com/library/");
    assert("deepseek-coder-v2:16b"@[9] != "deepseek-r1"@[9]);
    assert("deepseek-coder-v2:16b"@[9] != "deepseek-r1:latest"@[9]);
    assert("deepseek-coder-v2:16b"@[9] != "deepseek-r1:7b"@[9]);
    assert("deepseek-coder-v2:16b"@[9] != "deepseek-r1:1.5b"@[9]);
    assert("deepseek-coder-v2:16b"@[9] != "deepseek-r1:8b"@[9]);
    assert forall|i: int| 0 <= i < "deepseek-coder-v2:16b"@.len() implies is_tag_char(#[trigger] "deepseek-coder-v2:16b"@[i]) by {
        assert(i == 0 || i == 1 || i == 2 || i == 3 || i == 4 || i == 5 || i == 6 || i == 7 || i == 8 || i == 9 || i == 10 || i == 11 || i == 12 || i == 13 || i == 14 || i == 15 || i == 16 || i == 17 || i == 18 || i == 19 || i == 20);
    }
    lemma_tag_text_is_canonical("deepseek-coder-v2:16b"@);
    assert("deepseek-coder-v2:16b"@.subrange(0, 7)[0] != "http://"@[0]);
    assert("deepseek-coder-v2:16b"@.subrange(0, 8)[0] != "https://"@[0]);
    assert("deepseek-coder-v2:16b"@.subrange(0, 6)[0] != "hf.co/"@[0]);
    assert("deepseek-coder-v2:16b"@.subrange(0, 19)[0] != "ollama.com/library/"@[0]);
    assert("deepseek-coder-v2:16b"@.subrange(16, 21)[0] != ".gguf"@[0]);
}

proof fn lemma_catalog_name_8()
    ensures
        resolve_spec("llama3.2"@, lowercase(trim_seq("llama3.2"@))) == Some(source_view("llama3.2:3b"@, "Llama-3.2-3B-Instruct-Q4_K_M.gguf"@, "https://huggingface.co/bartowski/Llama-3.2-3B-Instruct-GGUF/resolve/main/Llama-3.2-3B-Instruct-Q4_K_M.gguf"@, "3B"@, "llama"@)),
{
    reveal_strlit(".gguf");
    reveal_strlit("deepseek-coder-v2");
    reveal_strlit("deepseek-coder-v2:16b");
    reveal_strlit("deepseek-coder-v2:latest");
    reveal_strlit("deepseek-r1");
    reveal_strlit("deepseek-r1:1.5b");
    reveal_strlit("deepseek-r1:7b");
    reveal_strlit("deepseek-r1:8b");
    reveal_strlit("deepseek-r1:latest");
    reveal_strlit("hf.co/");
    reveal_strlit("http://");
    reveal_strlit("https://");
    reveal_strlit("llama3.2");
    reveal_strlit("llama3.2:3b");
    reveal_strlit("llama3.2:latest");
    reveal_strlit("ollama.com/library/");
    assert("llama3.2"@[0] != "deepseek-r1"@[0]);
    assert("llama3.2"@[0] != "deepseek-r1:latest"@[0]);
    assert("llama3.2"@[0] != "deepseek-r1:7b"@[0]);
    assert("llama3.2"@[0] != "deepseek-r1:1.5b"@[0]);
    assert("llama3.2"@[0] != "deepseek-r1:8b"@[0]);
    assert("llama3.2"@[0] != "deepseek-coder-v2"@[0]);
    assert("llama3.2"@[0] != "deepseek-coder-v2:latest"@[0]);
    assert("llama3.2"@[0] != "deepseek-coder-v2:16b"@[0]);
    assert forall|i: int| 0 <= i < "llama3.2"@.len() implies is_tag_char(#[trigger] "llama3.2"@[i]) by {
        assert(i == 0 || i == 1 || i == 2 || i == 3 || i == 4 || i == 5 || i == 6 || i == 7);
    }
    lemma_tag_text_is_canonical("llama3.2"@);
    assert("llama3.2"@.subrange(0, 7)[0] != "http://"@[0]);
    assert("llama3.2"@.subrange(0, 8)[0] != "https://"@[0]);
    assert("llama3.2"@.subrange(0, 6)[0] != "hf.co/"@[0]);
    assert("llama3.2"@.subrange(3, 8)[0] != ".gguf"@[0]);
}

proof fn lemma_catalog_name_9()
    ensures
        resolve_spec("llama3.2:latest"@, lowercase(trim_seq("llama3.2:latest"@))) == Some(source_view("llama3.2:3b"@, "Llama-3.2-3B-Instruct-Q4_K_M.gguf"@, "https://huggingface.co/bartowski/Llama-3.2-3B-Instruct-GGUF/resolve/main/Llama-3.2-3B-Instruct-Q4_K_M.gguf"@, "3B"@, "llama"@)),
{
    reveal_strlit(".gguf");
    reveal_strlit("deepseek-coder-v2");
    reveal_strlit("deepseek-coder-v2:16b");
    reveal_strlit("deepseek-coder-v2:latest");
    reveal_strlit("deepseek-r1");
    reveal_strlit("deepseek-r1:1.5b");
    reveal_strlit("deepseek-r1:7b");
    reveal_strlit("deepseek-r1:8b");
    reveal_strlit("deepseek-r1:latest");
    reveal_strlit("hf.co/");
    reveal_strlit("http://");
    reveal_strlit("https://");
    reveal_strlit("llama3.2");
    reveal_strlit("llama3.2:3b");
    reveal_strlit("llama3.2:latest");
    reveal_strlit("ollama.com/library/");
    assert("llama3.2:latest"@[0] != "deepseek-r1"@[0]);
    assert("llama3.2:latest"@[0] != "deepseek-r1:latest"@[0]);
    assert("llama3.2:latest"@[0] != "deepseek-r1:7b"@[0]);
    assert("llama3.2:latest"@[0] != "deepseek-r1:1.5b"@[0]);
    assert("llama3.2:latest"@[0] != "deepseek-r1:8b"@[0]);
    assert("llama3.2:latest"@[0] != "deepseek-coder-v2"@[0]);
    assert("llama3.2:latest"@[0] != "deepseek-coder-v2:latest"@[0]);
    assert("llama3.2:latest"@[0] != "deepseek-coder-v2:16b"@[0]);
    assert forall|i: int| 0 <= i < "llama3.2:latest"@.len() implies is_tag_char(#[trigger] "llama3.2:latest"@[i]) by {
        assert(i == 0 || i == 1 || i == 2 || i == 3 || i == 4 || i == 5 || i == 6 || i == 7 || i == 8 || i == 9 || i == 10 || i == 11 || i == 12 || i == 13 || i == 14);
    }
    lemma_tag_text_is_canonical("llama3.2:latest"@);
    assert("llama3.2:latest"@.subrange(0, 7)[0] != "http://"@[0]);
    assert("llama3.2:latest"@.subrange(0, 8)[0] != "https://"@[0]);
    assert("llama3.2:latest"@.subrange(0, 6)[0] != "hf.co/"@[0]);
    assert("llama3.2:latest"@.subrange(10, 15)[0] != ".gguf"@[0]);
}

proof fn lemma_catalog_name_10()
    ensures
        resolve_spec("llama3.2:3b"@, lowercase(trim_seq("llama3.2:3b"@))) == Some(source_view("llama3.2:3b"@, "Llama-3.2-3B-Instruct-Q4_K_M.gguf"@, "https://huggingface.co/bartowski/Llama-3.2-3B-Instruct-GGUF/resolve/main/Llama-3.2-3B-Instruct-Q4_K_M.gguf"@, "3B"@, "llama"@)),
{
    reveal_strlit(".gguf");
    reveal_strlit("deepseek-coder-v2");
    reveal_strlit("deepseek-coder-v2:16b");
    reveal_strlit("deepseek-coder-v2:latest");
    reveal_strlit("deepseek-r1");
    reveal_strlit("deepseek-r1:1.5b");
    reveal_strlit("deepseek-r1:7b");
    reveal_strlit("deepseek-r1:8b");
    reveal_strlit("deepseek-r1:latest");
    reveal_strlit("hf.co/");
    reveal_strlit("http://");
    reveal_strlit("https://");
    reveal_strlit("llama3.2");
    reveal_strlit("llama3.2:3b");
    reveal_strlit("llama3.2:latest");
    reveal_strlit("ollama.com/library/");
    assert("llama3.2:3b"@[0] != "deepseek-r1"@[0]);
    assert("llama3.2:3b"@[0] != "deepseek-r1:latest"@[0]);
    assert("llama3.2:3b"@[0] != "deepseek-r1:7b"@[0]);
    assert("llama3.2:3b"@[0] != "deepseek-r1:1.5b"@[0]);
    assert("llama3.2:3b"@[0] != "deepseek-r1:8b"@[0]);
    assert("llama3.2:3b"@[0] != "deepseek-coder-v2"@[0]);
    assert("llama3.2:3b"@[0] != "deepseek-coder-v2:latest"@[0]);
    assert("llama3.2:3b"@[0] != "deepseek-coder-v2:16b"@[0]);
    assert forall|i: int| 0 <= i < "llama3.2:3b"@.len() implies is_tag_char(#[trigger] "llama3.2:3b"@[i]) by {
        assert(i == 0 || i == 1 || i == 2 || i == 3 || i == 4 || i == 5 || i == 6 || i == 7 || i == 8 || i == 9 || i == 10);
    }
    lemma_tag_text_is_canonical("llama3.2:3b"@);
    assert("llama3.2:3b"@.subrange(0, 7)[0] != "http://"@[0]);
    assert("llama3.2:3b"@.subrange(0, 8)[0] != "https://"@[0]);
    assert("llama3.2:3b"@.subrange(0, 6)[0] != "hf.co/"@[0]);
    assert("llama3.2:3b"@.subrange(6, 11)[1] != ".gguf"@[1]);
}

proof fn lemma_catalog_name_11()
    ensures
        resolve_spec("llama3.2:1b"@, lowercase(trim_seq("llama3.2:1b"@))) == Some(source_view("llama3.2:1b"@, "Llama-3.2-1B-Instruct-Q4_K_M.gguf"@, "https://huggingface.co/bartowski/Llama-3.2-1B-Instruct-GGUF/resolve/main/Llama-3.2-1B-Instruct-Q4_K_M.gguf"@, "1B"@, "llama"@)),
{
    reveal_strlit(".gguf");
    reveal_strlit("deepseek-coder-v2");
    reveal_strlit("deepseek-coder-v2:16b");
    reveal_strlit("deepseek-coder-v2:latest");
    reveal_strlit("deepseek-r1");
    reveal_strlit("deepseek-r1:1.5b");
    reveal_strlit("deepseek-r1:7b");
    reveal_strlit("deepseek-r1:8b");
    reveal_strlit("deepseek-r1:latest");
    reveal_strlit("hf.co/");
    reveal_strlit("http://");
    reveal_strlit("https://");
    reveal_strlit("llama3.2");
    reveal_strlit("llama3.2:1b");
    reveal_strlit("llama3.2:3b");
    reveal_strlit("llama3.2:latest");
    reveal_strlit("ollama.com/library/");
    assert("llama3.2:1b"@[0] != "deepseek-r1"@[0]);
    assert("llama3.2:1b"@[0] != "deepseek-r1:latest"@[0]);
    assert("llama3.2:1b"@[0] != "deepseek-r1:7b"@[0]);
    assert("llama3.2:1b"@[0] != "deepseek-r1:1.5b"@[0]);
    assert("llama3.2:1b"@[0] != "deepseek-r1:8b"@[0]);
    assert("llama3.2:1b"@[0] != "deepseek-coder-v2"@[0]);
    assert("llama3.2:1b"@[0] != "deepseek-coder-v2:latest"@[0]);
    assert("llama3.2:1b"@[0] != "deepseek-coder-v2:16b"@[0]);
    assert("llama3.2:1b"@.len() != "llama3.2"@.len());
    assert("llama3.2:1b"@[9] != "llama3.2:latest"@[9]);
    assert("llama3.2:1b"@[9] != "llama3.2:3b"@[9]);
    assert forall|i: int| 0 <= i < "llama3.2:1b"@.len() implies is_tag_char(#[trigger] "llama3.2:1b"@[i]) by {
        assert(i == 0 || i == 1 || i == 2 || i == 3 || i == 4 || i == 5 || i == 6 || i == 7 || i == 8 || i == 9 || i == 10);
    }
    lemma_tag_text_is_canonical("llama3.2:1b"@);
    assert("llama3.2:1b"@.subrange(0, 7)[0] != "http://"@[0]);
    assert("llama3.2:1b"@.subrange(0, 8)[0] != "https://"@[0]);
    assert("llama3.2:1b"@.subrange(0, 6)[0] != "hf.co/"@[0]);
    assert("llama3.2:1b"@.subrange(6, 11)[1] != ".gguf"@[1]);
}

proof fn lemma_catalog_name_12()
    ensures
        resolve_spec("llama3.1"@, lowercase(trim_seq("llama3.1"@))) == Some(source_view("llama3.1:8b"@, "Llama-3.1-8B-Instruct-Q4_K_M.gguf"@, "https://huggingface.co/bartowski/Llama-3.1-8B-Instruct-GGUF/resolve/main/Llama-3.1-8B-Instruct-Q4_K_M.gguf"@, "8B"@, "llama"@)),
{
    reveal_strlit(".gguf");
    reveal_strlit("deepseek-coder-v2");
    reveal_strlit("deepseek-coder-v2:16b");
    reveal_strlit("deepseek-coder-v2:latest");
    reveal_strlit("deepseek-r1");
    reveal_strlit("deepseek-r1:1.5b");
    reveal_strlit("deepseek-r1:7b");
    reveal_strlit("deepseek-r1:8b");
    reveal_strlit("deepseek-r1:latest");
    reveal_strlit("hf.co/");
    reveal_strlit("http://");
    reveal_strlit("https://");
    reveal_strlit("llama3.1");
    reveal_strlit("llama3.1:8b");
    reveal_strlit("llama3.1:latest");
    reveal_strlit("llama3.2");
    reveal_strlit("llama3.2:1b");
    reveal_strlit("llama3.2:3b");
    reveal_strlit("llama3.2:latest");
    reveal_strlit("ollama.com/library/");
    assert("llama3.1"@[0] != "deepseek-r1"@[0]);
    assert("llama3.1"@[0] != "deepseek-r1:latest"@[0]);
    assert("llama3.1"@[0] != "deepseek-r1:7b"@[0]);
    assert("llama3.1"@[0] != "deepseek-r1:1.5b"@[0]);
    assert("llama3.1"@[0] != "deepseek-r1:8b"@[0]);
    assert("llama3.1"@[0] != "deepseek-coder-v2"@[0]);
    assert("llama3.1"@[0] != "deepseek-coder-v2:latest"@[0]);
    assert("llama3.1"@[0] != "deepseek-coder-v2:16b"@[0]);
    assert("llama3.1"@[7] != "llama3.2"@[7]);
    assert("llama3.1"@[7] != "llama3.2:latest"@[7]);
    assert("llama3.1"@[7] != "llama3.2:3b"@[7]);
    assert("llama3.1"@[7] != "llama3.2:1b"@[7]);
    assert forall|i: int| 0 <= i < "llama3.1"@.len() implies is_tag_char(#[trigger] "llama3.1"@[i]) by {
        assert(i == 0 || i == 1 || i == 2 || i == 3 || i == 4 || i == 5 || i == 6 || i == 7);
    }
    lemma_tag_text_is_canonical("llama3.1"@);
    assert("llama3.1"@.subrange(0, 7)[0] != "http://"@[0]);
    assert("llama3.1"@.subrange(0, 8)[0] != "https://"@[0]);
    assert("llama3.1"@.subrange(0, 6)[0] != "hf.co/"@[0]);
    assert("llama3.1"@.subrange(3, 8)[0] != ".gguf"@[0]);
}

proof fn lemma_catalog_name_13()
    ensures
        resolve_spec("llama3.1:latest"@, lowercase(trim_seq("llama3.1:latest"@))) == Some(source_view("llama3.1:8b"@, "Llama-3.1-8B-Instruct-Q4_K_M.gguf"@, "https://huggingface.co/bartowski/Llama-3.1-8B-Instruct-GGUF/resolve/main/Llama-3.1-8B-Instruct-Q4_K_M.gguf"@, "8B"@, "llama"@)),
{
    reveal_strlit(".gguf");
    reveal_strlit("deepseek-coder-v2");
    reveal_strlit("deepseek-coder-v2:16b");
    reveal_strlit("deepseek-coder-v2:latest");
    reveal_strlit("deepseek-r1");
    reveal_strlit("deepseek-r1:1.5b");
    reveal_strlit("deepseek-r1:7b");
    reveal_strlit("deepseek-r1:8b");
    reveal_strlit("deepseek-r1:latest");
    reveal_strlit("hf.co/");
    reveal_strlit("http://");
    reveal_strlit("https://");
    reveal_strlit("llama3.1");
    reveal_strlit("llama3.1:8b");
    reveal_strlit("llama3.1:latest");
    reveal_strlit("llama3.2");
    reveal_strlit("llama3.2:1b");
    reveal_strlit("llama3.2:3b");
    reveal_strlit("llama3.2:latest");
    reveal_strlit("ollama.com/library/");
    assert("llama3.1:latest"@[0] != "deepseek-r1"@[0]);
    assert("llama3.1:latest"@[0] != "deepseek-r1:latest"@[0]);
    assert("llama3.1:latest"@[0] != "deepseek-r1:7b"@[0]);
    assert("llama3.1:latest"@[0] != "deepseek-r1:1.5b"@[0]);
    assert("llama3.1:latest"@[0] != "deepseek-r1:8b"@[0]);
    assert("llama3.1:latest"@[0] != "deepseek-coder-v2"@[0]);
    assert("llama3.1:latest"@[0] != "deepseek-coder-v2:latest"@[0]);
    assert("llama3.1:latest"@[0] != "deepseek-coder-v2:16b"@[0]);
    assert("llama3.1:latest"@[7] != "llama3.2"@[7]);
    assert("llama3.1:latest"@[7] != "llama3.2:latest"@[7]);
    assert("llama3.1:latest"@[7] != "llama3.2:3b"@[7]);
    assert("llama3.1:latest"@[7] != "llama3.2:1b"@[7]);
    assert forall|i: int| 0 <= i < "llama3.1:latest"@.len() implies is_tag_char(#[trigger] "llama3.1:latest"@[i]) by {
        assert(i == 0 || i == 1 || i == 2 || i == 3 || i == 4 || i == 5 || i == 6 || i == 7 || i == 8 || i == 9 || i == 10 || i == 11 || i == 12 || i == 13 || i == 14);
    }
    lemma_tag_text_is_canonical("llama3.1:latest"@);
    assert("llama3.1:latest"@.subrange(0, 7)[0] != "http://"@[0]);
    assert("llama3.1:latest"@.subrange(0, 8)[0] != "https://"@[0]);
    assert("llama3.1:latest"@.subrange(0, 6)[0] != "hf.co/"@[0]);
    assert("llama3.1:latest"@.subrange(10, 15)[0] != ".gguf"@[0]);
}

proof fn lemma_catalog_name_14()
    ensures
        resolve_spec("llama3.1:8b"@, lowercase(trim_seq("llama3.1:8b"@))) == Some(source_view("llama3.1:8b"@, "Llama-3.1-8B-Instruct-Q4_K_M.gguf"@, "https://huggingface.co/bartowski/Llama-3.1-8B-Instruct-GGUF/resolve/main/Llama-3.1-8B-Instruct-Q4_K_M.gguf"@, "8B"@, "llama"@)),
{
    reveal_strlit(".gguf");
    reveal_strlit("deepseek-coder-v2");
    reveal_strlit("deepseek-coder-v2:16b");
    reveal_strlit("deepseek-coder-v2:latest");
    reveal_strlit("deepseek-r1");
    reveal_strlit("deepseek-r1:1.5b");
    reveal_strlit("deepseek-r1:7b");
    reveal_strlit("deepseek-r1:8b");
    reveal_strlit("deepseek-r1:latest");
    reveal_strlit("hf.co/");
    reveal_strlit("http://");
    reveal_strlit("https://");
    reveal_strlit("llama3.1");
    reveal_strlit("llama3.1:8b");
    reveal_strlit("llama3.1:latest");
    reveal_strlit("llama3.2");
    reveal_strlit("llama3.2:1b");
    reveal_strlit("llama3.2:3b");
    reveal_strlit("llama3.2:latest");
    reveal_strlit("ollama.com/library/");
    assert("llama3.1:8b"@[0] != "deepseek-r1"@[0]);
    assert("llama3.1:8b"@[0] != "deepseek-r1:latest"@[0]);
    assert("llama3.1:8b"@[0] != "deepseek-r1:7b"@[0]);
    assert("llama3.1:8b"@[0] != "deepseek-r1:1.5b"@[0]);
    assert("llama3.1:8b"@[0] != "deepseek-r1:8b"@[0]);
    assert("llama3.1:8b"@[0] != "deepseek-coder-v2"@[0]);
    assert("llama3.1:8b"@[0] != "deepseek-coder-v2:latest"@[0]);
    assert("llama3.1:8b"@[0] != "deepseek-coder-v2:16b"@[0]);
    assert("llama3.1:8b"@[7] != "llama3.2"@[7]);
    assert("llama3.1:8b"@[7] != "llama3.2:latest"@[7]);
    assert("llama3.1:8b"@[7] != "llama3.2:3b"@[7]);
    assert("llama3.1:8b"@[7] != "llama3.2:1b"@[7]);
    assert forall|i: int| 0 <= i < "llama3.1:8b"@.len() implies is_tag_char(#[trigger] "llama3.1:8b"@[i]) by {
        assert(i == 0 || i == 1 || i == 2 || i == 3 || i == 4 || i == 5 || i == 6 || i == 7 || i == 8 || i == 9 || i == 10);
    }
    lemma_tag_text_is_canonical("llama3.1:8b"@);
    assert("llama3.1:8b"@.subrange(0, 7)[0] != "http://"@[0]);
    assert("llama3.1:8b"@.subrange(0, 8)[0] != "https://"@[0]);
    assert("llama3.1:8b"@.subrange(0, 6)[0] != "hf.co/"@[0]);
    assert("llama3.1:8b"@.subrange(6, 11)[1] != ".gguf"@[1]);
}

proof fn lemma_catalog_name_15()
    ensures
        resolve_spec("llama2"@, lowercase(trim_seq("llama2"@))) == Some(source_view("llama2:7b"@, "llama-2-7b-chat.Q4_K_M.gguf"@, "https://huggingface.co/TheBloke/Llama-2-7B-Chat-GGUF/resolve/main/llama-2-7b-chat.Q4_K_M.gguf"@, "7B"@, "llama"@)),
{
    reveal_strlit(".gguf");
    reveal_strlit("deepseek-coder-v2");
    reveal_strlit("deepseek-coder-v2:16b");
    reveal_strlit("deepseek-coder-v2:latest");
    reveal_strlit("deepseek-r1");
    reveal_strlit("deepseek-r1:1.5b");
    reveal_strlit("deepseek-r1:7b");
    reveal_strlit("deepseek-r1:8b");
    reveal_strlit("deepseek-r1:latest");
    reveal_strlit("hf.co/");
    reveal_strlit("http://");
    reveal_strlit("https://");
    reveal_strlit("llama2");
    reveal_strlit("llama2:7b");
    reveal_strlit("llama2:latest");
    reveal_strlit("llama3.1");
    reveal_strlit("llama3.1:8b");
    reveal_strlit("llama3.1:latest");
    reveal_strlit("llama3.2");
    reveal_strlit("llama3.2:1b");
    reveal_strlit("llama3.2:3b");
    reveal_strlit("llama3.2:latest");
    reveal_strlit("ollama.com/library/");
    assert("llama2"@[0] != "deepseek-r1"@[0]);
    assert("llama2"@[0] != "deepseek-r1:latest"@[0]);
    assert("llama2"@[0] != "deepseek-r1:7b"@[0]);
    assert("llama2"@[0] != "deepseek-r1:1.5b"@[0]);
    assert("llama2"@[0] != "deepseek-r1:8b"@[0]);
    assert("llama2"@[0] != "deepseek-coder-v2"@[0]);
    assert("llama2"@[0] != "deepseek-coder-v2:latest"@[0]);
    assert("llama2"@[0] != "deepseek-coder-v2:16b"@[0]);
    assert("llama2"@[5] != "llama3.2"@[5]);
    assert("llama2"@[5] != "llama3.2:latest"@[5]);
    assert("llama2"@[5] != "llama3.2:3b"@[5]);
    assert("llama2"@[5] != "llama3.2:1b"@[5]);
    assert("llama2"@[5] != "llama3.1"@[5]);
    assert("llama2"@[5] != "llama3.1:latest"@[5]);
    assert("llama2"@[5] != "llama3.1:8b"@[5]);
    assert forall|i: int| 0 <= i < "llama2"@.len() implies is_tag_char(#[trigger] "llama2"@[i]) by {
        assert(i == 0 || i == 1 || i == 2 || i == 3 || i == 4 || i == 5);
    }
    lemma_tag_text_is_canonical("llama2"@);
    assert("llama2"@.subrange(0, 6)[0] != "hf.co/"@[0]);
    assert("llama2"@.subrange(1, 6)[0] != ".gguf"@[0]);
}

proof fn lemma_catalog_name_16()
    ensures
        resolve_spec("llama2:latest"@, lowercase(trim_seq("llama2:latest"@))) == Some(source_view("llama2:7b"@, "llama-2-7b-chat.Q4_K_M.gguf"@, "https://huggingface.co/TheBloke/Llama-2-7B-Chat-GGUF/resolve/main/llama-2-7b-chat.Q4_K_M.gguf"@, "7B"@, "llama"@)),
{
    reveal_strlit(".gguf");
    reveal_strlit("deepseek-coder-v2");
    reveal_strlit("deepseek-coder-v2:16b");
    reveal_strlit("deepseek-coder-v2:latest");
    reveal_strlit("deepseek-r1");
    reveal_strlit("deepseek-r1:1.5b");
    reveal_strlit("deepseek-r1:7b");
    reveal_strlit("deepseek-r1:8b");
    reveal_strlit("deepseek-r1:latest");
    reveal_strlit("hf.co/");
    reveal_strlit("http://");
    reveal_strlit("https://");
    reveal_strlit("llama2");
    reveal_strlit("llama2:7b");
    reveal_strlit("llama2:latest");
    reveal_strlit("llama3.1");
    reveal_strlit("llama3.1:8b");
    reveal_strlit("llama3.1:latest");
    reveal_strlit("llama3.2");
    reveal_strlit("llama3.2:1b");
    reveal_strlit("llama3.2:3b");
    reveal_strlit("llama3.2:latest");
    reveal_strlit("ollama.com/library/");
    assert("llama2:latest"@[0] != "deepseek-r1"@[0]);
    assert("llama2:latest"@[0] != "deepseek-r1:latest"@[0]);
    assert("llama2:latest"@[0] != "deepseek-r1:7b"@[0]);
    assert("llama2:latest"@[0] != "deepseek-r1:1.5b"@[0]);
    assert("llama2:latest"@[0] != "deepseek-r1:8b"@[0]);
    assert("llama2:latest"@[0] != "deepseek-coder-v2"@[0]);
    assert("llama2:latest"@[0] != "deepseek-coder-v2:latest"@[0]);
    assert("llama2:latest"@[0] != "deepseek-coder-v2:16b"@[0]);
    assert("llama2:latest"@[5] != "llama3.2"@[5]);
    assert("llama2:latest"@[5] != "llama3.2:latest"@[5]);
    assert("llama2:latest"@[5] != "llama3.2:3b"@[5]);
    assert("llama2:latest"@[5] != "llama3.2:1b"@[5]);
    assert("llama2:latest"@[5] != "llama3.1"@[5]);
    assert("llama2:latest"@[5] != "llama3.1:latest"@[5]);
    assert("llama2:latest"@[5] != "llama3.1:8b"@[5]);
    assert forall|i: int| 0 <= i < "llama2:latest"@.len() implies is_tag_char(#[trigger] "llama2:latest"@[i]) by {
        assert(i == 0 || i == 1 || i == 2 || i == 3 || i == 4 || i == 5 || i == 6 || i == 7 || i == 8 || i == 9 || i == 10 || i == 11 || i == 12);
    }
    lemma_tag_text_is_canonical("llama2:latest"@);
    assert("llama2:latest"@.subrange(0, 7)[0] != "http://"@[0]);
    assert("llama2:latest"@.subrange(0, 8)[0] != "https://"@[0]);
    assert("llama2:latest"@.subrange(0, 6)[0] != "hf.co/"@[0]);
    assert("llama2:latest"@.subrange(8, 13)[0] != ".gguf"@[0]);
}

proof fn lemma_catalog_name_17()
    ensures
        resolve_spec("llama2:7b"@, lowercase(trim_seq("llama2:7b"@))) == Some(source_view("llama2:7b"@, "llama-2-7b-chat.Q4_K_M.gguf"@, "https://huggingface.co/TheBloke/Llama-2-7B-Chat-GGUF/resolve/main/llama-2-7b-chat.Q4_K_M.gguf"@, "7B"@, "llama"@)),
{
    reveal_strlit(".gguf");
    reveal_strlit("deepseek-coder-v2");
    reveal_strlit("deepseek-coder-v2:16b");
    reveal_strlit("deepseek-coder-v2:latest");
    reveal_strlit("deepseek-r1");
    reveal_strlit("deepseek-r1:1.5b");
    reveal_strlit("deepseek-r1:7b");
    reveal_strlit("deepseek-r1:8b");
    reveal_strlit("deepseek-r1:latest");
    reveal_strlit("hf.co/");
    reveal_strlit("http://");
    reveal_strlit("https://");
    reveal_strlit("llama2");
    reveal_strlit("llama2:7b");
    reveal_strlit("llama2:latest");
    reveal_strlit("llama3.1");
    reveal_strlit("llama3.1:8b");
    reveal_strlit("llama3.1:latest");
    reveal_strlit("llama3.2");
    reveal_strlit("llama3.2:1b");
    reveal_strlit("llama3.2:3b");
    reveal_strlit("llama3.2:latest");
    reveal_strlit("ollama.com/library/");
    assert("llama2:7b"@[0] != "deepseek-r1"@[0]);
    assert("llama2:7b"@[0] != "deepseek-r1:latest"@[0]);
    assert("llama2:7b"@[0] != "deepseek-r1:7b"@[0]);
    assert("llama2:7b"@[0] != "deepseek-r1:1.5b"@[0]);
    assert("llama2:7b"@[0] != "deepseek-r1:8b"@[0]);
    assert("llama2:7b"@[0] != "deepseek-coder-v2"@[0]);
    assert("llama2:7b"@[0] != "deepseek-coder-v2:latest"@[0]);
    assert("llama2:7b"@[0] != "deepseek-coder-v2:16b"@[0]);
    assert("llama2:7b"@[5] != "llama3.2"@[5]);
    assert("llama2:7b"@[5] != "llama3.2:latest"@[5]);
    assert("llama2:7b"@[5] != "llama3.2:3b"@[5]);
    assert("llama2:7b"@[5] != "llama3.2:1b"@[5]);
    assert("llama2:7b"@[5] != "llama3.1"@[5]);
    assert("llama2:7b"@[5] != "llama3.1:latest"@[5]);
    assert("llama2:7b"@[5] != "llama3.1:8b"@[5]);
    assert forall|i: int| 0 <= i < "llama2:7b"@.len() implies is_tag_char(#[trigger] "llama2:7b"@[i]) by {
        assert(i == 0 || i == 1 || i == 2 || i == 3 || i == 4 || i == 5 || i == 6 || i == 7 || i == 8);
    }
    lemma_tag_text_is_canonical("llama2:7b"@);
    assert("llama2:7b"@.subrange(0, 7)[0] != "http://"@[0]);
    assert("llama2:7b"@.subrange(0, 8)[0] != "https://"@[0]);
    assert("llama2:7b"@.subrange(0, 6)[0] != "hf.co/"@[0]);
    assert("llama2:7b"@.subrange(4, 9)[0] != ".gguf"@[0]);
}

proof fn lemma_catalog_name_18()
    ensures
        resolve_spec("qwen2.5-coder"@, lowercase(trim_seq("qwen2.5-coder"@))) == Some(source_view("qwen2.5-coder:7b"@, "Qwen2.5-Coder-7B-Instruct-Q4_K_M.gguf"@, "https://huggingface.co/Qwen/Qwen2.5-Coder-7B-Instruct-GGUF/resolve/main/qwen2.5-coder-7b-instruct-q4_k_m.gguf"@, "7B"@, "qwen2"@)),
{
    reveal_strlit(".gguf");
    reveal_strlit("deepseek-coder-v2");
    reveal_strlit("deepseek-coder-v2:16b");
    reveal_strlit("deepseek-coder-v2:latest");
    reveal_strlit("deepseek-r1");
    reveal_strlit("deepseek-r1:1.5b");
    reveal_strlit("deepseek-r1:7b");
    reveal_strlit("deepseek-r1:8b");
    reveal_strlit("deepseek-r1:latest");
    reveal_strlit("hf.co/");
    reveal_strlit("http://");
    reveal_strlit("https://");
    reveal_strlit("llama2");
    reveal_strlit("llama2:7b");
    reveal_strlit("llama2:latest");
    reveal_strlit("llama3.1");
    reveal_strlit("llama3.1:8b");
    reveal_strlit("llama3.1:latest");
    reveal_strlit("llama3.2");
    reveal_strlit("llama3.2:1b");
    reveal_strlit("llama3.2:3b");
    reveal_strlit("llama3.2:latest");
    reveal_strlit("ollama.com/library/");
    reveal_strlit("qwen2.5-coder");
    reveal_strlit("qwen2.5-coder:7b");
    reveal_strlit("qwen2.5-coder:latest");
    assert("qwen2.5-coder"@[0] != "deepseek-r1"@[0]);
    assert("qwen2.5-coder"@[0] != "deepseek-r1:latest"@[0]);
    assert("qwen2.5-coder"@[0] != "deepseek-r1:7b"@[0]);
    assert("qwen2.5-coder"@[0] != "deepseek-r1:1.5b"@[0]);
    assert("qwen2.5-coder"@[0] != "deepseek-r1:8b"@[0]);
    assert("qwen2.5-coder"@[0] != "deepseek-coder-v2"@[0]);
    assert("qwen2.5-coder"@[0] != "deepseek-coder-v2:latest"@[0]);
    assert("qwen2.5-coder"@[0] != "deepseek-coder-v2:16b"@[0]);
    assert("qwen2.5-coder"@[0] != "llama3.2"@[0]);
    assert("qwen2.5-coder"@[0] != "llama3.2:latest"@[0]);
    assert("qwen2.5-coder"@[0] != "llama3.2:3b"@[0]);
    assert("qwen2.5-coder"@[0] != "llama3.2:1b"@[0]);
    assert("qwen2.5-coder"@[0] != "llama3.1"@[0]);
    assert("qwen2.5-coder"@[0] != "llama3.1:latest"@[0]);
    assert("qwen2.5-coder"@[0] != "llama3.1:8b"@[0]);
    assert("qwen2.5-coder"@[0] != "llama2"@[0]);
    assert("qwen2.5-coder"@[0] != "llama2:latest"@[0]);
    assert("qwen2.5-coder"@[0] != "llama2:7b"@[0]);
    assert forall|i: int| 0 <= i < "qwen2.5-coder"@.len() implies is_tag_char(#[trigger] "qwen2.5-coder"@[i]) by {
        assert(i == 0 || i == 1 || i == 2 || i == 3 || i == 4 || i == 5 || i == 6 || i == 7 || i == 8 || i == 9 || i == 10 || i == 11 || i == 12);
    }
    lemma_tag_text_is_canonical("qwen2.5-coder"@);
    assert("qwen2.5-coder"@.subrange(0, 7)[0] != "http://"@[0]);
    assert("qwen2.5-coder"@.subrange(0, 8)[0] != "https://"@[0]);
    assert("qwen2.5-coder"@.subrange(0, 6)[0] != "hf.co/"@[0]);
    assert("qwen2.5-coder"@.subrange(8, 13)[0] != ".gguf"@[0]);
}

proof fn lemma_catalog_name_19()
    ensures
        resolve_spec("qwen2.5-coder:latest"@, lowercase(trim_seq("qwen2.5-coder:latest"@))) == Some(source_view("qwen2.5-coder:7b"@, "Qwen2.5-Coder-7B-Instruct-Q4_K_M.gguf"@, "https://huggingface.co/Qwen/Qwen2.5-Coder-7B-Instruct-GGUF/resolve/main/qwen2.5-coder-7b-instruct-q4_k_m.gguf"@, "7B"@, "qwen2"@)),
{
    reveal_strlit(".gguf");
    reveal_strlit("deepseek-coder-v2");
    reveal_strlit("deepseek-coder-v2:16b");
    reveal_strlit("deepseek-coder-v2:latest");
    reveal_strlit("deepseek-r1");
    reveal_strlit("deepseek-r1:1.5b");
    reveal_strlit("deepseek-r1:7b");
    reveal_strlit("deepseek-r1:8b");
    reveal_strlit("deepseek-r1:latest");
    reveal_strlit("hf.co/");
    reveal_strlit("http://");
    reveal_strlit("https://");
    reveal_strlit("llama2");
    reveal_strlit("llama2:7b");
    reveal_strlit("llama2:latest");
    reveal_strlit("llama3.1");
    reveal_strlit("llama3.1:8b");
    reveal_strlit("llama3.1:latest");
    reveal_strlit("llama3.2");
    reveal_strlit("llama3.2:1b");
    reveal_strlit("llama3.2:3b");
    reveal_strlit("llama3.2:latest");
    reveal_strlit("ollama.com/library/");
    reveal_strlit("qwen2.5-coder");
    reveal_strlit("qwen2.5-coder:7b");
    reveal_strlit("qwen2.5-coder:latest");
    assert("qwen2.5-coder:latest"@[0] != "deepseek-r1"@[0]);
    assert("qwen2.5-coder:latest"@[0] != "deepseek-r1:latest"@[0]);
    assert("qwen2.5-coder:latest"@[0] != "deepseek-r1:7b"@[0]);
    assert("qwen2.5-coder:latest"@[0] != "deepseek-r1:1.5b"@[0]);
    assert("qwen2.5-coder:latest"@[0] != "deepseek-r1:8b"@[0]);
    assert("qwen2.5-coder:latest"@[0] != "deepseek-coder-v2"@[0]);
    assert("qwen2.5-coder:latest"@[0] != "deepseek-coder-v2:latest"@[0]);
    assert("qwen2.5-coder:latest"@[0] != "deepseek-coder-v2:16b"@[0]);
    assert("qwen2.5-coder:latest"@[0] != "llama3.2"@[0]);
    assert("qwen2.5-coder:latest"@[0] != "llama3.2:latest"@[0]);
    assert("qwen2.5-coder:latest"@[0] != "llama3.2:3b"@[0]);
    assert("qwen2.5-coder:latest"@[0] != "llama3.2:1b"@[0]);
    assert("qwen2.5-coder:latest"@[0] != "llama3.1"@[0]);
    assert("qwen2.5-coder:latest"@[0] != "llama3.1:latest"@[0]);
    assert("qwen2.5-coder:latest"@[0] != "llama3.1:8b"@[0]);
    assert("qwen2.5-coder:latest"@[0] != "llama2"@[0]);
    assert("qwen2.5-coder:latest"@[0] != "llama2:latest"@[0]);
    assert("qwen2.5-coder:latest"@[0] != "llama2:7b"@[0]);
    assert forall|i: int| 0 <= i < "qwen2.5-coder:latest"@.len() implies is_tag_char(#[trigger] "qwen2.5-coder:latest"@[i]) by {
        assert(i == 0 || i == 1 || i == 2 || i == 3 || i == 4 || i == 5 || i == 6 || i == 7 || i == 8 || i == 9 || i == 10 || i == 11 || i == 12 || i == 13 || i == 14 || i == 15 || i == 16 || i == 17 || i == 18 || i == 19);
    }
    lemma_tag_text_is_canonical("qwen2.5-coder:latest"@);
    assert("qwen2.5-coder:latest"@.subrange(0, 7)[0] != "http://"@[0]);
    assert("qwen2.5-coder:latest"@.subrange(0, 8)[0] != "https://"@[0]);
    assert("qwen2.5-coder:latest"@.subrange(0, 6)[0] != "hf.co/"@[0]);
    assert("qwen2.5-coder:latest"@.subrange(0, 19)[0] != "ollama.com/library/"@[0]);
    assert("qwen2.5-coder:latest"@.subrange(15, 20)[0] != ".gguf"@[0]);
}

proof fn lemma_catalog_name_20()
    ensures
        resolve_spec("qwen2.5-coder:7b"@, lowercase(trim_seq("qwen2.5-coder:7b"@))) == Some(source_view("qwen2.5-coder:7b"@, "Qwen2.5-Coder-7B-Instruct-Q4_K_M.gguf"@, "https://huggingface.co/Qwen/Qwen2.5-Coder-7B-Instruct-GGUF/resolve/main/qwen2.5-coder-7b-instruct-q4_k_m.gguf"@, "7B"@, "qwen2"@)),
{
    reveal_strlit(".gguf");
    reveal_strlit("deepseek-coder-v2");
    reveal_strlit("deepseek-coder-v2:16b");
    reveal_strlit("deepseek-coder-v2:latest");
    reveal_strlit("deepseek-r1");
    reveal_strlit("deepseek-r1:1.5b");
    reveal_strlit("deepseek-r1:7b");
    reveal_strlit("deepseek-r1:8b");
    reveal_strlit("deepseek-r1:latest");
    reveal_strlit("hf.co/");
    reveal_strlit("http://");
    reveal_strlit("https://");
    reveal_strlit("llama2");
    reveal_strlit("llama2:7b");
    reveal_strlit("llama2:latest");
    reveal_strlit("llama3.1");
    reveal_strlit("llama3.1:8b");
    reveal_strlit("llama3.1:latest");
    reveal_strlit("llama3.2");
    reveal_strlit("llama3.2:1b");
    reveal_strlit("llama3.2:3b");
    reveal_strlit("llama3.2:latest");
    reveal_strlit("ollama.com/library/");
    reveal_strlit("qwen2.5-coder");
    reveal_strlit("qwen2.5-coder:7b");
    reveal_strlit("qwen2.5-coder:latest");
    assert("qwen2.5-coder:7b"@[0] != "deepseek-r1"@[0]);
    assert("qwen2.5-coder:7b"@[0] != "deepseek-r1:latest"@[0]);
    assert("qwen2.5-coder:7b"@[0] != "deepseek-r1:7b"@[0]);
    assert("qwen2.5-coder:7b"@[0] != "deepseek-r1:1.5b"@[0]);
    assert("qwen2.5-coder:7b"@[0] != "deepseek-r1:8b"@[0]);
    assert("qwen2.5-coder:7b"@[0] != "deepseek-coder-v2"@[0]);
    assert("qwen2.5-coder:7b"@[0] != "deepseek-coder-v2:latest"@[0]);
    assert("qwen2.5-coder:7b"@[0] != "deepseek-coder-v2:16b"@[0]);
    assert("qwen2.5-coder:7b"@[0] != "llama3.2"@[0]);
    assert("qwen2.5-coder:7b"@[0] != "llama3.2:latest"@[0]);
    assert("qwen2.5-coder:7b"@[0] != "llama3.2:3b"@[0]);
    assert("qwen2.5-coder:7b"@[0] != "llama3.2:1b"@[0]);
    assert("qwen2.5-coder:7b"@[0] != "llama3.1"@[0]);
    assert("qwen2.5-coder:7b"@[0] != "llama3.1:latest"@[0]);
    assert("qwen2.5-coder:7b"@[0] != "llama3.1:8b"@[0]);
    assert("qwen2.5-coder:7b"@[0] != "llama2"@[0]);
    assert("qwen2.5-coder:7b"@[0] != "llama2:latest"@[0]);
    assert("qwen2.5-coder:7b"@[0] != "llama2:7b"@[0]);
    assert forall|i: int| 0 <= i < "qwen2.5-coder:7b"@.len() implies is_tag_char(#[trigger] "qwen2.5-coder:7b"@[i]) by {
        assert(i == 0 || i == 1 || i == 2 || i == 3 || i == 4 || i == 5 || i == 6 || i == 7 || i == 8 || i == 9 || i == 10 || i == 11 || i == 12 || i == 13 || i == 14 || i == 15);
    }
    lemma_tag_text_is_canonical("qwen2.5-coder:7b"@);
    assert("qwen2.5-coder:7b"@.subrange(0, 7)[0] != "http://"@[0]);
    assert("qwen2.5-coder:7b"@.subrange(0, 8)[0] != "https://"@[0]);
    assert("qwen2.5-coder:7b"@.subrange(0, 6)[0] != "hf.co/"@[0]);
    assert("qwen2.5-coder:7b"@.subrange(11, 16)[0] != ".gguf"@[0]);
}

proof fn lemma_catalog_name_21()
    ensures
        resolve_spec("qwen2.5-coder:1.5b"@, lowercase(trim_seq("qwen2.5-coder:1.5b"@))) == Some(source_view("qwen2.5-coder:1.5b"@, "Qwen2.5-Coder-1.5B-Instruct-Q4_K_M.gguf"@, "https://huggingface.co/Qwen/Qwen2.5-Coder-1.5B-Instruct-GGUF/resolve/main/qwen2.5-coder-1.5b-instruct-q4_k_m.gguf"@, "1.5B"@, "qwen2"@)),
{
    reveal_strlit(".gguf");
    reveal_strlit("deepseek-coder-v2");
    reveal_strlit("deepseek-coder-v2:16b");
    reveal_strlit("deepseek-coder-v2:latest");
    reveal_strlit("deepseek-r1");
    reveal_strlit("deepseek-r1:1.5b");
    reveal_strlit("deepseek-r1:7b");
    reveal_strlit("deepseek-r1:8b");
    reveal_strlit("deepseek-r1:latest");
    reveal_strlit("hf.co/");
    reveal_strlit("http://");
    reveal_strlit("https://");
    reveal_strlit("llama2");
    reveal_strlit("llama2:7b");
    reveal_strlit("llama2:latest");
    reveal_strlit("llama3.1");
    reveal_strlit("llama3.1:8b");
    reveal_strlit("llama3.1:latest");
    reveal_strlit("llama3.2");
    reveal_strlit("llama3.2:1b");
    reveal_strlit("llama3.2:3b");
    reveal_strlit("llama3.2:latest");
    reveal_strlit("ollama.com/library/");
    reveal_strlit("qwen2.5-coder");
    reveal_strlit("qwen2.5-coder:1.5b");
    reveal_strlit("qwen2.5-coder:7b");
    reveal_strlit("qwen2.5-coder:latest");
    assert("qwen2.5-coder:1.5b"@[0] != "deepseek-r1"@[0]);
    assert("qwen2.5-coder:1.5b"@[0] != "deepseek-r1:latest"@[0]);
    assert("qwen2.5-coder:1.5b"@[0] != "deepseek-r1:7b"@[0]);
    assert("qwen2.5-coder:1.5b"@[0] != "deepseek-r1:1.5b"@[0]);
    assert("qwen2.5-coder:1.5b"@[0] != "deepseek-r1:8b"@[0]);
    assert("qwen2.5-coder:1.5b"@[0] != "deepseek-coder-v2"@[0]);
    assert("qwen2.5-coder:1.5b"@[0] != "deepseek-coder-v2:latest"@[0]);
    assert("qwen2.5-coder:1.5b"@[0] != "deepseek-coder-v2:16b"@[0]);
    assert("qwen2.5-coder:1.5b"@[0] != "llama3.2"@[0]);
    assert("qwen2.5-coder:1.5b"@[0] != "llama3.2:latest"@[0]);
    assert("qwen2.5-coder:1.5b"@[0] != "llama3.2:3b"@[0]);
    assert("qwen2.5-coder:1.5b"@[0] != "llama3.2:1b"@[0]);
    assert("qwen2.5-coder:1.5b"@[0] != "llama3.1"@[0]);
    assert("qwen2.5-coder:1.5b"@[0] != "llama3.1:latest"@[0]);
    assert("qwen2.5-coder:1.5b"@[0] != "llama3.1:8b"@[0]);
    assert("qwen2.5-coder:1.5b"@[0] != "llama2"@[0]);
    assert("qwen2.5-coder:1.5b"@[0] != "llama2:latest"@[0]);
    assert("qwen2.5-coder:1.5b"@[0] != "llama2:7b"@[0]);
    assert("qwen2.5-coder:1.5b"@.len() != "qwen2.5-coder"@.len());
    assert("qwen2.5-coder:1.5b"@[14] != "qwen2.5-coder:latest"@[14]);
    assert("qwen2.5-coder:1.5b"@[14] != "qwen2.5-coder:7b"@[14]);
    assert forall|i: int| 0 <= i < "qwen2.5-coder:1.5b"@.len() implies is_tag_char(#[trigger] "qwen2.5-coder:1.5b"@[i]) by {
        assert(i == 0 || i == 1 || i == 2 || i == 3 || i == 4 || i == 5 || i == 6 || i == 7 || i == 8 || i == 9 || i == 10 || i == 11 || i == 12 || i == 13 || i == 14 || i == 15 || i == 16 || i == 17);
    }
    lemma_tag_text_is_canonical("qwen2.5-coder:1.5b"@);
    assert("qwen2.5-coder:1.5b"@.subrange(0, 7)[0] != "http://"@[0]);
    assert("qwen2.5-coder:1.5b"@.subrange(0, 8)[0] != "https://"@[0]);
    assert("qwen2.5-coder:1.5b"@.subrange(0, 6)[0] != "hf.co/"@[0]);
    assert("qwen2.5-coder:1.5b"@.subrange(13, 18)[0] != ".gguf"@[0]);
}

proof fn lemma_catalog_name_22()
    ensures
        resolve_spec("qwen2.5-coder:14b"@, lowercase(trim_seq("qwen2.5-coder:14b"@))) == Some(source_view("qwen2.5-coder:14b"@, "Qwen2.5-Coder-14B-Instruct-Q4_K_M.gguf"@, "https://huggingface.co/Qwen/Qwen2.5-Coder-14B-Instruct-GGUF/resolve/main/qwen2.5-coder-14b-instruct-q4_k_m.gguf"@, "14B"@, "qwen2"@)),
{
    reveal_strlit(".gguf");
    reveal_strlit("deepseek-coder-v2");
    reveal_strlit("deepseek-coder-v2:16b");
    reveal_strlit("deepseek-coder-v2:latest");
    reveal_strlit("deepseek-r1");
    reveal_strlit("deepseek-r1:1.5b");
    reveal_strlit("deepseek-r1:7b");
    reveal_strlit("deepseek-r1:8b");
    reveal_strlit("deepseek-r1:latest");
    reveal_strlit("hf.co/");
    reveal_strlit("http://");
    reveal_strlit("https://");
    reveal_strlit("llama2");
    reveal_strlit("llama2:7b");
    reveal_strlit("llama2:latest");
    reveal_strlit("llama3.1");
    reveal_strlit("llama3.1:8b");
    reveal_strlit("llama3.1:latest");
    reveal_strlit("llama3.2");
    reveal_strlit("llama3.2:1b");
    reveal_strlit("llama3.2:3b");
    reveal_strlit("llama3.2:latest");
    reveal_strlit("ollama.com/library/");
    reveal_strlit("qwen2.5-coder");
    reveal_strlit("qwen2.5-coder:1.5b");
    reveal_strlit("qwen2.5-coder:14b");
    reveal_strlit("qwen2.5-coder:7b");
    reveal_strlit("qwen2.5-coder:latest");
    assert("qwen2.5-coder:14b"@[0] != "deepseek-r1"@[0]);
    assert("qwen2.5-coder:14b"@[0] != "deepseek-r1:latest"@[0]);
    assert("qwen2.5-coder:14b"@[0] != "deepseek-r1:7b"@[0]);
    assert("qwen2.5-coder:14b"@[0] != "deepseek-r1:1.5b"@[0]);
    assert("qwen2.5-coder:14b"@[0] != "deepseek-r1:8b"@[0]);
    assert("qwen2.5-coder:14b"@[0] != "deepseek-coder-v2"@[0]);
    assert("qwen2.5-coder:14b"@[0] != "deepseek-coder-v2:latest"@[0]);
    assert("qwen2.5-coder:14b"@[0] != "deepseek-coder-v2:16b"@[0]);
    assert("qwen2.5-coder:14b"@[0] != "llama3.2"@[0]);
    assert("qwen2.5-coder:14b"@[0] != "llama3.2:latest"@[0]);
    assert("qwen2.5-coder:14b"@[0] != "llama3.2:3b"@[0]);
    assert("qwen2.5-coder:14b"@[0] != "llama3.2:1b"@[0]);
    assert("qwen2.5-coder:14b"@[0] != "llama3.1"@[0]);
    assert("qwen2.5-coder:14b"@[0] != "llama3.1:latest"@[0]);
    assert("qwen2.5-coder:14b"@[0] != "llama3.1:8b"@[0]);
    assert("qwen2.5-coder:14b"@[0] != "llama2"@[0]);
    assert("qwen2.5-coder:14b"@[0] != "llama2:latest"@[0]);
    assert("qwen2.5-coder:14b"@[0] != "llama2:7b"@[0]);
    assert("qwen2.5-coder:14b"@.len() != "qwen2.5-coder"@.len());
    assert("qwen2.5-coder:14b"@[14] != "qwen2.5-coder:latest"@[14]);
    assert("qwen2.5-coder:14b"@[14] != "qwen2.5-coder:7b"@[14]);
    assert("qwen2.5-coder:14b"@[15] != "qwen2.5-coder:1.5b"@[15]);
    assert forall|i: int| 0 <= i < "qwen2.5-coder:14b"@.len() implies is_tag_char(#[trigger] "qwen2.5-coder:14b"@[i]) by {
        assert(i == 0 || i == 1 || i == 2 || i == 3 || i == 4 || i == 5 || i == 6 || i == 7 || i == 8 || i == 9 || i == 10 || i == 11 || i == 12 || i == 13 || i == 14 || i == 15 || i == 16);
    }
    lemma_tag_text_is_canonical("qwen2.5-coder:14b"@);
    assert("qwen2.5-coder:14b"@.subrange(0, 7)[0] != "http://"@[0]);
    assert("qwen2.5-coder:14b"@.subrange(0, 8)[0] != "https://"@[0]);
    assert("qwen2.5-coder:14b"@.subrange(0, 6)[0] != "hf.co/"@[0]);
    assert("qwen2.5-coder:14b"@.subrange(12, 17)[0] != ".gguf"@[0]);
}

proof fn lemma_catalog_name_23()
    ensures
        resolve_spec("qwen2.5"@, lowercase(trim_seq("qwen2.5"@))) == Some(source_view("qwen2.5:7b"@, "Qwen2.5-7B-Instruct-Q4_K_M.gguf"@, "https://huggingface.co/Qwen/Qwen2.5-7B-Instruct-GGUF/resolve/main/qwen2.5-7b-instruct-q4_k_m.gguf"@, "7B"@, "qwen2"@)),
{
    reveal_strlit(".gguf");
    reveal_strlit("deepseek-coder-v2");
    reveal_strlit("deepseek-coder-v2:16b");
    reveal_strlit("deepseek-coder-v2:latest");
    reveal_strlit("deepseek-r1");
    reveal_strlit("deepseek-r1:1.5b");
    reveal_strlit("deepseek-r1:7b");
    reveal_strlit("deepseek-r1:8b");
    reveal_strlit("deepseek-r1:latest");
    reveal_strlit("hf.co/");
    reveal_strlit("http://");
    reveal_strlit("https://");
    reveal_strlit("llama2");
    reveal_strlit("llama2:7b");
    reveal_strlit("llama2:latest");
    reveal_strlit("llama3.1");
    reveal_strlit("llama3.1:8b");
    reveal_strlit("llama3.1:latest");
    reveal_strlit("llama3.2");
    reveal_strlit("llama3.2:1b");
    reveal_strlit("llama3.2:3b");
    reveal_strlit("llama3.2:latest");
    reveal_strlit("ollama.com/library/");
    reveal_strlit("qwen2.5");
    reveal_strlit("qwen2.5-coder");
    reveal_strlit("qwen2.5-coder:1.5b");
    reveal_strlit("qwen2.5-coder:14b");
    reveal_strlit("qwen2.5-coder:7b");
    reveal_strlit("qwen2.5-coder:latest");
    reveal_strlit("qwen2.5:7b");
    reveal_strlit("qwen2.5:latest");
    assert("qwen2.5"@[0] != "deepseek-r1"@[0]);
    assert("qwen2.5"@[0] != "deepseek-r1:latest"@[0]);
    assert("qwen2.5"@[0] != "deepseek-r1:7b"@[0]);
    assert("qwen2.5"@[0] != "deepseek-r1:1.5b"@[0]);
    assert("qwen2.5"@[0] != "deepseek-r1:8b"@[0]);
    assert("qwen2.5"@[0] != "deepseek-coder-v2"@[0]);
    assert("qwen2.5"@[0] != "deepseek-coder-v2:latest"@[0]);
    assert("qwen2.5"@[0] != "deepseek-coder-v2:16b"@[0]);
    assert("qwen2.5"@[0] != "llama3.2"@[0]);
    assert("qwen2.5"@[0] != "llama3.2:latest"@[0]);
    assert("qwen2.5"@[0] != "llama3.2:3b"@[0]);
    assert("qwen2.5"@[0] != "llama3.2:1b"@[0]);
    assert("qwen2.5"@[0] != "llama3.1"@[0]);
    assert("qwen2.5"@[0] != "llama3.1:latest"@[0]);
    assert("qwen2.5"@[0] != "llama3.1:8b"@[0]);
    assert("qwen2.5"@[0] != "llama2"@[0]);
    assert("qwen2.5"@[0] != "llama2:latest"@[0]);
    assert("qwen2.5"@[0] != "llama2:7b"@[0]);
    assert("qwen2.5"@.len() != "qwen2.5-coder"@.len());
    assert("qwen2.5"@.len() != "qwen2.5-coder:latest"@.len());
    assert("qwen2.5"@.len() != "qwen2.5-coder:7b"@.len());
    assert("qwen2.5"@.len() != "qwen2.5-coder:1.5b"@.len());
    assert("qwen2.5"@.len() != "qwen2.5-coder:14b"@.len());
    assert forall|i: int| 0 <= i < "qwen2.5"@.len() implies is_tag_char(#[trigger] "qwen2.5"@[i]) by {
        assert(i == 0 || i == 1 || i == 2 || i == 3 || i == 4 || i == 5 || i == 6);
    }
    lemma_tag_text_is_canonical("qwen2.5"@);
    assert("qwen2.5"@.subrange(0, 7)[0] != "http://"@[0]);
    assert("qwen2.5"@.subrange(0, 6)[0] != "hf.co/"@[0]);
    assert("qwen2.5"@.subrange(2, 7)[0] != ".gguf"@[0]);
}

proof fn lemma_catalog_name_24()
    ensures
        resolve_spec("qwen2.5:latest"@, lowercase(trim_seq("qwen2.5:latest"@))) == Some(source_view("qwen2.5:7b"@, "Qwen2.5-7B-Instruct-Q4_K_M.gguf"@, "https://huggingface.co/Qwen/Qwen2.5-7B-Instruct-GGUF/resolve/main/qwen2.5-7b-instruct-q4_k_m.gguf"@, "7B"@, "qwen2"@)),
{
    reveal_strlit(".gguf");
    reveal_strlit("deepseek-coder-v2");
    reveal_strlit("deepseek-coder-v2:16b");
    reveal_strlit("deepseek-coder-v2:latest");
    reveal_strlit("deepseek-r1");
    reveal_strlit("deepseek-r1:1.5b");
    reveal_strlit("deepseek-r1:7b");
    reveal_strlit("deepseek-r1:8b");
    reveal_strlit("deepseek-r1:latest");
    reveal_strlit("hf.co/");
    reveal_strlit("http://");
    reveal_strlit("https://");
    reveal_strlit("llama2");
    reveal_strlit("llama2:7b");
    reveal_strlit("llama2:latest");
    reveal_strlit("llama3.1");
    reveal_strlit("llama3.1:8b");
    reveal_strlit("llama3.1:latest");
    reveal_strlit("llama3.2");
    reveal_strlit("llama3.2:1b");
    reveal_strlit("llama3.2:3b");
    reveal_strlit("llama3.2:latest");
    reveal_strlit("ollama.com/library/");
    reveal_strlit("qwen2.5");
    reveal_strlit("qwen2.5-coder");
    reveal_strlit("qwen2.5-coder:1.5b");
    reveal_strlit("qwen2.5-coder:14b");
    reveal_strlit("qwen2.5-coder:7b");
    reveal_strlit("qwen2.5-coder:latest");
    reveal_strlit("qwen2.5:7b");
    reveal_strlit("qwen2.5:latest");
    assert("qwen2.5:latest"@[0] != "deepseek-r1"@[0]);
    assert("qwen2.5:latest"@[0] != "deepseek-r1:latest"@[0]);
    assert("qwen2.5:latest"@[0] != "deepseek-r1:7b"@[0]);
    assert("qwen2.5:latest"@[0] != "deepseek-r1:1.5b"@[0]);
    assert("qwen2.5:latest"@[0] != "deepseek-r1:8b"@[0]);
    assert("qwen2.5:latest"@[0] != "deepseek-coder-v2"@[0]);
    assert("qwen2.5:latest"@[0] != "deepseek-coder-v2:latest"@[0]);
    assert("qwen2.5:latest"@[0] != "deepseek-coder-v2:16b"@[0]);
    assert("qwen2.5:latest"@[0] != "llama3.2"@[0]);
    assert("qwen2.5:latest"@[0] != "llama3.2:latest"@[0]);
    assert("qwen2.5:latest"@[0] != "llama3.2:3b"@[0]);
    assert("qwen2.5:latest"@[0] != "llama3.2:1b"@[0]);
    assert("qwen2.5:latest"@[0] != "llama3.1"@[0]);
    assert("qwen2.5:latest"@[0] != "llama3.1:latest"@[0]);
    assert("qwen2.5:latest"@[0] != "llama3.1:8b"@[0]);
    assert("qwen2.5:latest"@[0] != "llama2"@[0]);
    assert("qwen2.5:latest"@[0] != "llama2:latest"@[0]);
    assert("qwen2.5:latest"@[0] != "llama2:7b"@[0]);
    assert("qwen2.5:latest"@[7] != "qwen2.5-coder"@[7]);
    assert("qwen2.5:latest"@[7] != "qwen2.5-coder:latest"@[7]);
    assert("qwen2.5:latest"@[7] != "qwen2.5-coder:7b"@[7]);
    assert("qwen2.5:latest"@[7] != "qwen2.5-coder:1.5b"@[7]);
    assert("qwen2.5:latest"@[7] != "qwen2.5-coder:14b"@[7]);
    assert forall|i: int| 0 <= i < "qwen2.5:latest"@.len() implies is_tag_char(#[trigger] "qwen2.5:latest"@[i]) by {
        assert(i == 0 || i == 1 || i == 2 || i == 3 || i == 4 || i == 5 || i == 6 || i == 7 || i == 8 || i == 9 || i == 10 || i == 11 || i == 12 || i == 13);
    }
    lemma_tag_text_is_canonical("qwen2.5:latest"@);
    assert("qwen2.5:latest"@.subrange(0, 7)[0] != "http://"@[0]);
    assert("qwen2.5:latest"@.subrange(0, 8)[0] != "https://"@[0]);
    assert("qwen2.5:latest"@.subrange(0, 6)[0] != "hf.co/"@[0]);
    assert("qwen2.5:latest"@.subrange(9, 14)[0] != ".gguf"@[0]);
}

proof fn lemma_catalog_name_25()
    ensures
        resolve_spec("qwen2.5:7b"@, lowercase(trim_seq("qwen2.5:7b"@))) == Some(source_view("qwen2.5:7b"@, "Qwen2.5-7B-Instruct-Q4_K_M.gguf"@, "https://huggingface.co/Qwen/Qwen2.5-7B-Instruct-GGUF/resolve/main/qwen2.5-7b-instruct-q4_k_m.gguf"@, "7B"@, "qwen2"@)),
{
    reveal_strlit(".gguf");
    reveal_strlit("deepseek-coder-v2");
    reveal_strlit("deepseek-coder-v2:16b");
    reveal_strlit("deepseek-coder-v2:latest");
    reveal_strlit("deepseek-r1");
    reveal_strlit("deepseek-r1:1.5b");
    reveal_strlit("deepseek-r1:7b");
    reveal_strlit("deepseek-r1:8b");
    reveal_strlit("deepseek-r1:latest");
    reveal_strlit("hf.co/");
    reveal_strlit("http://");
    reveal_strlit("https://");
    reveal_strlit("llama2");
    reveal_strlit("llama2:7b");
    reveal_strlit("llama2:latest");
    reveal_strlit("llama3.1");
    reveal_strlit("llama3.1:8b");
    reveal_strlit("llama3.1:latest");
    reveal_strlit("llama3.2");
    reveal_strlit("llama3.2:1b");
    reveal_strlit("llama3.2:3b");
    reveal_strlit("llama3.2:latest");
    reveal_strlit("ollama.com/library/");
    reveal_strlit("qwen2.5");
    reveal_strlit("qwen2.5-coder");
    reveal_strlit("qwen2.5-coder:1.5b");
    reveal_strlit("qwen2.5-coder:14b");
    reveal_strlit("qwen2.5-coder:7b");
    reveal_strlit("qwen2.5-coder:latest");
    reveal_strlit("qwen2.5:7b");
    reveal_strlit("qwen2.5:latest");
    assert("qwen2.5:7b"@[0] != "deepseek-r1"@[0]);
    assert("qwen2.5:7b"@[0] != "deepseek-r1:latest"@[0]);
    assert("qwen2.5:7b"@[0] != "deepseek-r1:7b"@[0]);
    assert("qwen2.5:7b"@[0] != "deepseek-r1:1.5b"@[0]);
    assert("qwen2.5:7b"@[0] != "deepseek-r1:8b"@[0]);
    assert("qwen2.5:7b"@[0] != "deepseek-coder-v2"@[0]);
    assert("qwen2.5:7b"@[0] != "deepseek-coder-v2:latest"@[0]);
    assert("qwen2.5:7b"@[0] != "deepseek-coder-v2:16b"@[0]);
    assert("qwen2.5:7b"@[0] != "llama3.2"@[0]);
    assert("qwen2.5:7b"@[0] != "llama3.2:latest"@[0]);
    assert("qwen2.5:7b"@[0] != "llama3.2:3b"@[0]);
    assert("qwen2.5:7b"@[0] != "llama3.2:1b"@[0]);
    assert("qwen2.5:7b"@[0] != "llama3.1"@[0]);
    assert("qwen2.5:7b"@[0] != "llama3.1:latest"@[0]);
    assert("qwen2.5:7b"@[0] != "llama3.1:8b"@[0]);
    assert("qwen2.5:7b"@[0] != "llama2"@[0]);
    assert("qwen2.5:7b"@[0] != "llama2:latest"@[0]);
    assert("qwen2.5:7b"@[0] != "llama2:7b"@[0]);
    assert("qwen2.5:7b"@[7] != "qwen2.5-coder"@[7]);
    assert("qwen2.5:7b"@[7] != "qwen2.5-coder:latest"@[7]);
    assert("qwen2.5:7b"@[7] != "qwen2.5-coder:7b"@[7]);
    assert("qwen2.5:7b"@[7] != "qwen2.5-coder:1.5b"@[7]);
    assert("qwen2.5:7b"@[7] != "qwen2.5-coder:14b"@[7]);
    assert forall|i: int| 0 <= i < "qwen2.5:7b"@.len() implies is_tag_char(#[trigger] "qwen2.5:7b"@[i]) by {
        assert(i == 0 || i == 1 || i == 2 || i == 3 || i == 4 || i == 5 || i == 6 || i == 7 || i == 8 || i == 9);
    }
    lemma_tag_text_is_canonical("qwen2.5:7b"@);
    assert("qwen2.5:7b"@.subrange(0, 7)[0] != "http://"@[0]);
    assert("qwen2.5:7b"@.subrange(0, 8)[0] != "https://"@[0]);
    assert("qwen2.5:7b"@.subrange(0, 6)[0] != "hf.co/"@[0]);
    assert("qwen2.5:7b"@.subrange(5, 10)[1] != ".gguf"@[1]);
}

proof fn lemma_catalog_name_26()
    ensures
        resolve_spec("qwen2.5:3b"@, lowercase(trim_seq("qwen2.5:3b"@))) == Some(source_view("qwen2.5:3b"@, "Qwen2.5-3B-Instruct-Q4_K_M.gguf"@, "https://huggingface.co/Qwen/Qwen2.5-3B-Instruct-GGUF/resolve/main/qwen2.5-3b-instruct-q4_k_m.gguf"@, "3B"@, "qwen2"@)),
{
    reveal_strlit(".gguf");
    reveal_strlit("deepseek-coder-v2");
    reveal_strlit("deepseek-coder-v2:16b");
    reveal_strlit("deepseek-coder-v2:latest");
    reveal_strlit("deepseek-r1");
    reveal_strlit("deepseek-r1:1.5b");
    reveal_strlit("deepseek-r1:7b");
    reveal_strlit("deepseek-r1:8b");
    reveal_strlit("deepseek-r1:latest");
    reveal_strlit("hf.co/");
    reveal_strlit("http://");
    reveal_strlit("https://");
    reveal_strlit("llama2");
    reveal_strlit("llama2:7b");
    reveal_strlit("llama2:latest");
    reveal_strlit("llama3.1");
    reveal_strlit("llama3.1:8b");
    reveal_strlit("llama3.1:latest");
    reveal_strlit("llama3.2");
    reveal_strlit("llama3.2:1b");
    reveal_strlit("llama3.2:3b");
    reveal_strlit("llama3.2:latest");
    reveal_strlit("ollama.com/library/");
    reveal_strlit("qwen2.5");
    reveal_strlit("qwen2.5-coder");
    reveal_strlit("qwen2.5-coder:1.5b");
    reveal_strlit("qwen2.5-coder:14b");
    reveal_strlit("qwen2.5-coder:7b");
    reveal_strlit("qwen2.5-coder:latest");
    reveal_strlit("qwen2.5:3b");
    reveal_strlit("qwen2.5:7b");
    reveal_strlit("qwen2.5:latest");
    assert("qwen2.5:3b"@[0] != "deepseek-r1"@[0]);
    assert("qwen2.5:3b"@[0] != "deepseek-r1:latest"@[0]);
    assert("qwen2.5:3b"@[0] != "deepseek-r1:7b"@[0]);
    assert("qwen2.5:3b"@[0] != "deepseek-r1:1.5b"@[0]);
    assert("qwen2.5:3b"@[0] != "deepseek-r1:8b"@[0]);
    assert("qwen2.5:3b"@[0] != "deepseek-coder-v2"@[0]);
    assert("qwen2.5:3b"@[0] != "deepseek-coder-v2:latest"@[0]);
    assert("qwen2.5:3b"@[0] != "deepseek-coder-v2:16b"@[0]);
    assert("qwen2.5:3b"@[0] != "llama3.2"@[0]);
    assert("qwen2.5:3b"@[0] != "llama3.2:latest"@[0]);
    assert("qwen2.5:3b"@[0] != "llama3.2:3b"@[0]);
    assert("qwen2.5:3b"@[0] != "llama3.2:1b"@[0]);
    assert("qwen2.5:3b"@[0] != "llama3.1"@[0]);
    assert("qwen2.5:3b"@[0] != "llama3.1:latest"@[0]);
    assert("qwen2.5:3b"@[0] != "llama3.1:8b"@[0]);
    assert("qwen2.5:3b"@[0] != "llama2"@[0]);
    assert("qwen2.5:3b"@[0] != "llama2:latest"@[0]);
    assert("qwen2.5:3b"@[0] != "llama2:7b"@[0]);
    assert("qwen2.5:3b"@[7] != "qwen2.5-coder"@[7]);
    assert("qwen2.5:3b"@[7] != "qwen2.5-coder:latest"@[7]);
    assert("qwen2.5:3b"@[7] != "qwen2.5-coder:7b"@[7]);
    assert("qwen2.5:3b"@[7] != "qwen2.5-coder:1.5b"@[7]);
    assert("qwen2.5:3b"@[7] != "qwen2.5-coder:14b"@[7]);
    assert("qwen2.5:3b"@.len() != "qwen2.5"@.len());
    assert("qwen2.5:3b"@[8] != "qwen2.5:latest"@[8]);
    assert("qwen2.5:3b"@[8] != "qwen2.5:7b"@[8]);
    assert forall|i: int| 0 <= i < "qwen2.5:3b"@.len() implies is_tag_char(#[trigger] "qwen2.5:3b"@[i]) by {
        assert(i == 0 || i == 1 || i == 2 || i == 3 || i == 4 || i == 5 || i == 6 || i == 7 || i == 8 || i == 9);
    }
    lemma_tag_text_is_canonical("qwen2.5:3b"@);
    assert("qwen2.5:3b"@.subrange(0, 7)[0] != "http://"@[0]);
    assert("qwen2.5:3b"@.subrange(0, 8)[0] != "https://"@[0]);
    assert("qwen2.5:3b"@.subrange(0, 6)[0] != "hf.co/"@[0]);
    assert("qwen2.5:3b"@.subrange(5, 10)[1] != ".gguf"@[1]);
}

proof fn lemma_catalog_name_27()
    ensures
        resolve_spec("qwen2.5:0.5b"@, lowercase(trim_seq("qwen2.5:0.5b"@))) == Some(source_view("qwen2.5:0.5b"@, "Qwen2.5-0.5B-Instruct-Q4_K_M.gguf"@, "https://huggingface.co/Qwen/Qwen2.5-0.5B-Instruct-GGUF/resolve/main/qwen2.5-0.5b-instruct-q4_k_m.gguf"@, "0.5B"@, "qwen2"@)),
{
    reveal_strlit(".gguf");
    reveal_strlit("deepseek-coder-v2");
    reveal_strlit("deepseek-coder-v2:16b");
    reveal_strlit("deepseek-coder-v2:latest");
    reveal_strlit("deepseek-r1");
    reveal_strlit("deepseek-r1:1.5b");
    reveal_strlit("deepseek-r1:7b");
    reveal_strlit("deepseek-r1:8b");
    reveal_strlit("deepseek-r1:latest");
    reveal_strlit("hf.co/");
    reveal_strlit("http://");
    reveal_strlit("https://");
    reveal_strlit("llama2");
    reveal_strlit("llama2:7b");
    reveal_strlit("llama2:latest");
    reveal_strlit("llama3.1");
    reveal_strlit("llama3.1:8b");
    reveal_strlit("llama3.1:latest");
    reveal_strlit("llama3.2");
    reveal_strlit("llama3.2:1b");
    reveal_strlit("llama3.2:3b");
    reveal_strlit("llama3.2:latest");
    reveal_strlit("ollama.com/library/");
    reveal_strlit("qwen2.5");
    reveal_strlit("qwen2.5-0.5b");
    reveal_strlit("qwen2.5-0.5b-instruct-q4_k_m");
    reveal_strlit("qwen2.5-0.5b-instruct-q4_k_m:latest");
    reveal_strlit("qwen2.5-coder");
    reveal_strlit("qwen2.5-coder:1.5b");
    reveal_strlit("qwen2.5-coder:14b");
    reveal_strlit("qwen2.5-coder:7b");
    reveal_strlit("qwen2.5-coder:latest");
    reveal_strlit("qwen2.5:0.5b");
    reveal_strlit("qwen2.5:3b");
    reveal_strlit("qwen2.5:7b");
    reveal_strlit("qwen2.5:latest");
    assert("qwen2.5:0.5b"@[0] != "deepseek-r1"@[0]);
    assert("qwen2.5:0.5b"@[0] != "deepseek-r1:latest"@[0]);
    assert("qwen2.5:0.5b"@[0] != "deepseek-r1:7b"@[0]);
    assert("qwen2.5:0.5b"@[0] != "deepseek-r1:1.5b"@[0]);
    assert("qwen2.5:0.5b"@[0] != "deepseek-r1:8b"@[0]);
    assert("qwen2.5:0.5b"@[0] != "deepseek-coder-v2"@[0]);
    assert("qwen2.5:0.5b"@[0] != "deepseek-coder-v2:latest"@[0]);
    assert("qwen2.5:0.5b"@[0] != "deepseek-coder-v2:16b"@[0]);
    assert("qwen2.5:0.5b"@[0] != "llama3.2"@[0]);
    assert("qwen2.5:0.5b"@[0] != "llama3.2:latest"@[0]);
    assert("qwen2.5:0.5b"@[0] != "llama3.2:3b"@[0]);
    assert("qwen2.5:0.5b"@[0] != "llama3.2:1b"@[0]);
    assert("qwen2.5:0.5b"@[0] != "llama3.1"@[0]);
    assert("qwen2.5:0.5b"@[0] != "llama3.1:latest"@[0]);
    assert("qwen2.5:0.5b"@[0] != "llama3.1:8b"@[0]);
    assert("qwen2.5:0.5b"@[0] != "llama2"@[0]);
    assert("qwen2.5:0.5b"@[0] != "llama2:latest"@[0]);
    assert("qwen2.5:0.5b"@[0] != "llama2:7b"@[0]);
    assert("qwen2.5:0.5b"@[7] != "qwen2.5-coder"@[7]);
    assert("qwen2.5:0.5b"@[7] != "qwen2.5-coder:latest"@[7]);
    assert("qwen2.5:0.5b"@[7] != "qwen2.5-coder:7b"@[7]);
    assert("qwen2.5:0.5b"@[7] != "qwen2.5-coder:1.5b"@[7]);
    assert("qwen2.5:0.5b"@[7] != "qwen2.5-coder:14b"@[7]);
    assert("qwen2.5:0.5b"@.len() != "qwen2.5"@.len());
    assert("qwen2.5:0.5b"@[8] != "qwen2.5:latest"@[8]);
    assert("qwen2.5:0.5b"@[8] != "qwen2.5:7b"@[8]);
    assert("qwen2.5:0.5b"@[8] != "qwen2.5:3b"@[8]);
    assert forall|i: int| 0 <= i < "qwen2.5:0.5b"@.len() implies is_tag_char(#[trigger] "qwen2.5:0.5b"@[i]) by {
        assert(i == 0 || i == 1 || i == 2 || i == 3 || i == 4 || i == 5 || i == 6 || i == 7 || i == 8 || i == 9 || i == 10 || i == 11);
    }
    lemma_tag_text_is_canonical("qwen2.5:0.5b"@);
    assert("qwen2.5:0.5b"@.subrange(0, 7)[0] != "http://"@[0]);
    assert("qwen2.5:0.5b"@.subrange(0, 8)[0] != "https://"@[0]);
    assert("qwen2.5:0.5b"@.subrange(0, 6)[0] != "hf.co/"@[0]);
    assert("qwen2.5:0.5b"@.subrange(7, 12)[0] != ".gguf"@[0]);
}

proof fn lemma_catalog_name_28()
    ensures
        resolve_spec("qwen2.5-0.5b"@, lowercase(trim_seq("qwen2.5-0.5b"@))) == Some(source_view("qwen2.5:0.5b"@, "Qwen2.5-0.5B-Instruct-Q4_K_M.gguf"@, "https://huggingface.co/Qwen/Qwen2.5-0.5B-Instruct-GGUF/resolve/main/qwen2.5-0.5b-instruct-q4_k_m.gguf"@, "0.5B"@, "qwen2"@)),
{
    reveal_strlit(".gguf");
    reveal_strlit("deepseek-coder-v2");
    reveal_strlit("deepseek-coder-v2:16b");
    reveal_strlit("deepseek-coder-v2:latest");
    reveal_strlit("deepseek-r1");
    reveal_strlit("deepseek-r1:1.5b");
    reveal_strlit("deepseek-r1:7b");
    reveal_strlit("deepseek-r1:8b");
    reveal_strlit("deepseek-r1:latest");
    reveal_strlit("hf.co/");
    reveal_strlit("http://");
    reveal_strlit("https://");
    reveal_strlit("llama2");
    reveal_strlit("llama2:7b");
    reveal_strlit("llama2:latest");
    reveal_strlit("llama3.1");
    reveal_strlit("llama3.1:8b");
    reveal_strlit("llama3.1:latest");
    reveal_strlit("llama3.2");
    reveal_strlit("llama3.2:1b");
    reveal_strlit("llama3.2:3b");
    reveal_strlit("llama3.2:latest");
    reveal_strlit("ollama.com/library/");
    reveal_strlit("qwen2.5");
    reveal_strlit("qwen2.5-0.5b");
    reveal_strlit("qwen2.5-0.5b-instruct-q4_k_m");
    reveal_strlit("qwen2.5-0.5b-instruct-q4_k_m:latest");
    reveal_strlit("qwen2.5-coder");
    reveal_strlit("qwen2.5-coder:1.5b");
    reveal_strlit("qwen2.5-coder:14b");
    reveal_strlit("qwen2.5-coder:7b");
    reveal_strlit("qwen2.5-coder:latest");
    reveal_strlit("qwen2.5:0.5b");
    reveal_strlit("qwen2.5:3b");
    reveal_strlit("qwen2.5:7b");
    reveal_strlit("qwen2.5:latest");
    assert("qwen2.5-0.5b"@[0] != "deepseek-r1"@[0]);
    assert("qwen2.5-0.5b"@[0] != "deepseek-r1:latest"@[0]);
    assert("qwen2.5-0.5b"@[0] != "deepseek-r1:7b"@[0]);
    assert("qwen2.5-0.5b"@[0] != "deepseek-r1:1.5b"@[0]);
    assert("qwen2.5-0.5b"@[0] != "deepseek-r1:8b"@[0]);
    assert("qwen2.5-0.5b"@[0] != "deepseek-coder-v2"@[0]);
    assert("qwen2.5-0.5b"@[0] != "deepseek-coder-v2:latest"@[0]);
    assert("qwen2.5-0.5b"@[0] != "deepseek-coder-v2:16b"@[0]);
    assert("qwen2.5-0.5b"@[0] != "llama3.2"@[0]);
    assert("qwen2.5-0.5b"@[0] != "llama3.2:latest"@[0]);
    assert("qwen2.5-0.5b"@[0] != "llama3.2:3b"@[0]);
    assert("qwen2.5-0.5b"@[0] != "llama3.2:1b"@[0]);
    assert("qwen2.5-0.5b"@[0] != "llama3.1"@[0]);
    assert("qwen2.5-0.5b"@[0] != "llama3.1:latest"@[0]);
    assert("qwen2.5-0.5b"@[0] != "llama3.1:8b"@[0]);
    assert("qwen2.5-0.5b"@[0] != "llama2"@[0]);
    assert("qwen2.5-0.5b"@[0] != "llama2:latest"@[0]);
    assert("qwen2.5-0.5b"@[0] != "llama2:7b"@[0]);
    assert("qwen2.5-0.5b"@[8] != "qwen2.5-coder"@[8]);
    assert("qwen2.5-0.5b"@[8] != "qwen2.5-coder:latest"@[8]);
    assert("qwen2.5-0.5b"@[8] != "qwen2.5-coder:7b"@[8]);
    assert("qwen2.5-0.5b"@[8] != "qwen2.5-coder:1.5b"@[8]);
    assert("qwen2.5-0.5b"@[8] != "qwen2.5-coder:14b"@[8]);
    assert("qwen2.5-0.5b"@.len() != "qwen2.5"@.len());
    assert("qwen2.5-0.5b"@[7] != "qwen2.5:latest"@[7]);
    assert("qwen2.5-0.5b"@[7] != "qwen2.5:7b"@[7]);
    assert("qwen2.5-0.5b"@[7] != "qwen2.5:3b"@[7]);
    assert forall|i: int| 0 <= i < "qwen2.5-0.5b"@.len() implies is_tag_char(#[trigger] "qwen2.5-0.5b"@[i]) by {
        assert(i == 0 || i == 1 || i == 2 || i == 3 || i == 4 || i == 5 || i == 6 || i == 7 || i == 8 || i == 9 || i == 10 || i == 11);
    }
    lemma_tag_text_is_canonical("qwen2.5-0.5b"@);
    assert("qwen2.5-0.5b"@.subrange(0, 7)[0] != "http://"@[0]);
    assert("qwen2.5-0.5b"@.subrange(0, 8)[0] != "https://"@[0]);
    assert("qwen2.5-0.5b"@.subrange(0, 6)[0] != "hf.co/"@[0]);
    assert("qwen2.5-0.5b"@.subrange(7, 12)[0] != ".gguf"@[0]);
}

proof fn lemma_catalog_name_29()
    ensures
        resolve_spec("qwen2.5-0.5b-instruct-q4_k_m"@, lowercase(trim_seq("qwen2.5-0.5b-instruct-q4_k_m"@))) == Some(source_view("qwen2.5:0.5b"@, "Qwen2.5-0.5B-Instruct-Q4_K_M.gguf"@, "https://huggingface.co/Qwen/Qwen2.5-0.5B-Instruct-GGUF/resolve/main/qwen2.5-0.5b-instruct-q4_k_m.gguf"@, "0.5B"@, "qwen2"@)),
{
    reveal_strlit(".gguf");
    reveal_strlit("deepseek-coder-v2");
    reveal_strlit("deepseek-coder-v2:16b");
    reveal_strlit("deepseek-coder-v2:latest");
    reveal_strlit("deepseek-r1");
    reveal_strlit("deepseek-r1:1.5b");
    reveal_strlit("deepseek-r1:7b");
    reveal_strlit("deepseek-r1:8b");
    reveal_strlit("deepseek-r1:latest");
    reveal_strlit("hf.co/");
    reveal_strlit("http://");
    reveal_strlit("https://");
    reveal_strlit("llama2");
    reveal_strlit("llama2:7b");
    reveal_strlit("llama2:latest");
    reveal_strlit("llama3.1");
    reveal_strlit("llama3.1:8b");
    reveal_strlit("llama3.1:latest");
    reveal_strlit("llama3.2");
    reveal_strlit("llama3.2:1b");
    reveal_strlit("llama3.2:3b");
    reveal_strlit("llama3.2:latest");
    reveal_strlit("ollama.com/library/");
    reveal_strlit("qwen2.5");
    reveal_strlit("qwen2.5-0.5b");
    reveal_strlit("qwen2.5-0.5b-instruct-q4_k_m");
    reveal_strlit("qwen2.5-0.5b-instruct-q4_k_m:latest");
    reveal_strlit("qwen2.5-coder");
    reveal_strlit("qwen2.5-coder:1.5b");
    reveal_strlit("qwen2.5-coder:14b");
    reveal_strlit("qwen2.5-coder:7b");
    reveal_strlit("qwen2.5-coder:latest");
    reveal_strlit("qwen2.5:0.5b");
    reveal_strlit("qwen2.5:3b");
    reveal_strlit("qwen2.5:7b");
    reveal_strlit("qwen2.5:latest");
    assert("qwen2.5-0.5b-instruct-q4_k_m"@[0] != "deepseek-r1"@[0]);
    assert("qwen2.5-0.5b-instruct-q4_k_m"@[0] != "deepseek-r1:latest"@[0]);
    assert("qwen2.5-0.5b-instruct-q4_k_m"@[0] != "deepseek-r1:7b"@[0]);
    assert("qwen2.5-0.5b-instruct-q4_k_m"@[0] != "deepseek-r1:1.5b"@[0]);
    assert("qwen2.5-0.5b-instruct-q4_k_m"@[0] != "deepseek-r1:8b"@[0]);
    assert("qwen2.5-0.5b-instruct-q4_k_m"@[0] != "deepseek-coder-v2"@[0]);
    assert("qwen2.5-0.5b-instruct-q4_k_m"@[0] != "deepseek-coder-v2:latest"@[0]);
    assert("qwen2.5-0.5b-instruct-q4_k_m"@[0] != "deepseek-coder-v2:16b"@[0]);
    assert("qwen2.5-0.5b-instruct-q4_k_m"@[0] != "llama3.2"@[0]);
    assert("qwen2.5-0.5b-instruct-q4_k_m"@[0] != "llama3.2:latest"@[0]);
    assert("qwen2.5-0.5b-instruct-q4_k_m"@[0] != "llama3.2:3b"@[0]);
    assert("qwen2.5-0.5b-instruct-q4_k_m"@[0] != "llama3.2:1b"@[0]);
    assert("qwen2.5-0.5b-instruct-q4_k_m"@[0] != "llama3.1"@[0]);
    assert("qwen2.5-0.5b-instruct-q4_k_m"@[0] != "llama3.1:latest"@[0]);
    assert("qwen2.5-0.5b-instruct-q4_k_m"@[0] != "llama3.1:8b"@[0]);
    assert("qwen2.5-0.5b-instruct-q4_k_m"@[0] != "llama2"@[0]);
    assert("qwen2.5-0.5b-instruct-q4_k_m"@[0] != "llama2:latest"@[0]);
    assert("qwen2.5-0.5b-instruct-q4_k_m"@[0] != "llama2:7b"@[0]);
    assert("qwen2.5-0.5b-instruct-q4_k_m"@[8] != "qwen2.5-coder"@[8]);
    assert("qwen2.5-0.5b-instruct-q4_k_m"@[8] != "qwen2.5-coder:latest"@[8]);
    assert("qwen2.5-0.5b-instruct-q4_k_m"@[8] != "qwen2.5-coder:7b"@[8]);
    assert("qwen2.5-0.5b-instruct-q4_k_m"@[8] != "qwen2.5-coder:1.5b"@[8]);
    assert("qwen2.5-0.5b-instruct-q4_k_m"@[8] != "qwen2.5-coder:14b"@[8]);
    assert("qwen2.5-0.5b-instruct-q4_k_m"@.len() != "qwen2.5"@.len());
    assert("qwen2.5-0.5b-instruct-q4_k_m"@[7] != "qwen2.5:latest"@[7]);
    assert("qwen2.5-0.5b-instruct-q4_k_m"@[7] != "qwen2.5:7b"@[7]);
    assert("qwen2.5-0.5b-instruct-q4_k_m"@[7] != "qwen2.5:3b"@[7]);
    assert forall|i: int| 0 <= i < "qwen2.5-0.5b-instruct-q4_k_m"@.len() implies is_tag_char(#[trigger] "qwen2.5-0.5b-instruct-q4_k_m"@[i]) by {
        assert(i == 0 || i == 1 || i == 2 || i == 3 || i == 4 || i == 5 || i == 6 || i == 7 || i == 8 || i == 9 || i == 10 || i == 11 || i == 12 || i == 13 || i == 14 || i == 15 || i == 16 || i == 17 || i == 18 || i == 19 || i == 20 || i == 21 || i == 22 || i == 23 || i == 24 || i == 25 || i == 26 || i == 27);
    }
    lemma_tag_text_is_canonical("qwen2.5-0.5b-instruct-q4_k_m"@);
    assert("qwen2.5-0.5b-instruct-q4_k_m"@.subrange(0, 7)[0] != "http://"@[0]);
    assert("qwen2.5-0.5b-instruct-q4_k_m"@.subrange(0, 8)[0] != "https://"@[0]);
    assert("qwen2.5-0.5b-instruct-q4_k_m"@.subrange(0, 6)[0] != "hf.co/"@[0]);
    assert("qwen2.5-0.5b-instruct-q4_k_m"@.subrange(0, 19)[0] != "ollama.com/library/"@[0]);
    assert("qwen2.5-0.5b-instruct-q4_k_m"@.subrange(23, 28)[0] != ".gguf"@[0]);
}

proof fn lemma_catalog_name_30()
    ensures
        resolve_spec("qwen2.5-0.5b-instruct-q4_k_m:latest"@, lowercase(trim_seq("qwen2.5-0.5b-instruct-q4_k_m:latest"@))) == Some(source_view("qwen2.5:0.5b"@, "Qwen2.5-0.5B-Instruct-Q4_K_M.gguf"@, "https://huggingface.co/Qwen/Qwen2.5-0.5B-Instruct-GGUF/resolve/main/qwen2.5-0.5b-instruct-q4_k_m.gguf"@, "0.5B"@, "qwen2"@)),
{
    reveal_strlit(".gguf");
    reveal_strlit("deepseek-coder-v2");
    reveal_strlit("deepseek-coder-v2:16b");
    reveal_strlit("deepseek-coder-v2:latest");
    reveal_strlit("deepseek-r1");
    reveal_strlit("deepseek-r1:1.5b");
    reveal_strlit("deepseek-r1:7b");
    reveal_strlit("deepseek-r1:8b");
    reveal_strlit("deepseek-r1:latest");
    reveal_strlit("hf.co/");
    reveal_strlit("http://");
    reveal_strlit("https://");
    reveal_strlit("llama2");
    reveal_strlit("llama2:7b");
    reveal_strlit("llama2:latest");
    reveal_strlit("llama3.1");
    reveal_strlit("llama3.1:8b");
    reveal_strlit("llama3.1:latest");
    reveal_strlit("llama3.2");
    reveal_strlit("llama3.2:1b");
    reveal_strlit("llama3.2:3b");
    reveal_strlit("llama3.2:latest");
    reveal_strlit("ollama.com/library/");
    reveal_strlit("qwen2.5");
    reveal_strlit("qwen2.5-0.5b");
    reveal_strlit("qwen2.5-0.5b-instruct-q4_k_m");
    reveal_strlit("qwen2.5-0.5b-instruct-q4_k_m:latest");
    reveal_strlit("qwen2.5-coder");
    reveal_strlit("qwen2.5-coder:1.5b");
    reveal_strlit("qwen2.5-coder:14b");
    reveal_strlit("qwen2.5-coder:7b");
    reveal_strlit("qwen2.5-coder:latest");
    reveal_strlit("qwen2.5:0.5b");
    reveal_strlit("qwen2.5:3b");
    reveal_strlit("qwen2.5:7b");
    reveal_strlit("qwen2.5:latest");
    assert("qwen2.5-0.5b-instruct-q4_k_m:latest"@[0] != "deepseek-r1"@[0]);
    assert("qwen2.5-0.5b-instruct-q4_k_m:latest"@[0] != "deepseek-r1:latest"@[0]);
    assert("qwen2.5-0.5b-instruct-q4_k_m:latest"@[0] != "deepseek-r1:7b"@[0]);
    assert("qwen2.5-0.5b-instruct-q4_k_m:latest"@[0] != "deepseek-r1:1.5b"@[0]);
    assert("qwen2.5-0.5b-instruct-q4_k_m:latest"@[0] != "deepseek-r1:8b"@[0]);
    assert("qwen2.5-0.5b-instruct-q4_k_m:latest"@[0] != "deepseek-coder-v2"@[0]);
    assert("qwen2.5-0.5b-instruct-q4_k_m:latest"@[0] != "deepseek-coder-v2:latest"@[0]);
    assert("qwen2.5-0.5b-instruct-q4_k_m:latest"@[0] != "deepseek-coder-v2:16b"@[0]);
    assert("qwen2.5-0.5b-instruct-q4_k_m:latest"@[0] != "llama3.2"@[0]);
    assert("qwen2.5-0.5b-instruct-q4_k_m:latest"@[0] != "llama3.2:latest"@[0]);
    assert("qwen2.5-0.5b-instruct-q4_k_m:latest"@[0] != "llama3.2:3b"@[0]);
    assert("qwen2.5-0.5b-instruct-q4_k_m:latest"@[0] != "llama3.2:1b"@[0]);
    assert("qwen2.5-0.5b-instruct-q4_k_m:latest"@[0] != "llama3.1"@[0]);
    assert("qwen2.5-0.5b-instruct-q4_k_m:latest"@[0] != "llama3.1:latest"@[0]);
    assert("qwen2.5-0.5b-instruct-q4_k_m:latest"@[0] != "llama3.1:8b"@[0]);
    assert("qwen2.5-0.5b-instruct-q4_k_m:latest"@[0] != "llama2"@[0]);
    assert("qwen2.5-0.5b-instruct-q4_k_m:latest"@[0] != "llama2:latest"@[0]);
    assert("qwen2.5-0.5b-instruct-q4_k_m:latest"@[0] != "llama2:7b"@[0]);
    assert("qwen2.5-0.5b-instruct-q4_k_m:latest"@[8] != "qwen2.5-coder"@[8]);
    assert("qwen2.5-0.5b-instruct-q4_k_m:latest"@[8] != "qwen2.5-coder:latest"@[8]);
    assert("qwen2.5-0.5b-instruct-q4_k_m:latest"@[8] != "qwen2.5-coder:7b"@[8]);
    assert("qwen2.5-0.5b-instruct-q4_k_m:latest"@[8] != "qwen2.5-coder:1.5b"@[8]);
    assert("qwen2.5-0.5b-instruct-q4_k_m:latest"@[8] != "qwen2.5-coder:14b"@[8]);
    assert("qwen2.5-0.5b-instruct-q4_k_m:latest"@.len() != "qwen2.5"@.len());
    assert("qwen2.5-0.5b-instruct-q4_k_m:latest"@[7] != "qwen2.5:latest"@[7]);
    assert("qwen2.5-0.5b-instruct-q4_k_m:latest"@[7] != "qwen2.5:7b"@[7]);
    assert("qwen2.5-0.5b-instruct-q4_k_m:latest"@[7] != "qwen2.5:3b"@[7]);
    assert forall|i: int| 0 <= i < "qwen2.5-0.5b-instruct-q4_k_m:latest"@.len() implies is_tag_char(#[trigger] "qwen2.5-0.5b-instruct-q4_k_m:latest"@[i]) by {
        assert(i == 0 || i == 1 || i == 2 || i == 3 || i == 4 || i == 5 || i == 6 || i == 7 || i == 8 || i == 9 || i == 10 || i == 11 || i == 12 || i == 13 || i == 14 || i == 15 || i == 16 || i == 17 || i == 18 || i == 19 || i == 20 || i == 21 || i == 22 || i == 23 || i == 24 || i == 25 || i == 26 || i == 27 || i == 28 || i == 29 || i == 30 || i == 31 || i == 32 || i == 33 || i == 34);
    }
    lemma_tag_text_is_canonical("qwen2.5-0.5b-instruct-q4_k_m:latest"@);
    assert("qwen2.5-0.5b-instruct-q4_k_m:latest"@.subrange(0, 7)[0] != "http://"@[0]);
    assert("qwen2.5-0.5b-instruct-q4_k_m:latest"@.subrange(0, 8)[0] != "https://"@[0]);
    assert("qwen2.5-0.5b-instruct-q4_k_m:latest"@.subrange(0, 6)[0] != "hf.co/"@[0]);
    assert("qwen2.5-0.5b-instruct-q4_k_m:latest"@.subrange(0, 19)[0] != "ollama.com/library/"@[0]);
    assert("qwen2.5-0.5b-instruct-q4_k_m:latest"@.subrange(30, 35)[0] != ".gguf"@[0]);
}

proof fn lemma_catalog_name_31()
    ensures
        resolve_spec("mistral"@, lowercase(trim_seq("mistral"@))) == Some(source_view("mistral:7b"@, "Mistral-7B-Instruct-v0.3-Q4_K_M.gguf"@, "https://huggingface.co/bartowski/Mistral-7B-Instruct-v0.3-GGUF/resolve/main/Mistral-7B-Instruct-v0.3-Q4_K_M.gguf"@, "7B"@, "mistral"@)),
{
    reveal_strlit(".gguf");
    reveal_strlit("deepseek-coder-v2");
    reveal_strlit("deepseek-coder-v2:16b");
    reveal_strlit("deepseek-coder-v2:latest");
    reveal_strlit("deepseek-r1");
    reveal_strlit("deepseek-r1:1.5b");
    reveal_strlit("deepseek-r1:7b");
    reveal_strlit("deepseek-r1:8b");
    reveal_strlit("deepseek-r1:latest");
    reveal_strlit("hf.co/");
    reveal_strlit("http://");
    reveal_strlit("https://");
    reveal_strlit("llama2");
    reveal_strlit("llama2:7b");
    reveal_strlit("llama2:latest");
    reveal_strlit("llama3.1");
    reveal_strlit("llama3.1:8b");
    reveal_strlit("llama3.1:latest");
    reveal_strlit("llama3.2");
    reveal_strlit("llama3.2:1b");
    reveal_strlit("llama3.2:3b");
    reveal_strlit("llama3.2:latest");
    reveal_strlit("mistral");
    reveal_strlit("mistral:7b");
    reveal_strlit("mistral:latest");
    reveal_strlit("ollama.com/library/");
    reveal_strlit("qwen2.5");
    reveal_strlit("qwen2.5-0.5b");
    reveal_strlit("qwen2.5-0.5b-instruct-q4_k_m");
    reveal_strlit("qwen2.5-0.5b-instruct-q4_k_m:latest");
    reveal_strlit("qwen2.5-coder");
    reveal_strlit("qwen2.5-coder:1.5b");
    reveal_strlit("qwen2.5-coder:14b");
    reveal_strlit("qwen2.5-coder:7b");
    reveal_strlit("qwen2.5-coder:latest");
    reveal_strlit("qwen2.5:0.5b");
    reveal_strlit("qwen2.5:3b");
    reveal_strlit("qwen2.5:7b");
    reveal_strlit("qwen2.5:latest");
    assert("mistral"@[0] != "deepseek-r1"@[0]);
    assert("mistral"@[0] != "deepseek-r1:latest"@[0]);
    assert("mistral"@[0] != "deepseek-r1:7b"@[0]);
    assert("mistral"@[0] != "deepseek-r1:1.5b"@[0]);
    assert("mistral"@[0] != "deepseek-r1:8b"@[0]);
    assert("mistral"@[0] != "deepseek-coder-v2"@[0]);
    assert("mistral"@[0] != "deepseek-coder-v2:latest"@[0]);
    assert("mistral"@[0] != "deepseek-coder-v2:16b"@[0]);
    assert("mistral"@[0] != "llama3.2"@[0]);
    assert("mistral"@[0] != "llama3.2:latest"@[0]);
    assert("mistral"@[0] != "llama3.2:3b"@[0]);
    assert("mistral"@[0] != "llama3.2:1b"@[0]);
    assert("mistral"@[0] != "llama3.1"@[0]);
    assert("mistral"@[0] != "llama3.1:latest"@[0]);
    assert("mistral"@[0] != "llama3.1:8b"@[0]);
    assert("mistral"@[0] != "llama2"@[0]);
    assert("mistral"@[0] != "llama2:latest"@[0]);
    assert("mistral"@[0] != "llama2:7b"@[0]);
    assert("mistral"@[0] != "qwen2.5-coder"@[0]);
    assert("mistral"@[0] != "qwen2.5-coder:latest"@[0]);
    assert("mistral"@[0] != "qwen2.5-coder:7b"@[0]);
    assert("mistral"@[0] != "qwen2.5-coder:1.5b"@[0]);
    assert("mistral"@[0] != "qwen2.5-coder:14b"@[0]);
    assert("mistral"@[0] != "qwen2.5"@[0]);
    assert("mistral"@[0] != "qwen2.5:latest"@[0]);
    assert("mistral"@[0] != "qwen2.5:7b"@[0]);
    assert("mistral"@[0] != "qwen2.5:3b"@[0]);
    assert("mistral"@[0] != "qwen2.5:0.5b"@[0]);
    assert("mistral"@[0] != "qwen2.5-0.5b"@[0]);
    assert("mistral"@[0] != "qwen2.5-0.5b-instruct-q4_k_m"@[0]);
    assert("mistral"@[0] != "qwen2.5-0.5b-instruct-q4_k_m:latest"@[0]);
    assert forall|i: int| 0 <= i < "mistral"@.len() implies is_tag_char(#[trigger] "mistral"@[i]) by {
        assert(i == 0 || i == 1 || i == 2 || i == 3 || i == 4 || i == 5 || i == 6);
    }
    lemma_tag_text_is_canonical("mistral"@);
    assert("mistral"@.subrange(0, 7)[0] != "http://"@[0]);
    assert("mistral"@.subrange(0, 6)[0] != "hf.co/"@[0]);
    assert("mistral"@.subrange(2, 7)[0] != ".gguf"@[0]);
}

proof fn lemma_catalog_name_32()
    ensures
        resolve_spec("mistral:latest"@, lowercase(trim_seq("mistral:latest"@))) == Some(source_view("mistral:7b"@, "Mistral-7B-Instruct-v0.3-Q4_K_M.gguf"@, "https://huggingface.co/bartowski/Mistral-7B-Instruct-v0.3-GGUF/resolve/main/Mistral-7B-Instruct-v0.3-Q4_K_M.gguf"@, "7B"@, "mistral"@)),
{
    reveal_strlit(".gguf");
    reveal_strlit("deepseek-coder-v2");
    reveal_strlit("deepseek-coder-v2:16b");
    reveal_strlit("deepseek-coder-v2:latest");
    reveal_strlit("deepseek-r1");
    reveal_strlit("deepseek-r1:1.5b");
    reveal_strlit("deepseek-r1:7b");
    reveal_strlit("deepseek-r1:8b");
    reveal_strlit("deepseek-r1:latest");
    reveal_strlit("hf.co/");
    reveal_strlit("http://");
    reveal_strlit("https://");
    reveal_strlit("llama2");
    reveal_strlit("llama2:7b");
    reveal_strlit("llama2:latest");
    reveal_strlit("llama3.1");
    reveal_strlit("llama3.1:8b");
    reveal_strlit("llama3.1:latest");
    reveal_strlit("llama3.2");
    reveal_strlit("llama3.2:1b");
    reveal_strlit("llama3.2:3b");
    reveal_strlit("llama3.2:latest");
    reveal_strlit("mistral");
    reveal_strlit("mistral:7b");
    reveal_strlit("mistral:latest");
    reveal_strlit("ollama.com/library/");
    reveal_strlit("qwen2.5");
    reveal_strlit("qwen2.5-0.5b");
    reveal_strlit("qwen2.5-0.5b-instruct-q4_k_m");
    reveal_strlit("qwen2.5-0.5b-instruct-q4_k_m:latest");
    reveal_strlit("qwen2.5-coder");
    reveal_strlit("qwen2.5-coder:1.5b");
    reveal_strlit("qwen2.5-coder:14b");
    reveal_strlit("qwen2.5-coder:7b");
    reveal_strlit("qwen2.5-coder:latest");
    reveal_strlit("qwen2.5:0.5b");
    reveal_strlit("qwen2.5:3b");
    reveal_strlit("qwen2.5:7b");
    reveal_strlit("qwen2.5:latest");
    assert("mistral:latest"@[0] != "deepseek-r1"@[0]);
    assert("mistral:latest"@[0] != "deepseek-r1:latest"@[0]);
    assert("mistral:latest"@[0] != "deepseek-r1:7b"@[0]);
    assert("mistral:latest"@[0] != "deepseek-r1:1.5b"@[0]);
    assert("mistral:latest"@[0] != "deepseek-r1:8b"@[0]);
    assert("mistral:latest"@[0] != "deepseek-coder-v2"@[0]);
    assert("mistral:latest"@[0] != "deepseek-coder-v2:latest"@[0]);
    assert("mistral:latest"@[0] != "deepseek-coder-v2:16b"@[0]);
    assert("mistral:latest"@[0] != "llama3.2"@[0]);
    assert("mistral:latest"@[0] != "llama3.2:latest"@[0]);
    assert("mistral:latest"@[0] != "llama3.2:3b"@[0]);
    assert("mistral:latest"@[0] != "llama3.2:1b"@[0]);
    assert("mistral:latest"@[0] != "llama3.1"@[0]);
    assert("mistral:latest"@[0] != "llama3.1:latest"@[0]);
    assert("mistral:latest"@[0] != "llama3.1:8b"@[0]);
    assert("mistral:latest"@[0] != "llama2"@[0]);
    assert("mistral:latest"@[0] != "llama2:latest"@[0]);
    assert("mistral:latest"@[0] != "llama2:7b"@[0]);
    assert("mistral:latest"@[0] != "qwen2.5-coder"@[0]);
    assert("mistral:latest"@[0] != "qwen2.5-coder:latest"@[0]);
    assert("mistral:latest"@[0] != "qwen2.5-coder:7b"@[0]);
    assert("mistral:latest"@[0] != "qwen2.5-coder:1.5b"@[0]);
    assert("mistral:latest"@[0] != "qwen2.5-coder:14b"@[0]);
    assert("mistral:latest"@[0] != "qwen2.5"@[0]);
    assert("mistral:latest"@[0] != "qwen2.5:latest"@[0]);
    assert("mistral:latest"@[0] != "qwen2.5:7b"@[0]);
    assert("mistral:latest"@[0] != "qwen2.5:3b"@[0]);
    assert("mistral:latest"@[0] != "qwen2.5:0.5b"@[0]);
    assert("mistral:latest"@[0] != "qwen2.5-0.5b"@[0]);
    assert("mistral:latest"@[0] != "qwen2.5-0.5b-instruct-q4_k_m"@[0]);
    assert("mistral:latest"@[0] != "qwen2.5-0.5b-instruct-q4_k_m:latest"@[0]);
    assert forall|i: int| 0 <= i < "mistral:latest"@.len() implies is_tag_char(#[trigger] "mistral:latest"@[i]) by {
        assert(i == 0 || i == 1 || i == 2 || i == 3 || i == 4 || i == 5 || i == 6 || i == 7 || i == 8 || i == 9 || i == 10 || i == 11 || i == 12 || i == 13);
    }
    lemma_tag_text_is_canonical("mistral:latest"@);
    assert("mistral:latest"@.subrange(0, 7)[0] != "http://"@[0]);
    assert("mistral:latest"@.subrange(0, 8)[0] != "https://"@[0]);
    assert("mistral:latest"@.subrange(0, 6)[0] != "hf.co/"@[0]);
    assert("mistral:latest"@.subrange(9, 14)[0] != ".gguf"@[0]);
}

proof fn lemma_catalog_name_33()
    ensures
        resolve_spec("mistral:7b"@, lowercase(trim_seq("mistral:7b"@))) == Some(source_view("mistral:7b"@, "Mistral-7B-Instruct-v0.3-Q4_K_M.gguf"@, "https://huggingface.co/bartowski/Mistral-7B-Instruct-v0.3-GGUF/resolve/main/Mistral-7B-Instruct-v0.3-Q4_K_M.gguf"@, "7B"@, "mistral"@)),
{
    reveal_strlit(".gguf");
    reveal_strlit("deepseek-coder-v2");
    reveal_strlit("deepseek-coder-v2:16b");
    reveal_strlit("deepseek-coder-v2:latest");
    reveal_strlit("deepseek-r1");
    reveal_strlit("deepseek-r1:1.5b");
    reveal_strlit("deepseek-r1:7b");
    reveal_strlit("deepseek-r1:8b");
    reveal_strlit("deepseek-r1:latest");
    reveal_strlit("hf.co/");
    reveal_strlit("http://");
    reveal_strlit("https://");
    reveal_strlit("llama2");
    reveal_strlit("llama2:7b");
    reveal_strlit("llama2:latest");
    reveal_strlit("llama3.1");
    reveal_strlit("llama3.1:8b");
    reveal_strlit("llama3.1:latest");
    reveal_strlit("llama3.2");
    reveal_strlit("llama3.2:1b");
    reveal_strlit("llama3.2:3b");
    reveal_strlit("llama3.2:latest");
    reveal_strlit("mistral");
    reveal_strlit("mistral:7b");
    reveal_strlit("mistral:latest");
    reveal_strlit("ollama.com/library/");
    reveal_strlit("qwen2.5");
    reveal_strlit("qwen2.5-0.5b");
    reveal_strlit("qwen2.5-0.5b-instruct-q4_k_m");
    reveal_strlit("qwen2.5-0.5b-instruct-q4_k_m:latest");
    reveal_strlit("qwen2.5-coder");
    reveal_strlit("qwen2.5-coder:1.5b");
    reveal_strlit("qwen2.5-coder:14b");
    reveal_strlit("qwen2.5-coder:7b");
    reveal_strlit("qwen2.5-coder:latest");
    reveal_strlit("qwen2.5:0.5b");
    reveal_strlit("qwen2.5:3b");
    reveal_strlit("qwen2.5:7b");
    reveal_strlit("qwen2.5:latest");
    assert("mistral:7b"@[0] != "deepseek-r1"@[0]);
    assert("mistral:7b"@[0] != "deepseek-r1:latest"@[0]);
    assert("mistral:7b"@[0] != "deepseek-r1:7b"@[0]);
    assert("mistral:7b"@[0] != "deepseek-r1:1.5b"@[0]);
    assert("mistral:7b"@[0] != "deepseek-r1:8b"@[0]);
    assert("mistral:7b"@[0] != "deepseek-coder-v2"@[0]);
    assert("mistral:7b"@[0] != "deepseek-coder-v2:latest"@[0]);
    assert("mistral:7b"@[0] != "deepseek-coder-v2:16b"@[0]);
    assert("mistral:7b"@[0] != "llama3.2"@[0]);
    assert("mistral:7b"@[0] != "llama3.2:latest"@[0]);
    assert("mistral:7b"@[0] != "llama3.2:3b"@[0]);
    assert("mistral:7b"@[0] != "llama3.2:1b"@[0]);
    assert("mistral:7b"@[0] != "llama3.1"@[0]);
    assert("mistral:7b"@[0] != "llama3.1:latest"@[0]);
    assert("mistral:7b"@[0] != "llama3.1:8b"@[0]);
    assert("mistral:7b"@[0] != "llama2"@[0]);
    assert("mistral:7b"@[0] != "llama2:latest"@[0]);
    assert("mistral:7b"@[0] != "llama2:7b"@[0]);
    assert("mistral:7b"@[0] != "qwen2.5-coder"@[0]);
    assert("mistral:7b"@[0] != "qwen2.5-coder:latest"@[0]);
    assert("mistral:7b"@[0] != "qwen2.5-coder:7b"@[0]);
    assert("mistral:7b"@[0] != "qwen2.5-coder:1.5b"@[0]);
    assert("mistral:7b"@[0] != "qwen2.5-coder:14b"@[0]);
    assert("mistral:7b"@[0] != "qwen2.5"@[0]);
    assert("mistral:7b"@[0] != "qwen2.5:latest"@[0]);
    assert("mistral:7b"@[0] != "qwen2.5:7b"@[0]);
    assert("mistral:7b"@[0] != "qwen2.5:3b"@[0]);
    assert("mistral:7b"@[0] != "qwen2.5:0.5b"@[0]);
    assert("mistral:7b"@[0] != "qwen2.5-0.5b"@[0]);
    assert("mistral:7b"@[0] != "qwen2.5-0.5b-instruct-q4_k_m"@[0]);
    assert("mistral:7b"@[0] != "qwen2.5-0.5b-instruct-q4_k_m:latest"@[0]);
    assert forall|i: int| 0 <= i < "mistral:7b"@.len() implies is_tag_char(#[trigger] "mistral:7b"@[i]) by {
        assert(i == 0 || i == 1 || i == 2 || i == 3 || i == 4 || i == 5 || i == 6 || i == 7 || i == 8 || i == 9);
    }
    lemma_tag_text_is_canonical("mistral:7b"@);
    assert("mistral:7b"@.subrange(0, 7)[0] != "http://"@[0]);
    assert("mistral:7b"@.subrange(0, 8)[0] != "https://"@[0]);
    assert("mistral:7b"@.subrange(0, 6)[0] != "hf.co/"@[0]);
    assert("mistral:7b"@.subrange(5, 10)[0] != ".gguf"@[0]);
}

proof fn lemma_catalog_name_34()
    ensures
        resolve_spec("mistral-nemo"@, lowercase(trim_seq("mistral-nemo"@))) == Some(source_view("mistral-nemo:12b"@, "Mistral-Nemo-Instruct-2407-Q4_K_M.gguf"@, "https://huggingface.co/bartowski/Mistral-Nemo-Instruct-2407-GGUF/resolve/main/Mistral-Nemo-Instruct-2407-Q4_K_M.gguf"@, "12B"@, "mistral"@)),
{
    reveal_strlit(".gguf");
    reveal_strlit("deepseek-coder-v2");
    reveal_strlit("deepseek-coder-v2:16b");
    reveal_strlit("deepseek-coder-v2:latest");
    reveal_strlit("deepseek-r1");
    reveal_strlit("deepseek-r1:1.5b");
    reveal_strlit("deepseek-r1:7b");
    reveal_strlit("deepseek-r1:8b");
    reveal_strlit("deepseek-r1:latest");
    reveal_strlit("hf.co/");
    reveal_strlit("http://");
    reveal_strlit("https://");
    reveal_strlit("llama2");
    reveal_strlit("llama2:7b");
    reveal_strlit("llama2:latest");
    reveal_strlit("llama3.1");
    reveal_strlit("llama3.1:8b");
    reveal_strlit("llama3.1:latest");
    reveal_strlit("llama3.2");
    reveal_strlit("llama3.2:1b");
    reveal_strlit("llama3.2:3b");
    reveal_strlit("llama3.2:latest");
    reveal_strlit("mistral");
    reveal_strlit("mistral-nemo");
    reveal_strlit("mistral-nemo:12b");
    reveal_strlit("mistral-nemo:latest");
    reveal_strlit("mistral:7b");
    reveal_strlit("mistral:latest");
    reveal_strlit("ollama.com/library/");
    reveal_strlit("qwen2.5");
    reveal_strlit("qwen2.5-0.5b");
    reveal_strlit("qwen2.5-0.5b-instruct-q4_k_m");
    reveal_strlit("qwen2.5-0.5b-instruct-q4_k_m:latest");
    reveal_strlit("qwen2.5-coder");
    reveal_strlit("qwen2.5-coder:1.5b");
    reveal_strlit("qwen2.5-coder:14b");
    reveal_strlit("qwen2.5-coder:7b");
    reveal_strlit("qwen2.5-coder:latest");
    reveal_strlit("qwen2.5:0.5b");
    reveal_strlit("qwen2.5:3b");
    reveal_strlit("qwen2.5:7b");
    reveal_strlit("qwen2.5:latest");
    assert("mistral-nemo"@[0] != "deepseek-r1"@[0]);
    assert("mistral-nemo"@[0] != "deepseek-r1:latest"@[0]);
    assert("mistral-nemo"@[0] != "deepseek-r1:7b"@[0]);
    assert("mistral-nemo"@[0] != "deepseek-r1:1.5b"@[0]);
    assert("mistral-nemo"@[0] != "deepseek-r1:8b"@[0]);
    assert("mistral-nemo"@[0] != "deepseek-coder-v2"@[0]);
    assert("mistral-nemo"@[0] != "deepseek-coder-v2:latest"@[0]);
    assert("mistral-nemo"@[0] != "deepseek-coder-v2:16b"@[0]);
    assert("mistral-nemo"@[0] != "llama3.2"@[0]);
    assert("mistral-nemo"@[0] != "llama3.2:latest"@[0]);
    assert("mistral-nemo"@[0] != "llama3.2:3b"@[0]);
    assert("mistral-nemo"@[0] != "llama3.2:1b"@[0]);
    assert("mistral-nemo"@[0] != "llama3.1"@[0]);
    assert("mistral-nemo"@[0] != "llama3.1:latest"@[0]);
    assert("mistral-nemo"@[0] != "llama3.1:8b"@[0]);
    assert("mistral-nemo"@[0] != "llama2"@[0]);
    assert("mistral-nemo"@[0] != "llama2:latest"@[0]);
    assert("mistral-nemo"@[0] != "llama2:7b"@[0]);
    assert("mistral-nemo"@[0] != "qwen2.5-coder"@[0]);
    assert("mistral-nemo"@[0] != "qwen2.5-coder:latest"@[0]);
    assert("mistral-nemo"@[0] != "qwen2.5-coder:7b"@[0]);
    assert("mistral-nemo"@[0] != "qwen2.5-coder:1.5b"@[0]);
    assert("mistral-nemo"@[0] != "qwen2.5-coder:14b"@[0]);
    assert("mistral-nemo"@[0] != "qwen2.5"@[0]);
    assert("mistral-nemo"@[0] != "qwen2.5:latest"@[0]);
    assert("mistral-nemo"@[0] != "qwen2.5:7b"@[0]);
    assert("mistral-nemo"@[0] != "qwen2.5:3b"@[0]);
    assert("mistral-nemo"@[0] != "qwen2.5:0.5b"@[0]);
    assert("mistral-nemo"@[0] != "qwen2.5-0.5b"@[0]);
    assert("mistral-nemo"@[0] != "qwen2.5-0.5b-instruct-q4_k_m"@[0]);
    assert("mistral-nemo"@[0] != "qwen2.5-0.5b-instruct-q4_k_m:latest"@[0]);
    assert("mistral-nemo"@.len() != "mistral"@.len());
    assert("mistral-nemo"@[7] != "mistral:latest"@[7]);
    assert("mistral-nemo"@[7] != "mistral:7b"@[7]);
    assert forall|i: int| 0 <= i < "mistral-nemo"@.len() implies is_tag_char(#[trigger] "mistral-nemo"@[i]) by {
        assert(i == 0 || i == 1 || i == 2 || i == 3 || i == 4 || i == 5 || i == 6 || i == 7 || i == 8 || i == 9 || i == 10 || i == 11);
    }
    lemma_tag_text_is_canonical("mistral-nemo"@);
    assert("mistral-nemo"@.subrange(0, 7)[0] != "http://"@[0]);
    assert("mistral-nemo"@.subrange(0, 8)[0] != "https://"@[0]);
    assert("mistral-nemo"@.subrange(0, 6)[0] != "hf.co/"@[0]);
    assert("mistral-nemo"@.subrange(7, 12)[0] != ".gguf"@[0]);
}

proof fn lemma_catalog_name_35()
    ensures
        resolve_spec("mistral-nemo:latest"@, lowercase(trim_seq("mistral-nemo:latest"@))) == Some(source_view("mistral-nemo:12b"@, "Mistral-Nemo-Instruct-2407-Q4_K_M.gguf"@, "https://huggingface.co/bartowski/Mistral-Nemo-Instruct-2407-GGUF/resolve/main/Mistral-Nemo-Instruct-2407-Q4_K_M.gguf"@, "12B"@, "mistral"@)),
{
    reveal_strlit(".gguf");
    reveal_strlit("deepseek-coder-v2");
    reveal_strlit("deepseek-coder-v2:16b");
    reveal_strlit("deepseek-coder-v2:latest");
    reveal_strlit("deepseek-r1");
    reveal_strlit("deepseek-r1:1.5b");
    reveal_strlit("deepseek-r1:7b");
    reveal_strlit("deepseek-r1:8b");
    reveal_strlit("deepseek-r1:latest");
    reveal_strlit("hf.co/");
    reveal_strlit("http://");
    reveal_strlit("https://");
    reveal_strlit("llama2");
    reveal_strlit("llama2:7b");
    reveal_strlit("llama2:latest");
    reveal_strlit("llama3.1");
    reveal_strlit("llama3.1:8b");
    reveal_strlit("llama3.1:latest");
    reveal_strlit("llama3.2");
    reveal_strlit("llama3.2:1b");
    reveal_strlit("llama3.2:3b");
    reveal_strlit("llama3.2:latest");
    reveal_strlit("mistral");
    reveal_strlit("mistral-nemo");
    reveal_strlit("mistral-nemo:12b");
    reveal_strlit("mistral-nemo:latest");
    reveal_strlit("mistral:7b");
    reveal_strlit("mistral:latest");
    reveal_strlit("ollama.com/library/");
    reveal_strlit("qwen2.5");
    reveal_strlit("qwen2.5-0.5b");
    reveal_strlit("qwen2.5-0.5b-instruct-q4_k_m");
    reveal_strlit("qwen2.5-0.5b-instruct-q4_k_m:latest");
    reveal_strlit("qwen2.5-coder");
    reveal_strlit("qwen2.5-coder:1.5b");
    reveal_strlit("qwen2.5-coder:14b");
    reveal_strlit("qwen2.5-coder:7b");
    reveal_strlit("qwen2.5-coder:latest");
    reveal_strlit("qwen2.5:0.5b");
    reveal_strlit("qwen2.5:3b");
    reveal_strlit("qwen2.5:7b");
    reveal_strlit("qwen2.5:latest");
    assert("mistral-nemo:latest"@[0] != "deepseek-r1"@[0]);
    assert("mistral-nemo:latest"@[0] != "deepseek-r1:latest"@[0]);
    assert("mistral-nemo:latest"@[0] != "deepseek-r1:7b"@[0]);
    assert("mistral-nemo:latest"@[0] != "deepseek-r1:1.5b"@[0]);
    assert("mistral-nemo:latest"@[0] != "deepseek-r1:8b"@[0]);
    assert("mistral-nemo:latest"@[0] != "deepseek-coder-v2"@[0]);
    assert("mistral-nemo:latest"@[0] != "deepseek-coder-v2:latest"@[0]);
    assert("mistral-nemo:latest"@[0] != "deepseek-coder-v2:16b"@[0]);
    assert("mistral-nemo:latest"@[0] != "llama3.2"@[0]);
    assert("mistral-nemo:latest"@[0] != "llama3.2:latest"@[0]);
    assert("mistral-nemo:latest"@[0] != "llama3.2:3b"@[0]);
    assert("mistral-nemo:latest"@[0] != "llama3.2:1b"@[0]);
    assert("mistral-nemo:latest"@[0] != "llama3.1"@[0]);
    assert("mistral-nemo:latest"@[0] != "llama3.1:latest"@[0]);
    assert("mistral-nemo:latest"@[0] != "llama3.1:8b"@[0]);
    assert("mistral-nemo:latest"@[0] != "llama2"@[0]);
    assert("mistral-nemo:latest"@[0] != "llama2:latest"@[0]);
    assert("mistral-nemo:latest"@[0] != "llama2:7b"@[0]);
    assert("mistral-nemo:latest"@[0] != "qwen2.5-coder"@[0]);
    assert("mistral-nemo:latest"@[0] != "qwen2.5-coder:latest"@[0]);
    assert("mistral-nemo:latest"@[0] != "qwen2.5-coder:7b"@[0]);
    assert("mistral-nemo:latest"@[0] != "qwen2.5-coder:1.5b"@[0]);
    assert("mistral-nemo:latest"@[0] != "qwen2.5-coder:14b"@[0]);
    assert("mistral-nemo:latest"@[0] != "qwen2.5"@[0]);
    assert("mistral-nemo:latest"@[0] != "qwen2.5:latest"@[0]);
    assert("mistral-nemo:latest"@[0] != "qwen2.5:7b"@[0]);
    assert("mistral-nemo:latest"@[0] != "qwen2.5:3b"@[0]);
    assert("mistral-nemo:latest"@[0] != "qwen2.5:0.5b"@[0]);
    assert("mistral-nemo:latest"@[0] != "qwen2.5-0.5b"@[0]);
    assert("mistral-nemo:latest"@[0] != "qwen2.5-0.5b-instruct-q4_k_m"@[0]);
    assert("mistral-nemo:latest"@[0] != "qwen2.5-0.5b-instruct-q4_k_m:latest"@[0]);
    assert("mistral-nemo:latest"@.len() != "mistral"@.len());
    assert("mistral-nemo:latest"@[7] != "mistral:latest"@[7]);
    assert("mistral-nemo:latest"@[7] != "mistral:7b"@[7]);
    assert forall|i: int| 0 <= i < "mistral-nemo:latest"@.len() implies is_tag_char(#[trigger] "mistral-nemo:latest"@[i]) by {
        assert(i == 0 || i == 1 || i == 2 || i == 3 || i == 4 || i == 5 || i == 6 || i == 7 || i == 8 || i == 9 || i == 10 || i == 11 || i == 12 || i == 13 || i == 14 || i == 15 || i == 16 || i == 17 || i == 18);
    }
    lemma_tag_text_is_canonical("mistral-nemo:latest"@);
    assert("mistral-nemo:latest"@.subrange(0, 7)[0] != "http://"@[0]);
    assert("mistral-nemo:latest"@.subrange(0, 8)[0] != "https://"@[0]);
    assert("mistral-nemo:latest"@.subrange(0, 6)[0] != "hf.co/"@[0]);
    assert("mistral-nemo:latest"@.subrange(0, 19)[0] != "ollama.com/library/"@[0]);
    assert("mistral-nemo:latest"@.subrange(14, 19)[0] != ".gguf"@[0]);
}

proof fn lemma_catalog_name_36()
    ensures
        resolve_spec("mistral-nemo:12b"@, lowercase(trim_seq("mistral-nemo:12b"@))) == Some(source_view("mistral-nemo:12b"@, "Mistral-Nemo-Instruct-2407-Q4_K_M.gguf"@, "https://huggingface.co/bartowski/Mistral-Nemo-Instruct-2407-GGUF/resolve/main/Mistral-Nemo-Instruct-2407-Q4_K_M.gguf"@, "12B"@, "mistral"@)),
{
    reveal_strlit(".gguf");
    reveal_strlit("deepseek-coder-v2");
    reveal_strlit("deepseek-coder-v2:16b");
    reveal_strlit("deepseek-coder-v2:latest");
    reveal_strlit("deepseek-r1");
    reveal_strlit("deepseek-r1:1.5b");
    reveal_strlit("deepseek-r1:7b");
    reveal_strlit("deepseek-r1:8b");
    reveal_strlit("deepseek-r1:latest");
    reveal_strlit("hf.co/");
    reveal_strlit("http://");
    reveal_strlit("https://");
    reveal_strlit("llama2");
    reveal_strlit("llama2:7b");
    reveal_strlit("llama2:latest");
    reveal_strlit("llama3.1");
    reveal_strlit("llama3.1:8b");
    reveal_strlit("llama3.1:latest");
    reveal_strlit("llama3.2");
    reveal_strlit("llama3.2:1b");
    reveal_strlit("llama3.2:3b");
    reveal_strlit("llama3.2:latest");
    reveal_strlit("mistral");
    reveal_strlit("mistral-nemo");
    reveal_strlit("mistral-nemo:12b");
    reveal_strlit("mistral-nemo:latest");
    reveal_strlit("mistral:7b");
    reveal_strlit("mistral:latest");
    reveal_strlit("ollama.com/library/");
    reveal_strlit("qwen2.5");
    reveal_strlit("qwen2.5-0.5b");
    reveal_strlit("qwen2.5-0.5b-instruct-q4_k_m");
    reveal_strlit("qwen2.5-0.5b-instruct-q4_k_m:latest");
    reveal_strlit("qwen2.5-coder");
    reveal_strlit("qwen2.5-coder:1.5b");
    reveal_strlit("qwen2.5-coder:14b");
    reveal_strlit("qwen2.5-coder:7b");
    reveal_strlit("qwen2.5-coder:latest");
    reveal_strlit("qwen2.5:0.5b");
    reveal_strlit("qwen2.5:3b");
    reveal_strlit("qwen2.5:7b");
    reveal_strlit("qwen2.5:latest");
    assert("mistral-nemo:12b"@[0] != "deepseek-r1"@[0]);
    assert("mistral-nemo:12b"@[0] != "deepseek-r1:latest"@[0]);
    assert("mistral-nemo:12b"@[0] != "deepseek-r1:7b"@[0]);
    assert("mistral-nemo:12b"@[0] != "deepseek-r1:1.5b"@[0]);
    assert("mistral-nemo:12b"@[0] != "deepseek-r1:8b"@[0]);
    assert("mistral-nemo:12b"@[0] != "deepseek-coder-v2"@[0]);
    assert("mistral-nemo:12b"@[0] != "deepseek-coder-v2:latest"@[0]);
    assert("mistral-nemo:12b"@[0] != "deepseek-coder-v2:16b"@[0]);
    assert("mistral-nemo:12b"@[0] != "llama3.2"@[0]);
    assert("mistral-nemo:12b"@[0] != "llama3.2:latest"@[0]);
    assert("mistral-nemo:12b"@[0] != "llama3.2:3b"@[0]);
    assert("mistral-nemo:12b"@[0] != "llama3.2:1b"@[0]);
    assert("mistral-nemo:12b"@[0] != "llama3.1"@[0]);
    assert("mistral-nemo:12b"@[0] != "llama3.1:latest"@[0]);
    assert("mistral-nemo:12b"@[0] != "llama3.1:8b"@[0]);
    assert("mistral-nemo:12b"@[0] != "llama2"@[0]);
    assert("mistral-nemo:12b"@[0] != "llama2:latest"@[0]);
    assert("mistral-nemo:12b"@[0] != "llama2:7b"@[0]);
    assert("mistral-nemo:12b"@[0] != "qwen2.5-coder"@[0]);
    assert("mistral-nemo:12b"@[0] != "qwen2.5-coder:latest"@[0]);
    assert("mistral-nemo:12b"@[0] != "qwen2.5-coder:7b"@[0]);
    assert("mistral-nemo:12b"@[0] != "qwen2.5-coder:1.5b"@[0]);
    assert("mistral-nemo:12b"@[0] != "qwen2.5-coder:14b"@[0]);
    assert("mistral-nemo:12b"@[0] != "qwen2.5"@[0]);
    assert("mistral-nemo:12b"@[0] != "qwen2.5:latest"@[0]);
    assert("mistral-nemo:12b"@[0] != "qwen2.5:7b"@[0]);
    assert("mistral-nemo:12b"@[0] != "qwen2.5:3b"@[0]);
    assert("mistral-nemo:12b"@[0] != "qwen2.5:0.5b"@[0]);
    assert("mistral-nemo:12b"@[0] != "qwen2.5-0.5b"@[0]);
    assert("mistral-nemo:12b"@[0] != "qwen2.5-0.5b-instruct-q4_k_m"@[0]);
    assert("mistral-nemo:12b"@[0] != "qwen2.5-0.5b-instruct-q4_k_m:latest"@[0]);
    assert("mistral-nemo:12b"@.len() != "mistral"@.len());
    assert("mistral-nemo:12b"@[7] != "mistral:latest"@[7]);
    assert("mistral-nemo:12b"@[7] != "mistral:7b"@[7]);
    assert forall|i: int| 0 <= i < "mistral-nemo:12b"@.len() implies is_tag_char(#[trigger] "mistral-nemo:12b"@[i]) by {
        assert(i == 0 || i == 1 || i == 2 || i == 3 || i == 4 || i == 5 || i == 6 || i == 7 || i == 8 || i == 9 || i == 10 || i == 11 || i == 12 || i == 13 || i == 14 || i == 15);
    }
    lemma_tag_text_is_canonical("mistral-nemo:12b"@);
    assert("mistral-nemo:12b"@.subrange(0, 7)[0] != "http://"@[0]);
    assert("mistral-nemo:12b"@.subrange(0, 8)[0] != "https://"@[0]);
    assert("mistral-nemo:12b"@.subrange(0, 6)[0] != "hf.co/"@[0]);
    assert("mistral-nemo:12b"@.subrange(11, 16)[0] != ".gguf"@[0]);
}

proof fn lemma_catalog_name_37()
    ensures
        resolve_spec("phi4"@, lowercase(trim_seq("phi4"@))) == Some(source_view("phi4:14b"@, "phi-4-Q4_K_M.gguf"@, "https://huggingface.co/bartowski/phi-4-GGUF/resolve/main/phi-4-Q4_K_M.gguf"@, "14B"@, "phi3"@)),
{
    reveal_strlit(".gguf");
    reveal_strlit("deepseek-coder-v2");
    reveal_strlit("deepseek-coder-v2:16b");
    reveal_strlit("deepseek-coder-v2:latest");
    reveal_strlit("deepseek-r1");
    reveal_strlit("deepseek-r1:1.5b");
    reveal_strlit("deepseek-r1:7b");
    reveal_strlit("deepseek-r1:8b");
    reveal_strlit("deepseek-r1:latest");
    reveal_strlit("hf.co/");
    reveal_strlit("http://");
    reveal_strlit("https://");
    reveal_strlit("llama2");
    reveal_strlit("llama2:7b");
    reveal_strlit("llama2:latest");
    reveal_strlit("llama3.1");
    reveal_strlit("llama3.1:8b");
    reveal_strlit("llama3.1:latest");
    reveal_strlit("llama3.2");
    reveal_strlit("llama3.2:1b");
    reveal_strlit("llama3.2:3b");
    reveal_strlit("llama3.2:latest");
    reveal_strlit("mistral");
    reveal_strlit("mistral-nemo");
    reveal_strlit("mistral-nemo:12b");
    reveal_strlit("mistral-nemo:latest");
    reveal_strlit("mistral:7b");
    reveal_strlit("mistral:latest");
    reveal_strlit("ollama.com/library/");
    reveal_strlit("phi4");
    reveal_strlit("phi4:14b");
    reveal_strlit("phi4:latest");
    reveal_strlit("qwen2.5");
    reveal_strlit("qwen2.5-0.5b");
    reveal_strlit("qwen2.5-0.5b-instruct-q4_k_m");
    reveal_strlit("qwen2.5-0.5b-instruct-q4_k_m:latest");
    reveal_strlit("qwen2.5-coder");
    reveal_strlit("qwen2.5-coder:1.5b");
    reveal_strlit("qwen2.5-coder:14b");
    reveal_strlit("qwen2.5-coder:7b");
    reveal_strlit("qwen2.5-coder:latest");
    reveal_strlit("qwen2.5:0.5b");
    reveal_strlit("qwen2.5:3b");
    reveal_strlit("qwen2.5:7b");
    reveal_strlit("qwen2.5:latest");
    assert("phi4"@[0] != "deepseek-r1"@[0]);
    assert("phi4"@[0] != "deepseek-r1:latest"@[0]);
    assert("phi4"@[0] != "deepseek-r1:7b"@[0]);
    assert("phi4"@[0] != "deepseek-r1:1.5b"@[0]);
    assert("phi4"@[0] != "deepseek-r1:8b"@[0]);
    assert("phi4"@[0] != "deepseek-coder-v2"@[0]);
    assert("phi4"@[0] != "deepseek-coder-v2:latest"@[0]);
    assert("phi4"@[0] != "deepseek-coder-v2:16b"@[0]);
    assert("phi4"@[0] != "llama3.2"@[0]);
    assert("phi4"@[0] != "llama3.2:latest"@[0]);
    assert("phi4"@[0] != "llama3.2:3b"@[0]);
    assert("phi4"@[0] != "llama3.2:1b"@[0]);
    assert("phi4"@[0] != "llama3.1"@[0]);
    assert("phi4"@[0] != "llama3.1:latest"@[0]);
    assert("phi4"@[0] != "llama3.1:8b"@[0]);
    assert("phi4"@[0] != "llama2"@[0]);
    assert("phi4"@[0] != "llama2:latest"@[0]);
    assert("phi4"@[0] != "llama2:7b"@[0]);
    assert("phi4"@[0] != "qwen2.5-coder"@[0]);
    assert("phi4"@[0] != "qwen2.5-coder:latest"@[0]);
    assert("phi4"@[0] != "qwen2.5-coder:7b"@[0]);
    assert("phi4"@[0] != "qwen2.5-coder:1.5b"@[0]);
    assert("phi4"@[0] != "qwen2.5-coder:14b"@[0]);
    assert("phi4"@[0] != "qwen2.5"@[0]);
    assert("phi4"@[0] != "qwen2.5:latest"@[0]);
    assert("phi4"@[0] != "qwen2.5:7b"@[0]);
    assert("phi4"@[0] != "qwen2.5:3b"@[0]);
    assert("phi4"@[0] != "qwen2.5:0.5b"@[0]);
    assert("phi4"@[0] != "qwen2.5-0.5b"@[0]);
    assert("phi4"@[0] != "qwen2.5-0.5b-instruct-q4_k_m"@[0]);
    assert("phi4"@[0] != "qwen2.5-0.5b-instruct-q4_k_m:latest"@[0]);
    assert("phi4"@[0] != "mistral"@[0]);
    assert("phi4"@[0] != "mistral:latest"@[0]);
    assert("phi4"@[0] != "mistral:7b"@[0]);
    assert("phi4"@[0] != "mistral-nemo"@[0]);
    assert("phi4"@[0] != "mistral-nemo:latest"@[0]);
    assert("phi4"@[0] != "mistral-nemo:12b"@[0]);
    assert forall|i: int| 0 <= i < "phi4"@.len() implies is_tag_char(#[trigger] "phi4"@[i]) by {
        assert(i == 0 || i == 1 || i == 2 || i == 3);
    }
    lemma_tag_text_is_canonical("phi4"@);
}

proof fn lemma_catalog_name_38()
    ensures
        resolve_spec("phi4:latest"@, lowercase(trim_seq("phi4:latest"@))) == Some(source_view("phi4:14b"@, "phi-4-Q4_K_M.gguf"@, "https://huggingface.co/bartowski/phi-4-GGUF/resolve/main/phi-4-Q4_K_M.gguf"@, "14B"@, "phi3"@)),
{
    reveal_strlit(".gguf");
    reveal_strlit("deepseek-coder-v2");
    reveal_strlit("deepseek-coder-v2:16b");
    reveal_strlit("deepseek-coder-v2:latest");
    reveal_strlit("deepseek-r1");
    reveal_strlit("deepseek-r1:1.5b");
    reveal_strlit("deepseek-r1:7b");
    reveal_strlit("deepseek-r1:8b");
    reveal_strlit("deepseek-r1:latest");
    reveal_strlit("hf.co/");
    reveal_strlit("http://");
    reveal_strlit("https://");
    reveal_strlit("llama2");
    reveal_strlit("llama2:7b");
    reveal_strlit("llama2:latest");
    reveal_strlit("llama3.1");
    reveal_strlit("llama3.1:8b");
    reveal_strlit("llama3.1:latest");
    reveal_strlit("llama3.2");
    reveal_strlit("llama3.2:1b");
    reveal_strlit("llama3.2:3b");
    reveal_strlit("llama3.2:latest");
    reveal_strlit("mistral");
    reveal_strlit("mistral-nemo");
    reveal_strlit("mistral-nemo:12b");
    reveal_strlit("mistral-nemo:latest");
    reveal_strlit("mistral:7b");
    reveal_strlit("mistral:latest");
    reveal_strlit("ollama.com/library/");
    reveal_strlit("phi4");
    reveal_strlit("phi4:14b");
    reveal_strlit("phi4:latest");
    reveal_strlit("qwen2.5");
    reveal_strlit("qwen2.5-0.5b");
    reveal_strlit("qwen2.5-0.5b-instruct-q4_k_m");
    reveal_strlit("qwen2.5-0.5b-instruct-q4_k_m:latest");
    reveal_strlit("qwen2.5-coder");
    reveal_strlit("qwen2.5-coder:1.5b");
    reveal_strlit("qwen2.5-coder:14b");
    reveal_strlit("qwen2.5-coder:7b");
    reveal_strlit("qwen2.5-coder:latest");
    reveal_strlit("qwen2.5:0.5b");
    reveal_strlit("qwen2.5:3b");
    reveal_strlit("qwen2.5:7b");
    reveal_strlit("qwen2.5:latest");
    assert("phi4:latest"@[0] != "deepseek-r1"@[0]);
    assert("phi4:latest"@[0] != "deepseek-r1:latest"@[0]);
    assert("phi4:latest"@[0] != "deepseek-r1:7b"@[0]);
    assert("phi4:latest"@[0] != "deepseek-r1:1.5b"@[0]);
    assert("phi4:latest"@[0] != "deepseek-r1:8b"@[0]);
    assert("phi4:latest"@[0] != "deepseek-coder-v2"@[0]);
    assert("phi4:latest"@[0] != "deepseek-coder-v2:latest"@[0]);
    assert("phi4:latest"@[0] != "deepseek-coder-v2:16b"@[0]);
    assert("phi4:latest"@[0] != "llama3.2"@[0]);
    assert("phi4:latest"@[0] != "llama3.2:latest"@[0]);
    assert("phi4:latest"@[0] != "llama3.2:3b"@[0]);
    assert("phi4:latest"@[0] != "llama3.2:1b"@[0]);
    assert("phi4:latest"@[0] != "llama3.1"@[0]);
    assert("phi4:latest"@[0] != "llama3.1:latest"@[0]);
    assert("phi4:latest"@[0] != "llama3.1:8b"@[0]);
    assert("phi4:latest"@[0] != "llama2"@[0]);
    assert("phi4:latest"@[0] != "llama2:latest"@[0]);
    assert("phi4:latest"@[0] != "llama2:7b"@[0]);
    assert("phi4:latest"@[0] != "qwen2.5-coder"@[0]);
    assert("phi4:latest"@[0] != "qwen2.5-coder:latest"@[0]);
    assert("phi4:latest"@[0] != "qwen2.5-coder:7b"@[0]);
    assert("phi4:latest"@[0] != "qwen2.5-coder:1.5b"@[0]);
    assert("phi4:latest"@[0] != "qwen2.5-coder:14b"@[0]);
    assert("phi4:latest"@[0] != "qwen2.5"@[0]);
    assert("phi4:latest"@[0] != "qwen2.5:latest"@[0]);
    assert("phi4:latest"@[0] != "qwen2.5:7b"@[0]);
    assert("phi4:latest"@[0] != "qwen2.5:3b"@[0]);
    assert("phi4:latest"@[0] != "qwen2.5:0.5b"@[0]);
    assert("phi4:latest"@[0] != "qwen2.5-0.5b"@[0]);
    assert("phi4:latest"@[0] != "qwen2.5-0.5b-instruct-q4_k_m"@[0]);
    assert("phi4:latest"@[0] != "qwen2.5-0.5b-instruct-q4_k_m:latest"@[0]);
    assert("phi4:latest"@[0] != "mistral"@[0]);
    assert("phi4:latest"@[0] != "mistral:latest"@[0]);
    assert("phi4:latest"@[0] != "mistral:7b"@[0]);
    assert("phi4:latest"@[0] != "mistral-nemo"@[0]);
    assert("phi4:latest"@[0] != "mistral-nemo:latest"@[0]);
    assert("phi4:latest"@[0] != "mistral-nemo:12b"@[0]);
    assert forall|i: int| 0 <= i < "phi4:latest"@.len() implies is_tag_char(#[trigger] "phi4:latest"@[i]) by {
        assert(i == 0 || i == 1 || i == 2 || i == 3 || i == 4 || i == 5 || i == 6 || i == 7 || i == 8 || i == 9 || i == 10);
    }
    lemma_tag_text_is_canonical("phi4:latest"@);
    assert("phi4:latest"@.subrange(0, 7)[0] != "http://"@[0]);
    assert("phi4:latest"@.subrange(0, 8)[0] != "https://"@[0]);
    assert("phi4:latest"@.subrange(0, 6)[0] != "hf.co/"@[0]);
    assert("phi4:latest"@.subrange(6, 11)[0] != ".gguf"@[0]);
}

proof fn lemma_catalog_name_39()
    ensures
        resolve_spec("phi4:14b"@, lowercase(trim_seq("phi4:14b"@))) == Some(source_view("phi4:14b"@, "phi-4-Q4_K_M.gguf"@, "https://huggingface.co/bartowski/phi-4-GGUF/resolve/main/phi-4-Q4_K_M.gguf"@, "14B"@, "phi3"@)),
{
    reveal_strlit(".gguf");
    reveal_strlit("deepseek-coder-v2");
    reveal_strlit("deepseek-coder-v2:16b");
    reveal_strlit("deepseek-coder-v2:latest");
    reveal_strlit("deepseek-r1");
    reveal_strlit("deepseek-r1:1.5b");
    reveal_strlit("deepseek-r1:7b");
    reveal_strlit("deepseek-r1:8b");
    reveal_strlit("deepseek-r1:latest");
    reveal_strlit("hf.co/");
    reveal_strlit("http://");
    reveal_strlit("https://");
    reveal_strlit("llama2");
    reveal_strlit("llama2:7b");
    reveal_strlit("llama2:latest");
    reveal_strlit("llama3.1");
    reveal_strlit("llama3.1:8b");
    reveal_strlit("llama3.1:latest");
    reveal_strlit("llama3.2");
    reveal_strlit("llama3.2:1b");
    reveal_strlit("llama3.2:3b");
    reveal_strlit("llama3.2:latest");
    reveal_strlit("mistral");
    reveal_strlit("mistral-nemo");
    reveal_strlit("mistral-nemo:12b");
    reveal_strlit("mistral-nemo:latest");
    reveal_strlit("mistral:7b");
    reveal_strlit("mistral:latest");
    reveal_strlit("ollama.com/library/");
    reveal_strlit("phi4");
    reveal_strlit("phi4:14b");
    reveal_strlit("phi4:latest");
    reveal_strlit("qwen2.5");
    reveal_strlit("qwen2.5-0.5b");
    reveal_strlit("qwen2.5-0.5b-instruct-q4_k_m");
    reveal_strlit("qwen2.5-0.5b-instruct-q4_k_m:latest");
    reveal_strlit("qwen2.5-coder");
    reveal_strlit("qwen2.5-coder:1.5b");
    reveal_strlit("qwen2.5-coder:14b");
    reveal_strlit("qwen2.5-coder:7b");
    reveal_strlit("qwen2.5-coder:latest");
    reveal_strlit("qwen2.5:0.5b");
    reveal_strlit("qwen2.5:3b");
    reveal_strlit("qwen2.5:7b");
    reveal_strlit("qwen2.5:latest");
    assert("phi4:14b"@[0] != "deepseek-r1"@[0]);
    assert("phi4:14b"@[0] != "deepseek-r1:latest"@[0]);
    assert("phi4:14b"@[0] != "deepseek-r1:7b"@[0]);
    assert("phi4:14b"@[0] != "deepseek-r1:1.5b"@[0]);
    assert("phi4:14b"@[0] != "deepseek-r1:8b"@[0]);
    assert("phi4:14b"@[0] != "deepseek-coder-v2"@[0]);
    assert("phi4:14b"@[0] != "deepseek-coder-v2:latest"@[0]);
    assert("phi4:14b"@[0] != "deepseek-coder-v2:16b"@[0]);
    assert("phi4:14b"@[0] != "llama3.2"@[0]);
    assert("phi4:14b"@[0] != "llama3.2:latest"@[0]);
    assert("phi4:14b"@[0] != "llama3.2:3b"@[0]);
    assert("phi4:14b"@[0] != "llama3.2:1b"@[0]);
    assert("phi4:14b"@[0] != "llama3.1"@[0]);
    assert("phi4:14b"@[0] != "llama3.1:latest"@[0]);
    assert("phi4:14b"@[0] != "llama3.1:8b"@[0]);
    assert("phi4:14b"@[0] != "llama2"@[0]);
    assert("phi4:14b"@[0] != "llama2:latest"@[0]);
    assert("phi4:14b"@[0] != "llama2:7b"@[0]);
    assert("phi4:14b"@[0] != "qwen2.5-coder"@[0]);
    assert("phi4:14b"@[0] != "qwen2.5-coder:latest"@[0]);
    assert("phi4:14b"@[0] != "qwen2.5-coder:7b"@[0]);
    assert("phi4:14b"@[0] != "qwen2.5-coder:1.5b"@[0]);
    assert("phi4:14b"@[0] != "qwen2.5-coder:14b"@[0]);
    assert("phi4:14b"@[0] != "qwen2.5"@[0]);
    assert("phi4:14b"@[0] != "qwen2.5:latest"@[0]);
    assert("phi4:14b"@[0] != "qwen2.5:7b"@[0]);
    assert("phi4:14b"@[0] != "qwen2.5:3b"@[0]);
    assert("phi4:14b"@[0] != "qwen2.5:0.5b"@[0]);
    assert("phi4:14b"@[0] != "qwen2.5-0.5b"@[0]);
    assert("phi4:14b"@[0] != "qwen2.5-0.5b-instruct-q4_k_m"@[0]);
    assert("phi4:14b"@[0] != "qwen2.5-0.5b-instruct-q4_k_m:latest"@[0]);
    assert("phi4:14b"@[0] != "mistral"@[0]);
    assert("phi4:14b"@[0] != "mistral:latest"@[0]);
    assert("phi4:14b"@[0] != "mistral:7b"@[0]);
    assert("phi4:14b"@[0] != "mistral-nemo"@[0]);
    assert("phi4:14b"@[0] != "mistral-nemo:latest"@[0]);
    assert("phi4:14b"@[0] != "mistral-nemo:12b"@[0]);
    assert forall|i: int| 0 <= i < "phi4:14b"@.len() implies is_tag_char(#[trigger] "phi4:14b"@[i]) by {
        assert(i == 0 || i == 1 || i == 2 || i == 3 || i == 4 || i == 5 || i == 6 || i == 7);
    }
    lemma_tag_text_is_canonical("phi4:14b"@);
    assert("phi4:14b"@.subrange(0, 7)[0] != "http://"@[0]);
    assert("phi4:14b"@.subrange(0, 8)[0] != "https://"@[0]);
    assert("phi4:14b"@.subrange(0, 6)[0] != "hf.co/"@[0]);
    assert("phi4:14b"@.subrange(3, 8)[0] != ".gguf"@[0]);
}

proof fn lemma_catalog_name_40()
    ensures
        resolve_spec("phi3.5"@, lowercase(trim_seq("phi3.5"@))) == Some(source_view("phi3.5:3.8b"@, "Phi-3.5-mini-instruct-Q4_K_M.gguf"@, "https://huggingface.co/bartowski/Phi-3.5-mini-instruct-GGUF/resolve/main/Phi-3.5-mini-instruct-Q4_K_M.gguf"@, "3.8B"@, "phi3"@)),
{
    reveal_strlit(".gguf");
    reveal_strlit("deepseek-coder-v2");
    reveal_strlit("deepseek-coder-v2:16b");
    reveal_strlit("deepseek-coder-v2:latest");
    reveal_strlit("deepseek-r1");
    reveal_strlit("deepseek-r1:1.5b");
    reveal_strlit("deepseek-r1:7b");
    reveal_strlit("deepseek-r1:8b");
    reveal_strlit("deepseek-r1:latest");
    reveal_strlit("hf.co/");
    reveal_strlit("http://");
    reveal_strlit("https://");
    reveal_strlit("llama2");
    reveal_strlit("llama2:7b");
    reveal_strlit("llama2:latest");
    reveal_strlit("llama3.1");
    reveal_strlit("llama3.1:8b");
    reveal_strlit("llama3.1:latest");
    reveal_strlit("llama3.2");
    reveal_strlit("llama3.2:1b");
    reveal_strlit("llama3.2:3b");
    reveal_strlit("llama3.2:latest");
    reveal_strlit("mistral");
    reveal_strlit("mistral-nemo");
    reveal_strlit("mistral-nemo:12b");
    reveal_strlit("mistral-nemo:latest");
    reveal_strlit("mistral:7b");
    reveal_strlit("mistral:latest");
    reveal_strlit("ollama.com/library/");
    reveal_strlit("phi3.5");
    reveal_strlit("phi3.5:3.8b");
    reveal_strlit("phi3.5:latest");
    reveal_strlit("phi4");
    reveal_strlit("phi4:14b");
    reveal_strlit("phi4:latest");
    reveal_strlit("qwen2.5");
    reveal_strlit("qwen2.5-0.5b");
    reveal_strlit("qwen2.5-0.5b-instruct-q4_k_m");
    reveal_strlit("qwen2.5-0.5b-instruct-q4_k_m:latest");
    reveal_strlit("qwen2.5-coder");
    reveal_strlit("qwen2.5-coder:1.5b");
    reveal_strlit("qwen2.5-coder:14b");
    reveal_strlit("qwen2.5-coder:7b");
    reveal_strlit("qwen2.5-coder:latest");
    reveal_strlit("qwen2.5:0.5b");
    reveal_strlit("qwen2.5:3b");
    reveal_strlit("qwen2.5:7b");
    reveal_strlit("qwen2.5:latest");
    assert("phi3.5"@[0] != "deepseek-r1"@[0]);
    assert("phi3.5"@[0] != "deepseek-r1:latest"@[0]);
    assert("phi3.5"@[0] != "deepseek-r1:7b"@[0]);
    assert("phi3.5"@[0] != "deepseek-r1:1.5b"@[0]);
    assert("phi3.5"@[0] != "deepseek-r1:8b"@[0]);
    assert("phi3.5"@[0] != "deepseek-coder-v2"@[0]);
    assert("phi3.5"@[0] != "deepseek-coder-v2:latest"@[0]);
    assert("phi3.5"@[0] != "deepseek-coder-v2:16b"@[0]);
    assert("phi3.5"@[0] != "llama3.2"@[0]);
    assert("phi3.5"@[0] != "llama3.2:latest"@[0]);
    assert("phi3.5"@[0] != "llama3.2:3b"@[0]);
    assert("phi3.5"@[0] != "llama3.2:1b"@[0]);
    assert("phi3.5"@[0] != "llama3.1"@[0]);
    assert("phi3.5"@[0] != "llama3.1:latest"@[0]);
    assert("phi3.5"@[0] != "llama3.1:8b"@[0]);
    assert("phi3.5"@[0] != "llama2"@[0]);
    assert("phi3.5"@[0] != "llama2:latest"@[0]);
    assert("phi3.5"@[0] != "llama2:7b"@[0]);
    assert("phi3.5"@[0] != "qwen2.5-coder"@[0]);
    assert("phi3.5"@[0] != "qwen2.5-coder:latest"@[0]);
    assert("phi3.5"@[0] != "qwen2.5-coder:7b"@[0]);
    assert("phi3.5"@[0] != "qwen2.5-coder:1.5b"@[0]);
    assert("phi3.5"@[0] != "qwen2.5-coder:14b"@[0]);
    assert("phi3.5"@[0] != "qwen2.5"@[0]);
    assert("phi3.5"@[0] != "qwen2.5:latest"@[0]);
    assert("phi3.5"@[0] != "qwen2.5:7b"@[0]);
    assert("phi3.5"@[0] != "qwen2.5:3b"@[0]);
    assert("phi3.5"@[0] != "qwen2.5:0.5b"@[0]);
    assert("phi3.5"@[0] != "qwen2.5-0.5b"@[0]);
    assert("phi3.5"@[0] != "qwen2.5-0.5b-instruct-q4_k_m"@[0]);
    assert("phi3.5"@[0] != "qwen2.5-0.5b-instruct-q4_k_m:latest"@[0]);
    assert("phi3.5"@[0] != "mistral"@[0]);
    assert("phi3.5"@[0] != "mistral:latest"@[0]);
    assert("phi3.5"@[0] != "mistral:7b"@[0]);
    assert("phi3.5"@[0] != "mistral-nemo"@[0]);
    assert("phi3.5"@[0] != "mistral-nemo:latest"@[0]);
    assert("phi3.5"@[0] != "mistral-nemo:12b"@[0]);
    assert("phi3.5"@[3] != "phi4"@[3]);
    assert("phi3.5"@[3] != "phi4:latest"@[3]);
    assert("phi3.5"@[3] != "phi4:14b"@[3]);
    assert forall|i: int| 0 <= i < "phi3.5"@.len() implies is_tag_char(#[trigger] "phi3.5"@[i]) by {
        assert(i == 0 || i == 1 || i == 2 || i == 3 || i == 4 || i == 5);
    }
    lemma_tag_text_is_canonical("phi3.5"@);
    assert("phi3.5"@.subrange(0, 6)[0] != "hf.co/"@[0]);
    assert("phi3.5"@.subrange(1, 6)[0] != ".gguf"@[0]);
}

proof fn lemma_catalog_name_41()
    ensures
        resolve_spec("phi3.5:latest"@, lowercase(trim_seq("phi3.5:latest"@))) == Some(source_view("phi3.5:3.8b"@, "Phi-3.5-mini-instruct-Q4_K_M.gguf"@, "https://huggingface.co/bartowski/Phi-3.5-mini-instruct-GGUF/resolve/main/Phi-3.5-mini-instruct-Q4_K_M.gguf"@, "3.8B"@, "phi3"@)),
{
    reveal_strlit(".gguf");
    reveal_strlit("deepseek-coder-v2");
    reveal_strlit("deepseek-coder-v2:16b");
    reveal_strlit("deepseek-coder-v2:latest");
    reveal_strlit("deepseek-r1");
    reveal_strlit("deepseek-r1:1.5b");
    reveal_strlit("deepseek-r1:7b");
    reveal_strlit("deepseek-r1:8b");
    reveal_strlit("deepseek-r1:latest");
    reveal_strlit("hf.co/");
    reveal_strlit("http://");
    reveal_strlit("https://");
    reveal_strlit("llama2");
    reveal_strlit("llama2:7b");
    reveal_strlit("llama2:latest");
    reveal_strlit("llama3.1");
    reveal_strlit("llama3.1:8b");
    reveal_strlit("llama3.1:latest");
    reveal_strlit("llama3.2");
    reveal_strlit("llama3.2:1b");
    reveal_strlit("llama3.2:3b");
    reveal_strlit("llama3.2:latest");
    reveal_strlit("mistral");
    reveal_strlit("mistral-nemo");
    reveal_strlit("mistral-nemo:12b");
    reveal_strlit("mistral-nemo:latest");
    reveal_strlit("mistral:7b");
    reveal_strlit("mistral:latest");
    reveal_strlit("ollama.com/library/");
    reveal_strlit("phi3.5");
    reveal_strlit("phi3.5:3.8b");
    reveal_strlit("phi3.5:latest");
    reveal_strlit("phi4");
    reveal_strlit("phi4:14b");
    reveal_strlit("phi4:latest");
    reveal_strlit("qwen2.5");
    reveal_strlit("qwen2.5-0.5b");
    reveal_strlit("qwen2.5-0.5b-instruct-q4_k_m");
    reveal_strlit("qwen2.5-0.5b-instruct-q4_k_m:latest");
    reveal_strlit("qwen2.5-coder");
    reveal_strlit("qwen2.5-coder:1.5b");
    reveal_strlit("qwen2.5-coder:14b");
    reveal_strlit("qwen2.5-coder:7b");
    reveal_strlit("qwen2.5-coder:latest");
    reveal_strlit("qwen2.5:0.5b");
    reveal_strlit("qwen2.5:3b");
    reveal_strlit("qwen2.5:7b");
    reveal_strlit("qwen2.5:latest");
    assert("phi3.5:latest"@[0] != "deepseek-r1"@[0]);
    assert("phi3.5:latest"@[0] != "deepseek-r1:latest"@[0]);
    assert("phi3.5:latest"@[0] != "deepseek-r1:7b"@[0]);
    assert("phi3.5:latest"@[0] != "deepseek-r1:1.5b"@[0]);
    assert("phi3.5:latest"@[0] != "deepseek-r1:8b"@[0]);
    assert("phi3.5:latest"@[0] != "deepseek-coder-v2"@[0]);
    assert("phi3.5:latest"@[0] != "deepseek-coder-v2:latest"@[0]);
    assert("phi3.5:latest"@[0] != "deepseek-coder-v2:16b"@[0]);
    assert("phi3.5:latest"@[0] != "llama3.2"@[0]);
    assert("phi3.5:latest"@[0] != "llama3.2:latest"@[0]);
    assert("phi3.5:latest"@[0] != "llama3.2:3b"@[0]);
    assert("phi3.5:latest"@[0] != "llama3.2:1b"@[0]);
    assert("phi3.5:latest"@[0] != "llama3.1"@[0]);
    assert("phi3.5:latest"@[0] != "llama3.1:latest"@[0]);
    assert("phi3.5:latest"@[0] != "llama3.1:8b"@[0]);
    assert("phi3.5:latest"@[0] != "llama2"@[0]);
    assert("phi3.5:latest"@[0] != "llama2:latest"@[0]);
    assert("phi3.5:latest"@[0] != "llama2:7b"@[0]);
    assert("phi3.5:latest"@[0] != "qwen2.5-coder"@[0]);
    assert("phi3.5:latest"@[0] != "qwen2.5-coder:latest"@[0]);
    assert("phi3.5:latest"@[0] != "qwen2.5-coder:7b"@[0]);
    assert("phi3.5:latest"@[0] != "qwen2.5-coder:1.5b"@[0]);
    assert("phi3.5:latest"@[0] != "qwen2.5-coder:14b"@[0]);
    assert("phi3.5:latest"@[0] != "qwen2.5"@[0]);
    assert("phi3.5:latest"@[0] != "qwen2.5:latest"@[0]);
    assert("phi3.5:latest"@[0] != "qwen2.5:7b"@[0]);
    assert("phi3.5:latest"@[0] != "qwen2.5:3b"@[0]);
    assert("phi3.5:latest"@[0] != "qwen2.5:0.5b"@[0]);
    assert("phi3.5:latest"@[0] != "qwen2.5-0.5b"@[0]);
    assert("phi3.5:latest"@[0] != "qwen2.5-0.5b-instruct-q4_k_m"@[0]);
    assert("phi3.5:latest"@[0] != "qwen2.5-0.5b-instruct-q4_k_m:latest"@[0]);
    assert("phi3.5:latest"@[0] != "mistral"@[0]);
    assert("phi3.5:latest"@[0] != "mistral:latest"@[0]);
    assert("phi3.5:latest"@[0] != "mistral:7b"@[0]);
    assert("phi3.5:latest"@[0] != "mistral-nemo"@[0]);
    assert("phi3.5:latest"@[0] != "mistral-nemo:latest"@[0]);
    assert("phi3.5:latest"@[0] != "mistral-nemo:12b"@[0]);
    assert("phi3.5:latest"@[3] != "phi4"@[3]);
    assert("phi3.5:latest"@[3] != "phi4:latest"@[3]);
    assert("phi3.5:latest"@[3] != "phi4:14b"@[3]);
    assert forall|i: int| 0 <= i < "phi3.5:latest"@.len() implies is_tag_char(#[trigger] "phi3.5:latest"@[i]) by {
        assert(i == 0 || i == 1 || i == 2 || i == 3 || i == 4 || i == 5 || i == 6 || i == 7 || i == 8 || i == 9 || i == 10 || i == 11 || i == 12);
    }
    lemma_tag_text_is_canonical("phi3.5:latest"@);
    assert("phi3.5:latest"@.subrange(0, 7)[0] != "http://"@[0]);
    assert("phi3.5:latest"@.subrange(0, 8)[0] != "https://"@[0]);
    assert("phi3.5:latest"@.subrange(0, 6)[0] != "hf.co/"@[0]);
    assert("phi3.5:latest"@.subrange(8, 13)[0] != ".gguf"@[0]);
}

proof fn lemma_catalog_name_42()
    ensures
        resolve_spec("phi3.5:3.8b"@, lowercase(trim_seq("phi3.5:3.8b"@))) == Some(source_view("phi3.5:3.8b"@, "Phi-3.5-mini-instruct-Q4_K_M.gguf"@, "https://huggingface.co/bartowski/Phi-3.5-mini-instruct-GGUF/resolve/main/Phi-3.5-mini-instruct-Q4_K_M.gguf"@, "3.8B"@, "phi3"@)),
{
    reveal_strlit(".gguf");
    reveal_strlit("deepseek-coder-v2");
    reveal_strlit("deepseek-coder-v2:16b");
    reveal_strlit("deepseek-coder-v2:latest");
    reveal_strlit("deepseek-r1");
    reveal_strlit("deepseek-r1:1.5b");
    reveal_strlit("deepseek-r1:7b");
    reveal_strlit("deepseek-r1:8b");
    reveal_strlit("deepseek-r1:latest");
    reveal_strlit("hf.co/");
    reveal_strlit("http://");
    reveal_strlit("https://");
    reveal_strlit("llama2");
    reveal_strlit("llama2:7b");
    reveal_strlit("llama2:latest");
    reveal_strlit("llama3.1");
    reveal_strlit("llama3.1:8b");
    reveal_strlit("llama3.1:latest");
    reveal_strlit("llama3.2");
    reveal_strlit("llama3.2:1b");
    reveal_strlit("llama3.2:3b");
    reveal_strlit("llama3.2:latest");
    reveal_strlit("mistral");
    reveal_strlit("mistral-nemo");
    reveal_strlit("mistral-nemo:12b");
    reveal_strlit("mistral-nemo:latest");
    reveal_strlit("mistral:7b");
    reveal_strlit("mistral:latest");
    reveal_strlit("ollama.com/library/");
    reveal_strlit("phi3.5");
    reveal_strlit("phi3.5:3.8b");
    reveal_strlit("phi3.5:latest");
    reveal_strlit("phi4");
    reveal_strlit("phi4:14b");
    reveal_strlit("phi4:latest");
    reveal_strlit("qwen2.5");
    reveal_strlit("qwen2.5-0.5b");
    reveal_strlit("qwen2.5-0.5b-instruct-q4_k_m");
    reveal_strlit("qwen2.5-0.5b-instruct-q4_k_m:latest");
    reveal_strlit("qwen2.5-coder");
    reveal_strlit("qwen2.5-coder:1.5b");
    reveal_strlit("qwen2.5-coder:14b");
    reveal_strlit("qwen2.5-coder:7b");
    reveal_strlit("qwen2.5-coder:latest");
    reveal_strlit("qwen2.5:0.5b");
    reveal_strlit("qwen2.5:3b");
    reveal_strlit("qwen2.5:7b");
    reveal_strlit("qwen2.5:latest");
    assert("phi3.5:3.8b"@[0] != "deepseek-r1"@[0]);
    assert("phi3.5:3.8b"@[0] != "deepseek-r1:latest"@[0]);
    assert("phi3.5:3.8b"@[0] != "deepseek-r1:7b"@[0]);
    assert("phi3.5:3.8b"@[0] != "deepseek-r1:1.5b"@[0]);
    assert("phi3.5:3.8b"@[0] != "deepseek-r1:8b"@[0]);
    assert("phi3.5:3.8b"@[0] != "deepseek-coder-v2"@[0]);
    assert("phi3.5:3.8b"@[0] != "deepseek-coder-v2:latest"@[0]);
    assert("phi3.5:3.8b"@[0] != "deepseek-coder-v2:16b"@[0]);
    assert("phi3.5:3.8b"@[0] != "llama3.2"@[0]);
    assert("phi3.5:3.8b"@[0] != "llama3.2:latest"@[0]);
    assert("phi3.5:3.8b"@[0] != "llama3.2:3b"@[0]);
    assert("phi3.5:3.8b"@[0] != "llama3.2:1b"@[0]);
    assert("phi3.5:3.8b"@[0] != "llama3.1"@[0]);
    assert("phi3.5:3.8b"@[0] != "llama3.1:latest"@[0]);
    assert("phi3.5:3.8b"@[0] != "llama3.1:8b"@[0]);
    assert("phi3.5:3.8b"@[0] != "llama2"@[0]);
    assert("phi3.5:3.8b"@[0] != "llama2:latest"@[0]);
    assert("phi3.5:3.8b"@[0] != "llama2:7b"@[0]);
    assert("phi3.5:3.8b"@[0] != "qwen2.5-coder"@[0]);
    assert("phi3.5:3.8b"@[0] != "qwen2.5-coder:latest"@[0]);
    assert("phi3.5:3.8b"@[0] != "qwen2.5-coder:7b"@[0]);
    assert("phi3.5:3.8b"@[0] != "qwen2.5-coder:1.5b"@[0]);
    assert("phi3.5:3.8b"@[0] != "qwen2.5-coder:14b"@[0]);
    assert("phi3.5:3.8b"@[0] != "qwen2.5"@[0]);
    assert("phi3.5:3.8b"@[0] != "qwen2.5:latest"@[0]);
    assert("phi3.5:3.8b"@[0] != "qwen2.5:7b"@[0]);
    assert("phi3.5:3.8b"@[0] != "qwen2.5:3b"@[0]);
    assert("phi3.5:3.8b"@[0] != "qwen2.5:0.5b"@[0]);
    assert("phi3.5:3.8b"@[0] != "qwen2.5-0.5b"@[0]);
    assert("phi3.5:3.8b"@[0] != "qwen2.5-0.5b-instruct-q4_k_m"@[0]);
    assert("phi3.5:3.8b"@[0] != "qwen2.5-0.5b-instruct-q4_k_m:latest"@[0]);
    assert("phi3.5:3.8b"@[0] != "mistral"@[0]);
    assert("phi3.5:3.8b"@[0] != "mistral:latest"@[0]);
    assert("phi3.5:3.8b"@[0] != "mistral:7b"@[0]);
    assert("phi3.5:3.8b"@[0] != "mistral-nemo"@[0]);
    assert("phi3.5:3.8b"@[0] != "mistral-nemo:latest"@[0]);
    assert("phi3.5:3.8b"@[0] != "mistral-nemo:12b"@[0]);
    assert("phi3.5:3.8b"@[3] != "phi4"@[3]);
    assert("phi3.5:3.8b"@[3] != "phi4:latest"@[3]);
    assert("phi3.5:3.8b"@[3] != "phi4:14b"@[3]);
    assert forall|i: int| 0 <= i < "phi3.5:3.8b"@.len() implies is_tag_char(#[trigger] "phi3.5:3.8b"@[i]) by {
        assert(i == 0 || i == 1 || i == 2 || i == 3 || i == 4 || i == 5 || i == 6 || i == 7 || i == 8 || i == 9 || i == 10);
    }
    lemma_tag_text_is_canonical("phi3.5:3.8b"@);
    assert("phi3.5:3.8b"@.subrange(0, 7)[0] != "http://"@[0]);
    assert("phi3.5:3.8b"@.subrange(0, 8)[0] != "https://"@[0]);
    assert("phi3.5:3.8b"@.subrange(0, 6)[0] != "hf.co/"@[0]);
    assert("phi3.5:3.8b"@.subrange(6, 11)[0] != ".gguf"@[0]);
}

proof fn lemma_catalog_name_43()
    ensures
        resolve_spec("gemma2"@, lowercase(trim_seq("gemma2"@))) == Some(source_view("gemma2:2b"@, "gemma-2-2b-it-Q4_K_M.gguf"@, "https://huggingface.co/bartowski/gemma-2-2b-it-GGUF/resolve/main/gemma-2-2b-it-Q4_K_M.gguf"@, "2B"@, "gemma2"@)),
{
    reveal_strlit(".gguf");
    reveal_strlit("deepseek-coder-v2");
    reveal_strlit("deepseek-coder-v2:16b");
    reveal_strlit("deepseek-coder-v2:latest");
    reveal_strlit("deepseek-r1");
    reveal_strlit("deepseek-r1:1.5b");
    reveal_strlit("deepseek-r1:7b");
    reveal_strlit("deepseek-r1:8b");
    reveal_strlit("deepseek-r1:latest");
    reveal_strlit("gemma2");
    reveal_strlit("gemma2:2b");
    reveal_strlit("gemma2:latest");
    reveal_strlit("hf.co/");
    reveal_strlit("http://");
    reveal_strlit("https://");
    reveal_strlit("llama2");
    reveal_strlit("llama2:7b");
    reveal_strlit("llama2:latest");
    reveal_strlit("llama3.1");
    reveal_strlit("llama3.1:8b");
    reveal_strlit("llama3.1:latest");
    reveal_strlit("llama3.2");
    reveal_strlit("llama3.2:1b");
    reveal_strlit("llama3.2:3b");
    reveal_strlit("llama3.2:latest");
    reveal_strlit("mistral");
    reveal_strlit("mistral-nemo");
    reveal_strlit("mistral-nemo:12b");
    reveal_strlit("mistral-nemo:latest");
    reveal_strlit("mistral:7b");
    reveal_strlit("mistral:latest");
    reveal_strlit("ollama.com/library/");
    reveal_strlit("phi3.5");
    reveal_strlit("phi3.5:3.8b");
    reveal_strlit("phi3.5:latest");
    reveal_strlit("phi4");
    reveal_strlit("phi4:14b");
    reveal_strlit("phi4:latest");
    reveal_strlit("qwen2.5");
    reveal_strlit("qwen2.5-0.5b");
    reveal_strlit("qwen2.5-0.5b-instruct-q4_k_m");
    reveal_strlit("qwen2.5-0.5b-instruct-q4_k_m:latest");
    reveal_strlit("qwen2.5-coder");
    reveal_strlit("qwen2.5-coder:1.5b");
    reveal_strlit("qwen2.5-coder:14b");
    reveal_strlit("qwen2.5-coder:7b");
    reveal_strlit("qwen2.5-coder:latest");
    reveal_strlit("qwen2.5:0.5b");
    reveal_strlit("qwen2.5:3b");
    reveal_strlit("qwen2.5:7b");
    reveal_strlit("qwen2.5:latest");
    assert("gemma2"@[0] != "deepseek-r1"@[0]);
    assert("gemma2"@[0] != "deepseek-r1:latest"@[0]);
    assert("gemma2"@[0] != "deepseek-r1:7b"@[0]);
    assert("gemma2"@[0] != "deepseek-r1:1.5b"@[0]);
    assert("gemma2"@[0] != "deepseek-r1:8b"@[0]);
    assert("gemma2"@[0] != "deepseek-coder-v2"@[0]);
    assert("gemma2"@[0] != "deepseek-coder-v2:latest"@[0]);
    assert("gemma2"@[0] != "deepseek-coder-v2:16b"@[0]);
    assert("gemma2"@[0] != "llama3.2"@[0]);
    assert("gemma2"@[0] != "llama3.2:latest"@[0]);
    assert("gemma2"@[0] != "llama3.2:3b"@[0]);
    assert("gemma2"@[0] != "llama3.2:1b"@[0]);
    assert("gemma2"@[0] != "llama3.1"@[0]);
    assert("gemma2"@[0] != "llama3.1:latest"@[0]);
    assert("gemma2"@[0] != "llama3.1:8b"@[0]);
    assert("gemma2"@[0] != "llama2"@[0]);
    assert("gemma2"@[0] != "llama2:latest"@[0]);
    assert("gemma2"@[0] != "llama2:7b"@[0]);
    assert("gemma2"@[0] != "qwen2.5-coder"@[0]);
    assert("gemma2"@[0] != "qwen2.5-coder:latest"@[0]);
    assert("gemma2"@[0] != "qwen2.5-coder:7b"@[0]);
    assert("gemma2"@[0] != "qwen2.5-coder:1.5b"@[0]);
    assert("gemma2"@[0] != "qwen2.5-coder:14b"@[0]);
    assert("gemma2"@[0] != "qwen2.5"@[0]);
    assert("gemma2"@[0] != "qwen2.5:latest"@[0]);
    assert("gemma2"@[0] != "qwen2.5:7b"@[0]);
    assert("gemma2"@[0] != "qwen2.5:3b"@[0]);
    assert("gemma2"@[0] != "qwen2.5:0.5b"@[0]);
    assert("gemma2"@[0] != "qwen2.5-0.5b"@[0]);
    assert("gemma2"@[0] != "qwen2.5-0.5b-instruct-q4_k_m"@[0]);
    assert("gemma2"@[0] != "qwen2.5-0.5b-instruct-q4_k_m:latest"@[0]);
    assert("gemma2"@[0] != "mistral"@[0]);
    assert("gemma2"@[0] != "mistral:latest"@[0]);
    assert("gemma2"@[0] != "mistral:7b"@[0]);
    assert("gemma2"@[0] != "mistral-nemo"@[0]);
    assert("gemma2"@[0] != "mistral-nemo:latest"@[0]);
    assert("gemma2"@[0] != "mistral-nemo:12b"@[0]);
    assert("gemma2"@[0] != "phi4"@[0]);
    assert("gemma2"@[0] != "phi4:latest"@[0]);
    assert("gemma2"@[0] != "phi4:14b"@[0]);
    assert("gemma2"@[0] != "phi3.5"@[0]);
    assert("gemma2"@[0] != "phi3.5:latest"@[0]);
    assert("gemma2"@[0] != "phi3.5:3.8b"@[0]);
    assert forall|i: int| 0 <= i < "gemma2"@.len() implies is_tag_char(#[trigger] "gemma2"@[i]) by {
        assert(i == 0 || i == 1 || i == 2 || i == 3 || i == 4 || i == 5);
    }
    lemma_tag_text_is_canonical("gemma2"@);
    assert("gemma2"@.subrange(0, 6)[0] != "hf.co/"@[0]);
    assert("gemma2"@.subrange(1, 6)[0] != ".gguf"@[0]);
}

proof fn lemma_catalog_name_44()
    ensures
        resolve_spec("gemma2:latest"@, lowercase(trim_seq("gemma2:latest"@))) == Some(source_view("gemma2:2b"@, "gemma-2-2b-it-Q4_K_M.gguf"@, "https://huggingface.co/bartowski/gemma-2-2b-it-GGUF/resolve/main/gemma-2-2b-it-Q4_K_M.gguf"@, "2B"@, "gemma2"@)),
{
    reveal_strlit(".gguf");
    reveal_strlit("deepseek-coder-v2");
    reveal_strlit("deepseek-coder-v2:16b");
    reveal_strlit("deepseek-coder-v2:latest");
    reveal_strlit("deepseek-r1");
    reveal_strlit("deepseek-r1:1.5b");
    reveal_strlit("deepseek-r1:7b");
    reveal_strlit("deepseek-r1:8b");
    reveal_strlit("deepseek-r1:latest");
    reveal_strlit("gemma2");
    reveal_strlit("gemma2:2b");
    reveal_strlit("gemma2:latest");
    reveal_strlit("hf.co/");
    reveal_strlit("http://");
    reveal_strlit("https://");
    reveal_strlit("llama2");
    reveal_strlit("llama2:7b");
    reveal_strlit("llama2:latest");
    reveal_strlit("llama3.1");
    reveal_strlit("llama3.1:8b");
    reveal_strlit("llama3.1:latest");
    reveal_strlit("llama3.2");
    reveal_strlit("llama3.2:1b");
    reveal_strlit("llama3.2:3b");
    reveal_strlit("llama3.2:latest");
    reveal_strlit("mistral");
    reveal_strlit("mistral-nemo");
    reveal_strlit("mistral-nemo:12b");
    reveal_strlit("mistral-nemo:latest");
    reveal_strlit("mistral:7b");
    reveal_strlit("mistral:latest");
    reveal_strlit("ollama.com/library/");
    reveal_strlit("phi3.5");
    reveal_strlit("phi3.5:3.8b");
    reveal_strlit("phi3.5:latest");
    reveal_strlit("phi4");
    reveal_strlit("phi4:14b");
    reveal_strlit("phi4:latest");
    reveal_strlit("qwen2.5");
    reveal_strlit("qwen2.5-0.5b");
    reveal_strlit("qwen2.5-0.5b-instruct-q4_k_m");
    reveal_strlit("qwen2.5-0.5b-instruct-q4_k_m:latest");
    reveal_strlit("qwen2.5-coder");
    reveal_strlit("qwen2.5-coder:1.5b");
    reveal_strlit("qwen2.5-coder:14b");
    reveal_strlit("qwen2.5-coder:7b");
    reveal_strlit("qwen2.5-coder:latest");
    reveal_strlit("qwen2.5:0.5b");
    reveal_strlit("qwen2.5:3b");
    reveal_strlit("qwen2.5:7b");
    reveal_strlit("qwen2.5:latest");
    assert("gemma2:latest"@[0] != "deepseek-r1"@[0]);
    assert("gemma2:latest"@[0] != "deepseek-r1:latest"@[0]);
    assert("gemma2:latest"@[0] != "deepseek-r1:7b"@[0]);
    assert("gemma2:latest"@[0] != "deepseek-r1:1.5b"@[0]);
    assert("gemma2:latest"@[0] != "deepseek-r1:8b"@[0]);
    assert("gemma2:latest"@[0] != "deepseek-coder-v2"@[0]);
    assert("gemma2:latest"@[0] != "deepseek-coder-v2:latest"@[0]);
    assert("gemma2:latest"@[0] != "deepseek-coder-v2:16b"@[0]);
    assert("gemma2:latest"@[0] != "llama3.2"@[0]);
    assert("gemma2:latest"@[0] != "llama3.2:latest"@[0]);
    assert("gemma2:latest"@[0] != "llama3.2:3b"@[0]);
    assert("gemma2:latest"@[0] != "llama3.2:1b"@[0]);
    assert("gemma2:latest"@[0] != "llama3.1"@[0]);
    assert("gemma2:latest"@[0] != "llama3.1:latest"@[0]);
    assert("gemma2:latest"@[0] != "llama3.1:8b"@[0]);
    assert("gemma2:latest"@[0] != "llama2"@[0]);
    assert("gemma2:latest"@[0] != "llama2:latest"@[0]);
    assert("gemma2:latest"@[0] != "llama2:7b"@[0]);
    assert("gemma2:latest"@[0] != "qwen2.5-coder"@[0]);
    assert("gemma2:latest"@[0] != "qwen2.5-coder:latest"@[0]);
    assert("gemma2:latest"@[0] != "qwen2.5-coder:7b"@[0]);
    assert("gemma2:latest"@[0] != "qwen2.5-coder:1.5b"@[0]);
    assert("gemma2:latest"@[0] != "qwen2.5-coder:14b"@[0]);
    assert("gemma2:latest"@[0] != "qwen2.5"@[0]);
    assert("gemma2:latest"@[0] != "qwen2.5:latest"@[0]);
    assert("gemma2:latest"@[0] != "qwen2.5:7b"@[0]);
    assert("gemma2:latest"@[0] != "qwen2.5:3b"@[0]);
    assert("gemma2:latest"@[0] != "qwen2.5:0.5b"@[0]);
    assert("gemma2:latest"@[0] != "qwen2.5-0.5b"@[0]);
    assert("gemma2:latest"@[0] != "qwen2.5-0.5b-instruct-q4_k_m"@[0]);
    assert("gemma2:latest"@[0] != "qwen2.5-0.5b-instruct-q4_k_m:latest"@[0]);
    assert("gemma2:latest"@[0] != "mistral"@[0]);
    assert("gemma2:latest"@[0] != "mistral:latest"@[0]);
    assert("gemma2:latest"@[0] != "mistral:7b"@[0]);
    assert("gemma2:latest"@[0] != "mistral-nemo"@[0]);
    assert("gemma2:latest"@[0] != "mistral-nemo:latest"@[0]);
    assert("gemma2:latest"@[0] != "mistral-nemo:12b"@[0]);
    assert("gemma2:latest"@[0] != "phi4"@[0]);
    assert("gemma2:latest"@[0] != "phi4:latest"@[0]);
    assert("gemma2:latest"@[0] != "phi4:14b"@[0]);
    assert("gemma2:latest"@[0] != "phi3.5"@[0]);
    assert("gemma2:latest"@[0] != "phi3.5:latest"@[0]);
    assert("gemma2:latest"@[0] != "phi3.5:3.8b"@[0]);
    assert forall|i: int| 0 <= i < "gemma2:latest"@.len() implies is_tag_char(#[trigger] "gemma2:latest"@[i]) by {
        assert(i == 0 || i == 1 || i == 2 || i == 3 || i == 4 || i == 5 || i == 6 || i == 7 || i == 8 || i == 9 || i == 10 || i == 11 || i == 12);
    }
    lemma_tag_text_is_canonical("gemma2:latest"@);
    assert("gemma2:latest"@.subrange(0, 7)[0] != "http://"@[0]);
    assert("gemma2:latest"@.subrange(0, 8)[0] != "https://"@[0]);
    assert("gemma2:latest"@.subrange(0, 6)[0] != "hf.co/"@[0]);
    assert("gemma2:latest"@.subrange(8, 13)[0] != ".gguf"@[0]);
}

proof fn lemma_catalog_name_45()
    ensures
        resolve_spec("gemma2:2b"@, lowercase(trim_seq("gemma2:2b"@))) == Some(source_view("gemma2:2b"@, "gemma-2-2b-it-Q4_K_M.gguf"@, "https://huggingface.co/bartowski/gemma-2-2b-it-GGUF/resolve/main/gemma-2-2b-it-Q4_K_M.gguf"@, "2B"@, "gemma2"@)),
{
    reveal_strlit(".gguf");
    reveal_strlit("deepseek-coder-v2");
    reveal_strlit("deepseek-coder-v2:16b");
    reveal_strlit("deepseek-coder-v2:latest");
    reveal_strlit("deepseek-r1");
    reveal_strlit("deepseek-r1:1.5b");
    reveal_strlit("deepseek-r1:7b");
    reveal_strlit("deepseek-r1:8b");
    reveal_strlit("deepseek-r1:latest");
    reveal_strlit("gemma2");
    reveal_strlit("gemma2:2b");
    reveal_strlit("gemma2:latest");
    reveal_strlit("hf.co/");
    reveal_strlit("http://");
    reveal_strlit("https://");
    reveal_strlit("llama2");
    reveal_strlit("llama2:7b");
    reveal_strlit("llama2:latest");
    reveal_strlit("llama3.1");
    reveal_strlit("llama3.1:8b");
    reveal_strlit("llama3.1:latest");
    reveal_strlit("llama3.2");
    reveal_strlit("llama3.2:1b");
    reveal_strlit("llama3.2:3b");
    reveal_strlit("llama3.2:latest");
    reveal_strlit("mistral");
    reveal_strlit("mistral-nemo");
    reveal_strlit("mistral-nemo:12b");
    reveal_strlit("mistral-nemo:latest");
    reveal_strlit("mistral:7b");
    reveal_strlit("mistral:latest");
    reveal_strlit("ollama.com/library/");
    reveal_strlit("phi3.5");
    reveal_strlit("phi3.5:3.8b");
    reveal_strlit("phi3.5:latest");
    reveal_strlit("phi4");
    reveal_strlit("phi4:14b");
    reveal_strlit("phi4:latest");
    reveal_strlit("qwen2.5");
    reveal_strlit("qwen2.5-0.5b");
    reveal_strlit("qwen2.5-0.5b-instruct-q4_k_m");
    reveal_strlit("qwen2.5-0.5b-instruct-q4_k_m:latest");
    reveal_strlit("qwen2.5-coder");
    reveal_strlit("qwen2.5-coder:1.5b");
    reveal_strlit("qwen2.5-coder:14b");
    reveal_strlit("qwen2.5-coder:7b");
    reveal_strlit("qwen2.5-coder:latest");
    reveal_strlit("qwen2.5:0.5b");
    reveal_strlit("qwen2.5:3b");
    reveal_strlit("qwen2.5:7b");
    reveal_strlit("qwen2.5:latest");
    assert("gemma2:2b"@[0] != "deepseek-r1"@[0]);
    assert("gemma2:2b"@[0] != "deepseek-r1:latest"@[0]);
    assert("gemma2:2b"@[0] != "deepseek-r1:7b"@[0]);
    assert("gemma2:2b"@[0] != "deepseek-r1:1.5b"@[0]);
    assert("gemma2:2b"@[0] != "deepseek-r1:8b"@[0]);
    assert("gemma2:2b"@[0] != "deepseek-coder-v2"@[0]);
    assert("gemma2:2b"@[0] != "deepseek-coder-v2:latest"@[0]);
    assert("gemma2:2b"@[0] != "deepseek-coder-v2:16b"@[0]);
    assert("gemma2:2b"@[0] != "llama3.2"@[0]);
    assert("gemma2:2b"@[0] != "llama3.2:latest"@[0]);
    assert("gemma2:2b"@[0] != "llama3.2:3b"@[0]);
    assert("gemma2:2b"@[0] != "llama3.2:1b"@[0]);
    assert("gemma2:2b"@[0] != "llama3.1"@[0]);
    assert("gemma2:2b"@[0] != "llama3.1:latest"@[0]);
    assert("gemma2:2b"@[0] != "llama3.1:8b"@[0]);
    assert("gemma2:2b"@[0] != "llama2"@[0]);
    assert("gemma2:2b"@[0] != "llama2:latest"@[0]);
    assert("gemma2:2b"@[0] != "llama2:7b"@[0]);
    assert("gemma2:2b"@[0] != "qwen2.5-coder"@[0]);
    assert("gemma2:2b"@[0] != "qwen2.5-coder:latest"@[0]);
    assert("gemma2:2b"@[0] != "qwen2.5-coder:7b"@[0]);
    assert("gemma2:2b"@[0] != "qwen2.5-coder:1.5b"@[0]);
    assert("gemma2:2b"@[0] != "qwen2.5-coder:14b"@[0]);
    assert("gemma2:2b"@[0] != "qwen2.5"@[0]);
    assert("gemma2:2b"@[0] != "qwen2.5:latest"@[0]);
    assert("gemma2:2b"@[0] != "qwen2.5:7b"@[0]);
    assert("gemma2:2b"@[0] != "qwen2.5:3b"@[0]);
    assert("gemma2:2b"@[0] != "qwen2.5:0.5b"@[0]);
    assert("gemma2:2b"@[0] != "qwen2.5-0.5b"@[0]);
    assert("gemma2:2b"@[0] != "qwen2.5-0.5b-instruct-q4_k_m"@[0]);
    assert("gemma2:2b"@[0] != "qwen2.5-0.5b-instruct-q4_k_m:latest"@[0]);
    assert("gemma2:2b"@[0] != "mistral"@[0]);
    assert("gemma2:2b"@[0] != "mistral:latest"@[0]);
    assert("gemma2:2b"@[0] != "mistral:7b"@[0]);
    assert("gemma2:2b"@[0] != "mistral-nemo"@[0]);
    assert("gemma2:2b"@[0] != "mistral-nemo:latest"@[0]);
    assert("gemma2:2b"@[0] != "mistral-nemo:12b"@[0]);
    assert("gemma2:2b"@[0] != "phi4"@[0]);
    assert("gemma2:2b"@[0] != "phi4:latest"@[0]);
    assert("gemma2:2b"@[0] != "phi4:14b"@[0]);
    assert("gemma2:2b"@[0] != "phi3.5"@[0]);
    assert("gemma2:2b"@[0] != "phi3.5:latest"@[0]);
    assert("gemma2:2b"@[0] != "phi3.5:3.8b"@[0]);
    assert forall|i: int| 0 <= i < "gemma2:2b"@.len() implies is_tag_char(#[trigger] "gemma2:2b"@[i]) by {
        assert(i == 0 || i == 1 || i == 2 || i == 3 || i == 4 || i == 5 || i == 6 || i == 7 || i == 8);
    }
    lemma_tag_text_is_canonical("gemma2:2b"@);
    assert("gemma2:2b"@.subrange(0, 7)[0] != "http://"@[0]);
    assert("gemma2:2b"@.subrange(0, 8)[0] != "https://"@[0]);
    assert("gemma2:2b"@.subrange(0, 6)[0] != "hf.co/"@[0]);
    assert("gemma2:2b"@.subrange(4, 9)[0] != ".gguf"@[0]);
}

proof fn lemma_catalog_name_46()
    ensures
        resolve_spec("gemma2:9b"@, lowercase(trim_seq("gemma2:9b"@))) == Some(source_view("gemma2:9b"@, "gemma-2-9b-it-Q4_K_M.gguf"@, "https://huggingface.co/bartowski/gemma-2-9b-it-GGUF/resolve/main/gemma-2-9b-it-Q4_K_M.gguf"@, "9B"@, "gemma2"@)),
{
    reveal_strlit(".gguf");
    reveal_strlit("deepseek-coder-v2");
    reveal_strlit("deepseek-coder-v2:16b");
    reveal_strlit("deepseek-coder-v2:latest");
    reveal_strlit("deepseek-r1");
    reveal_strlit("deepseek-r1:1.5b");
    reveal_strlit("deepseek-r1:7b");
    reveal_strlit("deepseek-r1:8b");
    reveal_strlit("deepseek-r1:latest");
    reveal_strlit("gemma2");
    reveal_strlit("gemma2:2b");
    reveal_strlit("gemma2:9b");
    reveal_strlit("gemma2:latest");
    reveal_strlit("hf.co/");
    reveal_strlit("http://");
    reveal_strlit("https://");
    reveal_strlit("llama2");
    reveal_strlit("llama2:7b");
    reveal_strlit("llama2:latest");
    reveal_strlit("llama3.1");
    reveal_strlit("llama3.1:8b");
    reveal_strlit("llama3.1:latest");
    reveal_strlit("llama3.2");
    reveal_strlit("llama3.2:1b");
    reveal_strlit("llama3.2:3b");
    reveal_strlit("llama3.2:latest");
    reveal_strlit("mistral");
    reveal_strlit("mistral-nemo");
    reveal_strlit("mistral-nemo:12b");
    reveal_strlit("mistral-nemo:latest");
    reveal_strlit("mistral:7b");
    reveal_strlit("mistral:latest");
    reveal_strlit("ollama.com/library/");
    reveal_strlit("phi3.5");
    reveal_strlit("phi3.5:3.8b");
    reveal_strlit("phi3.5:latest");
    reveal_strlit("phi4");
    reveal_strlit("phi4:14b");
    reveal_strlit("phi4:latest");
    reveal_strlit("qwen2.5");
    reveal_strlit("qwen2.5-0.5b");
    reveal_strlit("qwen2.5-0.5b-instruct-q4_k_m");
    reveal_strlit("qwen2.5-0.5b-instruct-q4_k_m:latest");
    reveal_strlit("qwen2.5-coder");
    reveal_strlit("qwen2.5-coder:1.5b");
    reveal_strlit("qwen2.5-coder:14b");
    reveal_strlit("qwen2.5-coder:7b");
    reveal_strlit("qwen2.5-coder:latest");
    reveal_strlit("qwen2.5:0.5b");
    reveal_strlit("qwen2.5:3b");
    reveal_strlit("qwen2.5:7b");
    reveal_strlit("qwen2.5:latest");
    assert("gemma2:9b"@[0] != "deepseek-r1"@[0]);
    assert("gemma2:9b"@[0] != "deepseek-r1:latest"@[0]);
    assert("gemma2:9b"@[0] != "deepseek-r1:7b"@[0]);
    assert("gemma2:9b"@[0] != "deepseek-r1:1.5b"@[0]);
    assert("gemma2:9b"@[0] != "deepseek-r1:8b"@[0]);
    assert("gemma2:9b"@[0] != "deepseek-coder-v2"@[0]);
    assert("gemma2:9b"@[0] != "deepseek-coder-v2:latest"@[0]);
    assert("gemma2:9b"@[0] != "deepseek-coder-v2:16b"@[0]);
    assert("gemma2:9b"@[0] != "llama3.2"@[0]);
    assert("gemma2:9b"@[0] != "llama3.2:latest"@[0]);
    assert("gemma2:9b"@[0] != "llama3.2:3b"@[0]);
    assert("gemma2:9b"@[0] != "llama3.2:1b"@[0]);
    assert("gemma2:9b"@[0] != "llama3.1"@[0]);
    assert("gemma2:9b"@[0] != "llama3.1:latest"@[0]);
    assert("gemma2:9b"@[0] != "llama3.1:8b"@[0]);
    assert("gemma2:9b"@[0] != "llama2"@[0]);
    assert("gemma2:9b"@[0] != "llama2:latest"@[0]);
    assert("gemma2:9b"@[0] != "llama2:7b"@[0]);
    assert("gemma2:9b"@[0] != "qwen2.5-coder"@[0]);
    assert("gemma2:9b"@[0] != "qwen2.5-coder:latest"@[0]);
    assert("gemma2:9b"@[0] != "qwen2.5-coder:7b"@[0]);
    assert("gemma2:9b"@[0] != "qwen2.5-coder:1.5b"@[0]);
    assert("gemma2:9b"@[0] != "qwen2.5-coder:14b"@[0]);
    assert("gemma2:9b"@[0] != "qwen2.5"@[0]);
    assert("gemma2:9b"@[0] != "qwen2.5:latest"@[0]);
    assert("gemma2:9b"@[0] != "qwen2.5:7b"@[0]);
    assert("gemma2:9b"@[0] != "qwen2.5:3b"@[0]);
    assert("gemma2:9b"@[0] != "qwen2.5:0.5b"@[0]);
    assert("gemma2:9b"@[0] != "qwen2.5-0.5b"@[0]);
    assert("gemma2:9b"@[0] != "qwen2.5-0.5b-instruct-q4_k_m"@[0]);
    assert("gemma2:9b"@[0] != "qwen2.5-0.5b-instruct-q4_k_m:latest"@[0]);
    assert("gemma2:9b"@[0] != "mistral"@[0]);
    assert("gemma2:9b"@[0] != "mistral:latest"@[0]);
    assert("gemma2:9b"@[0] != "mistral:7b"@[0]);
    assert("gemma2:9b"@[0] != "mistral-nemo"@[0]);
    assert("gemma2:9b"@[0] != "mistral-nemo:latest"@[0]);
    assert("gemma2:9b"@[0] != "mistral-nemo:12b"@[0]);
    assert("gemma2:9b"@[0] != "phi4"@[0]);
    assert("gemma2:9b"@[0] != "phi4:latest"@[0]);
    assert("gemma2:9b"@[0] != "phi4:14b"@[0]);
    assert("gemma2:9b"@[0] != "phi3.5"@[0]);
    assert("gemma2:9b"@[0] != "phi3.5:latest"@[0]);
    assert("gemma2:9b"@[0] != "phi3.5:3.8b"@[0]);
    assert("gemma2:9b"@.len() != "gemma2"@.len());
    assert("gemma2:9b"@[7] != "gemma2:latest"@[7]);
    assert("gemma2:9b"@[7] != "gemma2:2b"@[7]);
    assert forall|i: int| 0 <= i < "gemma2:9b"@.len() implies is_tag_char(#[trigger] "gemma2:9b"@[i]) by {
        assert(i == 0 || i == 1 || i == 2 || i == 3 || i == 4 || i == 5 || i == 6 || i == 7 || i == 8);
    }
    lemma_tag_text_is_canonical("gemma2:9b"@);
    assert("gemma2:9b"@.subrange(0, 7)[0] != "http://"@[0]);
    assert("gemma2:9b"@.subrange(0, 8)[0] != "https://"@[0]);
    assert("gemma2:9b"@.subrange(0, 6)[0] != "hf.co/"@[0]);
    assert("gemma2:9b"@.subrange(4, 9)[0] != ".gguf"@[0]);
}

proof fn lemma_catalog_name_47()
    ensures
        resolve_spec("nomic-embed-text"@, lowercase(trim_seq("nomic-embed-text"@))) == Some(source_view("nomic-embed-text:latest"@, "nomic-embed-text-v1.5.Q4_K_M.gguf"@, "https://huggingface.co/nomic-ai/nomic-embed-text-v1.5-GGUF/resolve/main/nomic-embed-text-v1.5.Q4_K_M.gguf"@, "137M"@, "nomic-bert"@)),
{
    reveal_strlit(".gguf");
    reveal_strlit("deepseek-coder-v2");
    reveal_strlit("deepseek-coder-v2:16b");
    reveal_strlit("deepseek-coder-v2:latest");
    reveal_strlit("deepseek-r1");
    reveal_strlit("deepseek-r1:1.5b");
    reveal_strlit("deepseek-r1:7b");
    reveal_strlit("deepseek-r1:8b");
    reveal_strlit("deepseek-r1:latest");
    reveal_strlit("gemma2");
    reveal_strlit("gemma2:2b");
    reveal_strlit("gemma2:9b");
    reveal_strlit("gemma2:latest");
    reveal_strlit("hf.co/");
    reveal_strlit("http://");
    reveal_strlit("https://");
    reveal_strlit("llama2");
    reveal_strlit("llama2:7b");
    reveal_strlit("llama2:latest");
    reveal_strlit("llama3.1");
    reveal_strlit("llama3.1:8b");
    reveal_strlit("llama3.1:latest");
    reveal_strlit("llama3.2");
    reveal_strlit("llama3.2:1b");
    reveal_strlit("llama3.2:3b");
    reveal_strlit("llama3.2:latest");
    reveal_strlit("mistral");
    reveal_strlit("mistral-nemo");
    reveal_strlit("mistral-nemo:12b");
    reveal_strlit("mistral-nemo:latest");
    reveal_strlit("mistral:7b");
    reveal_strlit("mistral:latest");
    reveal_strlit("nomic-embed");
    reveal_strlit("nomic-embed-text");
    reveal_strlit("nomic-embed-text:latest");
    reveal_strlit("ollama.com/library/");
    reveal_strlit("phi3.5");
    reveal_strlit("phi3.5:3.8b");
    reveal_strlit("phi3.5:latest");
    reveal_strlit("phi4");
    reveal_strlit("phi4:14b");
    reveal_strlit("phi4:latest");
    reveal_strlit("qwen2.5");
    reveal_strlit("qwen2.5-0.5b");
    reveal_strlit("qwen2.5-0.5b-instruct-q4_k_m");
    reveal_strlit("qwen2.5-0.5b-instruct-q4_k_m:latest");
    reveal_strlit("qwen2.5-coder");
    reveal_strlit("qwen2.5-coder:1.5b");
    reveal_strlit("qwen2.5-coder:14b");
    reveal_strlit("qwen2.5-coder:7b");
    reveal_strlit("qwen2.5-coder:latest");
    reveal_strlit("qwen2.5:0.5b");
    reveal_strlit("qwen2.5:3b");
    reveal_strlit("qwen2.5:7b");
    reveal_strlit("qwen2.5:latest");
    assert("nomic-embed-text"@[0] != "deepseek-r1"@[0]);
    assert("nomic-embed-text"@[0] != "deepseek-r1:latest"@[0]);
    assert("nomic-embed-text"@[0] != "deepseek-r1:7b"@[0]);
    assert("nomic-embed-text"@[0] != "deepseek-r1:1.5b"@[0]);
    assert("nomic-embed-text"@[0] != "deepseek-r1:8b"@[0]);
    assert("nomic-embed-text"@[0] != "deepseek-coder-v2"@[0]);
    assert("nomic-embed-text"@[0] != "deepseek-coder-v2:latest"@[0]);
    assert("nomic-embed-text"@[0] != "deepseek-coder-v2:16b"@[0]);
    assert("nomic-embed-text"@[0] != "llama3.2"@[0]);
    assert("nomic-embed-text"@[0] != "llama3.2:latest"@[0]);
    assert("nomic-embed-text"@[0] != "llama3.2:3b"@[0]);
    assert("nomic-embed-text"@[0] != "llama3.2:1b"@[0]);
    assert("nomic-embed-text"@[0] != "llama3.1"@[0]);
    assert("nomic-embed-text"@[0] != "llama3.1:latest"@[0]);
    assert("nomic-embed-text"@[0] != "llama3.1:8b"@[0]);
    assert("nomic-embed-text"@[0] != "llama2"@[0]);
    assert("nomic-embed-text"@[0] != "llama2:latest"@[0]);
    assert("nomic-embed-text"@[0] != "llama2:7b"@[0]);
    assert("nomic-embed-text"@[0] != "qwen2.5-coder"@[0]);
    assert("nomic-embed-text"@[0] != "qwen2.5-coder:latest"@[0]);
    assert("nomic-embed-text"@[0] != "qwen2.5-coder:7b"@[0]);
    assert("nomic-embed-text"@[0] != "qwen2.5-coder:1.5b"@[0]);
    assert("nomic-embed-text"@[0] != "qwen2.5-coder:14b"@[0]);
    assert("nomic-embed-text"@[0] != "qwen2.5"@[0]);
    assert("nomic-embed-text"@[0] != "qwen2.5:latest"@[0]);
    assert("nomic-embed-text"@[0] != "qwen2.5:7b"@[0]);
    assert("nomic-embed-text"@[0] != "qwen2.5:3b"@[0]);
    assert("nomic-embed-text"@[0] != "qwen2.5:0.5b"@[0]);
    assert("nomic-embed-text"@[0] != "qwen2.5-0.5b"@[0]);
    assert("nomic-embed-text"@[0] != "qwen2.5-0.5b-instruct-q4_k_m"@[0]);
    assert("nomic-embed-text"@[0] != "qwen2.5-0.5b-instruct-q4_k_m:latest"@[0]);
    assert("nomic-embed-text"@[0] != "mistral"@[0]);
    assert("nomic-embed-text"@[0] != "mistral:latest"@[0]);
    assert("nomic-embed-text"@[0] != "mistral:7b"@[0]);
    assert("nomic-embed-text"@[0] != "mistral-nemo"@[0]);
    assert("nomic-embed-text"@[0] != "mistral-nemo:latest"@[0]);
    assert("nomic-embed-text"@[0] != "mistral-nemo:12b"@[0]);
    assert("nomic-embed-text"@[0] != "phi4"@[0]);
    assert("nomic-embed-text"@[0] != "phi4:latest"@[0]);
    assert("nomic-embed-text"@[0] != "phi4:14b"@[0]);
    assert("nomic-embed-text"@[0] != "phi3.5"@[0]);
    assert("nomic-embed-text"@[0] != "phi3.5:latest"@[0]);
    assert("nomic-embed-text"@[0] != "phi3.5:3.8b"@[0]);
    assert("nomic-embed-text"@[0] != "gemma2"@[0]);
    assert("nomic-embed-text"@[0] != "gemma2:latest"@[0]);
    assert("nomic-embed-text"@[0] != "gemma2:2b"@[0]);
    assert("nomic-embed-text"@[0] != "gemma2:9b"@[0]);
    assert forall|i: int| 0 <= i < "nomic-embed-text"@.len() implies is_tag_char(#[trigger] "nomic-embed-text"@[i]) by {
        assert(i == 0 || i == 1 || i == 2 || i == 3 || i == 4 || i == 5 || i == 6 || i == 7 || i == 8 || i == 9 || i == 10 || i == 11 || i == 12 || i == 13 || i == 14 || i == 15);
    }
    lemma_tag_text_is_canonical("nomic-embed-text"@);
    assert("nomic-embed-text"@.subrange(0, 7)[0] != "http://"@[0]);
    assert("nomic-embed-text"@.subrange(0, 8)[0] != "https://"@[0]);
    assert("nomic-embed-text"@.subrange(0, 6)[0] != "hf.co/"@[0]);
    assert("nomic-embed-text"@.subrange(11, 16)[0] != ".gguf"@[0]);
}

proof fn lemma_catalog_name_48()
    ensures
        resolve_spec("nomic-embed-text:latest"@, lowercase(trim_seq("nomic-embed-text:latest"@))) == Some(source_view("nomic-embed-text:latest"@, "nomic-embed-text-v1.5.Q4_K_M.gguf"@, "https://huggingface.co/nomic-ai/nomic-embed-text-v1.5-GGUF/resolve/main/nomic-embed-text-v1.5.Q4_K_M.gguf"@, "137M"@, "nomic-bert"@)),
{
    reveal_strlit(".gguf");
    reveal_strlit("deepseek-coder-v2");
    reveal_strlit("deepseek-coder-v2:16b");
    reveal_strlit("deepseek-coder-v2:latest");
    reveal_strlit("deepseek-r1");
    reveal_strlit("deepseek-r1:1.5b");
    reveal_strlit("deepseek-r1:7b");
    reveal_strlit("deepseek-r1:8b");
    reveal_strlit("deepseek-r1:latest");
    reveal_strlit("gemma2");
    reveal_strlit("gemma2:2b");
    reveal_strlit("gemma2:9b");
    reveal_strlit("gemma2:latest");
    reveal_strlit("hf.co/");
    reveal_strlit("http://");
    reveal_strlit("https://");
    reveal_strlit("llama2");
    reveal_strlit("llama2:7b");
    reveal_strlit("llama2:latest");
    reveal_strlit("llama3.1");
    reveal_strlit("llama3.1:8b");
    reveal_strlit("llama3.1:latest");
    reveal_strlit("llama3.2");
    reveal_strlit("llama3.2:1b");
    reveal_strlit("llama3.2:3b");
    reveal_strlit("llama3.2:latest");
    reveal_strlit("mistral");
    reveal_strlit("mistral-nemo");
    reveal_strlit("mistral-nemo:12b");
    reveal_strlit("mistral-nemo:latest");
    reveal_strlit("mistral:7b");
    reveal_strlit("mistral:latest");
    reveal_strlit("nomic-embed");
    reveal_strlit("nomic-embed-text");
    reveal_strlit("nomic-embed-text:latest");
    reveal_strlit("ollama.com/library/");
    reveal_strlit("phi3.5");
    reveal_strlit("phi3.5:3.8b");
    reveal_strlit("phi3.5:latest");
    reveal_strlit("phi4");
    reveal_strlit("phi4:14b");
    reveal_strlit("phi4:latest");
    reveal_strlit("qwen2.5");
    reveal_strlit("qwen2.5-0.5b");
    reveal_strlit("qwen2.5-0.5b-instruct-q4_k_m");
    reveal_strlit("qwen2.5-0.5b-instruct-q4_k_m:latest");
    reveal_strlit("qwen2.5-coder");
    reveal_strlit("qwen2.5-coder:1.5b");
    reveal_strlit("qwen2.5-coder:14b");
    reveal_strlit("qwen2.5-coder:7b");
    reveal_strlit("qwen2.5-coder:latest");
    reveal_strlit("qwen2.5:0.5b");
    reveal_strlit("qwen2.5:3b");
    reveal_strlit("qwen2.5:7b");
    reveal_strlit("qwen2.5:latest");
    assert("nomic-embed-text:latest"@[0] != "deepseek-r1"@[0]);
    assert("nomic-embed-text:latest"@[0] != "deepseek-r1:latest"@[0]);
    assert("nomic-embed-text:latest"@[0] != "deepseek-r1:7b"@[0]);
    assert("nomic-embed-text:latest"@[0] != "deepseek-r1:1.5b"@[0]);
    assert("nomic-embed-text:latest"@[0] != "deepseek-r1:8b"@[0]);
    assert("nomic-embed-text:latest"@[0] != "deepseek-coder-v2"@[0]);
    assert("nomic-embed-text:latest"@[0] != "deepseek-coder-v2:latest"@[0]);
    assert("nomic-embed-text:latest"@[0] != "deepseek-coder-v2:16b"@[0]);
    assert("nomic-embed-text:latest"@[0] != "llama3.2"@[0]);
    assert("nomic-embed-text:latest"@[0] != "llama3.2:latest"@[0]);
    assert("nomic-embed-text:latest"@[0] != "llama3.2:3b"@[0]);
    assert("nomic-embed-text:latest"@[0] != "llama3.2:1b"@[0]);
    assert("nomic-embed-text:latest"@[0] != "llama3.1"@[0]);
    assert("nomic-embed-text:latest"@[0] != "llama3.1:latest"@[0]);
    assert("nomic-embed-text:latest"@[0] != "llama3.1:8b"@[0]);
    assert("nomic-embed-text:latest"@[0] != "llama2"@[0]);
    assert("nomic-embed-text:latest"@[0] != "llama2:latest"@[0]);
    assert("nomic-embed-text:latest"@[0] != "llama2:7b"@[0]);
    assert("nomic-embed-text:latest"@[0] != "qwen2.5-coder"@[0]);
    assert("nomic-embed-text:latest"@[0] != "qwen2.5-coder:latest"@[0]);
    assert("nomic-embed-text:latest"@[0] != "qwen2.5-coder:7b"@[0]);
    assert("nomic-embed-text:latest"@[0] != "qwen2.5-coder:1.5b"@[0]);
    assert("nomic-embed-text:latest"@[0] != "qwen2.5-coder:14b"@[0]);
    assert("nomic-embed-text:latest"@[0] != "qwen2.5"@[0]);
    assert("nomic-embed-text:latest"@[0] != "qwen2.5:latest"@[0]);
    assert("nomic-embed-text:latest"@[0] != "qwen2.5:7b"@[0]);
    assert("nomic-embed-text:latest"@[0] != "qwen2.5:3b"@[0]);
    assert("nomic-embed-text:latest"@[0] != "qwen2.5:0.5b"@[0]);
    assert("nomic-embed-text:latest"@[0] != "qwen2.5-0.5b"@[0]);
    assert("nomic-embed-text:latest"@[0] != "qwen2.5-0.5b-instruct-q4_k_m"@[0]);
    assert("nomic-embed-text:latest"@[0] != "qwen2.5-0.5b-instruct-q4_k_m:latest"@[0]);
    assert("nomic-embed-text:latest"@[0] != "mistral"@[0]);
    assert("nomic-embed-text:latest"@[0] != "mistral:latest"@[0]);
    assert("nomic-embed-text:latest"@[0] != "mistral:7b"@[0]);
    assert("nomic-embed-text:latest"@[0] != "mistral-nemo"@[0]);
    assert("nomic-embed-text:latest"@[0] != "mistral-nemo:latest"@[0]);
    assert("nomic-embed-text:latest"@[0] != "mistral-nemo:12b"@[0]);
    assert("nomic-embed-text:latest"@[0] != "phi4"@[0]);
    assert("nomic-embed-text:latest"@[0] != "phi4:latest"@[0]);
    assert("nomic-embed-text:latest"@[0] != "phi4:14b"@[0]);
    assert("nomic-embed-text:latest"@[0] != "phi3.5"@[0]);
    assert("nomic-embed-text:latest"@[0] != "phi3.5:latest"@[0]);
    assert("nomic-embed-text:latest"@[0] != "phi3.5:3.8b"@[0]);
    assert("nomic-embed-text:latest"@[0] != "gemma2"@[0]);
    assert("nomic-embed-text:latest"@[0] != "gemma2:latest"@[0]);
    assert("nomic-embed-text:latest"@[0] != "gemma2:2b"@[0]);
    assert("nomic-embed-text:latest"@[0] != "gemma2:9b"@[0]);
    assert forall|i: int| 0 <= i < "nomic-embed-text:latest"@.len() implies is_tag_char(#[trigger] "nomic-embed-text:latest"@[i]) by {
        assert(i == 0 || i == 1 || i == 2 || i == 3 || i == 4 || i == 5 || i == 6 || i == 7 || i == 8 || i == 9 || i == 10 || i == 11 || i == 12 || i == 13 || i == 14 || i == 15 || i == 16 || i == 17 || i == 18 || i == 19 || i == 20 || i == 21 || i == 22);
    }
    lemma_tag_text_is_canonical("nomic-embed-text:latest"@);
    assert("nomic-embed-text:latest"@.subrange(0, 7)[0] != "http://"@[0]);
    assert("nomic-embed-text:latest"@.subrange(0, 8)[0] != "https://"@[0]);
    assert("nomic-embed-text:latest"@.subrange(0, 6)[0] != "hf.co/"@[0]);
    assert("nomic-embed-text:latest"@.subrange(0, 19)[0] != "ollama.com/library/"@[0]);
    assert("nomic-embed-text:latest"@.subrange(18, 23)[0] != ".gguf"@[0]);
}

proof fn lemma_catalog_name_49()
    ensures
        resolve_spec("nomic-embed"@, lowercase(trim_seq("nomic-embed"@))) == Some(source_view("nomic-embed-text:latest"@, "nomic-embed-text-v1.5.Q4_K_M.gguf"@, "https://huggingface.co/nomic-ai/nomic-embed-text-v1.5-GGUF/resolve/main/nomic-embed-text-v1.5.Q4_K_M.gguf"@, "137M"@, "nomic-bert"@)),
{
    reveal_strlit(".gguf");
    reveal_strlit("deepseek-coder-v2");
    reveal_strlit("deepseek-coder-v2:16b");
    reveal_strlit("deepseek-coder-v2:latest");
    reveal_strlit("deepseek-r1");
    reveal_strlit("deepseek-r1:1.5b");
    reveal_strlit("deepseek-r1:7b");
    reveal_strlit("deepseek-r1:8b");
    reveal_strlit("deepseek-r1:latest");
    reveal_strlit("gemma2");
    reveal_strlit("gemma2:2b");
    reveal_strlit("gemma2:9b");
    reveal_strlit("gemma2:latest");
    reveal_strlit("hf.co/");
    reveal_strlit("http://");
    reveal_strlit("https://");
    reveal_strlit("llama2");
    reveal_strlit("llama2:7b");
    reveal_strlit("llama2:latest");
    reveal_strlit("llama3.1");
    reveal_strlit("llama3.1:8b");
    reveal_strlit("llama3.1:latest");
    reveal_strlit("llama3.2");
    reveal_strlit("llama3.2:1b");
    reveal_strlit("llama3.2:3b");
    reveal_strlit("llama3.2:latest");
    reveal_strlit("mistral");
    reveal_strlit("mistral-nemo");
    reveal_strlit("mistral-nemo:12b");
    reveal_strlit("mistral-nemo:latest");
    reveal_strlit("mistral:7b");
    reveal_strlit("mistral:latest");
    reveal_strlit("nomic-embed");
    reveal_strlit("nomic-embed-text");
    reveal_strlit("nomic-embed-text:latest");
    reveal_strlit("ollama.com/library/");
    reveal_strlit("phi3.5");
    reveal_strlit("phi3.5:3.8b");
    reveal_strlit("phi3.5:latest");
    reveal_strlit("phi4");
    reveal_strlit("phi4:14b");
    reveal_strlit("phi4:latest");
    reveal_strlit("qwen2.5");
    reveal_strlit("qwen2.5-0.5b");
    reveal_strlit("qwen2.5-0.5b-instruct-q4_k_m");
    reveal_strlit("qwen2.5-0.5b-instruct-q4_k_m:latest");
    reveal_strlit("qwen2.5-coder");
    reveal_strlit("qwen2.5-coder:1.5b");
    reveal_strlit("qwen2.5-coder:14b");
    reveal_strlit("qwen2.5-coder:7b");
    reveal_strlit("qwen2.5-coder:latest");
    reveal_strlit("qwen2.5:0.5b");
    reveal_strlit("qwen2.5:3b");
    reveal_strlit("qwen2.5:7b");
    reveal_strlit("qwen2.5:latest");
    assert("nomic-embed"@[0] != "deepseek-r1"@[0]);
    assert("nomic-embed"@[0] != "deepseek-r1:latest"@[0]);
    assert("nomic-embed"@[0] != "deepseek-r1:7b"@[0]);
    assert("nomic-embed"@[0] != "deepseek-r1:1.5b"@[0]);
    assert("nomic-embed"@[0] != "deepseek-r1:8b"@[0]);
    assert("nomic-embed"@[0] != "deepseek-coder-v2"@[0]);
    assert("nomic-embed"@[0] != "deepseek-coder-v2:latest"@[0]);
    assert("nomic-embed"@[0] != "deepseek-coder-v2:16b"@[0]);
    assert("nomic-embed"@[0] != "llama3.2"@[0]);
    assert("nomic-embed"@[0] != "llama3.2:latest"@[0]);
    assert("nomic-embed"@[0] != "llama3.2:3b"@[0]);
    assert("nomic-embed"@[0] != "llama3.2:1b"@[0]);
    assert("nomic-embed"@[0] != "llama3.1"@[0]);
    assert("nomic-embed"@[0] != "llama3.1:latest"@[0]);
    assert("nomic-embed"@[0] != "llama3.1:8b"@[0]);
    assert("nomic-embed"@[0] != "llama2"@[0]);
    assert("nomic-embed"@[0] != "llama2:latest"@[0]);
    assert("nomic-embed"@[0] != "llama2:7b"@[0]);
    assert("nomic-embed"@[0] != "qwen2.5-coder"@[0]);
    assert("nomic-embed"@[0] != "qwen2.5-coder:latest"@[0]);
    assert("nomic-embed"@[0] != "qwen2.5-coder:7b"@[0]);
    assert("nomic-embed"@[0] != "qwen2.5-coder:1.5b"@[0]);
    assert("nomic-embed"@[0] != "qwen2.5-coder:14b"@[0]);
    assert("nomic-embed"@[0] != "qwen2.5"@[0]);
    assert("nomic-embed"@[0] != "qwen2.5:latest"@[0]);
    assert("nomic-embed"@[0] != "qwen2.5:7b"@[0]);
    assert("nomic-embed"@[0] != "qwen2.5:3b"@[0]);
    assert("nomic-embed"@[0] != "qwen2.5:0.5b"@[0]);
    assert("nomic-embed"@[0] != "qwen2.5-0.5b"@[0]);
    assert("nomic-embed"@[0] != "qwen2.5-0.5b-instruct-q4_k_m"@[0]);
    assert("nomic-embed"@[0] != "qwen2.5-0.5b-instruct-q4_k_m:latest"@[0]);
    assert("nomic-embed"@[0] != "mistral"@[0]);
    assert("nomic-embed"@[0] != "mistral:latest"@[0]);
    assert("nomic-embed"@[0] != "mistral:7b"@[0]);
    assert("nomic-embed"@[0] != "mistral-nemo"@[0]);
    assert("nomic-embed"@[0] != "mistral-nemo:latest"@[0]);
    assert("nomic-embed"@[0] != "mistral-nemo:12b"@[0]);
    assert("nomic-embed"@[0] != "phi4"@[0]);
    assert("nomic-embed"@[0] != "phi4:latest"@[0]);
    assert("nomic-embed"@[0] != "phi4:14b"@[0]);
    assert("nomic-embed"@[0] != "phi3.5"@[0]);
    assert("nomic-embed"@[0] != "phi3.5:latest"@[0]);
    assert("nomic-embed"@[0] != "phi3.5:3.8b"@[0]);
    assert("nomic-embed"@[0] != "gemma2"@[0]);
    assert("nomic-embed"@[0] != "gemma2:latest"@[0]);
    assert("nomic-embed"@[0] != "gemma2:2b"@[0]);
    assert("nomic-embed"@[0] != "gemma2:9b"@[0]);
    assert forall|i: int| 0 <= i < "nomic-embed"@.len() implies is_tag_char(#[trigger] "nomic-embed"@[i]) by {
        assert(i == 0 || i == 1 || i == 2 || i == 3 || i == 4 || i == 5 || i == 6 || i == 7 || i == 8 || i == 9 || i == 10);
    }
    lemma_tag_text_is_canonical("nomic-embed"@);
    assert("nomic-embed"@.subrange(0, 7)[0] != "http://"@[0]);
    assert("nomic-embed"@.subrange(0, 8)[0] != "https://"@[0]);
    assert("nomic-embed"@.subrange(0, 6)[0] != "hf.co/"@[0]);
    assert("nomic-embed"@.subrange(6, 11)[0] != ".gguf"@[0]);
}

proof fn lemma_catalog_name_50()
    ensures
        resolve_spec("smollm2"@, lowercase(trim_seq("smollm2"@))) == Some(source_view("smollm2:1.7b"@, "SmolLM2-1.7B-Instruct-Q4_K_M.gguf"@, "https://huggingface.co/bartowski/SmolLM2-1.7B-Instruct-GGUF/resolve/main/SmolLM2-1.7B-Instruct-Q4_K_M.gguf"@, "1.7B"@, "smollm"@)),
{
    reveal_strlit(".gguf");
    reveal_strlit("deepseek-coder-v2");
    reveal_strlit("deepseek-coder-v2:16b");
    reveal_strlit("deepseek-coder-v2:latest");
    reveal_strlit("deepseek-r1");
    reveal_strlit("deepseek-r1:1.5b");
    reveal_strlit("deepseek-r1:7b");
    reveal_strlit("deepseek-r1:8b");
    reveal_strlit("deepseek-r1:latest");
    reveal_strlit("gemma2");
    reveal_strlit("gemma2:2b");
    reveal_strlit("gemma2:9b");
    reveal_strlit("gemma2:latest");
    reveal_strlit("hf.co/");
    reveal_strlit("http://");
    reveal_strlit("https://");
    reveal_strlit("llama2");
    reveal_strlit("llama2:7b");
    reveal_strlit("llama2:latest");
    reveal_strlit("llama3.1");
    reveal_strlit("llama3.1:8b");
    reveal_strlit("llama3.1:latest");
    reveal_strlit("llama3.2");
    reveal_strlit("llama3.2:1b");
    reveal_strlit("llama3.2:3b");
    reveal_strlit("llama3.2:latest");
    reveal_strlit("mistral");
    reveal_strlit("mistral-nemo");
    reveal_strlit("mistral-nemo:12b");
    reveal_strlit("mistral-nemo:latest");
    reveal_strlit("mistral:7b");
    reveal_strlit("mistral:latest");
    reveal_strlit("nomic-embed");
    reveal_strlit("nomic-embed-text");
    reveal_strlit("nomic-embed-text:latest");
    reveal_strlit("ollama.com/library/");
    reveal_strlit("phi3.5");
    reveal_strlit("phi3.5:3.8b");
    reveal_strlit("phi3.5:latest");
    reveal_strlit("phi4");
    reveal_strlit("phi4:14b");
    reveal_strlit("phi4:latest");
    reveal_strlit("qwen2.5");
    reveal_strlit("qwen2.5-0.5b");
    reveal_strlit("qwen2.5-0.5b-instruct-q4_k_m");
    reveal_strlit("qwen2.5-0.5b-instruct-q4_k_m:latest");
    reveal_strlit("qwen2.5-coder");
    reveal_strlit("qwen2.5-coder:1.5b");
    reveal_strlit("qwen2.5-coder:14b");
    reveal_strlit("qwen2.5-coder:7b");
    reveal_strlit("qwen2.5-coder:latest");
    reveal_strlit("qwen2.5:0.5b");
    reveal_strlit("qwen2.5:3b");
    reveal_strlit("qwen2.5:7b");
    reveal_strlit("qwen2.5:latest");
    reveal_strlit("smollm2");
    reveal_strlit("smollm2:1.7b");
    reveal_strlit("smollm2:latest");
    assert("smollm2"@[0] != "deepseek-r1"@[0]);
    assert("smollm2"@[0] != "deepseek-r1:latest"@[0]);
    assert("smollm2"@[0] != "deepseek-r1:7b"@[0]);
    assert("smollm2"@[0] != "deepseek-r1:1.5b"@[0]);
    assert("smollm2"@[0] != "deepseek-r1:8b"@[0]);
    assert("smollm2"@[0] != "deepseek-coder-v2"@[0]);
    assert("smollm2"@[0] != "deepseek-coder-v2:latest"@[0]);
    assert("smollm2"@[0] != "deepseek-coder-v2:16b"@[0]);
    assert("smollm2"@[0] != "llama3.2"@[0]);
    assert("smollm2"@[0] != "llama3.2:latest"@[0]);
    assert("smollm2"@[0] != "llama3.2:3b"@[0]);
    assert("smollm2"@[0] != "llama3.2:1b"@[0]);
    assert("smollm2"@[0] != "llama3.1"@[0]);
    assert("smollm2"@[0] != "llama3.1:latest"@[0]);
    assert("smollm2"@[0] != "llama3.1:8b"@[0]);
    assert("smollm2"@[0] != "llama2"@[0]);
    assert("smollm2"@[0] != "llama2:latest"@[0]);
    assert("smollm2"@[0] != "llama2:7b"@[0]);
    assert("smollm2"@[0] != "qwen2.5-coder"@[0]);
    assert("smollm2"@[0] != "qwen2.5-coder:latest"@[0]);
    assert("smollm2"@[0] != "qwen2.5-coder:7b"@[0]);
    assert("smollm2"@[0] != "qwen2.5-coder:1.5b"@[0]);
    assert("smollm2"@[0] != "qwen2.5-coder:14b"@[0]);
    assert("smollm2"@[0] != "qwen2.5"@[0]);
    assert("smollm2"@[0] != "qwen2.5:latest"@[0]);
    assert("smollm2"@[0] != "qwen2.5:7b"@[0]);
    assert("smollm2"@[0] != "qwen2.5:3b"@[0]);
    assert("smollm2"@[0] != "qwen2.5:0.5b"@[0]);
    assert("smollm2"@[0] != "qwen2.5-0.5b"@[0]);
    assert("smollm2"@[0] != "qwen2.5-0.5b-instruct-q4_k_m"@[0]);
    assert("smollm2"@[0] != "qwen2.5-0.5b-instruct-q4_k_m:latest"@[0]);
    assert("smollm2"@[0] != "mistral"@[0]);
    assert("smollm2"@[0] != "mistral:latest"@[0]);
    assert("smollm2"@[0] != "mistral:7b"@[0]);
    assert("smollm2"@[0] != "mistral-nemo"@[0]);
    assert("smollm2"@[0] != "mistral-nemo:latest"@[0]);
    assert("smollm2"@[0] != "mistral-nemo:12b"@[0]);
    assert("smollm2"@[0] != "phi4"@[0]);
    assert("smollm2"@[0] != "phi4:latest"@[0]);
    assert("smollm2"@[0] != "phi4:14b"@[0]);
    assert("smollm2"@[0] != "phi3.5"@[0]);
    assert("smollm2"@[0] != "phi3.5:latest"@[0]);
    assert("smollm2"@[0] != "phi3.5:3.8b"@[0]);
    assert("smollm2"@[0] != "gemma2"@[0]);
    assert("smollm2"@[0] != "gemma2:latest"@[0]);
    assert("smollm2"@[0] != "gemma2:2b"@[0]);
    assert("smollm2"@[0] != "gemma2:9b"@[0]);
    assert("smollm2"@[0] != "nomic-embed-text"@[0]);
    assert("smollm2"@[0] != "nomic-embed-text:latest"@[0]);
    assert("smollm2"@[0] != "nomic-embed"@[0]);
    assert forall|i: int| 0 <= i < "smollm2"@.len() implies is_tag_char(#[trigger] "smollm2"@[i]) by {
        assert(i == 0 || i == 1 || i == 2 || i == 3 || i == 4 || i == 5 || i == 6);
    }
    lemma_tag_text_is_canonical("smollm2"@);
    assert("smollm2"@.subrange(0, 7)[0] != "http://"@[0]);
    assert("smollm2"@.subrange(0, 6)[0] != "hf.co/"@[0]);
    assert("smollm2"@.subrange(2, 7)[0] != ".gguf"@[0]);
}

proof fn lemma_catalog_name_51()
    ensures
        resolve_spec("smollm2:latest"@, lowercase(trim_seq("smollm2:latest"@))) == Some(source_view("smollm2:1.7b"@, "SmolLM2-1.7B-Instruct-Q4_K_M.gguf"@, "https://huggingface.co/bartowski/SmolLM2-1.7B-Instruct-GGUF/resolve/main/SmolLM2-1.7B-Instruct-Q4_K_M.gguf"@, "1.7B"@, "smollm"@)),
{
    reveal_strlit(".gguf");
    reveal_strlit("deepseek-coder-v2");
    reveal_strlit("deepseek-coder-v2:16b");
    reveal_strlit("deepseek-coder-v2:latest");
    reveal_strlit("deepseek-r1");
    reveal_strlit("deepseek-r1:1.5b");
    reveal_strlit("deepseek-r1:7b");
    reveal_strlit("deepseek-r1:8b");
    reveal_strlit("deepseek-r1:latest");
    reveal_strlit("gemma2");
    reveal_strlit("gemma2:2b");
    reveal_strlit("gemma2:9b");
    reveal_strlit("gemma2:latest");
    reveal_strlit("hf.co/");
    reveal_strlit("http://");
    reveal_strlit("https://");
    reveal_strlit("llama2");
    reveal_strlit("llama2:7b");
    reveal_strlit("llama2:latest");
    reveal_strlit("llama3.1");
    reveal_strlit("llama3.1:8b");
    reveal_strlit("llama3.1:latest");
    reveal_strlit("llama3.2");
    reveal_strlit("llama3.2:1b");
    reveal_strlit("llama3.2:3b");
    reveal_strlit("llama3.2:latest");
    reveal_strlit("mistral");
    reveal_strlit("mistral-nemo");
    reveal_strlit("mistral-nemo:12b");
    reveal_strlit("mistral-nemo:latest");
    reveal_strlit("mistral:7b");
    reveal_strlit("mistral:latest");
    reveal_strlit("nomic-embed");
    reveal_strlit("nomic-embed-text");
    reveal_strlit("nomic-embed-text:latest");
    reveal_strlit("ollama.com/library/");
    reveal_strlit("phi3.5");
    reveal_strlit("phi3.5:3.8b");
    reveal_strlit("phi3.5:latest");
    reveal_strlit("phi4");
    reveal_strlit("phi4:14b");
    reveal_strlit("phi4:latest");
    reveal_strlit("qwen2.5");
    reveal_strlit("qwen2.5-0.5b");
    reveal_strlit("qwen2.5-0.5b-instruct-q4_k_m");
    reveal_strlit("qwen2.5-0.5b-instruct-q4_k_m:latest");
    reveal_strlit("qwen2.5-coder");
    reveal_strlit("qwen2.5-coder:1.5b");
    reveal_strlit("qwen2.5-coder:14b");
    reveal_strlit("qwen2.5-coder:7b");
    reveal_strlit("qwen2.5-coder:latest");
    reveal_strlit("qwen2.5:0.5b");
    reveal_strlit("qwen2.5:3b");
    reveal_strlit("qwen2.5:7b");
    reveal_strlit("qwen2.5:latest");
    reveal_strlit("smollm2");
    reveal_strlit("smollm2:1.7b");
    reveal_strlit("smollm2:latest");
    assert("smollm2:latest"@[0] != "deepseek-r1"@[0]);
    assert("smollm2:latest"@[0] != "deepseek-r1:latest"@[0]);
    assert("smollm2:latest"@[0] != "deepseek-r1:7b"@[0]);
    assert("smollm2:latest"@[0] != "deepseek-r1:1.5b"@[0]);
    assert("smollm2:latest"@[0] != "deepseek-r1:8b"@[0]);
    assert("smollm2:latest"@[0] != "deepseek-coder-v2"@[0]);
    assert("smollm2:latest"@[0] != "deepseek-coder-v2:latest"@[0]);
    assert("smollm2:latest"@[0] != "deepseek-coder-v2:16b"@[0]);
    assert("smollm2:latest"@[0] != "llama3.2"@[0]);
    assert("smollm2:latest"@[0] != "llama3.2:latest"@[0]);
    assert("smollm2:latest"@[0] != "llama3.2:3b"@[0]);
    assert("smollm2:latest"@[0] != "llama3.2:1b"@[0]);
    assert("smollm2:latest"@[0] != "llama3.1"@[0]);
    assert("smollm2:latest"@[0] != "llama3.1:latest"@[0]);
    assert("smollm2:latest"@[0] != "llama3.1:8b"@[0]);
    assert("smollm2:latest"@[0] != "llama2"@[0]);
    assert("smollm2:latest"@[0] != "llama2:latest"@[0]);
    assert("smollm2:latest"@[0] != "llama2:7b"@[0]);
    assert("smollm2:latest"@[0] != "qwen2.5-coder"@[0]);
    assert("smollm2:latest"@[0] != "qwen2.5-coder:latest"@[0]);
    assert("smollm2:latest"@[0] != "qwen2.5-coder:7b"@[0]);
    assert("smollm2:latest"@[0] != "qwen2.5-coder:1.5b"@[0]);
    assert("smollm2:latest"@[0] != "qwen2.5-coder:14b"@[0]);
    assert("smollm2:latest"@[0] != "qwen2.5"@[0]);
    assert("smollm2:latest"@[0] != "qwen2.5:latest"@[0]);
    assert("smollm2:latest"@[0] != "qwen2.5:7b"@[0]);
    assert("smollm2:latest"@[0] != "qwen2.5:3b"@[0]);
    assert("smollm2:latest"@[0] != "qwen2.5:0.5b"@[0]);
    assert("smollm2:latest"@[0] != "qwen2.5-0.5b"@[0]);
    assert("smollm2:latest"@[0] != "qwen2.5-0.5b-instruct-q4_k_m"@[0]);
    assert("smollm2:latest"@[0] != "qwen2.5-0.5b-instruct-q4_k_m:latest"@[0]);
    assert("smollm2:latest"@[0] != "mistral"@[0]);
    assert("smollm2:latest"@[0] != "mistral:latest"@[0]);
    assert("smollm2:latest"@[0] != "mistral:7b"@[0]);
    assert("smollm2:latest"@[0] != "mistral-nemo"@[0]);
    assert("smollm2:latest"@[0] != "mistral-nemo:latest"@[0]);
    assert("smollm2:latest"@[0] != "mistral-nemo:12b"@[0]);
    assert("smollm2:latest"@[0] != "phi4"@[0]);
    assert("smollm2:latest"@[0] != "phi4:latest"@[0]);
    assert("smollm2:latest"@[0] != "phi4:14b"@[0]);
    assert("smollm2:latest"@[0] != "phi3.5"@[0]);
    assert("smollm2:latest"@[0] != "phi3.5:latest"@[0]);
    assert("smollm2:latest"@[0] != "phi3.5:3.8b"@[0]);
    assert("smollm2:latest"@[0] != "gemma2"@[0]);
    assert("smollm2:latest"@[0] != "gemma2:latest"@[0]);
    assert("smollm2:latest"@[0] != "gemma2:2b"@[0]);
    assert("smollm2:latest"@[0] != "gemma2:9b"@[0]);
    assert("smollm2:latest"@[0] != "nomic-embed-text"@[0]);
    assert("smollm2:latest"@[0] != "nomic-embed-text:latest"@[0]);
    assert("smollm2:latest"@[0] != "nomic-embed"@[0]);
    assert forall|i: int| 0 <= i < "smollm2:latest"@.len() implies is_tag_char(#[trigger] "smollm2:latest"@[i]) by {
        assert(i == 0 || i == 1 || i == 2 || i == 3 || i == 4 || i == 5 || i == 6 || i == 7 || i == 8 || i == 9 || i == 10 || i == 11 || i == 12 || i == 13);
    }
    lemma_tag_text_is_canonical("smollm2:latest"@);
    assert("smollm2:latest"@.subrange(0, 7)[0] != "http://"@[0]);
    assert("smollm2:latest"@.subrange(0, 8)[0] != "https://"@[0]);
    assert("smollm2:latest"@.subrange(0, 6)[0] != "hf.co/"@[0]);
    assert("smollm2:latest"@.subrange(9, 14)[0] != ".gguf"@[0]);
}

proof fn lemma_catalog_name_52()
    ensures
        resolve_spec("smollm2:1.7b"@, lowercase(trim_seq("smollm2:1.7b"@))) == Some(source_view("smollm2:1.7b"@, "SmolLM2-1.7B-Instruct-Q4_K_M.gguf"@, "https://huggingface.co/bartowski/SmolLM2-1.7B-Instruct-GGUF/resolve/main/SmolLM2-1.7B-Instruct-Q4_K_M.gguf"@, "1.7B"@, "smollm"@)),
{
    reveal_strlit(".gguf");
    reveal_strlit("deepseek-coder-v2");
    reveal_strlit("deepseek-coder-v2:16b");
    reveal_strlit("deepseek-coder-v2:latest");
    reveal_strlit("deepseek-r1");
    reveal_strlit("deepseek-r1:1.5b");
    reveal_strlit("deepseek-r1:7b");
    reveal_strlit("deepseek-r1:8b");
    reveal_strlit("deepseek-r1:latest");
    reveal_strlit("gemma2");
    reveal_strlit("gemma2:2b");
    reveal_strlit("gemma2:9b");
    reveal_strlit("gemma2:latest");
    reveal_strlit("hf.co/");
    reveal_strlit("http://");
    reveal_strlit("https://");
    reveal_strlit("llama2");
    reveal_strlit("llama2:7b");
    reveal_strlit("llama2:latest");
    reveal_strlit("llama3.1");
    reveal_strlit("llama3.1:8b");
    reveal_strlit("llama3.1:latest");
    reveal_strlit("llama3.2");
    reveal_strlit("llama3.2:1b");
    reveal_strlit("llama3.2:3b");
    reveal_strlit("llama3.2:latest");
    reveal_strlit("mistral");
    reveal_strlit("mistral-nemo");
    reveal_strlit("mistral-nemo:12b");
    reveal_strlit("mistral-nemo:latest");
    reveal_strlit("mistral:7b");
    reveal_strlit("mistral:latest");
    reveal_strlit("nomic-embed");
    reveal_strlit("nomic-embed-text");
    reveal_strlit("nomic-embed-text:latest");
    reveal_strlit("ollama.com/library/");
    reveal_strlit("phi3.5");
    reveal_strlit("phi3.5:3.8b");
    reveal_strlit("phi3.5:latest");
    reveal_strlit("phi4");
    reveal_strlit("phi4:14b");
    reveal_strlit("phi4:latest");
    reveal_strlit("qwen2.5");
    reveal_strlit("qwen2.5-0.5b");
    reveal_strlit("qwen2.5-0.5b-instruct-q4_k_m");
    reveal_strlit("qwen2.5-0.5b-instruct-q4_k_m:latest");
    reveal_strlit("qwen2.5-coder");
    reveal_strlit("qwen2.5-coder:1.5b");
    reveal_strlit("qwen2.5-coder:14b");
    reveal_strlit("qwen2.5-coder:7b");
    reveal_strlit("qwen2.5-coder:latest");
    reveal_strlit("qwen2.5:0.5b");
    reveal_strlit("qwen2.5:3b");
    reveal_strlit("qwen2.5:7b");
    reveal_strlit("qwen2.5:latest");
    reveal_strlit("smollm2");
    reveal_strlit("smollm2:1.7b");
    reveal_strlit("smollm2:latest");
    assert("smollm2:1.7b"@[0] != "deepseek-r1"@[0]);
    assert("smollm2:1.7b"@[0] != "deepseek-r1:latest"@[0]);
    assert("smollm2:1.7b"@[0] != "deepseek-r1:7b"@[0]);
    assert("smollm2:1.7b"@[0] != "deepseek-r1:1.5b"@[0]);
    assert("smollm2:1.7b"@[0] != "deepseek-r1:8b"@[0]);
    assert("smollm2:1.7b"@[0] != "deepseek-coder-v2"@[0]);
    assert("smollm2:1.7b"@[0] != "deepseek-coder-v2:latest"@[0]);
    assert("smollm2:1.7b"@[0] != "deepseek-coder-v2:16b"@[0]);
    assert("smollm2:1.7b"@[0] != "llama3.2"@[0]);
    assert("smollm2:1.7b"@[0] != "llama3.2:latest"@[0]);
    assert("smollm2:1.7b"@[0] != "llama3.2:3b"@[0]);
    assert("smollm2:1.7b"@[0] != "llama3.2:1b"@[0]);
    assert("smollm2:1.7b"@[0] != "llama3.1"@[0]);
    assert("smollm2:1.7b"@[0] != "llama3.1:latest"@[0]);
    assert("smollm2:1.7b"@[0] != "llama3.1:8b"@[0]);
    assert("smollm2:1.7b"@[0] != "llama2"@[0]);
    assert("smollm2:1.7b"@[0] != "llama2:latest"@[0]);
    assert("smollm2:1.7b"@[0] != "llama2:7b"@[0]);
    assert("smollm2:1.7b"@[0] != "qwen2.5-coder"@[0]);
    assert("smollm2:1.7b"@[0] != "qwen2.5-coder:latest"@[0]);
    assert("smollm2:1.7b"@[0] != "qwen2.5-coder:7b"@[0]);
    assert("smollm2:1.7b"@[0] != "qwen2.5-coder:1.5b"@[0]);
    assert("smollm2:1.7b"@[0] != "qwen2.5-coder:14b"@[0]);
    assert("smollm2:1.7b"@[0] != "qwen2.5"@[0]);
    assert("smollm2:1.7b"@[0] != "qwen2.5:latest"@[0]);
    assert("smollm2:1.7b"@[0] != "qwen2.5:7b"@[0]);
    assert("smollm2:1.7b"@[0] != "qwen2.5:3b"@[0]);
    assert("smollm2:1.7b"@[0] != "qwen2.5:0.5b"@[0]);
    assert("smollm2:1.7b"@[0] != "qwen2.5-0.5b"@[0]);
    assert("smollm2:1.7b"@[0] != "qwen2.5-0.5b-instruct-q4_k_m"@[0]);
    assert("smollm2:1.7b"@[0] != "qwen2.5-0.5b-instruct-q4_k_m:latest"@[0]);
    assert("smollm2:1.7b"@[0] != "mistral"@[0]);
    assert("smollm2:1.7b"@[0] != "mistral:latest"@[0]);
    assert("smollm2:1.7b"@[0] != "mistral:7b"@[0]);
    assert("smollm2:1.7b"@[0] != "mistral-nemo"@[0]);
    assert("smollm2:1.7b"@[0] != "mistral-nemo:latest"@[0]);
    assert("smollm2:1.7b"@[0] != "mistral-nemo:12b"@[0]);
    assert("smollm2:1.7b"@[0] != "phi4"@[0]);
    assert("smollm2:1.7b"@[0] != "phi4:latest"@[0]);
    assert("smollm2:1.7b"@[0] != "phi4:14b"@[0]);
    assert("smollm2:1.7b"@[0] != "phi3.5"@[0]);
    assert("smollm2:1.7b"@[0] != "phi3.5:latest"@[0]);
    assert("smollm2:1.7b"@[0] != "phi3.5:3.8b"@[0]);
    assert("smollm2:1.7b"@[0] != "gemma2"@[0]);
    assert("smollm2:1.7b"@[0] != "gemma2:latest"@[0]);
    assert("smollm2:1.7b"@[0] != "gemma2:2b"@[0]);
    assert("smollm2:1.7b"@[0] != "gemma2:9b"@[0]);
    assert("smollm2:1.7b"@[0] != "nomic-embed-text"@[0]);
    assert("smollm2:1.7b"@[0] != "nomic-embed-text:latest"@[0]);
    assert("smollm2:1.7b"@[0] != "nomic-embed"@[0]);
    assert forall|i: int| 0 <= i < "smollm2:1.7b"@.len() implies is_tag_char(#[trigger] "smollm2:1.7b"@[i]) by {
        assert(i == 0 || i == 1 || i == 2 || i == 3 || i == 4 || i == 5 || i == 6 || i == 7 || i == 8 || i == 9 || i == 10 || i == 11);
    }
    lemma_tag_text_is_canonical("smollm2:1.7b"@);
    assert("smollm2:1.7b"@.subrange(0, 7)[0] != "http://"@[0]);
    assert("smollm2:1.7b"@.subrange(0, 8)[0] != "https://"@[0]);
    assert("smollm2:1.7b"@.subrange(0, 6)[0] != "hf.co/"@[0]);
    assert("smollm2:1.7b"@.subrange(7, 12)[0] != ".gguf"@[0]);
}

proof fn lemma_catalog_name_53()
    ensures
        resolve_spec("smollm2:360m"@, lowercase(trim_seq("smollm2:360m"@))) == Some(source_view("smollm2:360m"@, "SmolLM2-360M-Instruct-Q4_K_M.gguf"@, "https://huggingface.co/bartowski/SmolLM2-360M-Instruct-GGUF/resolve/main/SmolLM2-360M-Instruct-Q4_K_M.gguf"@, "360M"@, "smollm"@)),
{
    reveal_strlit(".gguf");
    reveal_strlit("deepseek-coder-v2");
    reveal_strlit("deepseek-coder-v2:16b");
    reveal_strlit("deepseek-coder-v2:latest");
    reveal_strlit("deepseek-r1");
    reveal_strlit("deepseek-r1:1.5b");
    reveal_strlit("deepseek-r1:7b");
    reveal_strlit("deepseek-r1:8b");
    reveal_strlit("deepseek-r1:latest");
    reveal_strlit("gemma2");
    reveal_strlit("gemma2:2b");
    reveal_strlit("gemma2:9b");
    reveal_strlit("gemma2:latest");
    reveal_strlit("hf.co/");
    reveal_strlit("http://");
    reveal_strlit("https://");
    reveal_strlit("llama2");
    reveal_strlit("llama2:7b");
    reveal_strlit("llama2:latest");
    reveal_strlit("llama3.1");
    reveal_strlit("llama3.1:8b");
    reveal_strlit("llama3.1:latest");
    reveal_strlit("llama3.2");
    reveal_strlit("llama3.2:1b");
    reveal_strlit("llama3.2:3b");
    reveal_strlit("llama3.2:latest");
    reveal_strlit("mistral");
    reveal_strlit("mistral-nemo");
    reveal_strlit("mistral-nemo:12b");
    reveal_strlit("mistral-nemo:latest");
    reveal_strlit("mistral:7b");
    reveal_strlit("mistral:latest");
    reveal_strlit("nomic-embed");
    reveal_strlit("nomic-embed-text");
    reveal_strlit("nomic-embed-text:latest");
    reveal_strlit("ollama.com/library/");
    reveal_strlit("phi3.5");
    reveal_strlit("phi3.5:3.8b");
    reveal_strlit("phi3.5:latest");
    reveal_strlit("phi4");
    reveal_strlit("phi4:14b");
    reveal_strlit("phi4:latest");
    reveal_strlit("qwen2.5");
    reveal_strlit("qwen2.5-0.5b");
    reveal_strlit("qwen2.5-0.5b-instruct-q4_k_m");
    reveal_strlit("qwen2.5-0.5b-instruct-q4_k_m:latest");
    reveal_strlit("qwen2.5-coder");
    reveal_strlit("qwen2.5-coder:1.5b");
    reveal_strlit("qwen2.5-coder:14b");
    reveal_strlit("qwen2.5-coder:7b");
    reveal_strlit("qwen2.5-coder:latest");
    reveal_strlit("qwen2.5:0.5b");
    reveal_strlit("qwen2.5:3b");
    reveal_strlit("qwen2.5:7b");
    reveal_strlit("qwen2.5:latest");
    reveal_strlit("smollm2");
    reveal_strlit("smollm2:1.7b");
    reveal_strlit("smollm2:360m");
    reveal_strlit("smollm2:latest");
    assert("smollm2:360m"@[0] != "deepseek-r1"@[0]);
    assert("smollm2:360m"@[0] != "deepseek-r1:latest"@[0]);
    assert("smollm2:360m"@[0] != "deepseek-r1:7b"@[0]);
    assert("smollm2:360m"@[0] != "deepseek-r1:1.5b"@[0]);
    assert("smollm2:360m"@[0] != "deepseek-r1:8b"@[0]);
    assert("smollm2:360m"@[0] != "deepseek-coder-v2"@[0]);
    assert("smollm2:360m"@[0] != "deepseek-coder-v2:latest"@[0]);
    assert("smollm2:360m"@[0] != "deepseek-coder-v2:16b"@[0]);
    assert("smollm2:360m"@[0] != "llama3.2"@[0]);
    assert("smollm2:360m"@[0] != "llama3.2:latest"@[0]);
    assert("smollm2:360m"@[0] != "llama3.2:3b"@[0]);
    assert("smollm2:360m"@[0] != "llama3.2:1b"@[0]);
    assert("smollm2:360m"@[0] != "llama3.1"@[0]);
    assert("smollm2:360m"@[0] != "llama3.1:latest"@[0]);
    assert("smollm2:360m"@[0] != "llama3.1:8b"@[0]);
    assert("smollm2:360m"@[0] != "llama2"@[0]);
    assert("smollm2:360m"@[0] != "llama2:latest"@[0]);
    assert("smollm2:360m"@[0] != "llama2:7b"@[0]);
    assert("smollm2:360m"@[0] != "qwen2.5-coder"@[0]);
    assert("smollm2:360m"@[0] != "qwen2.5-coder:latest"@[0]);
    assert("smollm2:360m"@[0] != "qwen2.5-coder:7b"@[0]);
    assert("smollm2:360m"@[0] != "qwen2.5-coder:1.5b"@[0]);
    assert("smollm2:360m"@[0] != "qwen2.5-coder:14b"@[0]);
    assert("smollm2:360m"@[0] != "qwen2.5"@[0]);
    assert("smollm2:360m"@[0] != "qwen2.5:latest"@[0]);
    assert("smollm2:360m"@[0] != "qwen2.5:7b"@[0]);
    assert("smollm2:360m"@[0] != "qwen2.5:3b"@[0]);
    assert("smollm2:360m"@[0] != "qwen2.5:0.5b"@[0]);
    assert("smollm2:360m"@[0] != "qwen2.5-0.5b"@[0]);
    assert("smollm2:360m"@[0] != "qwen2.5-0.5b-instruct-q4_k_m"@[0]);
    assert("smollm2:360m"@[0] != "qwen2.5-0.5b-instruct-q4_k_m:latest"@[0]);
    assert("smollm2:360m"@[0] != "mistral"@[0]);
    assert("smollm2:360m"@[0] != "mistral:latest"@[0]);
    assert("smollm2:360m"@[0] != "mistral:7b"@[0]);
    assert("smollm2:360m"@[0] != "mistral-nemo"@[0]);
    assert("smollm2:360m"@[0] != "mistral-nemo:latest"@[0]);
    assert("smollm2:360m"@[0] != "mistral-nemo:12b"@[0]);
    assert("smollm2:360m"@[0] != "phi4"@[0]);
    assert("smollm2:360m"@[0] != "phi4:latest"@[0]);
    assert("smollm2:360m"@[0] != "phi4:14b"@[0]);
    assert("smollm2:360m"@[0] != "phi3.5"@[0]);
    assert("smollm2:360m"@[0] != "phi3.5:latest"@[0]);
    assert("smollm2:360m"@[0] != "phi3.5:3.8b"@[0]);
    assert("smollm2:360m"@[0] != "gemma2"@[0]);
    assert("smollm2:360m"@[0] != "gemma2:latest"@[0]);
    assert("smollm2:360m"@[0] != "gemma2:2b"@[0]);
    assert("smollm2:360m"@[0] != "gemma2:9b"@[0]);
    assert("smollm2:360m"@[0] != "nomic-embed-text"@[0]);
    assert("smollm2:360m"@[0] != "nomic-embed-text:latest"@[0]);
    assert("smollm2:360m"@[0] != "nomic-embed"@[0]);
    assert("smollm2:360m"@.len() != "smollm2"@.len());
    assert("smollm2:360m"@[8] != "smollm2:latest"@[8]);
    assert("smollm2:360m"@[8] != "smollm2:1.7b"@[8]);
    assert forall|i: int| 0 <= i < "smollm2:360m"@.len() implies is_tag_char(#[trigger] "smollm2:360m"@[i]) by {
        assert(i == 0 || i == 1 || i == 2 || i == 3 || i == 4 || i == 5 || i == 6 || i == 7 || i == 8 || i == 9 || i == 10 || i == 11);
    }
    lemma_tag_text_is_canonical("smollm2:360m"@);
    assert("smollm2:360m"@.subrange(0, 7)[0] != "http://"@[0]);
    assert("smollm2:360m"@.subrange(0, 8)[0] != "https://"@[0]);
    assert("smollm2:360m"@.subrange(0, 6)[0] != "hf.co/"@[0]);
    assert("smollm2:360m"@.subrange(7, 12)[0] != ".gguf"@[0]);
}

proof fn lemma_catalog_name_54()
    ensures
        resolve_spec("hermes3"@, lowercase(trim_seq("hermes3"@))) == Some(source_view("hermes3:8b"@, "Hermes-3-Llama-3.1-8B-Q4_K_M.gguf"@, "https://huggingface.co/NousResearch/Hermes-3-Llama-3.1-8B-GGUF/resolve/main/Hermes-3-Llama-3.1-8B-Q4_K_M.gguf"@, "8B"@, "llama"@)),
{
    reveal_strlit(".gguf");
    reveal_strlit("deepseek-coder-v2");
    reveal_strlit("deepseek-coder-v2:16b");
    reveal_strlit("deepseek-coder-v2:latest");
    reveal_strlit("deepseek-r1");
    reveal_strlit("deepseek-r1:1.5b");
    reveal_strlit("deepseek-r1:7b");
    reveal_strlit("deepseek-r1:8b");
    reveal_strlit("deepseek-r1:latest");
    reveal_strlit("gemma2");
    reveal_strlit("gemma2:2b");
    reveal_strlit("gemma2:9b");
    reveal_strlit("gemma2:latest");
    reveal_strlit("hermes3");
    reveal_strlit("hermes3:8b");
    reveal_strlit("hermes3:latest");
    reveal_strlit("hf.co/");
    reveal_strlit("http://");
    reveal_strlit("https://");
    reveal_strlit("llama2");
    reveal_strlit("llama2:7b");
    reveal_strlit("llama2:latest");
    reveal_strlit("llama3.1");
    reveal_strlit("llama3.1:8b");
    reveal_strlit("llama3.1:latest");
    reveal_strlit("llama3.2");
    reveal_strlit("llama3.2:1b");
    reveal_strlit("llama3.2:3b");
    reveal_strlit("llama3.2:latest");
    reveal_strlit("mistral");
    reveal_strlit("mistral-nemo");
    reveal_strlit("mistral-nemo:12b");
    reveal_strlit("mistral-nemo:latest");
    reveal_strlit("mistral:7b");
    reveal_strlit("mistral:latest");
    reveal_strlit("nomic-embed");
    reveal_strlit("nomic-embed-text");
    reveal_strlit("nomic-embed-text:latest");
    reveal_strlit("ollama.com/library/");
    reveal_strlit("phi3.5");
    reveal_strlit("phi3.5:3.8b");
    reveal_strlit("phi3.5:latest");
    reveal_strlit("phi4");
    reveal_strlit("phi4:14b");
    reveal_strlit("phi4:latest");
    reveal_strlit("qwen2.5");
    reveal_strlit("qwen2.5-0.5b");
    reveal_strlit("qwen2.5-0.5b-instruct-q4_k_m");
    reveal_strlit("qwen2.5-0.5b-instruct-q4_k_m:latest");
    reveal_strlit("qwen2.5-coder");
    reveal_strlit("qwen2.5-coder:1.5b");
    reveal_strlit("qwen2.5-coder:14b");
    reveal_strlit("qwen2.5-coder:7b");
    reveal_strlit("qwen2.5-coder:latest");
    reveal_strlit("qwen2.5:0.5b");
    reveal_strlit("qwen2.5:3b");
    reveal_strlit("qwen2.5:7b");
    reveal_strlit("qwen2.5:latest");
    reveal_strlit("smollm2");
    reveal_strlit("smollm2:1.7b");
    reveal_strlit("smollm2:360m");
    reveal_strlit("smollm2:latest");
    assert("hermes3"@[0] != "deepseek-r1"@[0]);
    assert("hermes3"@[0] != "deepseek-r1:latest"@[0]);
    assert("hermes3"@[0] != "deepseek-r1:7b"@[0]);
    assert("hermes3"@[0] != "deepseek-r1:1.5b"@[0]);
    assert("hermes3"@[0] != "deepseek-r1:8b"@[0]);
    assert("hermes3"@[0] != "deepseek-coder-v2"@[0]);
    assert("hermes3"@[0] != "deepseek-coder-v2:latest"@[0]);
    assert("hermes3"@[0] != "deepseek-coder-v2:16b"@[0]);
    assert("hermes3"@[0] != "llama3.2"@[0]);
    assert("hermes3"@[0] != "llama3.2:latest"@[0]);
    assert("hermes3"@[0] != "llama3.2:3b"@[0]);
    assert("hermes3"@[0] != "llama3.2:1b"@[0]);
    assert("hermes3"@[0] != "llama3.1"@[0]);
    assert("hermes3"@[0] != "llama3.1:latest"@[0]);
    assert("hermes3"@[0] != "llama3.1:8b"@[0]);
    assert("hermes3"@[0] != "llama2"@[0]);
    assert("hermes3"@[0] != "llama2:latest"@[0]);
    assert("hermes3"@[0] != "llama2:7b"@[0]);
    assert("hermes3"@[0] != "qwen2.5-coder"@[0]);
    assert("hermes3"@[0] != "qwen2.5-coder:latest"@[0]);
    assert("hermes3"@[0] != "qwen2.5-coder:7b"@[0]);
    assert("hermes3"@[0] != "qwen2.5-coder:1.5b"@[0]);
    assert("hermes3"@[0] != "qwen2.5-coder:14b"@[0]);
    assert("hermes3"@[0] != "qwen2.5"@[0]);
    assert("hermes3"@[0] != "qwen2.5:latest"@[0]);
    assert("hermes3"@[0] != "qwen2.5:7b"@[0]);
    assert("hermes3"@[0] != "qwen2.5:3b"@[0]);
    assert("hermes3"@[0] != "qwen2.5:0.5b"@[0]);
    assert("hermes3"@[0] != "qwen2.5-0.5b"@[0]);
    assert("hermes3"@[0] != "qwen2.5-0.5b-instruct-q4_k_m"@[0]);
    assert("hermes3"@[0] != "qwen2.5-0.5b-instruct-q4_k_m:latest"@[0]);
    assert("hermes3"@[0] != "mistral"@[0]);
    assert("hermes3"@[0] != "mistral:latest"@[0]);
    assert("hermes3"@[0] != "mistral:7b"@[0]);
    assert("hermes3"@[0] != "mistral-nemo"@[0]);
    assert("hermes3"@[0] != "mistral-nemo:latest"@[0]);
    assert("hermes3"@[0] != "mistral-nemo:12b"@[0]);
    assert("hermes3"@[0] != "phi4"@[0]);
    assert("hermes3"@[0] != "phi4:latest"@[0]);
    assert("hermes3"@[0] != "phi4:14b"@[0]);
    assert("hermes3"@[0] != "phi3.5"@[0]);
    assert("hermes3"@[0] != "phi3.5:latest"@[0]);
    assert("hermes3"@[0] != "phi3.5:3.8b"@[0]);
    assert("hermes3"@[0] != "gemma2"@[0]);
    assert("hermes3"@[0] != "gemma2:latest"@[0]);
    assert("hermes3"@[0] != "gemma2:2b"@[0]);
    assert("hermes3"@[0] != "gemma2:9b"@[0]);
    assert("hermes3"@[0] != "nomic-embed-text"@[0]);
    assert("hermes3"@[0] != "nomic-embed-text:latest"@[0]);
    assert("hermes3"@[0] != "nomic-embed"@[0]);
    assert("hermes3"@[0] != "smollm2"@[0]);
    assert("hermes3"@[0] != "smollm2:latest"@[0]);
    assert("hermes3"@[0] != "smollm2:1.7b"@[0]);
    assert("hermes3"@[0] != "smollm2:360m"@[0]);
    assert forall|i: int| 0 <= i < "hermes3"@.len() implies is_tag_char(#[trigger] "hermes3"@[i]) by {
        assert(i == 0 || i == 1 || i == 2 || i == 3 || i == 4 || i == 5 || i == 6);
    }
    lemma_tag_text_is_canonical("hermes3"@);
    assert("hermes3"@.subrange(0, 7)[1] != "http://"@[1]);
    assert("hermes3"@.subrange(0, 6)[1] != "hf.co/"@[1]);
    assert("hermes3"@.subrange(2, 7)[0] != ".gguf"@[0]);
}

proof fn lemma_catalog_name_55()
    ensures
        resolve_spec("hermes3:latest"@, lowercase(trim_seq("hermes3:latest"@))) == Some(source_view("hermes3:8b"@, "Hermes-3-Llama-3.1-8B-Q4_K_M.gguf"@, "https://huggingface.co/NousResearch/Hermes-3-Llama-3.1-8B-GGUF/resolve/main/Hermes-3-Llama-3.1-8B-Q4_K_M.gguf"@, "8B"@, "llama"@)),
{
    reveal_strlit(".gguf");
    reveal_strlit("deepseek-coder-v2");
    reveal_strlit("deepseek-coder-v2:16b");
    reveal_strlit("deepseek-coder-v2:latest");
    reveal_strlit("deepseek-r1");
    reveal_strlit("deepseek-r1:1.5b");
    reveal_strlit("deepseek-r1:7b");
    reveal_strlit("deepseek-r1:8b");
    reveal_strlit("deepseek-r1:latest");
    reveal_strlit("gemma2");
    reveal_strlit("gemma2:2b");
    reveal_strlit("gemma2:9b");
    reveal_strlit("gemma2:latest");
    reveal_strlit("hermes3");
    reveal_strlit("hermes3:8b");
    reveal_strlit("hermes3:latest");
    reveal_strlit("hf.co/");
    reveal_strlit("http://");
    reveal_strlit("https://");
    reveal_strlit("llama2");
    reveal_strlit("llama2:7b");
    reveal_strlit("llama2:latest");
    reveal_strlit("llama3.1");
    reveal_strlit("llama3.1:8b");
    reveal_strlit("llama3.1:latest");
    reveal_strlit("llama3.2");
    reveal_strlit("llama3.2:1b");
    reveal_strlit("llama3.2:3b");
    reveal_strlit("llama3.2:latest");
    reveal_strlit("mistral");
    reveal_strlit("mistral-nemo");
    reveal_strlit("mistral-nemo:12b");
    reveal_strlit("mistral-nemo:latest");
    reveal_strlit("mistral:7b");
    reveal_strlit("mistral:latest");
    reveal_strlit("nomic-embed");
    reveal_strlit("nomic-embed-text");
    reveal_strlit("nomic-embed-text:latest");
    reveal_strlit("ollama.com/library/");
    reveal_strlit("phi3.5");
    reveal_strlit("phi3.5:3.8b");
    reveal_strlit("phi3.5:latest");
    reveal_strlit("phi4");
    reveal_strlit("phi4:14b");
    reveal_strlit("phi4:latest");
    reveal_strlit("qwen2.5");
    reveal_strlit("qwen2.5-0.5b");
    reveal_strlit("qwen2.5-0.5b-instruct-q4_k_m");
    reveal_strlit("qwen2.5-0.5b-instruct-q4_k_m:latest");
    reveal_strlit("qwen2.5-coder");
    reveal_strlit("qwen2.5-coder:1.5b");
    reveal_strlit("qwen2.5-coder:14b");
    reveal_strlit("qwen2.5-coder:7b");
    reveal_strlit("qwen2.5-coder:latest");
    reveal_strlit("qwen2.5:0.5b");
    reveal_strlit("qwen2.5:3b");
    reveal_strlit("qwen2.5:7b");
    reveal_strlit("qwen2.5:latest");
    reveal_strlit("smollm2");
    reveal_strlit("smollm2:1.7b");
    reveal_strlit("smollm2:360m");
    reveal_strlit("smollm2:latest");
    assert("hermes3:latest"@[0] != "deepseek-r1"@[0]);
    assert("hermes3:latest"@[0] != "deepseek-r1:latest"@[0]);
    assert("hermes3:latest"@[0] != "deepseek-r1:7b"@[0]);
    assert("hermes3:latest"@[0] != "deepseek-r1:1.5b"@[0]);
    assert("hermes3:latest"@[0] != "deepseek-r1:8b"@[0]);
    assert("hermes3:latest"@[0] != "deepseek-coder-v2"@[0]);
    assert("hermes3:latest"@[0] != "deepseek-coder-v2:latest"@[0]);
    assert("hermes3:latest"@[0] != "deepseek-coder-v2:16b"@[0]);
    assert("hermes3:latest"@[0] != "llama3.2"@[0]);
    assert("hermes3:latest"@[0] != "llama3.2:latest"@[0]);
    assert("hermes3:latest"@[0] != "llama3.2:3b"@[0]);
    assert("hermes3:latest"@[0] != "llama3.2:1b"@[0]);
    assert("hermes3:latest"@[0] != "llama3.1"@[0]);
    assert("hermes3:latest"@[0] != "llama3.1:latest"@[0]);
    assert("hermes3:latest"@[0] != "llama3.1:8b"@[0]);
    assert("hermes3:latest"@[0] != "llama2"@[0]);
    assert("hermes3:latest"@[0] != "llama2:latest"@[0]);
    assert("hermes3:latest"@[0] != "llama2:7b"@[0]);
    assert("hermes3:latest"@[0] != "qwen2.5-coder"@[0]);
    assert("hermes3:latest"@[0] != "qwen2.5-coder:latest"@[0]);
    assert("hermes3:latest"@[0] != "qwen2.5-coder:7b"@[0]);
    assert("hermes3:latest"@[0] != "qwen2.5-coder:1.5b"@[0]);
    assert("hermes3:latest"@[0] != "qwen2.5-coder:14b"@[0]);
    assert("hermes3:latest"@[0] != "qwen2.5"@[0]);
    assert("hermes3:latest"@[0] != "qwen2.5:latest"@[0]);
    assert("hermes3:latest"@[0] != "qwen2.5:7b"@[0]);
    assert("hermes3:latest"@[0] != "qwen2.5:3b"@[0]);
    assert("hermes3:latest"@[0] != "qwen2.5:0.5b"@[0]);
    assert("hermes3:latest"@[0] != "qwen2.5-0.5b"@[0]);
    assert("hermes3:latest"@[0] != "qwen2.5-0.5b-instruct-q4_k_m"@[0]);
    assert("hermes3:latest"@[0] != "qwen2.5-0.5b-instruct-q4_k_m:latest"@[0]);
    assert("hermes3:latest"@[0] != "mistral"@[0]);
    assert("hermes3:latest"@[0] != "mistral:latest"@[0]);
    assert("hermes3:latest"@[0] != "mistral:7b"@[0]);
    assert("hermes3:latest"@[0] != "mistral-nemo"@[0]);
    assert("hermes3:latest"@[0] != "mistral-nemo:latest"@[0]);
    assert("hermes3:latest"@[0] != "mistral-nemo:12b"@[0]);
    assert("hermes3:latest"@[0] != "phi4"@[0]);
    assert("hermes3:latest"@[0] != "phi4:latest"@[0]);
    assert("hermes3:latest"@[0] != "phi4:14b"@[0]);
    assert("hermes3:latest"@[0] != "phi3.5"@[0]);
    assert("hermes3:latest"@[0] != "phi3.5:latest"@[0]);
    assert("hermes3:latest"@[0] != "phi3.5:3.8b"@[0]);
    assert("hermes3:latest"@[0] != "gemma2"@[0]);
    assert("hermes3:latest"@[0] != "gemma2:latest"@[0]);
    assert("hermes3:latest"@[0] != "gemma2:2b"@[0]);
    assert("hermes3:latest"@[0] != "gemma2:9b"@[0]);
    assert("hermes3:latest"@[0] != "nomic-embed-text"@[0]);
    assert("hermes3:latest"@[0] != "nomic-embed-text:latest"@[0]);
    assert("hermes3:latest"@[0] != "nomic-embed"@[0]);
    assert("hermes3:latest"@[0] != "smollm2"@[0]);
    assert("hermes3:latest"@[0] != "smollm2:latest"@[0]);
    assert("hermes3:latest"@[0] != "smollm2:1.7b"@[0]);
    assert("hermes3:latest"@[0] != "smollm2:360m"@[0]);
    assert forall|i: int| 0 <= i < "hermes3:latest"@.len() implies is_tag_char(#[trigger] "hermes3:latest"@[i]) by {
        assert(i == 0 || i == 1 || i == 2 || i == 3 || i == 4 || i == 5 || i == 6 || i == 7 || i == 8 || i == 9 || i == 10 || i == 11 || i == 12 || i == 13);
    }
    lemma_tag_text_is_canonical("hermes3:latest"@);
    assert("hermes3:latest"@.subrange(0, 7)[1] != "http://"@[1]);
    assert("hermes3:latest"@.subrange(0, 8)[1] != "https://"@[1]);
    assert("hermes3:latest"@.subrange(0, 6)[1] != "hf.co/"@[1]);
    assert("hermes3:latest"@.subrange(9, 14)[0] != ".gguf"@[0]);
}

proof fn lemma_catalog_name_56()
    ensures
        resolve_spec("hermes3:8b"@, lowercase(trim_seq("hermes3:8b"@))) == Some(source_view("hermes3:8b"@, "Hermes-3-Llama-3.1-8B-Q4_K_M.gguf"@, "https://huggingface.co/NousResearch/Hermes-3-Llama-3.1-8B-GGUF/resolve/main/Hermes-3-Llama-3.1-8B-Q4_K_M.gguf"@, "8B"@, "llama"@)),
{
    reveal_strlit(".gguf");
    reveal_strlit("deepseek-coder-v2");
    reveal_strlit("deepseek-coder-v2:16b");
    reveal_strlit("deepseek-coder-v2:latest");
    reveal_strlit("deepseek-r1");
    reveal_strlit("deepseek-r1:1.5b");
    reveal_strlit("deepseek-r1:7b");
    reveal_strlit("deepseek-r1:8b");
    reveal_strlit("deepseek-r1:latest");
    reveal_strlit("gemma2");
    reveal_strlit("gemma2:2b");
    reveal_strlit("gemma2:9b");
    reveal_strlit("gemma2:latest");
    reveal_strlit("hermes3");
    reveal_strlit("hermes3:8b");
    reveal_strlit("hermes3:latest");
    reveal_strlit("hf.co/");
    reveal_strlit("http://");
    reveal_strlit("https://");
    reveal_strlit("llama2");
    reveal_strlit("llama2:7b");
    reveal_strlit("llama2:latest");
    reveal_strlit("llama3.1");
    reveal_strlit("llama3.1:8b");
    reveal_strlit("llama3.1:latest");
    reveal_strlit("llama3.2");
    reveal_strlit("llama3.2:1b");
    reveal_strlit("llama3.2:3b");
    reveal_strlit("llama3.2:latest");
    reveal_strlit("mistral");
    reveal_strlit("mistral-nemo");
    reveal_strlit("mistral-nemo:12b");
    reveal_strlit("mistral-nemo:latest");
    reveal_strlit("mistral:7b");
    reveal_strlit("mistral:latest");
    reveal_strlit("nomic-embed");
    reveal_strlit("nomic-embed-text");
    reveal_strlit("nomic-embed-text:latest");
    reveal_strlit("ollama.com/library/");
    reveal_strlit("phi3.5");
    reveal_strlit("phi3.5:3.8b");
    reveal_strlit("phi3.5:latest");
    reveal_strlit("phi4");
    reveal_strlit("phi4:14b");
    reveal_strlit("phi4:latest");
    reveal_strlit("qwen2.5");
    reveal_strlit("qwen2.5-0.5b");
    reveal_strlit("qwen2.5-0.5b-instruct-q4_k_m");
    reveal_strlit("qwen2.5-0.5b-instruct-q4_k_m:latest");
    reveal_strlit("qwen2.5-coder");
    reveal_strlit("qwen2.5-coder:1.5b");
    reveal_strlit("qwen2.5-coder:14b");
    reveal_strlit("qwen2.5-coder:7b");
    reveal_strlit("qwen2.5-coder:latest");
    reveal_strlit("qwen2.5:0.5b");
    reveal_strlit("qwen2.5:3b");
    reveal_strlit("qwen2.5:7b");
    reveal_strlit("qwen2.5:latest");
    reveal_strlit("smollm2");
    reveal_strlit("smollm2:1.7b");
    reveal_strlit("smollm2:360m");
    reveal_strlit("smollm2:latest");
    assert("hermes3:8b"@[0] != "deepseek-r1"@[0]);
    assert("hermes3:8b"@[0] != "deepseek-r1:latest"@[0]);
    assert("hermes3:8b"@[0] != "deepseek-r1:7b"@[0]);
    assert("hermes3:8b"@[0] != "deepseek-r1:1.5b"@[0]);
    assert("hermes3:8b"@[0] != "deepseek-r1:8b"@[0]);
    assert("hermes3:8b"@[0] != "deepseek-coder-v2"@[0]);
    assert("hermes3:8b"@[0] != "deepseek-coder-v2:latest"@[0]);
    assert("hermes3:8b"@[0] != "deepseek-coder-v2:16b"@[0]);
    assert("hermes3:8b"@[0] != "llama3.2"@[0]);
    assert("hermes3:8b"@[0] != "llama3.2:latest"@[0]);
    assert("hermes3:8b"@[0] != "llama3.2:3b"@[0]);
    assert("hermes3:8b"@[0] != "llama3.2:1b"@[0]);
    assert("hermes3:8b"@[0] != "llama3.1"@[0]);
    assert("hermes3:8b"@[0] != "llama3.1:latest"@[0]);
    assert("hermes3:8b"@[0] != "llama3.1:8b"@[0]);
    assert("hermes3:8b"@[0] != "llama2"@[0]);
    assert("hermes3:8b"@[0] != "llama2:latest"@[0]);
    assert("hermes3:8b"@[0] != "llama2:7b"@[0]);
    assert("hermes3:8b"@[0] != "qwen2.5-coder"@[0]);
    assert("hermes3:8b"@[0] != "qwen2.5-coder:latest"@[0]);
    assert("hermes3:8b"@[0] != "qwen2.5-coder:7b"@[0]);
    assert("hermes3:8b"@[0] != "qwen2.5-coder:1.5b"@[0]);
    assert("hermes3:8b"@[0] != "qwen2.5-coder:14b"@[0]);
    assert("hermes3:8b"@[0] != "qwen2.5"@[0]);
    assert("hermes3:8b"@[0] != "qwen2.5:latest"@[0]);
    assert("hermes3:8b"@[0] != "qwen2.5:7b"@[0]);
    assert("hermes3:8b"@[0] != "qwen2.5:3b"@[0]);
    assert("hermes3:8b"@[0] != "qwen2.5:0.5b"@[0]);
    assert("hermes3:8b"@[0] != "qwen2.5-0.5b"@[0]);
    assert("hermes3:8b"@[0] != "qwen2.5-0.5b-instruct-q4_k_m"@[0]);
    assert("hermes3:8b"@[0] != "qwen2.5-0.5b-instruct-q4_k_m:latest"@[0]);
    assert("hermes3:8b"@[0] != "mistral"@[0]);
    assert("hermes3:8b"@[0] != "mistral:latest"@[0]);
    assert("hermes3:8b"@[0] != "mistral:7b"@[0]);
    assert("hermes3:8b"@[0] != "mistral-nemo"@[0]);
    assert("hermes3:8b"@[0] != "mistral-nemo:latest"@[0]);
    assert("hermes3:8b"@[0] != "mistral-nemo:12b"@[0]);
    assert("hermes3:8b"@[0] != "phi4"@[0]);
    assert("hermes3:8b"@[0] != "phi4:latest"@[0]);
    assert("hermes3:8b"@[0] != "phi4:14b"@[0]);
    assert("hermes3:8b"@[0] != "phi3.5"@[0]);
    assert("hermes3:8b"@[0] != "phi3.5:latest"@[0]);
    assert("hermes3:8b"@[0] != "phi3.5:3.8b"@[0]);
    assert("hermes3:8b"@[0] != "gemma2"@[0]);
    assert("hermes3:8b"@[0] != "gemma2:latest"@[0]);
    assert("hermes3:8b"@[0] != "gemma2:2b"@[0]);
    assert("hermes3:8b"@[0] != "gemma2:9b"@[0]);
    assert("hermes3:8b"@[0] != "nomic-embed-text"@[0]);
    assert("hermes3:8b"@[0] != "nomic-embed-text:latest"@[0]);
    assert("hermes3:8b"@[0] != "nomic-embed"@[0]);
    assert("hermes3:8b"@[0] != "smollm2"@[0]);
    assert("hermes3:8b"@[0] != "smollm2:latest"@[0]);
    assert("hermes3:8b"@[0] != "smollm2:1.7b"@[0]);
    assert("hermes3:8b"@[0] != "smollm2:360m"@[0]);
    assert forall|i: int| 0 <= i < "hermes3:8b"@.len() implies is_tag_char(#[trigger] "hermes3:8b"@[i]) by {
        assert(i == 0 || i == 1 || i == 2 || i == 3 || i == 4 || i == 5 || i == 6 || i == 7 || i == 8 || i == 9);
    }
    lemma_tag_text_is_canonical("hermes3:8b"@);
    assert("hermes3:8b"@.subrange(0, 7)[1] != "http://"@[1]);
    assert("hermes3:8b"@.subrange(0, 8)[1] != "https://"@[1]);
    assert("hermes3:8b"@.subrange(0, 6)[1] != "hf.co/"@[1]);
    assert("hermes3:8b"@.subrange(5, 10)[0] != ".gguf"@[0]);
}

/// Law: every name of the curated catalog, given as it is written, resolves
/// to its entry: a family's bare name and its `:latest` form name the same
/// model as its default tag, and each tag gives its own file, download URL,
/// parameter size and family.
pub proof fn lemma_catalog_names_resolve()
    ensures
        resolve_spec("deepseek-r1"@, lowercase(trim_seq("deepseek-r1"@))) == Some(source_view("deepseek-r1:7b"@, "DeepSeek-R1-Distill-Qwen-7B-Q4_K_M.gguf"@, "https://huggingface.co/unsloth/DeepSeek-R1-Distill-Qwen-7B-GGUF/resolve/main/DeepSeek-R1-Distill-Qwen-7B-Q4_K_M.gguf"@, "7B"@, "deepseek"@)),
        resolve_spec("deepseek-r1:latest"@, lowercase(trim_seq("deepseek-r1:latest"@))) == Some(source_view("deepseek-r1:7b"@, "DeepSeek-R1-Distill-Qwen-7B-Q4_K_M.gguf"@, "https://huggingface.co/unsloth/DeepSeek-R1-Distill-Qwen-7B-GGUF/resolve/main/DeepSeek-R1-Distill-Qwen-7B-Q4_K_M.gguf"@, "7B"@, "deepseek"@)),
        resolve_spec("deepseek-r1:7b"@, lowercase(trim_seq("deepseek-r1:7b"@))) == Some(source_view("deepseek-r1:7b"@, "DeepSeek-R1-Distill-Qwen-7B-Q4_K_M.gguf"@, "https://huggingface.co/unsloth/DeepSeek-R1-Distill-Qwen-7B-GGUF/resolve/main/DeepSeek-R1-Distill-Qwen-7B-Q4_K_M.gguf"@, "7B"@, "deepseek"@)),
        resolve_spec("deepseek-r1:1.5b"@, lowercase(trim_seq("deepseek-r1:1.5b"@))) == Some(source_view("deepseek-r1:1.5b"@, "DeepSeek-R1-Distill-Qwen-1.5B-Q4_K_M.gguf"@, "https://huggingface.co/bartowski/DeepSeek-R1-Distill-Qwen-1.5B-GGUF/resolve/main/DeepSeek-R1-Distill-Qwen-1.5B-Q4_K_M.gguf"@, "1.5B"@, "deepseek"@)),
        resolve_spec("deepseek-r1:8b"@, lowercase(trim_seq("deepseek-r1:8b"@))) == Some(source_view("deepseek-r1:8b"@, "DeepSeek-R1-Distill-Llama-8B-Q4_K_M.gguf"@, "https://huggingface.co/bartowski/DeepSeek-R1-Distill-Llama-8B-GGUF/resolve/main/DeepSeek-R1-Distill-Llama-8B-Q4_K_M.gguf"@, "8B"@, "deepseek"@)),
        resolve_spec("deepseek-coder-v2"@, lowercase(trim_seq("deepseek-coder-v2"@))) == Some(source_view("deepseek-coder-v2:16b"@, "DeepSeek-Coder-V2-Lite-Instruct-Q4_K_M.gguf"@, "https://huggingface.co/bartowski/DeepSeek-Coder-V2-Lite-Instruct-GGUF/resolve/main/DeepSeek-Coder-V2-Lite-Instruct-Q4_K_M.gguf"@, "16B"@, "deepseek"@)),
        resolve_spec("deepseek-coder-v2:latest"@, lowercase(trim_seq("deepseek-coder-v2:latest"@))) == Some(source_view("deepseek-coder-v2:16b"@, "DeepSeek-Coder-V2-Lite-Instruct-Q4_K_M.gguf"@, "https://huggingface.co/bartowski/DeepSeek-Coder-V2-Lite-Instruct-GGUF/resolve/main/DeepSeek-Coder-V2-Lite-Instruct-Q4_K_M.gguf"@, "16B"@, "deepseek"@)),
        resolve_spec("deepseek-coder-v2:16b"@, lowercase(trim_seq("deepseek-coder-v2:16b"@))) == Some(source_view("deepseek-coder-v2:16b"@, "DeepSeek-Coder-V2-Lite-Instruct-Q4_K_M.gguf"@, "https://huggingface.co/bartowski/DeepSeek-Coder-V2-Lite-Instruct-GGUF/resolve/main/DeepSeek-Coder-V2-Lite-Instruct-Q4_K_M.gguf"@, "16B"@, "deepseek"@)),
        resolve_spec("llama3.2"@, lowercase(trim_seq("llama3.2"@))) == Some(source_view("llama3.2:3b"@, "Llama-3.2-3B-Instruct-Q4_K_M.gguf"@, "https://huggingface.co/bartowski/Llama-3.2-3B-Instruct-GGUF/resolve/main/Llama-3.2-3B-Instruct-Q4_K_M.gguf"@, "3B"@, "llama"@)),
        resolve_spec("llama3.2:latest"@, lowercase(trim_seq("llama3.2:latest"@))) == Some(source_view("llama3.2:3b"@, "Llama-3.2-3B-Instruct-Q4_K_M.gguf"@, "https://huggingface.co/bartowski/Llama-3.2-3B-Instruct-GGUF/resolve/main/Llama-3.2-3B-Instruct-Q4_K_M.gguf"@, "3B"@, "llama"@)),
        resolve_spec("llama3.2:3b"@, lowercase(trim_seq("llama3.2:3b"@))) == Some(source_view("llama3.2:3b"@, "Llama-3.2-3B-Instruct-Q4_K_M.gguf"@, "https://huggingface.co/bartowski/Llama-3.2-3B-Instruct-GGUF/resolve/main/Llama-3.2-3B-Instruct-Q4_K_M.gguf"@, "3B"@, "llama"@)),
        resolve_spec("llama3.2:1b"@, lowercase(trim_seq("llama3.2:1b"@))) == Some(source_view("llama3.2:1b"@, "Llama-3.2-1B-Instruct-Q4_K_M.gguf"@, "https://huggingface.co/bartowski/Llama-3.2-1B-Instruct-GGUF/resolve/main/Llama-3.2-1B-Instruct-Q4_K_M.gguf"@, "1B"@, "llama"@)),
        resolve_spec("llama3.1"@, lowercase(trim_seq("llama3.1"@))) == Some(source_view("llama3.1:8b"@, "Llama-3.1-8B-Instruct-Q4_K_M.gguf"@, "https://huggingface.co/bartowski/Llama-3.1-8B-Instruct-GGUF/resolve/main/Llama-3.1-8B-Instruct-Q4_K_M.gguf"@, "8B"@, "llama"@)),
        resolve_spec("llama3.1:latest"@, lowercase(trim_seq("llama3.1:latest"@))) == Some(source_view("llama3.1:8b"@, "Llama-3.1-8B-Instruct-Q4_K_M.gguf"@, "https://huggingface.co/bartowski/Llama-3.1-8B-Instruct-GGUF/resolve/main/Llama-3.1-8B-Instruct-Q4_K_M.gguf"@, "8B"@, "llama"@)),
        resolve_spec("llama3.1:8b"@, lowercase(trim_seq("llama3.1:8b"@))) == Some(source_view("llama3.1:8b"@, "Llama-3.1-8B-Instruct-Q4_K_M.gguf"@, "https://huggingface.co/bartowski/Llama-3.1-8B-Instruct-GGUF/resolve/main/Llama-3.1-8B-Instruct-Q4_K_M.gguf"@, "8B"@, "llama"@)),
        resolve_spec("llama2"@, lowercase(trim_seq("llama2"@))) == Some(source_view("llama2:7b"@, "llama-2-7b-chat.Q4_K_M.gguf"@, "https://huggingface.co/TheBloke/Llama-2-7B-Chat-GGUF/resolve/main/llama-2-7b-chat.Q4_K_M.gguf"@, "7B"@, "llama"@)),
        resolve_spec("llama2:latest"@, lowercase(trim_seq("llama2:latest"@))) == Some(source_view("llama2:7b"@, "llama-2-7b-chat.Q4_K_M.gguf"@, "https://huggingface.co/TheBloke/Llama-2-7B-Chat-GGUF/resolve/main/llama-2-7b-chat.Q4_K_M.gguf"@, "7B"@, "llama"@)),
        resolve_spec("llama2:7b"@, lowercase(trim_seq("llama2:7b"@))) == Some(source_view("llama2:7b"@, "llama-2-7b-chat.Q4_K_M.gguf"@, "https://huggingface.co/TheBloke/Llama-2-7B-Chat-GGUF/resolve/main/llama-2-7b-chat.Q4_K_M.gguf"@, "7B"@, "llama"@)),
        resolve_spec("qwen2.5-coder"@, lowercase(trim_seq("qwen2.5-coder"@))) == Some(source_view("qwen2.5-coder:7b"@, "Qwen2.5-Coder-7B-Instruct-Q4_K_M.gguf"@, "https://huggingface.co/Qwen/Qwen2.5-Coder-7B-Instruct-GGUF/resolve/main/qwen2.5-coder-7b-instruct-q4_k_m.gguf"@, "7B"@, "qwen2"@)),
        resolve_spec("qwen2.5-coder:latest"@, lowercase(trim_seq("qwen2.5-coder:latest"@))) == Some(source_view("qwen2.5-coder:7b"@, "Qwen2.5-Coder-7B-Instruct-Q4_K_M.gguf"@, "https://huggingface.co/Qwen/Qwen2.5-Coder-7B-Instruct-GGUF/resolve/main/qwen2.5-coder-7b-instruct-q4_k_m.gguf"@, "7B"@, "qwen2"@)),
        resolve_spec("qwen2.5-coder:7b"@, lowercase(trim_seq("qwen2.5-coder:7b"@))) == Some(source_view("qwen2.5-coder:7b"@, "Qwen2.5-Coder-7B-Instruct-Q4_K_M.gguf"@, "https://huggingface.co/Qwen/Qwen2.5-Coder-7B-Instruct-GGUF/resolve/main/qwen2.5-coder-7b-instruct-q4_k_m.gguf"@, "7B"@, "qwen2"@)),
        resolve_spec("qwen2.5-coder:1.5b"@, lowercase(trim_seq("qwen2.5-coder:1.5b"@))) == Some(source_view("qwen2.5-coder:1.5b"@, "Qwen2.5-Coder-1.5B-Instruct-Q4_K_M.gguf"@, "https://huggingface.co/Qwen/Qwen2.5-Coder-1.5B-Instruct-GGUF/resolve/main/qwen2.5-coder-1.5b-instruct-q4_k_m.gguf"@, "1.5B"@, "qwen2"@)),
        resolve_spec("qwen2.5-coder:14b"@, lowercase(trim_seq("qwen2.5-coder:14b"@))) == Some(source_view("qwen2.5-coder:14b"@, "Qwen2.5-Coder-14B-Instruct-Q4_K_M.gguf"@, "https://huggingface.co/Qwen/Qwen2.5-Coder-14B-Instruct-GGUF/resolve/main/qwen2.5-coder-14b-instruct-q4_k_m.gguf"@, "14B"@, "qwen2"@)),
        resolve_spec("qwen2.5"@, lowercase(trim_seq("qwen2.5"@))) == Some(source_view("qwen2.5:7b"@, "Qwen2.5-7B-Instruct-Q4_K_M.gguf"@, "https://huggingface.co/Qwen/Qwen2.5-7B-Instruct-GGUF/resolve/main/qwen2.5-7b-instruct-q4_k_m.gguf"@, "7B"@, "qwen2"@)),
        resolve_spec("qwen2.5:latest"@, lowercase(trim_seq("qwen2.5:latest"@))) == Some(source_view("qwen2.5:7b"@, "Qwen2.5-7B-Instruct-Q4_K_M.gguf"@, "https://huggingface.co/Qwen/Qwen2.5-7B-Instruct-GGUF/resolve/main/qwen2.5-7b-instruct-q4_k_m.gguf"@, "7B"@, "qwen2"@)),
        resolve_spec("qwen2.5:7b"@, lowercase(trim_seq("qwen2.5:7b"@))) == Some(source_view("qwen2.5:7b"@, "Qwen2.5-7B-Instruct-Q4_K_M.gguf"@, "https://huggingface.co/Qwen/Qwen2.5-7B-Instruct-GGUF/resolve/main/qwen2.5-7b-instruct-q4_k_m.gguf"@, "7B"@, "qwen2"@)),
        resolve_spec("qwen2.5:3b"@, lowercase(trim_seq("qwen2.5:3b"@))) == Some(source_view("qwen2.5:3b"@, "Qwen2.5-3B-Instruct-Q4_K_M.gguf"@, "https://huggingface.co/Qwen/Qwen2.5-3B-Instruct-GGUF/resolve/main/qwen2.5-3b-instruct-q4_k_m.gguf"@, "3B"@, "qwen2"@)),
        resolve_spec("qwen2.5:0.5b"@, lowercase(trim_seq("qwen2.5:0.5b"@))) == Some(source_view("qwen2.5:0.5b"@, "Qwen2.5-0.5B-Instruct-Q4_K_M.gguf"@, "https://huggingface.co/Qwen/Qwen2.5-0.5B-Instruct-GGUF/resolve/main/qwen2.5-0.5b-instruct-q4_k_m.gguf"@, "0.5B"@, "qwen2"@)),
        resolve_spec("qwen2.5-0.5b"@, lowercase(trim_seq("qwen2.5-0.5b"@))) == Some(source_view("qwen2.5:0.5b"@, "Qwen2.5-0.5B-Instruct-Q4_K_M.gguf"@, "https://huggingface.co/Qwen/Qwen2.5-0.5B-Instruct-GGUF/resolve/main/qwen2.5-0.5b-instruct-q4_k_m.gguf"@, "0.5B"@, "qwen2"@)),
        resolve_spec("qwen2.5-0.5b-instruct-q4_k_m"@, lowercase(trim_seq("qwen2.5-0.5b-instruct-q4_k_m"@))) == Some(source_view("qwen2.5:0.5b"@, "Qwen2.5-0.5B-Instruct-Q4_K_M.gguf"@, "https://huggingface.co/Qwen/Qwen2.5-0.5B-Instruct-GGUF/resolve/main/qwen2.5-0.5b-instruct-q4_k_m.gguf"@, "0.5B"@, "qwen2"@)),
        resolve_spec("qwen2.5-0.5b-instruct-q4_k_m:latest"@, lowercase(trim_seq("qwen2.5-0.5b-instruct-q4_k_m:latest"@))) == Some(source_view("qwen2.5:0.5b"@, "Qwen2.5-0.5B-Instruct-Q4_K_M.gguf"@, "https://huggingface.co/Qwen/Qwen2.5-0.5B-Instruct-GGUF/resolve/main/qwen2.5-0.5b-instruct-q4_k_m.gguf"@, "0.5B"@, "qwen2"@)),
        resolve_spec("mistral"@, lowercase(trim_seq("mistral"@))) == Some(source_view("mistral:7b"@, "Mistral-7B-Instruct-v0.3-Q4_K_M.gguf"@, "https://huggingface.co/bartowski/Mistral-7B-Instruct-v0.3-GGUF/resolve/main/Mistral-7B-Instruct-v0.3-Q4_K_M.gguf"@, "7B"@, "mistral"@)),
        resolve_spec("mistral:latest"@, lowercase(trim_seq("mistral:latest"@))) == Some(source_view("mistral:7b"@, "Mistral-7B-Instruct-v0.3-Q4_K_M.gguf"@, "https://huggingface.co/bartowski/Mistral-7B-Instruct-v0.3-GGUF/resolve/main/Mistral-7B-Instruct-v0.3-Q4_K_M.gguf"@, "7B"@, "mistral"@)),
        resolve_spec("mistral:7b"@, lowercase(trim_seq("mistral:7b"@))) == Some(source_view("mistral:7b"@, "Mistral-7B-Instruct-v0.3-Q4_K_M.gguf"@, "https://huggingface.co/bartowski/Mistral-7B-Instruct-v0.3-GGUF/resolve/main/Mistral-7B-Instruct-v0.3-Q4_K_M.gguf"@, "7B"@, "mistral"@)),
        resolve_spec("mistral-nemo"@, lowercase(trim_seq("mistral-nemo"@))) == Some(source_view("mistral-nemo:12b"@, "Mistral-Nemo-Instruct-2407-Q4_K_M.gguf"@, "https://huggingface.co/bartowski/Mistral-Nemo-Instruct-2407-GGUF/resolve/main/Mistral-Nemo-Instruct-2407-Q4_K_M.gguf"@, "12B"@, "mistral"@)),
        resolve_spec("mistral-nemo:latest"@, lowercase(trim_seq("mistral-nemo:latest"@))) == Some(source_view("mistral-nemo:12b"@, "Mistral-Nemo-Instruct-2407-Q4_K_M.gguf"@, "https://huggingface.co/bartowski/Mistral-Nemo-Instruct-2407-GGUF/resolve/main/Mistral-Nemo-Instruct-2407-Q4_K_M.gguf"@, "12B"@, "mistral"@)),
        resolve_spec("mistral-nemo:12b"@, lowercase(trim_seq("mistral-nemo:12b"@))) == Some(source_view("mistral-nemo:12b"@, "Mistral-Nemo-Instruct-2407-Q4_K_M.gguf"@, "https://huggingface.co/bartowski/Mistral-Nemo-Instruct-2407-GGUF/resolve/main/Mistral-Nemo-Instruct-2407-Q4_K_M.gguf"@, "12B"@, "mistral"@)),
        resolve_spec("phi4"@, lowercase(trim_seq("phi4"@))) == Some(source_view("phi4:14b"@, "phi-4-Q4_K_M.gguf"@, "https://huggingface.co/bartowski/phi-4-GGUF/resolve/main/phi-4-Q4_K_M.gguf"@, "14B"@, "phi3"@)),
        resolve_spec("phi4:latest"@, lowercase(trim_seq("phi4:latest"@))) == Some(source_view("phi4:14b"@, "phi-4-Q4_K_M.gguf"@, "https://huggingface.co/bartowski/phi-4-GGUF/resolve/main/phi-4-Q4_K_M.gguf"@, "14B"@, "phi3"@)),
        resolve_spec("phi4:14b"@, lowercase(trim_seq("phi4:14b"@))) == Some(source_view("phi4:14b"@, "phi-4-Q4_K_M.gguf"@, "https://huggingface.co/bartowski/phi-4-GGUF/resolve/main/phi-4-Q4_K_M.gguf"@, "14B"@, "phi3"@)),
        resolve_spec("phi3.5"@, lowercase(trim_seq("phi3.5"@))) == Some(source_view("phi3.5:3.8b"@, "Phi-3.5-mini-instruct-Q4_K_M.gguf"@, "https://huggingface.co/bartowski/Phi-3.5-mini-instruct-GGUF/resolve/main/Phi-3.5-mini-instruct-Q4_K_M.gguf"@, "3.8B"@, "phi3"@)),
        resolve_spec("phi3.5:latest"@, lowercase(trim_seq("phi3.5:latest"@))) == Some(source_view("phi3.5:3.8b"@, "Phi-3.5-mini-instruct-Q4_K_M.gguf"@, "https://huggingface.co/bartowski/Phi-3.5-mini-instruct-GGUF/resolve/main/Phi-3.5-mini-instruct-Q4_K_M.gguf"@, "3.8B"@, "phi3"@)),
        resolve_spec("phi3.5:3.8b"@, lowercase(trim_seq("phi3.5:3.8b"@))) == Some(source_view("phi3.5:3.8b"@, "Phi-3.5-mini-instruct-Q4_K_M.gguf"@, "https://huggingface.co/bartowski/Phi-3.5-mini-instruct-GGUF/resolve/main/Phi-3.5-mini-instruct-Q4_K_M.gguf"@, "3.8B"@, "phi3"@)),
        resolve_spec("gemma2"@, lowercase(trim_seq("gemma2"@))) == Some(source_view("gemma2:2b"@, "gemma-2-2b-it-Q4_K_M.gguf"@, "https://huggingface.co/bartowski/gemma-2-2b-it-GGUF/resolve/main/gemma-2-2b-it-Q4_K_M.gguf"@, "2B"@, "gemma2"@)),
        resolve_spec("gemma2:latest"@, lowercase(trim_seq("gemma2:latest"@))) == Some(source_view("gemma2:2b"@, "gemma-2-2b-it-Q4_K_M.gguf"@, "https://huggingface.co/bartowski/gemma-2-2b-it-GGUF/resolve/main/gemma-2-2b-it-Q4_K_M.gguf"@, "2B"@, "gemma2"@)),
        resolve_spec("gemma2:2b"@, lowercase(trim_seq("gemma2:2b"@))) == Some(source_view("gemma2:2b"@, "gemma-2-2b-it-Q4_K_M.gguf"@, "https://huggingface.co/bartowski/gemma-2-2b-it-GGUF/resolve/main/gemma-2-2b-it-Q4_K_M.gguf"@, "2B"@, "gemma2"@)),
        resolve_spec("gemma2:9b"@, lowercase(trim_seq("gemma2:9b"@))) == Some(source_view("gemma2:9b"@, "gemma-2-9b-it-Q4_K_M.gguf"@, "https://huggingface.co/bartowski/gemma-2-9b-it-GGUF/resolve/main/gemma-2-9b-it-Q4_K_M.gguf"@, "9B"@, "gemma2"@)),
        resolve_spec("nomic-embed-text"@, lowercase(trim_seq("nomic-embed-text"@))) == Some(source_view("nomic-embed-text:latest"@, "nomic-embed-text-v1.5.Q4_K_M.gguf"@, "https://huggingface.co/nomic-ai/nomic-embed-text-v1.5-GGUF/resolve/main/nomic-embed-text-v1.5.Q4_K_M.gguf"@, "137M"@, "nomic-bert"@)),
        resolve_spec("nomic-embed-text:latest"@, lowercase(trim_seq("nomic-embed-text:latest"@))) == Some(source_view("nomic-embed-text:latest"@, "nomic-embed-text-v1.5.Q4_K_M.gguf"@, "https://huggingface.co/nomic-ai/nomic-embed-text-v1.5-GGUF/resolve/main/nomic-embed-text-v1.5.Q4_K_M.gguf"@, "137M"@, "nomic-bert"@)),
        resolve_spec("nomic-embed"@, lowercase(trim_seq("nomic-embed"@))) == Some(source_view("nomic-embed-text:latest"@, "nomic-embed-text-v1.5.Q4_K_M.gguf"@, "https://huggingface.co/nomic-ai/nomic-embed-text-v1.5-GGUF/resolve/main/nomic-embed-text-v1.5.Q4_K_M.gguf"@, "137M"@, "nomic-bert"@)),
        resolve_spec("smollm2"@, lowercase(trim_seq("smollm2"@))) == Some(source_view("smollm2:1.7b"@, "SmolLM2-1.7B-Instruct-Q4_K_M.gguf"@, "https://huggingface.co/bartowski/SmolLM2-1.7B-Instruct-GGUF/resolve/main/SmolLM2-1.7B-Instruct-Q4_K_M.gguf"@, "1.7B"@, "smollm"@)),
        resolve_spec("smollm2:latest"@, lowercase(trim_seq("smollm2:latest"@))) == Some(source_view("smollm2:1.7b"@, "SmolLM2-1.7B-Instruct-Q4_K_M.gguf"@, "https://huggingface.co/bartowski/SmolLM2-1.7B-Instruct-GGUF/resolve/main/SmolLM2-1.7B-Instruct-Q4_K_M.gguf"@, "1.7B"@, "smollm"@)),
        resolve_spec("smollm2:1.7b"@, lowercase(trim_seq("smollm2:1.7b"@))) == Some(source_view("smollm2:1.7b"@, "SmolLM2-1.7B-Instruct-Q4_K_M.gguf"@, "https://huggingface.co/bartowski/SmolLM2-1.7B-Instruct-GGUF/resolve/main/SmolLM2-1.7B-Instruct-Q4_K_M.gguf"@, "1.7B"@, "smollm"@)),
        resolve_spec("smollm2:360m"@, lowercase(trim_seq("smollm2:360m"@))) == Some(source_view("smollm2:360m"@, "SmolLM2-360M-Instruct-Q4_K_M.gguf"@, "https://huggingface.co/bartowski/SmolLM2-360M-Instruct-GGUF/resolve/main/SmolLM2-360M-Instruct-Q4_K_M.gguf"@, "360M"@, "smollm"@)),
        resolve_spec("hermes3"@, lowercase(trim_seq("hermes3"@))) == Some(source_view("hermes3:8b"@, "Hermes-3-Llama-3.1-8B-Q4_K_M.gguf"@, "https://huggingface.co/NousResearch/Hermes-3-Llama-3.1-8B-GGUF/resolve/main/Hermes-3-Llama-3.1-8B-Q4_K_M.gguf"@, "8B"@, "llama"@)),
        resolve_spec("hermes3:latest"@, lowercase(trim_seq("hermes3:latest"@))) == Some(source_view("hermes3:8b"@, "Hermes-3-Llama-3.1-8B-Q4_K_M.gguf"@, "https://huggingface.co/NousResearch/Hermes-3-Llama-3.1-8B-GGUF/resolve/main/Hermes-3-Llama-3.1-8B-Q4_K_M.gguf"@, "8B"@, "llama"@)),
        resolve_spec("hermes3:8b"@, lowercase(trim_seq("hermes3:8b"@))) == Some(source_view("hermes3:8b"@, "Hermes-3-Llama-3.1-8B-Q4_K_M.gguf"@, "https://huggingface.co/NousResearch/Hermes-3-Llama-3.1-8B-GGUF/resolve/main/Hermes-3-Llama-3.1-8B-Q4_K_M.gguf"@, "8B"@, "llama"@)),
{
    lemma_catalog_name_0();
    lemma_catalog_name_1();
    lemma_catalog_name_2();
    lemma_catalog_name_3();
    lemma_catalog_name_4();
    lemma_catalog_name_5();
    lemma_catalog_name_6();
    lemma_catalog_name_7();
    lemma_catalog_name_8();
    lemma_catalog_name_9();
    lemma_catalog_name_10();
    lemma_catalog_name_11();
    lemma_catalog_name_12();
    lemma_catalog_name_13();
    lemma_catalog_name_14();
    lemma_catalog_name_15();
    lemma_catalog_name_16();
    lemma_catalog_name_17();
    lemma_catalog_name_18();
    lemma_catalog_name_19();
    lemma_catalog_name_20();
    lemma_catalog_name_21();
    lemma_catalog_name_22();
    lemma_catalog_name_23();
    lemma_catalog_name_24();
    lemma_catalog_name_25();
    lemma_catalog_name_26();
    lemma_catalog_name_27();
    lemma_catalog_name_28();
    lemma_catalog_name_29();
    lemma_catalog_name_30();
    lemma_catalog_name_31();
    lemma_catalog_name_32();
    lemma_catalog_name_33();
    lemma_catalog_name_34();
    lemma_catalog_name_35();
    lemma_catalog_name_36();
    lemma_catalog_name_37();
    lemma_catalog_name_38();
    lemma_catalog_name_39();
    lemma_catalog_name_40();
    lemma_catalog_name_41();
    lemma_catalog_name_42();
    lemma_catalog_name_43();
    lemma_catalog_name_44();
    lemma_catalog_name_45();
    lemma_catalog_name_46();
    lemma_catalog_name_47();
    lemma_catalog_name_48();
    lemma_catalog_name_49();
    lemma_catalog_name_50();
    lemma_catalog_name_51();
    lemma_catalog_name_52();
    lemma_catalog_name_53();
    lemma_catalog_name_54();
    lemma_catalog_name_55();
    lemma_catalog_name_56();
}

/// Law: a catalog family's bare name resolves exactly as its `:latest`
/// form does, and both resolve.
pub proof fn lemma_bare_name_is_latest()
    ensures
        resolve_spec("deepseek-r1"@, lowercase(trim_seq("deepseek-r1"@))) == resolve_spec("deepseek-r1:latest"@, lowercase(trim_seq("deepseek-r1:latest"@))),
        resolve_spec("deepseek-r1"@, lowercase(trim_seq("deepseek-r1"@))) is Some,
        resolve_spec("deepseek-coder-v2"@, lowercase(trim_seq("deepseek-coder-v2"@))) == resolve_spec("deepseek-coder-v2:latest"@, lowercase(trim_seq("deepseek-coder-v2:latest"@))),
        resolve_spec("deepseek-coder-v2"@, lowercase(trim_seq("deepseek-coder-v2"@))) is Some,
        resolve_spec("llama3.2"@, lowercase(trim_seq("llama3.2"@))) == resolve_spec("llama3.2:latest"@, lowercase(trim_seq("llama3.2:latest"@))),
        resolve_spec("llama3.2"@, lowercase(trim_seq("llama3.2"@))) is Some,
        resolve_spec("llama3.1"@, lowercase(trim_seq("llama3.1"@))) == resolve_spec("llama3.1:latest"@, lowercase(trim_seq("llama3.1:latest"@))),
        resolve_spec("llama3.1"@, lowercase(trim_seq("llama3.1"@))) is Some,
        resolve_spec("llama2"@, lowercase(trim_seq("llama2"@))) == resolve_spec("llama2:latest"@, lowercase(trim_seq("llama2:latest"@))),
        resolve_spec("llama2"@, lowercase(trim_seq("llama2"@))) is Some,
        resolve_spec("qwen2.5-coder"@, lowercase(trim_seq("qwen2.5-coder"@))) == resolve_spec("qwen2.5-coder:latest"@, lowercase(trim_seq("qwen2.5-coder:latest"@))),
        resolve_spec("qwen2.5-coder"@, lowercase(trim_seq("qwen2.5-coder"@))) is Some,
        resolve_spec("qwen2.5"@, lowercase(trim_seq("qwen2.5"@))) == resolve_spec("qwen2.5:latest"@, lowercase(trim_seq("qwen2.5:latest"@))),
        resolve_spec("qwen2.5"@, lowercase(trim_seq("qwen2.5"@))) is Some,
        resolve_spec("qwen2.5-0.5b-instruct-q4_k_m"@, lowercase(trim_seq("qwen2.5-0.5b-instruct-q4_k_m"@))) == resolve_spec("qwen2.5-0.5b-instruct-q4_k_m:latest"@, lowercase(trim_seq("qwen2.5-0.5b-instruct-q4_k_m:latest"@))),
        resolve_spec("qwen2.5-0.5b-instruct-q4_k_m"@, lowercase(trim_seq("qwen2.5-0.5b-instruct-q4_k_m"@))) is Some,
        resolve_spec("mistral"@, lowercase(trim_seq("mistral"@))) == resolve_spec("mistral:latest"@, lowercase(trim_seq("mistral:latest"@))),
        resolve_spec("mistral"@, lowercase(trim_seq("mistral"@))) is Some,
        resolve_spec("mistral-nemo"@, lowercase(trim_seq("mistral-nemo"@))) == resolve_spec("mistral-nemo:latest"@, lowercase(trim_seq("mistral-nemo:latest"@))),
        resolve_spec("mistral-nemo"@, lowercase(trim_seq("mistral-nemo"@))) is Some,
        resolve_spec("phi4"@, lowercase(trim_seq("phi4"@))) == resolve_spec("phi4:latest"@, lowercase(trim_seq("phi4:latest"@))),
        resolve_spec("phi4"@, lowercase(trim_seq("phi4"@))) is Some,
        resolve_spec("phi3.5"@, lowercase(trim_seq("phi3.5"@))) == resolve_spec("phi3.5:latest"@, lowercase(trim_seq("phi3.5:latest"@))),
        resolve_spec("phi3.5"@, lowercase(trim_seq("phi3.5"@))) is Some,
        resolve_spec("gemma2"@, lowercase(trim_seq("gemma2"@))) == resolve_spec("gemma2:latest"@, lowercase(trim_seq("gemma2:latest"@))),
        resolve_spec("gemma2"@, lowercase(trim_seq("gemma2"@))) is Some,
        resolve_spec("nomic-embed-text"@, lowercase(trim_seq("nomic-embed-text"@))) == resolve_spec("nomic-embed-text:latest"@, lowercase(trim_seq("nomic-embed-text:latest"@))),
        resolve_spec("nomic-embed-text"@, lowercase(trim_seq("nomic-embed-text"@))) is Some,
        resolve_spec("smollm2"@, lowercase(trim_seq("smollm2"@))) == resolve_spec("smollm2:latest"@, lowercase(trim_seq("smollm2:latest"@))),
        resolve_spec("smollm2"@, lowercase(trim_seq("smollm2"@))) is Some,
        resolve_spec("hermes3"@, lowercase(trim_seq("hermes3"@))) == resolve_spec("hermes3:latest"@, lowercase(trim_seq("hermes3:latest"@))),
        resolve_spec("hermes3"@, lowercase(trim_seq("hermes3"@))) is Some,
{
    lemma_catalog_name_0();
    lemma_catalog_name_1();
    lemma_catalog_name_5();
    lemma_catalog_name_6();
    lemma_catalog_name_8();
    lemma_catalog_name_9();
    lemma_catalog_name_12();
    lemma_catalog_name_13();
    lemma_catalog_name_15();
    lemma_catalog_name_16();
    lemma_catalog_name_18();
    lemma_catalog_name_19();
    lemma_catalog_name_23();
    lemma_catalog_name_24();
    lemma_catalog_name_29();
    lemma_catalog_name_30();
    lemma_catalog_name_31();
    lemma_catalog_name_32();
    lemma_catalog_name_34();
    lemma_catalog_name_35();
    lemma_catalog_name_37();
    lemma_catalog_name_38();
    lemma_catalog_name_40();
    lemma_catalog_name_41();
    lemma_catalog_name_43();
    lemma_catalog_name_44();
    lemma_catalog_name_47();
    lemma_catalog_name_48();
    lemma_catalog_name_50();
    lemma_catalog_name_51();
    lemma_catalog_name_54();
    lemma_catalog_name_55();
}

/// Law: the canonical tag of every catalog entry resolves to that same entry,
/// whatever the identifier it is given under.
pub proof fn lemma_canonical_tag_resolves_to_itself(identifier: Seq<char>, norm: Seq<char>)
    requires
        catalog_entry(norm) is Some,
    ensures
        resolve_spec(identifier, catalog_entry(norm).unwrap().tag) == catalog_entry(norm),
{
    lemma_catalog_tag_0(identifier);
    lemma_catalog_tag_1(identifier);
    lemma_catalog_tag_2(identifier);
    lemma_catalog_tag_3(identifier);
    lemma_catalog_tag_4(identifier);
    lemma_catalog_tag_5(identifier);
    lemma_catalog_tag_6(identifier);
    lemma_catalog_tag_7(identifier);
    lemma_catalog_tag_8(identifier);
    lemma_catalog_tag_9(identifier);
    lemma_catalog_tag_10(identifier);
    lemma_catalog_tag_11(identifier);
    lemma_catalog_tag_12(identifier);
    lemma_catalog_tag_13(identifier);
    lemma_catalog_tag_14(identifier);
    lemma_catalog_tag_15(identifier);
    lemma_catalog_tag_16(identifier);
    lemma_catalog_tag_17(identifier);
    lemma_catalog_tag_18(identifier);
    lemma_catalog_tag_19(identifier);
    lemma_catalog_tag_20(identifier);
    lemma_catalog_tag_21(identifier);
    lemma_catalog_tag_22(identifier);
    lemma_catalog_tag_23(identifier);
}

proof fn lemma_tag_is_canonical_0()
    ensures
        lowercase(trim_seq("deepseek-r1:7b"@)) == "deepseek-r1:7b"@,
{
    reveal_strlit("deepseek-r1:7b");
    assert forall|i: int| 0 <= i < "deepseek-r1:7b"@.len() implies is_tag_char(#[trigger] "deepseek-r1:7b"@[i]) by {
        assert(i == 0 || i == 1 || i == 2 || i == 3 || i == 4 || i == 5 || i == 6 || i == 7 || i == 8 || i == 9 || i == 10 || i == 11 || i == 12 || i == 13);
    }
    lemma_tag_text_is_canonical("deepseek-r1:7b"@);
}

proof fn lemma_tag_is_canonical_1()
    ensures
        lowercase(trim_seq("deepseek-r1:1.5b"@)) == "deepseek-r1:1.5b"@,
{
    reveal_strlit("deepseek-r1:1.5b");
    assert forall|i: int| 0 <= i < "deepseek-r1:1.5b"@.len() implies is_tag_char(#[trigger] "deepseek-r1:1.5b"@[i]) by {
        assert(i == 0 || i == 1 || i == 2 || i == 3 || i == 4 || i == 5 || i == 6 || i == 7 || i == 8 || i == 9 || i == 10 || i == 11 || i == 12 || i == 13 || i == 14 || i == 15);
    }
    lemma_tag_text_is_canonical("deepseek-r1:1.5b"@);
}

proof fn lemma_tag_is_canonical_2()
    ensures
        lowercase(trim_seq("deepseek-r1:8b"@)) == "deepseek-r1:8b"@,
{
    reveal_strlit("deepseek-r1:8b");
    assert forall|i: int| 0 <= i < "deepseek-r1:8b"@.len() implies is_tag_char(#[trigger] "deepseek-r1:8b"@[i]) by {
        assert(i == 0 || i == 1 || i == 2 || i == 3 || i == 4 || i == 5 || i == 6 || i == 7 || i == 8 || i == 9 || i == 10 || i == 11 || i == 12 || i == 13);
    }
    lemma_tag_text_is_canonical("deepseek-r1:8b"@);
}

proof fn lemma_tag_is_canonical_3()
    ensures
        lowercase(trim_seq("deepseek-coder-v2:16b"@)) == "deepseek-coder-v2:16b"@,
{
    reveal_strlit("deepseek-coder-v2:16b");
    assert forall|i: int| 0 <= i < "deepseek-coder-v2:16b"@.len() implies is_tag_char(#[trigger] "deepseek-coder-v2:16b"@[i]) by {
        assert(i == 0 || i == 1 || i == 2 || i == 3 || i == 4 || i == 5 || i == 6 || i == 7 || i == 8 || i == 9 || i == 10 || i == 11 || i == 12 || i == 13 || i == 14 || i == 15 || i == 16 || i == 17 || i == 18 || i == 19 || i == 20);
    }
    lemma_tag_text_is_canonical("deepseek-coder-v2:16b"@);
}

proof fn lemma_tag_is_canonical_4()
    ensures
        lowercase(trim_seq("llama3.2:3b"@)) == "llama3.2:3b"@,
{
    reveal_strlit("llama3.2:3b");
    assert forall|i: int| 0 <= i < "llama3.2:3b"@.len() implies is_tag_char(#[trigger] "llama3.2:3b"@[i]) by {
        assert(i == 0 || i == 1 || i == 2 || i == 3 || i == 4 || i == 5 || i == 6 || i == 7 || i == 8 || i == 9 || i == 10);
    }
    lemma_tag_text_is_canonical("llama3.2:3b"@);
}

proof fn lemma_tag_is_canonical_5()
    ensures
        lowercase(trim_seq("llama3.2:1b"@)) == "llama3.2:1b"@,
{
    reveal_strlit("llama3.2:1b");
    assert forall|i: int| 0 <= i < "llama3.2:1b"@.len() implies is_tag_char(#[trigger] "llama3.2:1b"@[i]) by {
        assert(i == 0 || i == 1 || i == 2 || i == 3 || i == 4 || i == 5 || i == 6 || i == 7 || i == 8 || i == 9 || i == 10);
    }
    lemma_tag_text_is_canonical("llama3.2:1b"@);
}

proof fn lemma_tag_is_canonical_6()
    ensures
        lowercase(trim_seq("llama3.1:8b"@)) == "llama3.1:8b"@,
{
    reveal_strlit("llama3.1:8b");
    assert forall|i: int| 0 <= i < "llama3.1:8b"@.len() implies is_tag_char(#[trigger] "llama3.1:8b"@[i]) by {
        assert(i == 0 || i == 1 || i == 2 || i == 3 || i == 4 || i == 5 || i == 6 || i == 7 || i == 8 || i == 9 || i == 10);
    }
    lemma_tag_text_is_canonical("llama3.1:8b"@);
}

proof fn lemma_tag_is_canonical_7()
    ensures
        lowercase(trim_seq("llama2:7b"@)) == "llama2:7b"@,
{
    reveal_strlit("llama2:7b");
    assert forall|i: int| 0 <= i < "llama2:7b"@.len() implies is_tag_char(#[trigger] "llama2:7b"@[i]) by {
        assert(i == 0 || i == 1 || i == 2 || i == 3 || i == 4 || i == 5 || i == 6 || i == 7 || i == 8);
    }
    lemma_tag_text_is_canonical("llama2:7b"@);
}

proof fn lemma_tag_is_canonical_8()
    ensures
        lowercase(trim_seq("qwen2.5-coder:7b"@)) == "qwen2.5-coder:7b"@,
{
    reveal_strlit("qwen2.5-coder:7b");
    assert forall|i: int| 0 <= i < "qwen2.5-coder:7b"@.len() implies is_tag_char(#[trigger] "qwen2.5-coder:7b"@[i]) by {
        assert(i == 0 || i == 1 || i == 2 || i == 3 || i == 4 || i == 5 || i == 6 || i == 7 || i == 8 || i == 9 || i == 10 || i == 11 || i == 12 || i == 13 || i == 14 || i == 15);
    }
    lemma_tag_text_is_canonical("qwen2.5-coder:7b"@);
}

proof fn lemma_tag_is_canonical_9()
    ensures
        lowercase(trim_seq("qwen2.5-coder:1.5b"@)) == "qwen2.5-coder:1.5b"@,
{
    reveal_strlit("qwen2.5-coder:1.5b");
    assert forall|i: int| 0 <= i < "qwen2.5-coder:1.5b"@.len() implies is_tag_char(#[trigger] "qwen2.5-coder:1.5b"@[i]) by {
        assert(i == 0 || i == 1 || i == 2 || i == 3 || i == 4 || i == 5 || i == 6 || i == 7 || i == 8 || i == 9 || i == 10 || i == 11 || i == 12 || i == 13 || i == 14 || i == 15 || i == 16 || i == 17);
    }
    lemma_tag_text_is_canonical("qwen2.5-coder:1.5b"@);
}

proof fn lemma_tag_is_canonical_10()
    ensures
        lowercase(trim_seq("qwen2.5-coder:14b"@)) == "qwen2.5-coder:14b"@,
{
    reveal_strlit("qwen2.5-coder:14b");
    assert forall|i: int| 0 <= i < "qwen2.5-coder:14b"@.len() implies is_tag_char(#[trigger] "qwen2.5-coder:14b"@[i]) by {
        assert(i == 0 || i == 1 || i == 2 || i == 3 || i == 4 || i == 5 || i == 6 || i == 7 || i == 8 || i == 9 || i == 10 || i == 11 || i == 12 || i == 13 || i == 14 || i == 15 || i == 16);
    }
    lemma_tag_text_is_canonical("qwen2.5-coder:14b"@);
}

proof fn lemma_tag_is_canonical_11()
    ensures
        lowercase(trim_seq("qwen2.5:7b"@)) == "qwen2.5:7b"@,
{
    reveal_strlit("qwen2.5:7b");
    assert forall|i: int| 0 <= i < "qwen2.5:7b"@.len() implies is_tag_char(#[trigger] "qwen2.5:7b"@[i]) by {
        assert(i == 0 || i == 1 || i == 2 || i == 3 || i == 4 || i == 5 || i == 6 || i == 7 || i == 8 || i == 9);
    }
    lemma_tag_text_is_canonical("qwen2.5:7b"@);
}

proof fn lemma_tag_is_canonical_12()
    ensures
        lowercase(trim_seq("qwen2.5:3b"@)) == "qwen2.5:3b"@,
{
    reveal_strlit("qwen2.5:3b");
    assert forall|i: int| 0 <= i < "qwen2.5:3b"@.len() implies is_tag_char(#[trigger] "qwen2.5:3b"@[i]) by {
        assert(i == 0 || i == 1 || i == 2 || i == 3 || i == 4 || i == 5 || i == 6 || i == 7 || i == 8 || i == 9);
    }
    lemma_tag_text_is_canonical("qwen2.5:3b"@);
}

proof fn lemma_tag_is_canonical_13()
    ensures
        lowercase(trim_seq("qwen2.5:0.5b"@)) == "qwen2.5:0.5b"@,
{
    reveal_strlit("qwen2.5:0.5b");
    assert forall|i: int| 0 <= i < "qwen2.5:0.5b"@.len() implies is_tag_char(#[trigger] "qwen2.5:0.5b"@[i]) by {
        assert(i == 0 || i == 1 || i == 2 || i == 3 || i == 4 || i == 5 || i == 6 || i == 7 || i == 8 || i == 9 || i == 10 || i == 11);
    }
    lemma_tag_text_is_canonical("qwen2.5:0.5b"@);
}

proof fn lemma_tag_is_canonical_14()
    ensures
        lowercase(trim_seq("mistral:7b"@)) == "mistral:7b"@,
{
    reveal_strlit("mistral:7b");
    assert forall|i: int| 0 <= i < "mistral:7b"@.len() implies is_tag_char(#[trigger] "mistral:7b"@[i]) by {
        assert(i == 0 || i == 1 || i == 2 || i == 3 || i == 4 || i == 5 || i == 6 || i == 7 || i == 8 || i == 9);
    }
    lemma_tag_text_is_canonical("mistral:7b"@);
}

proof fn lemma_tag_is_canonical_15()
    ensures
        lowercase(trim_seq("mistral-nemo:12b"@)) == "mistral-nemo:12b"@,
{
    reveal_strlit("mistral-nemo:12b");
    assert forall|i: int| 0 <= i < "mistral-nemo:12b"@.len() implies is_tag_char(#[trigger] "mistral-nemo:12b"@[i]) by {
        assert(i == 0 || i == 1 || i == 2 || i == 3 || i == 4 || i == 5 || i == 6 || i == 7 || i == 8 || i == 9 || i == 10 || i == 11 || i == 12 || i == 13 || i == 14 || i == 15);
    }
    lemma_tag_text_is_canonical("mistral-nemo:12b"@);
}

proof fn lemma_tag_is_canonical_16()
    ensures
        lowercase(trim_seq("phi4:14b"@)) == "phi4:14b"@,
{
    reveal_strlit("phi4:14b");
    assert forall|i: int| 0 <= i < "phi4:14b"@.len() implies is_tag_char(#[trigger] "phi4:14b"@[i]) by {
        assert(i == 0 || i == 1 || i == 2 || i == 3 || i == 4 || i == 5 || i == 6 || i == 7);
    }
    lemma_tag_text_is_canonical("phi4:14b"@);
}

proof fn lemma_tag_is_canonical_17()
    ensures
        lowercase(trim_seq("phi3.5:3.8b"@)) == "phi3.5:3.8b"@,
{
    reveal_strlit("phi3.5:3.8b");
    assert forall|i: int| 0 <= i < "phi3.5:3.8b"@.len() implies is_tag_char(#[trigger] "phi3.5:3.8b"@[i]) by {
        assert(i == 0 || i == 1 || i == 2 || i == 3 || i == 4 || i == 5 || i == 6 || i == 7 || i == 8 || i == 9 || i == 10);
    }
    lemma_tag_text_is_canonical("phi3.5:3.8b"@);
}

proof fn lemma_tag_is_canonical_18()
    ensures
        lowercase(trim_seq("gemma2:2b"@)) == "gemma2:2b"@,
{
    reveal_strlit("gemma2:2b");
    assert forall|i: int| 0 <= i < "gemma2:2b"@.len() implies is_tag_char(#[trigger] "gemma2:2b"@[i]) by {
        assert(i == 0 || i == 1 || i == 2 || i == 3 || i == 4 || i == 5 || i == 6 || i == 7 || i == 8);
    }
    lemma_tag_text_is_canonical("gemma2:2b"@);
}

proof fn lemma_tag_is_canonical_19()
    ensures
        lowercase(trim_seq("gemma2:9b"@)) == "gemma2:9b"@,
{
    reveal_strlit("gemma2:9b");
    assert forall|i: int| 0 <= i < "gemma2:9b"@.len() implies is_tag_char(#[trigger] "gemma2:9b"@[i]) by {
        assert(i == 0 || i == 1 || i == 2 || i == 3 || i == 4 || i == 5 || i == 6 || i == 7 || i == 8);
    }
    lemma_tag_text_is_canonical("gemma2:9b"@);
}

proof fn lemma_tag_is_canonical_20()
    ensures
        lowercase(trim_seq("nomic-embed-text:latest"@)) == "nomic-embed-text:latest"@,
{
    reveal_strlit("nomic-embed-text:latest");
    assert forall|i: int| 0 <= i < "nomic-embed-text:latest"@.len() implies is_tag_char(#[trigger] "nomic-embed-text:latest"@[i]) by {
        assert(i == 0 || i == 1 || i == 2 || i == 3 || i == 4 || i == 5 || i == 6 || i == 7 || i == 8 || i == 9 || i == 10 || i == 11 || i == 12 || i == 13 || i == 14 || i == 15 || i == 16 || i == 17 || i == 18 || i == 19 || i == 20 || i == 21 || i == 22);
    }
    lemma_tag_text_is_canonical("nomic-embed-text:latest"@);
}

proof fn lemma_tag_is_canonical_21()
    ensures
        lowercase(trim_seq("smollm2:1.7b"@)) == "smollm2:1.7b"@,
{
    reveal_strlit("smollm2:1.7b");
    assert forall|i: int| 0 <= i < "smollm2:1.7b"@.len() implies is_tag_char(#[trigger] "smollm2:1.7b"@[i]) by {
        assert(i == 0 || i == 1 || i == 2 || i == 3 || i == 4 || i == 5 || i == 6 || i == 7 || i == 8 || i == 9 || i == 10 || i == 11);
    }
    lemma_tag_text_is_canonical("smollm2:1.7b"@);
}

proof fn lemma_tag_is_canonical_22()
    ensures
        lowercase(trim_seq("smollm2:360m"@)) == "smollm2:360m"@,
{
    reveal_strlit("smollm2:360m");
    assert forall|i: int| 0 <= i < "smollm2:360m"@.len() implies is_tag_char(#[trigger] "smollm2:360m"@[i]) by {
        assert(i == 0 || i == 1 || i == 2 || i == 3 || i == 4 || i == 5 || i == 6 || i == 7 || i == 8 || i == 9 || i == 10 || i == 11);
    }
    lemma_tag_text_is_canonical("smollm2:360m"@);
}

proof fn lemma_tag_is_canonical_23()
    ensures
        lowercase(trim_seq("hermes3:8b"@)) == "hermes3:8b"@,
{
    reveal_strlit("hermes3:8b");
    assert forall|i: int| 0 <= i < "hermes3:8b"@.len() implies is_tag_char(#[trigger] "hermes3:8b"@[i]) by {
        assert(i == 0 || i == 1 || i == 2 || i == 3 || i == 4 || i == 5 || i == 6 || i == 7 || i == 8 || i == 9);
    }
    lemma_tag_text_is_canonical("hermes3:8b"@);
}

/// Every catalog entry's tag is already trimmed and lower-case.
proof fn lemma_catalog_tags_are_canonical(norm: Seq<char>)
    requires
        catalog_entry(norm) is Some,
    ensures
        lowercase(trim_seq(catalog_entry(norm)->0.tag)) == catalog_entry(norm)->0.tag,
{
    lemma_tag_is_canonical_0();
    lemma_tag_is_canonical_1();
    lemma_tag_is_canonical_2();
    lemma_tag_is_canonical_3();
    lemma_tag_is_canonical_4();
    lemma_tag_is_canonical_5();
    lemma_tag_is_canonical_6();
    lemma_tag_is_canonical_7();
    lemma_tag_is_canonical_8();
    lemma_tag_is_canonical_9();
    lemma_tag_is_canonical_10();
    lemma_tag_is_canonical_11();
    lemma_tag_is_canonical_12();
    lemma_tag_is_canonical_13();
    lemma_tag_is_canonical_14();
    lemma_tag_is_canonical_15();
    lemma_tag_is_canonical_16();
    lemma_tag_is_canonical_17();
    lemma_tag_is_canonical_18();
    lemma_tag_is_canonical_19();
    lemma_tag_is_canonical_20();
    lemma_tag_is_canonical_21();
    lemma_tag_is_canonical_22();
    lemma_tag_is_canonical_23();
}

/// Law: whatever an identifier resolves to, its tag resolves to the same
/// source: a catalog tag names its own entry, and a URL or Hugging Face
/// source carries the identifier itself as its tag.
pub proof fn lemma_resolved_tag_resolves_again(identifier: Seq<char>)
    requires
        resolve_spec(identifier, lowercase(trim_seq(identifier))) is Some,
    ensures
        ({
            let r = resolve_spec(identifier, lowercase(trim_seq(identifier)))->0;
            resolve_spec(r.tag, lowercase(trim_seq(r.tag))) == Some(r)
        }),
{
    let clean = lowercase(trim_seq(identifier));
    let norm = normalized(clean);
    let r = resolve_spec(identifier, clean)->0;
    if !is_direct_url(norm) && !(is_hf_shortcut(norm) && hf_parts(as_given(identifier)).len() >= 3) {
        lemma_catalog_tags_are_canonical(norm);
        lemma_canonical_tag_resolves_to_itself(r.tag, norm);
    }
}

proof fn lemma_no_slash_is_catalog_name(t: Seq<char>)
    requires
        !t.contains('/'),
    ensures
        normalized(t) == t,
        normalized("ollama.com/library/"@ + t) == t,
        !is_direct_url(t),
        !is_hf_shortcut(t),
{
    reveal_strlit("ollama.com/library/");
    reveal_strlit("http://");
    reveal_strlit("https://");
    reveal_strlit("hf.co/");
    let lib = "ollama.com/library/"@;
    if is_prefix_of(lib, t) {
        assert(t.subrange(0, lib.len() as int)[10] == t[10]);
        assert(t[10] == '/');
    }
    if is_prefix_of("http://"@, t) {
        assert(t.subrange(0, 7)[5] == t[5]);
        assert(t[5] == '/');
    }
    if is_prefix_of("https://"@, t) {
        assert(t.subrange(0, 8)[6] == t[6]);
        assert(t[6] == '/');
    }
    if is_prefix_of("hf.co/"@, t) {
        assert(t.subrange(0, 6)[5] == t[5]);
        assert(t[5] == '/');
    }
    let full = lib + t;
    assert(full.subrange(0, lib.len() as int) == lib);
    assert(full.subrange(lib.len() as int, full.len() as int) == t);
}

/// Law: a name is resolved by its trimmed, lower-cased form. For an ASCII
/// name with no `/` (URLs and Hugging Face paths keep their case, so they
/// are not among these), resolving the name and resolving that form agree.
pub proof fn lemma_resolution_ignores_case_and_space(identifier: Seq<char>)
    requires
        is_ascii_text(identifier),
        !lowercase(trim_seq(identifier)).contains('/'),
    ensures
        ({
            let t = lowercase(trim_seq(identifier));
            resolve_spec(identifier, t) == resolve_spec(t, lowercase(trim_seq(t)))
        }),
{
    lemma_trim_is_trimmed(identifier);
    let tr = trim_seq(identifier);
    lemma_ascii_lowercase(tr);
    let t = ascii_lower(tr);
    lemma_trimmed_is_fixed(t);
    lemma_no_slash_is_catalog_name(t);
}

/// Law: `ollama.com/library/<name>`, in any case and with any surrounding
/// white space, resolves as `<name>` does, for an ASCII name with no `/`.
pub proof fn lemma_library_path_resolves_as_name(identifier: Seq<char>, path: Seq<char>)
    requires
        is_ascii_text(identifier),
        !lowercase(trim_seq(identifier)).contains('/'),
        lowercase(trim_seq(path)) == "ollama.com/library/"@ + lowercase(trim_seq(identifier)),
    ensures
        resolve_spec(path, lowercase(trim_seq(path))) == resolve_spec(identifier, lowercase(trim_seq(identifier))),
{
    lemma_no_slash_is_catalog_name(lowercase(trim_seq(identifier)));
}
} // verus!

verus! {

/// Law: a leading `ollama.com/library/` is ignored, so a library path
/// resolves exactly as its bare name does.
pub proof fn lemma_library_prefix_ignored(identifier: Seq<char>, name: Seq<char>)
    requires
        !is_prefix_of("ollama.com/library/"@, name),
    ensures
        resolve_spec(identifier, "ollama.com/library/"@ + name) == resolve_spec(identifier, name),
{
    let lib = "ollama.com/library/"@;
    let full = lib + name;
    assert(full.subrange(0, lib.len() as int) == lib);
    assert(full.subrange(lib.len() as int, full.len() as int) == name);
    assert(normalized(full) == normalized(name));
}

/// Law: the file name that a direct URL resolves to always ends in `.gguf`.
pub proof fn lemma_url_filename_is_gguf(norm: Seq<char>)
    ensures
        is_suffix_of(".gguf"@, url_filename(norm)),
{
    let base = split_char(split_char(norm, '/').last(), '?')[0];
    let g = ".gguf"@;
    if !is_suffix_of(g, base) {
        let f = base + g;
        assert(f.subrange(f.len() - g.len(), f.len() as int) == g);
    }
}

/// Law: a Hugging Face shortcut `hf.co/<user>/<repo>/<file>` resolves to the
/// file's download URL on the repository's main branch, named after the
/// file's last path segment, with the case of the path kept.
pub proof fn lemma_hf_shortcut_url(identifier: Seq<char>, user: Seq<char>, repo: Seq<char>, file: Seq<char>)
    requires
        identifier == "hf.co/"@ + user + "/"@ + repo + "/"@ + file,
        is_ascii_text(identifier),
        is_trimmed(identifier),
        !user.contains('/'),
        !repo.contains('/'),
    ensures
        resolve_spec(identifier, lowercase(trim_seq(identifier))) == Some(
            source_view(
                identifier,
                split_char(file, '/').last(),
                "https://huggingface.co/"@ + user + "/"@ + repo + "/resolve/main/"@ + file,
                "Custom"@,
                "custom"@,
            ),
        ),
{
    reveal_strlit("hf.co/");
    reveal_strlit("ollama.com/library/");
    reveal_strlit("http://");
    reveal_strlit("https://");
    reveal_strlit("/");
    let hf = "hf.co/"@;
    let path = user + "/"@ + repo + "/"@ + file;
    assert(identifier == hf + path);
    lemma_trimmed_is_fixed(identifier);
    lemma_ascii_lowercase(identifier);
    let clean = ascii_lower(identifier);
    assert(lowercase(trim_seq(identifier)) == clean);
    assert(identifier.subrange(0, 6) == hf);
    assert forall|k: int| 0 <= k < 6 implies clean[k] == hf[k] by {
        assert(identifier[k] == hf[k]);
    }
    assert(clean.subrange(0, 6) =~= hf);
    if clean.len() >= 19 {
        assert(clean.subrange(0, 19)[0] != "ollama.com/library/"@[0]);
    }
    assert(clean.subrange(0, 7)[1] != "http://"@[1]);
    assert(clean.subrange(0, 8)[1] != "https://"@[1]);
    assert(normalized(clean) == clean);
    assert(is_hf_shortcut(clean));
    assert(!is_direct_url(clean));
    assert(!starts_with_any_case(identifier, "ollama.com/library/"@)) by {
        if identifier.len() >= 19 {
            assert(!same_letter(identifier[0], "ollama.com/library/"@[0]));
        }
    }
    assert(as_given(identifier) == identifier);
    assert(starts_with_any_case(identifier, hf));
    assert(identifier.subrange(6, identifier.len() as int) == path);
    lemma_split_char_after_separator(repo, '/', file);
    assert(repo + "/"@ + file == repo + seq!['/'] + file);
    assert(path == user + seq!['/'] + (repo + seq!['/'] + file));
    lemma_split_char_after_separator(user, '/', repo + seq!['/'] + file);
    let p = hf_parts(identifier);
    let fp = split_char(file, '/');
    assert(p == seq![user] + (seq![repo] + fp));
    assert(p.subrange(2, p.len() as int) == fp);
    lemma_join_split(file, '/');
    lemma_split_char_nonempty(file, '/');
    assert("/"@ == seq!['/']);
    assert(p.len() >= 3);
    assert(p[0] == user && p[1] == repo);
    assert(join_seq(p.subrange(2, p.len() as int), "/"@) == file);
    assert(hf_url(p) == "https://huggingface.co/"@ + user + "/"@ + repo + "/resolve/main/"@ + file);
    assert(p.last() == fp.last());
}

} // verus!
