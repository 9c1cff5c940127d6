use ollama_lite::model_resolver::{resolve_cleaned_source, resolve_model_source, ResolvedModelSource};

fn parts(r: &ResolvedModelSource) -> (&str, &str, &str, &str, &str) {
    (
        r.tag.as_str(),
        r.filename.as_str(),
        r.download_url.as_str(),
        r.parameter_size.as_str(),
        r.family.as_str(),
    )
}

#[test]
fn catalog_alias_resolves_to_canonical_entry() {
    let r = resolve_model_source("deepseek-r1").unwrap();
    assert_eq!(
        parts(&r),
        (
            "deepseek-r1:7b",
            "DeepSeek-R1-Distill-Qwen-7B-Q4_K_M.gguf",
            "https://huggingface.co/unsloth/DeepSeek-R1-Distill-Qwen-7B-GGUF/resolve/main/DeepSeek-R1-Distill-Qwen-7B-Q4_K_M.gguf",
            "7B",
            "deepseek",
        )
    );
    let latest = resolve_model_source("deepseek-r1:latest").unwrap();
    assert_eq!(parts(&latest), parts(&r));
}

#[test]
fn catalog_lookup_ignores_case_and_surrounding_space() {
    let r = resolve_model_source("  LLAMA3.2  ").unwrap();
    assert_eq!(r.tag, "llama3.2:3b");
    assert_eq!(r.filename, "Llama-3.2-3B-Instruct-Q4_K_M.gguf");
    assert_eq!(r.parameter_size, "3B");
    assert_eq!(r.family, "llama");
}

#[test]
fn library_prefix_is_dropped() {
    let r = resolve_model_source("ollama.com/library/qwen2.5:0.5b").unwrap();
    assert_eq!(r.tag, "qwen2.5:0.5b");
    assert_eq!(
        r.download_url,
        "https://huggingface.co/Qwen/Qwen2.5-0.5B-Instruct-GGUF/resolve/main/qwen2.5-0.5b-instruct-q4_k_m.gguf"
    );
}

#[test]
fn every_catalog_tag_resolves_to_itself() {
    let tags = [
        "deepseek-r1:7b", "deepseek-r1:1.5b", "deepseek-r1:8b", "deepseek-coder-v2:16b", "llama3.2:3b",
        "llama3.2:1b", "llama3.1:8b", "llama2:7b", "qwen2.5-coder:7b", "qwen2.5-coder:1.5b",
        "qwen2.5-coder:14b", "qwen2.5:7b", "qwen2.5:3b", "qwen2.5:0.5b", "mistral:7b", "mistral-nemo:12b",
        "phi4:14b", "phi3.5:3.8b", "gemma2:2b", "gemma2:9b", "nomic-embed-text:latest", "smollm2:1.7b",
        "smollm2:360m", "hermes3:8b",
    ];
    for t in tags {
        let r = resolve_model_source(t).unwrap();
        assert_eq!(r.tag, t);
        assert!(r.filename.ends_with(".gguf"));
        assert!(r.download_url.starts_with("https://huggingface.co/"));
    }
}

#[test]
fn nomic_embed_alias() {
    let r = resolve_model_source("nomic-embed").unwrap();
    assert_eq!(r.tag, "nomic-embed-text:latest");
    assert_eq!(r.parameter_size, "137M");
    assert_eq!(r.family, "nomic-bert");
}

#[test]
fn unknown_name_is_not_resolved() {
    assert!(resolve_model_source("no-such-model").is_none());
    assert!(resolve_model_source("").is_none());
    assert!(resolve_model_source("llama3.2:70b").is_none());
}

#[test]
fn direct_url_keeps_identifier_and_adds_extension() {
    let id = "https://example.com/models/Thing?download=1";
    let r = resolve_model_source(id).unwrap();
    assert_eq!(r.tag, id);
    assert_eq!(r.filename, "Thing.gguf");
    assert_eq!(r.download_url, "https://example.com/models/Thing?download=1");
    assert_eq!(r.parameter_size, "Unknown");
    assert_eq!(r.family, "custom");
}

#[test]
fn direct_url_with_gguf_file() {
    let r = resolve_model_source("http://host/a/b/model.gguf").unwrap();
    assert_eq!(r.filename, "model.gguf");
    assert_eq!(r.download_url, "http://host/a/b/model.gguf");
}

#[test]
fn hugging_face_shortcut() {
    let r = resolve_model_source("hf.co/User/Repo/sub/Model-Q4.gguf").unwrap();
    assert_eq!(r.tag, "hf.co/User/Repo/sub/Model-Q4.gguf");
    assert_eq!(r.filename, "Model-Q4.gguf");
    assert_eq!(r.download_url, "https://huggingface.co/User/Repo/resolve/main/sub/Model-Q4.gguf");
    assert_eq!(r.parameter_size, "Custom");
    assert_eq!(r.family, "custom");
}

#[test]
fn bare_repo_path_with_gguf() {
    let r = resolve_model_source("bartowski/repo/file.gguf").unwrap();
    assert_eq!(r.download_url, "https://huggingface.co/bartowski/repo/resolve/main/file.gguf");
    assert_eq!(r.filename, "file.gguf");
}

#[test]
fn short_hugging_face_path_falls_through() {
    assert!(resolve_model_source("hf.co/user").is_none());
    assert!(resolve_model_source("user/file.gguf").is_none());
}

#[test]
fn cleaned_source_is_used_as_given() {
    let r = resolve_cleaned_source("Anything", "mistral").unwrap();
    assert_eq!(r.tag, "mistral:7b");
    assert!(resolve_cleaned_source("MISTRAL", "MISTRAL").is_none());
}

#[test]
fn direct_url_keeps_its_case() {
    let id = "https://huggingface.co/bartowski/Llama-3.2-1B-Instruct-GGUF/resolve/main/Llama-3.2-1B-Instruct-Q4_K_M.gguf";
    let r = resolve_model_source(id).unwrap();
    assert_eq!(r.download_url, id);
    assert_eq!(r.filename, "Llama-3.2-1B-Instruct-Q4_K_M.gguf");
    let r = resolve_model_source("  Ollama.com/Library/HTTPS://Host/Dir/Big-Model?x=1 ").unwrap();
    assert_eq!(r.download_url, "HTTPS://Host/Dir/Big-Model?x=1");
    assert_eq!(r.filename, "Big-Model.gguf");
}

#[test]
fn hugging_face_path_keeps_its_case() {
    let r = resolve_model_source(" HF.co/Bartowski/Repo-GGUF/Model-Q4_K_M.gguf").unwrap();
    assert_eq!(r.download_url, "https://huggingface.co/Bartowski/Repo-GGUF/resolve/main/Model-Q4_K_M.gguf");
    assert_eq!(r.filename, "Model-Q4_K_M.gguf");
}

#[test]
fn names_resolve_by_trimmed_lower_case_form() {
    let a = resolve_model_source(" Qwen2.5-Coder:1.5B ").unwrap();
    let b = resolve_model_source("qwen2.5-coder:1.5b").unwrap();
    let c = resolve_model_source(" Ollama.com/library/Qwen2.5-Coder:1.5B ").unwrap();
    assert_eq!(a.filename, b.filename);
    assert_eq!(a.download_url, c.download_url);
    assert_eq!(b.tag, c.tag);
}

#[test]
fn resolved_tag_resolves_again() {
    for name in ["llama3.2", "DeepSeek-R1", "ollama.com/library/phi3.5", "hermes3:latest", "hf.co/u/r/f.gguf"] {
        let r = resolve_model_source(name).unwrap();
        let again = resolve_model_source(&r.tag).unwrap();
        assert_eq!(again.tag, r.tag);
        assert_eq!(again.filename, r.filename);
        assert_eq!(again.download_url, r.download_url);
    }
}
