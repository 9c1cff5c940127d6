use ollama_lite::json::json_quote;
use ollama_lite::models::{openai_models_body, ps_body, show_body, tags_body, ModelListing};
use ollama_lite::pull::{error_body, error_line};
use ollama_lite::translator::{
    chat_chunk_at, chat_reply_body, format_ollama_chat_chunk, format_ollama_generate_chunk,
    format_pull_download_chunk, format_pull_manifest_chunk, format_pull_success_chunk,
    format_pull_verifying_chunk, generate_chunk_at, generate_reply_body, chat_reply_content,
    generate_reply_content,
};
use serde_json::Value;

fn obj(pairs: Vec<(&str, Value)>) -> Value {
    let mut m = serde_json::Map::new();
    for (k, v) in pairs {
        m.insert(k.to_string(), v);
    }
    Value::Object(m)
}

fn s(x: &str) -> Value {
    Value::String(x.to_string())
}

fn listing(filename: &str, size: u64, param: &str) -> ModelListing {
    ModelListing {
        filename: filename.to_string(),
        full_path: format!("/models/{}", filename),
        size_bytes: size,
        parameter_size: param.to_string(),
    }
}

#[test]
fn json_quote_escapes_like_serde() {
    for text in ["plain", "quote\" back\\slash", "line\nfeed\ttab\r", "\u{1}\u{1f}\u{8}\u{c}", "héllo ✓", ""] {
        assert_eq!(json_quote(text), serde_json::to_string(text).unwrap());
    }
    assert_eq!(json_quote("a\u{1}"), "\"a\\u0001\"");
}

#[test]
fn pull_lines_match_serde_json() {
    assert_eq!(format_pull_manifest_chunk(), obj(vec![("status", s("pulling manifest"))]).to_string() + "\n");
    assert_eq!(format_pull_verifying_chunk(), obj(vec![("status", s("verifying sha256 digest"))]).to_string() + "\n");
    assert_eq!(format_pull_success_chunk(), "{\"status\":\"success\"}\n");
    let expected = obj(vec![
        ("status", s("downloading")),
        ("digest", s("sha256:a\"b")),
        ("total", Value::from(4096u64)),
        ("completed", Value::from(1024u64)),
    ]);
    assert_eq!(format_pull_download_chunk("sha256:a\"b", 4096, 1024), expected.to_string() + "\n");
    assert_eq!(
        format_pull_download_chunk("sha256:complete", 0, 0),
        "{\"completed\":0,\"digest\":\"sha256:complete\",\"status\":\"downloading\",\"total\":0}\n"
    );
}

#[test]
fn chat_and_generate_lines_match_serde_json() {
    let msg = obj(vec![("role", s("assistant")), ("content", s("Hi \"you\"\n"))]);
    let expected = obj(vec![
        ("model", s("llama3.2")),
        ("created_at", s("12.005Z")),
        ("message", msg),
        ("done", Value::Bool(false)),
    ]);
    assert_eq!(chat_chunk_at("llama3.2", "Hi \"you\"\n", false, "12.005Z"), expected.to_string() + "\n");
    let expected = obj(vec![
        ("model", s("m")),
        ("created_at", s("1.000Z")),
        ("response", s("tok")),
        ("done", Value::Bool(true)),
    ]);
    assert_eq!(generate_chunk_at("m", "tok", true, "1.000Z"), expected.to_string() + "\n");
}

#[test]
fn streamed_lines_are_single_records() {
    let c = format_ollama_chat_chunk("m", "a\nb", true);
    assert!(c.ends_with('\n'));
    assert_eq!(c.matches('\n').count(), 1);
    let v: Value = serde_json::from_str(c.trim_end()).unwrap();
    assert_eq!(v["message"]["content"], "a\nb");
    assert_eq!(v["done"], true);
    let created = v["created_at"].as_str().unwrap();
    assert!(created.ends_with('Z'));
    let (secs, millis) = created.trim_end_matches('Z').split_once('.').unwrap();
    assert!(secs.parse::<u64>().is_ok());
    assert_eq!(millis.len(), 3);
    let g = format_ollama_generate_chunk("m", "x", false);
    assert_eq!(g.matches('\n').count(), 1);
    let v: Value = serde_json::from_str(g.trim_end()).unwrap();
    assert_eq!(v["response"], "x");
}

#[test]
fn replies_match_serde_json() {
    let msg = obj(vec![("role", s("assistant")), ("content", s("done"))]);
    let expected = obj(vec![
        ("model", s("m")),
        ("created_at", s("5.123Z")),
        ("message", msg),
        ("done", Value::Bool(true)),
    ]);
    assert_eq!(chat_reply_body("m", "done", "5.123Z"), expected.to_string());
    let expected = obj(vec![
        ("model", s("m")),
        ("created_at", s("5.123Z")),
        ("response", s("r")),
        ("done", Value::Bool(true)),
    ]);
    assert_eq!(generate_reply_body("m", "r", "5.123Z"), expected.to_string());
}

#[test]
fn error_bodies() {
    assert_eq!(error_body("bad \"x\""), obj(vec![("error", s("bad \"x\""))]).to_string());
    assert_eq!(error_line("oops"), "{\"error\":\"oops\"}\n");
}

#[test]
fn tags_body_matches_serde_json() {
    let installed = vec![listing("Qwen2.5-7B.gguf", 255, "1.5B"), listing("plain.gguf", 16, "0.0B")];
    let mut models = Vec::new();
    for (tag, fam, size, digest, param) in [
        ("Qwen2.5-7B:latest", "qwen2", 255u64, "sha256:ff", "1.5B"),
        ("plain:latest", "llama", 16u64, "sha256:10", "0.0B"),
    ] {
        let details = obj(vec![
            ("parent_model", s("")),
            ("format", s("gguf")),
            ("family", s(fam)),
            ("families", Value::Array(vec![s(fam)])),
            ("parameter_size", s(param)),
            ("quantization_level", s("Q4_K_M")),
        ]);
        models.push(obj(vec![
            ("name", s(tag)),
            ("model", s(tag)),
            ("modified_at", s("2026-09-14T12:00:00Z")),
            ("size", Value::from(size)),
            ("digest", s(digest)),
            ("details", details),
        ]));
    }
    let expected = obj(vec![("models", Value::Array(models))]);
    assert_eq!(tags_body(&installed), expected.to_string());
    assert_eq!(tags_body(&Vec::new()), "{\"models\":[]}");
}

#[test]
fn openai_models_body_matches_serde_json() {
    let installed = vec![listing("a.gguf", 1, "x"), listing("b.GGUF", 2, "y")];
    let data = vec![
        obj(vec![("id", s("a:latest")), ("object", s("model")), ("created", Value::from(1726300000u64)), ("owned_by", s("library"))]),
        obj(vec![("id", s("b.GGUF")), ("object", s("model")), ("created", Value::from(1726300000u64)), ("owned_by", s("library"))]),
    ];
    let expected = obj(vec![("object", s("list")), ("data", Value::Array(data))]);
    assert_eq!(openai_models_body(&installed), expected.to_string());
}

#[test]
fn ps_body_matches_serde_json() {
    let details = obj(vec![
        ("format", s("gguf")),
        ("family", s("llama")),
        ("parameter_size", s("7B")),
        ("quantization_level", s("Q4_K_M")),
    ]);
    let entry = obj(vec![
        ("name", s("m:latest")),
        ("model", s("m:latest")),
        ("size", Value::from(4920739840u64)),
        ("digest", s("sha256:active")),
        ("details", details),
        ("expires_at", s("0001-01-01T00:00:00Z")),
        ("size_vram", Value::from(4920739840u64)),
    ]);
    let expected = obj(vec![("models", Value::Array(vec![entry]))]);
    assert_eq!(ps_body(true, Some("m.gguf")), expected.to_string());
    assert_eq!(ps_body(false, Some("m.gguf")), "{\"models\":[]}");
    assert_eq!(ps_body(true, None), "{\"models\":[]}");
}

#[test]
fn show_body_matches_serde_json() {
    let installed = vec![listing("Mistral-7B.gguf", 5, "10.5B")];
    let details = obj(vec![
        ("parent_model", s("")),
        ("format", s("gguf")),
        ("family", s("mistral")),
        ("families", Value::Array(vec![s("mistral")])),
        ("parameter_size", s("10.5B")),
        ("quantization_level", s("Q4_K_M")),
    ]);
    let modelfile = format!("# Modelfile generated by Ollama Lite\nFROM {}\nTEMPLATE \"\"\"{{{{ if .System }}}}<|im_start|>system\n{{{{ .System }}}}<|im_end|>\n{{{{ end }}}}{{{{ if .Prompt }}}}<|im_start|>user\n{{{{ .Prompt }}}}<|im_end|>\n{{{{ end }}}}<|im_start|>assistant\n\"\"\"\nPARAMETER stop \"<|im_end|>\"\nPARAMETER stop \"<|endoftext|>\"\n", "mistral-7b");
    let expected = obj(vec![
        ("modelfile", s(&modelfile)),
        ("parameters", s("stop \"<|im_end|>\"\nstop \"<|endoftext|>\"")),
        ("template", s("{{ if .System }}<|im_start|>system\n{{ .System }}<|im_end|>\n{{ end }}{{ if .Prompt }}<|im_start|>user\n{{ .Prompt }}<|im_end|>\n{{ end }}<|im_start|>assistant\n")),
        ("system", s("")),
        ("license", s("Apache-2.0 / Model License")),
        ("details", details),
        ("capabilities", Value::Array(vec![s("completion"), s("chat"), s("thinking")])),
    ]);
    assert_eq!(show_body(&installed, "mistral-7b"), expected.to_string());
    let unknown: Value = serde_json::from_str(&show_body(&installed, "zzz")).unwrap();
    assert_eq!(unknown["details"]["family"], "llama");
    assert_eq!(unknown["details"]["parameter_size"], "7B");
}

#[test]
fn engine_answers_are_read() {
    assert_eq!(chat_reply_content("{\"choices\":[{\"message\":{\"role\":\"assistant\",\"content\":\"Hi there\"}}]}"), "Hi there");
    assert_eq!(chat_reply_content("{\"choices\":[]}"), "");
    assert_eq!(chat_reply_content("{\"choices\":[{\"message\":{\"content\":3}}]}"), "");
    assert_eq!(chat_reply_content("not json"), "");
    assert_eq!(generate_reply_content("{\"content\":\"Once upon\",\"stop\":true}"), "Once upon");
    assert_eq!(generate_reply_content("{\"stop\":true}"), "");
    assert_eq!(generate_reply_content(""), "");
}
