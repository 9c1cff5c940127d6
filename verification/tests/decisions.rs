use ollama_lite::clock::{chrono_iso_now, format_epoch_millis, format_epoch_seconds, now_iso};
use ollama_lite::models::{
    copy_destination_filename, find_installed, is_gguf_extension, model_digest, model_family, model_tag,
    MatchRule, ModelListing,
};
use ollama_lite::ollama_compat::get_ollama_tags;
use ollama_lite::proxy::{
    collect_embeddings, embed_input_field, copy_refusal, delete_target, heartbeat_text, model_not_found_body, model_or_default, route_not_found_body,
    source_not_found_body, stops_before_delete, success_body, unload_body, version_body,
};
use ollama_lite::pull::{already_present_lines, not_in_library_body, start_pull, PullProgress, PullStart};

fn listing(filename: &str, size: u64) -> ModelListing {
    ModelListing {
        filename: filename.to_string(),
        full_path: format!("/m/{}", filename),
        size_bytes: size,
        parameter_size: "1.0B".to_string(),
    }
}

#[test]
fn pull_request_checks() {
    match start_pull(Some("expected value at line 1 column 1"), None) {
        PullStart::Refuse { status, body } => {
            assert_eq!(status, 400);
            assert_eq!(body, "{\"error\":\"Invalid JSON: expected value at line 1 column 1\"}");
        }
        _ => panic!("expected refusal"),
    }
    match start_pull(None, Some("   ")) {
        PullStart::Refuse { status, body } => {
            assert_eq!(status, 400);
            assert_eq!(body, "{\"error\":\"missing 'model' field\"}");
        }
        _ => panic!("expected refusal"),
    }
    assert!(matches!(start_pull(None, None), PullStart::Refuse { status: 400, .. }));
    match start_pull(None, Some("  llama3.2 ")) {
        PullStart::Proceed { model } => assert_eq!(model, "llama3.2"),
        _ => panic!("expected to proceed"),
    }
}

#[test]
fn pull_of_present_file() {
    let lines = already_present_lines(77);
    assert_eq!(lines.len(), 4);
    assert_eq!(lines[0], "{\"status\":\"pulling manifest\"}\n");
    assert_eq!(lines[1], "{\"completed\":77,\"digest\":\"sha256:complete\",\"status\":\"downloading\",\"total\":77}\n");
    assert_eq!(lines[3], "{\"status\":\"success\"}\n");
    assert!(not_in_library_body("zzz").starts_with("{\"error\":\"Model 'zzz' not found in library."));
}

#[test]
fn pull_progress_reports_every_five_mebibytes_and_at_the_end() {
    let mib = 1024 * 1024;
    let mut p = PullProgress::new(12 * mib);
    assert_eq!(p.digest, "sha256:c00000");
    assert!(p.on_chunk(5 * mib).is_none());
    let line = p.on_chunk(1).unwrap();
    assert_eq!(line, format!("{{\"completed\":{},\"digest\":\"sha256:c00000\",\"status\":\"downloading\",\"total\":{}}}\n", 5 * mib + 1, 12 * mib));
    assert_eq!(p.last_reported, 5 * mib + 1);
    assert!(p.on_chunk(mib).is_none());
    let end = p.on_chunk(12 * mib - (6 * mib + 1)).unwrap();
    assert!(end.contains(&format!("\"completed\":{}", 12 * mib)));
    assert_eq!(p.downloaded, p.total);
}

#[test]
fn pull_progress_of_unknown_size() {
    let mut p = PullProgress::new(0);
    assert_eq!(p.digest, "sha256:0");
    assert!(p.on_chunk(10).is_none());
    assert_eq!(p.downloaded, 10);
}

#[test]
fn families_tags_and_digests() {
    assert_eq!(model_family("Qwen2.5-Coder.gguf", false), "qwen2");
    assert_eq!(model_family("DeepSeek-R1.gguf", false), "deepseek");
    assert_eq!(model_family("mistral-nemo.gguf", true), "mistral");
    assert_eq!(model_family("gemma-2-2b.gguf", false), "gemma2");
    assert_eq!(model_family("Phi-4.gguf", true), "phi3");
    assert_eq!(model_family("Phi-4.gguf", false), "llama");
    assert_eq!(model_family("other.gguf", true), "llama");
    assert_eq!(model_tag("a.gguf.gguf"), "a:latest:latest");
    assert_eq!(model_tag("noext"), "noext");
    assert_eq!(model_digest(0), "sha256:0");
    assert_eq!(model_digest(4920739840), "sha256:1254c8800");
    assert!(is_gguf_extension("GGUF"));
    assert!(!is_gguf_extension("bin"));
}

#[test]
fn installed_model_matching() {
    let installed = vec![listing("Llama-3.2-3B.gguf", 1), listing("qwen2.5-0.5b.gguf", 2)];
    assert_eq!(find_installed(&installed, "QWEN2.5-0.5B:latest", MatchRule::Loose), Some(1));
    assert_eq!(find_installed(&installed, "llama-3.2-3b-extra", MatchRule::Loose), Some(0));
    assert_eq!(find_installed(&installed, "mistral", MatchRule::Loose), None);
    assert_eq!(find_installed(&installed, "qwen2.5-0.5b", MatchRule::Delete), Some(1));
    assert_eq!(find_installed(&installed, "llama-3.2-3b-extra", MatchRule::Delete), None);
    assert_eq!(find_installed(&installed, "3b", MatchRule::Copy), Some(0));
    assert_eq!(find_installed(&installed, ":latest", MatchRule::Copy), Some(0));
}

#[test]
fn copy_destination_names() {
    assert_eq!(copy_destination_filename("my-assistant:latest"), "my-assistant_latest.gguf");
    assert_eq!(copy_destination_filename("keep.gguf"), "keep.gguf");
}

#[test]
fn compat_tags_listing() {
    let r = get_ollama_tags(&vec![listing("Phi-3.5.gguf", 31)]).unwrap();
    assert_eq!(r.models.len(), 1);
    let m = &r.models[0];
    assert_eq!(m.name, "Phi-3.5:latest");
    assert_eq!(m.digest, "sha256:1f");
    assert_eq!(m.size, 31);
    assert_eq!(m.modified_at, "2026-09-14T12:00:00Z");
    assert_eq!(m.details.family, "phi3");
    assert_eq!(m.details.format, "gguf");
    assert_eq!(m.details.parameter_size, "1.0B");
    assert_eq!(m.details.quantization_level, "Q4_K_M");
}

#[test]
fn proxy_fixed_replies_and_checks() {
    assert_eq!(heartbeat_text(), "Ollama is running\n");
    assert_eq!(version_body(), "{\"version\":\"0.1.0\"}");
    assert_eq!(success_body(), "{\"status\":\"success\"}");
    assert_eq!(unload_body(), "{\"done\":true,\"response\":\"\"}");
    assert_eq!(route_not_found_body("PUT", "/x"), "{\"error\":\"Route not found: PUT /x\"}");
    assert_eq!(delete_target(Some(" a ")), Ok("a".to_string()));
    assert_eq!(delete_target(Some(" ")), Err("{\"error\":\"missing 'model' parameter\"}".to_string()));
    assert!(delete_target(None).is_err());
    assert_eq!(model_not_found_body("x"), "{\"error\":\"model 'x' not found\"}");
    assert!(stops_before_delete(Some("big-model.gguf"), "model.gguf"));
    assert!(!stops_before_delete(None, "model.gguf"));
    assert!(copy_refusal("", "b").is_some());
    assert!(copy_refusal("a", "b").is_none());
    assert_eq!(source_not_found_body("s"), "{\"error\":\"source model 's' not found\"}");
    assert_eq!(model_or_default(None), "model");
    assert_eq!(model_or_default(Some("m")), "m");
}

#[test]
fn timestamps() {
    assert_eq!(format_epoch_seconds(0), "0");
    assert_eq!(format_epoch_seconds(1726300000), "1726300000");
    assert_eq!(format_epoch_millis(12, 5), "12.005Z");
    assert_eq!(format_epoch_millis(12, 50), "12.050Z");
    assert_eq!(format_epoch_millis(12, 999), "12.999Z");
    assert!(now_iso().parse::<u64>().unwrap() > 1_600_000_000);
    let t = chrono_iso_now();
    assert!(t.ends_with('Z'));
    assert_eq!(t.split_once('.').unwrap().1.len(), 4);
}

#[test]
fn embedding_requests_and_replies() {
    assert_eq!(embed_input_field(true), "prompt");
    assert_eq!(embed_input_field(false), "input");
    let a = serde_json::Value::Array(vec![serde_json::Value::from(0.5)]);
    let b = serde_json::Value::Array(vec![serde_json::Value::from(1.5), serde_json::Value::from(2)]);
    let found = vec![Some(a.clone()), None, Some(b.clone())];
    assert_eq!(collect_embeddings(&found), vec![a, b]);
    assert!(collect_embeddings(&vec![None, None]).is_empty());
    assert!(collect_embeddings(&Vec::new()).is_empty());
}
