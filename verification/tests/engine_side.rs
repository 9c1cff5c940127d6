use ollama_lite::db::{new_chat_session, new_db_message};
use ollama_lite::json::get_member;
use ollama_lite::paths::{
    app_dir_in, bin_dir_in, cli_dir_in, engine_binary_candidates, engine_info, get_cli_bat_path,
    get_ollama_cmd_path, get_ollama_lite_cmd_path, get_ollama_lite_sh_path, get_ollama_ps1_path,
    get_ollama_sh_path, join_path, models_dir_in, path_with_dir,
};
use ollama_lite::releases::{build_release, classify_asset, latest_release, release_builds, RawAsset, RawRelease};
use ollama_lite::sidecar::{
    choose_model, default_threads, launch_status, model_file_missing_message, plan_launch, ModelChoice,
    SidecarSettings,
};
use ollama_lite::models::ModelListing;
use ollama_lite::translator::{
    chat_stream_event, convert_ollama_chat_to_openai, convert_ollama_generate_to_llamacpp, default_stream_true,
    engine_url, generate_stream_event, generate_unloads, sse_data, ChatEvent, OllamaChatMessage,
    OllamaChatRequest, OllamaGenerateRequest,
};
use serde_json::Value;

fn asset(name: &str, url: &str) -> RawAsset {
    RawAsset { name: Some(name.to_string()), browser_download_url: Some(url.to_string()), size: Some(10) }
}

fn release(tag: Option<&str>, assets: Vec<RawAsset>) -> RawRelease {
    RawRelease {
        tag_name: tag.map(|t| t.to_string()),
        name: None,
        published_at: Some("2025-01-01".to_string()),
        html_url: None,
        body: Some("notes".to_string()),
        assets: Some(assets),
    }
}

#[test]
fn asset_kinds() {
    assert_eq!(classify_asset("llama-b1-bin-win-vulkan-x64.zip").as_deref(), Some("vulkan"));
    assert_eq!(classify_asset("llama-b1-bin-win-avx2-x64.zip").as_deref(), Some("cpu"));
    assert_eq!(classify_asset("llama-b1-bin-WIN-cuda-12.4-x64.ZIP").as_deref(), Some("cuda_12_4"));
    assert_eq!(classify_asset("llama-b1-bin-win-cuda-13.1-x64.zip").as_deref(), Some("cuda_13_3"));
    assert_eq!(classify_asset("llama-b1-bin-win-hip-radeon-x64.zip").as_deref(), Some("hip_radeon"));
    assert_eq!(classify_asset("llama-b1-bin-win-sycl-x64.zip").as_deref(), Some("sycl"));
    assert_eq!(classify_asset("llama-b1-bin-win-arm64.zip").as_deref(), Some("win_other"));
    assert_eq!(classify_asset("llama-b1-bin-ubuntu-x64.zip"), None);
    assert_eq!(classify_asset("llama-b1-bin-win-vulkan-x64.tar.gz"), None);
}

#[test]
fn release_urls_and_assets() {
    let r = build_release(&release(
        Some("b100"),
        vec![
            asset("llama-b100-bin-win-cuda-13.3-x64.zip", "u13"),
            asset("llama-b100-bin-win-cuda-12.4-x64.zip", "u12"),
            asset("llama-b100-bin-macos-arm64.zip", "mac"),
            asset("llama-b100-bin-win-sycl-x64.zip", "usycl"),
        ],
    ))
    .unwrap();
    assert_eq!(r.tag_name, "b100");
    assert_eq!(r.release_name, "b100");
    assert_eq!(r.published_at, "2025-01-01");
    assert_eq!(r.html_url, "");
    assert_eq!(r.body, "notes");
    assert_eq!(r.cuda_13_3_win_url, "u13");
    assert_eq!(r.cuda_12_4_win_url, "u12");
    assert_eq!(r.cuda_win_url, "u12");
    assert_eq!(r.sycl_win_url, "usycl");
    assert_eq!(r.hip_win_url, "");
    assert_eq!(r.vulkan_win_url, "https://github.com/ggml-org/llama.cpp/releases/download/b100/llama-b100-bin-win-vulkan-x64.zip");
    assert_eq!(r.cpu_win_url, "https://github.com/ggml-org/llama.cpp/releases/download/b100/llama-b100-bin-win-cpu-x64.zip");
    assert_eq!(r.assets.len(), 3);
    assert_eq!(r.assets[0].asset_type, "cuda_13_3");
    assert_eq!(r.assets[2].asset_type, "sycl");
    assert_eq!(r.assets[2].size_bytes, 10);
}

#[test]
fn cuda_thirteen_fills_empty_generic_slot_only() {
    let r = build_release(&release(
        Some("b2"),
        vec![asset("win-cuda-13-x64.zip", "a"), asset("win-cuda-13.3-x64.zip", "b")],
    ))
    .unwrap();
    assert_eq!(r.cuda_win_url, "a");
    assert_eq!(r.cuda_13_3_win_url, "b");
}

#[test]
fn untagged_releases_are_skipped() {
    assert!(build_release(&release(None, vec![])).is_none());
    assert!(build_release(&release(Some(""), vec![])).is_none());
    let list = release_builds(&vec![release(Some("b3"), vec![]), release(None, vec![]), release(Some("b1"), vec![])]);
    assert_eq!(list.len(), 2);
    assert_eq!(list[1].tag_name, "b1");
    let latest = latest_release(list).unwrap();
    assert_eq!(latest.tag_name, "b3");
    assert_eq!(latest_release(Vec::new()).err().unwrap(), "No releases found on ggml-org/llama.cpp");
}

#[test]
fn sidecar_settings_and_launch() {
    assert_eq!(default_threads(Some(16)), 8);
    assert_eq!(default_threads(Some(2)), 2);
    assert_eq!(default_threads(None), 4);
    let mut s = SidecarSettings::new(Some(6));
    assert_eq!(s.port, 11434);
    assert_eq!(s.internal_port, 11435);
    assert_eq!(s.threads, 6);
    let st = s.status(false);
    assert_eq!(st.api_url, "http://127.0.0.1:11434");
    assert_eq!(st.current_model, None);
    let plan = plan_launch("/m/x.gguf", None, Some(8080), Some(-1), None, None, s.internal_port, Some(6));
    assert_eq!(
        plan.args,
        vec!["-m", "/m/x.gguf", "--host", "127.0.0.1", "--port", "11435", "-ngl", "-1", "-c", "8192", "-t", "6"]
    );
    s.record_launch(&plan, "/m/x.gguf", "x.gguf");
    let st = s.status(true);
    assert!(st.is_running);
    assert_eq!(st.current_model.as_deref(), Some("x.gguf"));
    assert_eq!(st.api_url, "http://127.0.0.1:8080");
    assert_eq!(st.n_gpu_layers, -1);
    let ls = launch_status(&plan, "/m/x.gguf");
    assert_eq!(ls.current_model.as_deref(), Some("/m/x.gguf"));
    s.stop();
    assert_eq!(s.status(true).current_model, None);
    assert_eq!(s.current_model_path, None);
    assert_eq!(model_file_missing_message("/p"), "Model file not found: /p");
}

fn listing(filename: &str) -> ModelListing {
    ModelListing { filename: filename.to_string(), full_path: filename.to_string(), size_bytes: 0, parameter_size: String::new() }
}

#[test]
fn model_choice() {
    let installed = vec![listing("Llama-3.2.gguf"), listing("Qwen2.5.gguf")];
    assert!(matches!(choose_model(true, Some("Qwen2.5.gguf"), "qwen2.5:latest", &installed), ModelChoice::Keep(ref n) if n == "Qwen2.5.gguf"));
    assert!(matches!(choose_model(true, Some("Qwen2.5.gguf"), "", &installed), ModelChoice::Keep(_)));
    assert!(matches!(choose_model(false, Some("Qwen2.5.gguf"), "qwen", &installed), ModelChoice::Start(1)));
    assert!(matches!(choose_model(true, Some("Qwen2.5.gguf"), "LLAMA", &installed), ModelChoice::Start(0)));
    assert!(matches!(choose_model(false, None, "unknown", &installed), ModelChoice::Start(0)));
    assert!(matches!(choose_model(false, None, "x", &Vec::new()), ModelChoice::NoneInstalled));
}

#[test]
fn application_paths() {
    assert_eq!(join_path("/data", "ollama-lite", '/'), "/data/ollama-lite");
    assert_eq!(join_path("/data/", "x", '/'), "/data/x");
    assert_eq!(join_path("", "x", '/'), "x");
    assert_eq!(join_path("C:\\d", "x", '\\'), "C:\\d\\x");
    assert_eq!(join_path("C:", "x", '\\'), "C:x");
    assert_eq!(join_path("d:", "x", '\\'), "d:x");
    assert_eq!(join_path("C:", "x", '/'), "C:/x");
    assert_eq!(join_path("1:", "x", '\\'), "1:\\x");
    assert_eq!(join_path("C:\\", "x", '\\'), "C:\\x");
    assert_eq!(app_dir_in("/d", '/'), "/d/ollama-lite");
    assert_eq!(models_dir_in("/d/ollama-lite", '/'), "/d/ollama-lite/models");
    assert_eq!(bin_dir_in("/d/ollama-lite", '/'), "/d/ollama-lite/bin");
    let cli = cli_dir_in("/d", '/');
    assert_eq!(cli, "/d/ollama-lite/cli");
    assert_eq!(get_ollama_cmd_path(&cli, '/'), "/d/ollama-lite/cli/ollama.cmd");
    assert_eq!(get_ollama_ps1_path(&cli, '/'), "/d/ollama-lite/cli/ollama.ps1");
    assert_eq!(get_ollama_lite_cmd_path(&cli, '/'), "/d/ollama-lite/cli/ollama-lite.cmd");
    assert_eq!(get_ollama_sh_path(&cli, '/'), "/d/ollama-lite/cli/ollama");
    assert_eq!(get_ollama_lite_sh_path(&cli, '/'), "/d/ollama-lite/cli/ollama-lite");
    assert_eq!(get_cli_bat_path(&cli, '/'), get_ollama_cmd_path(&cli, '/'));
    let c = engine_binary_candidates("/b", '/');
    assert_eq!(c, vec!["/b/llama-server.exe", "/b/llama-server-x86_64-pc-windows-msvc.exe", "/b/resources/llama-server.exe"]);
    assert_eq!(path_with_dir("C:\\A;C:\\B", "C:\\Cli"), Some("C:\\A;C:\\B;C:\\Cli".to_string()));
    assert_eq!(path_with_dir("C:\\A;", "C:\\Cli"), Some("C:\\A;C:\\Cli".to_string()));
    assert_eq!(path_with_dir("", "C:\\Cli"), Some("C:\\Cli".to_string()));
    assert_eq!(path_with_dir("c:\\cli;C:\\A", "C:\\CLI"), None);
    let e = engine_info(Some("/b/llama-server.exe".to_string()));
    assert!(e.is_installed);
    assert_eq!(e.version.as_deref(), Some("llama.cpp release build"));
    let e = engine_info(None);
    assert!(!e.is_installed && e.exe_path.is_none() && e.version.is_none());
}

#[test]
fn chat_records() {
    let s = new_chat_session("id1", "Title", "1700000000");
    assert_eq!((s.id.as_str(), s.title.as_str(), s.created_at.as_str(), s.updated_at.as_str()), ("id1", "Title", "1700000000", "1700000000"));
    let m = new_db_message("m1", "id1", "user", "hi", "1700000001");
    assert_eq!((m.session_id.as_str(), m.role.as_str(), m.content.as_str(), m.timestamp.as_str()), ("id1", "user", "hi", "1700000001"));
}

fn opts(pairs: Vec<(&str, Value)>) -> Vec<(String, Value)> {
    pairs.into_iter().map(|(k, v)| (k.to_string(), v)).collect()
}

#[test]
fn chat_request_conversion() {
    let req = OllamaChatRequest {
        model: "m".to_string(),
        messages: vec![
            OllamaChatMessage { role: "system".to_string(), content: "be brief".to_string(), images: None },
            OllamaChatMessage { role: "user".to_string(), content: "hi".to_string(), images: Some(vec!["img".to_string()]) },
        ],
        stream: None,
        options: Some(opts(vec![
            ("num_predict", Value::from(64)),
            ("temperature", Value::from(0.5)),
            ("seed", Value::from(1)),
            ("stop", Value::from("END")),
        ])),
        keep_alive: None,
    };
    let body = convert_ollama_chat_to_openai(&req);
    assert!(body.stream);
    assert_eq!(body.messages, vec![("system".to_string(), "be brief".to_string()), ("user".to_string(), "hi".to_string())]);
    assert_eq!(
        body.sampling,
        vec![
            ("temperature".to_string(), Value::from(0.5)),
            ("max_tokens".to_string(), Value::from(64)),
            ("stop".to_string(), Value::from("END")),
        ]
    );
    let no_opts = OllamaChatRequest { options: None, stream: Some(false), ..req };
    let body = convert_ollama_chat_to_openai(&no_opts);
    assert!(!body.stream);
    assert!(body.sampling.is_empty());
    assert_eq!(default_stream_true(), Some(true));
}

#[test]
fn generate_request_conversion() {
    let req = OllamaGenerateRequest {
        model: "m".to_string(),
        prompt: "Why?".to_string(),
        stream: Some(false),
        system: Some("Sys".to_string()),
        template: None,
        context: None,
        options: Some(opts(vec![("top_k", Value::from(3)), ("num_predict", Value::from(9)), ("top_p", Value::from(0.9))])),
    };
    let body = convert_ollama_generate_to_llamacpp(&req);
    assert_eq!(body.prompt, "System: Sys\nUser: Why?");
    assert!(!body.stream);
    assert_eq!(body.sampling, vec![("top_p".to_string(), Value::from(0.9)), ("n_predict".to_string(), Value::from(9))]);
    let plain = OllamaGenerateRequest { system: None, stream: None, ..req };
    let body = convert_ollama_generate_to_llamacpp(&plain);
    assert_eq!(body.prompt, "Why?");
    assert!(body.stream);
    assert_eq!(get_member(&opts(vec![("a", Value::from(1)), ("a", Value::from(2))]), "a"), Some(Value::from(1)));
}

#[test]
fn engine_stream_lines() {
    assert_eq!(sse_data("  data: {\"x\":1}  ").as_deref(), Some("{\"x\":1}"));
    assert_eq!(sse_data("event: ping"), None);
    assert!(matches!(chat_stream_event("data: [DONE]"), ChatEvent::Done));
    match chat_stream_event("data: {\"choices\":[{\"delta\":{\"content\":\"Hel\"}}]}") {
        ChatEvent::Content(c) => assert_eq!(c, "Hel"),
        _ => panic!("expected content"),
    }
    assert!(matches!(chat_stream_event("data: {\"choices\":[{\"delta\":{}}]}"), ChatEvent::Ignore));
    assert!(matches!(chat_stream_event("data: not json"), ChatEvent::Ignore));
    assert!(matches!(chat_stream_event(": keep-alive"), ChatEvent::Ignore));
    let e = generate_stream_event("data: {\"content\":\"tok\",\"stop\":true}").unwrap();
    assert_eq!(e.content, "tok");
    assert!(e.stop);
    let e = generate_stream_event("data: {\"other\":1}").unwrap();
    assert_eq!(e.content, "");
    assert!(!e.stop);
    assert!(generate_stream_event("data: [DONE]").is_none());
    assert!(generate_unloads("   "));
    assert!(!generate_unloads("m"));
    assert_eq!(engine_url(11435, "/completion"), "http://127.0.0.1:11435/completion");
}
