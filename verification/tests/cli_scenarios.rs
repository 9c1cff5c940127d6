use ollama_lite::models::{find_file, find_model, show_body, MatchRule, ModelListing};
use ollama_lite::ollama_compat::get_ollama_tags;
use ollama_lite::models::tags_body;
use ollama_lite::proxy::legacy_embedding;
use ollama_lite::sidecar::{choose_model, ModelChoice};
use ollama_lite::tray::{menu_action, tray_click_action, window_event_action, ShellAction};
use serde_json::Value;

fn listing(filename: &str, size: u64, param: &str) -> ModelListing {
    ModelListing {
        filename: filename.to_string(),
        full_path: format!("/models/{}", filename),
        size_bytes: size,
        parameter_size: param.to_string(),
    }
}

fn pulled_pair() -> Vec<ModelListing> {
    vec![
        listing("Llama-3.2-3B-Instruct-Q4_K_M.gguf", 2019377696, "2.8B"),
        listing("DeepSeek-R1-Distill-Qwen-1.5B-Q4_K_M.gguf", 1117320736, "1.6B"),
    ]
}

#[test]
fn run_by_catalog_tag_starts_that_model() {
    let installed = pulled_pair();
    assert!(matches!(choose_model(false, None, "deepseek-r1:1.5b", &installed), ModelChoice::Start(1)));
    assert!(matches!(choose_model(false, None, "llama3.2", &installed), ModelChoice::Start(0)));
    let running = "DeepSeek-R1-Distill-Qwen-1.5B-Q4_K_M.gguf";
    assert!(matches!(choose_model(true, Some(running), "deepseek-r1:1.5b", &installed), ModelChoice::Keep(ref n) if n == running));
    assert!(matches!(choose_model(true, Some(running), "llama3.2:3b", &installed), ModelChoice::Start(0)));
}

#[test]
fn copy_show_and_delete_find_catalog_tags() {
    let installed = pulled_pair();
    assert_eq!(find_model(&installed, "llama3.2:3b", MatchRule::Copy), Some(0));
    assert_eq!(find_model(&installed, "deepseek-r1:1.5b", MatchRule::Loose), Some(1));
    assert_eq!(find_model(&installed, "deepseek-r1:1.5b", MatchRule::Delete), Some(1));
    assert_eq!(find_model(&installed, "qwen-1.5b", MatchRule::Copy), Some(1));
    assert_eq!(find_model(&installed, "mistral", MatchRule::Copy), None);
    assert_eq!(find_file(&installed, "Llama-3.2-3B-Instruct-Q4_K_M.gguf"), Some(0));
    assert_eq!(find_file(&installed, "llama-3.2-3b-instruct-q4_k_m.gguf"), None);
    let shown: Value = serde_json::from_str(&show_body(&installed, "deepseek-r1:1.5b")).unwrap();
    assert_eq!(shown["details"]["family"], "qwen2");
    assert_eq!(shown["details"]["parameter_size"], "1.6B");
}

#[test]
fn rest_and_desktop_tag_lists_agree() {
    let installed = vec![listing("Phi-4-Q4_K_M.gguf", 4096, "1.0B"), listing("Mistral-7B.gguf", 10, "0.0B")];
    let desktop = get_ollama_tags(&installed).unwrap();
    let rest: Value = serde_json::from_str(&tags_body(&installed)).unwrap();
    for (i, m) in desktop.models.iter().enumerate() {
        let e = &rest["models"][i];
        assert_eq!(e["name"], m.name.as_str());
        assert_eq!(e["digest"], m.digest.as_str());
        assert_eq!(e["size"], m.size);
        assert_eq!(e["details"]["parameter_size"], m.details.parameter_size.as_str());
    }
    assert_eq!(desktop.models[0].details.family, "phi3");
    assert_eq!(rest["models"][0]["details"]["family"], "llama");
    assert_eq!(rest["models"][1]["details"]["family"], desktop.models[1].details.family.as_str());
}

#[test]
fn legacy_embedding_takes_the_first_item() {
    let a = vec![Value::from(0.25), Value::from(0.5)];
    let b = vec![Value::from(1)];
    assert_eq!(legacy_embedding(vec![Some(a.clone()), Some(b)]), a);
    assert!(legacy_embedding(vec![None, Some(vec![Value::from(2)])]).is_empty());
    assert!(legacy_embedding(Vec::new()).is_empty());
}

#[test]
fn shell_events() {
    assert!(menu_action("show") == ShellAction::ShowWindow);
    assert!(menu_action("hide") == ShellAction::HideWindow);
    assert!(menu_action("stop") == ShellAction::UnloadModel);
    assert!(menu_action("quit") == ShellAction::Quit);
    assert!(menu_action("other") == ShellAction::Nothing);
    assert!(tray_click_action(true, true, true) == ShellAction::HideWindow);
    assert!(tray_click_action(true, true, false) == ShellAction::ShowWindow);
    assert!(tray_click_action(false, true, false) == ShellAction::Nothing);
    assert!(tray_click_action(true, false, false) == ShellAction::Nothing);
    assert!(window_event_action(true, false) == ShellAction::HideWindow);
    assert!(window_event_action(false, true) == ShellAction::UnloadModel);
    assert!(window_event_action(false, false) == ShellAction::Nothing);
}

#[test]
fn copied_alias_can_be_removed() {
    let dest = ollama_lite::models::copy_destination_filename("my-assistant:latest");
    assert_eq!(dest, "my-assistant_latest.gguf");
    let mut installed = pulled_pair();
    installed.push(listing(&dest, 2019377696, "2.8B"));
    assert_eq!(find_model(&installed, "my-assistant:latest", MatchRule::Delete), Some(2));
}
