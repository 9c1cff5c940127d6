//! The model listing in the shape of Ollama's `/api/tags`, for the desktop UI.
use vstd::prelude::*;
use crate::text::{owned, lowercase, decimal};
use crate::json::json_quoted;
use crate::models::{details_text, tags_entries, ModelListing, model_family, model_tag, model_digest, family_of, tag_of, digest_of};

verus! {

/// Format, family, size and quantization of a listed model.
pub struct OllamaModelDetails {
    pub format: String,
    pub family: String,
    pub parameter_size: String,
    pub quantization_level: String,
}

/// One listed model.
pub struct OllamaModel {
    pub name: String,
    pub modified_at: String,
    pub size: u64,
    pub digest: String,
    pub details: OllamaModelDetails,
}

/// The listed models.
pub struct OllamaTagsResponse {
    pub models: Vec<OllamaModel>,
}

/// `model` is how `listing` is listed: named by its tag, with its size, the
/// size-derived digest, its family (Phi recognised) and parameter size, a
/// fixed modification time, GGUF format and Q4_K_M quantization.
pub open spec fn lists_as(model: OllamaModel, listing: ModelListing) -> bool {
    &&& model.name@ == tag_of(listing.filename@)
    &&& model.modified_at@ == "2026-09-14T12:00:00Z"@
    &&& model.size == listing.size_bytes
    &&& model.digest@ == digest_of(listing.size_bytes as nat)
    &&& model.details.format@ == "gguf"@
    &&& model.details.family@ == family_of(lowercase(listing.filename@), true)
    &&& model.details.parameter_size@ == listing.parameter_size@
    &&& model.details.quantization_level@ == "Q4_K_M"@
}

/// Lists the installed models in Ollama's tag format, one entry per model in order.
pub fn get_ollama_tags(installed: &Vec<ModelListing>) -> (res: Result<OllamaTagsResponse, String>)
    ensures
        res is Ok,
        res matches Ok(r) ==> r.models@.len() == installed@.len() && forall|i: int|
            0 <= i < installed@.len() ==> lists_as(#[trigger] r.models@[i], installed@[i]),
{
    let n = installed.len();
    let mut models: Vec<OllamaModel> = Vec::new();
    for i in 0..n
        invariant
            n == installed@.len(),
            models@.len() == i,
            forall|j: int| 0 <= j < i ==> lists_as(#[trigger] models@[j], installed@[j]),
    {
        let m = &installed[i];
        models.push(
            OllamaModel {
                name: model_tag(m.filename.as_str()),
                modified_at: owned("2026-09-14T12:00:00Z"),
                size: m.size_bytes,
                digest: model_digest(m.size_bytes),
                details: OllamaModelDetails {
                    format: owned("gguf"),
                    family: model_family(m.filename.as_str(), true),
                    parameter_size: owned(m.parameter_size.as_str()),
                    quantization_level: owned("Q4_K_M"),
                },
            },
        );
    }
    Ok(OllamaTagsResponse { models })
}

/// The family the REST listing reports for a model the desktop listing
/// reports under `family`: Phi models show as `llama` there.
pub open spec fn rest_family(family: Seq<char>) -> Seq<char> {
    if family == "phi3"@ { "llama"@ } else { family }
}

/// The `/api/tags` entry that describes `model` of the desktop listing.
pub open spec fn rest_entry_text(model: OllamaModel) -> Seq<char> {
    "{\"details\":"@ + details_text(rest_family(model.details.family@), model.details.parameter_size@)
        + ",\"digest\":"@ + json_quoted(model.digest@) + ",\"model\":"@ + json_quoted(model.name@)
        + ",\"modified_at\":\"2026-09-14T12:00:00Z\",\"name\":"@ + json_quoted(model.name@) + ",\"size\":"@
        + decimal(model.size as nat) + "}"@
}

/// Law: the REST `/api/tags` listing and the desktop listing describe the
/// same models in the same order: each REST entry carries the desktop
/// model's name, size, digest and parameter size, and its family, except
/// that a Phi model is reported as `llama`.
pub proof fn lemma_rest_tags_match_desktop_tags(installed: Seq<ModelListing>, models: Seq<OllamaModel>)
    requires
        models.len() == installed.len(),
        forall|i: int| 0 <= i < installed.len() ==> lists_as(#[trigger] models[i], installed[i]),
    ensures
        tags_entries(installed).len() == models.len(),
        forall|i: int| 0 <= i < models.len() ==> #[trigger] tags_entries(installed)[i] == rest_entry_text(models[i]),
{
    reveal_strlit("phi3");
    reveal_strlit("qwen2");
    reveal_strlit("deepseek");
    reveal_strlit("mistral");
    reveal_strlit("gemma2");
    reveal_strlit("llama");
    assert forall|i: int| 0 <= i < models.len() implies #[trigger] tags_entries(installed)[i] == rest_entry_text(
        models[i],
    ) by {
        let l = installed[i];
        let lower = lowercase(l.filename@);
        assert(rest_family(family_of(lower, true)) == family_of(lower, false)) by {
            assert("qwen2"@[0] != "phi3"@[0] && "deepseek"@[0] != "phi3"@[0] && "mistral"@[0] != "phi3"@[0]);
            assert("gemma2"@[0] != "phi3"@[0] && "llama"@[0] != "phi3"@[0]);
        }
    }
}

} // verus!
