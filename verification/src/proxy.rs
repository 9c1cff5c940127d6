//! Fixed replies and request checks of the REST compatibility server.
use vstd::prelude::*;
use crate::text::{chars_of, string_of, owned, trim, trim_seq, contains, contains_seq};
use crate::json::{push_text, clone_json};
use crate::pull::{error_body, error_body_text};

verus! {

/// The heartbeat text of `GET /`.
pub fn heartbeat_text() -> (res: String)
    ensures
        res@ == "Ollama is running\n"@,
{
    owned("Ollama is running\n")
}

/// The body of `GET /api/version`.
pub fn version_body() -> (res: String)
    ensures
        res@ == "{\"version\":\"0.1.0\"}"@,
{
    owned("{\"version\":\"0.1.0\"}")
}

/// The body acknowledging a deletion or copy.
pub fn success_body() -> (res: String)
    ensures
        res@ == "{\"status\":\"success\"}"@,
{
    owned("{\"status\":\"success\"}")
}

/// The body answering a generate request that unloads the model.
pub fn unload_body() -> (res: String)
    ensures
        res@ == "{\"done\":true,\"response\":\"\"}"@,
{
    owned("{\"done\":true,\"response\":\"\"}")
}

/// The 404 body for a request no route serves.
pub fn route_not_found_body(method: &str, path: &str) -> (res: String)
    ensures
        res@ == error_body_text("Route not found: "@ + method@ + " "@ + path@),
{
    let mut msg = chars_of("Route not found: ");
    push_text(&mut msg, method);
    push_text(&mut msg, " ");
    push_text(&mut msg, path);
    let m = string_of(&msg);
    error_body(m.as_str())
}

/// The model name a delete request names, trimmed, or the 400 body refusing
/// it when the `model` member is missing, not a string, or blank.
pub fn delete_target(model_field: Option<&str>) -> (res: Result<String, String>)
    ensures
        match model_field {
            Some(m) => if trim_seq(m@).len() > 0 {
                res matches Ok(t) && t@ == trim_seq(m@)
            } else {
                res matches Err(b) && b@ == error_body_text("missing 'model' parameter"@)
            },
            None => res matches Err(b) && b@ == error_body_text("missing 'model' parameter"@),
        },
{
    match model_field {
        Some(m) => {
            let t = trim(&chars_of(m));
            if t.len() > 0 {
                Ok(string_of(&t))
            } else {
                Err(error_body("missing 'model' parameter"))
            }
        },
        None => Err(error_body("missing 'model' parameter")),
    }
}

/// The 404 body for a model a delete request cannot find.
pub fn model_not_found_body(model: &str) -> (res: String)
    ensures
        res@ == error_body_text("model '"@ + model@ + "' not found"@),
{
    let mut msg = chars_of("model '");
    push_text(&mut msg, model);
    push_text(&mut msg, "' not found");
    let m = string_of(&msg);
    error_body(m.as_str())
}

/// The running model is stopped before its file is deleted: when the name
/// it runs under contains the file's name.
pub fn stops_before_delete(current_model: Option<&str>, filename: &str) -> (res: bool)
    ensures
        res == match current_model {
            Some(c) => contains_seq(c@, filename@),
            None => false,
        },
{
    match current_model {
        Some(c) => contains(&chars_of(c), &chars_of(filename)),
        None => false,
    }
}

/// The 400 body refusing a copy that lacks a source or a destination, or
/// `None` when both are given.
pub fn copy_refusal(source: &str, destination: &str) -> (res: Option<String>)
    ensures
        (source@.len() == 0 || destination@.len() == 0) ==> (res matches Some(b) && b@ == error_body_text(
            "missing 'source' or 'destination' parameter"@,
        )),
        (source@.len() > 0 && destination@.len() > 0) ==> res is None,
{
    if source.is_empty() || destination.is_empty() {
        Some(error_body("missing 'source' or 'destination' parameter"))
    } else {
        None
    }
}

/// The 404 body for a copy whose source cannot be found.
pub fn source_not_found_body(source: &str) -> (res: String)
    ensures
        res@ == error_body_text("source model '"@ + source@ + "' not found"@),
{
    let mut msg = chars_of("source model '");
    push_text(&mut msg, source);
    push_text(&mut msg, "' not found");
    let m = string_of(&msg);
    error_body(m.as_str())
}

/// The model an embedding request names, `model` when it names none.
pub fn model_or_default(model_field: Option<&str>) -> (res: String)
    ensures
        res@ == match model_field {
            Some(m) => m@,
            None => "model"@,
        },
{
    match model_field {
        Some(m) => owned(m),
        None => owned("model"),
    }
}

/// The member of an embedding request that holds what is to be embedded:
/// `prompt` on the legacy endpoint, `input` on the current one.
pub fn embed_input_field(is_legacy: bool) -> (res: String)
    ensures
        res@ == (if is_legacy { "prompt"@ } else { "input"@ }),
{
    if is_legacy {
        owned("prompt")
    } else {
        owned("input")
    }
}

/// The values that are present, in their order.
pub open spec fn present(s: Seq<Option<serde_json::Value>>) -> Seq<serde_json::Value>
    decreases s.len(),
{
    if s.len() == 0 {
        Seq::empty()
    } else {
        let rest = present(s.drop_last());
        match s.last() {
            Some(v) => rest.push(v),
            None => rest,
        }
    }
}

/// The embeddings of an engine reply: for each item of its `data` array the
/// `embedding` member where the item has one, in order.
pub fn collect_embeddings(found: &Vec<Option<serde_json::Value>>) -> (res: Vec<serde_json::Value>)
    ensures
        res@ == present(found@),
{
    let mut out: Vec<serde_json::Value> = Vec::new();
    let n = found.len();
    for i in 0..n
        invariant
            n == found@.len(),
            out@ == present(found@.subrange(0, i as int)),
    {
        assert(found@.subrange(0, i + 1).drop_last() == found@.subrange(0, i as int));
        match &found[i] {
            Some(v) => out.push(clone_json(v)),
            None => {},
        }
    }
    assert(found@.subrange(0, n as int) == found@);
    out
}

/// The embedding a legacy reply carries: that of the first item of the
/// engine's `data`, when the first item has an `embedding` array; none
/// otherwise. `arrays` holds, for each item, its `embedding` array if it
/// has one.
pub fn legacy_embedding(arrays: Vec<Option<Vec<serde_json::Value>>>) -> (res: Vec<serde_json::Value>)
    ensures
        res@ == (if arrays@.len() > 0 && arrays@[0] is Some {
            arrays@[0]->0@
        } else {
            Seq::<serde_json::Value>::empty()
        }),
{
    let mut arrays = arrays;
    if arrays.len() == 0 {
        return Vec::new();
    }
    match arrays.remove(0) {
        Some(v) => v,
        None => Vec::new(),
    }
}

} // verus!
