//! `/api/pull`: validating the request, and the progress a download reports.
use vstd::prelude::*;
use crate::text::{chars_of, string_of, trim, trim_seq, push_all, hex, hex_chars};
use crate::json::{json_quoted, push_text, push_json_string};
use crate::translator::{
    format_pull_manifest_chunk, format_pull_download_chunk, format_pull_verifying_chunk,
    format_pull_success_chunk, pull_download_text,
};

verus! {

/// A JSON error body carrying `message`.
pub open spec fn error_body_text(message: Seq<char>) -> Seq<char> {
    "{\"error\":"@ + json_quoted(message) + "}"@
}

/// The JSON error body `{"error": message}`.
pub fn error_body(message: &str) -> (res: String)
    ensures
        res@ == error_body_text(message@),
{
    let mut out = chars_of("{\"error\":");
    push_json_string(&mut out, message);
    push_text(&mut out, "}");
    string_of(&out)
}

/// The JSON error body `{"error": message}` as one NDJSON line.
pub fn error_line(message: &str) -> (res: String)
    ensures
        res@ == error_body_text(message@) + "\n"@,
{
    let mut out = chars_of("{\"error\":");
    push_json_string(&mut out, message);
    push_text(&mut out, "}");
    push_text(&mut out, "\n");
    string_of(&out)
}

/// How a pull request is answered before anything is looked up.
pub enum PullStart {
    /// Refused with a status and a JSON error body.
    Refuse { status: u16, body: String },
    /// Go on with the trimmed model name.
    Proceed { model: String },
}

/// The decision on a pull request: refused (400) when its body is not JSON
/// (`parse_error` holds the parser's message) or names no non-blank
/// `model`; otherwise go on with the trimmed name.
pub open spec fn pull_start_spec(parse_error: Option<Seq<char>>, model_field: Option<Seq<char>>) -> (u16, Seq<char>, Seq<char>) {
    match parse_error {
        Some(e) => (400, error_body_text("Invalid JSON: "@ + e), Seq::empty()),
        None => match model_field {
            Some(m) => if trim_seq(m).len() > 0 {
                (200, Seq::empty(), trim_seq(m))
            } else {
                (400, error_body_text("missing 'model' field"@), Seq::empty())
            },
            None => (400, error_body_text("missing 'model' field"@), Seq::empty()),
        },
    }
}

/// Decides whether a pull request goes on, given the JSON parser's error (if
/// the body did not parse) and the `model` member (if it is a string).
pub fn start_pull(parse_error: Option<&str>, model_field: Option<&str>) -> (res: PullStart)
    ensures
        match res {
            PullStart::Refuse { status, body } => {
                let s = pull_start_spec(
                    match parse_error { Some(e) => Some(e@), None => None },
                    match model_field { Some(m) => Some(m@), None => None },
                );
                s.0 == status && s.0 != 200 && s.1 == body@
            },
            PullStart::Proceed { model } => {
                let s = pull_start_spec(
                    match parse_error { Some(e) => Some(e@), None => None },
                    match model_field { Some(m) => Some(m@), None => None },
                );
                s.0 == 200 && s.2 == model@
            },
        },
{
    match parse_error {
        Some(e) => {
            let mut msg = chars_of("Invalid JSON: ");
            push_text(&mut msg, e);
            let m = string_of(&msg);
            PullStart::Refuse { status: 400, body: error_body(m.as_str()) }
        },
        None => {
            match model_field {
                Some(m) => {
                    let t = trim(&chars_of(m));
                    if t.len() > 0 {
                        PullStart::Proceed { model: string_of(&t) }
                    } else {
                        PullStart::Refuse { status: 400, body: error_body("missing 'model' field") }
                    }
                },
                None => PullStart::Refuse { status: 400, body: error_body("missing 'model' field") },
            }
        },
    }
}

/// The message when a model cannot be resolved for pulling.
pub open spec fn not_in_library_text(model: Seq<char>) -> Seq<char> {
    "Model '"@ + model
        + "' not found in library. Specify a supported model (e.g. llama3.2, deepseek-r1, qwen2.5-coder) or a direct Hugging Face URL"@
}

/// The 404 body for a model that cannot be resolved.
pub fn not_in_library_body(model: &str) -> (res: String)
    ensures
        res@ == error_body_text(not_in_library_text(model@)),
{
    let mut msg = chars_of("Model '");
    push_text(&mut msg, model);
    push_text(
        &mut msg,
        "' not found in library. Specify a supported model (e.g. llama3.2, deepseek-r1, qwen2.5-coder) or a direct Hugging Face URL",
    );
    let m = string_of(&msg);
    error_body(m.as_str())
}

/// The progress lines of a pull that finds its file already there: the
/// manifest line, a download line complete at `size` bytes, verification and
/// success.
pub fn already_present_lines(size: u64) -> (res: Vec<String>)
    ensures
        res@.len() == 4,
        res@[0]@ == "{\"status\":\"pulling manifest\"}\n"@,
        res@[1]@ == pull_download_text("sha256:complete"@, size as nat, size as nat),
        res@[2]@ == "{\"status\":\"verifying sha256 digest\"}\n"@,
        res@[3]@ == "{\"status\":\"success\"}\n"@,
{
    let mut out: Vec<String> = Vec::new();
    out.push(format_pull_manifest_chunk());
    out.push(format_pull_download_chunk("sha256:complete", size, size));
    out.push(format_pull_verifying_chunk());
    out.push(format_pull_success_chunk());
    out
}

/// How many more bytes than last reported make a pull report progress again.
pub open spec fn report_step() -> nat {
    5 * 1024 * 1024
}

/// A download in progress: its size (0 when unknown), the bytes received and
/// the bytes last reported.
pub struct PullProgress {
    pub digest: String,
    pub total: u64,
    pub downloaded: u64,
    pub last_reported: u64,
}

impl PullProgress {
    /// The reported figure never runs ahead of the download.
    pub open spec fn wf(&self) -> bool {
        self.last_reported <= self.downloaded
    }

    /// A download of `total` bytes with nothing received; its digest names
    /// the size in hexadecimal.
    pub fn new(total: u64) -> (res: PullProgress)
        ensures
            res.wf(),
            res.digest@ == "sha256:"@ + hex(total as nat, false),
            res.total == total,
            res.downloaded == 0,
            res.last_reported == 0,
    {
        let mut d = chars_of("sha256:");
        push_all(&mut d, &hex_chars(total, false));
        PullProgress { digest: string_of(&d), total, downloaded: 0, last_reported: 0 }
    }

    /// Takes `len` more bytes. Progress is reported (the line is returned)
    /// when more than the report step has arrived since the last report, or
    /// the download has reached its size; the report then catches up.
    pub fn on_chunk(&mut self, len: u64) -> (res: Option<String>)
        requires
            old(self).wf(),
            old(self).downloaded + len <= u64::MAX,
        ensures
            final(self).wf(),
            final(self).digest == old(self).digest,
            final(self).total == old(self).total,
            final(self).downloaded == old(self).downloaded + len,
            ({
                let d = final(self).downloaded;
                let due = d - old(self).last_reported > report_step() || d == old(self).total;
                &&& due ==> (final(self).last_reported == d && (res matches Some(line) && line@
                    == pull_download_text(old(self).digest@, old(self).total as nat, d as nat)))
                &&& !due ==> final(self).last_reported == old(self).last_reported && res is None
            }),
    {
        self.downloaded = self.downloaded + len;
        if self.downloaded - self.last_reported > 5 * 1024 * 1024 || self.downloaded == self.total {
            self.last_reported = self.downloaded;
            Some(format_pull_download_chunk(self.digest.as_str(), self.total, self.downloaded))
        } else {
            None
        }
    }
}

} // verus!
