//! The HTTP/1.1 surface of the compatibility server: reading a request head,
//! routing it, and framing responses.
use vstd::prelude::*;
use vstd::utf8::{encode_utf8, valid_utf8, decode_utf8};
use crate::text::{
    chars_of, string_of, lines, lines_seq, words, words_seq, views, to_uppercase, uppercase,
    to_lowercase, lowercase, starts_with, is_prefix_of, split, split_char, trim, trim_seq, find,
    occurs_at, contains_seq, copy_chars, is_text, decimal, decimal_chars,
    hex, hex_chars, push_all, contains,
};

verus! {

/// Is `c` an ASCII decimal digit?
pub open spec fn is_digit(c: char) -> bool {
    '0' <= c && c <= '9'
}

/// The value of the decimal digits `s`.
pub open spec fn digits_value(s: Seq<char>) -> nat
    decreases s.len(),
{
    if s.len() == 0 {
        0
    } else {
        10 * digits_value(s.drop_last()) + ((s.last() as u32) - ('0' as u32)) as nat
    }
}

/// `s` without one leading `+`.
pub open spec fn unsigned_body(s: Seq<char>) -> Seq<char> {
    if s.len() > 0 && s[0] == '+' { s.subrange(1, s.len() as int) } else { s }
}

/// Every character of `s` is a decimal digit.
pub open spec fn all_digits(s: Seq<char>) -> bool {
    forall|i: int| 0 <= i < s.len() ==> is_digit(#[trigger] s[i])
}

/// What `usize::from_str` accepts: an optional `+`, then one or more ASCII
/// digits whose value fits in `usize`.
pub open spec fn parse_usize_spec(s: Seq<char>) -> Option<nat> {
    let body = unsigned_body(s);
    if body.len() > 0 && all_digits(body) && digits_value(body) <= usize::MAX {
        Some(digits_value(body))
    } else {
        None
    }
}

proof fn lemma_digits_value_grows(s: Seq<char>, k: int)
    requires
        0 <= k <= s.len(),
        forall|i: int| 0 <= i < s.len() ==> is_digit(#[trigger] s[i]),
    ensures
        digits_value(s.take(k)) <= digits_value(s),
    decreases s.len(),
{
    if k < s.len() {
        assert(s.drop_last().take(k) == s.take(k));
        lemma_digits_value_grows(s.drop_last(), k);
    } else {
        assert(s.take(k) == s);
    }
}

/// Parses a decimal `usize` as `usize::from_str` does.
pub fn parse_usize(s: &Vec<char>) -> (res: Option<usize>)
    ensures
        match res {
            Some(v) => parse_usize_spec(s@) == Some(v as nat),
            None => parse_usize_spec(s@) is None,
        },
{
    let n = s.len();
    let start: usize = if n > 0 && s[0] == '+' { 1 } else { 0 };
    let ghost body = unsigned_body(s@);
    assert(body == s@.subrange(start as int, n as int));
    if start >= n {
        return None;
    }
    let mut value: usize = 0;
    let mut i = start;
    assert(body.take(0) =~= Seq::<char>::empty());
    while i < n
        invariant
            start <= i <= n == s@.len(),
            start < n,
            body == s@.subrange(start as int, n as int),
            body == unsigned_body(s@),
            forall|j: int| 0 <= j < i - start ==> is_digit(#[trigger] body[j]),
            value as nat == digits_value(body.take(i - start)),
        decreases n - i,
    {
        let c = s[i];
        assert(c == body[i - start]);
        if !('0' <= c && c <= '9') {
            assert(!is_digit(body[i - start]));
            assert(!all_digits(body));
            return None;
        }
        let d = (c as u32 - '0' as u32) as usize;
        assert(body.take(i - start + 1).drop_last() == body.take(i - start));
        assert(body.take(i - start + 1).last() == c);
        if value > (usize::MAX - d) / 10 {
            proof {
                assert(digits_value(body.take(i - start + 1)) > usize::MAX) by (nonlinear_arith)
                    requires
                        value > (usize::MAX - d) / 10,
                        digits_value(body.take(i - start + 1)) == 10 * value + d,
                        d <= 9,
                ;
                if all_digits(body) {
                    lemma_digits_value_grows(body, i - start + 1);
                    assert(digits_value(body) > usize::MAX);
                }
            }
            return None;
        }
        proof {
            assert(10 * value + d <= usize::MAX) by (nonlinear_arith)
                requires
                    value <= (usize::MAX - d) / 10,
                    d <= 9,
            ;
        }
        value = value * 10 + d;
        i = i + 1;
    }
    assert(body.take(n - start) == body);
    Some(value)
}

} // verus!

verus! {

/// The `Content-Length` a header line sets, if it is one: the text between
/// its first and second colon, trimmed and read as a number (zero when it is
/// not one). Lines that are not a `Content-Length` header, or have no colon,
/// set nothing.
pub open spec fn header_content_length(line: Seq<char>) -> Option<nat> {
    let pieces = split_char(line, ':');
    if is_prefix_of("content-length:"@, lowercase(line)) && pieces.len() >= 2 {
        match parse_usize_spec(trim_seq(pieces[1])) {
            Some(v) => Some(v),
            None => Some(0),
        }
    } else {
        None
    }
}

/// The content length that the lines set: the last line that sets one wins,
/// zero when none does.
pub open spec fn content_length_of(ls: Seq<Seq<char>>) -> nat
    decreases ls.len(),
{
    if ls.len() == 0 {
        0
    } else {
        match header_content_length(ls.last()) {
            Some(v) => v,
            None => content_length_of(ls.drop_last()),
        }
    }
}

/// The method, path and content length of an HTTP request.
pub struct RequestHead {
    pub method: String,
    pub path: String,
    pub content_length: usize,
}

/// What a request text declares: the upper-cased first word and the second
/// word of its first line, and the content length its lines set; `None` when
/// there is no line or the first line has fewer than two words.
pub open spec fn request_head_spec(text: Seq<char>) -> Option<(Seq<char>, Seq<char>, nat)> {
    let ls = lines_seq(text);
    if ls.len() == 0 {
        None
    } else {
        let w = words_seq(ls[0]);
        if w.len() < 2 {
            None
        } else {
            Some((uppercase(w[0]), w[1], content_length_of(ls)))
        }
    }
}

fn line_content_length(line: &Vec<char>) -> (res: Option<usize>)
    ensures
        match res {
            Some(v) => header_content_length(line@) == Some(v as nat),
            None => header_content_length(line@) is None,
        },
{
    let lower = to_lowercase(line);
    let prefix = chars_of("content-length:");
    if !starts_with(&lower, &prefix) {
        return None;
    }
    let pieces = split(line, ':');
    if pieces.len() < 2 {
        return None;
    }
    let value = trim(&pieces[1]);
    match parse_usize(&value) {
        Some(v) => Some(v),
        None => Some(0),
    }
}

/// Reads the request line and headers of an HTTP request text.
pub fn parse_request_head(text: &str) -> (res: Option<RequestHead>)
    ensures
        match res {
            Some(h) => request_head_spec(text@) == Some((h.method@, h.path@, h.content_length as nat)),
            None => request_head_spec(text@) is None,
        },
{
    let chars = chars_of(text);
    let ls = lines(&chars);
    if ls.len() == 0 {
        return None;
    }
    let w = words(&ls[0]);
    if w.len() < 2 {
        return None;
    }
    let method = to_uppercase(&w[0]);
    let path = copy_chars(&w[1]);
    let mut content_length: usize = 0;
    let n = ls.len();
    let ghost all = views(ls@);
    assert(all.take(0) =~= Seq::<Seq<char>>::empty());
    for i in 0..n
        invariant
            n == ls@.len(),
            all == views(ls@),
            content_length as nat == content_length_of(all.take(i as int)),
    {
        assert(all.take(i + 1).drop_last() == all.take(i as int));
        assert(all.take(i + 1).last() == ls@[i as int]@);
        match line_content_length(&ls[i]) {
            Some(v) => {
                content_length = v;
            },
            None => {},
        }
    }
    assert(all.take(n as int) == all);
    Some(RequestHead { method: string_of(&method), path: string_of(&path), content_length })
}

/// The position just past the first blank line (`\r\n\r\n`) of `text`,
/// counted in UTF-8 bytes; `None` when there is no blank line.
pub fn header_end_offset(text: &str) -> (res: Option<usize>)
    ensures
        match res {
            Some(b) => exists|i: int|
                occurs_at(text@, "\r\n\r\n"@, i) && (forall|k: int| 0 <= k < i ==> !occurs_at(text@, "\r\n\r\n"@, k))
                    && b == encode_utf8(text@.subrange(0, i + 4)).len() as usize,
            None => !contains_seq(text@, "\r\n\r\n"@),
        },
{
    let chars = chars_of(text);
    let pat = chars_of("\r\n\r\n");
    proof {
        reveal_strlit("\r\n\r\n");
    }
    assert(pat@.len() == 4);
    match find(&chars, &pat) {
        Some(i) => {
            assert(occurs_at(chars@, pat@, i as int));
            assert(i + pat@.len() <= chars@.len());
            let total = chars.len();
            let head = crate::text::slice(&chars, 0, i + 4);
            let s = string_of(&head);
            let b = s.as_str().len();
            assert(occurs_at(text@, "\r\n\r\n"@, i as int));
            Some(b)
        },
        None => None,
    }
}

} // verus!

verus! {

/// What the server does with a request.
#[derive(PartialEq, Eq, Structural)]
pub enum Route {
    /// Answer a CORS preflight.
    Preflight,
    /// `GET`/`HEAD /`: the heartbeat text.
    Heartbeat,
    /// `GET`/`HEAD /api/version`.
    Version,
    /// `GET`/`HEAD /api/tags`: installed models.
    Tags,
    /// `GET /api/ps`: the running model.
    Ps,
    /// `POST /api/show`.
    Show,
    /// `POST /api/chat`.
    Chat,
    /// `POST /api/generate`.
    Generate,
    /// `POST /api/pull`.
    Pull,
    /// `DELETE /api/delete`.
    Delete,
    /// `POST /api/copy`.
    Copy,
    /// `POST /api/embed`.
    Embed,
    /// `POST /api/embeddings`, the legacy form.
    EmbedLegacy,
    /// `GET /v1/models`.
    OpenAiModels,
    /// Any other `POST /v1/...`: passed through to the engine.
    ForwardPost,
    /// Any other `GET /v1/...`: passed through to the engine.
    ForwardGet,
    /// Anything else.
    NotFound,
}

/// The route for a request with `method` (already upper-cased) and `path`.
pub open spec fn route_spec(method: Seq<char>, path: Seq<char>) -> Route {
    let get_or_head = method == "GET"@ || method == "HEAD"@;
    if method == "OPTIONS"@ {
        Route::Preflight
    } else if get_or_head && path == "/"@ {
        Route::Heartbeat
    } else if get_or_head && path == "/api/version"@ {
        Route::Version
    } else if get_or_head && path == "/api/tags"@ {
        Route::Tags
    } else if method == "GET"@ && path == "/api/ps"@ {
        Route::Ps
    } else if method == "POST"@ && path == "/api/show"@ {
        Route::Show
    } else if method == "POST"@ && path == "/api/chat"@ {
        Route::Chat
    } else if method == "POST"@ && path == "/api/generate"@ {
        Route::Generate
    } else if method == "POST"@ && path == "/api/pull"@ {
        Route::Pull
    } else if method == "DELETE"@ && path == "/api/delete"@ {
        Route::Delete
    } else if method == "POST"@ && path == "/api/copy"@ {
        Route::Copy
    } else if method == "POST"@ && path == "/api/embed"@ {
        Route::Embed
    } else if method == "POST"@ && path == "/api/embeddings"@ {
        Route::EmbedLegacy
    } else if method == "GET"@ && path == "/v1/models"@ {
        Route::OpenAiModels
    } else if method == "POST"@ && is_prefix_of("/v1/"@, path) {
        Route::ForwardPost
    } else if method == "GET"@ && is_prefix_of("/v1/"@, path) {
        Route::ForwardGet
    } else {
        Route::NotFound
    }
}

/// Routes a request by its upper-cased method and its path.
pub fn route_request(method: &str, path: &str) -> (res: Route)
    ensures
        res == route_spec(method@, path@),
{
    let m = chars_of(method);
    let p = chars_of(path);
    let is_get = is_text(&m, "GET");
    let is_post = is_text(&m, "POST");
    let get_or_head = is_get || is_text(&m, "HEAD");
    if is_text(&m, "OPTIONS") {
        Route::Preflight
    } else if get_or_head && is_text(&p, "/") {
        Route::Heartbeat
    } else if get_or_head && is_text(&p, "/api/version") {
        Route::Version
    } else if get_or_head && is_text(&p, "/api/tags") {
        Route::Tags
    } else if is_get && is_text(&p, "/api/ps") {
        Route::Ps
    } else if is_post && is_text(&p, "/api/show") {
        Route::Show
    } else if is_post && is_text(&p, "/api/chat") {
        Route::Chat
    } else if is_post && is_text(&p, "/api/generate") {
        Route::Generate
    } else if is_post && is_text(&p, "/api/pull") {
        Route::Pull
    } else if is_text(&m, "DELETE") && is_text(&p, "/api/delete") {
        Route::Delete
    } else if is_post && is_text(&p, "/api/copy") {
        Route::Copy
    } else if is_post && is_text(&p, "/api/embed") {
        Route::Embed
    } else if is_post && is_text(&p, "/api/embeddings") {
        Route::EmbedLegacy
    } else if is_get && is_text(&p, "/v1/models") {
        Route::OpenAiModels
    } else if is_post && starts_with(&p, &chars_of("/v1/")) {
        Route::ForwardPost
    } else if is_get && starts_with(&p, &chars_of("/v1/")) {
        Route::ForwardGet
    } else {
        Route::NotFound
    }
}

proof fn lemma_route_0()
    ensures
        route_spec("GET"@, "/"@) == Route::Heartbeat,
{
    reveal_strlit("GET");
    reveal_strlit("HEAD");
    reveal_strlit("POST");
    reveal_strlit("DELETE");
    reveal_strlit("OPTIONS");
    reveal_strlit("/");
    reveal_strlit("/api/version");
    reveal_strlit("/api/tags");
    reveal_strlit("/api/ps");
    reveal_strlit("/api/show");
    reveal_strlit("/api/chat");
    reveal_strlit("/api/generate");
    reveal_strlit("/api/pull");
    reveal_strlit("/api/delete");
    reveal_strlit("/api/copy");
    reveal_strlit("/api/embed");
    reveal_strlit("/api/embeddings");
    reveal_strlit("/v1/models");
    reveal_strlit("/v1/");
    assert("GET"@[0] != "HEAD"@[0]);
    assert("GET"@[0] != "POST"@[0]);
    assert("GET"@[0] != "DELETE"@[0]);
    assert("GET"@[0] != "OPTIONS"@[0]);
    assert("/"@.len() != "/api/version"@.len());
    assert("/"@.len() != "/api/tags"@.len());
    assert("/"@.len() != "/api/ps"@.len());
    assert("/"@.len() != "/api/show"@.len());
    assert("/"@.len() != "/api/chat"@.len());
    assert("/"@.len() != "/api/generate"@.len());
    assert("/"@.len() != "/api/pull"@.len());
    assert("/"@.len() != "/api/delete"@.len());
    assert("/"@.len() != "/api/copy"@.len());
    assert("/"@.len() != "/api/embed"@.len());
    assert("/"@.len() != "/api/embeddings"@.len());
    assert("/"@.len() != "/v1/models"@.len());
    assert("/"@.len() != "/v1/"@.len());
}

proof fn lemma_route_1()
    ensures
        route_spec("HEAD"@, "/"@) == Route::Heartbeat,
{
    reveal_strlit("GET");
    reveal_strlit("HEAD");
    reveal_strlit("POST");
    reveal_strlit("DELETE");
    reveal_strlit("OPTIONS");
    reveal_strlit("/");
    reveal_strlit("/api/version");
    reveal_strlit("/api/tags");
    reveal_strlit("/api/ps");
    reveal_strlit("/api/show");
    reveal_strlit("/api/chat");
    reveal_strlit("/api/generate");
    reveal_strlit("/api/pull");
    reveal_strlit("/api/delete");
    reveal_strlit("/api/copy");
    reveal_strlit("/api/embed");
    reveal_strlit("/api/embeddings");
    reveal_strlit("/v1/models");
    reveal_strlit("/v1/");
    assert("HEAD"@[0] != "GET"@[0]);
    assert("HEAD"@[0] != "POST"@[0]);
    assert("HEAD"@[0] != "DELETE"@[0]);
    assert("HEAD"@[0] != "OPTIONS"@[0]);
    assert("/"@.len() != "/api/version"@.len());
    assert("/"@.len() != "/api/tags"@.len());
    assert("/"@.len() != "/api/ps"@.len());
    assert("/"@.len() != "/api/show"@.len());
    assert("/"@.len() != "/api/chat"@.len());
    assert("/"@.len() != "/api/generate"@.len());
    assert("/"@.len() != "/api/pull"@.len());
    assert("/"@.len() != "/api/delete"@.len());
    assert("/"@.len() != "/api/copy"@.len());
    assert("/"@.len() != "/api/embed"@.len());
    assert("/"@.len() != "/api/embeddings"@.len());
    assert("/"@.len() != "/v1/models"@.len());
    assert("/"@.len() != "/v1/"@.len());
}

proof fn lemma_route_2()
    ensures
        route_spec("GET"@, "/api/version"@) == Route::Version,
{
    reveal_strlit("GET");
    reveal_strlit("HEAD");
    reveal_strlit("POST");
    reveal_strlit("DELETE");
    reveal_strlit("OPTIONS");
    reveal_strlit("/");
    reveal_strlit("/api/version");
    reveal_strlit("/api/tags");
    reveal_strlit("/api/ps");
    reveal_strlit("/api/show");
    reveal_strlit("/api/chat");
    reveal_strlit("/api/generate");
    reveal_strlit("/api/pull");
    reveal_strlit("/api/delete");
    reveal_strlit("/api/copy");
    reveal_strlit("/api/embed");
    reveal_strlit("/api/embeddings");
    reveal_strlit("/v1/models");
    reveal_strlit("/v1/");
    assert("GET"@[0] != "HEAD"@[0]);
    assert("GET"@[0] != "POST"@[0]);
    assert("GET"@[0] != "DELETE"@[0]);
    assert("GET"@[0] != "OPTIONS"@[0]);
    assert("/api/version"@.len() != "/"@.len());
    assert("/api/version"@[5] != "/api/tags"@[5]);
    assert("/api/version"@[5] != "/api/ps"@[5]);
    assert("/api/version"@[5] != "/api/show"@[5]);
    assert("/api/version"@[5] != "/api/chat"@[5]);
    assert("/api/version"@[5] != "/api/generate"@[5]);
    assert("/api/version"@[5] != "/api/pull"@[5]);
    assert("/api/version"@[5] != "/api/delete"@[5]);
    assert("/api/version"@[5] != "/api/copy"@[5]);
    assert("/api/version"@[5] != "/api/embed"@[5]);
    assert("/api/version"@[5] != "/api/embeddings"@[5]);
    assert("/api/version"@[1] != "/v1/models"@[1]);
    assert("/api/version"@[1] != "/v1/"@[1]);
    assert("/api/version"@.subrange(0, 4)[1] != "/v1/"@[1]);
}

proof fn lemma_route_3()
    ensures
        route_spec("HEAD"@, "/api/version"@) == Route::Version,
{
    reveal_strlit("GET");
    reveal_strlit("HEAD");
    reveal_strlit("POST");
    reveal_strlit("DELETE");
    reveal_strlit("OPTIONS");
    reveal_strlit("/");
    reveal_strlit("/api/version");
    reveal_strlit("/api/tags");
    reveal_strlit("/api/ps");
    reveal_strlit("/api/show");
    reveal_strlit("/api/chat");
    reveal_strlit("/api/generate");
    reveal_strlit("/api/pull");
    reveal_strlit("/api/delete");
    reveal_strlit("/api/copy");
    reveal_strlit("/api/embed");
    reveal_strlit("/api/embeddings");
    reveal_strlit("/v1/models");
    reveal_strlit("/v1/");
    assert("HEAD"@[0] != "GET"@[0]);
    assert("HEAD"@[0] != "POST"@[0]);
    assert("HEAD"@[0] != "DELETE"@[0]);
    assert("HEAD"@[0] != "OPTIONS"@[0]);
    assert("/api/version"@.len() != "/"@.len());
    assert("/api/version"@[5] != "/api/tags"@[5]);
    assert("/api/version"@[5] != "/api/ps"@[5]);
    assert("/api/version"@[5] != "/api/show"@[5]);
    assert("/api/version"@[5] != "/api/chat"@[5]);
    assert("/api/version"@[5] != "/api/generate"@[5]);
    assert("/api/version"@[5] != "/api/pull"@[5]);
    assert("/api/version"@[5] != "/api/delete"@[5]);
    assert("/api/version"@[5] != "/api/copy"@[5]);
    assert("/api/version"@[5] != "/api/embed"@[5]);
    assert("/api/version"@[5] != "/api/embeddings"@[5]);
    assert("/api/version"@[1] != "/v1/models"@[1]);
    assert("/api/version"@[1] != "/v1/"@[1]);
    assert("/api/version"@.subrange(0, 4)[1] != "/v1/"@[1]);
}

proof fn lemma_route_4()
    ensures
        route_spec("GET"@, "/api/tags"@) == Route::Tags,
{
    reveal_strlit("GET");
    reveal_strlit("HEAD");
    reveal_strlit("POST");
    reveal_strlit("DELETE");
    reveal_strlit("OPTIONS");
    reveal_strlit("/");
    reveal_strlit("/api/version");
    reveal_strlit("/api/tags");
    reveal_strlit("/api/ps");
    reveal_strlit("/api/show");
    reveal_strlit("/api/chat");
    reveal_strlit("/api/generate");
    reveal_strlit("/api/pull");
    reveal_strlit("/api/delete");
    reveal_strlit("/api/copy");
    reveal_strlit("/api/embed");
    reveal_strlit("/api/embeddings");
    reveal_strlit("/v1/models");
    reveal_strlit("/v1/");
    assert("GET"@[0] != "HEAD"@[0]);
    assert("GET"@[0] != "POST"@[0]);
    assert("GET"@[0] != "DELETE"@[0]);
    assert("GET"@[0] != "OPTIONS"@[0]);
    assert("/api/tags"@.len() != "/"@.len());
    assert("/api/tags"@[5] != "/api/version"@[5]);
    assert("/api/tags"@[5] != "/api/ps"@[5]);
    assert("/api/tags"@[5] != "/api/show"@[5]);
    assert("/api/tags"@[5] != "/api/chat"@[5]);
    assert("/api/tags"@[5] != "/api/generate"@[5]);
    assert("/api/tags"@[5] != "/api/pull"@[5]);
    assert("/api/tags"@[5] != "/api/delete"@[5]);
    assert("/api/tags"@[5] != "/api/copy"@[5]);
    assert("/api/tags"@[5] != "/api/embed"@[5]);
    assert("/api/tags"@[5] != "/api/embeddings"@[5]);
    assert("/api/tags"@[1] != "/v1/models"@[1]);
    assert("/api/tags"@[1] != "/v1/"@[1]);
    assert("/api/tags"@.subrange(0, 4)[1] != "/v1/"@[1]);
}

proof fn lemma_route_5()
    ensures
        route_spec("HEAD"@, "/api/tags"@) == Route::Tags,
{
    reveal_strlit("GET");
    reveal_strlit("HEAD");
    reveal_strlit("POST");
    reveal_strlit("DELETE");
    reveal_strlit("OPTIONS");
    reveal_strlit("/");
    reveal_strlit("/api/version");
    reveal_strlit("/api/tags");
    reveal_strlit("/api/ps");
    reveal_strlit("/api/show");
    reveal_strlit("/api/chat");
    reveal_strlit("/api/generate");
    reveal_strlit("/api/pull");
    reveal_strlit("/api/delete");
    reveal_strlit("/api/copy");
    reveal_strlit("/api/embed");
    reveal_strlit("/api/embeddings");
    reveal_strlit("/v1/models");
    reveal_strlit("/v1/");
    assert("HEAD"@[0] != "GET"@[0]);
    assert("HEAD"@[0] != "POST"@[0]);
    assert("HEAD"@[0] != "DELETE"@[0]);
    assert("HEAD"@[0] != "OPTIONS"@[0]);
    assert("/api/tags"@.len() != "/"@.len());
    assert("/api/tags"@[5] != "/api/version"@[5]);
    assert("/api/tags"@[5] != "/api/ps"@[5]);
    assert("/api/tags"@[5] != "/api/show"@[5]);
    assert("/api/tags"@[5] != "/api/chat"@[5]);
    assert("/api/tags"@[5] != "/api/generate"@[5]);
    assert("/api/tags"@[5] != "/api/pull"@[5]);
    assert("/api/tags"@[5] != "/api/delete"@[5]);
    assert("/api/tags"@[5] != "/api/copy"@[5]);
    assert("/api/tags"@[5] != "/api/embed"@[5]);
    assert("/api/tags"@[5] != "/api/embeddings"@[5]);
    assert("/api/tags"@[1] != "/v1/models"@[1]);
    assert("/api/tags"@[1] != "/v1/"@[1]);
    assert("/api/tags"@.subrange(0, 4)[1] != "/v1/"@[1]);
}

proof fn lemma_route_6()
    ensures
        route_spec("GET"@, "/api/ps"@) == Route::Ps,
{
    reveal_strlit("GET");
    reveal_strlit("HEAD");
    reveal_strlit("POST");
    reveal_strlit("DELETE");
    reveal_strlit("OPTIONS");
    reveal_strlit("/");
    reveal_strlit("/api/version");
    reveal_strlit("/api/tags");
    reveal_strlit("/api/ps");
    reveal_strlit("/api/show");
    reveal_strlit("/api/chat");
    reveal_strlit("/api/generate");
    reveal_strlit("/api/pull");
    reveal_strlit("/api/delete");
    reveal_strlit("/api/copy");
    reveal_strlit("/api/embed");
    reveal_strlit("/api/embeddings");
    reveal_strlit("/v1/models");
    reveal_strlit("/v1/");
    assert("GET"@[0] != "HEAD"@[0]);
    assert("GET"@[0] != "POST"@[0]);
    assert("GET"@[0] != "DELETE"@[0]);
    assert("GET"@[0] != "OPTIONS"@[0]);
    assert("/api/ps"@.len() != "/"@.len());
    assert("/api/ps"@[5] != "/api/version"@[5]);
    assert("/api/ps"@[5] != "/api/tags"@[5]);
    assert("/api/ps"@[5] != "/api/show"@[5]);
    assert("/api/ps"@[5] != "/api/chat"@[5]);
    assert("/api/ps"@[5] != "/api/generate"@[5]);
    assert("/api/ps"@[6] != "/api/pull"@[6]);
    assert("/api/ps"@[5] != "/api/delete"@[5]);
    assert("/api/ps"@[5] != "/api/copy"@[5]);
    assert("/api/ps"@[5] != "/api/embed"@[5]);
    assert("/api/ps"@[5] != "/api/embeddings"@[5]);
    assert("/api/ps"@[1] != "/v1/models"@[1]);
    assert("/api/ps"@[1] != "/v1/"@[1]);
    assert("/api/ps"@.subrange(0, 4)[1] != "/v1/"@[1]);
}

proof fn lemma_route_7()
    ensures
        route_spec("POST"@, "/api/show"@) == Route::Show,
{
    reveal_strlit("GET");
    reveal_strlit("HEAD");
    reveal_strlit("POST");
    reveal_strlit("DELETE");
    reveal_strlit("OPTIONS");
    reveal_strlit("/");
    reveal_strlit("/api/version");
    reveal_strlit("/api/tags");
    reveal_strlit("/api/ps");
    reveal_strlit("/api/show");
    reveal_strlit("/api/chat");
    reveal_strlit("/api/generate");
    reveal_strlit("/api/pull");
    reveal_strlit("/api/delete");
    reveal_strlit("/api/copy");
    reveal_strlit("/api/embed");
    reveal_strlit("/api/embeddings");
    reveal_strlit("/v1/models");
    reveal_strlit("/v1/");
    assert("POST"@[0] != "GET"@[0]);
    assert("POST"@[0] != "HEAD"@[0]);
    assert("POST"@[0] != "DELETE"@[0]);
    assert("POST"@[0] != "OPTIONS"@[0]);
    assert("/api/show"@.len() != "/"@.len());
    assert("/api/show"@[5] != "/api/version"@[5]);
    assert("/api/show"@[5] != "/api/tags"@[5]);
    assert("/api/show"@[5] != "/api/ps"@[5]);
    assert("/api/show"@[5] != "/api/chat"@[5]);
    assert("/api/show"@[5] != "/api/generate"@[5]);
    assert("/api/show"@[5] != "/api/pull"@[5]);
    assert("/api/show"@[5] != "/api/delete"@[5]);
    assert("/api/show"@[5] != "/api/copy"@[5]);
    assert("/api/show"@[5] != "/api/embed"@[5]);
    assert("/api/show"@[5] != "/api/embeddings"@[5]);
    assert("/api/show"@[1] != "/v1/models"@[1]);
    assert("/api/show"@[1] != "/v1/"@[1]);
    assert("/api/show"@.subrange(0, 4)[1] != "/v1/"@[1]);
}

proof fn lemma_route_8()
    ensures
        route_spec("POST"@, "/api/chat"@) == Route::Chat,
{
    reveal_strlit("GET");
    reveal_strlit("HEAD");
    reveal_strlit("POST");
    reveal_strlit("DELETE");
    reveal_strlit("OPTIONS");
    reveal_strlit("/");
    reveal_strlit("/api/version");
    reveal_strlit("/api/tags");
    reveal_strlit("/api/ps");
    reveal_strlit("/api/show");
    reveal_strlit("/api/chat");
    reveal_strlit("/api/generate");
    reveal_strlit("/api/pull");
    reveal_strlit("/api/delete");
    reveal_strlit("/api/copy");
    reveal_strlit("/api/embed");
    reveal_strlit("/api/embeddings");
    reveal_strlit("/v1/models");
    reveal_strlit("/v1/");
    assert("POST"@[0] != "GET"@[0]);
    assert("POST"@[0] != "HEAD"@[0]);
    assert("POST"@[0] != "DELETE"@[0]);
    assert("POST"@[0] != "OPTIONS"@[0]);
    assert("/api/chat"@.len() != "/"@.len());
    assert("/api/chat"@[5] != "/api/version"@[5]);
    assert("/api/chat"@[5] != "/api/tags"@[5]);
    assert("/api/chat"@[5] != "/api/ps"@[5]);
    assert("/api/chat"@[5] != "/api/show"@[5]);
    assert("/api/chat"@[5] != "/api/generate"@[5]);
    assert("/api/chat"@[5] != "/api/pull"@[5]);
    assert("/api/chat"@[5] != "/api/delete"@[5]);
    assert("/api/chat"@[6] != "/api/copy"@[6]);
    assert("/api/chat"@[5] != "/api/embed"@[5]);
    assert("/api/chat"@[5] != "/api/embeddings"@[5]);
    assert("/api/chat"@[1] != "/v1/models"@[1]);
    assert("/api/chat"@[1] != "/v1/"@[1]);
    assert("/api/chat"@.subrange(0, 4)[1] != "/v1/"@[1]);
}

proof fn lemma_route_9()
    ensures
        route_spec("POST"@, "/api/generate"@) == Route::Generate,
{
    reveal_strlit("GET");
    reveal_strlit("HEAD");
    reveal_strlit("POST");
    reveal_strlit("DELETE");
    reveal_strlit("OPTIONS");
    reveal_strlit("/");
    reveal_strlit("/api/version");
    reveal_strlit("/api/tags");
    reveal_strlit("/api/ps");
    reveal_strlit("/api/show");
    reveal_strlit("/api/chat");
    reveal_strlit("/api/generate");
    reveal_strlit("/api/pull");
    reveal_strlit("/api/delete");
    reveal_strlit("/api/copy");
    reveal_strlit("/api/embed");
    reveal_strlit("/api/embeddings");
    reveal_strlit("/v1/models");
    reveal_strlit("/v1/");
    assert("POST"@[0] != "GET"@[0]);
    assert("POST"@[0] != "HEAD"@[0]);
    assert("POST"@[0] != "DELETE"@[0]);
    assert("POST"@[0] != "OPTIONS"@[0]);
    assert("/api/generate"@.len() != "/"@.len());
    assert("/api/generate"@[5] != "/api/version"@[5]);
    assert("/api/generate"@[5] != "/api/tags"@[5]);
    assert("/api/generate"@[5] != "/api/ps"@[5]);
    assert("/api/generate"@[5] != "/api/show"@[5]);
    assert("/api/generate"@[5] != "/api/chat"@[5]);
    assert("/api/generate"@[5] != "/api/pull"@[5]);
    assert("/api/generate"@[5] != "/api/delete"@[5]);
    assert("/api/generate"@[5] != "/api/copy"@[5]);
    assert("/api/generate"@[5] != "/api/embed"@[5]);
    assert("/api/generate"@[5] != "/api/embeddings"@[5]);
    assert("/api/generate"@[1] != "/v1/models"@[1]);
    assert("/api/generate"@[1] != "/v1/"@[1]);
    assert("/api/generate"@.subrange(0, 4)[1] != "/v1/"@[1]);
}

proof fn lemma_route_10()
    ensures
        route_spec("POST"@, "/api/pull"@) == Route::Pull,
{
    reveal_strlit("GET");
    reveal_strlit("HEAD");
    reveal_strlit("POST");
    reveal_strlit("DELETE");
    reveal_strlit("OPTIONS");
    reveal_strlit("/");
    reveal_strlit("/api/version");
    reveal_strlit("/api/tags");
    reveal_strlit("/api/ps");
    reveal_strlit("/api/show");
    reveal_strlit("/api/chat");
    reveal_strlit("/api/generate");
    reveal_strlit("/api/pull");
    reveal_strlit("/api/delete");
    reveal_strlit("/api/copy");
    reveal_strlit("/api/embed");
    reveal_strlit("/api/embeddings");
    reveal_strlit("/v1/models");
    reveal_strlit("/v1/");
    assert("POST"@[0] != "GET"@[0]);
    assert("POST"@[0] != "HEAD"@[0]);
    assert("POST"@[0] != "DELETE"@[0]);
    assert("POST"@[0] != "OPTIONS"@[0]);
    assert("/api/pull"@.len() != "/"@.len());
    assert("/api/pull"@[5] != "/api/version"@[5]);
    assert("/api/pull"@[5] != "/api/tags"@[5]);
    assert("/api/pull"@[6] != "/api/ps"@[6]);
    assert("/api/pull"@[5] != "/api/show"@[5]);
    assert("/api/pull"@[5] != "/api/chat"@[5]);
    assert("/api/pull"@[5] != "/api/generate"@[5]);
    assert("/api/pull"@[5] != "/api/delete"@[5]);
    assert("/api/pull"@[5] != "/api/copy"@[5]);
    assert("/api/pull"@[5] != "/api/embed"@[5]);
    assert("/api/pull"@[5] != "/api/embeddings"@[5]);
    assert("/api/pull"@[1] != "/v1/models"@[1]);
    assert("/api/pull"@[1] != "/v1/"@[1]);
    assert("/api/pull"@.subrange(0, 4)[1] != "/v1/"@[1]);
}

proof fn lemma_route_11()
    ensures
        route_spec("DELETE"@, "/api/delete"@) == Route::Delete,
{
    reveal_strlit("GET");
    reveal_strlit("HEAD");
    reveal_strlit("POST");
    reveal_strlit("DELETE");
    reveal_strlit("OPTIONS");
    reveal_strlit("/");
    reveal_strlit("/api/version");
    reveal_strlit("/api/tags");
    reveal_strlit("/api/ps");
    reveal_strlit("/api/show");
    reveal_strlit("/api/chat");
    reveal_strlit("/api/generate");
    reveal_strlit("/api/pull");
    reveal_strlit("/api/delete");
    reveal_strlit("/api/copy");
    reveal_strlit("/api/embed");
    reveal_strlit("/api/embeddings");
    reveal_strlit("/v1/models");
    reveal_strlit("/v1/");
    assert("DELETE"@[0] != "GET"@[0]);
    assert("DELETE"@[0] != "HEAD"@[0]);
    assert("DELETE"@[0] != "POST"@[0]);
    assert("DELETE"@[0] != "OPTIONS"@[0]);
    assert("/api/delete"@.len() != "/"@.len());
    assert("/api/delete"@[5] != "/api/version"@[5]);
    assert("/api/delete"@[5] != "/api/tags"@[5]);
    assert("/api/delete"@[5] != "/api/ps"@[5]);
    assert("/api/delete"@[5] != "/api/show"@[5]);
    assert("/api/delete"@[5] != "/api/chat"@[5]);
    assert("/api/delete"@[5] != "/api/generate"@[5]);
    assert("/api/delete"@[5] != "/api/pull"@[5]);
    assert("/api/delete"@[5] != "/api/copy"@[5]);
    assert("/api/delete"@[5] != "/api/embed"@[5]);
    assert("/api/delete"@[5] != "/api/embeddings"@[5]);
    assert("/api/delete"@[1] != "/v1/models"@[1]);
    assert("/api/delete"@[1] != "/v1/"@[1]);
    assert("/api/delete"@.subrange(0, 4)[1] != "/v1/"@[1]);
}

proof fn lemma_route_12()
    ensures
        route_spec("POST"@, "/api/copy"@) == Route::Copy,
{
    reveal_strlit("GET");
    reveal_strlit("HEAD");
    reveal_strlit("POST");
    reveal_strlit("DELETE");
    reveal_strlit("OPTIONS");
    reveal_strlit("/");
    reveal_strlit("/api/version");
    reveal_strlit("/api/tags");
    reveal_strlit("/api/ps");
    reveal_strlit("/api/show");
    reveal_strlit("/api/chat");
    reveal_strlit("/api/generate");
    reveal_strlit("/api/pull");
    reveal_strlit("/api/delete");
    reveal_strlit("/api/copy");
    reveal_strlit("/api/embed");
    reveal_strlit("/api/embeddings");
    reveal_strlit("/v1/models");
    reveal_strlit("/v1/");
    assert("POST"@[0] != "GET"@[0]);
    assert("POST"@[0] != "HEAD"@[0]);
    assert("POST"@[0] != "DELETE"@[0]);
    assert("POST"@[0] != "OPTIONS"@[0]);
    assert("/api/copy"@.len() != "/"@.len());
    assert("/api/copy"@[5] != "/api/version"@[5]);
    assert("/api/copy"@[5] != "/api/tags"@[5]);
    assert("/api/copy"@[5] != "/api/ps"@[5]);
    assert("/api/copy"@[5] != "/api/show"@[5]);
    assert("/api/copy"@[6] != "/api/chat"@[6]);
    assert("/api/copy"@[5] != "/api/generate"@[5]);
    assert("/api/copy"@[5] != "/api/pull"@[5]);
    assert("/api/copy"@[5] != "/api/delete"@[5]);
    assert("/api/copy"@[5] != "/api/embed"@[5]);
    assert("/api/copy"@[5] != "/api/embeddings"@[5]);
    assert("/api/copy"@[1] != "/v1/models"@[1]);
    assert("/api/copy"@[1] != "/v1/"@[1]);
    assert("/api/copy"@.subrange(0, 4)[1] != "/v1/"@[1]);
}

proof fn lemma_route_13()
    ensures
        route_spec("POST"@, "/api/embed"@) == Route::Embed,
{
    reveal_strlit("GET");
    reveal_strlit("HEAD");
    reveal_strlit("POST");
    reveal_strlit("DELETE");
    reveal_strlit("OPTIONS");
    reveal_strlit("/");
    reveal_strlit("/api/version");
    reveal_strlit("/api/tags");
    reveal_strlit("/api/ps");
    reveal_strlit("/api/show");
    reveal_strlit("/api/chat");
    reveal_strlit("/api/generate");
    reveal_strlit("/api/pull");
    reveal_strlit("/api/delete");
    reveal_strlit("/api/copy");
    reveal_strlit("/api/embed");
    reveal_strlit("/api/embeddings");
    reveal_strlit("/v1/models");
    reveal_strlit("/v1/");
    assert("POST"@[0] != "GET"@[0]);
    assert("POST"@[0] != "HEAD"@[0]);
    assert("POST"@[0] != "DELETE"@[0]);
    assert("POST"@[0] != "OPTIONS"@[0]);
    assert("/api/embed"@.len() != "/"@.len());
    assert("/api/embed"@[5] != "/api/version"@[5]);
    assert("/api/embed"@[5] != "/api/tags"@[5]);
    assert("/api/embed"@[5] != "/api/ps"@[5]);
    assert("/api/embed"@[5] != "/api/show"@[5]);
    assert("/api/embed"@[5] != "/api/chat"@[5]);
    assert("/api/embed"@[5] != "/api/generate"@[5]);
    assert("/api/embed"@[5] != "/api/pull"@[5]);
    assert("/api/embed"@[5] != "/api/delete"@[5]);
    assert("/api/embed"@[5] != "/api/copy"@[5]);
    assert("/api/embed"@.len() != "/api/embeddings"@.len());
    assert("/api/embed"@[1] != "/v1/models"@[1]);
    assert("/api/embed"@[1] != "/v1/"@[1]);
    assert("/api/embed"@.subrange(0, 4)[1] != "/v1/"@[1]);
}

proof fn lemma_route_14()
    ensures
        route_spec("POST"@, "/api/embeddings"@) == Route::EmbedLegacy,
{
    reveal_strlit("GET");
    reveal_strlit("HEAD");
    reveal_strlit("POST");
    reveal_strlit("DELETE");
    reveal_strlit("OPTIONS");
    reveal_strlit("/");
    reveal_strlit("/api/version");
    reveal_strlit("/api/tags");
    reveal_strlit("/api/ps");
    reveal_strlit("/api/show");
    reveal_strlit("/api/chat");
    reveal_strlit("/api/generate");
    reveal_strlit("/api/pull");
    reveal_strlit("/api/delete");
    reveal_strlit("/api/copy");
    reveal_strlit("/api/embed");
    reveal_strlit("/api/embeddings");
    reveal_strlit("/v1/models");
    reveal_strlit("/v1/");
    assert("POST"@[0] != "GET"@[0]);
    assert("POST"@[0] != "HEAD"@[0]);
    assert("POST"@[0] != "DELETE"@[0]);
    assert("POST"@[0] != "OPTIONS"@[0]);
    assert("/api/embeddings"@.len() != "/"@.len());
    assert("/api/embeddings"@[5] != "/api/version"@[5]);
    assert("/api/embeddings"@[5] != "/api/tags"@[5]);
    assert("/api/embeddings"@[5] != "/api/ps"@[5]);
    assert("/api/embeddings"@[5] != "/api/show"@[5]);
    assert("/api/embeddings"@[5] != "/api/chat"@[5]);
    assert("/api/embeddings"@[5] != "/api/generate"@[5]);
    assert("/api/embeddings"@[5] != "/api/pull"@[5]);
    assert("/api/embeddings"@[5] != "/api/delete"@[5]);
    assert("/api/embeddings"@[5] != "/api/copy"@[5]);
    assert("/api/embeddings"@.len() != "/api/embed"@.len());
    assert("/api/embeddings"@[1] != "/v1/models"@[1]);
    assert("/api/embeddings"@[1] != "/v1/"@[1]);
    assert("/api/embeddings"@.subrange(0, 4)[1] != "/v1/"@[1]);
}

proof fn lemma_route_15()
    ensures
        route_spec("GET"@, "/v1/models"@) == Route::OpenAiModels,
{
    reveal_strlit("GET");
    reveal_strlit("HEAD");
    reveal_strlit("POST");
    reveal_strlit("DELETE");
    reveal_strlit("OPTIONS");
    reveal_strlit("/");
    reveal_strlit("/api/version");
    reveal_strlit("/api/tags");
    reveal_strlit("/api/ps");
    reveal_strlit("/api/show");
    reveal_strlit("/api/chat");
    reveal_strlit("/api/generate");
    reveal_strlit("/api/pull");
    reveal_strlit("/api/delete");
    reveal_strlit("/api/copy");
    reveal_strlit("/api/embed");
    reveal_strlit("/api/embeddings");
    reveal_strlit("/v1/models");
    reveal_strlit("/v1/");
    assert("GET"@[0] != "HEAD"@[0]);
    assert("GET"@[0] != "POST"@[0]);
    assert("GET"@[0] != "DELETE"@[0]);
    assert("GET"@[0] != "OPTIONS"@[0]);
    assert("/v1/models"@.len() != "/"@.len());
    assert("/v1/models"@[1] != "/api/version"@[1]);
    assert("/v1/models"@[1] != "/api/tags"@[1]);
    assert("/v1/models"@[1] != "/api/ps"@[1]);
    assert("/v1/models"@[1] != "/api/show"@[1]);
    assert("/v1/models"@[1] != "/api/chat"@[1]);
    assert("/v1/models"@[1] != "/api/generate"@[1]);
    assert("/v1/models"@[1] != "/api/pull"@[1]);
    assert("/v1/models"@[1] != "/api/delete"@[1]);
    assert("/v1/models"@[1] != "/api/copy"@[1]);
    assert("/v1/models"@[1] != "/api/embed"@[1]);
    assert("/v1/models"@[1] != "/api/embeddings"@[1]);
    assert("/v1/models"@.len() != "/v1/"@.len());
}

/// Law: the endpoints of the Ollama REST API, as the server's endpoint table
/// lists them: `GET` and `HEAD` of `/`, `/api/version` and `/api/tags` are
/// the heartbeat, the version and the installed models; `GET /api/ps` the
/// running model; `POST` of `/api/show`, `/api/chat`, `/api/generate`,
/// `/api/pull`, `/api/copy`, `/api/embed` and `/api/embeddings` their
/// handlers; `DELETE /api/delete`; and `GET /v1/models` the OpenAI model list.
pub proof fn lemma_api_endpoints()
    ensures
        route_spec("GET"@, "/"@) == Route::Heartbeat,
        route_spec("HEAD"@, "/"@) == Route::Heartbeat,
        route_spec("GET"@, "/api/version"@) == Route::Version,
        route_spec("HEAD"@, "/api/version"@) == Route::Version,
        route_spec("GET"@, "/api/tags"@) == Route::Tags,
        route_spec("HEAD"@, "/api/tags"@) == Route::Tags,
        route_spec("GET"@, "/api/ps"@) == Route::Ps,
        route_spec("POST"@, "/api/show"@) == Route::Show,
        route_spec("POST"@, "/api/chat"@) == Route::Chat,
        route_spec("POST"@, "/api/generate"@) == Route::Generate,
        route_spec("POST"@, "/api/pull"@) == Route::Pull,
        route_spec("DELETE"@, "/api/delete"@) == Route::Delete,
        route_spec("POST"@, "/api/copy"@) == Route::Copy,
        route_spec("POST"@, "/api/embed"@) == Route::Embed,
        route_spec("POST"@, "/api/embeddings"@) == Route::EmbedLegacy,
        route_spec("GET"@, "/v1/models"@) == Route::OpenAiModels,
{
    lemma_route_0();
    lemma_route_1();
    lemma_route_2();
    lemma_route_3();
    lemma_route_4();
    lemma_route_5();
    lemma_route_6();
    lemma_route_7();
    lemma_route_8();
    lemma_route_9();
    lemma_route_10();
    lemma_route_11();
    lemma_route_12();
    lemma_route_13();
    lemma_route_14();
    lemma_route_15();
}

/// Every `POST` to a path under `/v1/` is passed through to the engine.
pub proof fn lemma_openai_posts_forwarded(path: Seq<char>)
    requires
        is_prefix_of("/v1/"@, path),
    ensures
        route_spec("POST"@, path) == Route::ForwardPost,
{
    reveal_strlit("GET");
    reveal_strlit("HEAD");
    reveal_strlit("POST");
    reveal_strlit("DELETE");
    reveal_strlit("OPTIONS");
    reveal_strlit("/");
    reveal_strlit("/v1/");
    reveal_strlit("/api/version");
    reveal_strlit("/api/tags");
    reveal_strlit("/api/ps");
    reveal_strlit("/api/show");
    reveal_strlit("/api/chat");
    reveal_strlit("/api/generate");
    reveal_strlit("/api/pull");
    reveal_strlit("/api/delete");
    reveal_strlit("/api/copy");
    reveal_strlit("/api/embed");
    reveal_strlit("/api/embeddings");
    reveal_strlit("/v1/models");
    assert(path[1] == "/v1/"@[1]);
    assert("POST"@ != "OPTIONS"@ && "POST"@ != "GET"@ && "POST"@ != "HEAD"@ && "POST"@ != "DELETE"@) by {
        assert("POST"@[0] != "OPTIONS"@[0] && "POST"@[0] != "GET"@[0] && "POST"@[0] != "HEAD"@[0] && "POST"@[0] != "DELETE"@[0]);
    }
    assert(path != "/api/show"@ && path != "/api/chat"@ && path != "/api/generate"@ && path != "/api/pull"@
        && path != "/api/copy"@ && path != "/api/embed"@ && path != "/api/embeddings"@) by {
        assert("/api/show"@[1] == 'a' && "/api/chat"@[1] == 'a' && "/api/generate"@[1] == 'a');
        assert("/api/pull"@[1] == 'a' && "/api/copy"@[1] == 'a' && "/api/embed"@[1] == 'a');
        assert("/api/embeddings"@[1] == 'a');
    }
}

/// Every `GET` of a path under `/v1/`, but the model list, is passed through
/// to the engine.
pub proof fn lemma_openai_gets_forwarded(path: Seq<char>)
    requires
        is_prefix_of("/v1/"@, path),
        path != "/v1/models"@,
    ensures
        route_spec("GET"@, path) == Route::ForwardGet,
{
    reveal_strlit("GET");
    reveal_strlit("HEAD");
    reveal_strlit("POST");
    reveal_strlit("DELETE");
    reveal_strlit("OPTIONS");
    reveal_strlit("/");
    reveal_strlit("/v1/");
    reveal_strlit("/api/version");
    reveal_strlit("/api/tags");
    reveal_strlit("/api/ps");
    reveal_strlit("/api/show");
    reveal_strlit("/api/chat");
    reveal_strlit("/api/generate");
    reveal_strlit("/api/pull");
    reveal_strlit("/api/delete");
    reveal_strlit("/api/copy");
    reveal_strlit("/api/embed");
    reveal_strlit("/api/embeddings");
    reveal_strlit("/v1/models");
    assert(path[1] == "/v1/"@[1]);
    assert("GET"@ != "OPTIONS"@ && "GET"@ != "POST"@) by {
        assert("GET"@[0] != "OPTIONS"@[0] && "GET"@[0] != "POST"@[0]);
    }
    assert(path != "/"@) by {
        assert(path.len() >= 4);
    }
    assert(path != "/api/version"@ && path != "/api/tags"@ && path != "/api/ps"@) by {
        assert("/api/version"@[1] == 'a' && "/api/tags"@[1] == 'a' && "/api/ps"@[1] == 'a');
    }
}

} // verus!

verus! {

/// The status line of a response with `status`.
pub open spec fn status_line(status: nat) -> Seq<char> {
    "HTTP/1.1 "@ + decimal(status) + " OK\r\n"@
}

fn push_lit(out: &mut Vec<char>, lit: &str)
    ensures
        final(out)@ == old(out)@ + lit@,
{
    let l = chars_of(lit);
    push_all(out, &l);
}

fn status_line_chars(status: u16) -> (res: Vec<char>)
    ensures
        res@ == status_line(status as nat),
{
    let mut out: Vec<char> = Vec::new();
    push_lit(&mut out, "HTTP/1.1 ");
    push_all(&mut out, &decimal_chars(status as u64));
    push_lit(&mut out, " OK\r\n");
    out
}

/// The head of a JSON response with `status` and a body of `body_len` bytes.
pub open spec fn json_response_head_text(status: nat, body_len: nat) -> Seq<char> {
    status_line(status) + "Content-Type: application/json; charset=utf-8\r\nContent-Length: "@ + decimal(body_len)
        + "\r\nAccess-Control-Allow-Origin: *\r\nAccess-Control-Allow-Methods: GET, POST, PUT, DELETE, OPTIONS\r\nAccess-Control-Allow-Headers: *\r\n\r\n"@
}

/// The head of a JSON response with `status` and a body of `body_len` bytes.
pub fn json_response_head(status: u16, body_len: usize) -> (res: String)
    ensures
        res@ == json_response_head_text(status as nat, body_len as nat),
{
    let mut out = status_line_chars(status);
    push_lit(&mut out, "Content-Type: application/json; charset=utf-8\r\nContent-Length: ");
    push_all(&mut out, &decimal_chars(body_len as u64));
    push_lit(
        &mut out,
        "\r\nAccess-Control-Allow-Origin: *\r\nAccess-Control-Allow-Methods: GET, POST, PUT, DELETE, OPTIONS\r\nAccess-Control-Allow-Headers: *\r\n\r\n",
    );
    string_of(&out)
}

/// The head of a plain-text response with `status` and a body of `body_len` bytes.
pub open spec fn plain_response_head_text(status: nat, body_len: nat) -> Seq<char> {
    status_line(status) + "Content-Type: text/plain; charset=utf-8\r\nContent-Length: "@ + decimal(body_len)
        + "\r\nAccess-Control-Allow-Origin: *\r\n\r\n"@
}

/// The head of a plain-text response with `status` and a body of `body_len` bytes.
pub fn plain_response_head(status: u16, body_len: usize) -> (res: String)
    ensures
        res@ == plain_response_head_text(status as nat, body_len as nat),
{
    let mut out = status_line_chars(status);
    push_lit(&mut out, "Content-Type: text/plain; charset=utf-8\r\nContent-Length: ");
    push_all(&mut out, &decimal_chars(body_len as u64));
    push_lit(&mut out, "\r\nAccess-Control-Allow-Origin: *\r\n\r\n");
    string_of(&out)
}

/// The whole response to a CORS preflight.
pub fn preflight_response() -> (res: String)
    ensures
        res@ == "HTTP/1.1 204 No Content\r\nAccess-Control-Allow-Origin: *\r\nAccess-Control-Allow-Methods: GET, POST, PUT, DELETE, OPTIONS\r\nAccess-Control-Allow-Headers: *\r\nContent-Length: 0\r\n\r\n"@,
{
    owned_text(
        "HTTP/1.1 204 No Content\r\nAccess-Control-Allow-Origin: *\r\nAccess-Control-Allow-Methods: GET, POST, PUT, DELETE, OPTIONS\r\nAccess-Control-Allow-Headers: *\r\nContent-Length: 0\r\n\r\n",
    )
}

fn owned_text(s: &str) -> (res: String)
    ensures
        res@ == s@,
{
    crate::text::owned(s)
}

/// The head of a chunked NDJSON stream.
pub fn ndjson_stream_head() -> (res: String)
    ensures
        res@ == "HTTP/1.1 200 OK\r\nContent-Type: application/x-ndjson; charset=utf-8\r\nTransfer-Encoding: chunked\r\nAccess-Control-Allow-Origin: *\r\n\r\n"@,
{
    owned_text(
        "HTTP/1.1 200 OK\r\nContent-Type: application/x-ndjson; charset=utf-8\r\nTransfer-Encoding: chunked\r\nAccess-Control-Allow-Origin: *\r\n\r\n",
    )
}

/// The head of a chunked pass-through response from the engine.
pub open spec fn forward_stream_head_text(status: nat, content_type: Seq<char>) -> Seq<char> {
    status_line(status) + "Content-Type: "@ + content_type
        + "\r\nTransfer-Encoding: chunked\r\nAccess-Control-Allow-Origin: *\r\n\r\n"@
}

/// The head of a chunked pass-through response from the engine.
pub fn forward_stream_head(status: u16, content_type: &str) -> (res: String)
    ensures
        res@ == forward_stream_head_text(status as nat, content_type@),
{
    let mut out = status_line_chars(status);
    push_lit(&mut out, "Content-Type: ");
    push_lit(&mut out, content_type);
    push_lit(&mut out, "\r\nTransfer-Encoding: chunked\r\nAccess-Control-Allow-Origin: *\r\n\r\n");
    string_of(&out)
}

/// The head of a whole pass-through response of `body_len` bytes from the engine.
pub open spec fn forward_body_head_text(status: nat, content_type: Seq<char>, body_len: nat) -> Seq<char> {
    status_line(status) + "Content-Type: "@ + content_type + "\r\nContent-Length: "@ + decimal(body_len)
        + "\r\nAccess-Control-Allow-Origin: *\r\n\r\n"@
}

/// The head of a whole pass-through response of `body_len` bytes from the engine.
pub fn forward_body_head(status: u16, content_type: &str, body_len: usize) -> (res: String)
    ensures
        res@ == forward_body_head_text(status as nat, content_type@, body_len as nat),
{
    let mut out = status_line_chars(status);
    push_lit(&mut out, "Content-Type: ");
    push_lit(&mut out, content_type);
    push_lit(&mut out, "\r\nContent-Length: ");
    push_all(&mut out, &decimal_chars(body_len as u64));
    push_lit(&mut out, "\r\nAccess-Control-Allow-Origin: *\r\n\r\n");
    string_of(&out)
}

/// How an engine response is passed through: its content type (JSON when it
/// names none), and whether it is streamed in chunks (an event stream, or
/// any response that came with a `Transfer-Encoding`).
pub struct PassThrough {
    pub content_type: String,
    pub streaming: bool,
}

/// Decides how to pass an engine response through.
pub fn pass_through_plan(content_type: Option<&str>, has_transfer_encoding: bool) -> (res: PassThrough)
    ensures
        res.content_type@ == match content_type {
            Some(c) => c@,
            None => "application/json"@,
        },
        res.streaming == (contains_seq(res.content_type@, "text/event-stream"@) || has_transfer_encoding),
{
    let ct = match content_type {
        Some(c) => owned_text(c),
        None => owned_text("application/json"),
    };
    let streaming = contains(&chars_of(ct.as_str()), &chars_of("text/event-stream")) || has_transfer_encoding;
    PassThrough { content_type: ct, streaming }
}

/// The ASCII bytes of `s`.
pub open spec fn ascii_bytes(s: Seq<char>) -> Seq<u8> {
    s.map_values(|c: char| c as u8)
}

fn push_ascii(out: &mut Vec<u8>, s: &Vec<char>)
    requires
        forall|i: int| 0 <= i < s@.len() ==> (#[trigger] s@[i] as u32) < 128,
    ensures
        final(out)@ == old(out)@ + ascii_bytes(s@),
{
    let n = s.len();
    let ghost start = old(out)@;
    for i in 0..n
        invariant
            n == s@.len(),
            forall|i: int| 0 <= i < s@.len() ==> (#[trigger] s@[i] as u32) < 128,
            out@ == start + ascii_bytes(s@.take(i as int)),
    {
        let c = s[i];
        out.push(c as u8);
        assert(ascii_bytes(s@.take(i + 1)) == ascii_bytes(s@.take(i as int)).push(c as u8));
    }
    assert(s@.take(n as int) == s@);
}

proof fn lemma_hex_is_ascii(n: nat, upper: bool)
    ensures
        forall|i: int| 0 <= i < hex(n, upper).len() ==> (#[trigger] hex(n, upper)[i] as u32) < 128,
    decreases n,
{
    if n >= 16 {
        lemma_hex_is_ascii(n / 16, upper);
        let h = hex(n / 16, upper);
        assert forall|i: int| 0 <= i < hex(n, upper).len() implies (#[trigger] hex(n, upper)[i] as u32) < 128 by {
            if i < h.len() {
                assert(hex(n, upper)[i] == h[i]);
            }
        }
    }
}

fn push_bytes(out: &mut Vec<u8>, data: &[u8])
    ensures
        final(out)@ == old(out)@ + data@,
{
    let n = data.len();
    let ghost start = old(out)@;
    for i in 0..n
        invariant
            n == data@.len(),
            out@ == start + data@.take(i as int),
    {
        out.push(data[i]);
        assert(data@.take(i + 1) == data@.take(i as int).push(data@[i as int]));
    }
    assert(data@.take(n as int) == data@);
}

/// One chunk of a chunked HTTP body: the length in hexadecimal, a line
/// break, the data and a line break.
pub open spec fn chunk_bytes(data: Seq<u8>, upper: bool) -> Seq<u8> {
    ascii_bytes(hex(data.len(), upper)) + seq![13u8, 10u8] + data + seq![13u8, 10u8]
}

/// The chunk that carries `data` (lower-case hexadecimal length); no bytes
/// at all for empty data, which would otherwise end the body.
pub fn encode_chunk(data: &[u8]) -> (res: Vec<u8>)
    ensures
        res@ == if data@.len() == 0 {
            Seq::<u8>::empty()
        } else {
            chunk_bytes(data@, false)
        },
{
    let mut out: Vec<u8> = Vec::new();
    if data.len() == 0 {
        return out;
    }
    let h = hex_chars(data.len() as u64, false);
    proof {
        lemma_hex_is_ascii(data@.len(), false);
    }
    push_ascii(&mut out, &h);
    out.push(13u8);
    out.push(10u8);
    push_bytes(&mut out, data);
    out.push(13u8);
    out.push(10u8);
    out
}

/// The chunk that carries the UTF-8 text of `line` (upper-case hexadecimal
/// length), as the pull stream frames its progress lines.
pub fn encode_line_chunk(line: &str) -> (res: Vec<u8>)
    ensures
        res@ == chunk_bytes(encode_utf8(line@), true),
{
    let bytes = line.as_bytes();
    let mut out: Vec<u8> = Vec::new();
    let h = hex_chars(bytes.len() as u64, true);
    proof {
        lemma_hex_is_ascii(bytes@.len(), true);
    }
    push_ascii(&mut out, &h);
    out.push(13u8);
    out.push(10u8);
    push_bytes(&mut out, bytes);
    out.push(13u8);
    out.push(10u8);
    out
}

/// The chunk that ends a chunked body.
pub fn last_chunk() -> (res: Vec<u8>)
    ensures
        res@ == seq![48u8, 13u8, 10u8, 13u8, 10u8],
{
    let mut out: Vec<u8> = Vec::new();
    out.push(48u8);
    out.push(13u8);
    out.push(10u8);
    out.push(13u8);
    out.push(10u8);
    out
}

} // verus!

verus! {

/// The text that `String::from_utf8_lossy` makes of `bytes`.
pub uninterp spec fn utf8_lossy(bytes: Seq<u8>) -> Seq<char>;

/// Calls `String::from_utf8_lossy`; the result is named `utf8_lossy` of the
/// bytes. std documents that valid UTF-8 is decoded unchanged; how invalid
/// sequences are replaced is left to the name.
#[verifier::external_body]
pub fn decode_lossy(bytes: &[u8]) -> (res: String)
    ensures
        res@ == utf8_lossy(bytes@),
        valid_utf8(bytes@) ==> res@ == decode_utf8(bytes@),
{
    String::from_utf8_lossy(bytes).into_owned()
}

/// A request as read from the first bytes received: its head, and where its
/// body starts in those bytes.
pub struct ReceivedRequest {
    pub head: RequestHead,
    pub body_start: usize,
}

/// Reads a request from the bytes received first: the head of their decoded
/// text, and the body's start (just past the blank line, or the end of the
/// bytes when there is none). `None` when the text has no request line
/// with a method and a path.
pub fn read_request(bytes: &[u8]) -> (res: Option<ReceivedRequest>)
    ensures
        match res {
            Some(r) => {
                &&& request_head_spec(utf8_lossy(bytes@)) == Some(
                    (r.head.method@, r.head.path@, r.head.content_length as nat),
                )
                &&& if contains_seq(utf8_lossy(bytes@), "\r\n\r\n"@) {
                    exists|i: int|
                        occurs_at(utf8_lossy(bytes@), "\r\n\r\n"@, i) && (forall|k: int|
                            0 <= k < i ==> !occurs_at(utf8_lossy(bytes@), "\r\n\r\n"@, k)) && r.body_start
                            == encode_utf8(utf8_lossy(bytes@).subrange(0, i + 4)).len() as usize
                } else {
                    r.body_start == bytes@.len()
                }
            },
            None => request_head_spec(utf8_lossy(bytes@)) is None,
        },
{
    let text = decode_lossy(bytes);
    let head = match parse_request_head(text.as_str()) {
        Some(h) => h,
        None => return None,
    };
    let body_start = match header_end_offset(text.as_str()) {
        Some(b) => b,
        None => bytes.len(),
    };
    Some(ReceivedRequest { head, body_start })
}

} // verus!
