//! The Prometheus metrics HTTP endpoint: which requests are served and the
//! bytes of the responses.
//!
//! `GET /metrics` returns the metrics in the Prometheus text format; any
//! other path is answered 404.

use vstd::prelude::*;

use crate::text::{
    chars_of, decimal_text, lines_of, push_all, push_decimal, split_lines, split_words,
    string_from_chars, texts, words_of,
};

verus! {

/// The request target of an HTTP request: the second word of its first
/// line, or `/` when the first line has fewer than two words.
pub open spec fn request_target(request: Seq<char>) -> Seq<char> {
    let words = words_of(lines_of(request)[0]);
    if words.len() >= 2 {
        words[1]
    } else {
        seq!['/']
    }
}

/// `/metrics`, the path the metrics are served on.
pub open spec fn metrics_path() -> Seq<char> {
    seq!['/', 'm', 'e', 't', 'r', 'i', 'c', 's']
}

/// How a request is answered.
#[derive(Debug, Clone, Copy, PartialEq, Eq, Structural)]
pub enum Route {
    /// 200 with the metrics
    Metrics,
    /// 404
    NotFound,
}

/// The request target (path) of an HTTP request.
pub fn request_path(request: &str) -> (path: String)
    ensures
        path@ == request_target(request@),
{
    let chars = chars_of(request);
    let lines = split_lines(&chars);
    assert(texts(lines@).len() == lines@.len());
    assert(lines_of(chars@).len() > 0);
    assert(texts(lines@)[0] == lines@[0]@);
    let words = split_words(&lines[0]);
    if words.len() >= 2 {
        assert(texts(words@)[1] == words@[1]@);
        string_from_chars(&words[1])
    } else {
        let slash = vec!['/'];
        string_from_chars(&slash)
    }
}

/// Route a request: the metrics for `/metrics`, 404 for anything else.
pub fn route_request(request: &str) -> (route: Route)
    ensures
        route == (if request_target(request@) == metrics_path() {
            Route::Metrics
        } else {
            Route::NotFound
        }),
{
    let path = request_path(request);
    let target = chars_of(path.as_str());
    let metrics = vec!['/', 'm', 'e', 't', 'r', 'i', 'c', 's'];
    if crate::text::same_chars(&target, &metrics) {
        Route::Metrics
    } else {
        Route::NotFound
    }
}

/// The response to any path but `/metrics`.
pub fn not_found_response() -> (response: &'static str)
    ensures
        response@ == "HTTP/1.1 404 Not Found\r\nContent-Type: text/plain\r\nContent-Length: 9\r\n\r\nNot Found"@,
{
    "HTTP/1.1 404 Not Found\r\nContent-Type: text/plain\r\nContent-Length: 9\r\n\r\nNot Found"
}

/// The head of a 200 response announcing a body of `length` bytes.
pub open spec fn ok_head(length: nat) -> Seq<char> {
    "HTTP/1.1 200 OK\r\nContent-Type: text/plain; charset=utf-8\r\nContent-Length: "@
        + decimal_text(length) + "\r\n\r\n"@
}

/// The 200 response carrying the metrics text `body`, whose encoding is
/// `body_len` bytes long.
pub fn metrics_response(body_len: usize, body: &str) -> (response: String)
    ensures
        response@ == ok_head(body_len as nat) + body@,
{
    let head = "HTTP/1.1 200 OK\r\nContent-Type: text/plain; charset=utf-8\r\nContent-Length: ";
    let mut text = chars_of(head);
    push_decimal(&mut text, body_len as u64);
    let tail = chars_of("\r\n\r\n");
    push_all(&mut text, &tail);
    let content = chars_of(body);
    push_all(&mut text, &content);
    string_from_chars(&text)
}

} // verus!
