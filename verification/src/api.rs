use vstd::prelude::*;
use crate::json::{Json, member, text_of, opt, get_member, get_text};
use crate::text::{chars_of, push_char, trim_bounds, trimmed};

verus! {

broadcast use vstd::string::group_string_axioms;

/// How many characters of a non-JSON error body are kept.
pub const ERROR_PREVIEW_CHARS: usize = 220;

/// The message an error document carries: `error.message`, else `message`.
pub open spec fn error_message(doc: Option<Json>) -> Option<Seq<char>> {
    let nested = text_of(member(member(doc, "error"@), "message"@));
    if nested is Some {
        nested
    } else {
        text_of(member(doc, "message"@))
    }
}

/// Carriage returns and line feeds replaced by spaces.
pub open spec fn one_line(s: Seq<char>) -> Seq<char> {
    s.map_values(|c: char| if c == '\r' || c == '\n' { ' ' } else { c })
}

/// A body that carries no error message, compacted: trimmed, on one line, and
/// cut to 220 characters followed by "..." when it is longer.
pub open spec fn compacted_body(body: Seq<char>) -> Seq<char> {
    let b = one_line(trimmed(body));
    if b.len() > 220 {
        b.take(220) + "..."@
    } else {
        b
    }
}

/// The short form of an error response body: the message of its JSON document
/// when it has one, otherwise the compacted body.
pub open spec fn compact_error(body: Seq<char>, doc: Option<Json>) -> Seq<char> {
    match error_message(doc) {
        Some(m) => m,
        None => compacted_body(body),
    }
}

/// The short form of an error response body (see `compact_error`); `doc` is
/// the body parsed as JSON, `None` when it is not JSON.
pub fn compact_error_body(body: &str, doc: Option<&Json>) -> (r: String)
    ensures
        r@ == compact_error(body@, opt(doc)),
{
    if let Some(m) = get_text(get_member(get_member(doc, "error"), "message")) {
        return m;
    }
    if let Some(m) = get_text(get_member(doc, "message")) {
        return m;
    }
    let chars = chars_of(body);
    let (a, b) = trim_bounds(&chars);
    let ghost t = chars@.subrange(a as int, b as int);
    let keep: usize = if b - a > ERROR_PREVIEW_CHARS {
        ERROR_PREVIEW_CHARS
    } else {
        b - a
    };
    let mut out = String::new();
    let mut i: usize = 0;
    while i < keep
        invariant
            a <= b <= chars@.len(),
            keep <= b - a,
            t == chars@.subrange(a as int, b as int),
            i <= keep,
            out@ == one_line(t).take(i as int),
        decreases keep - i,
    {
        let c = chars[a + i];
        let d = if c == '\r' || c == '\n' {
            ' '
        } else {
            c
        };
        push_char(&mut out, d);
        assert(one_line(t).take(i + 1) == one_line(t).take(i as int).push(d));
        i = i + 1;
    }
    if b - a > ERROR_PREVIEW_CHARS {
        push_char(&mut out, '.');
        push_char(&mut out, '.');
        push_char(&mut out, '.');
        proof {
            reveal_strlit("...");
            assert(out@ == one_line(t).take(220) + "..."@);
        }
    } else {
        assert(one_line(t).take(i as int) == one_line(t));
    }
    out
}

/// Whether an HTTP status code is a success (2xx).
pub open spec fn is_success(code: u16) -> bool {
    200 <= code <= 299
}

/// The outcome of an API call: a non-success status gives the error
/// "`api` `status`: `compact body`"; otherwise the body parsed as JSON (after
/// trimming), or the error "`parse_label`: `parse error`".
pub open spec fn api_outcome(
    api: Seq<char>,
    parse_label: Seq<char>,
    code: u16,
    status: Seq<char>,
    body: Seq<char>,
    doc: Option<Json>,
    parsed: Result<Json, Seq<char>>,
) -> Result<Json, Seq<char>> {
    if !is_success(code) {
        Err(api + " "@ + status + ": "@ + compact_error(body, doc))
    } else {
        match parsed {
            Ok(j) => Ok(j),
            Err(e) => Err(parse_label + ": "@ + e),
        }
    }
}

/// The error text of a result, by its view.
pub open spec fn result_view(r: Result<Json, String>) -> Result<Json, Seq<char>> {
    match r {
        Ok(j) => Ok(j),
        Err(e) => Err(e@),
    }
}

/// Decides the outcome of an API call from its status, its raw body, the body
/// parsed as JSON (`doc`) and the trimmed body parsed as JSON (`parsed`, with
/// the parser's error text).
pub fn api_result(
    api: &str,
    parse_label: &str,
    code: u16,
    status: &str,
    body: &str,
    doc: Option<&Json>,
    parsed: Result<Json, String>,
) -> (r: Result<Json, String>)
    ensures
        result_view(r) == api_outcome(
            api@,
            parse_label@,
            code,
            status@,
            body@,
            opt(doc),
            result_view(parsed),
        ),
{
    if !(200 <= code && code <= 299) {
        let mut e = String::from_str(api);
        e.append(" ");
        e.append(status);
        e.append(": ");
        let c = compact_error_body(body, doc);
        e.append(c.as_str());
        return Err(e);
    }
    match parsed {
        Ok(j) => Ok(j),
        Err(msg) => {
            let mut e = String::from_str(parse_label);
            e.append(": ");
            e.append(msg.as_str());
            Err(e)
        },
    }
}

/// The outcome of the Codex usage API call (see `api_outcome`).
pub fn codex_api_result(
    code: u16,
    status: &str,
    body: &str,
    doc: Option<&Json>,
    parsed: Result<Json, String>,
) -> (r: Result<Json, String>)
    ensures
        result_view(r) == api_outcome(
            "Codex usage API"@,
            "Codex usage JSON parse"@,
            code,
            status@,
            body@,
            opt(doc),
            result_view(parsed),
        ),
{
    api_result("Codex usage API", "Codex usage JSON parse", code, status, body, doc, parsed)
}

} // verus!
