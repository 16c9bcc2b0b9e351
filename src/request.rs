//! The chat-completion request: its fields, its JSON body and the
//! authorization header that goes with it.

use vstd::prelude::*;
use crate::config::Provider;
use crate::error::CommitError;
use crate::git::GitDiff;
use crate::prompt::{get_system_message, get_user_message, user_message_text, SYSTEM_MESSAGE};
use crate::text::{decimal, decimal_text};

verus! {

/// The sampling temperature, in tenths.
pub const TEMPERATURE_TENTHS: u32 = 7;

/// The ceiling on tokens in the reply.
pub const MAX_TOKENS: u32 = 2000;

/// One chat message.
pub struct ApiMessage {
    pub role: String,
    pub content: String,
}

/// What is sent to the provider. The temperature is held in tenths.
pub struct ChatCompletionRequest {
    pub model: String,
    pub messages: Vec<ApiMessage>,
    pub temperature_tenths: Option<u32>,
    pub max_tokens: Option<u32>,
    pub stream: bool,
}

/// What a request needs on the wire: where it goes, its authorization header
/// value and its JSON body.
pub struct PreparedRequest {
    pub endpoint: String,
    pub authorization: String,
    pub body: String,
}

/// The JSON escape of one character: quote, backslash and the control
/// characters below U+0020 are escaped, everything else stands as it is.
pub open spec fn json_escape_char(c: char) -> Seq<char> {
    let u = c as u32;
    if c == '"' {
        "\\\""@
    } else if c == '\\' {
        "\\\\"@
    } else if c == '\n' {
        "\\n"@
    } else if c == '\r' {
        "\\r"@
    } else if c == '\t' {
        "\\t"@
    } else if u == 8 {
        "\\b"@
    } else if u == 12 {
        "\\f"@
    } else if u < 32 {
        "\\u00"@ + seq!["0123456789abcdef"@[(u / 16) as int], "0123456789abcdef"@[(u % 16) as int]]
    } else {
        seq![c]
    }
}

/// The escaped characters of a text.
pub open spec fn json_escaped(s: Seq<char>) -> Seq<char>
    decreases s.len(),
{
    if s.len() == 0 {
        Seq::empty()
    } else {
        json_escaped(s.drop_last()) + json_escape_char(s.last())
    }
}

/// A text as a JSON string literal.
pub open spec fn json_string(s: Seq<char>) -> Seq<char> {
    "\""@ + json_escaped(s) + "\""@
}

/// A message as a JSON object.
pub open spec fn message_json(role: Seq<char>, content: Seq<char>) -> Seq<char> {
    "{\"role\":"@ + json_string(role) + ",\"content\":"@ + json_string(content) + "}"@
}

/// Messages as the elements of a JSON array, separated by commas.
pub open spec fn messages_json(ms: Seq<ApiMessage>) -> Seq<char>
    decreases ms.len(),
{
    if ms.len() == 0 {
        Seq::empty()
    } else if ms.len() == 1 {
        message_json(ms[0].role@, ms[0].content@)
    } else {
        messages_json(ms.drop_last()) + ","@ + message_json(ms.last().role@, ms.last().content@)
    }
}

/// An optional count as JSON.
pub open spec fn count_json(n: Option<u32>) -> Seq<char> {
    match n {
        Some(v) => decimal(v as nat),
        None => "null"@,
    }
}

/// An optional number of tenths as a JSON decimal number.
pub open spec fn tenths_json(t: Option<u32>) -> Seq<char> {
    match t {
        Some(v) => decimal((v / 10) as nat) + "."@ + decimal((v % 10) as nat),
        None => "null"@,
    }
}

/// A boolean as JSON.
pub open spec fn bool_json(b: bool) -> Seq<char> {
    if b {
        "true"@
    } else {
        "false"@
    }
}

/// The JSON body of a request, its fields in declaration order.
pub open spec fn request_json(r: ChatCompletionRequest) -> Seq<char> {
    "{\"model\":"@ + json_string(r.model@) + ",\"messages\":["@ + messages_json(r.messages@)
        + "],\"temperature\":"@ + tenths_json(r.temperature_tenths) + ",\"max_tokens\":"@
        + count_json(r.max_tokens) + ",\"stream\":"@ + bool_json(r.stream) + "}"@
}

/// The JSON body sent for a diff text and a model: the system message, then
/// the user message, with the fixed sampling policy and no streaming.
pub open spec fn completion_body(diff: Seq<char>, model: Seq<char>) -> Seq<char> {
    "{\"model\":"@ + json_string(model) + ",\"messages\":["@ + message_json("system"@, SYSTEM_MESSAGE@)
        + ","@ + message_json("user"@, user_message_text(diff)) + "],\"temperature\":"@
        + tenths_json(Some(TEMPERATURE_TENTHS)) + ",\"max_tokens\":"@ + count_json(Some(MAX_TOKENS))
        + ",\"stream\":"@ + bool_json(false) + "}"@
}

/// A byte that an HTTP header value may hold, seen per character: a tab, or
/// a code point of at least 32 other than 127 (code points above 127 are
/// encoded with bytes of at least 128 only).
pub open spec fn header_char_ok(c: char) -> bool {
    let u = c as u32;
    (u >= 32 && u != 127) || u == 9
}

/// Every character of `s` may stand in a header value.
pub open spec fn header_text_ok(s: Seq<char>) -> bool {
    forall|i: int| 0 <= i < s.len() ==> header_char_ok(#[trigger] s[i])
}

/// The authorization header value for an API key; a key that cannot stand in
/// a header gives a bearer value that the server rejects.
pub open spec fn authorization_text(api_key: Seq<char>) -> Seq<char> {
    if header_text_ok("Bearer "@ + api_key) {
        "Bearer "@ + api_key
    } else {
        "Bearer invalid"@
    }
}

/// Relies on `serde_json::to_string` on a `str`: the text in double quotes,
/// with the characters of `json_escape_char` escaped. It writes into a `Vec`,
/// which takes every write, so a `str` always serializes.
#[verifier::external_body]
fn quote_json(s: &str) -> (r: Result<String, String>)
    ensures
        r is Ok,
        r is Ok ==> r->Ok_0@ == json_string(s@),
{
    serde_json::to_string(s).map_err(|e| e.to_string())
}

/// Relies on `reqwest::header::HeaderValue::from_str`: it accepts a text whose
/// bytes are all tabs or at least 32 and other than 127.
#[verifier::external_body]
fn header_value_accepts(s: &str) -> (r: bool)
    ensures
        r == header_text_ok(s@),
{
    reqwest::header::HeaderValue::from_str(s).is_ok()
}

/// `Bearer <api_key>`, or `Bearer invalid` where the key cannot stand in a header.
pub fn authorization_value(api_key: &str) -> (r: String)
    ensures
        r@ == authorization_text(api_key@),
{
    let mut v = "Bearer ".to_string();
    v.append(api_key);
    if header_value_accepts(v.as_str()) {
        v
    } else {
        "Bearer invalid".to_string()
    }
}

/// The request for a diff, sent to a provider's model: system message, then
/// user message, temperature 0.7, at most 2000 tokens, no streaming.
pub fn get_request_body(diff: &GitDiff, provider: &Provider) -> (r: ChatCompletionRequest)
    ensures
        r.model@ == provider.model@,
        r.messages@.len() == 2,
        r.messages@[0].role@ == "system"@,
        r.messages@[0].content@ == SYSTEM_MESSAGE@,
        r.messages@[1].role@ == "user"@,
        r.messages@[1].content@ == user_message_text(diff.diff@),
        r.temperature_tenths == Some(TEMPERATURE_TENTHS),
        r.max_tokens == Some(MAX_TOKENS),
        !r.stream,
{
    let system = ApiMessage { role: "system".to_string(), content: get_system_message() };
    let user = ApiMessage { role: "user".to_string(), content: get_user_message(diff) };
    let mut messages: Vec<ApiMessage> = Vec::new();
    messages.push(system);
    messages.push(user);
    ChatCompletionRequest {
        model: provider.model.clone(),
        messages,
        temperature_tenths: Some(TEMPERATURE_TENTHS),
        max_tokens: Some(MAX_TOKENS),
        stream: false,
    }
}

fn append_count(out: &mut String, n: Option<u32>)
    ensures
        final(out)@ == old(out)@ + count_json(n),
{
    match n {
        Some(v) => {
            let t = decimal_text(v);
            out.append(t.as_str());
        },
        None => out.append("null"),
    }
}

fn append_tenths(out: &mut String, t: Option<u32>)
    ensures
        final(out)@ == old(out)@ + tenths_json(t),
{
    match t {
        Some(v) => {
            let whole = decimal_text(v / 10);
            let frac = decimal_text(v % 10);
            out.append(whole.as_str());
            out.append(".");
            out.append(frac.as_str());
        },
        None => out.append("null"),
    }
}

fn append_message(out: &mut String, m: &ApiMessage) -> (r: Result<(), CommitError>)
    ensures
        r is Ok,
        final(out)@ == old(out)@ + message_json(m.role@, m.content@),
{
    let role = match quote_json(m.role.as_str()) {
        Ok(q) => q,
        Err(e) => return Err(CommitError::SerializationError(e)),
    };
    let content = match quote_json(m.content.as_str()) {
        Ok(q) => q,
        Err(e) => return Err(CommitError::SerializationError(e)),
    };
    out.append("{\"role\":");
    out.append(role.as_str());
    out.append(",\"content\":");
    out.append(content.as_str());
    out.append("}");
    Ok(())
}

/// The request as compact JSON, fields in declaration order.
/// A failed serialization would be a `SerializationError`; a request of
/// strings and numbers never fails.
pub fn get_json_body(request: &ChatCompletionRequest) -> (r: Result<String, CommitError>)
    ensures
        r is Ok,
        r->Ok_0@ == request_json(*request),
{
    let model = match quote_json(request.model.as_str()) {
        Ok(q) => q,
        Err(e) => return Err(CommitError::SerializationError(e)),
    };
    let mut out = "{\"model\":".to_string();
    out.append(model.as_str());
    out.append(",\"messages\":[");
    let ghost start = out@;
    let mut i: usize = 0;
    while i < request.messages.len()
        invariant
            i <= request.messages@.len(),
            out@ == start + messages_json(request.messages@.subrange(0, i as int)),
        decreases request.messages@.len() - i,
    {
        proof {
            let sub = request.messages@.subrange(0, i + 1);
            assert(sub.drop_last() =~= request.messages@.subrange(0, i as int));
        }
        if i > 0 {
            out.append(",");
        }
        match append_message(&mut out, &request.messages[i]) {
            Ok(()) => {},
            Err(e) => return Err(e),
        }
        proof {
            let sub = request.messages@.subrange(0, i + 1);
            if i == 0 {
                assert(request.messages@.subrange(0, 0) =~= Seq::<ApiMessage>::empty());
                assert(out@ =~= start + messages_json(sub));
            } else {
                assert(out@ =~= start + messages_json(sub));
            }
        }
        i = i + 1;
    }
    assert(request.messages@.subrange(0, request.messages@.len() as int) =~= request.messages@);
    out.append("],\"temperature\":");
    append_tenths(&mut out, request.temperature_tenths);
    out.append(",\"max_tokens\":");
    append_count(&mut out, request.max_tokens);
    out.append(",\"stream\":");
    if request.stream {
        out.append("true");
    } else {
        out.append("false");
    }
    out.append("}");
    Ok(out)
}

/// The body of a request built by `get_request_body` is `completion_body`.
proof fn lemma_built_request_json(r: ChatCompletionRequest, diff: Seq<char>)
    requires
        r.messages@.len() == 2,
        r.messages@[0].role@ == "system"@,
        r.messages@[0].content@ == SYSTEM_MESSAGE@,
        r.messages@[1].role@ == "user"@,
        r.messages@[1].content@ == user_message_text(diff),
        r.temperature_tenths == Some(TEMPERATURE_TENTHS),
        r.max_tokens == Some(MAX_TOKENS),
        !r.stream,
    ensures
        request_json(r) == completion_body(diff, r.model@),
{
    let ms = r.messages@;
    assert(ms.drop_last().len() == 1);
    assert(ms.drop_last()[0] == ms[0]);
    assert(ms.last() == ms[1]);
    assert(messages_json(ms.drop_last()) == message_json(ms[0].role@, ms[0].content@));
    assert(messages_json(ms) =~= message_json("system"@, SYSTEM_MESSAGE@) + ","@ + message_json(
        "user"@,
        user_message_text(diff),
    ));
    assert(request_json(r) =~= completion_body(diff, r.model@));
}

/// Everything needed to send the completion request for `diff` to `provider`.
/// A provider without an API key gets no request at all.
pub fn prepare_request(provider: &Provider, diff: &GitDiff) -> (r: Result<
    PreparedRequest,
    CommitError,
>)
    ensures
        provider.api_key@.len() == 0 ==> r == Err::<PreparedRequest, CommitError>(
            CommitError::CredentialMissing,
        ),
        provider.api_key@.len() > 0 ==> {
            &&& r is Ok
            &&& r->Ok_0.endpoint@ == provider.endpoint@
            &&& r->Ok_0.authorization@ == authorization_text(provider.api_key@)
            &&& r->Ok_0.body@ == completion_body(diff.diff@, provider.model@)
        },
{
    if provider.api_key.as_str().is_empty() {
        return Err(CommitError::CredentialMissing);
    }
    let request = get_request_body(diff, provider);
    proof {
        lemma_built_request_json(request, diff.diff@);
    }
    let body = match get_json_body(&request) {
        Ok(b) => b,
        Err(e) => return Err(e),
    };
    Ok(
        PreparedRequest {
            endpoint: provider.endpoint.clone(),
            authorization: authorization_value(provider.api_key.as_str()),
            body,
        },
    )
}

/// Building the request is pure: two diffs with the same text and two
/// providers with the same model give byte-identical bodies, whatever the
/// rest of their fields.
pub proof fn lemma_request_body_deterministic(
    diff_a: GitDiff,
    provider_a: Provider,
    diff_b: GitDiff,
    provider_b: Provider,
)
    requires
        diff_a.diff@ == diff_b.diff@,
        provider_a.model@ == provider_b.model@,
    ensures
        completion_body(diff_a.diff@, provider_a.model@) == completion_body(
            diff_b.diff@,
            provider_b.model@,
        ),
{
}

} // verus!
