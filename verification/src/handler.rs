//! The request handler: orchestrates validation, prompt composition and
//! provider translation, and wraps every outcome into an HTTP envelope.
//!
//! The pipeline is split at its one suspension point, the outbound provider
//! call, which only the hosting runtime can perform. `handle_chat` runs
//! everything up to that call and either answers early (bad request, missing
//! credential) or hands back the fully-built provider call; the host performs
//! the transport and feeds what came back to `finish_chat`, which produces
//! the final envelope. Every envelope, on every path, carries the same
//! origin-control and security headers.

use vstd::prelude::*;

use crate::model::ChatRequest;
use crate::prompts::build_system_prompt;
use crate::prompts::system_prompt_spec;
use crate::provider::ProviderMessage;
use crate::provider::ProviderRequest;
use crate::provider::ProviderRole;
use crate::provider::build_provider_request;
use crate::provider::provider_request_url;
use crate::provider::provider_role_spec;
use crate::reply::ProviderEnvelope;
use crate::reply::ProviderFailure;
use crate::reply::handle_provider_response;
use crate::reply::reply_text_spec;
use crate::reply::tokens_spec;
use crate::text::str_eq;
use crate::wire::chat_reply_json_of;
use crate::validate::ValidationFailure;
use crate::validate::all_entries_fit;
use crate::validate::entry_fits;
use crate::validate::failure_message;
use crate::validate::failure_message_spec;
use crate::validate::is_blank;
use crate::validate::roles_alternate;
use crate::validate::valid_request;
use crate::validate::validate;
use crate::validate::MAX_HISTORY_MESSAGES;
use crate::validate::MAX_MESSAGE_LENGTH;
use crate::model::ChatMessage;
use crate::wire::encode_chat_response;
use vstd::string::StringExecFns;

verus! {

/// One outbound HTTP envelope: a status, a body, and the headers set so far.
#[derive(Debug, Clone)]
pub struct HttpResponse {
    pub status: u16,
    pub body: String,
    pub headers: Vec<(String, String)>,
}

/// The headers that every response carries, in the order they are appended:
/// the configured allow-origin, the allowed methods and request header, the
/// preflight cache duration, and the two security headers.
pub open spec fn cors_headers_spec(origin: Seq<char>) -> Seq<(Seq<char>, Seq<char>)> {
    seq![
        ("Access-Control-Allow-Origin"@, origin),
        ("Access-Control-Allow-Methods"@, "GET, POST, OPTIONS"@),
        ("Access-Control-Allow-Headers"@, "Content-Type"@),
        ("Access-Control-Max-Age"@, "86400"@),
        ("X-Content-Type-Options"@, "nosniff"@),
        ("Cache-Control"@, "no-store"@),
    ]
}

/// A response whose body and status are as given and whose headers are
/// exactly the standard header block for `origin`.
pub open spec fn is_plain_response(
    r: HttpResponse,
    status: u16,
    body: Seq<char>,
    origin: Seq<char>,
) -> bool {
    r.status == status && r.body@ == body && r.headers.deep_view() == cors_headers_spec(origin)
}

/// The six header names the wrapping step manages.
pub open spec fn is_managed_header(name: Seq<char>) -> bool {
    ||| name == "Access-Control-Allow-Origin"@
    ||| name == "Access-Control-Allow-Methods"@
    ||| name == "Access-Control-Allow-Headers"@
    ||| name == "Access-Control-Max-Age"@
    ||| name == "X-Content-Type-Options"@
    ||| name == "Cache-Control"@
}

/// The header list with every managed header removed; the order of the rest
/// is kept.
pub open spec fn strip_managed(hs: Seq<(Seq<char>, Seq<char>)>) -> Seq<(Seq<char>, Seq<char>)>
    decreases hs.len(),
{
    if hs.len() == 0 {
        Seq::empty()
    } else if is_managed_header(hs.last().0) {
        strip_managed(hs.drop_last())
    } else {
        strip_managed(hs.drop_last()) + seq![hs.last()]
    }
}

fn is_managed(name: &str) -> (b: bool)
    ensures
        b == is_managed_header(name@),
{
    str_eq(name, "Access-Control-Allow-Origin") || str_eq(name, "Access-Control-Allow-Methods")
        || str_eq(name, "Access-Control-Allow-Headers") || str_eq(name, "Access-Control-Max-Age")
        || str_eq(name, "X-Content-Type-Options") || str_eq(name, "Cache-Control")
}

/// The configured allow-origin value, or the permissive wildcard where none
/// is configured.
pub fn get_allowed_origin(configured: Option<&String>) -> (r: String)
    ensures
        configured matches Some(v) ==> r@ == v@,
        configured is None ==> r@ == "*"@,
{
    match configured {
        Some(v) => v.clone(),
        None => String::from_str("*"),
    }
}

/// Sets the origin-control and security headers on a response: any earlier
/// occurrence of the six managed names is removed first, so re-wrapping never
/// duplicates a header. This step never fails and changes nothing but the
/// headers.
pub fn cors_response(response: HttpResponse, allowed_origin: &str) -> (r: HttpResponse)
    ensures
        r.status == response.status,
        r.body@ == response.body@,
        r.headers.deep_view() == strip_managed(response.headers.deep_view())
            + cors_headers_spec(allowed_origin@),
{
    let n = response.headers.len();
    let mut kept: Vec<(String, String)> = Vec::new();
    proof {
        assert(response.headers.deep_view().take(0) =~~= Seq::<(Seq<char>, Seq<char>)>::empty());
        assert(kept.deep_view() =~~= strip_managed(response.headers.deep_view().take(0)));
    }
    for i in 0..n
        invariant
            n == response.headers@.len(),
            kept.deep_view() == strip_managed(response.headers.deep_view().take(i as int)),
    {
        let name = &response.headers[i].0;
        if !is_managed(name.as_str()) {
            let value = response.headers[i].1.clone();
            kept.push((name.clone(), value));
        }
        proof {
            let taken = response.headers.deep_view().take(i + 1);
            assert(taken.drop_last() =~~= response.headers.deep_view().take(i as int));
            assert(taken.last() == response.headers.deep_view()[i as int]);
            assert(kept.deep_view() =~~= strip_managed(taken));
        }
    }
    proof {
        assert(response.headers.deep_view().take(n as int) =~~= response.headers.deep_view());
    }
    let mut resp = HttpResponse { status: response.status, body: response.body, headers: kept };
    resp.headers.push(
        (String::from_str("Access-Control-Allow-Origin"), String::from_str(allowed_origin)),
    );
    resp.headers.push(
        (String::from_str("Access-Control-Allow-Methods"), String::from_str("GET, POST, OPTIONS")),
    );
    resp.headers.push(
        (String::from_str("Access-Control-Allow-Headers"), String::from_str("Content-Type")),
    );
    resp.headers.push((String::from_str("Access-Control-Max-Age"), String::from_str("86400")));
    resp.headers.push((String::from_str("X-Content-Type-Options"), String::from_str("nosniff")));
    resp.headers.push((String::from_str("Cache-Control"), String::from_str("no-store")));
    proof {
        assert(resp.headers.deep_view() =~~= strip_managed(response.headers.deep_view())
            + cors_headers_spec(allowed_origin@));
    }
    resp
}

/// No element that `strip_managed` keeps has a managed name.
proof fn lemma_strip_elements_unmanaged(hs: Seq<(Seq<char>, Seq<char>)>)
    ensures
        forall|i: int|
            0 <= i < strip_managed(hs).len() ==> !is_managed_header(
                (#[trigger] strip_managed(hs)[i]).0,
            ),
    decreases hs.len(),
{
    if hs.len() > 0 {
        lemma_strip_elements_unmanaged(hs.drop_last());
        if is_managed_header(hs.last().0) {
            assert(strip_managed(hs) == strip_managed(hs.drop_last()));
        } else {
            assert(strip_managed(hs) == strip_managed(hs.drop_last()) + seq![hs.last()]);
            assert forall|i: int|
                0 <= i < strip_managed(hs).len() implies !is_managed_header(
                (#[trigger] strip_managed(hs)[i]).0,
            ) by {
                if i < strip_managed(hs.drop_last()).len() {
                    assert(strip_managed(hs)[i] == strip_managed(hs.drop_last())[i]);
                } else {
                    assert(strip_managed(hs)[i] == hs.last());
                }
            }
        }
    }
}

/// A list without managed names passes `strip_managed` unchanged.
proof fn lemma_strip_all_unmanaged(hs: Seq<(Seq<char>, Seq<char>)>)
    requires
        forall|i: int| 0 <= i < hs.len() ==> !is_managed_header((#[trigger] hs[i]).0),
    ensures
        strip_managed(hs) == hs,
    decreases hs.len(),
{
    if hs.len() == 0 {
        assert(strip_managed(hs) =~= hs);
    } else {
        lemma_strip_all_unmanaged(hs.drop_last());
        assert(!is_managed_header(hs[hs.len() - 1].0));
        assert(strip_managed(hs) =~= hs);
    }
}

/// A list of managed names only is stripped to nothing.
proof fn lemma_strip_all_managed(hs: Seq<(Seq<char>, Seq<char>)>)
    requires
        forall|i: int| 0 <= i < hs.len() ==> is_managed_header((#[trigger] hs[i]).0),
    ensures
        strip_managed(hs) == Seq::<(Seq<char>, Seq<char>)>::empty(),
    decreases hs.len(),
{
    if hs.len() == 0 {
        assert(strip_managed(hs) =~= Seq::<(Seq<char>, Seq<char>)>::empty());
    } else {
        lemma_strip_all_managed(hs.drop_last());
        assert(is_managed_header(hs[hs.len() - 1].0));
    }
}

/// `strip_managed` distributes over concatenation.
proof fn lemma_strip_concat(a: Seq<(Seq<char>, Seq<char>)>, b: Seq<(Seq<char>, Seq<char>)>)
    ensures
        strip_managed(a + b) == strip_managed(a) + strip_managed(b),
    decreases b.len(),
{
    if b.len() == 0 {
        assert(a + b =~= a);
        assert(strip_managed(b) =~= Seq::<(Seq<char>, Seq<char>)>::empty());
        assert(strip_managed(a) + strip_managed(b) =~= strip_managed(a));
    } else {
        assert((a + b).drop_last() =~= a + b.drop_last());
        assert((a + b).last() == b.last());
        lemma_strip_concat(a, b.drop_last());
        assert(strip_managed(a + b) =~= strip_managed(a) + strip_managed(b));
    }
}

/// Wrapping an already wrapped header list again, with the same origin,
/// changes nothing: by `cors_response`'s contract, the headers after a second
/// wrap are `strip_managed(strip_managed(hs) + cors_headers_spec(origin)) +
/// cors_headers_spec(origin)`, and that equals the headers after the first —
/// the managed block never accumulates.
pub proof fn lemma_cors_rewrap_idempotent(hs: Seq<(Seq<char>, Seq<char>)>, origin: Seq<char>)
    ensures
        strip_managed(strip_managed(hs) + cors_headers_spec(origin)) + cors_headers_spec(origin)
            == strip_managed(hs) + cors_headers_spec(origin),
{
    let block = cors_headers_spec(origin);
    lemma_strip_concat(strip_managed(hs), block);
    lemma_strip_elements_unmanaged(hs);
    lemma_strip_all_unmanaged(strip_managed(hs));
    assert forall|i: int| 0 <= i < block.len() implies is_managed_header(
        (#[trigger] block[i]).0,
    ) by {
        assert(block.len() == 6);
    }
    lemma_strip_all_managed(block);
    assert(strip_managed(strip_managed(hs) + block) + block =~= strip_managed(hs) + block);
}

fn plain_response(status: u16, body: String, allowed_origin: &str) -> (r: HttpResponse)
    ensures
        is_plain_response(r, status, body@, allowed_origin@),
{
    let bare = HttpResponse { status, body, headers: Vec::new() };
    proof {
        assert(bare.headers.deep_view() =~~= Seq::<(Seq<char>, Seq<char>)>::empty());
    }
    let r = cors_response(bare, allowed_origin);
    proof {
        assert(strip_managed(bare.headers.deep_view()) =~= Seq::<(Seq<char>, Seq<char>)>::empty());
        assert(r.headers.deep_view() =~~= cors_headers_spec(allowed_origin@));
    }
    r
}

/// The health probe's answer: a fixed payload, regardless of system state.
pub fn handle_health(allowed_origin: &str) -> (r: HttpResponse)
    ensures
        is_plain_response(r, 200, "{\"status\":\"ok\"}"@, allowed_origin@),
{
    plain_response(200, String::from_str("{\"status\":\"ok\"}"), allowed_origin)
}

/// The preflight answer: no body, just the standard header block.
pub fn handle_preflight(allowed_origin: &str) -> (r: HttpResponse)
    ensures
        is_plain_response(r, 200, Seq::<char>::empty(), allowed_origin@),
        r.body@.len() == 0,
{
    let r = plain_response(200, String::new(), allowed_origin);
    r
}

/// A fully prepared provider call: where to send it, the credential that goes
/// in the request header, and the structured request to encode and post.
#[derive(Debug, Clone)]
pub struct ProviderCall {
    pub url: String,
    pub api_key: String,
    pub request: ProviderRequest,
}

/// What the handler decides after the synchronous part of the pipeline:
/// either the response is already known, or the provider must be called.
#[derive(Debug, Clone)]
pub enum ChatStep {
    Respond(HttpResponse),
    CallProvider(ProviderCall),
}

/// The content list is the history translated in order plus one trailing
/// "user" entry holding the current message.
pub open spec fn contents_translated(
    cs: Seq<ProviderMessage>,
    h: Seq<ChatMessage>,
    msg: Seq<char>,
) -> bool {
    &&& cs.len() == h.len() + 1
    &&& forall|i: int|
        0 <= i < h.len() ==> (#[trigger] cs[i]).role == provider_role_spec(h[i].role)
            && cs[i].text@ == h[i].content@
    &&& cs[h.len() as int].role == ProviderRole::User
    &&& cs[h.len() as int].text@ == msg
}

/// Runs the synchronous part of the pipeline: body parse outcome, the
/// validation rules, the credential check, prompt composition, and provider
/// translation. No provider call is prepared unless the request is valid and
/// a credential is present.
pub fn handle_chat(
    request: Option<&ChatRequest>,
    api_key: Option<&str>,
    allowed_origin: &str,
) -> (step: ChatStep)
    ensures
        step matches ChatStep::CallProvider(c) ==> (request matches Some(req) && valid_request(
            *req,
        ) && api_key is Some),
        request matches Some(req) ==> (valid_request(*req) ==> (api_key matches Some(k) ==> (
        step matches ChatStep::CallProvider(c) && c.url@
            == "https://generativelanguage.googleapis.com/v1beta/models/gemini-2.5-flash-lite:generateContent"@
            && c.api_key@ == k@ && c.request.system_instruction@ == system_prompt_spec(
            req.animal,
            req.intelligence,
        ) && contents_translated(c.request.contents@, req.history@, req.message@)))),
        request is None ==> (step matches ChatStep::Respond(r) && is_plain_response(
            r,
            400,
            "Invalid request body"@,
            allowed_origin@,
        )),
        request matches Some(req) ==> (is_blank(req.message@) ==> (step
            matches ChatStep::Respond(r) && is_plain_response(
            r,
            400,
            failure_message_spec(ValidationFailure::EmptyMessage),
            allowed_origin@,
        ))),
        request matches Some(req) ==> ((!is_blank(req.message@) && req.message@.len()
            > MAX_MESSAGE_LENGTH) ==> (step matches ChatStep::Respond(r) && is_plain_response(
            r,
            400,
            failure_message_spec(ValidationFailure::MessageTooLong),
            allowed_origin@,
        ))),
        request matches Some(req) ==> ((!is_blank(req.message@) && req.message@.len()
            <= MAX_MESSAGE_LENGTH && req.history@.len() > MAX_HISTORY_MESSAGES) ==> (step
            matches ChatStep::Respond(r) && is_plain_response(
            r,
            400,
            failure_message_spec(ValidationFailure::HistoryTooLong),
            allowed_origin@,
        ))),
        request matches Some(req) ==> ((!is_blank(req.message@) && req.message@.len()
            <= MAX_MESSAGE_LENGTH && req.history@.len() <= MAX_HISTORY_MESSAGES && !all_entries_fit(
            req.history@,
        )) ==> (step matches ChatStep::Respond(r) && r.status == 400 && r.headers.deep_view()
            == cors_headers_spec(allowed_origin@) && (exists|i: usize|
            i < req.history@.len() && !(#[trigger] entry_fits(req.history@, i as int)) && (
            forall|j: int| 0 <= j < i ==> entry_fits(req.history@, j)) && r.body@
                == failure_message_spec(ValidationFailure::HistoryEntryTooLong(i))))),
        request matches Some(req) ==> ((!is_blank(req.message@) && req.message@.len()
            <= MAX_MESSAGE_LENGTH && req.history@.len() <= MAX_HISTORY_MESSAGES && all_entries_fit(
            req.history@,
        ) && !roles_alternate(req.history@)) ==> (step matches ChatStep::Respond(r)
            && is_plain_response(
            r,
            400,
            failure_message_spec(ValidationFailure::HistoryRoleMismatch),
            allowed_origin@,
        ))),
        request matches Some(req) ==> ((valid_request(*req) && api_key is None) ==> (step
            matches ChatStep::Respond(r) && is_plain_response(
            r,
            500,
            "Server configuration error"@,
            allowed_origin@,
        ))),
{
    let req = match request {
        None => {
            return ChatStep::Respond(
                plain_response(400, String::from_str("Invalid request body"), allowed_origin),
            );
        },
        Some(req) => req,
    };
    match validate(req) {
        Err(f) => ChatStep::Respond(plain_response(400, failure_message(&f), allowed_origin)),
        Ok(()) => {
            let key = match api_key {
                None => {
                    return ChatStep::Respond(
                        plain_response(
                            500,
                            String::from_str("Server configuration error"),
                            allowed_origin,
                        ),
                    );
                },
                Some(key) => key,
            };
            let prompt = build_system_prompt(&req.animal, &req.intelligence);
            let provider_request = build_provider_request(
                prompt.as_str(),
                req.message.as_str(),
                req.history.as_slice(),
            );
            ChatStep::CallProvider(
                ProviderCall {
                    url: String::from_str(provider_request_url()),
                    api_key: String::from_str(key),
                    request: provider_request,
                },
            )
        },
    }
}

/// What the hosting runtime observed of the provider call: the transport
/// failed outright, or it completed with a status and a body.
#[derive(Debug, Clone, PartialEq, Eq)]
pub enum TransportOutcome {
    Failed,
    Completed(u16, String),
}

/// The end of one chat exchange: the envelope for the client, and the
/// provider failure, if any, kept for the operator's log only.
#[derive(Debug, Clone)]
pub struct ChatConclusion {
    pub response: HttpResponse,
    pub logged_failure: Option<ProviderFailure>,
}

/// Maps what came back from the provider onto the final envelope. Every
/// failure, whatever its detail, surfaces as the same generic 502 body; the
/// detail goes only to `logged_failure`. A usable reply becomes a 200 whose
/// body is the exact reply document.
pub fn finish_chat(outcome: TransportOutcome, allowed_origin: &str) -> (r: ChatConclusion)
    ensures
        r.response.headers.deep_view() == cors_headers_spec(allowed_origin@),
        r.response.status == 200 || r.response.status == 502,
        r.response.status == 502 ==> r.response.body@ == "AI service unavailable"@,
        r.response.status == 200 <==> r.logged_failure is None,
        outcome == TransportOutcome::Failed ==> r.response.status == 502 && r.logged_failure
            == Some(ProviderFailure::Transport),
        outcome matches TransportOutcome::Completed(status, body) ==> (status != 200 ==> (
        r.response.status == 502 && (r.logged_failure matches Some(
            ProviderFailure::BadStatus(s, b),
        ) && s == status && b@ == body@))),
        outcome matches TransportOutcome::Completed(status, body) ==> (status == 200 ==> ((
        r.response.status == 502 && r.logged_failure == Some(ProviderFailure::NoContent)) || (
        r.response.status == 200 && r.logged_failure is None && (exists|
            env: ProviderEnvelope,
            text: Seq<char>,
        |
            reply_text_spec(env) == Some(text) && r.response.body@
                == #[trigger] chat_reply_json_of(text, tokens_spec(env)))))),
{
    match outcome {
        TransportOutcome::Failed => ChatConclusion {
            response: plain_response(
                502,
                String::from_str("AI service unavailable"),
                allowed_origin,
            ),
            logged_failure: Some(ProviderFailure::Transport),
        },
        TransportOutcome::Completed(status, body) => {
            match handle_provider_response(status, body.as_str()) {
                Ok(rep) => {
                    let encoded = encode_chat_response(&rep);
                    ChatConclusion {
                        response: plain_response(200, encoded, allowed_origin),
                        logged_failure: None,
                    }
                },
                Err(f) => ChatConclusion {
                    response: plain_response(
                        502,
                        String::from_str("AI service unavailable"),
                        allowed_origin,
                    ),
                    logged_failure: Some(f),
                },
            }
        },
    }
}

} // verus!
