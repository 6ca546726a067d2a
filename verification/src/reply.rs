//! Normalization of the provider's answer.
//!
//! A non-200 status is surfaced as `BadStatus` with its detail kept for
//! operator logs. A 200 body is read into an explicit envelope — an optional
//! candidate list, each candidate an ordered list of text parts, plus an
//! optional token total — and the reply text is the first part of the first
//! candidate; anything short of that is the single terminal outcome
//! `NoContent`.

use vstd::prelude::*;

use crate::jsonval::json_as_array;
use crate::jsonval::json_as_str;
use crate::jsonval::json_as_u64;
use crate::jsonval::json_member;
use crate::jsonval::parse_json;
use crate::model::ChatResponse;
use vstd::string::StringExecFns;

verus! {

/// Why a provider call yielded no reply. The carried detail is for operator
/// diagnostics; clients only ever see a generic message.
#[derive(Debug, Clone, PartialEq, Eq)]
pub enum ProviderFailure {
    /// The transport failed before any status was read (DNS, TLS, timeout).
    Transport,
    /// The provider answered with a non-200 status; carries the status and
    /// the body text.
    BadStatus(u16, String),
    /// The provider answered 200 but the body held no usable reply text.
    NoContent,
}

/// One candidate of the provider envelope: its ordered text parts.
#[derive(Debug, Clone, PartialEq, Eq)]
pub struct ProviderCandidate {
    pub parts: Vec<String>,
}

/// The provider's 200-response envelope, reduced to what the pipeline reads:
/// the candidates, if any, and the optional total token count.
#[derive(Debug, Clone, PartialEq, Eq)]
pub struct ProviderEnvelope {
    pub candidates: Option<Vec<ProviderCandidate>>,
    pub usage_total: Option<u64>,
}

/// The reply text of an envelope: the first part of the first candidate, if
/// both exist.
pub open spec fn reply_text_spec(env: ProviderEnvelope) -> Option<Seq<char>> {
    match env.candidates {
        Some(cs) => if cs@.len() > 0 && cs@[0].parts@.len() > 0 {
            Some(cs@[0].parts@[0]@)
        } else {
            None
        },
        None => None,
    }
}

/// The token count handed to the client: the envelope's total where present
/// and small enough, `None` otherwise.
pub open spec fn tokens_spec(env: ProviderEnvelope) -> Option<u32> {
    match env.usage_total {
        Some(t) => if t <= u32::MAX {
            Some(t as u32)
        } else {
            None
        },
        None => None,
    }
}

/// Extracts the client reply from an envelope: the first part of the first
/// candidate, or `NoContent` when either is missing.
pub fn extract_reply(env: &ProviderEnvelope) -> (r: Result<ChatResponse, ProviderFailure>)
    ensures
        r is Ok <==> reply_text_spec(*env) is Some,
        r matches Ok(rep) ==> Some(rep.response@) == reply_text_spec(*env) && rep.tokens_used
            == tokens_spec(*env),
        r matches Err(f) ==> f == ProviderFailure::NoContent,
{
    let tokens_used: Option<u32> = match env.usage_total {
        Some(t) => if t <= u32::MAX as u64 {
            Some(t as u32)
        } else {
            None
        },
        None => None,
    };
    match &env.candidates {
        Some(cs) => {
            if cs.len() > 0 {
                let first = &cs[0];
                if first.parts.len() > 0 {
                    Ok(ChatResponse { response: first.parts[0].clone(), tokens_used })
                } else {
                    Err(ProviderFailure::NoContent)
                }
            } else {
                Err(ProviderFailure::NoContent)
            }
        },
        None => Err(ProviderFailure::NoContent),
    }
}

/// Reads a parsed provider document into the envelope. `None` when the
/// document does not have the envelope's shape. A missing candidate list or
/// missing usage block is fine (the fields are optional); a present field of
/// the wrong shape is not. A parsed document is opaque, so no contract can
/// tie the outcome to it; what each outcome then yields is pinned by
/// `extract_reply`.
fn read_envelope(v: &serde_json::Value) -> Option<ProviderEnvelope> {
    let candidates: Option<Vec<ProviderCandidate>> = match json_member(v, "candidates") {
        None => None,
        Some(cv) => {
            let arr = match json_as_array(cv) {
                Some(a) => a,
                None => {
                    return None;
                },
            };
            let mut cs: Vec<ProviderCandidate> = Vec::new();
            let n = arr.len();
            for i in 0..n
                invariant
                    n == arr@.len(),
            {
                let content = match json_member(&arr[i], "content") {
                    Some(c) => c,
                    None => {
                        return None;
                    },
                };
                let parts_value = match json_member(content, "parts") {
                    Some(p) => p,
                    None => {
                        return None;
                    },
                };
                let parts_arr = match json_as_array(parts_value) {
                    Some(a) => a,
                    None => {
                        return None;
                    },
                };
                let mut parts: Vec<String> = Vec::new();
                let m = parts_arr.len();
                for j in 0..m
                    invariant
                        m == parts_arr@.len(),
                {
                    let text_value = match json_member(&parts_arr[j], "text") {
                        Some(t) => t,
                        None => {
                            return None;
                        },
                    };
                    let text = match json_as_str(text_value) {
                        Some(s) => s,
                        None => {
                            return None;
                        },
                    };
                    parts.push(String::from_str(text));
                }
                cs.push(ProviderCandidate { parts });
            }
            Some(cs)
        },
    };
    let usage_total: Option<u64> = match json_member(v, "usageMetadata") {
        None => None,
        Some(u) => match json_member(u, "totalTokenCount") {
            None => None,
            Some(t) => json_as_u64(t),
        },
    };
    Some(ProviderEnvelope { candidates, usage_total })
}

/// Maps one completed provider exchange onto the client reply or a failure:
/// a non-200 status is `BadStatus` with its detail, and a 200 body yields
/// the envelope's reply text or `NoContent` (also when the body is not even
/// the expected document). `Transport` never originates here. A 200 success
/// is always the reply of the envelope the body was read as, per
/// `reply_text_spec` and `tokens_spec`.
pub fn handle_provider_response(status: u16, body: &str) -> (r: Result<
    ChatResponse,
    ProviderFailure,
>)
    ensures
        (status != 200) <==> r matches Err(ProviderFailure::BadStatus(_, _)),
        r matches Err(ProviderFailure::BadStatus(s, b)) ==> s == status && b@ == body@,
        r matches Ok(rep) ==> status == 200,
        !(r matches Err(ProviderFailure::Transport)),
        status == 200 ==> (r == Err::<ChatResponse, ProviderFailure>(ProviderFailure::NoContent)
            || (r matches Ok(rep) && (exists|env: ProviderEnvelope|
            #[trigger] reply_text_spec(env) == Some(rep.response@) && rep.tokens_used
                == tokens_spec(env)))),
{
    if status != 200 {
        return Err(ProviderFailure::BadStatus(status, String::from_str(body)));
    }
    match parse_json(body) {
        None => Err(ProviderFailure::NoContent),
        Some(v) => match read_envelope(&v) {
            None => Err(ProviderFailure::NoContent),
            Some(env) => extract_reply(&env),
        },
    }
}

} // verus!
