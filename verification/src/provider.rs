//! Translation of the internal conversation model into the provider's
//! request shape.
//!
//! The content list sent to the provider is the history, each turn mapped to
//! the provider's role names (requester to "user", responder to "model") in
//! the order supplied, followed by exactly one more "user" entry holding the
//! current message. The composed system prompt rides along as an unlabeled
//! system-instruction block. The API credential travels in a request header,
//! so it appears in neither the URL nor the request document.

use vstd::prelude::*;

use crate::model::ChatMessage;
use crate::model::Role;
use vstd::string::StringExecFns;

verus! {

/// A speaker as the provider names it.
#[derive(Debug, Clone, Copy, PartialEq, Eq, Structural)]
pub enum ProviderRole {
    User,
    Model,
}

/// The provider's wire name for each role.
pub open spec fn provider_role_tag(r: ProviderRole) -> Seq<char> {
    match r {
        ProviderRole::User => "user"@,
        ProviderRole::Model => "model"@,
    }
}

/// How internal speakers map onto provider roles.
pub open spec fn provider_role_spec(r: Role) -> ProviderRole {
    match r {
        Role::User => ProviderRole::User,
        Role::Assistant => ProviderRole::Model,
    }
}

/// One content entry of a provider request: a role and one text part.
#[derive(Debug, Clone, PartialEq, Eq)]
pub struct ProviderMessage {
    pub role: ProviderRole,
    pub text: String,
}

/// Everything that varies per provider call: the system instruction and the
/// content entries. The generation parameters are fixed and live in the wire
/// encoder.
#[derive(Debug, Clone)]
pub struct ProviderRequest {
    pub system_instruction: String,
    pub contents: Vec<ProviderMessage>,
}

/// The provider's wire name for a role.
pub fn role_wire_tag(r: &ProviderRole) -> (t: &'static str)
    ensures
        t@ == provider_role_tag(*r),
{
    match r {
        ProviderRole::User => "user",
        ProviderRole::Model => "model",
    }
}

/// Maps an internal speaker onto the provider's role.
pub fn provider_role_of(r: &Role) -> (p: ProviderRole)
    ensures
        p == provider_role_spec(*r),
{
    match r {
        Role::User => ProviderRole::User,
        Role::Assistant => ProviderRole::Model,
    }
}

/// Builds the content list: the history in order, mapped to provider roles,
/// then exactly one more "user" entry holding the current message.
pub fn build_contents(history: &[ChatMessage], message: &str) -> (r: Vec<ProviderMessage>)
    ensures
        r@.len() == history@.len() + 1,
        forall|i: int|
            0 <= i < history@.len() ==> (#[trigger] r@[i]).role == provider_role_spec(
                history@[i].role,
            ) && r@[i].text@ == history@[i].content@,
        r@[history@.len() as int].role == ProviderRole::User,
        r@[history@.len() as int].text@ == message@,
{
    let n = history.len();
    let mut contents: Vec<ProviderMessage> = Vec::new();
    for i in 0..n
        invariant
            n == history@.len(),
            contents@.len() == i,
            forall|j: int|
                0 <= j < i ==> (#[trigger] contents@[j]).role == provider_role_spec(
                    history@[j].role,
                ) && contents@[j].text@ == history@[j].content@,
    {
        let entry = ProviderMessage {
            role: provider_role_of(&history[i].role),
            text: history[i].content.clone(),
        };
        contents.push(entry);
    }
    contents.push(ProviderMessage { role: ProviderRole::User, text: String::from_str(message) });
    contents
}

/// Assembles the full per-call request: the composed system prompt and the
/// content list for this turn.
pub fn build_provider_request(
    system_prompt: &str,
    user_message: &str,
    history: &[ChatMessage],
) -> (r: ProviderRequest)
    ensures
        r.system_instruction@ == system_prompt@,
        r.contents@.len() == history@.len() + 1,
        forall|i: int|
            0 <= i < history@.len() ==> (#[trigger] r.contents@[i]).role == provider_role_spec(
                history@[i].role,
            ) && r.contents@[i].text@ == history@[i].content@,
        r.contents@[history@.len() as int].role == ProviderRole::User,
        r.contents@[history@.len() as int].text@ == user_message@,
{
    ProviderRequest {
        system_instruction: String::from_str(system_prompt),
        contents: build_contents(history, user_message),
    }
}

/// The fixed endpoint the provider call goes to. The credential is never part
/// of it.
pub fn provider_request_url() -> (r: &'static str)
    ensures
        r@
            == "https://generativelanguage.googleapis.com/v1beta/models/gemini-2.5-flash-lite:generateContent"@,
{
    "https://generativelanguage.googleapis.com/v1beta/models/gemini-2.5-flash-lite:generateContent"
}

} // verus!
