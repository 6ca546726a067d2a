//! Structural and size checks on an inbound conversation turn.
//!
//! The rules run in a fixed order and the first violation wins: the message
//! must not be blank, the message must fit the length limit, the history must
//! fit the entry-count limit, every history entry must fit its own length
//! limit, and the history roles must alternate starting with the requester.
//! This is the only place the limits are enforced; the provider call never
//! sees unvalidated input. Lengths are counted in characters.

use vstd::prelude::*;

use crate::model::ChatMessage;
use crate::model::ChatRequest;
use crate::model::Role;
use crate::text::decimal_rep;
use crate::text::u64_to_string;
use vstd::string::StrSliceExecFns;
use vstd::string::StringExecFns;

verus! {

/// Longest accepted message, in characters.
pub const MAX_MESSAGE_LENGTH: usize = 4000;

/// Most history entries accepted per request.
pub const MAX_HISTORY_MESSAGES: usize = 50;

/// Longest accepted history entry content, in characters.
pub const MAX_HISTORY_CONTENT_LENGTH: usize = 8000;

/// Why a request was turned away. Each variant carries enough to phrase a
/// precise client message and nothing sensitive.
#[derive(Debug, Clone, Copy, PartialEq, Eq, Structural)]
pub enum ValidationFailure {
    /// The message is empty or all whitespace.
    EmptyMessage,
    /// The message is longer than `MAX_MESSAGE_LENGTH`.
    MessageTooLong,
    /// The history holds more than `MAX_HISTORY_MESSAGES` entries.
    HistoryTooLong,
    /// The history entry at this index is longer than
    /// `MAX_HISTORY_CONTENT_LENGTH`.
    HistoryEntryTooLong(usize),
    /// The history roles do not alternate requester/responder starting with
    /// the requester.
    HistoryRoleMismatch,
}

/// The whitespace characters that a trimmed message may not consist of: the
/// Unicode White_Space set (the set `str::trim` strips).
pub open spec fn is_space_char(c: char) -> bool {
    ||| c == ' '
    ||| c == '\t'
    ||| c == '\n'
    ||| c == '\r'
    ||| c == '\u{b}'
    ||| c == '\u{c}'
    ||| c == '\u{85}'
    ||| c == '\u{a0}'
    ||| c == '\u{1680}'
    ||| (0x2000 <= c as u32 && c as u32 <= 0x200a)
    ||| c == '\u{2028}'
    ||| c == '\u{2029}'
    ||| c == '\u{202f}'
    ||| c == '\u{205f}'
    ||| c == '\u{3000}'
}

/// A message is blank when every character is whitespace (so also when it is
/// empty).
pub open spec fn is_blank(s: Seq<char>) -> bool {
    forall|i: int| 0 <= i < s.len() ==> is_space_char(s[i])
}

/// The speaker a well-formed history has at index `i`: the requester on even
/// indices, the responder on odd ones.
pub open spec fn expected_role(i: int) -> Role {
    if i % 2 == 0 {
        Role::User
    } else {
        Role::Assistant
    }
}

/// The history starts with the requester and strictly alternates.
pub open spec fn roles_alternate(h: Seq<ChatMessage>) -> bool {
    forall|i: int| 0 <= i < h.len() ==> h[i].role == expected_role(i)
}

/// The entry at index `i` fits the per-entry length limit.
pub open spec fn entry_fits(h: Seq<ChatMessage>, i: int) -> bool {
    h[i].content@.len() <= MAX_HISTORY_CONTENT_LENGTH
}

/// Every history entry fits the per-entry length limit.
pub open spec fn all_entries_fit(h: Seq<ChatMessage>) -> bool {
    forall|i: int| 0 <= i < h.len() ==> entry_fits(h, i)
}

/// A request that passes every validation rule.
pub open spec fn valid_request(r: ChatRequest) -> bool {
    &&& !is_blank(r.message@)
    &&& r.message@.len() <= MAX_MESSAGE_LENGTH
    &&& r.history@.len() <= MAX_HISTORY_MESSAGES
    &&& all_entries_fit(r.history@)
    &&& roles_alternate(r.history@)
}

fn is_space(c: char) -> (r: bool)
    ensures
        r == is_space_char(c),
{
    c == ' ' || c == '\t' || c == '\n' || c == '\r' || c == '\u{b}' || c == '\u{c}' || c == '\u{85}'
        || c == '\u{a0}' || c == '\u{1680}' || (0x2000 <= c as u32 && c as u32 <= 0x200a) || c
        == '\u{2028}' || c == '\u{2029}' || c == '\u{202f}' || c == '\u{205f}' || c == '\u{3000}'
}

/// Whether the message is empty or all whitespace.
pub fn message_is_blank(s: &str) -> (r: bool)
    ensures
        r == is_blank(s@),
{
    let n = s.unicode_len();
    for i in 0..n
        invariant
            n == s@.len(),
            forall|j: int| 0 <= j < i ==> is_space_char(s@[j]),
    {
        if !is_space(s.get_char(i)) {
            return false;
        }
    }
    true
}

/// Checks the history body: first that every entry fits the per-entry length
/// limit (the lowest offending index wins), then that the roles alternate.
pub fn validate_history(history: &[ChatMessage]) -> (r: Result<(), ValidationFailure>)
    ensures
        r is Ok <==> all_entries_fit(history@) && roles_alternate(history@),
        r matches Err(ValidationFailure::HistoryEntryTooLong(i)) ==> i < history@.len()
            && !entry_fits(history@, i as int) && (forall|j: int|
            0 <= j < i ==> entry_fits(history@, j)),
        !all_entries_fit(history@) ==> r matches Err(ValidationFailure::HistoryEntryTooLong(_)),
        (r == Err::<(), ValidationFailure>(ValidationFailure::HistoryRoleMismatch)) <==> (
        all_entries_fit(history@) && !roles_alternate(history@)),
        r matches Err(f) ==> (f matches ValidationFailure::HistoryEntryTooLong(_) || f
            == ValidationFailure::HistoryRoleMismatch),
{
    let n = history.len();
    for i in 0..n
        invariant
            n == history@.len(),
            forall|j: int| 0 <= j < i ==> entry_fits(history@, j),
    {
        if history[i].content.as_str().unicode_len() > MAX_HISTORY_CONTENT_LENGTH {
            proof {
                assert(!entry_fits(history@, i as int));
            }
            return Err(ValidationFailure::HistoryEntryTooLong(i));
        }
        proof {
            assert(entry_fits(history@, i as int));
        }
    }
    for i in 0..n
        invariant
            n == history@.len(),
            all_entries_fit(history@),
            forall|j: int| 0 <= j < i ==> history@[j].role == expected_role(j),
    {
        let expected = if i % 2 == 0 {
            Role::User
        } else {
            Role::Assistant
        };
        if history[i].role != expected {
            proof {
                assert(history@[i as int].role != expected_role(i as int));
            }
            return Err(ValidationFailure::HistoryRoleMismatch);
        }
        proof {
            assert(history@[i as int].role == expected_role(i as int));
        }
    }
    Ok(())
}

/// Runs every validation rule on the request, in order, first violation wins.
pub fn validate(request: &ChatRequest) -> (r: Result<(), ValidationFailure>)
    ensures
        r is Ok <==> valid_request(*request),
        (r == Err::<(), ValidationFailure>(ValidationFailure::EmptyMessage)) <==> is_blank(
            request.message@,
        ),
        (r == Err::<(), ValidationFailure>(ValidationFailure::MessageTooLong)) <==> (!is_blank(
            request.message@,
        ) && request.message@.len() > MAX_MESSAGE_LENGTH),
        (r == Err::<(), ValidationFailure>(ValidationFailure::HistoryTooLong)) <==> (!is_blank(
            request.message@,
        ) && request.message@.len() <= MAX_MESSAGE_LENGTH && request.history@.len()
            > MAX_HISTORY_MESSAGES),
        r matches Err(ValidationFailure::HistoryEntryTooLong(i)) ==> (!is_blank(request.message@)
            && request.message@.len() <= MAX_MESSAGE_LENGTH && request.history@.len()
            <= MAX_HISTORY_MESSAGES && i < request.history@.len() && !entry_fits(
            request.history@,
            i as int,
        ) && (forall|j: int| 0 <= j < i ==> entry_fits(request.history@, j))),
        (!is_blank(request.message@) && request.message@.len() <= MAX_MESSAGE_LENGTH
            && request.history@.len() <= MAX_HISTORY_MESSAGES && !all_entries_fit(
            request.history@,
        )) ==> r matches Err(ValidationFailure::HistoryEntryTooLong(_)),
        (r == Err::<(), ValidationFailure>(ValidationFailure::HistoryRoleMismatch)) <==> (!is_blank(
            request.message@,
        ) && request.message@.len() <= MAX_MESSAGE_LENGTH && request.history@.len()
            <= MAX_HISTORY_MESSAGES && all_entries_fit(request.history@) && !roles_alternate(
            request.history@,
        )),
{
    if message_is_blank(request.message.as_str()) {
        return Err(ValidationFailure::EmptyMessage);
    }
    if request.message.as_str().unicode_len() > MAX_MESSAGE_LENGTH {
        return Err(ValidationFailure::MessageTooLong);
    }
    if request.history.len() > MAX_HISTORY_MESSAGES {
        return Err(ValidationFailure::HistoryTooLong);
    }
    validate_history(request.history.as_slice())
}

/// The human-readable reason for each validation failure.
pub open spec fn failure_message_spec(f: ValidationFailure) -> Seq<char> {
    match f {
        ValidationFailure::EmptyMessage => "Message cannot be empty"@,
        ValidationFailure::MessageTooLong => "Message exceeds maximum length of 4000 characters"@,
        ValidationFailure::HistoryTooLong => "History exceeds maximum of 50 messages"@,
        ValidationFailure::HistoryEntryTooLong(i) => "History message "@ + decimal_rep(i as nat)
            + " exceeds maximum length of 8000 characters"@,
        ValidationFailure::HistoryRoleMismatch => "Invalid history structure: roles must alternate User/Assistant starting with User"@,
    }
}

/// Renders the client-facing reason text for a validation failure.
pub fn failure_message(f: &ValidationFailure) -> (r: String)
    ensures
        r@ == failure_message_spec(*f),
{
    match f {
        ValidationFailure::EmptyMessage => String::from_str("Message cannot be empty"),
        ValidationFailure::MessageTooLong => String::from_str(
            "Message exceeds maximum length of 4000 characters",
        ),
        ValidationFailure::HistoryTooLong => String::from_str(
            "History exceeds maximum of 50 messages",
        ),
        ValidationFailure::HistoryEntryTooLong(i) => {
            let mut s = String::from_str("History message ");
            let num = u64_to_string(*i as u64);
            s.append(num.as_str());
            s.append(" exceeds maximum length of 8000 characters");
            s
        },
        ValidationFailure::HistoryRoleMismatch => String::from_str(
            "Invalid history structure: roles must alternate User/Assistant starting with User",
        ),
    }
}

} // verus!
