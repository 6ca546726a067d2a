use animal_chat::model::AnimalType;
use animal_chat::model::ChatMessage;
use animal_chat::model::ChatRequest;
use animal_chat::model::IntelligenceLevel;
use animal_chat::model::Role;
use animal_chat::validate::failure_message;
use animal_chat::validate::validate;
use animal_chat::validate::validate_history;
use animal_chat::validate::ValidationFailure;

fn request(message: &str, history: Vec<ChatMessage>) -> ChatRequest {
    ChatRequest {
        message: message.to_string(),
        animal: AnimalType::Cat,
        intelligence: IntelligenceLevel::Medium,
        history,
    }
}

fn turn(role: Role, content: &str) -> ChatMessage {
    ChatMessage { role, content: content.to_string() }
}

fn alternating(n: usize) -> Vec<ChatMessage> {
    let mut h: Vec<ChatMessage> = Vec::new();
    for i in 0..n {
        let role = if i % 2 == 0 { Role::User } else { Role::Assistant };
        h.push(turn(role, "ok"));
    }
    h
}

#[test]
fn empty_message_is_rejected() {
    assert_eq!(
        validate(&request("", vec![])),
        Err(ValidationFailure::EmptyMessage)
    );
    assert_eq!(
        validate(&request("   \t\n  ", vec![])),
        Err(ValidationFailure::EmptyMessage)
    );
    assert_eq!(validate(&request("hola", vec![])), Ok(()));
}

#[test]
fn unicode_whitespace_counts_as_blank() {
    // Non-breaking space, line separator, ideographic space: all trimmed away
    // by `str::trim`, so a message of nothing else is blank.
    assert_eq!(
        validate(&request("\u{a0}\u{a0}", vec![])),
        Err(ValidationFailure::EmptyMessage)
    );
    assert_eq!(
        validate(&request(" \u{2028}\u{3000}\u{2003} ", vec![])),
        Err(ValidationFailure::EmptyMessage)
    );
    // A single visible character makes it non-blank.
    assert_eq!(validate(&request("\u{a0}x\u{a0}", vec![])), Ok(()));
}

#[test]
fn message_length_boundary() {
    let at_limit = "a".repeat(4000);
    assert_eq!(validate(&request(&at_limit, vec![])), Ok(()));
    let over_limit = "a".repeat(4001);
    assert_eq!(
        validate(&request(&over_limit, vec![])),
        Err(ValidationFailure::MessageTooLong)
    );
}

#[test]
fn history_count_boundary() {
    assert_eq!(validate(&request("hola", alternating(50))), Ok(()));
    assert_eq!(
        validate(&request("hola", alternating(51))),
        Err(ValidationFailure::HistoryTooLong)
    );
}

#[test]
fn history_entry_length_boundary() {
    let fits = "b".repeat(8000);
    assert_eq!(
        validate(&request("hola", vec![turn(Role::User, &fits)])),
        Ok(())
    );
    let too_long = "b".repeat(8001);
    assert_eq!(
        validate(&request("hola", vec![turn(Role::User, &too_long)])),
        Err(ValidationFailure::HistoryEntryTooLong(0))
    );
    // The offending entry is reported even when the entries around it are fine.
    assert_eq!(
        validate(&request(
            "hola",
            vec![
                turn(Role::User, "hi"),
                turn(Role::Assistant, &too_long),
                turn(Role::User, "again"),
            ]
        )),
        Err(ValidationFailure::HistoryEntryTooLong(1))
    );
}

#[test]
fn history_roles_must_alternate() {
    assert_eq!(
        validate(&request(
            "hola",
            vec![turn(Role::User, "a"), turn(Role::User, "b")]
        )),
        Err(ValidationFailure::HistoryRoleMismatch)
    );
    assert_eq!(
        validate(&request(
            "hola",
            vec![
                turn(Role::User, "a"),
                turn(Role::Assistant, "b"),
                turn(Role::User, "c"),
            ]
        )),
        Ok(())
    );
    // A history that starts with the responder is rejected too.
    assert_eq!(
        validate(&request("hola", vec![turn(Role::Assistant, "a")])),
        Err(ValidationFailure::HistoryRoleMismatch)
    );
}

#[test]
fn entry_length_is_checked_before_alternation() {
    // Both rules are violated; the per-entry length rule is checked first
    // across the whole history.
    let too_long = "c".repeat(8001);
    assert_eq!(
        validate_history(&[turn(Role::Assistant, "a"), turn(Role::Assistant, &too_long)]),
        Err(ValidationFailure::HistoryEntryTooLong(1))
    );
}

#[test]
fn failure_messages_are_exact() {
    assert_eq!(
        failure_message(&ValidationFailure::EmptyMessage),
        "Message cannot be empty"
    );
    assert_eq!(
        failure_message(&ValidationFailure::MessageTooLong),
        "Message exceeds maximum length of 4000 characters"
    );
    assert_eq!(
        failure_message(&ValidationFailure::HistoryTooLong),
        "History exceeds maximum of 50 messages"
    );
    assert_eq!(
        failure_message(&ValidationFailure::HistoryEntryTooLong(17)),
        "History message 17 exceeds maximum length of 8000 characters"
    );
    assert_eq!(
        failure_message(&ValidationFailure::HistoryRoleMismatch),
        "Invalid history structure: roles must alternate User/Assistant starting with User"
    );
}
