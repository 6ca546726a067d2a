use animal_chat::model::ChatMessage;
use animal_chat::model::ChatResponse;
use animal_chat::model::Role;
use animal_chat::provider::build_contents;
use animal_chat::provider::build_provider_request;
use animal_chat::provider::provider_request_url;
use animal_chat::provider::role_wire_tag;
use animal_chat::provider::ProviderRole;
use animal_chat::wire::encode_chat_response;
use animal_chat::wire::encode_request;
use animal_chat::wire::json_escape;

fn turn(role: Role, content: &str) -> ChatMessage {
    ChatMessage { role, content: content.to_string() }
}

#[test]
fn contents_are_history_then_one_user_entry() {
    let history = vec![
        turn(Role::User, "hola"),
        turn(Role::Assistant, "Miau"),
        turn(Role::User, "¿y el atún?"),
    ];
    let contents = build_contents(&history, "dame consejo");
    assert_eq!(contents.len(), 4);
    assert_eq!(contents[0].role, ProviderRole::User);
    assert_eq!(contents[0].text, "hola");
    assert_eq!(contents[1].role, ProviderRole::Model);
    assert_eq!(contents[1].text, "Miau");
    assert_eq!(contents[2].role, ProviderRole::User);
    assert_eq!(contents[2].text, "¿y el atún?");
    assert_eq!(contents[3].role, ProviderRole::User);
    assert_eq!(contents[3].text, "dame consejo");
}

#[test]
fn empty_history_sends_exactly_the_message() {
    let contents = build_contents(&[], "hola");
    assert_eq!(contents.len(), 1);
    assert_eq!(contents[0].role, ProviderRole::User);
    assert_eq!(contents[0].text, "hola");
}

#[test]
fn role_tags_match_provider_names() {
    assert_eq!(role_wire_tag(&ProviderRole::User), "user");
    assert_eq!(role_wire_tag(&ProviderRole::Model), "model");
}

#[test]
fn request_url_is_fixed() {
    assert_eq!(
        provider_request_url(),
        "https://generativelanguage.googleapis.com/v1beta/models/gemini-2.5-flash-lite:generateContent"
    );
}

#[test]
fn escaping_covers_json_metacharacters() {
    assert_eq!(json_escape("plain"), "plain");
    assert_eq!(json_escape("say \"hi\""), "say \\\"hi\\\"");
    assert_eq!(json_escape("back\\slash"), "back\\\\slash");
    assert_eq!(json_escape("line\nbreak\ttab\rret"), "line\\nbreak\\ttab\\rret");
    assert_eq!(json_escape("\u{8}\u{c}"), "\\b\\f");
    assert_eq!(json_escape("\u{1}\u{1f}"), "\\u0001\\u001f");
    // Characters outside the control range pass through unescaped.
    assert_eq!(json_escape("ñandú 🦆"), "ñandú 🦆");
}

#[test]
fn request_document_is_exact() {
    let history = vec![turn(Role::User, "hola"), turn(Role::Assistant, "Miau")];
    let req = build_provider_request("Sé un gato.", "¿qué?", &history);
    let body = encode_request(&req);
    let mut expected = String::new();
    expected.push_str("{\"system_instruction\":{\"parts\":[{\"text\":\"Sé un gato.\"}]},");
    expected.push_str("\"contents\":[");
    expected.push_str("{\"role\":\"user\",\"parts\":[{\"text\":\"hola\"}]},");
    expected.push_str("{\"role\":\"model\",\"parts\":[{\"text\":\"Miau\"}]},");
    expected.push_str("{\"role\":\"user\",\"parts\":[{\"text\":\"¿qué?\"}]}");
    expected.push_str("],");
    expected.push_str("\"generationConfig\":{\"maxOutputTokens\":1024,\"temperature\":0.9,\"topP\":0.95}}");
    assert_eq!(body, expected);
}

#[test]
fn request_document_parses_back() {
    let history = vec![turn(Role::User, "a \"quoted\" line")];
    let req = build_provider_request("prompt\nwith breaks", "final say", &history);
    let body = encode_request(&req);
    let parsed: serde_json::Value = serde_json::from_str(&body).expect("encoder emits valid JSON");
    assert_eq!(
        parsed["system_instruction"]["parts"][0]["text"].as_str(),
        Some("prompt\nwith breaks")
    );
    let contents = parsed["contents"].as_array().expect("contents is an array");
    assert_eq!(contents.len(), 2);
    assert_eq!(contents[0]["role"].as_str(), Some("user"));
    assert_eq!(contents[0]["parts"][0]["text"].as_str(), Some("a \"quoted\" line"));
    assert_eq!(contents[1]["parts"][0]["text"].as_str(), Some("final say"));
    assert_eq!(parsed["generationConfig"]["maxOutputTokens"].as_u64(), Some(1024));
    assert_eq!(parsed["generationConfig"]["temperature"].as_f64(), Some(0.9));
    assert_eq!(parsed["generationConfig"]["topP"].as_f64(), Some(0.95));
    // The credential never appears in the document.
    assert!(!body.contains("key"));
}

#[test]
fn reply_document_with_and_without_tokens() {
    let with_tokens = ChatResponse { response: "Miau...".to_string(), tokens_used: Some(42) };
    assert_eq!(
        encode_chat_response(&with_tokens),
        "{\"response\":\"Miau...\",\"tokens_used\":42}"
    );
    let without_tokens = ChatResponse { response: "Glub".to_string(), tokens_used: None };
    assert_eq!(
        encode_chat_response(&without_tokens),
        "{\"response\":\"Glub\",\"tokens_used\":null}"
    );
}
