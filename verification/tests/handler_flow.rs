use animal_chat::handler::cors_response;
use animal_chat::handler::finish_chat;
use animal_chat::handler::get_allowed_origin;
use animal_chat::handler::handle_chat;
use animal_chat::handler::handle_health;
use animal_chat::handler::handle_preflight;
use animal_chat::handler::ChatStep;
use animal_chat::handler::HttpResponse;
use animal_chat::handler::TransportOutcome;
use animal_chat::model::AnimalType;
use animal_chat::model::ChatRequest;
use animal_chat::model::IntelligenceLevel;
use animal_chat::prompts::build_system_prompt;
use animal_chat::provider::ProviderRole;
use animal_chat::reply::ProviderFailure;
use animal_chat::wire::encode_request;

fn header<'a>(r: &'a HttpResponse, name: &str) -> Option<&'a str> {
    r.headers
        .iter()
        .find(|(n, _)| n == name)
        .map(|(_, v)| v.as_str())
}

fn request(message: &str) -> ChatRequest {
    ChatRequest {
        message: message.to_string(),
        animal: AnimalType::Cat,
        intelligence: IntelligenceLevel::Medium,
        history: vec![],
    }
}

fn assert_standard_headers(r: &HttpResponse, origin: &str) {
    assert_eq!(r.headers.len(), 6);
    assert_eq!(header(r, "Access-Control-Allow-Origin"), Some(origin));
    assert_eq!(header(r, "Access-Control-Allow-Methods"), Some("GET, POST, OPTIONS"));
    assert_eq!(header(r, "Access-Control-Allow-Headers"), Some("Content-Type"));
    assert_eq!(header(r, "Access-Control-Max-Age"), Some("86400"));
    assert_eq!(header(r, "X-Content-Type-Options"), Some("nosniff"));
    assert_eq!(header(r, "Cache-Control"), Some("no-store"));
}

#[test]
fn valid_request_prepares_the_provider_call() {
    // The happy path up to the network: validation passes, the composed
    // cat+medium prompt rides as the system instruction, and the contents are
    // exactly one user entry with the message.
    let step = handle_chat(Some(&request("hola")), Some("test-key"), "*");
    match step {
        ChatStep::CallProvider(call) => {
            assert_eq!(
                call.url,
                "https://generativelanguage.googleapis.com/v1beta/models/gemini-2.5-flash-lite:generateContent"
            );
            assert_eq!(call.api_key, "test-key");
            assert_eq!(
                call.request.system_instruction,
                build_system_prompt(&AnimalType::Cat, &IntelligenceLevel::Medium)
            );
            assert_eq!(call.request.contents.len(), 1);
            assert_eq!(call.request.contents[0].role, ProviderRole::User);
            assert_eq!(call.request.contents[0].text, "hola");
            // The credential is in neither the URL nor the encoded document.
            let body = encode_request(&call.request);
            assert!(!call.url.contains("test-key"));
            assert!(!body.contains("test-key"));
        },
        ChatStep::Respond(r) => panic!("expected a provider call, got status {}", r.status),
    }
}

#[test]
fn completed_call_becomes_the_client_reply() {
    let body = "{\"candidates\":[{\"content\":{\"parts\":[{\"text\":\"Miau, humano\"}]}}],\"usageMetadata\":{\"totalTokenCount\":9}}";
    let done = finish_chat(TransportOutcome::Completed(200, body.to_string()), "*");
    assert_eq!(done.response.status, 200);
    assert_eq!(
        done.response.body,
        "{\"response\":\"Miau, humano\",\"tokens_used\":9}"
    );
    assert!(done.logged_failure.is_none());
    assert_standard_headers(&done.response, "*");
}

#[test]
fn empty_message_answers_400_without_any_call() {
    // An invalid message short-circuits: the step is already a response, so
    // no provider call is ever prepared, let alone made.
    let step = handle_chat(Some(&request("")), Some("test-key"), "*");
    match step {
        ChatStep::Respond(r) => {
            assert_eq!(r.status, 400);
            assert_eq!(r.body, "Message cannot be empty");
            assert_standard_headers(&r, "*");
        },
        ChatStep::CallProvider(_) => panic!("an invalid request must not reach the provider"),
    }
}

#[test]
fn unreadable_body_answers_400() {
    let step = handle_chat(None, Some("test-key"), "*");
    match step {
        ChatStep::Respond(r) => {
            assert_eq!(r.status, 400);
            assert_eq!(r.body, "Invalid request body");
        },
        ChatStep::CallProvider(_) => panic!("no request to send"),
    }
}

#[test]
fn missing_credential_answers_500() {
    let step = handle_chat(Some(&request("hola")), None, "*");
    match step {
        ChatStep::Respond(r) => {
            assert_eq!(r.status, 500);
            assert_eq!(r.body, "Server configuration error");
            assert_standard_headers(&r, "*");
        },
        ChatStep::CallProvider(_) => panic!("no credential, no call"),
    }
}

#[test]
fn upstream_503_surfaces_as_generic_502() {
    // The client sees only the generic body; the 503 detail stays in the
    // value kept for the operator's log.
    let done = finish_chat(
        TransportOutcome::Completed(503, "upstream overloaded".to_string()),
        "*",
    );
    assert_eq!(done.response.status, 502);
    assert_eq!(done.response.body, "AI service unavailable");
    assert!(!done.response.body.contains("503"));
    assert!(!done.response.body.contains("upstream overloaded"));
    assert_eq!(
        done.logged_failure,
        Some(ProviderFailure::BadStatus(503, "upstream overloaded".to_string()))
    );
    assert_standard_headers(&done.response, "*");
}

#[test]
fn transport_failure_surfaces_as_generic_502() {
    let done = finish_chat(TransportOutcome::Failed, "https://example.test");
    assert_eq!(done.response.status, 502);
    assert_eq!(done.response.body, "AI service unavailable");
    assert_eq!(done.logged_failure, Some(ProviderFailure::Transport));
    assert_standard_headers(&done.response, "https://example.test");
}

#[test]
fn preflight_has_no_body_and_all_headers() {
    let r = handle_preflight("https://example.test");
    assert_eq!(r.status, 200);
    assert!(r.body.is_empty());
    assert_standard_headers(&r, "https://example.test");
}

#[test]
fn health_answers_fixed_payload() {
    let r = handle_health("*");
    assert_eq!(r.status, 200);
    assert_eq!(r.body, "{\"status\":\"ok\"}");
    assert_standard_headers(&r, "*");
}

#[test]
fn origin_defaults_to_wildcard() {
    assert_eq!(get_allowed_origin(None), "*");
    let configured = "https://example.test".to_string();
    assert_eq!(get_allowed_origin(Some(&configured)), "https://example.test");
}

#[test]
fn header_wrapping_keeps_existing_headers() {
    let bare = HttpResponse {
        status: 204,
        body: String::new(),
        headers: vec![("X-Request-Id".to_string(), "abc".to_string())],
    };
    let wrapped = cors_response(bare, "*");
    assert_eq!(wrapped.status, 204);
    assert_eq!(wrapped.headers.len(), 7);
    assert_eq!(header(&wrapped, "X-Request-Id"), Some("abc"));
    assert_eq!(header(&wrapped, "Cache-Control"), Some("no-store"));
}

#[test]
fn header_wrapping_is_idempotent() {
    let bare = HttpResponse {
        status: 200,
        body: "x".to_string(),
        headers: vec![("X-Request-Id".to_string(), "abc".to_string())],
    };
    let once = cors_response(bare, "*");
    let twice = cors_response(once.clone(), "*");
    assert_eq!(twice.headers, once.headers);
    assert_eq!(twice.status, once.status);
    assert_eq!(twice.body, once.body);
}

#[test]
fn header_rewrapping_replaces_the_origin() {
    let bare = HttpResponse { status: 200, body: String::new(), headers: vec![] };
    let first = cors_response(bare, "*");
    let second = cors_response(first, "https://example.test");
    // Still exactly one block: the old managed headers were removed.
    assert_standard_headers(&second, "https://example.test");
}
