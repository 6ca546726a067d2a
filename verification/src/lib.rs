//! Core of an animal-persona chat service.
//!
//! The library holds the request-validation and prompt-translation pipeline:
//! it checks an inbound conversation turn against the size and shape limits,
//! derives a system prompt from the persona and capability selectors,
//! translates the conversation into the provider's wire format, and maps the
//! provider's reply or failure back onto a stable client-facing HTTP contract.
//! The hosting runtime (routing, the actual network transport) stays outside;
//! it drives the pipeline through `handler::handle_chat` and
//! `handler::finish_chat` and performs the single outbound call itself.

pub mod config;
pub mod handler;
pub mod jsonval;
pub mod model;
pub mod prompts;
pub mod provider;
pub mod reply;
pub mod text;
pub mod validate;
pub mod wire;

pub use model::AnimalType;
pub use model::ChatMessage;
pub use model::ChatRequest;
pub use model::ChatResponse;
pub use model::ChatSession;
pub use model::IntelligenceLevel;
pub use model::Language;
pub use model::Role;
