//! The conversation data model: the two persona selectors, the speakers, and
//! the request/response shapes of the chat API.
//!
//! The persona (`AnimalType`) and the capability tier (`IntelligenceLevel`)
//! are closed sets; their lowercase tags are the wire names that the HTTP
//! contract uses for them.

use vstd::prelude::*;

use crate::text::str_eq;
use vstd::string::StringExecFns;

verus! {

// ─── Language ───

/// The display language of the presentation layer.
#[derive(Debug, Clone, Copy, PartialEq, Eq, Structural)]
pub enum Language {
    Es,
    En,
}

impl Language {
    /// Every language, in a fixed order.
    pub fn all() -> (r: Vec<Language>)
        ensures
            r@ == seq![Language::Es, Language::En],
    {
        let mut v: Vec<Language> = Vec::new();
        v.push(Language::Es);
        v.push(Language::En);
        proof {
            assert(v@ =~= seq![Language::Es, Language::En]);
        }
        v
    }

    /// The language's own name.
    pub fn label(&self) -> (r: &'static str)
        ensures
            r@ == language_label_spec(*self),
    {
        match self {
            Language::Es => "Español",
            Language::En => "English",
        }
    }
}

/// What `Language::label` returns for each variant.
pub open spec fn language_label_spec(l: Language) -> Seq<char> {
    match l {
        Language::Es => "Español"@,
        Language::En => "English"@,
    }
}

impl Default for Language {
    fn default() -> (r: Self)
        ensures
            r == Language::Es,
    {
        Language::Es
    }
}

// ─── Animal types ───

/// The persona selector: the animal character the reply should speak as.
#[derive(Debug, Clone, Copy, PartialEq, Eq, Structural)]
pub enum AnimalType {
    Cat,
    Octopus,
    Elephant,
    Chicken,
}

/// The lowercase wire tag of each persona.
pub open spec fn animal_tag_spec(a: AnimalType) -> Seq<char> {
    match a {
        AnimalType::Cat => "cat"@,
        AnimalType::Octopus => "octopus"@,
        AnimalType::Elephant => "elephant"@,
        AnimalType::Chicken => "chicken"@,
    }
}

/// The persona, if any, whose wire tag is `s`.
pub open spec fn animal_from_tag_spec(s: Seq<char>) -> Option<AnimalType> {
    if s == "cat"@ {
        Some(AnimalType::Cat)
    } else if s == "octopus"@ {
        Some(AnimalType::Octopus)
    } else if s == "elephant"@ {
        Some(AnimalType::Elephant)
    } else if s == "chicken"@ {
        Some(AnimalType::Chicken)
    } else {
        None
    }
}

impl AnimalType {
    /// Every persona, in a fixed order.
    pub fn all() -> (r: Vec<AnimalType>)
        ensures
            r@ == seq![
                AnimalType::Cat,
                AnimalType::Octopus,
                AnimalType::Elephant,
                AnimalType::Chicken,
            ],
    {
        let mut v: Vec<AnimalType> = Vec::new();
        v.push(AnimalType::Cat);
        v.push(AnimalType::Octopus);
        v.push(AnimalType::Elephant);
        v.push(AnimalType::Chicken);
        proof {
            assert(v@ =~= seq![
                AnimalType::Cat,
                AnimalType::Octopus,
                AnimalType::Elephant,
                AnimalType::Chicken,
            ]);
        }
        v
    }

    /// The persona's display name in the given language.
    pub fn label(&self, lang: Language) -> (r: &'static str)
        ensures
            r@ == animal_label_spec(*self, lang),
    {
        match (self, lang) {
            (AnimalType::Cat, Language::Es) => "Gato",
            (AnimalType::Cat, Language::En) => "Cat",
            (AnimalType::Octopus, Language::Es) => "Pulpo",
            (AnimalType::Octopus, Language::En) => "Octopus",
            (AnimalType::Elephant, Language::Es) => "Elefante",
            (AnimalType::Elephant, Language::En) => "Elephant",
            (AnimalType::Chicken, Language::Es) => "Gallina",
            (AnimalType::Chicken, Language::En) => "Chicken",
        }
    }

    /// The persona's lowercase wire tag.
    pub fn tag(&self) -> (r: &'static str)
        ensures
            r@ == animal_tag_spec(*self),
    {
        match self {
            AnimalType::Cat => "cat",
            AnimalType::Octopus => "octopus",
            AnimalType::Elephant => "elephant",
            AnimalType::Chicken => "chicken",
        }
    }

    /// Reads a persona back from its lowercase wire tag.
    pub fn from_tag(s: &str) -> (r: Option<AnimalType>)
        ensures
            r == animal_from_tag_spec(s@),
    {
        if str_eq(s, "cat") {
            Some(AnimalType::Cat)
        } else if str_eq(s, "octopus") {
            Some(AnimalType::Octopus)
        } else if str_eq(s, "elephant") {
            Some(AnimalType::Elephant)
        } else if str_eq(s, "chicken") {
            Some(AnimalType::Chicken)
        } else {
            None
        }
    }
}

/// What `AnimalType::label` returns for each pair.
pub open spec fn animal_label_spec(a: AnimalType, l: Language) -> Seq<char> {
    match (a, l) {
        (AnimalType::Cat, Language::Es) => "Gato"@,
        (AnimalType::Cat, Language::En) => "Cat"@,
        (AnimalType::Octopus, Language::Es) => "Pulpo"@,
        (AnimalType::Octopus, Language::En) => "Octopus"@,
        (AnimalType::Elephant, Language::Es) => "Elefante"@,
        (AnimalType::Elephant, Language::En) => "Elephant"@,
        (AnimalType::Chicken, Language::Es) => "Gallina"@,
        (AnimalType::Chicken, Language::En) => "Chicken"@,
    }
}

impl Default for AnimalType {
    fn default() -> (r: Self)
        ensures
            r == AnimalType::Cat,
    {
        AnimalType::Cat
    }
}

/// Each persona's wire tag reads back as that persona.
pub proof fn lemma_animal_tag_round_trip(a: AnimalType)
    ensures
        animal_from_tag_spec(animal_tag_spec(a)) == Some(a),
{
    reveal_strlit("cat");
    reveal_strlit("octopus");
    reveal_strlit("elephant");
    reveal_strlit("chicken");
    assert("cat"@.len() == 3);
    assert("octopus"@.len() == 7);
    assert("elephant"@.len() == 8);
    assert("chicken"@.len() == 7);
    assert("octopus"@[1] == 'c');
    assert("chicken"@[1] == 'h');
    match a {
        AnimalType::Cat => {
            assert(animal_tag_spec(a) == "cat"@);
        },
        AnimalType::Octopus => {
            assert(animal_tag_spec(a) != "cat"@);
        },
        AnimalType::Elephant => {
            assert(animal_tag_spec(a) != "cat"@);
            assert(animal_tag_spec(a) != "octopus"@);
        },
        AnimalType::Chicken => {
            assert(animal_tag_spec(a) != "cat"@);
            assert(animal_tag_spec(a)[1] != "octopus"@[1]);
            assert(animal_tag_spec(a) != "octopus"@);
            assert(animal_tag_spec(a) != "elephant"@);
        },
    }
}

// ─── Intelligence levels ───

/// The capability tier: how articulate the persona should sound.
#[derive(Debug, Clone, Copy, PartialEq, Eq, Structural)]
pub enum IntelligenceLevel {
    High,
    Medium,
    Low,
}

/// The lowercase wire tag of each capability tier.
pub open spec fn intelligence_tag_spec(i: IntelligenceLevel) -> Seq<char> {
    match i {
        IntelligenceLevel::High => "high"@,
        IntelligenceLevel::Medium => "medium"@,
        IntelligenceLevel::Low => "low"@,
    }
}

/// The capability tier, if any, whose wire tag is `s`.
pub open spec fn intelligence_from_tag_spec(s: Seq<char>) -> Option<IntelligenceLevel> {
    if s == "high"@ {
        Some(IntelligenceLevel::High)
    } else if s == "medium"@ {
        Some(IntelligenceLevel::Medium)
    } else if s == "low"@ {
        Some(IntelligenceLevel::Low)
    } else {
        None
    }
}

impl IntelligenceLevel {
    /// Every capability tier, in a fixed order.
    pub fn all() -> (r: Vec<IntelligenceLevel>)
        ensures
            r@ == seq![
                IntelligenceLevel::High,
                IntelligenceLevel::Medium,
                IntelligenceLevel::Low,
            ],
    {
        let mut v: Vec<IntelligenceLevel> = Vec::new();
        v.push(IntelligenceLevel::High);
        v.push(IntelligenceLevel::Medium);
        v.push(IntelligenceLevel::Low);
        proof {
            assert(v@ =~= seq![
                IntelligenceLevel::High,
                IntelligenceLevel::Medium,
                IntelligenceLevel::Low,
            ]);
        }
        v
    }

    /// The tier's display name in the given language.
    pub fn label(&self, lang: Language) -> (r: &'static str)
        ensures
            r@ == intelligence_label_spec(*self, lang),
    {
        match (self, lang) {
            (IntelligenceLevel::High, Language::Es) => "Alta",
            (IntelligenceLevel::High, Language::En) => "High",
            (IntelligenceLevel::Medium, Language::Es) => "Media",
            (IntelligenceLevel::Medium, Language::En) => "Medium",
            (IntelligenceLevel::Low, Language::Es) => "Baja",
            (IntelligenceLevel::Low, Language::En) => "Low",
        }
    }

    /// The tier's lowercase wire tag.
    pub fn tag(&self) -> (r: &'static str)
        ensures
            r@ == intelligence_tag_spec(*self),
    {
        match self {
            IntelligenceLevel::High => "high",
            IntelligenceLevel::Medium => "medium",
            IntelligenceLevel::Low => "low",
        }
    }

    /// Reads a capability tier back from its lowercase wire tag.
    pub fn from_tag(s: &str) -> (r: Option<IntelligenceLevel>)
        ensures
            r == intelligence_from_tag_spec(s@),
    {
        if str_eq(s, "high") {
            Some(IntelligenceLevel::High)
        } else if str_eq(s, "medium") {
            Some(IntelligenceLevel::Medium)
        } else if str_eq(s, "low") {
            Some(IntelligenceLevel::Low)
        } else {
            None
        }
    }
}

/// What `IntelligenceLevel::label` returns for each pair.
pub open spec fn intelligence_label_spec(i: IntelligenceLevel, l: Language) -> Seq<char> {
    match (i, l) {
        (IntelligenceLevel::High, Language::Es) => "Alta"@,
        (IntelligenceLevel::High, Language::En) => "High"@,
        (IntelligenceLevel::Medium, Language::Es) => "Media"@,
        (IntelligenceLevel::Medium, Language::En) => "Medium"@,
        (IntelligenceLevel::Low, Language::Es) => "Baja"@,
        (IntelligenceLevel::Low, Language::En) => "Low"@,
    }
}

impl Default for IntelligenceLevel {
    fn default() -> (r: Self)
        ensures
            r == IntelligenceLevel::Medium,
    {
        IntelligenceLevel::Medium
    }
}

/// Each capability tier's wire tag reads back as that tier.
pub proof fn lemma_intelligence_tag_round_trip(i: IntelligenceLevel)
    ensures
        intelligence_from_tag_spec(intelligence_tag_spec(i)) == Some(i),
{
    reveal_strlit("high");
    reveal_strlit("medium");
    reveal_strlit("low");
    assert("high"@.len() == 4);
    assert("medium"@.len() == 6);
    assert("low"@.len() == 3);
    match i {
        IntelligenceLevel::High => {
            assert(intelligence_tag_spec(i) == "high"@);
        },
        IntelligenceLevel::Medium => {
            assert(intelligence_tag_spec(i) != "high"@);
        },
        IntelligenceLevel::Low => {
            assert(intelligence_tag_spec(i) != "high"@);
            assert(intelligence_tag_spec(i) != "medium"@);
        },
    }
}

// ─── Chat messages ───

/// Who spoke a turn: the requesting user or the persona's reply.
#[derive(Debug, Clone, Copy, PartialEq, Eq, Structural)]
pub enum Role {
    User,
    Assistant,
}

impl Default for Role {
    fn default() -> (r: Self)
        ensures
            r == Role::User,
    {
        Role::User
    }
}

/// One conversation turn, tagged with its speaker.
#[derive(Debug, Clone, PartialEq, Eq)]
pub struct ChatMessage {
    pub role: Role,
    pub content: String,
}

// ─── API contract ───

/// An inbound conversation turn: the new message, the persona selectors, and
/// the full history the caller supplies (the service keeps no session state).
#[derive(Debug, Clone)]
pub struct ChatRequest {
    pub message: String,
    pub animal: AnimalType,
    pub intelligence: IntelligenceLevel,
    pub history: Vec<ChatMessage>,
}

/// The reply handed back to the client on success.
#[derive(Debug, Clone, PartialEq, Eq)]
pub struct ChatResponse {
    pub response: String,
    pub tokens_used: Option<u32>,
}

// ─── Persistence ───

/// One stored conversation of the presentation layer. `created_at` holds the
/// creation time as milliseconds since the Unix epoch.
#[derive(Debug, Clone, PartialEq, Eq)]
pub struct ChatSession {
    pub id: String,
    pub title: String,
    pub animal: AnimalType,
    pub intelligence: IntelligenceLevel,
    pub language: Language,
    pub messages: Vec<ChatMessage>,
    pub created_at: i64,
}

/// The title a fresh conversation starts with, per display language.
pub open spec fn session_title_spec(l: Language) -> Seq<char> {
    match l {
        Language::Es => "Nueva Conversación"@,
        Language::En => "New Conversation"@,
    }
}

/// Relies on uuid's `Uuid::new_v4` and its `Display` impl: a fresh random
/// identifier in the hyphenated form, which is always 36 characters.
#[verifier::external_body]
fn fresh_session_id() -> (r: String)
    ensures
        r@.len() == 36,
{
    uuid::Uuid::new_v4().to_string()
}

/// Relies on chrono's `Utc::now` and `DateTime::timestamp_millis`: the current
/// clock time as milliseconds since the Unix epoch. Nothing can be promised of
/// a clock reading.
#[verifier::external_body]
fn now_unix_millis() -> i64 {
    chrono::Utc::now().timestamp_millis()
}

impl ChatSession {
    /// A fresh, empty conversation with the given selectors, a random
    /// identifier and the clock's current time.
    pub fn new(animal: AnimalType, intelligence: IntelligenceLevel, language: Language) -> (r: Self)
        ensures
            r.animal == animal,
            r.intelligence == intelligence,
            r.language == language,
            r.title@ == session_title_spec(language),
            r.messages@ == Seq::<ChatMessage>::empty(),
            r.id@.len() == 36,
    {
        let title = match language {
            Language::Es => "Nueva Conversación",
            Language::En => "New Conversation",
        };
        let messages: Vec<ChatMessage> = Vec::new();
        proof {
            assert(messages@ =~= Seq::<ChatMessage>::empty());
        }
        ChatSession {
            id: fresh_session_id(),
            title: String::from_str(title),
            animal,
            intelligence,
            language,
            messages,
            created_at: now_unix_millis(),
        }
    }
}

/// Appends `msg` to the first stored conversation whose id is `chat_id` and
/// touches nothing else; a list without that id stays as it was.
pub fn add_message(chats: &mut Vec<ChatSession>, chat_id: &str, msg: ChatMessage)
    ensures
        final(chats)@.len() == old(chats)@.len(),
        (forall|j: int| 0 <= j < old(chats)@.len() ==> (#[trigger] old(chats)@[j].id@) != chat_id@)
            ==> final(chats)@ == old(chats)@,
        forall|k: int|
            (0 <= k < old(chats)@.len() && (#[trigger] old(chats)@[k].id@) == chat_id@ && (
            forall|j: int| 0 <= j < k ==> old(chats)@[j].id@ != chat_id@)) ==> {
                &&& final(chats)@[k].messages@ == old(chats)@[k].messages@.push(msg)
                &&& final(chats)@[k].id == old(chats)@[k].id
                &&& final(chats)@[k].title == old(chats)@[k].title
                &&& final(chats)@[k].animal == old(chats)@[k].animal
                &&& final(chats)@[k].intelligence == old(chats)@[k].intelligence
                &&& final(chats)@[k].language == old(chats)@[k].language
                &&& final(chats)@[k].created_at == old(chats)@[k].created_at
                &&& forall|j: int|
                    0 <= j < old(chats)@.len() && j != k ==> final(chats)@[j] == old(chats)@[j]
            },
{
    let ghost orig = chats@;
    let n = chats.len();
    for i in 0..n
        invariant
            n == orig.len(),
            orig == old(chats)@,
            chats@ == orig,
            forall|j: int| 0 <= j < i ==> (#[trigger] orig[j].id@) != chat_id@,
    {
        if str_eq(chats[i].id.as_str(), chat_id) {
            let mut session = chats.remove(i);
            session.messages.push(msg);
            chats.insert(i, session);
            proof {
                assert(chats@ =~= orig.update(i as int, session));
            }
            return;
        }
    }
}

} // verus!
