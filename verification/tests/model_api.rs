use animal_chat::model::add_message;
use animal_chat::model::AnimalType;
use animal_chat::model::ChatMessage;
use animal_chat::model::ChatSession;
use animal_chat::model::IntelligenceLevel;
use animal_chat::model::Language;
use animal_chat::model::Role;
use animal_chat::config::api_base_url;

#[test]
fn language_labels_and_order() {
    let all = Language::all();
    assert_eq!(all, vec![Language::Es, Language::En]);
    assert_eq!(Language::Es.label(), "Español");
    assert_eq!(Language::En.label(), "English");
    assert_eq!(Language::default(), Language::Es);
}

#[test]
fn animal_labels_both_languages() {
    let all = AnimalType::all();
    assert_eq!(
        all,
        vec![
            AnimalType::Cat,
            AnimalType::Octopus,
            AnimalType::Elephant,
            AnimalType::Chicken,
        ]
    );
    assert_eq!(AnimalType::Cat.label(Language::Es), "Gato");
    assert_eq!(AnimalType::Cat.label(Language::En), "Cat");
    assert_eq!(AnimalType::Octopus.label(Language::Es), "Pulpo");
    assert_eq!(AnimalType::Elephant.label(Language::En), "Elephant");
    assert_eq!(AnimalType::Chicken.label(Language::Es), "Gallina");
    assert_eq!(AnimalType::default(), AnimalType::Cat);
}

#[test]
fn intelligence_labels_both_languages() {
    let all = IntelligenceLevel::all();
    assert_eq!(
        all,
        vec![
            IntelligenceLevel::High,
            IntelligenceLevel::Medium,
            IntelligenceLevel::Low,
        ]
    );
    assert_eq!(IntelligenceLevel::High.label(Language::Es), "Alta");
    assert_eq!(IntelligenceLevel::Medium.label(Language::En), "Medium");
    assert_eq!(IntelligenceLevel::Low.label(Language::Es), "Baja");
    assert_eq!(IntelligenceLevel::default(), IntelligenceLevel::Medium);
}

#[test]
fn animal_tag_round_trip() {
    for animal in AnimalType::all() {
        let tag = animal.tag();
        assert_eq!(AnimalType::from_tag(tag), Some(animal));
    }
    assert_eq!(AnimalType::Cat.tag(), "cat");
    assert_eq!(AnimalType::from_tag("dog"), None);
    assert_eq!(AnimalType::from_tag(""), None);
}

#[test]
fn intelligence_tag_round_trip() {
    for level in IntelligenceLevel::all() {
        let tag = level.tag();
        assert_eq!(IntelligenceLevel::from_tag(tag), Some(level));
    }
    assert_eq!(IntelligenceLevel::Medium.tag(), "medium");
    assert_eq!(IntelligenceLevel::from_tag("huge"), None);
}

#[test]
fn new_session_is_empty_and_titled() {
    let s = ChatSession::new(AnimalType::Octopus, IntelligenceLevel::High, Language::Es);
    assert_eq!(s.animal, AnimalType::Octopus);
    assert_eq!(s.intelligence, IntelligenceLevel::High);
    assert_eq!(s.language, Language::Es);
    assert_eq!(s.title, "Nueva Conversación");
    assert!(s.messages.is_empty());
    assert_eq!(s.id.chars().count(), 36);

    let t = ChatSession::new(AnimalType::Cat, IntelligenceLevel::Low, Language::En);
    assert_eq!(t.title, "New Conversation");
    assert_ne!(s.id, t.id);
}

#[test]
fn add_message_targets_the_right_session() {
    let mut chats = vec![
        ChatSession::new(AnimalType::Cat, IntelligenceLevel::Low, Language::Es),
        ChatSession::new(AnimalType::Chicken, IntelligenceLevel::High, Language::En),
    ];
    let second_id = chats[1].id.clone();
    let msg = ChatMessage { role: Role::User, content: "bawk?".to_string() };
    add_message(&mut chats, &second_id, msg.clone());
    assert!(chats[0].messages.is_empty());
    assert_eq!(chats[1].messages, vec![msg.clone()]);

    // An unknown id changes nothing.
    let before = chats.clone();
    add_message(&mut chats, "no-such-id", msg);
    assert_eq!(chats, before);
}

#[test]
fn base_url_is_fixed() {
    assert_eq!(api_base_url(), "https://inteligencia-animal-api.cgutieco.com/api");
}
