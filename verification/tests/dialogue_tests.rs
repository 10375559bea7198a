use phoenix_engine::game::dialogue::{
    Dialogue, DialogueManager, DialogueNode, DialogueResponse, DialogueResult,
};

fn node(id: &str, text: &str, responses: Vec<DialogueResponse>) -> DialogueNode {
    DialogueNode {
        id: id.to_string(),
        speaker: "Old Man".to_string(),
        text: text.to_string(),
        portrait: None,
        responses,
        on_enter: None,
        on_exit: None,
    }
}

fn quest_dialogue() -> Dialogue {
    let mut d = Dialogue::new("quest", "start");
    d.add_node(node(
        "start",
        "Are you ready for a quest?",
        vec![
            DialogueResponse::simple("Yes, I'm ready!", Some("accept")),
            DialogueResponse::simple("Not right now.", None),
        ],
    ));
    d.add_node(node("accept", "Then go!", vec![DialogueResponse::simple("Bye", None)]));
    d
}

#[test]
fn response_builders() {
    let r = DialogueResponse::simple("Hi", Some("next"))
        .with_condition("has_key")
        .with_effect("give_sword");
    assert_eq!(r.text, "Hi");
    assert_eq!(r.next_node.as_deref(), Some("next"));
    assert_eq!(r.condition.as_deref(), Some("has_key"));
    assert_eq!(r.effect.as_deref(), Some("give_sword"));
    let end = DialogueResponse::simple("Bye", None);
    assert!(end.next_node.is_none() && end.condition.is_none() && end.effect.is_none());
}

#[test]
fn dialogue_lookup() {
    let d = quest_dialogue();
    assert_eq!(d.get_start_node().unwrap().id, "start");
    assert_eq!(d.get_node("accept").unwrap().text, "Then go!");
    assert!(d.get_node("missing").is_none());
    let empty = Dialogue::new("e", "nowhere");
    assert!(empty.get_start_node().is_none());
}

#[test]
fn add_node_replaces_same_id() {
    let mut d = quest_dialogue();
    d.add_node(node("accept", "Changed", vec![]));
    assert_eq!(d.get_node("accept").unwrap().text, "Changed");
    assert_eq!(d.nodes.len(), 2);
}

#[test]
fn conversation_flow() {
    let mut m = DialogueManager::new();
    assert!(!m.is_active());
    assert_eq!(m.select_response(0), DialogueResult::NotInDialogue);
    m.start_dialogue(quest_dialogue());
    assert!(m.is_active());
    assert_eq!(m.current_node().unwrap().id, "start");
    assert_eq!(m.select_response(2), DialogueResult::InvalidResponse);
    assert_eq!(m.current_node().unwrap().id, "start");
    assert_eq!(m.select_response(0), DialogueResult::Continue);
    assert_eq!(m.current_node().unwrap().id, "accept");
    assert_eq!(m.select_response(0), DialogueResult::End);
    assert!(!m.is_active());
    assert!(m.current_node().is_none());
}

#[test]
fn declining_ends_at_once() {
    let mut m = DialogueManager::default();
    m.start_dialogue(quest_dialogue());
    assert_eq!(m.select_response(1), DialogueResult::End);
    assert!(!m.is_active());
    m.start_dialogue(quest_dialogue());
    m.end_dialogue();
    assert!(!m.is_active());
}

#[test]
fn continuing_to_a_missing_node_stays_active_without_a_node() {
    let mut d = Dialogue::new("d", "a");
    d.add_node(node("a", "A", vec![DialogueResponse::simple("go", Some("zzz"))]));
    let mut m = DialogueManager::new();
    m.start_dialogue(d);
    assert_eq!(m.select_response(0), DialogueResult::Continue);
    assert!(m.is_active());
    assert!(m.current_node().is_none());
    assert_eq!(m.select_response(0), DialogueResult::NotInDialogue);
}

#[test]
fn variables_and_text() {
    let mut m = DialogueManager::new();
    assert_eq!(m.get_variable("name"), None);
    m.set_variable("name", "Aria");
    m.set_variable("town", "Elm");
    assert_eq!(m.get_variable("name"), Some("Aria"));
    m.set_variable("name", "Bryn");
    assert_eq!(m.get_variable("name"), Some("Bryn"));
    assert_eq!(
        m.process_text("Hello {name}, welcome to {town}. {name}!"),
        "Hello Bryn, welcome to Elm. Bryn!"
    );
    assert_eq!(m.process_text("No {placeholders} here"), "No {placeholders} here");
    assert_eq!(m.process_text("plain text"), "plain text");
    assert_eq!(m.process_text(""), "");
}

#[test]
fn variables_survive_dialogues() {
    let mut m = DialogueManager::new();
    m.set_variable("gold", "10");
    m.start_dialogue(quest_dialogue());
    m.select_response(1);
    assert_eq!(m.get_variable("gold"), Some("10"));
}

#[test]
fn variables_fill_placeholders_in_order_set() {
    let mut m = DialogueManager::new();
    m.set_variable("name", "Hero");
    m.set_variable("gold", "5");
    assert_eq!(
        m.process_text("Hello, {name}! You have {gold} gold. {name}?"),
        "Hello, Hero! You have 5 gold. Hero?"
    );
    assert_eq!(m.process_text("{unknown} name"), "{unknown} name");
}
