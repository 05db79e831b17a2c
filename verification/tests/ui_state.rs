use sequisat::ui_state::{Message, MessageType, TabsState};

#[test]
fn message_type_names() {
    assert_eq!(MessageType::Error.name(), "Error");
    assert_eq!(MessageType::Warning.name(), "Warning");
    assert_eq!(MessageType::Info.name(), "Info");
}

#[test]
fn message_holds_type_and_text() {
    let m = Message::new(MessageType::Warning, String::from("low precision"));
    assert!(matches!(m.get_type(), MessageType::Warning));
    assert_eq!(m.get_message().as_str(), "low precision");
}

#[test]
fn tabs_new_starts_at_first() {
    let t = TabsState::new(vec!["a", "b", "c"]);
    assert_eq!(t.index, 0);
    assert_eq!(t.titles, vec!["a", "b", "c"]);
}

#[test]
fn tabs_next_wraps_around() {
    let mut t = TabsState::new(vec!["a", "b", "c"]);
    t.next();
    assert_eq!(t.index, 1);
    t.next();
    assert_eq!(t.index, 2);
    t.next();
    assert_eq!(t.index, 0);
}

#[test]
fn tabs_previous_wraps_around() {
    let mut t = TabsState::new(vec!["a", "b", "c"]);
    t.previous();
    assert_eq!(t.index, 2);
    t.previous();
    assert_eq!(t.index, 1);
    t.previous();
    assert_eq!(t.index, 0);
}
