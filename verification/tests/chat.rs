use rootcell::chat::add;
use rootcell::{ChatMeassage, CoreConfig, MessageEvent};

#[test]
fn it_works() {
    let result = add(2, 2);
    assert_eq!(result, 4);
}

#[test]
fn add_reaches_the_largest_counter() {
    assert_eq!(add(u64::MAX - 1, 1), u64::MAX);
    assert_eq!(add(0, 0), 0);
}

#[test]
fn core_config_keeps_the_database_path() {
    let from_literal = CoreConfig::new("sqlite:///path/to/database.db");
    assert_eq!(from_literal.database_path(), "sqlite:///path/to/database.db");
    let from_string = CoreConfig::new(String::from("sqlite::memory:"));
    assert_eq!(from_string.database_path(), "sqlite::memory:");
    let direct = CoreConfig::with_path(String::from("sqlite://chat.db"));
    assert_eq!(direct.database_path(), "sqlite://chat.db");
}

#[test]
fn chat_message_carries_event_and_text() {
    let message = ChatMeassage {
        event: MessageEvent::newmassage,
        data: String::from("hello"),
    };
    assert_eq!(message.event, MessageEvent::newmassage);
    assert_eq!(message.data, "hello");
}
