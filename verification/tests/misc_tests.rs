use rlog::messages::{acknowledged_by_all, master_post_message, slave_post_message, Message};
use rlog::rlog::errors::WriteConcernNotSatisfiedError;
use rlog::rlog::messages::{
    get_messages, save_message, Message as StoredMessage, MessageID, MessageStore, WriteConcern,
};

fn stored(text: &str, id: usize) -> StoredMessage {
    StoredMessage { msg: text.to_string(), w_concern: WriteConcern::default(), id: MessageID(id) }
}

#[test]
fn error_text_and_status() {
    let e = WriteConcernNotSatisfiedError::new(3, 1);
    assert_eq!(e.required, 3);
    assert_eq!(e.received, 1);
    assert_eq!(e.message(), "Write Concern Not Satisfied. Required: 3, Received: 1");
    assert_eq!(e.status_code(), 500);
}

#[test]
fn error_text_multi_digit() {
    let e = WriteConcernNotSatisfiedError::new(1090, 0);
    assert_eq!(e.message(), "Write Concern Not Satisfied. Required: 1090, Received: 0");
    let e = WriteConcernNotSatisfiedError::new(usize::MAX, 10);
    assert_eq!(
        e.message(),
        format!("Write Concern Not Satisfied. Required: {}, Received: 10", usize::MAX)
    );
}

#[test]
fn message_accessors() {
    let mut m = stored("hello", 0);
    assert_eq!(m.concern(), 3);
    assert_eq!(m.get_id(), MessageID(0));
    m.set_id(7);
    assert_eq!(m.get_id(), MessageID(7));
    assert_eq!(m.msg, "hello");
    assert_eq!(MessageID::default(), MessageID(0));
}

#[test]
fn store_lists_all_messages_sorted() {
    let mut store = MessageStore::new();
    save_message(&mut store, stored("thirty", 30));
    save_message(&mut store, stored("two", 2));
    save_message(&mut store, stored("ten", 10));
    save_message(&mut store, stored("zero", 0));
    let listed = get_messages(&store);
    assert_eq!(
        listed,
        vec![
            (0, "zero".to_string()),
            (2, "two".to_string()),
            (10, "ten".to_string()),
            (30, "thirty".to_string()),
        ]
    );
}

#[test]
fn store_replaces_same_id() {
    let mut store = MessageStore::new();
    save_message(&mut store, stored("a", 5));
    save_message(&mut store, stored("b", 5));
    assert_eq!(get_messages(&store), vec![(5, "b".to_string())]);
    assert!(get_messages(&MessageStore::new()).is_empty());
}

#[test]
fn all_or_nothing_master() {
    let mut log: Vec<Message> = Vec::new();
    assert!(acknowledged_by_all(&[]));
    assert!(acknowledged_by_all(&[Some(200), Some(200)]));
    assert!(!acknowledged_by_all(&[Some(200), None]));
    assert_eq!(master_post_message(&mut log, Message { msg: "a".into() }, &[Some(200), Some(500)]), 500);
    assert!(log.is_empty());
    assert_eq!(master_post_message(&mut log, Message { msg: "b".into() }, &[None, Some(200)]), 500);
    assert!(log.is_empty());
    assert_eq!(master_post_message(&mut log, Message { msg: "c".into() }, &[Some(200), Some(200)]), 200);
    assert_eq!(log.len(), 1);
    assert_eq!(log[0].msg, "c");
}

#[test]
fn secondary_appends_in_arrival_order() {
    let mut log: Vec<Message> = Vec::new();
    assert_eq!(slave_post_message(&mut log, Message { msg: "x".into() }), 200);
    assert_eq!(slave_post_message(&mut log, Message { msg: "y".into() }), 200);
    assert_eq!(log.iter().map(|m| m.msg.as_str()).collect::<Vec<_>>(), vec!["x", "y"]);
}
