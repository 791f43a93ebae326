use std::sync::Arc;

use rlog::rlog::common::{append_message, get_messages, MessageLog};
use rlog::rlog::structs::{
    Message, MessageID, QuorumAppend, WriteConcern,
};

fn msg(text: &str) -> Arc<Message> {
    Arc::new(Message { text: text.to_string() })
}

#[test]
fn empty_log_lists_nothing() {
    let log = MessageLog::new();
    assert_eq!(log.len(), 0);
    assert!(get_messages(&log).is_empty());
}

#[test]
fn listing_runs_in_id_order() {
    let mut log = MessageLog::new();
    append_message(&mut log, msg("c"), MessageID(2));
    append_message(&mut log, msg("a"), MessageID(0));
    append_message(&mut log, msg("b"), MessageID(1));
    let listed = get_messages(&log);
    assert_eq!(listed.len(), 3);
    for (i, text) in ["a", "b", "c"].iter().enumerate() {
        assert_eq!(listed[i].id, i);
        assert_eq!(listed[i].msg_ptr.text, *text);
    }
}

#[test]
fn listing_stops_at_first_gap() {
    let mut log = MessageLog::new();
    append_message(&mut log, msg("a"), MessageID(0));
    append_message(&mut log, msg("b"), MessageID(1));
    append_message(&mut log, msg("d"), MessageID(3));
    let listed = get_messages(&log);
    assert_eq!(listed.len(), 2);
    assert_eq!(listed[1].msg_ptr.text, "b");
    append_message(&mut log, msg("c"), MessageID(2));
    let listed = get_messages(&log);
    assert_eq!(listed.len(), 4);
    assert_eq!(listed[3].msg_ptr.text, "d");
}

#[test]
fn listing_without_id_zero_is_empty() {
    let mut log = MessageLog::new();
    append_message(&mut log, msg("b"), MessageID(1));
    assert_eq!(log.len(), 1);
    assert!(get_messages(&log).is_empty());
}

#[test]
fn listing_shares_the_stored_message() {
    let mut log = MessageLog::new();
    let m = msg("shared");
    append_message(&mut log, Arc::clone(&m), MessageID(0));
    let listed = get_messages(&log);
    assert!(Arc::ptr_eq(&listed[0].msg_ptr, &m));
    assert!(Arc::ptr_eq(&log.get(MessageID(0)).unwrap(), &m));
    assert!(log.get(MessageID(1)).is_none());
}

#[test]
fn repeated_append_is_idempotent() {
    let mut log = MessageLog::new();
    append_message(&mut log, msg("a"), MessageID(0));
    append_message(&mut log, msg("a"), MessageID(0));
    assert_eq!(log.len(), 1);
    assert_eq!(get_messages(&log).len(), 1);
}

#[test]
fn append_replaces_same_id() {
    let mut log = MessageLog::new();
    append_message(&mut log, msg("a"), MessageID(0));
    append_message(&mut log, msg("z"), MessageID(0));
    assert_eq!(get_messages(&log)[0].msg_ptr.text, "z");
}

#[test]
fn secondary_listing_is_prefix_of_master_listing() {
    let mut master = MessageLog::new();
    let mut secondary = MessageLog::new();
    for (i, t) in ["a", "b", "c", "d"].iter().enumerate() {
        append_message(&mut master, msg(t), MessageID(i));
    }
    append_message(&mut secondary, msg("a"), MessageID(0));
    append_message(&mut secondary, msg("c"), MessageID(2));
    let on_master = get_messages(&master);
    let on_secondary = get_messages(&secondary);
    assert!(on_secondary.len() <= on_master.len());
    for (a, b) in on_secondary.iter().zip(on_master.iter()) {
        assert_eq!(a.id, b.id);
        assert_eq!(a.msg_ptr.text, b.msg_ptr.text);
    }
}

#[test]
fn defaults() {
    assert_eq!(WriteConcern::default().0, 3);
    assert_eq!(MessageID::default(), MessageID(0));
    assert!(!QuorumAppend::default().0);
}
