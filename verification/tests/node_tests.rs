use std::sync::Arc;

use rlog::master::{
    check_quorum, delivery_start, delivery_step, post_message, DeliveryAction, DeliveryEvent,
    DeliveryState, Master, PostOutcome,
};
use rlog::rlog::common::get_messages;
use rlog::rlog::config::{SECONDARY_COUNT, SECONDARY_SLEEP_DURATIONS};
use rlog::rlog::heartbeat::{count_alive, health_of_probe, update_health_status, HealthStatus};
use rlog::rlog::structs::{MasterMessageRequest, Message, QuorumAppend, WriteConcern};
use rlog::secondary::{self, reply_for_roll, sleep_duration, SecondaryReply};
use rlog::rlog::common::MessageLog;
use rlog::rlog::structs::{MessageID, SecondaryMessageRequest};

use HealthStatus::{ALIVE, DEAD};

fn request(text: &str, wc: usize, quorum: bool) -> MasterMessageRequest {
    MasterMessageRequest {
        msg_ptr: Arc::new(Message { text: text.to_string() }),
        wc: WriteConcern(wc),
        quorum_append: QuorumAppend(quorum),
    }
}

#[test]
fn probe_health() {
    assert_eq!(health_of_probe(Some(200)), ALIVE);
    assert_eq!(health_of_probe(Some(500)), DEAD);
    assert_eq!(health_of_probe(Some(404)), DEAD);
    assert_eq!(health_of_probe(None), DEAD);
}

#[test]
fn heartbeat_round_updates_each_secondary() {
    let mut health = [DEAD, ALIVE];
    update_health_status(&mut health, &[Some(200), None]);
    assert_eq!(health, [ALIVE, DEAD]);
    update_health_status(&mut health, &[Some(503)]);
    assert_eq!(health, [DEAD, DEAD]);
}

#[test]
fn counting_alive() {
    assert_eq!(count_alive(&[ALIVE, DEAD, ALIVE]), 2);
    assert_eq!(count_alive(&[]), 0);
}

#[test]
fn quorum() {
    assert!(check_quorum(1, &[DEAD, DEAD]));
    assert!(!check_quorum(2, &[DEAD, DEAD]));
    assert!(check_quorum(2, &[DEAD, ALIVE]));
    assert!(!check_quorum(3, &[DEAD, ALIVE]));
    assert!(check_quorum(3, &[ALIVE, ALIVE]));
    assert!(!check_quorum(4, &[ALIVE, ALIVE]));
}

#[test]
fn new_master() {
    let m = Master::new();
    assert_eq!(m.messages_count, 0);
    assert_eq!(m.health, [DEAD; SECONDARY_COUNT]);
    assert_eq!(m.log.len(), 0);
}

#[test]
fn post_without_quorum_is_refused_and_changes_nothing() {
    let mut m = Master::new();
    let out = post_message(&mut m, request("x", 3, true));
    assert!(matches!(out, PostOutcome::NoQuorum));
    assert_eq!(out.status_code(), 500);
    assert_eq!(m.messages_count, 0);
    assert_eq!(m.log.len(), 0);
}

#[test]
fn post_without_quorum_check_is_accepted_even_if_all_dead() {
    let mut m = Master::new();
    let out = post_message(&mut m, request("x", 3, false));
    assert_eq!(out.status_code(), 200);
    match out {
        PostOutcome::Accepted { id, deliveries, acks_required } => {
            assert_eq!(id, MessageID(0));
            assert_eq!(acks_required, 2);
            assert_eq!(deliveries.len(), SECONDARY_COUNT);
            for d in deliveries {
                assert_eq!(d.id, MessageID(0));
                assert_eq!(d.msg_ptr.text, "x");
            }
        }
        PostOutcome::NoQuorum => panic!("refused"),
    }
}

#[test]
fn posts_get_sequential_ids_and_are_all_listed() {
    let mut m = Master::new();
    m.health = [ALIVE, DEAD];
    for (i, t) in ["a", "b", "c"].iter().enumerate() {
        match post_message(&mut m, request(t, 2, true)) {
            PostOutcome::Accepted { id, acks_required, .. } => {
                assert_eq!(id, MessageID(i));
                assert_eq!(acks_required, 1);
            }
            PostOutcome::NoQuorum => panic!("refused"),
        }
    }
    assert!(matches!(post_message(&mut m, request("d", 3, true)), PostOutcome::NoQuorum));
    assert_eq!(m.messages_count, 3);
    let listed = get_messages(&m.log);
    let texts: Vec<&str> = listed.iter().map(|r| r.msg_ptr.text.as_str()).collect();
    assert_eq!(texts, vec!["a", "b", "c"]);
}

#[test]
fn identifier_counter_wraps() {
    let mut m = Master::new();
    m.messages_count = usize::MAX;
    match post_message(&mut m, request("x", 1, false)) {
        PostOutcome::Accepted { id, acks_required, .. } => {
            assert_eq!(id, MessageID(usize::MAX));
            assert_eq!(acks_required, 0);
        }
        PostOutcome::NoQuorum => panic!("refused"),
    }
    assert_eq!(m.messages_count, 0);
}

#[test]
fn delivery_to_dead_secondary_waits_then_retries() {
    let (s, a) = delivery_start();
    assert_eq!((s, a), (DeliveryState::CheckingHealth, DeliveryAction::ReadHealth));
    let (s, a) = delivery_step(s, DeliveryEvent::HealthRead(DEAD));
    assert_eq!((s, a), (DeliveryState::WaitingRetry, DeliveryAction::WaitRetry));
    let (s, a) = delivery_step(s, DeliveryEvent::RetryTick);
    assert_eq!((s, a), (DeliveryState::CheckingHealth, DeliveryAction::ReadHealth));
    let (s, a) = delivery_step(s, DeliveryEvent::HealthRead(ALIVE));
    assert_eq!((s, a), (DeliveryState::AwaitingResponse, DeliveryAction::Send));
    let (s, a) = delivery_step(s, DeliveryEvent::Response(Some(500)));
    assert_eq!((s, a), (DeliveryState::CheckingHealth, DeliveryAction::ReadHealth));
    let (s, a) = delivery_step(s, DeliveryEvent::HealthRead(ALIVE));
    let (s, a2) = delivery_step(s, DeliveryEvent::Response(None));
    assert_eq!(a, DeliveryAction::Send);
    assert_eq!((s, a2), (DeliveryState::CheckingHealth, DeliveryAction::ReadHealth));
    let (s, _) = delivery_step(s, DeliveryEvent::HealthRead(ALIVE));
    let (s, a) = delivery_step(s, DeliveryEvent::Response(Some(200)));
    assert_eq!((s, a), (DeliveryState::Delivered, DeliveryAction::Finish));
    let (s, a) = delivery_step(s, DeliveryEvent::Response(Some(500)));
    assert_eq!((s, a), (DeliveryState::Delivered, DeliveryAction::Finish));
}

#[test]
fn unexpected_event_restarts_round() {
    let (s, a) = delivery_step(DeliveryState::AwaitingResponse, DeliveryEvent::RetryTick);
    assert_eq!((s, a), (DeliveryState::CheckingHealth, DeliveryAction::ReadHealth));
    let (s, a) = delivery_step(DeliveryState::CheckingHealth, DeliveryEvent::Response(Some(200)));
    assert_eq!((s, a), (DeliveryState::CheckingHealth, DeliveryAction::ReadHealth));
}

#[test]
fn secondary_sleep_is_configured() {
    for _ in 0..50 {
        assert!(SECONDARY_SLEEP_DURATIONS.contains(&sleep_duration()));
    }
}

#[test]
fn secondary_reply_threshold() {
    assert_eq!(reply_for_roll(0), SecondaryReply::Success);
    assert_eq!(reply_for_roll(50), SecondaryReply::Success);
    assert_eq!(reply_for_roll(51), SecondaryReply::NotSuccess);
    assert_eq!(reply_for_roll(99), SecondaryReply::NotSuccess);
    assert_eq!(SecondaryReply::Success.status_code(), 200);
    assert_eq!(SecondaryReply::NotSuccess.status_code(), 500);
}

#[test]
fn secondary_stores_whatever_it_answers() {
    let mut log = MessageLog::new();
    for _ in 0..20 {
        let req = SecondaryMessageRequest {
            msg_ptr: Arc::new(Message { text: "m".to_string() }),
            id: MessageID(0),
        };
        let reply = secondary::post_message(&mut log, req);
        assert!(reply == SecondaryReply::Success || reply == SecondaryReply::NotSuccess);
        assert_eq!(log.len(), 1);
    }
    assert_eq!(get_messages(&log)[0].msg_ptr.text, "m");
}
