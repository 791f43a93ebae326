//! The master node: it checks the quorum, numbers each accepted message,
//! stores it and hands out one replication request per secondary, and
//! drives each replication until the secondary acknowledges it.

use std::sync::Arc;
use vstd::prelude::*;

use crate::rlog::common::{append_message, is_listing, share, MessageLog};
use crate::rlog::config::SECONDARY_COUNT;
use crate::rlog::heartbeat::{alive_count, count_alive, HealthStatus, STATUS_OK};
use crate::rlog::structs::{
    Message, MasterMessageRequest, MessageID, MessageResponse, SecondaryMessageRequest,
};

verus! {

/// Whether enough secondaries are alive for a write concern of
/// `write_concern` nodes, the master being one of them.
pub fn check_quorum(write_concern: usize, health: &[HealthStatus; SECONDARY_COUNT]) -> (ok: bool)
    requires
        write_concern >= 1,
    ensures
        ok == (alive_count(health@) >= write_concern - 1),
{
    let alive_n: usize = count_alive(health.as_slice());
    alive_n >= write_concern - 1
}

/// The state of the master node.
pub struct Master {
    /// The messages the master stored.
    pub log: MessageLog,
    /// What the last heartbeat round showed of each secondary.
    pub health: [HealthStatus; SECONDARY_COUNT],
    /// How many identifiers were handed out; the next message gets this one.
    pub messages_count: usize,
}

/// What the master answers a client's message.
pub enum PostOutcome {
    /// Quorum was asked for and too few secondaries are alive: nothing was stored.
    NoQuorum,
    /// The message was stored under `id`; `deliveries` holds one replication
    /// request per secondary, and the client is answered once
    /// `acks_required` of them have been acknowledged.
    Accepted { id: MessageID, deliveries: Vec<SecondaryMessageRequest>, acks_required: usize },
}

impl PostOutcome {
    /// The HTTP status of the answer to the client.
    pub fn status_code(&self) -> (code: u16)
        ensures
            code == match self {
                PostOutcome::NoQuorum => 500u16,
                PostOutcome::Accepted { .. } => 200u16,
            },
    {
        match self {
            PostOutcome::NoQuorum => 500,
            PostOutcome::Accepted { .. } => 200,
        }
    }
}

/// The identifier that follows `n`; the counter wraps around at the top
/// of its range.
pub open spec fn next_count(n: usize) -> usize {
    if n < usize::MAX {
        (n + 1) as usize
    } else {
        0
    }
}

/// One replication request per secondary, each for `msg_ptr` under `id`.
pub open spec fn replication_requests(msg_ptr: Arc<Message>, id: MessageID) -> Seq<SecondaryMessageRequest> {
    Seq::new(SECONDARY_COUNT as nat, |i: int| SecondaryMessageRequest { msg_ptr, id })
}

/// Every replication request handed out for a message asks each of the
/// secondaries to store that very message under the identifier the master
/// gave it: there is one per secondary, and each carries `msg_ptr` and `id`.
pub proof fn lemma_replication_requests_carry_id(msg_ptr: Arc<Message>, id: MessageID)
    ensures
        replication_requests(msg_ptr, id).len() == SECONDARY_COUNT,
        forall|i: int|
            0 <= i < SECONDARY_COUNT ==> (#[trigger] replication_requests(msg_ptr, id)[i]).id == id
                && replication_requests(msg_ptr, id)[i].msg_ptr == msg_ptr,
{
}

/// The log holds exactly the identifiers below `count`.
pub open spec fn log_gap_free(log: Map<usize, Arc<Message>>, count: nat) -> bool {
    forall|k: usize| #[trigger] log.contains_key(k) <==> k < count
}

impl Master {
    /// A master with an empty log, no identifier handed out and every
    /// secondary taken for dead until a heartbeat shows otherwise.
    pub fn new() -> (m: Self)
        ensures
            m.log@ == Map::<usize, Arc<Message>>::empty(),
            forall|i: int| 0 <= i < SECONDARY_COUNT ==> #[trigger] m.health@[i] == HealthStatus::DEAD,
            m.messages_count == 0,
    {
        Master {
            log: MessageLog::new(),
            health: [HealthStatus::DEAD, HealthStatus::DEAD],
            messages_count: 0,
        }
    }
}

/// Hands out the next identifier.
fn allocate_id(master: &mut Master) -> (id: MessageID)
    ensures
        id.0 == old(master).messages_count,
        final(master).messages_count == next_count(old(master).messages_count),
        final(master).log@ == old(master).log@,
        final(master).health@ == old(master).health@,
{
    let id = MessageID(master.messages_count);
    if master.messages_count < usize::MAX {
        master.messages_count = master.messages_count + 1;
    } else {
        master.messages_count = 0;
    }
    id
}

/// Handles a client's message: when quorum is asked for, at least
/// `wc - 1` secondaries must be alive; then the message gets the next
/// identifier, is stored in the master's log, and one replication request
/// per secondary is handed out.
pub fn post_message(master: &mut Master, request: MasterMessageRequest) -> (outcome: PostOutcome)
    requires
        request.wc.0 >= 1,
    ensures
        final(master).health@ == old(master).health@,
        (outcome is NoQuorum) <==> (request.quorum_append.0 && alive_count(old(master).health@)
            < request.wc.0 - 1),
        outcome is NoQuorum ==> {
            &&& final(master).log@ == old(master).log@
            &&& final(master).messages_count == old(master).messages_count
        },
        outcome matches PostOutcome::Accepted { id, deliveries, acks_required } ==> {
            &&& id.0 == old(master).messages_count
            &&& final(master).messages_count == next_count(old(master).messages_count)
            &&& final(master).log@ == old(master).log@.insert(id.0, request.msg_ptr)
            &&& acks_required == request.wc.0 - 1
            &&& deliveries@ == replication_requests(request.msg_ptr, id)
            &&& deliveries@.len() == SECONDARY_COUNT
            &&& forall|i: int|
                0 <= i < deliveries@.len() ==> (#[trigger] deliveries@[i]).id == id
                    && deliveries@[i].msg_ptr == request.msg_ptr
        },
{
    let write_concern: usize = request.wc.0;
    if request.quorum_append.0 && !check_quorum(write_concern, &master.health) {
        return PostOutcome::NoQuorum;
    }
    let message_id = allocate_id(master);
    let mut deliveries: Vec<SecondaryMessageRequest> = Vec::new();
    let mut sec_id: usize = 0;
    while sec_id < SECONDARY_COUNT
        invariant
            sec_id <= SECONDARY_COUNT,
            deliveries@.len() == sec_id,
            forall|i: int|
                0 <= i < sec_id ==> #[trigger] deliveries@[i].id == message_id
                    && deliveries@[i].msg_ptr == request.msg_ptr,
        decreases SECONDARY_COUNT - sec_id,
    {
        deliveries.push(SecondaryMessageRequest { msg_ptr: share(&request.msg_ptr), id: message_id });
        sec_id = sec_id + 1;
    }
    assert forall|i: int| 0 <= i < SECONDARY_COUNT implies #[trigger] deliveries@[i]
        == replication_requests(request.msg_ptr, message_id)[i] by {
        assert(deliveries@[i].id == message_id);
        assert(deliveries@[i].msg_ptr == request.msg_ptr);
    }
    assert(deliveries@ =~= replication_requests(request.msg_ptr, message_id));
    append_message(&mut master.log, request.msg_ptr, message_id);
    PostOutcome::Accepted { id: message_id, deliveries, acks_required: write_concern - 1 }
}

/// A fresh master's log is gap-free.
pub proof fn lemma_new_log_gap_free()
    ensures
        log_gap_free(Map::<usize, Arc<Message>>::empty(), 0),
{
}

/// Storing a message under the next identifier keeps the master's log
/// gap-free, as long as the identifiers have not wrapped around.
pub proof fn lemma_accept_keeps_gap_free(
    log: Map<usize, Arc<Message>>,
    count: usize,
    msg_ptr: Arc<Message>,
)
    requires
        log_gap_free(log, count as nat),
        count < usize::MAX,
    ensures
        log_gap_free(log.insert(count, msg_ptr), next_count(count) as nat),
{
}

/// What the master lists of a gap-free log is every message it accepted,
/// in the order in which it accepted them.
pub proof fn lemma_gap_free_listing(
    log: Map<usize, Arc<Message>>,
    count: usize,
    listing: Seq<MessageResponse>,
)
    requires
        log_gap_free(log, count as nat),
        is_listing(log, listing),
    ensures
        listing.len() == count,
        forall|i: int| 0 <= i < count ==> #[trigger] listing[i].msg_ptr == log[i as usize],
{
    if listing.len() < count {
        assert(log.contains_key(listing.len() as usize));
    }
    if listing.len() > count {
        assert(listing[count as int].id == count);
        assert(log.contains_key(count));
    }
    assert forall|i: int| 0 <= i < count implies #[trigger] listing[i].msg_ptr == log[i as usize] by {
        assert(listing[i].id == i);
    }
}

/// A message the master accepts into a gap-free log shows up in its
/// listing at the position of its identifier, after every message
/// accepted before it.
pub proof fn lemma_accepted_message_listed(
    log: Map<usize, Arc<Message>>,
    count: usize,
    msg_ptr: Arc<Message>,
    listing: Seq<MessageResponse>,
)
    requires
        log_gap_free(log, count as nat),
        count < usize::MAX,
        is_listing(log.insert(count, msg_ptr), listing),
    ensures
        listing.len() == count + 1,
        listing[count as int].msg_ptr == msg_ptr,
        listing[count as int].id == count,
        forall|i: int| 0 <= i < count ==> #[trigger] listing[i].msg_ptr == log[i as usize],
{
    lemma_accept_keeps_gap_free(log, count, msg_ptr);
    lemma_gap_free_listing(log.insert(count, msg_ptr), next_count(count), listing);
    assert forall|i: int| 0 <= i < count implies #[trigger] listing[i].msg_ptr == log[i as usize] by {
        assert(listing[i].msg_ptr == log.insert(count, msg_ptr)[i as usize]);
    }
}

/// Where the replication of one message to one secondary stands.
#[derive(Copy, Clone, PartialEq, Eq, Structural, Debug)]
pub enum DeliveryState {
    /// The secondary's health is to be read.
    CheckingHealth,
    /// The secondary was dead; the retry interval is running.
    WaitingRetry,
    /// The request was sent; its answer is awaited.
    AwaitingResponse,
    /// The secondary acknowledged the message.
    Delivered,
}

/// What the driver of a replication observed.
#[derive(Copy, Clone, PartialEq, Eq, Structural, Debug)]
pub enum DeliveryEvent {
    /// The master's current record of the secondary's health.
    HealthRead(HealthStatus),
    /// The retry interval elapsed.
    RetryTick,
    /// The request ended: `None` when it got no answer, else the answer's status code.
    Response(Option<u16>),
}

/// What the driver of a replication must do next.
#[derive(Copy, Clone, PartialEq, Eq, Structural, Debug)]
pub enum DeliveryAction {
    /// Read the secondary's health and report it.
    ReadHealth,
    /// Wait for the retry interval and report its end.
    WaitRetry,
    /// Send the replication request and report its outcome.
    Send,
    /// Stop: the message is delivered.
    Finish,
}

/// The action that each state asks for.
pub open spec fn delivery_action(state: DeliveryState) -> DeliveryAction {
    match state {
        DeliveryState::CheckingHealth => DeliveryAction::ReadHealth,
        DeliveryState::WaitingRetry => DeliveryAction::WaitRetry,
        DeliveryState::AwaitingResponse => DeliveryAction::Send,
        DeliveryState::Delivered => DeliveryAction::Finish,
    }
}

/// The replication loop: a dead secondary is retried after the retry
/// interval, a live one is sent the request, and anything but an OK
/// answer starts the round again from the health check. An event that
/// the state does not expect also starts the round again.
pub open spec fn delivery_transition(state: DeliveryState, event: DeliveryEvent) -> DeliveryState {
    match (state, event) {
        (DeliveryState::Delivered, _) => DeliveryState::Delivered,
        (DeliveryState::CheckingHealth, DeliveryEvent::HealthRead(HealthStatus::DEAD)) => DeliveryState::WaitingRetry,
        (DeliveryState::CheckingHealth, DeliveryEvent::HealthRead(HealthStatus::ALIVE)) => DeliveryState::AwaitingResponse,
        (DeliveryState::WaitingRetry, DeliveryEvent::RetryTick) => DeliveryState::CheckingHealth,
        (DeliveryState::AwaitingResponse, DeliveryEvent::Response(r)) => if r == Some(STATUS_OK) {
            DeliveryState::Delivered
        } else {
            DeliveryState::CheckingHealth
        },
        _ => DeliveryState::CheckingHealth,
    }
}

/// Where a replication starts, and its first action.
pub fn delivery_start() -> (r: (DeliveryState, DeliveryAction))
    ensures
        r.0 == DeliveryState::CheckingHealth,
        r.1 == delivery_action(r.0),
{
    (DeliveryState::CheckingHealth, DeliveryAction::ReadHealth)
}

fn action_of(state: DeliveryState) -> (a: DeliveryAction)
    ensures
        a == delivery_action(state),
{
    match state {
        DeliveryState::CheckingHealth => DeliveryAction::ReadHealth,
        DeliveryState::WaitingRetry => DeliveryAction::WaitRetry,
        DeliveryState::AwaitingResponse => DeliveryAction::Send,
        DeliveryState::Delivered => DeliveryAction::Finish,
    }
}

/// One step of a replication: the next state, and the action it asks for.
pub fn delivery_step(state: DeliveryState, event: DeliveryEvent) -> (r: (DeliveryState, DeliveryAction))
    ensures
        r.0 == delivery_transition(state, event),
        r.1 == delivery_action(r.0),
{
    let next = match state {
        DeliveryState::Delivered => DeliveryState::Delivered,
        DeliveryState::CheckingHealth => match event {
            DeliveryEvent::HealthRead(HealthStatus::DEAD) => DeliveryState::WaitingRetry,
            DeliveryEvent::HealthRead(HealthStatus::ALIVE) => DeliveryState::AwaitingResponse,
            _ => DeliveryState::CheckingHealth,
        },
        DeliveryState::WaitingRetry => DeliveryState::CheckingHealth,
        DeliveryState::AwaitingResponse => match event {
            DeliveryEvent::Response(Some(code)) => {
                if code == STATUS_OK {
                    DeliveryState::Delivered
                } else {
                    DeliveryState::CheckingHealth
                }
            },
            _ => DeliveryState::CheckingHealth,
        },
    };
    (next, action_of(next))
}

/// The request is sent only right after a health reading that showed the
/// secondary alive.
pub proof fn lemma_send_only_to_live(state: DeliveryState, event: DeliveryEvent)
    requires
        delivery_action(delivery_transition(state, event)) == DeliveryAction::Send,
    ensures
        state == DeliveryState::CheckingHealth,
        event == DeliveryEvent::HealthRead(HealthStatus::ALIVE),
{
}

/// A replication finishes only once the secondary answered the request
/// with OK, and stays finished.
pub proof fn lemma_finish_only_on_ok(state: DeliveryState, event: DeliveryEvent)
    ensures
        (delivery_action(delivery_transition(state, event)) == DeliveryAction::Finish) <==> (state
            == DeliveryState::Delivered || (state == DeliveryState::AwaitingResponse && event
            == DeliveryEvent::Response(Some(STATUS_OK)))),
        state == DeliveryState::Delivered ==> delivery_transition(state, event)
            == DeliveryState::Delivered,
{
}

} // verus!
