//! The secondary node: it waits a random delay, stores the replicated
//! message, and answers the master with a randomly failing reply.

use rand::seq::SliceRandom;
use rand::Rng;
use std::sync::Arc;
use vstd::prelude::*;

use crate::rlog::common::{append_message, MessageLog};
use crate::rlog::config::SECONDARY_SLEEP_DURATIONS;
use crate::rlog::structs::{Message, SecondaryMessageRequest};

verus! {

/// `rand::seq::SliceRandom::choose` with the thread's generator: one
/// element of `choices` picked at random, `None` exactly when `choices`
/// is empty. Which element comes back is left open.
#[verifier::external_body]
fn random_choice(choices: &[u64]) -> (r: Option<u64>)
    ensures
        r is None <==> choices@.len() == 0,
        r matches Some(d) ==> choices@.contains(d),
{
    choices.choose(&mut rand::thread_rng()).copied()
}

/// `rand::Rng::gen_range` over `low..high` with the thread's generator: a
/// random value at least `low` and below `high`. Which one is left open.
#[verifier::external_body]
fn random_in_range(low: i32, high: i32) -> (r: i32)
    requires
        low < high,
    ensures
        low <= r < high,
{
    rand::thread_rng().gen_range(low..high)
}

/// The delay, in seconds, before the secondary stores a message: one of
/// the configured delays, picked at random.
pub fn sleep_duration() -> (d: u64)
    ensures
        SECONDARY_SLEEP_DURATIONS@.contains(d),
{
    let choices: [u64; 3] = SECONDARY_SLEEP_DURATIONS;
    assert(choices@.len() == 3);
    match random_choice(choices.as_slice()) {
        Some(d) => d,
        None => {
            assert(false);
            0
        },
    }
}

/// How the secondary answers a replication request.
#[derive(Copy, Clone, PartialEq, Eq, Structural, Debug)]
pub enum SecondaryReply {
    Success,
    NotSuccess,
}

impl SecondaryReply {
    /// The HTTP status of the answer.
    pub fn status_code(&self) -> (code: u16)
        ensures
            code == match self {
                SecondaryReply::Success => 200u16,
                SecondaryReply::NotSuccess => 500u16,
            },
    {
        match self {
            SecondaryReply::Success => 200,
            SecondaryReply::NotSuccess => 500,
        }
    }
}

/// The answer for a roll of the hundred-sided die: above 50 it fails.
pub open spec fn reply_for(roll: i32) -> SecondaryReply {
    if roll > 50 {
        SecondaryReply::NotSuccess
    } else {
        SecondaryReply::Success
    }
}

/// The answer for a given roll.
pub fn reply_for_roll(roll: i32) -> (reply: SecondaryReply)
    ensures
        reply == reply_for(roll),
{
    if roll > 50 {
        SecondaryReply::NotSuccess
    } else {
        SecondaryReply::Success
    }
}

/// Stores a replicated message under the identifier the master gave it,
/// then rolls the die for the answer. The message is stored whatever the
/// answer, so a retry by the master stores it again under the same identifier.
pub fn post_message(log: &mut MessageLog, request: SecondaryMessageRequest) -> (reply: SecondaryReply)
    ensures
        final(log)@ == old(log)@.insert(request.id.0, request.msg_ptr),
        exists|roll: i32| 0 <= roll < 100 && reply == reply_for(roll),
{
    append_message(log, request.msg_ptr, request.id);
    let num: i32 = random_in_range(0, 100);
    reply_for_roll(num)
}

/// Storing a replication request that the master handed out for a
/// message it stored keeps a secondary's log a part of the master's:
/// every message the secondary holds, the master holds under the same
/// identifier.
pub proof fn lemma_replication_keeps_sublog(
    secondary_log: Map<usize, Arc<Message>>,
    master_log: Map<usize, Arc<Message>>,
    request: SecondaryMessageRequest,
)
    requires
        secondary_log.submap_of(master_log),
        master_log.contains_key(request.id.0),
        master_log[request.id.0] == request.msg_ptr,
    ensures
        secondary_log.insert(request.id.0, request.msg_ptr).submap_of(master_log),
{
}

} // verus!
