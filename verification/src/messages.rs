//! The all-or-nothing replication scheme: the master stores a message only
//! once every secondary has acknowledged it, and a secondary stores every
//! message it receives, in arrival order.

use vstd::prelude::*;

use crate::rlog::heartbeat::STATUS_OK;

verus! {

/// A message as clients submit it.
#[derive(Debug, Clone)]
pub struct Message {
    pub msg: String,
}

/// Every secondary answered its replication request with OK; `None`
/// stands for a request that got no answer.
pub open spec fn all_acknowledged(responses: Seq<Option<u16>>) -> bool {
    forall|i: int| 0 <= i < responses.len() ==> #[trigger] responses[i] == Some(STATUS_OK)
}

/// A write is acknowledged exactly when every reply, at every position,
/// is an answer with status 200; any other reply anywhere (no answer, or
/// any other status) means it is not.
pub proof fn lemma_acknowledged_iff_every_reply_ok(responses: Seq<Option<u16>>)
    ensures
        all_acknowledged(responses) <==> (forall|i: int|
            0 <= i < responses.len() ==> #[trigger] responses[i] == Some(200u16)),
        forall|i: int|
            0 <= i < responses.len() && #[trigger] responses[i] != Some(200u16)
                ==> !all_acknowledged(responses),
{
}

/// Whether every replication request was answered with OK.
pub fn acknowledged_by_all(responses: &[Option<u16>]) -> (ok: bool)
    ensures
        ok == all_acknowledged(responses@),
        ok <==> (forall|i: int| 0 <= i < responses@.len() ==> #[trigger] responses@[i] == Some(200u16)),
{
    let n: usize = responses.len();
    let mut idx: usize = 0;
    while idx < n
        invariant
            n == responses@.len(),
            idx <= n,
            forall|i: int| 0 <= i < idx ==> #[trigger] responses@[i] == Some(STATUS_OK),
        decreases n - idx,
    {
        match responses[idx] {
            Some(code) => {
                if code != STATUS_OK {
                    return false;
                }
            },
            None => {
                return false;
            },
        }
        idx = idx + 1;
    }
    true
}

/// The master's handling of a client's message, once the replication
/// requests to the secondaries ended with `responses`: with every answer
/// OK the message is appended and the client gets 200, else nothing is
/// stored and the client gets 500.
pub fn master_post_message(log: &mut Vec<Message>, msg: Message, responses: &[Option<u16>]) -> (status: u16)
    ensures
        all_acknowledged(responses@) ==> status == 200 && final(log)@ == old(log)@.push(msg),
        !all_acknowledged(responses@) ==> status == 500 && final(log)@ == old(log)@,
        forall|i: int|
            0 <= i < responses@.len() && #[trigger] responses@[i] != Some(200u16) ==> status == 500
                && final(log)@ == old(log)@,
        (forall|i: int| 0 <= i < responses@.len() ==> #[trigger] responses@[i] == Some(200u16))
            ==> status == 200 && final(log)@ == old(log)@.push(msg),
{
    if acknowledged_by_all(responses) {
        log.push(msg);
        200
    } else {
        500
    }
}

/// A secondary's handling of a replicated message: it is appended and
/// acknowledged with 200.
pub fn slave_post_message(log: &mut Vec<Message>, msg: Message) -> (status: u16)
    ensures
        status == 200,
        final(log)@ == old(log)@.push(msg),
{
    log.push(msg);
    200
}

} // verus!
