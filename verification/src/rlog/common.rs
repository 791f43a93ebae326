use std::collections::BTreeMap;
use std::sync::Arc;
use vstd::prelude::*;

use crate::rlog::structs::{Message, MessageID, MessageResponse};

verus! {

/// The message log of one node: each stored message under its identifier.
pub struct MessageLog {
    entries: BTreeMap<usize, Arc<Message>>,
}

impl View for MessageLog {
    type V = Map<usize, Arc<Message>>;

    closed spec fn view(&self) -> Map<usize, Arc<Message>> {
        self.entries@
    }
}

impl MessageLog {
    /// An empty log.
    pub fn new() -> (log: Self)
        ensures
            log@ == Map::<usize, Arc<Message>>::empty(),
    {
        MessageLog { entries: BTreeMap::new() }
    }

    /// Number of stored messages.
    pub fn len(&self) -> (n: usize)
        ensures
            n == self@.len(),
    {
        self.entries.len()
    }

    /// The message stored under `id`, if any.
    pub fn get(&self, id: MessageID) -> (r: Option<Arc<Message>>)
        ensures
            r == (if self@.contains_key(id.0) {
                Some(self@[id.0])
            } else {
                None::<Arc<Message>>
            }),
    {
        match self.entries.get(&id.0) {
            Some(m) => Some(share(m)),
            None => None,
        }
    }

    /// A log holds finitely many messages, at most as many as a `usize` counts.
    pub proof fn lemma_finite(&self)
        ensures
            self@.dom().finite(),
            self@.len() <= usize::MAX,
    {
        assert(self.entries@.dom().finite());
        assert(self.entries.len() == self.entries@.len());
    }
}

/// `std::sync::Arc::clone`: a second pointer to the same allocation, hence
/// to the same message.
#[verifier::external_body]
pub(crate) fn share<T>(a: &Arc<T>) -> (r: Arc<T>)
    ensures
        r == *a,
{
    Arc::clone(a)
}

/// Stores `msg_ptr` under `id`, replacing whatever was stored there.
pub fn append_message(log: &mut MessageLog, msg_ptr: Arc<Message>, id: MessageID)
    ensures
        final(log)@ == old(log)@.insert(id.0, msg_ptr),
{
    log.entries.insert(id.0, msg_ptr);
}

/// `r` lists, in identifier order, the messages of `m` whose identifiers
/// run without a gap from 0: it stops at the first identifier that `m`
/// does not hold.
pub open spec fn is_listing(m: Map<usize, Arc<Message>>, r: Seq<MessageResponse>) -> bool {
    &&& forall|i: int|
        0 <= i < r.len() ==> {
            &&& #[trigger] r[i].id == i
            &&& m.contains_key(i as usize)
            &&& r[i].msg_ptr == m[i as usize]
        }
    &&& !m.contains_key(r.len() as usize)
}

/// The integers from 0 up to, but not including, `k`.
spec fn below(k: nat) -> Set<usize> {
    Set::new(|i: usize| i < k)
}

proof fn lemma_below_len(k: nat)
    requires
        k <= usize::MAX + 1,
    ensures
        below(k).finite(),
        below(k).len() == k,
    decreases k,
{
    if k == 0 {
        assert(below(0) =~= Set::<usize>::empty());
    } else {
        let j: nat = (k - 1) as nat;
        lemma_below_len(j);
        assert(below(k) =~= below(j).insert(j as usize));
    }
}

/// A finite set of `n` identifiers that holds every identifier below `n`
/// holds no other.
proof fn lemma_full_prefix(s: Set<usize>, n: usize)
    requires
        s.finite(),
        s.len() == n,
        forall|i: usize| i < n ==> s.contains(i),
    ensures
        !s.contains(n),
{
    if s.contains(n) {
        lemma_below_len((n + 1) as nat);
        assert(below((n + 1) as nat).subset_of(s));
        vstd::set_lib::lemma_len_subset(below((n + 1) as nat), s);
    }
}

/// The listing of a node: the messages whose identifiers run from 0
/// without a gap, in identifier order.
pub fn get_messages(log: &MessageLog) -> (messages: Vec<MessageResponse>)
    ensures
        is_listing(log@, messages@),
{
    proof {
        log.lemma_finite();
    }
    let n: usize = log.len();
    let mut messages: Vec<MessageResponse> = Vec::new();
    let mut idx: usize = 0;
    while idx < n
        invariant
            idx <= n,
            n == log@.len(),
            messages@.len() == idx,
            forall|j: int|
                0 <= j < idx ==> {
                    &&& #[trigger] messages@[j].id == j
                    &&& log@.contains_key(j as usize)
                    &&& messages@[j].msg_ptr == log@[j as usize]
                },
        decreases n - idx,
    {
        match log.get(MessageID(idx)) {
            Some(m) => {
                messages.push(MessageResponse { msg_ptr: m, id: idx });
                idx = idx + 1;
            },
            None => {
                return messages;
            },
        }
    }
    proof {
        log.lemma_finite();
        assert forall|i: usize| i < n implies log@.dom().contains(i) by {
            assert(messages@[i as int].id == i);
        }
        lemma_full_prefix(log@.dom(), n);
    }
    messages
}

/// A log has exactly one listing.
pub proof fn lemma_listing_unique(
    m: Map<usize, Arc<Message>>,
    r1: Seq<MessageResponse>,
    r2: Seq<MessageResponse>,
)
    requires
        is_listing(m, r1),
        is_listing(m, r2),
    ensures
        r1 == r2,
{
    if r1.len() < r2.len() {
        assert(r2[r1.len() as int].id == r1.len());
    }
    if r2.len() < r1.len() {
        assert(r1[r2.len() as int].id == r2.len());
    }
    assert(r1.len() == r2.len());
    assert forall|i: int| 0 <= i < r1.len() implies r1[i] == r2[i] by {
        assert(r1[i].id == i);
        assert(r2[i].id == i);
    }
    assert(r1 =~= r2);
}

/// A node whose log holds only messages that another log holds under the
/// same identifiers lists a prefix of what the other lists: a secondary
/// never shows a message out of the master's order.
pub proof fn lemma_listing_prefix_of_superlog(
    m1: Map<usize, Arc<Message>>,
    m2: Map<usize, Arc<Message>>,
    r1: Seq<MessageResponse>,
    r2: Seq<MessageResponse>,
)
    requires
        m1.submap_of(m2),
        is_listing(m1, r1),
        is_listing(m2, r2),
    ensures
        r1.len() <= r2.len(),
        r1 == r2.take(r1.len() as int),
{
    if r2.len() < r1.len() {
        assert(r1[r2.len() as int].id == r2.len());
        assert(m1.contains_key(r2.len() as usize));
    }
    assert forall|i: int| 0 <= i < r1.len() implies r1[i] == r2[i] by {
        assert(r1[i].id == i);
        assert(r2[i].id == i);
        assert(m1.contains_key(i as usize));
    }
    assert(r1 =~= r2.take(r1.len() as int));
}

/// Storing the same message twice under the same identifier (a repeated
/// delivery) leaves the log as storing it once.
pub proof fn lemma_append_idempotent(m: Map<usize, Arc<Message>>, msg_ptr: Arc<Message>, id: MessageID)
    ensures
        m.insert(id.0, msg_ptr).insert(id.0, msg_ptr) == m.insert(id.0, msg_ptr),
{
    assert(m.insert(id.0, msg_ptr).insert(id.0, msg_ptr) =~= m.insert(id.0, msg_ptr));
}

} // verus!
