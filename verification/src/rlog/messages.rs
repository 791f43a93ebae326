use std::collections::HashMap;
use itertools::Itertools;
use vstd::prelude::*;
use vstd::std_specs::iter::IteratorSpec;

verus! {

/// A message together with its write concern and its identifier.
#[derive(Debug, Clone)]
pub struct Message {
    pub msg: String,
    pub w_concern: WriteConcern,
    pub id: MessageID,
}

/// How many nodes must hold a message before it is acknowledged.
#[derive(Debug, Clone, Copy)]
pub struct WriteConcern(pub usize);

/// The position of a message in the log.
#[derive(Debug, Clone, Copy, PartialEq, Eq, Structural, Hash, PartialOrd, Ord)]
pub struct MessageID(pub usize);

impl Message {
    pub fn concern(&self) -> (c: usize)
        ensures
            c == self.w_concern.0,
    {
        self.w_concern.0
    }

    pub fn get_id(&self) -> (id: MessageID)
        ensures
            id == self.id,
    {
        self.id
    }

    pub fn set_id(&mut self, id: usize)
        ensures
            final(self).id == MessageID(id),
            final(self).msg == old(self).msg,
            final(self).w_concern == old(self).w_concern,
    {
        self.id = MessageID(id)
    }
}

impl Default for WriteConcern {
    /// By default three nodes must hold a message.
    fn default() -> (wc: Self)
        ensures
            wc.0 == 3,
    {
        WriteConcern(3)
    }
}

impl Default for MessageID {
    fn default() -> (id: Self)
        ensures
            id.0 == 0,
    {
        MessageID(0)
    }
}

/// The messages a node stored, each under its identifier.
pub struct MessageStore {
    entries: HashMap<usize, Message>,
}

impl View for MessageStore {
    type V = Map<usize, Message>;

    closed spec fn view(&self) -> Map<usize, Message> {
        self.entries@
    }
}

impl MessageStore {
    pub fn new() -> (store: Self)
        ensures
            store@ == Map::<usize, Message>::empty(),
    {
        MessageStore { entries: HashMap::new() }
    }
}

/// Stores `msg` under its own identifier, replacing whatever was stored there.
pub fn save_message(store: &mut MessageStore, msg: Message)
    ensures
        final(store)@ == old(store)@.insert(msg.id.0, msg),
{
    let id: usize = msg.get_id().0;
    store.entries.insert(id, msg);
}

/// `itertools::Itertools::sorted`: the elements in ascending order, as a
/// permutation of the input.
#[verifier::external_body]
fn sorted_ids(ids: Vec<usize>) -> (r: Vec<usize>)
    ensures
        r@.to_multiset() == ids@.to_multiset(),
        forall|i: int, j: int| 0 <= i <= j < r@.len() ==> r@[i] <= r@[j],
{
    ids.into_iter().sorted().collect()
}

/// The identifiers of the stored messages, in some order, each once.
fn stored_ids(store: &MessageStore) -> (ids: Vec<usize>)
    ensures
        ids@.no_duplicates(),
        ids@.to_set() == store@.dom(),
{
    let mut ids: Vec<usize> = Vec::new();
    for k in it: store.entries.keys()
        invariant
            ids@.len() == it.index(),
            forall|i: int| 0 <= i < ids@.len() ==> ids@[i] == *it.seq()[i],
    {
        ids.push(*k);
    }
    proof {
        let keys = vstd::std_specs::hash::spec_keys_iter(&store.entries).remaining();
        assert(ids@ =~= keys.unref());
    }
    ids
}

/// `r` lists every stored message once, as its identifier and its text,
/// in ascending order of identifiers.
pub open spec fn is_sorted_listing(m: Map<usize, Message>, r: Seq<(usize, String)>) -> bool {
    &&& forall|i: int, j: int| 0 <= i < j < r.len() ==> r[i].0 < r[j].0
    &&& forall|i: int|
        0 <= i < r.len() ==> m.contains_key(#[trigger] r[i].0) && r[i].1@ == m[r[i].0].msg@
    &&& forall|k: usize| m.contains_key(k) ==> exists|i: int| 0 <= i < r.len() && #[trigger] r[i].0 == k
}

/// The identifiers of the stored messages, each once, in ascending order.
fn ascending_ids(store: &MessageStore) -> (ids: Vec<usize>)
    ensures
        forall|i: int, j: int| 0 <= i < j < ids@.len() ==> ids@[i] < ids@[j],
        forall|k: usize| ids@.contains(k) <==> store@.contains_key(k),
{
    let unsorted = stored_ids(store);
    let ghost u = unsorted@;
    let ids = sorted_ids(unsorted);
    proof {
        broadcast use vstd::seq_lib::group_to_multiset_ensures;

        u.lemma_multiset_has_no_duplicates();
        assert forall|x: usize| ids@.to_multiset().contains(x) implies ids@.to_multiset().count(x)
            == 1 by {
            assert(u.to_multiset().contains(x));
        }
        ids@.lemma_multiset_has_no_duplicates_conv();
        assert forall|i: int, j: int| 0 <= i < j < ids@.len() implies ids@[i] < ids@[j] by {
            assert(ids@[i] <= ids@[j]);
            assert(ids@[i] != ids@[j]);
        }
        assert forall|k: usize| ids@.contains(k) <==> store@.contains_key(k) by {
            assert(ids@.contains(k) <==> ids@.to_multiset().count(k) > 0);
            assert(u.contains(k) <==> u.to_multiset().count(k) > 0);
            assert(u.contains(k) <==> u.to_set().contains(k));
        }
    }
    ids
}

/// The listing of the store: every stored message as its identifier and
/// its text, in ascending order of identifiers.
pub fn get_messages(store: &MessageStore) -> (msgs: Vec<(usize, String)>)
    ensures
        is_sorted_listing(store@, msgs@),
{
    let ids = ascending_ids(store);
    let mut msgs: Vec<(usize, String)> = Vec::new();
    let n: usize = ids.len();
    let mut idx: usize = 0;
    while idx < n
        invariant
            n == ids@.len(),
            idx <= n,
            msgs@.len() == idx,
            forall|i: int, j: int| 0 <= i < j < ids@.len() ==> ids@[i] < ids@[j],
            forall|k: usize| ids@.contains(k) <==> store@.contains_key(k),
            forall|i: int|
                0 <= i < idx ==> #[trigger] msgs@[i].0 == ids@[i] && msgs@[i].1@
                    == store@[ids@[i]].msg@,
        decreases n - idx,
    {
        let key: usize = ids[idx];
        assert(ids@.contains(key));
        match store.entries.get(&key) {
            Some(m) => {
                assert(*m == store@[key]);
                let text: String = m.msg.clone();
                assert(text@ == store@[key].msg@);
                msgs.push((key, text));
                assert(msgs@[idx as int].1@ == store@[ids@[idx as int]].msg@);
            },
            None => {
                assert(false);
            },
        }
        idx = idx + 1;
    }
    proof {
        assert forall|i: int| 0 <= i < msgs@.len() implies store@.contains_key(#[trigger] msgs@[i].0)
            && msgs@[i].1@ == store@[msgs@[i].0].msg@ by {
            assert(msgs@[i].0 == ids@[i]);
            assert(ids@.contains(ids@[i]));
        }
        assert forall|i: int, j: int| 0 <= i < j < msgs@.len() implies msgs@[i].0 < msgs@[j].0 by {
            assert(msgs@[i].0 == ids@[i]);
            assert(msgs@[j].0 == ids@[j]);
        }
        assert forall|k: usize| store@.contains_key(k) implies exists|i: int|
            0 <= i < msgs@.len() && #[trigger] msgs@[i].0 == k by {
            assert(ids@.contains(k));
            let i: int = choose|i: int| 0 <= i < ids@.len() && ids@[i] == k;
            assert(msgs@[i].0 == ids@[i]);
        }
    }
    msgs
}

} // verus!
