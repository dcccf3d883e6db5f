//! The subscription mapper: from the caller's subscriptions, in the caller's
//! order, to the seeded correlation map and the wire requests to transmit.
use vstd::prelude::*;
use crate::correlation::{
    contains_key, distinct_keys, none_confirmed, seed, CorrelationMap, EntryModel,
};

verus! {

/// One subscription as the exchange understands it: the correlation key under
/// which the exchange will acknowledge it, the caller's instrument key, and the
/// wire request that asks for it. The request is absent where the exchange
/// covers this subscription with the request of another.
#[derive(Debug)]
pub struct ExchangeSub<K, W> {
    pub correlation_key: String,
    pub instrument: K,
    pub request: Option<W>,
}

/// What the mapper hands to the subscriber.
#[derive(Debug)]
pub struct SubscriptionMeta<K, W> {
    /// Every expected correlation key, unconfirmed, with its instrument.
    pub instrument_map: CorrelationMap<K>,
    /// The wire requests, in the order of the subscriptions that carry them.
    pub ws_subscriptions: Vec<W>,
}

/// The correlation map seeded with every subscription, first to last.
pub open spec fn seeded<K, W>(subscriptions: Seq<ExchangeSub<K, W>>) -> Seq<EntryModel<K>>
    decreases subscriptions.len(),
{
    if subscriptions.len() == 0 {
        Seq::empty()
    } else {
        seed(
            seeded(subscriptions.drop_last()),
            subscriptions.last().correlation_key@,
            subscriptions.last().instrument,
        )
    }
}

/// The wire requests that the subscriptions carry, in the subscriptions' order.
pub open spec fn requests<K, W>(subscriptions: Seq<ExchangeSub<K, W>>) -> Seq<W>
    decreases subscriptions.len(),
{
    if subscriptions.len() == 0 {
        Seq::empty()
    } else {
        match subscriptions.last().request {
            Some(request) => requests(subscriptions.drop_last()).push(request),
            None => requests(subscriptions.drop_last()),
        }
    }
}

/// No two subscriptions expect the same correlation key.
pub open spec fn distinct_subscriptions<K, W>(subscriptions: Seq<ExchangeSub<K, W>>) -> bool {
    forall|i: int, j: int|
        0 <= i < j < subscriptions.len() ==> subscriptions[i].correlation_key@
            != subscriptions[j].correlation_key@
}

/// Standard mapper for sockets that take one request per subscription or fewer.
#[derive(Copy, Clone, Eq, PartialEq, Ord, PartialOrd, Hash, Debug)]
pub struct WebSocketSubMapper;

impl WebSocketSubMapper {
    /// Seeds the correlation map with the expected key of every subscription and
    /// collects the wire requests, both in the caller's order.
    pub fn map<K, W>(subscriptions: Vec<ExchangeSub<K, W>>) -> (meta: SubscriptionMeta<K, W>)
        ensures
            meta.instrument_map.wf(),
            meta.instrument_map@ == seeded(subscriptions@),
            meta.ws_subscriptions@ == requests(subscriptions@),
    {
        let ghost all = subscriptions@;
        let mut pending = subscriptions;
        let mut instrument_map: CorrelationMap<K> = CorrelationMap::new();
        let mut ws_subscriptions: Vec<W> = Vec::new();
        while pending.len() > 0
            invariant
                instrument_map.wf(),
                pending@.len() <= all.len(),
                pending@ == all.skip(all.len() - pending@.len()),
                instrument_map@ == seeded(all.take(all.len() - pending@.len())),
                ws_subscriptions@ == requests(all.take(all.len() - pending@.len())),
            decreases pending@.len(),
        {
            let ghost done = all.len() - pending@.len();
            let ghost before = pending@;
            let ExchangeSub { correlation_key, instrument, request } = pending.remove(0);
            proof {
                assert(pending@ =~= before.skip(1));
                assert(pending@ =~= all.skip(done + 1));
                assert(all.take(done + 1).drop_last() =~= all.take(done));
                assert(all.take(done + 1).last() == before[0]);
            }
            instrument_map.insert(correlation_key, instrument);
            match request {
                Some(request) => {
                    ws_subscriptions.push(request);
                },
                None => {},
            }
        }
        proof {
            assert(all.take(all.len() as int) =~= all);
        }
        SubscriptionMeta { instrument_map, ws_subscriptions }
    }
}

/// Seeding one key keeps the keys distinct and the entries unconfirmed, and adds
/// exactly that key.
pub proof fn lemma_seed<K>(entries: Seq<EntryModel<K>>, key: Seq<char>, instrument: K)
    requires
        distinct_keys(entries),
    ensures
        distinct_keys(seed(entries, key, instrument)),
        none_confirmed(entries) ==> none_confirmed(seed(entries, key, instrument)),
        forall|other: Seq<char>|
            contains_key(seed(entries, key, instrument), other) <==> (other == key || contains_key(
                entries,
                other,
            )),
{
    let after = seed(entries, key, instrument);
    assert forall|other: Seq<char>| contains_key(after, other) <==> (other == key || contains_key(
        entries,
        other,
    )) by {
        if contains_key(after, other) {
            let i = choose|i: int| 0 <= i < after.len() && #[trigger] after[i].key == other;
            if i < entries.len() {
                assert(entries[i].key == other || other == key);
            }
        }
        if contains_key(entries, other) {
            let i = choose|i: int| 0 <= i < entries.len() && #[trigger] entries[i].key == other;
            assert(after[i].key == other);
        }
        if other == key {
            if contains_key(entries, key) {
                let i = choose|i: int| 0 <= i < entries.len() && #[trigger] entries[i].key == key;
                assert(after[i].key == key);
            } else {
                assert(after[entries.len() as int].key == key);
            }
        }
    }
    assert forall|i: int, j: int| 0 <= i < j < after.len() implies after[i].key != after[j].key by {
        if j < entries.len() {
            assert(entries[i].key != entries[j].key);
        } else {
            assert(entries[i].key == key ==> contains_key(entries, key));
        }
    }
}

/// The map that the mapper seeds has distinct keys, holds exactly the expected
/// keys of the subscriptions, all of them unconfirmed, and has no more entries
/// than there are subscriptions.
pub proof fn lemma_seeded_map<K, W>(subscriptions: Seq<ExchangeSub<K, W>>)
    ensures
        distinct_keys(seeded(subscriptions)),
        none_confirmed(seeded(subscriptions)),
        seeded(subscriptions).len() <= subscriptions.len(),
        forall|key: Seq<char>|
            contains_key(seeded(subscriptions), key) <==> exists|i: int|
                0 <= i < subscriptions.len() && #[trigger] subscriptions[i].correlation_key@ == key,
    decreases subscriptions.len(),
{
    if subscriptions.len() > 0 {
        let front = subscriptions.drop_last();
        let last = subscriptions.last();
        lemma_seeded_map(front);
        lemma_seed(seeded(front), last.correlation_key@, last.instrument);
        assert forall|key: Seq<char>|
            contains_key(seeded(subscriptions), key) <==> exists|i: int|
                0 <= i < subscriptions.len() && #[trigger] subscriptions[i].correlation_key@
                    == key by {
            if contains_key(seeded(front), key) {
                let i = choose|i: int|
                    0 <= i < front.len() && #[trigger] front[i].correlation_key@ == key;
                assert(subscriptions[i].correlation_key@ == key);
            }
            if key == last.correlation_key@ {
                assert(subscriptions[subscriptions.len() - 1].correlation_key@ == key);
            }
            if exists|i: int|
                0 <= i < subscriptions.len() && #[trigger] subscriptions[i].correlation_key@ == key {
                let i = choose|i: int|
                    0 <= i < subscriptions.len() && #[trigger] subscriptions[i].correlation_key@
                        == key;
                if i < front.len() {
                    assert(front[i].correlation_key@ == key);
                }
            }
        }
    }
}

/// Subscriptions with distinct expected keys are mapped one to one: the map has
/// one unconfirmed entry for each, in the subscriptions' order.
pub proof fn lemma_distinct_subscriptions_seed_in_order<K, W>(subscriptions: Seq<ExchangeSub<K, W>>)
    requires
        distinct_subscriptions(subscriptions),
    ensures
        seeded(subscriptions).len() == subscriptions.len(),
        forall|i: int|
            0 <= i < subscriptions.len() ==> (#[trigger] seeded(subscriptions)[i]) == (EntryModel {
                key: subscriptions[i].correlation_key@,
                instrument: subscriptions[i].instrument,
                confirmed: false,
            }),
    decreases subscriptions.len(),
{
    if subscriptions.len() > 0 {
        let front = subscriptions.drop_last();
        let last = subscriptions.last();
        lemma_distinct_subscriptions_seed_in_order(front);
        lemma_seeded_map(front);
        if contains_key(seeded(front), last.correlation_key@) {
            let i = choose|i: int|
                0 <= i < front.len() && #[trigger] front[i].correlation_key@
                    == last.correlation_key@;
            assert(subscriptions[i].correlation_key@ != subscriptions[subscriptions.len()
                - 1].correlation_key@);
        }
    }
}

/// Subscriptions that each carry a request yield one request each, in the
/// subscriptions' order.
pub proof fn lemma_requests_in_order<K, W>(subscriptions: Seq<ExchangeSub<K, W>>)
    requires
        forall|i: int| 0 <= i < subscriptions.len() ==> (#[trigger] subscriptions[i]).request.is_some(),
    ensures
        requests(subscriptions).len() == subscriptions.len(),
        forall|i: int|
            0 <= i < subscriptions.len() ==> Some(#[trigger] requests(subscriptions)[i])
                == subscriptions[i].request,
    decreases subscriptions.len(),
{
    if subscriptions.len() > 0 {
        lemma_requests_in_order(subscriptions.drop_last());
    }
}

} // verus!
