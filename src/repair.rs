//! Broker discovery and repair. Discovery listens on a short-lived
//! connection and collects the plant IDs named by retained topics; repair
//! clears the topics of plants that the store no longer holds and
//! republishes every stored plant.
use vstd::prelude::*;
use std::collections::HashSet;
use vstd::std_specs::hash::spec_hash_keys_iter;
use vstd::std_specs::iter::IteratorSpec;
use crate::publish::{messages_view, removal_messages, removal_of, republish_messages, republish_of, Message, PlantRecord};
use crate::topics::{extract_id, extract_plant_id, patterns_of, strings_view, subscription_patterns};

verus! {

broadcast use vstd::std_specs::hash::group_hash_axioms;

/// What the discovery connection reports.
pub enum BrokerEvent {
    /// The broker acknowledged the connection.
    ConnAck,
    /// A message arrived on the given topic.
    Publish(String),
    /// Anything else, a subscription acknowledgement included.
    Other,
    /// The connection ended.
    Closed,
    /// The idle window passed without any event.
    IdleTimeout,
}

/// What the discovery connection is to do next.
pub enum DiscoveryAction {
    /// Subscribe to these patterns, then keep listening.
    Subscribe(Vec<String>),
    /// Keep listening.
    Listen,
    /// Stop listening and close the connection.
    Finish,
}

/// The discovery state as plain values.
pub struct DiscoveryModel {
    /// Plant IDs seen on the broker so far.
    pub ids: Set<i64>,
    /// Whether the broker acknowledged the connection.
    pub reached: bool,
    /// Whether listening has ended.
    pub finished: bool,
}

/// The state after `event`.
pub open spec fn discovery_after(s: DiscoveryModel, prefix: Seq<char>, event: BrokerEvent) -> DiscoveryModel {
    match event {
        BrokerEvent::ConnAck => DiscoveryModel { ids: s.ids, reached: true, finished: s.finished },
        BrokerEvent::Publish(t) => match extract_id(t@, prefix) {
            Some(id) => DiscoveryModel { ids: s.ids.insert(id), reached: s.reached, finished: s.finished },
            None => s,
        },
        BrokerEvent::Other => s,
        BrokerEvent::Closed => DiscoveryModel { ids: s.ids, reached: s.reached, finished: true },
        BrokerEvent::IdleTimeout => DiscoveryModel { ids: s.ids, reached: s.reached, finished: true },
    }
}

/// Whether `a` is the action owed after `event`.
pub open spec fn discovery_action(a: DiscoveryAction, prefix: Seq<char>, event: BrokerEvent) -> bool {
    match event {
        BrokerEvent::ConnAck => match a {
            DiscoveryAction::Subscribe(p) => strings_view(p@) == patterns_of(prefix),
            _ => false,
        },
        BrokerEvent::Closed => a is Finish,
        BrokerEvent::IdleTimeout => a is Finish,
        _ => a is Listen,
    }
}

/// The listening side of broker discovery.
pub struct Discovery {
    prefix: String,
    ids: HashSet<i64>,
    reached: bool,
    finished: bool,
}

impl Discovery {
    /// The state as plain values.
    pub closed spec fn model(&self) -> DiscoveryModel {
        DiscoveryModel { ids: self.ids@, reached: self.reached, finished: self.finished }
    }

    /// The topic prefix listened for.
    pub closed spec fn prefix_view(&self) -> Seq<char> {
        self.prefix@
    }

    /// Discovery for `prefix`, before the connection is acknowledged.
    pub fn new(prefix: &str) -> (r: Discovery)
        ensures
            r.prefix_view() == prefix@,
            r.model() == (DiscoveryModel { ids: Set::empty(), reached: false, finished: false }),
    {
        Discovery { prefix: String::from_str(prefix), ids: HashSet::new(), reached: false, finished: false }
    }

    /// Takes in one event and says what to do next.
    pub fn step(&mut self, event: BrokerEvent) -> (a: DiscoveryAction)
        ensures
            final(self).prefix_view() == old(self).prefix_view(),
            final(self).model() == discovery_after(old(self).model(), old(self).prefix_view(), event),
            discovery_action(a, old(self).prefix_view(), event),
    {
        match event {
            BrokerEvent::ConnAck => {
                self.reached = true;
                DiscoveryAction::Subscribe(subscription_patterns(self.prefix.as_str()))
            },
            BrokerEvent::Publish(topic) => {
                match extract_plant_id(topic.as_str(), self.prefix.as_str()) {
                    Some(id) => {
                        self.ids.insert(id);
                    },
                    None => {},
                }
                DiscoveryAction::Listen
            },
            BrokerEvent::Other => DiscoveryAction::Listen,
            BrokerEvent::Closed => {
                self.finished = true;
                DiscoveryAction::Finish
            },
            BrokerEvent::IdleTimeout => {
                self.finished = true;
                DiscoveryAction::Finish
            },
        }
    }

    /// Whether the broker acknowledged the connection.
    pub fn reached(&self) -> (r: bool)
        ensures
            r == self.model().reached,
    {
        self.reached
    }

    /// The plant IDs seen, ending the discovery.
    pub fn into_ids(self) -> (r: HashSet<i64>)
        ensures
            r@ == self.model().ids,
    {
        self.ids
    }
}

/// The elements of a set, each once, in the set's iteration order.
pub fn set_elements(s: &HashSet<i64>) -> (r: Vec<i64>)
    ensures
        r@.to_set() == s@,
        r@.no_duplicates(),
{
    let ghost keys = spec_hash_keys_iter(s).remaining().unref();
    let mut r: Vec<i64> = Vec::new();
    for x in it: s.iter()
        invariant
            it.seq() == spec_hash_keys_iter(s).remaining(),
            r@ == keys.subrange(0, it.index()),
            keys == spec_hash_keys_iter(s).remaining().unref(),
    {
        assert(it.index() < keys.len());
        assert(*x == keys[it.index()]);
        r.push(*x);
        assert(r@ =~= keys.subrange(0, it.index() + 1));
    }
    assert(r@ =~= keys);
    r
}

/// The counts that a repair reports.
pub struct RepairResult {
    /// Orphaned plants whose topics were cleared.
    pub cleared: usize,
    /// Stored plants whose state was republished.
    pub published: usize,
}

/// The plants seen on the broker that the store does not hold.
pub open spec fn orphans_of(broker: Set<i64>, store: Seq<i64>) -> Set<i64> {
    broker.difference(store.to_set())
}

/// The set of the given IDs.
pub fn id_set(ids: &Vec<i64>) -> (r: HashSet<i64>)
    ensures
        r@ == ids@.to_set(),
{
    let mut r: HashSet<i64> = HashSet::new();
    let mut i: usize = 0;
    while i < ids.len()
        invariant
            i <= ids@.len(),
            r@ == ids@.subrange(0, i as int).to_set(),
        decreases ids.len() - i,
    {
        proof {
            ids@.subrange(0, i as int).lemma_push_to_set_commute(ids@[i as int]);
            assert(ids@.subrange(0, i + 1) =~= ids@.subrange(0, i as int).push(ids@[i as int]));
        }
        r.insert(ids[i]);
        i = i + 1;
    }
    assert(ids@.subrange(0, ids@.len() as int) =~= ids@);
    r
}

/// The IDs seen on the broker that are not in `store`, each once.
pub fn orphan_ids(broker: &HashSet<i64>, store: &HashSet<i64>) -> (r: Vec<i64>)
    ensures
        r@.to_set() == broker@.difference(store@),
        r@.no_duplicates(),
{
    let seen = set_elements(broker);
    let mut r: Vec<i64> = Vec::new();
    let mut i: usize = 0;
    while i < seen.len()
        invariant
            i <= seen@.len(),
            seen@.no_duplicates(),
            seen@.to_set() == broker@,
            r@.no_duplicates(),
            forall|k: int| 0 <= k < r@.len() ==> seen@.subrange(0, i as int).contains(#[trigger] r@[k]),
            r@.to_set() == seen@.subrange(0, i as int).to_set().difference(store@),
        decreases seen.len() - i,
    {
        let b = seen[i];
        let ghost before = r@;
        let ghost pre = seen@.subrange(0, i as int);
        proof {
            pre.lemma_push_to_set_commute(b);
            assert(seen@.subrange(0, i + 1) =~= pre.push(b));
            assert(!pre.contains(b)) by {
                if pre.contains(b) {
                    let k = choose|k: int| 0 <= k < pre.len() && pre[k] == b;
                    assert(seen@[k] == seen@[i as int]);
                }
            }
        }
        if !store.contains(&b) {
            r.push(b);
            proof {
                before.lemma_push_to_set_commute(b);
                assert(r@ == before.push(b));
                assert forall|x: int, y: int| 0 <= x < y < r@.len() implies r@[x] != r@[y] by {
                    if y == r@.len() - 1 {
                        assert(pre.contains(before[x]));
                    } else {
                        assert(before[x] != before[y]);
                    }
                }
            }
        }
        i = i + 1;
        proof {
            let now = seen@.subrange(0, i as int);
            assert forall|k: int| 0 <= k < r@.len() implies now.contains(#[trigger] r@[k]) by {
                if k < before.len() {
                    assert(pre.contains(r@[k]));
                    let w = choose|w: int| 0 <= w < pre.len() && pre[w] == r@[k];
                    assert(now[w] == r@[k]);
                } else {
                    assert(now[i - 1] == b);
                }
            }
            assert(r@.to_set() =~= now.to_set().difference(store@));
        }
    }
    assert(seen@.subrange(0, seen@.len() as int) =~= seen@);
    r
}

/// What a repair does: the orphans whose topics it clears, and the counts it
/// reports.
pub struct RepairPlan {
    pub orphans: Vec<i64>,
    pub result: RepairResult,
}

/// Plans a repair from what discovery found and from the IDs in the store
/// (none when the store query failed). An unreachable broker or a failed
/// query gives an empty plan and zero counts; otherwise the orphans are
/// cleared and every stored plant is republished.
pub fn plan_repair(reached: bool, broker_ids: &HashSet<i64>, store_ids: Option<&Vec<i64>>) -> (r: RepairPlan)
    ensures
        r.orphans@.no_duplicates(),
        match store_ids {
            Some(s) if reached => {
                &&& r.orphans@.to_set() == orphans_of(broker_ids@, s@)
                &&& r.result.cleared == orphans_of(broker_ids@, s@).len()
                &&& r.result.published == s@.to_set().len()
            },
            _ => {
                &&& r.orphans@.len() == 0
                &&& r.result.cleared == 0
                &&& r.result.published == 0
            },
        },
{
    match store_ids {
        Some(s) => {
            if reached {
                let store = id_set(s);
                let orphans = orphan_ids(broker_ids, &store);
                proof {
                    orphans@.unique_seq_to_set();
                }
                let cleared = orphans.len();
                let published = store.len();
                RepairPlan { orphans, result: RepairResult { cleared, published } }
            } else {
                RepairPlan { orphans: Vec::new(), result: RepairResult { cleared: 0, published: 0 } }
            }
        },
        None => RepairPlan { orphans: Vec::new(), result: RepairResult { cleared: 0, published: 0 } },
    }
}

/// The removal messages of each ID in turn.
pub open spec fn removals_of(prefix: Seq<char>, ids: Seq<i64>) -> Seq<(Seq<char>, Seq<char>, bool)>
    decreases ids.len(),
{
    if ids.len() == 0 {
        Seq::empty()
    } else {
        removals_of(prefix, ids.drop_last()) + removal_of(prefix, ids.last() as int)
    }
}

/// The messages of a repair: the removals of the orphans, then the full
/// state of every stored plant.
pub fn repair_messages(prefix: &str, orphans: &Vec<i64>, rows: &Vec<PlantRecord>, today: i32) -> (r: Vec<Message>)
    ensures
        messages_view(r@) == removals_of(prefix@, orphans@) + republish_of(prefix@, rows@, today as int),
{
    let mut r: Vec<Message> = Vec::new();
    let mut i: usize = 0;
    while i < orphans.len()
        invariant
            i <= orphans@.len(),
            messages_view(r@) == removals_of(prefix@, orphans@.subrange(0, i as int)),
        decreases orphans.len() - i,
    {
        let mut more = removal_messages(prefix, orphans[i]);
        let ghost added = more@;
        let ghost before = r@;
        r.append(&mut more);
        proof {
            let now = orphans@.subrange(0, i + 1);
            assert(now.drop_last() =~= orphans@.subrange(0, i as int));
            assert(messages_view(r@) =~= messages_view(before) + messages_view(added));
        }
        i = i + 1;
    }
    assert(orphans@.subrange(0, orphans@.len() as int) =~= orphans@);
    let ghost removals = r@;
    let mut rest = republish_messages(prefix, rows, today);
    let ghost added = rest@;
    r.append(&mut rest);
    assert(messages_view(r@) =~= messages_view(removals) + messages_view(added));
    r
}

/// A repair reports the same counts and clears the same orphans whatever
/// the order, or the repetitions, in which the store's IDs arrive.
pub proof fn lemma_repair_depends_on_sets(broker: Set<i64>, store1: Seq<i64>, store2: Seq<i64>)
    requires
        store1.to_set() == store2.to_set(),
    ensures
        orphans_of(broker, store1) == orphans_of(broker, store2),
        orphans_of(broker, store1).len() == orphans_of(broker, store2).len(),
        store1.to_set().len() == store2.to_set().len(),
{
}

} // verus!
