//! The orders tracked for one subscriber.

use crate::keyed::{
    as_map, distinct, has_key, lemma_absent, lemma_count, lemma_lookup, lemma_pushed,
    lemma_removed, lemma_replaced,
};
use crate::response::{Order, Response};
use crate::status::Status;
use vstd::prelude::*;

verus! {

/// A record older than this is dropped from the cache: twelve hours, in
/// milliseconds.
pub const STALE_AFTER_MILLIS: i64 = 43_200_000;

/// One tracked order.
#[derive(Debug)]
struct OrderRecord {
    external_id: String,
    status: Status,
    first_seen: i64,
}

/// What the cache holds for an order id.
#[derive(Clone, Copy, Debug, PartialEq, Eq, Structural)]
pub struct Entry {
    pub status: Status,
    /// When the order was first observed, in milliseconds since the Unix
    /// epoch.
    pub first_seen: i64,
}

/// A request to tell the subscriber that an order has reached a status.
#[derive(Debug)]
pub struct NotificationEvent {
    pub order_id: String,
    pub status: Status,
}

impl Clone for NotificationEvent {
    fn clone(&self) -> (copy: NotificationEvent)
        ensures
            copy == *self,
    {
        NotificationEvent { order_id: self.order_id.clone(), status: self.status }
    }
}

impl View for NotificationEvent {
    type V = (Seq<char>, Status);

    open spec fn view(&self) -> (Seq<char>, Status) {
        (self.order_id@, self.status)
    }
}

/// Whether a record first seen at `first_seen` is too old at `now`.
pub open spec fn is_stale(first_seen: int, now: int) -> bool {
    now - first_seen > STALE_AFTER_MILLIS
}

/// The cache without its stale records.
pub open spec fn unexpired(cache: Map<Seq<char>, Entry>, now: int) -> Map<Seq<char>, Entry> {
    Map::new(
        |id: Seq<char>| cache.contains_key(id) && !is_stale(cache[id].first_seen as int, now),
        |id: Seq<char>| cache[id],
    )
}

/// Whether an answer changes the status of a tracked order in a way that is
/// worth a notification. The first sighting of an order never is.
pub open spec fn is_news(cache: Map<Seq<char>, Entry>, order: Order) -> bool {
    cache.contains_key(order.order_id@) && cache[order.order_id@].status.compared_to(
        order.status,
    ).notifies()
}

/// The cache after an answer has been observed.
///
/// An unknown order is recorded as it is. A known order takes the new
/// status and keeps the time of its first sighting, unless the change is
/// news of a terminal status: then the order is dropped.
pub open spec fn cache_after(cache: Map<Seq<char>, Entry>, response: Response) -> Map<
    Seq<char>,
    Entry,
> {
    match response {
        Response::NoOrder(_) => cache,
        Response::Order(order) => {
            let id = order.order_id@;
            if !cache.contains_key(id) {
                cache.insert(id, Entry { status: order.status, first_seen: order.first_seen })
            } else if is_news(cache, order) && order.status.terminal() {
                cache.remove(id)
            } else {
                cache.insert(
                    id,
                    Entry { status: order.status, first_seen: cache[id].first_seen },
                )
            }
        },
    }
}

/// The notification that observing an answer calls for, if any.
pub open spec fn event_after(cache: Map<Seq<char>, Entry>, response: Response) -> Option<
    (Seq<char>, Status),
> {
    match response {
        Response::NoOrder(_) => None,
        Response::Order(order) => {
            if is_news(cache, order) {
                Some((order.order_id@, order.status))
            } else {
                None
            }
        },
    }
}

spec fn ids(records: Seq<OrderRecord>) -> Seq<Seq<char>> {
    records.map_values(|record: OrderRecord| record.external_id@)
}

spec fn entries(records: Seq<OrderRecord>) -> Seq<Entry> {
    records.map_values(
        |record: OrderRecord| Entry { status: record.status, first_seen: record.first_seen },
    )
}

fn position(records: &Vec<OrderRecord>, id: &str) -> (found: Option<usize>)
    ensures
        match found {
            Some(i) => has_key(ids(records@), id@, i as int),
            None => forall|i: int| 0 <= i < records.len() ==> ids(records@)[i] != id@,
        },
{
    let mut i: usize = 0;
    while i < records.len()
        invariant
            i <= records.len(),
            forall|j: int| 0 <= j < i ==> ids(records@)[j] != id@,
        decreases records.len() - i,
    {
        if *records[i].external_id.as_str() == *id {
            return Some(i);
        }
        i += 1;
    }
    None
}

fn stale(first_seen: i64, now: i64) -> (old: bool)
    ensures
        old == is_stale(first_seen as int, now as int),
{
    now as i128 - first_seen as i128 > STALE_AFTER_MILLIS as i128
}

/// The orders tracked for one subscriber, by order id.
#[derive(Debug)]
pub struct OrderCache {
    records: Vec<OrderRecord>,
}

impl View for OrderCache {
    type V = Map<Seq<char>, Entry>;

    closed spec fn view(&self) -> Map<Seq<char>, Entry> {
        as_map(ids(self.records@), entries(self.records@))
    }
}

impl OrderCache {
    #[verifier::type_invariant]
    spec fn no_id_twice(&self) -> bool {
        distinct(ids(self.records@))
    }

    /// A cache that tracks nothing.
    pub fn new() -> (cache: OrderCache)
        ensures
            cache@ == Map::<Seq<char>, Entry>::empty(),
    {
        let cache = OrderCache { records: Vec::new() };
        assert(cache@ =~= Map::<Seq<char>, Entry>::empty());
        cache
    }

    /// What is tracked for the order `id`, if anything.
    pub fn get(&self, id: &str) -> (found: Option<Entry>)
        ensures
            found == (if self@.contains_key(id@) {
                Some(self@[id@])
            } else {
                None
            }),
    {
        proof {
            use_type_invariant(self);
        }
        match position(&self.records, id) {
            Some(i) => {
                proof {
                    lemma_lookup(ids(self.records@), entries(self.records@), i as int);
                }
                Some(Entry { status: self.records[i].status, first_seen: self.records[i].first_seen })
            },
            None => {
                proof {
                    lemma_absent(ids(self.records@), entries(self.records@), id@);
                }
                None
            },
        }
    }

    /// How many orders are tracked.
    pub fn len(&self) -> (n: usize)
        ensures
            n == self@.len(),
            self@.dom().finite(),
    {
        proof {
            use_type_invariant(self);
            lemma_count(ids(self.records@), entries(self.records@));
        }
        self.records.len()
    }

    /// Takes in a fresh answer of a status endpoint.
    ///
    /// The first sighting of an order records it and notifies nobody. A later
    /// answer replaces the recorded status, and is news where the status
    /// table relates the old status to the new one and does not rank them
    /// equal. News of a terminal status ends the tracking of the order.
    pub fn observe(&mut self, response: Response) -> (event: Option<NotificationEvent>)
        ensures
            final(self)@ == cache_after(old(self)@, response),
            match event {
                Some(e) => event_after(old(self)@, response) == Some(e@),
                None => event_after(old(self)@, response).is_none(),
            },
    {
        proof {
            use_type_invariant(&*self);
        }
        match response {
            Response::NoOrder(_) => None,
            Response::Order(order) => {
                let ghost before = self.records@;
                let mut records: Vec<OrderRecord> = Vec::new();
                std::mem::swap(&mut records, &mut self.records);
                let event = match position(&records, order.order_id.as_str()) {
                    None => {
                        let record = OrderRecord {
                            external_id: order.order_id,
                            status: order.status,
                            first_seen: order.first_seen,
                        };
                        records.push(record);
                        proof {
                            let entry = Entry {
                                status: order.status,
                                first_seen: order.first_seen,
                            };
                            lemma_absent(ids(before), entries(before), order.order_id@);
                            lemma_pushed(ids(before), entries(before), order.order_id@, entry);
                            assert(ids(records@) =~= ids(before).push(order.order_id@));
                            assert(entries(records@) =~= entries(before).push(entry));
                        }
                        None
                    },
                    Some(i) => {
                        proof {
                            lemma_lookup(ids(before), entries(before), i as int);
                        }
                        let news = records[i].status.compare(&order.status).is_notifying();
                        if news && order.status.is_terminal() {
                            records.remove(i);
                            proof {
                                lemma_removed(ids(before), entries(before), i as int);
                                assert(ids(records@) =~= ids(before).remove(i as int));
                                assert(entries(records@) =~= entries(before).remove(i as int));
                            }
                        } else {
                            records[i].status = order.status;
                            proof {
                                let entry = Entry {
                                    status: order.status,
                                    first_seen: before[i as int].first_seen,
                                };
                                lemma_replaced(ids(before), entries(before), i as int, entry);
                                assert(ids(records@) =~= ids(before));
                                assert(entries(records@) =~= entries(before).update(
                                    i as int,
                                    entry,
                                ));
                            }
                        }
                        if news {
                            Some(NotificationEvent { order_id: order.order_id, status: order.status })
                        } else {
                            None
                        }
                    },
                };
                self.records = records;
                event
            },
        }
    }

    /// Drops every record that was first seen more than twelve hours before
    /// `now`, whatever its status, and keeps the others as they are.
    pub fn expire(&mut self, now: i64)
        ensures
            final(self)@ == unexpired(old(self)@, now as int),
    {
        proof {
            use_type_invariant(&*self);
        }
        let ghost before = self.records@;
        let mut records: Vec<OrderRecord> = Vec::new();
        std::mem::swap(&mut records, &mut self.records);
        let mut i: usize = 0;
        while i < records.len()
            invariant
                i <= records.len(),
                distinct(ids(records@)),
                forall|j: int| 0 <= j < i ==> !is_stale(records[j].first_seen as int, now as int),
                unexpired(as_map(ids(records@), entries(records@)), now as int) == unexpired(
                    as_map(ids(before), entries(before)),
                    now as int,
                ),
            decreases records.len() - i,
        {
            if stale(records[i].first_seen, now) {
                let ghost full = records@;
                records.remove(i);
                proof {
                    lemma_lookup(ids(full), entries(full), i as int);
                    lemma_removed(ids(full), entries(full), i as int);
                    assert(ids(records@) =~= ids(full).remove(i as int));
                    assert(entries(records@) =~= entries(full).remove(i as int));
                    assert(unexpired(as_map(ids(records@), entries(records@)), now as int)
                        =~= unexpired(as_map(ids(full), entries(full)), now as int));
                }
            } else {
                i += 1;
            }
        }
        proof {
            let kept = as_map(ids(records@), entries(records@));
            assert(unexpired(kept, now as int) =~= kept) by {
                assert forall|id: Seq<char>| kept.contains_key(id) implies !is_stale(
                    kept[id].first_seen as int,
                    now as int,
                ) by {
                    let j = choose|j: int| has_key(ids(records@), id, j);
                    lemma_lookup(ids(records@), entries(records@), j);
                }
            }
        }
        self.records = records;
    }
}

/// Expiry drops exactly the records that are more than twelve hours old,
/// whatever their status, and leaves every other record as it is.
pub proof fn lemma_expiry_drops_the_stale_only(cache: Map<Seq<char>, Entry>, now: int)
    ensures
        forall|id: Seq<char>|
            #![trigger unexpired(cache, now).contains_key(id)]
            unexpired(cache, now).contains_key(id) <==> cache.contains_key(id) && now
                - cache[id].first_seen <= STALE_AFTER_MILLIS,
        forall|id: Seq<char>|
            #![trigger unexpired(cache, now)[id]]
            unexpired(cache, now).contains_key(id) ==> unexpired(cache, now)[id] == cache[id],
{
}

/// An answer that repeats the recorded status of an order is no news, and
/// leaves the cache as it is.
pub proof fn lemma_same_status_is_no_news(cache: Map<Seq<char>, Entry>, order: Order)
    requires
        cache.contains_key(order.order_id@),
        cache[order.order_id@].status == order.status,
    ensures
        event_after(cache, Response::Order(order)).is_none(),
        cache_after(cache, Response::Order(order)) == cache,
{
    assert(cache_after(cache, Response::Order(order)) =~= cache);
}

/// The first sighting of an order records it, with the status and the time
/// of the answer, and is no news.
pub proof fn lemma_first_sighting_is_no_news(cache: Map<Seq<char>, Entry>, order: Order)
    requires
        !cache.contains_key(order.order_id@),
    ensures
        event_after(cache, Response::Order(order)).is_none(),
        cache_after(cache, Response::Order(order)) == cache.insert(
            order.order_id@,
            Entry { status: order.status, first_seen: order.first_seen },
        ),
{
}

/// News of a status that is not terminal replaces the recorded status and
/// keeps the time of the first sighting.
pub proof fn lemma_news_replaces_the_status(cache: Map<Seq<char>, Entry>, order: Order)
    requires
        is_news(cache, order),
        !order.status.terminal(),
    ensures
        event_after(cache, Response::Order(order)) == Some((order.order_id@, order.status)),
        cache_after(cache, Response::Order(order)) == cache.insert(
            order.order_id@,
            Entry { status: order.status, first_seen: cache[order.order_id@].first_seen },
        ),
{
}

/// News of a terminal status ends the tracking of the order.
pub proof fn lemma_terminal_news_drops_the_order(cache: Map<Seq<char>, Entry>, order: Order)
    requires
        is_news(cache, order),
        order.status.terminal(),
    ensures
        event_after(cache, Response::Order(order)) == Some((order.order_id@, order.status)),
        !cache_after(cache, Response::Order(order)).contains_key(order.order_id@),
{
}

} // verus!
