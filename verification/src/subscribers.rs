//! The order caches of all subscribers, by phone number.

use crate::cache::{cache_after, event_after, unexpired, Entry, NotificationEvent, OrderCache};
use crate::keyed::{
    as_map, distinct, has_key, lemma_absent, lemma_lookup, lemma_pushed, lemma_replaced,
};
use crate::phone::{PhoneNumber, PhoneView};
use crate::response::Response;
use vstd::prelude::*;

verus! {

/// What is tracked for each order id of one subscriber.
pub type Orders = Map<Seq<char>, Entry>;

/// The orders recorded under `phone`: none where the subscriber has no cache
/// yet.
pub open spec fn orders_of(caches: Map<PhoneView, Orders>, phone: PhoneView) -> Orders {
    if caches.contains_key(phone) {
        caches[phone]
    } else {
        Map::empty()
    }
}

/// The caches with the stale records dropped from each.
pub open spec fn all_unexpired(caches: Map<PhoneView, Orders>, now: int) -> Map<PhoneView, Orders> {
    caches.map_values(|orders: Orders| unexpired(orders, now))
}

#[derive(Debug)]
struct Subscription {
    phone: PhoneNumber,
    orders: OrderCache,
}

spec fn phones(list: Seq<Subscription>) -> Seq<PhoneView> {
    list.map_values(|sub: Subscription| sub.phone@)
}

spec fn caches(list: Seq<Subscription>) -> Seq<Orders> {
    list.map_values(|sub: Subscription| sub.orders@)
}

fn position(list: &Vec<Subscription>, phone: &PhoneNumber) -> (found: Option<usize>)
    ensures
        match found {
            Some(i) => has_key(phones(list@), phone@, i as int),
            None => forall|i: int| 0 <= i < list.len() ==> phones(list@)[i] != phone@,
        },
{
    let mut i: usize = 0;
    while i < list.len()
        invariant
            i <= list.len(),
            forall|j: int| 0 <= j < i ==> phones(list@)[j] != phone@,
        decreases list.len() - i,
    {
        if list[i].phone.same_as(phone) {
            return Some(i);
        }
        i += 1;
    }
    None
}

/// The order caches of the subscribers, one for each phone number that an
/// answer was observed for.
#[derive(Debug)]
pub struct Subscriptions {
    list: Vec<Subscription>,
}

impl View for Subscriptions {
    type V = Map<PhoneView, Orders>;

    closed spec fn view(&self) -> Map<PhoneView, Orders> {
        as_map(phones(self.list@), caches(self.list@))
    }
}

impl Subscriptions {
    #[verifier::type_invariant]
    spec fn no_phone_twice(&self) -> bool {
        distinct(phones(self.list@))
    }

    /// No caches.
    pub fn new() -> (caches: Subscriptions)
        ensures
            caches@ == Map::<PhoneView, Orders>::empty(),
    {
        let caches = Subscriptions { list: Vec::new() };
        assert(caches@ =~= Map::<PhoneView, Orders>::empty());
        caches
    }

    /// The cache of the subscriber with this phone number, if there is one.
    pub fn get(&self, phone: &PhoneNumber) -> (found: Option<&OrderCache>)
        ensures
            match found {
                Some(cache) => self@.contains_key(phone@) && cache@ == self@[phone@],
                None => !self@.contains_key(phone@),
            },
    {
        proof {
            use_type_invariant(self);
        }
        match position(&self.list, phone) {
            Some(i) => {
                proof {
                    lemma_lookup(phones(self.list@), caches(self.list@), i as int);
                }
                Some(&self.list[i].orders)
            },
            None => {
                proof {
                    lemma_absent(phones(self.list@), caches(self.list@), phone@);
                }
                None
            },
        }
    }

    /// Takes an answer into the cache of the subscriber with this phone
    /// number. A subscriber without a cache gets an empty one first.
    pub fn observe(&mut self, phone: &PhoneNumber, response: Response) -> (event: Option<
        NotificationEvent,
    >)
        ensures
            final(self)@ == old(self)@.insert(
                phone@,
                cache_after(orders_of(old(self)@, phone@), response),
            ),
            match event {
                Some(e) => event_after(orders_of(old(self)@, phone@), response) == Some(e@),
                None => event_after(orders_of(old(self)@, phone@), response).is_none(),
            },
    {
        proof {
            use_type_invariant(&*self);
        }
        let ghost before = self.list@;
        let mut list: Vec<Subscription> = Vec::new();
        std::mem::swap(&mut list, &mut self.list);
        let event = match position(&list, phone) {
            Some(i) => {
                proof {
                    lemma_lookup(phones(before), caches(before), i as int);
                }
                let event = list[i].orders.observe(response);
                proof {
                    let orders = list[i as int].orders@;
                    lemma_replaced(phones(before), caches(before), i as int, orders);
                    assert(phones(list@) =~= phones(before));
                    assert(caches(list@) =~= caches(before).update(i as int, orders));
                }
                event
            },
            None => {
                let mut orders = OrderCache::new();
                let event = orders.observe(response);
                list.push(Subscription { phone: phone.clone(), orders });
                proof {
                    let orders = list[list.len() - 1].orders@;
                    lemma_absent(phones(before), caches(before), phone@);
                    lemma_pushed(phones(before), caches(before), phone@, orders);
                    assert(phones(list@) =~= phones(before).push(phone@));
                    assert(caches(list@) =~= caches(before).push(orders));
                }
                event
            },
        };
        self.list = list;
        event
    }

    /// Drops the stale records from every cache.
    pub fn expire(&mut self, now: i64)
        ensures
            final(self)@ == all_unexpired(old(self)@, now as int),
    {
        proof {
            use_type_invariant(&*self);
        }
        let ghost before = self.list@;
        let mut list: Vec<Subscription> = Vec::new();
        std::mem::swap(&mut list, &mut self.list);
        let mut i: usize = 0;
        while i < list.len()
            invariant
                i <= list.len(),
                list.len() == before.len(),
                phones(list@) == phones(before),
                forall|j: int|
                    0 <= j < i ==> #[trigger] list[j].orders@ == unexpired(
                        before[j].orders@,
                        now as int,
                    ),
                forall|j: int| i <= j < list.len() ==> #[trigger] list[j].orders@ == before[j].orders@,
            decreases list.len() - i,
        {
            let ghost full = list@;
            list[i].orders.expire(now);
            proof {
                assert(phones(list@) =~= phones(full));
            }
            i += 1;
        }
        proof {
            let kept = as_map(phones(list@), caches(list@));
            let expected = all_unexpired(as_map(phones(before), caches(before)), now as int);
            assert forall|phone: PhoneView| kept.contains_key(phone) implies kept[phone]
                == expected[phone] by {
                let j = choose|j: int| has_key(phones(list@), phone, j);
                lemma_lookup(phones(list@), caches(list@), j);
                lemma_lookup(phones(before), caches(before), j);
            }
            assert(kept =~= expected);
        }
        self.list = list;
    }
}

} // verus!
