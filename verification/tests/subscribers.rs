use pizza_freak::cache::{Entry, STALE_AFTER_MILLIS};
use pizza_freak::phone::PhoneNumber;
use pizza_freak::response::{NoOrder, Order, Response};
use pizza_freak::status::Status;
use pizza_freak::subscribers::Subscriptions;

fn phone(raw: &str) -> PhoneNumber {
    PhoneNumber::try_parse(raw).unwrap()
}

fn order(id: &str, status: Status, at: i64) -> Response {
    Response::Order(Order {
        order_id: id.to_string(),
        order_key: String::new(),
        status,
        first_seen: at,
    })
}

#[test]
fn no_cache_before_the_first_answer() {
    let caches = Subscriptions::new();
    assert!(caches.get(&phone("5551234567")).is_none());
}

#[test]
fn an_answer_makes_the_cache() {
    let mut caches = Subscriptions::new();
    let event = caches.observe(&phone("5551234567"), order("42", Status::Cooking, 10));
    assert!(event.is_none());
    let cache = caches.get(&phone("555-123-4567")).unwrap();
    assert_eq!(cache.get("42"), Some(Entry { status: Status::Cooking, first_seen: 10 }));
}

#[test]
fn no_order_makes_an_empty_cache() {
    let mut caches = Subscriptions::new();
    let none = Response::NoOrder(NoOrder { message: "nothing".to_string() });
    assert!(caches.observe(&phone("5551234567"), none).is_none());
    assert_eq!(caches.get(&phone("5551234567")).unwrap().len(), 0);
}

#[test]
fn subscribers_are_kept_apart() {
    let mut caches = Subscriptions::new();
    let a = phone("5551234567");
    let b = phone("5559876543");
    assert!(caches.observe(&a, order("42", Status::Cooking, 10)).is_none());
    assert!(caches.observe(&b, order("42", Status::OnTheWay, 20)).is_none());
    let event = caches.observe(&a, order("42", Status::OnTheWay, 30)).unwrap();
    assert_eq!(event.status, Status::OnTheWay);
    assert!(caches.observe(&b, order("42", Status::OnTheWay, 40)).is_none());
    assert_eq!(
        caches.get(&a).unwrap().get("42"),
        Some(Entry { status: Status::OnTheWay, first_seen: 10 })
    );
    assert_eq!(
        caches.get(&b).unwrap().get("42"),
        Some(Entry { status: Status::OnTheWay, first_seen: 20 })
    );
}

#[test]
fn expire_reaches_every_cache() {
    let mut caches = Subscriptions::new();
    let a = phone("5551234567");
    let b = phone("5559876543");
    caches.observe(&a, order("old", Status::Cooking, 0));
    caches.observe(&a, order("young", Status::Cooking, 100));
    caches.observe(&b, order("old", Status::Delivered, 0));
    caches.expire(STALE_AFTER_MILLIS + 1);
    assert_eq!(caches.get(&a).unwrap().get("old"), None);
    assert_eq!(
        caches.get(&a).unwrap().get("young"),
        Some(Entry { status: Status::Cooking, first_seen: 100 })
    );
    assert_eq!(caches.get(&b).unwrap().len(), 0);
}
