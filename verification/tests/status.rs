use pizza_freak::status::{Comparison, Status};

const ALL: [Status; 14] = [
    Status::Making,
    Status::OnTheWay,
    Status::PickupReady,
    Status::Delivered,
    Status::PickedUp,
    Status::Deferred,
    Status::Questionnaire,
    Status::Suspended,
    Status::Canceled,
    Status::Reviewing,
    Status::Cooking,
    Status::MakingEmulated,
    Status::CookingEmulated,
    Status::Unknown,
];

const KITCHEN: [Status; 4] =
    [Status::Making, Status::Cooking, Status::MakingEmulated, Status::CookingEmulated];

const HANDOVER: [Status; 3] = [Status::PickupReady, Status::Delivered, Status::PickedUp];

fn in_kitchen(s: Status) -> bool {
    KITCHEN.contains(&s)
}

fn above_deferred(s: Status) -> bool {
    in_kitchen(s) || matches!(s, Status::OnTheWay | Status::Delivered | Status::PickedUp)
}

fn at_odds(a: Status, b: Status) -> bool {
    (a == Status::Deferred && above_deferred(b))
        || (b == Status::Deferred && above_deferred(a))
        || matches!(
            (a, b),
            (Status::Questionnaire, Status::Canceled) | (Status::Canceled, Status::Questionnaire)
        )
}

fn inverse(c: Comparison) -> Comparison {
    match c {
        Comparison::Less => Comparison::Greater,
        Comparison::Greater => Comparison::Less,
        other => other,
    }
}

#[test]
fn compare_is_equal_on_itself() {
    for s in ALL {
        assert_eq!(s.compare(&s), Comparison::Equal);
    }
}

#[test]
fn kitchen_statuses_rank_equal() {
    for a in KITCHEN {
        for b in KITCHEN {
            assert_eq!(a.compare(&b), Comparison::Equal);
        }
    }
}

#[test]
fn only_equal_ranks_compare_equal() {
    for a in ALL {
        for b in ALL {
            let same = a == b || (in_kitchen(a) && in_kitchen(b));
            assert_eq!(a.compare(&b) == Comparison::Equal, same);
        }
    }
}

#[test]
fn pairs_not_at_odds_invert() {
    for a in ALL {
        for b in ALL {
            if !at_odds(a, b) {
                assert_eq!(b.compare(&a), inverse(a.compare(&b)));
            }
        }
    }
}

#[test]
fn less_is_answered_by_greater() {
    for a in ALL {
        for b in ALL {
            if a.compare(&b) == Comparison::Less && !at_odds(a, b) {
                assert_eq!(b.compare(&a), Comparison::Greater);
            }
        }
    }
}

#[test]
fn incomparable_goes_both_ways() {
    for a in ALL {
        for b in ALL {
            assert_eq!(
                a.compare(&b) == Comparison::Incomparable,
                b.compare(&a) == Comparison::Incomparable
            );
        }
    }
}

#[test]
fn pairs_at_odds_keep_their_own_rules() {
    for s in ALL {
        if above_deferred(s) {
            assert_eq!(s.compare(&Status::Deferred), Comparison::Greater);
            assert_eq!(Status::Deferred.compare(&s), Comparison::Greater);
        }
    }
    assert_eq!(Status::Questionnaire.compare(&Status::Canceled), Comparison::Less);
    assert_eq!(Status::Canceled.compare(&Status::Questionnaire), Comparison::Less);
}

#[test]
fn kitchen_row() {
    for k in KITCHEN {
        for h in HANDOVER {
            assert_eq!(k.compare(&h), Comparison::Less);
            assert_eq!(h.compare(&k), Comparison::Greater);
        }
        assert_eq!(k.compare(&Status::OnTheWay), Comparison::Less);
        assert_eq!(k.compare(&Status::Deferred), Comparison::Greater);
        assert_eq!(k.compare(&Status::Suspended), Comparison::Less);
        assert_eq!(k.compare(&Status::Questionnaire), Comparison::Greater);
        assert_eq!(k.compare(&Status::Canceled), Comparison::Greater);
        assert_eq!(k.compare(&Status::Reviewing), Comparison::Incomparable);
    }
    assert_eq!(Status::Cooking.compare(&Status::Delivered), Comparison::Less);
}

#[test]
fn on_the_way_row() {
    for k in KITCHEN {
        assert_eq!(Status::OnTheWay.compare(&k), Comparison::Greater);
    }
    assert_eq!(Status::OnTheWay.compare(&Status::Deferred), Comparison::Greater);
    for h in HANDOVER {
        assert_eq!(Status::OnTheWay.compare(&h), Comparison::Less);
        assert_eq!(h.compare(&Status::OnTheWay), Comparison::Greater);
    }
    assert_eq!(Status::OnTheWay.compare(&Status::Reviewing), Comparison::Incomparable);
}

#[test]
fn later_rows() {
    assert_eq!(Status::PickupReady.compare(&Status::Delivered), Comparison::Less);
    assert_eq!(Status::PickupReady.compare(&Status::PickedUp), Comparison::Less);
    assert_eq!(Status::PickupReady.compare(&Status::Deferred), Comparison::Less);
    assert_eq!(Status::Delivered.compare(&Status::PickupReady), Comparison::Greater);
    assert_eq!(Status::PickedUp.compare(&Status::PickupReady), Comparison::Greater);
    assert_eq!(Status::Delivered.compare(&Status::Deferred), Comparison::Greater);
    assert_eq!(Status::Delivered.compare(&Status::OnTheWay), Comparison::Greater);
}

#[test]
fn the_two_terminal_statuses_are_incomparable() {
    assert_eq!(Status::Delivered.compare(&Status::PickedUp), Comparison::Incomparable);
    assert_eq!(Status::PickedUp.compare(&Status::Delivered), Comparison::Incomparable);
    assert_eq!(Status::Delivered.partial_cmp(&Status::PickedUp), None);
    assert_eq!(Status::PickedUp.partial_cmp(&Status::Delivered), None);
}

#[test]
fn rows_with_one_answer() {
    for other in ALL {
        if other == Status::Unknown {
            continue;
        }
        if other != Status::Deferred && other != Status::Suspended {
            assert_eq!(Status::Deferred.compare(&other), Comparison::Greater);
        }
        if other != Status::Suspended {
            assert_eq!(Status::Suspended.compare(&other), Comparison::Greater);
            assert_eq!(other.compare(&Status::Suspended), Comparison::Less);
        }
        if other != Status::Questionnaire {
            assert_eq!(Status::Questionnaire.compare(&other), Comparison::Less);
        }
        if other != Status::Canceled {
            assert_eq!(Status::Canceled.compare(&other), Comparison::Less);
        }
    }
}

#[test]
fn reviewing_is_ranked_by_the_rules_of_others_only() {
    assert_eq!(Status::Reviewing.compare(&Status::Deferred), Comparison::Less);
    assert_eq!(Status::Reviewing.compare(&Status::Suspended), Comparison::Less);
    assert_eq!(Status::Reviewing.compare(&Status::Questionnaire), Comparison::Greater);
    assert_eq!(Status::Reviewing.compare(&Status::Canceled), Comparison::Greater);
    for other in KITCHEN.into_iter().chain(HANDOVER).chain([Status::OnTheWay]) {
        assert_eq!(Status::Reviewing.compare(&other), Comparison::Incomparable);
        assert_eq!(other.compare(&Status::Reviewing), Comparison::Incomparable);
    }
}

#[test]
fn unknown_is_incomparable_with_every_other_status() {
    for other in ALL {
        if other != Status::Unknown {
            assert_eq!(Status::Unknown.compare(&other), Comparison::Incomparable);
            assert_eq!(other.compare(&Status::Unknown), Comparison::Incomparable);
        }
    }
}

#[test]
fn operators_read_the_rules() {
    assert!(Status::Cooking < Status::OnTheWay);
    assert!(Status::OnTheWay > Status::Cooking);
    assert!(Status::Cooking < Status::Delivered);
    assert!(!(Status::Cooking > Status::Making));
    assert!(Status::Cooking >= Status::Making);
    assert!(!(Status::Delivered < Status::PickedUp));
    assert!(!(Status::Delivered >= Status::PickedUp));
    assert_eq!(
        Status::Delivered.partial_cmp(&Status::Delivered),
        Some(std::cmp::Ordering::Equal)
    );
    assert_eq!(
        Status::OnTheWay.partial_cmp(&Status::PickupReady),
        Some(std::cmp::Ordering::Less)
    );
}

#[test]
fn only_less_and_greater_notify() {
    assert!(Comparison::Less.is_notifying());
    assert!(Comparison::Greater.is_notifying());
    assert!(!Comparison::Equal.is_notifying());
    assert!(!Comparison::Incomparable.is_notifying());
}

#[test]
fn delivered_and_picked_up_are_terminal() {
    for s in ALL {
        assert_eq!(s.is_terminal(), s == Status::Delivered || s == Status::PickedUp);
    }
}

#[test]
fn messages() {
    assert_eq!(Status::Deferred.message(), "Deferred, The store might not be open?");
    assert_eq!(
        Status::Reviewing.message(),
        "Reviewing, Management is checking things over apparently"
    );
    assert_eq!(Status::Cooking.message(), "The cooks are working on your order now!");
    assert_eq!(Status::OnTheWay.message(), "The driver is heading to your house!");
    assert_eq!(Status::Delivered.message(), "You are eating pizza!");
    let unknown = "I don't know what status this is, are you sure you ordered a pizza?";
    assert_eq!(Status::Making.message(), unknown);
    assert_eq!(Status::PickedUp.message(), unknown);
    assert_eq!(Status::Suspended.message(), unknown);
    assert_eq!(Status::Unknown.message(), unknown);
}

#[test]
fn names_are_read_back() {
    for s in ALL {
        assert_eq!(Status::from_name(s.name()), s);
    }
}

#[test]
fn names_are_upper_case_with_underscores() {
    assert_eq!(Status::Making.name(), "MAKING");
    assert_eq!(Status::OnTheWay.name(), "ON_THE_WAY");
    assert_eq!(Status::PickupReady.name(), "PICKUP_READY");
    assert_eq!(Status::Delivered.name(), "DELIVERED");
    assert_eq!(Status::PickedUp.name(), "PICKED_UP");
    assert_eq!(Status::Deferred.name(), "DEFERRED");
    assert_eq!(Status::Questionnaire.name(), "QUESTIONNAIRE");
    assert_eq!(Status::Suspended.name(), "SUSPENDED");
    assert_eq!(Status::Canceled.name(), "CANCELED");
    assert_eq!(Status::Reviewing.name(), "REVIEWING");
    assert_eq!(Status::Cooking.name(), "COOKING");
    assert_eq!(Status::MakingEmulated.name(), "MAKING_EMULATED");
    assert_eq!(Status::CookingEmulated.name(), "COOKING_EMULATED");
    assert_eq!(Status::Unknown.name(), "UNKNOWN");
}

#[test]
fn other_names_fall_back_to_unknown() {
    assert_eq!(Status::from_name("making"), Status::Unknown);
    assert_eq!(Status::from_name("Cooking"), Status::Unknown);
    assert_eq!(Status::from_name(""), Status::Unknown);
    assert_eq!(Status::from_name("COOKING "), Status::Unknown);
    assert_eq!(Status::from_name("BURNT"), Status::Unknown);
}
