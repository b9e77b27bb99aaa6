//! The closed set of order statuses and the rules that rank them.
//!
//! The ranking is not a total order derived from one number. It is a set of
//! rules, each naming how one status stands against some others. A pair that
//! a rule names one way round is answered by the inverse the other way
//! round; a pair that no rule names is incomparable. A few pairs are named by
//! two rules that contradict each other: there each status keeps its own
//! rule, so the ranking is not symmetric on them.

use std::cmp::Ordering;
use vstd::prelude::*;

verus! {

/// A lifecycle state reported for an order.
#[derive(Clone, Copy, Debug, PartialEq, Eq, Structural)]
pub enum Status {
    Making,
    OnTheWay,
    PickupReady,
    Delivered,
    PickedUp,
    Deferred,
    Questionnaire,
    Suspended,
    Canceled,
    Reviewing,
    Cooking,
    MakingEmulated,
    CookingEmulated,
    /// A status outside the set: what a name that is none of the others
    /// stands for.
    Unknown,
}

/// How one status stands against another.
#[derive(Clone, Copy, Debug, PartialEq, Eq, Structural)]
pub enum Comparison {
    Less,
    Equal,
    Greater,
    /// No rule relates the two statuses.
    Incomparable,
}

impl Comparison {
    /// The relation seen from the other side.
    pub open spec fn inverse(self) -> Comparison {
        match self {
            Comparison::Less => Comparison::Greater,
            Comparison::Equal => Comparison::Equal,
            Comparison::Greater => Comparison::Less,
            Comparison::Incomparable => Comparison::Incomparable,
        }
    }

    /// Whether a change of status with this relation is worth a notification:
    /// the two statuses are related and are not of the same rank.
    pub open spec fn notifies(self) -> bool {
        self == Comparison::Less || self == Comparison::Greater
    }

    /// Whether a change of status with this relation is worth a notification.
    pub fn is_notifying(&self) -> (b: bool)
        ensures
            b == self.notifies(),
    {
        match self {
            Comparison::Less | Comparison::Greater => true,
            Comparison::Equal | Comparison::Incomparable => false,
        }
    }
}

impl Status {
    /// The statuses of an order that is being prepared. They all rank the same.
    pub open spec fn in_kitchen(self) -> bool {
        self == Status::Making || self == Status::Cooking || self == Status::MakingEmulated
            || self == Status::CookingEmulated
    }

    /// The statuses of an order at its handover: ready for pickup, delivered
    /// or picked up.
    pub open spec fn at_handover(self) -> bool {
        self == Status::PickupReady || self == Status::Delivered || self == Status::PickedUp
    }

    /// The statuses after which an order is no longer tracked.
    pub open spec fn terminal(self) -> bool {
        self == Status::Delivered || self == Status::PickedUp
    }

    /// The statuses that come before a terminal one in an order's life.
    pub open spec fn before_the_end(self) -> bool {
        self == Status::Deferred || self.in_kitchen() || self == Status::OnTheWay || self
            == Status::PickupReady
    }

    /// Whether the two statuses rank the same: a status against itself, and
    /// any two kitchen statuses.
    pub open spec fn same_rank(self, other: Status) -> bool {
        self == other || (self.in_kitchen() && other.in_kitchen())
    }

    /// What the rules say of `self` against `other`, where a rule of `self`
    /// names `other`:
    ///
    /// - statuses of the same rank are equal;
    /// - a kitchen status is below the handover statuses and above `Deferred`;
    /// - `OnTheWay` is above the kitchen statuses and `Deferred`, and below the
    ///   handover statuses;
    /// - a terminal status is above all that comes before the end;
    /// - `Suspended` is above every other status;
    /// - `Deferred` is above every other status but `Suspended`;
    /// - `Questionnaire` and `Canceled` are below every other status;
    /// - `PickupReady` and `Reviewing` have no rule of their own, and no rule
    ///   names `Unknown`.
    pub open spec fn rule(self, other: Status) -> Option<Comparison> {
        if self.same_rank(other) {
            Some(Comparison::Equal)
        } else if self == Status::Unknown || other == Status::Unknown {
            None
        } else if self.in_kitchen() {
            if other.at_handover() {
                Some(Comparison::Less)
            } else if other == Status::Deferred {
                Some(Comparison::Greater)
            } else {
                None
            }
        } else if self == Status::OnTheWay {
            if other.in_kitchen() || other == Status::Deferred {
                Some(Comparison::Greater)
            } else if other.at_handover() {
                Some(Comparison::Less)
            } else {
                None
            }
        } else if self.terminal() {
            if other.before_the_end() {
                Some(Comparison::Greater)
            } else {
                None
            }
        } else if self == Status::Suspended {
            Some(Comparison::Greater)
        } else if self == Status::Deferred {
            if other == Status::Suspended {
                None
            } else {
                Some(Comparison::Greater)
            }
        } else if self == Status::Questionnaire || self == Status::Canceled {
            Some(Comparison::Less)
        } else {
            None
        }
    }

    /// How `self` stands against `other`: as the rule of `self` says where it
    /// names `other`; else the inverse of what the rule of `other` says of
    /// `self`; else, where no rule names the pair, incomparable.
    pub open spec fn compared_to(self, other: Status) -> Comparison {
        match self.rule(other) {
            Some(answer) => answer,
            None => match other.rule(self) {
                Some(answer) => answer.inverse(),
                None => Comparison::Incomparable,
            },
        }
    }

    /// The pairs that two rules name in ways that contradict each other, so
    /// that the answer one way round is not the inverse of the other.
    pub open spec fn at_odds(self, other: Status) -> bool {
        self.rule(other) matches Some(mine) && other.rule(self) matches Some(theirs) && theirs
            != mine.inverse()
    }

    /// The statuses that claim to be above `Deferred`, which claims to be
    /// above them.
    pub open spec fn above_deferred(self) -> bool {
        self.in_kitchen() || self == Status::OnTheWay || self.terminal()
    }

    /// Whether the status ends an order's lifecycle.
    pub fn is_terminal(&self) -> (b: bool)
        ensures
            b == self.terminal(),
    {
        match self {
            Status::Delivered | Status::PickedUp => true,
            _ => false,
        }
    }

    /// Looks up how `self` stands against `other`.
    pub fn compare(&self, other: &Status) -> (c: Comparison)
        ensures
            c == self.compared_to(*other),
    {
        match self {
            Status::Making | Status::Cooking | Status::MakingEmulated | Status::CookingEmulated => {
                match other {
                    Status::Making
                    | Status::Cooking
                    | Status::MakingEmulated
                    | Status::CookingEmulated => Comparison::Equal,
                    Status::OnTheWay
                    | Status::PickupReady
                    | Status::Delivered
                    | Status::PickedUp
                    | Status::Suspended => Comparison::Less,
                    Status::Deferred | Status::Questionnaire | Status::Canceled => {
                        Comparison::Greater
                    },
                    Status::Reviewing | Status::Unknown => Comparison::Incomparable,
                }
            },
            Status::OnTheWay => {
                match other {
                    Status::OnTheWay => Comparison::Equal,
                    Status::PickupReady
                    | Status::Delivered
                    | Status::PickedUp
                    | Status::Suspended => Comparison::Less,
                    Status::Making
                    | Status::Cooking
                    | Status::MakingEmulated
                    | Status::CookingEmulated
                    | Status::Deferred
                    | Status::Questionnaire
                    | Status::Canceled => Comparison::Greater,
                    Status::Reviewing | Status::Unknown => Comparison::Incomparable,
                }
            },
            Status::PickupReady => {
                match other {
                    Status::PickupReady => Comparison::Equal,
                    Status::Delivered
                    | Status::PickedUp
                    | Status::Deferred
                    | Status::Suspended => Comparison::Less,
                    Status::Making
                    | Status::Cooking
                    | Status::MakingEmulated
                    | Status::CookingEmulated
                    | Status::OnTheWay
                    | Status::Questionnaire
                    | Status::Canceled => Comparison::Greater,
                    Status::Reviewing | Status::Unknown => Comparison::Incomparable,
                }
            },
            Status::Delivered => {
                match other {
                    Status::Delivered => Comparison::Equal,
                    Status::Suspended => Comparison::Less,
                    Status::PickedUp | Status::Reviewing | Status::Unknown => {
                        Comparison::Incomparable
                    },
                    _ => Comparison::Greater,
                }
            },
            Status::PickedUp => {
                match other {
                    Status::PickedUp => Comparison::Equal,
                    Status::Suspended => Comparison::Less,
                    Status::Delivered | Status::Reviewing | Status::Unknown => {
                        Comparison::Incomparable
                    },
                    _ => Comparison::Greater,
                }
            },
            Status::Deferred => {
                match other {
                    Status::Deferred => Comparison::Equal,
                    Status::Suspended => Comparison::Less,
                    Status::Unknown => Comparison::Incomparable,
                    _ => Comparison::Greater,
                }
            },
            Status::Suspended => {
                match other {
                    Status::Suspended => Comparison::Equal,
                    Status::Unknown => Comparison::Incomparable,
                    _ => Comparison::Greater,
                }
            },
            Status::Questionnaire => {
                match other {
                    Status::Questionnaire => Comparison::Equal,
                    Status::Unknown => Comparison::Incomparable,
                    _ => Comparison::Less,
                }
            },
            Status::Canceled => {
                match other {
                    Status::Canceled => Comparison::Equal,
                    Status::Unknown => Comparison::Incomparable,
                    _ => Comparison::Less,
                }
            },
            Status::Reviewing => {
                match other {
                    Status::Reviewing => Comparison::Equal,
                    Status::Deferred | Status::Suspended => Comparison::Less,
                    Status::Questionnaire | Status::Canceled => Comparison::Greater,
                    _ => Comparison::Incomparable,
                }
            },
            Status::Unknown => {
                match other {
                    Status::Unknown => Comparison::Equal,
                    _ => Comparison::Incomparable,
                }
            },
        }
    }

    /// The name of the status in an endpoint's answer.
    pub open spec fn wire_name(self) -> Seq<char> {
        match self {
            Status::Making => "MAKING"@,
            Status::OnTheWay => "ON_THE_WAY"@,
            Status::PickupReady => "PICKUP_READY"@,
            Status::Delivered => "DELIVERED"@,
            Status::PickedUp => "PICKED_UP"@,
            Status::Deferred => "DEFERRED"@,
            Status::Questionnaire => "QUESTIONNAIRE"@,
            Status::Suspended => "SUSPENDED"@,
            Status::Canceled => "CANCELED"@,
            Status::Reviewing => "REVIEWING"@,
            Status::Cooking => "COOKING"@,
            Status::MakingEmulated => "MAKING_EMULATED"@,
            Status::CookingEmulated => "COOKING_EMULATED"@,
            Status::Unknown => "UNKNOWN"@,
        }
    }

    /// The status that a name in an endpoint's answer stands for: the one
    /// with that name, and `Unknown` for any other text.
    pub open spec fn of_name(name: Seq<char>) -> Status {
        if name == "MAKING"@ {
            Status::Making
        } else if name == "ON_THE_WAY"@ {
            Status::OnTheWay
        } else if name == "PICKUP_READY"@ {
            Status::PickupReady
        } else if name == "DELIVERED"@ {
            Status::Delivered
        } else if name == "PICKED_UP"@ {
            Status::PickedUp
        } else if name == "DEFERRED"@ {
            Status::Deferred
        } else if name == "QUESTIONNAIRE"@ {
            Status::Questionnaire
        } else if name == "SUSPENDED"@ {
            Status::Suspended
        } else if name == "CANCELED"@ {
            Status::Canceled
        } else if name == "REVIEWING"@ {
            Status::Reviewing
        } else if name == "COOKING"@ {
            Status::Cooking
        } else if name == "MAKING_EMULATED"@ {
            Status::MakingEmulated
        } else if name == "COOKING_EMULATED"@ {
            Status::CookingEmulated
        } else {
            Status::Unknown
        }
    }

    /// The name of the status in an endpoint's answer.
    pub fn name(&self) -> (name: &'static str)
        ensures
            name@ == self.wire_name(),
    {
        match self {
            Status::Making => "MAKING",
            Status::OnTheWay => "ON_THE_WAY",
            Status::PickupReady => "PICKUP_READY",
            Status::Delivered => "DELIVERED",
            Status::PickedUp => "PICKED_UP",
            Status::Deferred => "DEFERRED",
            Status::Questionnaire => "QUESTIONNAIRE",
            Status::Suspended => "SUSPENDED",
            Status::Canceled => "CANCELED",
            Status::Reviewing => "REVIEWING",
            Status::Cooking => "COOKING",
            Status::MakingEmulated => "MAKING_EMULATED",
            Status::CookingEmulated => "COOKING_EMULATED",
            Status::Unknown => "UNKNOWN",
        }
    }

    /// Reads a status from its name in an endpoint's answer. A text that
    /// names no status gives `Unknown`: no other status is made up for it.
    pub fn from_name(name: &str) -> (status: Status)
        ensures
            status == Status::of_name(name@),
    {
        if *name == *"MAKING" {
            Status::Making
        } else if *name == *"ON_THE_WAY" {
            Status::OnTheWay
        } else if *name == *"PICKUP_READY" {
            Status::PickupReady
        } else if *name == *"DELIVERED" {
            Status::Delivered
        } else if *name == *"PICKED_UP" {
            Status::PickedUp
        } else if *name == *"DEFERRED" {
            Status::Deferred
        } else if *name == *"QUESTIONNAIRE" {
            Status::Questionnaire
        } else if *name == *"SUSPENDED" {
            Status::Suspended
        } else if *name == *"CANCELED" {
            Status::Canceled
        } else if *name == *"REVIEWING" {
            Status::Reviewing
        } else if *name == *"COOKING" {
            Status::Cooking
        } else if *name == *"MAKING_EMULATED" {
            Status::MakingEmulated
        } else if *name == *"COOKING_EMULATED" {
            Status::CookingEmulated
        } else {
            Status::Unknown
        }
    }

    /// The text sent to a subscriber when an order reaches this status.
    pub open spec fn message_text(self) -> Seq<char> {
        match self {
            Status::Deferred => "Deferred, The store might not be open?"@,
            Status::Reviewing => "Reviewing, Management is checking things over apparently"@,
            Status::Cooking => "The cooks are working on your order now!"@,
            Status::OnTheWay => "The driver is heading to your house!"@,
            Status::Delivered => "You are eating pizza!"@,
            _ => "I don't know what status this is, are you sure you ordered a pizza?"@,
        }
    }

    /// The text sent to a subscriber when an order reaches this status.
    pub fn message(&self) -> (text: &'static str)
        ensures
            text@ == self.message_text(),
    {
        match self {
            Status::Deferred => "Deferred, The store might not be open?",
            Status::Reviewing => "Reviewing, Management is checking things over apparently",
            Status::Cooking => "The cooks are working on your order now!",
            Status::OnTheWay => "The driver is heading to your house!",
            Status::Delivered => "You are eating pizza!",
            _ => "I don't know what status this is, are you sure you ordered a pizza?",
        }
    }
}

impl PartialOrd for Status {
    /// The rule table as a standard ordering, so that `<` and `>` read it.
    fn partial_cmp(&self, other: &Status) -> (r: Option<Ordering>) {
        match self.compare(other) {
            Comparison::Less => Some(Ordering::Less),
            Comparison::Equal => Some(Ordering::Equal),
            Comparison::Greater => Some(Ordering::Greater),
            Comparison::Incomparable => None,
        }
    }
}

impl vstd::std_specs::cmp::PartialOrdSpecImpl for Status {
    open spec fn obeys_partial_cmp_spec() -> bool {
        true
    }

    open spec fn partial_cmp_spec(&self, other: &Status) -> Option<Ordering> {
        match self.compared_to(*other) {
            Comparison::Less => Some(Ordering::Less),
            Comparison::Equal => Some(Ordering::Equal),
            Comparison::Greater => Some(Ordering::Greater),
            Comparison::Incomparable => None,
        }
    }
}

/// Every status ranks equal to itself.
pub proof fn lemma_compare_reflexive(x: Status)
    ensures
        x.compared_to(x) == Comparison::Equal,
{
}

/// Two statuses are incomparable exactly where no rule names the pair, and
/// then they are so both ways round.
pub proof fn lemma_incomparable_without_a_rule(a: Status, b: Status)
    ensures
        a.compared_to(b) == Comparison::Incomparable <==> a.rule(b).is_none() && b.rule(
            a,
        ).is_none(),
        a.compared_to(b) == Comparison::Incomparable <==> b.compared_to(a)
            == Comparison::Incomparable,
{
}

/// The pairs at odds are `Deferred` with each status of the order's way that
/// claims to be above it (the kitchen statuses, `OnTheWay` and the terminal
/// statuses), and `Questionnaire` with `Canceled`, which each claim to be
/// below the other.
pub proof fn lemma_pairs_at_odds(a: Status, b: Status)
    ensures
        a.at_odds(b) <==> (a == Status::Deferred && b.above_deferred()) || (b == Status::Deferred
            && a.above_deferred()) || (a == Status::Questionnaire && b == Status::Canceled) || (a
            == Status::Canceled && b == Status::Questionnaire),
{
}

/// On every pair that is not at odds, the answer one way round is the
/// inverse of the answer the other way round: less goes with greater, equal
/// with equal, incomparable with incomparable.
pub proof fn lemma_compare_is_consistent_with_its_inverse(a: Status, b: Status)
    requires
        !a.at_odds(b),
    ensures
        b.compared_to(a) == a.compared_to(b).inverse(),
{
}

/// If `a` ranks below `b`, then `b` ranks above `a`, for every pair but
/// `Questionnaire` and `Canceled`, which each rank below the other.
pub proof fn lemma_less_is_inverse_of_greater(a: Status, b: Status)
    requires
        a.compared_to(b) == Comparison::Less,
        !a.at_odds(b),
    ensures
        b.compared_to(a) == Comparison::Greater,
{
}

} // verus!
