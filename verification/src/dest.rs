//! Where a notification goes: a phone number at a carrier's text gateway,
//! as the alerts library understands it.

use cheap_alerts::{Carrier, Destination};
use std::str::FromStr;
use vstd::prelude::*;

verus! {

/// `cheap_alerts::Carrier`, with its variants: ten carriers by name, and
/// `Other` with a gateway domain.
#[verifier::external_type_specification]
pub struct ExCarrier(cheap_alerts::Carrier);

/// `cheap_alerts::Destination`, with its two public fields: the number and
/// the carrier.
#[verifier::external_type_specification]
pub struct ExDestination(cheap_alerts::Destination);

/// Whether `carrier` is the one that the alerts library knows under `name`:
/// one of the ten carriers with a gateway of their own, or else a carrier
/// whose gateway domain is the name itself.
pub open spec fn carrier_named(name: Seq<char>, carrier: Carrier) -> bool {
    if name == "att"@ {
        carrier is ATT
    } else if name == "sprint"@ {
        carrier is Sprint
    } else if name == "tmobile"@ {
        carrier is TMobile
    } else if name == "verizon"@ {
        carrier is Verizon
    } else if name == "boost"@ {
        carrier is BoostMobile
    } else if name == "cricket"@ {
        carrier is Cricket
    } else if name == "metropcs"@ {
        carrier is MetroPCS
    } else if name == "tracfone"@ {
        carrier is Tracfone
    } else if name == "uscellular"@ {
        carrier is USCellular
    } else if name == "virgin"@ {
        carrier is VirginMobile
    } else {
        carrier matches Carrier::Other { domain } && domain@ == name
    }
}

/// Whether the two carriers are the same one: the same variant, and for
/// another carrier the same gateway domain.
pub open spec fn same_carrier(a: Carrier, b: Carrier) -> bool {
    match (a, b) {
        (Carrier::Other { domain: x }, Carrier::Other { domain: y }) => x@ == y@,
        (Carrier::Other { .. }, _) => false,
        (_, Carrier::Other { .. }) => false,
        _ => a == b,
    }
}

/// Whether the character is one of `0` to `9`.
pub open spec fn is_decimal_digit(c: char) -> bool {
    '0' <= c <= '9'
}

/// The decimal digits of a text, in their order.
pub open spec fn digits_of(text: Seq<char>) -> Seq<char> {
    text.filter(|c: char| is_decimal_digit(c))
}

/// `Carrier::from_str` never fails: it maps each of ten names to its carrier
/// and any other text to `Carrier::Other` with that text as the domain.
#[verifier::external_body]
pub(crate) fn carrier_from_str(name: &str) -> (r: Result<Carrier, cheap_alerts::Error>)
    ensures
        match r {
            Ok(carrier) => carrier_named(name@, carrier),
            Err(_) => false,
        },
{
    Carrier::from_str(name)
}

/// `Destination::new` keeps the decimal digits of the number and a clone of
/// the carrier.
#[verifier::external_body]
pub(crate) fn new_destination(number: &str, carrier: &Carrier) -> (dest: Destination)
    ensures
        dest.number@ == digits_of(number@),
        same_carrier(dest.carrier, *carrier),
{
    Destination::new(number, carrier)
}

} // verus!
