//! What the poller is configured with: subscribers, endpoints and limits.

use crate::dest::{carrier_from_str, carrier_named, digits_of, new_destination};
use crate::error::Failure;
use crate::phone::PhoneNumber;
use cheap_alerts::Destination;
use vstd::prelude::*;
use vstd::string::*;

verus! {

/// A status endpoint.
#[derive(Debug)]
pub struct Location {
    pub name: String,
    /// What the dashed phone number is appended to for a query.
    pub url: String,
}

impl Location {
    /// The address to query for the orders of a phone number: the endpoint's
    /// address with the dashed number behind it.
    pub fn query_url(&self, phone: &PhoneNumber) -> (url: String)
        ensures
            url@ == self.url@ + phone@.dashed(),
    {
        let mut url = self.url.clone();
        let dashed = phone.dashes_string();
        url.append(dashed.as_str());
        url
    }
}

/// A subscriber: whose orders are watched, and where the news goes.
#[derive(Debug)]
pub struct User {
    pub name: String,
    /// The mobile carrier's name, as the alerts library knows it.
    pub carrier: String,
    pub phone_number: PhoneNumber,
}

/// Whether `dest` is where the notifications of `user` go: the digits of the
/// phone number, at the carrier that the alerts library knows under the
/// subscriber's carrier name.
pub open spec fn goes_to(dest: Destination, user: User) -> bool {
    dest.number@ == digits_of(user.phone_number@.undashed()) && carrier_named(
        user.carrier@,
        dest.carrier,
    )
}

impl User {
    /// Where this subscriber's notifications go.
    pub fn as_dest(&self) -> (r: Result<Destination, Failure>)
        ensures
            r matches Ok(dest) && goes_to(dest, *self),
    {
        let carrier = match carrier_from_str(self.carrier.as_str()) {
            Ok(carrier) => carrier,
            Err(e) => {
                return Err(Failure::from(e));
            },
        };
        let number = self.phone_number.to_string();
        Ok(new_destination(number.as_str(), &carrier))
    }
}

/// One loaded configuration.
#[derive(Debug)]
pub struct Config {
    /// The time between two ticks, in milliseconds.
    pub check_interval: usize,
    pub users: Vec<User>,
    pub locations: Vec<Location>,
    /// How many ticks in a row may fail before the poller gives up.
    pub consecutive_errors_limit: usize,
    /// The address that notifications are sent from.
    pub from_addr: String,
    /// When the configuration's source was last modified, in seconds since
    /// the Unix epoch. Two configurations are the same one exactly when this
    /// is equal, whatever else they hold.
    pub last_changed: u64,
}

impl PartialEq for Config {
    fn eq(&self, other: &Config) -> (same: bool) {
        self.last_changed == other.last_changed
    }
}

impl vstd::std_specs::cmp::PartialEqSpecImpl for Config {
    open spec fn obeys_eq_spec() -> bool {
        true
    }

    open spec fn eq_spec(&self, other: &Config) -> bool {
        self.last_changed == other.last_changed
    }
}

} // verus!
