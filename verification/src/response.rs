//! What a status endpoint answers for one phone number.

use crate::status::Status;
use vstd::prelude::*;

verus! {

/// The answer when the endpoint knows of no order.
#[derive(Debug)]
pub struct NoOrder {
    pub message: String,
}

/// The answer when the endpoint tracks an order.
#[derive(Debug)]
pub struct Order {
    /// The endpoint's id of the order.
    pub order_id: String,
    pub order_key: String,
    pub status: Status,
    /// When the answer was received, in milliseconds since the Unix epoch.
    pub first_seen: i64,
}

/// An endpoint's answer: an order, or the notice that there is none.
#[derive(Debug)]
pub enum Response {
    Order(Order),
    NoOrder(NoOrder),
}

impl Clone for NoOrder {
    fn clone(&self) -> (copy: NoOrder)
        ensures
            copy == *self,
    {
        NoOrder { message: self.message.clone() }
    }
}

impl Clone for Order {
    fn clone(&self) -> (copy: Order)
        ensures
            copy == *self,
    {
        Order {
            order_id: self.order_id.clone(),
            order_key: self.order_key.clone(),
            status: self.status,
            first_seen: self.first_seen,
        }
    }
}

impl Clone for Response {
    fn clone(&self) -> (copy: Response)
        ensures
            copy == *self,
    {
        match self {
            Response::Order(order) => Response::Order(order.clone()),
            Response::NoOrder(none) => Response::NoOrder(none.clone()),
        }
    }
}

} // verus!
