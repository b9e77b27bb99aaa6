//! Order-status tracking: the status ranking, phone keys, the per-subscriber
//! order cache and the polling loop's decisions.

pub mod cache;
pub mod config;
pub mod dest;
pub mod error;
pub mod escape;
mod keyed;
pub mod phone;
pub mod poll;
pub mod response;
pub mod status;
pub mod subscribers;
pub mod text;
