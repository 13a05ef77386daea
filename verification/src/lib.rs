//! Client-side core of a marketplace order discovery pipeline over a
//! publish/subscribe relay network.
//!
//! The crate is organised around the stages of one discovery run:
//! [`session`] models the subscribe/collect/unsubscribe protocol against a
//! single relay, [`discovery`] assembles the per-relay outcomes into batches
//! while absorbing per-relay failures, and [`pipeline`] turns decoded order
//! records into a filtered, deduplicated result set.  [`invoice`] is a small
//! independent classifier for user-supplied payment strings.

pub mod discovery;
pub mod invoice;
pub mod order;
pub mod pipeline;
pub mod session;
