//! Validated domain values for a subscription.
//!
//! Raw form input is turned into `SubscriberName` and `SubscriberEmail`
//! values here; the rest of the crate only ever handles values that have
//! passed these parsers.

pub mod subscriber_email;
pub mod subscriber_name;

pub use subscriber_email::SubscriberEmail;
pub use subscriber_name::SubscriberName;

use vstd::prelude::*;

verus! {

/// A validated submission: the parsed name and email of a would-be
/// subscriber.
#[derive(Debug)]
pub struct NewSubscriber {
    pub email: SubscriberEmail,
    pub name: SubscriberName,
}

} // verus!
