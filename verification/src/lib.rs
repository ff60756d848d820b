//! A verified core for a newsletter subscription service.
//!
//! Visitors submit a name and an email address; the service records a
//! pending subscriber, issues a confirmation token, and promotes the
//! subscriber to confirmed status once the token comes back through a
//! confirmation link.  The modules here hold the validated domain values,
//! the subscriber store with its invariants, and the orchestration of
//! submission and confirmation.

pub mod configuration;
pub mod domain;
pub mod email;
pub mod store;
pub mod subscriptions;
pub mod token;
