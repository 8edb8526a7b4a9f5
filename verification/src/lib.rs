//! Core of a mailing-list service: validated subscriber identities, the
//! subscription lifecycle (registration and confirmation) over a transactional
//! row store, credential validation for the publishing endpoint, and the
//! newsletter fan-out to confirmed subscribers.

pub mod configuration;
pub mod domain;
pub mod store;
pub mod subscriptions;
pub mod subscriptions_confirm;
pub mod newsletters;
