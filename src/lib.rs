//! Double opt-in newsletter subscriptions: validated subscriber values,
//! confirmation tokens, an in-memory subscription store with atomic
//! transactions, and the decisions behind signup, confirmation and
//! newsletter broadcast.
pub mod config;
pub mod domain;
pub mod store;
pub mod newsletters;
pub mod subscriptions;
pub mod subscriptions_confirm;
pub mod token;
