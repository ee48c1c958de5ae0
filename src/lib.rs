//! A threshold price-alert monitor: watch rules, their evaluation against a
//! price snapshot, and the poll cycle that drives the rule store, the price
//! feed and the notifier.

pub mod price;
pub mod rule;
pub mod feed;
pub mod alert;
pub mod monitor;
