//! SMS conversations and messages: the records, the merge and ingestion
//! rules, and the state of the messaging window.

pub mod models;
pub mod reconcile;
pub mod utils;
pub mod messages;
pub mod app;
pub mod dbus;
