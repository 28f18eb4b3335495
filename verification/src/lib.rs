//! Event relay and state reconciliation for a desktop companion of paired
//! mobile devices: the device cache, the relay of connection events, the
//! pairing notifier, the SMS conversation tables and the command dispatcher.

pub mod adapter;
pub mod applet;
pub mod backend;
pub mod cache;
pub mod config_text;
pub mod dbus_client;
pub mod find;
pub mod messages;
pub mod models;
pub mod notifications;
pub mod order;
pub mod phone;
pub mod plugin_adapter;
pub mod plugin_config;
pub mod popup;
pub mod portal;
pub mod relay;
pub mod service;
pub mod settings;
pub mod sms;
pub mod text;
