//! A bridge from a licence-plate recogniser to a home-automation hub.
//!
//! The recogniser posts what it has spotted to a webhook; the bridge looks
//! each plate up in its storage, notifies the hub over a websocket, and
//! stores the name that a user answers a notification with.
//!
//! This library holds what the bridge decides: how a payload becomes
//! spotted plates (`webhook`), what the storage keeps (`db`), which frames
//! go to the hub and what an inbound frame leads to (`websocket`), what is
//! done for a plate and in what order (`notifier`), and when the hub is
//! tried again (`supervisor`). Sockets, files and clocks are the caller's.
pub mod db;
pub mod error;
pub mod json;
pub mod notifier;
pub mod supervisor;
pub mod text;
pub mod types;
pub mod webhook;
pub mod websocket;
