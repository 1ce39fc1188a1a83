//! A bridge from callback-driven native stream pairs to a poll-based byte
//! stream, with the decision logic of the surrounding Bluetooth wrappers.
//!
//! Everything here is plain state and decisions: the caller performs the
//! native calls and hands their results in as plain values.

pub mod android;
pub mod bluer;
pub mod callback;
pub mod cf_stream;
pub mod context;
pub mod error;
pub mod event;
pub mod futures_channel;
pub mod history;
pub mod l2cap_channel;
pub mod resource;
pub mod runloop;
pub mod select;
pub mod uuid;
