//! Verified core of a small request/response layer over MQTT.
//!
//! The library keeps the decisions of the protocol: how reply topics are
//! named, where an incoming publish is routed, what a response slot hands
//! back, which requests go out for an event, and how errors are reported.
//! Network I/O and the async plumbing stay with the caller.

pub mod text;
pub mod registry;
pub mod error;
pub mod response;
pub mod requests;
pub mod stream;
pub mod listener;
