//! Connection lifecycle management for a publish/subscribe broker client
//! on a small networked device.
//!
//! A connection has two sides that run on two threads and share two flags.
//! The owning side ([`manager::MqttManager`]) builds the connection, hands
//! out what is to be published and runs the shutdown sequence. The
//! background side ([`event::EventLoop`]) takes the events of the
//! transport one by one, tracks the connection and dispatches incoming
//! messages to the handler by exact match on the subscribed topics
//! ([`topic::SubscriptionSet`]). The flag `connected` is written by the
//! background side and read by the owner; the flag `shutting_down` is
//! written by the owner, once, and read by the background side.
//!
//! The crate takes every decision and performs no input or output. Each
//! method takes what the caller has just learned (an event of the
//! transport, the answer to a request, a reading of a flag or of the clock)
//! and returns what is to be done next. The caller owns the transport, the
//! thread and the flags themselves. [`protocol`] puts the two sides
//! together and states what holds however their steps interleave.
//!
//! [`wifi`] does the same for bringing a Wi-Fi station up, and [`config`]
//! holds the settings of a connection and their rules.

pub mod config;
pub mod error;
pub mod event;
pub mod manager;
pub mod protocol;
pub mod text;
pub mod topic;
pub mod wifi;
