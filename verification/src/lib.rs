//! Core of a control-and-monitoring gateway for one remotely hosted game
//! server.
//!
//! Viewers connect to the gateway, watch the server's status and, once they
//! have given the password, switch the server's host on and off. The status
//! is polled only while somebody watches.
//!
//! This crate holds what the gateway decides and computes, as plain values
//! and state machines with proved contracts:
//!
//! - [`model`]: the status and message types;
//! - [`wire`]: their binary encoding;
//! - [`registry`]: the count of open connections, which gates the poller;
//! - [`broadcast`]: the slot that holds the latest status;
//! - [`poller`]: when to poll, and how a status is read off what the cloud
//!   and the game host answer;
//! - [`session`]: the state machine of one connection;
//! - [`text`]: searching and trimming of text;
//! - [`path_util`]: cutting the front off a path.
//!
//! Sockets, timers, locks, the cloud and the remote shell belong to the
//! program that drives these.

pub mod broadcast;
pub mod model;
pub mod path_util;
pub mod poller;
pub mod registry;
pub mod session;
pub mod text;
pub mod wire;
