//! Verified control logic of a bridge between an MQTT broker and a UHPPOTE
//! door controller.
//!
//! The bridge listens on a command topic for the payloads `LOCK` and `UNLOCK`,
//! drives the door controller accordingly and publishes the resulting state.
//! This crate holds the decisions only: every function is pure, takes plain
//! values and returns plain values, and is proved against its contract. The
//! program around it owns the sockets: it performs the actions that a
//! [`session::Session`] asks for and hands back what happened.

pub mod cli;
pub mod command;
pub mod config;
pub mod credentials;
pub mod discovery;
pub mod error;
pub mod session;
pub mod topics;
