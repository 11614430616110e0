//! Core of a framed, non-blocking TCP reactor.
//!
//! Messages travel as length-prefixed frames: an 8-byte big-endian length
//! followed by that many payload bytes. This crate holds everything about
//! the reactor that is plain computation — the frame codec, the
//! per-connection read and write state machines that resume partial frames
//! across would-block conditions, the bounded token registry, and the
//! event-dispatch rules of the reactor loop — with contracts proved by
//! Verus. The sockets and the readiness poller themselves live with the
//! embedding program, which performs each read, write, accept and poll and
//! feeds the outcome back into these state machines.

pub mod codec;
pub mod connection;
pub mod context;
pub mod serialize;
pub mod server;
