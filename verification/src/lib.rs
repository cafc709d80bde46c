//! A minimal HTTP upload service, verified at its core.
//!
//! The service answers three routes: `/` echoes a configured link string,
//! `/health` reports liveness, and `/upload` accepts a payload, drains it,
//! and discards the bytes, enforcing a configured maximum payload size.
//! Everything that decides a status code lives here and is verified; the
//! transport (sockets, HTTP framing, routing) is left to an unverified
//! binary built around this library.

pub mod admission;
pub mod config;
pub mod http;
pub mod responders;
pub mod service;
