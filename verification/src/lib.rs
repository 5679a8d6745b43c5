//! Watchdog logic for game servers hosted behind a management panel.
//!
//! The crate holds the decisions of the watchdog: how a round trip is
//! classified, which requests go to the panel, and what one polling cycle
//! does with each answer. Sending the requests and sleeping between the
//! cycles is left to the program that drives it.

pub mod cycle;
pub mod error;
pub mod headers;
pub mod panel;
pub mod poll;
pub mod servers;
pub mod tolerance;
