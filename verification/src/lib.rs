//! Core of a systemd unit monitor: per-unit state machines reconciled by
//! monotonic timestamps, rule matching, and construction of the outbound
//! notification calls that a bus front-end transmits.

pub mod bus;
pub mod error;
pub mod kvlist;
pub mod props;
pub mod settings;
pub mod strutil;
pub mod timestamp;
pub mod unit;
