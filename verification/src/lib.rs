//! Core of a UDP telemetry listener: a datagram codec, the decision logic of
//! one ingest session, and the coordinator that hands the single listening
//! slot from one session to the next.
//!
//! Nothing here performs I/O or waits. A runtime binds sockets, waits and
//! delivers events; this crate decides what it has to do next and what it
//! reports.
//!
//! - [`codec`] turns the bytes of a datagram into a [`record`], by the
//!   layout that [`wire`] reads.
//! - [`ingest`] is the loop of one session: from each outcome that the
//!   runtime reports to the events to emit and the next command.
//!   [`trace`] proves what a session emits over its whole life.
//! - [`handoff`] is the coordinator of the one listening slot, with the
//!   [`signal`]s through which sessions hear of it. [`protocol`] proves, of
//!   coordinator and sessions together, that sessions listen one at a time
//!   and that each closes before the next opens.

pub mod wire;
pub mod record;
pub mod codec;
pub mod event;
pub mod ingest;
pub mod trace;
pub mod signal;
pub mod handoff;
pub mod protocol;
