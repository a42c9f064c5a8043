//! Live-view delivery for a network video recorder, with its contracts
//! proved by Verus.
//!
//! * `admission` decides on a viewing request and builds the response that
//!   upgrades the connection.
//! * `session` is the dispatch loop of one viewer as a state machine: it
//!   takes segments, timer ticks and the results of its requests, and says
//!   what to ask for or to write next. `trace` states what holds of whole
//!   runs of it.
//! * `keepalive` schedules the pings of a session.
//! * `fragment` frames a segment's media fragment with its header block;
//!   `recording_id` and `decimal` write and read the text in it.
//! * `config` holds the rules of the camera configuration form.

pub mod admission;
pub mod ascii;
pub mod config;
pub mod decimal;
pub mod error;
pub mod fragment;
pub mod keepalive;
pub mod model;
pub mod recording_id;
pub mod session;
pub mod trace;
