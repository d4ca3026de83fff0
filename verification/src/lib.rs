//! A scheduler that polls a feed of scheduled events and runs a list of shell
//! commands when the next event is close.
//!
//! This crate holds the decisions of that scheduler, each with a contract
//! that Verus proves: how a payload is read into a schedule
//! ([`area_information`]), which event comes next and whether it is within
//! the threshold ([`evaluation`], [`agenda`]), when a fetch is due and what a
//! failed fetch leaves behind ([`scheduler`]), how the commands follow one
//! another ([`dispatch`]), and the loop that ties these together as a state
//! machine ([`scheduler_loop`]). Waiting, fetching and running commands are
//! left to the program around it, as are the command line ([`args`]), the
//! log ([`logging`]) and signals ([`signals`]), of which this crate holds the
//! decisions only.
//!
//! Three outside crates do work that is taken on trust: `serde_json` reads
//! JSON ([`json`]), `chrono` reads RFC 3339 date-times ([`timestamp`]), and
//! `reqwest` builds requests ([`request`]).

pub mod agenda;
pub mod area_information;
pub mod args;
pub mod config;
pub mod dispatch;
pub mod evaluation;
pub mod json;
pub mod logging;
pub mod request;
pub mod scheduler;
pub mod scheduler_loop;
pub mod signals;
pub mod timestamp;
