//! `scat` bridges a terminal and a serial device.
//!
//! This crate holds the decisions of a session: which configuration is
//! accepted, what each pump does with what it has read, how the shutdown
//! signal is settled and what the bridge asks for at each step of its life.
//! The program around it performs the reads and writes.

pub mod bridge;
pub mod config;
pub mod ports;
pub mod reader;
pub mod report;
pub mod signal;
pub mod terminal;
pub mod text;
pub mod writer;
