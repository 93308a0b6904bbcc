//! Decision logic of a replicating S3 proxy.
//!
//! The proxy shows one logical bucket to its clients, copies every write to
//! all configured remotes and answers reads from the best remote that
//! replies. This crate holds the rules of that behaviour as plain functions
//! and small state machines; the program around it performs the network and
//! database work and feeds the answers back in.

pub mod config;
pub mod db;
pub mod logger;
pub mod server;
pub mod supervisor;
