//! Decision logic of the IndraCore registration backend.
//!
//! Every HTTP handler of the service is written here as a small state
//! machine: each step takes what the graph database answered and returns
//! the next query to run or the reply to send. The caller performs the
//! database work and hands the answers back.

pub mod api;
pub mod consensus;
pub mod db;
pub mod graph;
pub mod invite;
pub mod laws;
pub mod login;
pub mod model;
pub mod models;
pub mod outside;
pub mod register;
