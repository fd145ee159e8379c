//! A line echo loop: each line read from the terminal is shown back and kept
//! in an in-memory history, with the interrupt, end-of-input and read-error
//! signals handled as their own outcomes.
//!
//! The library holds the session and every decision it makes. The program
//! around it reads the terminal, hands each outcome to [`session::Session::handle`]
//! and writes out the [`reply::Response`] it gets back.

pub mod reply;
pub mod session;
pub mod laws;
