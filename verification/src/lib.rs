//! Verified authentication core of a client for the Semaphore automation
//! server's HTTP API.
//!
//! A client is a base address, a credential and an HTTP client that carries
//! the credential's default headers. The library decides which headers a
//! credential puts on every request, and how a password is traded for a
//! session: which login request is sent, and what each answer to it means.
//! It sends nothing itself. Callers send what the library asks for and hand
//! back what they received.

pub mod client;
