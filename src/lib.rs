//! A client library for a tagged, line-oriented chat protocol: parsing of
//! incoming lines, rendering of outgoing frames, retry decisions, and the
//! decision logic of the credential dispenser and the connection.
pub mod text;
pub mod types;
pub mod receive;
pub mod send;
pub mod retry;
pub mod error;
pub mod auth;
pub mod dispenser;
pub mod connection;
pub mod laws;
pub mod config;
pub mod handle;
pub mod tagged;
pub mod plain;
pub mod compact;
