//! Core of a real-time scoreboard service: the scoreboard data model, the
//! key-value cache rules, the message dispatch engine, the connection pool
//! and the socket session state machine.

pub mod api;
pub mod auth;
pub mod board;
pub mod db;
pub mod error;
pub mod session;
pub mod ws;

pub use db::{Id, Score, ScoreBoard, User};
pub use error::{ClientError, ClientErrorKind, Error, Fault, Result};
pub use ws::{handle_message, ClientMessage, ClientResponse, ConnectionPool};
