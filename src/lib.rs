//! A text-mode login front end for the greetd login broker.
//!
//! The heart of the library is the authentication handshake engine in
//! [`auth`]: a state machine that decides, from each result of the channel
//! to the broker, which message to send next and how the attempt ends. The
//! program around it opens the channel, moves the bytes and draws the screen.
pub mod app;
pub mod auth;
pub mod event;
pub mod laws;
pub mod power;
pub mod protocol;
pub mod script;
pub mod select;
pub mod state;
pub mod ui;
pub mod users;
pub mod util;
