//! Session lifecycle decisions for a client of a remote editor backend.
//!
//! The client starts the backend as a child process or dials a running
//! server, checks its version, attaches a user interface, and watches the
//! connection until it ends; a server connection that cannot be made is
//! tried again with growing delays. All of that waits on processes, sockets
//! and timers. This crate holds what is decided in between: each part is a
//! state machine that is told what happened and answers with what to do
//! next, and the properties of those machines are proved here.
//!
//! - [`handshake`], with [`version_check`], [`attach`] and [`instance`]: the
//!   launch of one session.
//! - [`run_once`] and [`monitor`], with [`session`]: the watch over a live
//!   session, until its exit is announced.
//! - [`reconnect`], with [`backoff`]: the retry loop of a server connection.
//! - [`running_tracker`]: the shared quit signal.
//! - [`events`], [`error`], [`error_message`], [`reconnect_indicator`],
//!   [`runtime`]: what is shown and reported to the outside.

pub mod api_info;
pub mod attach;
pub mod backoff;
pub mod error;
pub mod error_message;
pub mod events;
pub mod handshake;
pub mod instance;
pub mod monitor;
pub mod reconnect;
pub mod reconnect_indicator;
pub mod run_once;
pub mod runtime;
pub mod running_tracker;
pub mod session;
pub mod version_check;
