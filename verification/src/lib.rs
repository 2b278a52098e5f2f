//! The decision core of a small web server: which port to listen on, what the
//! liveness endpoint answers, which cross-origin headers every reply carries,
//! and how a request is answered from the static assets.
//!
//! Nothing here touches a socket or a file. The server around this crate reads
//! the `PORT` variable and the asset directory and hands plain values in;
//! every function here is a total function of its arguments.

pub mod cors;
pub mod front_door;
pub mod health;
pub mod port;
pub mod reply;
