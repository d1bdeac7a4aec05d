//! Decision core of a TCP reverse proxy that can be restarted without
//! dropping a connection.
//!
//! A running generation of the proxy can give its listening socket and every
//! client/upstream pair that is in flight to a freshly started generation,
//! over a local control channel. This crate holds the rules of that
//! handover as state machines on plain values: what a connection handler
//! does when the shutdown signal fires, how the accept loop backs off, how
//! many connections are admitted, which message is legal at which step of
//! the handover, and what the bundle of sockets contains. The crate does no
//! I/O. A driver performs each action that a state machine asks for and
//! reports what happened as the next event.
//!
//! The socket types are parameters: `S` stands for a connected stream, `L`
//! for a listening socket and `T` for the sending half of the control
//! channel. The state machines move such values and never look inside.
//!
//! - `shutdown`: the shutdown signal and the subscriptions to it
//! - `admission`: the pool of permits
//! - `connections`: the pair of client and upstream
//! - `handler`: the end of one connection
//! - `listener`: the accept loop
//! - `ipc`: the messages and the bundle
//! - `control`: the older generation's side of the handover
//! - `server`: the startup of a generation, fresh or by takeover
//! - `generation`: all of it together, and what holds of every run

pub mod admission;
pub mod connections;
pub mod control;
pub mod generation;
pub mod handler;
pub mod ipc;
pub mod listener;
pub mod server;
pub mod shutdown;
