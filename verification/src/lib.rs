//! Per-connection network adapter bridging a message-oriented duplex
//! transport with an independent message-processing engine.
//!
//! The adapter accepts a duplex connection, pumps inbound frames into the
//! engine, pumps engine-produced frames back out, enforces periodic
//! liveness/exit checks, and coordinates a clean shutdown of the listening
//! service when the engine signals termination.  Everything here is the
//! decision logic: the per-connection state machine, the timer policy, the
//! lifecycle supervisor, and the construction of the optional transport
//! encryption acceptor.  The surrounding event loop performs the socket and
//! thread work and feeds observations back in as plain values.

pub mod timer;
pub mod handler;
pub mod trace;
pub mod liveness;
pub mod supervisor;
pub mod tls;
