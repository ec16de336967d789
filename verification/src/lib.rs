//! Sans-I/O core of a UDP association relay session.
//!
//! One session relays the datagrams of a single association between a
//! multiplexed tunnel connection and the network. This crate holds the
//! decisions of such a session: which steps bind its socket pair, which socket
//! carries an outbound datagram, how a received buffer becomes a payload, and
//! how the listening loop answers each event. The caller owns the sockets,
//! the timer and the tasks; it performs what the session decides and reports
//! back what happened.

pub mod address;
pub mod config;
pub mod error;
pub mod listen;
pub mod payload;
pub mod session;
pub mod setup;

pub use address::{IpFamily, SocketAddress};
pub use config::SessionConfig;
pub use error::Error;
pub use listen::{LoopAction, LoopEvent, LoopState, Wait};
pub use session::{Transmit, UdpSession};
pub use setup::{SetupProgress, SetupStep, SocketOp, SocketPair, SocketPairSetup};
