//! The deciding core of a resilient line relay.
//!
//! Producers hand in lines of text; the relay forwards every line, in the
//! order it arrived, to one remote destination, and keeps what it could not
//! yet forward for as long as the destination is out of reach. Nothing here
//! touches a socket: a driver performs the connect, the poll and the send
//! that the relay asks for, and reports back what it saw.

pub mod framing;
pub mod laws;
pub mod options;
pub mod relay;
pub mod stubborn_sink;
