//! A port-forwarding relay core without I/O.
//!
//! Every component is a state machine: the caller performs the reads, writes,
//! sends and sleeps, reports what happened as an event, and is told what to do
//! next. Nothing here blocks, allocates sockets or looks at a clock.
//!
//! * [`pipe`]: the buffered pump, one direction of byte copying.
//! * [`idle`]: the idle timeout monitor, with optional liveness probing.
//! * [`tcp`]: the relay engine of one TCP session, two pumps and a monitor.
//! * [`udp`]: the listener of a UDP port and the flows it starts.
//! * [`table`]: the flow table that sorts datagrams by client address.
//! * [`mailbox`]: the bounded queue of datagrams that each flow has.
//! * [`config`]: the settings and the routes they describe.
//! * [`addr`]: IP and socket addresses as plain values.
//! * [`error`]: why a session or a flow ended.

pub mod addr;
pub mod error;
pub mod mailbox;
pub mod table;
pub mod udp;
pub mod idle;
pub mod pipe;
pub mod tcp;
pub mod config;
