//! The settings, and the routes they describe.
//!
//! The settings name one listen address and, for each protocol, a list of
//! targets. Each target makes one route: the relay listens on the target's
//! port at the listen address and forwards to the target.

use crate::addr::{IpAddress, SocketAddress};
use crate::error::RelayError;
use crate::idle::ticks;
use crate::pipe::PumpMode;
use crate::tcp::{establish, SessionState, TcpSession};
use crate::udp::UdpListener;
use vstd::prelude::*;

verus! {

/// The size of a buffer, in KiB, where the settings give none.
pub const DEFAULT_BUFFER_KIB: usize = 8;

/// The settings of the relay.
pub struct Configuration {
    /// Whether to log why a session ended.
    pub log_error: bool,
    /// The address to listen on.
    pub listen_ip: IpAddress,
    /// The TCP targets.
    pub tcp_proxy: Vec<SocketAddress>,
    /// The UDP targets.
    pub udp_proxy: Vec<SocketAddress>,
    /// The idle timeout of a TCP session, in seconds.
    pub tcptimeout: u64,
    /// The idle timeout of a UDP flow, in seconds.
    pub udptimeout: u64,
    /// The size of a TCP pump's buffer, in KiB.
    pub tcp_buffer_size: Option<usize>,
    /// The size of a UDP receive buffer, in KiB.
    pub udp_buffer_size: Option<usize>,
    /// How many datagrams the mailbox of a UDP flow holds.
    pub udp_channel_buffer_size: usize,
    /// Whether TCP pumps coalesce reads.
    pub tcp_fill_buffer: bool,
    /// Whether TCP sessions probe the client for liveness.
    pub tcp_probe_liveness: bool,
}

/// The protocol of a route.
#[derive(Clone, Copy, Debug, PartialEq, Eq, Structural)]
pub enum Protocol {
    Tcp,
    Udp,
}

/// One forwarding rule: where to listen, where to forward to, and how.
#[derive(Clone, Copy, Debug, PartialEq, Eq, Structural)]
pub struct Route {
    pub protocol: Protocol,
    /// The address to listen on.
    pub listen: SocketAddress,
    /// The address to forward to.
    pub target: SocketAddress,
    /// The idle timeout, in seconds.
    pub idle_timeout: u64,
    /// The size of a buffer, in bytes.
    pub buffer_size: usize,
    /// Whether pumps coalesce reads.
    pub coalescing: bool,
    /// Whether sessions probe the client for liveness.
    pub probe_liveness: bool,
    /// How many datagrams the mailbox of a flow holds.
    pub mailbox_capacity: usize,
}

/// The size in bytes of a buffer of `size_kib` KiB, or of the default size
/// where none is given.
pub open spec fn spec_buffer_bytes(size_kib: Option<usize>) -> int {
    match size_kib {
        Some(kib) => kib * 1024,
        None => DEFAULT_BUFFER_KIB * 1024,
    }
}

/// The size in bytes of a buffer of `size_kib` KiB, or of the default size
/// where none is given; `None` if that many bytes do not fit in `usize`.
pub fn buffer_bytes(size_kib: Option<usize>) -> (bytes: Option<usize>)
    ensures
        bytes is Some <==> spec_buffer_bytes(size_kib) <= usize::MAX,
        bytes matches Some(b) ==> b == spec_buffer_bytes(size_kib),
{
    let kib = match size_kib {
        Some(kib) => kib,
        None => DEFAULT_BUFFER_KIB,
    };
    kib.checked_mul(1024)
}

impl Configuration {
    /// The TCP route to `target`, given the size of its buffers in bytes.
    pub open spec fn tcp_route(&self, target: SocketAddress, buffer_size: usize) -> Route {
        Route {
            protocol: Protocol::Tcp,
            listen: SocketAddress::new(self.listen_ip, target.port),
            target,
            idle_timeout: self.tcptimeout,
            buffer_size,
            coalescing: self.tcp_fill_buffer,
            probe_liveness: self.tcp_probe_liveness,
            mailbox_capacity: 0,
        }
    }

    /// The UDP route to `target`, given the size of its buffers in bytes.
    pub open spec fn udp_route(&self, target: SocketAddress, buffer_size: usize) -> Route {
        Route {
            protocol: Protocol::Udp,
            listen: SocketAddress::new(self.listen_ip, target.port),
            target,
            idle_timeout: self.udptimeout,
            buffer_size,
            coalescing: false,
            probe_liveness: false,
            mailbox_capacity: self.udp_channel_buffer_size,
        }
    }

    /// Whether both buffer sizes fit in `usize` when counted in bytes.
    pub open spec fn sizes_fit(&self) -> bool {
        spec_buffer_bytes(self.tcp_buffer_size) <= usize::MAX && spec_buffer_bytes(
            self.udp_buffer_size,
        ) <= usize::MAX
    }

    /// The routes of the settings: one for each TCP target, in their order,
    /// then one for each UDP target, in their order.
    pub open spec fn spec_routes(&self) -> Seq<Route> {
        self.tcp_proxy@.map_values(
            |target: SocketAddress|
                self.tcp_route(target, spec_buffer_bytes(self.tcp_buffer_size) as usize),
        ) + self.udp_proxy@.map_values(
            |target: SocketAddress|
                self.udp_route(target, spec_buffer_bytes(self.udp_buffer_size) as usize),
        )
    }

    /// The routes of the settings; `None` if a buffer size, counted in bytes,
    /// does not fit in `usize`.
    pub fn routes(&self) -> (routes: Option<Vec<Route>>)
        ensures
            routes is Some <==> self.sizes_fit(),
            routes matches Some(list) ==> list@ == self.spec_routes(),
    {
        let tcp_bytes = match buffer_bytes(self.tcp_buffer_size) {
            Some(bytes) => bytes,
            None => {
                return None;
            },
        };
        let udp_bytes = match buffer_bytes(self.udp_buffer_size) {
            Some(bytes) => bytes,
            None => {
                return None;
            },
        };
        let ghost tcp_part = self.tcp_proxy@.map_values(
            |target: SocketAddress| self.tcp_route(target, tcp_bytes),
        );
        let ghost udp_part = self.udp_proxy@.map_values(
            |target: SocketAddress| self.udp_route(target, udp_bytes),
        );
        let mut list: Vec<Route> = Vec::new();
        let mut i: usize = 0;
        while i < self.tcp_proxy.len()
            invariant
                i <= self.tcp_proxy@.len(),
                tcp_part == self.tcp_proxy@.map_values(
                    |target: SocketAddress| self.tcp_route(target, tcp_bytes),
                ),
                list@ == tcp_part.take(i as int),
            decreases self.tcp_proxy@.len() - i,
        {
            let target = self.tcp_proxy[i];
            list.push(
                Route {
                    protocol: Protocol::Tcp,
                    listen: SocketAddress::new(self.listen_ip, target.port),
                    target,
                    idle_timeout: self.tcptimeout,
                    buffer_size: tcp_bytes,
                    coalescing: self.tcp_fill_buffer,
                    probe_liveness: self.tcp_probe_liveness,
                    mailbox_capacity: 0,
                },
            );
            i += 1;
        }
        let mut j: usize = 0;
        while j < self.udp_proxy.len()
            invariant
                j <= self.udp_proxy@.len(),
                udp_part == self.udp_proxy@.map_values(
                    |target: SocketAddress| self.udp_route(target, udp_bytes),
                ),
                list@ == tcp_part + udp_part.take(j as int),
            decreases self.udp_proxy@.len() - j,
        {
            let target = self.udp_proxy[j];
            list.push(
                Route {
                    protocol: Protocol::Udp,
                    listen: SocketAddress::new(self.listen_ip, target.port),
                    target,
                    idle_timeout: self.udptimeout,
                    buffer_size: udp_bytes,
                    coalescing: false,
                    probe_liveness: false,
                    mailbox_capacity: self.udp_channel_buffer_size,
                },
            );
            j += 1;
        }
        Some(list)
    }
}

impl Route {
    /// Begins the session of one accepted connection at time `now`, given
    /// how the attempt to connect to the target went.
    pub fn session(&self, connected: Result<(), std::io::Error>, now: u64) -> (begun: Result<
        TcpSession,
        RelayError,
    >)
        ensures
            match connected {
                Ok(_) => begun matches Ok(session) && session.wf() && session@
                    == SessionState::fresh(
                    ticks(self.idle_timeout),
                    self.buffer_size as nat,
                    if self.coalescing {
                        PumpMode::Coalescing
                    } else {
                        PumpMode::Eager
                    },
                    self.probe_liveness,
                    now,
                ),
                Err(e) => begun matches Err(reason) && reason == RelayError::Connect(e),
            },
    {
        establish(
            connected,
            ticks(self.idle_timeout),
            self.buffer_size,
            self.coalescing,
            self.probe_liveness,
            now,
        )
    }

    /// The listener of a UDP route, with no flows yet.
    pub fn listener(&self) -> (listener: UdpListener)
        ensures
            listener.wf(),
            listener.target == self.target,
            listener.timeout == self.idle_timeout,
            listener.inbound == self.listen,
            listener.buffer_size == self.buffer_size,
            listener.table@ == Map::<SocketAddress, Seq<Seq<u8>>>::empty(),
            listener.table.mailbox_capacity() == self.mailbox_capacity,
    {
        UdpListener::new(
            self.target,
            self.idle_timeout,
            self.listen,
            self.buffer_size,
            self.mailbox_capacity,
        )
    }
}

} // verus!
