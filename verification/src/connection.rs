//! Connection identity: socket addresses, the (local, peer) key of a live
//! stream, and the descriptor handed to the pool when a socket is established.

use vstd::prelude::*;
use vstd::string::StringExecFns;
use crossbeam_channel::Sender;
use crate::text::{decimal_chars, decimal_string};

verus! {

/// An IPv4 socket address, held as the packed address and the port.
#[derive(Clone, Copy, PartialEq, Eq, Structural, Debug)]
pub struct SocketAddress {
    pub ip: u32,
    pub port: u16,
}

impl SocketAddress {
    /// Builds an address from its dotted-quad octets and a port.
    pub fn from_octets(a: u8, b: u8, c: u8, d: u8, port: u16) -> (addr: SocketAddress)
        ensures
            addr.ip == (a as u32) * 0x1000000 + (b as u32) * 0x10000 + (c as u32) * 0x100
                + (d as u32),
            addr.port == port,
    {
        SocketAddress {
            ip: (a as u32) * 0x1000000 + (b as u32) * 0x10000 + (c as u32) * 0x100 + (d as u32),
            port,
        }
    }

    /// The dotted-quad printable form of the address, `a.b.c.d:port`.
    pub open spec fn display_chars(self) -> Seq<char> {
        decimal_chars(self.ip as int / 0x1000000) + "."@ + decimal_chars(
            (self.ip as int / 0x10000) % 256,
        ) + "."@ + decimal_chars((self.ip as int / 0x100) % 256) + "."@ + decimal_chars(
            self.ip as int % 256,
        ) + ":"@ + decimal_chars(self.port as int)
    }

    pub fn display_string(&self) -> (s: String)
        ensures
            s@ == self.display_chars(),
    {
        let mut s = decimal_string((self.ip / 0x1000000) as u64);
        s.append(".");
        let o2 = decimal_string(((self.ip / 0x10000) % 256) as u64);
        s.append(o2.as_str());
        s.append(".");
        let o3 = decimal_string(((self.ip / 0x100) % 256) as u64);
        s.append(o3.as_str());
        s.append(".");
        let o4 = decimal_string((self.ip % 256) as u64);
        s.append(o4.as_str());
        s.append(":");
        let p = decimal_string(self.port as u64);
        s.append(p.as_str());
        proof {
            assert(s@ =~= self.display_chars());
        }
        s
    }
}

/// The identity of one live stream: its (local, peer) address pair.  The pool
/// keeps at most one live entry per key.
#[derive(Clone, Copy, PartialEq, Eq, Structural, Debug)]
pub struct StreamKey {
    pub local_addr: SocketAddress,
    pub peer_addr: SocketAddress,
}

/// Whether the connection was accepted by a local listener or initiated by
/// this node.
#[derive(Clone, Copy, PartialEq, Eq, Structural, Debug)]
pub enum StreamDirection {
    Accepted,
    Initiated,
}

/// The outbound half of a stream's byte-level resource: a queue that hands
/// payloads to the worker servicing the socket.  Enqueueing never blocks; it
/// fails when the servicing side is gone, which the pool treats as a
/// transport failure.
pub struct ByteSink {
    pub(crate) tx: Sender<Vec<u8>>,
}

impl ByteSink {
    pub fn new(tx: Sender<Vec<u8>>) -> ByteSink {
        ByteSink { tx }
    }
}

/// Immutable identity and addressing data for one socket-level connection,
/// created by the connector or listener the instant a socket is established.
/// `resource` is absent when the underlying byte-stream resource was already
/// released before registration.
pub struct ConnectionInfo {
    pub local_addr: SocketAddress,
    pub peer_addr: SocketAddress,
    pub direction: StreamDirection,
    pub resource: Option<ByteSink>,
}

impl ConnectionInfo {
    /// The live-map key this connection occupies.
    pub open spec fn spec_stream_key(self) -> StreamKey {
        StreamKey { local_addr: self.local_addr, peer_addr: self.peer_addr }
    }

    pub fn stream_key(&self) -> (key: StreamKey)
        ensures
            key == self.spec_stream_key(),
    {
        StreamKey { local_addr: self.local_addr, peer_addr: self.peer_addr }
    }
}

} // verus!
