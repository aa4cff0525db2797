//! The stream lifecycle protocol: the messages exchanged between the stream
//! handler pool and its collaborators, and the tagged envelope in which they
//! travel to a subsystem's endpoint.

use vstd::prelude::*;
use vstd::string::StringExecFns;
use crate::connection::{ConnectionInfo, SocketAddress};
use crate::classification::PortConfiguration;
use crate::endpoint::{Endpoint, EndpointId};
use crate::text::{decimal_chars, decimal_string};

verus! {

/// The sequencing metadata of a non-clandestine stream: the local listening
/// port it was accepted on (or overridden to), and the per-stream counter the
/// framing layer above uses to detect gaps and reordering.
#[derive(Clone, Copy, PartialEq, Eq, Structural, Debug)]
pub struct NonClandestineAttributes {
    pub reception_port: u16,
    pub sequence_number: u64,
}

/// A stream's classification: a clandestine mesh-peer link, whose framing is
/// handled by an outer protocol layer, or a non-clandestine client/exit
/// stream carrying sequencing metadata.
#[derive(Clone, Copy, PartialEq, Eq, Structural, Debug)]
pub enum RemovedStreamType {
    Clandestine,
    NonClandestine(NonClandestineAttributes),
}

impl RemovedStreamType {
    /// The printable form of a classification.
    pub open spec fn debug_chars(self) -> Seq<char> {
        match self {
            RemovedStreamType::Clandestine => "Clandestine"@,
            RemovedStreamType::NonClandestine(attrs) => "NonClandestine(NonClandestineAttributes { reception_port: "@
                + decimal_chars(attrs.reception_port as int) + ", sequence_number: "@
                + decimal_chars(attrs.sequence_number as int) + " })"@,
        }
    }

    pub fn debug_string(&self) -> (s: String)
        ensures
            s@ == self.debug_chars(),
    {
        match self {
            RemovedStreamType::Clandestine => String::from_str("Clandestine"),
            RemovedStreamType::NonClandestine(attrs) => {
                let mut s = String::from_str(
                    "NonClandestine(NonClandestineAttributes { reception_port: ",
                );
                let rp = decimal_string(attrs.reception_port as u64);
                s.append(rp.as_str());
                s.append(", sequence_number: ");
                let sn = decimal_string(attrs.sequence_number);
                s.append(sn.as_str());
                s.append(" })");
                proof {
                    assert(s@ =~= self.debug_chars());
                }
                s
            },
        }
    }
}

/// Registration of a freshly established connection with the pool.  The
/// origin port is present only when the stream's originating local port must
/// be remembered for response routing; inbound-accepted streams know their
/// local port from the descriptor already.
pub struct AddStreamMsg {
    pub connection_info: ConnectionInfo,
    pub origin_port: Option<u16>,
    pub port_configuration: PortConfiguration,
}

impl AddStreamMsg {
    pub fn new(
        connection_info: ConnectionInfo,
        origin_port: Option<u16>,
        port_configuration: PortConfiguration,
    ) -> (msg: AddStreamMsg)
        ensures
            msg == (AddStreamMsg { connection_info, origin_port, port_configuration }),
    {
        AddStreamMsg { connection_info, origin_port, port_configuration }
    }
}

/// The shutdown notification for one stream: its key, the classification it
/// held when it was removed, and the identity of the subscriber the
/// notification is addressed to.  Two values are equal exactly when all four
/// fields are; the subscriber is compared by destination identity.
#[derive(Clone, Copy, PartialEq, Eq, Structural, Debug)]
pub struct RemoveStreamMsg {
    pub local_addr: SocketAddress,
    pub peer_addr: SocketAddress,
    pub stream_type: RemovedStreamType,
    pub sub: EndpointId,
}

impl RemoveStreamMsg {
    /// The printable form of a shutdown notification: the subscriber is an
    /// opaque endpoint and stays unprintable.
    pub open spec fn debug_chars(self) -> Seq<char> {
        "RemoveStreamMsg { peer_addr: "@ + self.peer_addr.display_chars() + ", local_addr: "@
            + self.local_addr.display_chars() + ", stream_type: "@
            + self.stream_type.debug_chars() + ", sub: <unprintable> }"@
    }

    pub fn debug_string(&self) -> (s: String)
        ensures
            s@ == self.debug_chars(),
    {
        let mut s = String::from_str("RemoveStreamMsg { peer_addr: ");
        let peer = self.peer_addr.display_string();
        s.append(peer.as_str());
        s.append(", local_addr: ");
        let local = self.local_addr.display_string();
        s.append(local.as_str());
        s.append(", stream_type: ");
        let stream_type = self.stream_type.debug_string();
        s.append(stream_type.as_str());
        s.append(", sub: <unprintable> }");
        proof {
            assert(s@ =~= self.debug_chars());
        }
        s
    }
}

/// One unit of inbound application data, forwarded to the dispatcher's
/// ingestion endpoint keyed by stream identity and classification.  For a
/// non-clandestine stream the classification carries the sequence number
/// attributed to exactly this payload.
#[derive(Clone, PartialEq, Eq, Debug)]
pub struct InboundFrame {
    pub local_addr: SocketAddress,
    pub peer_addr: SocketAddress,
    pub stream_type: RemovedStreamType,
    pub data: Vec<u8>,
}

/// The closed set of operations a subsystem can receive from the pool,
/// dispatched as an explicit tagged enqueue.
#[derive(Clone, PartialEq, Eq, Debug)]
pub enum SubsystemMessage {
    RemoveStream(RemoveStreamMsg),
    InboundData(InboundFrame),
}

/// What a pool binding amounts to once the channels are abstracted away: the
/// identities of the three wired endpoints.
pub ghost struct BindingModel {
    pub dispatcher: EndpointId,
    pub stream_handler_pool: EndpointId,
    pub neighborhood: EndpointId,
}

/// The one-time wiring message: the addressable endpoints of the dispatcher,
/// the stream handler pool and the neighborhood, exchanged before any stream
/// traffic flows.  Two values are equal exactly when all three endpoints are.
pub struct PoolBindMessage {
    pub dispatcher_subs: Endpoint,
    pub stream_handler_pool_subs: Endpoint,
    pub neighborhood_subs: Endpoint,
}

impl View for PoolBindMessage {
    type V = BindingModel;

    open spec fn view(&self) -> BindingModel {
        BindingModel {
            dispatcher: self.dispatcher_subs@,
            stream_handler_pool: self.stream_handler_pool_subs@,
            neighborhood: self.neighborhood_subs@,
        }
    }
}

impl PartialEq for PoolBindMessage {
    fn eq(&self, other: &Self) -> (r: bool) {
        self.dispatcher_subs.endpoint_id() == other.dispatcher_subs.endpoint_id()
            && self.stream_handler_pool_subs.endpoint_id()
                == other.stream_handler_pool_subs.endpoint_id()
            && self.neighborhood_subs.endpoint_id() == other.neighborhood_subs.endpoint_id()
    }
}

impl vstd::std_specs::cmp::PartialEqSpecImpl for PoolBindMessage {
    open spec fn obeys_eq_spec() -> bool {
        true
    }

    open spec fn eq_spec(&self, other: &Self) -> bool {
        self@ == other@
    }
}

impl PoolBindMessage {
    /// The printable form of a binding; the endpoints themselves have no
    /// printable content.
    pub fn debug_string(&self) -> (s: String)
        ensures
            s@ == "PoolBindMessage"@,
    {
        String::from_str("PoolBindMessage")
    }
}

} // verus!
