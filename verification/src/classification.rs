//! Stream classification: how the pool decides, once and at registration
//! time, whether a new stream is a clandestine mesh link or a sequenced
//! non-clandestine client/exit stream.

use vstd::prelude::*;
use crate::stream_messages::{NonClandestineAttributes, RemovedStreamType};

verus! {

/// Policy for the port a stream arrived on: whether that port belongs to the
/// node's clandestine mesh-peer listening set.
#[derive(Clone, Copy, PartialEq, Eq, Structural, Debug)]
pub struct PortConfiguration {
    pub is_clandestine: bool,
}

impl PortConfiguration {
    pub fn new(is_clandestine: bool) -> (pc: PortConfiguration)
        ensures
            pc.is_clandestine == is_clandestine,
    {
        PortConfiguration { is_clandestine }
    }
}

/// The classification a freshly registered stream receives: clandestine when
/// the port configuration marks the port as part of the mesh-peer listening
/// set, otherwise non-clandestine with the origin-port override (when
/// present) or the descriptor's local port as reception port, and a sequence
/// number starting at zero.
pub open spec fn spec_resolve_stream_type(
    is_clandestine: bool,
    origin_port: Option<u16>,
    local_port: u16,
) -> RemovedStreamType {
    if is_clandestine {
        RemovedStreamType::Clandestine
    } else {
        RemovedStreamType::NonClandestine(
            NonClandestineAttributes {
                reception_port: match origin_port {
                    Some(p) => p,
                    None => local_port,
                },
                sequence_number: 0,
            },
        )
    }
}

/// Resolves a stream's classification from its port configuration, the
/// optional origin-port override, and the descriptor's local port.  This
/// happens exactly once, at registration; the result is immutable afterwards
/// except for the advancing sequence number.
pub fn resolve_stream_type(
    port_configuration: &PortConfiguration,
    origin_port: Option<u16>,
    local_port: u16,
) -> (stream_type: RemovedStreamType)
    ensures
        stream_type == spec_resolve_stream_type(
            port_configuration.is_clandestine,
            origin_port,
            local_port,
        ),
{
    if port_configuration.is_clandestine {
        RemovedStreamType::Clandestine
    } else {
        let reception_port = match origin_port {
            Some(p) => p,
            None => local_port,
        };
        RemovedStreamType::NonClandestine(
            NonClandestineAttributes { reception_port, sequence_number: 0 },
        )
    }
}

} // verus!
