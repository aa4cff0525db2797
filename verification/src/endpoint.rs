//! Addressable endpoints.  An endpoint is an opaque, cloneable handle that
//! can enqueue a tagged message for asynchronous delivery to the subsystem
//! that owns it; two endpoints are the same destination exactly when their
//! identities are equal.

use vstd::prelude::*;
use crossbeam_channel::Sender;
use crate::stream_messages::SubsystemMessage;

verus! {

/// The identity of an endpoint's destination.  Notifications record the
/// destination by this identity, never by message content.
#[derive(Clone, Copy, PartialEq, Eq, Structural, Debug)]
pub struct EndpointId(pub u64);

/// A handle that enqueues [`SubsystemMessage`]s for one subsystem.  The
/// channel itself is opaque; the identity is all that contracts speak of.
pub struct Endpoint {
    pub(crate) id: EndpointId,
    pub(crate) tx: Sender<SubsystemMessage>,
}

impl View for Endpoint {
    type V = EndpointId;

    closed spec fn view(&self) -> EndpointId {
        self.id
    }
}

impl Endpoint {
    /// Wraps a queue's sending half as the endpoint of the destination
    /// identified by `id`.
    pub fn new(id: EndpointId, tx: Sender<SubsystemMessage>) -> (endpoint: Endpoint)
        ensures
            endpoint@ == id,
    {
        Endpoint { id, tx }
    }

    /// A second handle to the same destination.
    pub fn duplicate(&self) -> (endpoint: Endpoint)
        ensures
            endpoint@ == self@,
    {
        Endpoint { id: self.id, tx: crate::channel::channel_duplicate(&self.tx) }
    }

    pub fn endpoint_id(&self) -> (id: EndpointId)
        ensures
            id == self@,
    {
        self.id
    }
}

} // verus!
