//! The stream handler pool: the single authority for when a stream
//! transitions from live to removed.  It owns the mapping from connection
//! identity to handler state, applies the lifecycle protocol, forwards
//! inbound data to the dispatcher, and emits each stream's shutdown
//! notification to the subscriber recorded at registration time.
//!
//! The pool's abstract state is a [`PoolView`]; every operation's contract
//! says exactly which [`PoolView`] transition it performs.  The histories of
//! emitted notifications and forwarded frames are part of that state, so the
//! delivery obligations of the lifecycle protocol can be stated and proved.

use vstd::prelude::*;
use crate::channel::{channel_deliver, channel_release};
use crate::classification::{resolve_stream_type, spec_resolve_stream_type};
use crate::connection::{ByteSink, SocketAddress, StreamDirection, StreamKey};
use crate::endpoint::{Endpoint, EndpointId};
use crate::stream_messages::{
    AddStreamMsg, BindingModel, InboundFrame, NonClandestineAttributes, PoolBindMessage,
    RemoveStreamMsg, RemovedStreamType, SubsystemMessage,
};

verus! {

/// Why a registration was refused.
#[derive(Clone, Copy, PartialEq, Eq, Structural, Debug)]
pub enum AddStreamError {
    /// The (local, peer) pair is already live: a socket was registered
    /// twice.  The original entry is left untouched.
    DuplicateStream,
    /// The underlying byte-stream resource was already released at
    /// registration time; the stream is not added.
    UnboundResource,
    /// No `PoolBind` has completed yet, so no subscriber endpoint could be
    /// recorded for the stream.  Registrations ahead of binding are
    /// rejected, never silently routed to an unresolved endpoint.
    PoolNotBound,
}

/// The transport-level failure a write can surface.
#[derive(Clone, Copy, PartialEq, Eq, Structural, Debug)]
pub enum IoErrorKind {
    /// The stream's byte sink refused the payload: the worker servicing the
    /// socket is gone (or a bounded sink is full).
    SinkClosed,
}

/// Why a write was refused.
#[derive(Clone, Copy, PartialEq, Eq, Structural, Debug)]
pub enum WriteError {
    /// No live entry under the given key.
    StreamNotFound,
    /// Transport failure; the stream has been removed as if by
    /// `remove_stream` before this error was returned.
    Io(IoErrorKind),
}

/// Why an inbound dispatch was refused.
#[derive(Clone, Copy, PartialEq, Eq, Structural, Debug)]
pub enum DispatchError {
    /// No live entry under the given key.
    StreamNotFound,
}

/// Why a binding attempt was refused.
#[derive(Clone, Copy, PartialEq, Eq, Structural, Debug)]
pub enum BindError {
    /// The pool is process-wide, write-once state: rebinding is a
    /// programming error, not a runtime-recoverable condition.
    AlreadyBound,
}

/// What the pool records of one live stream: its classification, its
/// directionality, and the identity of the subscriber to notify when the
/// stream is removed.
pub ghost struct StreamEntryView {
    pub stream_type: RemovedStreamType,
    pub direction: StreamDirection,
    pub sub: EndpointId,
}

/// One inbound payload as it was handed to the dispatcher's endpoint.
pub ghost struct FrameRecord {
    pub target: EndpointId,
    pub local_addr: SocketAddress,
    pub peer_addr: SocketAddress,
    pub stream_type: RemovedStreamType,
    pub data: Seq<u8>,
}

/// One outbound payload as it was handed to a stream's byte sink.
pub ghost struct WriteRecord {
    pub key: StreamKey,
    pub data: Seq<u8>,
}

/// The pool's abstract state: the live map, the binding, and the histories
/// of shutdown notifications, inbound frames and outbound deliveries it has
/// emitted.
#[verifier::ext_equal]
pub ghost struct PoolView {
    pub live: Map<StreamKey, StreamEntryView>,
    pub binding: Option<BindingModel>,
    pub notices: Seq<RemoveStreamMsg>,
    pub frames: Seq<FrameRecord>,
    pub writes: Seq<WriteRecord>,
}

impl PoolView {
    /// Binding precedes traffic: an unbound pool holds no live stream.
    pub open spec fn wf(self) -> bool {
        self.binding is None ==> forall|key: StreamKey| !self.live.contains_key(key)
    }
}

/// The state of a freshly created pool.
pub open spec fn pool_init() -> PoolView {
    PoolView {
        live: Map::empty(),
        binding: None,
        notices: Seq::empty(),
        frames: Seq::empty(),
        writes: Seq::empty(),
    }
}

/// One-time wiring: the first binding is recorded, any further attempt is
/// refused and changes nothing.
pub open spec fn bind_result(v: PoolView, binding: BindingModel) -> (PoolView, Result<
    (),
    BindError,
>) {
    match v.binding {
        Some(_) => (v, Err(BindError::AlreadyBound)),
        None => (PoolView { binding: Some(binding), ..v }, Ok(())),
    }
}

/// Registration: refused while unbound, refused for a live key, refused for
/// a released resource; otherwise the key maps to a fresh entry whose
/// classification is resolved from the port configuration and whose
/// subscriber is the bound dispatcher.
pub open spec fn add_result(
    v: PoolView,
    key: StreamKey,
    origin_port: Option<u16>,
    is_clandestine: bool,
    has_resource: bool,
    direction: StreamDirection,
) -> (PoolView, Result<(), AddStreamError>) {
    match v.binding {
        None => (v, Err(AddStreamError::PoolNotBound)),
        Some(b) => if v.live.contains_key(key) {
            (v, Err(AddStreamError::DuplicateStream))
        } else if !has_resource {
            (v, Err(AddStreamError::UnboundResource))
        } else {
            let entry = StreamEntryView {
                stream_type: spec_resolve_stream_type(
                    is_clandestine,
                    origin_port,
                    key.local_addr.port,
                ),
                direction,
                sub: b.dispatcher,
            };
            (PoolView { live: v.live.insert(key, entry), ..v }, Ok(()))
        },
    }
}

/// The shutdown notification a removal of `key` emits.
pub open spec fn removal_notice(v: PoolView, key: StreamKey) -> RemoveStreamMsg {
    RemoveStreamMsg {
        local_addr: key.local_addr,
        peer_addr: key.peer_addr,
        stream_type: v.live[key].stream_type,
        sub: v.live[key].sub,
    }
}

/// Removal: a live key leaves the map and exactly one notification carrying
/// its final classification is emitted; an absent key is a no-op.
pub open spec fn remove_result(v: PoolView, key: StreamKey) -> (PoolView, Option<
    RemovedStreamType,
>) {
    if v.live.contains_key(key) {
        (
            PoolView {
                live: v.live.remove(key),
                notices: v.notices.push(removal_notice(v, key)),
                ..v
            },
            Some(v.live[key].stream_type),
        )
    } else {
        (v, None)
    }
}

/// A classification after one unit of inbound data: the sequence number of a
/// non-clandestine stream advances by exactly one, a clandestine stream is
/// unchanged.
pub open spec fn advanced_stream_type(stream_type: RemovedStreamType) -> RemovedStreamType {
    match stream_type {
        RemovedStreamType::Clandestine => RemovedStreamType::Clandestine,
        RemovedStreamType::NonClandestine(attrs) => RemovedStreamType::NonClandestine(
            NonClandestineAttributes {
                reception_port: attrs.reception_port,
                sequence_number: (attrs.sequence_number + 1) as u64,
            },
        ),
    }
}

/// Inbound dispatch: the frame carrying the stream's current classification
/// goes to the dispatcher, and the entry's sequence number advances,
/// atomically with the hand-off.
pub open spec fn dispatch_result(v: PoolView, key: StreamKey, data: Seq<u8>) -> (PoolView, Result<
    (),
    DispatchError,
>) {
    match v.binding {
        None => (v, Err(DispatchError::StreamNotFound)),
        Some(b) => if !v.live.contains_key(key) {
            (v, Err(DispatchError::StreamNotFound))
        } else {
            let entry = v.live[key];
            let frame = FrameRecord {
                target: b.dispatcher,
                local_addr: key.local_addr,
                peer_addr: key.peer_addr,
                stream_type: entry.stream_type,
                data,
            };
            (
                PoolView {
                    live: v.live.insert(
                        key,
                        StreamEntryView {
                            stream_type: advanced_stream_type(entry.stream_type),
                            ..entry
                        },
                    ),
                    frames: v.frames.push(frame),
                    ..v
                },
                Ok(()),
            )
        },
    }
}

/// Outbound write: an absent key is refused; on a live key the outcome
/// depends on the transport.  A delivered write hands exactly the caller's
/// payload to the stream's sink — recorded in the delivery history — and
/// changes nothing else; a refused write removes the stream exactly as
/// `remove_stream` would, then surfaces the transport error.
pub open spec fn write_result(v: PoolView, key: StreamKey, data: Seq<u8>, delivered: bool) -> (
    PoolView,
    Result<(), WriteError>,
) {
    if !v.live.contains_key(key) {
        (v, Err(WriteError::StreamNotFound))
    } else if delivered {
        (PoolView { writes: v.writes.push(WriteRecord { key, data }), ..v }, Ok(()))
    } else {
        (remove_result(v, key).0, Err(WriteError::Io(IoErrorKind::SinkClosed)))
    }
}

/// Room for one more sequence number under `key`: a machine limit, since the
/// per-stream counter is a 64-bit integer.
pub open spec fn sequence_has_room(v: PoolView, key: StreamKey) -> bool {
    v.live.contains_key(key) ==> match v.live[key].stream_type {
        RemovedStreamType::NonClandestine(attrs) => attrs.sequence_number < u64::MAX,
        RemovedStreamType::Clandestine => true,
    }
}

struct StreamEntry {
    key: StreamKey,
    stream_type: RemovedStreamType,
    direction: StreamDirection,
    sink: ByteSink,
    sub: Endpoint,
}

impl View for StreamEntry {
    type V = StreamEntryView;

    closed spec fn view(&self) -> StreamEntryView {
        StreamEntryView {
            stream_type: self.stream_type,
            direction: self.direction,
            sub: self.sub@,
        }
    }
}

/// At most one entry per (local, peer) key.
spec fn keys_unique(s: Seq<StreamEntry>) -> bool {
    forall|i: int, j: int| 0 <= i < j < s.len() ==> s[i].key != s[j].key
}

/// The live map a sequence of entries denotes.
spec fn as_map(s: Seq<StreamEntry>) -> Map<StreamKey, StreamEntryView>
    decreases s.len(),
{
    if s.len() == 0 {
        Map::empty()
    } else {
        as_map(s.drop_last()).insert(s.last().key, s.last()@)
    }
}

proof fn lemma_as_map_contains(s: Seq<StreamEntry>, key: StreamKey)
    ensures
        as_map(s).contains_key(key) <==> exists|i: int| 0 <= i < s.len() && s[i].key == key,
    decreases s.len(),
{
    if s.len() == 0 {
    } else {
        lemma_as_map_contains(s.drop_last(), key);
        if s.last().key == key {
            assert(s[s.len() - 1].key == key);
        } else {
            if exists|i: int| 0 <= i < s.drop_last().len() && s.drop_last()[i].key == key {
                let i = choose|i: int| 0 <= i < s.drop_last().len() && s.drop_last()[i].key
                    == key;
                assert(s[i].key == key);
            }
            if exists|i: int| 0 <= i < s.len() && s[i].key == key {
                let i = choose|i: int| 0 <= i < s.len() && s[i].key == key;
                assert(i < s.len() - 1);
                assert(s.drop_last()[i].key == key);
            }
        }
    }
}

proof fn lemma_keys_unique_drop_last(s: Seq<StreamEntry>)
    requires
        keys_unique(s),
        s.len() > 0,
    ensures
        keys_unique(s.drop_last()),
{
    assert forall|i: int, j: int| 0 <= i < j < s.drop_last().len() implies s.drop_last()[i].key
        != s.drop_last()[j].key by {
        assert(s[i].key != s[j].key);
    }
}

proof fn lemma_as_map_value(s: Seq<StreamEntry>, i: int)
    requires
        keys_unique(s),
        0 <= i < s.len(),
    ensures
        as_map(s).contains_key(s[i].key),
        as_map(s)[s[i].key] == s[i]@,
    decreases s.len(),
{
    if i == s.len() - 1 {
    } else {
        lemma_keys_unique_drop_last(s);
        lemma_as_map_value(s.drop_last(), i);
        assert(s.last().key != s[i].key);
    }
}

proof fn lemma_as_map_remove(s: Seq<StreamEntry>, i: int)
    requires
        keys_unique(s),
        0 <= i < s.len(),
    ensures
        as_map(s.remove(i)) == as_map(s).remove(s[i].key),
    decreases s.len(),
{
    if i == s.len() - 1 {
        assert(s.remove(i) =~= s.drop_last());
        lemma_keys_unique_drop_last(s);
        lemma_as_map_contains(s.drop_last(), s[i].key);
        assert(!as_map(s.drop_last()).contains_key(s[i].key));
        assert(as_map(s).remove(s[i].key) =~= as_map(s.drop_last()));
    } else {
        let t = s.remove(i);
        s.remove_ensures(i);
        assert(t.drop_last() =~= s.drop_last().remove(i));
        assert(t.last() == s.last());
        lemma_keys_unique_drop_last(s);
        lemma_as_map_remove(s.drop_last(), i);
        assert(s.last().key != s[i].key);
        assert(as_map(t) == as_map(s.drop_last()).remove(s[i].key).insert(
            s.last().key,
            s.last()@,
        ));
        assert(as_map(s.drop_last()).remove(s[i].key).insert(s.last().key, s.last()@)
            =~= as_map(s.drop_last()).insert(s.last().key, s.last()@).remove(s[i].key));
    }
}

proof fn lemma_keys_unique_remove(s: Seq<StreamEntry>, i: int)
    requires
        keys_unique(s),
        0 <= i < s.len(),
    ensures
        keys_unique(s.remove(i)),
{
    s.remove_ensures(i);
    assert forall|a: int, b: int| 0 <= a < b < s.remove(i).len() implies s.remove(i)[a].key
        != s.remove(i)[b].key by {
        let a0: int = if a < i {
            a
        } else {
            a + 1
        };
        let b0: int = if b < i {
            b
        } else {
            b + 1
        };
        assert(s.remove(i)[a] == s[a0]);
        assert(s.remove(i)[b] == s[b0]);
        assert(s[a0].key != s[b0].key);
    }
}

proof fn lemma_keys_unique_push(s: Seq<StreamEntry>, e: StreamEntry)
    requires
        keys_unique(s),
        forall|j: int| 0 <= j < s.len() ==> s[j].key != e.key,
    ensures
        keys_unique(s.push(e)),
{
    assert forall|a: int, b: int| 0 <= a < b < s.push(e).len() implies s.push(e)[a].key != s.push(
        e,
    )[b].key by {
        if b < s.len() {
            assert(s.push(e)[a] == s[a]);
            assert(s.push(e)[b] == s[b]);
        } else {
            assert(s.push(e)[a] == s[a]);
            assert(s.push(e)[b] == e);
        }
    }
}

/// The stream handler pool.  It exclusively owns the live map from
/// (local, peer) keys to handler state; connection descriptors move into
/// that ownership when a registration is accepted, and the socket resource
/// is released when the stream is removed.
pub struct StreamHandlerPool {
    entries: Vec<StreamEntry>,
    binding: Option<PoolBindMessage>,
    notices: Ghost<Seq<RemoveStreamMsg>>,
    frames: Ghost<Seq<FrameRecord>>,
    writes: Ghost<Seq<WriteRecord>>,
}

impl View for StreamHandlerPool {
    type V = PoolView;

    closed spec fn view(&self) -> PoolView {
        PoolView {
            live: as_map(self.entries@),
            binding: match self.binding {
                Some(b) => Some(b@),
                None => None,
            },
            notices: self.notices@,
            frames: self.frames@,
            writes: self.writes@,
        }
    }
}

impl StreamHandlerPool {
    /// The pool's representation invariant: at most one entry per key, and
    /// no entry at all before the pool is bound.
    pub closed spec fn wf(&self) -> bool {
        &&& keys_unique(self.entries@)
        &&& self.binding is None ==> self.entries@.len() == 0
    }

    /// A well-formed pool has a well-formed view: in particular, an unbound
    /// pool holds no live stream.
    pub proof fn lemma_view_wf(&self)
        requires
            self.wf(),
        ensures
            self@.wf(),
    {
        if self.binding is None {
            assert forall|key: StreamKey| !self@.live.contains_key(key) by {
                lemma_as_map_contains(self.entries@, key);
            }
        }
    }

    pub fn new() -> (pool: StreamHandlerPool)
        ensures
            pool.wf(),
            pool@ == pool_init(),
    {
        let pool = StreamHandlerPool {
            entries: Vec::new(),
            binding: None,
            notices: Ghost(Seq::empty()),
            frames: Ghost(Seq::empty()),
            writes: Ghost(Seq::empty()),
        };
        proof {
            assert(pool@ =~= pool_init());
        }
        pool
    }

    /// One-time wiring.  The first call records the three endpoints for the
    /// lifetime of the pool; any further call is refused and changes
    /// nothing.
    pub fn bind(&mut self, msg: PoolBindMessage) -> (r: Result<(), BindError>)
        requires
            old(self).wf(),
        ensures
            final(self).wf(),
            final(self)@ == bind_result(old(self)@, msg@).0,
            r == bind_result(old(self)@, msg@).1,
    {
        match &self.binding {
            Some(_) => Err(BindError::AlreadyBound),
            None => {
                self.binding = Some(msg);
                proof {
                    assert(self@ =~= bind_result(old(self)@, msg@).0);
                }
                Ok(())
            },
        }
    }

    fn find_index(&self, key: &StreamKey) -> (r: Option<usize>)
        requires
            self.wf(),
        ensures
            match r {
                Some(i) => i < self.entries@.len() && self.entries@[i as int].key == *key
                    && self@.live.contains_key(*key) && self@.live[*key] == self.entries@[
                    i as int
                ]@,
                None => !self@.live.contains_key(*key),
            },
    {
        let n = self.entries.len();
        let mut i: usize = 0;
        while i < n
            invariant
                n == self.entries@.len(),
                i <= n,
                self.wf(),
                forall|j: int| 0 <= j < i ==> self.entries@[j].key != *key,
            decreases n - i,
        {
            if self.entries[i].key == *key {
                proof {
                    lemma_as_map_value(self.entries@, i as int);
                }
                return Some(i);
            }
            i += 1;
        }
        proof {
            lemma_as_map_contains(self.entries@, *key);
        }
        None
    }

    /// Registers a freshly established connection.  On success the
    /// descriptor and its resolved classification are owned by the pool and
    /// the bound dispatcher is recorded as the stream's shutdown
    /// subscriber; every refusal leaves the pool exactly as it was.
    pub fn add_stream(&mut self, msg: AddStreamMsg) -> (r: Result<(), AddStreamError>)
        requires
            old(self).wf(),
        ensures
            final(self).wf(),
            ({
                let step = add_result(
                    old(self)@,
                    msg.connection_info.spec_stream_key(),
                    msg.origin_port,
                    msg.port_configuration.is_clandestine,
                    msg.connection_info.resource is Some,
                    msg.connection_info.direction,
                );
                final(self)@ == step.0 && r == step.1
            }),
    {
        let dispatcher = match &self.binding {
            None => {
                return Err(AddStreamError::PoolNotBound);
            },
            Some(b) => b.dispatcher_subs.duplicate(),
        };
        let key = msg.connection_info.stream_key();
        match self.find_index(&key) {
            Some(_) => {
                return Err(AddStreamError::DuplicateStream);
            },
            None => {},
        }
        let sink = match msg.connection_info.resource {
            None => {
                return Err(AddStreamError::UnboundResource);
            },
            Some(s) => s,
        };
        let stream_type = resolve_stream_type(
            &msg.port_configuration,
            msg.origin_port,
            msg.connection_info.local_addr.port,
        );
        let entry = StreamEntry {
            key,
            stream_type,
            direction: msg.connection_info.direction,
            sink,
            sub: dispatcher,
        };
        proof {
            let s0 = self.entries@;
            lemma_as_map_contains(s0, key);
            lemma_keys_unique_push(s0, entry);
            assert(s0.push(entry).drop_last() =~= s0);
        }
        self.entries.push(entry);
        proof {
            assert(self@ =~= add_result(
                old(self)@,
                msg.connection_info.spec_stream_key(),
                msg.origin_port,
                msg.port_configuration.is_clandestine,
                msg.connection_info.resource is Some,
                msg.connection_info.direction,
            ).0);
        }
        Ok(())
    }

    /// Removes the stream under `key`, releases its socket resource, and
    /// only then sends the shutdown notification — carrying the stream's
    /// final classification — to the subscriber recorded at registration
    /// time.  Delivery is fire-and-forget: a subscriber that has already
    /// shut down silently drops the notification.  An absent key is a
    /// no-op, never an error, because the triggering close event and an
    /// explicit administrative removal may race.
    pub fn remove_stream(&mut self, key: StreamKey) -> (removed: Option<RemovedStreamType>)
        requires
            old(self).wf(),
        ensures
            final(self).wf(),
            final(self)@ == remove_result(old(self)@, key).0,
            removed == remove_result(old(self)@, key).1,
    {
        match self.find_index(&key) {
            None => None,
            Some(i) => {
                proof {
                    lemma_as_map_remove(self.entries@, i as int);
                    lemma_keys_unique_remove(self.entries@, i as int);
                }
                let entry = self.entries.remove(i);
                let notice = RemoveStreamMsg {
                    local_addr: key.local_addr,
                    peer_addr: key.peer_addr,
                    stream_type: entry.stream_type,
                    sub: entry.sub.endpoint_id(),
                };
                let StreamEntry { key: _, stream_type, direction: _, sink, sub } = entry;
                channel_release(sink.tx);
                let _accepted = channel_deliver(&sub.tx, SubsystemMessage::RemoveStream(notice));
                self.notices = Ghost(self.notices@.push(notice));
                proof {
                    assert(self@ =~= remove_result(old(self)@, key).0);
                }
                Some(stream_type)
            },
        }
    }

    /// Routes one unit of inbound application data to the dispatcher,
    /// tagged with the stream's identity and current classification; for a
    /// non-clandestine stream the sequence number attributed to this
    /// payload is the entry's current one, and the entry advances by
    /// exactly one, atomically with the hand-off.
    pub fn dispatch_inbound(&mut self, key: StreamKey, data: Vec<u8>) -> (r: Result<
        (),
        DispatchError,
    >)
        requires
            old(self).wf(),
            sequence_has_room(old(self)@, key),
        ensures
            final(self).wf(),
            ({
                let step = dispatch_result(old(self)@, key, data@);
                final(self)@ == step.0 && r == step.1
            }),
    {
        let ghost data_view = data@;
        let i = match self.find_index(&key) {
            None => {
                return Err(DispatchError::StreamNotFound);
            },
            Some(i) => i,
        };
        proof {
            lemma_as_map_remove(self.entries@, i as int);
            lemma_keys_unique_remove(self.entries@, i as int);
        }
        let mut entry = self.entries.remove(i);
        let frame_type = entry.stream_type;
        match entry.stream_type {
            RemovedStreamType::NonClandestine(attrs) => {
                entry.stream_type = RemovedStreamType::NonClandestine(
                    NonClandestineAttributes {
                        reception_port: attrs.reception_port,
                        sequence_number: attrs.sequence_number + 1,
                    },
                );
            },
            RemovedStreamType::Clandestine => {},
        }
        let frame = InboundFrame {
            local_addr: key.local_addr,
            peer_addr: key.peer_addr,
            stream_type: frame_type,
            data,
        };
        let target_id = match &self.binding {
            Some(b) => {
                let target_id = b.dispatcher_subs.endpoint_id();
                let _accepted = channel_deliver(
                    &b.dispatcher_subs.tx,
                    SubsystemMessage::InboundData(frame),
                );
                target_id
            },
            None => {
                // unreachable: a live entry implies the pool is bound
                proof {
                    assert(false);
                }
                EndpointId(0)
            },
        };
        proof {
            let s1 = self.entries@;
            lemma_as_map_contains(s1, key);
            lemma_keys_unique_push(s1, entry);
            assert(s1.push(entry).drop_last() =~= s1);
        }
        self.entries.push(entry);
        self.frames = Ghost(
            self.frames@.push(
                FrameRecord {
                    target: target_id,
                    local_addr: key.local_addr,
                    peer_addr: key.peer_addr,
                    stream_type: frame_type,
                    data: data_view,
                },
            ),
        );
        proof {
            assert(self@.live =~= dispatch_result(old(self)@, key, data_view).0.live);
            assert(self@ =~= dispatch_result(old(self)@, key, data_view).0);
        }
        Ok(())
    }

    /// Hands one outbound payload to the stream's byte sink.  The sink
    /// never blocks.  A delivered write hands the sink exactly the caller's
    /// payload, recorded in the delivery history; when the sink refuses the
    /// payload the stream is removed as if by `remove_stream` —
    /// notification included — before the transport error is returned, so a
    /// broken write can never leave a half-dead entry in the live map.
    pub fn write_outbound(&mut self, key: StreamKey, data: Vec<u8>) -> (r: Result<(), WriteError>)
        requires
            old(self).wf(),
        ensures
            final(self).wf(),
            !old(self)@.live.contains_key(key) ==> final(self)@ == old(self)@ && r == Err::<
                (),
                WriteError,
            >(WriteError::StreamNotFound),
            old(self)@.live.contains_key(key) && r is Ok ==> final(self)@ == write_result(
                old(self)@,
                key,
                data@,
                true,
            ).0 && r == write_result(old(self)@, key, data@, true).1,
            old(self)@.live.contains_key(key) && r is Err ==> final(self)@ == write_result(
                old(self)@,
                key,
                data@,
                false,
            ).0 && r == write_result(old(self)@, key, data@, false).1,
    {
        let ghost data_view = data@;
        let i = match self.find_index(&key) {
            None => {
                return Err(WriteError::StreamNotFound);
            },
            Some(i) => i,
        };
        let delivered = channel_deliver(&self.entries[i].sink.tx, data);
        if delivered {
            self.writes = Ghost(self.writes@.push(WriteRecord { key, data: data_view }));
            proof {
                assert(self@ =~= write_result(old(self)@, key, data_view, true).0);
            }
            Ok(())
        } else {
            let _removed = self.remove_stream(key);
            Err(WriteError::Io(IoErrorKind::SinkClosed))
        }
    }

    /// Whether the one-time wiring has completed.
    pub fn is_bound(&self) -> (r: bool)
        ensures
            r == (self@.binding is Some),
    {
        match &self.binding {
            Some(_) => true,
            None => false,
        }
    }

    /// Whether `key` currently has a live entry.
    pub fn is_live(&self, key: StreamKey) -> (r: bool)
        requires
            self.wf(),
        ensures
            r == self@.live.contains_key(key),
    {
        match self.find_index(&key) {
            Some(_) => true,
            None => false,
        }
    }

    /// The classification the live stream under `key` currently holds.
    pub fn live_stream_type(&self, key: StreamKey) -> (r: Option<RemovedStreamType>)
        requires
            self.wf(),
        ensures
            r == if self@.live.contains_key(key) {
                Some(self@.live[key].stream_type)
            } else {
                None::<RemovedStreamType>
            },
    {
        match self.find_index(&key) {
            Some(i) => Some(self.entries[i].stream_type),
            None => None,
        }
    }
}

} // verus!
