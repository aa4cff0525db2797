//! The lifecycle laws: what holds of every sequence of pool operations,
//! stated and proved over the pool's transition functions.  Each law's
//! inputs are arbitrary; the pool's operations tie their own behaviour to
//! the same transition functions, so these laws carry over to every run of
//! the executable pool.

use vstd::prelude::*;
use crate::connection::{StreamDirection, StreamKey};
use crate::stream_handler_pool::{
    add_result, bind_result, dispatch_result, remove_result, removal_notice, write_result,
    AddStreamError, FrameRecord, IoErrorKind, PoolView, StreamEntryView, WriteError, WriteRecord,
};
use crate::stream_messages::{
    BindingModel, NonClandestineAttributes, RemoveStreamMsg, RemovedStreamType,
};

verus! {

/// The shutdown notifications addressed to `key`, in emission order.
pub open spec fn notices_for(notices: Seq<RemoveStreamMsg>, key: StreamKey) -> Seq<
    RemoveStreamMsg,
>
    decreases notices.len(),
{
    if notices.len() == 0 {
        Seq::empty()
    } else {
        let rest = notices_for(notices.drop_last(), key);
        if notices.last().local_addr == key.local_addr && notices.last().peer_addr
            == key.peer_addr {
            rest.push(notices.last())
        } else {
            rest
        }
    }
}

/// The sequence numbers of the non-clandestine frames forwarded for `key`,
/// in delivery order.
pub open spec fn frame_sequence_numbers(frames: Seq<FrameRecord>, key: StreamKey) -> Seq<u64>
    decreases frames.len(),
{
    if frames.len() == 0 {
        Seq::empty()
    } else {
        let rest = frame_sequence_numbers(frames.drop_last(), key);
        let f = frames.last();
        if f.local_addr == key.local_addr && f.peer_addr == key.peer_addr {
            match f.stream_type {
                RemovedStreamType::NonClandestine(attrs) => rest.push(attrs.sequence_number),
                RemovedStreamType::Clandestine => rest,
            }
        } else {
            rest
        }
    }
}

/// The pool state after dispatching the given payloads to `key`, in
/// delivery order.
pub open spec fn dispatch_all(v: PoolView, key: StreamKey, payloads: Seq<Seq<u8>>) -> PoolView
    decreases payloads.len(),
{
    if payloads.len() == 0 {
        v
    } else {
        dispatch_all(dispatch_result(v, key, payloads.first()).0, key, payloads.drop_first())
    }
}

/// Uniqueness: at most one live entry exists per key.  A registration
/// under a live key is refused with `DuplicateStream`, and the pool — the
/// original entry included — is left exactly as it was.
pub proof fn lemma_duplicate_add_rejected(
    v: PoolView,
    key: StreamKey,
    origin_port: Option<u16>,
    is_clandestine: bool,
    has_resource: bool,
    direction: StreamDirection,
)
    requires
        v.wf(),
        v.live.contains_key(key),
    ensures
        add_result(v, key, origin_port, is_clandestine, has_resource, direction).0 == v,
        add_result(v, key, origin_port, is_clandestine, has_resource, direction).1 == Err::<
            (),
            AddStreamError,
        >(AddStreamError::DuplicateStream),
{
}

/// Removing an absent key is a no-op: the pool is unchanged and nothing is
/// returned or emitted.
pub proof fn lemma_remove_absent_is_noop(v: PoolView, key: StreamKey)
    requires
        !v.live.contains_key(key),
    ensures
        remove_result(v, key).0 == v,
        remove_result(v, key).1 == None::<RemovedStreamType>,
{
}

/// Removing a key twice in a row has the same observable effect as
/// removing it once: the second removal changes nothing and returns
/// nothing.
pub proof fn lemma_remove_idempotent(v: PoolView, key: StreamKey)
    ensures
        remove_result(remove_result(v, key).0, key).0 == remove_result(v, key).0,
        remove_result(remove_result(v, key).0, key).1 == None::<RemovedStreamType>,
{
    let once = remove_result(v, key).0;
    assert(!once.live.contains_key(key));
}

/// Sequence monotonicity: over any run of inbound dispatches to a
/// non-clandestine stream, in delivery order, the dispatcher observes
/// consecutive sequence numbers.  From counter value `start`, dispatching
/// `payloads` forwards exactly `start, start + 1, ...`, one number per
/// payload, and leaves the entry's counter at `start + payloads.len()`
/// with classification, subscriber and direction otherwise untouched.
pub proof fn lemma_dispatch_sequence_numbers(
    v: PoolView,
    key: StreamKey,
    reception_port: u16,
    start: u64,
    payloads: Seq<Seq<u8>>,
)
    requires
        v.wf(),
        v.live.contains_key(key),
        v.live[key].stream_type == RemovedStreamType::NonClandestine(
            NonClandestineAttributes { reception_port, sequence_number: start },
        ),
        start + payloads.len() <= u64::MAX,
    ensures
        ({
            let v2 = dispatch_all(v, key, payloads);
            &&& v2.wf()
            &&& v2.live.contains_key(key)
            &&& v2.live[key] == (StreamEntryView {
                stream_type: RemovedStreamType::NonClandestine(
                    NonClandestineAttributes {
                        reception_port,
                        sequence_number: (start + payloads.len()) as u64,
                    },
                ),
                ..v.live[key]
            })
            &&& frame_sequence_numbers(v2.frames, key) == frame_sequence_numbers(v.frames, key)
                + Seq::new(payloads.len(), |i: int| (start + i) as u64)
            &&& v2.notices == v.notices
            &&& v2.binding == v.binding
        }),
    decreases payloads.len(),
{
    let n = payloads.len();
    if n == 0 {
        assert(frame_sequence_numbers(v.frames, key) + Seq::new(
            0,
            |i: int| (start + i) as u64,
        ) =~= frame_sequence_numbers(v.frames, key));
        assert(v.live[key] == (StreamEntryView {
            stream_type: RemovedStreamType::NonClandestine(
                NonClandestineAttributes { reception_port, sequence_number: start },
            ),
            ..v.live[key]
        }));
    } else {
        let v1 = dispatch_result(v, key, payloads.first()).0;
        assert(v1.frames.drop_last() =~= v.frames);
        assert(frame_sequence_numbers(v1.frames, key) == frame_sequence_numbers(
            v.frames,
            key,
        ).push(start));
        lemma_dispatch_sequence_numbers(
            v1,
            key,
            reception_port,
            (start + 1) as u64,
            payloads.drop_first(),
        );
        let v2 = dispatch_all(v, key, payloads);
        assert(frame_sequence_numbers(v.frames, key).push(start) + Seq::new(
            (n - 1) as nat,
            |i: int| ((start + 1) + i) as u64,
        ) =~= frame_sequence_numbers(v.frames, key) + Seq::new(n, |i: int| (start + i) as u64));
    }
}

/// From a fresh non-clandestine stream, dispatches in delivery order are
/// observed as the sequence numbers 0, 1, 2, ... with no gaps or repeats.
pub proof fn lemma_fresh_stream_sequence_numbers(
    v: PoolView,
    key: StreamKey,
    reception_port: u16,
    payloads: Seq<Seq<u8>>,
)
    requires
        v.wf(),
        v.live.contains_key(key),
        v.live[key].stream_type == RemovedStreamType::NonClandestine(
            NonClandestineAttributes { reception_port, sequence_number: 0 },
        ),
        payloads.len() <= u64::MAX,
        frame_sequence_numbers(v.frames, key) == Seq::<u64>::empty(),
    ensures
        frame_sequence_numbers(dispatch_all(v, key, payloads).frames, key) == Seq::new(
            payloads.len(),
            |i: int| i as u64,
        ),
{
    lemma_dispatch_sequence_numbers(v, key, reception_port, 0, payloads);
    assert(Seq::<u64>::empty() + Seq::new(payloads.len(), |i: int| (0 + i) as u64) =~= Seq::new(
        payloads.len(),
        |i: int| i as u64,
    ));
}

/// At-most-one notification: a removal of a live key appends exactly one
/// shutdown notification for that key — carrying its final classification
/// and recorded subscriber — and the key is absent from the live map in
/// the very state in which the notification exists; a removal of an
/// absent key appends nothing, so a second removal never notifies again.
pub proof fn lemma_remove_notifies_at_most_once(v: PoolView, key: StreamKey)
    ensures
        !remove_result(v, key).0.live.contains_key(key),
        v.live.contains_key(key) ==> notices_for(remove_result(v, key).0.notices, key)
            == notices_for(v.notices, key).push(removal_notice(v, key)),
        !v.live.contains_key(key) ==> remove_result(v, key).0 == v,
        remove_result(remove_result(v, key).0, key).0.notices == remove_result(v, key).0.notices,
{
    let v1 = remove_result(v, key).0;
    if v.live.contains_key(key) {
        assert(v1.notices.drop_last() =~= v.notices);
    }
    assert(!v1.live.contains_key(key));
}

/// Only a removal — explicit, or implicit after a failed write — emits a
/// shutdown notification: wiring, registration, inbound dispatch and a
/// delivered write all leave the notification history unchanged.
pub proof fn lemma_notices_only_on_removal(
    v: PoolView,
    key: StreamKey,
    binding: BindingModel,
    origin_port: Option<u16>,
    is_clandestine: bool,
    has_resource: bool,
    direction: StreamDirection,
    data: Seq<u8>,
)
    ensures
        bind_result(v, binding).0.notices == v.notices,
        add_result(v, key, origin_port, is_clandestine, has_resource, direction).0.notices
            == v.notices,
        dispatch_result(v, key, data).0.notices == v.notices,
        write_result(v, key, data, true).0.notices == v.notices,
{
}

/// Only a delivered write reaches a stream's byte sink, and it hands the
/// sink exactly the caller's payload: a delivered write on a live key
/// appends that one payload to the delivery history, while wiring,
/// registration, removal, inbound dispatch and a refused write all leave
/// the delivery history unchanged.
pub proof fn lemma_writes_only_on_delivery(
    v: PoolView,
    key: StreamKey,
    binding: BindingModel,
    origin_port: Option<u16>,
    is_clandestine: bool,
    has_resource: bool,
    direction: StreamDirection,
    data: Seq<u8>,
)
    ensures
        bind_result(v, binding).0.writes == v.writes,
        add_result(v, key, origin_port, is_clandestine, has_resource, direction).0.writes
            == v.writes,
        remove_result(v, key).0.writes == v.writes,
        dispatch_result(v, key, data).0.writes == v.writes,
        write_result(v, key, data, false).0.writes == v.writes,
        v.live.contains_key(key) ==> write_result(v, key, data, true).0.writes == v.writes.push(
            WriteRecord { key, data },
        ),
        !v.live.contains_key(key) ==> write_result(v, key, data, true).0.writes == v.writes,
{
}

/// Write failure triggers removal: when the transport refuses a payload on
/// a live stream, the pool ends exactly as an explicit removal would leave
/// it, the transport error is surfaced, the key is gone from the live map,
/// and exactly one notification is appended, carrying the classification
/// the stream held at failure time.
pub proof fn lemma_write_failure_removes(v: PoolView, key: StreamKey, data: Seq<u8>)
    requires
        v.live.contains_key(key),
    ensures
        write_result(v, key, data, false).0 == remove_result(v, key).0,
        write_result(v, key, data, false).1 == Err::<(), WriteError>(
            WriteError::Io(IoErrorKind::SinkClosed),
        ),
        !write_result(v, key, data, false).0.live.contains_key(key),
        notices_for(write_result(v, key, data, false).0.notices, key) == notices_for(
            v.notices,
            key,
        ).push(removal_notice(v, key)),
        removal_notice(v, key).stream_type == v.live[key].stream_type,
{
    lemma_remove_notifies_at_most_once(v, key);
}

/// Binding precedes traffic, as an invariant: every operation takes a
/// well-formed pool state to a well-formed pool state, so an unbound pool
/// can never come to hold a live stream.
pub proof fn lemma_transitions_preserve_wf(
    v: PoolView,
    key: StreamKey,
    binding: BindingModel,
    origin_port: Option<u16>,
    is_clandestine: bool,
    has_resource: bool,
    direction: StreamDirection,
    data: Seq<u8>,
    delivered: bool,
)
    requires
        v.wf(),
    ensures
        bind_result(v, binding).0.wf(),
        add_result(v, key, origin_port, is_clandestine, has_resource, direction).0.wf(),
        remove_result(v, key).0.wf(),
        dispatch_result(v, key, data).0.wf(),
        write_result(v, key, data, delivered).0.wf(),
{
}

/// Binding precedes traffic: a registration attempted before the one-time
/// wiring has completed is rejected, and the pool is left untouched.
pub proof fn lemma_unbound_add_rejected(
    v: PoolView,
    key: StreamKey,
    origin_port: Option<u16>,
    is_clandestine: bool,
    has_resource: bool,
    direction: StreamDirection,
)
    requires
        v.binding is None,
    ensures
        add_result(v, key, origin_port, is_clandestine, has_resource, direction).0 == v,
        add_result(v, key, origin_port, is_clandestine, has_resource, direction).1 == Err::<
            (),
            AddStreamError,
        >(AddStreamError::PoolNotBound),
{
}

} // verus!
