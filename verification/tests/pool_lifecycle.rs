use crossbeam_channel::{unbounded, Receiver, TryRecvError};
use stream_pool::classification::{resolve_stream_type, PortConfiguration};
use stream_pool::connection::{ByteSink, ConnectionInfo, SocketAddress, StreamDirection, StreamKey};
use stream_pool::endpoint::{Endpoint, EndpointId};
use stream_pool::stream_handler_pool::{
    AddStreamError, BindError, DispatchError, IoErrorKind, StreamHandlerPool, WriteError,
};
use stream_pool::stream_messages::{
    AddStreamMsg, NonClandestineAttributes, PoolBindMessage, RemoveStreamMsg, RemovedStreamType,
    SubsystemMessage,
};

const DISPATCHER_ID: u64 = 1;

fn test_key() -> StreamKey {
    StreamKey {
        local_addr: SocketAddress::from_octets(127, 0, 0, 1, 5000),
        peer_addr: SocketAddress::from_octets(93, 184, 216, 34, 80),
    }
}

fn endpoint(id: u64) -> (Endpoint, Receiver<SubsystemMessage>) {
    let (tx, rx) = unbounded::<SubsystemMessage>();
    (Endpoint::new(EndpointId(id), tx), rx)
}

/// A pool that has completed its one-time wiring; returns the dispatcher's
/// receiving side, on which both inbound frames and shutdown notifications
/// arrive.
fn bound_pool() -> (StreamHandlerPool, Receiver<SubsystemMessage>) {
    let mut pool = StreamHandlerPool::new();
    let (dispatcher_subs, dispatcher_rx) = endpoint(DISPATCHER_ID);
    let (stream_handler_pool_subs, _pool_rx) = endpoint(2);
    let (neighborhood_subs, _neighborhood_rx) = endpoint(3);
    let result = pool.bind(PoolBindMessage {
        dispatcher_subs,
        stream_handler_pool_subs,
        neighborhood_subs,
    });
    assert_eq!(result, Ok(()));
    (pool, dispatcher_rx)
}

/// An `AddStreamMsg` for `key` whose resource is a fresh byte sink; returns
/// the sink's receiving side so the test can observe (or break) the
/// transport.
fn add_msg(
    key: StreamKey,
    origin_port: Option<u16>,
    is_clandestine: bool,
) -> (AddStreamMsg, Receiver<Vec<u8>>) {
    let (tx, rx) = unbounded::<Vec<u8>>();
    let msg = AddStreamMsg::new(
        ConnectionInfo {
            local_addr: key.local_addr,
            peer_addr: key.peer_addr,
            direction: StreamDirection::Accepted,
            resource: Some(ByteSink::new(tx)),
        },
        origin_port,
        PortConfiguration::new(is_clandestine),
    );
    (msg, rx)
}

fn expect_remove_stream(rx: &Receiver<SubsystemMessage>) -> RemoveStreamMsg {
    match rx.try_recv() {
        Ok(SubsystemMessage::RemoveStream(msg)) => msg,
        other => panic!("expected a RemoveStream notification, got {:?}", other),
    }
}

fn expect_inbound_sequence_number(rx: &Receiver<SubsystemMessage>, expected_data: &[u8]) -> u64 {
    match rx.try_recv() {
        Ok(SubsystemMessage::InboundData(frame)) => {
            assert_eq!(frame.data, expected_data.to_vec());
            match frame.stream_type {
                RemovedStreamType::NonClandestine(attrs) => attrs.sequence_number,
                RemovedStreamType::Clandestine => panic!("expected a sequenced frame"),
            }
        }
        other => panic!("expected an InboundData frame, got {:?}", other),
    }
}

#[test]
fn add_stream_before_bind_is_rejected() {
    let mut pool = StreamHandlerPool::new();
    let (msg, _sink_rx) = add_msg(test_key(), None, false);

    let result = pool.add_stream(msg);

    assert_eq!(result, Err(AddStreamError::PoolNotBound));
    assert!(!pool.is_bound());
    assert!(!pool.is_live(test_key()));
}

#[test]
fn rebinding_is_rejected() {
    let (mut pool, _dispatcher_rx) = bound_pool();
    let (dispatcher_subs, _rx1) = endpoint(4);
    let (stream_handler_pool_subs, _rx2) = endpoint(5);
    let (neighborhood_subs, _rx3) = endpoint(6);

    let result = pool.bind(PoolBindMessage {
        dispatcher_subs,
        stream_handler_pool_subs,
        neighborhood_subs,
    });

    assert_eq!(result, Err(BindError::AlreadyBound));
    assert!(pool.is_bound());
}

#[test]
fn unbound_resource_is_rejected() {
    let (mut pool, _dispatcher_rx) = bound_pool();
    let msg = AddStreamMsg::new(
        ConnectionInfo {
            local_addr: test_key().local_addr,
            peer_addr: test_key().peer_addr,
            direction: StreamDirection::Accepted,
            resource: None,
        },
        None,
        PortConfiguration::new(false),
    );

    let result = pool.add_stream(msg);

    assert_eq!(result, Err(AddStreamError::UnboundResource));
    assert!(!pool.is_live(test_key()));
}

#[test]
fn duplicate_add_is_rejected_and_leaves_the_original_entry_untouched() {
    let (mut pool, _dispatcher_rx) = bound_pool();
    let key = test_key();
    let (first, _sink_rx_1) = add_msg(key, Some(80), false);
    assert_eq!(pool.add_stream(first), Ok(()));
    assert_eq!(pool.dispatch_inbound(key, vec![1u8]), Ok(()));

    let (second, _sink_rx_2) = add_msg(key, Some(8080), true);
    let result = pool.add_stream(second);

    assert_eq!(result, Err(AddStreamError::DuplicateStream));
    assert_eq!(
        pool.live_stream_type(key),
        Some(RemovedStreamType::NonClandestine(NonClandestineAttributes {
            reception_port: 80,
            sequence_number: 1,
        }))
    );
}

#[test]
fn remove_of_an_absent_key_is_a_noop() {
    let (mut pool, dispatcher_rx) = bound_pool();

    let result = pool.remove_stream(test_key());

    assert_eq!(result, None);
    assert_eq!(dispatcher_rx.try_recv(), Err(TryRecvError::Empty));
}

#[test]
fn removal_notifies_the_subscriber_exactly_once() {
    let (mut pool, dispatcher_rx) = bound_pool();
    let key = test_key();
    let (msg, sink_rx) = add_msg(key, Some(80), false);
    assert_eq!(pool.add_stream(msg), Ok(()));

    let first = pool.remove_stream(key);
    let second = pool.remove_stream(key);

    let expected_type = RemovedStreamType::NonClandestine(NonClandestineAttributes {
        reception_port: 80,
        sequence_number: 0,
    });
    assert_eq!(first, Some(expected_type));
    assert_eq!(second, None);
    assert!(!pool.is_live(key));
    let notice = expect_remove_stream(&dispatcher_rx);
    assert_eq!(
        notice,
        RemoveStreamMsg {
            local_addr: key.local_addr,
            peer_addr: key.peer_addr,
            stream_type: expected_type,
            sub: EndpointId(DISPATCHER_ID),
        }
    );
    assert_eq!(dispatcher_rx.try_recv(), Err(TryRecvError::Empty));
    // the socket resource was released before the notification left
    assert_eq!(sink_rx.try_recv(), Err(TryRecvError::Disconnected));
}

#[test]
fn inbound_dispatches_carry_contiguous_sequence_numbers() {
    let (mut pool, dispatcher_rx) = bound_pool();
    let key = test_key();
    let (msg, _sink_rx) = add_msg(key, Some(80), false);
    assert_eq!(pool.add_stream(msg), Ok(()));

    assert_eq!(pool.dispatch_inbound(key, vec![10u8]), Ok(()));
    assert_eq!(pool.dispatch_inbound(key, vec![11u8]), Ok(()));
    assert_eq!(pool.dispatch_inbound(key, vec![12u8]), Ok(()));

    assert_eq!(expect_inbound_sequence_number(&dispatcher_rx, &[10u8]), 0);
    assert_eq!(expect_inbound_sequence_number(&dispatcher_rx, &[11u8]), 1);
    assert_eq!(expect_inbound_sequence_number(&dispatcher_rx, &[12u8]), 2);
    assert_eq!(
        pool.live_stream_type(key),
        Some(RemovedStreamType::NonClandestine(NonClandestineAttributes {
            reception_port: 80,
            sequence_number: 3,
        }))
    );
}

#[test]
fn clandestine_streams_are_not_sequenced() {
    let (mut pool, dispatcher_rx) = bound_pool();
    let key = test_key();
    let (msg, _sink_rx) = add_msg(key, None, true);
    assert_eq!(pool.add_stream(msg), Ok(()));

    assert_eq!(pool.dispatch_inbound(key, vec![42u8]), Ok(()));

    match dispatcher_rx.try_recv() {
        Ok(SubsystemMessage::InboundData(frame)) => {
            assert_eq!(frame.stream_type, RemovedStreamType::Clandestine);
            assert_eq!(frame.data, vec![42u8]);
        }
        other => panic!("expected an InboundData frame, got {:?}", other),
    }
    assert_eq!(pool.live_stream_type(key), Some(RemovedStreamType::Clandestine));
    assert_eq!(pool.remove_stream(key), Some(RemovedStreamType::Clandestine));
    let notice = expect_remove_stream(&dispatcher_rx);
    assert_eq!(notice.stream_type, RemovedStreamType::Clandestine);
}

#[test]
fn dispatch_to_an_unknown_stream_is_refused() {
    let (mut pool, dispatcher_rx) = bound_pool();

    let result = pool.dispatch_inbound(test_key(), vec![1u8]);

    assert_eq!(result, Err(DispatchError::StreamNotFound));
    assert_eq!(dispatcher_rx.try_recv(), Err(TryRecvError::Empty));
}

#[test]
fn write_to_an_unknown_stream_is_refused() {
    let (mut pool, _dispatcher_rx) = bound_pool();

    let result = pool.write_outbound(test_key(), vec![1u8]);

    assert_eq!(result, Err(WriteError::StreamNotFound));
}

#[test]
fn delivered_writes_reach_the_sink_and_leave_the_stream_live() {
    let (mut pool, _dispatcher_rx) = bound_pool();
    let key = test_key();
    let (msg, sink_rx) = add_msg(key, Some(80), false);
    assert_eq!(pool.add_stream(msg), Ok(()));

    let result = pool.write_outbound(key, vec![7u8, 8u8, 9u8]);

    assert_eq!(result, Ok(()));
    assert_eq!(sink_rx.try_recv(), Ok(vec![7u8, 8u8, 9u8]));
    assert!(pool.is_live(key));
}

#[test]
fn write_failure_removes_the_stream_and_notifies_once() {
    let (mut pool, dispatcher_rx) = bound_pool();
    let key = test_key();
    let (msg, sink_rx) = add_msg(key, Some(80), false);
    assert_eq!(pool.add_stream(msg), Ok(()));
    assert_eq!(pool.dispatch_inbound(key, vec![1u8]), Ok(()));
    let live_type_at_failure = pool.live_stream_type(key).unwrap();
    drop(sink_rx);

    let result = pool.write_outbound(key, vec![2u8]);

    assert_eq!(result, Err(WriteError::Io(IoErrorKind::SinkClosed)));
    assert!(!pool.is_live(key));
    let _frame = dispatcher_rx.try_recv().unwrap();
    let notice = expect_remove_stream(&dispatcher_rx);
    assert_eq!(notice.stream_type, live_type_at_failure);
    assert_eq!(
        notice.stream_type,
        RemovedStreamType::NonClandestine(NonClandestineAttributes {
            reception_port: 80,
            sequence_number: 1,
        })
    );
    assert_eq!(dispatcher_rx.try_recv(), Err(TryRecvError::Empty));
}

#[test]
fn end_to_end_scenario_frees_the_key_after_removal() {
    let (mut pool, dispatcher_rx) = bound_pool();
    let key = test_key();
    let (msg, _sink_rx) = add_msg(key, Some(80), false);
    assert_eq!(pool.add_stream(msg), Ok(()));
    assert_eq!(
        pool.live_stream_type(key),
        Some(RemovedStreamType::NonClandestine(NonClandestineAttributes {
            reception_port: 80,
            sequence_number: 0,
        }))
    );

    assert_eq!(pool.dispatch_inbound(key, vec![1u8]), Ok(()));
    assert_eq!(pool.dispatch_inbound(key, vec![2u8]), Ok(()));
    assert_eq!(pool.dispatch_inbound(key, vec![3u8]), Ok(()));
    assert_eq!(expect_inbound_sequence_number(&dispatcher_rx, &[1u8]), 0);
    assert_eq!(expect_inbound_sequence_number(&dispatcher_rx, &[2u8]), 1);
    assert_eq!(expect_inbound_sequence_number(&dispatcher_rx, &[3u8]), 2);

    let removed = pool.remove_stream(key);
    assert_eq!(
        removed,
        Some(RemovedStreamType::NonClandestine(NonClandestineAttributes {
            reception_port: 80,
            sequence_number: 3,
        }))
    );
    let notice = expect_remove_stream(&dispatcher_rx);
    assert_eq!(
        notice,
        RemoveStreamMsg {
            local_addr: SocketAddress::from_octets(127, 0, 0, 1, 5000),
            peer_addr: SocketAddress::from_octets(93, 184, 216, 34, 80),
            stream_type: RemovedStreamType::NonClandestine(NonClandestineAttributes {
                reception_port: 80,
                sequence_number: 3,
            }),
            sub: EndpointId(DISPATCHER_ID),
        }
    );

    // the key is reusable only after the removal has been processed
    let (again, _sink_rx_2) = add_msg(key, None, false);
    assert_eq!(pool.add_stream(again), Ok(()));
    assert_eq!(
        pool.live_stream_type(key),
        Some(RemovedStreamType::NonClandestine(NonClandestineAttributes {
            reception_port: 5000,
            sequence_number: 0,
        }))
    );
}

#[test]
fn classification_follows_the_port_configuration() {
    let clandestine = resolve_stream_type(&PortConfiguration::new(true), Some(80), 5000);
    let with_override = resolve_stream_type(&PortConfiguration::new(false), Some(80), 5000);
    let without_override = resolve_stream_type(&PortConfiguration::new(false), None, 5000);

    assert_eq!(clandestine, RemovedStreamType::Clandestine);
    assert_eq!(
        with_override,
        RemovedStreamType::NonClandestine(NonClandestineAttributes {
            reception_port: 80,
            sequence_number: 0,
        })
    );
    assert_eq!(
        without_override,
        RemovedStreamType::NonClandestine(NonClandestineAttributes {
            reception_port: 5000,
            sequence_number: 0,
        })
    );
}
