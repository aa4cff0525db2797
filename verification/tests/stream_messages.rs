use crossbeam_channel::unbounded;
use stream_pool::classification::PortConfiguration;
use stream_pool::connection::{ConnectionInfo, SocketAddress, StreamDirection, StreamKey};
use stream_pool::endpoint::{Endpoint, EndpointId};
use stream_pool::stream_messages::{
    AddStreamMsg, NonClandestineAttributes, PoolBindMessage, RemoveStreamMsg, RemovedStreamType,
    SubsystemMessage,
};

fn endpoint(id: u64) -> Endpoint {
    let (tx, _rx) = unbounded::<SubsystemMessage>();
    Endpoint::new(EndpointId(id), tx)
}

fn binding(dispatcher: u64, pool: u64, neighborhood: u64) -> PoolBindMessage {
    PoolBindMessage {
        dispatcher_subs: endpoint(dispatcher),
        stream_handler_pool_subs: endpoint(pool),
        neighborhood_subs: endpoint(neighborhood),
    }
}

#[test]
fn pool_bind_message_is_debug() {
    let dispatcher_subs = endpoint(1);
    let stream_handler_pool_subs = endpoint(2);
    let neighborhood_subs = endpoint(3);
    let subject = PoolBindMessage {
        dispatcher_subs,
        stream_handler_pool_subs,
        neighborhood_subs,
    };

    let result = subject.debug_string();

    assert_eq!(result, String::from("PoolBindMessage"));
}

#[test]
fn pool_bind_message_equality_is_by_endpoint_identity() {
    let a = binding(1, 2, 3);
    let b = binding(1, 2, 3);
    let c = binding(1, 2, 4);

    assert!(a == b);
    assert!(!(a == c));
}

#[test]
fn add_stream_msg_new_carries_its_fields() {
    let local_addr = SocketAddress::from_octets(127, 0, 0, 1, 5000);
    let peer_addr = SocketAddress::from_octets(93, 184, 216, 34, 80);
    let connection_info = ConnectionInfo {
        local_addr,
        peer_addr,
        direction: StreamDirection::Accepted,
        resource: None,
    };

    let msg = AddStreamMsg::new(connection_info, Some(8080), PortConfiguration::new(true));

    assert_eq!(msg.connection_info.local_addr, local_addr);
    assert_eq!(msg.connection_info.peer_addr, peer_addr);
    assert_eq!(msg.origin_port, Some(8080));
    assert!(msg.port_configuration.is_clandestine);
}

#[test]
fn remove_stream_msg_equality_is_structural_with_sub_by_identity() {
    let key = StreamKey {
        local_addr: SocketAddress::from_octets(127, 0, 0, 1, 5000),
        peer_addr: SocketAddress::from_octets(93, 184, 216, 34, 80),
    };
    let stream_type = RemovedStreamType::NonClandestine(NonClandestineAttributes {
        reception_port: 80,
        sequence_number: 3,
    });
    let a = RemoveStreamMsg {
        local_addr: key.local_addr,
        peer_addr: key.peer_addr,
        stream_type,
        sub: EndpointId(7),
    };
    let b = RemoveStreamMsg {
        local_addr: key.local_addr,
        peer_addr: key.peer_addr,
        stream_type,
        sub: EndpointId(7),
    };
    let c = RemoveStreamMsg { sub: EndpointId(8), ..a };
    let d = RemoveStreamMsg { stream_type: RemovedStreamType::Clandestine, ..a };

    assert_eq!(a, b);
    assert_ne!(a, c);
    assert_ne!(a, d);
}

#[test]
fn socket_address_from_octets_packs_the_address() {
    let addr = SocketAddress::from_octets(127, 0, 0, 1, 5000);

    assert_eq!(addr.ip, 2130706433);
    assert_eq!(addr.port, 5000);
}

#[test]
fn socket_address_displays_as_a_dotted_quad() {
    let peer = SocketAddress::from_octets(93, 184, 216, 34, 80);
    let local = SocketAddress::from_octets(127, 0, 0, 1, 5000);
    let zero = SocketAddress::from_octets(0, 0, 0, 0, 0);

    assert_eq!(peer.display_string(), String::from("93.184.216.34:80"));
    assert_eq!(local.display_string(), String::from("127.0.0.1:5000"));
    assert_eq!(zero.display_string(), String::from("0.0.0.0:0"));
}

#[test]
fn remove_stream_msg_debug_string_hides_the_subscriber() {
    let msg = RemoveStreamMsg {
        local_addr: SocketAddress::from_octets(127, 0, 0, 1, 5000),
        peer_addr: SocketAddress::from_octets(93, 184, 216, 34, 80),
        stream_type: RemovedStreamType::NonClandestine(NonClandestineAttributes {
            reception_port: 80,
            sequence_number: 3,
        }),
        sub: EndpointId(7),
    };

    assert_eq!(
        msg.debug_string(),
        String::from(
            "RemoveStreamMsg { peer_addr: 93.184.216.34:80, local_addr: 127.0.0.1:5000, \
             stream_type: NonClandestine(NonClandestineAttributes { reception_port: 80, \
             sequence_number: 3 }), sub: <unprintable> }"
        )
    );
}

#[test]
fn clandestine_stream_type_debug_string_is_bare() {
    assert_eq!(
        RemovedStreamType::Clandestine.debug_string(),
        String::from("Clandestine")
    );
}
