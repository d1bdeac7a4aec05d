use hot_reload_proxy::ipc::collect_socket_pairs;
use hot_reload_proxy::ipc::unix_socket_listen;
use hot_reload_proxy::ipc::HandoverError;
use hot_reload_proxy::ipc::IPCSocketPair;
use hot_reload_proxy::ipc::Message;
use hot_reload_proxy::ipc::MessageKind;
use hot_reload_proxy::ipc::Resources;
use hot_reload_proxy::ipc::Socket;
use hot_reload_proxy::ipc::SocketPair;
use hot_reload_proxy::ipc::CONTROL_SOCKET;

type Item = Socket<u32, u16>;
type Msg = Message<u8, u32, u16>;

fn pair(client: u32, upstream: u32) -> Item {
    Socket::SocketPair(SocketPair { client, upstream })
}

fn ipc_pair(client: u32, upstream: u32) -> IPCSocketPair<u32> {
    IPCSocketPair { client, upstream }
}

#[test]
fn control_socket_is_the_well_known_path() {
    assert_eq!(CONTROL_SOCKET, "/tmp/proto-socket");
}

#[test]
fn collect_of_nothing_is_an_empty_bundle() {
    let resources = collect_socket_pairs(Vec::<Item>::new());
    assert_eq!(resources, Resources { socket_pairs: vec![], listeners: vec![] });
}

#[test]
fn collect_keeps_every_pair_in_order() {
    let resources = collect_socket_pairs(vec![pair(1, 2), pair(3, 4), pair(5, 6)]);
    assert_eq!(resources.socket_pairs, vec![ipc_pair(1, 2), ipc_pair(3, 4), ipc_pair(5, 6)]);
    assert_eq!(resources.listeners, Vec::<u16>::new());
}

#[test]
fn collect_sorts_listener_from_pairs() {
    let resources = collect_socket_pairs(vec![pair(1, 2), Socket::Listener(80), pair(3, 4)]);
    assert_eq!(
        resources,
        Resources { socket_pairs: vec![ipc_pair(1, 2), ipc_pair(3, 4)], listeners: vec![80] }
    );
}

#[test]
fn collect_of_listener_alone() {
    let resources = collect_socket_pairs(vec![Item::Listener(80)]);
    assert_eq!(resources, Resources { socket_pairs: vec![], listeners: vec![80] });
}

#[test]
fn collect_keeps_equal_pairs_apart() {
    let resources = collect_socket_pairs(vec![pair(1, 2), pair(1, 2)]);
    assert_eq!(resources.socket_pairs, vec![ipc_pair(1, 2), ipc_pair(1, 2)]);
}

#[test]
fn collect_keeps_listeners_in_order() {
    let resources = collect_socket_pairs(vec![Item::Listener(2), pair(9, 9), Item::Listener(1)]);
    assert_eq!(resources.listeners, vec![2, 1]);
    assert_eq!(resources.socket_pairs, vec![ipc_pair(9, 9)]);
}

#[test]
fn collect_has_as_many_pairs_as_were_surrendered() {
    for n in [0u32, 1, 2, 17, 250] {
        let mut items = Vec::new();
        for i in 0..n {
            items.push(pair(2 * i, 2 * i + 1));
        }
        items.push(Item::Listener(8080));
        let resources = collect_socket_pairs(items);
        assert_eq!(resources.socket_pairs.len(), n as usize);
        for i in 0..n {
            assert_eq!(resources.socket_pairs[i as usize], ipc_pair(2 * i, 2 * i + 1));
        }
        assert_eq!(resources.listeners, vec![8080]);
    }
}

#[test]
fn into_ipc_keeps_both_streams() {
    assert_eq!(SocketPair { client: 1u32, upstream: 2u32 }.into_ipc(), ipc_pair(1, 2));
}

#[test]
fn listen_takes_the_sender() {
    assert_eq!(unix_socket_listen(Msg::GiveSender(7)), Ok(7));
}

#[test]
fn listen_rejects_takeover() {
    assert_eq!(
        unix_socket_listen(Msg::Takeover()),
        Err(HandoverError::ExpectedSender(MessageKind::Takeover))
    );
}

#[test]
fn listen_rejects_shutdown() {
    assert_eq!(
        unix_socket_listen(Msg::Shutdown()),
        Err(HandoverError::ExpectedSender(MessageKind::Shutdown))
    );
}

#[test]
fn listen_rejects_resources() {
    let resources = Resources { socket_pairs: vec![ipc_pair(1, 2)], listeners: vec![] };
    assert_eq!(
        unix_socket_listen(Msg::Resources(resources)),
        Err(HandoverError::ExpectedSender(MessageKind::Resources))
    );
}

#[test]
fn kind_names_each_message() {
    assert_eq!(Msg::Takeover().kind(), MessageKind::Takeover);
    assert_eq!(Msg::Shutdown().kind(), MessageKind::Shutdown);
    assert_eq!(Msg::GiveSender(1).kind(), MessageKind::GiveSender);
    let resources = Resources { socket_pairs: vec![], listeners: vec![] };
    assert_eq!(Msg::Resources(resources).kind(), MessageKind::Resources);
}

#[test]
fn error_texts() {
    assert_eq!(
        HandoverError::ExpectedSender(MessageKind::Shutdown).message(),
        "Expected Message::Sender"
    );
    assert_eq!(
        HandoverError::ExpectedResources(MessageKind::Shutdown).message(),
        "invalid response to Message::Takeover"
    );
    assert_eq!(
        HandoverError::ExpectedRequest(MessageKind::Resources).message(),
        "unexpected message received"
    );
}
