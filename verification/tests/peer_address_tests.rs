use zinnia::peer::address::{bytes_copy, bytes_eq, ConnectionId, Multiaddr, PeerId};
use zinnia::peer::{
    describe_call_failure, op_p2p_get_peer_id, op_p2p_request_protocol, parse_remote_address,
    remote_peer_of, OpError,
};
use zinnia::peer::behaviour::RequestResponseConfig;
use zinnia::peer::node::{CallStep, PeerNode};

const PEER: &str = "12D3KooWRH71QRJe5vrMp6zZXoH4K7z5MDSWwTXXPriG9dK8HQXk";

fn peer_id() -> PeerId {
    let parsed: libp2p::PeerId = PEER.parse().unwrap();
    PeerId::from_bytes(parsed.to_bytes())
}

#[test]
fn parses_a_multiaddr_into_its_binary_form() {
    let addr = Multiaddr::parse("/ip4/127.0.0.1/tcp/10").unwrap();
    // ip4 is protocol 4 with four address bytes, tcp is protocol 6 with a port of two bytes
    assert_eq!(addr.to_bytes(), vec![4, 127, 0, 0, 1, 6, 0, 10]);
}

#[test]
fn refuses_text_that_is_no_multiaddr() {
    assert!(Multiaddr::parse("127.0.0.1:10").is_none());
    assert!(Multiaddr::parse("/ip4/not-an-address").is_none());
    assert!(Multiaddr::parse("/").is_none());
}

#[test]
fn the_empty_text_is_the_empty_address() {
    assert_eq!(Multiaddr::parse("").unwrap().to_bytes(), Vec::<u8>::new());
}

#[test]
fn splits_the_peer_off_the_end_of_an_address() {
    let text = format!("/ip4/127.0.0.1/tcp/10/p2p/{PEER}");
    let addr = Multiaddr::parse(&text).unwrap();
    let (rest, peer) = addr.split_last().unwrap();
    assert_eq!(rest.to_bytes(), vec![4, 127, 0, 0, 1, 6, 0, 10]);
    assert_eq!(peer.unwrap().to_bytes(), peer_id().to_bytes());
}

#[test]
fn splits_a_component_that_names_no_peer() {
    let addr = Multiaddr::parse("/ip4/127.0.0.1/tcp/10").unwrap();
    let (rest, peer) = addr.split_last().unwrap();
    assert_eq!(rest.to_bytes(), vec![4, 127, 0, 0, 1]);
    assert!(peer.is_none());
}

#[test]
fn an_empty_address_has_no_last_component() {
    assert!(Multiaddr::from_bytes(vec![]).split_last().is_none());
}

#[test]
fn bytes_that_are_no_address_cannot_be_split_or_extended() {
    let broken = Multiaddr::from_bytes(vec![4, 127]);
    assert!(broken.split_last().is_none());
    assert!(broken.with_peer(&peer_id()).is_none());
}

#[test]
fn appends_the_peer_to_the_address_to_dial() {
    let addr = Multiaddr::parse("/ip4/127.0.0.1/tcp/10").unwrap();
    let full = addr.with_peer(&peer_id()).unwrap();
    let expected = Multiaddr::parse(&format!("/ip4/127.0.0.1/tcp/10/p2p/{PEER}")).unwrap();
    assert_eq!(full.to_bytes(), expected.to_bytes());
    assert_ne!(full.to_bytes(), addr.to_bytes());
}

#[test]
fn bytes_that_are_no_peer_cannot_be_appended() {
    let addr = Multiaddr::parse("/ip4/127.0.0.1/tcp/10").unwrap();
    assert!(addr.with_peer(&PeerId::from_bytes(vec![1, 2, 3])).is_none());
}

#[test]
fn writes_a_peer_identity_in_base_58() {
    assert_eq!(peer_id().to_base58().unwrap(), PEER);
    assert!(PeerId::from_bytes(vec![1, 2, 3]).to_base58().is_none());
}

#[test]
fn compares_and_copies_identities_and_addresses() {
    let a = peer_id();
    let b = a.duplicate();
    assert!(a.same_as(&b));
    assert!(!a.same_as(&PeerId::from_bytes(vec![0, 1, 7])));
    let x = Multiaddr::parse("/ip4/127.0.0.1/tcp/10").unwrap();
    let y = Multiaddr::parse("/ip4/127.0.0.1/tcp/11").unwrap();
    assert!(x.same_as(&x.duplicate()));
    assert!(!x.same_as(&y));
    assert!(bytes_eq(&[1, 2, 3], &[1, 2, 3]));
    assert!(!bytes_eq(&[1, 2, 3], &[1, 2]));
    assert!(!bytes_eq(&[1, 2, 3], &[1, 2, 4]));
    assert!(bytes_eq(&[], &[]));
    assert_eq!(bytes_copy(&[9, 8, 7]), vec![9, 8, 7]);
    assert_eq!(ConnectionId(3), ConnectionId(3));
    assert_ne!(ConnectionId(3), ConnectionId(4));
}

#[test]
fn reads_a_remote_address_with_a_peer() {
    let text = format!("/ip4/127.0.0.1/tcp/10/p2p/{PEER}");
    let (peer, addr) = parse_remote_address(&text).unwrap();
    assert_eq!(peer.to_bytes(), peer_id().to_bytes());
    assert_eq!(addr.to_bytes(), vec![4, 127, 0, 0, 1, 6, 0, 10]);
}

#[test]
fn refuses_a_remote_address_without_a_peer() {
    assert_eq!(
        parse_remote_address("/ip4/127.0.0.1/tcp/10").unwrap_err(),
        OpError::MissingPeerId
    );
    assert_eq!(parse_remote_address("").unwrap_err(), OpError::MissingPeerId);
    assert_eq!(remote_peer_of(None).unwrap_err(), OpError::MissingPeerId);
}

#[test]
fn refuses_a_remote_address_that_is_no_address() {
    assert_eq!(
        parse_remote_address("not an address").unwrap_err(),
        OpError::InvalidRemoteAddress
    );
}

#[test]
fn op_errors_have_their_messages() {
    assert_eq!(OpError::InvalidRemoteAddress.message(), "invalid remote address");
    assert_eq!(
        OpError::MissingPeerId.message(),
        "remote address must contain a valid peer ID"
    );
    assert_eq!(OpError::InvalidPeerId.message(), "Invalid peer ID multihash");
    assert_eq!(
        describe_call_failure("Failed to dial the requested peer"),
        "cannot dial remote peer: Failed to dial the requested peer"
    );
}

#[test]
fn tells_module_code_the_identity_of_the_node() {
    let (node, _behaviour) = PeerNode::spawn(RequestResponseConfig::default(), peer_id());
    assert_eq!(op_p2p_get_peer_id(&node).unwrap(), PEER);
    let (odd, _behaviour) =
        PeerNode::spawn(RequestResponseConfig::default(), PeerId::from_bytes(vec![1]));
    assert_eq!(op_p2p_get_peer_id(&odd).unwrap_err(), OpError::InvalidPeerId);
}

#[test]
fn a_request_from_module_code_begins_with_the_dial() {
    let (node, _behaviour) = PeerNode::spawn(RequestResponseConfig::default(), peer_id());
    let text = format!("/ip4/127.0.0.1/tcp/10/p2p/{PEER}");
    let (_call, step) =
        op_p2p_request_protocol::<String>(&node, &text, "/ipfs/ping/1.0.0", vec![1, 2, 3]).unwrap();
    match step {
        CallStep::Dial { peer_id: p, peer_addr } => {
            assert_eq!(p.to_bytes(), peer_id().to_bytes());
            assert_eq!(peer_addr.to_bytes(), vec![4, 127, 0, 0, 1, 6, 0, 10]);
        }
        other => panic!("unexpected step {other:?}"),
    }
    let refused = op_p2p_request_protocol::<String>(&node, "nonsense", "/x", vec![]);
    assert_eq!(refused.unwrap_err(), OpError::InvalidRemoteAddress);
}
