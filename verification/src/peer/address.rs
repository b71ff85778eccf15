//! Identities of peers and the addresses they are reached at, as bytes.

use libp2p::multiaddr::Protocol;
use vstd::prelude::*;

verus! {

/// The binary form of the address that `text` denotes, as
/// `libp2p::Multiaddr`'s `FromStr` gives it; `None` where `text` is no address.
pub uninterp spec fn multiaddr_of_text(text: Seq<char>) -> Option<Seq<u8>>;

/// What `libp2p::Multiaddr::pop` leaves of the address `addr` and what it takes
/// off: the address without its last component and, where that component names
/// a peer, the peer's bytes. `None` where `addr` is empty or no address.
pub uninterp spec fn multiaddr_split_last(addr: Seq<u8>) -> Option<(Seq<u8>, Option<Seq<u8>>)>;

/// The address `addr` followed by a component that names `peer`, as
/// `libp2p::Multiaddr::with` gives it; `None` where `addr` is no address or
/// `peer` no peer identity.
pub uninterp spec fn multiaddr_with_peer(addr: Seq<u8>, peer: Seq<u8>) -> Option<Seq<u8>>;

/// The base-58 text of the peer identity `peer`, as `libp2p::PeerId::to_base58`
/// gives it; `None` where `peer` is no peer identity.
pub uninterp spec fn peer_id_base58(peer: Seq<u8>) -> Option<Seq<char>>;

/// The bytes of an optional byte vector.
pub open spec fn opt_bytes(v: Option<Vec<u8>>) -> Option<Seq<u8>> {
    match v {
        Some(b) => Some(b@),
        None => None,
    }
}

/// The bytes of the two parts of a split address.
pub open spec fn split_bytes(parts: Option<(Vec<u8>, Option<Vec<u8>>)>) -> Option<
    (Seq<u8>, Option<Seq<u8>>),
> {
    match parts {
        Some((rest, peer)) => Some((rest@, opt_bytes(peer))),
        None => None,
    }
}

/// Parses the text of an address with `libp2p::Multiaddr`'s `FromStr` and hands
/// back its binary form. The contract names the result and claims no more.
#[verifier::external_body]
fn parse_address(text: &str) -> (bytes: Option<Vec<u8>>)
    ensures
        opt_bytes(bytes) == multiaddr_of_text(text@),
{
    match text.parse::<libp2p::Multiaddr>() {
        Ok(addr) => Some(addr.to_vec()),
        Err(_) => None,
    }
}

/// Takes the last component off an address with `libp2p::Multiaddr::pop`,
/// after `Multiaddr::try_from` has taken the bytes for an address. The
/// contract names the result and claims no more.
#[verifier::external_body]
fn pop_address(addr: &[u8]) -> (parts: Option<(Vec<u8>, Option<Vec<u8>>)>)
    ensures
        split_bytes(parts) == multiaddr_split_last(addr@),
{
    let mut rest = libp2p::Multiaddr::try_from(addr.to_vec()).ok()?;
    let peer = match rest.pop()? {
        Protocol::P2p(peer) => Some(peer.to_bytes()),
        _ => None,
    };
    Some((rest.to_vec(), peer))
}

/// Appends a peer component to an address with `libp2p::Multiaddr::with`,
/// after `Multiaddr::try_from` and `PeerId::from_bytes` have taken the bytes
/// for an address and for a peer. The contract names the result and claims
/// no more.
#[verifier::external_body]
fn push_peer(addr: &[u8], peer: &[u8]) -> (bytes: Option<Vec<u8>>)
    ensures
        opt_bytes(bytes) == multiaddr_with_peer(addr@, peer@),
{
    let addr = libp2p::Multiaddr::try_from(addr.to_vec()).ok()?;
    let peer = libp2p::PeerId::from_bytes(peer).ok()?;
    Some(addr.with(Protocol::P2p(peer)).to_vec())
}

/// Writes a peer identity in base 58 with `libp2p::PeerId::to_base58`, after
/// `PeerId::from_bytes` has taken the bytes for a peer. The contract names the
/// result and claims no more.
#[verifier::external_body]
fn peer_text(peer: &[u8]) -> (text: Option<String>)
    ensures
        match text {
            Some(t) => peer_id_base58(peer@) == Some(t@),
            None => peer_id_base58(peer@) is None,
        },
{
    match libp2p::PeerId::from_bytes(peer) {
        Ok(peer) => Some(peer.to_base58()),
        Err(_) => None,
    }
}

/// Whether two byte strings are equal.
pub fn bytes_eq(a: &[u8], b: &[u8]) -> (same: bool)
    ensures
        same == (a@ == b@),
{
    if a.len() != b.len() {
        return false;
    }
    let mut i: usize = 0;
    while i < a.len()
        invariant
            a@.len() == b@.len(),
            i <= a@.len(),
            forall|k: int| 0 <= k < i ==> a@[k] == b@[k],
        decreases a@.len() - i,
    {
        if a[i] != b[i] {
            return false;
        }
        i = i + 1;
    }
    assert(a@ =~= b@);
    true
}

/// A copy of a byte string.
pub fn bytes_copy(a: &[u8]) -> (copy: Vec<u8>)
    ensures
        copy@ == a@,
{
    let mut copy: Vec<u8> = Vec::new();
    let mut i: usize = 0;
    while i < a.len()
        invariant
            i <= a@.len(),
            copy@ == a@.subrange(0, i as int),
        decreases a@.len() - i,
    {
        copy.push(a[i]);
        assert(copy@ =~= a@.subrange(0, i + 1));
        i = i + 1;
    }
    assert(copy@ =~= a@);
    copy
}

/// The identity of a peer: the bytes of its multihash.
#[derive(Debug)]
pub struct PeerId {
    bytes: Vec<u8>,
}

impl View for PeerId {
    type V = Seq<u8>;

    closed spec fn view(&self) -> Seq<u8> {
        self.bytes@
    }
}

impl PeerId {
    /// The identity with the given bytes.
    pub fn from_bytes(bytes: Vec<u8>) -> (peer: PeerId)
        ensures
            peer@ == bytes@,
    {
        PeerId { bytes }
    }

    /// The bytes of the identity.
    pub fn to_bytes(&self) -> (bytes: Vec<u8>)
        ensures
            bytes@ == self@,
    {
        bytes_copy(self.bytes.as_slice())
    }

    /// Whether both identities name the same peer.
    pub fn same_as(&self, other: &PeerId) -> (same: bool)
        ensures
            same == (self@ == other@),
    {
        bytes_eq(self.bytes.as_slice(), other.bytes.as_slice())
    }

    /// A copy of the identity.
    pub fn duplicate(&self) -> (copy: PeerId)
        ensures
            copy@ == self@,
    {
        PeerId { bytes: bytes_copy(self.bytes.as_slice()) }
    }

    /// The identity in base 58, the form in which it is shown to module code;
    /// `None` where the bytes are no peer identity.
    pub fn to_base58(&self) -> (text: Option<String>)
        ensures
            match text {
                Some(t) => peer_id_base58(self@) == Some(t@),
                None => peer_id_base58(self@) is None,
            },
    {
        peer_text(self.bytes.as_slice())
    }
}

/// A network address in its binary form.
#[derive(Debug)]
pub struct Multiaddr {
    bytes: Vec<u8>,
}

impl View for Multiaddr {
    type V = Seq<u8>;

    closed spec fn view(&self) -> Seq<u8> {
        self.bytes@
    }
}

/// The bytes of an optional address.
pub open spec fn opt_addr(a: Option<Multiaddr>) -> Option<Seq<u8>> {
    match a {
        Some(a) => Some(a@),
        None => None,
    }
}

/// The bytes of an optional peer identity.
pub open spec fn opt_peer(p: Option<PeerId>) -> Option<Seq<u8>> {
    match p {
        Some(p) => Some(p@),
        None => None,
    }
}

impl Multiaddr {
    /// The address with the given bytes.
    pub fn from_bytes(bytes: Vec<u8>) -> (addr: Multiaddr)
        ensures
            addr@ == bytes@,
    {
        Multiaddr { bytes }
    }

    /// The bytes of the address.
    pub fn to_bytes(&self) -> (bytes: Vec<u8>)
        ensures
            bytes@ == self@,
    {
        bytes_copy(self.bytes.as_slice())
    }

    /// Whether both addresses are the same.
    pub fn same_as(&self, other: &Multiaddr) -> (same: bool)
        ensures
            same == (self@ == other@),
    {
        bytes_eq(self.bytes.as_slice(), other.bytes.as_slice())
    }

    /// A copy of the address.
    pub fn duplicate(&self) -> (copy: Multiaddr)
        ensures
            copy@ == self@,
    {
        Multiaddr { bytes: bytes_copy(self.bytes.as_slice()) }
    }

    /// The address that `text` denotes; `None` where it denotes none.
    pub fn parse(text: &str) -> (addr: Option<Multiaddr>)
        ensures
            opt_addr(addr) == multiaddr_of_text(text@),
    {
        match parse_address(text) {
            Some(bytes) => Some(Multiaddr { bytes }),
            None => None,
        }
    }

    /// Splits the last component off: the remaining address and, where the
    /// component names a peer, that peer. `None` for an empty address.
    pub fn split_last(&self) -> (parts: Option<(Multiaddr, Option<PeerId>)>)
        ensures
            match parts {
                Some((rest, peer)) => multiaddr_split_last(self@) == Some((rest@, opt_peer(peer))),
                None => multiaddr_split_last(self@) is None,
            },
    {
        match pop_address(self.bytes.as_slice()) {
            Some((rest, Some(peer))) => Some(
                (Multiaddr { bytes: rest }, Some(PeerId { bytes: peer })),
            ),
            Some((rest, None)) => Some((Multiaddr { bytes: rest }, None)),
            None => None,
        }
    }

    /// This address followed by the component that names `peer`: the address
    /// that is dialed to reach `peer` here.
    pub fn with_peer(&self, peer: &PeerId) -> (addr: Option<Multiaddr>)
        ensures
            opt_addr(addr) == multiaddr_with_peer(self@, peer@),
    {
        match push_peer(self.bytes.as_slice(), peer.bytes.as_slice()) {
            Some(bytes) => Some(Multiaddr { bytes }),
            None => None,
        }
    }
}

/// The identifier that the transport layer gives to one connection.
#[derive(Clone, Copy, Debug, PartialEq, Eq, Structural)]
pub struct ConnectionId(pub usize);

} // verus!
