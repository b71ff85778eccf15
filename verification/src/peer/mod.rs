//! The peer-to-peer request/response subsystem and what module code may ask
//! of it.

pub mod address;
pub mod behaviour;
pub mod config;
pub mod event_loop;
pub mod handler;
pub mod consistency;
pub mod node;
pub mod peer_map;
pub mod protocol;

use crate::peer::address::{multiaddr_of_text, multiaddr_split_last, opt_peer, Multiaddr, PeerId};
use crate::peer::address::peer_id_base58;
use crate::peer::config::PeerNodeConfig;
use crate::peer::node::{CallStage, CallState, CallStep, PeerNode, RequestCall};
use vstd::prelude::*;
use vstd::string::StringExecFns;
use vstd::string::StringSliceAdditionalSpecFns;

verus! {

/// The options of the networking part of the runtime.
#[derive(Debug)]
pub struct Options {
    /// The configuration of the built-in peer node.
    pub default_peer: PeerNodeConfig,
}

impl Default for Options {
    /// The options with the default configuration of the peer node.
    fn default() -> (options: Self)
        ensures
            options.default_peer.agent_version@ == "zinnia-libp2p/"@
                + crate::peer::config::spec_version(),
            options.default_peer.request_timeout == 10000,
            options.default_peer.connection_keep_alive == 10000,
    {
        Options { default_peer: PeerNodeConfig::default() }
    }
}

/// Why an operation asked for by module code failed before it began.
#[derive(Clone, Copy, Debug, PartialEq, Eq, Structural)]
pub enum OpError {
    /// The remote address is no address.
    InvalidRemoteAddress,
    /// The remote address does not end with the identity of a peer.
    MissingPeerId,
    /// The identity of the node cannot be written.
    InvalidPeerId,
}

impl OpError {
    /// The message of the error.
    pub open spec fn spec_message(self) -> Seq<char> {
        match self {
            OpError::InvalidRemoteAddress => "invalid remote address"@,
            OpError::MissingPeerId => "remote address must contain a valid peer ID"@,
            OpError::InvalidPeerId => "Invalid peer ID multihash"@,
        }
    }

    /// The message of the error.
    pub fn message(&self) -> (text: String)
        ensures
            text@ == self.spec_message(),
    {
        match self {
            OpError::InvalidRemoteAddress => String::from_str("invalid remote address"),
            OpError::MissingPeerId => String::from_str("remote address must contain a valid peer ID"),
            OpError::InvalidPeerId => String::from_str("Invalid peer ID multihash"),
        }
    }
}

/// The message for a call that failed once it had begun, given what the
/// failure says of itself.
pub open spec fn dial_failure_message(error: Seq<char>) -> Seq<char> {
    "cannot dial remote peer: "@ + error
}

/// The message for a call that failed once it had begun.
pub fn describe_call_failure(error: &str) -> (text: String)
    ensures
        text@ == dial_failure_message(error@),
{
    let mut text = String::from_str("cannot dial remote peer: ");
    text.append(error);
    text
}

/// The peer and the address to dial, given what splitting the last component
/// off a remote address gave. The last component must name the peer.
pub fn remote_peer_of(parts: Option<(Multiaddr, Option<PeerId>)>) -> (remote: Result<
    (PeerId, Multiaddr),
    OpError,
>)
    ensures
        match remote {
            Ok((peer_id, peer_addr)) => parts == Some((peer_addr, Some(peer_id))),
            Err(e) => e == OpError::MissingPeerId && !(parts matches Some((_, Some(_)))),
        },
{
    match parts {
        Some((peer_addr, Some(peer_id))) => Ok((peer_id, peer_addr)),
        _ => Err(OpError::MissingPeerId),
    }
}

/// What a remote address denotes: the peer that its last component names and
/// the address before that component.
pub open spec fn spec_remote(remote_address: Seq<char>) -> Result<(Seq<u8>, Seq<u8>), OpError> {
    match multiaddr_of_text(remote_address) {
        None => Err(OpError::InvalidRemoteAddress),
        Some(addr) => match multiaddr_split_last(addr) {
            Some((rest, Some(peer))) => Ok((peer, rest)),
            _ => Err(OpError::MissingPeerId),
        },
    }
}

/// Reads a remote address: the peer to reach and the address to dial it at.
pub fn parse_remote_address(remote_address: &str) -> (remote: Result<(PeerId, Multiaddr), OpError>)
    ensures
        match remote {
            Ok((peer_id, peer_addr)) => spec_remote(remote_address@) == Ok::<
                (Seq<u8>, Seq<u8>),
                OpError,
            >((peer_id@, peer_addr@)),
            Err(e) => spec_remote(remote_address@) == Err::<(Seq<u8>, Seq<u8>), OpError>(e),
        },
{
    let peer_addr = match Multiaddr::parse(remote_address) {
        Some(addr) => addr,
        None => {
            return Err(OpError::InvalidRemoteAddress);
        },
    };
    remote_peer_of(peer_addr.split_last())
}

/// The identity of the node in base 58, for module code.
pub fn op_p2p_get_peer_id(node: &PeerNode) -> (id: Result<String, OpError>)
    ensures
        match id {
            Ok(text) => peer_id_base58(node.spec_peer_id()) == Some(text@),
            Err(e) => e == OpError::InvalidPeerId && peer_id_base58(node.spec_peer_id()) is None,
        },
{
    match node.peer_id().to_base58() {
        Some(text) => Ok(text),
        None => Err(OpError::InvalidPeerId),
    }
}

/// Begins an exchange that module code asked for: reads the remote address
/// and, where it names a peer, begins the call with the dial of that peer.
/// The protocol is named by the bytes of `protocol_name`.
pub fn op_p2p_request_protocol<E>(
    node: &PeerNode,
    remote_address: &str,
    protocol_name: &str,
    request_payload: Vec<u8>,
) -> (begun: Result<(RequestCall, CallStep<E>), OpError>)
    ensures
        match begun {
            Ok((call, step)) => spec_remote(remote_address@) matches Ok((peer, addr)) && call@
                == (CallState {
                stage: CallStage::AwaitingDial,
                peer,
                protocol: protocol_name.spec_bytes(),
                payload: request_payload@,
            }) && (step matches CallStep::Dial { peer_id, peer_addr } && peer_id@ == peer
                && peer_addr@ == addr),
            Err(e) => spec_remote(remote_address@) == Err::<(Seq<u8>, Seq<u8>), OpError>(e),
        },
{
    let (peer_id, peer_addr) = match parse_remote_address(remote_address) {
        Ok(remote) => remote,
        Err(e) => {
            return Err(e);
        },
    };
    Ok(node.request_protocol(peer_id, peer_addr, protocol_name.as_bytes(), request_payload))
}

} // verus!
