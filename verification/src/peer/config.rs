//! The configuration of a peer node.

use crate::peer::behaviour::RequestResponseConfig;
use vstd::prelude::*;
use vstd::string::StringExecFns;

verus! {

/// The configuration of the built-in ping protocol, as `libp2p` holds it.
#[verifier::external_type_specification]
#[verifier::external_body]
pub struct ExPingConfig(libp2p::ping::Config);

/// The configuration of the built-in ping protocol.
pub type PingConfig = libp2p::ping::Config;

/// Makes the ping configuration with `libp2p::ping::Config::new`, which sets
/// the defaults of that crate. Nothing is stated of them.
#[verifier::external_body]
fn ping_default() -> PingConfig {
    libp2p::ping::Config::new()
}

/// Copies with the `Clone` that `libp2p` derives for it: the copy is the same configuration.
#[verifier::external_body]
fn ping_clone(config: &PingConfig) -> (copy: PingConfig)
    ensures
        copy == *config,
{
    config.clone()
}

/// The version of this library.
pub open spec fn spec_version() -> Seq<char> {
    "0.1.0"@
}

/// The version of this library.
pub fn version() -> (text: &'static str)
    ensures
        text@ == spec_version(),
{
    "0.1.0"
}

/// The version of the protocol family that is told to peers.
pub open spec fn spec_protocol_version() -> Seq<char> {
    "ipfs/1.0.0"@
}

/// What the node tells of itself when a peer asks it to identify.
#[derive(Debug)]
pub struct IdentifyConfig {
    /// The version of the protocol family.
    pub protocol_version: String,
    /// Name and version of the local implementation.
    pub agent_version: String,
}

/// The configuration of a peer node. The timeouts are in milliseconds.
#[derive(Debug)]
pub struct PeerNodeConfig {
    /// Name and version of the local implementation, told to peers much as a
    /// `User-Agent` header is told to web servers.
    pub agent_version: String,
    /// How long a request may take on its substream.
    pub request_timeout: u64,
    /// How long a connection without requests is kept open.
    pub connection_keep_alive: u64,
    /// The configuration of the built-in ping protocol.
    pub ping: PingConfig,
}

impl Default for PeerNodeConfig {
    /// The default agent version, ten seconds for a request and ten seconds
    /// of keep-alive.
    fn default() -> (config: Self)
        ensures
            config.agent_version@ == "zinnia-libp2p/"@ + spec_version(),
            config.request_timeout == 10000,
            config.connection_keep_alive == 10000,
    {
        Self {
            agent_version: Self::default_agent_version(),
            connection_keep_alive: 10000,
            request_timeout: 10000,
            ping: ping_default(),
        }
    }
}

impl PeerNodeConfig {
    /// The agent version of a node that was given none: the name of the
    /// networking layer and the version of this library.
    pub fn default_agent_version() -> (agent: String)
        ensures
            agent@ == "zinnia-libp2p/"@ + spec_version(),
    {
        let mut agent = String::from_str("zinnia-libp2p/");
        agent.append(version());
        agent
    }

    /// The timeouts of the request/response protocol.
    pub fn request_response_config(&self) -> (config: RequestResponseConfig)
        ensures
            config == (RequestResponseConfig {
                request_timeout: self.request_timeout,
                connection_keep_alive: self.connection_keep_alive,
            }),
    {
        RequestResponseConfig {
            request_timeout: self.request_timeout,
            connection_keep_alive: self.connection_keep_alive,
        }
    }

    /// The configuration of the built-in ping protocol that this configuration holds.
    pub fn ping_config(&self) -> (config: PingConfig)
        ensures
            config == self.ping,
    {
        ping_clone(&self.ping)
    }

    /// What the node tells of itself when a peer asks it to identify: the
    /// protocol family `ipfs/1.0.0` and the agent version of this
    /// configuration.
    pub fn id_config(&self) -> (config: IdentifyConfig)
        ensures
            config.protocol_version@ == spec_protocol_version(),
            config.agent_version@ == self.agent_version@,
    {
        IdentifyConfig {
            protocol_version: String::from_str("ipfs/1.0.0"),
            agent_version: self.agent_version.clone(),
        }
    }
}

} // verus!
