use vstd::prelude::*;

verus! {

/// Why a detection, or one of its steps, failed.
#[derive(Debug)]
pub enum DetectError {
    /// The UDP test needs two STUN servers.
    NotEnoughUdpServers,
    /// The TCP test needs a STUN server.
    NoTcpServer,
    /// No TCP STUN server could be reached.
    NoAvailableStunServer,
    /// No matching STUN reply arrived in time.
    StunTimeout,
    /// A STUN request could not be encoded.
    StunEncode,
    /// A STUN reply could not be decoded.
    StunDecode,
    /// The port check service answered something other than `0` or `1`; the
    /// answer, trimmed, is kept.
    UnexpectedPortCheckReply(String),
    /// A network operation failed; its message is kept.
    Network(String),
}

} // verus!
