use vstd::prelude::*;

verus! {

/// Everything that can go wrong while a connect or reconnect request is
/// resolved into an authenticated player.  The dispatcher chooses the wire
/// response from the variant, so each failure keeps its own identity.
#[derive(Debug)]
pub enum PlayerConnectionError {
    /// The request payload could not be deserialised; carries the reason.
    InvalidPlayerPayload(String),
    /// A reconnect resolved to a profile whose id differs from the claimed
    /// player id.
    PlayerDoesNotMatch,
    /// The profile service rejected the token.
    UnauthorizedPlayerError,
    /// The profile service failed in a way the protocol does not expect.
    UnexpectedPlayerError,
    /// The deck service knows no deck under the requested id.
    DeckNotFound,
    /// The deck service answered with a body that is not a deck.
    InvalidDeckFormat,
    /// The deck service failed in a way the protocol does not expect.
    UnexpectedDeckError,
    /// The deck service rejected the token.
    UnauthorizedDeckError,
    /// A reconnect named a player that has no record in the registry.
    PlayerNotConnected,
    /// An internal invariant was violated; carries a description.  It closes
    /// the affected connection but never the server.
    InternalError(String),
}

/// Framing failures of an incoming byte buffer.  They are distinct from a
/// checksum mismatch, which is detected in a separate explicit step.
#[derive(Debug)]
pub enum ProtocolError {
    /// Fewer bytes than a header needs, or an unknown header type byte.
    InvalidHeaderError(String),
    /// The declared payload length exceeds the bytes available.
    InvalidPacketError(String),
}

/// Transport failures on the outbound path.
#[derive(Debug)]
pub enum NetworkError {
    /// A packet could not be written after the retry budget was spent.
    PackageWriteError(String),
}

} // verus!
