use vstd::prelude::*;

verus! {

/// The type tag of a packet, the first byte on the wire.  The wire values
/// are given by `header_byte` and must stay stable.
#[derive(Clone, Copy, Debug, PartialEq, Eq, Structural)]
pub enum HeaderType {
    Connect,
    Reconnect,
    Disconnect,
    PlayCard,
    GameStateUpdate,
    InvalidChecksum,
    InvalidHeader,
    InvalidPacketPayload,
    PlayerConnected,
    Error,
}

/// The wire value of each header type.
pub open spec fn header_byte(h: HeaderType) -> u8 {
    match h {
        HeaderType::Connect => 1,
        HeaderType::Reconnect => 2,
        HeaderType::Disconnect => 3,
        HeaderType::PlayCard => 4,
        HeaderType::GameStateUpdate => 5,
        HeaderType::InvalidChecksum => 6,
        HeaderType::InvalidHeader => 7,
        HeaderType::InvalidPacketPayload => 8,
        HeaderType::PlayerConnected => 9,
        HeaderType::Error => 10,
    }
}

/// The header type a wire value stands for, if any.
pub open spec fn header_from_byte(b: u8) -> Option<HeaderType> {
    if b == 1 {
        Some(HeaderType::Connect)
    } else if b == 2 {
        Some(HeaderType::Reconnect)
    } else if b == 3 {
        Some(HeaderType::Disconnect)
    } else if b == 4 {
        Some(HeaderType::PlayCard)
    } else if b == 5 {
        Some(HeaderType::GameStateUpdate)
    } else if b == 6 {
        Some(HeaderType::InvalidChecksum)
    } else if b == 7 {
        Some(HeaderType::InvalidHeader)
    } else if b == 8 {
        Some(HeaderType::InvalidPacketPayload)
    } else if b == 9 {
        Some(HeaderType::PlayerConnected)
    } else if b == 10 {
        Some(HeaderType::Error)
    } else {
        None
    }
}

impl HeaderType {
    /// The byte that encodes this header type.
    pub fn to_byte(self) -> (r: u8)
        ensures
            r == header_byte(self),
    {
        match self {
            HeaderType::Connect => 1,
            HeaderType::Reconnect => 2,
            HeaderType::Disconnect => 3,
            HeaderType::PlayCard => 4,
            HeaderType::GameStateUpdate => 5,
            HeaderType::InvalidChecksum => 6,
            HeaderType::InvalidHeader => 7,
            HeaderType::InvalidPacketPayload => 8,
            HeaderType::PlayerConnected => 9,
            HeaderType::Error => 10,
        }
    }

    /// The header type a byte decodes to, or `None` for an unknown tag.
    pub fn from_byte(b: u8) -> (r: Option<HeaderType>)
        ensures
            r == header_from_byte(b),
    {
        if b == 1 {
            Some(HeaderType::Connect)
        } else if b == 2 {
            Some(HeaderType::Reconnect)
        } else if b == 3 {
            Some(HeaderType::Disconnect)
        } else if b == 4 {
            Some(HeaderType::PlayCard)
        } else if b == 5 {
            Some(HeaderType::GameStateUpdate)
        } else if b == 6 {
            Some(HeaderType::InvalidChecksum)
        } else if b == 7 {
            Some(HeaderType::InvalidHeader)
        } else if b == 8 {
            Some(HeaderType::InvalidPacketPayload)
        } else if b == 9 {
            Some(HeaderType::PlayerConnected)
        } else if b == 10 {
            Some(HeaderType::Error)
        } else {
            None
        }
    }
}

/// Encoding a header type and decoding the byte gives the type back: the
/// wire values are distinct.
pub proof fn lemma_header_byte_round_trip(h: HeaderType)
    ensures
        header_from_byte(header_byte(h)) == Some(h),
{
}

} // verus!
