use vstd::prelude::*;

verus! {

/// A connect request, as carried in the payload of a `Connect` packet.
#[derive(Debug)]
pub struct ConnectionRequest {
    pub player_id: String,
    pub auth_token: String,
    pub current_deck_id: String,
}

/// A reconnect request, as carried in the payload of a `Reconnect` packet.
#[derive(Debug)]
pub struct ReconnectionRequest {
    pub player_id: String,
    pub auth_token: String,
}

/// A play-card request, as carried in the payload of a `PlayCard` packet.
#[derive(Debug)]
pub struct PlayCardRequest {
    pub player_id: String,
    pub card_id: String,
}

} // verus!
