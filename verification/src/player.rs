use vstd::prelude::*;

use crate::deck::Deck;
use crate::errors::PlayerConnectionError;
use crate::requests::{ConnectionRequest, ReconnectionRequest};

verus! {

/// What the profile service reports about a player: the subset of the
/// profile the protocol needs.
#[derive(Clone, Debug)]
pub struct PartialPlayerProfile {
    pub id: String,
    pub username: String,
    pub level: u32,
}

/// Every way a call to the profile service can end.  The caller performs
/// the HTTP exchange and reports it here as plain values: the status and
/// parsed body of a response that arrived, or the status attached to a
/// transport failure, if any.
#[derive(Debug)]
pub enum ProfileFetch {
    /// A response arrived; `profile` is the parse of its body, or the
    /// reason the body would not parse.
    Response { status: u16, profile: Result<PartialPlayerProfile, String> },
    /// The exchange itself failed, with the status the failure carried.
    TransportFailure { status: Option<u16> },
}

/// Every way a call to the deck service can end, reported like
/// `ProfileFetch`.
#[derive(Debug)]
pub enum DeckFetch {
    /// A response arrived; `deck` is the parse of its body if it parsed.
    Response { status: u16, deck: Option<Deck> },
    /// The exchange itself failed, with the status the failure carried.
    TransportFailure { status: Option<u16> },
}

/// The profile service rejected the token outright.
pub open spec fn profile_rejected_unauthorized(f: ProfileFetch) -> bool {
    f matches ProfileFetch::Response { status, .. } && status == 401
}

/// What a profile fetch outcome resolves to: a `401` status means the
/// token is unauthorized, any other status outside `2xx` is unexpected, a
/// `2xx` body that does not parse is an invalid payload, and a parsed
/// `2xx` body is the profile.  A transport failure is unauthorized exactly
/// when it carries status `401`, else unexpected.
pub open spec fn resolve_profile_spec(f: ProfileFetch) -> Result<
    PartialPlayerProfile,
    PlayerConnectionError,
> {
    match f {
        ProfileFetch::Response { status, profile } => {
            if status == 401 {
                Err(PlayerConnectionError::UnauthorizedPlayerError)
            } else if status < 200 || status >= 300 {
                Err(PlayerConnectionError::UnexpectedPlayerError)
            } else {
                match profile {
                    Ok(p) => Ok(p),
                    Err(reason) => Err(PlayerConnectionError::InvalidPlayerPayload(reason)),
                }
            }
        },
        ProfileFetch::TransportFailure { status } => {
            if status == Some(401u16) {
                Err(PlayerConnectionError::UnauthorizedPlayerError)
            } else {
                Err(PlayerConnectionError::UnexpectedPlayerError)
            }
        },
    }
}

/// What a deck fetch outcome resolves to: status `200` with a parsed body
/// is the deck and with an unparsed body an invalid format, `404` means
/// the deck does not exist, any other status is unexpected.  A transport
/// failure is unauthorized exactly when it carries status `401`, else
/// unexpected.
pub open spec fn resolve_deck_spec(f: DeckFetch) -> Result<Deck, PlayerConnectionError> {
    match f {
        DeckFetch::Response { status, deck } => {
            if status == 200 {
                match deck {
                    Some(d) => Ok(d),
                    None => Err(PlayerConnectionError::InvalidDeckFormat),
                }
            } else if status == 404 {
                Err(PlayerConnectionError::DeckNotFound)
            } else {
                Err(PlayerConnectionError::UnexpectedDeckError)
            }
        },
        DeckFetch::TransportFailure { status } => {
            if status == Some(401u16) {
                Err(PlayerConnectionError::UnauthorizedDeckError)
            } else {
                Err(PlayerConnectionError::UnexpectedDeckError)
            }
        },
    }
}

/// An authenticated player: identity and deck, combined from a connect
/// request and the two service calls.  Immutable once constructed.
#[derive(Debug)]
pub struct Player {
    pub id: String,
    pub level: u32,
    pub username: String,
    pub current_deck: Deck,
    pub player_token: String,
    pub current_deck_id: String,
}

/// What a connect attempt resolves to: the first failure among request
/// parse, profile resolution and deck resolution, in that order, or the
/// player assembled from all three.
pub open spec fn new_connection_spec(
    request: Result<ConnectionRequest, String>,
    profile: ProfileFetch,
    deck: DeckFetch,
) -> Result<Player, PlayerConnectionError> {
    match request {
        Err(reason) => Err(PlayerConnectionError::InvalidPlayerPayload(reason)),
        Ok(req) => match resolve_profile_spec(profile) {
            Err(e) => Err(e),
            Ok(prof) => match resolve_deck_spec(deck) {
                Err(e) => Err(e),
                Ok(d) => Ok(
                    Player {
                        id: req.player_id,
                        level: prof.level,
                        username: prof.username,
                        current_deck: d,
                        player_token: req.auth_token,
                        current_deck_id: req.current_deck_id,
                    },
                ),
            },
        },
    }
}

/// What a reconnect attempt resolves to: the first failure among request
/// parse and profile resolution; then the resolved profile id, but only if
/// it equals the claimed player id — a mismatch is its own failure, never
/// folded into a generic one.
pub open spec fn reconnection_spec(
    request: Result<ReconnectionRequest, String>,
    profile: ProfileFetch,
) -> Result<String, PlayerConnectionError> {
    match request {
        Err(reason) => Err(PlayerConnectionError::InvalidPlayerPayload(reason)),
        Ok(req) => match resolve_profile_spec(profile) {
            Err(e) => Err(e),
            Ok(prof) => if prof.id@ == req.player_id@ {
                Ok(prof.id)
            } else {
                Err(PlayerConnectionError::PlayerDoesNotMatch)
            },
        },
    }
}

impl Player {
    /// Resolves a profile fetch outcome, exactly as `resolve_profile_spec`
    /// states.
    pub fn resolve_profile(f: ProfileFetch) -> (r: Result<
        PartialPlayerProfile,
        PlayerConnectionError,
    >)
        ensures
            r == resolve_profile_spec(f),
    {
        match f {
            ProfileFetch::Response { status, profile } => {
                if status == 401 {
                    Err(PlayerConnectionError::UnauthorizedPlayerError)
                } else if status < 200 || status >= 300 {
                    Err(PlayerConnectionError::UnexpectedPlayerError)
                } else {
                    match profile {
                        Ok(p) => Ok(p),
                        Err(reason) => Err(PlayerConnectionError::InvalidPlayerPayload(reason)),
                    }
                }
            },
            ProfileFetch::TransportFailure { status } => {
                match status {
                    Some(s) => if s == 401 {
                        Err(PlayerConnectionError::UnauthorizedPlayerError)
                    } else {
                        Err(PlayerConnectionError::UnexpectedPlayerError)
                    },
                    None => Err(PlayerConnectionError::UnexpectedPlayerError),
                }
            },
        }
    }

    /// Resolves a deck fetch outcome, exactly as `resolve_deck_spec`
    /// states.
    pub fn resolve_deck(f: DeckFetch) -> (r: Result<Deck, PlayerConnectionError>)
        ensures
            r == resolve_deck_spec(f),
    {
        match f {
            DeckFetch::Response { status, deck } => {
                if status == 200 {
                    match deck {
                        Some(d) => Ok(d),
                        None => Err(PlayerConnectionError::InvalidDeckFormat),
                    }
                } else if status == 404 {
                    Err(PlayerConnectionError::DeckNotFound)
                } else {
                    Err(PlayerConnectionError::UnexpectedDeckError)
                }
            },
            DeckFetch::TransportFailure { status } => {
                match status {
                    Some(s) => if s == 401 {
                        Err(PlayerConnectionError::UnauthorizedDeckError)
                    } else {
                        Err(PlayerConnectionError::UnexpectedDeckError)
                    },
                    None => Err(PlayerConnectionError::UnexpectedDeckError),
                }
            },
        }
    }

    /// Combines a parsed connect request with the outcomes of the profile
    /// and deck calls into a `Player`.  Any failure short-circuits with its
    /// own variant; in particular a token the profile service rejects with
    /// `401` always yields `UnauthorizedPlayerError`.
    pub fn new_connection(
        request: Result<ConnectionRequest, String>,
        profile: ProfileFetch,
        deck: DeckFetch,
    ) -> (r: Result<Player, PlayerConnectionError>)
        ensures
            r == new_connection_spec(request, profile, deck),
            request is Ok && profile_rejected_unauthorized(profile) ==> r == Err::<
                Player,
                PlayerConnectionError,
            >(PlayerConnectionError::UnauthorizedPlayerError),
    {
        match request {
            Err(reason) => Err(PlayerConnectionError::InvalidPlayerPayload(reason)),
            Ok(req) => match Player::resolve_profile(profile) {
                Err(e) => Err(e),
                Ok(prof) => match Player::resolve_deck(deck) {
                    Err(e) => Err(e),
                    Ok(d) => Ok(
                        Player {
                            id: req.player_id,
                            level: prof.level,
                            username: prof.username,
                            current_deck: d,
                            player_token: req.auth_token,
                            current_deck_id: req.current_deck_id,
                        },
                    ),
                },
            },
        }
    }

    /// Resolves a reconnect request to the player id it may resume, and
    /// enforces that the resolved profile id equals the claimed player id:
    /// a mismatch yields `PlayerDoesNotMatch`.
    pub fn reconnection(
        request: Result<ReconnectionRequest, String>,
        profile: ProfileFetch,
    ) -> (r: Result<String, PlayerConnectionError>)
        ensures
            r == reconnection_spec(request, profile),
            (request matches Ok(req) && resolve_profile_spec(profile) matches Ok(prof)
                && prof.id@ != req.player_id@) ==> r == Err::<String, PlayerConnectionError>(
                PlayerConnectionError::PlayerDoesNotMatch,
            ),
    {
        match request {
            Err(reason) => Err(PlayerConnectionError::InvalidPlayerPayload(reason)),
            Ok(req) => match Player::resolve_profile(profile) {
                Err(e) => Err(e),
                Ok(prof) => if prof.id == req.player_id {
                    Ok(prof.id)
                } else {
                    Err(PlayerConnectionError::PlayerDoesNotMatch)
                },
            },
        }
    }
}

} // verus!
