use card_server::deck::{CardRef, Deck};
use card_server::errors::PlayerConnectionError;
use card_server::player::{DeckFetch, PartialPlayerProfile, Player, ProfileFetch};
use card_server::requests::{ConnectionRequest, ReconnectionRequest};

fn profile(id: &str) -> PartialPlayerProfile {
    PartialPlayerProfile { id: String::from(id), username: String::from("name"), level: 4 }
}

fn deck(n: usize) -> Deck {
    let mut cards = Vec::new();
    for i in 0..n {
        cards.push(CardRef { card_id: format!("card-{i}") });
    }
    Deck { cards }
}

fn connect_request(player_id: &str) -> ConnectionRequest {
    ConnectionRequest {
        player_id: String::from(player_id),
        auth_token: String::from("token"),
        current_deck_id: String::from("deck-1"),
    }
}

#[test]
fn profile_401_is_unauthorized() {
    let r = Player::resolve_profile(ProfileFetch::Response {
        status: 401,
        profile: Err(String::new()),
    });
    assert!(matches!(r, Err(PlayerConnectionError::UnauthorizedPlayerError)));
}

#[test]
fn profile_other_non_2xx_is_unexpected() {
    for status in [100u16, 301, 404, 500] {
        let r = Player::resolve_profile(ProfileFetch::Response {
            status,
            profile: Ok(profile("p")),
        });
        assert!(matches!(r, Err(PlayerConnectionError::UnexpectedPlayerError)));
    }
}

#[test]
fn profile_2xx_with_parsed_body_is_the_profile() {
    let r = Player::resolve_profile(ProfileFetch::Response {
        status: 200,
        profile: Ok(profile("p7")),
    });
    let p = r.expect("a parsed 2xx body must resolve");
    assert_eq!(p.id, "p7");
    assert_eq!(p.level, 4);
}

#[test]
fn profile_2xx_with_unparsed_body_is_an_invalid_payload() {
    let r = Player::resolve_profile(ProfileFetch::Response {
        status: 200,
        profile: Err(String::from("not json")),
    });
    match r {
        Err(PlayerConnectionError::InvalidPlayerPayload(reason)) => {
            assert_eq!(reason, "not json");
        }
        other => panic!("expected an invalid payload, got {other:?}"),
    }
}

#[test]
fn profile_transport_401_is_unauthorized() {
    let r = Player::resolve_profile(ProfileFetch::TransportFailure { status: Some(401) });
    assert!(matches!(r, Err(PlayerConnectionError::UnauthorizedPlayerError)));
}

#[test]
fn profile_transport_failure_is_unexpected() {
    for status in [Some(500u16), None] {
        let r = Player::resolve_profile(ProfileFetch::TransportFailure { status });
        assert!(matches!(r, Err(PlayerConnectionError::UnexpectedPlayerError)));
    }
}

#[test]
fn deck_200_with_body_is_the_deck() {
    let r = Player::resolve_deck(DeckFetch::Response { status: 200, deck: Some(deck(3)) });
    assert_eq!(r.expect("a parsed 200 body must resolve").cards.len(), 3);
}

#[test]
fn deck_200_without_body_is_an_invalid_format() {
    let r = Player::resolve_deck(DeckFetch::Response { status: 200, deck: None });
    assert!(matches!(r, Err(PlayerConnectionError::InvalidDeckFormat)));
}

#[test]
fn deck_404_is_not_found() {
    let r = Player::resolve_deck(DeckFetch::Response { status: 404, deck: None });
    assert!(matches!(r, Err(PlayerConnectionError::DeckNotFound)));
}

#[test]
fn deck_other_status_is_unexpected() {
    let r = Player::resolve_deck(DeckFetch::Response { status: 503, deck: None });
    assert!(matches!(r, Err(PlayerConnectionError::UnexpectedDeckError)));
}

#[test]
fn deck_transport_401_is_unauthorized() {
    let r = Player::resolve_deck(DeckFetch::TransportFailure { status: Some(401) });
    assert!(matches!(r, Err(PlayerConnectionError::UnauthorizedDeckError)));
}

#[test]
fn deck_transport_failure_is_unexpected() {
    let r = Player::resolve_deck(DeckFetch::TransportFailure { status: None });
    assert!(matches!(r, Err(PlayerConnectionError::UnexpectedDeckError)));
}

#[test]
fn new_connection_combines_request_profile_and_deck() {
    let r = Player::new_connection(
        Ok(connect_request("alice")),
        ProfileFetch::Response { status: 200, profile: Ok(profile("alice")) },
        DeckFetch::Response { status: 200, deck: Some(deck(2)) },
    );
    let player = r.expect("all three steps succeeded");
    assert_eq!(player.id, "alice");
    assert_eq!(player.username, "name");
    assert_eq!(player.level, 4);
    assert_eq!(player.player_token, "token");
    assert_eq!(player.current_deck_id, "deck-1");
    assert_eq!(player.current_deck.cards.len(), 2);
    assert_eq!(player.current_deck.cards[0].card_id, "card-0");
}

#[test]
fn new_connection_reports_an_unparsed_request() {
    let r = Player::new_connection(
        Err(String::from("bad bytes")),
        ProfileFetch::Response { status: 200, profile: Ok(profile("alice")) },
        DeckFetch::Response { status: 200, deck: Some(deck(1)) },
    );
    match r {
        Err(PlayerConnectionError::InvalidPlayerPayload(reason)) => {
            assert_eq!(reason, "bad bytes");
        }
        other => panic!("expected an invalid payload, got {other:?}"),
    }
}

#[test]
fn new_connection_with_rejected_token_is_unauthorized() {
    let r = Player::new_connection(
        Ok(connect_request("alice")),
        ProfileFetch::Response { status: 401, profile: Err(String::new()) },
        DeckFetch::Response { status: 200, deck: Some(deck(1)) },
    );
    assert!(matches!(r, Err(PlayerConnectionError::UnauthorizedPlayerError)));
}

#[test]
fn new_connection_propagates_the_deck_failure() {
    let r = Player::new_connection(
        Ok(connect_request("alice")),
        ProfileFetch::Response { status: 200, profile: Ok(profile("alice")) },
        DeckFetch::Response { status: 404, deck: None },
    );
    assert!(matches!(r, Err(PlayerConnectionError::DeckNotFound)));
}

#[test]
fn reconnection_accepts_a_matching_profile() {
    let request = ReconnectionRequest {
        player_id: String::from("bob"),
        auth_token: String::from("token"),
    };
    let r = Player::reconnection(
        Ok(request),
        ProfileFetch::Response { status: 200, profile: Ok(profile("bob")) },
    );
    assert_eq!(r.expect("ids match"), "bob");
}

#[test]
fn reconnection_rejects_a_mismatched_profile() {
    let request = ReconnectionRequest {
        player_id: String::from("bob"),
        auth_token: String::from("token"),
    };
    let r = Player::reconnection(
        Ok(request),
        ProfileFetch::Response { status: 200, profile: Ok(profile("mallory")) },
    );
    assert!(matches!(r, Err(PlayerConnectionError::PlayerDoesNotMatch)));
}

#[test]
fn reconnection_propagates_the_profile_failure() {
    let request = ReconnectionRequest {
        player_id: String::from("bob"),
        auth_token: String::from("expired"),
    };
    let r = Player::reconnection(
        Ok(request),
        ProfileFetch::Response { status: 401, profile: Err(String::new()) },
    );
    assert!(matches!(r, Err(PlayerConnectionError::UnauthorizedPlayerError)));
}
