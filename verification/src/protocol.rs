use vstd::prelude::*;

use crate::checksum::{checksum_spec, Checksum};
use crate::client::{Client, TemporaryClient};
use crate::errors::{NetworkError, PlayerConnectionError};
use crate::header::{header_from_byte, HeaderType};
use crate::packet::{declared_checksum, parse_ok, parsed_payload, Packet};
use crate::player::{
    new_connection_spec, profile_rejected_unauthorized, reconnection_spec, resolve_profile_spec,
    DeckFetch, Player, ProfileFetch,
};
use crate::requests::{ConnectionRequest, PlayCardRequest, ReconnectionRequest};
use crate::server::ServerInstance;

verus! {

/// Writes attempted for one outbound packet before giving up.
pub const SEND_ATTEMPT_LIMIT: usize = 3;

/// Pause between two write attempts of the same packet, in milliseconds.
pub const SEND_RETRY_DELAY_MS: u64 = 500;

/// Pause between two packets of a missed-packet replay, in microseconds; a
/// tuning constant bounding the outbound burst rate, not a correctness
/// requirement.
pub const REPLAY_PACING_US: u64 = 30;

/// What the dispatcher decides for an incoming buffer.  The caller owns the
/// socket and carries the decision out; the decision itself is fixed here.
#[derive(Debug)]
pub enum WireAction {
    /// Framing too broken to answer: log and drop, send nothing.
    Ignore,
    /// Send this packet; the connection stays open either way.
    Reply(Packet),
    /// Send this packet; disconnect the client only if the send fails.
    ReplyOrDisconnect(Packet),
    /// Send this packet, then disconnect whatever the send's outcome.
    ReplyAndDisconnect(Packet),
    /// Deserialize these payload bytes as a play-card request and feed the
    /// result to `handle_play_card_request`.
    PlayCard(Vec<u8>),
}

/// What the dispatcher decides once a play-card payload has been through
/// deserialisation.
#[derive(Debug)]
pub enum PlayCardAction {
    /// The request parsed: run play-card validation and the card's effects.
    Execute(PlayCardRequest),
    /// The payload did not parse: send this packet and keep the connection
    /// open.
    Reply(Packet),
}

/// What the dispatcher decides for a buffer read from a socket that has
/// not authenticated yet.
#[derive(Debug)]
pub enum HandshakeAction {
    /// Framing too broken to answer: log and drop, send nothing.
    Ignore,
    /// Send this packet and close the socket; the handle is not promoted.
    RejectAndClose(Packet),
    /// A connect attempt: resolve this payload's identity and feed the
    /// outcomes to `handle_connect`.
    Connect(Vec<u8>),
    /// A reconnect attempt: resolve this payload's identity and feed the
    /// outcomes to `handle_reconnect`.
    Reconnect(Vec<u8>),
}

/// The protocol dispatcher: validates incoming packets, routes them by
/// header type, and owns the server state that connect and reconnect
/// handling mutate.
#[derive(Debug)]
pub struct Protocol {
    pub server_instance: ServerInstance,
}

impl Protocol {
    /// Wraps the server state the dispatcher works on.
    pub fn new(server_instance: ServerInstance) -> (r: Protocol)
        ensures
            r.server_instance == server_instance,
    {
        Protocol { server_instance }
    }

    /// Routes a decoded, checksum-validated packet by its header type: a
    /// `Disconnect` is acknowledged and the client disconnected
    /// unconditionally; a `PlayCard` payload goes on to deserialisation;
    /// every other type is answered with `InvalidHeader`, disconnecting
    /// only if that answer cannot be sent.
    pub fn handle_packet(&self, packet: Packet) -> (r: WireAction)
        ensures
            packet.header.header_type == HeaderType::Disconnect ==> (r matches
                WireAction::ReplyAndDisconnect(p) && p.header.header_type == HeaderType::Disconnect
                && p.payload@.len() == 0 && p.wf()),
            packet.header.header_type == HeaderType::PlayCard ==> (r matches WireAction::PlayCard(
                payload,
            ) && payload@ == packet.payload@),
            packet.header.header_type != HeaderType::Disconnect && packet.header.header_type
                != HeaderType::PlayCard ==> (r matches WireAction::ReplyOrDisconnect(p)
                && p.header.header_type == HeaderType::InvalidHeader && p.payload@.len() == 0
                && p.wf()),
    {
        match packet.header.header_type {
            HeaderType::Disconnect => WireAction::ReplyAndDisconnect(
                Packet::new(HeaderType::Disconnect, Vec::new()),
            ),
            HeaderType::PlayCard => WireAction::PlayCard(packet.payload),
            _ => WireAction::ReplyOrDisconnect(Packet::new(HeaderType::InvalidHeader, Vec::new())),
        }
    }

    /// Handles a buffer read from a client's socket.  A buffer that does
    /// not frame a packet is dropped without an answer.  A framed packet
    /// whose claimed checksum does not match its payload is answered with
    /// `InvalidChecksum` and the client is disconnected, send or no send.
    /// A valid packet is routed by `handle_packet`.
    pub fn handle_incoming(&self, buffer: &[u8]) -> (r: WireAction)
        ensures
            !parse_ok(buffer@) ==> r is Ignore,
            parse_ok(buffer@) && declared_checksum(buffer@) != checksum_spec(
                parsed_payload(buffer@),
            ) ==> (r matches WireAction::ReplyAndDisconnect(p) && p.header.header_type
                == HeaderType::InvalidChecksum && p.payload@.len() == 0 && p.wf()),
            parse_ok(buffer@) && declared_checksum(buffer@) == checksum_spec(
                parsed_payload(buffer@),
            ) ==> {
                let h = header_from_byte(buffer@[0])->Some_0;
                &&& h == HeaderType::Disconnect ==> (r matches WireAction::ReplyAndDisconnect(p)
                    && p.header.header_type == HeaderType::Disconnect && p.payload@.len() == 0
                    && p.wf())
                &&& h == HeaderType::PlayCard ==> (r matches WireAction::PlayCard(payload)
                    && payload@ == parsed_payload(buffer@))
                &&& h != HeaderType::Disconnect && h != HeaderType::PlayCard ==> (r matches
                    WireAction::ReplyOrDisconnect(p) && p.header.header_type
                    == HeaderType::InvalidHeader && p.payload@.len() == 0 && p.wf())
            },
    {
        match Packet::parse(buffer) {
            Err(_) => WireAction::Ignore,
            Ok(packet) => {
                if !Checksum::check(packet.header.checksum, packet.payload.as_slice()) {
                    WireAction::ReplyAndDisconnect(Packet::new(HeaderType::InvalidChecksum, Vec::new()))
                } else {
                    self.handle_packet(packet)
                }
            },
        }
    }

    /// Handles a buffer read from a socket that has not authenticated yet.
    /// Framing and checksum are validated as on the authenticated path;
    /// then only `Connect` and `Reconnect` mean anything — every other
    /// type is answered with `InvalidHeader` and the socket is closed.
    pub fn handle_handshake(&self, buffer: &[u8]) -> (r: HandshakeAction)
        ensures
            !parse_ok(buffer@) ==> r is Ignore,
            parse_ok(buffer@) && declared_checksum(buffer@) != checksum_spec(
                parsed_payload(buffer@),
            ) ==> (r matches HandshakeAction::RejectAndClose(p) && p.header.header_type
                == HeaderType::InvalidChecksum && p.payload@.len() == 0 && p.wf()),
            parse_ok(buffer@) && declared_checksum(buffer@) == checksum_spec(
                parsed_payload(buffer@),
            ) ==> {
                let h = header_from_byte(buffer@[0])->Some_0;
                &&& h == HeaderType::Connect ==> (r matches HandshakeAction::Connect(payload)
                    && payload@ == parsed_payload(buffer@))
                &&& h == HeaderType::Reconnect ==> (r matches HandshakeAction::Reconnect(payload)
                    && payload@ == parsed_payload(buffer@))
                &&& h != HeaderType::Connect && h != HeaderType::Reconnect ==> (r matches
                    HandshakeAction::RejectAndClose(p) && p.header.header_type
                    == HeaderType::InvalidHeader && p.payload@.len() == 0 && p.wf())
            },
    {
        match Packet::parse(buffer) {
            Err(_) => HandshakeAction::Ignore,
            Ok(packet) => {
                if !Checksum::check(packet.header.checksum, packet.payload.as_slice()) {
                    HandshakeAction::RejectAndClose(
                        Packet::new(HeaderType::InvalidChecksum, Vec::new()),
                    )
                } else {
                    match packet.header.header_type {
                        HeaderType::Connect => HandshakeAction::Connect(packet.payload),
                        HeaderType::Reconnect => HandshakeAction::Reconnect(packet.payload),
                        _ => HandshakeAction::RejectAndClose(
                            Packet::new(HeaderType::InvalidHeader, Vec::new()),
                        ),
                    }
                }
            },
        }
    }

    /// Decides the answer to a play-card payload once deserialisation has
    /// run: a parsed request goes to validation and execution, an unparsed
    /// one is answered with `InvalidPacketPayload` while the connection
    /// stays open.
    pub fn handle_play_card_request(request: Result<PlayCardRequest, String>) -> (r: PlayCardAction)
        ensures
            request matches Ok(req) ==> r == PlayCardAction::Execute(req),
            request is Err ==> (r matches PlayCardAction::Reply(p) && p.header.header_type
                == HeaderType::InvalidPacketPayload && p.payload@.len() == 0 && p.wf()),
    {
        match request {
            Ok(req) => PlayCardAction::Execute(req),
            Err(_) => PlayCardAction::Reply(
                Packet::new(HeaderType::InvalidPacketPayload, Vec::new()),
            ),
        }
    }

    /// Marks a client disconnected.  The record is retained — stream
    /// ownership and closure are the caller's business — so a later
    /// reconnect can find it and its backlog.
    pub fn disconnect(client: &mut Client)
        ensures
            !final(client).connected,
            final(client).id == old(client).id,
            final(client).addr == old(client).addr,
            final(client).missed_packets@ == old(client).missed_packets@,
            final(client).player == old(client).player,
    {
        client.connected = false;
    }

    /// One of the first `n` write attempts succeeds.
    pub open spec fn write_succeeds_within(outcomes: Seq<bool>, n: int) -> bool {
        exists|i: int| 0 <= i < n && outcomes[i]
    }

    /// The outbound retry discipline, over the outcomes the successive
    /// write attempts would have (the caller performs the writes and the
    /// `SEND_RETRY_DELAY_MS` pause between them).  Attempts stop at the
    /// first success; when every write fails, exactly `SEND_ATTEMPT_LIMIT`
    /// attempts are made — no more, no fewer — and the packet is reported
    /// unsendable.  Returns the number of attempts made and the outcome.
    pub fn send_packet(write_outcomes: &[bool]) -> (r: (usize, Result<(), NetworkError>))
        requires
            write_outcomes@.len() >= SEND_ATTEMPT_LIMIT,
        ensures
            r.1 is Ok <==> Self::write_succeeds_within(
                write_outcomes@,
                SEND_ATTEMPT_LIMIT as int,
            ),
            !Self::write_succeeds_within(write_outcomes@, SEND_ATTEMPT_LIMIT as int) ==> r.0
                == SEND_ATTEMPT_LIMIT && (r.1 matches Err(NetworkError::PackageWriteError(_))),
            r.1 is Ok ==> 1 <= r.0 <= SEND_ATTEMPT_LIMIT && write_outcomes@[r.0 - 1]
                && (forall|i: int| 0 <= i < r.0 - 1 ==> !write_outcomes@[i]),
    {
        let mut tries: usize = 0;
        while tries < SEND_ATTEMPT_LIMIT
            invariant
                tries <= SEND_ATTEMPT_LIMIT,
                write_outcomes@.len() >= SEND_ATTEMPT_LIMIT,
                forall|i: int| 0 <= i < tries ==> !write_outcomes@[i],
            decreases SEND_ATTEMPT_LIMIT - tries,
        {
            if write_outcomes[tries] {
                return (tries + 1, Ok(()));
            }
            tries += 1;
        }
        (
            tries,
            Err(
                NetworkError::PackageWriteError(
                    String::from_str("every write attempt failed"),
                ),
            ),
        )
    }

    /// Drains a client's backlog for replay: the caller must send the
    /// returned packets in exactly this order — the order they were queued
    /// — before any newer traffic, pacing them by `REPLAY_PACING_US`.
    pub fn send_missed_packets(client: &mut Client) -> (r: Vec<Packet>)
        ensures
            r@ == old(client).missed_packets@,
            final(client).missed_packets@.len() == 0,
            final(client).id == old(client).id,
            final(client).addr == old(client).addr,
            final(client).connected == old(client).connected,
            final(client).player == old(client).player,
    {
        client.take_missed_packets()
    }

    /// Handles a connect request: resolves it into a player
    /// (`new_connection_spec`) and promotes the temporary handle into the
    /// registry.  On any resolution failure the handle is returned
    /// unconsumed with the failure — never promoted — and the registry is
    /// untouched; in particular a token the profile service rejects always
    /// comes back as `UnauthorizedPlayerError`.  A registry slot already
    /// held by the same player id stays with its winner: the loser gets an
    /// internal error and changes nothing.
    pub fn handle_connect(
        &mut self,
        temp_client: TemporaryClient,
        request: Result<ConnectionRequest, String>,
        profile: ProfileFetch,
        deck: DeckFetch,
    ) -> (r: Result<(), (TemporaryClient, PlayerConnectionError)>)
        requires
            old(self).server_instance.wf(),
        ensures
            final(self).server_instance.wf(),
            final(self).server_instance.server_port == old(self).server_instance.server_port,
            match new_connection_spec(request, profile, deck) {
                Err(e) => r == Err::<(), _>((temp_client, e)) && *final(self) == *old(self),
                Ok(p) => {
                    if old(self).server_instance.has_player(p.id@) {
                        &&& r matches Err((t, PlayerConnectionError::InternalError(_)))
                        &&& (r matches Err((t, _)) ==> t == temp_client)
                        &&& *final(self) == *old(self)
                    } else {
                        &&& r is Ok
                        &&& final(self).server_instance.players@.len() == old(
                            self,
                        ).server_instance.players@.len() + 1
                        &&& final(self).server_instance.players@.take(
                            old(self).server_instance.players@.len() as int,
                        ) == old(self).server_instance.players@
                        &&& ({
                            let c = final(self).server_instance.players@.last();
                            &&& c.id == p.id
                            &&& c.addr == temp_client.addr
                            &&& c.connected
                            &&& c.missed_packets@.len() == 0
                            &&& c.player == p
                        })
                    }
                },
            },
            request is Ok && profile_rejected_unauthorized(profile) ==> r == Err::<(), _>(
                (temp_client, PlayerConnectionError::UnauthorizedPlayerError),
            ) && *final(self) == *old(self),
    {
        match Player::new_connection(request, profile, deck) {
            Err(e) => Err((temp_client, e)),
            Ok(player) => {
                match self.server_instance.find_player(&player.id) {
                    Some(_) => Err(
                        (
                            temp_client,
                            PlayerConnectionError::InternalError(
                                String::from_str("player id already holds a live registry slot"),
                            ),
                        ),
                    ),
                    None => {
                        let client: Client = Client::new(temp_client, player);
                        self.server_instance.players.push(client);
                        proof {
                            let n = old(self).server_instance.players@.len() as int;
                            assert(self.server_instance.players@.take(n) =~= old(
                                self,
                            ).server_instance.players@);
                            assert forall|a: int, b: int|
                                0 <= a < b < self.server_instance.players@.len() implies
                                self.server_instance.players@[a].id@
                                != self.server_instance.players@[b].id@ by {
                                if b < n {
                                    assert(old(self).server_instance.wf());
                                } else {
                                    assert(!old(self).server_instance.has_player(
                                        self.server_instance.players@[b].id@,
                                    ));
                                }
                            }
                        }
                        Ok(())
                    },
                }
            },
        }
    }

    /// Handles a reconnect request: resolves it (`reconnection_spec`) and,
    /// when the resolved player id holds a registry record, attaches the
    /// new handle to that record and returns the backlog to replay, oldest
    /// first.  A resolution failure — in particular a resolved profile id
    /// that differs from the claimed player id — or an id without a record
    /// returns the handle unconsumed and alters no registry entry.
    pub fn handle_reconnect(
        &mut self,
        temp_client: TemporaryClient,
        request: Result<ReconnectionRequest, String>,
        profile: ProfileFetch,
    ) -> (r: Result<Vec<Packet>, (TemporaryClient, PlayerConnectionError)>)
        requires
            old(self).server_instance.wf(),
        ensures
            final(self).server_instance.wf(),
            final(self).server_instance.server_port == old(self).server_instance.server_port,
            match reconnection_spec(request, profile) {
                Err(e) => r == Err::<Vec<Packet>, _>((temp_client, e)) && *final(self) == *old(
                    self,
                ),
                Ok(id) => {
                    if !old(self).server_instance.has_player(id@) {
                        r == Err::<Vec<Packet>, _>(
                            (temp_client, PlayerConnectionError::PlayerNotConnected),
                        ) && *final(self) == *old(self)
                    } else {
                        let i = old(self).server_instance.player_index(id@);
                        &&& r is Ok
                        &&& (r matches Ok(delivered) ==> delivered@ == old(
                            self,
                        ).server_instance.players@[i].missed_packets@)
                        &&& final(self).server_instance.players@.len() == old(
                            self,
                        ).server_instance.players@.len()
                        &&& (forall|j: int|
                            0 <= j < old(self).server_instance.players@.len() && j != i
                                ==> final(self).server_instance.players@[j] == old(
                                self,
                            ).server_instance.players@[j])
                        &&& ({
                            let c0 = old(self).server_instance.players@[i];
                            let c1 = final(self).server_instance.players@[i];
                            &&& c1.id == c0.id
                            &&& c1.player == c0.player
                            &&& c1.connected
                            &&& c1.addr == temp_client.addr
                            &&& c1.missed_packets@.len() == 0
                        })
                    }
                },
            },
            (request matches Ok(req) && resolve_profile_spec(profile) matches Ok(prof)
                && prof.id@ != req.player_id@) ==> r == Err::<Vec<Packet>, _>(
                (temp_client, PlayerConnectionError::PlayerDoesNotMatch),
            ) && *final(self) == *old(self),
    {
        let id: String = match Player::reconnection(request, profile) {
            Err(e) => {
                return Err((temp_client, e));
            },
            Ok(id) => id,
        };
        match self.server_instance.find_player(&id) {
            None => Err((temp_client, PlayerConnectionError::PlayerNotConnected)),
            Some(i) => {
                proof {
                    let k = self.server_instance.player_index(id@);
                    assert(self.server_instance.players@[k].id@ == id@);
                    assert(k == i as int);
                }
                let mut c: Client = self.server_instance.players.remove(i);
                c.reconnect(temp_client);
                let delivered: Vec<Packet> = c.take_missed_packets();
                self.server_instance.players.insert(i, c);
                proof {
                    assert forall|a: int, b: int|
                        0 <= a < b < self.server_instance.players@.len() implies
                        self.server_instance.players@[a].id@
                        != self.server_instance.players@[b].id@ by {
                        assert(self.server_instance.players@[a].id@ == old(
                            self,
                        ).server_instance.players@[a].id@);
                        assert(self.server_instance.players@[b].id@ == old(
                            self,
                        ).server_instance.players@[b].id@);
                    }
                }
                Ok(delivered)
            },
        }
    }
}

} // verus!
