use vstd::prelude::*;

use crate::packet::Packet;
use crate::player::Player;

verus! {

/// An accepted socket before authentication: it carries no player and no
/// queue, only the peer address.  Promotion consumes it, so a handle is
/// promoted at most once.
#[derive(Debug)]
pub struct TemporaryClient {
    pub addr: String,
}

impl TemporaryClient {
    /// Wraps a freshly accepted connection's peer address.
    pub fn new(addr: String) -> (r: TemporaryClient)
        ensures
            r.addr == addr,
    {
        TemporaryClient { addr }
    }
}

/// The durable per-player connection record.  It stays in the registry
/// across disconnects — `connected` flips, the record is retained — so
/// that a reconnect can find it and drain `missed_packets`.
#[derive(Debug)]
pub struct Client {
    /// Stable across reconnects; always the player's id.
    pub id: String,
    /// Peer address of the socket currently (or last) attached.
    pub addr: String,
    /// Whether a live socket is attached.
    pub connected: bool,
    /// FIFO backlog of packets generated while `connected` was false.
    /// Unbounded, and never silently dropped.
    pub missed_packets: Vec<Packet>,
    /// The authenticated player owning this record.
    pub player: Player,
}

impl Client {
    /// Promotes a temporary handle: the handle is consumed — ownership
    /// transfers here, exactly once — and the record starts connected with
    /// an empty backlog.
    pub fn new(temp: TemporaryClient, player: Player) -> (r: Client)
        ensures
            r.id == player.id,
            r.addr == temp.addr,
            r.connected,
            r.missed_packets@.len() == 0,
            r.player == player,
    {
        let id: String = player.id.clone();
        Client { id, addr: temp.addr, connected: true, missed_packets: Vec::new(), player }
    }

    /// Appends a packet to the backlog; everything else stays as it was.
    pub fn queue_missed_packet(&mut self, packet: Packet)
        ensures
            final(self).missed_packets@ == old(self).missed_packets@.push(packet),
            final(self).id == old(self).id,
            final(self).addr == old(self).addr,
            final(self).connected == old(self).connected,
            final(self).player == old(self).player,
    {
        self.missed_packets.push(packet);
    }

    /// Attaches a new socket to the record: the fresh temporary handle is
    /// consumed, the record is connected again, and the backlog is kept
    /// untouched for the replay step.
    pub fn reconnect(&mut self, temp: TemporaryClient)
        ensures
            final(self).connected,
            final(self).addr == temp.addr,
            final(self).id == old(self).id,
            final(self).player == old(self).player,
            final(self).missed_packets@ == old(self).missed_packets@,
    {
        self.connected = true;
        self.addr = temp.addr;
    }

    /// Removes and returns the whole backlog, in the order it was queued.
    pub fn take_missed_packets(&mut self) -> (r: Vec<Packet>)
        ensures
            r@ == old(self).missed_packets@,
            final(self).missed_packets@.len() == 0,
            final(self).id == old(self).id,
            final(self).addr == old(self).addr,
            final(self).connected == old(self).connected,
            final(self).player == old(self).player,
    {
        let mut out: Vec<Packet> = Vec::new();
        core::mem::swap(&mut self.missed_packets, &mut out);
        out
    }
}

/// The backlog after packets `ps` are queued one by one onto `q0`.
pub open spec fn queue_after(q0: Seq<Packet>, ps: Seq<Packet>) -> Seq<Packet>
    decreases ps.len(),
{
    if ps.len() == 0 {
        q0
    } else {
        queue_after(q0, ps.drop_last()).push(ps.last())
    }
}

/// While a record is disconnected the backlog only grows at the tail: after
/// queueing packets `ps` one by one, the backlog is exactly what it held
/// before followed by `ps` in their original order.  A reconnect drains the
/// whole backlog before any newer traffic, so starting from an empty
/// backlog it delivers exactly `ps`, in order.
pub proof fn lemma_missed_packets_replay_in_order(q0: Seq<Packet>, ps: Seq<Packet>)
    ensures
        queue_after(q0, ps) == q0 + ps,
    decreases ps.len(),
{
    if ps.len() == 0 {
        assert(queue_after(q0, ps) =~= q0 + ps);
    } else {
        lemma_missed_packets_replay_in_order(q0, ps.drop_last());
        assert(queue_after(q0, ps) =~= q0 + ps);
    }
}

} // verus!
