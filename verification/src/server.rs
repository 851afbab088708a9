use vstd::prelude::*;

use crate::client::Client;
use crate::errors::PlayerConnectionError;
use crate::packet::Packet;

verus! {

/// The server's shared state: the listening port and the registry of
/// authenticated connection records, one per player id.  The listening
/// socket itself and the accept loop live with the caller; everything that
/// decides what the registry holds is here.
#[derive(Debug)]
pub struct ServerInstance {
    pub server_port: u16,
    pub players: Vec<Client>,
}

impl ServerInstance {
    /// Registry invariant: no player id holds two records.
    pub open spec fn wf(self) -> bool {
        forall|i: int, j: int|
            0 <= i < j < self.players@.len() ==> self.players@[i].id@ != self.players@[j].id@
    }

    /// Whether some record is registered under `id`.
    pub open spec fn has_player(self, id: Seq<char>) -> bool {
        exists|i: int| 0 <= i < self.players@.len() && self.players@[i].id@ == id
    }

    /// The index of the record registered under `id` (unique under `wf`).
    pub open spec fn player_index(self, id: Seq<char>) -> int {
        choose|i: int| 0 <= i < self.players@.len() && self.players@[i].id@ == id
    }

    /// A fresh instance for a port: the registry starts empty.
    pub fn new(server_port: u16) -> (r: ServerInstance)
        ensures
            r.server_port == server_port,
            r.players@.len() == 0,
            r.wf(),
    {
        ServerInstance { server_port, players: Vec::new() }
    }

    /// Looks a player id up in the registry.
    pub fn find_player(&self, id: &String) -> (r: Option<usize>)
        ensures
            match r {
                Some(i) => i < self.players@.len() && self.players@[i as int].id@ == id@,
                None => !self.has_player(id@),
            },
    {
        let n: usize = self.players.len();
        for i in 0..n
            invariant
                n == self.players@.len(),
                forall|j: int| 0 <= j < i ==> self.players@[j].id@ != id@,
        {
            if self.players[i].id == *id {
                return Some(i);
            }
        }
        None
    }

    /// Inserts a record.  At most one connection wins a registry slot: if
    /// the id is already registered, the caller loses with an internal
    /// error and the winner's record is left untouched.
    pub fn add_player(&mut self, client: Client) -> (r: Result<(), PlayerConnectionError>)
        requires
            old(self).wf(),
        ensures
            final(self).wf(),
            final(self).server_port == old(self).server_port,
            old(self).has_player(client.id@) ==> (r matches Err(
                PlayerConnectionError::InternalError(_),
            )) && *final(self) == *old(self),
            !old(self).has_player(client.id@) ==> r is Ok && final(self).players@ == old(
                self,
            ).players@.push(client),
    {
        match self.find_player(&client.id) {
            Some(_) => Err(
                PlayerConnectionError::InternalError(
                    String::from_str("player id already holds a live registry slot"),
                ),
            ),
            None => {
                self.players.push(client);
                Ok(())
            },
        }
    }

    /// Removes the record registered under `id`, if any; all other records
    /// keep their places.  This is the one way a record leaves the
    /// registry — a disconnect retains it.
    pub fn remove_player(&mut self, id: &String)
        requires
            old(self).wf(),
        ensures
            final(self).wf(),
            final(self).server_port == old(self).server_port,
            !old(self).has_player(id@) ==> final(self).players@ == old(self).players@,
            old(self).has_player(id@) ==> final(self).players@ == old(self).players@.remove(
                old(self).player_index(id@),
            ),
            !final(self).has_player(id@),
    {
        match self.find_player(id) {
            None => {
            },
            Some(i) => {
                proof {
                    let k = self.player_index(id@);
                    assert(self.players@[k].id@ == id@);
                    assert(k == i as int);
                }
                self.players.remove(i);
                proof {
                    assert forall|m: int| 0 <= m < self.players@.len() implies self.players@[m].id@
                        != id@ by {
                        if m < i as int {
                            assert(self.players@[m] == old(self).players@[m]);
                        } else {
                            assert(self.players@[m] == old(self).players@[m + 1]);
                        }
                    }
                }
            },
        }
    }

    /// Fans one game-state packet out over the registry: a record that is
    /// connected is listed (by index, in registry order) for the caller to
    /// send to now; a record that is disconnected gets a faithful copy of
    /// the packet appended to its backlog instead, to be replayed on
    /// reconnection.  No record is ever skipped or dropped.
    pub fn broadcast(&mut self, packet: &Packet) -> (r: Vec<usize>)
        requires
            old(self).wf(),
        ensures
            final(self).wf(),
            final(self).server_port == old(self).server_port,
            final(self).players@.len() == old(self).players@.len(),
            forall|i: int|
                #![trigger final(self).players@[i]]
                0 <= i < old(self).players@.len() ==> {
                    let c0 = old(self).players@[i];
                    let c1 = final(self).players@[i];
                    &&& c1.id == c0.id
                    &&& c1.addr == c0.addr
                    &&& c1.connected == c0.connected
                    &&& c1.player == c0.player
                    &&& (c0.connected ==> c1.missed_packets@ == c0.missed_packets@)
                    &&& (!c0.connected ==> c1.missed_packets@.len() == c0.missed_packets@.len() + 1
                        && c1.missed_packets@.take(c0.missed_packets@.len() as int)
                            == c0.missed_packets@ && c1.missed_packets@.last().equiv(*packet))
                },
            forall|k: int|
                0 <= k < r@.len() ==> 0 <= #[trigger] r@[k] < old(self).players@.len() && old(
                    self,
                ).players@[r@[k] as int].connected,
            forall|i: int|
                0 <= i < old(self).players@.len() && old(self).players@[i].connected ==> r@.contains(
                    i as usize,
                ),
            forall|k1: int, k2: int| 0 <= k1 < k2 < r@.len() ==> r@[k1] < r@[k2],
    {
        let ghost orig: ServerInstance = *self;
        let mut live: Vec<usize> = Vec::new();
        let n: usize = self.players.len();
        let mut i: usize = 0;
        while i < n
            invariant
                n == orig.players@.len(),
                self.players@.len() == n,
                self.server_port == orig.server_port,
                i <= n,
                forall|j: int| i <= j < n ==> self.players@[j] == orig.players@[j],
                forall|j: int|
                    #![trigger self.players@[j]]
                    0 <= j < i ==> {
                        let c0 = orig.players@[j];
                        let c1 = self.players@[j];
                        &&& c1.id == c0.id
                        &&& c1.addr == c0.addr
                        &&& c1.connected == c0.connected
                        &&& c1.player == c0.player
                        &&& (c0.connected ==> c1.missed_packets@ == c0.missed_packets@)
                        &&& (!c0.connected ==> c1.missed_packets@.len() == c0.missed_packets@.len()
                            + 1 && c1.missed_packets@.take(c0.missed_packets@.len() as int)
                                == c0.missed_packets@ && c1.missed_packets@.last().equiv(*packet))
                    },
                forall|k: int|
                    0 <= k < live@.len() ==> 0 <= #[trigger] live@[k] < i && orig.players@[live@[k] as int].connected,
                forall|j: int|
                    0 <= j < i && orig.players@[j].connected ==> live@.contains(j as usize),
                forall|k1: int, k2: int| 0 <= k1 < k2 < live@.len() ==> live@[k1] < live@[k2],
            decreases n - i,
        {
            if self.players[i].connected {
                let ghost prev: Seq<usize> = live@;
                live.push(i);
                proof {
                    assert forall|j: int|
                        0 <= j < i + 1 && orig.players@[j].connected implies live@.contains(
                        j as usize,
                    ) by {
                        if j < i {
                            let k = choose|k: int| 0 <= k < prev.len() && prev[k] == j as usize;
                            assert(live@[k] == j as usize);
                        } else {
                            assert(live@[live@.len() - 1] == i as usize);
                        }
                    }
                }
            } else {
                let mut c: Client = self.players.remove(i);
                c.queue_missed_packet(packet.duplicate());
                self.players.insert(i, c);
                proof {
                    assert(self.players@[i as int].missed_packets@.take(
                        orig.players@[i as int].missed_packets@.len() as int,
                    ) =~= orig.players@[i as int].missed_packets@);
                }
            }
            i += 1;
        }
        proof {
            assert forall|a: int, b: int|
                0 <= a < b < self.players@.len() implies self.players@[a].id@
                != self.players@[b].id@ by {
                assert(self.players@[a].id == orig.players@[a].id);
                assert(self.players@[b].id == orig.players@[b].id);
            }
        }
        live
    }
}

} // verus!
