//! The client-triggered reducers: connection lifecycle and player actions.
//!
//! Each reducer is one atomic transaction: it checks its preconditions
//! before touching any table, so an error always leaves the store exactly as
//! it was, and on success the store's view equals the corresponding
//! transition of `state::WorldView`.

use vstd::prelude::*;

use crate::state::{
    lemma_connect_preserves_wf, lemma_disconnect_preserves_wf, lemma_enter_preserves_wf,
    lemma_leave_preserves_wf, lemma_move_preserves_wf, lemma_pilots_minus_absent,
    lemma_pilots_remove_row, lemma_ready_preserves_wf, lemma_spawn_preserves_wf, owned_ship_ids,
    pilots_minus_player,
};
use crate::store::{
    lemma_table_view_contains, lemma_table_view_index, table_find, table_push, table_remove,
    table_view, unique_keys, Row,
};
use crate::tables::{Player, PlayerLocation, ReducerError, Ship, ShipLocation, ShipPilot};
use crate::units::{Pose, DEFAULT_SHIP_TYPE_ID};
use crate::world::World;

verus! {

/// Find the pilot row whose pilot is `p`, if any (the pilot column is a
/// secondary unique index: the table is keyed by ship).
fn find_pilot_by_player(pilots: &Vec<ShipPilot>, p: u64) -> (r: Option<usize>)
    requires
        unique_keys(pilots@),
    ensures
        match r {
            Some(i) => i < pilots@.len() && pilots@[i as int].player_id == p
                && table_view(pilots@).contains_key(pilots@[i as int].ship_id)
                && table_view(pilots@)[pilots@[i as int].ship_id] == pilots@[i as int],
            None => forall|s: u64| #[trigger] table_view(pilots@).contains_key(s)
                ==> table_view(pilots@)[s].player_id != p,
        },
{
    let n = pilots.len();
    let mut i: usize = 0;
    while i < n
        invariant
            n == pilots@.len(),
            unique_keys(pilots@),
            i <= n,
            forall|j: int| 0 <= j < i ==> #[trigger] pilots@[j].player_id != p,
        decreases n - i,
    {
        if pilots[i].player_id == p {
            proof {
                lemma_table_view_index(pilots@, i as int);
            }
            return Some(i);
        }
        i = i + 1;
    }
    proof {
        assert forall|s: u64| #[trigger] table_view(pilots@).contains_key(s)
            implies table_view(pilots@)[s].player_id != p by {
            lemma_table_view_contains(pilots@);
            let j = choose|j: int| 0 <= j < pilots@.len() && #[trigger] pilots@[j].key() == s;
            lemma_table_view_index(pilots@, j);
        }
    }
    None
}

/// The ids of every ship owned by `owner`.
fn collect_owned_ship_ids(ships: &Vec<Ship>, owner: u64) -> (ids: Vec<u64>)
    requires
        unique_keys(ships@),
    ensures
        forall|b: int| 0 <= b < ids@.len()
            ==> owned_ship_ids(table_view(ships@), owner).contains(#[trigger] ids@[b]),
        forall|k: u64| owned_ship_ids(table_view(ships@), owner).contains(k) ==> ids@.contains(k),
{
    let mut ids: Vec<u64> = Vec::new();
    let n = ships.len();
    let mut j: usize = 0;
    while j < n
        invariant
            n == ships@.len(),
            j <= n,
            unique_keys(ships@),
            forall|b: int| 0 <= b < ids@.len()
                ==> owned_ship_ids(table_view(ships@), owner).contains(#[trigger] ids@[b]),
            forall|jj: int| 0 <= jj < j && ships@[jj].owner_id == owner
                ==> ids@.contains(#[trigger] ships@[jj].id),
        decreases n - j,
    {
        if ships[j].owner_id == owner {
            proof {
                lemma_table_view_index(ships@, j as int);
            }
            let ghost before = ids@;
            ids.push(ships[j].id);
            proof {
                assert forall|jj: int| 0 <= jj < j + 1 && ships@[jj].owner_id == owner
                    implies ids@.contains(#[trigger] ships@[jj].id) by {
                    if jj < j {
                        let b = choose|b: int| 0 <= b < before.len() && before[b] == ships@[jj].id;
                        assert(ids@[b] == ships@[jj].id);
                    } else {
                        assert(ids@[before.len() as int] == ships@[jj].id);
                    }
                }
            }
        }
        j = j + 1;
    }
    proof {
        assert forall|k: u64| owned_ship_ids(table_view(ships@), owner).contains(k)
            implies ids@.contains(k) by {
            lemma_table_view_contains(ships@);
            let jj = choose|jj: int| 0 <= jj < ships@.len() && #[trigger] ships@[jj].key() == k;
            lemma_table_view_index(ships@, jj);
            assert(ships@[jj].owner_id == owner);
        }
    }
    ids
}

/// Delete every ship owned by `owner`, cascading to the ships' locations
/// and pilot rows.
fn delete_owned_ships(
    ships: &mut Vec<Ship>,
    locs: &mut Vec<ShipLocation>,
    pilots: &mut Vec<ShipPilot>,
    owner: u64,
)
    requires
        unique_keys(old(ships)@),
        unique_keys(old(locs)@),
        unique_keys(old(pilots)@),
    ensures
        unique_keys(final(ships)@),
        unique_keys(final(locs)@),
        unique_keys(final(pilots)@),
        table_view(final(ships)@) =~= table_view(old(ships)@).remove_keys(
            owned_ship_ids(table_view(old(ships)@), owner),
        ),
        table_view(final(locs)@) =~= table_view(old(locs)@).remove_keys(
            owned_ship_ids(table_view(old(ships)@), owner),
        ),
        table_view(final(pilots)@) =~= table_view(old(pilots)@).remove_keys(
            owned_ship_ids(table_view(old(ships)@), owner),
        ),
{
    let ghost owned = owned_ship_ids(table_view(old(ships)@), owner);
    let ids = collect_owned_ship_ids(ships, owner);
    let n = ids.len();
    let mut a: usize = 0;
    while a < n
        invariant
            n == ids@.len(),
            a <= n,
            unique_keys(ships@),
            unique_keys(locs@),
            unique_keys(pilots@),
            forall|b: int| 0 <= b < n ==> owned.contains(#[trigger] ids@[b]),
            forall|k: u64| owned.contains(k) ==> ids@.contains(k),
            table_view(ships@) =~= table_view(old(ships)@).remove_keys(
                ids@.take(a as int).to_set(),
            ),
            table_view(locs@) =~= table_view(old(locs)@).remove_keys(
                ids@.take(a as int).to_set(),
            ),
            table_view(pilots@) =~= table_view(old(pilots)@).remove_keys(
                ids@.take(a as int).to_set(),
            ),
        decreases n - a,
    {
        let id = ids[a];
        let ghost sset = ids@.take(a as int).to_set();
        if let Some(i) = table_find(ships, id) {
            table_remove(ships, i);
        }
        if let Some(i) = table_find(locs, id) {
            table_remove(locs, i);
        }
        if let Some(i) = table_find(pilots, id) {
            table_remove(pilots, i);
        }
        proof {
            assert(ids@.take(a + 1) =~= ids@.take(a as int).push(id));
            ids@.take(a as int).lemma_push_to_set_commute(id);
            assert(ids@.take(a + 1).to_set() == sset.insert(id));
            assert(table_view(ships@) =~= table_view(old(ships)@).remove_keys(sset.insert(id)));
            assert(table_view(locs@) =~= table_view(old(locs)@).remove_keys(sset.insert(id)));
            assert(table_view(pilots@) =~= table_view(old(pilots)@).remove_keys(sset.insert(id)));
        }
        a = a + 1;
    }
    proof {
        assert(ids@.take(n as int) =~= ids@);
        assert(ids@.to_set() =~= owned);
        assert(table_view(ships@) =~= table_view(old(ships)@).remove_keys(owned));
        assert(table_view(locs@) =~= table_view(old(locs)@).remove_keys(owned));
        assert(table_view(pilots@) =~= table_view(old(pilots)@).remove_keys(owned));
    }
}

impl World {
    /// A client connected: create its player row at the origin with the
    /// identity rotation. A second connect under the same identity is a
    /// logic error upstream; the insert collides with the primary key and
    /// the transaction aborts.
    pub fn on_connected(&mut self, sender: u64) -> (r: Result<(), ReducerError>)
        requires
            old(self).inv(),
        ensures
            final(self).inv(),
            r is Ok <==> old(self)@.connect_ok(sender),
            r is Ok ==> final(self)@ == old(self)@.connect(sender),
            r is Err ==> *final(self) == *old(self)
                && r->Err_0 == ReducerError::ConstraintViolation,
    {
        match table_find(&self.players, sender) {
            Some(_) => Err(ReducerError::ConstraintViolation),
            None => {
                table_push(&mut self.players, Player { id: sender, pose: Pose::initial() });
                proof {
                    assert(self@ =~~= old(self)@.connect(sender));
                    lemma_connect_preserves_wf(old(self)@, sender);
                }
                Ok(())
            },
        }
    }

    /// A client disconnected: delete its player row and cascade — the
    /// on-foot location, the pilot row it appears in, every ship it owns,
    /// and those ships' locations and pilot rows. A disconnect race may find
    /// the player already gone; that is reported as `NotFound` and tolerated
    /// by the caller rather than treated as fatal.
    pub fn on_disconnected(&mut self, sender: u64) -> (r: Result<(), ReducerError>)
        requires
            old(self).inv(),
        ensures
            final(self).inv(),
            r is Ok <==> old(self)@.disconnect_ok(sender),
            r is Ok ==> final(self)@ == old(self)@.disconnect(sender),
            r is Err ==> *final(self) == *old(self) && r->Err_0 == ReducerError::NotFound,
    {
        let pi = match table_find(&self.players, sender) {
            None => {
                return Err(ReducerError::NotFound);
            },
            Some(pi) => pi,
        };
        table_remove(&mut self.players, pi);

        // Cascade from the player: its on-foot location ...
        if let Some(li) = table_find(&self.player_locations, sender) {
            table_remove(&mut self.player_locations, li);
        }
        proof {
            assert(table_view(self.player_locations@)
                =~= table_view(old(self).player_locations@).remove(sender));
        }

        // ... and the pilot row it appears in, if any.
        match find_pilot_by_player(&self.ship_pilots, sender) {
            Some(qi) => {
                let ghost sid = self.ship_pilots@[qi as int].ship_id;
                proof {
                    assert(old(self)@.ship_pilots == table_view(old(self).ship_pilots@));
                }
                table_remove(&mut self.ship_pilots, qi);
                proof {
                    lemma_pilots_remove_row(old(self)@, sender, sid);
                }
            },
            None => {
                proof {
                    lemma_pilots_minus_absent(table_view(old(self).ship_pilots@), sender);
                }
            },
        }

        // Cascade to the ships the player owns.
        delete_owned_ships(&mut self.ships, &mut self.ship_locations, &mut self.ship_pilots, sender);

        proof {
            assert(self@ =~~= old(self)@.disconnect(sender));
            lemma_disconnect_preserves_wf(old(self)@, sender);
        }
        Ok(())
    }

    /// The client finished loading: materialize the player's on-foot
    /// location from its stored pose. Fails with `NotFound` if the player
    /// row is absent; a second call while a location already exists collides
    /// with the primary key and aborts the transaction — the store rejects
    /// it rather than overwrite the location.
    pub fn player_ready(&mut self, sender: u64) -> (r: Result<(), ReducerError>)
        requires
            old(self).inv(),
        ensures
            final(self).inv(),
            r is Ok <==> old(self)@.ready_ok(sender),
            r is Ok ==> final(self)@ == old(self)@.ready(sender),
            r is Err ==> *final(self) == *old(self)
                && r->Err_0 == old(self)@.ready_err(sender),
    {
        let pi = match table_find(&self.players, sender) {
            None => {
                return Err(ReducerError::NotFound);
            },
            Some(pi) => pi,
        };
        if table_find(&self.player_locations, sender).is_some() {
            return Err(ReducerError::ConstraintViolation);
        }
        let pose = self.players[pi].pose;
        table_push(&mut self.player_locations, PlayerLocation { player_id: sender, pose });
        proof {
            assert(self@ =~~= old(self)@.ready(sender));
            lemma_ready_preserves_wf(old(self)@, sender);
        }
        Ok(())
    }

    /// Spawn a new ship of the default type owned by the caller, with its
    /// location at the client-supplied pose (the client computes the spawn
    /// point; the server does not validate it). The caller stays on foot and
    /// nobody pilots the new ship.
    pub fn player_spawn_ship(
        &mut self,
        sender: u64,
        x: i64,
        y: i64,
        z: i64,
        rot_x: i64,
        rot_y: i64,
        rot_z: i64,
        rot_w: i64,
    ) -> (r: Result<(), ReducerError>)
        requires
            old(self).inv(),
            old(self)@.next_ship_id < u64::MAX,
        ensures
            final(self).inv(),
            r is Ok,
            final(self)@ == old(self)@.spawn_ship(
                sender,
                Pose { x, y, z, rot_x, rot_y, rot_z, rot_w },
            ),
    {
        let pose = Pose { x, y, z, rot_x, rot_y, rot_z, rot_w };
        let id = self.next_ship_id;
        proof {
            assert(old(self)@.ships == table_view(self.ships@));
            assert(old(self)@.ship_locations == table_view(self.ship_locations@));
            assert(!old(self)@.ships.contains_key(id));
            assert(!old(self)@.ship_locations.contains_key(id));
        }
        table_push(&mut self.ships, Ship {
            id,
            ship_type_id: DEFAULT_SHIP_TYPE_ID,
            owner_id: sender,
        });
        table_push(&mut self.ship_locations, ShipLocation { ship_id: id, pose });
        self.next_ship_id = id + 1;
        proof {
            assert(self@ =~~= old(self)@.spawn_ship(sender, pose));
            lemma_spawn_preserves_wf(old(self)@, sender, pose);
        }
        Ok(())
    }

    /// Board a ship: the ship must exist (`NotFound` otherwise) and must not
    /// be piloted by somebody else (the pilot insert would collide with the
    /// primary key). Any pilot row the caller already had goes, the caller
    /// becomes the ship's pilot, and the caller's on-foot location is
    /// deleted — deleting a missing location aborts the whole transaction,
    /// so a caller that is not on foot changes nothing.
    pub fn player_enter_ship(&mut self, sender: u64, ship_id: u64) -> (r: Result<
        (),
        ReducerError,
    >)
        requires
            old(self).inv(),
        ensures
            final(self).inv(),
            r is Ok <==> old(self)@.enter_ship_ok(sender, ship_id),
            r is Ok ==> final(self)@ == old(self)@.enter_ship(sender, ship_id),
            r is Err ==> *final(self) == *old(self)
                && r->Err_0 == old(self)@.enter_ship_err(sender, ship_id),
    {
        if table_find(&self.ships, ship_id).is_none() {
            return Err(ReducerError::NotFound);
        }
        if let Some(oi) = table_find(&self.ship_pilots, ship_id) {
            if self.ship_pilots[oi].player_id != sender {
                return Err(ReducerError::ConstraintViolation);
            }
        }
        let li = match table_find(&self.player_locations, sender) {
            None => {
                return Err(ReducerError::NotFound);
            },
            Some(li) => li,
        };

        match find_pilot_by_player(&self.ship_pilots, sender) {
            Some(qi) => {
                let ghost sid = self.ship_pilots@[qi as int].ship_id;
                proof {
                    assert(old(self)@.ship_pilots == table_view(old(self).ship_pilots@));
                }
                table_remove(&mut self.ship_pilots, qi);
                proof {
                    lemma_pilots_remove_row(old(self)@, sender, sid);
                }
            },
            None => {
                proof {
                    lemma_pilots_minus_absent(table_view(old(self).ship_pilots@), sender);
                }
            },
        }
        proof {
            assert(table_view(self.ship_pilots@)
                =~= pilots_minus_player(old(self)@.ship_pilots, sender));
            assert(!table_view(self.ship_pilots@).contains_key(ship_id));
        }
        table_push(&mut self.ship_pilots, ShipPilot { ship_id, player_id: sender });
        table_remove(&mut self.player_locations, li);
        proof {
            assert(self@ =~~= old(self)@.enter_ship(sender, ship_id));
            lemma_enter_preserves_wf(old(self)@, sender, ship_id);
        }
        Ok(())
    }

    /// Climb out of the piloted ship: the pilot row goes and the caller
    /// lands on foot at the ship's current location lifted by ten units (a
    /// placeholder "safe position" heuristic). Fails with `NotPiloting` if
    /// the caller pilots nothing.
    pub fn player_leave_ship(&mut self, sender: u64) -> (r: Result<(), ReducerError>)
        requires
            old(self).inv(),
        ensures
            final(self).inv(),
            r is Ok <==> old(self)@.leave_ship_ok(sender),
            r is Ok ==> final(self)@ == old(self)@.leave_ship(sender),
            r is Err ==> *final(self) == *old(self)
                && r->Err_0 == old(self)@.leave_ship_err(sender),
    {
        let qi = match find_pilot_by_player(&self.ship_pilots, sender) {
            None => {
                return Err(ReducerError::NotPiloting);
            },
            Some(qi) => qi,
        };
        let sid = self.ship_pilots[qi].ship_id;
        proof {
            assert(old(self)@.ship_pilots == table_view(old(self).ship_pilots@));
            assert(old(self)@.ship_pilots.contains_key(sid));
            assert(old(self)@.ship_pilots[sid].player_id == sender);
            assert(old(self)@.is_piloting(sender));
            let cs = old(self)@.piloted_ship(sender);
            assert(old(self)@.ship_pilots.contains_key(cs)
                && old(self)@.ship_pilots[cs].player_id == sender);
            assert(cs == sid);
        }
        let li = match table_find(&self.ship_locations, sid) {
            None => {
                // Unreachable: under the invariant every ship, and so every
                // piloted ship, has a location row.
                return Err(ReducerError::NotFound);
            },
            Some(li) => li,
        };
        if table_find(&self.player_locations, sender).is_some() {
            return Err(ReducerError::ConstraintViolation);
        }
        let exit = self.ship_locations[li].pose.exit_pose();
        table_remove(&mut self.ship_pilots, qi);
        table_push(&mut self.player_locations, PlayerLocation { player_id: sender, pose: exit });
        proof {
            assert(self@ =~~= old(self)@.leave_ship(sender));
            lemma_leave_preserves_wf(old(self)@, sender);
        }
        Ok(())
    }

    /// Periodic position sync while piloting: full replace of the piloted
    /// ship's location with the client-supplied pose (the server trusts the
    /// client's transform). Fails with `NotPiloting` — recoverable, the
    /// client should stop sending — if the caller pilots nothing.
    pub fn player_move_ship(
        &mut self,
        sender: u64,
        x: i64,
        y: i64,
        z: i64,
        rot_x: i64,
        rot_y: i64,
        rot_z: i64,
        rot_w: i64,
    ) -> (r: Result<(), ReducerError>)
        requires
            old(self).inv(),
        ensures
            final(self).inv(),
            r is Ok <==> old(self)@.move_ship_ok(sender),
            r is Ok ==> final(self)@ == old(self)@.move_ship(
                sender,
                Pose { x, y, z, rot_x, rot_y, rot_z, rot_w },
            ),
            r is Err ==> *final(self) == *old(self) && r->Err_0 == ReducerError::NotPiloting,
    {
        let qi = match find_pilot_by_player(&self.ship_pilots, sender) {
            None => {
                return Err(ReducerError::NotPiloting);
            },
            Some(qi) => qi,
        };
        let sid = self.ship_pilots[qi].ship_id;
        proof {
            assert(old(self)@.ship_pilots == table_view(old(self).ship_pilots@));
            assert(old(self)@.ship_pilots.contains_key(sid));
            assert(old(self)@.ship_pilots[sid].player_id == sender);
            assert(old(self)@.is_piloting(sender));
            let cs = old(self)@.piloted_ship(sender);
            assert(old(self)@.ship_pilots.contains_key(cs)
                && old(self)@.ship_pilots[cs].player_id == sender);
            assert(cs == sid);
        }
        let li = match table_find(&self.ship_locations, sid) {
            None => {
                // Unreachable: under the invariant every ship, and so every
                // piloted ship, has a location row.
                return Err(ReducerError::NotPiloting);
            },
            Some(li) => li,
        };
        let row = ShipLocation::new(sid, x, y, z, rot_x, rot_y, rot_z, rot_w);
        table_remove(&mut self.ship_locations, li);
        table_push(&mut self.ship_locations, row);
        proof {
            assert(self@ =~~= old(self)@.move_ship(
                sender,
                Pose { x, y, z, rot_x, rot_y, rot_z, rot_w },
            ));
            lemma_move_preserves_wf(
                old(self)@,
                sender,
                Pose { x, y, z, rot_x, rot_y, rot_z, rot_w },
            );
        }
        Ok(())
    }
}

} // verus!
