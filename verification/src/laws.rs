//! The store's cross-cutting laws, stated and proved once over the abstract
//! state.
//!
//! The reducers' own contracts say exactly which transition of
//! `state::WorldView` each performs; the lemmas here say what those
//! transitions jointly maintain: the on-foot-xor-piloting discipline, the
//! uniqueness of pilot rows in both columns, the cascade on disconnect, and
//! the enter/leave round trip.

use vstd::prelude::*;

use crate::state::{
    lemma_disconnect_preserves_wf, lemma_enter_preserves_wf, pilots_minus_player, WorldView,
};
use crate::store::{lemma_table_view_index, table_view, Row};
use crate::tables::PlayerLocation;
use crate::units::Pose;
use crate::world::World;

verus! {

/// A ship has at most one pilot row: two pilot rows of the store with the
/// same ship id are the same row (the table's primary key is the ship id).
pub proof fn lemma_at_most_one_pilot_per_ship(w: World, i: int, j: int)
    requires
        w.inv(),
        0 <= i < w.ship_pilots@.len(),
        0 <= j < w.ship_pilots@.len(),
        w.ship_pilots@[i].ship_id == w.ship_pilots@[j].ship_id,
    ensures
        i == j,
{
    if i < j {
        assert(w.ship_pilots@[i].key() != w.ship_pilots@[j].key());
    }
    if j < i {
        assert(w.ship_pilots@[j].key() != w.ship_pilots@[i].key());
    }
}

/// A player pilots at most one ship: two pilot rows of the store with the
/// same pilot are the same row (the unique constraint on the pilot column).
pub proof fn lemma_at_most_one_ship_per_pilot(w: World, i: int, j: int)
    requires
        w.inv(),
        0 <= i < w.ship_pilots@.len(),
        0 <= j < w.ship_pilots@.len(),
        w.ship_pilots@[i].player_id == w.ship_pilots@[j].player_id,
    ensures
        i == j,
{
    lemma_table_view_index(w.ship_pilots@, i);
    lemma_table_view_index(w.ship_pilots@, j);
    assert(w@.ship_pilots == table_view(w.ship_pilots@));
    let s1 = w.ship_pilots@[i].ship_id;
    let s2 = w.ship_pilots@[j].ship_id;
    assert(w@.ship_pilots.contains_key(s1) && w@.ship_pilots.contains_key(s2));
    assert(s1 == s2);
    lemma_at_most_one_pilot_per_ship(w, i, j);
}

/// Deleting a player cascades: afterwards the player has no on-foot
/// location, owns no ship, none of its former ships keeps a location or a
/// pilot row — and no orphan remains: every surviving location and pilot
/// row still references a surviving ship.
pub proof fn lemma_disconnect_cascades(v: WorldView, p: u64)
    requires
        v.wf(),
    ensures
        ({
            let w = v.disconnect(p);
            &&& !w.players.contains_key(p)
            &&& !w.player_locations.contains_key(p)
            &&& forall|sid: u64|
                v.ships.contains_key(sid) && (#[trigger] v.ships[sid]).owner_id == p
                    ==> !w.ships.contains_key(sid) && !w.ship_locations.contains_key(sid)
                        && !w.ship_pilots.contains_key(sid)
            &&& forall|sid: u64| #[trigger] w.ship_locations.contains_key(sid)
                ==> w.ships.contains_key(sid)
            &&& forall|sid: u64| #[trigger] w.ship_pilots.contains_key(sid)
                ==> w.ships.contains_key(sid)
        }),
{
    lemma_disconnect_preserves_wf(v, p);
    let w = v.disconnect(p);
    assert forall|sid: u64|
        v.ships.contains_key(sid) && (#[trigger] v.ships[sid]).owner_id == p
            implies !w.ships.contains_key(sid) && !w.ship_locations.contains_key(sid)
                && !w.ship_pilots.contains_key(sid) by {
        assert(v.owned_ships(p).contains(sid));
    }
}

// --- the on-foot-xor-piloting discipline ---
//
// A player is on foot (has a player location) or piloting (appears in a
// pilot row), never both. It holds of the freshly installed store and every
// transition below keeps it. The one transition missing from the list is
// `ready`: it re-establishes the discipline only for a caller that is not
// piloting, which is why its lemma carries that hypothesis — the store
// itself does not guard `player_ready` against a piloting caller.

/// The discipline holds of the empty store.
pub proof fn lemma_initial_on_foot_xor_piloting()
    ensures
        WorldView::initial().on_foot_xor_piloting(),
{
}

pub proof fn lemma_connect_preserves_xor(v: WorldView, sender: u64)
    requires
        v.on_foot_xor_piloting(),
    ensures
        v.connect(sender).on_foot_xor_piloting(),
{
    let w = v.connect(sender);
    assert forall|p: u64| #[trigger] w.player_locations.contains_key(p)
        implies !w.is_piloting(p) by {
        if w.is_piloting(p) {
            let s = choose|s: u64|
                #[trigger] w.ship_pilots.contains_key(s) && w.ship_pilots[s].player_id == p;
            assert(v.ship_pilots.contains_key(s) && v.ship_pilots[s].player_id == p);
            assert(v.is_piloting(p));
        }
    }
}

pub proof fn lemma_disconnect_preserves_xor(v: WorldView, sender: u64)
    requires
        v.on_foot_xor_piloting(),
    ensures
        v.disconnect(sender).on_foot_xor_piloting(),
{
    let w = v.disconnect(sender);
    assert forall|p: u64| #[trigger] w.player_locations.contains_key(p)
        implies !w.is_piloting(p) by {
        if w.is_piloting(p) {
            let s = choose|s: u64|
                #[trigger] w.ship_pilots.contains_key(s) && w.ship_pilots[s].player_id == p;
            assert(v.ship_pilots.contains_key(s) && v.ship_pilots[s].player_id == p);
            assert(v.is_piloting(p));
            assert(v.player_locations.contains_key(p));
        }
    }
}

/// `ready` keeps the discipline for a caller that is not piloting. Called
/// while piloting it would create the forbidden second row; the store does
/// not guard against that, so no stronger statement holds.
pub proof fn lemma_ready_preserves_xor(v: WorldView, sender: u64)
    requires
        v.on_foot_xor_piloting(),
        v.ready_ok(sender),
        !v.is_piloting(sender),
    ensures
        v.ready(sender).on_foot_xor_piloting(),
{
    let w = v.ready(sender);
    assert forall|p: u64| #[trigger] w.player_locations.contains_key(p)
        implies !w.is_piloting(p) by {
        if w.is_piloting(p) {
            let s = choose|s: u64|
                #[trigger] w.ship_pilots.contains_key(s) && w.ship_pilots[s].player_id == p;
            assert(v.ship_pilots.contains_key(s) && v.ship_pilots[s].player_id == p);
            assert(v.is_piloting(p));
            assert(p != sender);
            assert(v.player_locations.contains_key(p));
        }
    }
}

pub proof fn lemma_spawn_preserves_xor(v: WorldView, sender: u64, pose: Pose)
    requires
        v.on_foot_xor_piloting(),
    ensures
        v.spawn_ship(sender, pose).on_foot_xor_piloting(),
{
    let w = v.spawn_ship(sender, pose);
    assert forall|p: u64| #[trigger] w.player_locations.contains_key(p)
        implies !w.is_piloting(p) by {
        if w.is_piloting(p) {
            let s = choose|s: u64|
                #[trigger] w.ship_pilots.contains_key(s) && w.ship_pilots[s].player_id == p;
            assert(v.ship_pilots.contains_key(s) && v.ship_pilots[s].player_id == p);
            assert(v.is_piloting(p));
        }
    }
}

pub proof fn lemma_enter_preserves_xor(v: WorldView, sender: u64, ship_id: u64)
    requires
        v.on_foot_xor_piloting(),
        v.enter_ship_ok(sender, ship_id),
    ensures
        v.enter_ship(sender, ship_id).on_foot_xor_piloting(),
{
    let w = v.enter_ship(sender, ship_id);
    assert forall|p: u64| #[trigger] w.player_locations.contains_key(p)
        implies !w.is_piloting(p) by {
        assert(p != sender);
        assert(v.player_locations.contains_key(p));
        if w.is_piloting(p) {
            let s = choose|s: u64|
                #[trigger] w.ship_pilots.contains_key(s) && w.ship_pilots[s].player_id == p;
            assert(s != ship_id);
            assert(v.ship_pilots.contains_key(s) && v.ship_pilots[s].player_id == p);
            assert(v.is_piloting(p));
        }
    }
}

pub proof fn lemma_leave_preserves_xor(v: WorldView, sender: u64)
    requires
        v.wf(),
        v.on_foot_xor_piloting(),
        v.leave_ship_ok(sender),
    ensures
        v.leave_ship(sender).on_foot_xor_piloting(),
{
    let w = v.leave_ship(sender);
    let sid = v.piloted_ship(sender);
    assert(v.ship_pilots.contains_key(sid) && v.ship_pilots[sid].player_id == sender);
    assert forall|p: u64| #[trigger] w.player_locations.contains_key(p)
        implies !w.is_piloting(p) by {
        if w.is_piloting(p) {
            let s = choose|s: u64|
                #[trigger] w.ship_pilots.contains_key(s) && w.ship_pilots[s].player_id == p;
            assert(s != sid);
            assert(v.ship_pilots.contains_key(s) && v.ship_pilots[s].player_id == p);
            if p == sender {
                // the pilot column is unique, so sender's one row was `sid`
                assert(s == sid);
            } else {
                assert(v.player_locations.contains_key(p));
                assert(v.is_piloting(p));
            }
        }
    }
}

pub proof fn lemma_move_preserves_xor(v: WorldView, sender: u64, pose: Pose)
    requires
        v.on_foot_xor_piloting(),
    ensures
        v.move_ship(sender, pose).on_foot_xor_piloting(),
{
    let w = v.move_ship(sender, pose);
    assert forall|p: u64| #[trigger] w.player_locations.contains_key(p)
        implies !w.is_piloting(p) by {
        if w.is_piloting(p) {
            let s = choose|s: u64|
                #[trigger] w.ship_pilots.contains_key(s) && w.ship_pilots[s].player_id == p;
            assert(v.ship_pilots.contains_key(s) && v.ship_pilots[s].player_id == p);
            assert(v.is_piloting(p));
        }
    }
}

pub proof fn lemma_tick_preserves_xor(v: WorldView, interval_ms: u64, now_ms: u64)
    requires
        v.on_foot_xor_piloting(),
    ensures
        v.tick_stations(interval_ms, now_ms).on_foot_xor_piloting(),
{
    let w = v.tick_stations(interval_ms, now_ms);
    assert forall|p: u64| #[trigger] w.player_locations.contains_key(p)
        implies !w.is_piloting(p) by {
        if w.is_piloting(p) {
            let s = choose|s: u64|
                #[trigger] w.ship_pilots.contains_key(s) && w.ship_pilots[s].player_id == p;
            assert(v.ship_pilots.contains_key(s) && v.ship_pilots[s].player_id == p);
            assert(v.is_piloting(p));
        }
    }
}

/// The enter/leave round trip: boarding a ship and immediately climbing out
/// again puts the player back on foot, with a location derived from the
/// ship's unchanged location lifted by the exit offset, and leaves every
/// other table exactly as it was.
pub proof fn lemma_enter_leave_round_trip(v: WorldView, p: u64, ship_id: u64)
    requires
        v.wf(),
        v.on_foot_xor_piloting(),
        v.enter_ship_ok(p, ship_id),
    ensures
        ({
            let v1 = v.enter_ship(p, ship_id);
            let v2 = v1.leave_ship(p);
            &&& v1.leave_ship_ok(p)
            &&& v2.player_locations =~= v.player_locations.insert(
                p,
                PlayerLocation {
                    player_id: p,
                    pose: v.ship_locations[ship_id].pose.spec_exit(),
                },
            )
            &&& v2.ship_pilots =~= v.ship_pilots
            &&& v2.ships == v.ships
            &&& v2.ship_locations == v.ship_locations
            &&& v2.players == v.players
            &&& v2.stations == v.stations
            &&& v2.asteroids == v.asteroids
        }),
{
    let v1 = v.enter_ship(p, ship_id);
    let v2 = v1.leave_ship(p);
    lemma_enter_preserves_wf(v, p, ship_id);

    // On foot when entering, so (by the discipline) not piloting: the
    // caller had no pilot row, and the boarded ship had no pilot at all.
    assert(!v.is_piloting(p));
    assert(!v.ship_pilots.contains_key(ship_id)) by {
        if v.ship_pilots.contains_key(ship_id) {
            assert(v.ship_pilots[ship_id].player_id == p);
            assert(v.is_piloting(p));
        }
    }
    assert(pilots_minus_player(v.ship_pilots, p) =~= v.ship_pilots) by {
        assert forall|s: u64| #[trigger] v.ship_pilots.contains_key(s)
            implies v.ship_pilots[s].player_id != p by {
            if v.ship_pilots[s].player_id == p {
                assert(v.is_piloting(p));
            }
        }
    }
    assert(v1.ship_pilots =~= v.ship_pilots.insert(ship_id, crate::tables::ShipPilot {
        ship_id,
        player_id: p,
    }));

    // Right after entering, the caller pilots exactly the boarded ship.
    assert(v1.ship_pilots.contains_key(ship_id) && v1.ship_pilots[ship_id].player_id == p);
    assert(v1.is_piloting(p));
    assert(!v1.player_locations.contains_key(p));
    let sid = v1.piloted_ship(p);
    assert(v1.ship_pilots.contains_key(sid) && v1.ship_pilots[sid].player_id == p);
    assert(sid == ship_id);

    assert(v2.ship_pilots =~= v.ship_pilots);
    assert(v1.ship_locations == v.ship_locations);
    assert(v2.player_locations =~= v.player_locations.insert(p, PlayerLocation {
        player_id: p,
        pose: v.ship_locations[ship_id].pose.spec_exit(),
    }));
}

} // verus!
