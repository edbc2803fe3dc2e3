//! Authoritative state store and reducer layer for a multiplayer space game
//! server.
//!
//! The library holds a small relational schema — players, player locations,
//! ships, ship locations, ship pilots, ship types, stations, asteroids and a
//! recurring station-rotation schedule — that is mutated exclusively through
//! atomic server-side procedures ("reducers"). Every reducer either commits
//! all of its table mutations or none of them: on an error the store is left
//! exactly as it was.
//!
//! Positions, rotations and angles are fixed-point integers (see `units`), so
//! that every rule of the store is stated and proved exactly. The network
//! transport that delivers row diffs to clients, and the host that invokes
//! the reducers, are outside collaborators: they hand the library plain
//! values (a connection identity, a timestamp, client-supplied poses) and
//! observe the tables it maintains.

pub mod laws;
pub mod player;
pub mod state;
pub mod store;
pub mod tables;
pub mod units;
pub mod world;
