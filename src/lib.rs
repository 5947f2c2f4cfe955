//! Verified core of a tile-based haunted-house game.
//!
//! The lighting modules hold the discrete part of the dynamic light pass:
//! `grid` (the board snapshot and its indexing), `sources` (active light
//! sources, baked contributions, wave-edge seeds), `propagation` (where a
//! light packet may spread and through which transparency rule) and `stairs`
//! (links between floors). `collections` states what the pass relies on from
//! `bevy_platform`'s hash collections. The other modules hold game rules:
//! tile connectivity for temperature diffusion, radio hint priorities,
//! the repellent craft limit, truck tabs and gameplay settings.

pub mod collections;
pub mod connectivity;
pub mod grid;
pub mod propagation;
pub mod repellent;
pub mod settings;
pub mod sources;
pub mod stairs;
pub mod truck_ui;
pub mod walkie;
