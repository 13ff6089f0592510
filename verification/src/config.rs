//! The static split-rule configuration, supplied once at startup and
//! read-only for the lifetime of the run.

use vstd::prelude::*;

verus! {

/// Which pickups may split: a general switch plus per-world overrides for
/// two named worlds.
#[derive(Clone, Copy, PartialEq, Eq, Structural, Debug)]
pub struct SigilCollectionConfig {
    /// Pickups split at all.
    pub in_general: bool,
    /// Pickups split in the world `a6_world` names.
    pub in_a6: bool,
    /// Pickups split in the world `b4_world` names.
    pub in_b4: bool,
}

/// The rule table's switches.
#[derive(Clone, Copy, PartialEq, Eq, Structural, Debug)]
pub struct Config {
    /// Split when the player returns to the hub world.
    pub split_on_return_to_nexus: bool,
    /// Split when a tetromino puzzle is solved.
    pub split_on_tetromino_doors: bool,
    /// Reserved by the configuration format; no current rule reads it.
    pub split_on_item_unlocks: bool,
    /// Pickup-split switches.
    pub split_on_sigil_collection: SigilCollectionConfig,
}

} // verus!
