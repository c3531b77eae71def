//! The registry handle.
//!
//! A [`Registry`] fixes, once, which game-client build its answers describe;
//! every query is a method on it. The tables themselves are compiled-in
//! literal data, written down as specification functions in the table
//! modules, and each query is proved to return exactly what its
//! specification function says. Because the data's structural invariants
//! are proved statically as lemmas, construction cannot encounter
//! inconsistent data and therefore cannot fail.

use crate::ids::BuffId;
use crate::ids::ClientVariant;
use crate::ids::UnitTypeId;
use crate::ids::UpgradeId;
use crate::movement::speed_buff_multiplier_spec;
use crate::movement::speed_upgrade_spec;
use crate::tech::researcher_spec;
use crate::zones::anti_armor_buff_spec;
use crate::zones::inhibitor_ids_spec;
use crate::zones::inhibitor_zone_radius_spec;
use vstd::prelude::*;

verus! {

/// An immutable handle over every lookup table, specialised to one
/// game-client build.
pub struct Registry {
    /// Which client build this registry describes; fixed at construction.
    pub variant: ClientVariant,
}

impl Registry {
    /// Builds the registry for the given client build. The variant choice
    /// is the only initialization-time input; no table is ever mixed
    /// between the two builds.
    pub fn new(variant: ClientVariant) -> (r: Registry)
        ensures
            r.variant == variant,
    {
        Registry { variant }
    }
}

/// Initialization idempotence: two registries created with the same
/// variant flag answer every query identically. A query's answer is its
/// table's specification function applied to the registry's variant and
/// the key, so it suffices that the variant-dependent tables agree; every
/// other table is a function of the key alone.
pub proof fn lemma_same_variant_same_answers(a: Registry, b: Registry)
    requires
        a.variant == b.variant,
    ensures
        forall|up: UpgradeId| researcher_spec(a.variant, up) == researcher_spec(b.variant, up),
        forall|u: UnitTypeId| speed_upgrade_spec(a.variant, u) == speed_upgrade_spec(b.variant, u),
        forall|bf: BuffId|
            speed_buff_multiplier_spec(a.variant, bf) == speed_buff_multiplier_spec(b.variant, bf),
        forall|u: UnitTypeId|
            inhibitor_zone_radius_spec(a.variant, u) == inhibitor_zone_radius_spec(b.variant, u),
        inhibitor_ids_spec(a.variant) == inhibitor_ids_spec(b.variant),
        anti_armor_buff_spec(a.variant) == anti_armor_buff_spec(b.variant),
{
}

} // verus!
