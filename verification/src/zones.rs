//! Client-variant facts: anti-armor buff naming and the inhibitor-zone
//! family.
//!
//! The two game-client builds name the anti-armor debuff differently and
//! disagree on whether flying inhibitor zones exist at all. The registry
//! selects one build's facts at construction and never mixes the two;
//! [`lemma_variant_isolation`] states exactly how the builds differ on the
//! inhibitor-zone family.

use crate::ids::BuffId;
use crate::ids::ClientVariant;
use crate::ids::UnitTypeId;
use crate::registry::Registry;
use vstd::prelude::*;

verus! {

/// The buff borne by units hit by an anti-armor missile; the two client
/// builds name it differently.
pub open spec fn anti_armor_buff_spec(variant: ClientVariant) -> BuffId {
    if variant is Full {
        BuffId::RavenShredderMissileArmorReductionUISubtruct
    } else {
        BuffId::RavenShredderMissileArmorReduction
    }
}

/// The inhibitor-zone identifiers of a client build: the full-feature
/// build also has the three flying zones.
pub open spec fn inhibitor_ids_spec(variant: ClientVariant) -> Seq<UnitTypeId> {
    if variant is Full {
        seq![
            UnitTypeId::InhibitorZoneSmall,
            UnitTypeId::InhibitorZoneMedium,
            UnitTypeId::InhibitorZoneLarge,
            UnitTypeId::InhibitorZoneFlyingSmall,
            UnitTypeId::InhibitorZoneFlyingMedium,
            UnitTypeId::InhibitorZoneFlyingLarge,
        ]
    } else {
        seq![
            UnitTypeId::InhibitorZoneSmall,
            UnitTypeId::InhibitorZoneMedium,
            UnitTypeId::InhibitorZoneLarge,
        ]
    }
}

/// The radius of an inhibitor zone, fixed-point; flying zones have a
/// radius only in the full-feature build.
pub open spec fn inhibitor_zone_radius_spec(variant: ClientVariant, unit: UnitTypeId) -> Option<u32> {
    match unit {
        UnitTypeId::InhibitorZoneSmall => Some(40_000_000u32),
        UnitTypeId::InhibitorZoneMedium => Some(50_000_000u32),
        UnitTypeId::InhibitorZoneLarge => Some(60_000_000u32),
        UnitTypeId::InhibitorZoneFlyingSmall => if variant is Full {
            Some(40_000_000u32)
        } else {
            None
        },
        UnitTypeId::InhibitorZoneFlyingMedium => if variant is Full {
            Some(50_000_000u32)
        } else {
            None
        },
        UnitTypeId::InhibitorZoneFlyingLarge => if variant is Full {
            Some(60_000_000u32)
        } else {
            None
        },
        _ => None,
    }
}

impl Registry {
    /// The buff borne by units hit by an anti-armor missile in this
    /// client build.
    pub fn anti_armor_buff(&self) -> (b: BuffId)
        ensures
            b == anti_armor_buff_spec(self.variant),
    {
        match self.variant {
            ClientVariant::Full => BuffId::RavenShredderMissileArmorReductionUISubtruct,
            ClientVariant::Reduced => BuffId::RavenShredderMissileArmorReduction,
        }
    }

    /// Every inhibitor-zone identifier of this client build.
    pub fn inhibitor_ids(&self) -> (r: Vec<UnitTypeId>)
        ensures
            r@ =~= inhibitor_ids_spec(self.variant),
    {
        match self.variant {
            ClientVariant::Full => vec![
                UnitTypeId::InhibitorZoneSmall,
                UnitTypeId::InhibitorZoneMedium,
                UnitTypeId::InhibitorZoneLarge,
                UnitTypeId::InhibitorZoneFlyingSmall,
                UnitTypeId::InhibitorZoneFlyingMedium,
                UnitTypeId::InhibitorZoneFlyingLarge,
            ],
            ClientVariant::Reduced => vec![
                UnitTypeId::InhibitorZoneSmall,
                UnitTypeId::InhibitorZoneMedium,
                UnitTypeId::InhibitorZoneLarge,
            ],
        }
    }

    /// The radius of inhibitor zone `unit` in this client build,
    /// fixed-point, or `None` when the zone does not exist in it.
    pub fn inhibitor_zone_radius(&self, unit: UnitTypeId) -> (r: Option<u32>)
        ensures
            r == inhibitor_zone_radius_spec(self.variant, unit),
    {
        match unit {
            UnitTypeId::InhibitorZoneSmall => Some(40_000_000),
            UnitTypeId::InhibitorZoneMedium => Some(50_000_000),
            UnitTypeId::InhibitorZoneLarge => Some(60_000_000),
            UnitTypeId::InhibitorZoneFlyingSmall => match self.variant {
                ClientVariant::Full => Some(40_000_000),
                ClientVariant::Reduced => None,
            },
            UnitTypeId::InhibitorZoneFlyingMedium => match self.variant {
                ClientVariant::Full => Some(50_000_000),
                ClientVariant::Reduced => None,
            },
            UnitTypeId::InhibitorZoneFlyingLarge => match self.variant {
                ClientVariant::Full => Some(60_000_000),
                ClientVariant::Reduced => None,
            },
            _ => None,
        }
    }
}

/// Variant isolation on the inhibitor-zone family: the reduced-feature
/// build records no flying inhibitor-zone identifier and no flying-zone
/// radius, while the full-feature build records all three flying zones,
/// each with the same radius as its non-flying counterpart of matching
/// size.
pub proof fn lemma_variant_isolation()
    ensures
        !inhibitor_ids_spec(ClientVariant::Reduced).contains(UnitTypeId::InhibitorZoneFlyingSmall),
        !inhibitor_ids_spec(ClientVariant::Reduced).contains(UnitTypeId::InhibitorZoneFlyingMedium),
        !inhibitor_ids_spec(ClientVariant::Reduced).contains(UnitTypeId::InhibitorZoneFlyingLarge),
        inhibitor_zone_radius_spec(ClientVariant::Reduced, UnitTypeId::InhibitorZoneFlyingSmall) is None,
        inhibitor_zone_radius_spec(ClientVariant::Reduced, UnitTypeId::InhibitorZoneFlyingMedium) is None,
        inhibitor_zone_radius_spec(ClientVariant::Reduced, UnitTypeId::InhibitorZoneFlyingLarge) is None,
        inhibitor_ids_spec(ClientVariant::Full).contains(UnitTypeId::InhibitorZoneFlyingSmall),
        inhibitor_ids_spec(ClientVariant::Full).contains(UnitTypeId::InhibitorZoneFlyingMedium),
        inhibitor_ids_spec(ClientVariant::Full).contains(UnitTypeId::InhibitorZoneFlyingLarge),
        inhibitor_zone_radius_spec(ClientVariant::Full, UnitTypeId::InhibitorZoneFlyingSmall) is Some,
        inhibitor_zone_radius_spec(ClientVariant::Full, UnitTypeId::InhibitorZoneFlyingSmall)
            == inhibitor_zone_radius_spec(ClientVariant::Full, UnitTypeId::InhibitorZoneSmall),
        inhibitor_zone_radius_spec(ClientVariant::Full, UnitTypeId::InhibitorZoneFlyingMedium) is Some,
        inhibitor_zone_radius_spec(ClientVariant::Full, UnitTypeId::InhibitorZoneFlyingMedium)
            == inhibitor_zone_radius_spec(ClientVariant::Full, UnitTypeId::InhibitorZoneMedium),
        inhibitor_zone_radius_spec(ClientVariant::Full, UnitTypeId::InhibitorZoneFlyingLarge) is Some,
        inhibitor_zone_radius_spec(ClientVariant::Full, UnitTypeId::InhibitorZoneFlyingLarge)
            == inhibitor_zone_radius_spec(ClientVariant::Full, UnitTypeId::InhibitorZoneLarge),
{
    let full = inhibitor_ids_spec(ClientVariant::Full);
    assert(full[3] == UnitTypeId::InhibitorZoneFlyingSmall);
    assert(full[4] == UnitTypeId::InhibitorZoneFlyingMedium);
    assert(full[5] == UnitTypeId::InhibitorZoneFlyingLarge);
    let reduced = inhibitor_ids_spec(ClientVariant::Reduced);
    assert(reduced.len() == 3);
    assert(forall|i: int| 0 <= i < 3 ==> reduced[i] != UnitTypeId::InhibitorZoneFlyingSmall);
    assert(forall|i: int| 0 <= i < 3 ==> reduced[i] != UnitTypeId::InhibitorZoneFlyingMedium);
    assert(forall|i: int| 0 <= i < 3 ==> reduced[i] != UnitTypeId::InhibitorZoneFlyingLarge);
}

} // verus!
