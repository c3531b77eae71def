//! Movement modifier tables.
//!
//! Four independent tables scale a unit's baseline movement speed: an
//! upgrade-granted multiplier, an upgrade-granted multiplier that applies
//! only while the unit is off creep, a multiplier active while the unit is
//! on creep, and buff-granted multipliers. All multipliers are fixed-point
//! (see [`crate::FIXED_ONE`]). Each table is an independent fact;
//! the registry records no rule for composing several active sources.

use crate::ids::BuffId;
use crate::ids::ClientVariant;
use crate::ids::UnitTypeId;
use crate::ids::UpgradeId;
use crate::registry::Registry;
use vstd::prelude::*;

verus! {

/// The speed-upgrade table: the upgrade that raises `unit`'s movement
/// speed and the fixed-point multiplier it grants. The medivac and
/// void-ray entries exist only in the full-feature client build.
pub open spec fn speed_upgrade_spec(variant: ClientVariant, unit: UnitTypeId) -> Option<(UpgradeId, u32)> {
    match unit {
        UnitTypeId::Banshee => Some((UpgradeId::BansheeSpeed, 13_636_000u32)),
        UnitTypeId::Zealot => Some((UpgradeId::Charge, 15_000_000u32)),
        UnitTypeId::Observer => Some((UpgradeId::ObserverGraviticBooster, 20_000_000u32)),
        UnitTypeId::WarpPrism => Some((UpgradeId::GraviticDrive, 13_000_000u32)),
        UnitTypeId::Overlord => Some((UpgradeId::Overlordspeed, 29_150_000u32)),
        UnitTypeId::Overseer => Some((UpgradeId::Overlordspeed, 18_015_000u32)),
        UnitTypeId::Zergling => Some((UpgradeId::Zerglingmovementspeed, 16_000_000u32)),
        UnitTypeId::Baneling => Some((UpgradeId::CentrificalHooks, 11_800_000u32)),
        UnitTypeId::Roach => Some((UpgradeId::GlialReconstitution, 13_333_334u32)),
        UnitTypeId::LurkerMP => Some((UpgradeId::DiggingClaws, 11_000_000u32)),
        UnitTypeId::Medivac => if variant is Full {
            Some((UpgradeId::MedivacRapidDeployment, 11_800_000u32))
        } else {
            None
        },
        UnitTypeId::VoidRay => if variant is Full {
            Some((UpgradeId::VoidRaySpeedUpgrade, 13_280_000u32))
        } else {
            None
        },
        _ => None,
    }
}

/// The off-creep speed-upgrade table: upgrades whose speed multiplier
/// applies only while the unit is not on creep.
pub open spec fn off_creep_speed_upgrade_spec(unit: UnitTypeId) -> Option<(UpgradeId, u32)> {
    match unit {
        UnitTypeId::Hydralisk => Some((UpgradeId::EvolveMuscularAugments, 12_500_000u32)),
        UnitTypeId::Ultralisk => Some((UpgradeId::AnabolicSynthesis, 12_000_000u32)),
        _ => None,
    }
}

/// The on-creep table: the fixed-point multiplier applied to `unit`'s
/// speed while it is on creep.
pub open spec fn creep_speed_multiplier_spec(unit: UnitTypeId) -> Option<u32> {
    match unit {
        UnitTypeId::Queen => Some(26_700_000u32),
        UnitTypeId::Zergling => Some(13_000_000u32),
        UnitTypeId::Baneling => Some(13_000_000u32),
        UnitTypeId::Roach => Some(13_000_000u32),
        UnitTypeId::Ravager => Some(13_000_000u32),
        UnitTypeId::Hydralisk => Some(13_000_000u32),
        UnitTypeId::LurkerMP => Some(13_000_000u32),
        UnitTypeId::Ultralisk => Some(13_000_000u32),
        UnitTypeId::Infestor => Some(13_000_000u32),
        UnitTypeId::InfestorTerran => Some(13_000_000u32),
        UnitTypeId::SwarmHostMP => Some(13_000_000u32),
        UnitTypeId::LocustMP => Some(14_000_000u32),
        UnitTypeId::SpineCrawler => Some(25_000_000u32),
        UnitTypeId::SporeCrawler => Some(25_000_000u32),
        _ => None,
    }
}

/// The speed-buff table: the fixed-point multiplier a buff applies to the
/// bearer's movement speed. The charge buff is stronger in the
/// full-feature build, and the flying inhibitor-zone and the two
/// acceleration-zone buffs exist only there.
pub open spec fn speed_buff_multiplier_spec(variant: ClientVariant, buff: BuffId) -> Option<u32> {
    match buff {
        BuffId::Stimpack => Some(15_000_000u32),
        BuffId::StimpackMarauder => Some(15_000_000u32),
        BuffId::DutchMarauderSlow => Some(5_000_000u32),
        BuffId::TimeWarpProduction => Some(5_000_000u32),
        BuffId::FungalGrowth => Some(2_500_000u32),
        BuffId::InhibitorZoneTemporalField => Some(6_500_000u32),
        BuffId::ChargeUp => if variant is Full {
            Some(28_000_000u32)
        } else {
            Some(22_000_000u32)
        },
        BuffId::InhibitorZoneFlyingTemporalField => if variant is Full {
            Some(6_500_000u32)
        } else {
            None
        },
        BuffId::AccelerationZoneTemporalField => if variant is Full {
            Some(13_500_000u32)
        } else {
            None
        },
        BuffId::AccelerationZoneFlyingTemporalField => if variant is Full {
            Some(13_500_000u32)
        } else {
            None
        },
        _ => None,
    }
}

impl Registry {
    /// The upgrade that raises `unit`'s movement speed, with its
    /// fixed-point multiplier.
    pub fn speed_upgrade(&self, unit: UnitTypeId) -> (r: Option<(UpgradeId, u32)>)
        ensures
            r == speed_upgrade_spec(self.variant, unit),
    {
        match unit {
            UnitTypeId::Banshee => Some((UpgradeId::BansheeSpeed, 13_636_000)),
            UnitTypeId::Zealot => Some((UpgradeId::Charge, 15_000_000)),
            UnitTypeId::Observer => Some((UpgradeId::ObserverGraviticBooster, 20_000_000)),
            UnitTypeId::WarpPrism => Some((UpgradeId::GraviticDrive, 13_000_000)),
            UnitTypeId::Overlord => Some((UpgradeId::Overlordspeed, 29_150_000)),
            UnitTypeId::Overseer => Some((UpgradeId::Overlordspeed, 18_015_000)),
            UnitTypeId::Zergling => Some((UpgradeId::Zerglingmovementspeed, 16_000_000)),
            UnitTypeId::Baneling => Some((UpgradeId::CentrificalHooks, 11_800_000)),
            UnitTypeId::Roach => Some((UpgradeId::GlialReconstitution, 13_333_334)),
            UnitTypeId::LurkerMP => Some((UpgradeId::DiggingClaws, 11_000_000)),
            UnitTypeId::Medivac => match self.variant {
                ClientVariant::Full => Some((UpgradeId::MedivacRapidDeployment, 11_800_000)),
                ClientVariant::Reduced => None,
            },
            UnitTypeId::VoidRay => match self.variant {
                ClientVariant::Full => Some((UpgradeId::VoidRaySpeedUpgrade, 13_280_000)),
                ClientVariant::Reduced => None,
            },
            _ => None,
        }
    }

    /// The upgrade whose speed multiplier applies to `unit` only off
    /// creep, with its fixed-point multiplier.
    pub fn off_creep_speed_upgrade(&self, unit: UnitTypeId) -> (r: Option<(UpgradeId, u32)>)
        ensures
            r == off_creep_speed_upgrade_spec(unit),
    {
        match unit {
            UnitTypeId::Hydralisk => Some((UpgradeId::EvolveMuscularAugments, 12_500_000)),
            UnitTypeId::Ultralisk => Some((UpgradeId::AnabolicSynthesis, 12_000_000)),
            _ => None,
        }
    }

    /// The fixed-point multiplier applied to `unit`'s speed on creep.
    pub fn creep_speed_multiplier(&self, unit: UnitTypeId) -> (r: Option<u32>)
        ensures
            r == creep_speed_multiplier_spec(unit),
    {
        match unit {
            UnitTypeId::Queen => Some(26_700_000),
            UnitTypeId::Zergling => Some(13_000_000),
            UnitTypeId::Baneling => Some(13_000_000),
            UnitTypeId::Roach => Some(13_000_000),
            UnitTypeId::Ravager => Some(13_000_000),
            UnitTypeId::Hydralisk => Some(13_000_000),
            UnitTypeId::LurkerMP => Some(13_000_000),
            UnitTypeId::Ultralisk => Some(13_000_000),
            UnitTypeId::Infestor => Some(13_000_000),
            UnitTypeId::InfestorTerran => Some(13_000_000),
            UnitTypeId::SwarmHostMP => Some(13_000_000),
            UnitTypeId::LocustMP => Some(14_000_000),
            UnitTypeId::SpineCrawler => Some(25_000_000),
            UnitTypeId::SporeCrawler => Some(25_000_000),
            _ => None,
        }
    }

    /// The fixed-point multiplier `buff` applies to the bearer's movement
    /// speed.
    pub fn speed_buff_multiplier(&self, buff: BuffId) -> (r: Option<u32>)
        ensures
            r == speed_buff_multiplier_spec(self.variant, buff),
    {
        match buff {
            BuffId::Stimpack => Some(15_000_000),
            BuffId::StimpackMarauder => Some(15_000_000),
            BuffId::DutchMarauderSlow => Some(5_000_000),
            BuffId::TimeWarpProduction => Some(5_000_000),
            BuffId::FungalGrowth => Some(2_500_000),
            BuffId::InhibitorZoneTemporalField => Some(6_500_000),
            BuffId::ChargeUp => match self.variant {
                ClientVariant::Full => Some(28_000_000),
                ClientVariant::Reduced => Some(22_000_000),
            },
            BuffId::InhibitorZoneFlyingTemporalField => match self.variant {
                ClientVariant::Full => Some(6_500_000),
                ClientVariant::Reduced => None,
            },
            BuffId::AccelerationZoneTemporalField => match self.variant {
                ClientVariant::Full => Some(13_500_000),
                ClientVariant::Reduced => None,
            },
            BuffId::AccelerationZoneFlyingTemporalField => match self.variant {
                ClientVariant::Full => Some(13_500_000),
                ClientVariant::Reduced => None,
            },
            _ => None,
        }
    }
}

} // verus!
