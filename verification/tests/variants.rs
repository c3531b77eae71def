//! Behaviour that differs between the two client builds, and idempotence
//! of initialization.

use sc2_registry::BuffId;
use sc2_registry::ClientVariant;
use sc2_registry::Registry;
use sc2_registry::TargetType;
use sc2_registry::UnitTypeId;
use sc2_registry::UpgradeId;

const FLYING_ZONES: [UnitTypeId; 3] = [
    UnitTypeId::InhibitorZoneFlyingSmall,
    UnitTypeId::InhibitorZoneFlyingMedium,
    UnitTypeId::InhibitorZoneFlyingLarge,
];

const GROUND_ZONES: [UnitTypeId; 3] = [
    UnitTypeId::InhibitorZoneSmall,
    UnitTypeId::InhibitorZoneMedium,
    UnitTypeId::InhibitorZoneLarge,
];

#[test]
fn reduced_build_has_no_flying_inhibitor_zones() {
    let r = Registry::new(ClientVariant::Reduced);
    let ids = r.inhibitor_ids();
    assert_eq!(ids, GROUND_ZONES.to_vec());
    for zone in FLYING_ZONES {
        assert!(!ids.contains(&zone));
        assert_eq!(r.inhibitor_zone_radius(zone), None);
    }
}

#[test]
fn full_build_flying_zones_match_ground_radii() {
    let r = Registry::new(ClientVariant::Full);
    let ids = r.inhibitor_ids();
    assert_eq!(ids.len(), 6);
    for (flying, ground) in FLYING_ZONES.iter().zip(GROUND_ZONES.iter()) {
        assert!(ids.contains(flying));
        let radius = r.inhibitor_zone_radius(*flying);
        assert!(radius.is_some());
        assert_eq!(radius, r.inhibitor_zone_radius(*ground));
    }
}

#[test]
fn inhibitor_zone_radii_exact_values() {
    let r = Registry::new(ClientVariant::Full);
    assert_eq!(
        r.inhibitor_zone_radius(UnitTypeId::InhibitorZoneSmall),
        Some(40_000_000)
    );
    assert_eq!(
        r.inhibitor_zone_radius(UnitTypeId::InhibitorZoneMedium),
        Some(50_000_000)
    );
    assert_eq!(
        r.inhibitor_zone_radius(UnitTypeId::InhibitorZoneLarge),
        Some(60_000_000)
    );
    assert_eq!(r.inhibitor_zone_radius(UnitTypeId::Marine), None);
}

#[test]
fn anti_armor_buff_differs_by_build() {
    assert_eq!(
        Registry::new(ClientVariant::Full).anti_armor_buff(),
        BuffId::RavenShredderMissileArmorReductionUISubtruct
    );
    assert_eq!(
        Registry::new(ClientVariant::Reduced).anti_armor_buff(),
        BuffId::RavenShredderMissileArmorReduction
    );
}

#[test]
fn enhanced_shockwaves_only_in_full_build() {
    assert_eq!(
        Registry::new(ClientVariant::Full).researcher(UpgradeId::EnhancedShockwaves),
        Some(UnitTypeId::GhostAcademy)
    );
    assert_eq!(
        Registry::new(ClientVariant::Reduced).researcher(UpgradeId::EnhancedShockwaves),
        None
    );
}

#[test]
fn full_only_speed_upgrades() {
    let full = Registry::new(ClientVariant::Full);
    let reduced = Registry::new(ClientVariant::Reduced);
    assert_eq!(
        full.speed_upgrade(UnitTypeId::Medivac),
        Some((UpgradeId::MedivacRapidDeployment, 11_800_000))
    );
    assert_eq!(
        full.speed_upgrade(UnitTypeId::VoidRay),
        Some((UpgradeId::VoidRaySpeedUpgrade, 13_280_000))
    );
    assert_eq!(reduced.speed_upgrade(UnitTypeId::Medivac), None);
    assert_eq!(reduced.speed_upgrade(UnitTypeId::VoidRay), None);
}

#[test]
fn charge_buff_strength_differs_by_build() {
    assert_eq!(
        Registry::new(ClientVariant::Full).speed_buff_multiplier(BuffId::ChargeUp),
        Some(28_000_000)
    );
    assert_eq!(
        Registry::new(ClientVariant::Reduced).speed_buff_multiplier(BuffId::ChargeUp),
        Some(22_000_000)
    );
}

#[test]
fn acceleration_zone_buffs_only_in_full_build() {
    let full = Registry::new(ClientVariant::Full);
    let reduced = Registry::new(ClientVariant::Reduced);
    for buff in [
        BuffId::InhibitorZoneFlyingTemporalField,
        BuffId::AccelerationZoneTemporalField,
        BuffId::AccelerationZoneFlyingTemporalField,
    ] {
        assert!(full.speed_buff_multiplier(buff).is_some());
        assert_eq!(reduced.speed_buff_multiplier(buff), None);
    }
    assert_eq!(
        full.speed_buff_multiplier(BuffId::AccelerationZoneTemporalField),
        Some(13_500_000)
    );
    assert_eq!(
        full.speed_buff_multiplier(BuffId::InhibitorZoneFlyingTemporalField),
        Some(6_500_000)
    );
}

#[test]
fn same_variant_registries_answer_identically() {
    for variant in [ClientVariant::Full, ClientVariant::Reduced] {
        let a = Registry::new(variant);
        let b = Registry::new(variant);
        for unit in [
            UnitTypeId::Marine,
            UnitTypeId::Zergling,
            UnitTypeId::Medivac,
            UnitTypeId::VoidRay,
            UnitTypeId::InhibitorZoneFlyingSmall,
            UnitTypeId::CommandCenter,
        ] {
            assert_eq!(a.alias_pair(unit), b.alias_pair(unit));
            assert_eq!(a.alias_group(unit), b.alias_group(unit));
            assert_eq!(a.tech_requirement(unit), b.tech_requirement(unit));
            assert_eq!(a.canonical_producer(unit), b.canonical_producer(unit));
            assert_eq!(a.all_producers(unit), b.all_producers(unit));
            assert_eq!(a.speed_upgrade(unit), b.speed_upgrade(unit));
            assert_eq!(a.creep_speed_multiplier(unit), b.creep_speed_multiplier(unit));
            assert_eq!(a.inhibitor_zone_radius(unit), b.inhibitor_zone_radius(unit));
            let da = a.damage_bonus(unit, TargetType::Ground);
            let db = b.damage_bonus(unit, TargetType::Ground);
            assert_eq!(da.is_some(), db.is_some());
        }
        for upgrade in [UpgradeId::Stimpack, UpgradeId::EnhancedShockwaves] {
            assert_eq!(a.researcher(upgrade), b.researcher(upgrade));
        }
        for buff in [BuffId::ChargeUp, BuffId::AccelerationZoneTemporalField] {
            assert_eq!(a.speed_buff_multiplier(buff), b.speed_buff_multiplier(buff));
        }
        assert_eq!(a.anti_armor_buff(), b.anti_armor_buff());
        assert_eq!(a.inhibitor_ids(), b.inhibitor_ids());
    }
}
