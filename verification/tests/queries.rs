//! Query behaviour that is the same in both client builds.

use sc2_registry::Attribute;
use sc2_registry::AbilityId;
use sc2_registry::BuffId;
use sc2_registry::ClientVariant;
use sc2_registry::Race;
use sc2_registry::Registry;
use sc2_registry::TargetType;
use sc2_registry::UnitTypeId;
use sc2_registry::UpgradeId;
use sc2_registry::ANTI_ARMOR_TARGET;
use sc2_registry::FIXED_ONE;
use sc2_registry::FRAMES_PER_SECOND;
use sc2_registry::GAME_SPEED;
use sc2_registry::INTERFERENCE_MATRIX_BUFF;

fn registry() -> Registry {
    Registry::new(ClientVariant::Full)
}

#[test]
fn game_speed_constants() {
    assert_eq!(FIXED_ONE, 10_000_000);
    assert_eq!(GAME_SPEED, 14_000_000);
    assert_eq!(FRAMES_PER_SECOND, 16 * GAME_SPEED);
    assert_eq!(FRAMES_PER_SECOND, 224_000_000);
}

#[test]
fn named_buff_constants() {
    assert_eq!(ANTI_ARMOR_TARGET, BuffId::RavenShredderMissileTint);
    assert_eq!(INTERFERENCE_MATRIX_BUFF, BuffId::RavenScramblerMissile);
}

#[test]
fn race_profile_terran() {
    let p = registry().get_race_profile(Race::Terran);
    assert_eq!(p.start_townhall, UnitTypeId::CommandCenter);
    assert_eq!(
        p.townhalls,
        vec![
            UnitTypeId::CommandCenter,
            UnitTypeId::OrbitalCommand,
            UnitTypeId::PlanetaryFortress,
            UnitTypeId::CommandCenterFlying,
            UnitTypeId::OrbitalCommandFlying,
        ]
    );
    assert_eq!(p.gas, UnitTypeId::Refinery);
    assert_eq!(p.rich_gas, UnitTypeId::RefineryRich);
    assert_eq!(p.supply, UnitTypeId::SupplyDepot);
    assert_eq!(p.worker, UnitTypeId::SCV);
}

#[test]
fn race_profile_zerg() {
    let p = registry().get_race_profile(Race::Zerg);
    assert_eq!(p.start_townhall, UnitTypeId::Hatchery);
    assert_eq!(
        p.townhalls,
        vec![UnitTypeId::Hatchery, UnitTypeId::Lair, UnitTypeId::Hive]
    );
    assert_eq!(p.gas, UnitTypeId::Extractor);
    assert_eq!(p.worker, UnitTypeId::Drone);
    assert_eq!(p.supply, UnitTypeId::Overlord);
}

#[test]
fn race_profile_protoss() {
    let p = registry().get_race_profile(Race::Protoss);
    assert_eq!(p.start_townhall, UnitTypeId::Nexus);
    assert_eq!(p.townhalls, vec![UnitTypeId::Nexus]);
    assert_eq!(p.rich_gas, UnitTypeId::AssimilatorRich);
    assert_eq!(p.worker, UnitTypeId::Probe);
}

#[test]
fn race_profile_random_is_sentinel() {
    let p = registry().get_race_profile(Race::Random);
    assert_eq!(p.start_townhall, UnitTypeId::NotAUnit);
    assert!(p.townhalls.is_empty());
    assert_eq!(p.gas, UnitTypeId::NotAUnit);
    assert_eq!(p.rich_gas, UnitTypeId::NotAUnit);
    assert_eq!(p.supply, UnitTypeId::NotAUnit);
    assert_eq!(p.worker, UnitTypeId::NotAUnit);
}

#[test]
fn race_values_default_is_sentinel() {
    let d = sc2_registry::RaceValues::default();
    assert_eq!(d.start_townhall, UnitTypeId::NotAUnit);
    assert!(d.townhalls.is_empty());
    assert_eq!(d.worker, UnitTypeId::NotAUnit);
}

#[test]
fn alias_pair_symmetric_samples() {
    let r = registry();
    assert_eq!(
        r.alias_pair(UnitTypeId::SiegeTank),
        Some(UnitTypeId::SiegeTankSieged)
    );
    assert_eq!(
        r.alias_pair(UnitTypeId::SiegeTankSieged),
        Some(UnitTypeId::SiegeTank)
    );
    assert_eq!(
        r.alias_pair(UnitTypeId::SupplyDepotLowered),
        Some(UnitTypeId::SupplyDepot)
    );
    assert_eq!(
        r.alias_pair(UnitTypeId::WarpPrism),
        Some(UnitTypeId::WarpPrismPhasing)
    );
}

#[test]
fn alias_pair_absent_for_untracked_unit() {
    assert_eq!(registry().alias_pair(UnitTypeId::Marine), None);
}

#[test]
fn alias_pair_changeling_tracks_one_counterpart() {
    let r = registry();
    // only one changeling disguise has a tracked counterpart; the other
    // disguises have none
    assert_eq!(
        r.alias_pair(UnitTypeId::Changeling),
        Some(UnitTypeId::ChangelingZerglingWings)
    );
    assert_eq!(
        r.alias_pair(UnitTypeId::ChangelingZerglingWings),
        Some(UnitTypeId::Changeling)
    );
    assert_eq!(r.alias_pair(UnitTypeId::ChangelingMarine), None);
    assert_eq!(r.alias_pair(UnitTypeId::ChangelingZealot), None);
}

#[test]
fn alias_pair_creep_tumor_strict_pair() {
    let r = registry();
    assert_eq!(
        r.alias_pair(UnitTypeId::CreepTumor),
        Some(UnitTypeId::CreepTumorQueen)
    );
    assert_eq!(
        r.alias_pair(UnitTypeId::CreepTumorQueen),
        Some(UnitTypeId::CreepTumor)
    );
    assert_eq!(r.alias_pair(UnitTypeId::CreepTumorBurrowed), None);
}

#[test]
fn alias_group_town_hall_clique() {
    let r = registry();
    let g = r.alias_group(UnitTypeId::CommandCenter);
    assert_eq!(
        g,
        vec![
            UnitTypeId::CommandCenterFlying,
            UnitTypeId::OrbitalCommand,
            UnitTypeId::OrbitalCommandFlying,
            UnitTypeId::PlanetaryFortress,
        ]
    );
    // closure on a concrete clique: each member's group holds the key and
    // the other members
    for member in &g {
        let back = r.alias_group(*member);
        assert!(back.contains(&UnitTypeId::CommandCenter));
        for other in &g {
            if other != member {
                assert!(back.contains(other));
            }
        }
        assert!(!back.contains(member));
    }
}

#[test]
fn alias_group_creep_tumor_clique() {
    let r = registry();
    assert_eq!(
        r.alias_group(UnitTypeId::CreepTumor),
        vec![UnitTypeId::CreepTumorBurrowed, UnitTypeId::CreepTumorQueen]
    );
    assert_eq!(
        r.alias_group(UnitTypeId::CreepTumorBurrowed),
        vec![UnitTypeId::CreepTumor, UnitTypeId::CreepTumorQueen]
    );
    assert_eq!(
        r.alias_group(UnitTypeId::CreepTumorQueen),
        vec![UnitTypeId::CreepTumor, UnitTypeId::CreepTumorBurrowed]
    );
}

#[test]
fn alias_group_reactor_clique_closed() {
    let r = registry();
    let forms = [
        UnitTypeId::Reactor,
        UnitTypeId::BarracksReactor,
        UnitTypeId::FactoryReactor,
        UnitTypeId::StarportReactor,
    ];
    for member in forms {
        let group = r.alias_group(member);
        assert_eq!(group.len(), 3);
        assert!(!group.contains(&member));
        for other in forms {
            if other != member {
                assert!(group.contains(&other));
            }
        }
    }
}

#[test]
fn alias_group_flying_production_pairs() {
    let r = registry();
    assert_eq!(
        r.alias_group(UnitTypeId::Factory),
        vec![UnitTypeId::FactoryFlying]
    );
    assert_eq!(
        r.alias_group(UnitTypeId::FactoryFlying),
        vec![UnitTypeId::Factory]
    );
    assert_eq!(
        r.alias_group(UnitTypeId::Starport),
        vec![UnitTypeId::StarportFlying]
    );
    assert_eq!(
        r.alias_group(UnitTypeId::StarportFlying),
        vec![UnitTypeId::Starport]
    );
}

#[test]
fn alias_group_absent_for_untracked_unit() {
    assert!(registry().alias_group(UnitTypeId::Marine).is_empty());
}

#[test]
fn tech_requirement_single_hop() {
    let r = registry();
    assert_eq!(
        r.tech_requirement(UnitTypeId::Battlecruiser),
        Some(UnitTypeId::FusionCore)
    );
    assert_eq!(
        r.tech_requirement(UnitTypeId::Zergling),
        Some(UnitTypeId::SpawningPool)
    );
    assert_eq!(r.tech_requirement(UnitTypeId::SupplyDepot), None);
}

#[test]
fn tech_requirement_chain_terminates() {
    let r = registry();
    // iterate from every unit of a long chain: absence within the bound
    for start in [
        UnitTypeId::Battlecruiser,
        UnitTypeId::BroodLord,
        UnitTypeId::HighTemplar,
        UnitTypeId::Marine,
    ] {
        let mut at = start;
        let mut hops = 0;
        while let Some(next) = r.tech_requirement(at) {
            at = next;
            hops += 1;
            assert!(hops <= 6, "chain from {:?} did not terminate", start);
        }
    }
    // the longest recorded chain really is five hops
    let mut at = UnitTypeId::Battlecruiser;
    let mut hops = 0;
    while let Some(next) = r.tech_requirement(at) {
        at = next;
        hops += 1;
    }
    assert_eq!(hops, 5);
    assert_eq!(at, UnitTypeId::SupplyDepot);
}

#[test]
fn canonical_producer_marine() {
    assert_eq!(
        registry().canonical_producer(UnitTypeId::Marine),
        Some(UnitTypeId::Barracks)
    );
}

#[test]
fn canonical_producer_absent_for_primitive() {
    assert_eq!(registry().canonical_producer(UnitTypeId::Larva), None);
}

#[test]
fn all_producers_zealot() {
    let r = registry();
    let all = r.all_producers(UnitTypeId::Zealot);
    assert_eq!(all, vec![UnitTypeId::Gateway, UnitTypeId::WarpGate]);
    let canonical = r.canonical_producer(UnitTypeId::Zealot).unwrap();
    assert!(all.contains(&canonical));
}

#[test]
fn canonical_producer_always_among_all_producers() {
    let r = registry();
    for unit in [
        UnitTypeId::SCV,
        UnitTypeId::Queen,
        UnitTypeId::Overseer,
        UnitTypeId::LocustMPFlying,
        UnitTypeId::CreepTumor,
        UnitTypeId::OrbitalCommand,
    ] {
        let canonical = r.canonical_producer(unit).unwrap();
        assert!(
            r.all_producers(unit).contains(&canonical),
            "producer of {:?} missing from its own list",
            unit
        );
    }
}

#[test]
fn researcher_stimpack() {
    assert_eq!(
        registry().researcher(UpgradeId::Stimpack),
        Some(UnitTypeId::BarracksTechLab)
    );
}

#[test]
fn warp_abilities() {
    let r = registry();
    assert_eq!(
        r.warp_ability(UnitTypeId::Zealot),
        Some(AbilityId::WarpGateTrainZealot)
    );
    assert_eq!(
        r.warp_ability(UnitTypeId::Adept),
        Some(AbilityId::TrainWarpAdept)
    );
    assert_eq!(r.warp_ability(UnitTypeId::Marine), None);
}

#[test]
fn damage_bonus_immortal_exact_values() {
    let r = registry();
    let b = r
        .damage_bonus(UnitTypeId::Immortal, TargetType::Ground)
        .unwrap();
    assert_eq!(b.flat_bonus, Some(2));
    assert_eq!(b.per_attribute_bonus, vec![(Attribute::Armored, 3)]);
    assert!(r.damage_bonus(UnitTypeId::Immortal, TargetType::Air).is_none());
}

#[test]
fn damage_bonus_is_exact_match_on_target_type() {
    let r = registry();
    // the stalker bonus is recorded against Any and must not answer for
    // Ground or Air
    assert!(r.damage_bonus(UnitTypeId::Stalker, TargetType::Any).is_some());
    assert!(r.damage_bonus(UnitTypeId::Stalker, TargetType::Ground).is_none());
    assert!(r.damage_bonus(UnitTypeId::Stalker, TargetType::Air).is_none());
}

#[test]
fn damage_bonus_flat_zero_is_not_absence() {
    let b = registry()
        .damage_bonus(UnitTypeId::Probe, TargetType::Ground)
        .unwrap();
    assert_eq!(b.flat_bonus, Some(0));
    assert!(b.per_attribute_bonus.is_empty());
}

#[test]
fn damage_bonus_tempest_has_two_target_entries() {
    let r = registry();
    let ground = r
        .damage_bonus(UnitTypeId::Tempest, TargetType::Ground)
        .unwrap();
    assert_eq!(ground.flat_bonus, Some(4));
    assert!(ground.per_attribute_bonus.is_empty());
    let air = r.damage_bonus(UnitTypeId::Tempest, TargetType::Air).unwrap();
    assert_eq!(air.flat_bonus, Some(3));
    assert_eq!(air.per_attribute_bonus, vec![(Attribute::Massive, 2)]);
}

#[test]
fn damage_bonus_absent_for_plain_unit() {
    assert!(registry()
        .damage_bonus(UnitTypeId::Marine, TargetType::Ground)
        .is_none());
}

#[test]
fn missed_weapons_battlecruiser() {
    let ws = registry().missed_weapons(UnitTypeId::Battlecruiser);
    assert_eq!(ws.len(), 2);
    assert_eq!(ws[0].target, TargetType::Ground);
    assert_eq!(ws[0].damage, 8);
    assert_eq!(ws[1].target, TargetType::Air);
    assert_eq!(ws[1].damage, 5);
    for w in &ws {
        assert_eq!(w.attacks, 1);
        assert_eq!(w.range, 60_000_000);
        assert_eq!(w.speed, 2_240_000);
        assert!(w.damage_bonus.is_empty());
    }
}

#[test]
fn missed_weapons_baneling_bonuses() {
    let ws = registry().missed_weapons(UnitTypeId::Baneling);
    assert_eq!(ws.len(), 1);
    assert_eq!(ws[0].damage, 20);
    assert_eq!(
        ws[0].damage_bonus,
        vec![(Attribute::Light, 15), (Attribute::Structure, 60)]
    );
    assert_eq!(ws[0].range, 22_000_000);
}

#[test]
fn missed_weapons_carrier_interceptors() {
    let ws = registry().missed_weapons(UnitTypeId::Carrier);
    assert_eq!(ws.len(), 1);
    assert_eq!(ws[0].attacks, 16);
    assert_eq!(ws[0].range, 80_000_000);
}

#[test]
fn missed_weapons_absent_for_ordinary_unit() {
    assert!(registry().missed_weapons(UnitTypeId::Marine).is_empty());
}

#[test]
fn speed_upgrade_zergling() {
    assert_eq!(
        registry().speed_upgrade(UnitTypeId::Zergling),
        Some((UpgradeId::Zerglingmovementspeed, 16_000_000))
    );
}

#[test]
fn speed_upgrade_absent_for_unlisted_unit() {
    assert_eq!(registry().speed_upgrade(UnitTypeId::Marine), None);
}

#[test]
fn off_creep_speed_upgrades() {
    let r = registry();
    assert_eq!(
        r.off_creep_speed_upgrade(UnitTypeId::Hydralisk),
        Some((UpgradeId::EvolveMuscularAugments, 12_500_000))
    );
    assert_eq!(
        r.off_creep_speed_upgrade(UnitTypeId::Ultralisk),
        Some((UpgradeId::AnabolicSynthesis, 12_000_000))
    );
    assert_eq!(r.off_creep_speed_upgrade(UnitTypeId::Zergling), None);
}

#[test]
fn creep_speed_multiplier_queen() {
    assert_eq!(
        registry().creep_speed_multiplier(UnitTypeId::Queen),
        Some(26_700_000)
    );
}

#[test]
fn creep_speed_multiplier_samples() {
    let r = registry();
    assert_eq!(r.creep_speed_multiplier(UnitTypeId::Zergling), Some(13_000_000));
    assert_eq!(r.creep_speed_multiplier(UnitTypeId::SpineCrawler), Some(25_000_000));
    assert_eq!(r.creep_speed_multiplier(UnitTypeId::Marine), None);
}

#[test]
fn speed_buffs_common_entries() {
    let r = registry();
    assert_eq!(r.speed_buff_multiplier(BuffId::Stimpack), Some(15_000_000));
    assert_eq!(
        r.speed_buff_multiplier(BuffId::FungalGrowth),
        Some(2_500_000)
    );
    assert_eq!(
        r.speed_buff_multiplier(BuffId::RavenScramblerMissile),
        None
    );
}
