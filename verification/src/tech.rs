//! The tech-tree and production graph.
//!
//! Five single-hop lookup tables: the building prerequisite of a unit, the
//! building or unit that normally produces it, every producer capable of
//! producing it (alias and morph forms included), the building that
//! researches an upgrade, and the warp-in ability of units producible from
//! a warp gate. None of the queries traverses the graph; a caller wanting
//! the full prerequisite chain applies `tech_requirement` repeatedly, and
//! [`lemma_tech_requirement_acyclic`] guarantees that this terminates.

use crate::ids::AbilityId;
use crate::ids::ClientVariant;
use crate::ids::UnitTypeId;
use crate::ids::UpgradeId;
use crate::registry::Registry;
use vstd::prelude::*;

verus! {

/// Every rank of the prerequisite graph is at most this many hops deep.
pub const TECH_RANK_BOUND: u32 = 5;

/// The building-prerequisite table: the single building that must exist
/// before `unit` can be produced or morphed, or `None` when nothing beyond
/// its producer is required.
pub open spec fn tech_requirement_spec(unit: UnitTypeId) -> Option<UnitTypeId> {
    match unit {
        UnitTypeId::MissileTurret => Some(UnitTypeId::EngineeringBay),
        UnitTypeId::SensorTower => Some(UnitTypeId::EngineeringBay),
        UnitTypeId::PlanetaryFortress => Some(UnitTypeId::EngineeringBay),
        UnitTypeId::Barracks => Some(UnitTypeId::SupplyDepot),
        UnitTypeId::OrbitalCommand => Some(UnitTypeId::Barracks),
        UnitTypeId::Bunker => Some(UnitTypeId::Barracks),
        UnitTypeId::GhostUnit => Some(UnitTypeId::GhostAcademy),
        UnitTypeId::GhostAcademy => Some(UnitTypeId::Barracks),
        UnitTypeId::Factory => Some(UnitTypeId::Barracks),
        UnitTypeId::Armory => Some(UnitTypeId::Factory),
        UnitTypeId::HellionTank => Some(UnitTypeId::Armory),
        UnitTypeId::Thor => Some(UnitTypeId::Armory),
        UnitTypeId::Starport => Some(UnitTypeId::Factory),
        UnitTypeId::FusionCore => Some(UnitTypeId::Starport),
        UnitTypeId::Battlecruiser => Some(UnitTypeId::FusionCore),
        UnitTypeId::PhotonCannon => Some(UnitTypeId::Forge),
        UnitTypeId::CyberneticsCore => Some(UnitTypeId::Gateway),
        UnitTypeId::Sentry => Some(UnitTypeId::CyberneticsCore),
        UnitTypeId::Stalker => Some(UnitTypeId::CyberneticsCore),
        UnitTypeId::Adept => Some(UnitTypeId::CyberneticsCore),
        UnitTypeId::TwilightCouncil => Some(UnitTypeId::CyberneticsCore),
        UnitTypeId::ShieldBattery => Some(UnitTypeId::CyberneticsCore),
        UnitTypeId::TemplarArchive => Some(UnitTypeId::TwilightCouncil),
        UnitTypeId::DarkShrine => Some(UnitTypeId::TwilightCouncil),
        UnitTypeId::HighTemplar => Some(UnitTypeId::TemplarArchive),
        UnitTypeId::DarkTemplar => Some(UnitTypeId::DarkShrine),
        UnitTypeId::Stargate => Some(UnitTypeId::CyberneticsCore),
        UnitTypeId::Tempest => Some(UnitTypeId::FleetBeacon),
        UnitTypeId::Carrier => Some(UnitTypeId::FleetBeacon),
        UnitTypeId::Mothership => Some(UnitTypeId::FleetBeacon),
        UnitTypeId::RoboticsFacility => Some(UnitTypeId::CyberneticsCore),
        UnitTypeId::RoboticsBay => Some(UnitTypeId::RoboticsFacility),
        UnitTypeId::Colossus => Some(UnitTypeId::RoboticsBay),
        UnitTypeId::Disruptor => Some(UnitTypeId::RoboticsBay),
        UnitTypeId::Zergling => Some(UnitTypeId::SpawningPool),
        UnitTypeId::Queen => Some(UnitTypeId::SpawningPool),
        UnitTypeId::RoachWarren => Some(UnitTypeId::SpawningPool),
        UnitTypeId::BanelingNest => Some(UnitTypeId::SpawningPool),
        UnitTypeId::SpineCrawler => Some(UnitTypeId::SpawningPool),
        UnitTypeId::SporeCrawler => Some(UnitTypeId::SpawningPool),
        UnitTypeId::Roach => Some(UnitTypeId::RoachWarren),
        UnitTypeId::Baneling => Some(UnitTypeId::BanelingNest),
        UnitTypeId::Lair => Some(UnitTypeId::SpawningPool),
        UnitTypeId::Overseer => Some(UnitTypeId::Lair),
        UnitTypeId::OverlordTransport => Some(UnitTypeId::Lair),
        UnitTypeId::InfestationPit => Some(UnitTypeId::Lair),
        UnitTypeId::Infestor => Some(UnitTypeId::InfestationPit),
        UnitTypeId::SwarmHostMP => Some(UnitTypeId::InfestationPit),
        UnitTypeId::HydraliskDen => Some(UnitTypeId::Lair),
        UnitTypeId::Hydralisk => Some(UnitTypeId::HydraliskDen),
        UnitTypeId::LurkerDenMP => Some(UnitTypeId::HydraliskDen),
        UnitTypeId::LurkerMP => Some(UnitTypeId::LurkerDenMP),
        UnitTypeId::Spire => Some(UnitTypeId::Lair),
        UnitTypeId::Mutalisk => Some(UnitTypeId::Spire),
        UnitTypeId::Corruptor => Some(UnitTypeId::Spire),
        UnitTypeId::NydusNetwork => Some(UnitTypeId::Lair),
        UnitTypeId::Hive => Some(UnitTypeId::InfestationPit),
        UnitTypeId::Viper => Some(UnitTypeId::Hive),
        UnitTypeId::UltraliskCavern => Some(UnitTypeId::Hive),
        UnitTypeId::GreaterSpire => Some(UnitTypeId::Hive),
        UnitTypeId::BroodLord => Some(UnitTypeId::GreaterSpire),
        _ => None,
    }
}

/// Rank of a unit in the prerequisite graph: the number of hops that
/// following [`tech_requirement_spec`] takes from the unit to absence.
/// Units outside the table have rank 0.
pub open spec fn tech_rank_spec(unit: UnitTypeId) -> nat {
    match unit {
        UnitTypeId::MissileTurret => 1,
        UnitTypeId::SensorTower => 1,
        UnitTypeId::PlanetaryFortress => 1,
        UnitTypeId::Barracks => 1,
        UnitTypeId::OrbitalCommand => 2,
        UnitTypeId::Bunker => 2,
        UnitTypeId::GhostUnit => 3,
        UnitTypeId::GhostAcademy => 2,
        UnitTypeId::Factory => 2,
        UnitTypeId::Armory => 3,
        UnitTypeId::HellionTank => 4,
        UnitTypeId::Thor => 4,
        UnitTypeId::Starport => 3,
        UnitTypeId::FusionCore => 4,
        UnitTypeId::Battlecruiser => 5,
        UnitTypeId::PhotonCannon => 1,
        UnitTypeId::CyberneticsCore => 1,
        UnitTypeId::Sentry => 2,
        UnitTypeId::Stalker => 2,
        UnitTypeId::Adept => 2,
        UnitTypeId::TwilightCouncil => 2,
        UnitTypeId::ShieldBattery => 2,
        UnitTypeId::TemplarArchive => 3,
        UnitTypeId::DarkShrine => 3,
        UnitTypeId::HighTemplar => 4,
        UnitTypeId::DarkTemplar => 4,
        UnitTypeId::Stargate => 2,
        UnitTypeId::Tempest => 1,
        UnitTypeId::Carrier => 1,
        UnitTypeId::Mothership => 1,
        UnitTypeId::RoboticsFacility => 2,
        UnitTypeId::RoboticsBay => 3,
        UnitTypeId::Colossus => 4,
        UnitTypeId::Disruptor => 4,
        UnitTypeId::Zergling => 1,
        UnitTypeId::Queen => 1,
        UnitTypeId::RoachWarren => 1,
        UnitTypeId::BanelingNest => 1,
        UnitTypeId::SpineCrawler => 1,
        UnitTypeId::SporeCrawler => 1,
        UnitTypeId::Roach => 2,
        UnitTypeId::Baneling => 2,
        UnitTypeId::Lair => 1,
        UnitTypeId::Overseer => 2,
        UnitTypeId::OverlordTransport => 2,
        UnitTypeId::InfestationPit => 2,
        UnitTypeId::Infestor => 3,
        UnitTypeId::SwarmHostMP => 3,
        UnitTypeId::HydraliskDen => 2,
        UnitTypeId::Hydralisk => 3,
        UnitTypeId::LurkerDenMP => 3,
        UnitTypeId::LurkerMP => 4,
        UnitTypeId::Spire => 2,
        UnitTypeId::Mutalisk => 3,
        UnitTypeId::Corruptor => 3,
        UnitTypeId::NydusNetwork => 2,
        UnitTypeId::Hive => 3,
        UnitTypeId::Viper => 4,
        UnitTypeId::UltraliskCavern => 4,
        UnitTypeId::GreaterSpire => 4,
        UnitTypeId::BroodLord => 5,
        _ => 0,
    }
}

/// The canonical-producer table: the one building or unit type normally
/// used to train, build or morph `unit`.
pub open spec fn canonical_producer_spec(unit: UnitTypeId) -> Option<UnitTypeId> {
    match unit {
        UnitTypeId::Adept => Some(UnitTypeId::Gateway),
        UnitTypeId::Armory => Some(UnitTypeId::SCV),
        UnitTypeId::Assimilator => Some(UnitTypeId::Probe),
        UnitTypeId::AutoTurret => Some(UnitTypeId::Raven),
        UnitTypeId::Baneling => Some(UnitTypeId::Zergling),
        UnitTypeId::BanelingNest => Some(UnitTypeId::Drone),
        UnitTypeId::Banshee => Some(UnitTypeId::Starport),
        UnitTypeId::Barracks => Some(UnitTypeId::SCV),
        UnitTypeId::Battlecruiser => Some(UnitTypeId::Starport),
        UnitTypeId::BroodLord => Some(UnitTypeId::Corruptor),
        UnitTypeId::Bunker => Some(UnitTypeId::SCV),
        UnitTypeId::Carrier => Some(UnitTypeId::Stargate),
        UnitTypeId::Changeling => Some(UnitTypeId::Overseer),
        UnitTypeId::Colossus => Some(UnitTypeId::RoboticsFacility),
        UnitTypeId::CommandCenter => Some(UnitTypeId::SCV),
        UnitTypeId::Corruptor => Some(UnitTypeId::Larva),
        UnitTypeId::CreepTumor => Some(UnitTypeId::Queen),
        UnitTypeId::CreepTumorQueen => Some(UnitTypeId::Queen),
        UnitTypeId::CyberneticsCore => Some(UnitTypeId::Probe),
        UnitTypeId::Cyclone => Some(UnitTypeId::Factory),
        UnitTypeId::DarkShrine => Some(UnitTypeId::Probe),
        UnitTypeId::DarkTemplar => Some(UnitTypeId::Gateway),
        UnitTypeId::Disruptor => Some(UnitTypeId::RoboticsFacility),
        UnitTypeId::Drone => Some(UnitTypeId::Larva),
        UnitTypeId::EngineeringBay => Some(UnitTypeId::SCV),
        UnitTypeId::EvolutionChamber => Some(UnitTypeId::Drone),
        UnitTypeId::Extractor => Some(UnitTypeId::Drone),
        UnitTypeId::Factory => Some(UnitTypeId::SCV),
        UnitTypeId::FleetBeacon => Some(UnitTypeId::Probe),
        UnitTypeId::Forge => Some(UnitTypeId::Probe),
        UnitTypeId::FusionCore => Some(UnitTypeId::SCV),
        UnitTypeId::Gateway => Some(UnitTypeId::Probe),
        UnitTypeId::GhostUnit => Some(UnitTypeId::Barracks),
        UnitTypeId::GhostAcademy => Some(UnitTypeId::SCV),
        UnitTypeId::GreaterSpire => Some(UnitTypeId::Spire),
        UnitTypeId::Hatchery => Some(UnitTypeId::Drone),
        UnitTypeId::Hellion => Some(UnitTypeId::Factory),
        UnitTypeId::HellionTank => Some(UnitTypeId::Factory),
        UnitTypeId::HighTemplar => Some(UnitTypeId::Gateway),
        UnitTypeId::Hive => Some(UnitTypeId::Lair),
        UnitTypeId::Hydralisk => Some(UnitTypeId::Larva),
        UnitTypeId::HydraliskDen => Some(UnitTypeId::Drone),
        UnitTypeId::Immortal => Some(UnitTypeId::RoboticsFacility),
        UnitTypeId::InfestationPit => Some(UnitTypeId::Drone),
        UnitTypeId::Infestor => Some(UnitTypeId::Larva),
        UnitTypeId::Lair => Some(UnitTypeId::Hatchery),
        UnitTypeId::Liberator => Some(UnitTypeId::Starport),
        UnitTypeId::LocustMPFlying => Some(UnitTypeId::SwarmHostMP),
        UnitTypeId::LurkerDenMP => Some(UnitTypeId::Drone),
        UnitTypeId::LurkerMP => Some(UnitTypeId::Hydralisk),
        UnitTypeId::Marauder => Some(UnitTypeId::Barracks),
        UnitTypeId::Marine => Some(UnitTypeId::Barracks),
        UnitTypeId::Medivac => Some(UnitTypeId::Starport),
        UnitTypeId::MissileTurret => Some(UnitTypeId::SCV),
        UnitTypeId::Mothership => Some(UnitTypeId::Nexus),
        UnitTypeId::Mutalisk => Some(UnitTypeId::Larva),
        UnitTypeId::Nexus => Some(UnitTypeId::Probe),
        UnitTypeId::NydusCanal => Some(UnitTypeId::NydusNetwork),
        UnitTypeId::NydusNetwork => Some(UnitTypeId::Drone),
        UnitTypeId::Observer => Some(UnitTypeId::RoboticsFacility),
        UnitTypeId::Oracle => Some(UnitTypeId::Stargate),
        UnitTypeId::OracleStasisTrap => Some(UnitTypeId::Oracle),
        UnitTypeId::OrbitalCommand => Some(UnitTypeId::CommandCenter),
        UnitTypeId::Overlord => Some(UnitTypeId::Larva),
        UnitTypeId::OverlordTransport => Some(UnitTypeId::Overlord),
        UnitTypeId::Overseer => Some(UnitTypeId::Overlord),
        UnitTypeId::Phoenix => Some(UnitTypeId::Stargate),
        UnitTypeId::PhotonCannon => Some(UnitTypeId::Probe),
        UnitTypeId::PlanetaryFortress => Some(UnitTypeId::CommandCenter),
        UnitTypeId::Probe => Some(UnitTypeId::Nexus),
        UnitTypeId::Pylon => Some(UnitTypeId::Probe),
        UnitTypeId::Queen => Some(UnitTypeId::Hatchery),
        UnitTypeId::Ravager => Some(UnitTypeId::Roach),
        UnitTypeId::Raven => Some(UnitTypeId::Starport),
        UnitTypeId::Reaper => Some(UnitTypeId::Barracks),
        UnitTypeId::Refinery => Some(UnitTypeId::SCV),
        UnitTypeId::Roach => Some(UnitTypeId::Larva),
        UnitTypeId::RoachWarren => Some(UnitTypeId::Drone),
        UnitTypeId::RoboticsBay => Some(UnitTypeId::Probe),
        UnitTypeId::RoboticsFacility => Some(UnitTypeId::Probe),
        UnitTypeId::SCV => Some(UnitTypeId::CommandCenter),
        UnitTypeId::SensorTower => Some(UnitTypeId::SCV),
        UnitTypeId::Sentry => Some(UnitTypeId::Gateway),
        UnitTypeId::ShieldBattery => Some(UnitTypeId::Probe),
        UnitTypeId::SiegeTank => Some(UnitTypeId::Factory),
        UnitTypeId::SpawningPool => Some(UnitTypeId::Drone),
        UnitTypeId::SpineCrawler => Some(UnitTypeId::Drone),
        UnitTypeId::Spire => Some(UnitTypeId::Drone),
        UnitTypeId::SporeCrawler => Some(UnitTypeId::Drone),
        UnitTypeId::Stalker => Some(UnitTypeId::Gateway),
        UnitTypeId::Stargate => Some(UnitTypeId::Probe),
        UnitTypeId::Starport => Some(UnitTypeId::SCV),
        UnitTypeId::SupplyDepot => Some(UnitTypeId::SCV),
        UnitTypeId::SwarmHostMP => Some(UnitTypeId::Larva),
        UnitTypeId::Tempest => Some(UnitTypeId::Stargate),
        UnitTypeId::TemplarArchive => Some(UnitTypeId::Probe),
        UnitTypeId::Thor => Some(UnitTypeId::Factory),
        UnitTypeId::TwilightCouncil => Some(UnitTypeId::Probe),
        UnitTypeId::Ultralisk => Some(UnitTypeId::Larva),
        UnitTypeId::UltraliskCavern => Some(UnitTypeId::Drone),
        UnitTypeId::VikingFighter => Some(UnitTypeId::Starport),
        UnitTypeId::Viper => Some(UnitTypeId::Larva),
        UnitTypeId::VoidRay => Some(UnitTypeId::Stargate),
        UnitTypeId::WarpPrism => Some(UnitTypeId::RoboticsFacility),
        UnitTypeId::WidowMine => Some(UnitTypeId::Factory),
        UnitTypeId::Zealot => Some(UnitTypeId::Gateway),
        UnitTypeId::Zergling => Some(UnitTypeId::Larva),
        _ => None,
    }
}

/// The all-producers table: every building or unit type, alias and morph
/// forms included, capable of producing `unit`, in recorded order.
pub open spec fn all_producers_spec(unit: UnitTypeId) -> Seq<UnitTypeId> {
    match unit {
        UnitTypeId::Adept => seq![
            UnitTypeId::Gateway,
            UnitTypeId::WarpGate,
        ],
        UnitTypeId::Armory => seq![UnitTypeId::SCV],
        UnitTypeId::Assimilator => seq![UnitTypeId::Probe],
        UnitTypeId::AutoTurret => seq![UnitTypeId::Raven],
        UnitTypeId::Baneling => seq![UnitTypeId::Zergling],
        UnitTypeId::BanelingNest => seq![UnitTypeId::Drone],
        UnitTypeId::Banshee => seq![UnitTypeId::Starport],
        UnitTypeId::Barracks => seq![UnitTypeId::SCV],
        UnitTypeId::Battlecruiser => seq![UnitTypeId::Starport],
        UnitTypeId::BroodLord => seq![UnitTypeId::Corruptor],
        UnitTypeId::Bunker => seq![UnitTypeId::SCV],
        UnitTypeId::Carrier => seq![UnitTypeId::Stargate],
        UnitTypeId::Changeling => seq![
            UnitTypeId::Overseer,
            UnitTypeId::OverseerSiegeMode,
        ],
        UnitTypeId::Colossus => seq![UnitTypeId::RoboticsFacility],
        UnitTypeId::CommandCenter => seq![UnitTypeId::SCV],
        UnitTypeId::Corruptor => seq![UnitTypeId::Larva],
        UnitTypeId::CreepTumor => seq![
            UnitTypeId::CreepTumor,
            UnitTypeId::CreepTumorBurrowed,
            UnitTypeId::CreepTumorQueen,
            UnitTypeId::Queen,
        ],
        UnitTypeId::CreepTumorQueen => seq![UnitTypeId::Queen],
        UnitTypeId::CyberneticsCore => seq![UnitTypeId::Probe],
        UnitTypeId::Cyclone => seq![UnitTypeId::Factory],
        UnitTypeId::DarkShrine => seq![UnitTypeId::Probe],
        UnitTypeId::DarkTemplar => seq![
            UnitTypeId::Gateway,
            UnitTypeId::WarpGate,
        ],
        UnitTypeId::Disruptor => seq![UnitTypeId::RoboticsFacility],
        UnitTypeId::Drone => seq![UnitTypeId::Larva],
        UnitTypeId::EngineeringBay => seq![UnitTypeId::SCV],
        UnitTypeId::EvolutionChamber => seq![UnitTypeId::Drone],
        UnitTypeId::Extractor => seq![UnitTypeId::Drone],
        UnitTypeId::Factory => seq![UnitTypeId::SCV],
        UnitTypeId::FleetBeacon => seq![UnitTypeId::Probe],
        UnitTypeId::Forge => seq![UnitTypeId::Probe],
        UnitTypeId::FusionCore => seq![UnitTypeId::SCV],
        UnitTypeId::Gateway => seq![UnitTypeId::Probe],
        UnitTypeId::GhostUnit => seq![UnitTypeId::Barracks],
        UnitTypeId::GhostAcademy => seq![UnitTypeId::SCV],
        UnitTypeId::GreaterSpire => seq![UnitTypeId::Spire],
        UnitTypeId::Hatchery => seq![UnitTypeId::Drone],
        UnitTypeId::Hellion => seq![UnitTypeId::Factory],
        UnitTypeId::HellionTank => seq![UnitTypeId::Factory],
        UnitTypeId::HighTemplar => seq![
            UnitTypeId::Gateway,
            UnitTypeId::WarpGate,
        ],
        UnitTypeId::Hive => seq![UnitTypeId::Lair],
        UnitTypeId::Hydralisk => seq![UnitTypeId::Larva],
        UnitTypeId::HydraliskDen => seq![UnitTypeId::Drone],
        UnitTypeId::Immortal => seq![UnitTypeId::RoboticsFacility],
        UnitTypeId::InfestationPit => seq![UnitTypeId::Drone],
        UnitTypeId::Infestor => seq![UnitTypeId::Larva],
        UnitTypeId::Lair => seq![UnitTypeId::Hatchery],
        UnitTypeId::Liberator => seq![UnitTypeId::Starport],
        UnitTypeId::LocustMPFlying => seq![
            UnitTypeId::SwarmHostBurrowedMP,
            UnitTypeId::SwarmHostMP,
        ],
        UnitTypeId::LurkerDenMP => seq![UnitTypeId::Drone],
        UnitTypeId::LurkerMP => seq![UnitTypeId::Hydralisk],
        UnitTypeId::Marauder => seq![UnitTypeId::Barracks],
        UnitTypeId::Marine => seq![UnitTypeId::Barracks],
        UnitTypeId::Medivac => seq![UnitTypeId::Starport],
        UnitTypeId::MissileTurret => seq![UnitTypeId::SCV],
        UnitTypeId::Mothership => seq![UnitTypeId::Nexus],
        UnitTypeId::Mutalisk => seq![UnitTypeId::Larva],
        UnitTypeId::Nexus => seq![UnitTypeId::Probe],
        UnitTypeId::NydusCanal => seq![UnitTypeId::NydusNetwork],
        UnitTypeId::NydusNetwork => seq![UnitTypeId::Drone],
        UnitTypeId::Observer => seq![UnitTypeId::RoboticsFacility],
        UnitTypeId::Oracle => seq![UnitTypeId::Stargate],
        UnitTypeId::OracleStasisTrap => seq![UnitTypeId::Oracle],
        UnitTypeId::OrbitalCommand => seq![UnitTypeId::CommandCenter],
        UnitTypeId::Overlord => seq![UnitTypeId::Larva],
        UnitTypeId::OverlordTransport => seq![UnitTypeId::Overlord],
        UnitTypeId::Overseer => seq![
            UnitTypeId::Overlord,
            UnitTypeId::OverlordTransport,
        ],
        UnitTypeId::Phoenix => seq![UnitTypeId::Stargate],
        UnitTypeId::PhotonCannon => seq![UnitTypeId::Probe],
        UnitTypeId::PlanetaryFortress => seq![UnitTypeId::CommandCenter],
        UnitTypeId::Probe => seq![UnitTypeId::Nexus],
        UnitTypeId::Pylon => seq![UnitTypeId::Probe],
        UnitTypeId::Queen => seq![
            UnitTypeId::Hatchery,
            UnitTypeId::Hive,
            UnitTypeId::Lair,
        ],
        UnitTypeId::Ravager => seq![UnitTypeId::Roach],
        UnitTypeId::Raven => seq![UnitTypeId::Starport],
        UnitTypeId::Reaper => seq![UnitTypeId::Barracks],
        UnitTypeId::Refinery => seq![UnitTypeId::SCV],
        UnitTypeId::Roach => seq![UnitTypeId::Larva],
        UnitTypeId::RoachWarren => seq![UnitTypeId::Drone],
        UnitTypeId::RoboticsBay => seq![UnitTypeId::Probe],
        UnitTypeId::RoboticsFacility => seq![UnitTypeId::Probe],
        UnitTypeId::SCV => seq![
            UnitTypeId::CommandCenter,
            UnitTypeId::OrbitalCommand,
            UnitTypeId::PlanetaryFortress,
        ],
        UnitTypeId::SensorTower => seq![UnitTypeId::SCV],
        UnitTypeId::Sentry => seq![
            UnitTypeId::Gateway,
            UnitTypeId::WarpGate,
        ],
        UnitTypeId::ShieldBattery => seq![UnitTypeId::Probe],
        UnitTypeId::SiegeTank => seq![UnitTypeId::Factory],
        UnitTypeId::SpawningPool => seq![UnitTypeId::Drone],
        UnitTypeId::SpineCrawler => seq![UnitTypeId::Drone],
        UnitTypeId::Spire => seq![UnitTypeId::Drone],
        UnitTypeId::SporeCrawler => seq![UnitTypeId::Drone],
        UnitTypeId::Stalker => seq![
            UnitTypeId::Gateway,
            UnitTypeId::WarpGate,
        ],
        UnitTypeId::Stargate => seq![UnitTypeId::Probe],
        UnitTypeId::Starport => seq![UnitTypeId::SCV],
        UnitTypeId::SupplyDepot => seq![UnitTypeId::SCV],
        UnitTypeId::SwarmHostMP => seq![UnitTypeId::Larva],
        UnitTypeId::Tempest => seq![UnitTypeId::Stargate],
        UnitTypeId::TemplarArchive => seq![UnitTypeId::Probe],
        UnitTypeId::Thor => seq![UnitTypeId::Factory],
        UnitTypeId::TwilightCouncil => seq![UnitTypeId::Probe],
        UnitTypeId::Ultralisk => seq![UnitTypeId::Larva],
        UnitTypeId::UltraliskCavern => seq![UnitTypeId::Drone],
        UnitTypeId::VikingFighter => seq![UnitTypeId::Starport],
        UnitTypeId::Viper => seq![UnitTypeId::Larva],
        UnitTypeId::VoidRay => seq![UnitTypeId::Stargate],
        UnitTypeId::WarpPrism => seq![UnitTypeId::RoboticsFacility],
        UnitTypeId::WidowMine => seq![UnitTypeId::Factory],
        UnitTypeId::Zealot => seq![
            UnitTypeId::Gateway,
            UnitTypeId::WarpGate,
        ],
        UnitTypeId::Zergling => seq![UnitTypeId::Larva],
        _ => Seq::empty(),
    }
}

/// The researcher table: the building that researches `upgrade`. The
/// enhanced-shockwaves upgrade exists only in the full-feature client
/// build; every other entry is the same in both builds.
pub open spec fn researcher_spec(variant: ClientVariant, upgrade: UpgradeId) -> Option<UnitTypeId> {
    match upgrade {
        UpgradeId::AdeptPiercingAttack => Some(UnitTypeId::TwilightCouncil),
        UpgradeId::AnabolicSynthesis => Some(UnitTypeId::UltraliskCavern),
        UpgradeId::BansheeCloak => Some(UnitTypeId::StarportTechLab),
        UpgradeId::BansheeSpeed => Some(UnitTypeId::StarportTechLab),
        UpgradeId::BattlecruiserEnableSpecializations => Some(UnitTypeId::FusionCore),
        UpgradeId::BlinkTech => Some(UnitTypeId::TwilightCouncil),
        UpgradeId::Burrow => Some(UnitTypeId::Hive),
        UpgradeId::Charge => Some(UnitTypeId::TwilightCouncil),
        UpgradeId::ChitinousPlating => Some(UnitTypeId::UltraliskCavern),
        UpgradeId::CycloneLockOnDamageUpgrade => Some(UnitTypeId::FactoryTechLab),
        UpgradeId::DarkTemplarBlinkUpgrade => Some(UnitTypeId::DarkShrine),
        UpgradeId::DiggingClaws => Some(UnitTypeId::LurkerDenMP),
        UpgradeId::DrillClaws => Some(UnitTypeId::FactoryTechLab),
        UpgradeId::EvolveGroovedSpines => Some(UnitTypeId::HydraliskDen),
        UpgradeId::EvolveMuscularAugments => Some(UnitTypeId::HydraliskDen),
        UpgradeId::ExtendedThermalLance => Some(UnitTypeId::RoboticsBay),
        UpgradeId::GraviticDrive => Some(UnitTypeId::RoboticsBay),
        UpgradeId::HighCapacityBarrels => Some(UnitTypeId::FactoryTechLab),
        UpgradeId::HiSecAutoTracking => Some(UnitTypeId::EngineeringBay),
        UpgradeId::InfestorEnergyUpgrade => Some(UnitTypeId::InfestationPit),
        UpgradeId::LiberatorMorph => Some(UnitTypeId::StarportTechLab),
        UpgradeId::MedivacIncreaseSpeedBoost => Some(UnitTypeId::StarportTechLab),
        UpgradeId::NeuralParasite => Some(UnitTypeId::InfestationPit),
        UpgradeId::ObserverGraviticBooster => Some(UnitTypeId::RoboticsBay),
        UpgradeId::Overlordspeed => Some(UnitTypeId::Hive),
        UpgradeId::PersonalCloaking => Some(UnitTypeId::GhostAcademy),
        UpgradeId::PhoenixRangeUpgrade => Some(UnitTypeId::FleetBeacon),
        UpgradeId::ProtossAirArmorsLevel1 => Some(UnitTypeId::CyberneticsCore),
        UpgradeId::ProtossAirArmorsLevel2 => Some(UnitTypeId::CyberneticsCore),
        UpgradeId::ProtossAirArmorsLevel3 => Some(UnitTypeId::CyberneticsCore),
        UpgradeId::ProtossAirWeaponsLevel1 => Some(UnitTypeId::CyberneticsCore),
        UpgradeId::ProtossAirWeaponsLevel2 => Some(UnitTypeId::CyberneticsCore),
        UpgradeId::ProtossAirWeaponsLevel3 => Some(UnitTypeId::CyberneticsCore),
        UpgradeId::ProtossGroundArmorsLevel1 => Some(UnitTypeId::Forge),
        UpgradeId::ProtossGroundArmorsLevel2 => Some(UnitTypeId::Forge),
        UpgradeId::ProtossGroundArmorsLevel3 => Some(UnitTypeId::Forge),
        UpgradeId::ProtossGroundWeaponsLevel1 => Some(UnitTypeId::Forge),
        UpgradeId::ProtossGroundWeaponsLevel2 => Some(UnitTypeId::Forge),
        UpgradeId::ProtossGroundWeaponsLevel3 => Some(UnitTypeId::Forge),
        UpgradeId::ProtossShieldsLevel1 => Some(UnitTypeId::Forge),
        UpgradeId::ProtossShieldsLevel2 => Some(UnitTypeId::Forge),
        UpgradeId::ProtossShieldsLevel3 => Some(UnitTypeId::Forge),
        UpgradeId::PsiStormTech => Some(UnitTypeId::TemplarArchive),
        UpgradeId::PunisherGrenades => Some(UnitTypeId::BarracksTechLab),
        UpgradeId::RavenCorvidReactor => Some(UnitTypeId::StarportTechLab),
        UpgradeId::ShieldWall => Some(UnitTypeId::BarracksTechLab),
        UpgradeId::SmartServos => Some(UnitTypeId::FactoryTechLab),
        UpgradeId::Stimpack => Some(UnitTypeId::BarracksTechLab),
        UpgradeId::TerranBuildingArmor => Some(UnitTypeId::EngineeringBay),
        UpgradeId::TerranInfantryArmorsLevel1 => Some(UnitTypeId::EngineeringBay),
        UpgradeId::TerranInfantryArmorsLevel2 => Some(UnitTypeId::EngineeringBay),
        UpgradeId::TerranInfantryArmorsLevel3 => Some(UnitTypeId::EngineeringBay),
        UpgradeId::TerranInfantryWeaponsLevel1 => Some(UnitTypeId::EngineeringBay),
        UpgradeId::TerranInfantryWeaponsLevel2 => Some(UnitTypeId::EngineeringBay),
        UpgradeId::TerranInfantryWeaponsLevel3 => Some(UnitTypeId::EngineeringBay),
        UpgradeId::TerranShipWeaponsLevel1 => Some(UnitTypeId::Armory),
        UpgradeId::TerranShipWeaponsLevel2 => Some(UnitTypeId::Armory),
        UpgradeId::TerranShipWeaponsLevel3 => Some(UnitTypeId::Armory),
        UpgradeId::TerranVehicleWeaponsLevel1 => Some(UnitTypeId::Armory),
        UpgradeId::TerranVehicleWeaponsLevel2 => Some(UnitTypeId::Armory),
        UpgradeId::TerranVehicleWeaponsLevel3 => Some(UnitTypeId::Armory),
        UpgradeId::TerranVehicleAndShipArmorsLevel1 => Some(UnitTypeId::Armory),
        UpgradeId::TerranVehicleAndShipArmorsLevel2 => Some(UnitTypeId::Armory),
        UpgradeId::TerranVehicleAndShipArmorsLevel3 => Some(UnitTypeId::Armory),
        UpgradeId::WarpGateResearch => Some(UnitTypeId::CyberneticsCore),
        UpgradeId::ZergFlyerArmorsLevel1 => Some(UnitTypeId::GreaterSpire),
        UpgradeId::ZergFlyerArmorsLevel2 => Some(UnitTypeId::GreaterSpire),
        UpgradeId::ZergFlyerArmorsLevel3 => Some(UnitTypeId::GreaterSpire),
        UpgradeId::ZergFlyerWeaponsLevel1 => Some(UnitTypeId::GreaterSpire),
        UpgradeId::ZergFlyerWeaponsLevel2 => Some(UnitTypeId::GreaterSpire),
        UpgradeId::ZergFlyerWeaponsLevel3 => Some(UnitTypeId::GreaterSpire),
        UpgradeId::ZergGroundArmorsLevel1 => Some(UnitTypeId::EvolutionChamber),
        UpgradeId::ZergGroundArmorsLevel2 => Some(UnitTypeId::EvolutionChamber),
        UpgradeId::ZergGroundArmorsLevel3 => Some(UnitTypeId::EvolutionChamber),
        UpgradeId::Zerglingattackspeed => Some(UnitTypeId::SpawningPool),
        UpgradeId::Zerglingmovementspeed => Some(UnitTypeId::SpawningPool),
        UpgradeId::ZergMeleeWeaponsLevel1 => Some(UnitTypeId::EvolutionChamber),
        UpgradeId::ZergMeleeWeaponsLevel2 => Some(UnitTypeId::EvolutionChamber),
        UpgradeId::ZergMeleeWeaponsLevel3 => Some(UnitTypeId::EvolutionChamber),
        UpgradeId::ZergMissileWeaponsLevel1 => Some(UnitTypeId::EvolutionChamber),
        UpgradeId::ZergMissileWeaponsLevel2 => Some(UnitTypeId::EvolutionChamber),
        UpgradeId::ZergMissileWeaponsLevel3 => Some(UnitTypeId::EvolutionChamber),
        UpgradeId::EnhancedShockwaves => if variant is Full {
            Some(UnitTypeId::GhostAcademy)
        } else {
            None
        },
        _ => None,
    }
}

/// The warp-ability table: the ability that warps `unit` in from a warp
/// gate, defined only for the strict subset of units producible that way.
pub open spec fn warp_ability_spec(unit: UnitTypeId) -> Option<AbilityId> {
    match unit {
        UnitTypeId::Zealot => Some(AbilityId::WarpGateTrainZealot),
        UnitTypeId::Stalker => Some(AbilityId::WarpGateTrainStalker),
        UnitTypeId::HighTemplar => Some(AbilityId::WarpGateTrainHighTemplar),
        UnitTypeId::DarkTemplar => Some(AbilityId::WarpGateTrainDarkTemplar),
        UnitTypeId::Sentry => Some(AbilityId::WarpGateTrainSentry),
        UnitTypeId::Adept => Some(AbilityId::TrainWarpAdept),
        _ => None,
    }
}

impl Registry {
    /// The building that must exist before `unit` can be produced, or
    /// `None` when nothing beyond its producer is required.
    pub fn tech_requirement(&self, unit: UnitTypeId) -> (r: Option<UnitTypeId>)
        ensures
            r == tech_requirement_spec(unit),
    {
        match unit {
            UnitTypeId::MissileTurret => Some(UnitTypeId::EngineeringBay),
            UnitTypeId::SensorTower => Some(UnitTypeId::EngineeringBay),
            UnitTypeId::PlanetaryFortress => Some(UnitTypeId::EngineeringBay),
            UnitTypeId::Barracks => Some(UnitTypeId::SupplyDepot),
            UnitTypeId::OrbitalCommand => Some(UnitTypeId::Barracks),
            UnitTypeId::Bunker => Some(UnitTypeId::Barracks),
            UnitTypeId::GhostUnit => Some(UnitTypeId::GhostAcademy),
            UnitTypeId::GhostAcademy => Some(UnitTypeId::Barracks),
            UnitTypeId::Factory => Some(UnitTypeId::Barracks),
            UnitTypeId::Armory => Some(UnitTypeId::Factory),
            UnitTypeId::HellionTank => Some(UnitTypeId::Armory),
            UnitTypeId::Thor => Some(UnitTypeId::Armory),
            UnitTypeId::Starport => Some(UnitTypeId::Factory),
            UnitTypeId::FusionCore => Some(UnitTypeId::Starport),
            UnitTypeId::Battlecruiser => Some(UnitTypeId::FusionCore),
            UnitTypeId::PhotonCannon => Some(UnitTypeId::Forge),
            UnitTypeId::CyberneticsCore => Some(UnitTypeId::Gateway),
            UnitTypeId::Sentry => Some(UnitTypeId::CyberneticsCore),
            UnitTypeId::Stalker => Some(UnitTypeId::CyberneticsCore),
            UnitTypeId::Adept => Some(UnitTypeId::CyberneticsCore),
            UnitTypeId::TwilightCouncil => Some(UnitTypeId::CyberneticsCore),
            UnitTypeId::ShieldBattery => Some(UnitTypeId::CyberneticsCore),
            UnitTypeId::TemplarArchive => Some(UnitTypeId::TwilightCouncil),
            UnitTypeId::DarkShrine => Some(UnitTypeId::TwilightCouncil),
            UnitTypeId::HighTemplar => Some(UnitTypeId::TemplarArchive),
            UnitTypeId::DarkTemplar => Some(UnitTypeId::DarkShrine),
            UnitTypeId::Stargate => Some(UnitTypeId::CyberneticsCore),
            UnitTypeId::Tempest => Some(UnitTypeId::FleetBeacon),
            UnitTypeId::Carrier => Some(UnitTypeId::FleetBeacon),
            UnitTypeId::Mothership => Some(UnitTypeId::FleetBeacon),
            UnitTypeId::RoboticsFacility => Some(UnitTypeId::CyberneticsCore),
            UnitTypeId::RoboticsBay => Some(UnitTypeId::RoboticsFacility),
            UnitTypeId::Colossus => Some(UnitTypeId::RoboticsBay),
            UnitTypeId::Disruptor => Some(UnitTypeId::RoboticsBay),
            UnitTypeId::Zergling => Some(UnitTypeId::SpawningPool),
            UnitTypeId::Queen => Some(UnitTypeId::SpawningPool),
            UnitTypeId::RoachWarren => Some(UnitTypeId::SpawningPool),
            UnitTypeId::BanelingNest => Some(UnitTypeId::SpawningPool),
            UnitTypeId::SpineCrawler => Some(UnitTypeId::SpawningPool),
            UnitTypeId::SporeCrawler => Some(UnitTypeId::SpawningPool),
            UnitTypeId::Roach => Some(UnitTypeId::RoachWarren),
            UnitTypeId::Baneling => Some(UnitTypeId::BanelingNest),
            UnitTypeId::Lair => Some(UnitTypeId::SpawningPool),
            UnitTypeId::Overseer => Some(UnitTypeId::Lair),
            UnitTypeId::OverlordTransport => Some(UnitTypeId::Lair),
            UnitTypeId::InfestationPit => Some(UnitTypeId::Lair),
            UnitTypeId::Infestor => Some(UnitTypeId::InfestationPit),
            UnitTypeId::SwarmHostMP => Some(UnitTypeId::InfestationPit),
            UnitTypeId::HydraliskDen => Some(UnitTypeId::Lair),
            UnitTypeId::Hydralisk => Some(UnitTypeId::HydraliskDen),
            UnitTypeId::LurkerDenMP => Some(UnitTypeId::HydraliskDen),
            UnitTypeId::LurkerMP => Some(UnitTypeId::LurkerDenMP),
            UnitTypeId::Spire => Some(UnitTypeId::Lair),
            UnitTypeId::Mutalisk => Some(UnitTypeId::Spire),
            UnitTypeId::Corruptor => Some(UnitTypeId::Spire),
            UnitTypeId::NydusNetwork => Some(UnitTypeId::Lair),
            UnitTypeId::Hive => Some(UnitTypeId::InfestationPit),
            UnitTypeId::Viper => Some(UnitTypeId::Hive),
            UnitTypeId::UltraliskCavern => Some(UnitTypeId::Hive),
            UnitTypeId::GreaterSpire => Some(UnitTypeId::Hive),
            UnitTypeId::BroodLord => Some(UnitTypeId::GreaterSpire),
            _ => None,
        }
    }

    /// The one building or unit type normally used to produce `unit`, or
    /// `None` for a unit the production tables do not cover.
    pub fn canonical_producer(&self, unit: UnitTypeId) -> (r: Option<UnitTypeId>)
        ensures
            r == canonical_producer_spec(unit),
    {
        match unit {
            UnitTypeId::Adept => Some(UnitTypeId::Gateway),
            UnitTypeId::Armory => Some(UnitTypeId::SCV),
            UnitTypeId::Assimilator => Some(UnitTypeId::Probe),
            UnitTypeId::AutoTurret => Some(UnitTypeId::Raven),
            UnitTypeId::Baneling => Some(UnitTypeId::Zergling),
            UnitTypeId::BanelingNest => Some(UnitTypeId::Drone),
            UnitTypeId::Banshee => Some(UnitTypeId::Starport),
            UnitTypeId::Barracks => Some(UnitTypeId::SCV),
            UnitTypeId::Battlecruiser => Some(UnitTypeId::Starport),
            UnitTypeId::BroodLord => Some(UnitTypeId::Corruptor),
            UnitTypeId::Bunker => Some(UnitTypeId::SCV),
            UnitTypeId::Carrier => Some(UnitTypeId::Stargate),
            UnitTypeId::Changeling => Some(UnitTypeId::Overseer),
            UnitTypeId::Colossus => Some(UnitTypeId::RoboticsFacility),
            UnitTypeId::CommandCenter => Some(UnitTypeId::SCV),
            UnitTypeId::Corruptor => Some(UnitTypeId::Larva),
            UnitTypeId::CreepTumor => Some(UnitTypeId::Queen),
            UnitTypeId::CreepTumorQueen => Some(UnitTypeId::Queen),
            UnitTypeId::CyberneticsCore => Some(UnitTypeId::Probe),
            UnitTypeId::Cyclone => Some(UnitTypeId::Factory),
            UnitTypeId::DarkShrine => Some(UnitTypeId::Probe),
            UnitTypeId::DarkTemplar => Some(UnitTypeId::Gateway),
            UnitTypeId::Disruptor => Some(UnitTypeId::RoboticsFacility),
            UnitTypeId::Drone => Some(UnitTypeId::Larva),
            UnitTypeId::EngineeringBay => Some(UnitTypeId::SCV),
            UnitTypeId::EvolutionChamber => Some(UnitTypeId::Drone),
            UnitTypeId::Extractor => Some(UnitTypeId::Drone),
            UnitTypeId::Factory => Some(UnitTypeId::SCV),
            UnitTypeId::FleetBeacon => Some(UnitTypeId::Probe),
            UnitTypeId::Forge => Some(UnitTypeId::Probe),
            UnitTypeId::FusionCore => Some(UnitTypeId::SCV),
            UnitTypeId::Gateway => Some(UnitTypeId::Probe),
            UnitTypeId::GhostUnit => Some(UnitTypeId::Barracks),
            UnitTypeId::GhostAcademy => Some(UnitTypeId::SCV),
            UnitTypeId::GreaterSpire => Some(UnitTypeId::Spire),
            UnitTypeId::Hatchery => Some(UnitTypeId::Drone),
            UnitTypeId::Hellion => Some(UnitTypeId::Factory),
            UnitTypeId::HellionTank => Some(UnitTypeId::Factory),
            UnitTypeId::HighTemplar => Some(UnitTypeId::Gateway),
            UnitTypeId::Hive => Some(UnitTypeId::Lair),
            UnitTypeId::Hydralisk => Some(UnitTypeId::Larva),
            UnitTypeId::HydraliskDen => Some(UnitTypeId::Drone),
            UnitTypeId::Immortal => Some(UnitTypeId::RoboticsFacility),
            UnitTypeId::InfestationPit => Some(UnitTypeId::Drone),
            UnitTypeId::Infestor => Some(UnitTypeId::Larva),
            UnitTypeId::Lair => Some(UnitTypeId::Hatchery),
            UnitTypeId::Liberator => Some(UnitTypeId::Starport),
            UnitTypeId::LocustMPFlying => Some(UnitTypeId::SwarmHostMP),
            UnitTypeId::LurkerDenMP => Some(UnitTypeId::Drone),
            UnitTypeId::LurkerMP => Some(UnitTypeId::Hydralisk),
            UnitTypeId::Marauder => Some(UnitTypeId::Barracks),
            UnitTypeId::Marine => Some(UnitTypeId::Barracks),
            UnitTypeId::Medivac => Some(UnitTypeId::Starport),
            UnitTypeId::MissileTurret => Some(UnitTypeId::SCV),
            UnitTypeId::Mothership => Some(UnitTypeId::Nexus),
            UnitTypeId::Mutalisk => Some(UnitTypeId::Larva),
            UnitTypeId::Nexus => Some(UnitTypeId::Probe),
            UnitTypeId::NydusCanal => Some(UnitTypeId::NydusNetwork),
            UnitTypeId::NydusNetwork => Some(UnitTypeId::Drone),
            UnitTypeId::Observer => Some(UnitTypeId::RoboticsFacility),
            UnitTypeId::Oracle => Some(UnitTypeId::Stargate),
            UnitTypeId::OracleStasisTrap => Some(UnitTypeId::Oracle),
            UnitTypeId::OrbitalCommand => Some(UnitTypeId::CommandCenter),
            UnitTypeId::Overlord => Some(UnitTypeId::Larva),
            UnitTypeId::OverlordTransport => Some(UnitTypeId::Overlord),
            UnitTypeId::Overseer => Some(UnitTypeId::Overlord),
            UnitTypeId::Phoenix => Some(UnitTypeId::Stargate),
            UnitTypeId::PhotonCannon => Some(UnitTypeId::Probe),
            UnitTypeId::PlanetaryFortress => Some(UnitTypeId::CommandCenter),
            UnitTypeId::Probe => Some(UnitTypeId::Nexus),
            UnitTypeId::Pylon => Some(UnitTypeId::Probe),
            UnitTypeId::Queen => Some(UnitTypeId::Hatchery),
            UnitTypeId::Ravager => Some(UnitTypeId::Roach),
            UnitTypeId::Raven => Some(UnitTypeId::Starport),
            UnitTypeId::Reaper => Some(UnitTypeId::Barracks),
            UnitTypeId::Refinery => Some(UnitTypeId::SCV),
            UnitTypeId::Roach => Some(UnitTypeId::Larva),
            UnitTypeId::RoachWarren => Some(UnitTypeId::Drone),
            UnitTypeId::RoboticsBay => Some(UnitTypeId::Probe),
            UnitTypeId::RoboticsFacility => Some(UnitTypeId::Probe),
            UnitTypeId::SCV => Some(UnitTypeId::CommandCenter),
            UnitTypeId::SensorTower => Some(UnitTypeId::SCV),
            UnitTypeId::Sentry => Some(UnitTypeId::Gateway),
            UnitTypeId::ShieldBattery => Some(UnitTypeId::Probe),
            UnitTypeId::SiegeTank => Some(UnitTypeId::Factory),
            UnitTypeId::SpawningPool => Some(UnitTypeId::Drone),
            UnitTypeId::SpineCrawler => Some(UnitTypeId::Drone),
            UnitTypeId::Spire => Some(UnitTypeId::Drone),
            UnitTypeId::SporeCrawler => Some(UnitTypeId::Drone),
            UnitTypeId::Stalker => Some(UnitTypeId::Gateway),
            UnitTypeId::Stargate => Some(UnitTypeId::Probe),
            UnitTypeId::Starport => Some(UnitTypeId::SCV),
            UnitTypeId::SupplyDepot => Some(UnitTypeId::SCV),
            UnitTypeId::SwarmHostMP => Some(UnitTypeId::Larva),
            UnitTypeId::Tempest => Some(UnitTypeId::Stargate),
            UnitTypeId::TemplarArchive => Some(UnitTypeId::Probe),
            UnitTypeId::Thor => Some(UnitTypeId::Factory),
            UnitTypeId::TwilightCouncil => Some(UnitTypeId::Probe),
            UnitTypeId::Ultralisk => Some(UnitTypeId::Larva),
            UnitTypeId::UltraliskCavern => Some(UnitTypeId::Drone),
            UnitTypeId::VikingFighter => Some(UnitTypeId::Starport),
            UnitTypeId::Viper => Some(UnitTypeId::Larva),
            UnitTypeId::VoidRay => Some(UnitTypeId::Stargate),
            UnitTypeId::WarpPrism => Some(UnitTypeId::RoboticsFacility),
            UnitTypeId::WidowMine => Some(UnitTypeId::Factory),
            UnitTypeId::Zealot => Some(UnitTypeId::Gateway),
            UnitTypeId::Zergling => Some(UnitTypeId::Larva),
            _ => None,
        }
    }

    /// Every building or unit type capable of producing `unit`, alias and
    /// morph forms included; empty for a unit the tables do not cover.
    pub fn all_producers(&self, unit: UnitTypeId) -> (r: Vec<UnitTypeId>)
        ensures
            r@ =~= all_producers_spec(unit),
    {
        match unit {
            UnitTypeId::Adept => vec![
                UnitTypeId::Gateway,
                UnitTypeId::WarpGate,
            ],
            UnitTypeId::Armory => vec![UnitTypeId::SCV],
            UnitTypeId::Assimilator => vec![UnitTypeId::Probe],
            UnitTypeId::AutoTurret => vec![UnitTypeId::Raven],
            UnitTypeId::Baneling => vec![UnitTypeId::Zergling],
            UnitTypeId::BanelingNest => vec![UnitTypeId::Drone],
            UnitTypeId::Banshee => vec![UnitTypeId::Starport],
            UnitTypeId::Barracks => vec![UnitTypeId::SCV],
            UnitTypeId::Battlecruiser => vec![UnitTypeId::Starport],
            UnitTypeId::BroodLord => vec![UnitTypeId::Corruptor],
            UnitTypeId::Bunker => vec![UnitTypeId::SCV],
            UnitTypeId::Carrier => vec![UnitTypeId::Stargate],
            UnitTypeId::Changeling => vec![
                UnitTypeId::Overseer,
                UnitTypeId::OverseerSiegeMode,
            ],
            UnitTypeId::Colossus => vec![UnitTypeId::RoboticsFacility],
            UnitTypeId::CommandCenter => vec![UnitTypeId::SCV],
            UnitTypeId::Corruptor => vec![UnitTypeId::Larva],
            UnitTypeId::CreepTumor => vec![
                UnitTypeId::CreepTumor,
                UnitTypeId::CreepTumorBurrowed,
                UnitTypeId::CreepTumorQueen,
                UnitTypeId::Queen,
            ],
            UnitTypeId::CreepTumorQueen => vec![UnitTypeId::Queen],
            UnitTypeId::CyberneticsCore => vec![UnitTypeId::Probe],
            UnitTypeId::Cyclone => vec![UnitTypeId::Factory],
            UnitTypeId::DarkShrine => vec![UnitTypeId::Probe],
            UnitTypeId::DarkTemplar => vec![
                UnitTypeId::Gateway,
                UnitTypeId::WarpGate,
            ],
            UnitTypeId::Disruptor => vec![UnitTypeId::RoboticsFacility],
            UnitTypeId::Drone => vec![UnitTypeId::Larva],
            UnitTypeId::EngineeringBay => vec![UnitTypeId::SCV],
            UnitTypeId::EvolutionChamber => vec![UnitTypeId::Drone],
            UnitTypeId::Extractor => vec![UnitTypeId::Drone],
            UnitTypeId::Factory => vec![UnitTypeId::SCV],
            UnitTypeId::FleetBeacon => vec![UnitTypeId::Probe],
            UnitTypeId::Forge => vec![UnitTypeId::Probe],
            UnitTypeId::FusionCore => vec![UnitTypeId::SCV],
            UnitTypeId::Gateway => vec![UnitTypeId::Probe],
            UnitTypeId::GhostUnit => vec![UnitTypeId::Barracks],
            UnitTypeId::GhostAcademy => vec![UnitTypeId::SCV],
            UnitTypeId::GreaterSpire => vec![UnitTypeId::Spire],
            UnitTypeId::Hatchery => vec![UnitTypeId::Drone],
            UnitTypeId::Hellion => vec![UnitTypeId::Factory],
            UnitTypeId::HellionTank => vec![UnitTypeId::Factory],
            UnitTypeId::HighTemplar => vec![
                UnitTypeId::Gateway,
                UnitTypeId::WarpGate,
            ],
            UnitTypeId::Hive => vec![UnitTypeId::Lair],
            UnitTypeId::Hydralisk => vec![UnitTypeId::Larva],
            UnitTypeId::HydraliskDen => vec![UnitTypeId::Drone],
            UnitTypeId::Immortal => vec![UnitTypeId::RoboticsFacility],
            UnitTypeId::InfestationPit => vec![UnitTypeId::Drone],
            UnitTypeId::Infestor => vec![UnitTypeId::Larva],
            UnitTypeId::Lair => vec![UnitTypeId::Hatchery],
            UnitTypeId::Liberator => vec![UnitTypeId::Starport],
            UnitTypeId::LocustMPFlying => vec![
                UnitTypeId::SwarmHostBurrowedMP,
                UnitTypeId::SwarmHostMP,
            ],
            UnitTypeId::LurkerDenMP => vec![UnitTypeId::Drone],
            UnitTypeId::LurkerMP => vec![UnitTypeId::Hydralisk],
            UnitTypeId::Marauder => vec![UnitTypeId::Barracks],
            UnitTypeId::Marine => vec![UnitTypeId::Barracks],
            UnitTypeId::Medivac => vec![UnitTypeId::Starport],
            UnitTypeId::MissileTurret => vec![UnitTypeId::SCV],
            UnitTypeId::Mothership => vec![UnitTypeId::Nexus],
            UnitTypeId::Mutalisk => vec![UnitTypeId::Larva],
            UnitTypeId::Nexus => vec![UnitTypeId::Probe],
            UnitTypeId::NydusCanal => vec![UnitTypeId::NydusNetwork],
            UnitTypeId::NydusNetwork => vec![UnitTypeId::Drone],
            UnitTypeId::Observer => vec![UnitTypeId::RoboticsFacility],
            UnitTypeId::Oracle => vec![UnitTypeId::Stargate],
            UnitTypeId::OracleStasisTrap => vec![UnitTypeId::Oracle],
            UnitTypeId::OrbitalCommand => vec![UnitTypeId::CommandCenter],
            UnitTypeId::Overlord => vec![UnitTypeId::Larva],
            UnitTypeId::OverlordTransport => vec![UnitTypeId::Overlord],
            UnitTypeId::Overseer => vec![
                UnitTypeId::Overlord,
                UnitTypeId::OverlordTransport,
            ],
            UnitTypeId::Phoenix => vec![UnitTypeId::Stargate],
            UnitTypeId::PhotonCannon => vec![UnitTypeId::Probe],
            UnitTypeId::PlanetaryFortress => vec![UnitTypeId::CommandCenter],
            UnitTypeId::Probe => vec![UnitTypeId::Nexus],
            UnitTypeId::Pylon => vec![UnitTypeId::Probe],
            UnitTypeId::Queen => vec![
                UnitTypeId::Hatchery,
                UnitTypeId::Hive,
                UnitTypeId::Lair,
            ],
            UnitTypeId::Ravager => vec![UnitTypeId::Roach],
            UnitTypeId::Raven => vec![UnitTypeId::Starport],
            UnitTypeId::Reaper => vec![UnitTypeId::Barracks],
            UnitTypeId::Refinery => vec![UnitTypeId::SCV],
            UnitTypeId::Roach => vec![UnitTypeId::Larva],
            UnitTypeId::RoachWarren => vec![UnitTypeId::Drone],
            UnitTypeId::RoboticsBay => vec![UnitTypeId::Probe],
            UnitTypeId::RoboticsFacility => vec![UnitTypeId::Probe],
            UnitTypeId::SCV => vec![
                UnitTypeId::CommandCenter,
                UnitTypeId::OrbitalCommand,
                UnitTypeId::PlanetaryFortress,
            ],
            UnitTypeId::SensorTower => vec![UnitTypeId::SCV],
            UnitTypeId::Sentry => vec![
                UnitTypeId::Gateway,
                UnitTypeId::WarpGate,
            ],
            UnitTypeId::ShieldBattery => vec![UnitTypeId::Probe],
            UnitTypeId::SiegeTank => vec![UnitTypeId::Factory],
            UnitTypeId::SpawningPool => vec![UnitTypeId::Drone],
            UnitTypeId::SpineCrawler => vec![UnitTypeId::Drone],
            UnitTypeId::Spire => vec![UnitTypeId::Drone],
            UnitTypeId::SporeCrawler => vec![UnitTypeId::Drone],
            UnitTypeId::Stalker => vec![
                UnitTypeId::Gateway,
                UnitTypeId::WarpGate,
            ],
            UnitTypeId::Stargate => vec![UnitTypeId::Probe],
            UnitTypeId::Starport => vec![UnitTypeId::SCV],
            UnitTypeId::SupplyDepot => vec![UnitTypeId::SCV],
            UnitTypeId::SwarmHostMP => vec![UnitTypeId::Larva],
            UnitTypeId::Tempest => vec![UnitTypeId::Stargate],
            UnitTypeId::TemplarArchive => vec![UnitTypeId::Probe],
            UnitTypeId::Thor => vec![UnitTypeId::Factory],
            UnitTypeId::TwilightCouncil => vec![UnitTypeId::Probe],
            UnitTypeId::Ultralisk => vec![UnitTypeId::Larva],
            UnitTypeId::UltraliskCavern => vec![UnitTypeId::Drone],
            UnitTypeId::VikingFighter => vec![UnitTypeId::Starport],
            UnitTypeId::Viper => vec![UnitTypeId::Larva],
            UnitTypeId::VoidRay => vec![UnitTypeId::Stargate],
            UnitTypeId::WarpPrism => vec![UnitTypeId::RoboticsFacility],
            UnitTypeId::WidowMine => vec![UnitTypeId::Factory],
            UnitTypeId::Zealot => vec![
                UnitTypeId::Gateway,
                UnitTypeId::WarpGate,
            ],
            UnitTypeId::Zergling => vec![UnitTypeId::Larva],
            _ => Vec::new(),
        }
    }

    /// The building that researches `upgrade`, or `None` when the upgrade
    /// has no known researcher in this client build.
    pub fn researcher(&self, upgrade: UpgradeId) -> (r: Option<UnitTypeId>)
        ensures
            r == researcher_spec(self.variant, upgrade),
    {
        match upgrade {
            UpgradeId::AdeptPiercingAttack => Some(UnitTypeId::TwilightCouncil),
            UpgradeId::AnabolicSynthesis => Some(UnitTypeId::UltraliskCavern),
            UpgradeId::BansheeCloak => Some(UnitTypeId::StarportTechLab),
            UpgradeId::BansheeSpeed => Some(UnitTypeId::StarportTechLab),
            UpgradeId::BattlecruiserEnableSpecializations => Some(UnitTypeId::FusionCore),
            UpgradeId::BlinkTech => Some(UnitTypeId::TwilightCouncil),
            UpgradeId::Burrow => Some(UnitTypeId::Hive),
            UpgradeId::Charge => Some(UnitTypeId::TwilightCouncil),
            UpgradeId::ChitinousPlating => Some(UnitTypeId::UltraliskCavern),
            UpgradeId::CycloneLockOnDamageUpgrade => Some(UnitTypeId::FactoryTechLab),
            UpgradeId::DarkTemplarBlinkUpgrade => Some(UnitTypeId::DarkShrine),
            UpgradeId::DiggingClaws => Some(UnitTypeId::LurkerDenMP),
            UpgradeId::DrillClaws => Some(UnitTypeId::FactoryTechLab),
            UpgradeId::EvolveGroovedSpines => Some(UnitTypeId::HydraliskDen),
            UpgradeId::EvolveMuscularAugments => Some(UnitTypeId::HydraliskDen),
            UpgradeId::ExtendedThermalLance => Some(UnitTypeId::RoboticsBay),
            UpgradeId::GraviticDrive => Some(UnitTypeId::RoboticsBay),
            UpgradeId::HighCapacityBarrels => Some(UnitTypeId::FactoryTechLab),
            UpgradeId::HiSecAutoTracking => Some(UnitTypeId::EngineeringBay),
            UpgradeId::InfestorEnergyUpgrade => Some(UnitTypeId::InfestationPit),
            UpgradeId::LiberatorMorph => Some(UnitTypeId::StarportTechLab),
            UpgradeId::MedivacIncreaseSpeedBoost => Some(UnitTypeId::StarportTechLab),
            UpgradeId::NeuralParasite => Some(UnitTypeId::InfestationPit),
            UpgradeId::ObserverGraviticBooster => Some(UnitTypeId::RoboticsBay),
            UpgradeId::Overlordspeed => Some(UnitTypeId::Hive),
            UpgradeId::PersonalCloaking => Some(UnitTypeId::GhostAcademy),
            UpgradeId::PhoenixRangeUpgrade => Some(UnitTypeId::FleetBeacon),
            UpgradeId::ProtossAirArmorsLevel1 => Some(UnitTypeId::CyberneticsCore),
            UpgradeId::ProtossAirArmorsLevel2 => Some(UnitTypeId::CyberneticsCore),
            UpgradeId::ProtossAirArmorsLevel3 => Some(UnitTypeId::CyberneticsCore),
            UpgradeId::ProtossAirWeaponsLevel1 => Some(UnitTypeId::CyberneticsCore),
            UpgradeId::ProtossAirWeaponsLevel2 => Some(UnitTypeId::CyberneticsCore),
            UpgradeId::ProtossAirWeaponsLevel3 => Some(UnitTypeId::CyberneticsCore),
            UpgradeId::ProtossGroundArmorsLevel1 => Some(UnitTypeId::Forge),
            UpgradeId::ProtossGroundArmorsLevel2 => Some(UnitTypeId::Forge),
            UpgradeId::ProtossGroundArmorsLevel3 => Some(UnitTypeId::Forge),
            UpgradeId::ProtossGroundWeaponsLevel1 => Some(UnitTypeId::Forge),
            UpgradeId::ProtossGroundWeaponsLevel2 => Some(UnitTypeId::Forge),
            UpgradeId::ProtossGroundWeaponsLevel3 => Some(UnitTypeId::Forge),
            UpgradeId::ProtossShieldsLevel1 => Some(UnitTypeId::Forge),
            UpgradeId::ProtossShieldsLevel2 => Some(UnitTypeId::Forge),
            UpgradeId::ProtossShieldsLevel3 => Some(UnitTypeId::Forge),
            UpgradeId::PsiStormTech => Some(UnitTypeId::TemplarArchive),
            UpgradeId::PunisherGrenades => Some(UnitTypeId::BarracksTechLab),
            UpgradeId::RavenCorvidReactor => Some(UnitTypeId::StarportTechLab),
            UpgradeId::ShieldWall => Some(UnitTypeId::BarracksTechLab),
            UpgradeId::SmartServos => Some(UnitTypeId::FactoryTechLab),
            UpgradeId::Stimpack => Some(UnitTypeId::BarracksTechLab),
            UpgradeId::TerranBuildingArmor => Some(UnitTypeId::EngineeringBay),
            UpgradeId::TerranInfantryArmorsLevel1 => Some(UnitTypeId::EngineeringBay),
            UpgradeId::TerranInfantryArmorsLevel2 => Some(UnitTypeId::EngineeringBay),
            UpgradeId::TerranInfantryArmorsLevel3 => Some(UnitTypeId::EngineeringBay),
            UpgradeId::TerranInfantryWeaponsLevel1 => Some(UnitTypeId::EngineeringBay),
            UpgradeId::TerranInfantryWeaponsLevel2 => Some(UnitTypeId::EngineeringBay),
            UpgradeId::TerranInfantryWeaponsLevel3 => Some(UnitTypeId::EngineeringBay),
            UpgradeId::TerranShipWeaponsLevel1 => Some(UnitTypeId::Armory),
            UpgradeId::TerranShipWeaponsLevel2 => Some(UnitTypeId::Armory),
            UpgradeId::TerranShipWeaponsLevel3 => Some(UnitTypeId::Armory),
            UpgradeId::TerranVehicleWeaponsLevel1 => Some(UnitTypeId::Armory),
            UpgradeId::TerranVehicleWeaponsLevel2 => Some(UnitTypeId::Armory),
            UpgradeId::TerranVehicleWeaponsLevel3 => Some(UnitTypeId::Armory),
            UpgradeId::TerranVehicleAndShipArmorsLevel1 => Some(UnitTypeId::Armory),
            UpgradeId::TerranVehicleAndShipArmorsLevel2 => Some(UnitTypeId::Armory),
            UpgradeId::TerranVehicleAndShipArmorsLevel3 => Some(UnitTypeId::Armory),
            UpgradeId::WarpGateResearch => Some(UnitTypeId::CyberneticsCore),
            UpgradeId::ZergFlyerArmorsLevel1 => Some(UnitTypeId::GreaterSpire),
            UpgradeId::ZergFlyerArmorsLevel2 => Some(UnitTypeId::GreaterSpire),
            UpgradeId::ZergFlyerArmorsLevel3 => Some(UnitTypeId::GreaterSpire),
            UpgradeId::ZergFlyerWeaponsLevel1 => Some(UnitTypeId::GreaterSpire),
            UpgradeId::ZergFlyerWeaponsLevel2 => Some(UnitTypeId::GreaterSpire),
            UpgradeId::ZergFlyerWeaponsLevel3 => Some(UnitTypeId::GreaterSpire),
            UpgradeId::ZergGroundArmorsLevel1 => Some(UnitTypeId::EvolutionChamber),
            UpgradeId::ZergGroundArmorsLevel2 => Some(UnitTypeId::EvolutionChamber),
            UpgradeId::ZergGroundArmorsLevel3 => Some(UnitTypeId::EvolutionChamber),
            UpgradeId::Zerglingattackspeed => Some(UnitTypeId::SpawningPool),
            UpgradeId::Zerglingmovementspeed => Some(UnitTypeId::SpawningPool),
            UpgradeId::ZergMeleeWeaponsLevel1 => Some(UnitTypeId::EvolutionChamber),
            UpgradeId::ZergMeleeWeaponsLevel2 => Some(UnitTypeId::EvolutionChamber),
            UpgradeId::ZergMeleeWeaponsLevel3 => Some(UnitTypeId::EvolutionChamber),
            UpgradeId::ZergMissileWeaponsLevel1 => Some(UnitTypeId::EvolutionChamber),
            UpgradeId::ZergMissileWeaponsLevel2 => Some(UnitTypeId::EvolutionChamber),
            UpgradeId::ZergMissileWeaponsLevel3 => Some(UnitTypeId::EvolutionChamber),
            UpgradeId::EnhancedShockwaves => match self.variant {
                ClientVariant::Full => Some(UnitTypeId::GhostAcademy),
                ClientVariant::Reduced => None,
            },
            _ => None,
        }
    }

    /// The ability that warps `unit` in from a warp gate, or `None` for a
    /// unit not producible that way.
    pub fn warp_ability(&self, unit: UnitTypeId) -> (r: Option<AbilityId>)
        ensures
            r == warp_ability_spec(unit),
    {
        match unit {
            UnitTypeId::Zealot => Some(AbilityId::WarpGateTrainZealot),
            UnitTypeId::Stalker => Some(AbilityId::WarpGateTrainStalker),
            UnitTypeId::HighTemplar => Some(AbilityId::WarpGateTrainHighTemplar),
            UnitTypeId::DarkTemplar => Some(AbilityId::WarpGateTrainDarkTemplar),
            UnitTypeId::Sentry => Some(AbilityId::WarpGateTrainSentry),
            UnitTypeId::Adept => Some(AbilityId::TrainWarpAdept),
            _ => None,
        }
    }
}

/// Producer consistency: whenever a unit has a canonical producer, that
/// producer is one of the unit's recorded producers.
pub proof fn lemma_canonical_producer_consistent(u: UnitTypeId)
    ensures
        canonical_producer_spec(u) matches Some(p) ==> all_producers_spec(u).contains(p),
{
    match u {
        UnitTypeId::Adept => {
            assert(all_producers_spec(u)[0] == UnitTypeId::Gateway);
        }
        UnitTypeId::Armory => {
            assert(all_producers_spec(u)[0] == UnitTypeId::SCV);
        }
        UnitTypeId::Assimilator => {
            assert(all_producers_spec(u)[0] == UnitTypeId::Probe);
        }
        UnitTypeId::AutoTurret => {
            assert(all_producers_spec(u)[0] == UnitTypeId::Raven);
        }
        UnitTypeId::Baneling => {
            assert(all_producers_spec(u)[0] == UnitTypeId::Zergling);
        }
        UnitTypeId::BanelingNest => {
            assert(all_producers_spec(u)[0] == UnitTypeId::Drone);
        }
        UnitTypeId::Banshee => {
            assert(all_producers_spec(u)[0] == UnitTypeId::Starport);
        }
        UnitTypeId::Barracks => {
            assert(all_producers_spec(u)[0] == UnitTypeId::SCV);
        }
        UnitTypeId::Battlecruiser => {
            assert(all_producers_spec(u)[0] == UnitTypeId::Starport);
        }
        UnitTypeId::BroodLord => {
            assert(all_producers_spec(u)[0] == UnitTypeId::Corruptor);
        }
        UnitTypeId::Bunker => {
            assert(all_producers_spec(u)[0] == UnitTypeId::SCV);
        }
        UnitTypeId::Carrier => {
            assert(all_producers_spec(u)[0] == UnitTypeId::Stargate);
        }
        UnitTypeId::Changeling => {
            assert(all_producers_spec(u)[0] == UnitTypeId::Overseer);
        }
        UnitTypeId::Colossus => {
            assert(all_producers_spec(u)[0] == UnitTypeId::RoboticsFacility);
        }
        UnitTypeId::CommandCenter => {
            assert(all_producers_spec(u)[0] == UnitTypeId::SCV);
        }
        UnitTypeId::Corruptor => {
            assert(all_producers_spec(u)[0] == UnitTypeId::Larva);
        }
        UnitTypeId::CreepTumor => {
            assert(all_producers_spec(u)[3] == UnitTypeId::Queen);
        }
        UnitTypeId::CreepTumorQueen => {
            assert(all_producers_spec(u)[0] == UnitTypeId::Queen);
        }
        UnitTypeId::CyberneticsCore => {
            assert(all_producers_spec(u)[0] == UnitTypeId::Probe);
        }
        UnitTypeId::Cyclone => {
            assert(all_producers_spec(u)[0] == UnitTypeId::Factory);
        }
        UnitTypeId::DarkShrine => {
            assert(all_producers_spec(u)[0] == UnitTypeId::Probe);
        }
        UnitTypeId::DarkTemplar => {
            assert(all_producers_spec(u)[0] == UnitTypeId::Gateway);
        }
        UnitTypeId::Disruptor => {
            assert(all_producers_spec(u)[0] == UnitTypeId::RoboticsFacility);
        }
        UnitTypeId::Drone => {
            assert(all_producers_spec(u)[0] == UnitTypeId::Larva);
        }
        UnitTypeId::EngineeringBay => {
            assert(all_producers_spec(u)[0] == UnitTypeId::SCV);
        }
        UnitTypeId::EvolutionChamber => {
            assert(all_producers_spec(u)[0] == UnitTypeId::Drone);
        }
        UnitTypeId::Extractor => {
            assert(all_producers_spec(u)[0] == UnitTypeId::Drone);
        }
        UnitTypeId::Factory => {
            assert(all_producers_spec(u)[0] == UnitTypeId::SCV);
        }
        UnitTypeId::FleetBeacon => {
            assert(all_producers_spec(u)[0] == UnitTypeId::Probe);
        }
        UnitTypeId::Forge => {
            assert(all_producers_spec(u)[0] == UnitTypeId::Probe);
        }
        UnitTypeId::FusionCore => {
            assert(all_producers_spec(u)[0] == UnitTypeId::SCV);
        }
        UnitTypeId::Gateway => {
            assert(all_producers_spec(u)[0] == UnitTypeId::Probe);
        }
        UnitTypeId::GhostUnit => {
            assert(all_producers_spec(u)[0] == UnitTypeId::Barracks);
        }
        UnitTypeId::GhostAcademy => {
            assert(all_producers_spec(u)[0] == UnitTypeId::SCV);
        }
        UnitTypeId::GreaterSpire => {
            assert(all_producers_spec(u)[0] == UnitTypeId::Spire);
        }
        UnitTypeId::Hatchery => {
            assert(all_producers_spec(u)[0] == UnitTypeId::Drone);
        }
        UnitTypeId::Hellion => {
            assert(all_producers_spec(u)[0] == UnitTypeId::Factory);
        }
        UnitTypeId::HellionTank => {
            assert(all_producers_spec(u)[0] == UnitTypeId::Factory);
        }
        UnitTypeId::HighTemplar => {
            assert(all_producers_spec(u)[0] == UnitTypeId::Gateway);
        }
        UnitTypeId::Hive => {
            assert(all_producers_spec(u)[0] == UnitTypeId::Lair);
        }
        UnitTypeId::Hydralisk => {
            assert(all_producers_spec(u)[0] == UnitTypeId::Larva);
        }
        UnitTypeId::HydraliskDen => {
            assert(all_producers_spec(u)[0] == UnitTypeId::Drone);
        }
        UnitTypeId::Immortal => {
            assert(all_producers_spec(u)[0] == UnitTypeId::RoboticsFacility);
        }
        UnitTypeId::InfestationPit => {
            assert(all_producers_spec(u)[0] == UnitTypeId::Drone);
        }
        UnitTypeId::Infestor => {
            assert(all_producers_spec(u)[0] == UnitTypeId::Larva);
        }
        UnitTypeId::Lair => {
            assert(all_producers_spec(u)[0] == UnitTypeId::Hatchery);
        }
        UnitTypeId::Liberator => {
            assert(all_producers_spec(u)[0] == UnitTypeId::Starport);
        }
        UnitTypeId::LocustMPFlying => {
            assert(all_producers_spec(u)[1] == UnitTypeId::SwarmHostMP);
        }
        UnitTypeId::LurkerDenMP => {
            assert(all_producers_spec(u)[0] == UnitTypeId::Drone);
        }
        UnitTypeId::LurkerMP => {
            assert(all_producers_spec(u)[0] == UnitTypeId::Hydralisk);
        }
        UnitTypeId::Marauder => {
            assert(all_producers_spec(u)[0] == UnitTypeId::Barracks);
        }
        UnitTypeId::Marine => {
            assert(all_producers_spec(u)[0] == UnitTypeId::Barracks);
        }
        UnitTypeId::Medivac => {
            assert(all_producers_spec(u)[0] == UnitTypeId::Starport);
        }
        UnitTypeId::MissileTurret => {
            assert(all_producers_spec(u)[0] == UnitTypeId::SCV);
        }
        UnitTypeId::Mothership => {
            assert(all_producers_spec(u)[0] == UnitTypeId::Nexus);
        }
        UnitTypeId::Mutalisk => {
            assert(all_producers_spec(u)[0] == UnitTypeId::Larva);
        }
        UnitTypeId::Nexus => {
            assert(all_producers_spec(u)[0] == UnitTypeId::Probe);
        }
        UnitTypeId::NydusCanal => {
            assert(all_producers_spec(u)[0] == UnitTypeId::NydusNetwork);
        }
        UnitTypeId::NydusNetwork => {
            assert(all_producers_spec(u)[0] == UnitTypeId::Drone);
        }
        UnitTypeId::Observer => {
            assert(all_producers_spec(u)[0] == UnitTypeId::RoboticsFacility);
        }
        UnitTypeId::Oracle => {
            assert(all_producers_spec(u)[0] == UnitTypeId::Stargate);
        }
        UnitTypeId::OracleStasisTrap => {
            assert(all_producers_spec(u)[0] == UnitTypeId::Oracle);
        }
        UnitTypeId::OrbitalCommand => {
            assert(all_producers_spec(u)[0] == UnitTypeId::CommandCenter);
        }
        UnitTypeId::Overlord => {
            assert(all_producers_spec(u)[0] == UnitTypeId::Larva);
        }
        UnitTypeId::OverlordTransport => {
            assert(all_producers_spec(u)[0] == UnitTypeId::Overlord);
        }
        UnitTypeId::Overseer => {
            assert(all_producers_spec(u)[0] == UnitTypeId::Overlord);
        }
        UnitTypeId::Phoenix => {
            assert(all_producers_spec(u)[0] == UnitTypeId::Stargate);
        }
        UnitTypeId::PhotonCannon => {
            assert(all_producers_spec(u)[0] == UnitTypeId::Probe);
        }
        UnitTypeId::PlanetaryFortress => {
            assert(all_producers_spec(u)[0] == UnitTypeId::CommandCenter);
        }
        UnitTypeId::Probe => {
            assert(all_producers_spec(u)[0] == UnitTypeId::Nexus);
        }
        UnitTypeId::Pylon => {
            assert(all_producers_spec(u)[0] == UnitTypeId::Probe);
        }
        UnitTypeId::Queen => {
            assert(all_producers_spec(u)[0] == UnitTypeId::Hatchery);
        }
        UnitTypeId::Ravager => {
            assert(all_producers_spec(u)[0] == UnitTypeId::Roach);
        }
        UnitTypeId::Raven => {
            assert(all_producers_spec(u)[0] == UnitTypeId::Starport);
        }
        UnitTypeId::Reaper => {
            assert(all_producers_spec(u)[0] == UnitTypeId::Barracks);
        }
        UnitTypeId::Refinery => {
            assert(all_producers_spec(u)[0] == UnitTypeId::SCV);
        }
        UnitTypeId::Roach => {
            assert(all_producers_spec(u)[0] == UnitTypeId::Larva);
        }
        UnitTypeId::RoachWarren => {
            assert(all_producers_spec(u)[0] == UnitTypeId::Drone);
        }
        UnitTypeId::RoboticsBay => {
            assert(all_producers_spec(u)[0] == UnitTypeId::Probe);
        }
        UnitTypeId::RoboticsFacility => {
            assert(all_producers_spec(u)[0] == UnitTypeId::Probe);
        }
        UnitTypeId::SCV => {
            assert(all_producers_spec(u)[0] == UnitTypeId::CommandCenter);
        }
        UnitTypeId::SensorTower => {
            assert(all_producers_spec(u)[0] == UnitTypeId::SCV);
        }
        UnitTypeId::Sentry => {
            assert(all_producers_spec(u)[0] == UnitTypeId::Gateway);
        }
        UnitTypeId::ShieldBattery => {
            assert(all_producers_spec(u)[0] == UnitTypeId::Probe);
        }
        UnitTypeId::SiegeTank => {
            assert(all_producers_spec(u)[0] == UnitTypeId::Factory);
        }
        UnitTypeId::SpawningPool => {
            assert(all_producers_spec(u)[0] == UnitTypeId::Drone);
        }
        UnitTypeId::SpineCrawler => {
            assert(all_producers_spec(u)[0] == UnitTypeId::Drone);
        }
        UnitTypeId::Spire => {
            assert(all_producers_spec(u)[0] == UnitTypeId::Drone);
        }
        UnitTypeId::SporeCrawler => {
            assert(all_producers_spec(u)[0] == UnitTypeId::Drone);
        }
        UnitTypeId::Stalker => {
            assert(all_producers_spec(u)[0] == UnitTypeId::Gateway);
        }
        UnitTypeId::Stargate => {
            assert(all_producers_spec(u)[0] == UnitTypeId::Probe);
        }
        UnitTypeId::Starport => {
            assert(all_producers_spec(u)[0] == UnitTypeId::SCV);
        }
        UnitTypeId::SupplyDepot => {
            assert(all_producers_spec(u)[0] == UnitTypeId::SCV);
        }
        UnitTypeId::SwarmHostMP => {
            assert(all_producers_spec(u)[0] == UnitTypeId::Larva);
        }
        UnitTypeId::Tempest => {
            assert(all_producers_spec(u)[0] == UnitTypeId::Stargate);
        }
        UnitTypeId::TemplarArchive => {
            assert(all_producers_spec(u)[0] == UnitTypeId::Probe);
        }
        UnitTypeId::Thor => {
            assert(all_producers_spec(u)[0] == UnitTypeId::Factory);
        }
        UnitTypeId::TwilightCouncil => {
            assert(all_producers_spec(u)[0] == UnitTypeId::Probe);
        }
        UnitTypeId::Ultralisk => {
            assert(all_producers_spec(u)[0] == UnitTypeId::Larva);
        }
        UnitTypeId::UltraliskCavern => {
            assert(all_producers_spec(u)[0] == UnitTypeId::Drone);
        }
        UnitTypeId::VikingFighter => {
            assert(all_producers_spec(u)[0] == UnitTypeId::Starport);
        }
        UnitTypeId::Viper => {
            assert(all_producers_spec(u)[0] == UnitTypeId::Larva);
        }
        UnitTypeId::VoidRay => {
            assert(all_producers_spec(u)[0] == UnitTypeId::Stargate);
        }
        UnitTypeId::WarpPrism => {
            assert(all_producers_spec(u)[0] == UnitTypeId::RoboticsFacility);
        }
        UnitTypeId::WidowMine => {
            assert(all_producers_spec(u)[0] == UnitTypeId::Factory);
        }
        UnitTypeId::Zealot => {
            assert(all_producers_spec(u)[0] == UnitTypeId::Gateway);
        }
        UnitTypeId::Zergling => {
            assert(all_producers_spec(u)[0] == UnitTypeId::Larva);
        }
        _ => {}
    }
}

/// Acyclicity: each hop of `tech_requirement` strictly decreases a rank
/// that is bounded by [`TECH_RANK_BOUND`], so iterating it from any unit
/// reaches absence within that many hops and the prerequisite graph has no
/// cycle.
pub proof fn lemma_tech_requirement_acyclic(u: UnitTypeId)
    ensures
        tech_rank_spec(u) <= TECH_RANK_BOUND,
        tech_requirement_spec(u) matches Some(r) ==> tech_rank_spec(r) < tech_rank_spec(u),
{
    match u {
        UnitTypeId::MissileTurret => {}
        UnitTypeId::SensorTower => {}
        UnitTypeId::PlanetaryFortress => {}
        UnitTypeId::Barracks => {}
        UnitTypeId::OrbitalCommand => {}
        UnitTypeId::Bunker => {}
        UnitTypeId::GhostUnit => {}
        UnitTypeId::GhostAcademy => {}
        UnitTypeId::Factory => {}
        UnitTypeId::Armory => {}
        UnitTypeId::HellionTank => {}
        UnitTypeId::Thor => {}
        UnitTypeId::Starport => {}
        UnitTypeId::FusionCore => {}
        UnitTypeId::Battlecruiser => {}
        UnitTypeId::PhotonCannon => {}
        UnitTypeId::CyberneticsCore => {}
        UnitTypeId::Sentry => {}
        UnitTypeId::Stalker => {}
        UnitTypeId::Adept => {}
        UnitTypeId::TwilightCouncil => {}
        UnitTypeId::ShieldBattery => {}
        UnitTypeId::TemplarArchive => {}
        UnitTypeId::DarkShrine => {}
        UnitTypeId::HighTemplar => {}
        UnitTypeId::DarkTemplar => {}
        UnitTypeId::Stargate => {}
        UnitTypeId::Tempest => {}
        UnitTypeId::Carrier => {}
        UnitTypeId::Mothership => {}
        UnitTypeId::RoboticsFacility => {}
        UnitTypeId::RoboticsBay => {}
        UnitTypeId::Colossus => {}
        UnitTypeId::Disruptor => {}
        UnitTypeId::Zergling => {}
        UnitTypeId::Queen => {}
        UnitTypeId::RoachWarren => {}
        UnitTypeId::BanelingNest => {}
        UnitTypeId::SpineCrawler => {}
        UnitTypeId::SporeCrawler => {}
        UnitTypeId::Roach => {}
        UnitTypeId::Baneling => {}
        UnitTypeId::Lair => {}
        UnitTypeId::Overseer => {}
        UnitTypeId::OverlordTransport => {}
        UnitTypeId::InfestationPit => {}
        UnitTypeId::Infestor => {}
        UnitTypeId::SwarmHostMP => {}
        UnitTypeId::HydraliskDen => {}
        UnitTypeId::Hydralisk => {}
        UnitTypeId::LurkerDenMP => {}
        UnitTypeId::LurkerMP => {}
        UnitTypeId::Spire => {}
        UnitTypeId::Mutalisk => {}
        UnitTypeId::Corruptor => {}
        UnitTypeId::NydusNetwork => {}
        UnitTypeId::Hive => {}
        UnitTypeId::Viper => {}
        UnitTypeId::UltraliskCavern => {}
        UnitTypeId::GreaterSpire => {}
        UnitTypeId::BroodLord => {}
        _ => {}
    }
}

} // verus!
