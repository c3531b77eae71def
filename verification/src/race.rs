//! The race profile table: per-race structural facts.

use crate::ids::Race;
use crate::ids::UnitTypeId;
use crate::registry::Registry;
use crate::values::sentinel_race_values;
use crate::values::RaceValues;
use crate::values::RaceValuesView;
use vstd::prelude::*;

verus! {

/// The race profile table. Each of the three known races maps to a
/// complete profile; `Random` maps to the all-sentinel profile.
pub open spec fn race_values_spec(race: Race) -> RaceValuesView {
    match race {
        Race::Terran => RaceValuesView {
            start_townhall: UnitTypeId::CommandCenter,
            townhalls: seq![
                UnitTypeId::CommandCenter,
                UnitTypeId::OrbitalCommand,
                UnitTypeId::PlanetaryFortress,
                UnitTypeId::CommandCenterFlying,
                UnitTypeId::OrbitalCommandFlying,
            ],
            gas: UnitTypeId::Refinery,
            rich_gas: UnitTypeId::RefineryRich,
            supply: UnitTypeId::SupplyDepot,
            worker: UnitTypeId::SCV,
        },
        Race::Zerg => RaceValuesView {
            start_townhall: UnitTypeId::Hatchery,
            townhalls: seq![UnitTypeId::Hatchery, UnitTypeId::Lair, UnitTypeId::Hive],
            gas: UnitTypeId::Extractor,
            rich_gas: UnitTypeId::ExtractorRich,
            supply: UnitTypeId::Overlord,
            worker: UnitTypeId::Drone,
        },
        Race::Protoss => RaceValuesView {
            start_townhall: UnitTypeId::Nexus,
            townhalls: seq![UnitTypeId::Nexus],
            gas: UnitTypeId::Assimilator,
            rich_gas: UnitTypeId::AssimilatorRich,
            supply: UnitTypeId::Pylon,
            worker: UnitTypeId::Probe,
        },
        Race::Random => sentinel_race_values(),
    }
}

impl Registry {
    /// The structural facts of `race`: a complete profile for each of the
    /// three known races, and the all-sentinel profile for `Random`.
    pub fn get_race_profile(&self, race: Race) -> (r: RaceValues)
        ensures
            r@ =~= race_values_spec(race),
    {
        match race {
            Race::Terran => RaceValues {
                start_townhall: UnitTypeId::CommandCenter,
                townhalls: vec![
                    UnitTypeId::CommandCenter,
                    UnitTypeId::OrbitalCommand,
                    UnitTypeId::PlanetaryFortress,
                    UnitTypeId::CommandCenterFlying,
                    UnitTypeId::OrbitalCommandFlying,
                ],
                gas: UnitTypeId::Refinery,
                rich_gas: UnitTypeId::RefineryRich,
                supply: UnitTypeId::SupplyDepot,
                worker: UnitTypeId::SCV,
            },
            Race::Zerg => RaceValues {
                start_townhall: UnitTypeId::Hatchery,
                townhalls: vec![UnitTypeId::Hatchery, UnitTypeId::Lair, UnitTypeId::Hive],
                gas: UnitTypeId::Extractor,
                rich_gas: UnitTypeId::ExtractorRich,
                supply: UnitTypeId::Overlord,
                worker: UnitTypeId::Drone,
            },
            Race::Protoss => RaceValues {
                start_townhall: UnitTypeId::Nexus,
                townhalls: vec![UnitTypeId::Nexus],
                gas: UnitTypeId::Assimilator,
                rich_gas: UnitTypeId::AssimilatorRich,
                supply: UnitTypeId::Pylon,
                worker: UnitTypeId::Probe,
            },
            Race::Random => RaceValues {
                start_townhall: UnitTypeId::NotAUnit,
                townhalls: Vec::new(),
                gas: UnitTypeId::NotAUnit,
                rich_gas: UnitTypeId::NotAUnit,
                supply: UnitTypeId::NotAUnit,
                worker: UnitTypeId::NotAUnit,
            },
        }
    }
}

} // verus!
