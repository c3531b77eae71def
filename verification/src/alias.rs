//! Unit-state alias tables.
//!
//! Two distinct relations say that one identifier denotes "the same logical
//! unit" as another, in a different state:
//!
//! * the *morph-group* relation maps an identifier to the set of **other**
//!   identifiers for the same building or unit in another tech-tree-visible
//!   form (all town-hall forms alias each other);
//! * the *paired* relation maps an identifier to the single counterpart of
//!   a toggled state (burrowed, sieged, lowered, flying).
//!
//! They are kept separate because their shapes differ: the first forms
//! complete cliques, the second strict pairs. The lemmas at the end of the
//! module prove both invariants: the paired relation is strictly symmetric
//! and irreflexive, and the morph groups are closed, so that every group
//! member's own group holds the key and all its siblings.

use crate::ids::UnitTypeId;
use crate::registry::Registry;
use vstd::prelude::*;

verus! {

/// The morph-group table: the other tech-tree-visible forms of `unit`, in
/// recorded order, or the empty sequence for a unit with no tracked group.
pub open spec fn alias_group_spec(unit: UnitTypeId) -> Seq<UnitTypeId> {
    match unit {
        UnitTypeId::Assimilator => seq![UnitTypeId::AssimilatorRich],
        UnitTypeId::AssimilatorRich => seq![UnitTypeId::Assimilator],
        UnitTypeId::Barracks => seq![UnitTypeId::BarracksFlying],
        UnitTypeId::BarracksFlying => seq![UnitTypeId::Barracks],
        UnitTypeId::CommandCenter => seq![
            UnitTypeId::CommandCenterFlying,
            UnitTypeId::OrbitalCommand,
            UnitTypeId::OrbitalCommandFlying,
            UnitTypeId::PlanetaryFortress,
        ],
        UnitTypeId::CommandCenterFlying => seq![
            UnitTypeId::CommandCenter,
            UnitTypeId::OrbitalCommand,
            UnitTypeId::OrbitalCommandFlying,
            UnitTypeId::PlanetaryFortress,
        ],
        UnitTypeId::OrbitalCommand => seq![
            UnitTypeId::CommandCenter,
            UnitTypeId::CommandCenterFlying,
            UnitTypeId::OrbitalCommandFlying,
            UnitTypeId::PlanetaryFortress,
        ],
        UnitTypeId::OrbitalCommandFlying => seq![
            UnitTypeId::CommandCenter,
            UnitTypeId::CommandCenterFlying,
            UnitTypeId::OrbitalCommand,
            UnitTypeId::PlanetaryFortress,
        ],
        UnitTypeId::PlanetaryFortress => seq![
            UnitTypeId::CommandCenter,
            UnitTypeId::CommandCenterFlying,
            UnitTypeId::OrbitalCommand,
            UnitTypeId::OrbitalCommandFlying,
        ],
        UnitTypeId::CreepTumor => seq![
            UnitTypeId::CreepTumorBurrowed,
            UnitTypeId::CreepTumorQueen,
        ],
        UnitTypeId::CreepTumorBurrowed => seq![
            UnitTypeId::CreepTumor,
            UnitTypeId::CreepTumorQueen,
        ],
        UnitTypeId::CreepTumorQueen => seq![
            UnitTypeId::CreepTumor,
            UnitTypeId::CreepTumorBurrowed,
        ],
        UnitTypeId::Hatchery => seq![
            UnitTypeId::Lair,
            UnitTypeId::Hive,
        ],
        UnitTypeId::Lair => seq![
            UnitTypeId::Hatchery,
            UnitTypeId::Hive,
        ],
        UnitTypeId::Hive => seq![
            UnitTypeId::Hatchery,
            UnitTypeId::Lair,
        ],
        UnitTypeId::LiberatorAG => seq![UnitTypeId::Liberator],
        UnitTypeId::Liberator => seq![UnitTypeId::LiberatorAG],
        UnitTypeId::Extractor => seq![UnitTypeId::ExtractorRich],
        UnitTypeId::ExtractorRich => seq![UnitTypeId::Extractor],
        UnitTypeId::Spire => seq![UnitTypeId::GreaterSpire],
        UnitTypeId::GreaterSpire => seq![UnitTypeId::Spire],
        UnitTypeId::OverlordTransport => seq![UnitTypeId::Overlord],
        UnitTypeId::Overlord => seq![UnitTypeId::OverlordTransport],
        UnitTypeId::Overseer => seq![UnitTypeId::OverseerSiegeMode],
        UnitTypeId::OverseerSiegeMode => seq![UnitTypeId::Overseer],
        UnitTypeId::Factory => seq![UnitTypeId::FactoryFlying],
        UnitTypeId::FactoryFlying => seq![UnitTypeId::Factory],
        UnitTypeId::Starport => seq![UnitTypeId::StarportFlying],
        UnitTypeId::StarportFlying => seq![UnitTypeId::Starport],
        UnitTypeId::Reactor => seq![
            UnitTypeId::BarracksReactor,
            UnitTypeId::FactoryReactor,
            UnitTypeId::StarportReactor,
        ],
        UnitTypeId::TechLab => seq![
            UnitTypeId::BarracksTechLab,
            UnitTypeId::FactoryTechLab,
            UnitTypeId::StarportTechLab,
        ],
        UnitTypeId::BarracksReactor => seq![
            UnitTypeId::Reactor,
            UnitTypeId::FactoryReactor,
            UnitTypeId::StarportReactor,
        ],
        UnitTypeId::BarracksTechLab => seq![
            UnitTypeId::TechLab,
            UnitTypeId::FactoryTechLab,
            UnitTypeId::StarportTechLab,
        ],
        UnitTypeId::FactoryReactor => seq![
            UnitTypeId::Reactor,
            UnitTypeId::BarracksReactor,
            UnitTypeId::StarportReactor,
        ],
        UnitTypeId::FactoryTechLab => seq![
            UnitTypeId::TechLab,
            UnitTypeId::BarracksTechLab,
            UnitTypeId::StarportTechLab,
        ],
        UnitTypeId::StarportReactor => seq![
            UnitTypeId::Reactor,
            UnitTypeId::BarracksReactor,
            UnitTypeId::FactoryReactor,
        ],
        UnitTypeId::StarportTechLab => seq![
            UnitTypeId::TechLab,
            UnitTypeId::BarracksTechLab,
            UnitTypeId::FactoryTechLab,
        ],
        UnitTypeId::PylonOvercharged => seq![UnitTypeId::Pylon],
        UnitTypeId::Pylon => seq![UnitTypeId::PylonOvercharged],
        UnitTypeId::QueenBurrowed => seq![UnitTypeId::Queen],
        UnitTypeId::Queen => seq![UnitTypeId::QueenBurrowed],
        UnitTypeId::Refinery => seq![UnitTypeId::RefineryRich],
        UnitTypeId::RefineryRich => seq![UnitTypeId::Refinery],
        UnitTypeId::SiegeTank => seq![UnitTypeId::SiegeTankSieged],
        UnitTypeId::SiegeTankSieged => seq![UnitTypeId::SiegeTank],
        UnitTypeId::SupplyDepot => seq![UnitTypeId::SupplyDepotLowered],
        UnitTypeId::SupplyDepotLowered => seq![UnitTypeId::SupplyDepot],
        UnitTypeId::Thor => seq![UnitTypeId::ThorAP],
        UnitTypeId::ThorAP => seq![UnitTypeId::Thor],
        UnitTypeId::Viking => seq![
            UnitTypeId::VikingFighter,
            UnitTypeId::VikingAssault,
        ],
        UnitTypeId::VikingFighter => seq![
            UnitTypeId::Viking,
            UnitTypeId::VikingAssault,
        ],
        UnitTypeId::VikingAssault => seq![
            UnitTypeId::Viking,
            UnitTypeId::VikingFighter,
        ],
        UnitTypeId::Gateway => seq![UnitTypeId::WarpGate],
        UnitTypeId::WarpGate => seq![UnitTypeId::Gateway],
        UnitTypeId::WarpPrism => seq![UnitTypeId::WarpPrismPhasing],
        UnitTypeId::WarpPrismPhasing => seq![UnitTypeId::WarpPrism],
        UnitTypeId::WidowMine => seq![UnitTypeId::WidowMineBurrowed],
        UnitTypeId::WidowMineBurrowed => seq![UnitTypeId::WidowMine],
        _ => Seq::empty(),
    }
}

/// The paired-state table: the toggled counterpart of `unit`, or `None`
/// for a unit with no tracked counterpart. The relation is strictly
/// symmetric: each entry's counterpart maps straight back.
pub open spec fn alias_pair_spec(unit: UnitTypeId) -> Option<UnitTypeId> {
    match unit {
        UnitTypeId::Adept => Some(UnitTypeId::AdeptPhaseShift),
        UnitTypeId::AdeptPhaseShift => Some(UnitTypeId::Adept),
        UnitTypeId::Assimilator => Some(UnitTypeId::AssimilatorRich),
        UnitTypeId::AssimilatorRich => Some(UnitTypeId::Assimilator),
        UnitTypeId::Baneling => Some(UnitTypeId::BanelingBurrowed),
        UnitTypeId::BanelingBurrowed => Some(UnitTypeId::Baneling),
        UnitTypeId::Barracks => Some(UnitTypeId::BarracksFlying),
        UnitTypeId::BarracksFlying => Some(UnitTypeId::Barracks),
        UnitTypeId::Changeling => Some(UnitTypeId::ChangelingZerglingWings),
        UnitTypeId::ChangelingZerglingWings => Some(UnitTypeId::Changeling),
        UnitTypeId::CommandCenter => Some(UnitTypeId::CommandCenterFlying),
        UnitTypeId::CommandCenterFlying => Some(UnitTypeId::CommandCenter),
        UnitTypeId::CreepTumor => Some(UnitTypeId::CreepTumorQueen),
        UnitTypeId::CreepTumorQueen => Some(UnitTypeId::CreepTumor),
        UnitTypeId::Drone => Some(UnitTypeId::DroneBurrowed),
        UnitTypeId::DroneBurrowed => Some(UnitTypeId::Drone),
        UnitTypeId::Extractor => Some(UnitTypeId::ExtractorRich),
        UnitTypeId::ExtractorRich => Some(UnitTypeId::Extractor),
        UnitTypeId::Factory => Some(UnitTypeId::FactoryFlying),
        UnitTypeId::FactoryFlying => Some(UnitTypeId::Factory),
        UnitTypeId::Hydralisk => Some(UnitTypeId::HydraliskBurrowed),
        UnitTypeId::HydraliskBurrowed => Some(UnitTypeId::Hydralisk),
        UnitTypeId::Infestor => Some(UnitTypeId::InfestorBurrowed),
        UnitTypeId::InfestorBurrowed => Some(UnitTypeId::Infestor),
        UnitTypeId::InfestorTerran => Some(UnitTypeId::InfestorTerranBurrowed),
        UnitTypeId::InfestorTerranBurrowed => Some(UnitTypeId::InfestorTerran),
        UnitTypeId::Liberator => Some(UnitTypeId::LiberatorAG),
        UnitTypeId::LiberatorAG => Some(UnitTypeId::Liberator),
        UnitTypeId::LocustMP => Some(UnitTypeId::LocustMPFlying),
        UnitTypeId::LocustMPFlying => Some(UnitTypeId::LocustMP),
        UnitTypeId::LurkerMP => Some(UnitTypeId::LurkerMPBurrowed),
        UnitTypeId::LurkerMPBurrowed => Some(UnitTypeId::LurkerMP),
        UnitTypeId::Observer => Some(UnitTypeId::ObserverSiegeMode),
        UnitTypeId::ObserverSiegeMode => Some(UnitTypeId::Observer),
        UnitTypeId::OrbitalCommand => Some(UnitTypeId::OrbitalCommandFlying),
        UnitTypeId::OrbitalCommandFlying => Some(UnitTypeId::OrbitalCommand),
        UnitTypeId::Overseer => Some(UnitTypeId::OverseerSiegeMode),
        UnitTypeId::OverseerSiegeMode => Some(UnitTypeId::Overseer),
        UnitTypeId::Pylon => Some(UnitTypeId::PylonOvercharged),
        UnitTypeId::PylonOvercharged => Some(UnitTypeId::Pylon),
        UnitTypeId::Queen => Some(UnitTypeId::QueenBurrowed),
        UnitTypeId::QueenBurrowed => Some(UnitTypeId::Queen),
        UnitTypeId::Ravager => Some(UnitTypeId::RavagerBurrowed),
        UnitTypeId::RavagerBurrowed => Some(UnitTypeId::Ravager),
        UnitTypeId::Refinery => Some(UnitTypeId::RefineryRich),
        UnitTypeId::RefineryRich => Some(UnitTypeId::Refinery),
        UnitTypeId::Roach => Some(UnitTypeId::RoachBurrowed),
        UnitTypeId::RoachBurrowed => Some(UnitTypeId::Roach),
        UnitTypeId::SiegeTank => Some(UnitTypeId::SiegeTankSieged),
        UnitTypeId::SiegeTankSieged => Some(UnitTypeId::SiegeTank),
        UnitTypeId::SpineCrawler => Some(UnitTypeId::SpineCrawlerUprooted),
        UnitTypeId::SpineCrawlerUprooted => Some(UnitTypeId::SpineCrawler),
        UnitTypeId::SporeCrawler => Some(UnitTypeId::SporeCrawlerUprooted),
        UnitTypeId::SporeCrawlerUprooted => Some(UnitTypeId::SporeCrawler),
        UnitTypeId::Starport => Some(UnitTypeId::StarportFlying),
        UnitTypeId::StarportFlying => Some(UnitTypeId::Starport),
        UnitTypeId::SupplyDepot => Some(UnitTypeId::SupplyDepotLowered),
        UnitTypeId::SupplyDepotLowered => Some(UnitTypeId::SupplyDepot),
        UnitTypeId::SwarmHostMP => Some(UnitTypeId::SwarmHostBurrowedMP),
        UnitTypeId::SwarmHostBurrowedMP => Some(UnitTypeId::SwarmHostMP),
        UnitTypeId::Thor => Some(UnitTypeId::ThorAP),
        UnitTypeId::ThorAP => Some(UnitTypeId::Thor),
        UnitTypeId::Ultralisk => Some(UnitTypeId::UltraliskBurrowed),
        UnitTypeId::UltraliskBurrowed => Some(UnitTypeId::Ultralisk),
        UnitTypeId::VikingFighter => Some(UnitTypeId::VikingAssault),
        UnitTypeId::VikingAssault => Some(UnitTypeId::VikingFighter),
        UnitTypeId::WarpPrismPhasing => Some(UnitTypeId::WarpPrism),
        UnitTypeId::WarpPrism => Some(UnitTypeId::WarpPrismPhasing),
        UnitTypeId::WidowMine => Some(UnitTypeId::WidowMineBurrowed),
        UnitTypeId::WidowMineBurrowed => Some(UnitTypeId::WidowMine),
        UnitTypeId::Zergling => Some(UnitTypeId::ZerglingBurrowed),
        UnitTypeId::ZerglingBurrowed => Some(UnitTypeId::Zergling),
        _ => None,
    }
}

impl Registry {
    /// The other tech-tree-visible forms of `unit`, or an empty vector if
    /// the unit has no tracked morph group.
    pub fn alias_group(&self, unit: UnitTypeId) -> (r: Vec<UnitTypeId>)
        ensures
            r@ =~= alias_group_spec(unit),
    {
        match unit {
            UnitTypeId::Assimilator => vec![UnitTypeId::AssimilatorRich],
            UnitTypeId::AssimilatorRich => vec![UnitTypeId::Assimilator],
            UnitTypeId::Barracks => vec![UnitTypeId::BarracksFlying],
            UnitTypeId::BarracksFlying => vec![UnitTypeId::Barracks],
            UnitTypeId::CommandCenter => vec![
                UnitTypeId::CommandCenterFlying,
                UnitTypeId::OrbitalCommand,
                UnitTypeId::OrbitalCommandFlying,
                UnitTypeId::PlanetaryFortress,
            ],
            UnitTypeId::CommandCenterFlying => vec![
                UnitTypeId::CommandCenter,
                UnitTypeId::OrbitalCommand,
                UnitTypeId::OrbitalCommandFlying,
                UnitTypeId::PlanetaryFortress,
            ],
            UnitTypeId::OrbitalCommand => vec![
                UnitTypeId::CommandCenter,
                UnitTypeId::CommandCenterFlying,
                UnitTypeId::OrbitalCommandFlying,
                UnitTypeId::PlanetaryFortress,
            ],
            UnitTypeId::OrbitalCommandFlying => vec![
                UnitTypeId::CommandCenter,
                UnitTypeId::CommandCenterFlying,
                UnitTypeId::OrbitalCommand,
                UnitTypeId::PlanetaryFortress,
            ],
            UnitTypeId::PlanetaryFortress => vec![
                UnitTypeId::CommandCenter,
                UnitTypeId::CommandCenterFlying,
                UnitTypeId::OrbitalCommand,
                UnitTypeId::OrbitalCommandFlying,
            ],
            UnitTypeId::CreepTumor => vec![
                UnitTypeId::CreepTumorBurrowed,
                UnitTypeId::CreepTumorQueen,
            ],
            UnitTypeId::CreepTumorBurrowed => vec![
                UnitTypeId::CreepTumor,
                UnitTypeId::CreepTumorQueen,
            ],
            UnitTypeId::CreepTumorQueen => vec![
                UnitTypeId::CreepTumor,
                UnitTypeId::CreepTumorBurrowed,
            ],
            UnitTypeId::Hatchery => vec![
                UnitTypeId::Lair,
                UnitTypeId::Hive,
            ],
            UnitTypeId::Lair => vec![
                UnitTypeId::Hatchery,
                UnitTypeId::Hive,
            ],
            UnitTypeId::Hive => vec![
                UnitTypeId::Hatchery,
                UnitTypeId::Lair,
            ],
            UnitTypeId::LiberatorAG => vec![UnitTypeId::Liberator],
            UnitTypeId::Liberator => vec![UnitTypeId::LiberatorAG],
            UnitTypeId::Extractor => vec![UnitTypeId::ExtractorRich],
            UnitTypeId::ExtractorRich => vec![UnitTypeId::Extractor],
            UnitTypeId::Spire => vec![UnitTypeId::GreaterSpire],
            UnitTypeId::GreaterSpire => vec![UnitTypeId::Spire],
            UnitTypeId::OverlordTransport => vec![UnitTypeId::Overlord],
            UnitTypeId::Overlord => vec![UnitTypeId::OverlordTransport],
            UnitTypeId::Overseer => vec![UnitTypeId::OverseerSiegeMode],
            UnitTypeId::OverseerSiegeMode => vec![UnitTypeId::Overseer],
            UnitTypeId::Factory => vec![UnitTypeId::FactoryFlying],
            UnitTypeId::FactoryFlying => vec![UnitTypeId::Factory],
            UnitTypeId::Starport => vec![UnitTypeId::StarportFlying],
            UnitTypeId::StarportFlying => vec![UnitTypeId::Starport],
            UnitTypeId::Reactor => vec![
                UnitTypeId::BarracksReactor,
                UnitTypeId::FactoryReactor,
                UnitTypeId::StarportReactor,
            ],
            UnitTypeId::TechLab => vec![
                UnitTypeId::BarracksTechLab,
                UnitTypeId::FactoryTechLab,
                UnitTypeId::StarportTechLab,
            ],
            UnitTypeId::BarracksReactor => vec![
                UnitTypeId::Reactor,
                UnitTypeId::FactoryReactor,
                UnitTypeId::StarportReactor,
            ],
            UnitTypeId::BarracksTechLab => vec![
                UnitTypeId::TechLab,
                UnitTypeId::FactoryTechLab,
                UnitTypeId::StarportTechLab,
            ],
            UnitTypeId::FactoryReactor => vec![
                UnitTypeId::Reactor,
                UnitTypeId::BarracksReactor,
                UnitTypeId::StarportReactor,
            ],
            UnitTypeId::FactoryTechLab => vec![
                UnitTypeId::TechLab,
                UnitTypeId::BarracksTechLab,
                UnitTypeId::StarportTechLab,
            ],
            UnitTypeId::StarportReactor => vec![
                UnitTypeId::Reactor,
                UnitTypeId::BarracksReactor,
                UnitTypeId::FactoryReactor,
            ],
            UnitTypeId::StarportTechLab => vec![
                UnitTypeId::TechLab,
                UnitTypeId::BarracksTechLab,
                UnitTypeId::FactoryTechLab,
            ],
            UnitTypeId::PylonOvercharged => vec![UnitTypeId::Pylon],
            UnitTypeId::Pylon => vec![UnitTypeId::PylonOvercharged],
            UnitTypeId::QueenBurrowed => vec![UnitTypeId::Queen],
            UnitTypeId::Queen => vec![UnitTypeId::QueenBurrowed],
            UnitTypeId::Refinery => vec![UnitTypeId::RefineryRich],
            UnitTypeId::RefineryRich => vec![UnitTypeId::Refinery],
            UnitTypeId::SiegeTank => vec![UnitTypeId::SiegeTankSieged],
            UnitTypeId::SiegeTankSieged => vec![UnitTypeId::SiegeTank],
            UnitTypeId::SupplyDepot => vec![UnitTypeId::SupplyDepotLowered],
            UnitTypeId::SupplyDepotLowered => vec![UnitTypeId::SupplyDepot],
            UnitTypeId::Thor => vec![UnitTypeId::ThorAP],
            UnitTypeId::ThorAP => vec![UnitTypeId::Thor],
            UnitTypeId::Viking => vec![
                UnitTypeId::VikingFighter,
                UnitTypeId::VikingAssault,
            ],
            UnitTypeId::VikingFighter => vec![
                UnitTypeId::Viking,
                UnitTypeId::VikingAssault,
            ],
            UnitTypeId::VikingAssault => vec![
                UnitTypeId::Viking,
                UnitTypeId::VikingFighter,
            ],
            UnitTypeId::Gateway => vec![UnitTypeId::WarpGate],
            UnitTypeId::WarpGate => vec![UnitTypeId::Gateway],
            UnitTypeId::WarpPrism => vec![UnitTypeId::WarpPrismPhasing],
            UnitTypeId::WarpPrismPhasing => vec![UnitTypeId::WarpPrism],
            UnitTypeId::WidowMine => vec![UnitTypeId::WidowMineBurrowed],
            UnitTypeId::WidowMineBurrowed => vec![UnitTypeId::WidowMine],
            _ => Vec::new(),
        }
    }

    /// The toggled-state counterpart of `unit`, or `None` if the unit has
    /// no tracked counterpart.
    pub fn alias_pair(&self, unit: UnitTypeId) -> (r: Option<UnitTypeId>)
        ensures
            r == alias_pair_spec(unit),
    {
        match unit {
            UnitTypeId::Adept => Some(UnitTypeId::AdeptPhaseShift),
            UnitTypeId::AdeptPhaseShift => Some(UnitTypeId::Adept),
            UnitTypeId::Assimilator => Some(UnitTypeId::AssimilatorRich),
            UnitTypeId::AssimilatorRich => Some(UnitTypeId::Assimilator),
            UnitTypeId::Baneling => Some(UnitTypeId::BanelingBurrowed),
            UnitTypeId::BanelingBurrowed => Some(UnitTypeId::Baneling),
            UnitTypeId::Barracks => Some(UnitTypeId::BarracksFlying),
            UnitTypeId::BarracksFlying => Some(UnitTypeId::Barracks),
            UnitTypeId::Changeling => Some(UnitTypeId::ChangelingZerglingWings),
            UnitTypeId::ChangelingZerglingWings => Some(UnitTypeId::Changeling),
            UnitTypeId::CommandCenter => Some(UnitTypeId::CommandCenterFlying),
            UnitTypeId::CommandCenterFlying => Some(UnitTypeId::CommandCenter),
            UnitTypeId::CreepTumor => Some(UnitTypeId::CreepTumorQueen),
            UnitTypeId::CreepTumorQueen => Some(UnitTypeId::CreepTumor),
            UnitTypeId::Drone => Some(UnitTypeId::DroneBurrowed),
            UnitTypeId::DroneBurrowed => Some(UnitTypeId::Drone),
            UnitTypeId::Extractor => Some(UnitTypeId::ExtractorRich),
            UnitTypeId::ExtractorRich => Some(UnitTypeId::Extractor),
            UnitTypeId::Factory => Some(UnitTypeId::FactoryFlying),
            UnitTypeId::FactoryFlying => Some(UnitTypeId::Factory),
            UnitTypeId::Hydralisk => Some(UnitTypeId::HydraliskBurrowed),
            UnitTypeId::HydraliskBurrowed => Some(UnitTypeId::Hydralisk),
            UnitTypeId::Infestor => Some(UnitTypeId::InfestorBurrowed),
            UnitTypeId::InfestorBurrowed => Some(UnitTypeId::Infestor),
            UnitTypeId::InfestorTerran => Some(UnitTypeId::InfestorTerranBurrowed),
            UnitTypeId::InfestorTerranBurrowed => Some(UnitTypeId::InfestorTerran),
            UnitTypeId::Liberator => Some(UnitTypeId::LiberatorAG),
            UnitTypeId::LiberatorAG => Some(UnitTypeId::Liberator),
            UnitTypeId::LocustMP => Some(UnitTypeId::LocustMPFlying),
            UnitTypeId::LocustMPFlying => Some(UnitTypeId::LocustMP),
            UnitTypeId::LurkerMP => Some(UnitTypeId::LurkerMPBurrowed),
            UnitTypeId::LurkerMPBurrowed => Some(UnitTypeId::LurkerMP),
            UnitTypeId::Observer => Some(UnitTypeId::ObserverSiegeMode),
            UnitTypeId::ObserverSiegeMode => Some(UnitTypeId::Observer),
            UnitTypeId::OrbitalCommand => Some(UnitTypeId::OrbitalCommandFlying),
            UnitTypeId::OrbitalCommandFlying => Some(UnitTypeId::OrbitalCommand),
            UnitTypeId::Overseer => Some(UnitTypeId::OverseerSiegeMode),
            UnitTypeId::OverseerSiegeMode => Some(UnitTypeId::Overseer),
            UnitTypeId::Pylon => Some(UnitTypeId::PylonOvercharged),
            UnitTypeId::PylonOvercharged => Some(UnitTypeId::Pylon),
            UnitTypeId::Queen => Some(UnitTypeId::QueenBurrowed),
            UnitTypeId::QueenBurrowed => Some(UnitTypeId::Queen),
            UnitTypeId::Ravager => Some(UnitTypeId::RavagerBurrowed),
            UnitTypeId::RavagerBurrowed => Some(UnitTypeId::Ravager),
            UnitTypeId::Refinery => Some(UnitTypeId::RefineryRich),
            UnitTypeId::RefineryRich => Some(UnitTypeId::Refinery),
            UnitTypeId::Roach => Some(UnitTypeId::RoachBurrowed),
            UnitTypeId::RoachBurrowed => Some(UnitTypeId::Roach),
            UnitTypeId::SiegeTank => Some(UnitTypeId::SiegeTankSieged),
            UnitTypeId::SiegeTankSieged => Some(UnitTypeId::SiegeTank),
            UnitTypeId::SpineCrawler => Some(UnitTypeId::SpineCrawlerUprooted),
            UnitTypeId::SpineCrawlerUprooted => Some(UnitTypeId::SpineCrawler),
            UnitTypeId::SporeCrawler => Some(UnitTypeId::SporeCrawlerUprooted),
            UnitTypeId::SporeCrawlerUprooted => Some(UnitTypeId::SporeCrawler),
            UnitTypeId::Starport => Some(UnitTypeId::StarportFlying),
            UnitTypeId::StarportFlying => Some(UnitTypeId::Starport),
            UnitTypeId::SupplyDepot => Some(UnitTypeId::SupplyDepotLowered),
            UnitTypeId::SupplyDepotLowered => Some(UnitTypeId::SupplyDepot),
            UnitTypeId::SwarmHostMP => Some(UnitTypeId::SwarmHostBurrowedMP),
            UnitTypeId::SwarmHostBurrowedMP => Some(UnitTypeId::SwarmHostMP),
            UnitTypeId::Thor => Some(UnitTypeId::ThorAP),
            UnitTypeId::ThorAP => Some(UnitTypeId::Thor),
            UnitTypeId::Ultralisk => Some(UnitTypeId::UltraliskBurrowed),
            UnitTypeId::UltraliskBurrowed => Some(UnitTypeId::Ultralisk),
            UnitTypeId::VikingFighter => Some(UnitTypeId::VikingAssault),
            UnitTypeId::VikingAssault => Some(UnitTypeId::VikingFighter),
            UnitTypeId::WarpPrismPhasing => Some(UnitTypeId::WarpPrism),
            UnitTypeId::WarpPrism => Some(UnitTypeId::WarpPrismPhasing),
            UnitTypeId::WidowMine => Some(UnitTypeId::WidowMineBurrowed),
            UnitTypeId::WidowMineBurrowed => Some(UnitTypeId::WidowMine),
            UnitTypeId::Zergling => Some(UnitTypeId::ZerglingBurrowed),
            UnitTypeId::ZerglingBurrowed => Some(UnitTypeId::Zergling),
            _ => None,
        }
    }
}

/// Pair symmetry: whenever `k` has the paired counterpart `b`, then `b`'s
/// counterpart is `k` again.
pub proof fn lemma_alias_pair_symmetric(k: UnitTypeId, b: UnitTypeId)
    requires
        alias_pair_spec(k) == Some(b),
    ensures
        alias_pair_spec(b) == Some(k),
{
    match k {
        UnitTypeId::Adept => {}
        UnitTypeId::AdeptPhaseShift => {}
        UnitTypeId::Assimilator => {}
        UnitTypeId::AssimilatorRich => {}
        UnitTypeId::Baneling => {}
        UnitTypeId::BanelingBurrowed => {}
        UnitTypeId::Barracks => {}
        UnitTypeId::BarracksFlying => {}
        UnitTypeId::Changeling => {}
        UnitTypeId::ChangelingZerglingWings => {}
        UnitTypeId::CommandCenter => {}
        UnitTypeId::CommandCenterFlying => {}
        UnitTypeId::CreepTumor => {}
        UnitTypeId::CreepTumorQueen => {}
        UnitTypeId::Drone => {}
        UnitTypeId::DroneBurrowed => {}
        UnitTypeId::Extractor => {}
        UnitTypeId::ExtractorRich => {}
        UnitTypeId::Factory => {}
        UnitTypeId::FactoryFlying => {}
        UnitTypeId::Hydralisk => {}
        UnitTypeId::HydraliskBurrowed => {}
        UnitTypeId::Infestor => {}
        UnitTypeId::InfestorBurrowed => {}
        UnitTypeId::InfestorTerran => {}
        UnitTypeId::InfestorTerranBurrowed => {}
        UnitTypeId::Liberator => {}
        UnitTypeId::LiberatorAG => {}
        UnitTypeId::LocustMP => {}
        UnitTypeId::LocustMPFlying => {}
        UnitTypeId::LurkerMP => {}
        UnitTypeId::LurkerMPBurrowed => {}
        UnitTypeId::Observer => {}
        UnitTypeId::ObserverSiegeMode => {}
        UnitTypeId::OrbitalCommand => {}
        UnitTypeId::OrbitalCommandFlying => {}
        UnitTypeId::Overseer => {}
        UnitTypeId::OverseerSiegeMode => {}
        UnitTypeId::Pylon => {}
        UnitTypeId::PylonOvercharged => {}
        UnitTypeId::Queen => {}
        UnitTypeId::QueenBurrowed => {}
        UnitTypeId::Ravager => {}
        UnitTypeId::RavagerBurrowed => {}
        UnitTypeId::Refinery => {}
        UnitTypeId::RefineryRich => {}
        UnitTypeId::Roach => {}
        UnitTypeId::RoachBurrowed => {}
        UnitTypeId::SiegeTank => {}
        UnitTypeId::SiegeTankSieged => {}
        UnitTypeId::SpineCrawler => {}
        UnitTypeId::SpineCrawlerUprooted => {}
        UnitTypeId::SporeCrawler => {}
        UnitTypeId::SporeCrawlerUprooted => {}
        UnitTypeId::Starport => {}
        UnitTypeId::StarportFlying => {}
        UnitTypeId::SupplyDepot => {}
        UnitTypeId::SupplyDepotLowered => {}
        UnitTypeId::SwarmHostMP => {}
        UnitTypeId::SwarmHostBurrowedMP => {}
        UnitTypeId::Thor => {}
        UnitTypeId::ThorAP => {}
        UnitTypeId::Ultralisk => {}
        UnitTypeId::UltraliskBurrowed => {}
        UnitTypeId::VikingFighter => {}
        UnitTypeId::VikingAssault => {}
        UnitTypeId::WarpPrismPhasing => {}
        UnitTypeId::WarpPrism => {}
        UnitTypeId::WidowMine => {}
        UnitTypeId::WidowMineBurrowed => {}
        UnitTypeId::Zergling => {}
        UnitTypeId::ZerglingBurrowed => {}
        _ => {}
    }
}

/// No identifier is its own paired counterpart.
pub proof fn lemma_alias_pair_irreflexive(u: UnitTypeId)
    ensures
        alias_pair_spec(u) != Some(u),
{
}

/// No identifier is a member of its own morph group.
pub proof fn lemma_alias_group_irreflexive(u: UnitTypeId)
    ensures
        !alias_group_spec(u).contains(u),
{
    match u {
        UnitTypeId::Assimilator => {
            assert(alias_group_spec(u)[0] != u);
        }
        UnitTypeId::AssimilatorRich => {
            assert(alias_group_spec(u)[0] != u);
        }
        UnitTypeId::Barracks => {
            assert(alias_group_spec(u)[0] != u);
        }
        UnitTypeId::BarracksFlying => {
            assert(alias_group_spec(u)[0] != u);
        }
        UnitTypeId::CommandCenter => {
            assert(alias_group_spec(u)[0] != u);
            assert(alias_group_spec(u)[1] != u);
            assert(alias_group_spec(u)[2] != u);
            assert(alias_group_spec(u)[3] != u);
        }
        UnitTypeId::CommandCenterFlying => {
            assert(alias_group_spec(u)[0] != u);
            assert(alias_group_spec(u)[1] != u);
            assert(alias_group_spec(u)[2] != u);
            assert(alias_group_spec(u)[3] != u);
        }
        UnitTypeId::OrbitalCommand => {
            assert(alias_group_spec(u)[0] != u);
            assert(alias_group_spec(u)[1] != u);
            assert(alias_group_spec(u)[2] != u);
            assert(alias_group_spec(u)[3] != u);
        }
        UnitTypeId::OrbitalCommandFlying => {
            assert(alias_group_spec(u)[0] != u);
            assert(alias_group_spec(u)[1] != u);
            assert(alias_group_spec(u)[2] != u);
            assert(alias_group_spec(u)[3] != u);
        }
        UnitTypeId::PlanetaryFortress => {
            assert(alias_group_spec(u)[0] != u);
            assert(alias_group_spec(u)[1] != u);
            assert(alias_group_spec(u)[2] != u);
            assert(alias_group_spec(u)[3] != u);
        }
        UnitTypeId::CreepTumor => {
            assert(alias_group_spec(u)[0] != u);
            assert(alias_group_spec(u)[1] != u);
        }
        UnitTypeId::CreepTumorBurrowed => {
            assert(alias_group_spec(u)[0] != u);
            assert(alias_group_spec(u)[1] != u);
        }
        UnitTypeId::CreepTumorQueen => {
            assert(alias_group_spec(u)[0] != u);
            assert(alias_group_spec(u)[1] != u);
        }
        UnitTypeId::Hatchery => {
            assert(alias_group_spec(u)[0] != u);
            assert(alias_group_spec(u)[1] != u);
        }
        UnitTypeId::Lair => {
            assert(alias_group_spec(u)[0] != u);
            assert(alias_group_spec(u)[1] != u);
        }
        UnitTypeId::Hive => {
            assert(alias_group_spec(u)[0] != u);
            assert(alias_group_spec(u)[1] != u);
        }
        UnitTypeId::LiberatorAG => {
            assert(alias_group_spec(u)[0] != u);
        }
        UnitTypeId::Liberator => {
            assert(alias_group_spec(u)[0] != u);
        }
        UnitTypeId::Extractor => {
            assert(alias_group_spec(u)[0] != u);
        }
        UnitTypeId::ExtractorRich => {
            assert(alias_group_spec(u)[0] != u);
        }
        UnitTypeId::Spire => {
            assert(alias_group_spec(u)[0] != u);
        }
        UnitTypeId::GreaterSpire => {
            assert(alias_group_spec(u)[0] != u);
        }
        UnitTypeId::OverlordTransport => {
            assert(alias_group_spec(u)[0] != u);
        }
        UnitTypeId::Overlord => {
            assert(alias_group_spec(u)[0] != u);
        }
        UnitTypeId::Overseer => {
            assert(alias_group_spec(u)[0] != u);
        }
        UnitTypeId::OverseerSiegeMode => {
            assert(alias_group_spec(u)[0] != u);
        }
        UnitTypeId::Factory => {
            assert(alias_group_spec(u)[0] != u);
        }
        UnitTypeId::FactoryFlying => {
            assert(alias_group_spec(u)[0] != u);
        }
        UnitTypeId::Starport => {
            assert(alias_group_spec(u)[0] != u);
        }
        UnitTypeId::StarportFlying => {
            assert(alias_group_spec(u)[0] != u);
        }
        UnitTypeId::Reactor => {
            assert(alias_group_spec(u)[0] != u);
            assert(alias_group_spec(u)[1] != u);
            assert(alias_group_spec(u)[2] != u);
        }
        UnitTypeId::TechLab => {
            assert(alias_group_spec(u)[0] != u);
            assert(alias_group_spec(u)[1] != u);
            assert(alias_group_spec(u)[2] != u);
        }
        UnitTypeId::BarracksReactor => {
            assert(alias_group_spec(u)[0] != u);
            assert(alias_group_spec(u)[1] != u);
            assert(alias_group_spec(u)[2] != u);
        }
        UnitTypeId::BarracksTechLab => {
            assert(alias_group_spec(u)[0] != u);
            assert(alias_group_spec(u)[1] != u);
            assert(alias_group_spec(u)[2] != u);
        }
        UnitTypeId::FactoryReactor => {
            assert(alias_group_spec(u)[0] != u);
            assert(alias_group_spec(u)[1] != u);
            assert(alias_group_spec(u)[2] != u);
        }
        UnitTypeId::FactoryTechLab => {
            assert(alias_group_spec(u)[0] != u);
            assert(alias_group_spec(u)[1] != u);
            assert(alias_group_spec(u)[2] != u);
        }
        UnitTypeId::StarportReactor => {
            assert(alias_group_spec(u)[0] != u);
            assert(alias_group_spec(u)[1] != u);
            assert(alias_group_spec(u)[2] != u);
        }
        UnitTypeId::StarportTechLab => {
            assert(alias_group_spec(u)[0] != u);
            assert(alias_group_spec(u)[1] != u);
            assert(alias_group_spec(u)[2] != u);
        }
        UnitTypeId::PylonOvercharged => {
            assert(alias_group_spec(u)[0] != u);
        }
        UnitTypeId::Pylon => {
            assert(alias_group_spec(u)[0] != u);
        }
        UnitTypeId::QueenBurrowed => {
            assert(alias_group_spec(u)[0] != u);
        }
        UnitTypeId::Queen => {
            assert(alias_group_spec(u)[0] != u);
        }
        UnitTypeId::Refinery => {
            assert(alias_group_spec(u)[0] != u);
        }
        UnitTypeId::RefineryRich => {
            assert(alias_group_spec(u)[0] != u);
        }
        UnitTypeId::SiegeTank => {
            assert(alias_group_spec(u)[0] != u);
        }
        UnitTypeId::SiegeTankSieged => {
            assert(alias_group_spec(u)[0] != u);
        }
        UnitTypeId::SupplyDepot => {
            assert(alias_group_spec(u)[0] != u);
        }
        UnitTypeId::SupplyDepotLowered => {
            assert(alias_group_spec(u)[0] != u);
        }
        UnitTypeId::Thor => {
            assert(alias_group_spec(u)[0] != u);
        }
        UnitTypeId::ThorAP => {
            assert(alias_group_spec(u)[0] != u);
        }
        UnitTypeId::Viking => {
            assert(alias_group_spec(u)[0] != u);
            assert(alias_group_spec(u)[1] != u);
        }
        UnitTypeId::VikingFighter => {
            assert(alias_group_spec(u)[0] != u);
            assert(alias_group_spec(u)[1] != u);
        }
        UnitTypeId::VikingAssault => {
            assert(alias_group_spec(u)[0] != u);
            assert(alias_group_spec(u)[1] != u);
        }
        UnitTypeId::Gateway => {
            assert(alias_group_spec(u)[0] != u);
        }
        UnitTypeId::WarpGate => {
            assert(alias_group_spec(u)[0] != u);
        }
        UnitTypeId::WarpPrism => {
            assert(alias_group_spec(u)[0] != u);
        }
        UnitTypeId::WarpPrismPhasing => {
            assert(alias_group_spec(u)[0] != u);
        }
        UnitTypeId::WidowMine => {
            assert(alias_group_spec(u)[0] != u);
        }
        UnitTypeId::WidowMineBurrowed => {
            assert(alias_group_spec(u)[0] != u);
        }
        _ => {
            assert(alias_group_spec(u).len() == 0);
        }
    }
}

/// Morph-group closure: whenever `m` lies in `k`'s morph group `S`, then
/// `m`'s own group contains `k` and every other element of `S` except `m`
/// itself, so the recorded groups form complete cliques.
pub proof fn lemma_alias_group_closure(k: UnitTypeId, m: UnitTypeId)
    requires
        alias_group_spec(k).contains(m),
    ensures
        alias_group_spec(m).contains(k),
        forall|x: UnitTypeId| #[trigger] alias_group_spec(k).contains(x) && x != m
            ==> alias_group_spec(m).contains(x),
{
    match k {
        UnitTypeId::Assimilator => {
            if m == UnitTypeId::AssimilatorRich {
                assert(alias_group_spec(UnitTypeId::AssimilatorRich)[0] == k);
            }
        }
        UnitTypeId::AssimilatorRich => {
            if m == UnitTypeId::Assimilator {
                assert(alias_group_spec(UnitTypeId::Assimilator)[0] == k);
            }
        }
        UnitTypeId::Barracks => {
            if m == UnitTypeId::BarracksFlying {
                assert(alias_group_spec(UnitTypeId::BarracksFlying)[0] == k);
            }
        }
        UnitTypeId::BarracksFlying => {
            if m == UnitTypeId::Barracks {
                assert(alias_group_spec(UnitTypeId::Barracks)[0] == k);
            }
        }
        UnitTypeId::CommandCenter => {
            if m == UnitTypeId::CommandCenterFlying {
                assert(alias_group_spec(UnitTypeId::CommandCenterFlying)[0] == k);
                assert forall|x: UnitTypeId| alias_group_spec(k).contains(x) && x != m
                    implies alias_group_spec(m).contains(x) by {
                    if x == UnitTypeId::OrbitalCommand {
                        assert(alias_group_spec(UnitTypeId::CommandCenterFlying)[1] == x);
                    }
                    if x == UnitTypeId::OrbitalCommandFlying {
                        assert(alias_group_spec(UnitTypeId::CommandCenterFlying)[2] == x);
                    }
                    if x == UnitTypeId::PlanetaryFortress {
                        assert(alias_group_spec(UnitTypeId::CommandCenterFlying)[3] == x);
                    }
                }
            } else if m == UnitTypeId::OrbitalCommand {
                assert(alias_group_spec(UnitTypeId::OrbitalCommand)[0] == k);
                assert forall|x: UnitTypeId| alias_group_spec(k).contains(x) && x != m
                    implies alias_group_spec(m).contains(x) by {
                    if x == UnitTypeId::CommandCenterFlying {
                        assert(alias_group_spec(UnitTypeId::OrbitalCommand)[1] == x);
                    }
                    if x == UnitTypeId::OrbitalCommandFlying {
                        assert(alias_group_spec(UnitTypeId::OrbitalCommand)[2] == x);
                    }
                    if x == UnitTypeId::PlanetaryFortress {
                        assert(alias_group_spec(UnitTypeId::OrbitalCommand)[3] == x);
                    }
                }
            } else if m == UnitTypeId::OrbitalCommandFlying {
                assert(alias_group_spec(UnitTypeId::OrbitalCommandFlying)[0] == k);
                assert forall|x: UnitTypeId| alias_group_spec(k).contains(x) && x != m
                    implies alias_group_spec(m).contains(x) by {
                    if x == UnitTypeId::CommandCenterFlying {
                        assert(alias_group_spec(UnitTypeId::OrbitalCommandFlying)[1] == x);
                    }
                    if x == UnitTypeId::OrbitalCommand {
                        assert(alias_group_spec(UnitTypeId::OrbitalCommandFlying)[2] == x);
                    }
                    if x == UnitTypeId::PlanetaryFortress {
                        assert(alias_group_spec(UnitTypeId::OrbitalCommandFlying)[3] == x);
                    }
                }
            } else if m == UnitTypeId::PlanetaryFortress {
                assert(alias_group_spec(UnitTypeId::PlanetaryFortress)[0] == k);
                assert forall|x: UnitTypeId| alias_group_spec(k).contains(x) && x != m
                    implies alias_group_spec(m).contains(x) by {
                    if x == UnitTypeId::CommandCenterFlying {
                        assert(alias_group_spec(UnitTypeId::PlanetaryFortress)[1] == x);
                    }
                    if x == UnitTypeId::OrbitalCommand {
                        assert(alias_group_spec(UnitTypeId::PlanetaryFortress)[2] == x);
                    }
                    if x == UnitTypeId::OrbitalCommandFlying {
                        assert(alias_group_spec(UnitTypeId::PlanetaryFortress)[3] == x);
                    }
                }
            }
        }
        UnitTypeId::CommandCenterFlying => {
            if m == UnitTypeId::CommandCenter {
                assert(alias_group_spec(UnitTypeId::CommandCenter)[0] == k);
                assert forall|x: UnitTypeId| alias_group_spec(k).contains(x) && x != m
                    implies alias_group_spec(m).contains(x) by {
                    if x == UnitTypeId::OrbitalCommand {
                        assert(alias_group_spec(UnitTypeId::CommandCenter)[1] == x);
                    }
                    if x == UnitTypeId::OrbitalCommandFlying {
                        assert(alias_group_spec(UnitTypeId::CommandCenter)[2] == x);
                    }
                    if x == UnitTypeId::PlanetaryFortress {
                        assert(alias_group_spec(UnitTypeId::CommandCenter)[3] == x);
                    }
                }
            } else if m == UnitTypeId::OrbitalCommand {
                assert(alias_group_spec(UnitTypeId::OrbitalCommand)[1] == k);
                assert forall|x: UnitTypeId| alias_group_spec(k).contains(x) && x != m
                    implies alias_group_spec(m).contains(x) by {
                    if x == UnitTypeId::CommandCenter {
                        assert(alias_group_spec(UnitTypeId::OrbitalCommand)[0] == x);
                    }
                    if x == UnitTypeId::OrbitalCommandFlying {
                        assert(alias_group_spec(UnitTypeId::OrbitalCommand)[2] == x);
                    }
                    if x == UnitTypeId::PlanetaryFortress {
                        assert(alias_group_spec(UnitTypeId::OrbitalCommand)[3] == x);
                    }
                }
            } else if m == UnitTypeId::OrbitalCommandFlying {
                assert(alias_group_spec(UnitTypeId::OrbitalCommandFlying)[1] == k);
                assert forall|x: UnitTypeId| alias_group_spec(k).contains(x) && x != m
                    implies alias_group_spec(m).contains(x) by {
                    if x == UnitTypeId::CommandCenter {
                        assert(alias_group_spec(UnitTypeId::OrbitalCommandFlying)[0] == x);
                    }
                    if x == UnitTypeId::OrbitalCommand {
                        assert(alias_group_spec(UnitTypeId::OrbitalCommandFlying)[2] == x);
                    }
                    if x == UnitTypeId::PlanetaryFortress {
                        assert(alias_group_spec(UnitTypeId::OrbitalCommandFlying)[3] == x);
                    }
                }
            } else if m == UnitTypeId::PlanetaryFortress {
                assert(alias_group_spec(UnitTypeId::PlanetaryFortress)[1] == k);
                assert forall|x: UnitTypeId| alias_group_spec(k).contains(x) && x != m
                    implies alias_group_spec(m).contains(x) by {
                    if x == UnitTypeId::CommandCenter {
                        assert(alias_group_spec(UnitTypeId::PlanetaryFortress)[0] == x);
                    }
                    if x == UnitTypeId::OrbitalCommand {
                        assert(alias_group_spec(UnitTypeId::PlanetaryFortress)[2] == x);
                    }
                    if x == UnitTypeId::OrbitalCommandFlying {
                        assert(alias_group_spec(UnitTypeId::PlanetaryFortress)[3] == x);
                    }
                }
            }
        }
        UnitTypeId::OrbitalCommand => {
            if m == UnitTypeId::CommandCenter {
                assert(alias_group_spec(UnitTypeId::CommandCenter)[1] == k);
                assert forall|x: UnitTypeId| alias_group_spec(k).contains(x) && x != m
                    implies alias_group_spec(m).contains(x) by {
                    if x == UnitTypeId::CommandCenterFlying {
                        assert(alias_group_spec(UnitTypeId::CommandCenter)[0] == x);
                    }
                    if x == UnitTypeId::OrbitalCommandFlying {
                        assert(alias_group_spec(UnitTypeId::CommandCenter)[2] == x);
                    }
                    if x == UnitTypeId::PlanetaryFortress {
                        assert(alias_group_spec(UnitTypeId::CommandCenter)[3] == x);
                    }
                }
            } else if m == UnitTypeId::CommandCenterFlying {
                assert(alias_group_spec(UnitTypeId::CommandCenterFlying)[1] == k);
                assert forall|x: UnitTypeId| alias_group_spec(k).contains(x) && x != m
                    implies alias_group_spec(m).contains(x) by {
                    if x == UnitTypeId::CommandCenter {
                        assert(alias_group_spec(UnitTypeId::CommandCenterFlying)[0] == x);
                    }
                    if x == UnitTypeId::OrbitalCommandFlying {
                        assert(alias_group_spec(UnitTypeId::CommandCenterFlying)[2] == x);
                    }
                    if x == UnitTypeId::PlanetaryFortress {
                        assert(alias_group_spec(UnitTypeId::CommandCenterFlying)[3] == x);
                    }
                }
            } else if m == UnitTypeId::OrbitalCommandFlying {
                assert(alias_group_spec(UnitTypeId::OrbitalCommandFlying)[2] == k);
                assert forall|x: UnitTypeId| alias_group_spec(k).contains(x) && x != m
                    implies alias_group_spec(m).contains(x) by {
                    if x == UnitTypeId::CommandCenter {
                        assert(alias_group_spec(UnitTypeId::OrbitalCommandFlying)[0] == x);
                    }
                    if x == UnitTypeId::CommandCenterFlying {
                        assert(alias_group_spec(UnitTypeId::OrbitalCommandFlying)[1] == x);
                    }
                    if x == UnitTypeId::PlanetaryFortress {
                        assert(alias_group_spec(UnitTypeId::OrbitalCommandFlying)[3] == x);
                    }
                }
            } else if m == UnitTypeId::PlanetaryFortress {
                assert(alias_group_spec(UnitTypeId::PlanetaryFortress)[2] == k);
                assert forall|x: UnitTypeId| alias_group_spec(k).contains(x) && x != m
                    implies alias_group_spec(m).contains(x) by {
                    if x == UnitTypeId::CommandCenter {
                        assert(alias_group_spec(UnitTypeId::PlanetaryFortress)[0] == x);
                    }
                    if x == UnitTypeId::CommandCenterFlying {
                        assert(alias_group_spec(UnitTypeId::PlanetaryFortress)[1] == x);
                    }
                    if x == UnitTypeId::OrbitalCommandFlying {
                        assert(alias_group_spec(UnitTypeId::PlanetaryFortress)[3] == x);
                    }
                }
            }
        }
        UnitTypeId::OrbitalCommandFlying => {
            if m == UnitTypeId::CommandCenter {
                assert(alias_group_spec(UnitTypeId::CommandCenter)[2] == k);
                assert forall|x: UnitTypeId| alias_group_spec(k).contains(x) && x != m
                    implies alias_group_spec(m).contains(x) by {
                    if x == UnitTypeId::CommandCenterFlying {
                        assert(alias_group_spec(UnitTypeId::CommandCenter)[0] == x);
                    }
                    if x == UnitTypeId::OrbitalCommand {
                        assert(alias_group_spec(UnitTypeId::CommandCenter)[1] == x);
                    }
                    if x == UnitTypeId::PlanetaryFortress {
                        assert(alias_group_spec(UnitTypeId::CommandCenter)[3] == x);
                    }
                }
            } else if m == UnitTypeId::CommandCenterFlying {
                assert(alias_group_spec(UnitTypeId::CommandCenterFlying)[2] == k);
                assert forall|x: UnitTypeId| alias_group_spec(k).contains(x) && x != m
                    implies alias_group_spec(m).contains(x) by {
                    if x == UnitTypeId::CommandCenter {
                        assert(alias_group_spec(UnitTypeId::CommandCenterFlying)[0] == x);
                    }
                    if x == UnitTypeId::OrbitalCommand {
                        assert(alias_group_spec(UnitTypeId::CommandCenterFlying)[1] == x);
                    }
                    if x == UnitTypeId::PlanetaryFortress {
                        assert(alias_group_spec(UnitTypeId::CommandCenterFlying)[3] == x);
                    }
                }
            } else if m == UnitTypeId::OrbitalCommand {
                assert(alias_group_spec(UnitTypeId::OrbitalCommand)[2] == k);
                assert forall|x: UnitTypeId| alias_group_spec(k).contains(x) && x != m
                    implies alias_group_spec(m).contains(x) by {
                    if x == UnitTypeId::CommandCenter {
                        assert(alias_group_spec(UnitTypeId::OrbitalCommand)[0] == x);
                    }
                    if x == UnitTypeId::CommandCenterFlying {
                        assert(alias_group_spec(UnitTypeId::OrbitalCommand)[1] == x);
                    }
                    if x == UnitTypeId::PlanetaryFortress {
                        assert(alias_group_spec(UnitTypeId::OrbitalCommand)[3] == x);
                    }
                }
            } else if m == UnitTypeId::PlanetaryFortress {
                assert(alias_group_spec(UnitTypeId::PlanetaryFortress)[3] == k);
                assert forall|x: UnitTypeId| alias_group_spec(k).contains(x) && x != m
                    implies alias_group_spec(m).contains(x) by {
                    if x == UnitTypeId::CommandCenter {
                        assert(alias_group_spec(UnitTypeId::PlanetaryFortress)[0] == x);
                    }
                    if x == UnitTypeId::CommandCenterFlying {
                        assert(alias_group_spec(UnitTypeId::PlanetaryFortress)[1] == x);
                    }
                    if x == UnitTypeId::OrbitalCommand {
                        assert(alias_group_spec(UnitTypeId::PlanetaryFortress)[2] == x);
                    }
                }
            }
        }
        UnitTypeId::PlanetaryFortress => {
            if m == UnitTypeId::CommandCenter {
                assert(alias_group_spec(UnitTypeId::CommandCenter)[3] == k);
                assert forall|x: UnitTypeId| alias_group_spec(k).contains(x) && x != m
                    implies alias_group_spec(m).contains(x) by {
                    if x == UnitTypeId::CommandCenterFlying {
                        assert(alias_group_spec(UnitTypeId::CommandCenter)[0] == x);
                    }
                    if x == UnitTypeId::OrbitalCommand {
                        assert(alias_group_spec(UnitTypeId::CommandCenter)[1] == x);
                    }
                    if x == UnitTypeId::OrbitalCommandFlying {
                        assert(alias_group_spec(UnitTypeId::CommandCenter)[2] == x);
                    }
                }
            } else if m == UnitTypeId::CommandCenterFlying {
                assert(alias_group_spec(UnitTypeId::CommandCenterFlying)[3] == k);
                assert forall|x: UnitTypeId| alias_group_spec(k).contains(x) && x != m
                    implies alias_group_spec(m).contains(x) by {
                    if x == UnitTypeId::CommandCenter {
                        assert(alias_group_spec(UnitTypeId::CommandCenterFlying)[0] == x);
                    }
                    if x == UnitTypeId::OrbitalCommand {
                        assert(alias_group_spec(UnitTypeId::CommandCenterFlying)[1] == x);
                    }
                    if x == UnitTypeId::OrbitalCommandFlying {
                        assert(alias_group_spec(UnitTypeId::CommandCenterFlying)[2] == x);
                    }
                }
            } else if m == UnitTypeId::OrbitalCommand {
                assert(alias_group_spec(UnitTypeId::OrbitalCommand)[3] == k);
                assert forall|x: UnitTypeId| alias_group_spec(k).contains(x) && x != m
                    implies alias_group_spec(m).contains(x) by {
                    if x == UnitTypeId::CommandCenter {
                        assert(alias_group_spec(UnitTypeId::OrbitalCommand)[0] == x);
                    }
                    if x == UnitTypeId::CommandCenterFlying {
                        assert(alias_group_spec(UnitTypeId::OrbitalCommand)[1] == x);
                    }
                    if x == UnitTypeId::OrbitalCommandFlying {
                        assert(alias_group_spec(UnitTypeId::OrbitalCommand)[2] == x);
                    }
                }
            } else if m == UnitTypeId::OrbitalCommandFlying {
                assert(alias_group_spec(UnitTypeId::OrbitalCommandFlying)[3] == k);
                assert forall|x: UnitTypeId| alias_group_spec(k).contains(x) && x != m
                    implies alias_group_spec(m).contains(x) by {
                    if x == UnitTypeId::CommandCenter {
                        assert(alias_group_spec(UnitTypeId::OrbitalCommandFlying)[0] == x);
                    }
                    if x == UnitTypeId::CommandCenterFlying {
                        assert(alias_group_spec(UnitTypeId::OrbitalCommandFlying)[1] == x);
                    }
                    if x == UnitTypeId::OrbitalCommand {
                        assert(alias_group_spec(UnitTypeId::OrbitalCommandFlying)[2] == x);
                    }
                }
            }
        }
        UnitTypeId::CreepTumor => {
            if m == UnitTypeId::CreepTumorBurrowed {
                assert(alias_group_spec(UnitTypeId::CreepTumorBurrowed)[0] == k);
                assert forall|x: UnitTypeId| alias_group_spec(k).contains(x) && x != m
                    implies alias_group_spec(m).contains(x) by {
                    if x == UnitTypeId::CreepTumorQueen {
                        assert(alias_group_spec(UnitTypeId::CreepTumorBurrowed)[1] == x);
                    }
                }
            } else if m == UnitTypeId::CreepTumorQueen {
                assert(alias_group_spec(UnitTypeId::CreepTumorQueen)[0] == k);
                assert forall|x: UnitTypeId| alias_group_spec(k).contains(x) && x != m
                    implies alias_group_spec(m).contains(x) by {
                    if x == UnitTypeId::CreepTumorBurrowed {
                        assert(alias_group_spec(UnitTypeId::CreepTumorQueen)[1] == x);
                    }
                }
            }
        }
        UnitTypeId::CreepTumorBurrowed => {
            if m == UnitTypeId::CreepTumor {
                assert(alias_group_spec(UnitTypeId::CreepTumor)[0] == k);
                assert forall|x: UnitTypeId| alias_group_spec(k).contains(x) && x != m
                    implies alias_group_spec(m).contains(x) by {
                    if x == UnitTypeId::CreepTumorQueen {
                        assert(alias_group_spec(UnitTypeId::CreepTumor)[1] == x);
                    }
                }
            } else if m == UnitTypeId::CreepTumorQueen {
                assert(alias_group_spec(UnitTypeId::CreepTumorQueen)[1] == k);
                assert forall|x: UnitTypeId| alias_group_spec(k).contains(x) && x != m
                    implies alias_group_spec(m).contains(x) by {
                    if x == UnitTypeId::CreepTumor {
                        assert(alias_group_spec(UnitTypeId::CreepTumorQueen)[0] == x);
                    }
                }
            }
        }
        UnitTypeId::CreepTumorQueen => {
            if m == UnitTypeId::CreepTumor {
                assert(alias_group_spec(UnitTypeId::CreepTumor)[1] == k);
                assert forall|x: UnitTypeId| alias_group_spec(k).contains(x) && x != m
                    implies alias_group_spec(m).contains(x) by {
                    if x == UnitTypeId::CreepTumorBurrowed {
                        assert(alias_group_spec(UnitTypeId::CreepTumor)[0] == x);
                    }
                }
            } else if m == UnitTypeId::CreepTumorBurrowed {
                assert(alias_group_spec(UnitTypeId::CreepTumorBurrowed)[1] == k);
                assert forall|x: UnitTypeId| alias_group_spec(k).contains(x) && x != m
                    implies alias_group_spec(m).contains(x) by {
                    if x == UnitTypeId::CreepTumor {
                        assert(alias_group_spec(UnitTypeId::CreepTumorBurrowed)[0] == x);
                    }
                }
            }
        }
        UnitTypeId::Hatchery => {
            if m == UnitTypeId::Lair {
                assert(alias_group_spec(UnitTypeId::Lair)[0] == k);
                assert forall|x: UnitTypeId| alias_group_spec(k).contains(x) && x != m
                    implies alias_group_spec(m).contains(x) by {
                    if x == UnitTypeId::Hive {
                        assert(alias_group_spec(UnitTypeId::Lair)[1] == x);
                    }
                }
            } else if m == UnitTypeId::Hive {
                assert(alias_group_spec(UnitTypeId::Hive)[0] == k);
                assert forall|x: UnitTypeId| alias_group_spec(k).contains(x) && x != m
                    implies alias_group_spec(m).contains(x) by {
                    if x == UnitTypeId::Lair {
                        assert(alias_group_spec(UnitTypeId::Hive)[1] == x);
                    }
                }
            }
        }
        UnitTypeId::Lair => {
            if m == UnitTypeId::Hatchery {
                assert(alias_group_spec(UnitTypeId::Hatchery)[0] == k);
                assert forall|x: UnitTypeId| alias_group_spec(k).contains(x) && x != m
                    implies alias_group_spec(m).contains(x) by {
                    if x == UnitTypeId::Hive {
                        assert(alias_group_spec(UnitTypeId::Hatchery)[1] == x);
                    }
                }
            } else if m == UnitTypeId::Hive {
                assert(alias_group_spec(UnitTypeId::Hive)[1] == k);
                assert forall|x: UnitTypeId| alias_group_spec(k).contains(x) && x != m
                    implies alias_group_spec(m).contains(x) by {
                    if x == UnitTypeId::Hatchery {
                        assert(alias_group_spec(UnitTypeId::Hive)[0] == x);
                    }
                }
            }
        }
        UnitTypeId::Hive => {
            if m == UnitTypeId::Hatchery {
                assert(alias_group_spec(UnitTypeId::Hatchery)[1] == k);
                assert forall|x: UnitTypeId| alias_group_spec(k).contains(x) && x != m
                    implies alias_group_spec(m).contains(x) by {
                    if x == UnitTypeId::Lair {
                        assert(alias_group_spec(UnitTypeId::Hatchery)[0] == x);
                    }
                }
            } else if m == UnitTypeId::Lair {
                assert(alias_group_spec(UnitTypeId::Lair)[1] == k);
                assert forall|x: UnitTypeId| alias_group_spec(k).contains(x) && x != m
                    implies alias_group_spec(m).contains(x) by {
                    if x == UnitTypeId::Hatchery {
                        assert(alias_group_spec(UnitTypeId::Lair)[0] == x);
                    }
                }
            }
        }
        UnitTypeId::LiberatorAG => {
            if m == UnitTypeId::Liberator {
                assert(alias_group_spec(UnitTypeId::Liberator)[0] == k);
            }
        }
        UnitTypeId::Liberator => {
            if m == UnitTypeId::LiberatorAG {
                assert(alias_group_spec(UnitTypeId::LiberatorAG)[0] == k);
            }
        }
        UnitTypeId::Extractor => {
            if m == UnitTypeId::ExtractorRich {
                assert(alias_group_spec(UnitTypeId::ExtractorRich)[0] == k);
            }
        }
        UnitTypeId::ExtractorRich => {
            if m == UnitTypeId::Extractor {
                assert(alias_group_spec(UnitTypeId::Extractor)[0] == k);
            }
        }
        UnitTypeId::Spire => {
            if m == UnitTypeId::GreaterSpire {
                assert(alias_group_spec(UnitTypeId::GreaterSpire)[0] == k);
            }
        }
        UnitTypeId::GreaterSpire => {
            if m == UnitTypeId::Spire {
                assert(alias_group_spec(UnitTypeId::Spire)[0] == k);
            }
        }
        UnitTypeId::OverlordTransport => {
            if m == UnitTypeId::Overlord {
                assert(alias_group_spec(UnitTypeId::Overlord)[0] == k);
            }
        }
        UnitTypeId::Overlord => {
            if m == UnitTypeId::OverlordTransport {
                assert(alias_group_spec(UnitTypeId::OverlordTransport)[0] == k);
            }
        }
        UnitTypeId::Overseer => {
            if m == UnitTypeId::OverseerSiegeMode {
                assert(alias_group_spec(UnitTypeId::OverseerSiegeMode)[0] == k);
            }
        }
        UnitTypeId::OverseerSiegeMode => {
            if m == UnitTypeId::Overseer {
                assert(alias_group_spec(UnitTypeId::Overseer)[0] == k);
            }
        }
        UnitTypeId::Factory => {
            if m == UnitTypeId::FactoryFlying {
                assert(alias_group_spec(UnitTypeId::FactoryFlying)[0] == k);
            }
        }
        UnitTypeId::FactoryFlying => {
            if m == UnitTypeId::Factory {
                assert(alias_group_spec(UnitTypeId::Factory)[0] == k);
            }
        }
        UnitTypeId::Starport => {
            if m == UnitTypeId::StarportFlying {
                assert(alias_group_spec(UnitTypeId::StarportFlying)[0] == k);
            }
        }
        UnitTypeId::StarportFlying => {
            if m == UnitTypeId::Starport {
                assert(alias_group_spec(UnitTypeId::Starport)[0] == k);
            }
        }
        UnitTypeId::Reactor => {
            if m == UnitTypeId::BarracksReactor {
                assert(alias_group_spec(UnitTypeId::BarracksReactor)[0] == k);
                assert forall|x: UnitTypeId| alias_group_spec(k).contains(x) && x != m
                    implies alias_group_spec(m).contains(x) by {
                    if x == UnitTypeId::FactoryReactor {
                        assert(alias_group_spec(UnitTypeId::BarracksReactor)[1] == x);
                    }
                    if x == UnitTypeId::StarportReactor {
                        assert(alias_group_spec(UnitTypeId::BarracksReactor)[2] == x);
                    }
                }
            } else if m == UnitTypeId::FactoryReactor {
                assert(alias_group_spec(UnitTypeId::FactoryReactor)[0] == k);
                assert forall|x: UnitTypeId| alias_group_spec(k).contains(x) && x != m
                    implies alias_group_spec(m).contains(x) by {
                    if x == UnitTypeId::BarracksReactor {
                        assert(alias_group_spec(UnitTypeId::FactoryReactor)[1] == x);
                    }
                    if x == UnitTypeId::StarportReactor {
                        assert(alias_group_spec(UnitTypeId::FactoryReactor)[2] == x);
                    }
                }
            } else if m == UnitTypeId::StarportReactor {
                assert(alias_group_spec(UnitTypeId::StarportReactor)[0] == k);
                assert forall|x: UnitTypeId| alias_group_spec(k).contains(x) && x != m
                    implies alias_group_spec(m).contains(x) by {
                    if x == UnitTypeId::BarracksReactor {
                        assert(alias_group_spec(UnitTypeId::StarportReactor)[1] == x);
                    }
                    if x == UnitTypeId::FactoryReactor {
                        assert(alias_group_spec(UnitTypeId::StarportReactor)[2] == x);
                    }
                }
            }
        }
        UnitTypeId::TechLab => {
            if m == UnitTypeId::BarracksTechLab {
                assert(alias_group_spec(UnitTypeId::BarracksTechLab)[0] == k);
                assert forall|x: UnitTypeId| alias_group_spec(k).contains(x) && x != m
                    implies alias_group_spec(m).contains(x) by {
                    if x == UnitTypeId::FactoryTechLab {
                        assert(alias_group_spec(UnitTypeId::BarracksTechLab)[1] == x);
                    }
                    if x == UnitTypeId::StarportTechLab {
                        assert(alias_group_spec(UnitTypeId::BarracksTechLab)[2] == x);
                    }
                }
            } else if m == UnitTypeId::FactoryTechLab {
                assert(alias_group_spec(UnitTypeId::FactoryTechLab)[0] == k);
                assert forall|x: UnitTypeId| alias_group_spec(k).contains(x) && x != m
                    implies alias_group_spec(m).contains(x) by {
                    if x == UnitTypeId::BarracksTechLab {
                        assert(alias_group_spec(UnitTypeId::FactoryTechLab)[1] == x);
                    }
                    if x == UnitTypeId::StarportTechLab {
                        assert(alias_group_spec(UnitTypeId::FactoryTechLab)[2] == x);
                    }
                }
            } else if m == UnitTypeId::StarportTechLab {
                assert(alias_group_spec(UnitTypeId::StarportTechLab)[0] == k);
                assert forall|x: UnitTypeId| alias_group_spec(k).contains(x) && x != m
                    implies alias_group_spec(m).contains(x) by {
                    if x == UnitTypeId::BarracksTechLab {
                        assert(alias_group_spec(UnitTypeId::StarportTechLab)[1] == x);
                    }
                    if x == UnitTypeId::FactoryTechLab {
                        assert(alias_group_spec(UnitTypeId::StarportTechLab)[2] == x);
                    }
                }
            }
        }
        UnitTypeId::BarracksReactor => {
            if m == UnitTypeId::Reactor {
                assert(alias_group_spec(UnitTypeId::Reactor)[0] == k);
                assert forall|x: UnitTypeId| alias_group_spec(k).contains(x) && x != m
                    implies alias_group_spec(m).contains(x) by {
                    if x == UnitTypeId::FactoryReactor {
                        assert(alias_group_spec(UnitTypeId::Reactor)[1] == x);
                    }
                    if x == UnitTypeId::StarportReactor {
                        assert(alias_group_spec(UnitTypeId::Reactor)[2] == x);
                    }
                }
            } else if m == UnitTypeId::FactoryReactor {
                assert(alias_group_spec(UnitTypeId::FactoryReactor)[1] == k);
                assert forall|x: UnitTypeId| alias_group_spec(k).contains(x) && x != m
                    implies alias_group_spec(m).contains(x) by {
                    if x == UnitTypeId::Reactor {
                        assert(alias_group_spec(UnitTypeId::FactoryReactor)[0] == x);
                    }
                    if x == UnitTypeId::StarportReactor {
                        assert(alias_group_spec(UnitTypeId::FactoryReactor)[2] == x);
                    }
                }
            } else if m == UnitTypeId::StarportReactor {
                assert(alias_group_spec(UnitTypeId::StarportReactor)[1] == k);
                assert forall|x: UnitTypeId| alias_group_spec(k).contains(x) && x != m
                    implies alias_group_spec(m).contains(x) by {
                    if x == UnitTypeId::Reactor {
                        assert(alias_group_spec(UnitTypeId::StarportReactor)[0] == x);
                    }
                    if x == UnitTypeId::FactoryReactor {
                        assert(alias_group_spec(UnitTypeId::StarportReactor)[2] == x);
                    }
                }
            }
        }
        UnitTypeId::BarracksTechLab => {
            if m == UnitTypeId::TechLab {
                assert(alias_group_spec(UnitTypeId::TechLab)[0] == k);
                assert forall|x: UnitTypeId| alias_group_spec(k).contains(x) && x != m
                    implies alias_group_spec(m).contains(x) by {
                    if x == UnitTypeId::FactoryTechLab {
                        assert(alias_group_spec(UnitTypeId::TechLab)[1] == x);
                    }
                    if x == UnitTypeId::StarportTechLab {
                        assert(alias_group_spec(UnitTypeId::TechLab)[2] == x);
                    }
                }
            } else if m == UnitTypeId::FactoryTechLab {
                assert(alias_group_spec(UnitTypeId::FactoryTechLab)[1] == k);
                assert forall|x: UnitTypeId| alias_group_spec(k).contains(x) && x != m
                    implies alias_group_spec(m).contains(x) by {
                    if x == UnitTypeId::TechLab {
                        assert(alias_group_spec(UnitTypeId::FactoryTechLab)[0] == x);
                    }
                    if x == UnitTypeId::StarportTechLab {
                        assert(alias_group_spec(UnitTypeId::FactoryTechLab)[2] == x);
                    }
                }
            } else if m == UnitTypeId::StarportTechLab {
                assert(alias_group_spec(UnitTypeId::StarportTechLab)[1] == k);
                assert forall|x: UnitTypeId| alias_group_spec(k).contains(x) && x != m
                    implies alias_group_spec(m).contains(x) by {
                    if x == UnitTypeId::TechLab {
                        assert(alias_group_spec(UnitTypeId::StarportTechLab)[0] == x);
                    }
                    if x == UnitTypeId::FactoryTechLab {
                        assert(alias_group_spec(UnitTypeId::StarportTechLab)[2] == x);
                    }
                }
            }
        }
        UnitTypeId::FactoryReactor => {
            if m == UnitTypeId::Reactor {
                assert(alias_group_spec(UnitTypeId::Reactor)[1] == k);
                assert forall|x: UnitTypeId| alias_group_spec(k).contains(x) && x != m
                    implies alias_group_spec(m).contains(x) by {
                    if x == UnitTypeId::BarracksReactor {
                        assert(alias_group_spec(UnitTypeId::Reactor)[0] == x);
                    }
                    if x == UnitTypeId::StarportReactor {
                        assert(alias_group_spec(UnitTypeId::Reactor)[2] == x);
                    }
                }
            } else if m == UnitTypeId::BarracksReactor {
                assert(alias_group_spec(UnitTypeId::BarracksReactor)[1] == k);
                assert forall|x: UnitTypeId| alias_group_spec(k).contains(x) && x != m
                    implies alias_group_spec(m).contains(x) by {
                    if x == UnitTypeId::Reactor {
                        assert(alias_group_spec(UnitTypeId::BarracksReactor)[0] == x);
                    }
                    if x == UnitTypeId::StarportReactor {
                        assert(alias_group_spec(UnitTypeId::BarracksReactor)[2] == x);
                    }
                }
            } else if m == UnitTypeId::StarportReactor {
                assert(alias_group_spec(UnitTypeId::StarportReactor)[2] == k);
                assert forall|x: UnitTypeId| alias_group_spec(k).contains(x) && x != m
                    implies alias_group_spec(m).contains(x) by {
                    if x == UnitTypeId::Reactor {
                        assert(alias_group_spec(UnitTypeId::StarportReactor)[0] == x);
                    }
                    if x == UnitTypeId::BarracksReactor {
                        assert(alias_group_spec(UnitTypeId::StarportReactor)[1] == x);
                    }
                }
            }
        }
        UnitTypeId::FactoryTechLab => {
            if m == UnitTypeId::TechLab {
                assert(alias_group_spec(UnitTypeId::TechLab)[1] == k);
                assert forall|x: UnitTypeId| alias_group_spec(k).contains(x) && x != m
                    implies alias_group_spec(m).contains(x) by {
                    if x == UnitTypeId::BarracksTechLab {
                        assert(alias_group_spec(UnitTypeId::TechLab)[0] == x);
                    }
                    if x == UnitTypeId::StarportTechLab {
                        assert(alias_group_spec(UnitTypeId::TechLab)[2] == x);
                    }
                }
            } else if m == UnitTypeId::BarracksTechLab {
                assert(alias_group_spec(UnitTypeId::BarracksTechLab)[1] == k);
                assert forall|x: UnitTypeId| alias_group_spec(k).contains(x) && x != m
                    implies alias_group_spec(m).contains(x) by {
                    if x == UnitTypeId::TechLab {
                        assert(alias_group_spec(UnitTypeId::BarracksTechLab)[0] == x);
                    }
                    if x == UnitTypeId::StarportTechLab {
                        assert(alias_group_spec(UnitTypeId::BarracksTechLab)[2] == x);
                    }
                }
            } else if m == UnitTypeId::StarportTechLab {
                assert(alias_group_spec(UnitTypeId::StarportTechLab)[2] == k);
                assert forall|x: UnitTypeId| alias_group_spec(k).contains(x) && x != m
                    implies alias_group_spec(m).contains(x) by {
                    if x == UnitTypeId::TechLab {
                        assert(alias_group_spec(UnitTypeId::StarportTechLab)[0] == x);
                    }
                    if x == UnitTypeId::BarracksTechLab {
                        assert(alias_group_spec(UnitTypeId::StarportTechLab)[1] == x);
                    }
                }
            }
        }
        UnitTypeId::StarportReactor => {
            if m == UnitTypeId::Reactor {
                assert(alias_group_spec(UnitTypeId::Reactor)[2] == k);
                assert forall|x: UnitTypeId| alias_group_spec(k).contains(x) && x != m
                    implies alias_group_spec(m).contains(x) by {
                    if x == UnitTypeId::BarracksReactor {
                        assert(alias_group_spec(UnitTypeId::Reactor)[0] == x);
                    }
                    if x == UnitTypeId::FactoryReactor {
                        assert(alias_group_spec(UnitTypeId::Reactor)[1] == x);
                    }
                }
            } else if m == UnitTypeId::BarracksReactor {
                assert(alias_group_spec(UnitTypeId::BarracksReactor)[2] == k);
                assert forall|x: UnitTypeId| alias_group_spec(k).contains(x) && x != m
                    implies alias_group_spec(m).contains(x) by {
                    if x == UnitTypeId::Reactor {
                        assert(alias_group_spec(UnitTypeId::BarracksReactor)[0] == x);
                    }
                    if x == UnitTypeId::FactoryReactor {
                        assert(alias_group_spec(UnitTypeId::BarracksReactor)[1] == x);
                    }
                }
            } else if m == UnitTypeId::FactoryReactor {
                assert(alias_group_spec(UnitTypeId::FactoryReactor)[2] == k);
                assert forall|x: UnitTypeId| alias_group_spec(k).contains(x) && x != m
                    implies alias_group_spec(m).contains(x) by {
                    if x == UnitTypeId::Reactor {
                        assert(alias_group_spec(UnitTypeId::FactoryReactor)[0] == x);
                    }
                    if x == UnitTypeId::BarracksReactor {
                        assert(alias_group_spec(UnitTypeId::FactoryReactor)[1] == x);
                    }
                }
            }
        }
        UnitTypeId::StarportTechLab => {
            if m == UnitTypeId::TechLab {
                assert(alias_group_spec(UnitTypeId::TechLab)[2] == k);
                assert forall|x: UnitTypeId| alias_group_spec(k).contains(x) && x != m
                    implies alias_group_spec(m).contains(x) by {
                    if x == UnitTypeId::BarracksTechLab {
                        assert(alias_group_spec(UnitTypeId::TechLab)[0] == x);
                    }
                    if x == UnitTypeId::FactoryTechLab {
                        assert(alias_group_spec(UnitTypeId::TechLab)[1] == x);
                    }
                }
            } else if m == UnitTypeId::BarracksTechLab {
                assert(alias_group_spec(UnitTypeId::BarracksTechLab)[2] == k);
                assert forall|x: UnitTypeId| alias_group_spec(k).contains(x) && x != m
                    implies alias_group_spec(m).contains(x) by {
                    if x == UnitTypeId::TechLab {
                        assert(alias_group_spec(UnitTypeId::BarracksTechLab)[0] == x);
                    }
                    if x == UnitTypeId::FactoryTechLab {
                        assert(alias_group_spec(UnitTypeId::BarracksTechLab)[1] == x);
                    }
                }
            } else if m == UnitTypeId::FactoryTechLab {
                assert(alias_group_spec(UnitTypeId::FactoryTechLab)[2] == k);
                assert forall|x: UnitTypeId| alias_group_spec(k).contains(x) && x != m
                    implies alias_group_spec(m).contains(x) by {
                    if x == UnitTypeId::TechLab {
                        assert(alias_group_spec(UnitTypeId::FactoryTechLab)[0] == x);
                    }
                    if x == UnitTypeId::BarracksTechLab {
                        assert(alias_group_spec(UnitTypeId::FactoryTechLab)[1] == x);
                    }
                }
            }
        }
        UnitTypeId::PylonOvercharged => {
            if m == UnitTypeId::Pylon {
                assert(alias_group_spec(UnitTypeId::Pylon)[0] == k);
            }
        }
        UnitTypeId::Pylon => {
            if m == UnitTypeId::PylonOvercharged {
                assert(alias_group_spec(UnitTypeId::PylonOvercharged)[0] == k);
            }
        }
        UnitTypeId::QueenBurrowed => {
            if m == UnitTypeId::Queen {
                assert(alias_group_spec(UnitTypeId::Queen)[0] == k);
            }
        }
        UnitTypeId::Queen => {
            if m == UnitTypeId::QueenBurrowed {
                assert(alias_group_spec(UnitTypeId::QueenBurrowed)[0] == k);
            }
        }
        UnitTypeId::Refinery => {
            if m == UnitTypeId::RefineryRich {
                assert(alias_group_spec(UnitTypeId::RefineryRich)[0] == k);
            }
        }
        UnitTypeId::RefineryRich => {
            if m == UnitTypeId::Refinery {
                assert(alias_group_spec(UnitTypeId::Refinery)[0] == k);
            }
        }
        UnitTypeId::SiegeTank => {
            if m == UnitTypeId::SiegeTankSieged {
                assert(alias_group_spec(UnitTypeId::SiegeTankSieged)[0] == k);
            }
        }
        UnitTypeId::SiegeTankSieged => {
            if m == UnitTypeId::SiegeTank {
                assert(alias_group_spec(UnitTypeId::SiegeTank)[0] == k);
            }
        }
        UnitTypeId::SupplyDepot => {
            if m == UnitTypeId::SupplyDepotLowered {
                assert(alias_group_spec(UnitTypeId::SupplyDepotLowered)[0] == k);
            }
        }
        UnitTypeId::SupplyDepotLowered => {
            if m == UnitTypeId::SupplyDepot {
                assert(alias_group_spec(UnitTypeId::SupplyDepot)[0] == k);
            }
        }
        UnitTypeId::Thor => {
            if m == UnitTypeId::ThorAP {
                assert(alias_group_spec(UnitTypeId::ThorAP)[0] == k);
            }
        }
        UnitTypeId::ThorAP => {
            if m == UnitTypeId::Thor {
                assert(alias_group_spec(UnitTypeId::Thor)[0] == k);
            }
        }
        UnitTypeId::Viking => {
            if m == UnitTypeId::VikingFighter {
                assert(alias_group_spec(UnitTypeId::VikingFighter)[0] == k);
                assert forall|x: UnitTypeId| alias_group_spec(k).contains(x) && x != m
                    implies alias_group_spec(m).contains(x) by {
                    if x == UnitTypeId::VikingAssault {
                        assert(alias_group_spec(UnitTypeId::VikingFighter)[1] == x);
                    }
                }
            } else if m == UnitTypeId::VikingAssault {
                assert(alias_group_spec(UnitTypeId::VikingAssault)[0] == k);
                assert forall|x: UnitTypeId| alias_group_spec(k).contains(x) && x != m
                    implies alias_group_spec(m).contains(x) by {
                    if x == UnitTypeId::VikingFighter {
                        assert(alias_group_spec(UnitTypeId::VikingAssault)[1] == x);
                    }
                }
            }
        }
        UnitTypeId::VikingFighter => {
            if m == UnitTypeId::Viking {
                assert(alias_group_spec(UnitTypeId::Viking)[0] == k);
                assert forall|x: UnitTypeId| alias_group_spec(k).contains(x) && x != m
                    implies alias_group_spec(m).contains(x) by {
                    if x == UnitTypeId::VikingAssault {
                        assert(alias_group_spec(UnitTypeId::Viking)[1] == x);
                    }
                }
            } else if m == UnitTypeId::VikingAssault {
                assert(alias_group_spec(UnitTypeId::VikingAssault)[1] == k);
                assert forall|x: UnitTypeId| alias_group_spec(k).contains(x) && x != m
                    implies alias_group_spec(m).contains(x) by {
                    if x == UnitTypeId::Viking {
                        assert(alias_group_spec(UnitTypeId::VikingAssault)[0] == x);
                    }
                }
            }
        }
        UnitTypeId::VikingAssault => {
            if m == UnitTypeId::Viking {
                assert(alias_group_spec(UnitTypeId::Viking)[1] == k);
                assert forall|x: UnitTypeId| alias_group_spec(k).contains(x) && x != m
                    implies alias_group_spec(m).contains(x) by {
                    if x == UnitTypeId::VikingFighter {
                        assert(alias_group_spec(UnitTypeId::Viking)[0] == x);
                    }
                }
            } else if m == UnitTypeId::VikingFighter {
                assert(alias_group_spec(UnitTypeId::VikingFighter)[1] == k);
                assert forall|x: UnitTypeId| alias_group_spec(k).contains(x) && x != m
                    implies alias_group_spec(m).contains(x) by {
                    if x == UnitTypeId::Viking {
                        assert(alias_group_spec(UnitTypeId::VikingFighter)[0] == x);
                    }
                }
            }
        }
        UnitTypeId::Gateway => {
            if m == UnitTypeId::WarpGate {
                assert(alias_group_spec(UnitTypeId::WarpGate)[0] == k);
            }
        }
        UnitTypeId::WarpGate => {
            if m == UnitTypeId::Gateway {
                assert(alias_group_spec(UnitTypeId::Gateway)[0] == k);
            }
        }
        UnitTypeId::WarpPrism => {
            if m == UnitTypeId::WarpPrismPhasing {
                assert(alias_group_spec(UnitTypeId::WarpPrismPhasing)[0] == k);
            }
        }
        UnitTypeId::WarpPrismPhasing => {
            if m == UnitTypeId::WarpPrism {
                assert(alias_group_spec(UnitTypeId::WarpPrism)[0] == k);
            }
        }
        UnitTypeId::WidowMine => {
            if m == UnitTypeId::WidowMineBurrowed {
                assert(alias_group_spec(UnitTypeId::WidowMineBurrowed)[0] == k);
            }
        }
        UnitTypeId::WidowMineBurrowed => {
            if m == UnitTypeId::WidowMine {
                assert(alias_group_spec(UnitTypeId::WidowMine)[0] == k);
            }
        }
        _ => {}
    }
}

} // verus!
