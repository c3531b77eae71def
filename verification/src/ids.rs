//! Identifier domains of the registry.
//!
//! Every lookup table of this crate is keyed by one of these enumerations.
//! They are plain tags: all structure (aliasing, production, modifiers) is
//! recorded in the table modules, never in the identifiers themselves.

use vstd::prelude::*;

verus! {

/// Which game-client build the registry describes: the full-feature build
/// or the reduced-feature build. Chosen once, when a registry is created.
#[derive(Clone, Copy, PartialEq, Eq, Hash, Debug, Structural)]
pub enum ClientVariant {
    Full,
    Reduced,
}

/// The playable races. `Random` stands for a player whose race is not yet
/// revealed; no structural facts are recorded for it.
#[derive(Clone, Copy, PartialEq, Eq, Hash, Debug, Structural)]
pub enum Race {
    Terran,
    Zerg,
    Protoss,
    Random,
}

/// Identifier of a unit, building or structure type. `NotAUnit` is the
/// sentinel for an unassigned slot.
#[derive(Clone, Copy, PartialEq, Eq, Hash, Debug, Structural)]
pub enum UnitTypeId {
    Adept,
    AdeptPhaseShift,
    Archon,
    Armory,
    Assimilator,
    AssimilatorRich,
    AutoTurret,
    Baneling,
    BanelingBurrowed,
    BanelingCocoon,
    BanelingNest,
    Banshee,
    Barracks,
    BarracksFlying,
    BarracksReactor,
    BarracksTechLab,
    Battlecruiser,
    BroodLord,
    Bunker,
    Carrier,
    Changeling,
    ChangelingMarine,
    ChangelingMarineShield,
    ChangelingZealot,
    ChangelingZergling,
    ChangelingZerglingWings,
    Colossus,
    CommandCenter,
    CommandCenterFlying,
    Corruptor,
    CreepTumor,
    CreepTumorBurrowed,
    CreepTumorQueen,
    CyberneticsCore,
    Cyclone,
    DarkShrine,
    DarkTemplar,
    Disruptor,
    Drone,
    DroneBurrowed,
    EngineeringBay,
    EvolutionChamber,
    Extractor,
    ExtractorRich,
    Factory,
    FactoryFlying,
    FactoryReactor,
    FactoryTechLab,
    FleetBeacon,
    Forge,
    FusionCore,
    Gateway,
    GhostUnit,
    GhostAcademy,
    GreaterSpire,
    Hatchery,
    Hellion,
    HellionTank,
    HighTemplar,
    Hive,
    Hydralisk,
    HydraliskBurrowed,
    HydraliskDen,
    Immortal,
    InfestationPit,
    Infestor,
    InfestorBurrowed,
    InfestorTerran,
    InfestorTerranBurrowed,
    InhibitorZoneFlyingLarge,
    InhibitorZoneFlyingMedium,
    InhibitorZoneFlyingSmall,
    InhibitorZoneLarge,
    InhibitorZoneMedium,
    InhibitorZoneSmall,
    Lair,
    Larva,
    Liberator,
    LiberatorAG,
    LocustMP,
    LocustMPFlying,
    LurkerDenMP,
    LurkerMP,
    LurkerMPBurrowed,
    Marauder,
    Marine,
    Medivac,
    MissileTurret,
    Mothership,
    Mutalisk,
    Nexus,
    NotAUnit,
    NydusCanal,
    NydusNetwork,
    Observer,
    ObserverSiegeMode,
    Oracle,
    OracleStasisTrap,
    OrbitalCommand,
    OrbitalCommandFlying,
    Overlord,
    OverlordTransport,
    Overseer,
    OverseerSiegeMode,
    Phoenix,
    PhotonCannon,
    PlanetaryFortress,
    Probe,
    Pylon,
    PylonOvercharged,
    Queen,
    QueenBurrowed,
    Ravager,
    RavagerBurrowed,
    RavagerCocoon,
    Raven,
    Reactor,
    Reaper,
    Refinery,
    RefineryRich,
    Roach,
    RoachBurrowed,
    RoachWarren,
    RoboticsBay,
    RoboticsFacility,
    SCV,
    SensorTower,
    Sentry,
    ShieldBattery,
    SiegeTank,
    SiegeTankSieged,
    SpawningPool,
    SpineCrawler,
    SpineCrawlerUprooted,
    Spire,
    SporeCrawler,
    SporeCrawlerUprooted,
    Stalker,
    Stargate,
    Starport,
    StarportFlying,
    StarportReactor,
    StarportTechLab,
    SupplyDepot,
    SupplyDepotLowered,
    SwarmHostBurrowedMP,
    SwarmHostMP,
    TechLab,
    Tempest,
    TemplarArchive,
    Thor,
    ThorAP,
    TwilightCouncil,
    Ultralisk,
    UltraliskBurrowed,
    UltraliskCavern,
    Viking,
    VikingAssault,
    VikingFighter,
    Viper,
    VoidRay,
    WarpGate,
    WarpPrism,
    WarpPrismPhasing,
    WidowMine,
    WidowMineBurrowed,
    Zealot,
    Zergling,
    ZerglingBurrowed,
}

/// Identifier of a researchable upgrade.
#[derive(Clone, Copy, PartialEq, Eq, Hash, Debug, Structural)]
pub enum UpgradeId {
    AdeptPiercingAttack,
    AnabolicSynthesis,
    BansheeCloak,
    BansheeSpeed,
    BattlecruiserEnableSpecializations,
    BlinkTech,
    Burrow,
    CentrificalHooks,
    Charge,
    ChitinousPlating,
    CycloneLockOnDamageUpgrade,
    DarkTemplarBlinkUpgrade,
    DiggingClaws,
    DrillClaws,
    EnhancedShockwaves,
    EvolveGroovedSpines,
    EvolveMuscularAugments,
    ExtendedThermalLance,
    GlialReconstitution,
    GraviticDrive,
    HiSecAutoTracking,
    HighCapacityBarrels,
    InfestorEnergyUpgrade,
    LiberatorMorph,
    MedivacIncreaseSpeedBoost,
    MedivacRapidDeployment,
    NeuralParasite,
    ObserverGraviticBooster,
    Overlordspeed,
    PersonalCloaking,
    PhoenixRangeUpgrade,
    ProtossAirArmorsLevel1,
    ProtossAirArmorsLevel2,
    ProtossAirArmorsLevel3,
    ProtossAirWeaponsLevel1,
    ProtossAirWeaponsLevel2,
    ProtossAirWeaponsLevel3,
    ProtossGroundArmorsLevel1,
    ProtossGroundArmorsLevel2,
    ProtossGroundArmorsLevel3,
    ProtossGroundWeaponsLevel1,
    ProtossGroundWeaponsLevel2,
    ProtossGroundWeaponsLevel3,
    ProtossShieldsLevel1,
    ProtossShieldsLevel2,
    ProtossShieldsLevel3,
    PsiStormTech,
    PunisherGrenades,
    RavenCorvidReactor,
    ShieldWall,
    SmartServos,
    Stimpack,
    TerranBuildingArmor,
    TerranInfantryArmorsLevel1,
    TerranInfantryArmorsLevel2,
    TerranInfantryArmorsLevel3,
    TerranInfantryWeaponsLevel1,
    TerranInfantryWeaponsLevel2,
    TerranInfantryWeaponsLevel3,
    TerranShipWeaponsLevel1,
    TerranShipWeaponsLevel2,
    TerranShipWeaponsLevel3,
    TerranVehicleAndShipArmorsLevel1,
    TerranVehicleAndShipArmorsLevel2,
    TerranVehicleAndShipArmorsLevel3,
    TerranVehicleWeaponsLevel1,
    TerranVehicleWeaponsLevel2,
    TerranVehicleWeaponsLevel3,
    VoidRaySpeedUpgrade,
    WarpGateResearch,
    ZergFlyerArmorsLevel1,
    ZergFlyerArmorsLevel2,
    ZergFlyerArmorsLevel3,
    ZergFlyerWeaponsLevel1,
    ZergFlyerWeaponsLevel2,
    ZergFlyerWeaponsLevel3,
    ZergGroundArmorsLevel1,
    ZergGroundArmorsLevel2,
    ZergGroundArmorsLevel3,
    ZergMeleeWeaponsLevel1,
    ZergMeleeWeaponsLevel2,
    ZergMeleeWeaponsLevel3,
    ZergMissileWeaponsLevel1,
    ZergMissileWeaponsLevel2,
    ZergMissileWeaponsLevel3,
    Zerglingattackspeed,
    Zerglingmovementspeed,
}

/// Identifier of a unit or building ability.
#[derive(Clone, Copy, PartialEq, Eq, Hash, Debug, Structural)]
pub enum AbilityId {
    TrainWarpAdept,
    WarpGateTrainDarkTemplar,
    WarpGateTrainHighTemplar,
    WarpGateTrainSentry,
    WarpGateTrainStalker,
    WarpGateTrainZealot,
}

/// Identifier of a temporary buff or debuff.
#[derive(Clone, Copy, PartialEq, Eq, Hash, Debug, Structural)]
pub enum BuffId {
    AccelerationZoneFlyingTemporalField,
    AccelerationZoneTemporalField,
    ChargeUp,
    DutchMarauderSlow,
    FungalGrowth,
    InhibitorZoneFlyingTemporalField,
    InhibitorZoneTemporalField,
    RavenScramblerMissile,
    RavenShredderMissileArmorReduction,
    RavenShredderMissileArmorReductionUISubtruct,
    RavenShredderMissileTint,
    Stimpack,
    StimpackMarauder,
    TimeWarpProduction,
}

/// A tag on a unit that conditions how much bonus damage certain weapons
/// deal to it.
#[derive(Clone, Copy, PartialEq, Eq, Hash, Debug, Structural)]
pub enum Attribute {
    Armored,
    Biological,
    Light,
    Massive,
    Mechanical,
    Structure,
}

/// Whether a weapon (or a damage-bonus entry) applies to ground targets,
/// air targets, or both.
#[derive(Clone, Copy, PartialEq, Eq, Hash, Debug, Structural)]
pub enum TargetType {
    Ground,
    Air,
    Any,
}

} // verus!
