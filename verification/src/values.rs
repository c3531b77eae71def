//! Value types and scalar constants of the registry.
//!
//! The game data contains fractional quantities: speed multipliers, weapon
//! ranges and cooldowns, zone radii. The registry stores each of them as a
//! fixed-point integer in units of one ten-millionth, so [`FIXED_ONE`]
//! stands for the factor 1.0 and `16_000_000` for 1.6. Every fractional
//! literal of the game data is exact at this scale.

use crate::ids::Attribute;
use crate::ids::BuffId;
use crate::ids::TargetType;
use crate::ids::UnitTypeId;
use vstd::prelude::*;

verus! {

/// One whole unit of the fixed-point scale: the multiplier 1.0.
pub const FIXED_ONE: u32 = 10_000_000;

/// Default in-game speed multiplier on the fastest game-speed setting
/// (1.4), fixed-point.
pub const GAME_SPEED: u32 = 14_000_000;

/// Simulation frames per second: 16 base frames per second scaled by
/// [`GAME_SPEED`] (22.4), fixed-point.
pub const FRAMES_PER_SECOND: u32 = 16 * GAME_SPEED;

/// Buff carried by the unit that an anti-armor missile is homing on.
pub const ANTI_ARMOR_TARGET: BuffId = BuffId::RavenShredderMissileTint;

/// Buff carried by a unit disabled by an interference matrix.
pub const INTERFERENCE_MATRIX_BUFF: BuffId = BuffId::RavenScramblerMissile;

/// Mathematical view of [`RaceValues`]: the same fields with the town-hall
/// list abstracted to a sequence.
#[verifier::ext_equal]
pub struct RaceValuesView {
    pub start_townhall: UnitTypeId,
    pub townhalls: Seq<UnitTypeId>,
    pub gas: UnitTypeId,
    pub rich_gas: UnitTypeId,
    pub supply: UnitTypeId,
    pub worker: UnitTypeId,
}

/// Structural facts of one race: its starting town hall, every form its
/// town hall can take, its gas-extraction structures, its supply provider
/// and its worker. A profile for an unknown race holds
/// [`UnitTypeId::NotAUnit`] in every field and an empty town-hall list.
#[derive(Clone, Debug)]
pub struct RaceValues {
    /// Default town hall without any upgrades, buildable by a worker.
    pub start_townhall: UnitTypeId,
    /// All possible forms of the town hall.
    pub townhalls: Vec<UnitTypeId>,
    /// Structure that extracts gas from an ordinary geyser.
    pub gas: UnitTypeId,
    /// Structure that extracts gas from a rich geyser.
    pub rich_gas: UnitTypeId,
    /// Supply provider of the race.
    pub supply: UnitTypeId,
    /// Worker unit of the race.
    pub worker: UnitTypeId,
}

impl View for RaceValues {
    type V = RaceValuesView;

    open spec fn view(&self) -> RaceValuesView {
        RaceValuesView {
            start_townhall: self.start_townhall,
            townhalls: self.townhalls@,
            gas: self.gas,
            rich_gas: self.rich_gas,
            supply: self.supply,
            worker: self.worker,
        }
    }
}

/// The all-sentinel profile: what an unassigned race maps to.
pub open spec fn sentinel_race_values() -> RaceValuesView {
    RaceValuesView {
        start_townhall: UnitTypeId::NotAUnit,
        townhalls: Seq::empty(),
        gas: UnitTypeId::NotAUnit,
        rich_gas: UnitTypeId::NotAUnit,
        supply: UnitTypeId::NotAUnit,
        worker: UnitTypeId::NotAUnit,
    }
}

impl Default for RaceValues {
    /// The all-sentinel profile.
    fn default() -> (d: Self)
        ensures
            d@ =~= sentinel_race_values(),
    {
        RaceValues {
            start_townhall: UnitTypeId::NotAUnit,
            townhalls: Vec::new(),
            gas: UnitTypeId::NotAUnit,
            rich_gas: UnitTypeId::NotAUnit,
            supply: UnitTypeId::NotAUnit,
            worker: UnitTypeId::NotAUnit,
        }
    }
}

/// Mathematical view of [`Weapon`].
#[verifier::ext_equal]
pub struct WeaponView {
    pub target: TargetType,
    pub damage: u32,
    pub damage_bonus: Seq<(Attribute, u32)>,
    pub attacks: u32,
    pub range: u32,
    pub speed: u32,
}

/// A supplementary weapon definition, supplied for units whose baseline
/// stats under-represent their true attack.
#[derive(Clone, Debug)]
pub struct Weapon {
    /// What the weapon can hit.
    pub target: TargetType,
    /// Base damage of one attack.
    pub damage: u32,
    /// Extra damage against targets with the given attribute.
    pub damage_bonus: Vec<(Attribute, u32)>,
    /// Number of hits per attack cycle.
    pub attacks: u32,
    /// Attack range, fixed-point.
    pub range: u32,
    /// Cooldown of one attack cycle, fixed-point.
    pub speed: u32,
}

impl View for Weapon {
    type V = WeaponView;

    open spec fn view(&self) -> WeaponView {
        WeaponView {
            target: self.target,
            damage: self.damage,
            damage_bonus: self.damage_bonus@,
            attacks: self.attacks,
            range: self.range,
            speed: self.speed,
        }
    }
}

/// Mathematical view of [`DamageBonus`].
#[verifier::ext_equal]
pub struct DamageBonusView {
    pub flat_bonus: Option<u32>,
    pub per_attribute_bonus: Seq<(Attribute, u32)>,
}

/// Extra damage a unit's weapon deals against one target type, decomposed
/// into an unconditional flat part and attribute-conditional parts that
/// stack additively when the target has the attribute. A flat bonus of
/// `Some(0)` is distinct from no flat bonus at all.
#[derive(Clone, Debug)]
pub struct DamageBonus {
    /// Bonus applied regardless of the target's attributes, if any.
    pub flat_bonus: Option<u32>,
    /// Bonus per attribute of the target.
    pub per_attribute_bonus: Vec<(Attribute, u32)>,
}

impl View for DamageBonus {
    type V = DamageBonusView;

    open spec fn view(&self) -> DamageBonusView {
        DamageBonusView {
            flat_bonus: self.flat_bonus,
            per_attribute_bonus: self.per_attribute_bonus@,
        }
    }
}

} // verus!
