//! Combat modifier tables.
//!
//! Two tables supplement a unit's baseline weapon statistics: the
//! damage-bonus table records the extra damage a unit's weapon deals
//! against one target type, and the missed-weapons table supplies complete
//! weapon definitions for units whose true attack is not derivable from
//! baseline stats (multi-attack structures, channelled attacks).
//!
//! Damage-bonus lookup is an exact match on the target type: an entry
//! recorded for ground targets does not answer a query about `Any`, and
//! vice versa. A caller that needs combined semantics queries both and
//! combines them under the game's own attack-resolution rules.

use crate::ids::Attribute;
use crate::ids::TargetType;
use crate::ids::UnitTypeId;
use crate::registry::Registry;
use crate::values::DamageBonus;
use crate::values::DamageBonusView;
use crate::values::Weapon;
use crate::values::WeaponView;
use vstd::prelude::*;

verus! {

/// The damage-bonus table: the extra damage `unit`'s weapon deals against
/// targets of exactly `target`, or `None` when no bonus is recorded for
/// that combination.
pub open spec fn damage_bonus_spec(unit: UnitTypeId, target: TargetType) -> Option<DamageBonusView> {
    match unit {
        UnitTypeId::Probe => match target {
            TargetType::Ground => Some(DamageBonusView {
                flat_bonus: Some(0u32),
                per_attribute_bonus: Seq::empty(),
            }),
            _ => None,
        },
        UnitTypeId::Adept => match target {
            TargetType::Ground => Some(DamageBonusView {
                flat_bonus: None,
                per_attribute_bonus: seq![(Attribute::Light, 1u32)],
            }),
            _ => None,
        },
        UnitTypeId::Stalker => match target {
            TargetType::Any => Some(DamageBonusView {
                flat_bonus: None,
                per_attribute_bonus: seq![(Attribute::Armored, 1u32)],
            }),
            _ => None,
        },
        UnitTypeId::DarkTemplar => match target {
            TargetType::Ground => Some(DamageBonusView {
                flat_bonus: Some(5u32),
                per_attribute_bonus: Seq::empty(),
            }),
            _ => None,
        },
        UnitTypeId::Archon => match target {
            TargetType::Any => Some(DamageBonusView {
                flat_bonus: Some(3u32),
                per_attribute_bonus: seq![(Attribute::Biological, 1u32)],
            }),
            _ => None,
        },
        UnitTypeId::Immortal => match target {
            TargetType::Ground => Some(DamageBonusView {
                flat_bonus: Some(2u32),
                per_attribute_bonus: seq![(Attribute::Armored, 3u32)],
            }),
            _ => None,
        },
        UnitTypeId::Colossus => match target {
            TargetType::Ground => Some(DamageBonusView {
                flat_bonus: None,
                per_attribute_bonus: seq![(Attribute::Light, 1u32)],
            }),
            _ => None,
        },
        UnitTypeId::Oracle => match target {
            TargetType::Ground => Some(DamageBonusView {
                flat_bonus: Some(0u32),
                per_attribute_bonus: Seq::empty(),
            }),
            _ => None,
        },
        UnitTypeId::Tempest => match target {
            TargetType::Ground => Some(DamageBonusView {
                flat_bonus: Some(4u32),
                per_attribute_bonus: Seq::empty(),
            }),
            TargetType::Air => Some(DamageBonusView {
                flat_bonus: Some(3u32),
                per_attribute_bonus: seq![(Attribute::Massive, 2u32)],
            }),
            _ => None,
        },
        UnitTypeId::SCV => match target {
            TargetType::Ground => Some(DamageBonusView {
                flat_bonus: Some(0u32),
                per_attribute_bonus: Seq::empty(),
            }),
            _ => None,
        },
        UnitTypeId::Marauder => match target {
            TargetType::Ground => Some(DamageBonusView {
                flat_bonus: None,
                per_attribute_bonus: seq![(Attribute::Armored, 1u32)],
            }),
            _ => None,
        },
        UnitTypeId::GhostUnit => match target {
            TargetType::Any => Some(DamageBonusView {
                flat_bonus: None,
                per_attribute_bonus: seq![(Attribute::Light, 1u32)],
            }),
            _ => None,
        },
        UnitTypeId::Hellion => match target {
            TargetType::Ground => Some(DamageBonusView {
                flat_bonus: None,
                per_attribute_bonus: seq![(Attribute::Light, 1u32)],
            }),
            _ => None,
        },
        UnitTypeId::HellionTank => match target {
            TargetType::Ground => Some(DamageBonusView {
                flat_bonus: Some(2u32),
                per_attribute_bonus: seq![(Attribute::Light, 1u32)],
            }),
            _ => None,
        },
        UnitTypeId::Cyclone => match target {
            TargetType::Any => Some(DamageBonusView {
                flat_bonus: Some(2u32),
                per_attribute_bonus: Seq::empty(),
            }),
            _ => None,
        },
        UnitTypeId::SiegeTank => match target {
            TargetType::Ground => Some(DamageBonusView {
                flat_bonus: Some(2u32),
                per_attribute_bonus: seq![(Attribute::Armored, 1u32)],
            }),
            _ => None,
        },
        UnitTypeId::SiegeTankSieged => match target {
            TargetType::Ground => Some(DamageBonusView {
                flat_bonus: Some(4u32),
                per_attribute_bonus: seq![(Attribute::Armored, 1u32)],
            }),
            _ => None,
        },
        UnitTypeId::Thor => match target {
            TargetType::Ground => Some(DamageBonusView {
                flat_bonus: Some(3u32),
                per_attribute_bonus: Seq::empty(),
            }),
            TargetType::Air => Some(DamageBonusView {
                flat_bonus: None,
                per_attribute_bonus: seq![(Attribute::Light, 1u32)],
            }),
            _ => None,
        },
        UnitTypeId::ThorAP => match target {
            TargetType::Ground => Some(DamageBonusView {
                flat_bonus: Some(3u32),
                per_attribute_bonus: Seq::empty(),
            }),
            TargetType::Air => Some(DamageBonusView {
                flat_bonus: Some(3u32),
                per_attribute_bonus: seq![(Attribute::Massive, 1u32)],
            }),
            _ => None,
        },
        UnitTypeId::VikingAssault => match target {
            TargetType::Ground => Some(DamageBonusView {
                flat_bonus: None,
                per_attribute_bonus: seq![(Attribute::Mechanical, 1u32)],
            }),
            _ => None,
        },
        UnitTypeId::LiberatorAG => match target {
            TargetType::Ground => Some(DamageBonusView {
                flat_bonus: Some(5u32),
                per_attribute_bonus: Seq::empty(),
            }),
            _ => None,
        },
        UnitTypeId::Drone => match target {
            TargetType::Ground => Some(DamageBonusView {
                flat_bonus: Some(0u32),
                per_attribute_bonus: Seq::empty(),
            }),
            _ => None,
        },
        UnitTypeId::Baneling => match target {
            TargetType::Ground => Some(DamageBonusView {
                flat_bonus: Some(2u32),
                per_attribute_bonus: seq![(Attribute::Light, 2u32), (Attribute::Structure, 3u32)],
            }),
            _ => None,
        },
        UnitTypeId::BanelingBurrowed => match target {
            TargetType::Ground => Some(DamageBonusView {
                flat_bonus: Some(2u32),
                per_attribute_bonus: seq![(Attribute::Light, 2u32), (Attribute::Structure, 3u32)],
            }),
            _ => None,
        },
        UnitTypeId::BanelingCocoon => match target {
            TargetType::Ground => Some(DamageBonusView {
                flat_bonus: Some(2u32),
                per_attribute_bonus: seq![(Attribute::Light, 2u32), (Attribute::Structure, 3u32)],
            }),
            _ => None,
        },
        UnitTypeId::Roach => match target {
            TargetType::Ground => Some(DamageBonusView {
                flat_bonus: Some(2u32),
                per_attribute_bonus: Seq::empty(),
            }),
            _ => None,
        },
        UnitTypeId::Ravager => match target {
            TargetType::Ground => Some(DamageBonusView {
                flat_bonus: Some(2u32),
                per_attribute_bonus: Seq::empty(),
            }),
            _ => None,
        },
        UnitTypeId::RavagerCocoon => match target {
            TargetType::Ground => Some(DamageBonusView {
                flat_bonus: Some(2u32),
                per_attribute_bonus: Seq::empty(),
            }),
            _ => None,
        },
        UnitTypeId::LurkerMPBurrowed => match target {
            TargetType::Ground => Some(DamageBonusView {
                flat_bonus: Some(2u32),
                per_attribute_bonus: seq![(Attribute::Armored, 1u32)],
            }),
            _ => None,
        },
        UnitTypeId::Ultralisk => match target {
            TargetType::Ground => Some(DamageBonusView {
                flat_bonus: Some(3u32),
                per_attribute_bonus: Seq::empty(),
            }),
            _ => None,
        },
        UnitTypeId::Corruptor => match target {
            TargetType::Air => Some(DamageBonusView {
                flat_bonus: None,
                per_attribute_bonus: seq![(Attribute::Massive, 1u32)],
            }),
            _ => None,
        },
        UnitTypeId::BroodLord => match target {
            TargetType::Ground => Some(DamageBonusView {
                flat_bonus: Some(2u32),
                per_attribute_bonus: Seq::empty(),
            }),
            _ => None,
        },
        _ => None,
    }
}

/// The missed-weapons table: every supplementary weapon recorded for
/// `unit`, or the empty sequence when its baseline stats need no override.
pub open spec fn missed_weapons_spec(unit: UnitTypeId) -> Seq<WeaponView> {
    match unit {
        UnitTypeId::Baneling => seq![
            WeaponView {
                target: TargetType::Ground,
                damage: 20,
                damage_bonus: seq![(Attribute::Light, 15u32), (Attribute::Structure, 60u32)],
                attacks: 1,
                range: 22_000_000,
                speed: 10_000_000,
            },
        ],
        UnitTypeId::Battlecruiser => seq![
            WeaponView {
                target: TargetType::Ground,
                damage: 8,
                damage_bonus: Seq::empty(),
                attacks: 1,
                range: 60_000_000,
                speed: 2_240_000,
            },
            WeaponView {
                target: TargetType::Air,
                damage: 5,
                damage_bonus: Seq::empty(),
                attacks: 1,
                range: 60_000_000,
                speed: 2_240_000,
            },
        ],
        UnitTypeId::Sentry => seq![
            WeaponView {
                target: TargetType::Any,
                damage: 6,
                damage_bonus: Seq::empty(),
                attacks: 1,
                range: 50_000_000,
                speed: 9_940_000,
            },
        ],
        UnitTypeId::VoidRay => seq![
            WeaponView {
                target: TargetType::Any,
                damage: 6,
                damage_bonus: Seq::empty(),
                attacks: 1,
                range: 60_000_000,
                speed: 5_040_000,
            },
        ],
        UnitTypeId::Bunker => seq![
            WeaponView {
                target: TargetType::Any,
                damage: 6,
                damage_bonus: Seq::empty(),
                attacks: 4,
                range: 60_000_000,
                speed: 8_540_000,
            },
        ],
        UnitTypeId::Carrier => seq![
            WeaponView {
                target: TargetType::Any,
                damage: 5,
                damage_bonus: Seq::empty(),
                attacks: 16,
                range: 80_000_000,
                speed: 29_960_000,
            },
        ],
        UnitTypeId::Oracle => seq![
            WeaponView {
                target: TargetType::Ground,
                damage: 15,
                damage_bonus: seq![(Attribute::Light, 7u32)],
                attacks: 1,
                range: 40_000_000,
                speed: 8_540_000,
            },
        ],
        UnitTypeId::WidowMineBurrowed => seq![
            WeaponView {
                target: TargetType::Any,
                damage: 125,
                damage_bonus: Seq::empty(),
                attacks: 1,
                range: 50_000_000,
                speed: 10_000_000,
            },
        ],
        _ => Seq::empty(),
    }
}

impl Registry {
    /// The extra damage `unit`'s weapon deals against targets of exactly
    /// `target`; an entry for a specific target type never answers for a
    /// different one.
    pub fn damage_bonus(&self, unit: UnitTypeId, target: TargetType) -> (r: Option<DamageBonus>)
        ensures
            r is Some <==> damage_bonus_spec(unit, target) is Some,
            r matches Some(b) ==> damage_bonus_spec(unit, target) matches Some(v) && b@ =~= v,
    {
        match unit {
            UnitTypeId::Probe => match target {
                TargetType::Ground => Some(DamageBonus {
                    flat_bonus: Some(0),
                    per_attribute_bonus: Vec::new(),
                }),
                _ => None,
            },
            UnitTypeId::Adept => match target {
                TargetType::Ground => Some(DamageBonus {
                    flat_bonus: None,
                    per_attribute_bonus: vec![(Attribute::Light, 1)],
                }),
                _ => None,
            },
            UnitTypeId::Stalker => match target {
                TargetType::Any => Some(DamageBonus {
                    flat_bonus: None,
                    per_attribute_bonus: vec![(Attribute::Armored, 1)],
                }),
                _ => None,
            },
            UnitTypeId::DarkTemplar => match target {
                TargetType::Ground => Some(DamageBonus {
                    flat_bonus: Some(5),
                    per_attribute_bonus: Vec::new(),
                }),
                _ => None,
            },
            UnitTypeId::Archon => match target {
                TargetType::Any => Some(DamageBonus {
                    flat_bonus: Some(3),
                    per_attribute_bonus: vec![(Attribute::Biological, 1)],
                }),
                _ => None,
            },
            UnitTypeId::Immortal => match target {
                TargetType::Ground => Some(DamageBonus {
                    flat_bonus: Some(2),
                    per_attribute_bonus: vec![(Attribute::Armored, 3)],
                }),
                _ => None,
            },
            UnitTypeId::Colossus => match target {
                TargetType::Ground => Some(DamageBonus {
                    flat_bonus: None,
                    per_attribute_bonus: vec![(Attribute::Light, 1)],
                }),
                _ => None,
            },
            UnitTypeId::Oracle => match target {
                TargetType::Ground => Some(DamageBonus {
                    flat_bonus: Some(0),
                    per_attribute_bonus: Vec::new(),
                }),
                _ => None,
            },
            UnitTypeId::Tempest => match target {
                TargetType::Ground => Some(DamageBonus {
                    flat_bonus: Some(4),
                    per_attribute_bonus: Vec::new(),
                }),
                TargetType::Air => Some(DamageBonus {
                    flat_bonus: Some(3),
                    per_attribute_bonus: vec![(Attribute::Massive, 2)],
                }),
                _ => None,
            },
            UnitTypeId::SCV => match target {
                TargetType::Ground => Some(DamageBonus {
                    flat_bonus: Some(0),
                    per_attribute_bonus: Vec::new(),
                }),
                _ => None,
            },
            UnitTypeId::Marauder => match target {
                TargetType::Ground => Some(DamageBonus {
                    flat_bonus: None,
                    per_attribute_bonus: vec![(Attribute::Armored, 1)],
                }),
                _ => None,
            },
            UnitTypeId::GhostUnit => match target {
                TargetType::Any => Some(DamageBonus {
                    flat_bonus: None,
                    per_attribute_bonus: vec![(Attribute::Light, 1)],
                }),
                _ => None,
            },
            UnitTypeId::Hellion => match target {
                TargetType::Ground => Some(DamageBonus {
                    flat_bonus: None,
                    per_attribute_bonus: vec![(Attribute::Light, 1)],
                }),
                _ => None,
            },
            UnitTypeId::HellionTank => match target {
                TargetType::Ground => Some(DamageBonus {
                    flat_bonus: Some(2),
                    per_attribute_bonus: vec![(Attribute::Light, 1)],
                }),
                _ => None,
            },
            UnitTypeId::Cyclone => match target {
                TargetType::Any => Some(DamageBonus {
                    flat_bonus: Some(2),
                    per_attribute_bonus: Vec::new(),
                }),
                _ => None,
            },
            UnitTypeId::SiegeTank => match target {
                TargetType::Ground => Some(DamageBonus {
                    flat_bonus: Some(2),
                    per_attribute_bonus: vec![(Attribute::Armored, 1)],
                }),
                _ => None,
            },
            UnitTypeId::SiegeTankSieged => match target {
                TargetType::Ground => Some(DamageBonus {
                    flat_bonus: Some(4),
                    per_attribute_bonus: vec![(Attribute::Armored, 1)],
                }),
                _ => None,
            },
            UnitTypeId::Thor => match target {
                TargetType::Ground => Some(DamageBonus {
                    flat_bonus: Some(3),
                    per_attribute_bonus: Vec::new(),
                }),
                TargetType::Air => Some(DamageBonus {
                    flat_bonus: None,
                    per_attribute_bonus: vec![(Attribute::Light, 1)],
                }),
                _ => None,
            },
            UnitTypeId::ThorAP => match target {
                TargetType::Ground => Some(DamageBonus {
                    flat_bonus: Some(3),
                    per_attribute_bonus: Vec::new(),
                }),
                TargetType::Air => Some(DamageBonus {
                    flat_bonus: Some(3),
                    per_attribute_bonus: vec![(Attribute::Massive, 1)],
                }),
                _ => None,
            },
            UnitTypeId::VikingAssault => match target {
                TargetType::Ground => Some(DamageBonus {
                    flat_bonus: None,
                    per_attribute_bonus: vec![(Attribute::Mechanical, 1)],
                }),
                _ => None,
            },
            UnitTypeId::LiberatorAG => match target {
                TargetType::Ground => Some(DamageBonus {
                    flat_bonus: Some(5),
                    per_attribute_bonus: Vec::new(),
                }),
                _ => None,
            },
            UnitTypeId::Drone => match target {
                TargetType::Ground => Some(DamageBonus {
                    flat_bonus: Some(0),
                    per_attribute_bonus: Vec::new(),
                }),
                _ => None,
            },
            UnitTypeId::Baneling => match target {
                TargetType::Ground => Some(DamageBonus {
                    flat_bonus: Some(2),
                    per_attribute_bonus: vec![(Attribute::Light, 2), (Attribute::Structure, 3)],
                }),
                _ => None,
            },
            UnitTypeId::BanelingBurrowed => match target {
                TargetType::Ground => Some(DamageBonus {
                    flat_bonus: Some(2),
                    per_attribute_bonus: vec![(Attribute::Light, 2), (Attribute::Structure, 3)],
                }),
                _ => None,
            },
            UnitTypeId::BanelingCocoon => match target {
                TargetType::Ground => Some(DamageBonus {
                    flat_bonus: Some(2),
                    per_attribute_bonus: vec![(Attribute::Light, 2), (Attribute::Structure, 3)],
                }),
                _ => None,
            },
            UnitTypeId::Roach => match target {
                TargetType::Ground => Some(DamageBonus {
                    flat_bonus: Some(2),
                    per_attribute_bonus: Vec::new(),
                }),
                _ => None,
            },
            UnitTypeId::Ravager => match target {
                TargetType::Ground => Some(DamageBonus {
                    flat_bonus: Some(2),
                    per_attribute_bonus: Vec::new(),
                }),
                _ => None,
            },
            UnitTypeId::RavagerCocoon => match target {
                TargetType::Ground => Some(DamageBonus {
                    flat_bonus: Some(2),
                    per_attribute_bonus: Vec::new(),
                }),
                _ => None,
            },
            UnitTypeId::LurkerMPBurrowed => match target {
                TargetType::Ground => Some(DamageBonus {
                    flat_bonus: Some(2),
                    per_attribute_bonus: vec![(Attribute::Armored, 1)],
                }),
                _ => None,
            },
            UnitTypeId::Ultralisk => match target {
                TargetType::Ground => Some(DamageBonus {
                    flat_bonus: Some(3),
                    per_attribute_bonus: Vec::new(),
                }),
                _ => None,
            },
            UnitTypeId::Corruptor => match target {
                TargetType::Air => Some(DamageBonus {
                    flat_bonus: None,
                    per_attribute_bonus: vec![(Attribute::Massive, 1)],
                }),
                _ => None,
            },
            UnitTypeId::BroodLord => match target {
                TargetType::Ground => Some(DamageBonus {
                    flat_bonus: Some(2),
                    per_attribute_bonus: Vec::new(),
                }),
                _ => None,
            },
            _ => None,
        }
    }

    /// Every supplementary weapon recorded for `unit`; an empty vector
    /// means its baseline stats need no override.
    pub fn missed_weapons(&self, unit: UnitTypeId) -> (r: Vec<Weapon>)
        ensures
            r@.len() == missed_weapons_spec(unit).len(),
            forall|i: int| 0 <= i < r@.len() ==> (#[trigger] r@[i])@ =~= missed_weapons_spec(unit)[i],
    {
        match unit {
            UnitTypeId::Baneling => vec![
                Weapon {
                    target: TargetType::Ground,
                    damage: 20,
                    damage_bonus: vec![(Attribute::Light, 15), (Attribute::Structure, 60)],
                    attacks: 1,
                    range: 22_000_000,
                    speed: 10_000_000,
                },
            ],
            UnitTypeId::Battlecruiser => vec![
                Weapon {
                    target: TargetType::Ground,
                    damage: 8,
                    damage_bonus: Vec::new(),
                    attacks: 1,
                    range: 60_000_000,
                    speed: 2_240_000,
                },
                Weapon {
                    target: TargetType::Air,
                    damage: 5,
                    damage_bonus: Vec::new(),
                    attacks: 1,
                    range: 60_000_000,
                    speed: 2_240_000,
                },
            ],
            UnitTypeId::Sentry => vec![
                Weapon {
                    target: TargetType::Any,
                    damage: 6,
                    damage_bonus: Vec::new(),
                    attacks: 1,
                    range: 50_000_000,
                    speed: 9_940_000,
                },
            ],
            UnitTypeId::VoidRay => vec![
                Weapon {
                    target: TargetType::Any,
                    damage: 6,
                    damage_bonus: Vec::new(),
                    attacks: 1,
                    range: 60_000_000,
                    speed: 5_040_000,
                },
            ],
            UnitTypeId::Bunker => vec![
                Weapon {
                    target: TargetType::Any,
                    damage: 6,
                    damage_bonus: Vec::new(),
                    attacks: 4,
                    range: 60_000_000,
                    speed: 8_540_000,
                },
            ],
            UnitTypeId::Carrier => vec![
                Weapon {
                    target: TargetType::Any,
                    damage: 5,
                    damage_bonus: Vec::new(),
                    attacks: 16,
                    range: 80_000_000,
                    speed: 29_960_000,
                },
            ],
            UnitTypeId::Oracle => vec![
                Weapon {
                    target: TargetType::Ground,
                    damage: 15,
                    damage_bonus: vec![(Attribute::Light, 7)],
                    attacks: 1,
                    range: 40_000_000,
                    speed: 8_540_000,
                },
            ],
            UnitTypeId::WidowMineBurrowed => vec![
                Weapon {
                    target: TargetType::Any,
                    damage: 125,
                    damage_bonus: Vec::new(),
                    attacks: 1,
                    range: 50_000_000,
                    speed: 10_000_000,
                },
            ],
            _ => Vec::new(),
        }
    }
}

} // verus!
