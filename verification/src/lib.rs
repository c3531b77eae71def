//! A static game-knowledge registry for a real-time-strategy bot.
//!
//! The crate encodes authoritative relationships between unit, upgrade,
//! ability and buff identifiers of the game: which building trains which
//! unit, which building researches which upgrade, which identifiers denote
//! the same logical unit in another state, and which combat or movement
//! modifiers apply under which upgrade or buff.
//!
//! All facts are compiled-in literal data, exposed as pure query functions.
//! Each table has a specification function that *is* the table; the
//! executable queries are proved to return exactly what the specification
//! says, and the structural invariants of the data (pair symmetry, group
//! closure, producer consistency, acyclicity of the tech graph) are proved
//! once and for all as lemmas rather than checked at start-up.
//!
//! A few tables differ between the two supported game-client builds; the
//! [`Registry`] handle fixes that choice once, at construction.

mod alias;
mod combat;
mod ids;
mod movement;
mod race;
mod registry;
mod tech;
mod values;
mod zones;

pub use alias::alias_group_spec;
pub use alias::alias_pair_spec;
pub use alias::lemma_alias_group_closure;
pub use alias::lemma_alias_group_irreflexive;
pub use alias::lemma_alias_pair_irreflexive;
pub use alias::lemma_alias_pair_symmetric;
pub use combat::damage_bonus_spec;
pub use combat::missed_weapons_spec;
pub use ids::AbilityId;
pub use ids::Attribute;
pub use ids::BuffId;
pub use ids::ClientVariant;
pub use ids::Race;
pub use ids::TargetType;
pub use ids::UnitTypeId;
pub use ids::UpgradeId;
pub use movement::creep_speed_multiplier_spec;
pub use movement::off_creep_speed_upgrade_spec;
pub use movement::speed_buff_multiplier_spec;
pub use movement::speed_upgrade_spec;
pub use race::race_values_spec;
pub use registry::lemma_same_variant_same_answers;
pub use registry::Registry;
pub use tech::all_producers_spec;
pub use tech::canonical_producer_spec;
pub use tech::lemma_canonical_producer_consistent;
pub use tech::lemma_tech_requirement_acyclic;
pub use tech::researcher_spec;
pub use tech::tech_rank_spec;
pub use tech::tech_requirement_spec;
pub use tech::warp_ability_spec;
pub use tech::TECH_RANK_BOUND;
pub use values::DamageBonus;
pub use values::DamageBonusView;
pub use values::sentinel_race_values;
pub use values::RaceValues;
pub use values::RaceValuesView;
pub use values::Weapon;
pub use values::WeaponView;
pub use values::ANTI_ARMOR_TARGET;
pub use values::FIXED_ONE;
pub use values::FRAMES_PER_SECOND;
pub use values::GAME_SPEED;
pub use values::INTERFERENCE_MATRIX_BUFF;
pub use zones::anti_armor_buff_spec;
pub use zones::inhibitor_ids_spec;
pub use zones::inhibitor_zone_radius_spec;
pub use zones::lemma_variant_isolation;
