//! Components of the game entities, and the spell catalog.

use crate::color::{infernum_color, main_outline_clr, miasma_color, Color};
use crate::properties::ColorPair;
use crate::text::str_is;
use vstd::prelude::*;
use vstd::string::StringExecFns;

verus! {

/// The kinds of component that identify a game entity.
#[derive(Debug, Clone, Copy, PartialEq, Eq, Structural)]
pub enum GPEnum {
    GPId,
}

/// Identity of a game entity. Every entity has exactly one.
#[derive(Debug, Clone, PartialEq, Eq, Hash)]
pub struct GPId {
    pub id: u32,
    /// Given by the caller, or `entity_<id>` where none was given.
    pub tag: String,
}

#[derive(Debug, Clone, Copy, PartialEq, Eq, Hash, Structural)]
pub enum Allegiances {
    Player,
    Enemy,
    Neutral,
}

#[derive(Debug, Clone, Copy, PartialEq, Eq, Hash, Structural)]
pub struct GPAllegiance {
    pub id: u32,
    pub allegiance: Allegiances,
}

#[derive(Debug, Clone, Copy, PartialEq, Eq, Hash, Structural)]
pub struct GPMortality {
    pub id: u32,
    pub is_alive: bool,
}

#[derive(Debug, Clone, Copy, PartialEq, Eq, Hash, Structural)]
pub struct GPStats {
    pub id: u32,
    pub health_max: u32,
    pub health_curr: u32,
    pub chaos: u32,
    pub solidity: u32,
    pub vitality: u32,
    pub haste: u32,
    pub will: u32,
    pub volatility: u32,
}

/// The six named attributes of `GPStats`.
#[derive(Debug, Clone, Copy, PartialEq, Eq, Structural)]
pub enum StatsEnum {
    Chaos,
    Solidity,
    Vitality,
    Haste,
    Will,
    Volatility,
}

#[derive(Debug, Clone, Copy, PartialEq, Eq, Hash)]
pub struct GPTarget {
    pub id: u32,
    pub target_entity: Option<u32>,
}

#[derive(Debug, Clone, PartialEq, Eq, Hash)]
pub struct GPBuffBar {
    pub id: u32,
    pub buffs: Vec<GPBuff>,
}

#[derive(Debug, Clone, PartialEq, Eq, Hash)]
pub struct GPBuff {
    pub id: u32,
    pub name: String,
    pub duration: u32,
    pub stacks: u32,
}

#[derive(Debug, Clone, PartialEq, Eq, Hash)]
pub struct GPDebuffBar {
    pub id: u32,
    pub debuffs: Vec<GPDebuff>,
}

/// A timed effect that deals damage while it lasts.
#[derive(Debug, Clone, PartialEq, Eq, Hash)]
pub struct GPDebuff {
    pub id: u32,
    /// Names the spell whose catalog entry gives the damage rate.
    pub name: String,
    /// Milliseconds the debuff lasts in all.
    pub total_duration: u32,
    /// Milliseconds left. At zero the debuff has expired and the next pass drops it.
    pub time_left: u32,
    pub stacks: u32,
    /// Damage earned but not yet dealt, in thousandths of a point. Whole
    /// points leave the accumulator as soon as they are reached, so after each
    /// pass less than one point (1000) stays behind.
    pub pending_damage: u32,
}

#[derive(Debug, Clone, Copy, PartialEq, Eq, Hash, Structural)]
pub enum Actions {
    CastingSpell,
    Traveling,
    Mining,
}

/// A timed activity. Only the action at the front of its queue runs.
#[derive(Debug, Clone, PartialEq, Eq, Hash)]
pub struct GPAction {
    pub id: u32,
    pub action: Actions,
    /// Names the ability; the effect on completion is looked up by it.
    pub action_tag: String,
    /// Milliseconds the action takes, fixed when it is queued.
    pub time_action_takes: u32,
    /// Milliseconds still to go.
    pub time_remaining: u32,
    pub spell: Option<Spells>,
}

#[derive(Debug, Clone, PartialEq, Eq, Hash)]
pub struct GPActionQueue {
    pub id: u32,
    pub queue: Vec<GPAction>,
}

#[derive(Debug, Clone, Copy, PartialEq, Eq, Hash, Structural)]
pub enum Spells {
    Miasma,
    Infernum,
    UmbraMortis,
}

/// One entry of the spell catalog.
#[derive(Debug, Clone, PartialEq, Eq, Hash)]
pub struct SpellData {
    pub icon: String,
    pub colors: ColorPair,
    /// Damage dealt at once when the cast completes.
    pub upfront_dam: u32,
    /// Multiplies `dps`.
    pub coefficient: u32,
    /// Damage per second of the debuff, before the coefficient.
    pub dps: u32,
    /// Seconds the debuff lasts.
    pub duration: u32,
}

#[derive(Debug, Clone, Copy, PartialEq, Eq, Hash, Structural)]
pub struct GPLevel {
    pub id: u32,
    pub curr_level: u32,
    pub curr_xp: u32,
    pub next_level_xp: u32,
}

impl GPDebuff {
    /// A copy with an equal name and equal numbers.
    pub fn duplicate(&self) -> (copy: GPDebuff)
        ensures
            copy == *self,
    {
        GPDebuff {
            id: self.id,
            name: self.name.clone(),
            total_duration: self.total_duration,
            time_left: self.time_left,
            stacks: self.stacks,
            pending_damage: self.pending_damage,
        }
    }
}

impl GPAction {
    /// A copy with an equal tag and equal numbers.
    pub fn duplicate(&self) -> (copy: GPAction)
        ensures
            copy == *self,
    {
        GPAction {
            id: self.id,
            action: self.action,
            action_tag: self.action_tag.clone(),
            time_action_takes: self.time_action_takes,
            time_remaining: self.time_remaining,
            spell: self.spell,
        }
    }
}

/// The spell that a tag or a debuff name stands for, if any. The lower-case
/// name and the capitalised one are both known.
pub open spec fn spell_of_name(name: Seq<char>) -> Option<Spells> {
    if name == "miasma"@ || name == "Miasma"@ {
        Some(Spells::Miasma)
    } else if name == "infernum"@ || name == "Infernum"@ {
        Some(Spells::Infernum)
    } else {
        None
    }
}

/// Whether the catalog has an entry for the spell.
pub open spec fn in_catalog(sp: Spells) -> bool {
    sp == Spells::Miasma || sp == Spells::Infernum
}

pub open spec fn spell_icon(sp: Spells) -> Seq<char> {
    match sp {
        Spells::Miasma => "miasma"@,
        _ => "infernum"@,
    }
}

pub open spec fn spell_colors(sp: Spells) -> ColorPair {
    match sp {
        Spells::Miasma => ColorPair::spec_from_colors(
            Color::rgba(125, 185, 112, 255),
            Some(Color::rgba(24, 26, 28, 255)),
        ),
        _ => ColorPair::spec_from_colors(
            Color::rgba(233, 103, 6, 255),
            Some(Color::rgba(24, 26, 28, 255)),
        ),
    }
}

pub open spec fn spell_upfront_dam(sp: Spells) -> u32 {
    match sp {
        Spells::Miasma => 0,
        _ => 5,
    }
}

pub open spec fn spell_coefficient(sp: Spells) -> u32 {
    match sp {
        Spells::Miasma => 3,
        _ => 2,
    }
}

pub open spec fn spell_dps(sp: Spells) -> u32 {
    match sp {
        Spells::Miasma => 5,
        _ => 1,
    }
}

pub open spec fn spell_duration(sp: Spells) -> u32 {
    match sp {
        Spells::Miasma => 5,
        _ => 10,
    }
}

/// `d` is the catalog's entry for `sp`, field for field.
pub open spec fn is_catalog_entry(sp: Spells, d: SpellData) -> bool {
    &&& d.icon@ == spell_icon(sp)
    &&& d.colors == spell_colors(sp)
    &&& d.upfront_dam == spell_upfront_dam(sp)
    &&& d.coefficient == spell_coefficient(sp)
    &&& d.dps == spell_dps(sp)
    &&& d.duration == spell_duration(sp)
}

/// The spell that a tag or a debuff name stands for.
pub fn spell_from_name(name: &String) -> (spell: Option<Spells>)
    ensures
        spell == spell_of_name(name@),
{
    if str_is(name, "miasma") || str_is(name, "Miasma") {
        Some(Spells::Miasma)
    } else if str_is(name, "infernum") || str_is(name, "Infernum") {
        Some(Spells::Infernum)
    } else {
        None
    }
}

/// Looks a spell up by name. An unknown name has no entry.
pub fn get_spelldata_from_string(spell: &String) -> (entry: Option<SpellData>)
    ensures
        match spell_of_name(spell@) {
            Some(sp) => entry is Some && is_catalog_entry(sp, entry->0),
            None => entry is None,
        },
{
    match spell_from_name(spell) {
        Some(sp) => get_spell_data(sp),
        None => None,
    }
}

/// The catalog entry of a spell. Umbra Mortis has none yet.
pub fn get_spell_data(sp: Spells) -> (entry: Option<SpellData>)
    ensures
        match entry {
            Some(d) => in_catalog(sp) && is_catalog_entry(sp, d),
            None => !in_catalog(sp),
        },
{
    match sp {
        Spells::Miasma => Some(
            SpellData {
                icon: String::from_str("miasma"),
                colors: ColorPair::from_colors(miasma_color(), Some(main_outline_clr())),
                upfront_dam: 0,
                coefficient: 3,
                dps: 5,
                duration: 5,
            },
        ),
        Spells::Infernum => Some(
            SpellData {
                icon: String::from_str("infernum"),
                colors: ColorPair::from_colors(infernum_color(), Some(main_outline_clr())),
                upfront_dam: 5,
                coefficient: 2,
                dps: 1,
                duration: 10,
            },
        ),
        Spells::UmbraMortis => None,
    }
}

} // verus!
