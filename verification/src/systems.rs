//! The per-tick systems: damage over time, damage application and mortality.

use crate::color::{black, white, Color};
use crate::g_entities::GameEntityManager;
use crate::g_properties::{
    spell_coefficient, spell_dps, spell_of_name, GPDebuff, GPDebuffBar, GPMortality, GPStats,
};
use crate::game::{scale_for, ui_scale, Game};
use crate::helpers::random_point_in_rect;
use crate::tables::{ascending_ids, lemma_ascending_ids, sorted_keys};
use crate::text::{decimal_digits, decimal_string, str_is};
use vstd::prelude::*;

verus! {

/// A pending reduction of health. It lives for one tick: queued, applied, discarded.
#[derive(Debug, Clone, PartialEq, Eq, Hash)]
pub struct Damage {
    pub amt: u32,
    pub target: u32,
    pub damager: u32,
    /// Names the spell that dealt the damage; the combat text is colored by it.
    pub damage_type: String,
}

/// A number that drifts over the battlefield after a hit.
#[derive(Debug, PartialEq, Eq, Hash)]
pub struct FloatingText {
    pub value: String,
    pub position: (u32, u32),
    /// Pixels per second, to the right and downwards.
    pub velocity: (i32, i32),
    pub scale: u32,
    pub color: Color,
    pub outline: Color,
    /// Milliseconds the text stays on screen.
    pub lifetime: u32,
}

impl Clone for FloatingText {
    fn clone(&self) -> (copy: Self)
        ensures
            copy == *self,
    {
        FloatingText {
            value: self.value.clone(),
            position: self.position,
            velocity: self.velocity,
            scale: self.scale,
            color: self.color,
            outline: self.outline,
            lifetime: self.lifetime,
        }
    }
}

/// The color of the combat text of each damage type.
pub open spec fn color_of_type(dtype: Seq<char>) -> Option<Color> {
    if dtype == "miasma"@ {
        Some(Color::rgba(1, 255, 150, 255))
    } else if dtype == "infernum"@ {
        Some(Color::rgba(255, 125, 10, 255))
    } else if dtype == "umbra_mortis"@ {
        Some(Color::rgba(148, 114, 201, 255))
    } else {
        None
    }
}

pub fn get_color_from_type(dtype: String) -> (color: Option<Color>)
    ensures
        color == color_of_type(dtype@),
{
    if str_is(&dtype, "miasma") {
        return Some(Color::rgba(1, 255, 150, 255));
    } else if str_is(&dtype, "infernum") {
        return Some(Color::rgba(255, 125, 10, 255));
    } else if str_is(&dtype, "umbra_mortis") {
        return Some(Color::rgba(148, 114, 201, 255));
    }
    None
}

/// Damage in thousandths of a point that a debuff holds after `dt_ms`
/// milliseconds more: what was pending, plus `dps * coefficient` points per second.
pub open spec fn accrued(pending: u32, dps: u32, coefficient: u32, dt_ms: u32) -> nat {
    pending as nat + dps as nat * coefficient as nat * dt_ms as nat
}

/// The whole points in `total` thousandths, rounded towards zero. A tick deals
/// at most `u32::MAX` points.
pub open spec fn whole_points(total: nat) -> u32 {
    if total / 1000 > u32::MAX {
        u32::MAX
    } else {
        (total / 1000) as u32
    }
}

/// The thousandths that stay behind once the whole points have been taken out.
pub open spec fn carried(total: nat) -> u32 {
    (total % 1000) as u32
}

/// Adds the damage of one tick to the accumulator and splits the sum into the
/// whole points to deal now and the fraction to carry into the next tick.
pub fn resolve_damage(pending: u32, dps: u32, coefficient: u32, dt_ms: u32) -> (split: (u32, u32))
    ensures
        split.0 == whole_points(accrued(pending, dps, coefficient, dt_ms)),
        split.1 == carried(accrued(pending, dps, coefficient, dt_ms)),
        split.1 < 1000,
{
    assert(dps as u64 * coefficient as u64 <= 0xffff_ffff * 0xffff_ffff) by (nonlinear_arith)
        requires
            dps as u64 <= 0xffff_ffff,
            coefficient as u64 <= 0xffff_ffff,
    ;
    let rate: u64 = dps as u64 * coefficient as u64;
    assert(rate as u128 * dt_ms as u128 <= 0xffff_ffff_ffff_ffff * 0xffff_ffff) by (nonlinear_arith)
        requires
            rate as u128 <= 0xffff_ffff_ffff_ffff,
            dt_ms as u128 <= 0xffff_ffff,
    ;
    let total: u128 = pending as u128 + rate as u128 * dt_ms as u128;
    let points: u128 = total / 1000;
    let whole: u32 = if points > u32::MAX as u128 {
        u32::MAX
    } else {
        points as u32
    };
    let rest: u32 = (total % 1000) as u32;
    (whole, rest)
}

/// Whether a debuff deals damage on a tick: its name is in the catalog and
/// its bearer has stats to take the damage.
pub open spec fn ticks_damage(d: GPDebuff, has_stats: bool) -> bool {
    has_stats && spell_of_name(d.name@) is Some
}

/// The thousandths that `d` holds after `dt` milliseconds more, before the
/// whole points are taken out.
pub open spec fn debuff_accrued(d: GPDebuff, dt: u32) -> nat {
    let sp = spell_of_name(d.name@)->0;
    accrued(d.pending_damage, spell_dps(sp), spell_coefficient(sp), dt)
}

/// A live debuff after a tick of `dt` milliseconds.
pub open spec fn debuff_after(d: GPDebuff, has_stats: bool, dt: u32) -> GPDebuff {
    let left = if d.time_left > dt {
        (d.time_left - dt) as u32
    } else {
        0
    };
    if ticks_damage(d, has_stats) {
        GPDebuff { time_left: left, pending_damage: carried(debuff_accrued(d, dt)), ..d }
    } else {
        GPDebuff { time_left: left, ..d }
    }
}

/// The damage event that a live, damaging debuff raises on a tick.
pub open spec fn debuff_event(d: GPDebuff, target: u32, damager: u32, dt: u32) -> Damage {
    Damage {
        amt: whole_points(debuff_accrued(d, dt)),
        target,
        damager,
        damage_type: d.name,
    }
}

/// A debuff bar after a tick: the expired debuffs are gone, the others have ticked.
pub open spec fn bar_after(debuffs: Seq<GPDebuff>, has_stats: bool, dt: u32) -> Seq<GPDebuff>
    decreases debuffs.len(),
{
    if debuffs.len() == 0 {
        Seq::empty()
    } else {
        let before = bar_after(debuffs.drop_last(), has_stats, dt);
        if debuffs.last().time_left > 0 {
            before.push(debuff_after(debuffs.last(), has_stats, dt))
        } else {
            before
        }
    }
}

/// The damage events of a debuff bar on a tick: one for each live, damaging
/// debuff, in the order of the bar.
pub open spec fn bar_events(
    debuffs: Seq<GPDebuff>,
    has_stats: bool,
    target: u32,
    damager: u32,
    dt: u32,
) -> Seq<Damage>
    decreases debuffs.len(),
{
    if debuffs.len() == 0 {
        Seq::empty()
    } else {
        let before = bar_events(debuffs.drop_last(), has_stats, target, damager, dt);
        if debuffs.last().time_left > 0 && ticks_damage(debuffs.last(), has_stats) {
            before.push(debuff_event(debuffs.last(), target, damager, dt))
        } else {
            before
        }
    }
}

/// Ticks one debuff bar: drops what has expired, lets the rest accrue and
/// deal damage, and counts their time down. The damage events are appended
/// to `queue`.
pub fn resolve_bar(
    debuffs: &mut Vec<GPDebuff>,
    has_stats: bool,
    target: u32,
    damager: u32,
    dt: u32,
    queue: &mut Vec<Damage>,
)
    ensures
        final(debuffs)@ == bar_after(old(debuffs)@, has_stats, dt),
        final(queue)@ == old(queue)@ + bar_events(old(debuffs)@, has_stats, target, damager, dt),
{
    let mut kept: Vec<GPDebuff> = Vec::new();
    let n = debuffs.len();
    let mut i: usize = 0;
    while i < n
        invariant
            i <= n,
            n == debuffs@.len(),
            debuffs@ == old(debuffs)@,
            kept@ == bar_after(debuffs@.take(i as int), has_stats, dt),
            queue@ == old(queue)@ + bar_events(debuffs@.take(i as int), has_stats, target, damager, dt),
        decreases n - i,
    {
        assert(debuffs@.take(i + 1).drop_last() =~= debuffs@.take(i as int));
        let d = &debuffs[i];
        if d.time_left > 0 {
            let mut next = d.duplicate();
            if has_stats {
                match crate::g_properties::get_spelldata_from_string(&d.name) {
                    Some(spell) => {
                        let split = resolve_damage(d.pending_damage, spell.dps, spell.coefficient, dt);
                        next.pending_damage = split.1;
                        queue.push(
                            Damage { amt: split.0, target, damager, damage_type: d.name.clone() },
                        );
                    },
                    None => {},
                }
            }
            next.time_left = d.time_left.saturating_sub(dt);
            kept.push(next);
        }
        i += 1;
    }
    assert(debuffs@.take(n as int) =~= debuffs@);
    *debuffs = kept;
}

/// Health after a hit: what is left, and never less than nothing.
pub open spec fn health_after(health: u32, amt: u32) -> u32 {
    if health > amt {
        (health - amt) as u32
    } else {
        0
    }
}

/// The stats after one damage event. An event whose target has no stats changes nothing.
pub open spec fn stats_after_hit(stats: Map<u32, GPStats>, hit: Damage) -> Map<u32, GPStats> {
    if stats.contains_key(hit.target) {
        stats.insert(
            hit.target,
            GPStats {
                health_curr: health_after(stats[hit.target].health_curr, hit.amt),
                ..stats[hit.target]
            },
        )
    } else {
        stats
    }
}

/// The stats after a run of damage events, applied first to last.
pub open spec fn stats_after_hits(stats: Map<u32, GPStats>, hits: Seq<Damage>) -> Map<u32, GPStats>
    decreases hits.len(),
{
    if hits.len() == 0 {
        stats
    } else {
        stats_after_hit(stats_after_hits(stats, hits.drop_last()), hits.last())
    }
}

/// `text` is the combat text of a hit for `amt` of type `dtype`, on an
/// interface enlarged by `scale`. Only where in its box the text appears is
/// left to chance.
pub open spec fn is_combat_text(text: FloatingText, amt: u32, dtype: Seq<char>, scale: u32) -> bool {
    &&& text.value@ == decimal_digits(amt as nat)
    &&& 1400 * scale <= text.position.0 < 1800 * scale
    &&& 200 * scale <= text.position.1 < 400 * scale
    &&& text.velocity == (0i32, -30i32)
    &&& text.scale == 50 * scale
    &&& text.color == match color_of_type(dtype) {
        Some(c) => c,
        None => Color::rgba(255, 255, 255, 255),
    }
    &&& text.outline == Color::rgba(0, 0, 0, 255)
    &&& text.lifetime == 1000
}

/// `text` is the combat text of a hit for `amt` of type `dtype`, on an
/// interface enlarged by `scale`, where `point` is the point that was drawn
/// for it in a box of 400 by 200: the text shows the amount, in the color of
/// the damage type or in white where the type has none, outlined in black.
/// It starts at the drawn point of the box at 1400 from the left and 200
/// from the top, rises 30 a second, and stays for a second.
pub open spec fn is_combat_text_at(
    text: FloatingText,
    amt: u32,
    dtype: Seq<char>,
    scale: u32,
    point: (u32, u32),
) -> bool {
    &&& text.value@ == decimal_digits(amt as nat)
    &&& text.position.0 == point.0 + 1400 * scale
    &&& text.position.1 == point.1 + 200 * scale
    &&& text.velocity == (0i32, -30i32)
    &&& text.scale == 50 * scale
    &&& text.color == match color_of_type(dtype) {
        Some(c) => c,
        None => Color::rgba(255, 255, 255, 255),
    }
    &&& text.outline == Color::rgba(0, 0, 0, 255)
    &&& text.lifetime == 1000
}

/// The combat text of a hit for `amt` of type `dmgtype`, at the drawn point
/// of its box. The text must lie within the reach of `u32`.
pub fn combat_text_at(amt: u32, dmgtype: String, scale: u32, point: (u32, u32)) -> (text:
    FloatingText)
    requires
        point.0 + 1400 * scale <= u32::MAX,
        point.1 + 200 * scale <= u32::MAX,
    ensures
        is_combat_text_at(text, amt, dmgtype@, scale, point),
{
    let color = match get_color_from_type(dmgtype) {
        Some(c) => c,
        None => white(),
    };
    FloatingText {
        value: decimal_string(amt),
        position: (point.0 + 1400 * scale, point.1 + 200 * scale),
        velocity: (0, -30),
        scale: 50 * scale,
        color,
        outline: black(),
        lifetime: 1000,
    }
}

/// `texts` are the combat texts of `hits`, one for each hit that dealt
/// damage, in the order of the hits.
pub open spec fn are_combat_texts(texts: Seq<FloatingText>, hits: Seq<Damage>, scale: u32) -> bool
    decreases hits.len(),
{
    if hits.len() == 0 {
        texts.len() == 0
    } else if hits.last().amt == 0 {
        are_combat_texts(texts, hits.drop_last(), scale)
    } else {
        &&& texts.len() > 0
        &&& is_combat_text(texts.last(), hits.last().amt, hits.last().damage_type@, scale)
        &&& are_combat_texts(texts.drop_last(), hits.drop_last(), scale)
    }
}

/// Mortality as derived from health: an entity whose health is zero is dead,
/// and nothing here brings the dead back.
pub open spec fn mortality_after(m: GPMortality, stats: Map<u32, GPStats>, id: u32) -> GPMortality {
    if stats.contains_key(id) && stats[id].health_curr == 0 {
        GPMortality { is_alive: false, ..m }
    } else {
        m
    }
}

/// The mortality table after the deriver has run over it.
pub open spec fn derive_mortalities(
    mortalities: Map<u32, GPMortality>,
    stats: Map<u32, GPStats>,
) -> Map<u32, GPMortality> {
    Map::new(
        |id: u32| mortalities.contains_key(id),
        |id: u32| mortality_after(mortalities[id], stats, id),
    )
}

/// The damage events of a tick over the bars of the given entities, entity by entity.
pub open spec fn all_bar_events(
    bars: Map<u32, GPDebuffBar>,
    stats: Map<u32, GPStats>,
    ids: Seq<u32>,
    damager: u32,
    dt: u32,
) -> Seq<Damage>
    decreases ids.len(),
{
    if ids.len() == 0 {
        Seq::empty()
    } else {
        let e = ids.last();
        all_bar_events(bars, stats, ids.drop_last(), damager, dt) + bar_events(
            bars[e].debuffs@,
            stats.contains_key(e),
            e,
            damager,
            dt,
        )
    }
}

impl Game {
    /// `post` is this game after the debuffs of every entity with a debuff
    /// bar have ticked for `delta_time_ms`: the bars are resolved and the
    /// damage is queued, in ascending order of the entities' ids, in the name
    /// of the player.
    pub open spec fn debuffs_resolved(self, post: Game) -> bool {
        &&& post.gem.debuffbars@.dom() == self.gem.debuffbars@.dom()
        &&& forall|id: u32| #[trigger]
            self.gem.debuffbars@.contains_key(id) ==> {
                &&& post.gem.debuffbars@[id].id == self.gem.debuffbars@[id].id
                &&& post.gem.debuffbars@[id].debuffs@ == bar_after(
                    self.gem.debuffbars@[id].debuffs@,
                    self.gem.stats@.contains_key(id),
                    self.delta_time_ms,
                )
            }
        &&& post.damage_queue@ == self.damage_queue@ + all_bar_events(
            self.gem.debuffbars@,
            self.gem.stats@,
            ascending_ids(self.gem.debuffbars@.dom()),
            self.gem.player_id->0,
            self.delta_time_ms,
        )
        &&& post == (Game {
            gem: GameEntityManager { debuffbars: post.gem.debuffbars, ..self.gem },
            damage_queue: post.damage_queue,
            ..self
        })
    }

    /// `post` is this game after the damage queue has been applied and emptied.
    pub open spec fn damage_applied(self, post: Game) -> bool {
        &&& post.damage_queue@.len() == 0
        &&& post.gem.stats@ == stats_after_hits(self.gem.stats@, self.damage_queue@)
        &&& post.floating_texts@.len() >= self.floating_texts@.len()
        &&& post.floating_texts@.take(self.floating_texts@.len() as int) == self.floating_texts@
        &&& are_combat_texts(
            post.floating_texts@.skip(self.floating_texts@.len() as int),
            self.damage_queue@,
            ui_scale(self.window_width, self.window_height),
        )
        &&& post == (Game {
            gem: GameEntityManager { stats: post.gem.stats, ..self.gem },
            damage_queue: post.damage_queue,
            floating_texts: post.floating_texts,
            ..self
        })
    }

    /// `post` is this game after mortality has been derived from health.
    pub open spec fn mortality_derived(self, post: Game) -> bool {
        &&& post.gem.mortalities@ == derive_mortalities(self.gem.mortalities@, self.gem.stats@)
        &&& post == (Game {
            gem: GameEntityManager { mortalities: post.gem.mortalities, ..self.gem },
            ..self
        })
    }

    /// `post` is this game after the debuffs have ticked and the pending
    /// effects have fired. The bars tick as they stood when the tick began:
    /// a debuff that an effect applies on this tick starts with all its time
    /// and deals nothing before the next tick.
    pub open spec fn debuffs_ticked(self, post: Game) -> bool {
        exists|mid: Game| #[trigger] self.debuffs_resolved(mid) && mid.effects_fired(post)
    }

    /// Ticks the debuffs of every entity, then fires the pending effects.
    pub fn s_debuffs(&mut self)
        requires
            old(self).gem.player_id is Some,
            old(self).gem.game_property_id_counter + old(self).pending_effects@.len() <= u32::MAX,
        ensures
            old(self).debuffs_ticked(*final(self)),
    {
        self.resolve_debuffs();
        let ghost mid = *self;
        self.state_checker();
        assert(old(self).debuffs_resolved(mid) && mid.effects_fired(*self));
    }

    /// Ticks the debuffs of every entity that has a debuff bar for `delta_time_ms`.
    pub fn resolve_debuffs(&mut self)
        requires
            old(self).gem.player_id is Some,
        ensures
            old(self).debuffs_resolved(*final(self)),
    {
        broadcast use vstd::std_specs::hash::group_hash_axioms;

        let player = match self.gem.player_id {
            Some(p) => p,
            None => {
                return ;
            },
        };
        let dt = self.delta_time_ms;
        let ids = sorted_keys(&self.gem.debuffbars);
        proof {
            lemma_ascending_ids(self.gem.debuffbars@.dom());
        }
        let n = ids.len();
        let mut i: usize = 0;
        while i < n
            invariant
                i <= n,
                n == ids@.len(),
                ids@ == ascending_ids(old(self).gem.debuffbars@.dom()),
                crate::tables::strictly_increasing(ids@),
                forall|x: u32| ids@.contains(x) <==> old(self).gem.debuffbars@.contains_key(x),
                dt == old(self).delta_time_ms,
                old(self).gem.player_id == Some(player),
                self.gem.debuffbars@.dom() == old(self).gem.debuffbars@.dom(),
                forall|id: u32| #[trigger]
                    old(self).gem.debuffbars@.contains_key(id) ==> if ids@.take(i as int).contains(id) {
                        &&& self.gem.debuffbars@[id].id == old(self).gem.debuffbars@[id].id
                        &&& self.gem.debuffbars@[id].debuffs@ == bar_after(
                            old(self).gem.debuffbars@[id].debuffs@,
                            old(self).gem.stats@.contains_key(id),
                            dt,
                        )
                    } else {
                        self.gem.debuffbars@[id] == old(self).gem.debuffbars@[id]
                    },
                self.damage_queue@ == old(self).damage_queue@ + all_bar_events(
                    old(self).gem.debuffbars@,
                    old(self).gem.stats@,
                    ids@.take(i as int),
                    player,
                    dt,
                ),
                *self == (Game {
                    gem: GameEntityManager { debuffbars: self.gem.debuffbars, ..old(self).gem },
                    damage_queue: self.damage_queue,
                    ..*old(self)
                }),
            decreases n - i,
        {
            let id = ids[i];
            let ghost seen = ids@.take(i as int);
            let ghost next = ids@.take(i + 1);
            let ghost bars = self.gem.debuffbars@;
            proof {
                assert(next.drop_last() =~= seen);
                assert(next.last() == id);
                assert(ids@.contains(ids@[i as int]));
                assert(!seen.contains(id)) by {
                    if seen.contains(id) {
                        let j = choose|j: int| 0 <= j < seen.len() && seen[j] == id;
                        assert(ids@[j] < ids@[i as int]);
                    }
                }
            }
            let has_stats = self.gem.stats.contains_key(&id);
            match self.gem.debuffbars.remove(&id) {
                Some(mut bar) => {
                    resolve_bar(&mut bar.debuffs, has_stats, id, player, dt, &mut self.damage_queue);
                    self.gem.debuffbars.insert(id, bar);
                },
                None => {},
            }
            proof {
                assert(self.gem.debuffbars@.dom() =~= bars.dom());
                let events = all_bar_events(
                    old(self).gem.debuffbars@,
                    old(self).gem.stats@,
                    seen,
                    player,
                    dt,
                );
                let fresh = bar_events(
                    old(self).gem.debuffbars@[id].debuffs@,
                    has_stats,
                    id,
                    player,
                    dt,
                );
                assert(self.damage_queue@ =~= old(self).damage_queue@ + (events + fresh));
                assert forall|k: u32| #[trigger]
                    old(self).gem.debuffbars@.contains_key(k) implies if next.contains(k) {
                    &&& self.gem.debuffbars@[k].id == old(self).gem.debuffbars@[k].id
                    &&& self.gem.debuffbars@[k].debuffs@ == bar_after(
                        old(self).gem.debuffbars@[k].debuffs@,
                        old(self).gem.stats@.contains_key(k),
                        dt,
                    )
                } else {
                    self.gem.debuffbars@[k] == old(self).gem.debuffbars@[k]
                } by {
                    if k == id {
                        assert(next[i as int] == id);
                    } else {
                        if next.contains(k) {
                            let j = choose|j: int| 0 <= j < next.len() && next[j] == k;
                            assert(seen[j] == k);
                        }
                        if seen.contains(k) {
                            let j = choose|j: int| 0 <= j < seen.len() && seen[j] == k;
                            assert(next[j] == k);
                        }
                    }
                }
            }
            i += 1;
        }
        assert(ids@.take(n as int) =~= ids@);
    }

    /// Applies the queued damage to the health of its targets, first queued
    /// first applied, and empties the queue. Every hit that dealt damage
    /// leaves a combat text behind.
    pub fn s_damage(&mut self)
        ensures
            old(self).damage_applied(*final(self)),
    {
        broadcast use vstd::std_specs::hash::group_hash_axioms;

        let n = self.damage_queue.len();
        let ghost before = old(self).floating_texts@.len() as int;
        let ghost scale = ui_scale(old(self).window_width, old(self).window_height);
        let mut i: usize = 0;
        assert(self.floating_texts@.skip(before) =~= Seq::<FloatingText>::empty());
        while i < n
            invariant
                i <= n,
                n == self.damage_queue@.len(),
                before == old(self).floating_texts@.len(),
                scale == ui_scale(old(self).window_width, old(self).window_height),
                self.damage_queue@ == old(self).damage_queue@,
                self.gem.stats@ == stats_after_hits(
                    old(self).gem.stats@,
                    self.damage_queue@.take(i as int),
                ),
                self.floating_texts@.len() >= before,
                self.floating_texts@.take(before) == old(self).floating_texts@,
                are_combat_texts(
                    self.floating_texts@.skip(before),
                    self.damage_queue@.take(i as int),
                    scale,
                ),
                *self == (Game {
                    gem: GameEntityManager { stats: self.gem.stats, ..old(self).gem },
                    floating_texts: self.floating_texts,
                    ..*old(self)
                }),
            decreases n - i,
        {
            assert(self.damage_queue@.take(i + 1).drop_last() =~= self.damage_queue@.take(i as int));
            let ghost texts_before = self.floating_texts@;
            let amt = self.damage_queue[i].amt;
            let target = self.damage_queue[i].target;
            let dtype = self.damage_queue[i].damage_type.clone();
            match self.gem.stats.get(&target) {
                Some(stats) => {
                    let health = if stats.health_curr > amt {
                        stats.health_curr - amt
                    } else {
                        0
                    };
                    let hit = GPStats { health_curr: health, ..*stats };
                    self.gem.stats.insert(target, hit);
                },
                None => {},
            }
            self.floating_combat_text(amt, dtype);
            proof {
                let shown = self.floating_texts@.skip(before);
                if amt == 0 {
                    assert(shown =~= texts_before.skip(before));
                } else {
                    assert(shown.drop_last() =~= texts_before.skip(before));
                    assert(shown.last() == self.floating_texts@.last());
                }
                assert(self.floating_texts@.take(before) =~= texts_before.take(before));
            }
            i += 1;
        }
        assert(self.damage_queue@.take(n as int) =~= self.damage_queue@);
        self.damage_queue.clear();
    }

    /// Marks every entity whose health is zero as dead. Nothing is ever
    /// marked alive.
    pub fn s_mortality(&mut self)
        ensures
            old(self).mortality_derived(*final(self)),
    {
        broadcast use vstd::std_specs::hash::group_hash_axioms;

        let ids = sorted_keys(&self.gem.stats);
        let n = ids.len();
        let mut i: usize = 0;
        while i < n
            invariant
                i <= n,
                n == ids@.len(),
                ids@ == ascending_ids(self.gem.stats@.dom()),
                self.gem.mortalities@.dom() == old(self).gem.mortalities@.dom(),
                forall|k: u32| #[trigger]
                    self.gem.mortalities@.contains_key(k) ==> self.gem.mortalities@[k] == if ids@.take(
                        i as int,
                    ).contains(k) {
                        mortality_after(old(self).gem.mortalities@[k], old(self).gem.stats@, k)
                    } else {
                        old(self).gem.mortalities@[k]
                    },
                *self == (Game {
                    gem: GameEntityManager { mortalities: self.gem.mortalities, ..old(self).gem },
                    ..*old(self)
                }),
            decreases n - i,
        {
            let id = ids[i];
            let ghost seen = ids@.take(i as int);
            let ghost table = self.gem.mortalities@;
            proof {
                lemma_ascending_ids(self.gem.stats@.dom());
                assert(ids@.contains(ids@[i as int]));
                assert(ids@.take(i + 1) =~= seen.push(id));
                assert(!seen.contains(id)) by {
                    if seen.contains(id) {
                        let j = choose|j: int| 0 <= j < seen.len() && seen[j] == id;
                        assert(ids@[j] == ids@[i as int]);
                    }
                }
            }
            let dead = match self.gem.stats.get(&id) {
                Some(stats) => stats.health_curr == 0,
                None => false,
            };
            if dead {
                let known = match self.gem.mortalities.get(&id) {
                    Some(m) => Some(m.id),
                    None => None,
                };
                match known {
                    Some(pid) => {
                        self.gem.mortalities.insert(id, GPMortality { id: pid, is_alive: false });
                    },
                    None => {},
                }
            }
            proof {
                assert(self.gem.mortalities@.dom() =~= table.dom());
                assert forall|k: u32| #[trigger]
                    self.gem.mortalities@.contains_key(k) implies self.gem.mortalities@[k] == if ids@.take(
                    i + 1,
                ).contains(k) {
                    mortality_after(old(self).gem.mortalities@[k], old(self).gem.stats@, k)
                } else {
                    old(self).gem.mortalities@[k]
                } by {
                    if k == id {
                        assert(ids@.take(i + 1)[i as int] == id);
                    } else {
                        let next = ids@.take(i + 1);
                        if next.contains(k) {
                            let j = choose|j: int| 0 <= j < next.len() && next[j] == k;
                            assert(seen[j] == k);
                        }
                        if seen.contains(k) {
                            let j = choose|j: int| 0 <= j < seen.len() && seen[j] == k;
                            assert(next[j] == k);
                        }
                    }
                }
            }
            i += 1;
        }
        proof {
            lemma_ascending_ids(self.gem.stats@.dom());
            assert(ids@.take(n as int) =~= ids@);
            assert(self.gem.mortalities@ =~= derive_mortalities(
                old(self).gem.mortalities@,
                old(self).gem.stats@,
            ));
        }
    }

    /// Raises the combat text of a hit. A hit for nothing raises none.
    pub fn floating_combat_text(&mut self, amt: u32, dmgtype: String)
        ensures
            amt == 0 ==> *final(self) == *old(self),
            amt != 0 ==> {
                &&& final(self).floating_texts@.len() == old(self).floating_texts@.len() + 1
                &&& final(self).floating_texts@.drop_last() == old(self).floating_texts@
                &&& is_combat_text(
                    final(self).floating_texts@.last(),
                    amt,
                    dmgtype@,
                    ui_scale(old(self).window_width, old(self).window_height),
                )
                &&& *final(self) == (Game { floating_texts: final(self).floating_texts, ..*old(self) })
            },
    {
        if amt == 0 {
            return ;
        }
        let scale = scale_for(self.window_width, self.window_height);
        let point = random_point_in_rect(400 * scale, 200 * scale);
        self.floating_texts.push(combat_text_at(amt, dmgtype, scale, point));
        assert(final(self).floating_texts@.drop_last() =~= old(self).floating_texts@);
    }
}

} // verus!
