//! What holds of the systems over any run of ticks.

use crate::animation::SpriteProgress;
use crate::g_properties::{
    spell_coefficient, spell_dps, spell_of_name, GPAction, GPDebuff, GPDebuffBar, GPMortality,
    GPStats, Spells,
};
use crate::game::Game;
use crate::systems::{
    accrued, all_bar_events, bar_after, bar_events, carried, debuff_accrued, debuff_after,
    debuff_event, derive_mortalities, stats_after_hit, stats_after_hits, ticks_damage,
    whole_points, Damage,
};
use crate::tables::ascending_ids;
use crate::update_game::{completion_effect, front_completes, queue_after};
use vstd::prelude::*;

verus! {

/// The milliseconds that a run of ticks covers.
pub open spec fn elapsed(dts: Seq<u32>) -> nat
    decreases dts.len(),
{
    if dts.len() == 0 {
        0
    } else {
        elapsed(dts.drop_last()) + dts.last() as nat
    }
}

/// The thousandths that a debuff holds back after a run of ticks.
pub open spec fn pending_after(pending: u32, dps: u32, coefficient: u32, dts: Seq<u32>) -> u32
    decreases dts.len(),
{
    if dts.len() == 0 {
        pending
    } else {
        carried(
            accrued(pending_after(pending, dps, coefficient, dts.drop_last()), dps, coefficient, dts.last()),
        )
    }
}

/// The whole points that a debuff deals over a run of ticks.
pub open spec fn total_dealt(pending: u32, dps: u32, coefficient: u32, dts: Seq<u32>) -> nat
    decreases dts.len(),
{
    if dts.len() == 0 {
        0
    } else {
        total_dealt(pending, dps, coefficient, dts.drop_last()) + whole_points(
            accrued(pending_after(pending, dps, coefficient, dts.drop_last()), dps, coefficient, dts.last()),
        ) as nat
    }
}

/// Fractions are carried, never lost. Over any run of ticks, the points that
/// a debuff deals and the fraction that it still holds add up to what it held
/// at first and what it earned since. A debuff that starts with nothing
/// pending has therefore dealt its rate times the time, rounded down to whole
/// points, however the time was cut into ticks. No single tick may earn more
/// points than a damage event can carry.
pub proof fn lemma_fractional_carry(pending: u32, dps: u32, coefficient: u32, dts: Seq<u32>)
    requires
        pending < 1000,
        forall|i: int|
            0 <= i < dts.len() ==> dps * coefficient * (#[trigger] dts[i]) + 999 < 1000
                * 0x1_0000_0000,
    ensures
        pending_after(pending, dps, coefficient, dts) < 1000,
        1000 * total_dealt(pending, dps, coefficient, dts) + pending_after(
            pending,
            dps,
            coefficient,
            dts,
        ) == pending + dps * coefficient * elapsed(dts),
        total_dealt(pending, dps, coefficient, dts) == (pending + dps * coefficient * elapsed(dts))
            / 1000,
    decreases dts.len(),
{
    let rate = dps as nat * coefficient as nat;
    if dts.len() == 0 {
        assert(rate * 0 == 0) by (nonlinear_arith);
    } else {
        let init = dts.drop_last();
        let dt = dts.last();
        assert forall|i: int| 0 <= i < init.len() implies dps * coefficient * (#[trigger] init[i])
            + 999 < 1000 * 0x1_0000_0000 by {
            assert(init[i] == dts[i]);
        }
        lemma_fractional_carry(pending, dps, coefficient, init);
        let p = pending_after(pending, dps, coefficient, init);
        let total = accrued(p, dps, coefficient, dt);
        assert(dts[dts.len() - 1] == dt);
        assert(total == p + rate * dt);
        assert(total / 1000 <= u32::MAX);
        assert(rate * (elapsed(init) + dt) == rate * elapsed(init) + rate * dt) by (nonlinear_arith);
        assert(1000 * (total / 1000) + total % 1000 == total);
    }
    let sum = pending + dps * coefficient * elapsed(dts);
    let dealt = total_dealt(pending, dps, coefficient, dts);
    let left = pending_after(pending, dps, coefficient, dts);
    assert(dealt == sum / 1000) by (nonlinear_arith)
        requires
            1000 * dealt + left == sum,
            0 <= left < 1000,
    ;
}

/// The spells of the catalog never earn more in a tick than a damage event can carry.
pub proof fn lemma_catalog_rates_fit(sp: Spells, dt: u32)
    ensures
        crate::g_properties::spell_dps(sp) * crate::g_properties::spell_coefficient(sp) * dt + 999
            < 1000 * 0x1_0000_0000,
{
    match sp {
        Spells::Miasma => {
            assert(5 * 3 * dt == 15 * dt);
        },
        _ => {
            assert(1 * 2 * dt == 2 * dt);
        },
    }
}

/// One tick of one debuff carries its fraction and drops none. A debuff
/// whose name is in the catalog, on a bearer with stats, deals the whole
/// points of what it held and what it earned on the tick, and keeps the
/// rest, which is less than a point.
pub proof fn lemma_tick_carries_the_fraction(d: GPDebuff, target: u32, damager: u32, dt: u32)
    requires
        spell_of_name(d.name@) is Some,
        d.pending_damage < 1000,
    ensures
        ({
            let sp = spell_of_name(d.name@)->0;
            let earned = d.pending_damage + spell_dps(sp) * spell_coefficient(sp) * dt;
            let event = debuff_event(d, target, damager, dt);
            let after = debuff_after(d, true, dt);
            &&& event.amt == earned / 1000
            &&& after.pending_damage == earned % 1000
            &&& 1000 * event.amt + after.pending_damage == earned
            &&& after.pending_damage < 1000
            &&& event.target == target
            &&& event.damager == damager
            &&& event.damage_type == d.name
            &&& after.name == d.name
        }),
{
    let sp = spell_of_name(d.name@)->0;
    lemma_catalog_rates_fit(sp, dt);
    let total = debuff_accrued(d, dt);
    assert(total == d.pending_damage + spell_dps(sp) * spell_coefficient(sp) * dt) by {
        match sp {
            Spells::Miasma => {
                assert(5 * 3 * dt == 15 * dt);
                assert((5 as nat) * (3 as nat) * (dt as nat) == 15 * dt) by (nonlinear_arith);
            },
            _ => {
                assert(1 * 2 * dt == 2 * dt);
                assert((1 as nat) * (2 as nat) * (dt as nat) == 2 * dt) by (nonlinear_arith);
            },
        }
    }
    assert(total / 1000 <= u32::MAX);
    assert(1000 * (total / 1000) + total % 1000 == total);
}

/// A bar ticks debuff by debuff: the bar after a tick, and the events of the
/// tick, are those of its front part followed by those of its back part.
pub proof fn lemma_bar_ticks_piecewise(
    front: Seq<GPDebuff>,
    back: Seq<GPDebuff>,
    has_stats: bool,
    target: u32,
    damager: u32,
    dt: u32,
)
    ensures
        bar_after(front + back, has_stats, dt) == bar_after(front, has_stats, dt) + bar_after(
            back,
            has_stats,
            dt,
        ),
        bar_events(front + back, has_stats, target, damager, dt) == bar_events(
            front,
            has_stats,
            target,
            damager,
            dt,
        ) + bar_events(back, has_stats, target, damager, dt),
    decreases back.len(),
{
    let whole = front + back;
    if back.len() == 0 {
        assert(whole =~= front);
        assert(bar_after(front, has_stats, dt) + Seq::<GPDebuff>::empty() =~= bar_after(
            front,
            has_stats,
            dt,
        ));
        assert(bar_events(front, has_stats, target, damager, dt) + Seq::<Damage>::empty()
            =~= bar_events(front, has_stats, target, damager, dt));
    } else {
        lemma_bar_ticks_piecewise(front, back.drop_last(), has_stats, target, damager, dt);
        assert(whole.drop_last() =~= front + back.drop_last());
        assert(whole.last() == back.last());
        let a = bar_after(front, has_stats, dt);
        let b = bar_after(back.drop_last(), has_stats, dt);
        assert(a + b.push(debuff_after(back.last(), has_stats, dt)) =~= (a + b).push(
            debuff_after(back.last(), has_stats, dt),
        ));
        let ea = bar_events(front, has_stats, target, damager, dt);
        let eb = bar_events(back.drop_last(), has_stats, target, damager, dt);
        assert(ea + eb.push(debuff_event(back.last(), target, damager, dt)) =~= (ea + eb).push(
            debuff_event(back.last(), target, damager, dt),
        ));
    }
}

/// A live debuff ticks in place, wherever in its bar it stands. After the
/// tick the bar holds, behind what is left of the debuffs before it, the
/// debuff as ticked; and where the debuff deals damage, the events of the
/// bar hold its event behind those of the debuffs before it.
pub proof fn lemma_debuff_ticks_in_place(
    debuffs: Seq<GPDebuff>,
    i: int,
    has_stats: bool,
    target: u32,
    damager: u32,
    dt: u32,
)
    requires
        0 <= i < debuffs.len(),
        debuffs[i].time_left > 0,
    ensures
        ({
            let before = bar_after(debuffs.take(i), has_stats, dt);
            let after = bar_after(debuffs, has_stats, dt);
            &&& before.len() < after.len()
            &&& after.take(before.len() as int) == before
            &&& after[before.len() as int] == debuff_after(debuffs[i], has_stats, dt)
            &&& after.skip(before.len() as int + 1) == bar_after(debuffs.skip(i + 1), has_stats, dt)
        }),
        ({
            let before = bar_events(debuffs.take(i), has_stats, target, damager, dt);
            let events = bar_events(debuffs, has_stats, target, damager, dt);
            let behind = bar_events(debuffs.skip(i + 1), has_stats, target, damager, dt);
            if ticks_damage(debuffs[i], has_stats) {
                &&& before.len() < events.len()
                &&& events.take(before.len() as int) == before
                &&& events[before.len() as int] == debuff_event(debuffs[i], target, damager, dt)
                &&& events.skip(before.len() as int + 1) == behind
            } else {
                events == before + behind
            }
        }),
{
    let front = debuffs.take(i + 1);
    let back = debuffs.skip(i + 1);
    assert(debuffs =~= front + back);
    assert(front.drop_last() =~= debuffs.take(i));
    assert(front.last() == debuffs[i]);
    lemma_bar_ticks_piecewise(front, back, has_stats, target, damager, dt);
    let before = bar_after(debuffs.take(i), has_stats, dt);
    let after = bar_after(debuffs, has_stats, dt);
    let ticked = debuff_after(debuffs[i], has_stats, dt);
    assert(after =~= before.push(ticked) + bar_after(back, has_stats, dt));
    assert(after.take(before.len() as int) =~= before);
    assert(after.skip(before.len() as int + 1) =~= bar_after(back, has_stats, dt));
    let ebefore = bar_events(debuffs.take(i), has_stats, target, damager, dt);
    let events = bar_events(debuffs, has_stats, target, damager, dt);
    let behind = bar_events(back, has_stats, target, damager, dt);
    if ticks_damage(debuffs[i], has_stats) {
        let event = debuff_event(debuffs[i], target, damager, dt);
        assert(events =~= ebefore.push(event) + behind);
        assert(events.take(ebefore.len() as int) =~= ebefore);
        assert(events.skip(ebefore.len() as int + 1) =~= behind);
    }
}

/// The events of a tick come entity by entity: those of the bars of the
/// first entities, followed by those of the bars of the entities behind them.
pub proof fn lemma_events_come_piecewise(
    bars: Map<u32, GPDebuffBar>,
    stats: Map<u32, GPStats>,
    front: Seq<u32>,
    back: Seq<u32>,
    damager: u32,
    dt: u32,
)
    ensures
        all_bar_events(bars, stats, front + back, damager, dt) == all_bar_events(
            bars,
            stats,
            front,
            damager,
            dt,
        ) + all_bar_events(bars, stats, back, damager, dt),
    decreases back.len(),
{
    let whole = front + back;
    let a = all_bar_events(bars, stats, front, damager, dt);
    if back.len() == 0 {
        assert(whole =~= front);
        assert(a + Seq::<Damage>::empty() =~= a);
    } else {
        lemma_events_come_piecewise(bars, stats, front, back.drop_last(), damager, dt);
        assert(whole.drop_last() =~= front + back.drop_last());
        assert(whole.last() == back.last());
        let b = all_bar_events(bars, stats, back.drop_last(), damager, dt);
        let e = back.last();
        let last = bar_events(bars[e].debuffs@, stats.contains_key(e), e, damager, dt);
        assert((a + b) + last =~= a + (b + last));
    }
}

impl Game {
    /// Wherever a live debuff stands, a tick finds it. Let the debuff be the
    /// one at place `i` of the bar of the entity at place `k` of the
    /// entities with bars. After the debuffs have ticked, the bar holds the
    /// debuff as ticked behind what is left of the debuffs before it; and
    /// where the debuff deals damage, the damage queue holds its event
    /// behind what was queued before, the events of the entities before its
    /// bearer, and the events of the debuffs before it.
    pub proof fn lemma_tick_finds_the_debuff(self, post: Game, k: int, i: int)
        requires
            self.debuffs_resolved(post),
            0 <= k < ascending_ids(self.gem.debuffbars@.dom()).len(),
            0 <= i < self.gem.debuffbars@[ascending_ids(
                self.gem.debuffbars@.dom(),
            )[k]].debuffs@.len(),
            self.gem.debuffbars@[ascending_ids(self.gem.debuffbars@.dom())[k]].debuffs@[i].time_left
                > 0,
        ensures
            ({
                let ids = ascending_ids(self.gem.debuffbars@.dom());
                let e = ids[k];
                let bar = self.gem.debuffbars@[e].debuffs@;
                let has_stats = self.gem.stats@.contains_key(e);
                let player = self.gem.player_id->0;
                let dt = self.delta_time_ms;
                let kept = bar_after(bar.take(i), has_stats, dt).len() as int;
                let queued = (self.damage_queue@.len() + all_bar_events(
                    self.gem.debuffbars@,
                    self.gem.stats@,
                    ids.take(k),
                    player,
                    dt,
                ).len() + bar_events(bar.take(i), has_stats, e, player, dt).len()) as int;
                &&& self.gem.debuffbars@.contains_key(e)
                &&& kept < post.gem.debuffbars@[e].debuffs@.len()
                &&& post.gem.debuffbars@[e].debuffs@[kept] == debuff_after(bar[i], has_stats, dt)
                &&& ticks_damage(bar[i], has_stats) ==> {
                    &&& queued < post.damage_queue@.len()
                    &&& post.damage_queue@[queued] == debuff_event(bar[i], e, player, dt)
                }
            }),
    {
        let ids = ascending_ids(self.gem.debuffbars@.dom());
        let e = ids[k];
        let bar = self.gem.debuffbars@[e].debuffs@;
        let has_stats = self.gem.stats@.contains_key(e);
        let player = self.gem.player_id->0;
        let dt = self.delta_time_ms;
        crate::tables::lemma_ascending_ids(self.gem.debuffbars@.dom());
        assert(ids.contains(ids[k]));
        assert(self.gem.debuffbars@.contains_key(e));
        lemma_debuff_ticks_in_place(bar, i, has_stats, e, player, dt);
        let front = ids.take(k + 1);
        let back = ids.skip(k + 1);
        assert(ids =~= front + back);
        assert(front.drop_last() =~= ids.take(k));
        assert(front.last() == e);
        lemma_events_come_piecewise(self.gem.debuffbars@, self.gem.stats@, front, back, player, dt);
    }
}

/// A debuff after a run of ticks, on a bearer with stats.
pub open spec fn debuff_after_ticks(d: GPDebuff, dts: Seq<u32>) -> GPDebuff
    decreases dts.len(),
{
    if dts.len() == 0 {
        d
    } else {
        debuff_after(debuff_after_ticks(d, dts.drop_last()), true, dts.last())
    }
}

/// The damage of the events that a debuff raises over a run of ticks, on a
/// bearer with stats.
pub open spec fn debuff_dealt(d: GPDebuff, dts: Seq<u32>) -> nat
    decreases dts.len(),
{
    if dts.len() == 0 {
        0
    } else {
        debuff_dealt(d, dts.drop_last()) + debuff_event(
            debuff_after_ticks(d, dts.drop_last()),
            0,
            0,
            dts.last(),
        ).amt as nat
    }
}

/// The debuff has time left at the start of every tick of the run, so that
/// every tick of the run finds it on its bar.
pub open spec fn lives_through(d: GPDebuff, dts: Seq<u32>) -> bool
    decreases dts.len(),
{
    if dts.len() == 0 {
        true
    } else {
        lives_through(d, dts.drop_last()) && debuff_after_ticks(d, dts.drop_last()).time_left > 0
    }
}

/// The damage of a debuff does not depend on how the time is cut into
/// ticks. A debuff of the catalog with nothing pending, on a bearer with
/// stats, has dealt after any run of ticks its damage per second times its
/// coefficient times the seconds that the ticks cover, rounded down to whole
/// points; with a fraction pending at first, that fraction counts as earned.
/// What the debuff still holds is the rest, less than a point.
pub proof fn lemma_debuff_damage_over_ticks(d: GPDebuff, dts: Seq<u32>)
    requires
        spell_of_name(d.name@) is Some,
        d.pending_damage < 1000,
    ensures
        ({
            let sp = spell_of_name(d.name@)->0;
            let earned = d.pending_damage + spell_dps(sp) * spell_coefficient(sp) * elapsed(dts);
            &&& debuff_dealt(d, dts) == earned / 1000
            &&& debuff_after_ticks(d, dts).pending_damage == earned % 1000
            &&& debuff_after_ticks(d, dts).name == d.name
            &&& d.pending_damage == 0 ==> debuff_dealt(d, dts) == spell_dps(sp) * spell_coefficient(sp)
                * elapsed(dts) / 1000
        }),
{
    let sp = spell_of_name(d.name@)->0;
    lemma_debuff_run(d, dts);
    assert forall|i: int| 0 <= i < dts.len() implies spell_dps(sp) * spell_coefficient(sp) * (
    #[trigger] dts[i]) + 999 < 1000 * 0x1_0000_0000 by {
        lemma_catalog_rates_fit(sp, dts[i]);
    }
    lemma_fractional_carry(d.pending_damage, spell_dps(sp), spell_coefficient(sp), dts);
    let earned = d.pending_damage + spell_dps(sp) * spell_coefficient(sp) * elapsed(dts);
    let dealt = total_dealt(d.pending_damage, spell_dps(sp), spell_coefficient(sp), dts);
    let left = pending_after(d.pending_damage, spell_dps(sp), spell_coefficient(sp), dts);
    assert(left == earned % 1000) by (nonlinear_arith)
        requires
            1000 * dealt + left == earned,
            0 <= left < 1000,
    ;
}

/// A bar after a run of ticks, on a bearer with stats.
pub open spec fn bar_after_ticks(debuffs: Seq<GPDebuff>, dts: Seq<u32>) -> Seq<GPDebuff>
    decreases dts.len(),
{
    if dts.len() == 0 {
        debuffs
    } else {
        bar_after(bar_after_ticks(debuffs, dts.drop_last()), true, dts.last())
    }
}

/// A debuff that lives through a run of ticks is ticked by every one of
/// them. Where it is alone on its bar, the bar holds after the run the
/// debuff as the run leaves it, and the events of the tick that follows are
/// the one event of the debuff.
pub proof fn lemma_lone_debuff_over_ticks(
    d: GPDebuff,
    dts: Seq<u32>,
    next: u32,
    target: u32,
    damager: u32,
)
    requires
        spell_of_name(d.name@) is Some,
        lives_through(d, dts),
        debuff_after_ticks(d, dts).time_left > 0,
    ensures
        bar_after_ticks(seq![d], dts) == seq![debuff_after_ticks(d, dts)],
        bar_events(bar_after_ticks(seq![d], dts), true, target, damager, next) == seq![
            debuff_event(debuff_after_ticks(d, dts), target, damager, next),
        ],
        bar_after(bar_after_ticks(seq![d], dts), true, next) == seq![
            debuff_after(debuff_after_ticks(d, dts), true, next),
        ],
    decreases dts.len(),
{
    if dts.len() > 0 {
        lemma_lone_debuff_over_ticks(d, dts.drop_last(), dts.last(), target, damager);
    }
    lemma_debuff_run(d, dts);
    let now = debuff_after_ticks(d, dts);
    let bar = seq![now];
    assert(bar.drop_last() =~= Seq::<GPDebuff>::empty());
    assert(bar.last() == now);
    assert(bar_after(bar.drop_last(), true, next).len() == 0);
    assert(bar_events(bar.drop_last(), true, target, damager, next).len() == 0);
    assert(ticks_damage(now, true));
    assert(bar_events(bar, true, target, damager, next) =~= seq![
        debuff_event(now, target, damager, next),
    ]);
    assert(bar_after(bar, true, next) =~= seq![debuff_after(now, true, next)]);
}

/// Over a run of ticks a debuff keeps its name, holds what `pending_after`
/// says, and deals what `total_dealt` says.
proof fn lemma_debuff_run(d: GPDebuff, dts: Seq<u32>)
    requires
        spell_of_name(d.name@) is Some,
    ensures
        ({
            let sp = spell_of_name(d.name@)->0;
            &&& debuff_after_ticks(d, dts).name == d.name
            &&& debuff_after_ticks(d, dts).pending_damage == pending_after(
                d.pending_damage,
                spell_dps(sp),
                spell_coefficient(sp),
                dts,
            )
            &&& debuff_dealt(d, dts) == total_dealt(
                d.pending_damage,
                spell_dps(sp),
                spell_coefficient(sp),
                dts,
            )
        }),
    decreases dts.len(),
{
    if dts.len() > 0 {
        lemma_debuff_run(d, dts.drop_last());
    }
}

/// The damage that a run of events deals to `id`.
pub open spec fn damage_to(hits: Seq<Damage>, id: u32) -> nat
    decreases hits.len(),
{
    if hits.len() == 0 {
        0
    } else {
        damage_to(hits.drop_last(), id) + if hits.last().target == id {
            hits.last().amt as nat
        } else {
            0
        }
    }
}

/// Damage only takes health away, and never more than there is. After any run
/// of events the same entities have stats, nothing but their health has
/// changed, and the health of each is what it was less all the damage dealt
/// to it, or zero where the damage exceeds it.
pub proof fn lemma_health_is_clamped(stats: Map<u32, GPStats>, hits: Seq<Damage>)
    ensures
        stats_after_hits(stats, hits).dom() == stats.dom(),
        forall|id: u32| #[trigger]
            stats.contains_key(id) ==> stats_after_hits(stats, hits)[id] == (GPStats {
                health_curr: if stats[id].health_curr > damage_to(hits, id) {
                    (stats[id].health_curr - damage_to(hits, id)) as u32
                } else {
                    0
                },
                ..stats[id]
            }),
    decreases hits.len(),
{
    if hits.len() > 0 {
        let before = stats_after_hits(stats, hits.drop_last());
        lemma_health_is_clamped(stats, hits.drop_last());
        let after = stats_after_hit(before, hits.last());
        assert(after.dom() =~= stats.dom());
        assert forall|id: u32| #[trigger] stats.contains_key(id) implies after[id] == (GPStats {
            health_curr: if stats[id].health_curr > damage_to(hits, id) {
                (stats[id].health_curr - damage_to(hits, id)) as u32
            } else {
                0
            },
            ..stats[id]
        }) by {
            assert(before.contains_key(id));
        }
    }
}

/// The dead stay dead. Deriving mortality keeps every entity that it knows,
/// and one that was dead before is dead after, whatever its health.
pub proof fn lemma_death_is_permanent(mortalities: Map<u32, GPMortality>, stats: Map<u32, GPStats>)
    ensures
        derive_mortalities(mortalities, stats).dom() == mortalities.dom(),
        forall|id: u32| #[trigger]
            mortalities.contains_key(id) && !mortalities[id].is_alive ==> !derive_mortalities(
                mortalities,
                stats,
            )[id].is_alive,
        forall|id: u32| #[trigger]
            mortalities.contains_key(id) ==> (derive_mortalities(mortalities, stats)[id].is_alive <==> (
                mortalities[id].is_alive && !(stats.contains_key(id) && stats[id].health_curr == 0))),
{
    assert(derive_mortalities(mortalities, stats).dom() =~= mortalities.dom());
}

/// The milliseconds that the actions of a queue still need, all told.
pub open spec fn time_needed(q: Seq<GPAction>) -> nat
    decreases q.len(),
{
    if q.len() == 0 {
        0
    } else {
        q[0].time_remaining as nat + time_needed(q.drop_first())
    }
}

/// A queue after a run of ticks.
pub open spec fn queue_after_ticks(q: Seq<GPAction>, dts: Seq<u32>) -> Seq<GPAction>
    decreases dts.len(),
{
    if dts.len() == 0 {
        q
    } else {
        queue_after(queue_after_ticks(q, dts.drop_last()), dts.last())
    }
}

/// How many actions of a queue complete over a run of ticks.
pub open spec fn completions(q: Seq<GPAction>, dts: Seq<u32>) -> nat
    decreases dts.len(),
{
    if dts.len() == 0 {
        0
    } else {
        completions(q, dts.drop_last()) + if front_completes(
            queue_after_ticks(q, dts.drop_last()),
            dts.last(),
        ) {
            1nat
        } else {
            0nat
        }
    }
}

/// The effects that a queue leaves pending over a run of ticks, in the order
/// in which they become pending.
pub open spec fn effects_fired(q: Seq<GPAction>, dts: Seq<u32>) -> Seq<Spells>
    decreases dts.len(),
{
    if dts.len() == 0 {
        Seq::empty()
    } else {
        let before = effects_fired(q, dts.drop_last());
        match completion_effect(queue_after_ticks(q, dts.drop_last()), dts.last()) {
            Some(sp) => before.push(sp),
            None => before,
        }
    }
}

/// The effects of the actions of `q`, in the order of the queue. An action
/// whose tag names no spell has none.
pub open spec fn effects_of(q: Seq<GPAction>) -> Seq<Spells>
    decreases q.len(),
{
    if q.len() == 0 {
        Seq::empty()
    } else {
        let before = effects_of(q.drop_last());
        match spell_of_name(q.last().action_tag@) {
            Some(sp) => before.push(sp),
            None => before,
        }
    }
}

/// The time that a run of ticks gives away: when the front action completes
/// before its tick is over, the rest of that tick is not passed on to the
/// action behind it.
pub open spec fn time_given_away(q: Seq<GPAction>, dts: Seq<u32>) -> nat
    decreases dts.len(),
{
    if dts.len() == 0 {
        0
    } else {
        let now = queue_after_ticks(q, dts.drop_last());
        time_given_away(q, dts.drop_last()) + if front_completes(now, dts.last()) {
            (dts.last() - now[0].time_remaining) as nat
        } else {
            0nat
        }
    }
}

/// Every action of the queue still needs some time.
pub open spec fn all_take_time(q: Seq<GPAction>) -> bool {
    forall|i: int| 0 <= i < q.len() ==> (#[trigger] q[i]).time_remaining > 0
}

/// `front` is `action` with some of its time used up.
pub open spec fn is_running(front: GPAction, action: GPAction) -> bool {
    front == (GPAction { time_remaining: front.time_remaining, ..action })
        && front.time_remaining <= action.time_remaining
}

/// Actions complete first in, first out, each exactly once. After any run of
/// ticks the actions that have completed are the first so many of the queue,
/// their effects have become pending in the order of the queue, and what is
/// left of the queue is the rest of it, untouched but for the time that its
/// front action has used up.
pub proof fn lemma_actions_complete_in_order(q: Seq<GPAction>, dts: Seq<u32>)
    ensures
        completions(q, dts) + queue_after_ticks(q, dts).len() == q.len(),
        effects_fired(q, dts) == effects_of(q.take(completions(q, dts) as int)),
        queue_after_ticks(q, dts).len() > 0 ==> {
            &&& is_running(queue_after_ticks(q, dts)[0], q[completions(q, dts) as int])
            &&& queue_after_ticks(q, dts).drop_first() == q.skip(completions(q, dts) as int + 1)
        },
    decreases dts.len(),
{
    if dts.len() == 0 {
        assert(q.take(0) =~= Seq::<GPAction>::empty());
        if q.len() > 0 {
            assert(q.drop_first() =~= q.skip(1));
        }
    } else {
        let init = dts.drop_last();
        let dt = dts.last();
        lemma_actions_complete_in_order(q, init);
        let now = queue_after_ticks(q, init);
        let k = completions(q, init) as int;
        let after = queue_after(now, dt);
        if now.len() == 0 {
        } else if now[0].time_remaining <= dt {
            assert(after == now.drop_first());
            assert(q.take(k + 1).drop_last() =~= q.take(k));
            assert(q.take(k + 1).last() == q[k]);
            assert(now[0].action_tag == q[k].action_tag);
            if after.len() > 0 {
                assert(after[0] == q.skip(k + 1)[0]);
                assert(after.drop_first() =~= q.skip(k + 2));
            }
        } else {
            assert(after.drop_first() =~= now.drop_first());
        }
    }
}

proof fn lemma_time_needed_positive(q: Seq<GPAction>)
    requires
        all_take_time(q),
        q.len() > 0,
    ensures
        time_needed(q) > 0,
{
    assert(q[0].time_remaining > 0);
}

/// Where every action takes time, a run of ticks empties the queue exactly
/// when it covers the time that the actions need and the time that it gives
/// away. Every action has then completed, and the effects of all of them have
/// become pending in the order of the queue.
pub proof fn lemma_queue_drains(q: Seq<GPAction>, dts: Seq<u32>)
    requires
        all_take_time(q),
    ensures
        all_take_time(queue_after_ticks(q, dts)),
        queue_after_ticks(q, dts).len() > 0 ==> time_needed(queue_after_ticks(q, dts)) + elapsed(dts)
            == time_needed(q) + time_given_away(q, dts),
        queue_after_ticks(q, dts).len() == 0 <==> elapsed(dts) >= time_needed(q) + time_given_away(
            q,
            dts,
        ),
        queue_after_ticks(q, dts).len() == 0 ==> completions(q, dts) == q.len() && effects_fired(
            q,
            dts,
        ) == effects_of(q),
    decreases dts.len(),
{
    lemma_actions_complete_in_order(q, dts);
    if queue_after_ticks(q, dts).len() == 0 {
        assert(q.take(q.len() as int) =~= q);
    }
    if dts.len() == 0 {
        if q.len() > 0 {
            lemma_time_needed_positive(q);
        }
    } else {
        let init = dts.drop_last();
        let dt = dts.last();
        lemma_queue_drains(q, init);
        let now = queue_after_ticks(q, init);
        let after = queue_after(now, dt);
        if now.len() == 0 {
        } else if now[0].time_remaining <= dt {
            assert(after == now.drop_first());
            assert forall|i: int| 0 <= i < after.len() implies (#[trigger] after[i]).time_remaining
                > 0 by {
                assert(after[i] == now[i + 1]);
            }
            if after.len() > 0 {
                lemma_time_needed_positive(after);
            }
        } else {
            let front = GPAction { time_remaining: (now[0].time_remaining - dt) as u32, ..now[0] };
            assert(after == now.update(0, front));
            assert(after.drop_first() =~= now.drop_first());
            assert forall|i: int| 0 <= i < after.len() implies (#[trigger] after[i]).time_remaining
                > 0 by {
                if i > 0 {
                    assert(after[i] == now[i]);
                }
            }
            lemma_time_needed_positive(after);
        }
    }
}

impl Game {
    /// A tick leaves no damage behind and raises nobody from the dead: after
    /// it the damage queue is empty, the mortality table knows the same
    /// entities, and whoever was dead before is dead still.
    pub proof fn lemma_tick_keeps_order(
        self,
        post: Game,
        frame_ms: u32,
        cast: Option<SpriteProgress>,
        projectile_active: bool,
    )
        requires
            self.ticked(post, frame_ms, cast, projectile_active),
        ensures
            post.damage_queue@.len() == 0,
            post.gem.mortalities@.dom() == self.gem.mortalities@.dom(),
            forall|id: u32| #[trigger]
                self.gem.mortalities@.contains_key(id) && !self.gem.mortalities@[id].is_alive
                    ==> !post.gem.mortalities@[id].is_alive,
    {
        let (a, b, c, d) = choose|a: Game, b: Game, c: Game, d: Game|
            {
                &&& #[trigger] self.clock_advanced(a, frame_ms)
                &&& #[trigger] a.mortality_derived(b)
                &&& #[trigger] b.debuffs_ticked(c)
                &&& #[trigger] c.damage_applied(d)
                &&& d.game_updated(post, cast, projectile_active)
            };
        lemma_death_is_permanent(a.gem.mortalities@, a.gem.stats@);
        let resolved = choose|mid: Game| #[trigger] b.debuffs_resolved(mid) && mid.effects_fired(c);
        let applied = choose|mid: Game|
            {
                &&& #[trigger] resolved.effects_applied(resolved.pending_effects@, mid)
                &&& c.pending_effects@.len() == 0
                &&& c == (Game { pending_effects: c.pending_effects, ..mid })
            };
        resolved.lemma_effects_keep_mortality(resolved.pending_effects@, applied);
        let advanced = choose|mid: Game| #[trigger]
            d.queues_advanced(mid) && mid.projectile_updated(post, cast, projectile_active);
    }

    /// Effects touch neither the mortality table nor, but through the damage
    /// queue, anybody's health.
    pub proof fn lemma_effects_keep_mortality(self, effects: Seq<Spells>, post: Game)
        requires
            self.effects_applied(effects, post),
        ensures
            post.gem.mortalities == self.gem.mortalities,
            post.gem.stats == self.gem.stats,
        decreases effects.len(),
    {
        if effects.len() > 0 {
            let mid = choose|mid: Game|
                self.effects_applied(effects.drop_last(), mid) && #[trigger] mid.effect_applied(
                    effects.last(),
                    post,
                );
            self.lemma_effects_keep_mortality(effects.drop_last(), mid);
        }
    }
}

} // verus!
