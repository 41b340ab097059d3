//! The effects that completed casts leave behind: a debuff on the enemy, its
//! icon on the enemy's debuff bar, and for some spells damage at once.

use crate::animation::{AnimatedSprite, AnimationRequest};
use crate::g_entities::GameEntityManager;
use crate::g_properties::{
    get_spell_data, get_spelldata_from_string, spell_duration, spell_of_name, GPDebuff, Spells,
};
use crate::game::{get_scale, scaled, Game};
use crate::systems::Damage;
use vstd::prelude::*;
use vstd::string::StringExecFns;

verus! {

/// Horizontal position of the icon in the given slot of the debuff bar. The
/// bar starts at 1403 of the layout and each slot is 64 wide, at the scale of
/// the layout's own window; a slot beyond the reach of `u32` sits at its end.
pub open spec fn icon_x(slot: nat) -> u32 {
    if 2806 + slot * 128 > u32::MAX {
        u32::MAX
    } else {
        (2806 + slot * 128) as u32
    }
}

/// `sprite` is the icon of the debuff `name`, which lasts `duration_s`
/// seconds, in the given slot of the debuff bar.
pub open spec fn is_debuff_icon(sprite: AnimatedSprite, name: Seq<char>, duration_s: u32, slot: nat) -> bool {
    &&& sprite.texture_id@ == name
    &&& sprite.frame_width == 64
    &&& sprite.frame_height == 64
    &&& sprite.total_frames == 1
    &&& sprite.current_frame == 0
    &&& sprite.frame_time == Some((duration_s * 1_000_000) as u64)
    &&& sprite.time_accumulator == 0
    &&& sprite.position == (icon_x(slot), 1294u32)
    &&& sprite.inanimate
    &&& sprite.strata == 30
    &&& sprite.desired_width == Some(128u32)
    &&& sprite.desired_height == Some(128u32)
    &&& sprite.play_once
    &&& !sprite.finished
    &&& sprite.velocity == (0i32, 0i32)
    &&& sprite.lifetime == Some((duration_s * 1_000_000) as u64)
    &&& sprite.associated_g_entity is None
}

/// `d` is a debuff as it is when just applied: full time left, one stack, nothing pending.
pub open spec fn is_fresh_debuff(d: GPDebuff, id: u32, name: Seq<char>, duration_ms: u32) -> bool {
    &&& d.id == id
    &&& d.name@ == name
    &&& d.total_duration == duration_ms
    &&& d.time_left == duration_ms
    &&& d.stacks == 1
    &&& d.pending_damage == 0
}

/// `requests` is `before` with one request more: to spawn the icon described.
pub open spec fn icon_requested(
    before: Seq<AnimationRequest>,
    requests: Seq<AnimationRequest>,
    name: Seq<char>,
    duration_s: u32,
    slot: nat,
) -> bool {
    &&& requests.len() == before.len() + 1
    &&& requests.drop_last() == before
    &&& requests.last() matches AnimationRequest::Spawn(sprite)
    &&& is_debuff_icon(sprite, name, duration_s, slot)
}

impl Game {
    /// The entity that effects land on: the enemy with the lowest id,
    /// provided it has a debuff bar.
    pub open spec fn effect_target(self) -> Option<u32> {
        match self.gem.first_enemy() {
            Some(e) => if self.gem.debuffbars@.contains_key(e) {
                Some(e)
            } else {
                None
            },
            None => None,
        }
    }

    /// `post` is this game after the debuff `name` was put on `e`: the debuff
    /// is last on the bar of `e`, under a new component id, and its icon has
    /// been requested for the slot it took.
    pub open spec fn debuff_applied(
        self,
        post: Game,
        e: u32,
        name: Seq<char>,
        duration_ms: u32,
        icon_s: u32,
    ) -> bool {
        let pid = self.gem.game_property_id_counter;
        let bar = self.gem.debuffbars@[e];
        let nbar = post.gem.debuffbars@[e];
        &&& post.gem.debuffbars@ == self.gem.debuffbars@.insert(e, nbar)
        &&& nbar.id == bar.id
        &&& nbar.debuffs@.len() == bar.debuffs@.len() + 1
        &&& nbar.debuffs@.drop_last() == bar.debuffs@
        &&& is_fresh_debuff(nbar.debuffs@.last(), pid, name, duration_ms)
        &&& icon_requested(self.anim_requests@, post.anim_requests@, name, icon_s, bar.debuffs@.len())
        &&& post.gem == (GameEntityManager {
            debuffbars: post.gem.debuffbars,
            game_property_id_counter: (pid + 1) as u32,
            ..self.gem
        })
    }

    /// What Miasma does when its cast completes: a four-second debuff on the
    /// target. Where there is no enemy, or the enemy has no debuff bar,
    /// Miasma does nothing.
    pub open spec fn miasma_applied(self, post: Game) -> bool {
        match self.effect_target() {
            Some(e) => {
                &&& self.debuff_applied(post, e, "miasma"@, 4000, 5)
                &&& post == (Game { gem: post.gem, anim_requests: post.anim_requests, ..self })
            },
            None => post == self,
        }
    }

    /// What Infernum does when its cast completes: five damage to the enemy
    /// at once, and a ten-second debuff on the target. Where there is no
    /// enemy, Infernum does nothing. Where the enemy has no debuff bar, the
    /// five damage is dealt all the same and only the debuff is left out:
    /// the damage is owed to the enemy, not to its bar.
    pub open spec fn infernum_applied(self, post: Game) -> bool {
        match self.gem.first_enemy() {
            Some(e) => {
                &&& post.damage_queue@.len() == self.damage_queue@.len() + 1
                &&& post.damage_queue@.drop_last() == self.damage_queue@
                &&& post.damage_queue@.last().amt == 5
                &&& post.damage_queue@.last().target == e
                &&& post.damage_queue@.last().damager == self.gem.player_id->0
                &&& post.damage_queue@.last().damage_type@ == "infernum"@
                &&& if self.gem.debuffbars@.contains_key(e) {
                    self.debuff_applied(post, e, "infernum"@, 10000, 10)
                } else {
                    post.gem == self.gem && post.anim_requests == self.anim_requests
                }
                &&& post == (Game {
                    gem: post.gem,
                    anim_requests: post.anim_requests,
                    damage_queue: post.damage_queue,
                    ..self
                })
            },
            None => post == self,
        }
    }

    /// What the effect of a completed cast of `sp` does.
    pub open spec fn effect_applied(self, sp: Spells, post: Game) -> bool {
        match sp {
            Spells::Miasma => self.miasma_applied(post),
            Spells::Infernum => self.infernum_applied(post),
            Spells::UmbraMortis => post == self,
        }
    }

    /// `post` is this game after the given effects have been applied, first to last.
    pub open spec fn effects_applied(self, effects: Seq<Spells>, post: Game) -> bool
        decreases effects.len(),
    {
        if effects.len() == 0 {
            post == self
        } else {
            exists|mid: Game|
                self.effects_applied(effects.drop_last(), mid) && #[trigger] mid.effect_applied(
                    effects.last(),
                    post,
                )
        }
    }

    /// `post` is this game after every pending effect has fired, oldest
    /// first, and none is pending any more.
    pub open spec fn effects_fired(self, post: Game) -> bool {
        exists|mid: Game|
            {
                &&& #[trigger] self.effects_applied(self.pending_effects@, mid)
                &&& post.pending_effects@.len() == 0
                &&& post == (Game { pending_effects: post.pending_effects, ..mid })
            }
    }

    /// Requests the icon of a debuff for the last slot of the target's bar.
    /// Nothing is requested where there is no target or the spell is unknown.
    pub fn add_icon_to_debuffbar(&mut self, spellname: String)
        ensures
            match (old(self).effect_target(), spell_of_name(spellname@)) {
                (Some(e), Some(sp)) => {
                    &&& icon_requested(
                        old(self).anim_requests@,
                        final(self).anim_requests@,
                        spellname@,
                        spell_duration(sp),
                        if old(self).gem.debuffbars@[e].debuffs@.len() == 0 {
                            0nat
                        } else {
                            (old(self).gem.debuffbars@[e].debuffs@.len() - 1) as nat
                        },
                    )
                    &&& *final(self) == (Game {
                        anim_requests: final(self).anim_requests,
                        ..*old(self)
                    })
                },
                _ => *final(self) == *old(self),
            },
    {
        broadcast use vstd::std_specs::hash::group_hash_axioms;

        let scale = get_scale();
        let enemy_id = match self.gem.get_enemy() {
            Some(e) => e,
            None => {
                return ;
            },
        };
        let count = match self.gem.debuffbars.get(&enemy_id) {
            Some(bar) => bar.debuffs.len(),
            None => {
                return ;
            },
        };
        let duration = match get_spelldata_from_string(&spellname) {
            Some(spell) => spell.duration,
            None => {
                return ;
            },
        };
        let slot: usize = if count == 0 {
            0
        } else {
            count - 1
        };
        let left = scaled(scale, 1403);
        let step = scaled(scale, 64);
        assert(left == 2806 && step == 128);
        let x: u32 = if slot > 33554410 {
            u32::MAX
        } else {
            left + (slot as u32) * step
        };
        let time: u64 = duration as u64 * 1_000_000;
        self.anim_requests.push(
            AnimationRequest::Spawn(
                AnimatedSprite {
                    texture_id: spellname,
                    frame_width: 64,
                    frame_height: 64,
                    total_frames: 1,
                    current_frame: 0,
                    frame_time: Some(time),
                    time_accumulator: 0,
                    position: (x, scaled(scale, 647)),
                    inanimate: true,
                    strata: 30,
                    desired_width: Some(scaled(scale, 64)),
                    desired_height: Some(scaled(scale, 64)),
                    play_once: true,
                    finished: false,
                    velocity: (0, 0),
                    lifetime: Some(time),
                    associated_g_entity: None,
                },
            ),
        );
        assert(final(self).anim_requests@.drop_last() =~= old(self).anim_requests@);
    }

    /// Puts a fresh debuff on the bar of `enemy` and requests its icon.
    fn apply_debuff(&mut self, enemy: u32, name: &str, duration_ms: u32)
        requires
            old(self).effect_target() == Some(enemy),
            old(self).gem.game_property_id_counter < u32::MAX,
            spell_of_name(name@) is Some,
        ensures
            old(self).debuff_applied(
                *final(self),
                enemy,
                name@,
                duration_ms,
                spell_duration(spell_of_name(name@)->0),
            ),
            *final(self) == (Game {
                gem: final(self).gem,
                anim_requests: final(self).anim_requests,
                ..*old(self)
            }),
    {
        broadcast use vstd::std_specs::hash::group_hash_axioms;

        let next_id = self.gem.next_pid();
        match self.gem.debuffbars.remove(&enemy) {
            Some(mut bar) => {
                let ghost before = bar.debuffs@;
                bar.debuffs.push(
                    GPDebuff {
                        id: next_id,
                        name: String::from_str(name),
                        total_duration: duration_ms,
                        time_left: duration_ms,
                        stacks: 1,
                        pending_damage: 0,
                    },
                );
                assert(bar.debuffs@.drop_last() =~= before);
                self.gem.debuffbars.insert(enemy, bar);
            },
            None => {},
        }
        assert(self.gem.debuffbars@ =~= old(self).gem.debuffbars@.insert(
            enemy,
            self.gem.debuffbars@[enemy],
        ));
        assert(self.gem.first_enemy() == old(self).gem.first_enemy());
        self.add_icon_to_debuffbar(String::from_str(name));
    }

    /// Fires the effect of a completed cast of Miasma.
    pub fn miasma(&mut self)
        requires
            old(self).gem.game_property_id_counter < u32::MAX,
        ensures
            old(self).miasma_applied(*final(self)),
    {
        broadcast use vstd::std_specs::hash::group_hash_axioms;

        let enemy = match self.gem.get_enemy() {
            Some(e) => e,
            None => {
                return ;
            },
        };
        if !self.gem.debuffbars.contains_key(&enemy) {
            return ;
        }
        self.apply_debuff(enemy, "miasma", 4000);
    }

    /// Fires the effect of a completed cast of Infernum.
    pub fn infernum(&mut self)
        requires
            old(self).gem.player_id is Some,
            old(self).gem.game_property_id_counter < u32::MAX,
        ensures
            old(self).infernum_applied(*final(self)),
    {
        broadcast use vstd::std_specs::hash::group_hash_axioms;

        let enemy = match self.gem.get_enemy() {
            Some(e) => e,
            None => {
                return ;
            },
        };
        let player = match self.gem.player_id {
            Some(p) => p,
            None => {
                return ;
            },
        };
        let spell = match get_spell_data(Spells::Infernum) {
            Some(s) => s,
            None => {
                return ;
            },
        };
        self.damage_queue.push(
            Damage {
                amt: spell.upfront_dam,
                target: enemy,
                damager: player,
                damage_type: String::from_str("infernum"),
            },
        );
        assert(self.damage_queue@.drop_last() =~= old(self).damage_queue@);
        if self.gem.debuffbars.contains_key(&enemy) {
            proof {
                lemma_infernum_is_known();
            }
            assert(spell.duration * 1000 == 10000);
            self.apply_debuff(enemy, "infernum", spell.duration * 1000);
        }
    }

    /// Fires every pending effect, oldest first.
    pub fn state_checker(&mut self)
        requires
            old(self).gem.player_id is Some,
            old(self).gem.game_property_id_counter + old(self).pending_effects@.len() <= u32::MAX,
        ensures
            old(self).effects_fired(*final(self)),
            final(self).gem.player_id == old(self).gem.player_id,
            final(self).gem.game_property_id_counter <= old(self).gem.game_property_id_counter + old(self).pending_effects@.len(),
    {
        let n = self.pending_effects.len();
        let mut i: usize = 0;
        while i < n
            invariant
                i <= n,
                n == old(self).pending_effects@.len(),
                self.pending_effects == old(self).pending_effects,
                self.gem.player_id == old(self).gem.player_id,
                self.gem.player_id is Some,
                self.gem.game_property_id_counter <= old(self).gem.game_property_id_counter + i,
                old(self).gem.game_property_id_counter + n <= u32::MAX,
                old(self).effects_applied(old(self).pending_effects@.take(i as int), *self),
            decreases n - i,
        {
            let ghost mid = *self;
            let effect = self.pending_effects[i];
            match effect {
                Spells::Miasma => self.miasma(),
                Spells::Infernum => self.infernum(),
                Spells::UmbraMortis => {},
            }
            proof {
                let done = old(self).pending_effects@.take(i + 1);
                assert(done.drop_last() =~= old(self).pending_effects@.take(i as int));
                assert(done.last() == effect);
                assert(mid.effect_applied(effect, *self));
            }
            i += 1;
        }
        let ghost mid = *self;
        assert(old(self).pending_effects@.take(n as int) =~= old(self).pending_effects@);
        self.pending_effects.clear();
        assert(old(self).effects_applied(old(self).pending_effects@, mid));
    }
}

/// The lower-case name of Infernum stands for Infernum.
pub proof fn lemma_infernum_is_known()
    ensures
        spell_of_name("infernum"@) == Some(Spells::Infernum),
{
    reveal_strlit("infernum");
    reveal_strlit("miasma");
    reveal_strlit("Miasma");
    assert("infernum"@.len() == 8);
    assert("miasma"@.len() == 6);
    assert("Miasma"@.len() == 6);
}

} // verus!
