//! The action queues: the cast at the front of each queue runs down with the
//! clock, and when it completes its effect is left pending for the next tick.

use crate::animation::{AnimatedSprite, AnimationRequest, SpriteProgress};
use crate::g_entities::GameEntityManager;
use crate::g_properties::{spell_from_name, spell_of_name, GPAction, GPActionQueue, Spells};
use crate::game::{get_scale, scaled, Game};
use crate::tables::{ascending_ids, lemma_ascending_ids, sorted_keys};
use vstd::prelude::*;
use vstd::string::StringExecFns;

verus! {

/// Whether the front action of `q` completes within `dt` milliseconds.
pub open spec fn front_completes(q: Seq<GPAction>, dt: u32) -> bool {
    q.len() > 0 && q[0].time_remaining <= dt
}

/// An action queue after `dt` milliseconds. Only the front action runs: it
/// leaves the queue when its time is up, and the actions behind it wait.
pub open spec fn queue_after(q: Seq<GPAction>, dt: u32) -> Seq<GPAction> {
    if q.len() == 0 {
        q
    } else if q[0].time_remaining <= dt {
        q.drop_first()
    } else {
        q.update(0, GPAction { time_remaining: (q[0].time_remaining - dt) as u32, ..q[0] })
    }
}

/// The effect that a queue leaves pending after `dt` milliseconds: that of
/// the front action if it completes and its tag names a spell.
pub open spec fn completion_effect(q: Seq<GPAction>, dt: u32) -> Option<Spells> {
    if front_completes(q, dt) {
        spell_of_name(q[0].action_tag@)
    } else {
        None
    }
}

/// The effects that the queues of the given entities leave pending after
/// `dt` milliseconds, entity by entity.
pub open spec fn completion_effects(
    queues: Map<u32, GPActionQueue>,
    ids: Seq<u32>,
    dt: u32,
) -> Seq<Spells>
    decreases ids.len(),
{
    if ids.len() == 0 {
        Seq::empty()
    } else {
        let before = completion_effects(queues, ids.drop_last(), dt);
        match completion_effect(queues[ids.last()].queue@, dt) {
            Some(sp) => before.push(sp),
            None => before,
        }
    }
}

/// Whether the cast animation has reached the frame on which the projectile leaves.
pub open spec fn projectile_due(cast: Option<SpriteProgress>) -> bool {
    cast matches Some(s) && s.play_once && s.total_frames >= 2 && s.current_frame
        == s.total_frames - 2
}

/// `sprite` is the projectile of Miasma as it leaves the caster.
pub open spec fn is_miasma_projectile(sprite: AnimatedSprite) -> bool {
    &&& sprite.texture_id@ == "miasma_proj_anim2"@
    &&& sprite.frame_width == 64
    &&& sprite.frame_height == 64
    &&& sprite.total_frames == 2
    &&& sprite.current_frame == 0
    &&& sprite.frame_time == Some(200_000u64)
    &&& sprite.time_accumulator == 0
    &&& sprite.position == (2100u32, 500u32)
    &&& !sprite.inanimate
    &&& sprite.strata == 50
    &&& sprite.desired_width == Some(512u32)
    &&& sprite.desired_height == Some(512u32)
    &&& !sprite.play_once
    &&& !sprite.finished
    &&& sprite.velocity == (600i32, 0i32)
    &&& sprite.lifetime == Some(1_200_000u64)
    &&& sprite.associated_g_entity is None
}

/// Runs the front action of a queue for `dt` milliseconds and returns the
/// effect that it leaves pending, if it completed.
pub fn advance_queue(queue: &mut Vec<GPAction>, dt: u32) -> (effect: Option<Spells>)
    ensures
        final(queue)@ == queue_after(old(queue)@, dt),
        effect == completion_effect(old(queue)@, dt),
{
    if queue.len() == 0 {
        return None;
    }
    let remaining = queue[0].time_remaining.saturating_sub(dt);
    if remaining == 0 {
        let done = queue.remove(0);
        assert(queue@ =~= old(queue)@.drop_first());
        spell_from_name(&done.action_tag)
    } else {
        let front = &mut queue[0];
        front.time_remaining = remaining;
        assert(queue@ =~= queue_after(old(queue)@, dt));
        None
    }
}

impl Game {
    /// `post` is this game after every action queue has run for
    /// `delta_time_ms`, in ascending order of the entities' ids.
    pub open spec fn queues_advanced(self, post: Game) -> bool {
        let dt = self.delta_time_ms;
        &&& post.gem.actionqueue@.dom() == self.gem.actionqueue@.dom()
        &&& forall|id: u32| #[trigger]
            self.gem.actionqueue@.contains_key(id) ==> {
                &&& post.gem.actionqueue@[id].id == self.gem.actionqueue@[id].id
                &&& post.gem.actionqueue@[id].queue@ == queue_after(
                    self.gem.actionqueue@[id].queue@,
                    dt,
                )
            }
        &&& post.pending_effects@ == self.pending_effects@ + completion_effects(
            self.gem.actionqueue@,
            ascending_ids(self.gem.actionqueue@.dom()),
            dt,
        )
        &&& post == (Game {
            gem: GameEntityManager { actionqueue: post.gem.actionqueue, ..self.gem },
            pending_effects: post.pending_effects,
            ..self
        })
    }

    /// `post` is this game after the projectile of Miasma has been looked
    /// after: it is requested once, on the frame on which it is due, and may
    /// be requested again only once it has left the screen.
    pub open spec fn projectile_updated(
        self,
        post: Game,
        cast: Option<SpriteProgress>,
        projectile_active: bool,
    ) -> bool {
        let spawns = !self.miasma_has_spawned && projectile_due(cast);
        &&& if spawns {
            &&& post.anim_requests@.len() == self.anim_requests@.len() + 1
            &&& post.anim_requests@.drop_last() == self.anim_requests@
            &&& post.anim_requests@.last() matches AnimationRequest::Spawn(sprite)
            &&& is_miasma_projectile(sprite)
        } else {
            post.anim_requests == self.anim_requests
        }
        &&& post.miasma_has_spawned == ((self.miasma_has_spawned && projectile_active) || spawns)
        &&& post == (Game {
            anim_requests: post.anim_requests,
            miasma_has_spawned: post.miasma_has_spawned,
            ..self
        })
    }

    /// `post` is this game after the update that closes a tick.
    pub open spec fn game_updated(
        self,
        post: Game,
        cast: Option<SpriteProgress>,
        projectile_active: bool,
    ) -> bool {
        exists|mid: Game| #[trigger]
            self.queues_advanced(mid) && mid.projectile_updated(post, cast, projectile_active)
    }

    /// Runs every action queue for `delta_time_ms`. The effect of each action
    /// that completes is left pending, to fire on the next tick.
    pub fn advance_action_queues(&mut self)
        ensures
            old(self).queues_advanced(*final(self)),
    {
        broadcast use vstd::std_specs::hash::group_hash_axioms;

        let dt = self.delta_time_ms;
        let ids = sorted_keys(&self.gem.actionqueue);
        proof {
            lemma_ascending_ids(self.gem.actionqueue@.dom());
        }
        let n = ids.len();
        let mut i: usize = 0;
        while i < n
            invariant
                i <= n,
                n == ids@.len(),
                ids@ == ascending_ids(old(self).gem.actionqueue@.dom()),
                crate::tables::strictly_increasing(ids@),
                forall|j: int| 0 <= j < n ==> old(self).gem.actionqueue@.contains_key(#[trigger] ids@[j]),
                dt == old(self).delta_time_ms,
                self.gem.actionqueue@.dom() == old(self).gem.actionqueue@.dom(),
                forall|id: u32| #[trigger]
                    old(self).gem.actionqueue@.contains_key(id) ==> if ids@.take(i as int).contains(
                        id,
                    ) {
                        &&& self.gem.actionqueue@[id].id == old(self).gem.actionqueue@[id].id
                        &&& self.gem.actionqueue@[id].queue@ == queue_after(
                            old(self).gem.actionqueue@[id].queue@,
                            dt,
                        )
                    } else {
                        self.gem.actionqueue@[id] == old(self).gem.actionqueue@[id]
                    },
                self.pending_effects@ == old(self).pending_effects@ + completion_effects(
                    old(self).gem.actionqueue@,
                    ids@.take(i as int),
                    dt,
                ),
                *self == (Game {
                    gem: GameEntityManager { actionqueue: self.gem.actionqueue, ..old(self).gem },
                    pending_effects: self.pending_effects,
                    ..*old(self)
                }),
            decreases n - i,
        {
            let id = ids[i];
            let ghost seen = ids@.take(i as int);
            let ghost next = ids@.take(i + 1);
            let ghost table = self.gem.actionqueue@;
            let ghost pending = self.pending_effects@;
            proof {
                assert(next.drop_last() =~= seen);
                assert(next.last() == id);
                assert(old(self).gem.actionqueue@.contains_key(ids@[i as int]));
                assert(!seen.contains(id)) by {
                    if seen.contains(id) {
                        let j = choose|j: int| 0 <= j < seen.len() && seen[j] == id;
                        assert(ids@[j] < ids@[i as int]);
                    }
                }
            }
            match self.gem.actionqueue.remove(&id) {
                Some(mut aq) => {
                    match advance_queue(&mut aq.queue, dt) {
                        Some(effect) => {
                            self.pending_effects.push(effect);
                        },
                        None => {},
                    }
                    self.gem.actionqueue.insert(id, aq);
                },
                None => {},
            }
            proof {
                assert(self.gem.actionqueue@.dom() =~= table.dom());
                let effects = completion_effects(old(self).gem.actionqueue@, seen, dt);
                match completion_effect(old(self).gem.actionqueue@[id].queue@, dt) {
                    Some(sp) => {
                        assert(self.pending_effects@ =~= old(self).pending_effects@ + effects.push(
                            sp,
                        ));
                    },
                    None => {},
                }
                assert forall|k: u32| #[trigger]
                    old(self).gem.actionqueue@.contains_key(k) implies if next.contains(k) {
                    &&& self.gem.actionqueue@[k].id == old(self).gem.actionqueue@[k].id
                    &&& self.gem.actionqueue@[k].queue@ == queue_after(
                        old(self).gem.actionqueue@[k].queue@,
                        dt,
                    )
                } else {
                    self.gem.actionqueue@[k] == old(self).gem.actionqueue@[k]
                } by {
                    if k == id {
                        assert(next[i as int] == id);
                    } else {
                        if next.contains(k) {
                            let j = choose|j: int| 0 <= j < next.len() && next[j] == k;
                            assert(seen[j] == k);
                        }
                        if seen.contains(k) {
                            let j = choose|j: int| 0 <= j < seen.len() && seen[j] == k;
                            assert(next[j] == k);
                        }
                    }
                }
            }
            i += 1;
        }
        proof {
            assert(ids@.take(n as int) =~= ids@);
            assert forall|id: u32| #[trigger]
                old(self).gem.actionqueue@.contains_key(id) implies ids@.contains(id) by {}
        }
    }

    /// Requests the projectile of Miasma on the frame of the cast animation
    /// on which it is due. `cast` tells how far the cast animation has
    /// played, if it is on screen, and `projectile_active` whether a
    /// projectile is still on screen.
    pub fn update_miasma_projectile(&mut self, cast: Option<SpriteProgress>, projectile_active: bool)
        ensures
            old(self).projectile_updated(*final(self), cast, projectile_active),
    {
        let scale = get_scale();
        let mut spawned = false;
        if !self.miasma_has_spawned {
            match cast {
                Some(sprite) => {
                    if sprite.play_once && sprite.total_frames >= 2 && sprite.current_frame
                        == sprite.total_frames - 2 {
                        spawned = true;
                        self.miasma_has_spawned = true;
                        self.anim_requests.push(
                            AnimationRequest::Spawn(
                                AnimatedSprite {
                                    texture_id: String::from_str("miasma_proj_anim2"),
                                    frame_width: 64,
                                    frame_height: 64,
                                    total_frames: 2,
                                    current_frame: 0,
                                    frame_time: Some(200_000),
                                    time_accumulator: 0,
                                    position: (scaled(scale, 1050), scaled(scale, 250)),
                                    inanimate: false,
                                    strata: 50,
                                    desired_width: Some(scaled(scale, 256)),
                                    desired_height: Some(scaled(scale, 256)),
                                    play_once: false,
                                    finished: false,
                                    velocity: (600, 0),
                                    lifetime: Some(1_200_000),
                                    associated_g_entity: None,
                                },
                            ),
                        );
                        assert(self.anim_requests@.drop_last() =~= old(self).anim_requests@);
                    }
                },
                None => {},
            }
        }
        if !projectile_active && !spawned {
            self.miasma_has_spawned = false;
        }
    }

    /// Closes a tick: runs the action queues, then looks after the projectile.
    pub fn update_game_main_entry(&mut self, cast: Option<SpriteProgress>, projectile_active: bool)
        ensures
            old(self).game_updated(*final(self), cast, projectile_active),
    {
        self.advance_action_queues();
        let ghost mid = *self;
        self.update_miasma_projectile(cast, projectile_active);
        assert(old(self).queues_advanced(mid) && mid.projectile_updated(
            *self,
            cast,
            projectile_active,
        ));
    }
}

} // verus!
