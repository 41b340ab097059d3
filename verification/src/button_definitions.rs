//! What the buttons do when they are clicked.

use crate::animation::{AnimatedSprite, AnimationRequest};
use crate::entities::EntityManager;
use crate::g_entities::GameEntityManager;
use crate::g_properties::{Actions, GPAction, GPStats, GPTarget, Spells};
use crate::game::{get_scale, scaled, Game};
use crate::properties::{ClickAction, PRect};
use crate::systems::health_after;
use crate::tables::{
    ascending_ids, lemma_first_where_found, lemma_first_where_none, lowest_where, sorted_keys,
    table_get_mut,
};
use vstd::prelude::*;
use vstd::string::StringExecFns;

verus! {

/// Holds of every id but `id`.
pub open spec fn is_other_than(id: u32) -> spec_fn(u32) -> bool {
    |x: u32| x != id
}

/// The tag under which a cast of the spell is queued.
pub open spec fn spell_tag(sp: Spells) -> Seq<char> {
    match sp {
        Spells::Miasma => "miasma"@,
        Spells::Infernum => "infernum"@,
        Spells::UmbraMortis => "umbra_mortis"@,
    }
}

/// `a` is a cast of `sp` as it is queued: two seconds long, none of them used.
pub open spec fn is_cast_action(a: GPAction, id: u32, sp: Spells) -> bool {
    &&& a.id == id
    &&& a.action == Actions::CastingSpell
    &&& a.action_tag@ == spell_tag(sp)
    &&& a.time_action_takes == 2000
    &&& a.time_remaining == 2000
    &&& a.spell == Some(sp)
}

/// `sprite` is the cast animation: twelve frames, spread evenly over the
/// `action_ms` milliseconds that the action at the front of the queue takes.
pub open spec fn is_cast_sprite(sprite: AnimatedSprite, action_ms: u32) -> bool {
    &&& sprite.texture_id@ == "Miasma_anim2"@
    &&& sprite.frame_width == 64
    &&& sprite.frame_height == 64
    &&& sprite.total_frames == 12
    &&& sprite.current_frame == 0
    &&& sprite.frame_time == Some((action_ms * 1000 / 12) as u64)
    &&& sprite.time_accumulator == 0
    &&& sprite.position == (2000u32, 414u32)
    &&& !sprite.inanimate
    &&& sprite.strata == 20
    &&& sprite.desired_width == Some(512u32)
    &&& sprite.desired_height == Some(512u32)
    &&& sprite.play_once
    &&& !sprite.finished
    &&& sprite.velocity == (0i32, 0i32)
    &&& sprite.lifetime is None
    &&& sprite.associated_g_entity is None
}

/// `requests` is `before` followed by what a cast asks of the animation
/// layer: the idle caster and any earlier cast animation go, the new cast
/// animation comes.
pub open spec fn cast_animated(
    before: Seq<AnimationRequest>,
    requests: Seq<AnimationRequest>,
    action_ms: u32,
) -> bool {
    let n = before.len() as int;
    &&& requests.len() == n + 3
    &&& requests.take(n) == before
    &&& requests[n] matches AnimationRequest::RemoveByTexture(idle)
    &&& idle@ == "my_warlock"@
    &&& requests[n + 1] matches AnimationRequest::RemoveByTexture(earlier)
    &&& earlier@ == "Miasma_anim2"@
    &&& requests[n + 2] matches AnimationRequest::Spawn(sprite)
    &&& is_cast_sprite(sprite, action_ms)
}

impl Game {
    /// `post` knows the same player as this game and has used at most so
    /// many more ids: entity ids and component ids of the game store, and
    /// ids of either kind of the presentation store.
    pub open spec fn ids_used(self, post: Game, entities: nat, components: nat, shown: nat) -> bool {
        &&& post.gem.player_id == self.gem.player_id
        &&& post.gem.game_entity_id_counter <= self.gem.game_entity_id_counter + entities
        &&& post.gem.game_property_id_counter <= self.gem.game_property_id_counter + components
        &&& post.em.entity_id_counter <= self.em.entity_id_counter + shown
        &&& post.em.property_id_counter <= self.em.property_id_counter + shown
    }

    /// Whether the game has the ids left that handling `clicks` clicks may take.
    pub open spec fn has_room_for_clicks(self, clicks: nat) -> bool {
        &&& self.gem.player_id is Some
        &&& self.gem.game_entity_id_counter + clicks <= u32::MAX
        &&& self.gem.game_property_id_counter + clicks <= u32::MAX
        &&& self.em.entity_id_counter + 12 * clicks <= u32::MAX
        &&& self.em.property_id_counter + 12 * clicks <= u32::MAX
    }

    /// `post` is this game after a click that asks for `action` was handled.
    pub open spec fn click_handled(self, action: ClickAction, post: Game) -> bool {
        match action {
            ClickAction::RunButton => self.button_pressed(post, "run_button"@),
            ClickAction::A => self.spell_button_handled(post, "a_button"@, Spells::Miasma),
            ClickAction::B => self.spell_button_handled(post, "b_button"@, Spells::Infernum),
            ClickAction::C => self.c_button_handled(post),
            ClickAction::G => self.g_button_handled(post),
            ClickAction::H => self.button_pressed(post, "h_button"@),
            _ => post == self,
        }
    }

    /// Does what a click that asks for `action` calls for.
    pub fn branch_from_click(&mut self, action: ClickAction)
        requires
            old(self).has_room_for_clicks(1),
        ensures
            old(self).click_handled(action, *final(self)),
            old(self).ids_used(*final(self), 1, 1, 12),
    {
        match action {
            ClickAction::RunButton => self.handle_run_button(),
            ClickAction::A => self.handle_a_button(),
            ClickAction::B => self.handle_b_button(),
            ClickAction::C => self.handle_c_button(),
            ClickAction::D => self.handle_d_button(),
            ClickAction::G => self.handle_g_button(),
            ClickAction::H => self.handle_h_button(),
            _ => {},
        }
    }

    /// The entity whose first rectangle shows a press of the button tagged
    /// `tag`: the one with the lowest id that carries the tag, if it has a rectangle.
    pub open spec fn button_entity(self, tag: Seq<char>) -> Option<u32> {
        match self.em.tagged(tag) {
            Some(id) => if self.em.rectangles@.contains_key(id) && self.em.rectangles@[id]@.len() > 0 {
                Some(id)
            } else {
                None
            },
            None => None,
        }
    }

    /// `post` is this game after the button tagged `tag` was pressed: the
    /// first rectangle of its entity shows as pressed. No rectangle changes
    /// where the button has none.
    pub open spec fn button_pressed(self, post: Game, tag: Seq<char>) -> bool {
        &&& match self.button_entity(tag) {
            Some(id) => {
                let rects = self.em.rectangles@[id]@;
                &&& post.em.rectangles@ == self.em.rectangles@.insert(id, post.em.rectangles@[id])
                &&& post.em.rectangles@[id]@ == rects.update(
                    0,
                    PRect { pressed: Some(true), ..rects[0] },
                )
            },
            None => post.em.rectangles@ == self.em.rectangles@,
        }
        &&& post == (Game {
            em: EntityManager { rectangles: post.em.rectangles, ..self.em },
            ..self
        })
    }

    /// The target of a cast by `caster`: the entity with the lowest id other than the caster's.
    pub open spec fn cast_target(self, caster: u32) -> Option<u32> {
        match lowest_where(self.gem.gids@.dom(), is_other_than(caster)) {
            Some(k) => Some(self.gem.gids@[k].id),
            None => None,
        }
    }

    /// Whether `caster` can cast: there is somebody to cast at, and the
    /// caster has a target slot and an action queue.
    pub open spec fn can_cast(self, caster: u32) -> bool {
        &&& self.cast_target(caster) is Some
        &&& self.gem.targets@.contains_key(caster)
        &&& self.gem.actionqueue@.contains_key(caster)
    }

    /// `post` is this game after `caster` was asked to cast `spell`. Where
    /// the caster can cast, it targets the cast's target, the cast is its
    /// latest action and the last in its queue under a new component id, and
    /// the cast animation has been requested. Otherwise nothing has changed.
    pub open spec fn cast_requested(self, post: Game, caster: u32, spell: Spells) -> bool {
        if self.can_cast(caster) {
            let pid = self.gem.game_property_id_counter;
            let queue = self.gem.actionqueue@[caster];
            let nqueue = post.gem.actionqueue@[caster];
            &&& post.gem.targets@ == self.gem.targets@.insert(
                caster,
                GPTarget { target_entity: self.cast_target(caster), ..self.gem.targets@[caster] },
            )
            &&& post.gem.actions@ == self.gem.actions@.insert(caster, post.gem.actions@[caster])
            &&& is_cast_action(post.gem.actions@[caster], pid, spell)
            &&& post.gem.actionqueue@ == self.gem.actionqueue@.insert(caster, nqueue)
            &&& nqueue.id == queue.id
            &&& nqueue.queue@.len() == queue.queue@.len() + 1
            &&& nqueue.queue@.drop_last() == queue.queue@
            &&& is_cast_action(nqueue.queue@.last(), pid, spell)
            &&& cast_animated(self.anim_requests@, post.anim_requests@, nqueue.queue@[0].time_action_takes)
            &&& post.gem == (GameEntityManager {
                targets: post.gem.targets,
                actions: post.gem.actions,
                actionqueue: post.gem.actionqueue,
                game_property_id_counter: (pid + 1) as u32,
                ..self.gem
            })
            &&& post == (Game { gem: post.gem, anim_requests: post.anim_requests, ..self })
        } else {
            post == self
        }
    }

    /// `post` is this game after the alpine terror took five damage at the
    /// press of a button. The terror is the entity with the lowest id tagged
    /// `alpine_terror`; where there is none, one is created first.
    pub open spec fn terror_hurt(self, post: Game) -> bool {
        let e = match self.gem.tagged("alpine_terror"@) {
            Some(e) => e,
            None => self.gem.game_entity_id_counter,
        };
        let unhurt = GameEntityManager { stats: self.gem.stats, ..post.gem };
        &&& match self.gem.tagged("alpine_terror"@) {
            Some(_) => unhurt == self.gem,
            None => self.gem.entity_added(unhurt, e, "alpine_terror"@),
        }
        &&& post.gem.stats@ == if self.gem.stats@.contains_key(e) {
            self.gem.stats@.insert(
                e,
                GPStats {
                    health_curr: health_after(self.gem.stats@[e].health_curr, 5),
                    ..self.gem.stats@[e]
                },
            )
        } else {
            self.gem.stats@
        }
        &&& post == (Game { gem: post.gem, ..self })
    }

    /// Shows the button tagged `tag` as pressed.
    pub fn press_button(&mut self, tag: &str)
        ensures
            old(self).button_pressed(*final(self), tag@),
            old(self).ids_used(*final(self), 0, 0, 0),
    {
        match self.em.get_prects_mut_by_tag(tag) {
            Some(rects) => {
                if rects.len() > 0 {
                    let first = &mut rects[0];
                    first.pressed = Some(true);
                }
            },
            None => {},
        }
        proof {
            match old(self).button_entity(tag@) {
                Some(id) => {
                    assert(self.em.rectangles@ =~= old(self).em.rectangles@.insert(
                        id,
                        self.em.rectangles@[id],
                    ));
                },
                None => {
                    assert(self.em.rectangles@ =~= old(self).em.rectangles@);
                },
            }
        }
    }

    /// The entity with the lowest id other than `caster`, as its identity names it.
    fn find_cast_target(&self, caster: u32) -> (target: Option<u32>)
        ensures
            target == self.cast_target(caster),
    {
        broadcast use vstd::std_specs::hash::group_hash_axioms;

        let ids = sorted_keys(&self.gem.gids);
        let ghost p = is_other_than(caster);
        proof {
            crate::tables::lemma_ascending_ids(self.gem.gids@.dom());
        }
        let mut i: usize = 0;
        while i < ids.len()
            invariant
                i <= ids@.len(),
                ids@ == ascending_ids(self.gem.gids@.dom()),
                forall|x: u32| ids@.contains(x) <==> self.gem.gids@.contains_key(x),
                p == is_other_than(caster),
                forall|j: int| 0 <= j < i ==> !p(#[trigger] ids@[j]),
            decreases ids@.len() - i,
        {
            let id = ids[i];
            if id != caster {
                proof {
                    lemma_first_where_found(ids@, p, i as int);
                    assert(ids@.contains(ids@[i as int]));
                }
                return match self.gem.gids.get(&id) {
                    Some(gid) => Some(gid.id),
                    None => None,
                };
            }
            i += 1;
        }
        proof {
            lemma_first_where_none(ids@, p);
        }
        None
    }

    /// Asks `caster` to cast `spell` at the first other entity. Returns
    /// whether the cast was queued.
    pub fn request_cast(&mut self, caster: u32, spell: Spells) -> (queued: bool)
        requires
            old(self).gem.game_property_id_counter < u32::MAX,
        ensures
            queued == old(self).can_cast(caster),
            old(self).cast_requested(*final(self), caster, spell),
            old(self).ids_used(*final(self), 0, 1, 0),
    {
        broadcast use vstd::std_specs::hash::group_hash_axioms;

        let target = match self.find_cast_target(caster) {
            Some(t) => t,
            None => {
                return false;
            },
        };
        if !self.gem.targets.contains_key(&caster) || !self.gem.actionqueue.contains_key(&caster) {
            return false;
        }
        match table_get_mut(&mut self.gem.targets, caster) {
            Some(slot) => {
                slot.target_entity = Some(target);
            },
            None => {},
        }
        let next_id = self.gem.next_pid();
        let tag = match spell {
            Spells::Miasma => "miasma",
            Spells::Infernum => "infernum",
            Spells::UmbraMortis => "umbra_mortis",
        };
        let a = GPAction {
            id: next_id,
            action: Actions::CastingSpell,
            action_tag: String::from_str(tag),
            time_action_takes: 2000,
            time_remaining: 2000,
            spell: Some(spell),
        };
        self.gem.actions.insert(caster, a.duplicate());
        let mut action_time: u32 = 2000;
        match self.gem.actionqueue.remove(&caster) {
            Some(mut aq) => {
                let ghost before = aq.queue@;
                aq.queue.push(a);
                assert(aq.queue@.drop_last() =~= before);
                action_time = aq.queue[0].time_action_takes;
                self.gem.actionqueue.insert(caster, aq);
            },
            None => {},
        }
        assert(self.gem.actions@ =~= old(self).gem.actions@.insert(caster, self.gem.actions@[caster]));
        assert(self.gem.actionqueue@ =~= old(self).gem.actionqueue@.insert(
            caster,
            self.gem.actionqueue@[caster],
        ));

        let scale = get_scale();
        let ghost shown = self.anim_requests@;
        self.anim_requests.push(AnimationRequest::RemoveByTexture(String::from_str("my_warlock")));
        self.anim_requests.push(AnimationRequest::RemoveByTexture(String::from_str("Miasma_anim2")));
        let frame_time: u64 = action_time as u64 * 1000 / 12;
        self.anim_requests.push(
            AnimationRequest::Spawn(
                AnimatedSprite {
                    texture_id: String::from_str("Miasma_anim2"),
                    frame_width: 64,
                    frame_height: 64,
                    total_frames: 12,
                    current_frame: 0,
                    frame_time: Some(frame_time),
                    time_accumulator: 0,
                    position: (scaled(scale, 1000), scaled(scale, 207)),
                    inanimate: false,
                    strata: 20,
                    desired_width: Some(scaled(scale, 256)),
                    desired_height: Some(scaled(scale, 256)),
                    play_once: true,
                    finished: false,
                    velocity: (0, 0),
                    lifetime: None,
                    associated_g_entity: None,
                },
            ),
        );
        assert(self.anim_requests@.take(shown.len() as int) =~= shown);
        true
    }

    /// The run button shows as pressed.
    pub fn handle_run_button(&mut self)
        ensures
            old(self).button_pressed(*final(self), "run_button"@),
            old(self).ids_used(*final(self), 0, 0, 0),
    {
        self.press_button("run_button");
    }

    /// Button A shows as pressed, and the player is asked to cast Miasma.
    pub fn handle_a_button(&mut self)
        requires
            old(self).gem.player_id is Some,
            old(self).gem.game_property_id_counter < u32::MAX,
        ensures
            old(self).spell_button_handled(*final(self), "a_button"@, Spells::Miasma),
            old(self).ids_used(*final(self), 0, 1, 0),
    {
        self.press_button("a_button");
        let ghost mid = *self;
        match self.gem.player_id {
            Some(player) => {
                self.request_cast(player, Spells::Miasma);
            },
            None => {},
        }
        assert(old(self).button_pressed(mid, "a_button"@));
    }

    /// Button B shows as pressed, and the player is asked to cast Infernum.
    pub fn handle_b_button(&mut self)
        requires
            old(self).gem.player_id is Some,
            old(self).gem.game_property_id_counter < u32::MAX,
        ensures
            old(self).spell_button_handled(*final(self), "b_button"@, Spells::Infernum),
            old(self).ids_used(*final(self), 0, 1, 0),
    {
        self.press_button("b_button");
        let ghost mid = *self;
        match self.gem.player_id {
            Some(player) => {
                self.request_cast(player, Spells::Infernum);
            },
            None => {},
        }
        assert(old(self).button_pressed(mid, "b_button"@));
    }

    /// `post` is this game after a spell button was clicked: the button
    /// shows as pressed, and the player was asked to cast the spell.
    pub open spec fn spell_button_handled(self, post: Game, tag: Seq<char>, spell: Spells) -> bool {
        exists|mid: Game| #[trigger]
            self.button_pressed(mid, tag) && mid.cast_requested(post, self.gem.player_id->0, spell)
    }

    /// `post` is this game after button C was clicked: the button shows as
    /// pressed, and the alpine terror has taken five damage.
    pub open spec fn c_button_handled(self, post: Game) -> bool {
        exists|mid: Game| #[trigger] self.button_pressed(mid, "c_button"@) && mid.terror_hurt(post)
    }

    /// Button C shows as pressed, and the alpine terror takes five damage.
    pub fn handle_c_button(&mut self)
        requires
            old(self).gem.tagged("alpine_terror"@) is None ==> old(self).gem.game_entity_id_counter
                < u32::MAX,
        ensures
            old(self).c_button_handled(*final(self)),
            old(self).ids_used(*final(self), 1, 0, 0),
    {
        broadcast use vstd::std_specs::hash::group_hash_axioms;

        self.press_button("c_button");
        let ghost mid = *self;
        let e_id = self.gem.get_entity_id_from_name(String::from_str("alpine_terror"));
        let hurt = match self.gem.stats.get(&e_id) {
            Some(stats) => Some(GPStats { health_curr: stats.health_curr.saturating_sub(5), ..*stats }),
            None => None,
        };
        match hurt {
            Some(stats) => {
                self.gem.stats.insert(e_id, stats);
            },
            None => {},
        }
        proof {
            assert(old(self).button_pressed(mid, "c_button"@));
            if !mid.gem.stats@.contains_key(e_id) {
                assert(self.gem.stats@ =~= mid.gem.stats@);
            }
            assert(mid.terror_hurt(*self));
        }
    }

    /// Button D does nothing yet.
    pub fn handle_d_button(&mut self)
        ensures
            *final(self) == *old(self),
    {
    }

    /// Button H shows as pressed.
    pub fn handle_h_button(&mut self)
        ensures
            old(self).button_pressed(*final(self), "h_button"@),
            old(self).ids_used(*final(self), 0, 0, 0),
    {
        self.press_button("h_button");
    }
}

} // verus!
