//! World construction: the player and the enemy, each with its components.

use crate::g_entities::GameEntityManager;
use crate::g_properties::{
    Allegiances, GPActionQueue, GPAllegiance, GPBuffBar, GPDebuffBar, GPLevel, GPMortality,
    GPStats, GPTarget,
};
use crate::game::Game;
use vstd::prelude::*;
use vstd::string::StringExecFns;

verus! {

/// What an actor is made of, apart from its identity.
#[derive(Debug, Clone, Copy, PartialEq, Eq)]
pub struct Blueprint {
    pub allegiance: Allegiances,
    pub level: u32,
    pub xp: u32,
    pub health_max: u32,
    pub health_curr: u32,
    pub chaos: u32,
    pub solidity: u32,
    pub vitality: u32,
    pub haste: u32,
    pub will: u32,
    pub volatility: u32,
}

/// The player as the game starts: level 5, wounded.
pub open spec fn player_blueprint() -> Blueprint {
    Blueprint {
        allegiance: Allegiances::Player,
        level: 5,
        xp: 50,
        health_max: 100,
        health_curr: 80,
        chaos: 1,
        solidity: 1,
        vitality: 1,
        haste: 1,
        will: 1,
        volatility: 1,
    }
}

/// The enemy as the game starts: level 2, unhurt.
pub open spec fn enemy_blueprint() -> Blueprint {
    Blueprint {
        allegiance: Allegiances::Enemy,
        level: 2,
        xp: 0,
        health_max: 400,
        health_curr: 400,
        chaos: 2,
        solidity: 4,
        vitality: 4,
        haste: 2,
        will: 2,
        volatility: 2,
    }
}

impl GameEntityManager {
    /// `post` has one identity more than this store: that of the actor `id`,
    /// which carries the tag `tag`. Every other identity is as it was.
    pub open spec fn actor_identified(self, post: Self, id: u32, tag: Seq<char>) -> bool {
        &&& post.gids@ == self.gids@.insert(id, post.gids@[id])
        &&& post.gids@[id].id == id
        &&& post.gids@[id].tag@ == tag
    }

    /// `post` is this store after the entity `id` got all the components of
    /// an actor built to `bp`, under eight new component ids: mortality,
    /// level, allegiance, stats, target, buff bar, debuff bar and action
    /// queue, in that order. The actor is alive, targets nothing, and its
    /// bars and queue are empty.
    pub open spec fn actor_equipped(self, post: Self, id: u32, bp: Blueprint) -> bool {
        let pid = self.game_property_id_counter;
        &&& post.mortalities@ == self.mortalities@.insert(
            id,
            GPMortality { id: pid, is_alive: true },
        )
        &&& post.levels@ == self.levels@.insert(
            id,
            GPLevel {
                id: (pid + 1) as u32,
                curr_level: bp.level,
                curr_xp: bp.xp,
                next_level_xp: 100,
            },
        )
        &&& post.allegiances@ == self.allegiances@.insert(
            id,
            GPAllegiance { id: (pid + 2) as u32, allegiance: bp.allegiance },
        )
        &&& post.stats@ == self.stats@.insert(
            id,
            GPStats {
                id: (pid + 3) as u32,
                health_max: bp.health_max,
                health_curr: bp.health_curr,
                chaos: bp.chaos,
                solidity: bp.solidity,
                vitality: bp.vitality,
                haste: bp.haste,
                will: bp.will,
                volatility: bp.volatility,
            },
        )
        &&& post.targets@ == self.targets@.insert(
            id,
            GPTarget { id: (pid + 4) as u32, target_entity: None },
        )
        &&& post.buffbars@ == self.buffbars@.insert(id, post.buffbars@[id])
        &&& post.buffbars@[id].id == pid + 5
        &&& post.buffbars@[id].buffs@.len() == 0
        &&& post.debuffbars@ == self.debuffbars@.insert(id, post.debuffbars@[id])
        &&& post.debuffbars@[id].id == pid + 6
        &&& post.debuffbars@[id].debuffs@.len() == 0
        &&& post.actionqueue@ == self.actionqueue@.insert(id, post.actionqueue@[id])
        &&& post.actionqueue@[id].id == pid + 7
        &&& post.actionqueue@[id].queue@.len() == 0
        &&& post == (GameEntityManager {
            mortalities: post.mortalities,
            levels: post.levels,
            allegiances: post.allegiances,
            stats: post.stats,
            targets: post.targets,
            buffbars: post.buffbars,
            debuffbars: post.debuffbars,
            actionqueue: post.actionqueue,
            game_property_id_counter: (pid + 8) as u32,
            ..self
        })
    }

    /// Gives the entity `id` the components of an actor built to `bp`.
    pub fn equip_actor(&mut self, id: u32, bp: Blueprint)
        requires
            old(self).game_property_id_counter <= u32::MAX - 8,
        ensures
            old(self).actor_equipped(*final(self), id, bp),
    {
        let next_id = self.next_pid();
        self.mortalities.insert(id, GPMortality { id: next_id, is_alive: true });

        let next_id = self.next_pid();
        self.levels.insert(
            id,
            GPLevel { id: next_id, curr_level: bp.level, curr_xp: bp.xp, next_level_xp: 100 },
        );

        let next_id = self.next_pid();
        self.allegiances.insert(id, GPAllegiance { id: next_id, allegiance: bp.allegiance });

        let next_id = self.next_pid();
        self.stats.insert(
            id,
            GPStats {
                id: next_id,
                health_max: bp.health_max,
                health_curr: bp.health_curr,
                chaos: bp.chaos,
                solidity: bp.solidity,
                vitality: bp.vitality,
                haste: bp.haste,
                will: bp.will,
                volatility: bp.volatility,
            },
        );

        let next_id = self.next_pid();
        self.targets.insert(id, GPTarget { id: next_id, target_entity: None });

        let next_id = self.next_pid();
        self.buffbars.insert(id, GPBuffBar { id: next_id, buffs: Vec::new() });

        let next_id = self.next_pid();
        self.debuffbars.insert(id, GPDebuffBar { id: next_id, debuffs: Vec::new() });

        let next_id = self.next_pid();
        self.actionqueue.insert(id, GPActionQueue { id: next_id, queue: Vec::new() });

        assert(self.buffbars@ =~= old(self).buffbars@.insert(id, self.buffbars@[id]));
        assert(self.debuffbars@ =~= old(self).debuffbars@.insert(id, self.debuffbars@[id]));
        assert(self.actionqueue@ =~= old(self).actionqueue@.insert(id, self.actionqueue@[id]));
    }
}

/// The game entity that the texture `name` depicts: that of its latest binding.
pub open spec fn texture_entity(bindings: Seq<(String, u32)>, name: Seq<char>) -> Option<u32>
    decreases bindings.len(),
{
    if bindings.len() == 0 {
        None
    } else if bindings.last().0@ == name {
        Some(bindings.last().1)
    } else {
        texture_entity(bindings.drop_last(), name)
    }
}

impl GameEntityManager {
    /// The game entity that the texture `name` depicts, if the texture is bound.
    pub fn entity_for_texture(&self, name: &str) -> (entity: Option<u32>)
        ensures
            entity == texture_entity(self.texture_to_entity@, name@),
    {
        let mut i: usize = self.texture_to_entity.len();
        assert(self.texture_to_entity@.take(i as int) =~= self.texture_to_entity@);
        while i > 0
            invariant
                i <= self.texture_to_entity@.len(),
                texture_entity(self.texture_to_entity@, name@) == texture_entity(
                    self.texture_to_entity@.take(i as int),
                    name@,
                ),
            decreases i,
        {
            i -= 1;
            assert(self.texture_to_entity@.take(i + 1).last() == self.texture_to_entity@[i as int]);
            if crate::text::str_is(&self.texture_to_entity[i].0, name) {
                return Some(self.texture_to_entity[i].1);
            }
            assert(self.texture_to_entity@.take(i + 1).drop_last() =~= self.texture_to_entity@.take(
                i as int,
            ));
        }
        None
    }
}

impl Game {
    /// `post` is this game after the player was created: a new game entity
    /// tagged `player`, equipped to the player's blueprint, known as the
    /// player, and linked to the presentation entity of the player where
    /// there is one.
    pub open spec fn player_created(self, post: Game) -> bool {
        let id = self.gem.game_entity_id_counter;
        &&& exists|mid: GameEntityManager|
            {
                &&& #[trigger] self.gem.entity_added(mid, id, "player"@)
                &&& mid.actor_equipped(
                    GameEntityManager { player_id: mid.player_id, ..post.gem },
                    id,
                    player_blueprint(),
                )
            }
        &&& post.gem.player_id == Some(id)
        &&& post.em_gem_link@ == match self.em.tagged("player"@) {
            Some(shown) => self.em_gem_link@.insert(shown, id),
            None => self.em_gem_link@,
        }
        &&& post == (Game { gem: post.gem, em_gem_link: post.em_gem_link, ..self })
    }

    /// `post` is this game after the enemy was created: a new game entity
    /// tagged `alpine_terror`, equipped to the enemy's blueprint, and
    /// depicted by the texture `Alpe`.
    pub open spec fn enemy_created(self, post: Game) -> bool {
        let id = self.gem.game_entity_id_counter;
        &&& exists|mid: GameEntityManager|
            {
                &&& #[trigger] self.gem.entity_added(mid, id, "alpine_terror"@)
                &&& mid.actor_equipped(
                    GameEntityManager { texture_to_entity: mid.texture_to_entity, ..post.gem },
                    id,
                    enemy_blueprint(),
                )
            }
        &&& post.gem.texture_to_entity@.len() == self.gem.texture_to_entity@.len() + 1
        &&& post.gem.texture_to_entity@.drop_last() == self.gem.texture_to_entity@
        &&& post.gem.texture_to_entity@.last().0@ == "Alpe"@
        &&& post.gem.texture_to_entity@.last().1 == id
        &&& post == (Game { gem: post.gem, ..self })
    }

    /// Creates the player, then the enemy.
    pub fn init_game(&mut self)
        requires
            old(self).gem.game_entity_id_counter <= u32::MAX - 2,
            old(self).gem.game_property_id_counter <= u32::MAX - 16,
        ensures
            exists|mid: Game| #[trigger] old(self).player_created(mid) && mid.enemy_created(*final(self)),
    {
        self.create_player();
        let ghost mid = *self;
        self.create_enemy();
        assert(old(self).player_created(mid) && mid.enemy_created(*self));
    }

    /// Creates the player.
    pub fn create_player(&mut self)
        requires
            old(self).gem.game_entity_id_counter < u32::MAX,
            old(self).gem.game_property_id_counter <= u32::MAX - 8,
        ensures
            old(self).player_created(*final(self)),
            final(self).gem.game_entity_id_counter == old(self).gem.game_entity_id_counter + 1,
            final(self).gem.game_property_id_counter == old(self).gem.game_property_id_counter + 8,
            old(self).gem.actor_identified(
                final(self).gem,
                old(self).gem.game_entity_id_counter,
                "player"@,
            ),
    {
        let pgid = self.gem.add_entity(Some(String::from_str("player")));
        let ghost mid = self.gem;
        self.gem.equip_actor(
            pgid,
            Blueprint {
                allegiance: Allegiances::Player,
                level: 5,
                xp: 50,
                health_max: 100,
                health_curr: 80,
                chaos: 1,
                solidity: 1,
                vitality: 1,
                haste: 1,
                will: 1,
                volatility: 1,
            },
        );
        let ghost equipped = self.gem;
        self.gem.player_id = Some(pgid);
        match self.em.get_player_id() {
            Some(em_player_id) => {
                self.em_gem_link.insert(em_player_id, pgid);
            },
            None => {},
        }
        assert(equipped == (GameEntityManager { player_id: mid.player_id, ..self.gem }));
    }

    /// Creates the enemy.
    pub fn create_enemy(&mut self)
        requires
            old(self).gem.game_entity_id_counter < u32::MAX,
            old(self).gem.game_property_id_counter <= u32::MAX - 8,
        ensures
            old(self).enemy_created(*final(self)),
            final(self).gem.game_entity_id_counter == old(self).gem.game_entity_id_counter + 1,
            final(self).gem.game_property_id_counter == old(self).gem.game_property_id_counter + 8,
            final(self).gem.player_id == old(self).gem.player_id,
            old(self).gem.actor_identified(
                final(self).gem,
                old(self).gem.game_entity_id_counter,
                "alpine_terror"@,
            ),
    {
        let enemy_id = self.gem.add_entity(Some(String::from_str("alpine_terror")));
        let ghost mid = self.gem;
        let level: u32 = 2;
        self.gem.equip_actor(
            enemy_id,
            Blueprint {
                allegiance: Allegiances::Enemy,
                level,
                xp: 0,
                health_max: 100 * (2 * level),
                health_curr: 100 * (2 * level),
                chaos: 1 * level,
                solidity: 2 * level,
                vitality: 2 * level,
                haste: 1 * level,
                will: 1 * level,
                volatility: 1 * level,
            },
        );
        let ghost equipped = self.gem;
        self.gem.texture_to_entity.push((String::from_str("Alpe"), enemy_id));
        assert(self.gem.texture_to_entity@.drop_last() =~= old(self).gem.texture_to_entity@);
        assert(equipped == (GameEntityManager {
            texture_to_entity: mid.texture_to_entity,
            ..self.gem
        }));
    }
}

} // verus!
