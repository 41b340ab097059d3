//! The store of game entities: one sparse table per kind of component, keyed
//! by entity id, and the counters that hand out ids.

use crate::g_properties::{
    Allegiances, GPAction, GPActionQueue, GPAllegiance, GPBuff, GPBuffBar, GPDebuff, GPDebuffBar,
    GPId, GPLevel, GPMortality, GPStats, GPTarget,
};
use crate::tables::{
    all_where, ascending_ids, ids_where, lemma_first_where_found, lemma_first_where_none,
    lemma_ids_where_step, lemma_lowest_where, lowest_where, sorted_keys,
};
use crate::text::{decimal_digits, numbered_tag};
use std::collections::HashMap;
use vstd::prelude::*;

verus! {

/// Holds of the ids whose allegiance is `Enemy`.
pub open spec fn is_enemy(allegiances: Map<u32, GPAllegiance>) -> spec_fn(u32) -> bool {
    |id: u32| allegiances.contains_key(id) && allegiances[id].allegiance == Allegiances::Enemy
}

/// Holds of the ids whose identity carries the tag `tag`.
pub open spec fn has_tag(gids: Map<u32, GPId>, tag: Seq<char>) -> spec_fn(u32) -> bool {
    |id: u32| gids.contains_key(id) && gids[id].tag@ == tag
}

/// Where one entity alone carries a tag, the lookup by that tag finds it.
pub proof fn lemma_only_tagged(gids: Map<u32, GPId>, tag: Seq<char>, e: u32)
    requires
        gids.contains_key(e),
        gids[e].tag@ == tag,
        forall|x: u32| gids.contains_key(x) && x != e ==> (#[trigger] gids[x]).tag@ != tag,
    ensures
        lowest_where(gids.dom(), has_tag(gids, tag)) == Some(e),
{
    lemma_lowest_where(gids.dom(), has_tag(gids, tag));
    let p = has_tag(gids, tag);
    assert(p(e));
    match lowest_where(gids.dom(), p) {
        Some(found) => {
            if found != e {
                assert(gids[found].tag@ != tag);
            }
        },
        None => {},
    }
}

/// Where the lookup by a tag finds nothing, no entity carries the tag.
pub proof fn lemma_none_tagged(gids: Map<u32, GPId>, tag: Seq<char>)
    requires
        lowest_where(gids.dom(), has_tag(gids, tag)) is None,
    ensures
        forall|x: u32| gids.contains_key(x) ==> (#[trigger] gids[x]).tag@ != tag,
{
    lemma_lowest_where(gids.dom(), has_tag(gids, tag));
    let p = has_tag(gids, tag);
    assert forall|x: u32| gids.contains_key(x) implies (#[trigger] gids[x]).tag@ != tag by {
        assert(!p(x));
    }
}

/// The tag that a new entity gets: the one given, or `entity_<id>`.
pub open spec fn tag_or_default(tag: Option<String>, id: u32) -> Seq<char> {
    match tag {
        Some(t) => t@,
        None => "entity_"@ + decimal_digits(id as nat),
    }
}

/// The game entities and their components.
#[derive(Debug, Clone, PartialEq)]
pub struct GameEntityManager {
    pub gids: HashMap<u32, GPId>,
    pub mortalities: HashMap<u32, GPMortality>,
    pub allegiances: HashMap<u32, GPAllegiance>,
    pub stats: HashMap<u32, GPStats>,
    pub targets: HashMap<u32, GPTarget>,
    pub buffs: HashMap<u32, GPBuff>,
    pub buffbars: HashMap<u32, GPBuffBar>,
    pub debuffs: HashMap<u32, GPDebuff>,
    pub debuffbars: HashMap<u32, GPDebuffBar>,
    pub actions: HashMap<u32, GPAction>,
    pub actionqueue: HashMap<u32, GPActionQueue>,
    pub levels: HashMap<u32, GPLevel>,
    /// The game entity that each sprite texture depicts. Where a texture is
    /// bound more than once, its latest binding counts.
    pub texture_to_entity: Vec<(String, u32)>,
    pub player_id: Option<u32>,
    /// The next entity id. It only grows: no id is handed out twice.
    pub game_entity_id_counter: u32,
    /// The next component id. It only grows: no id is handed out twice.
    pub game_property_id_counter: u32,
}

impl GameEntityManager {
    /// The store holds nothing, knows no player, and its counters stand at zero.
    pub open spec fn is_fresh(&self) -> bool {
        &&& self.gids@ == Map::<u32, GPId>::empty()
        &&& self.mortalities@ == Map::<u32, GPMortality>::empty()
        &&& self.allegiances@ == Map::<u32, GPAllegiance>::empty()
        &&& self.stats@ == Map::<u32, GPStats>::empty()
        &&& self.targets@ == Map::<u32, GPTarget>::empty()
        &&& self.buffs@ == Map::<u32, GPBuff>::empty()
        &&& self.buffbars@ == Map::<u32, GPBuffBar>::empty()
        &&& self.debuffs@ == Map::<u32, GPDebuff>::empty()
        &&& self.debuffbars@ == Map::<u32, GPDebuffBar>::empty()
        &&& self.actions@ == Map::<u32, GPAction>::empty()
        &&& self.actionqueue@ == Map::<u32, GPActionQueue>::empty()
        &&& self.levels@ == Map::<u32, GPLevel>::empty()
        &&& self.texture_to_entity@.len() == 0
        &&& self.player_id is None
        &&& self.game_entity_id_counter == 0
        &&& self.game_property_id_counter == 0
    }

    /// Every entity has an id that the counter has handed out.
    pub open spec fn ids_in_range(&self) -> bool {
        forall|id: u32| #[trigger] self.gids@.contains_key(id) ==> id < self.game_entity_id_counter
    }

    /// An empty store whose counters start at zero.
    pub fn new() -> (gem: Self)
        ensures
            gem.is_fresh(),
            gem.ids_in_range(),
    {
        GameEntityManager {
            gids: HashMap::new(),
            mortalities: HashMap::new(),
            allegiances: HashMap::new(),
            stats: HashMap::new(),
            targets: HashMap::new(),
            buffs: HashMap::new(),
            buffbars: HashMap::new(),
            debuffs: HashMap::new(),
            debuffbars: HashMap::new(),
            actions: HashMap::new(),
            actionqueue: HashMap::new(),
            levels: HashMap::new(),
            texture_to_entity: Vec::new(),
            player_id: None,
            game_entity_id_counter: 0,
            game_property_id_counter: 0,
        }
    }

    /// The entity with the lowest id that carries the tag, if any does.
    pub open spec fn tagged(&self, tag: Seq<char>) -> Option<u32> {
        lowest_where(self.gids@.dom(), has_tag(self.gids@, tag))
    }

    /// The enemy with the lowest id, if there is an enemy.
    pub open spec fn first_enemy(&self) -> Option<u32> {
        lowest_where(self.allegiances@.dom(), is_enemy(self.allegiances@))
    }

    /// All enemies, in ascending order of id.
    pub open spec fn enemies(&self) -> Seq<u32> {
        all_where(self.allegiances@.dom(), is_enemy(self.allegiances@))
    }

    /// The entity with the lowest id that carries the tag, without creating one.
    pub fn find_entity(&self, tag: &String) -> (found: Option<u32>)
        ensures
            found == self.tagged(tag@),
    {
        broadcast use vstd::std_specs::hash::group_hash_axioms;

        let ids = sorted_keys(&self.gids);
        let ghost p = has_tag(self.gids@, tag@);
        let mut i: usize = 0;
        while i < ids.len()
            invariant
                i <= ids@.len(),
                ids@ == ascending_ids(self.gids@.dom()),
                p == has_tag(self.gids@, tag@),
                forall|j: int| 0 <= j < i ==> !p(#[trigger] ids@[j]),
            decreases ids@.len() - i,
        {
            let id = ids[i];
            match self.gids.get(&id) {
                Some(gid) => {
                    if gid.tag == *tag {
                        proof {
                            lemma_first_where_found(ids@, p, i as int);
                        }
                        return Some(id);
                    }
                },
                None => {},
            }
            i += 1;
        }
        proof {
            lemma_first_where_none(ids@, p);
        }
        None
    }

    /// The id of the entity that carries the tag: the lowest such id where
    /// several do. Where none does, a new entity is created with that tag.
    pub fn get_entity_id_from_name(&mut self, tag: String) -> (id: u32)
        requires
            old(self).tagged(tag@) is None ==> old(self).game_entity_id_counter < u32::MAX,
        ensures
            match old(self).tagged(tag@) {
                Some(e) => id == e && *final(self) == *old(self),
                None => old(self).entity_added(*final(self), id, tag@),
            },
    {
        match self.find_entity(&tag) {
            Some(id) => id,
            None => self.add_entity(Some(tag)),
        }
    }

    /// The enemy with the lowest id, if there is an enemy.
    pub fn get_enemy(&mut self) -> (enemy: Option<u32>)
        ensures
            enemy == old(self).first_enemy(),
            *final(self) == *old(self),
    {
        broadcast use vstd::std_specs::hash::group_hash_axioms;

        let ids = sorted_keys(&self.allegiances);
        let ghost p = is_enemy(self.allegiances@);
        let mut i: usize = 0;
        while i < ids.len()
            invariant
                i <= ids@.len(),
                ids@ == ascending_ids(self.allegiances@.dom()),
                p == is_enemy(self.allegiances@),
                *self == *old(self),
                forall|j: int| 0 <= j < i ==> !p(#[trigger] ids@[j]),
            decreases ids@.len() - i,
        {
            let id = ids[i];
            match self.allegiances.get(&id) {
                Some(a) => {
                    if a.allegiance == Allegiances::Enemy {
                        proof {
                            lemma_first_where_found(ids@, p, i as int);
                        }
                        return Some(id);
                    }
                },
                None => {},
            }
            i += 1;
        }
        proof {
            lemma_first_where_none(ids@, p);
        }
        None
    }

    /// All enemies, in ascending order of id.
    pub fn get_all_enemies(&self) -> (enemies: Vec<u32>)
        ensures
            enemies@ == self.enemies(),
    {
        broadcast use vstd::std_specs::hash::group_hash_axioms;

        let ids = sorted_keys(&self.allegiances);
        let ghost p = is_enemy(self.allegiances@);
        let mut enemies: Vec<u32> = Vec::new();
        let mut i: usize = 0;
        while i < ids.len()
            invariant
                i <= ids@.len(),
                ids@ == ascending_ids(self.allegiances@.dom()),
                p == is_enemy(self.allegiances@),
                enemies@ == ids_where(ids@.take(i as int), p),
            decreases ids@.len() - i,
        {
            let id = ids[i];
            proof {
                lemma_ids_where_step(ids@, p, i as int);
            }
            match self.allegiances.get(&id) {
                Some(a) => {
                    if a.allegiance == Allegiances::Enemy {
                        enemies.push(id);
                    }
                },
                None => {},
            }
            i += 1;
        }
        assert(ids@.take(i as int) =~= ids@);
        enemies
    }

    /// `post` is this store after one entity was added under `id` with the tag `tag`.
    pub open spec fn entity_added(&self, post: Self, id: u32, tag: Seq<char>) -> bool {
        &&& id == self.game_entity_id_counter
        &&& post.gids@ == self.gids@.insert(id, post.gids@[id])
        &&& post.gids@[id].id == id
        &&& post.gids@[id].tag@ == tag
        &&& post == (GameEntityManager {
            gids: post.gids,
            game_entity_id_counter: (self.game_entity_id_counter + 1) as u32,
            ..*self
        })
    }

    /// Creates an entity and returns its id, which no entity had before. Its
    /// identity carries the tag given, or `entity_<id>` where none is given.
    pub fn add_entity(&mut self, tag: Option<String>) -> (id: u32)
        requires
            old(self).game_entity_id_counter < u32::MAX,
        ensures
            old(self).entity_added(*final(self), id, tag_or_default(tag, id)),
            old(self).ids_in_range() ==> !old(self).gids@.contains_key(id) && final(self).ids_in_range(),
    {
        let id = self.next_eid();
        let final_tag = match tag {
            Some(t) => t,
            None => numbered_tag("entity_", id),
        };
        self.gids.insert(id, GPId { id, tag: final_tag });
        id
    }

    /// Hands out the next entity id.
    pub fn next_eid(&mut self) -> (id: u32)
        requires
            old(self).game_entity_id_counter < u32::MAX,
        ensures
            id == old(self).game_entity_id_counter,
            *final(self) == (GameEntityManager {
                game_entity_id_counter: (id + 1) as u32,
                ..*old(self)
            }),
    {
        let id = self.game_entity_id_counter;
        self.game_entity_id_counter += 1;
        id
    }

    /// Hands out the next component id.
    pub fn next_pid(&mut self) -> (id: u32)
        requires
            old(self).game_property_id_counter < u32::MAX,
        ensures
            id == old(self).game_property_id_counter,
            *final(self) == (GameEntityManager {
                game_property_id_counter: (id + 1) as u32,
                ..*old(self)
            }),
    {
        let id = self.game_property_id_counter;
        self.game_property_id_counter += 1;
        id
    }
}

} // verus!
