//! The store of presentation entities: what is on screen. It has an id space
//! of its own, apart from that of the game entities.

use crate::properties::{
    ClickAction, ColorPair, PCastbar, PClickable, PHealthbar, PId, PRect, PState, PText,
    PTooltipData, PropertiesEnum,
};
use crate::tables::{
    ascending_ids, ids_where, lemma_first_where_found, lemma_first_where_none, lemma_ids_where_step,
    lowest_where, sorted_keys, table_get_mut,
};
use crate::text::{decimal_digits, numbered_tag, str_is};
use std::collections::HashMap;
use vstd::prelude::*;
use vstd::string::StringExecFns;

verus! {

/// Holds of the ids whose identity carries the tag `tag`.
pub open spec fn is_tagged(ids: Map<u32, PId>, tag: Seq<char>) -> spec_fn(u32) -> bool {
    |id: u32| ids.contains_key(id) && ids[id].tag@ == tag
}

/// The components that `id` carries in a table that holds several per entity.
pub open spec fn listed<T>(table: Map<u32, Vec<T>>, id: u32) -> Seq<T> {
    if table.contains_key(id) {
        table[id]@
    } else {
        Seq::empty()
    }
}

/// The rectangle that a new entity starts with.
pub open spec fn default_rect(pid: u32) -> PRect {
    PRect {
        id: pid,
        x: 10,
        y: 10,
        width: 10,
        height: 10,
        colors: ColorPair { fill: (19, 81, 150), outline: Some((24u8, 26u8, 28u8)) },
        hovered_color: None,
        pressed_color: None,
        hovered: None,
        pressed: None,
        draw: false,
        strata: 0,
    }
}

/// The health bar that a new entity starts with.
pub open spec fn default_healthbar(pid: u32) -> PHealthbar {
    PHealthbar {
        id: pid,
        x: 10,
        y: 10,
        width: 10,
        height: 10,
        draw: true,
        strata: 20,
        base_colors: ColorPair { fill: (254, 0, 0), outline: Some((0u8, 0u8, 0u8)) },
        inner_colors: ColorPair { fill: (0, 254, 0), outline: Some((0u8, 0u8, 0u8)) },
        gem_entity_id: None,
    }
}

/// The click target that a new entity starts with.
pub open spec fn default_clickable(pid: u32) -> PClickable {
    PClickable { id: pid, clickable: true, rect_reference_id: None, action: ClickAction::RunButton }
}

/// `t` is the text that a new entity starts with.
pub open spec fn is_default_text(t: PText, pid: u32) -> bool {
    &&& t.id == pid
    &&& t.text@ == "Run Code"@
    &&& t.scale == 1
    &&& t.x == 50
    &&& t.y == 50
    &&& t.colors == ColorPair { fill: (255, 255, 255), outline: Some((0u8, 0u8, 0u8)) }
    &&& !t.draw
    &&& t.strata == 0
    &&& t.lifetime_ms is None
}

/// `c` is the cast bar that a new entity starts with.
pub open spec fn is_default_castbar(c: PCastbar, pid: u32) -> bool {
    &&& c.id == pid
    &&& c.x == 10
    &&& c.y == 10
    &&& c.width == 10
    &&& c.height == 10
    &&& c.cast_progress == 0
    &&& c.icon_name@ == "miasma"@
    &&& c.draw
    &&& c.strata == 20
    &&& c.base_colors == ColorPair { fill: (254, 0, 0), outline: Some((0u8, 0u8, 0u8)) }
    &&& c.inner_colors == ColorPair { fill: (0, 254, 0), outline: Some((0u8, 0u8, 0u8)) }
}

/// `s` is the scratch buffer that a new entity starts with: 500 zeros.
pub open spec fn is_default_state(s: PState, pid: u32) -> bool {
    &&& s.id == pid
    &&& s.state_vec@.len() == 500
    &&& forall|i: int| 0 <= i < 500 ==> s.state_vec@[i] == 0
}

/// `t` is the tooltip that a new entity starts with.
pub open spec fn is_default_tooltip(t: PTooltipData, pid: u32) -> bool {
    &&& t.id == pid
    &&& t.header@ == "asd"@
    &&& t.body@ == "asd"@
    &&& t.x == 10
    &&& t.y == 10
    &&& t.width == 10
    &&& t.height == 10
    &&& t.icon is None
}

/// The position of the first rectangle in `rects` whose id is `rect_id`, or
/// the length where there is none.
pub open spec fn rect_position(rects: Seq<PRect>, rect_id: u32) -> int
    decreases rects.len(),
{
    if rects.len() == 0 {
        0
    } else if rects[0].id == rect_id {
        0
    } else {
        1 + rect_position(rects.drop_first(), rect_id)
    }
}

/// Where the first rectangle with the id `rect_id` stands in `rects`.
fn find_rect(rects: &Vec<PRect>, rect_id: u32) -> (at: usize)
    ensures
        at == rect_position(rects@, rect_id),
        at <= rects@.len(),
{
    let mut i: usize = 0;
    assert(rects@.skip(0) =~= rects@);
    while i < rects.len()
        invariant
            i <= rects@.len(),
            rect_position(rects@, rect_id) == i + rect_position(rects@.skip(i as int), rect_id),
        decreases rects@.len() - i,
    {
        assert(rects@.skip(i as int)[0] == rects@[i as int]);
        if rects[i].id == rect_id {
            return i;
        }
        assert(rects@.skip(i as int).drop_first() =~= rects@.skip(i + 1));
        i += 1;
    }
    assert(rects@.skip(i as int).len() == 0);
    i
}

/// The presentation entities and their components.
#[derive(Debug, Clone, PartialEq)]
pub struct EntityManager {
    /// One identity per entity.
    pub ids: HashMap<u32, PId>,
    /// Any number of rectangles per entity.
    pub rectangles: HashMap<u32, Vec<PRect>>,
    /// Any number of texts per entity.
    pub texts: HashMap<u32, Vec<PText>>,
    /// At most one health bar per entity.
    pub healthbars: HashMap<u32, PHealthbar>,
    /// At most one cast bar per entity.
    pub castbars: HashMap<u32, PCastbar>,
    /// At most one scratch buffer per entity.
    pub state_vecs: HashMap<u32, PState>,
    /// At most one tooltip per entity.
    pub tooltip_data: HashMap<u32, PTooltipData>,
    /// At most one click target per entity.
    pub clickables: HashMap<u32, PClickable>,
    /// The next entity id. It only grows: no id is handed out twice.
    pub entity_id_counter: u32,
    /// The next component id. It only grows: no id is handed out twice.
    pub property_id_counter: u32,
}

impl EntityManager {
    /// The store holds nothing, and its counters stand at zero.
    pub open spec fn is_fresh(&self) -> bool {
        &&& self.ids@ == Map::<u32, PId>::empty()
        &&& self.rectangles@ == Map::<u32, Vec<PRect>>::empty()
        &&& self.texts@ == Map::<u32, Vec<PText>>::empty()
        &&& self.healthbars@ == Map::<u32, PHealthbar>::empty()
        &&& self.castbars@ == Map::<u32, PCastbar>::empty()
        &&& self.state_vecs@ == Map::<u32, PState>::empty()
        &&& self.tooltip_data@ == Map::<u32, PTooltipData>::empty()
        &&& self.clickables@ == Map::<u32, PClickable>::empty()
        &&& self.entity_id_counter == 0
        &&& self.property_id_counter == 0
    }

    /// Every entity has an id that the counter has handed out.
    pub open spec fn ids_in_range(&self) -> bool {
        forall|id: u32| #[trigger] self.ids@.contains_key(id) ==> id < self.entity_id_counter
    }

    /// An empty store whose counters start at zero.
    pub fn new() -> (em: Self)
        ensures
            em.is_fresh(),
            em.ids_in_range(),
    {
        EntityManager {
            ids: HashMap::new(),
            rectangles: HashMap::new(),
            texts: HashMap::new(),
            healthbars: HashMap::new(),
            castbars: HashMap::new(),
            state_vecs: HashMap::new(),
            tooltip_data: HashMap::new(),
            clickables: HashMap::new(),
            entity_id_counter: 0,
            property_id_counter: 0,
        }
    }

    /// The entity with the lowest id that carries the tag, if any does.
    pub open spec fn tagged(&self, tag: Seq<char>) -> Option<u32> {
        lowest_where(self.ids@.dom(), is_tagged(self.ids@, tag))
    }

    /// Holds of the ids that carry all of a rectangle, a text, a tooltip and a click target.
    pub open spec fn is_button(&self) -> spec_fn(u32) -> bool {
        |id: u32|
            self.rectangles@.contains_key(id) && self.texts@.contains_key(id)
                && self.tooltip_data@.contains_key(id) && self.clickables@.contains_key(id)
    }

    /// All buttons, in ascending order of id.
    pub open spec fn buttons(&self) -> Seq<u32> {
        ids_where(ascending_ids(self.ids@.dom()), self.is_button())
    }

    /// `post` is this store after one entity was added under `id` with the tag `tag`.
    pub open spec fn entity_added(&self, post: Self, id: u32, tag: Seq<char>) -> bool {
        &&& id == self.entity_id_counter
        &&& post.ids@ == self.ids@.insert(id, post.ids@[id])
        &&& post.ids@[id].id == id
        &&& post.ids@[id].tag@ == tag
        &&& post == (EntityManager {
            ids: post.ids,
            entity_id_counter: (self.entity_id_counter + 1) as u32,
            ..*self
        })
    }

    /// `post` is this store after `id` got one more rectangle, the default one.
    pub open spec fn rect_added(&self, post: Self, id: u32) -> bool {
        &&& post.rectangles@ == self.rectangles@.insert(id, post.rectangles@[id])
        &&& post.rectangles@[id]@ == listed(self.rectangles@, id).push(
            default_rect(self.property_id_counter),
        )
        &&& post == (EntityManager {
            rectangles: post.rectangles,
            property_id_counter: (self.property_id_counter + 1) as u32,
            ..*self
        })
    }

    /// `post` is this store after `id` got one more text, the default one.
    pub open spec fn text_added(&self, post: Self, id: u32) -> bool {
        &&& post.texts@ == self.texts@.insert(id, post.texts@[id])
        &&& post.texts@[id]@.len() == listed(self.texts@, id).len() + 1
        &&& post.texts@[id]@.drop_last() == listed(self.texts@, id)
        &&& is_default_text(post.texts@[id]@.last(), self.property_id_counter)
        &&& post == (EntityManager {
            texts: post.texts,
            property_id_counter: (self.property_id_counter + 1) as u32,
            ..*self
        })
    }

    /// `post` is this store after `id` got the default health bar in place of any it had.
    pub open spec fn healthbar_added(&self, post: Self, id: u32) -> bool {
        &&& post.healthbars@ == self.healthbars@.insert(
            id,
            default_healthbar(self.property_id_counter),
        )
        &&& post == (EntityManager {
            healthbars: post.healthbars,
            property_id_counter: (self.property_id_counter + 1) as u32,
            ..*self
        })
    }

    /// `post` is this store after `id` got the default cast bar in place of any it had.
    pub open spec fn castbar_added(&self, post: Self, id: u32) -> bool {
        &&& post.castbars@ == self.castbars@.insert(id, post.castbars@[id])
        &&& is_default_castbar(post.castbars@[id], self.property_id_counter)
        &&& post == (EntityManager {
            castbars: post.castbars,
            property_id_counter: (self.property_id_counter + 1) as u32,
            ..*self
        })
    }

    /// `post` is this store after `id` got a fresh scratch buffer in place of any it had.
    pub open spec fn state_added(&self, post: Self, id: u32) -> bool {
        &&& post.state_vecs@ == self.state_vecs@.insert(id, post.state_vecs@[id])
        &&& is_default_state(post.state_vecs@[id], self.property_id_counter)
        &&& post == (EntityManager {
            state_vecs: post.state_vecs,
            property_id_counter: (self.property_id_counter + 1) as u32,
            ..*self
        })
    }

    /// `post` is this store after `id` got the default tooltip in place of any it had.
    pub open spec fn tooltip_added(&self, post: Self, id: u32) -> bool {
        &&& post.tooltip_data@ == self.tooltip_data@.insert(id, post.tooltip_data@[id])
        &&& is_default_tooltip(post.tooltip_data@[id], self.property_id_counter)
        &&& post == (EntityManager {
            tooltip_data: post.tooltip_data,
            property_id_counter: (self.property_id_counter + 1) as u32,
            ..*self
        })
    }

    /// `post` is this store after `id` got the default click target in place of any it had.
    pub open spec fn clickable_added(&self, post: Self, id: u32) -> bool {
        &&& post.clickables@ == self.clickables@.insert(
            id,
            default_clickable(self.property_id_counter),
        )
        &&& post == (EntityManager {
            clickables: post.clickables,
            property_id_counter: (self.property_id_counter + 1) as u32,
            ..*self
        })
    }

    /// `post` is this store after `id` got the default component of the given kind.
    pub open spec fn property_added(&self, post: Self, prop: PropertiesEnum, id: u32) -> bool {
        match prop {
            PropertiesEnum::Rect => self.rect_added(post, id),
            PropertiesEnum::Text => self.text_added(post, id),
            PropertiesEnum::Healthbar => self.healthbar_added(post, id),
            PropertiesEnum::Castbar => self.castbar_added(post, id),
            PropertiesEnum::State => self.state_added(post, id),
            PropertiesEnum::TooltipData => self.tooltip_added(post, id),
            PropertiesEnum::Clickable => self.clickable_added(post, id),
        }
    }

    /// `post` is this store after a button was created under `id`: an entity
    /// with a rectangle, a text, a tooltip and a click target, in that order.
    pub open spec fn button_created(&self, post: Self, id: u32, tag: Seq<char>) -> bool {
        exists|a: Self, b: Self, c: Self, d: Self|
            {
                &&& #[trigger] self.entity_added(a, id, tag)
                &&& #[trigger] a.rect_added(b, id)
                &&& #[trigger] b.text_added(c, id)
                &&& #[trigger] c.tooltip_added(d, id)
                &&& d.clickable_added(post, id)
            }
    }

    /// Creates an entity and returns its id, which no entity had before. Its
    /// identity carries the tag given, or `entity_<id>` where none is given.
    pub fn add_entity(&mut self, tag: Option<String>) -> (id: u32)
        requires
            old(self).entity_id_counter < u32::MAX,
        ensures
            old(self).entity_added(
                *final(self),
                id,
                match tag {
                    Some(t) => t@,
                    None => "entity_"@ + decimal_digits(id as nat),
                },
            ),
            old(self).ids_in_range() ==> !old(self).ids@.contains_key(id) && final(self).ids_in_range(),
    {
        let id = self.next_eid();
        let final_tag = match tag {
            Some(t) => t,
            None => numbered_tag("entity_", id),
        };
        self.ids.insert(id, PId { id, tag: final_tag });
        id
    }

    /// Hands out the next entity id.
    pub fn next_eid(&mut self) -> (id: u32)
        requires
            old(self).entity_id_counter < u32::MAX,
        ensures
            id == old(self).entity_id_counter,
            *final(self) == (EntityManager { entity_id_counter: (id + 1) as u32, ..*old(self) }),
    {
        let id = self.entity_id_counter;
        self.entity_id_counter += 1;
        id
    }

    /// Hands out the next component id.
    pub fn next_pid(&mut self) -> (id: u32)
        requires
            old(self).property_id_counter < u32::MAX,
        ensures
            id == old(self).property_id_counter,
            *final(self) == (EntityManager { property_id_counter: (id + 1) as u32, ..*old(self) }),
    {
        let id = self.property_id_counter;
        self.property_id_counter += 1;
        id
    }

    /// Gives the entity `id` the default component of the given kind.
    pub fn add_property_to_entity(&mut self, prop: PropertiesEnum, id: u32)
        requires
            old(self).property_id_counter < u32::MAX,
        ensures
            old(self).property_added(*final(self), prop, id),
    {
        match prop {
            PropertiesEnum::Rect => self.add_rect(id),
            PropertiesEnum::Text => self.add_text(id),
            PropertiesEnum::Healthbar => self.add_healthbar(id),
            PropertiesEnum::Castbar => self.add_castbar(id),
            PropertiesEnum::State => self.add_state(id),
            PropertiesEnum::TooltipData => self.add_tooltip(id),
            PropertiesEnum::Clickable => self.add_clickable(id),
        }
    }

    /// Gives the entity `id` one more rectangle, the default one.
    pub fn add_rect(&mut self, id: u32)
        requires
            old(self).property_id_counter < u32::MAX,
        ensures
            old(self).rect_added(*final(self), id),
    {
        broadcast use vstd::std_specs::hash::group_hash_axioms;

        let pid = self.next_pid();
        let rect = PRect {
            id: pid,
            x: 10,
            y: 10,
            width: 10,
            height: 10,
            colors: ColorPair { fill: (19, 81, 150), outline: Some((24, 26, 28)) },
            hovered_color: None,
            pressed_color: None,
            hovered: None,
            pressed: None,
            draw: false,
            strata: 0,
        };
        let mut rects = match self.rectangles.remove(&id) {
            Some(v) => v,
            None => Vec::new(),
        };
        rects.push(rect);
        self.rectangles.insert(id, rects);
        assert(self.rectangles@ =~= old(self).rectangles@.insert(id, self.rectangles@[id]));
    }

    /// Gives the entity `id` one more text, the default one.
    pub fn add_text(&mut self, id: u32)
        requires
            old(self).property_id_counter < u32::MAX,
        ensures
            old(self).text_added(*final(self), id),
    {
        broadcast use vstd::std_specs::hash::group_hash_axioms;

        let pid = self.next_pid();
        let text = PText {
            id: pid,
            text: String::from_str("Run Code"),
            scale: 1,
            x: 50,
            y: 50,
            colors: ColorPair { fill: (255, 255, 255), outline: Some((0, 0, 0)) },
            draw: false,
            strata: 0,
            lifetime_ms: None,
        };
        let mut texts = match self.texts.remove(&id) {
            Some(v) => v,
            None => Vec::new(),
        };
        let ghost before = texts@;
        texts.push(text);
        assert(texts@.drop_last() =~= before);
        self.texts.insert(id, texts);
        assert(self.texts@ =~= old(self).texts@.insert(id, self.texts@[id]));
    }

    /// Gives the entity `id` the default health bar, in place of any it had.
    pub fn add_healthbar(&mut self, id: u32)
        requires
            old(self).property_id_counter < u32::MAX,
        ensures
            old(self).healthbar_added(*final(self), id),
    {
        let pid = self.next_pid();
        self.healthbars.insert(
            id,
            PHealthbar {
                id: pid,
                x: 10,
                y: 10,
                width: 10,
                height: 10,
                draw: true,
                strata: 20,
                base_colors: ColorPair { fill: (254, 0, 0), outline: Some((0, 0, 0)) },
                inner_colors: ColorPair { fill: (0, 254, 0), outline: Some((0, 0, 0)) },
                gem_entity_id: None,
            },
        );
    }

    /// Gives the entity `id` the default cast bar, in place of any it had.
    pub fn add_castbar(&mut self, id: u32)
        requires
            old(self).property_id_counter < u32::MAX,
        ensures
            old(self).castbar_added(*final(self), id),
    {
        let pid = self.next_pid();
        self.castbars.insert(
            id,
            PCastbar {
                id: pid,
                x: 10,
                y: 10,
                width: 10,
                height: 10,
                cast_progress: 0,
                icon_name: String::from_str("miasma"),
                draw: true,
                strata: 20,
                base_colors: ColorPair { fill: (254, 0, 0), outline: Some((0, 0, 0)) },
                inner_colors: ColorPair { fill: (0, 254, 0), outline: Some((0, 0, 0)) },
            },
        );
        assert(self.castbars@ =~= old(self).castbars@.insert(id, self.castbars@[id]));
    }

    /// Gives the entity `id` a fresh scratch buffer, in place of any it had.
    pub fn add_state(&mut self, id: u32)
        requires
            old(self).property_id_counter < u32::MAX,
        ensures
            old(self).state_added(*final(self), id),
    {
        let pid = self.next_pid();
        self.state_vecs.insert(id, PState { id: pid, state_vec: vec![0; 500] });
        assert(self.state_vecs@ =~= old(self).state_vecs@.insert(id, self.state_vecs@[id]));
    }

    /// Gives the entity `id` the default tooltip, in place of any it had.
    pub fn add_tooltip(&mut self, id: u32)
        requires
            old(self).property_id_counter < u32::MAX,
        ensures
            old(self).tooltip_added(*final(self), id),
    {
        let pid = self.next_pid();
        self.tooltip_data.insert(
            id,
            PTooltipData {
                id: pid,
                header: String::from_str("asd"),
                body: String::from_str("asd"),
                x: 10,
                y: 10,
                width: 10,
                height: 10,
                icon: None,
            },
        );
        assert(self.tooltip_data@ =~= old(self).tooltip_data@.insert(id, self.tooltip_data@[id]));
    }

    /// Gives the entity `id` the default click target, in place of any it had.
    pub fn add_clickable(&mut self, id: u32)
        requires
            old(self).property_id_counter < u32::MAX,
        ensures
            old(self).clickable_added(*final(self), id),
    {
        let pid = self.next_pid();
        self.clickables.insert(
            id,
            PClickable { id: pid, clickable: true, rect_reference_id: None, action: ClickAction::RunButton },
        );
    }

    /// The entity with the lowest id that carries the tag, if any does.
    pub fn find_entity(&self, tag: &str) -> (found: Option<u32>)
        ensures
            found == self.tagged(tag@),
    {
        broadcast use vstd::std_specs::hash::group_hash_axioms;

        let ids = sorted_keys(&self.ids);
        let ghost p = is_tagged(self.ids@, tag@);
        let mut i: usize = 0;
        while i < ids.len()
            invariant
                i <= ids@.len(),
                ids@ == ascending_ids(self.ids@.dom()),
                p == is_tagged(self.ids@, tag@),
                forall|j: int| 0 <= j < i ==> !p(#[trigger] ids@[j]),
            decreases ids@.len() - i,
        {
            let id = ids[i];
            match self.ids.get(&id) {
                Some(pid) => {
                    if str_is(&pid.tag, tag) {
                        proof {
                            lemma_first_where_found(ids@, p, i as int);
                        }
                        return Some(id);
                    }
                },
                None => {},
            }
            i += 1;
        }
        proof {
            lemma_first_where_none(ids@, p);
        }
        None
    }

    /// The presentation entity of the player: the one tagged `player`.
    pub fn get_player_id(&self) -> (id: Option<u32>)
        ensures
            id == self.tagged("player"@),
    {
        self.find_entity("player")
    }

    /// The rectangles of `id`, to be changed in place.
    pub fn get_prects_mut(&mut self, id: u32) -> (slot: Option<&mut Vec<PRect>>)
        ensures
            match slot {
                Some(v) => {
                    &&& old(self).rectangles@.contains_key(id)
                    &&& *v == old(self).rectangles@[id]
                    &&& final(self).rectangles@ == old(self).rectangles@.insert(id, *final(v))
                },
                None => !old(self).rectangles@.contains_key(id) && final(self).rectangles@ == old(self).rectangles@,
            },
            *final(self) == (EntityManager { rectangles: final(self).rectangles, ..*old(self) }),
    {
        table_get_mut(&mut self.rectangles, id)
    }

    /// The texts of `id`, to be changed in place.
    pub fn get_ptexts_mut(&mut self, id: u32) -> (slot: Option<&mut Vec<PText>>)
        ensures
            match slot {
                Some(v) => {
                    &&& old(self).texts@.contains_key(id)
                    &&& *v == old(self).texts@[id]
                    &&& final(self).texts@ == old(self).texts@.insert(id, *final(v))
                },
                None => !old(self).texts@.contains_key(id) && final(self).texts@ == old(self).texts@,
            },
            *final(self) == (EntityManager { texts: final(self).texts, ..*old(self) }),
    {
        table_get_mut(&mut self.texts, id)
    }

    /// The health bar of `id`, to be changed in place.
    pub fn get_phealthbar_mut(&mut self, id: u32) -> (slot: Option<&mut PHealthbar>)
        ensures
            match slot {
                Some(v) => {
                    &&& old(self).healthbars@.contains_key(id)
                    &&& *v == old(self).healthbars@[id]
                    &&& final(self).healthbars@ == old(self).healthbars@.insert(id, *final(v))
                },
                None => !old(self).healthbars@.contains_key(id) && final(self).healthbars@ == old(self).healthbars@,
            },
            *final(self) == (EntityManager { healthbars: final(self).healthbars, ..*old(self) }),
    {
        table_get_mut(&mut self.healthbars, id)
    }

    /// The cast bar of `id`, to be changed in place.
    pub fn get_pcastbar_mut(&mut self, id: u32) -> (slot: Option<&mut PCastbar>)
        ensures
            match slot {
                Some(v) => {
                    &&& old(self).castbars@.contains_key(id)
                    &&& *v == old(self).castbars@[id]
                    &&& final(self).castbars@ == old(self).castbars@.insert(id, *final(v))
                },
                None => !old(self).castbars@.contains_key(id) && final(self).castbars@ == old(self).castbars@,
            },
            *final(self) == (EntityManager { castbars: final(self).castbars, ..*old(self) }),
    {
        table_get_mut(&mut self.castbars, id)
    }

    /// The scratch buffer of `id`, to be changed in place.
    pub fn get_pstate_mut(&mut self, id: u32) -> (slot: Option<&mut PState>)
        ensures
            match slot {
                Some(v) => {
                    &&& old(self).state_vecs@.contains_key(id)
                    &&& *v == old(self).state_vecs@[id]
                    &&& final(self).state_vecs@ == old(self).state_vecs@.insert(id, *final(v))
                },
                None => !old(self).state_vecs@.contains_key(id) && final(self).state_vecs@ == old(self).state_vecs@,
            },
            *final(self) == (EntityManager { state_vecs: final(self).state_vecs, ..*old(self) }),
    {
        table_get_mut(&mut self.state_vecs, id)
    }

    /// The tooltip of `id`, to be changed in place.
    pub fn get_tooltip_data_mut(&mut self, id: u32) -> (slot: Option<&mut PTooltipData>)
        ensures
            match slot {
                Some(v) => {
                    &&& old(self).tooltip_data@.contains_key(id)
                    &&& *v == old(self).tooltip_data@[id]
                    &&& final(self).tooltip_data@ == old(self).tooltip_data@.insert(id, *final(v))
                },
                None => !old(self).tooltip_data@.contains_key(id) && final(self).tooltip_data@
                    == old(self).tooltip_data@,
            },
            *final(self) == (EntityManager { tooltip_data: final(self).tooltip_data, ..*old(self) }),
    {
        table_get_mut(&mut self.tooltip_data, id)
    }

    /// The click target of `id`, to be changed in place.
    pub fn get_pclickable_mut(&mut self, id: u32) -> (slot: Option<&mut PClickable>)
        ensures
            match slot {
                Some(v) => {
                    &&& old(self).clickables@.contains_key(id)
                    &&& *v == old(self).clickables@[id]
                    &&& final(self).clickables@ == old(self).clickables@.insert(id, *final(v))
                },
                None => !old(self).clickables@.contains_key(id) && final(self).clickables@ == old(self).clickables@,
            },
            *final(self) == (EntityManager { clickables: final(self).clickables, ..*old(self) }),
    {
        table_get_mut(&mut self.clickables, id)
    }

    /// The identity of `id`, to be changed in place.
    pub fn get_pid_mut(&mut self, id: u32) -> (slot: Option<&mut PId>)
        ensures
            match slot {
                Some(v) => {
                    &&& old(self).ids@.contains_key(id)
                    &&& *v == old(self).ids@[id]
                    &&& final(self).ids@ == old(self).ids@.insert(id, *final(v))
                },
                None => !old(self).ids@.contains_key(id) && final(self).ids@ == old(self).ids@,
            },
            *final(self) == (EntityManager { ids: final(self).ids, ..*old(self) }),
    {
        table_get_mut(&mut self.ids, id)
    }

    /// The rectangles of `id`.
    pub fn get_prects_non_mut(&self, id: u32) -> (found: Option<&Vec<PRect>>)
        ensures
            match found {
                Some(v) => self.rectangles@.contains_key(id) && *v == self.rectangles@[id],
                None => !self.rectangles@.contains_key(id),
            },
    {
        broadcast use vstd::std_specs::hash::group_hash_axioms;

        self.rectangles.get(&id)
    }

    /// The texts of `id`.
    pub fn get_ptexts_non_mut(&self, id: u32) -> (found: Option<&Vec<PText>>)
        ensures
            match found {
                Some(v) => self.texts@.contains_key(id) && *v == self.texts@[id],
                None => !self.texts@.contains_key(id),
            },
    {
        broadcast use vstd::std_specs::hash::group_hash_axioms;

        self.texts.get(&id)
    }

    /// The health bar of `id`.
    pub fn get_phealthbar_non_mut(&self, id: u32) -> (found: Option<&PHealthbar>)
        ensures
            match found {
                Some(v) => self.healthbars@.contains_key(id) && *v == self.healthbars@[id],
                None => !self.healthbars@.contains_key(id),
            },
    {
        broadcast use vstd::std_specs::hash::group_hash_axioms;

        self.healthbars.get(&id)
    }

    /// The cast bar of `id`.
    pub fn get_pcastbar_non_mut(&self, id: u32) -> (found: Option<&PCastbar>)
        ensures
            match found {
                Some(v) => self.castbars@.contains_key(id) && *v == self.castbars@[id],
                None => !self.castbars@.contains_key(id),
            },
    {
        broadcast use vstd::std_specs::hash::group_hash_axioms;

        self.castbars.get(&id)
    }

    /// The scratch buffer of `id`.
    pub fn get_pstate_non_mut(&self, id: u32) -> (found: Option<&PState>)
        ensures
            match found {
                Some(v) => self.state_vecs@.contains_key(id) && *v == self.state_vecs@[id],
                None => !self.state_vecs@.contains_key(id),
            },
    {
        broadcast use vstd::std_specs::hash::group_hash_axioms;

        self.state_vecs.get(&id)
    }

    /// The tooltip of `id`.
    pub fn get_tooltip_data_non_mut(&self, id: u32) -> (found: Option<&PTooltipData>)
        ensures
            match found {
                Some(v) => self.tooltip_data@.contains_key(id) && *v == self.tooltip_data@[id],
                None => !self.tooltip_data@.contains_key(id),
            },
    {
        broadcast use vstd::std_specs::hash::group_hash_axioms;

        self.tooltip_data.get(&id)
    }

    /// The click target of `id`.
    pub fn get_pclickable_non_mut(&self, id: u32) -> (found: Option<&PClickable>)
        ensures
            match found {
                Some(v) => self.clickables@.contains_key(id) && *v == self.clickables@[id],
                None => !self.clickables@.contains_key(id),
            },
    {
        broadcast use vstd::std_specs::hash::group_hash_axioms;

        self.clickables.get(&id)
    }

    /// The identity of `id`.
    pub fn get_pid_non_mut(&self, id: u32) -> (found: Option<&PId>)
        ensures
            match found {
                Some(v) => self.ids@.contains_key(id) && *v == self.ids@[id],
                None => !self.ids@.contains_key(id),
            },
    {
        broadcast use vstd::std_specs::hash::group_hash_axioms;

        self.ids.get(&id)
    }

    /// Where the rectangle that makes `entity_id` clickable stands among the
    /// entity's rectangles: the first one with the id that the click target refers to.
    pub open spec fn button_rect_index(&self, entity_id: u32) -> Option<int> {
        if self.clickables@.contains_key(entity_id) && self.clickables@[entity_id].rect_reference_id is Some
            && self.rectangles@.contains_key(entity_id) {
            let rects = self.rectangles@[entity_id]@;
            let at = rect_position(rects, self.clickables@[entity_id].rect_reference_id->0);
            if at < rects.len() {
                Some(at)
            } else {
                None
            }
        } else {
            None
        }
    }

    /// The rectangle that makes the entity clickable.
    pub fn get_button_rect_non_mut(&self, entity_id: u32) -> (found: Option<&PRect>)
        ensures
            match found {
                Some(r) => self.button_rect_index(entity_id) is Some && *r
                    == self.rectangles@[entity_id]@[self.button_rect_index(entity_id)->0],
                None => self.button_rect_index(entity_id) is None,
            },
    {
        broadcast use vstd::std_specs::hash::group_hash_axioms;

        let rect_id = match self.clickables.get(&entity_id) {
            Some(c) => match c.rect_reference_id {
                Some(r) => r,
                None => {
                    return None;
                },
            },
            None => {
                return None;
            },
        };
        let rects = match self.rectangles.get(&entity_id) {
            Some(v) => v,
            None => {
                return None;
            },
        };
        let at = find_rect(rects, rect_id);
        if at < rects.len() {
            Some(&rects[at])
        } else {
            None
        }
    }

    /// The rectangle that makes the entity clickable, to be changed in place.
    pub fn get_button_rect_mut(&mut self, entity_id: u32) -> (slot: Option<&mut PRect>)
        ensures
            match slot {
                Some(r) => {
                    &&& old(self).button_rect_index(entity_id) matches Some(at)
                    &&& *r == old(self).rectangles@[entity_id]@[at]
                    &&& final(self).rectangles@.dom() == old(self).rectangles@.dom()
                    &&& forall|k: u32|
                        k != entity_id && old(self).rectangles@.contains_key(k) ==> final(self).rectangles@[k] == old(self).rectangles@[k]
                    &&& final(self).rectangles@[entity_id]@ == old(self).rectangles@[entity_id]@.update(at, *final(r))
                },
                None => old(self).button_rect_index(entity_id) is None && final(self).rectangles@
                    == old(self).rectangles@,
            },
            *final(self) == (EntityManager { rectangles: final(self).rectangles, ..*old(self) }),
    {
        broadcast use vstd::std_specs::hash::group_hash_axioms;

        let rect_id = match self.clickables.get(&entity_id) {
            Some(c) => match c.rect_reference_id {
                Some(r) => r,
                None => {
                    return None;
                },
            },
            None => {
                return None;
            },
        };
        match table_get_mut(&mut self.rectangles, entity_id) {
            Some(rects) => {
                let at = find_rect(rects, rect_id);
                if at < rects.len() {
                    Some(&mut rects[at])
                } else {
                    None
                }
            },
            None => None,
        }
    }

    /// `post` is this store after every entity that carries the tag was
    /// removed with all its components. The other entities keep theirs, and
    /// the counters stand.
    pub open spec fn purged(&self, post: Self, tag: Seq<char>) -> bool {
        &&& forall|id: u32| #[trigger]
            post.ids@.contains_key(id) <==> self.ids@.contains_key(id) && self.ids@[id].tag@ != tag
        &&& post.entity_id_counter == self.entity_id_counter
        &&& post.property_id_counter == self.property_id_counter
        &&& forall|id: u32| #[trigger]
            post.ids@.contains_key(id) ==> post.components_of(id) == self.components_of(id)
        &&& forall|id: u32|
            self.ids@.contains_key(id) && !(#[trigger] post.ids@.contains_key(id))
                ==> post.has_no_components(id)
        &&& forall|id: u32|
            !self.ids@.contains_key(id) ==> #[trigger] post.components_of(id) == self.components_of(
                id,
            )
    }

    /// Removes every entity that carries the tag, with all its components.
    pub fn purge_entity_by_tag(&mut self, tag: &str)
        ensures
            old(self).purged(*final(self), tag@),
    {
        broadcast use vstd::std_specs::hash::group_hash_axioms;

        let ids = sorted_keys(&self.ids);
        proof {
            crate::tables::lemma_ascending_ids(self.ids@.dom());
        }
        let n = ids.len();
        let mut i: usize = 0;
        while i < n
            invariant
                i <= n,
                n == ids@.len(),
                ids@ == ascending_ids(old(self).ids@.dom()),
                crate::tables::strictly_increasing(ids@),
                forall|x: u32| ids@.contains(x) <==> old(self).ids@.contains_key(x),
                self.entity_id_counter == old(self).entity_id_counter,
                self.property_id_counter == old(self).property_id_counter,
                forall|id: u32| #[trigger]
                    self.ids@.contains_key(id) <==> old(self).ids@.contains_key(id) && !(ids@.take(
                        i as int,
                    ).contains(id) && old(self).ids@[id].tag@ == tag@),
                forall|id: u32| #[trigger]
                    self.ids@.contains_key(id) ==> self.components_of(id) == old(self).components_of(
                        id,
                    ),
                forall|id: u32|
                    old(self).ids@.contains_key(id) && !(#[trigger] self.ids@.contains_key(id))
                        ==> self.has_no_components(id),
                forall|id: u32|
                    !old(self).ids@.contains_key(id) ==> #[trigger] self.components_of(id) == old(self).components_of(id),
            decreases n - i,
        {
            let id = ids[i];
            let ghost seen = ids@.take(i as int);
            let ghost next = ids@.take(i + 1);
            let ghost before = *self;
            proof {
                assert(ids@.contains(ids@[i as int]));
                assert(!seen.contains(id)) by {
                    if seen.contains(id) {
                        let j = choose|j: int| 0 <= j < seen.len() && seen[j] == id;
                        assert(ids@[j] < ids@[i as int]);
                    }
                }
                assert(self.ids@.contains_key(id));
            }
            let matches = match self.ids.get(&id) {
                Some(pid) => str_is(&pid.tag, tag),
                None => false,
            };
            if matches {
                self.ids.remove(&id);
                self.rectangles.remove(&id);
                self.texts.remove(&id);
                self.healthbars.remove(&id);
                self.castbars.remove(&id);
                self.state_vecs.remove(&id);
                self.tooltip_data.remove(&id);
                self.clickables.remove(&id);
            }
            proof {
                assert forall|k: u32| #[trigger]
                    self.ids@.contains_key(k) <==> old(self).ids@.contains_key(k) && !(next.contains(k)
                        && old(self).ids@[k].tag@ == tag@) by {
                    if k == id {
                        assert(next[i as int] == id);
                        assert(before.components_of(id) == old(self).components_of(id));
                    } else {
                        if next.contains(k) {
                            let j = choose|j: int| 0 <= j < next.len() && next[j] == k;
                            assert(seen[j] == k);
                        }
                        if seen.contains(k) {
                            let j = choose|j: int| 0 <= j < seen.len() && seen[j] == k;
                            assert(next[j] == k);
                        }
                    }
                }
                assert forall|k: u32| #[trigger] self.ids@.contains_key(k) implies self.components_of(
                    k,
                ) == old(self).components_of(k) by {
                    assert(before.ids@.contains_key(k));
                    assert(k != id || !matches);
                    assert(self.components_of(k) == before.components_of(k));
                }
                assert forall|k: u32|
                    old(self).ids@.contains_key(k) && !(#[trigger] self.ids@.contains_key(
                        k,
                    )) implies self.has_no_components(k) by {
                    if k != id {
                        assert(!before.ids@.contains_key(k));
                        assert(before.has_no_components(k));
                    }
                }
                assert forall|k: u32| !old(self).ids@.contains_key(k) implies #[trigger]
                    self.components_of(k) == old(self).components_of(k) by {
                    assert(k != id);
                    assert(self.components_of(k) == before.components_of(k));
                }
            }
            i += 1;
        }
        proof {
            assert(ids@.take(n as int) =~= ids@);
        }
    }

    /// The components that `id` carries, table by table.
    pub open spec fn components_of(&self, id: u32) -> (
        Option<PId>,
        Option<Vec<PRect>>,
        Option<Vec<PText>>,
        Option<PHealthbar>,
        Option<PCastbar>,
        Option<PState>,
        Option<PTooltipData>,
        Option<PClickable>,
    ) {
        (
            self.ids@.get(id),
            self.rectangles@.get(id),
            self.texts@.get(id),
            self.healthbars@.get(id),
            self.castbars@.get(id),
            self.state_vecs@.get(id),
            self.tooltip_data@.get(id),
            self.clickables@.get(id),
        )
    }

    /// No table holds a component of `id`.
    pub open spec fn has_no_components(&self, id: u32) -> bool {
        &&& !self.ids@.contains_key(id)
        &&& !self.rectangles@.contains_key(id)
        &&& !self.texts@.contains_key(id)
        &&& !self.healthbars@.contains_key(id)
        &&& !self.castbars@.contains_key(id)
        &&& !self.state_vecs@.contains_key(id)
        &&& !self.tooltip_data@.contains_key(id)
        &&& !self.clickables@.contains_key(id)
    }

    /// The rectangles of the entity with the lowest id that carries the tag.
    pub fn get_prects_mut_by_tag(&mut self, tag: &str) -> (slot: Option<&mut Vec<PRect>>)
        ensures
            match slot {
                Some(v) => {
                    &&& old(self).tagged(tag@) matches Some(id)
                    &&& old(self).rectangles@.contains_key(id)
                    &&& *v == old(self).rectangles@[id]
                    &&& final(self).rectangles@ == old(self).rectangles@.insert(id, *final(v))
                },
                None => {
                    &&& old(self).tagged(tag@) matches Some(id) ==> !old(self).rectangles@.contains_key(
                        id,
                    )
                    &&& final(self).rectangles@ == old(self).rectangles@
                },
            },
            *final(self) == (EntityManager { rectangles: final(self).rectangles, ..*old(self) }),
    {
        match self.find_entity(tag) {
            Some(id) => table_get_mut(&mut self.rectangles, id),
            None => None,
        }
    }

    /// The rectangles of the entity with the lowest id that carries the name as its tag.
    pub fn get_prects_by_name(&mut self, name: &str) -> (slot: Option<&mut Vec<PRect>>)
        ensures
            match slot {
                Some(v) => {
                    &&& old(self).tagged(name@) matches Some(id)
                    &&& old(self).rectangles@.contains_key(id)
                    &&& *v == old(self).rectangles@[id]
                    &&& final(self).rectangles@ == old(self).rectangles@.insert(id, *final(v))
                },
                None => {
                    &&& old(self).tagged(name@) matches Some(id) ==> !old(self).rectangles@.contains_key(id)
                    &&& final(self).rectangles@ == old(self).rectangles@
                },
            },
            *final(self) == (EntityManager { rectangles: final(self).rectangles, ..*old(self) }),
    {
        self.get_prects_mut_by_tag(name)
    }

    /// Creates a button: an entity with a rectangle, a text, a tooltip and a
    /// click target, all at their defaults.
    pub fn create_button(&mut self, nm: Option<String>) -> (eid: u32)
        requires
            old(self).entity_id_counter < u32::MAX,
            old(self).property_id_counter <= u32::MAX - 4,
        ensures
            old(self).button_created(
                *final(self),
                eid,
                match nm {
                    Some(t) => t@,
                    None => "entity_"@ + decimal_digits(eid as nat),
                },
            ),
    {
        let eid = self.add_entity(nm);
        let ghost a = *self;
        self.add_rect(eid);
        let ghost b = *self;
        self.add_text(eid);
        let ghost c = *self;
        self.add_tooltip(eid);
        let ghost d = *self;
        self.add_clickable(eid);
        assert(a.rect_added(b, eid) && b.text_added(c, eid) && c.tooltip_added(d, eid)
            && d.clickable_added(*self, eid));
        eid
    }

    /// All buttons, in ascending order of id: the entities that have a
    /// rectangle, a text, a tooltip and a click target.
    pub fn get_all_buttons(&self) -> (buttons: Vec<u32>)
        ensures
            buttons@ == self.buttons(),
    {
        broadcast use vstd::std_specs::hash::group_hash_axioms;

        let ids = sorted_keys(&self.ids);
        let ghost p = self.is_button();
        let mut buttons: Vec<u32> = Vec::new();
        let mut i: usize = 0;
        while i < ids.len()
            invariant
                i <= ids@.len(),
                ids@ == ascending_ids(self.ids@.dom()),
                p == self.is_button(),
                buttons@ == ids_where(ids@.take(i as int), p),
            decreases ids@.len() - i,
        {
            let id = ids[i];
            proof {
                lemma_ids_where_step(ids@, p, i as int);
            }
            if self.rectangles.contains_key(&id) && self.texts.contains_key(&id)
                && self.tooltip_data.contains_key(&id) && self.clickables.contains_key(&id) {
                buttons.push(id);
            }
            i += 1;
        }
        assert(ids@.take(i as int) =~= ids@);
        buttons
    }
}

} // verus!
