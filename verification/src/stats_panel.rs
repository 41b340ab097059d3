//! The panel that lists the player's stats. Button G opens and closes it.

use crate::animation::{AnimatedSprite, AnimationRequest};
use crate::entities::EntityManager;
use crate::game::{get_scale, scaled, Game};
use crate::helpers::{get_stat, get_stat_color, stat_color, stat_name, stat_value};
use crate::properties::ColorPair;
use crate::widgets::{Area, Region, TextLook, Which};
use crate::text::{decimal_digits, decimal_string, numbered_tag};
use vstd::prelude::*;
use vstd::string::StringExecFns;

verus! {

/// The frame of row `i` of the panel. The first row is the header and is
/// darker than the others.
pub open spec fn row_region(i: u32) -> Region {
    Region {
        area: Area { x: 20, y: (240 * i) as u32, width: 1220, height: 240 },
        fill: if i == 1 {
            (29u8, 33u8, 37u8)
        } else {
            (36u8, 41u8, 46u8)
        },
        strata: 10,
    }
}

/// The look of the label of row `i` of the panel.
pub open spec fn row_look(i: u32) -> TextLook {
    TextLook {
        x: 280,
        y: (240 * i + 60) as u32,
        scale: 6,
        colors: ColorPair {
            fill: match stat_color(i) {
                Some(c) => c,
                None => (255u8, 255u8, 255u8),
            },
            outline: Some((0u8, 0u8, 0u8)),
        },
        strata: 21,
    }
}

/// The wording of the label of a row: the name of the stat, a colon and its value.
pub open spec fn row_wording(name: Seq<char>, value: u32) -> Seq<char> {
    name + ": "@ + decimal_digits(value as nat)
}

/// `sprite` is the icon of row `i` of the panel.
pub open spec fn is_row_icon(sprite: AnimatedSprite, i: u32, name: Seq<char>) -> bool {
    &&& sprite.texture_id@ == name
    &&& sprite.frame_width == 64
    &&& sprite.frame_height == 64
    &&& sprite.total_frames == 12
    &&& sprite.current_frame == 0
    &&& sprite.frame_time is None
    &&& sprite.time_accumulator == 0
    &&& sprite.position == (20u32, (240 * i) as u32)
    &&& !sprite.inanimate
    &&& sprite.strata == 20
    &&& sprite.desired_width == Some(240u32)
    &&& sprite.desired_height == Some(240u32)
    &&& sprite.play_once
    &&& !sprite.finished
    &&& sprite.velocity == (0i32, 0i32)
    &&& sprite.lifetime is None
    &&& sprite.associated_g_entity is None
}

impl EntityManager {
    /// `post` is this store with the frame of row `i` added: a framed region
    /// tagged `encap_<i>`.
    pub open spec fn frame_added(&self, post: Self, i: u32) -> bool {
        self.region_added(post, "encap_"@ + decimal_digits(i as nat), row_region(i))
    }

    /// `post` is this store with the label of row `i` added: a new entity
    /// tagged `encap_icon_<i>` whose text is the label.
    pub open spec fn label_added(&self, post: Self, i: u32, name: Seq<char>, value: u32) -> bool {
        let id = self.entity_id_counter;
        exists|a: Self, b: Self|
            {
                &&& #[trigger] self.entity_added(a, id, "encap_icon_"@ + decimal_digits(i as nat))
                &&& #[trigger] a.text_added(b, id)
                &&& b.text_styled(post, id, Which::First, Some(row_wording(name, value)), row_look(i))
            }
    }

    /// Adds the frame of row `i` of the panel.
    pub fn add_row_frame(&mut self, i: u32)
        requires
            1 <= i <= 6,
            old(self).entity_id_counter < u32::MAX,
            old(self).property_id_counter < u32::MAX,
        ensures
            old(self).frame_added(*final(self), i),
            final(self).entity_id_counter == old(self).entity_id_counter + 1,
            final(self).property_id_counter == old(self).property_id_counter + 1,
    {
        let scale = get_scale();
        let fill = if i == 1 {
            (29, 33, 37)
        } else {
            let c = crate::color::alt_base();
            (c.r, c.g, c.b)
        };
        self.add_region(
            numbered_tag("encap_", i),
            Region {
                area: Area {
                    x: scaled(scale, 10),
                    y: scaled(scale, 120 * i),
                    width: scaled(scale, 610),
                    height: scaled(scale, 120),
                },
                fill,
                strata: 10,
            },
        );
    }

    /// Adds the label of row `i` of the panel: the stat `name` with the value `value`.
    pub fn add_row_label(&mut self, i: u32, name: &String, value: u32)
        requires
            1 <= i <= 6,
            old(self).entity_id_counter < u32::MAX,
            old(self).property_id_counter < u32::MAX,
        ensures
            old(self).label_added(*final(self), i, name@, value),
            final(self).entity_id_counter == old(self).entity_id_counter + 1,
            final(self).property_id_counter == old(self).property_id_counter + 1,
    {
        let scale = get_scale();
        let icon_eid = self.add_entity(Some(numbered_tag("encap_icon_", i)));
        let ghost a = *self;
        self.add_property_to_entity(crate::properties::PropertiesEnum::Text, icon_eid);
        let ghost b = *self;
        let mut label = name.clone();
        label.append(": ");
        label.append(decimal_string(value).as_str());
        let fill = match get_stat_color(i) {
            Some(c) => c,
            None => (255, 255, 255),
        };
        self.style_text(
            icon_eid,
            Which::First,
            Some(label),
            TextLook {
                x: scaled(scale, 140),
                y: scaled(scale, 120 * i + 30),
                scale: scaled(scale, 3),
                colors: ColorPair { fill, outline: Some((0, 0, 0)) },
                strata: 21,
            },
        );
        assert(old(self).entity_added(a, icon_eid, "encap_icon_"@ + decimal_digits(i as nat))
            && a.text_added(b, icon_eid));
    }
}

impl Game {
    /// The value that row `i` of the panel shows: the player's stat of that row.
    pub open spec fn row_value(self, i: u32) -> Option<u32> {
        match self.gem.player_id {
            Some(pid) => if self.gem.stats@.contains_key(pid) {
                stat_value(self.gem.stats@[pid], i)
            } else {
                None
            },
            None => None,
        }
    }

    /// `post` is this game with row `i` of the panel opened: its frame, and
    /// where the row shows a stat of the player, its label and its icon.
    pub open spec fn row_opened(self, post: Game, i: u32) -> bool {
        &&& exists|framed: EntityManager| #[trigger]
            self.em.frame_added(framed, i) && match (stat_name(i), self.row_value(i)) {
                (Some(name), Some(value)) => {
                    &&& framed.label_added(post.em, i, name, value)
                    &&& post.anim_requests@.len() == self.anim_requests@.len() + 1
                    &&& post.anim_requests@.drop_last() == self.anim_requests@
                    &&& post.anim_requests@.last() matches AnimationRequest::Spawn(sprite)
                    &&& is_row_icon(sprite, i, name)
                },
                _ => post.em == framed && post.anim_requests == self.anim_requests,
            }
        &&& post == (Game { em: post.em, anim_requests: post.anim_requests, ..self })
    }

    /// `post` is this game with row `i` of the panel closed: the entities of
    /// its frame and of its label are gone, and the animation layer has been
    /// asked to remove its icon.
    pub open spec fn row_closed(self, post: Game, i: u32) -> bool {
        &&& exists|unframed: EntityManager| #[trigger]
            self.em.purged(unframed, "encap_"@ + decimal_digits(i as nat)) && unframed.purged(
                post.em,
                "encap_icon_"@ + decimal_digits(i as nat),
            )
        &&& match stat_name(i) {
            Some(name) => {
                &&& post.anim_requests@.len() == self.anim_requests@.len() + 1
                &&& post.anim_requests@.drop_last() == self.anim_requests@
                &&& post.anim_requests@.last() matches AnimationRequest::RemoveByTexture(texture)
                &&& texture@ == name
            },
            None => post.anim_requests == self.anim_requests,
        }
        &&& post == (Game { em: post.em, anim_requests: post.anim_requests, ..self })
    }

    /// `post` is this game with the first `n` rows of the panel opened, top row first.
    pub open spec fn rows_opened(self, post: Game, n: nat) -> bool
        decreases n,
    {
        if n == 0 {
            post == self
        } else {
            exists|mid: Game|
                self.rows_opened(mid, (n - 1) as nat) && #[trigger] mid.row_opened(post, n as u32)
        }
    }

    /// `post` is this game with the first `n` rows of the panel closed, top row first.
    pub open spec fn rows_closed(self, post: Game, n: nat) -> bool
        decreases n,
    {
        if n == 0 {
            post == self
        } else {
            exists|mid: Game|
                self.rows_closed(mid, (n - 1) as nat) && #[trigger] mid.row_closed(post, n as u32)
        }
    }

    /// `post` is this game after button G was clicked: the button shows as
    /// pressed, and the panel of six rows is open if it was closed, and
    /// closed if it was open.
    pub open spec fn g_button_handled(self, post: Game) -> bool {
        exists|pressed: Game, toggled: Game|
            {
                &&& #[trigger] self.button_pressed(pressed, "g_button"@)
                &&& #[trigger] pressed.rows_toggled(toggled, self.stats_panel_open, 6)
                &&& post == (Game { stats_panel_open: !self.stats_panel_open, ..toggled })
            }
    }

    /// `post` is this game with the first `n` rows of the panel closed, if
    /// the panel is closing, or opened, if it is opening.
    pub open spec fn rows_toggled(self, post: Game, closing: bool, n: nat) -> bool {
        if closing {
            self.rows_closed(post, n)
        } else {
            self.rows_opened(post, n)
        }
    }

    /// Whether the presentation store has the ids left that opening the panel takes.
    pub open spec fn has_room_for_panel(self) -> bool {
        &&& self.em.entity_id_counter <= u32::MAX - 12
        &&& self.em.property_id_counter <= u32::MAX - 12
    }

    /// Opens row `i` of the panel.
    pub fn open_row(&mut self, i: u32)
        requires
            1 <= i <= 6,
            old(self).em.entity_id_counter <= u32::MAX - 2,
            old(self).em.property_id_counter <= u32::MAX - 2,
        ensures
            old(self).row_opened(*final(self), i),
            final(self).em.entity_id_counter <= old(self).em.entity_id_counter + 2,
            final(self).em.property_id_counter <= old(self).em.property_id_counter + 2,
    {
        let scale = get_scale();
        self.em.add_row_frame(i);
        let ghost framed = self.em;
        match get_stat(i) {
            Some(stat_name) => {
                match self.get_player_stats(i) {
                    Some(value) => {
                        self.em.add_row_label(i, &stat_name, value);
                        self.anim_requests.push(
                            AnimationRequest::Spawn(
                                AnimatedSprite {
                                    texture_id: stat_name,
                                    frame_width: 64,
                                    frame_height: 64,
                                    total_frames: 12,
                                    current_frame: 0,
                                    frame_time: None,
                                    time_accumulator: 0,
                                    position: (scaled(scale, 10), scaled(scale, 120 * i)),
                                    inanimate: false,
                                    strata: 20,
                                    desired_width: Some(scaled(scale, 120)),
                                    desired_height: Some(scaled(scale, 120)),
                                    play_once: true,
                                    finished: false,
                                    velocity: (0, 0),
                                    lifetime: None,
                                    associated_g_entity: None,
                                },
                            ),
                        );
                        assert(self.anim_requests@.drop_last() =~= old(self).anim_requests@);
                    },
                    None => {},
                }
            },
            None => {},
        }
        assert(old(self).em.frame_added(framed, i));
    }

    /// Closes row `i` of the panel.
    pub fn close_row(&mut self, i: u32)
        requires
            1 <= i <= 6,
        ensures
            old(self).row_closed(*final(self), i),
            final(self).em.entity_id_counter == old(self).em.entity_id_counter,
            final(self).em.property_id_counter == old(self).em.property_id_counter,
    {
        let rect_tag = numbered_tag("encap_", i);
        let icon_tag = numbered_tag("encap_icon_", i);
        self.em.purge_entity_by_tag(rect_tag.as_str());
        let ghost unframed = self.em;
        self.em.purge_entity_by_tag(icon_tag.as_str());
        match get_stat(i) {
            Some(name) => {
                self.anim_requests.push(AnimationRequest::RemoveByTexture(name));
                assert(self.anim_requests@.drop_last() =~= old(self).anim_requests@);
            },
            None => {},
        }
        assert(old(self).em.purged(unframed, "encap_"@ + decimal_digits(i as nat)));
    }

    /// Button G shows as pressed, and the panel opens or closes.
    pub fn handle_g_button(&mut self)
        requires
            !old(self).stats_panel_open ==> old(self).has_room_for_panel(),
        ensures
            old(self).g_button_handled(*final(self)),
            old(self).ids_used(*final(self), 0, 0, 12),
    {
        self.press_button("g_button");
        let ghost pressed = *self;
        let closing = self.stats_panel_open;
        let mut i: u32 = 1;
        while i < 7
            invariant
                1 <= i <= 7,
                closing == old(self).stats_panel_open,
                self.stats_panel_open == closing,
                self.gem == old(self).gem,
                !closing ==> old(self).has_room_for_panel(),
                self.em.entity_id_counter <= old(self).em.entity_id_counter + 2 * (i - 1),
                self.em.property_id_counter <= old(self).em.property_id_counter + 2 * (i - 1),
                pressed.rows_toggled(*self, closing, (i - 1) as nat),
            decreases 7 - i,
        {
            let ghost mid = *self;
            if closing {
                self.close_row(i);
                assert(pressed.rows_closed(mid, ((i as nat) - 1) as nat) && mid.row_closed(
                    *self,
                    (i as nat) as u32,
                ));
                assert(pressed.rows_closed(*self, i as nat));
            } else {
                self.open_row(i);
                assert(pressed.rows_opened(mid, ((i as nat) - 1) as nat) && mid.row_opened(
                    *self,
                    (i as nat) as u32,
                ));
                assert(pressed.rows_opened(*self, i as nat));
            }
            i += 1;
        }
        let ghost toggled = *self;
        self.stats_panel_open = !closing;
        assert(old(self).button_pressed(pressed, "g_button"@));
        assert(pressed.rows_toggled(toggled, old(self).stats_panel_open, 6));
    }
}

} // verus!
