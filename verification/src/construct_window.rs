//! The first screen: the buttons, the framed regions, and what shows the
//! player and the enemy.

use crate::animation::AnimationRequest;
use crate::color::Color;
use crate::entities::EntityManager;
use crate::g_entities::{lemma_none_tagged, lemma_only_tagged};
use crate::game::{get_scale, scale_for, scaled, ui_scale, Game};
use crate::properties::{ClickAction, ColorPair};
use crate::widgets::{is_still_sprite, still_sprite, Area, ButtonFrame, Region, Still, TextLook, Which};
use vstd::prelude::*;
use vstd::string::StringExecFns;

verus! {

/// The frame of the run button.
pub open spec fn run_frame() -> ButtonFrame {
    ButtonFrame {
        area: Area { x: 20, y: 100, width: 400, height: 100 },
        colors: ColorPair::spec_from_colors(
            Color::rgba(4, 66, 137, 255),
            Some(Color::rgba(24, 26, 28, 255)),
        ),
        pressed_color: ColorPair::spec_from_colors(
            Color::rgba(127, 184, 251, 255),
            Some(Color::rgba(24, 26, 28, 255)),
        ),
        hovered_color: ColorPair::spec_from_colors(
            Color::rgba(0, 92, 197, 255),
            Some(Color::rgba(24, 26, 28, 255)),
        ),
    }
}

/// The look of the label of the run button.
pub open spec fn run_look() -> TextLook {
    TextLook {
        x: 30,
        y: 100,
        scale: 2,
        colors: ColorPair::spec_from_colors(
            Color::rgba(246, 248, 250, 255),
            Some(Color::rgba(24, 26, 28, 255)),
        ),
        strata: 15,
    }
}

/// The label of the side button in the given place, counted from the left and from zero.
pub open spec fn side_label(place: int) -> Seq<char> {
    if place == 0 {
        "A"@
    } else if place == 1 {
        "B"@
    } else if place == 2 {
        "C"@
    } else {
        "D"@
    }
}

/// The tag of the side button in the given place.
pub open spec fn side_tag(place: int) -> Seq<char> {
    if place == 0 {
        "a_button"@
    } else if place == 1 {
        "b_button"@
    } else if place == 2 {
        "c_button"@
    } else {
        "d_button"@
    }
}

/// What a click on the side button in the given place asks for.
pub open spec fn side_action(place: int) -> ClickAction {
    if place == 0 {
        ClickAction::A
    } else if place == 1 {
        ClickAction::B
    } else if place == 2 {
        ClickAction::C
    } else {
        ClickAction::D
    }
}

/// The frame of the side button in the given place, where each side button is `width` wide.
pub open spec fn side_frame(place: int, width: u32) -> ButtonFrame {
    ButtonFrame {
        area: Area { x: (440 + place * width) as u32, y: 100, width, height: 100 },
        colors: ColorPair::spec_from_colors(
            Color::rgba(243, 88, 2, 255),
            Some(Color::rgba(24, 26, 28, 255)),
        ),
        pressed_color: ColorPair::spec_from_colors(
            Color::rgba(239, 157, 112, 255),
            Some(Color::rgba(24, 26, 28, 255)),
        ),
        hovered_color: ColorPair::spec_from_colors(
            Color::rgba(243, 103, 25, 255),
            Some(Color::rgba(24, 26, 28, 255)),
        ),
    }
}

/// The look of the label of the side button in the given place.
pub open spec fn side_look(place: int, width: u32) -> TextLook {
    TextLook {
        x: (440 + place * width + 10) as u32,
        y: 100,
        scale: 1,
        colors: ColorPair::spec_from_colors(
            Color::rgba(246, 248, 250, 255),
            Some(Color::rgba(24, 26, 28, 255)),
        ),
        strata: 15,
    }
}

/// The region of the text box, on an interface enlarged by `s`.
pub open spec fn textbox_region(s: u32) -> Region {
    Region {
        area: Area {
            x: (10 * s) as u32,
            y: (120 * s) as u32,
            width: (610 * s) as u32,
            height: (800 * s) as u32,
        },
        fill: (29, 33, 37),
        strata: 10,
    }
}

/// The region of the landscape.
pub open spec fn landscape_region(s: u32) -> Region {
    Region {
        area: Area {
            x: (866 * s) as u32,
            y: (10 * s) as u32,
            width: (1044 * s) as u32,
            height: (532 * s) as u32,
        },
        fill: (29, 33, 37),
        strata: 5,
    }
}

/// The region that tells of the enemy.
pub open spec fn enemy_region(s: u32) -> Region {
    Region {
        area: Area {
            x: (1398 * s) as u32,
            y: (552 * s) as u32,
            width: (512 * s) as u32,
            height: (200 * s) as u32,
        },
        fill: (29, 33, 37),
        strata: 10,
    }
}

/// The region under the tooltips.
pub open spec fn tooltip_region(s: u32) -> Region {
    Region {
        area: Area {
            x: (866 * s) as u32,
            y: (782 * s) as u32,
            width: (517 * s) as u32,
            height: (200 * s) as u32,
        },
        fill: (29, 33, 37),
        strata: 10,
    }
}

/// The look of the name of the enemy.
pub open spec fn enemy_name_look(s: u32) -> TextLook {
    TextLook {
        x: (1400 * s) as u32,
        y: (552 * s) as u32,
        scale: s,
        colors: ColorPair { fill: (255, 255, 255), outline: Some((0u8, 0u8, 0u8)) },
        strata: 10,
    }
}

/// The place of the health bar of the enemy.
pub open spec fn enemy_bar_area(s: u32) -> Area {
    Area {
        x: (1403 * s) as u32,
        y: (592 * s) as u32,
        width: (502 * s) as u32,
        height: (50 * s) as u32,
    }
}

/// The backdrop of the landscape.
pub open spec fn backdrop_still(s: u32) -> Still {
    Still {
        frame_width: 1024,
        frame_height: 512,
        position: ((876 * s) as u32, (20 * s) as u32),
        strata: 5,
        desired_width: (1024 * s) as u32,
        desired_height: (512 * s) as u32,
        play_once: false,
        finished: false,
    }
}

/// The enemy as it stands in the landscape.
pub open spec fn terror_still(s: u32) -> Still {
    Still {
        frame_width: 64,
        frame_height: 64,
        position: ((1500 * s) as u32, (207 * s) as u32),
        strata: 10,
        desired_width: (256 * s) as u32,
        desired_height: (256 * s) as u32,
        play_once: false,
        finished: true,
    }
}

/// The ground that lies over the backdrop.
pub open spec fn ground_still(s: u32) -> Still {
    Still {
        frame_width: 1024,
        frame_height: 512,
        position: ((876 * s) as u32, (20 * s) as u32),
        strata: 10,
        desired_width: (1024 * s) as u32,
        desired_height: (512 * s) as u32,
        play_once: false,
        finished: true,
    }
}

/// The player as it stands in the landscape, at the scale of the layout's own window.
pub open spec fn warlock_still() -> Still {
    Still {
        frame_width: 64,
        frame_height: 64,
        position: (2000, 414),
        strata: 10,
        desired_width: 512,
        desired_height: 512,
        play_once: true,
        finished: false,
    }
}

/// The region that tells of the player.
pub open spec fn player_region() -> Region {
    Region {
        area: Area { x: 1732, y: 1104, width: 1034, height: 400 },
        fill: (29, 33, 37),
        strata: 10,
    }
}

/// The look of the heading of the player's region.
pub open spec fn player_heading_look() -> TextLook {
    TextLook {
        x: 1736,
        y: 1104,
        scale: 2,
        colors: ColorPair { fill: (255, 255, 255), outline: Some((0u8, 0u8, 0u8)) },
        strata: 10,
    }
}

/// The place of the health bar of the player.
pub open spec fn player_bar_area() -> Area {
    Area { x: 1746, y: 1184, width: 1004, height: 100 }
}

/// The place of the cast bar of the player.
pub open spec fn player_castbar_area() -> Area {
    Area { x: 1746, y: 1304, width: 904, height: 100 }
}

/// The area over which the tooltip of Miasma shows.
pub open spec fn miasma_tooltip_area() -> Area {
    Area { x: 1746, y: 1304, width: 1004, height: 100 }
}

impl EntityManager {
    /// `post` is this store with the run button added.
    pub open spec fn run_button_created(&self, post: Self) -> bool {
        let id = self.entity_id_counter;
        exists|made: Self| #[trigger]
            self.button_created(made, id, "run_button"@) && made.button_configured(
                post,
                id,
                run_frame(),
                None,
                run_look(),
                "Run Code Button"@,
                "Runs the code that is currently placed in the text editor section. Be careful! Arbitrary code execution can be dangerous."@,
                ClickAction::RunButton,
            )
    }

    /// Where the row of side buttons ends on the right: at the right edge of
    /// the text box, or at 1240 where there is no text box yet.
    pub open spec fn side_buttons_end(&self) -> u32 {
        match self.tagged("textbox_encap"@) {
            Some(id) => if self.has_rect(id) {
                let edge = self.rectangles@[id]@.last().x + self.rectangles@[id]@.last().width;
                if edge > u32::MAX {
                    u32::MAX
                } else {
                    edge as u32
                }
            } else {
                1240
            },
            None => 1240,
        }
    }

    /// The width of each of the four side buttons, which share the space
    /// between the run button and the end of their row.
    pub open spec fn side_button_width(&self) -> u32 {
        if self.side_buttons_end() > 440 {
            ((self.side_buttons_end() - 440) / 4) as u32
        } else {
            0
        }
    }

    /// `post` is this store with the side button of the given place added.
    pub open spec fn side_button_created(&self, post: Self, place: int, width: u32) -> bool {
        let id = self.entity_id_counter;
        exists|made: Self| #[trigger]
            self.button_created(made, id, side_tag(place)) && made.button_configured(
                post,
                id,
                side_frame(place, width),
                Some(side_label(place)),
                side_look(place, width),
                side_label(place),
                side_label(place) + " button functionality."@,
                side_action(place),
            )
    }

    /// `post` is this store with the four side buttons added, left to right.
    pub open spec fn side_buttons_created(&self, post: Self) -> bool {
        let width = self.side_button_width();
        exists|a: Self, b: Self, c: Self|
            {
                &&& #[trigger] self.side_button_created(a, 0, width)
                &&& #[trigger] a.side_button_created(b, 1, width)
                &&& #[trigger] b.side_button_created(c, 2, width)
                &&& c.side_button_created(post, 3, width)
            }
    }

    /// `post` is this store with the region of the enemy added: framed,
    /// named, and with a health bar that shows the health of `terror`.
    pub open spec fn enemy_panel_added(&self, post: Self, s: u32, terror: u32) -> bool {
        let id = self.entity_id_counter;
        exists|a: Self, b: Self, c: Self, d: Self|
            {
                &&& #[trigger] self.region_added(a, "enemy_info_region"@, enemy_region(s))
                &&& #[trigger] a.text_added(b, id)
                &&& #[trigger] b.text_styled(
                    c,
                    id,
                    Which::First,
                    Some("Alpine Terror"@),
                    enemy_name_look(s),
                )
                &&& #[trigger] c.healthbar_added(d, id)
                &&& d.healthbar_bound(post, id, enemy_bar_area(s), terror)
            }
    }

    /// `post` is this store with the regions of the first screen added: the
    /// text box, the landscape, the enemy's region and the tooltip's.
    pub open spec fn regions_added(&self, post: Self, s: u32, terror: u32) -> bool {
        exists|a: Self, b: Self, c: Self|
            {
                &&& #[trigger] self.region_added(a, "textbox_encap"@, textbox_region(s))
                &&& #[trigger] a.region_added(b, "landscape"@, landscape_region(s))
                &&& #[trigger] b.enemy_panel_added(c, s, terror)
                &&& c.region_added(post, "tooltip"@, tooltip_region(s))
            }
    }

    /// `post` is this store with the player's region added: framed, headed,
    /// and with a health bar that shows the health of `player`.
    pub open spec fn player_panel_added(&self, post: Self, player: u32) -> bool {
        let id = self.entity_id_counter;
        exists|a: Self, b: Self, c: Self, d: Self|
            {
                &&& #[trigger] self.region_added(a, "player"@, player_region())
                &&& #[trigger] a.text_added(b, id)
                &&& #[trigger] b.text_styled(
                    c,
                    id,
                    Which::First,
                    Some("Player Info"@),
                    player_heading_look(),
                )
                &&& #[trigger] c.healthbar_added(d, id)
                &&& d.healthbar_bound(post, id, player_bar_area(), player)
            }
    }

    /// `post` is this store after the entity `id` got what shows the
    /// player's casting: a cast bar, the tooltip of Miasma, and a scratch buffer.
    pub open spec fn cast_widgets_added(&self, post: Self, id: u32) -> bool {
        exists|a: Self, b: Self, c: Self, d: Self|
            {
                &&& #[trigger] self.castbar_added(a, id)
                &&& #[trigger] a.castbar_placed(b, id, player_castbar_area())
                &&& #[trigger] b.tooltip_added(c, id)
                &&& #[trigger] c.tooltip_styled(
                    d,
                    id,
                    "Miasma"@,
                    "    A contagious metaphysical impurity. \nSpreads to any nearby enemies each time it \ndeals damage, haste does not affect its \ntickrate."@,
                    miasma_tooltip_area(),
                    Some("miasma"@),
                )
                &&& d.state_added(post, id)
            }
    }

    /// Adds the run button.
    pub fn create_run_button(&mut self)
        requires
            old(self).entity_id_counter < u32::MAX,
            old(self).property_id_counter <= u32::MAX - 4,
        ensures
            old(self).run_button_created(*final(self)),
            final(self).entity_id_counter == old(self).entity_id_counter + 1,
            final(self).property_id_counter == old(self).property_id_counter + 4,
    {
        let scale = get_scale();
        let outline = crate::color::main_outline_clr();
        let button_eid = self.create_button(Some(String::from_str("run_button")));
        let ghost made = *self;
        proof {
            old(self).lemma_button_created(made, button_eid, "run_button"@);
        }
        self.configure_button(
            button_eid,
            ButtonFrame {
                area: Area {
                    x: scaled(scale, 10),
                    y: scaled(scale, 50),
                    width: scaled(scale, 200),
                    height: scaled(scale, 50),
                },
                colors: ColorPair::from_colors(crate::color::button(), Some(outline)),
                pressed_color: ColorPair::from_colors(crate::color::button_pressed(), Some(outline)),
                hovered_color: ColorPair::from_colors(crate::color::button_hovered(), Some(outline)),
            },
            None,
            TextLook {
                x: scaled(scale, 15),
                y: scaled(scale, 50),
                scale,
                colors: ColorPair::from_colors(crate::color::main_text_clr(), Some(outline)),
                strata: 15,
            },
            String::from_str("Run Code Button"),
            String::from_str(
                "Runs the code that is currently placed in the text editor section. Be careful! Arbitrary code execution can be dangerous.",
            ),
            ClickAction::RunButton,
        );
        assert(old(self).button_created(made, button_eid, "run_button"@));
    }

    /// What `button_created` says of the counters.
    pub proof fn lemma_button_created(&self, post: Self, id: u32, tag: Seq<char>)
        requires
            self.button_created(post, id, tag),
            self.entity_id_counter < u32::MAX,
            self.property_id_counter <= u32::MAX - 4,
        ensures
            id == self.entity_id_counter,
            post.entity_id_counter == self.entity_id_counter + 1,
            post.property_id_counter == self.property_id_counter + 4,
    {
        let (a, b, c, d) = choose|a: Self, b: Self, c: Self, d: Self|
            {
                &&& #[trigger] self.entity_added(a, id, tag)
                &&& #[trigger] a.rect_added(b, id)
                &&& #[trigger] b.text_added(c, id)
                &&& #[trigger] c.tooltip_added(d, id)
                &&& d.clickable_added(post, id)
            };
    }

    /// Computes `side_buttons_end`.
    fn find_side_buttons_end(&self) -> (end: u32)
        ensures
            end == self.side_buttons_end(),
    {
        let scale = get_scale();
        let fallback = scaled(scale, 10) + scaled(scale, 200) + scaled(scale, 10) + scaled(scale, 400);
        let id = match self.find_entity("textbox_encap") {
            Some(id) => id,
            None => {
                return fallback;
            },
        };
        match self.get_prects_non_mut(id) {
            Some(tb_rects) => {
                if tb_rects.len() > 0 {
                    let tb = &tb_rects[tb_rects.len() - 1];
                    tb.x.saturating_add(tb.width)
                } else {
                    fallback
                }
            },
            None => fallback,
        }
    }

    /// Adds the side button of the given place.
    fn create_side_button(
        &mut self,
        place: u32,
        tag: &str,
        label: &str,
        action: ClickAction,
        width: u32,
    )
        requires
            place < 4,
            tag@ == side_tag(place as int),
            label@ == side_label(place as int),
            action == side_action(place as int),
            440 + 4 * width <= u32::MAX,
            old(self).entity_id_counter < u32::MAX,
            old(self).property_id_counter <= u32::MAX - 4,
        ensures
            old(self).side_button_created(*final(self), place as int, width),
            final(self).entity_id_counter == old(self).entity_id_counter + 1,
            final(self).property_id_counter == old(self).property_id_counter + 4,
    {
        let scale = get_scale();
        let outline = crate::color::main_outline_clr();
        let eid = self.create_button(Some(String::from_str(tag)));
        let ghost made = *self;
        proof {
            old(self).lemma_button_created(made, eid, tag@);
        }
        assert(place * width <= 3 * width) by (nonlinear_arith)
            requires
                place < 4,
        ;
        let button_x: u32 = 440 + place * width;
        let mut body = String::from_str(label);
        body.append(" button functionality.");
        self.configure_button(
            eid,
            ButtonFrame {
                area: Area { x: button_x, y: scaled(scale, 50), width, height: scaled(scale, 50) },
                colors: ColorPair::from_colors(crate::color::alt_button(), Some(outline)),
                pressed_color: ColorPair::from_colors(crate::color::alt_button_pressed(), Some(outline)),
                hovered_color: ColorPair::from_colors(crate::color::alt_button_hovered(), Some(outline)),
            },
            Some(String::from_str(label)),
            TextLook {
                x: button_x + scaled(scale, 5),
                y: scaled(scale, 50),
                scale: 1,
                colors: ColorPair::from_colors(crate::color::main_text_clr(), Some(outline)),
                strata: 15,
            },
            String::from_str(label),
            body,
            action,
        );
        assert(old(self).button_created(made, eid, side_tag(place as int)));
    }

    /// Adds the four side buttons, A to D, in a row to the right of the run button.
    pub fn create_side_buttons(&mut self)
        requires
            old(self).entity_id_counter <= u32::MAX - 4,
            old(self).property_id_counter <= u32::MAX - 16,
        ensures
            old(self).side_buttons_created(*final(self)),
            final(self).entity_id_counter == old(self).entity_id_counter + 4,
            final(self).property_id_counter == old(self).property_id_counter + 16,
    {
        let right_x = self.find_side_buttons_end();
        let total_width = right_x.saturating_sub(440);
        let button_width = total_width / 4;
        self.create_side_button(0, "a_button", "A", ClickAction::A, button_width);
        let ghost a = *self;
        self.create_side_button(1, "b_button", "B", ClickAction::B, button_width);
        let ghost b = *self;
        self.create_side_button(2, "c_button", "C", ClickAction::C, button_width);
        let ghost c = *self;
        self.create_side_button(3, "d_button", "D", ClickAction::D, button_width);
        assert(button_width == old(self).side_button_width());
        assert(old(self).side_button_created(a, 0, button_width) && a.side_button_created(
            b,
            1,
            button_width,
        ) && b.side_button_created(c, 2, button_width) && c.side_button_created(
            *self,
            3,
            button_width,
        ));
    }
}

/// `requests` is `before` with one request more: to spawn the still picture described.
pub open spec fn still_requested(
    before: Seq<AnimationRequest>,
    requests: Seq<AnimationRequest>,
    name: Seq<char>,
    still: Still,
) -> bool {
    &&& requests.len() == before.len() + 1
    &&& requests.drop_last() == before
    &&& requests.last() matches AnimationRequest::Spawn(sprite)
    &&& is_still_sprite(sprite, name, still)
}

impl Game {
    /// `post` is this game after the game entity tagged `tag` was looked up
    /// for a health bar to show; `found` is that entity. Where there was
    /// none, one has been created.
    pub open spec fn shown_entity_found(self, post: Game, tag: Seq<char>, found: u32) -> bool {
        &&& match self.gem.tagged(tag) {
            Some(e) => found == e && post.gem == self.gem,
            None => self.gem.entity_added(post.gem, found, tag),
        }
        &&& post == (Game { gem: post.gem, ..self })
    }

    /// `post` is this game with the landscape requested of the animation
    /// layer: the backdrop, the enemy and the ground, in that order.
    pub open spec fn landscape_requested(self, post: Game, s: u32) -> bool {
        &&& exists|a: Seq<AnimationRequest>, b: Seq<AnimationRequest>|
            {
                &&& #[trigger] still_requested(
                    self.anim_requests@,
                    a,
                    "rainier_background_2"@,
                    backdrop_still(s),
                )
                &&& #[trigger] still_requested(a, b, "Alpe"@, terror_still(s))
                &&& still_requested(b, post.anim_requests@, "ground_overlay3"@, ground_still(s))
            }
        &&& post == (Game { anim_requests: post.anim_requests, ..self })
    }

    /// `post` is this game with the regions of the first screen built, on an
    /// interface scaled to the window, and the landscape requested.
    pub open spec fn gui_built(self, post: Game) -> bool {
        let s = ui_scale(self.window_width, self.window_height);
        exists|terror: u32, found: Game, drawn: Game|
            {
                &&& #[trigger] self.shown_entity_found(found, "alpine_terror"@, terror)
                &&& #[trigger] found.landscape_requested(drawn, s)
                &&& #[trigger] drawn.em.regions_added(post.em, s, terror)
                &&& post == (Game { em: post.em, ..drawn })
            }
    }

    /// The game entity that a widget for the actor tagged `tag` shows: the
    /// entity with the lowest id that carries the tag, or the one that is
    /// created for the widget where there is none.
    pub open spec fn shown_actor(self, tag: Seq<char>) -> u32 {
        match self.gem.tagged(tag) {
            Some(e) => e,
            None => self.gem.game_entity_id_counter,
        }
    }

    /// `post` is this game with what shows the player added, at the scale of
    /// the layout's own window: its sprite, its region with heading and
    /// health bar, its cast bar, the tooltip of Miasma, and a scratch buffer.
    /// The new presentation entity is linked to the game entity that it shows.
    pub open spec fn player_shown(self, post: Game) -> bool {
        let id = self.em.entity_id_counter;
        exists|player: u32, found: Game, panel: EntityManager|
            {
                &&& #[trigger] self.shown_entity_found(found, "player"@, player)
                &&& still_requested(
                    found.anim_requests@,
                    post.anim_requests@,
                    "my_warlock"@,
                    warlock_still(),
                )
                &&& #[trigger] found.em.player_panel_added(panel, player)
                &&& panel.cast_widgets_added(post.em, id)
                &&& post.em_gem_link@ == found.em_gem_link@.insert(id, player)
                &&& post == (Game {
                    em: post.em,
                    anim_requests: post.anim_requests,
                    em_gem_link: post.em_gem_link,
                    ..found
                })
            }
    }

    /// No game entity is tagged as the player or as the enemy yet.
    pub open spec fn has_no_actors(self) -> bool {
        self.gem.tagged("player"@) is None && self.gem.tagged("alpine_terror"@) is None
    }

    /// What building the first screen makes of a game that had no actors:
    /// the player and the enemy are the two new game entities, nobody else
    /// is new, and what shows the player is linked to the player.
    pub open spec fn actors_started(self, post: Game) -> bool {
        let player = self.gem.game_entity_id_counter;
        let terror = (player + 1) as u32;
        let shown = (self.em.entity_id_counter + 5) as u32;
        &&& post.gem.player_id == Some(player)
        &&& post.gem.game_entity_id_counter == player + 2
        &&& post.gem.gids@.dom() == self.gem.gids@.dom().insert(player).insert(terror)
        &&& post.gem.gids@[player].id == player
        &&& post.gem.gids@[player].tag@ == "player"@
        &&& post.gem.gids@[terror].id == terror
        &&& post.gem.gids@[terror].tag@ == "alpine_terror"@
        &&& forall|x: u32|
            self.gem.gids@.contains_key(x) && x != player && x != terror ==> #[trigger] post.gem.gids@[x]
                == self.gem.gids@[x]
        &&& post.gem.tagged("player"@) == Some(player)
        &&& post.gem.tagged("alpine_terror"@) == Some(terror)
        &&& post.em.entity_id_counter == shown + 5
        &&& post.em_gem_link@ == (match self.em.tagged("player"@) {
            Some(before) => self.em_gem_link@.insert(before, player),
            None => self.em_gem_link@,
        }).insert(shown, player)
    }

    /// Whether the stores have the ids left that building the first screen takes.
    pub open spec fn has_room_for_first_screen(self) -> bool {
        &&& self.gem.game_entity_id_counter <= u32::MAX - 4
        &&& self.gem.game_property_id_counter <= u32::MAX - 16
        &&& self.em.entity_id_counter <= u32::MAX - 10
        &&& self.em.property_id_counter <= u32::MAX - 32
    }

    /// Computes `has_room_for_first_screen`.
    pub fn ready_for_first_screen(&self) -> (ready: bool)
        ensures
            ready == self.has_room_for_first_screen(),
    {
        self.gem.game_entity_id_counter <= u32::MAX - 4 && self.gem.game_property_id_counter
            <= u32::MAX - 16 && self.em.entity_id_counter <= u32::MAX - 10
            && self.em.property_id_counter <= u32::MAX - 32
    }

    /// `post` is this game with the world and the first screen built: the
    /// player and the enemy, the buttons, what shows the player, and the
    /// regions.
    pub open spec fn first_screen_built(self, post: Game) -> bool {
        exists|a: Game, b: Game, c: Game, d: Game, e: Game|
            {
                &&& #[trigger] self.player_created(a)
                &&& #[trigger] a.enemy_created(b)
                &&& #[trigger] b.em.run_button_created(c.em)
                &&& c == (Game { em: c.em, ..b })
                &&& #[trigger] c.em.side_buttons_created(d.em)
                &&& d == (Game { em: d.em, ..c })
                &&& #[trigger] d.player_shown(e)
                &&& e.gui_built(post)
            }
    }

    /// Looks up the game entity tagged `tag`, creating it where it is missing.
    fn find_shown_entity(&mut self, tag: &str) -> (found: u32)
        requires
            old(self).gem.game_entity_id_counter < u32::MAX,
        ensures
            old(self).shown_entity_found(*final(self), tag@, found),
            final(self).gem.game_entity_id_counter <= old(self).gem.game_entity_id_counter + 1,
            final(self).gem.game_property_id_counter == old(self).gem.game_property_id_counter,
    {
        self.gem.get_entity_id_from_name(String::from_str(tag))
    }

    /// Builds the regions of the first screen and requests the landscape.
    pub fn init_gui(&mut self)
        requires
            old(self).gem.game_entity_id_counter < u32::MAX,
            old(self).em.entity_id_counter <= u32::MAX - 4,
            old(self).em.property_id_counter <= u32::MAX - 6,
        ensures
            old(self).gui_built(*final(self)),
            final(self).gem.game_entity_id_counter <= old(self).gem.game_entity_id_counter + 1,
            final(self).gem.game_property_id_counter == old(self).gem.game_property_id_counter,
            final(self).em.entity_id_counter == old(self).em.entity_id_counter + 4,
            final(self).em.property_id_counter == old(self).em.property_id_counter + 6,
            final(self).em_gem_link == old(self).em_gem_link,
            old(self).gem.tagged("alpine_terror"@) is Some ==> final(self).gem == old(self).gem,
    {
        let scale = scale_for(self.window_width, self.window_height);
        let s = scale;
        let terror = self.find_shown_entity("alpine_terror");
        let ghost found = *self;

        let ghost r0 = self.anim_requests@;
        self.anim_requests.push(
            AnimationRequest::Spawn(
                still_sprite(
                    "rainier_background_2",
                    Still {
                        frame_width: 1024,
                        frame_height: 512,
                        position: (876 * s, 20 * s),
                        strata: 5,
                        desired_width: 1024 * s,
                        desired_height: 512 * s,
                        play_once: false,
                        finished: false,
                    },
                ),
            ),
        );
        let ghost r1 = self.anim_requests@;
        self.anim_requests.push(
            AnimationRequest::Spawn(
                still_sprite(
                    "Alpe",
                    Still {
                        frame_width: 64,
                        frame_height: 64,
                        position: (1500 * s, 207 * s),
                        strata: 10,
                        desired_width: 256 * s,
                        desired_height: 256 * s,
                        play_once: false,
                        finished: true,
                    },
                ),
            ),
        );
        let ghost r2 = self.anim_requests@;
        self.anim_requests.push(
            AnimationRequest::Spawn(
                still_sprite(
                    "ground_overlay3",
                    Still {
                        frame_width: 1024,
                        frame_height: 512,
                        position: (876 * s, 20 * s),
                        strata: 10,
                        desired_width: 1024 * s,
                        desired_height: 512 * s,
                        play_once: false,
                        finished: true,
                    },
                ),
            ),
        );
        proof {
            assert(r1.drop_last() =~= r0);
            assert(r2.drop_last() =~= r1);
            assert(self.anim_requests@.drop_last() =~= r2);
            assert(still_requested(r0, r1, "rainier_background_2"@, backdrop_still(s)));
            assert(still_requested(r1, r2, "Alpe"@, terror_still(s)));
        }
        let ghost drawn = *self;
        assert(found.landscape_requested(drawn, s));

        self.em.add_region(
            String::from_str("textbox_encap"),
            Region {
                area: Area { x: 10 * s, y: 120 * s, width: 610 * s, height: 800 * s },
                fill: (29, 33, 37),
                strata: 10,
            },
        );
        let ghost a = self.em;
        self.em.add_region(
            String::from_str("landscape"),
            Region {
                area: Area { x: 876 * s - 10 * s, y: 10 * s, width: 1044 * s, height: 532 * s },
                fill: (29, 33, 37),
                strata: 5,
            },
        );
        let ghost b = self.em;
        self.em.add_enemy_panel(s, terror);
        let ghost c = self.em;
        self.em.add_region(
            String::from_str("tooltip"),
            Region {
                area: Area { x: 876 * s - 10 * s, y: 782 * s, width: 517 * s, height: 200 * s },
                fill: (29, 33, 37),
                strata: 10,
            },
        );
        assert(drawn.em.region_added(a, "textbox_encap"@, textbox_region(s)) && a.region_added(
            b,
            "landscape"@,
            landscape_region(s),
        ) && b.enemy_panel_added(c, s, terror));
        assert(drawn.em.regions_added(self.em, s, terror));
    }

    /// Adds what shows the player.
    pub fn spawn_player(&mut self)
        requires
            old(self).gem.game_entity_id_counter < u32::MAX,
            old(self).em.entity_id_counter < u32::MAX,
            old(self).em.property_id_counter <= u32::MAX - 6,
        ensures
            old(self).player_shown(*final(self)),
            final(self).gem.game_entity_id_counter <= old(self).gem.game_entity_id_counter + 1,
            final(self).gem.game_property_id_counter == old(self).gem.game_property_id_counter,
            final(self).em.entity_id_counter == old(self).em.entity_id_counter + 1,
            final(self).em.property_id_counter == old(self).em.property_id_counter + 6,
            final(self).em_gem_link@ == old(self).em_gem_link@.insert(
                old(self).em.entity_id_counter,
                old(self).shown_actor("player"@),
            ),
            old(self).gem.tagged("player"@) is Some ==> final(self).gem == old(self).gem,
    {
        let scale = get_scale();
        let player = self.find_shown_entity("player");
        let ghost found = *self;
        self.anim_requests.push(
            AnimationRequest::Spawn(
                still_sprite(
                    "my_warlock",
                    Still {
                        frame_width: 64,
                        frame_height: 64,
                        position: (scaled(scale, 1000), scaled(scale, 207)),
                        strata: 10,
                        desired_width: scaled(scale, 256),
                        desired_height: scaled(scale, 256),
                        play_once: true,
                        finished: false,
                    },
                ),
            ),
        );
        assert(self.anim_requests@.drop_last() =~= found.anim_requests@);
        let id = self.em.add_player_panel(player);
        let ghost panel = self.em;
        self.em.add_cast_widgets(id);
        self.em_gem_link.insert(id, player);
        assert(found.em.player_panel_added(panel, player));
    }

    /// Builds the world and the first screen. In a game that had no actors,
    /// the widgets find the player and the enemy that were just created, so
    /// that no actor is made twice.
    pub fn init_main_entry(&mut self)
        requires
            old(self).has_room_for_first_screen(),
        ensures
            old(self).first_screen_built(*final(self)),
            old(self).has_no_actors() ==> old(self).actors_started(*final(self)),
    {
        self.create_player();
        let ghost a = *self;
        self.create_enemy();
        let ghost b = *self;
        self.em.create_run_button();
        let ghost c = *self;
        self.em.create_side_buttons();
        let ghost d = *self;
        proof {
            if old(self).has_no_actors() {
                old(self).lemma_actors_are_found(a, b);
            }
        }
        self.spawn_player();
        let ghost e = *self;
        self.init_gui();
        assert(old(self).player_created(a) && a.enemy_created(b) && b.em.run_button_created(c.em)
            && c.em.side_buttons_created(d.em) && d.player_shown(e));
        proof {
            if old(self).has_no_actors() {
                let player = old(self).gem.game_entity_id_counter;
                let terror = (player + 1) as u32;
                assert(self.gem == b.gem);
                assert(self.gem.gids@.dom() =~= old(self).gem.gids@.dom().insert(player).insert(
                    terror,
                ));
            }
        }
    }

    /// In a game that had no actors, the player and the enemy that were
    /// just created are the ones that the lookups by their tags find.
    proof fn lemma_actors_are_found(self, a: Game, b: Game)
        requires
            self.has_no_actors(),
            self.gem.game_entity_id_counter < u32::MAX,
            self.gem.actor_identified(a.gem, self.gem.game_entity_id_counter, "player"@),
            a.gem.actor_identified(
                b.gem,
                (self.gem.game_entity_id_counter + 1) as u32,
                "alpine_terror"@,
            ),
        ensures
            b.gem.tagged("player"@) == Some(self.gem.game_entity_id_counter),
            b.gem.tagged("alpine_terror"@) == Some((self.gem.game_entity_id_counter + 1) as u32),
    {
        let player = self.gem.game_entity_id_counter;
        let terror = (player + 1) as u32;
        reveal_strlit("player");
        reveal_strlit("alpine_terror");
        assert("player"@.len() == 6);
        assert("alpine_terror"@.len() == 13);
        lemma_none_tagged(self.gem.gids@, "player"@);
        lemma_none_tagged(self.gem.gids@, "alpine_terror"@);
        assert forall|x: u32| b.gem.gids@.contains_key(x) && x != player implies (
        #[trigger] b.gem.gids@[x]).tag@ != "player"@ by {
            if x != terror {
                assert(self.gem.gids@.contains_key(x));
                assert(b.gem.gids@[x] == self.gem.gids@[x]);
            }
        }
        assert forall|x: u32| b.gem.gids@.contains_key(x) && x != terror implies (
        #[trigger] b.gem.gids@[x]).tag@ != "alpine_terror"@ by {
            if x != player {
                assert(self.gem.gids@.contains_key(x));
                assert(b.gem.gids@[x] == self.gem.gids@[x]);
            }
        }
        lemma_only_tagged(b.gem.gids@, "player"@, player);
        lemma_only_tagged(b.gem.gids@, "alpine_terror"@, terror);
    }
}

impl EntityManager {
    /// Adds the region of the enemy.
    pub fn add_enemy_panel(&mut self, s: u32, terror: u32)
        requires
            1 <= s <= 2236962,
            old(self).entity_id_counter < u32::MAX,
            old(self).property_id_counter <= u32::MAX - 3,
        ensures
            old(self).enemy_panel_added(*final(self), s, terror),
            final(self).entity_id_counter == old(self).entity_id_counter + 1,
            final(self).property_id_counter == old(self).property_id_counter + 3,
    {
        let id = self.add_region(
            String::from_str("enemy_info_region"),
            Region {
                area: Area { x: 1408 * s - 10 * s, y: 552 * s, width: 512 * s, height: 200 * s },
                fill: (29, 33, 37),
                strata: 10,
            },
        );
        let ghost a = *self;
        self.add_text(id);
        let ghost b = *self;
        self.style_text(
            id,
            Which::First,
            Some(String::from_str("Alpine Terror")),
            TextLook {
                x: 1410 * s - 10 * s,
                y: 552 * s,
                scale: s,
                colors: ColorPair { fill: (255, 255, 255), outline: Some((0, 0, 0)) },
                strata: 10,
            },
        );
        let ghost c = *self;
        self.add_healthbar(id);
        let ghost d = *self;
        self.bind_healthbar(
            id,
            Area { x: 1920 * s - 517 * s, y: 592 * s, width: 502 * s, height: 50 * s },
            terror,
        );
        assert(old(self).region_added(a, "enemy_info_region"@, enemy_region(s)) && a.text_added(b, id)
            && b.text_styled(c, id, Which::First, Some("Alpine Terror"@), enemy_name_look(s))
            && c.healthbar_added(d, id));
    }

    /// Adds the region of the player and returns its entity.
    pub fn add_player_panel(&mut self, player: u32) -> (id: u32)
        requires
            old(self).entity_id_counter < u32::MAX,
            old(self).property_id_counter <= u32::MAX - 3,
        ensures
            id == old(self).entity_id_counter,
            old(self).player_panel_added(*final(self), player),
            final(self).entity_id_counter == old(self).entity_id_counter + 1,
            final(self).property_id_counter == old(self).property_id_counter + 3,
    {
        let scale = get_scale();
        let id = self.add_region(
            String::from_str("player"),
            Region {
                area: Area {
                    x: scaled(scale, 1920 - 1044) - scaled(scale, 10),
                    y: scaled(scale, 532 + 20),
                    width: scaled(scale, 517),
                    height: scaled(scale, 200),
                },
                fill: (29, 33, 37),
                strata: 10,
            },
        );
        let ghost a = *self;
        self.add_text(id);
        let ghost b = *self;
        self.style_text(
            id,
            Which::First,
            Some(String::from_str("Player Info")),
            TextLook {
                x: scaled(scale, 1920 - 1042) - scaled(scale, 10),
                y: scaled(scale, 532 + 20),
                scale,
                colors: ColorPair { fill: (255, 255, 255), outline: Some((0, 0, 0)) },
                strata: 10,
            },
        );
        let ghost c = *self;
        self.add_healthbar(id);
        let ghost d = *self;
        self.bind_healthbar(
            id,
            Area {
                x: scaled(scale, 1920) - scaled(scale, 1047),
                y: scaled(scale, 532 + 60),
                width: scaled(scale, 502),
                height: scaled(scale, 50),
            },
            player,
        );
        assert(old(self).region_added(a, "player"@, player_region()) && a.text_added(b, id)
            && b.text_styled(c, id, Which::First, Some("Player Info"@), player_heading_look())
            && c.healthbar_added(d, id));
        id
    }

    /// Gives the entity `id` what shows the player's casting.
    pub fn add_cast_widgets(&mut self, id: u32)
        requires
            old(self).property_id_counter <= u32::MAX - 3,
        ensures
            old(self).cast_widgets_added(*final(self), id),
            final(self).entity_id_counter == old(self).entity_id_counter,
            final(self).property_id_counter == old(self).property_id_counter + 3,
    {
        let scale = get_scale();
        self.add_castbar(id);
        let ghost a = *self;
        self.place_castbar(
            id,
            Area {
                x: scaled(scale, 1920) - scaled(scale, 1047),
                y: scaled(scale, 532 + 120),
                width: scaled(scale, 452),
                height: scaled(scale, 50),
            },
        );
        let ghost b = *self;
        self.add_tooltip(id);
        let ghost c = *self;
        self.style_tooltip(
            id,
            String::from_str("Miasma"),
            String::from_str(
                "    A contagious metaphysical impurity. \nSpreads to any nearby enemies each time it \ndeals damage, haste does not affect its \ntickrate.",
            ),
            Area {
                x: scaled(scale, 1920) - scaled(scale, 1047),
                y: scaled(scale, 532 + 120),
                width: scaled(scale, 502),
                height: scaled(scale, 50),
            },
            Some(String::from_str("miasma")),
        );
        let ghost d = *self;
        self.add_state(id);
        assert(old(self).castbar_added(a, id) && a.castbar_placed(b, id, player_castbar_area())
            && b.tooltip_added(c, id) && c.tooltip_styled(
            d,
            id,
            "Miasma"@,
            "    A contagious metaphysical impurity. \nSpreads to any nearby enemies each time it \ndeals damage, haste does not affect its \ntickrate."@,
            miasma_tooltip_area(),
            Some("miasma"@),
        ));
    }
}

} // verus!
