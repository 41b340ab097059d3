//! The looks that widgets are given once their components exist.

use crate::animation::AnimatedSprite;
use crate::entities::EntityManager;
use crate::properties::{
    ClickAction, ColorPair, PCastbar, PClickable, PHealthbar, PRect, PText, PTooltipData,
};
use crate::tables::table_get_mut;
use vstd::prelude::*;
use vstd::string::StringExecFns;

verus! {

/// An area of the screen, in pixels.
#[derive(Debug, Clone, Copy, PartialEq, Eq)]
pub struct Area {
    pub x: u32,
    pub y: u32,
    pub width: u32,
    pub height: u32,
}

/// The look of a framed region.
#[derive(Debug, Clone, Copy, PartialEq, Eq)]
pub struct Region {
    pub area: Area,
    pub fill: (u8, u8, u8),
    pub strata: u8,
}

/// The look of the rectangle of a button.
#[derive(Debug, Clone, Copy, PartialEq, Eq)]
pub struct ButtonFrame {
    pub area: Area,
    pub colors: ColorPair,
    pub pressed_color: ColorPair,
    pub hovered_color: ColorPair,
}

/// The look of a text.
#[derive(Debug, Clone, Copy, PartialEq, Eq)]
pub struct TextLook {
    pub x: u32,
    pub y: u32,
    pub scale: u32,
    pub colors: ColorPair,
    pub strata: u8,
}

/// Which of the components of one kind that an entity carries is meant.
#[derive(Debug, Clone, Copy, PartialEq, Eq, Structural)]
pub enum Which {
    First,
    Last,
}

/// The position that `which` means in a list of `len` components.
pub open spec fn position_of(which: Which, len: nat) -> int {
    match which {
        Which::First => 0,
        Which::Last => len - 1,
    }
}

/// The rectangle `r` made into a framed region: filled, outlined in black, and drawn.
pub open spec fn region_rect(r: PRect, region: Region) -> PRect {
    PRect {
        x: region.area.x,
        y: region.area.y,
        width: region.area.width,
        height: region.area.height,
        colors: ColorPair { fill: region.fill, outline: Some((0u8, 0u8, 0u8)) },
        draw: true,
        strata: region.strata,
        ..r
    }
}

/// The rectangle `r` made into the rectangle of a button: drawn above the
/// regions, with a look for each state, and not hovered.
pub open spec fn button_rect(r: PRect, frame: ButtonFrame) -> PRect {
    PRect {
        x: frame.area.x,
        y: frame.area.y,
        width: frame.area.width,
        height: frame.area.height,
        colors: frame.colors,
        pressed_color: Some(frame.pressed_color),
        hovered_color: Some(frame.hovered_color),
        draw: true,
        hovered: Some(false),
        strata: 10,
        ..r
    }
}

/// `t` is the text `from` given a look and, where `content` holds one, a
/// new wording.
pub open spec fn is_styled_text(t: PText, from: PText, content: Option<Seq<char>>, look: TextLook) -> bool {
    &&& t.id == from.id
    &&& t.lifetime_ms == from.lifetime_ms
    &&& t.text@ == match content {
        Some(c) => c,
        None => from.text@,
    }
    &&& t.x == look.x
    &&& t.y == look.y
    &&& t.scale == look.scale
    &&& t.colors == look.colors
    &&& t.draw
    &&& t.strata == look.strata
}

/// `t` is the tooltip `from` given its wording, its area and its icon.
pub open spec fn is_styled_tooltip(
    t: PTooltipData,
    from: PTooltipData,
    header: Seq<char>,
    body: Seq<char>,
    area: Area,
    icon: Option<Seq<char>>,
) -> bool {
    &&& t.id == from.id
    &&& t.header@ == header
    &&& t.body@ == body
    &&& t.x == area.x
    &&& t.y == area.y
    &&& t.width == area.width
    &&& t.height == area.height
    &&& match icon {
        Some(name) => t.icon is Some && t.icon->0@ == name,
        None => t.icon is None,
    }
}

/// The health bar `h` given its place and the game entity whose health it shows.
pub open spec fn bound_healthbar(h: PHealthbar, area: Area, gem_entity: u32) -> PHealthbar {
    PHealthbar {
        x: area.x,
        y: area.y,
        width: area.width,
        height: area.height,
        draw: true,
        strata: 30,
        base_colors: ColorPair { fill: (64, 64, 64), outline: Some((0u8, 0u8, 0u8)) },
        inner_colors: ColorPair { fill: (255, 100, 100), outline: Some((0u8, 0u8, 0u8)) },
        gem_entity_id: Some(gem_entity),
        ..h
    }
}

/// `c` is the cast bar `from` given its place. It shows the icon of Miasma
/// and starts four fifths full.
pub open spec fn is_placed_castbar(c: PCastbar, from: PCastbar, area: Area) -> bool {
    &&& c.id == from.id
    &&& c.x == area.x
    &&& c.y == area.y
    &&& c.width == area.width
    &&& c.height == area.height
    &&& c.cast_progress == 800
    &&& c.draw
    &&& c.strata == 30
    &&& c.base_colors == ColorPair { fill: (64, 64, 64), outline: Some((0u8, 0u8, 0u8)) }
    &&& c.inner_colors == ColorPair { fill: (100, 100, 255), outline: Some((0u8, 0u8, 0u8)) }
    &&& c.icon_name@ == "miasma"@
}

/// What tells one still sprite from another.
pub struct Still {
    pub frame_width: u32,
    pub frame_height: u32,
    pub position: (u32, u32),
    pub strata: u32,
    pub desired_width: u32,
    pub desired_height: u32,
    pub play_once: bool,
    pub finished: bool,
}

/// `sprite` is a still picture of the texture `name`: a single frame that
/// neither moves nor ends.
pub open spec fn is_still_sprite(sprite: AnimatedSprite, name: Seq<char>, still: Still) -> bool {
    &&& sprite.texture_id@ == name
    &&& sprite.frame_width == still.frame_width
    &&& sprite.frame_height == still.frame_height
    &&& sprite.total_frames == 1
    &&& sprite.current_frame == 0
    &&& sprite.frame_time == Some(9_999_000_000u64)
    &&& sprite.time_accumulator == 0
    &&& sprite.position == still.position
    &&& sprite.inanimate
    &&& sprite.strata == still.strata
    &&& sprite.desired_width == Some(still.desired_width)
    &&& sprite.desired_height == Some(still.desired_height)
    &&& sprite.play_once == still.play_once
    &&& sprite.finished == still.finished
    &&& sprite.velocity == (0i32, 0i32)
    &&& sprite.lifetime is None
    &&& sprite.associated_g_entity is None
}

/// A still picture of the texture `name`.
pub fn still_sprite(name: &str, still: Still) -> (sprite: AnimatedSprite)
    ensures
        is_still_sprite(sprite, name@, still),
{
    AnimatedSprite {
        texture_id: String::from_str(name),
        frame_width: still.frame_width,
        frame_height: still.frame_height,
        total_frames: 1,
        current_frame: 0,
        frame_time: Some(9_999_000_000),
        time_accumulator: 0,
        position: still.position,
        inanimate: true,
        strata: still.strata,
        desired_width: Some(still.desired_width),
        desired_height: Some(still.desired_height),
        play_once: still.play_once,
        finished: still.finished,
        velocity: (0, 0),
        lifetime: None,
        associated_g_entity: None,
    }
}

impl EntityManager {
    /// `post` is this store with a framed region added: a new entity tagged
    /// `tag` whose first rectangle is the frame.
    pub open spec fn region_added(&self, post: Self, tag: Seq<char>, region: Region) -> bool {
        let id = self.entity_id_counter;
        exists|a: Self, b: Self|
            {
                &&& #[trigger] self.entity_added(a, id, tag)
                &&& #[trigger] a.rect_added(b, id)
                &&& b.rect_set(post, id, Which::First, region_rect(b.rectangles@[id]@[0], region))
            }
    }

    /// Adds a framed region and returns its entity.
    pub fn add_region(&mut self, tag: String, region: Region) -> (id: u32)
        requires
            old(self).entity_id_counter < u32::MAX,
            old(self).property_id_counter < u32::MAX,
        ensures
            id == old(self).entity_id_counter,
            old(self).region_added(*final(self), tag@, region),
            final(self).entity_id_counter == old(self).entity_id_counter + 1,
            final(self).property_id_counter == old(self).property_id_counter + 1,
    {
        let id = self.add_entity(Some(tag));
        let ghost a = *self;
        self.add_rect(id);
        let ghost b = *self;
        self.frame_region(id, Which::First, region);
        assert(old(self).entity_added(a, id, tag@) && a.rect_added(b, id));
        id
    }

    /// `post` is this store after the click target of `id` was bound to the
    /// rectangle `rect_id` and given its action. No click target changes
    /// where there is no rectangle to bind to or `id` has no click target.
    pub open spec fn click_bound(&self, post: Self, id: u32, action: ClickAction, rect_id: Option<u32>) -> bool {
        &&& post.clickables@ == if rect_id is Some && self.clickables@.contains_key(id) {
            self.clickables@.insert(
                id,
                PClickable {
                    clickable: true,
                    action,
                    rect_reference_id: rect_id,
                    ..self.clickables@[id]
                },
            )
        } else {
            self.clickables@
        }
        &&& post == (EntityManager { clickables: post.clickables, ..*self })
    }

    /// Binds the click target of `id` to a rectangle and gives it its action.
    pub fn bind_click(&mut self, id: u32, action: ClickAction, rect_id: Option<u32>)
        ensures
            old(self).click_bound(*final(self), id, action, rect_id),
    {
        if rect_id.is_some() {
            match table_get_mut(&mut self.clickables, id) {
                Some(clickable) => {
                    clickable.clickable = true;
                    clickable.action = action;
                    clickable.rect_reference_id = rect_id;
                },
                None => {},
            }
        }
    }

    /// `post` is this store after the health bar of `id` was given its place
    /// and bound to a game entity. No health bar changes where `id` has none.
    pub open spec fn healthbar_bound(&self, post: Self, id: u32, area: Area, gem_entity: u32) -> bool {
        &&& post.healthbars@ == if self.healthbars@.contains_key(id) {
            self.healthbars@.insert(id, bound_healthbar(self.healthbars@[id], area, gem_entity))
        } else {
            self.healthbars@
        }
        &&& post == (EntityManager { healthbars: post.healthbars, ..*self })
    }

    /// Gives the health bar of `id` its place and binds it to a game entity.
    pub fn bind_healthbar(&mut self, id: u32, area: Area, gem_entity: u32)
        ensures
            old(self).healthbar_bound(*final(self), id, area, gem_entity),
    {
        match table_get_mut(&mut self.healthbars, id) {
            Some(hb) => {
                hb.x = area.x;
                hb.y = area.y;
                hb.width = area.width;
                hb.height = area.height;
                hb.draw = true;
                hb.strata = 30;
                hb.base_colors = ColorPair { fill: (64, 64, 64), outline: Some((0, 0, 0)) };
                hb.inner_colors = ColorPair { fill: (255, 100, 100), outline: Some((0, 0, 0)) };
                hb.gem_entity_id = Some(gem_entity);
            },
            None => {},
        }
    }

    /// `post` is this store after the cast bar of `id` was given its place.
    /// No cast bar changes where `id` has none.
    pub open spec fn castbar_placed(&self, post: Self, id: u32, area: Area) -> bool {
        &&& if self.castbars@.contains_key(id) {
            &&& post.castbars@ == self.castbars@.insert(id, post.castbars@[id])
            &&& is_placed_castbar(post.castbars@[id], self.castbars@[id], area)
        } else {
            post.castbars@ == self.castbars@
        }
        &&& post == (EntityManager { castbars: post.castbars, ..*self })
    }

    /// Gives the cast bar of `id` its place.
    pub fn place_castbar(&mut self, id: u32, area: Area)
        ensures
            old(self).castbar_placed(*final(self), id, area),
    {
        match table_get_mut(&mut self.castbars, id) {
            Some(cb) => {
                cb.x = area.x;
                cb.y = area.y;
                cb.width = area.width;
                cb.height = area.height;
                cb.cast_progress = 800;
                cb.draw = true;
                cb.strata = 30;
                cb.base_colors = ColorPair { fill: (64, 64, 64), outline: Some((0, 0, 0)) };
                cb.inner_colors = ColorPair { fill: (100, 100, 255), outline: Some((0, 0, 0)) };
                cb.icon_name = String::from_str("miasma");
            },
            None => {},
        }
    }

    /// `post` is this store after the button `id` was given its looks: its
    /// last rectangle is the button's, its last text is labelled, its tooltip
    /// covers the button, and its click target is bound to the rectangle.
    pub open spec fn button_configured(
        &self,
        post: Self,
        id: u32,
        frame: ButtonFrame,
        label: Option<Seq<char>>,
        look: TextLook,
        header: Seq<char>,
        body: Seq<char>,
        action: ClickAction,
    ) -> bool {
        exists|a: Self, b: Self, c: Self|
            {
                &&& #[trigger] self.rect_set(
                    a,
                    id,
                    Which::Last,
                    button_rect(self.rectangles@[id]@.last(), frame),
                )
                &&& #[trigger] a.text_styled(b, id, Which::Last, label, look)
                &&& #[trigger] b.tooltip_styled(c, id, header, body, frame.area, None)
                &&& c.click_bound(
                    post,
                    id,
                    action,
                    if self.has_rect(id) {
                        Some(self.rectangles@[id]@.last().id)
                    } else {
                        None
                    },
                )
            }
    }

    /// Gives the button `id` its looks.
    pub fn configure_button(
        &mut self,
        id: u32,
        frame: ButtonFrame,
        label: Option<String>,
        look: TextLook,
        header: String,
        body: String,
        action: ClickAction,
    )
        ensures
            old(self).button_configured(
                *final(self),
                id,
                frame,
                match label {
                    Some(l) => Some(l@),
                    None => None,
                },
                look,
                header@,
                body@,
                action,
            ),
            final(self).entity_id_counter == old(self).entity_id_counter,
            final(self).property_id_counter == old(self).property_id_counter,
            final(self).ids == old(self).ids,
    {
        let rect_id = self.frame_button(id, Which::Last, frame);
        let ghost a = *self;
        self.style_text(id, Which::Last, label, look);
        let ghost b = *self;
        self.style_tooltip(id, header, body, frame.area, None);
        let ghost c = *self;
        self.bind_click(id, action, rect_id);
        assert(old(self).rect_set(
            a,
            id,
            Which::Last,
            button_rect(old(self).rectangles@[id]@.last(), frame),
        ) && a.text_styled(
            b,
            id,
            Which::Last,
            match label {
                Some(l) => Some(l@),
                None => None,
            },
            look,
        ) && b.tooltip_styled(c, id, header@, body@, frame.area, None));
    }

    /// Whether `id` carries a rectangle.
    pub open spec fn has_rect(&self, id: u32) -> bool {
        self.rectangles@.contains_key(id) && self.rectangles@[id]@.len() > 0
    }

    /// Whether `id` carries a text.
    pub open spec fn has_text(&self, id: u32) -> bool {
        self.texts@.contains_key(id) && self.texts@[id]@.len() > 0
    }

    /// `post` is this store after one rectangle of `id` was replaced by
    /// `rect`. No rectangle changes where `id` carries none.
    pub open spec fn rect_set(&self, post: Self, id: u32, which: Which, rect: PRect) -> bool {
        let rects = self.rectangles@[id]@;
        &&& if self.has_rect(id) {
            &&& post.rectangles@ == self.rectangles@.insert(id, post.rectangles@[id])
            &&& post.rectangles@[id]@ == rects.update(position_of(which, rects.len()), rect)
        } else {
            post.rectangles@ == self.rectangles@
        }
        &&& post == (EntityManager { rectangles: post.rectangles, ..*self })
    }

    /// `post` is this store after one text of `id` was given a look and,
    /// where `content` holds one, a new wording. No text changes where `id`
    /// carries none.
    pub open spec fn text_styled(
        &self,
        post: Self,
        id: u32,
        which: Which,
        content: Option<Seq<char>>,
        look: TextLook,
    ) -> bool {
        let texts = self.texts@[id]@;
        let at = position_of(which, texts.len());
        &&& if self.has_text(id) {
            &&& post.texts@ == self.texts@.insert(id, post.texts@[id])
            &&& post.texts@[id]@.len() == texts.len()
            &&& is_styled_text(post.texts@[id]@[at], texts[at], content, look)
            &&& forall|k: int| 0 <= k < texts.len() && k != at ==> post.texts@[id]@[k] == texts[k]
        } else {
            post.texts@ == self.texts@
        }
        &&& post == (EntityManager { texts: post.texts, ..*self })
    }

    /// `post` is this store after the tooltip of `id` was given its wording,
    /// its area and its icon. No tooltip changes where `id` carries none.
    pub open spec fn tooltip_styled(
        &self,
        post: Self,
        id: u32,
        header: Seq<char>,
        body: Seq<char>,
        area: Area,
        icon: Option<Seq<char>>,
    ) -> bool {
        &&& if self.tooltip_data@.contains_key(id) {
            &&& post.tooltip_data@ == self.tooltip_data@.insert(id, post.tooltip_data@[id])
            &&& is_styled_tooltip(
                post.tooltip_data@[id],
                self.tooltip_data@[id],
                header,
                body,
                area,
                icon,
            )
        } else {
            post.tooltip_data@ == self.tooltip_data@
        }
        &&& post == (EntityManager { tooltip_data: post.tooltip_data, ..*self })
    }

    /// Makes one rectangle of `id` a framed region.
    pub fn frame_region(&mut self, id: u32, which: Which, region: Region)
        ensures
            old(self).rect_set(
                *final(self),
                id,
                which,
                region_rect(
                    old(self).rectangles@[id]@[position_of(which, old(self).rectangles@[id]@.len())],
                    region,
                ),
            ),
    {
        match table_get_mut(&mut self.rectangles, id) {
            Some(rects) => if rects.len() > 0 {
                let at = match which {
                    Which::First => 0,
                    Which::Last => rects.len() - 1,
                };
                let rect = &mut rects[at];
                rect.x = region.area.x;
                rect.y = region.area.y;
                rect.width = region.area.width;
                rect.height = region.area.height;
                rect.colors = ColorPair { fill: region.fill, outline: Some((0, 0, 0)) };
                rect.draw = true;
                rect.strata = region.strata;
            },
            None => {},
        }
        proof {
            if old(self).has_rect(id) {
                assert(self.rectangles@[id]@ =~= old(self).rectangles@[id]@.update(
                    position_of(which, old(self).rectangles@[id]@.len()),
                    region_rect(
                        old(self).rectangles@[id]@[position_of(
                            which,
                            old(self).rectangles@[id]@.len(),
                        )],
                        region,
                    ),
                ));
            } else {
                assert(self.rectangles@ =~= old(self).rectangles@);
            }
        }
    }

    /// Makes one rectangle of `id` the rectangle of a button, and returns its id.
    pub fn frame_button(&mut self, id: u32, which: Which, frame: ButtonFrame) -> (rect_id: Option<u32>)
        ensures
            old(self).rect_set(
                *final(self),
                id,
                which,
                button_rect(
                    old(self).rectangles@[id]@[position_of(which, old(self).rectangles@[id]@.len())],
                    frame,
                ),
            ),
            rect_id == if old(self).has_rect(id) {
                Some(
                    old(self).rectangles@[id]@[position_of(which, old(self).rectangles@[id]@.len())].id,
                )
            } else {
                None
            },
    {
        let mut rect_id: Option<u32> = None;
        match table_get_mut(&mut self.rectangles, id) {
            Some(rects) => if rects.len() > 0 {
                let at = match which {
                    Which::First => 0,
                    Which::Last => rects.len() - 1,
                };
                let rect = &mut rects[at];
                rect.x = frame.area.x;
                rect.y = frame.area.y;
                rect.width = frame.area.width;
                rect.height = frame.area.height;
                rect.colors = frame.colors;
                rect.pressed_color = Some(frame.pressed_color);
                rect.hovered_color = Some(frame.hovered_color);
                rect.draw = true;
                rect.hovered = Some(false);
                rect.strata = 10;
                rect_id = Some(rect.id);
            },
            None => {},
        }
        proof {
            if old(self).has_rect(id) {
                assert(self.rectangles@[id]@ =~= old(self).rectangles@[id]@.update(
                    position_of(which, old(self).rectangles@[id]@.len()),
                    button_rect(
                        old(self).rectangles@[id]@[position_of(
                            which,
                            old(self).rectangles@[id]@.len(),
                        )],
                        frame,
                    ),
                ));
            } else {
                assert(self.rectangles@ =~= old(self).rectangles@);
            }
        }
        rect_id
    }

    /// Gives one text of `id` a look and, where `content` holds one, a new wording.
    pub fn style_text(&mut self, id: u32, which: Which, content: Option<String>, look: TextLook)
        ensures
            old(self).text_styled(
                *final(self),
                id,
                which,
                match content {
                    Some(c) => Some(c@),
                    None => None,
                },
                look,
            ),
    {
        match table_get_mut(&mut self.texts, id) {
            Some(texts) => if texts.len() > 0 {
                let at = match which {
                    Which::First => 0,
                    Which::Last => texts.len() - 1,
                };
                let text = &mut texts[at];
                match content {
                    Some(c) => {
                        text.text = c;
                    },
                    None => {},
                }
                text.x = look.x;
                text.y = look.y;
                text.scale = look.scale;
                text.colors = look.colors;
                text.draw = true;
                text.strata = look.strata;
            },
            None => {},
        }
        proof {
            if !old(self).has_text(id) {
                assert(self.texts@ =~= old(self).texts@);
            }
        }
    }

    /// Gives the tooltip of `id` its wording, its area and its icon.
    pub fn style_tooltip(
        &mut self,
        id: u32,
        header: String,
        body: String,
        area: Area,
        icon: Option<String>,
    )
        ensures
            old(self).tooltip_styled(
                *final(self),
                id,
                header@,
                body@,
                area,
                match icon {
                    Some(name) => Some(name@),
                    None => None,
                },
            ),
    {
        match table_get_mut(&mut self.tooltip_data, id) {
            Some(tt) => {
                tt.header = header;
                tt.body = body;
                tt.x = area.x;
                tt.y = area.y;
                tt.width = area.width;
                tt.height = area.height;
                tt.icon = icon;
            },
            None => {},
        }
    }
}

} // verus!
