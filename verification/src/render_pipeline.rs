//! What the renderer reads off the game: the draw list in drawing order, the
//! colors of a rectangle in its present state, and how full the bars are.

use crate::construct_game::texture_entity;
use crate::entities::EntityManager;
use crate::g_properties::{get_spell_data, in_catalog, spell_colors, GPAction, GPLevel};
use crate::game::{scale_for, ui_scale, Game};
use crate::properties::{PHealthbar, PRect, PText, PTooltipData};
use crate::tables::{ascending_ids, ids_where, lemma_ids_where_step, sorted_keys};
use vstd::prelude::*;

verus! {

/// Something to draw.
#[derive(Debug, Clone)]
pub enum DrawableItem {
    Rect(PRect),
    Text(PText),
    Healthbar(PHealthbar),
}

impl PText {
    /// A copy with equal wording and equal numbers.
    pub fn duplicate(&self) -> (copy: PText)
        ensures
            copy == *self,
    {
        PText {
            id: self.id,
            text: self.text.clone(),
            scale: self.scale,
            x: self.x,
            y: self.y,
            colors: self.colors,
            draw: self.draw,
            strata: self.strata,
            lifetime_ms: self.lifetime_ms,
        }
    }
}

impl DrawableItem {
    /// A copy of the item.
    pub fn duplicate(&self) -> (copy: DrawableItem)
        ensures
            copy == *self,
    {
        match self {
            DrawableItem::Rect(r) => DrawableItem::Rect(*r),
            DrawableItem::Text(t) => DrawableItem::Text(t.duplicate()),
            DrawableItem::Healthbar(h) => DrawableItem::Healthbar(*h),
        }
    }
}

/// The rectangles of one entity that are to be drawn, each with its stratum.
pub open spec fn rect_items(rects: Seq<PRect>) -> Seq<(u8, DrawableItem)>
    decreases rects.len(),
{
    if rects.len() == 0 {
        Seq::empty()
    } else if rects.last().draw {
        rect_items(rects.drop_last()).push((rects.last().strata, DrawableItem::Rect(rects.last())))
    } else {
        rect_items(rects.drop_last())
    }
}

/// The texts of one entity that are to be drawn, each with its stratum.
pub open spec fn text_items(texts: Seq<PText>) -> Seq<(u8, DrawableItem)>
    decreases texts.len(),
{
    if texts.len() == 0 {
        Seq::empty()
    } else if texts.last().draw {
        text_items(texts.drop_last()).push((texts.last().strata, DrawableItem::Text(texts.last())))
    } else {
        text_items(texts.drop_last())
    }
}

/// The rectangles of the given entities that are to be drawn, entity by entity.
pub open spec fn all_rect_items(table: Map<u32, Vec<PRect>>, ids: Seq<u32>) -> Seq<(u8, DrawableItem)>
    decreases ids.len(),
{
    if ids.len() == 0 {
        Seq::empty()
    } else {
        all_rect_items(table, ids.drop_last()) + rect_items(table[ids.last()]@)
    }
}

/// The texts of the given entities that are to be drawn, entity by entity.
pub open spec fn all_text_items(table: Map<u32, Vec<PText>>, ids: Seq<u32>) -> Seq<(u8, DrawableItem)>
    decreases ids.len(),
{
    if ids.len() == 0 {
        Seq::empty()
    } else {
        all_text_items(table, ids.drop_last()) + text_items(table[ids.last()]@)
    }
}

/// The health bars of the given entities that are to be drawn.
pub open spec fn all_healthbar_items(
    table: Map<u32, PHealthbar>,
    ids: Seq<u32>,
) -> Seq<(u8, DrawableItem)>
    decreases ids.len(),
{
    if ids.len() == 0 {
        Seq::empty()
    } else if table[ids.last()].draw {
        all_healthbar_items(table, ids.drop_last()).push(
            (table[ids.last()].strata, DrawableItem::Healthbar(table[ids.last()])),
        )
    } else {
        all_healthbar_items(table, ids.drop_last())
    }
}

/// The items of `items` that lie in stratum `s`, in the order of `items`.
pub open spec fn in_stratum(items: Seq<(u8, DrawableItem)>, s: u8) -> Seq<(u8, DrawableItem)>
    decreases items.len(),
{
    if items.len() == 0 {
        Seq::empty()
    } else if items.last().0 == s {
        in_stratum(items.drop_last(), s).push(items.last())
    } else {
        in_stratum(items.drop_last(), s)
    }
}

/// The items of `items` that lie in the strata below `bound`, lowest stratum
/// first, and within a stratum in the order of `items`.
pub open spec fn below_stratum(items: Seq<(u8, DrawableItem)>, bound: nat) -> Seq<(u8, DrawableItem)>
    decreases bound,
{
    if bound == 0 {
        Seq::empty()
    } else {
        below_stratum(items, (bound - 1) as nat) + in_stratum(items, (bound - 1) as u8)
    }
}

/// `items` in drawing order: lowest stratum first, and within a stratum in
/// the order in which they were collected.
pub open spec fn by_strata(items: Seq<(u8, DrawableItem)>) -> Seq<(u8, DrawableItem)> {
    below_stratum(items, 256)
}

/// Everything of the store that is to be drawn, as collected: the
/// rectangles, then the texts, then the health bars, each kind in ascending
/// order of the entities' ids.
pub open spec fn collected(em: EntityManager) -> Seq<(u8, DrawableItem)> {
    all_rect_items(em.rectangles@, ascending_ids(em.rectangles@.dom())) + all_text_items(
        em.texts@,
        ascending_ids(em.texts@.dom()),
    ) + all_healthbar_items(em.healthbars@, ascending_ids(em.healthbars@.dom()))
}

/// The fill and the outline in which a rectangle shows in its present state:
/// those of a press while it is pressed, else those of hovering while the
/// pointer is on it, else its own. A state without colors of its own shows
/// in the rectangle's own.
pub open spec fn shown_colors(rect: PRect) -> ((u8, u8, u8), Option<(u8, u8, u8)>) {
    if rect.pressed == Some(true) {
        match rect.pressed_color {
            Some(pc) => (pc.fill, pc.outline),
            None => (rect.colors.fill, rect.colors.outline),
        }
    } else if rect.hovered == Some(true) {
        match rect.hovered_color {
            Some(hc) => (hc.fill, hc.outline),
            None => (rect.colors.fill, rect.colors.outline),
        }
    } else {
        (rect.colors.fill, rect.colors.outline)
    }
}

/// Computes `shown_colors`.
pub fn rect_colors(rect: &PRect) -> (colors: ((u8, u8, u8), Option<(u8, u8, u8)>))
    ensures
        colors == shown_colors(*rect),
{
    let pressed = match rect.pressed {
        Some(p) => p,
        None => false,
    };
    let hovered = match rect.hovered {
        Some(h) => h,
        None => false,
    };
    if pressed {
        match rect.pressed_color {
            Some(pc) => (pc.fill, pc.outline),
            None => (rect.colors.fill, rect.colors.outline),
        }
    } else if hovered {
        match rect.hovered_color {
            Some(hc) => (hc.fill, hc.outline),
            None => (rect.colors.fill, rect.colors.outline),
        }
    } else {
        (rect.colors.fill, rect.colors.outline)
    }
}

/// How far a bar is filled: `part` out of `whole`, where `whole` is not zero.
#[derive(Debug, Clone, Copy, PartialEq, Eq)]
pub struct Fill {
    pub part: u32,
    pub whole: u32,
}

/// What the cast bar shows of the cast in progress.
#[derive(Debug, PartialEq, Eq)]
pub struct CastReading {
    /// How much of the cast is done.
    pub progress: Fill,
    /// The color of the filled part.
    pub fill: (u8, u8, u8),
    /// Names the texture of the icon beside the bar.
    pub icon: String,
}

/// How far an action has come: the time it has used, out of the time it takes.
pub open spec fn action_progress(a: GPAction) -> Fill {
    let whole = if a.time_action_takes == 0 {
        1u32
    } else {
        a.time_action_takes
    };
    let left = if a.time_remaining < a.time_action_takes {
        a.time_remaining
    } else {
        a.time_action_takes
    };
    Fill { part: (whole - left) as u32, whole }
}

/// The width of the experience bar in units of the layout, out of 502: the
/// bar is as many times narrower as the experience to the next level is the
/// experience at hand, in whole times. There is no bar without experience,
/// nor once the experience at hand exceeds what the next level takes.
pub open spec fn xp_width(level: GPLevel) -> Option<u32> {
    if level.curr_xp == 0 || level.next_level_xp / level.curr_xp == 0 {
        None
    } else {
        Some((502u32 / (level.next_level_xp / level.curr_xp)) as u32)
    }
}

/// Holds of the entities whose tooltip area the point lies in.
pub open spec fn shows_tooltip(tooltips: Map<u32, PTooltipData>, mx: u32, my: u32) -> spec_fn(u32) -> bool {
    |id: u32|
        tooltips.contains_key(id) && tooltips[id].x <= mx <= tooltips[id].x + tooltips[id].width
            && tooltips[id].y <= my <= tooltips[id].y + tooltips[id].height
}

impl Game {
    /// How full a health bar is drawn. A bar that is bound to no game entity
    /// with stats is drawn full.
    pub open spec fn health_fill(self, healthbar: PHealthbar) -> Fill {
        match healthbar.gem_entity_id {
            Some(id) => if self.gem.stats@.contains_key(id) {
                Fill {
                    part: self.gem.stats@[id].health_curr,
                    whole: if self.gem.stats@[id].health_max == 0 {
                        1
                    } else {
                        self.gem.stats@[id].health_max
                    },
                }
            } else {
                Fill { part: 1, whole: 1 }
            },
            None => Fill { part: 1, whole: 1 },
        }
    }

    /// The action that the cast bar shows: the front of the player's queue,
    /// while it has time left and names a spell of the catalog.
    pub open spec fn shown_cast(self) -> Option<GPAction> {
        match self.gem.player_id {
            Some(player) => if self.gem.actionqueue@.contains_key(player)
                && self.gem.actionqueue@[player].queue@.len() > 0 {
                let front = self.gem.actionqueue@[player].queue@[0];
                if front.time_remaining > 0 && front.spell is Some && in_catalog(front.spell->0) {
                    Some(front)
                } else {
                    None
                }
            } else {
                None
            },
            None => None,
        }
    }

    /// The tooltips that the pointer is on, in ascending order of their entities' ids.
    pub open spec fn tooltips_under_pointer(self) -> Seq<u32> {
        ids_where(
            ascending_ids(self.em.tooltip_data@.dom()),
            shows_tooltip(self.em.tooltip_data@, self.pointer().0, self.pointer().1),
        )
    }

    /// Whether the sprite with the given texture is drawn alive. It is drawn
    /// dead only where its texture depicts a game entity that is known to be dead.
    pub open spec fn drawn_alive(self, texture: Seq<char>) -> bool {
        match texture_entity(self.gem.texture_to_entity@, texture) {
            Some(id) => if self.gem.mortalities@.contains_key(id) {
                self.gem.mortalities@[id].is_alive
            } else {
                true
            },
            None => true,
        }
    }

    /// How full to draw a health bar.
    pub fn healthbar_fill(&self, healthbar: &PHealthbar) -> (fill: Fill)
        ensures
            fill == self.health_fill(*healthbar),
            fill.whole > 0,
    {
        broadcast use vstd::std_specs::hash::group_hash_axioms;

        match healthbar.gem_entity_id {
            Some(id) => match self.gem.stats.get(&id) {
                Some(stats) => Fill {
                    part: stats.health_curr,
                    whole: if stats.health_max == 0 {
                        1
                    } else {
                        stats.health_max
                    },
                },
                None => Fill { part: 1, whole: 1 },
            },
            None => Fill { part: 1, whole: 1 },
        }
    }

    /// What the cast bar shows, while there is a cast to show.
    pub fn cast_reading(&self) -> (reading: Option<CastReading>)
        ensures
            match self.shown_cast() {
                Some(front) => {
                    &&& reading matches Some(r)
                    &&& r.progress == action_progress(front)
                    &&& r.progress.part <= r.progress.whole
                    &&& r.progress.whole > 0
                    &&& r.fill == spell_colors(front.spell->0).fill
                    &&& r.icon@ == front.action_tag@
                },
                None => reading is None,
            },
    {
        broadcast use vstd::std_specs::hash::group_hash_axioms;

        let player = match self.gem.player_id {
            Some(p) => p,
            None => {
                return None;
            },
        };
        let queue = match self.gem.actionqueue.get(&player) {
            Some(q) => q,
            None => {
                return None;
            },
        };
        if queue.queue.len() == 0 {
            return None;
        }
        let front = &queue.queue[0];
        if front.time_remaining == 0 {
            return None;
        }
        let spell = match front.spell {
            Some(sp) => sp,
            None => {
                return None;
            },
        };
        let data = match get_spell_data(spell) {
            Some(d) => d,
            None => {
                return None;
            },
        };
        let whole = if front.time_action_takes == 0 {
            1
        } else {
            front.time_action_takes
        };
        let left = if front.time_remaining < front.time_action_takes {
            front.time_remaining
        } else {
            front.time_action_takes
        };
        Some(
            CastReading {
                progress: Fill { part: whole - left, whole },
                fill: data.colors.fill,
                icon: front.action_tag.clone(),
            },
        )
    }

    /// The level of the player and the width of the experience bar on the
    /// window, while the player has a level and a bar to show.
    pub fn xp_reading(&self) -> (reading: Option<(u32, u32)>)
        ensures
            reading == match self.gem.player_id {
                Some(player) => if self.gem.levels@.contains_key(player) {
                    match xp_width(self.gem.levels@[player]) {
                        Some(w) => Some(
                            (
                                self.gem.levels@[player].curr_level,
                                (w * ui_scale(self.window_width, self.window_height)) as u32,
                            ),
                        ),
                        None => None,
                    }
                } else {
                    None
                },
                None => None,
            },
    {
        broadcast use vstd::std_specs::hash::group_hash_axioms;

        let scale = scale_for(self.window_width, self.window_height);
        let player = match self.gem.player_id {
            Some(p) => p,
            None => {
                return None;
            },
        };
        let level = match self.gem.levels.get(&player) {
            Some(l) => l,
            None => {
                return None;
            },
        };
        if level.curr_xp == 0 {
            return None;
        }
        let inner_width_coef = level.next_level_xp / level.curr_xp;
        if inner_width_coef == 0 {
            return None;
        }
        let width: u32 = 502 / inner_width_coef;
        assert(width <= 502) by (nonlinear_arith)
            requires
                width == 502int / inner_width_coef as int,
                inner_width_coef >= 1,
        ;
        assert(width * scale <= 502 * 2236962) by (nonlinear_arith)
            requires
                width <= 502,
                scale <= 2236962,
        ;
        Some((level.curr_level, width * scale))
    }

    /// The entities whose tooltip the pointer is on, in ascending order of id.
    pub fn hovered_tooltips(&self) -> (ids: Vec<u32>)
        ensures
            ids@ == self.tooltips_under_pointer(),
    {
        broadcast use vstd::std_specs::hash::group_hash_axioms;

        let mx = self.user_input_cache[0];
        let my = self.user_input_cache[1];
        let all = sorted_keys(&self.em.tooltip_data);
        let ghost p = shows_tooltip(self.em.tooltip_data@, mx, my);
        let mut ids: Vec<u32> = Vec::new();
        let mut i: usize = 0;
        while i < all.len()
            invariant
                i <= all@.len(),
                all@ == ascending_ids(self.em.tooltip_data@.dom()),
                p == shows_tooltip(self.em.tooltip_data@, mx, my),
                ids@ == ids_where(all@.take(i as int), p),
            decreases all@.len() - i,
        {
            let id = all[i];
            proof {
                lemma_ids_where_step(all@, p, i as int);
            }
            match self.em.tooltip_data.get(&id) {
                Some(data) => {
                    if mx >= data.x && mx as u64 <= data.x as u64 + data.width as u64 && my >= data.y
                        && my as u64 <= data.y as u64 + data.height as u64 {
                        ids.push(id);
                    }
                },
                None => {},
            }
            i += 1;
        }
        assert(all@.take(i as int) =~= all@);
        ids
    }

    /// Whether the sprite with the given texture is drawn alive.
    pub fn sprite_is_alive(&self, texture_id: &str) -> (alive: bool)
        ensures
            alive == self.drawn_alive(texture_id@),
    {
        broadcast use vstd::std_specs::hash::group_hash_axioms;

        match self.gem.entity_for_texture(texture_id) {
            Some(id) => match self.gem.mortalities.get(&id) {
                Some(m) => m.is_alive,
                None => true,
            },
            None => true,
        }
    }

    /// Everything that is to be drawn, in drawing order: lowest stratum
    /// first, and within a stratum rectangles before texts before health
    /// bars, each kind in ascending order of the entities' ids.
    pub fn render_construct_draw_list(&self) -> (draw_list: Vec<(u8, DrawableItem)>)
        ensures
            draw_list@ == by_strata(collected(self.em)),
    {
        let items = collect_items(&self.em);
        sort_by_strata(&items)
    }
}

/// Collects what is to be drawn.
fn collect_items(em: &EntityManager) -> (items: Vec<(u8, DrawableItem)>)
    ensures
        items@ == collected(*em),
{
    broadcast use vstd::std_specs::hash::group_hash_axioms;

    let mut items: Vec<(u8, DrawableItem)> = Vec::new();
    let rect_ids = sorted_keys(&em.rectangles);
    let mut i: usize = 0;
    while i < rect_ids.len()
        invariant
            i <= rect_ids@.len(),
            rect_ids@ == ascending_ids(em.rectangles@.dom()),
            items@ == all_rect_items(em.rectangles@, rect_ids@.take(i as int)),
        decreases rect_ids@.len() - i,
    {
        let ghost before = items@;
        assert(rect_ids@.take(i + 1).drop_last() =~= rect_ids@.take(i as int));
        match em.rectangles.get(&rect_ids[i]) {
            Some(rects) => {
                let mut k: usize = 0;
                while k < rects.len()
                    invariant
                        k <= rects@.len(),
                        items@ == before + rect_items(rects@.take(k as int)),
                    decreases rects@.len() - k,
                {
                    assert(rects@.take(k + 1).drop_last() =~= rects@.take(k as int));
                    if rects[k].draw {
                        items.push((rects[k].strata, DrawableItem::Rect(rects[k])));
                    }
                    k += 1;
                }
                assert(rects@.take(k as int) =~= rects@);
            },
            None => {
                proof {
                    crate::tables::lemma_ascending_ids(em.rectangles@.dom());
                    assert(rect_ids@.contains(rect_ids@[i as int]));
                }
            },
        }
        i += 1;
    }
    assert(rect_ids@.take(i as int) =~= rect_ids@);
    let ghost rects_done = items@;

    let text_ids = sorted_keys(&em.texts);
    let mut i: usize = 0;
    while i < text_ids.len()
        invariant
            i <= text_ids@.len(),
            text_ids@ == ascending_ids(em.texts@.dom()),
            items@ == rects_done + all_text_items(em.texts@, text_ids@.take(i as int)),
        decreases text_ids@.len() - i,
    {
        let ghost before = items@;
        let ghost texts_before = all_text_items(em.texts@, text_ids@.take(i as int));
        assert(text_ids@.take(i + 1).drop_last() =~= text_ids@.take(i as int));
        match em.texts.get(&text_ids[i]) {
            Some(texts) => {
                let mut k: usize = 0;
                while k < texts.len()
                    invariant
                        k <= texts@.len(),
                        items@ == before + text_items(texts@.take(k as int)),
                    decreases texts@.len() - k,
                {
                    assert(texts@.take(k + 1).drop_last() =~= texts@.take(k as int));
                    if texts[k].draw {
                        items.push((texts[k].strata, DrawableItem::Text(texts[k].duplicate())));
                    }
                    k += 1;
                }
                assert(texts@.take(k as int) =~= texts@);
                assert(items@ =~= rects_done + (texts_before + text_items(texts@)));
            },
            None => {
                proof {
                    crate::tables::lemma_ascending_ids(em.texts@.dom());
                    assert(text_ids@.contains(text_ids@[i as int]));
                }
            },
        }
        i += 1;
    }
    assert(text_ids@.take(i as int) =~= text_ids@);
    let ghost texts_done = items@;

    let bar_ids = sorted_keys(&em.healthbars);
    let mut i: usize = 0;
    while i < bar_ids.len()
        invariant
            i <= bar_ids@.len(),
            bar_ids@ == ascending_ids(em.healthbars@.dom()),
            items@ == texts_done + all_healthbar_items(em.healthbars@, bar_ids@.take(i as int)),
        decreases bar_ids@.len() - i,
    {
        assert(bar_ids@.take(i + 1).drop_last() =~= bar_ids@.take(i as int));
        match em.healthbars.get(&bar_ids[i]) {
            Some(bar) => {
                if bar.draw {
                    items.push((bar.strata, DrawableItem::Healthbar(*bar)));
                }
            },
            None => {
                proof {
                    crate::tables::lemma_ascending_ids(em.healthbars@.dom());
                    assert(bar_ids@.contains(bar_ids@[i as int]));
                }
            },
        }
        i += 1;
    }
    assert(bar_ids@.take(i as int) =~= bar_ids@);
    items
}

/// Puts the items in drawing order.
fn sort_by_strata(items: &Vec<(u8, DrawableItem)>) -> (sorted: Vec<(u8, DrawableItem)>)
    ensures
        sorted@ == by_strata(items@),
{
    let mut sorted: Vec<(u8, DrawableItem)> = Vec::new();
    let mut s: u16 = 0;
    while s < 256
        invariant
            s <= 256,
            sorted@ == below_stratum(items@, s as nat),
        decreases 256 - s,
    {
        let ghost before = sorted@;
        let stratum = s as u8;
        let mut k: usize = 0;
        while k < items.len()
            invariant
                k <= items@.len(),
                stratum == s,
                sorted@ == before + in_stratum(items@.take(k as int), stratum),
            decreases items@.len() - k,
        {
            assert(items@.take(k + 1).drop_last() =~= items@.take(k as int));
            if items[k].0 == stratum {
                sorted.push((items[k].0, items[k].1.duplicate()));
            }
            k += 1;
        }
        assert(items@.take(k as int) =~= items@);
        s += 1;
    }
    sorted
}

} // verus!
