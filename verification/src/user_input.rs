//! The pointer: where it is, whether its left button is down, and what that
//! means for the rectangles on screen.

use crate::entities::EntityManager;
use crate::game::Game;
use crate::properties::PRect;
use crate::tables::{
    ascending_ids, ids_where, lemma_ascending_ids, lemma_ids_where, lemma_ids_where_step,
    sorted_keys, table_get_mut,
};
use vstd::prelude::*;

verus! {

/// The slots of the input cache.
#[derive(Debug, Clone, Copy, PartialEq, Eq, Structural)]
pub enum InputSlot {
    MouseX,
    MouseY,
    /// One while the left button is down, zero while it is up.
    LMBCurr,
    /// What `LMBCurr` held at the end of the frame before.
    LMBPrev,
    Count,
}

impl InputSlot {
    /// The number of slots.
    pub fn count() -> (n: usize)
        ensures
            n == 4,
    {
        4
    }

    pub open spec fn spec_index(self) -> usize {
        match self {
            InputSlot::MouseX => 0,
            InputSlot::MouseY => 1,
            InputSlot::LMBCurr => 2,
            InputSlot::LMBPrev => 3,
            InputSlot::Count => 4,
        }
    }

    /// Where the slot stands in the cache. `Count` stands behind the last slot.
    #[verifier::when_used_as_spec(spec_index)]
    pub fn index(self) -> (at: usize)
        ensures
            at == self.spec_index(),
    {
        match self {
            InputSlot::MouseX => 0,
            InputSlot::MouseY => 1,
            InputSlot::LMBCurr => 2,
            InputSlot::LMBPrev => 3,
            InputSlot::Count => 4,
        }
    }
}

/// What the window reports of the user.
#[derive(Debug, Clone, Copy, PartialEq, Eq, Structural)]
pub enum InputEvent {
    /// The user asked to close the window.
    Closed,
    /// The pointer moved to this place, in window coordinates.
    MouseMoved { x: i32, y: i32 },
    LeftPressed,
    LeftReleased,
    /// Anything else.
    Other,
}

/// A window coordinate as the cache stores it: as it is where it is not
/// negative, and counted down from the top of `u32` where it is, which puts a
/// pointer left of or above the window out of reach of every rectangle.
pub open spec fn cached_coordinate(c: i32) -> u32 {
    if c >= 0 {
        c as u32
    } else {
        (0x1_0000_0000 + c) as u32
    }
}

/// Computes `cached_coordinate`.
pub fn cache_coordinate(c: i32) -> (cached: u32)
    ensures
        cached == cached_coordinate(c),
{
    if c >= 0 {
        c as u32
    } else {
        u32::MAX - ((-(c + 1)) as u32)
    }
}

/// The input cache after one event.
pub open spec fn cache_after(cache: Seq<u32>, event: InputEvent) -> Seq<u32> {
    match event {
        InputEvent::MouseMoved { x, y } => cache.update(0, cached_coordinate(x)).update(
            1,
            cached_coordinate(y),
        ),
        InputEvent::LeftPressed => cache.update(2, 1),
        InputEvent::LeftReleased => cache.update(2, 0),
        _ => cache,
    }
}

/// The input cache after a run of events.
pub open spec fn cache_after_all(cache: Seq<u32>, events: Seq<InputEvent>) -> Seq<u32>
    decreases events.len(),
{
    if events.len() == 0 {
        cache
    } else {
        cache_after(cache_after_all(cache, events.drop_last()), events.last())
    }
}

/// Whether a run of events asks to close the window.
pub open spec fn asks_to_close(events: Seq<InputEvent>) -> bool {
    exists|i: int| 0 <= i < events.len() && events[i] == InputEvent::Closed
}

/// Whether the point lies in the rectangle, its edges included.
pub open spec fn within(rect: PRect, mx: u32, my: u32) -> bool {
    &&& rect.x <= mx <= rect.x + rect.width
    &&& rect.y <= my <= rect.y + rect.height
}

/// Computes `within`.
pub fn is_within(rect: &PRect, mx: u32, my: u32) -> (inside: bool)
    ensures
        inside == within(*rect, mx, my),
{
    let within_x = mx >= rect.x && mx as u64 <= rect.x as u64 + rect.width as u64;
    let within_y = my >= rect.y && my as u64 <= rect.y as u64 + rect.height as u64;
    within_x && within_y
}

/// A rectangle after the pointer has been looked at: hovered where the
/// pointer is inside, and not known to be hovered otherwise.
pub open spec fn hover_after(rect: PRect, mx: u32, my: u32) -> PRect {
    PRect {
        hovered: if within(rect, mx, my) {
            Some(true)
        } else {
            None
        },
        ..rect
    }
}

/// A rectangle after the left button has come up: one that can show a press shows none.
pub open spec fn release_after(rect: PRect) -> PRect {
    PRect {
        pressed: if rect.pressed is Some {
            Some(false)
        } else {
            None
        },
        ..rect
    }
}

/// Marks every rectangle of the list that the pointer is in.
fn hover_rects(rects: &mut Vec<PRect>, mx: u32, my: u32)
    ensures
        final(rects)@.len() == old(rects)@.len(),
        forall|i: int|
            0 <= i < old(rects)@.len() ==> final(rects)@[i] == hover_after(
                #[trigger] old(rects)@[i],
                mx,
                my,
            ),
{
    let n = rects.len();
    let mut i: usize = 0;
    while i < n
        invariant
            i <= n,
            n == rects@.len(),
            n == old(rects)@.len(),
            forall|j: int| 0 <= j < i ==> rects@[j] == hover_after(#[trigger] old(rects)@[j], mx, my),
            forall|j: int| i <= j < n ==> rects@[j] == old(rects)@[j],
        decreases n - i,
    {
        let inside = is_within(&rects[i], mx, my);
        let rect = &mut rects[i];
        rect.hovered = if inside {
            Some(true)
        } else {
            None
        };
        i += 1;
    }
}

/// Lets go of every rectangle of the list that shows a press.
fn release_rects(rects: &mut Vec<PRect>)
    ensures
        final(rects)@.len() == old(rects)@.len(),
        forall|i: int|
            0 <= i < old(rects)@.len() ==> final(rects)@[i] == release_after(
                #[trigger] old(rects)@[i],
            ),
{
    let n = rects.len();
    let mut i: usize = 0;
    while i < n
        invariant
            i <= n,
            n == rects@.len(),
            n == old(rects)@.len(),
            forall|j: int| 0 <= j < i ==> rects@[j] == release_after(#[trigger] old(rects)@[j]),
            forall|j: int| i <= j < n ==> rects@[j] == old(rects)@[j],
        decreases n - i,
    {
        let was = rects[i].pressed.is_some();
        let rect = &mut rects[i];
        if was {
            rect.pressed = Some(false);
        }
        i += 1;
    }
}

/// Holds of the entities whose button rectangle the point lies in.
pub open spec fn is_clicked(em: EntityManager, mx: u32, my: u32) -> spec_fn(u32) -> bool {
    |id: u32|
        em.button_rect_index(id) matches Some(at) && within(em.rectangles@[id]@[at], mx, my)
}

impl Game {
    /// The buttons that the pointer is on, in ascending order of id.
    pub open spec fn clicked_buttons(self) -> Seq<u32> {
        ids_where(self.em.buttons(), is_clicked(self.em, self.pointer().0, self.pointer().1))
    }

    /// `post` is this game after the clicks on the given buttons were
    /// handled, one after the other. Each click asks for the action that the
    /// button's click target names when its turn comes.
    pub open spec fn clicks_handled(self, buttons: Seq<u32>, post: Game) -> bool
        decreases buttons.len(),
    {
        if buttons.len() == 0 {
            post == self
        } else {
            exists|mid: Game|
                self.clicks_handled(buttons.drop_last(), mid) && #[trigger] mid.one_click_handled(
                    buttons.last(),
                    post,
                )
        }
    }

    /// `post` is this game after a click on the button `id` was handled.
    pub open spec fn one_click_handled(self, id: u32, post: Game) -> bool {
        if self.em.clickables@.contains_key(id) {
            self.click_handled(self.em.clickables@[id].action, post)
        } else {
            post == self
        }
    }

    /// `post` is this game after the state of the left button was acted on:
    /// a button that has just gone down clicks, one that has just come up
    /// lets go.
    pub open spec fn input_dispatched(self, post: Game) -> bool {
        let curr = self.user_input_cache[2];
        let prev = self.user_input_cache[3];
        if curr == 1 && prev != 1 {
            self.clicks_handled(self.clicked_buttons(), post)
        } else if curr == 0 && prev == 1 {
            self.buttons_released(post)
        } else {
            post == self
        }
    }

    /// `post` is this game after the input of a frame was taken in.
    pub open spec fn input_handled(self, post: Game, events: Seq<InputEvent>) -> bool {
        exists|cached: Game, flagged: Game, dispatched: Game|
            {
                &&& #[trigger] self.input_cached(cached, events)
                &&& #[trigger] cached.hover_flagged(flagged)
                &&& #[trigger] flagged.input_dispatched(dispatched)
                &&& post.user_input_cache@ == dispatched.user_input_cache@.update(
                    3,
                    dispatched.user_input_cache[2],
                )
                &&& post == (Game { user_input_cache: post.user_input_cache, ..dispatched })
            }
    }

    /// Whether the game has the ids left that a frame of input may take: a
    /// click on every presentation entity at once.
    pub open spec fn has_room_for_input(self) -> bool {
        self.has_room_for_clicks(ascending_ids(self.em.ids@.dom()).len())
    }

    /// Computes `has_room_for_input`.
    pub fn ready_for_input(&self) -> (ready: bool)
        ensures
            ready == self.has_room_for_input(),
    {
        let n = sorted_keys(&self.em.ids).len() as u128;
        let top = u32::MAX as u128;
        self.gem.player_id.is_some() && self.gem.game_entity_id_counter as u128 + n <= top
            && self.gem.game_property_id_counter as u128 + n <= top && self.em.entity_id_counter as u128
            + 12 * n <= top && self.em.property_id_counter as u128 + 12 * n <= top
    }

    /// Handles a click of the left button on every button that the pointer is on.
    pub fn lmb_pressed(&mut self)
        requires
            old(self).has_room_for_input(),
        ensures
            old(self).clicks_handled(old(self).clicked_buttons(), *final(self)),
    {
        let mx = self.user_input_cache[0];
        let my = self.user_input_cache[1];
        let buttons = self.em.get_all_buttons();
        let ghost p = is_clicked(self.em, mx, my);
        proof {
            lemma_ids_where(ascending_ids(self.em.ids@.dom()), self.em.is_button());
        }
        let mut clicked_eids: Vec<u32> = Vec::new();
        let mut j: usize = 0;
        while j < buttons.len()
            invariant
                j <= buttons@.len(),
                *self == *old(self),
                buttons@ == self.em.buttons(),
                p == is_clicked(self.em, mx, my),
                clicked_eids@ == ids_where(buttons@.take(j as int), p),
            decreases buttons@.len() - j,
        {
            let eid = buttons[j];
            proof {
                lemma_ids_where_step(buttons@, p, j as int);
            }
            match self.em.get_button_rect_non_mut(eid) {
                Some(rect) => {
                    if is_within(rect, mx, my) {
                        clicked_eids.push(eid);
                    }
                },
                None => {},
            }
            j += 1;
        }
        proof {
            assert(buttons@.take(j as int) =~= buttons@);
            lemma_ids_where(buttons@, p);
        }
        let n = clicked_eids.len();
        let mut i: usize = 0;
        while i < n
            invariant
                i <= n,
                n == clicked_eids@.len(),
                clicked_eids@ == old(self).clicked_buttons(),
                self.has_room_for_clicks((n - i) as nat),
                old(self).clicks_handled(clicked_eids@.take(i as int), *self),
            decreases n - i,
        {
            let eid = clicked_eids[i];
            let ghost mid = *self;
            let action = match self.em.get_pclickable_non_mut(eid) {
                Some(cb) => Some(cb.action),
                None => None,
            };
            match action {
                Some(a) => {
                    self.branch_from_click(a);
                },
                None => {},
            }
            proof {
                let done = clicked_eids@.take(i + 1);
                assert(done.drop_last() =~= clicked_eids@.take(i as int));
                assert(done.last() == eid);
                assert(mid.one_click_handled(eid, *self));
            }
            i += 1;
        }
        assert(clicked_eids@.take(n as int) =~= clicked_eids@);
    }

    /// Acts on the state of the left button.
    pub fn dispatch_input_handling(&mut self)
        requires
            old(self).has_room_for_input(),
        ensures
            old(self).input_dispatched(*final(self)),
    {
        let curr = self.user_input_cache[2];
        let prev = self.user_input_cache[3];
        if curr == 1 && prev != 1 {
            self.lmb_pressed();
        } else if curr == 0 && prev == 1 {
            self.lmb_released();
        }
    }

    /// Takes in the input of a frame: caches the events, marks what the
    /// pointer hovers over, handles a click or a release, and remembers the
    /// state of the left button for the next frame.
    pub fn user_input_main_entry(&mut self, events: &Vec<InputEvent>)
        requires
            old(self).has_room_for_input(),
        ensures
            old(self).input_handled(*final(self), events@),
    {
        self.cache_user_input(events);
        let ghost cached = *self;
        self.set_hovered_flags();
        let ghost flagged = *self;
        self.dispatch_input_handling();
        let ghost dispatched = *self;
        self.user_input_cache[3] = self.user_input_cache[2];
        assert(old(self).input_cached(cached, events@) && cached.hover_flagged(flagged)
            && flagged.input_dispatched(dispatched));
    }

    /// The pointer's place as cached.
    pub open spec fn pointer(self) -> (u32, u32) {
        (self.user_input_cache[0], self.user_input_cache[1])
    }

    /// `post` is this game after the events of a frame have been cached.
    pub open spec fn input_cached(self, post: Game, events: Seq<InputEvent>) -> bool {
        &&& post.user_input_cache@ == cache_after_all(self.user_input_cache@, events)
        &&& post.window_open == (self.window_open && !asks_to_close(events))
        &&& post == (Game {
            user_input_cache: post.user_input_cache,
            window_open: post.window_open,
            ..self
        })
    }

    /// `post` is this game after every rectangle has been marked as hovered or not.
    pub open spec fn hover_flagged(self, post: Game) -> bool {
        let (mx, my) = self.pointer();
        &&& post.em.rectangles@.dom() == self.em.rectangles@.dom()
        &&& forall|id: u32| #[trigger]
            self.em.rectangles@.contains_key(id) ==> {
                &&& post.em.rectangles@[id]@.len() == self.em.rectangles@[id]@.len()
                &&& forall|i: int|
                    0 <= i < self.em.rectangles@[id]@.len() ==> post.em.rectangles@[id]@[i]
                        == hover_after(#[trigger] self.em.rectangles@[id]@[i], mx, my)
            }
        &&& post == (Game {
            em: EntityManager { rectangles: post.em.rectangles, ..self.em },
            ..self
        })
    }

    /// `post` is this game after the left button came up: no button shows a press.
    pub open spec fn buttons_released(self, post: Game) -> bool {
        &&& post.em.rectangles@.dom() == self.em.rectangles@.dom()
        &&& forall|id: u32| #[trigger]
            self.em.rectangles@.contains_key(id) ==> {
                &&& post.em.rectangles@[id]@.len() == self.em.rectangles@[id]@.len()
                &&& forall|i: int|
                    0 <= i < self.em.rectangles@[id]@.len() ==> post.em.rectangles@[id]@[i] == if self.em.buttons().contains(
                        id,
                    ) {
                        release_after(#[trigger] self.em.rectangles@[id]@[i])
                    } else {
                        self.em.rectangles@[id]@[i]
                    }
            }
        &&& post == (Game {
            em: EntityManager { rectangles: post.em.rectangles, ..self.em },
            ..self
        })
    }

    /// Takes in the events of a frame: where the pointer is, whether its left
    /// button is down, and whether the window is to close.
    pub fn cache_user_input(&mut self, events: &Vec<InputEvent>)
        ensures
            old(self).input_cached(*final(self), events@),
    {
        let n = events.len();
        let mut i: usize = 0;
        while i < n
            invariant
                i <= n,
                n == events@.len(),
                self.user_input_cache@ == cache_after_all(
                    old(self).user_input_cache@,
                    events@.take(i as int),
                ),
                self.window_open == (old(self).window_open && !asks_to_close(events@.take(i as int))),
                *self == (Game {
                    user_input_cache: self.user_input_cache,
                    window_open: self.window_open,
                    ..*old(self)
                }),
            decreases n - i,
        {
            let ghost seen = events@.take(i as int);
            let ghost next = events@.take(i + 1);
            proof {
                assert(next.drop_last() =~= seen);
                assert(next.last() == events@[i as int]);
                if asks_to_close(seen) {
                    let j = choose|j: int| 0 <= j < seen.len() && seen[j] == InputEvent::Closed;
                    assert(next[j] == InputEvent::Closed);
                }
                if asks_to_close(next) {
                    let j = choose|j: int| 0 <= j < next.len() && next[j] == InputEvent::Closed;
                    if j < i {
                        assert(seen[j] == InputEvent::Closed);
                    }
                }
            }
            match events[i] {
                InputEvent::Closed => {
                    self.window_open = false;
                    assert(next[i as int] == InputEvent::Closed);
                },
                InputEvent::MouseMoved { x, y } => {
                    self.user_input_cache[0] = cache_coordinate(x);
                    self.user_input_cache[1] = cache_coordinate(y);
                },
                InputEvent::LeftPressed => {
                    self.user_input_cache[2] = 1;
                },
                InputEvent::LeftReleased => {
                    self.user_input_cache[2] = 0;
                },
                InputEvent::Other => {},
            }
            assert(self.user_input_cache@ =~= cache_after(
                cache_after_all(old(self).user_input_cache@, seen),
                events@[i as int],
            ));
            i += 1;
        }
        assert(events@.take(n as int) =~= events@);
    }

    /// Marks every rectangle that the pointer is in as hovered, and no other.
    pub fn set_hovered_flags(&mut self)
        ensures
            old(self).hover_flagged(*final(self)),
    {
        broadcast use vstd::std_specs::hash::group_hash_axioms;

        let mx = self.user_input_cache[0];
        let my = self.user_input_cache[1];
        let ids = sorted_keys(&self.em.rectangles);
        proof {
            lemma_ascending_ids(self.em.rectangles@.dom());
        }
        let n = ids.len();
        let mut i: usize = 0;
        while i < n
            invariant
                i <= n,
                n == ids@.len(),
                ids@ == ascending_ids(old(self).em.rectangles@.dom()),
                crate::tables::strictly_increasing(ids@),
                forall|x: u32| ids@.contains(x) <==> old(self).em.rectangles@.contains_key(x),
                (mx, my) == old(self).pointer(),
                self.em.rectangles@.dom() == old(self).em.rectangles@.dom(),
                forall|id: u32| #[trigger]
                    old(self).em.rectangles@.contains_key(id) ==> if ids@.take(i as int).contains(id) {
                        &&& self.em.rectangles@[id]@.len() == old(self).em.rectangles@[id]@.len()
                        &&& forall|k: int|
                            0 <= k < old(self).em.rectangles@[id]@.len() ==> self.em.rectangles@[id]@[k]
                                == hover_after(#[trigger] old(self).em.rectangles@[id]@[k], mx, my)
                    } else {
                        self.em.rectangles@[id] == old(self).em.rectangles@[id]
                    },
                *self == (Game {
                    em: EntityManager { rectangles: self.em.rectangles, ..old(self).em },
                    ..*old(self)
                }),
            decreases n - i,
        {
            let id = ids[i];
            let ghost seen = ids@.take(i as int);
            let ghost next = ids@.take(i + 1);
            let ghost table = self.em.rectangles@;
            proof {
                assert(ids@.contains(ids@[i as int]));
                assert(!seen.contains(id)) by {
                    if seen.contains(id) {
                        let j = choose|j: int| 0 <= j < seen.len() && seen[j] == id;
                        assert(ids@[j] < ids@[i as int]);
                    }
                }
            }
            match table_get_mut(&mut self.em.rectangles, id) {
                Some(rects) => {
                    hover_rects(rects, mx, my);
                },
                None => {},
            }
            proof {
                assert(self.em.rectangles@.dom() =~= table.dom());
                assert forall|k: u32| #[trigger]
                    old(self).em.rectangles@.contains_key(k) implies if next.contains(k) {
                    &&& self.em.rectangles@[k]@.len() == old(self).em.rectangles@[k]@.len()
                    &&& forall|j: int|
                        0 <= j < old(self).em.rectangles@[k]@.len() ==> self.em.rectangles@[k]@[j]
                            == hover_after(#[trigger] old(self).em.rectangles@[k]@[j], mx, my)
                } else {
                    self.em.rectangles@[k] == old(self).em.rectangles@[k]
                } by {
                    if k == id {
                        assert(next[i as int] == id);
                    } else {
                        if next.contains(k) {
                            let j = choose|j: int| 0 <= j < next.len() && next[j] == k;
                            assert(seen[j] == k);
                        }
                        if seen.contains(k) {
                            let j = choose|j: int| 0 <= j < seen.len() && seen[j] == k;
                            assert(next[j] == k);
                        }
                    }
                }
            }
            i += 1;
        }
        assert(ids@.take(n as int) =~= ids@);
    }

    /// Lets go of every button.
    pub fn lmb_released(&mut self)
        ensures
            old(self).buttons_released(*final(self)),
    {
        broadcast use vstd::std_specs::hash::group_hash_axioms;

        let ids = self.em.get_all_buttons();
        proof {
            lemma_ascending_ids(self.em.ids@.dom());
            lemma_ids_where(ascending_ids(self.em.ids@.dom()), self.em.is_button());
        }
        let n = ids.len();
        let mut i: usize = 0;
        while i < n
            invariant
                i <= n,
                n == ids@.len(),
                ids@ == old(self).em.buttons(),
                crate::tables::strictly_increasing(ids@),
                self.em.rectangles@.dom() == old(self).em.rectangles@.dom(),
                forall|id: u32| #[trigger]
                    old(self).em.rectangles@.contains_key(id) ==> if ids@.take(i as int).contains(id) {
                        &&& self.em.rectangles@[id]@.len() == old(self).em.rectangles@[id]@.len()
                        &&& forall|k: int|
                            0 <= k < old(self).em.rectangles@[id]@.len() ==> self.em.rectangles@[id]@[k]
                                == release_after(#[trigger] old(self).em.rectangles@[id]@[k])
                    } else {
                        self.em.rectangles@[id] == old(self).em.rectangles@[id]
                    },
                *self == (Game {
                    em: EntityManager { rectangles: self.em.rectangles, ..old(self).em },
                    ..*old(self)
                }),
            decreases n - i,
        {
            let id = ids[i];
            let ghost seen = ids@.take(i as int);
            let ghost next = ids@.take(i + 1);
            let ghost table = self.em.rectangles@;
            proof {
                assert(!seen.contains(id)) by {
                    if seen.contains(id) {
                        let j = choose|j: int| 0 <= j < seen.len() && seen[j] == id;
                        assert(ids@[j] < ids@[i as int]);
                    }
                }
            }
            match table_get_mut(&mut self.em.rectangles, id) {
                Some(rects) => {
                    release_rects(rects);
                },
                None => {},
            }
            proof {
                assert(self.em.rectangles@.dom() =~= table.dom());
                assert forall|k: u32| #[trigger]
                    old(self).em.rectangles@.contains_key(k) implies if next.contains(k) {
                    &&& self.em.rectangles@[k]@.len() == old(self).em.rectangles@[k]@.len()
                    &&& forall|j: int|
                        0 <= j < old(self).em.rectangles@[k]@.len() ==> self.em.rectangles@[k]@[j]
                            == release_after(#[trigger] old(self).em.rectangles@[k]@[j])
                } else {
                    self.em.rectangles@[k] == old(self).em.rectangles@[k]
                } by {
                    if k == id {
                        assert(next[i as int] == id);
                    } else {
                        if next.contains(k) {
                            let j = choose|j: int| 0 <= j < next.len() && next[j] == k;
                            assert(seen[j] == k);
                        }
                        if seen.contains(k) {
                            let j = choose|j: int| 0 <= j < seen.len() && seen[j] == k;
                            assert(next[j] == k);
                        }
                    }
                }
            }
            i += 1;
        }
        assert(ids@.take(n as int) =~= ids@);
    }
}

} // verus!
