//! The state of a running game, and the scale of its user interface.

use crate::animation::{AnimationRequest, SpriteProgress};
use crate::entities::EntityManager;
use crate::g_entities::GameEntityManager;
use crate::g_properties::Spells;
use crate::systems::{Damage, FloatingText};
use std::collections::HashMap;
use vstd::prelude::*;

verus! {

/// Width of the window that the layout is made for.
pub const WINDOW_WIDTH: u32 = 3840;

/// Height of the window that the layout is made for.
pub const WINDOW_HEIGHT: u32 = 2160;

/// The factor by which the layout, drawn for 1920 by 1080, is enlarged on a
/// window of the given size: the largest whole factor that fits both ways,
/// and at least one.
pub open spec fn ui_scale(width: u32, height: u32) -> u32 {
    let w = width / 1920;
    let h = height / 1080;
    let m = if w < h {
        w
    } else {
        h
    };
    if m < 1 {
        1
    } else {
        m
    }
}

/// Computes `ui_scale`.
pub fn scale_for(width: u32, height: u32) -> (scale: u32)
    ensures
        scale == ui_scale(width, height),
        1 <= scale <= 2236962,
{
    let w = width / 1920;
    let h = height / 1080;
    let m = if w < h {
        w
    } else {
        h
    };
    if m < 1 {
        1
    } else {
        m
    }
}

/// The scale of the user interface on the window that the layout is made for.
pub fn get_scale() -> (scale: u32)
    ensures
        scale == ui_scale(WINDOW_WIDTH, WINDOW_HEIGHT),
        scale == 2,
{
    scale_for(WINDOW_WIDTH, WINDOW_HEIGHT)
}

/// A length of the 1920 by 1080 layout, enlarged by `scale`.
pub fn scaled(scale: u32, x: u32) -> (len: u32)
    requires
        x * scale <= u32::MAX,
    ensures
        len == x * scale,
{
    x * scale
}

/// Everything that the simulation knows. The window, the fonts and the
/// textures belong to the program around it.
#[derive(Debug, Clone)]
pub struct Game {
    pub window_width: u32,
    pub window_height: u32,
    /// Cleared once the user has asked to close the window.
    pub window_open: bool,
    /// Effects of completed actions that have not fired yet, oldest first.
    pub pending_effects: Vec<Spells>,
    /// Whether the panel with the player's stats is shown.
    pub stats_panel_open: bool,
    /// The pointer as last seen, one slot for each `InputSlot`.
    pub user_input_cache: [u32; 4],
    pub em: EntityManager,
    pub gem: GameEntityManager,
    /// Which game entity each presentation entity depicts.
    pub em_gem_link: HashMap<u32, u32>,
    /// Requests to the animation layer that it has not collected yet, oldest first.
    pub anim_requests: Vec<AnimationRequest>,
    /// Damage raised on this tick and not yet applied. Empty between ticks.
    pub damage_queue: Vec<Damage>,
    /// Combat texts that the renderer has not collected yet, oldest first.
    pub floating_texts: Vec<FloatingText>,
    /// Milliseconds since the game started.
    pub time_elapsed_ms: u32,
    /// Milliseconds that the current tick covers.
    pub delta_time_ms: u32,
    pub miasma_has_spawned: bool,
}

/// Why a game cannot start to tick.
#[derive(Debug, Clone, Copy, PartialEq, Eq, Structural)]
pub enum StartupError {
    /// The game knows no player.
    MissingPlayer,
    /// The player has no stats.
    PlayerWithoutStats,
}

impl Game {
    /// Looks the game over before its first tick. A game that is fit to
    /// start knows its player, and the player has stats; the check returns
    /// the player's id.
    pub fn startup_check(&self) -> (outcome: Result<u32, StartupError>)
        ensures
            match outcome {
                Ok(player) => self.gem.player_id == Some(player) && self.gem.stats@.contains_key(
                    player,
                ),
                Err(StartupError::MissingPlayer) => self.gem.player_id is None,
                Err(StartupError::PlayerWithoutStats) => self.gem.player_id is Some
                    && !self.gem.stats@.contains_key(self.gem.player_id->0),
            },
    {
        broadcast use vstd::std_specs::hash::group_hash_axioms;

        match self.gem.player_id {
            Some(player) => if self.gem.stats.contains_key(&player) {
                Ok(player)
            } else {
                Err(StartupError::PlayerWithoutStats)
            },
            None => Err(StartupError::MissingPlayer),
        }
    }

    /// `post` is this game after the clock has moved on by a frame of
    /// `frame_ms` milliseconds. A tick covers at least one millisecond, and
    /// the clock stops at its last value rather than start over.
    pub open spec fn clock_advanced(self, post: Game, frame_ms: u32) -> bool {
        let dt = if frame_ms == 0 {
            1u32
        } else {
            frame_ms
        };
        post == (Game {
            delta_time_ms: dt,
            time_elapsed_ms: if self.time_elapsed_ms + dt > u32::MAX {
                u32::MAX
            } else {
                (self.time_elapsed_ms + dt) as u32
            },
            ..self
        })
    }

    /// `post` is this game one tick later: the clock has moved on, mortality
    /// has been derived, the debuffs have ticked and the pending effects have
    /// fired, the damage has been applied, and the action queues have run.
    pub open spec fn ticked(
        self,
        post: Game,
        frame_ms: u32,
        cast: Option<SpriteProgress>,
        projectile_active: bool,
    ) -> bool {
        exists|a: Game, b: Game, c: Game, d: Game|
            {
                &&& #[trigger] self.clock_advanced(a, frame_ms)
                &&& #[trigger] a.mortality_derived(b)
                &&& #[trigger] b.debuffs_ticked(c)
                &&& #[trigger] c.damage_applied(d)
                &&& d.game_updated(post, cast, projectile_active)
            }
    }

    /// Whether the game can tick: it knows its player, and it has a
    /// component id left for every pending effect.
    pub open spec fn can_tick(self) -> bool {
        &&& self.gem.player_id is Some
        &&& self.gem.game_property_id_counter + self.pending_effects@.len() <= u32::MAX
    }

    /// Computes `can_tick`.
    pub fn ready_to_tick(&self) -> (ready: bool)
        ensures
            ready == self.can_tick(),
    {
        self.gem.player_id.is_some() && self.pending_effects.len() <= (u32::MAX
            - self.gem.game_property_id_counter) as usize
    }

    /// Advances the game by one frame of `frame_ms` milliseconds. `cast`
    /// tells how far the cast animation has played, if it is on screen, and
    /// `projectile_active` whether a projectile is still on screen.
    pub fn tick(&mut self, frame_ms: u32, cast: Option<SpriteProgress>, projectile_active: bool)
        requires
            old(self).can_tick(),
        ensures
            old(self).ticked(*final(self), frame_ms, cast, projectile_active),
    {
        self.delta_time_ms = if frame_ms == 0 {
            1
        } else {
            frame_ms
        };
        self.time_elapsed_ms = self.time_elapsed_ms.saturating_add(self.delta_time_ms);
        let ghost a = *self;
        self.s_mortality();
        let ghost b = *self;
        self.s_debuffs();
        let ghost c = *self;
        self.s_damage();
        let ghost d = *self;
        self.update_game_main_entry(cast, projectile_active);
        assert(old(self).clock_advanced(a, frame_ms) && a.mortality_derived(b) && b.debuffs_ticked(c)
            && c.damage_applied(d) && d.game_updated(*self, cast, projectile_active));
    }

    /// A game with nothing in it yet, on the window that the layout is made for.
    pub fn new() -> (game: Game)
        ensures
            game.window_width == WINDOW_WIDTH,
            game.window_height == WINDOW_HEIGHT,
            game.window_open,
            game.pending_effects@.len() == 0,
            !game.stats_panel_open,
            game.user_input_cache@ == seq![0u32, 0u32, 0u32, 0u32],
            game.em.is_fresh(),
            game.gem.is_fresh(),
            game.has_no_actors(),
            game.em.tagged("player"@) is None,
            game.em_gem_link@ == Map::<u32, u32>::empty(),
            game.anim_requests@.len() == 0,
            game.damage_queue@.len() == 0,
            game.floating_texts@.len() == 0,
            game.time_elapsed_ms == 0,
            game.delta_time_ms == 0,
            !game.miasma_has_spawned,
    {
        let game = Game {
            window_width: WINDOW_WIDTH,
            window_height: WINDOW_HEIGHT,
            window_open: true,
            pending_effects: Vec::new(),
            stats_panel_open: false,
            user_input_cache: [0, 0, 0, 0],
            em: EntityManager::new(),
            gem: GameEntityManager::new(),
            em_gem_link: HashMap::new(),
            anim_requests: Vec::new(),
            damage_queue: Vec::new(),
            floating_texts: Vec::new(),
            time_elapsed_ms: 0,
            delta_time_ms: 0,
            miasma_has_spawned: false,
        };
        assert(game.user_input_cache@ =~= seq![0u32, 0u32, 0u32, 0u32]);
        proof {
            crate::tables::lemma_lowest_where(
                game.gem.gids@.dom(),
                crate::g_entities::has_tag(game.gem.gids@, "player"@),
            );
            crate::tables::lemma_lowest_where(
                game.gem.gids@.dom(),
                crate::g_entities::has_tag(game.gem.gids@, "alpine_terror"@),
            );
            crate::tables::lemma_lowest_where(
                game.em.ids@.dom(),
                crate::entities::is_tagged(game.em.ids@, "player"@),
            );
        }
        game
    }
}

} // verus!
