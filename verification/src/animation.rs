//! What the simulation asks of the animation layer. The core describes the
//! sprites it wants to see; advancing their frames and drawing them is left
//! to whoever owns the textures.

use vstd::prelude::*;

verus! {

/// Describes one sprite instance. All times are in microseconds.
#[derive(Debug, PartialEq, Eq, Hash)]
pub struct AnimatedSprite {
    pub texture_id: String,
    pub frame_width: u32,
    pub frame_height: u32,
    pub total_frames: u32,
    pub current_frame: u32,
    /// Time that one frame stays on screen; `None` for a sprite that never advances.
    pub frame_time: Option<u64>,
    /// Time already spent on the current frame.
    pub time_accumulator: u64,
    pub position: (u32, u32),
    pub inanimate: bool,
    pub strata: u32,
    pub desired_width: Option<u32>,
    pub desired_height: Option<u32>,
    pub play_once: bool,
    pub finished: bool,
    /// Pixels per second, to the right and downwards.
    pub velocity: (i32, i32),
    /// Time after which the sprite is removed; `None` for a sprite that stays.
    pub lifetime: Option<u64>,
    pub associated_g_entity: Option<u32>,
}

impl Clone for AnimatedSprite {
    fn clone(&self) -> (copy: Self)
        ensures
            copy == *self,
    {
        AnimatedSprite {
            texture_id: self.texture_id.clone(),
            frame_width: self.frame_width,
            frame_height: self.frame_height,
            total_frames: self.total_frames,
            current_frame: self.current_frame,
            frame_time: self.frame_time,
            time_accumulator: self.time_accumulator,
            position: self.position,
            inanimate: self.inanimate,
            strata: self.strata,
            desired_width: self.desired_width,
            desired_height: self.desired_height,
            play_once: self.play_once,
            finished: self.finished,
            velocity: self.velocity,
            lifetime: self.lifetime,
            associated_g_entity: self.associated_g_entity,
        }
    }
}

/// A request to the animation layer, carried out in the order of issue.
#[derive(Debug, Clone, PartialEq, Eq, Hash)]
pub enum AnimationRequest {
    /// Show this sprite.
    Spawn(AnimatedSprite),
    /// Remove every sprite that uses this texture.
    RemoveByTexture(String),
}

/// What the simulation needs to know of a sprite that is playing.
#[derive(Debug, Clone, Copy, PartialEq, Eq, Hash)]
pub struct SpriteProgress {
    pub current_frame: u32,
    pub total_frames: u32,
    pub play_once: bool,
}

} // verus!
