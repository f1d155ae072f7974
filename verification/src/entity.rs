//! The entity variants and their behavior: the player, which spawns at the
//! viewport center, moves on directional key-down events and draws a fixed
//! rectangle, and the inert placeholder for non-player entities.

use vstd::prelude::*;
use crate::{SPAWN_X, SPAWN_Y, MOVE_STEP, PLAYER_WIDTH, PLAYER_HEIGHT};

verus! {

/// A position in the logical viewport's pixel space.
#[derive(Clone, Copy, Debug, PartialEq, Eq, Structural)]
pub struct Pos {
    pub x: i32,
    pub y: i32,
}

/// The keys the simulation distinguishes. Every key the host delivers that
/// is not a directional key maps to `Other`.
#[derive(Clone, Copy, Debug, PartialEq, Eq, Structural)]
pub enum Keycode {
    Up,
    Down,
    Left,
    Right,
    Other,
}

/// A filled rectangle to submit to the render surface: top-left corner,
/// width and height, in logical pixels.
#[derive(Clone, Copy, Debug, PartialEq, Eq, Structural)]
pub struct Rect {
    pub x: i32,
    pub y: i32,
    pub w: i32,
    pub h: i32,
}

/// The player: a position and a flag that records whether the first
/// simulation step has placed it at the viewport center yet.
#[derive(Clone, Copy, Debug, PartialEq, Eq, Structural)]
pub struct Player {
    pub pos: Pos,
    pub spawned: bool,
}

/// A non-player entity: a position and nothing more. Inert by design —
/// it establishes the extensibility point of the variant set.
#[derive(Clone, Copy, Debug, PartialEq, Eq, Structural)]
pub struct Entity {
    pub position: Pos,
}

/// The closed set of entity variants.
#[derive(Clone, Copy, Debug, PartialEq, Eq, Structural)]
pub enum Entities {
    Player(Player),
    Other(Entity),
}

/// What one simulation step does to a player: the first step places it at
/// the viewport center and marks it spawned; every later step is a no-op.
pub open spec fn player_step(p: Player) -> Player {
    if p.spawned {
        p
    } else {
        Player { pos: Pos { x: SPAWN_X, y: SPAWN_Y }, spawned: true }
    }
}

/// What one simulation step does to an entity: players step, others are inert.
pub open spec fn entity_step(e: Entities) -> Entities {
    match e {
        Entities::Player(p) => Entities::Player(player_step(p)),
        Entities::Other(o) => Entities::Other(o),
    }
}

/// Whether moving one step from `p` in the direction of `k` stays
/// representable in `i32` coordinates.
pub open spec fn can_move(p: Pos, k: Keycode) -> bool {
    match k {
        Keycode::Up => p.y - MOVE_STEP >= i32::MIN,
        Keycode::Down => p.y + MOVE_STEP <= i32::MAX,
        Keycode::Left => p.x - MOVE_STEP >= i32::MIN,
        Keycode::Right => p.x + MOVE_STEP <= i32::MAX,
        Keycode::Other => true,
    }
}

/// Where a key-down event moves a position: one fixed step along the
/// matching axis, negative y being "up" and negative x being "left";
/// unrecognized keys leave it unchanged.
pub open spec fn moved_pos(p: Pos, k: Keycode) -> Pos
    recommends can_move(p, k),
{
    match k {
        Keycode::Up => Pos { x: p.x, y: (p.y - MOVE_STEP) as i32 },
        Keycode::Down => Pos { x: p.x, y: (p.y + MOVE_STEP) as i32 },
        Keycode::Left => Pos { x: (p.x - MOVE_STEP) as i32, y: p.y },
        Keycode::Right => Pos { x: (p.x + MOVE_STEP) as i32, y: p.y },
        Keycode::Other => p,
    }
}

/// What a key-down event does to a player: its position moves, its
/// spawned flag is untouched.
pub open spec fn player_key_down(p: Player, k: Keycode) -> Player {
    Player { pos: moved_pos(p.pos, k), spawned: p.spawned }
}

/// What a key-down event does to an entity: only players react.
pub open spec fn entity_key_down(e: Entities, k: Keycode) -> Entities {
    match e {
        Entities::Player(p) => Entities::Player(player_key_down(p, k)),
        Entities::Other(o) => Entities::Other(o),
    }
}

/// Whether an entity may receive a key-down event without its new position
/// overflowing `i32` coordinates.
pub open spec fn entity_can_move(e: Entities, k: Keycode) -> bool {
    match e {
        Entities::Player(p) => can_move(p.pos, k),
        Entities::Other(_) => true,
    }
}

/// The rectangle a player submits for rendering: fixed size, anchored at
/// its stored position as the top-left corner.
pub open spec fn player_rect(p: Player) -> Rect {
    Rect { x: p.pos.x, y: p.pos.y, w: PLAYER_WIDTH, h: PLAYER_HEIGHT }
}

impl Player {
    /// Advance the player by one fixed simulation step.
    pub fn update(&mut self)
        ensures
            *final(self) == player_step(*old(self)),
    {
        if !self.spawned {
            self.pos.x = SPAWN_X;
            self.pos.y = SPAWN_Y;
            self.spawned = true;
        }
    }

    /// The drawing command for the current frame. Does not mutate
    /// simulation state.
    pub fn draw(&self) -> (r: Rect)
        ensures
            r == player_rect(*self),
    {
        Rect { x: self.pos.x, y: self.pos.y, w: PLAYER_WIDTH, h: PLAYER_HEIGHT }
    }

    /// React to a key-down transition: directional keys translate the
    /// position by one fixed step; any other key is a no-op.
    pub fn key_down_event(&mut self, keycode: Keycode)
        requires
            can_move(old(self).pos, keycode),
        ensures
            *final(self) == player_key_down(*old(self), keycode),
    {
        match keycode {
            Keycode::Up => {
                self.pos.y = self.pos.y - MOVE_STEP;
            }
            Keycode::Down => {
                self.pos.y = self.pos.y + MOVE_STEP;
            }
            Keycode::Right => {
                self.pos.x = self.pos.x + MOVE_STEP;
            }
            Keycode::Left => {
                self.pos.x = self.pos.x - MOVE_STEP;
            }
            Keycode::Other => {}
        }
    }

    /// React to a key-up transition: a no-op in the current design,
    /// movement being edge-triggered on key-down only.
    pub fn key_up_event(&mut self, keycode: Keycode)
        ensures
            *final(self) == *old(self),
    {
        let _ = keycode;
    }
}

} // verus!
