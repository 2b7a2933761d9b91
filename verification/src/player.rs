//! The player: a state machine over standing, walking and jumping, moved by
//! key events and by the time that passes between frames.

use vstd::prelude::*;
use crate::fixed::{clamp, sat_add, sat_add_mul_div, sat_sub, trunc_div};
use crate::geometry::{Point, Vector};
use crate::score::Score;

verus! {

/// Sideways speed while a movement key is down.
pub const WALK_SPEED: i64 = 1000;

/// Vertical velocity at the start of a jump: upwards.
pub const JUMP_IMPULSE: i64 = -4000;

/// Downward acceleration of a jumping player, per frame.
pub const PLAYER_GRAVITY: i64 = 200;

/// The player moves by its velocity once in this many milliseconds.
pub const MS_PER_MOVE: i64 = 3;

/// Milliseconds for which a frame of the walk cycle is shown.
pub const FRAME_DURATION_MS: u32 = 40;

/// Where the player begins.
pub const START_X: i64 = 100_000;

pub const START_Y: i64 = 200_000;

#[derive(Clone, Copy, Debug, PartialEq, Eq, Structural)]
pub enum PlayerState {
    Stand,
    Walk,
    Jump,
}

/// The keys that the game knows.
#[derive(Clone, Copy, Debug, PartialEq, Eq, Structural)]
pub enum Key {
    MoveRight,
    MoveLeft,
    Jump,
    ResetTimer,
    Other,
}

#[derive(Clone, Debug, PartialEq, Eq)]
pub struct Player {
    pub state: PlayerState,
    pub vel: Vector,
    pub pos: Point,
    /// Coins collected so far.
    pub score: Score,
    /// The frame of the walk cycle that is shown.
    pub walk_frame: usize,
    /// Milliseconds since the walk cycle last moved on.
    pub last_swap: u64,
    /// Milliseconds for which a frame of the walk cycle is shown.
    pub frame_duration: u32,
}

/// How far a velocity carries in `elapsed_ms` milliseconds.
pub open spec fn travel(velocity: i64, elapsed_ms: u32) -> int {
    trunc_div(velocity * elapsed_ms, MS_PER_MOVE as int)
}

/// Whether a player whose top is at `y` stands on the ground or below it.
pub open spec fn lands(y: i64, sprite_height: i64, ground: i64) -> bool {
    y + sprite_height >= ground
}

/// The player after a key went down. A player in the air stays as it is,
/// whatever the key. Otherwise a movement key makes the player walk at
/// `WALK_SPEED` to the key's side, and the jump key lifts it.
pub open spec fn key_down_spec(p: Player, key: Key) -> Player {
    if p.state == PlayerState::Jump {
        p
    } else {
        match key {
            Key::MoveRight => Player {
                state: PlayerState::Walk,
                vel: Vector { x: WALK_SPEED, y: p.vel.y },
                ..p
            },
            Key::MoveLeft => Player {
                state: PlayerState::Walk,
                vel: Vector { x: (-WALK_SPEED) as i64, y: p.vel.y },
                ..p
            },
            Key::Jump => Player {
                state: PlayerState::Jump,
                vel: Vector { x: p.vel.x, y: JUMP_IMPULSE },
                ..p
            },
            _ => p,
        }
    }
}

/// The player after a key went up. A player in the air stays as it is.
/// Otherwise a movement key makes the player stand, and stops its sideways
/// movement unless the key of the other direction is held.
pub open spec fn key_up_spec(p: Player, key: Key, opposite_held: bool) -> Player {
    match key {
        Key::MoveRight | Key::MoveLeft => if p.state == PlayerState::Jump {
            p
        } else {
            Player {
                state: PlayerState::Stand,
                vel: Vector {
                    x: if opposite_held {
                        p.vel.x
                    } else {
                        0
                    },
                    y: p.vel.y,
                },
                ..p
            }
        },
        _ => p,
    }
}

/// The walk cycle after `elapsed_ms` more milliseconds: the frame shown and
/// the time since it came. The cycle moves on by one frame, and begins
/// again after the last, once a frame has been shown for longer than
/// `frame_duration`.
pub open spec fn walk_cycle_spec(p: Player, elapsed_ms: u32, frame_count: usize) -> (usize, u64) {
    let waited = p.last_swap + elapsed_ms;
    if waited > p.frame_duration {
        (
            if p.walk_frame + 1 >= frame_count {
                0
            } else {
                (p.walk_frame + 1) as usize
            },
            0,
        )
    } else {
        (p.walk_frame, waited as u64)
    }
}

/// The player one frame later, `elapsed_ms` milliseconds on. It moves
/// sideways by its velocity. Walking, its walk cycle goes on. Jumping, it
/// moves vertically and gains downward velocity; where it then reaches the
/// ground it is put on it, loses its vertical velocity, and walks if a
/// movement key is held and stands if none is.
pub open spec fn update_spec(
    p: Player,
    elapsed_ms: u32,
    ground: i64,
    sprite_height: i64,
    frame_count: usize,
    move_held: bool,
) -> Player {
    let x = clamp(p.pos.x + travel(p.vel.x, elapsed_ms));
    match p.state {
        PlayerState::Stand => Player { pos: Point { x, y: p.pos.y }, ..p },
        PlayerState::Walk => {
            let (walk_frame, last_swap) = walk_cycle_spec(p, elapsed_ms, frame_count);
            Player { pos: Point { x, y: p.pos.y }, walk_frame, last_swap, ..p }
        },
        PlayerState::Jump => {
            let y = clamp(p.pos.y + travel(p.vel.y, elapsed_ms));
            if lands(y, sprite_height, ground) {
                Player {
                    state: if move_held {
                        PlayerState::Walk
                    } else {
                        PlayerState::Stand
                    },
                    pos: Point { x, y: (ground - sprite_height) as i64 },
                    vel: Vector { x: p.vel.x, y: 0 },
                    ..p
                }
            } else {
                Player {
                    pos: Point { x, y },
                    vel: Vector { x: p.vel.x, y: clamp(p.vel.y + PLAYER_GRAVITY) },
                    ..p
                }
            }
        },
    }
}

impl Player {
    /// The walk cycle is within its `frame_count` frames, no frame has been
    /// shown for longer than its time, and the score is well formed.
    pub open spec fn wf(&self, frame_count: usize) -> bool {
        &&& self.walk_frame < frame_count
        &&& self.last_swap <= self.frame_duration
        &&& self.score.wf()
    }

    /// Whether this is a player that stands at its starting place with no
    /// score.
    pub open spec fn is_new(&self) -> bool {
        &&& self.state == PlayerState::Stand
        &&& self.vel == (Vector { x: 0, y: 0 })
        &&& self.pos == (Point { x: START_X, y: START_Y })
        &&& self.score@ == 0
        &&& self.score.wf()
        &&& self.walk_frame == 0
        &&& self.last_swap == 0
        &&& self.frame_duration == FRAME_DURATION_MS
    }

    pub fn new() -> (p: Player)
        ensures
            p.is_new(),
    {
        Player {
            state: PlayerState::Stand,
            vel: Vector { x: 0, y: 0 },
            pos: Point { x: START_X, y: START_Y },
            score: Score::new(),
            walk_frame: 0,
            last_swap: 0,
            frame_duration: FRAME_DURATION_MS,
        }
    }

    pub fn key_down(&mut self, key: Key)
        ensures
            *final(self) == key_down_spec(*old(self), key),
    {
        match key {
            Key::MoveRight => {
                if self.state != PlayerState::Jump {
                    self.state = PlayerState::Walk;
                    self.vel.x = WALK_SPEED;
                }
            },
            Key::MoveLeft => {
                if self.state != PlayerState::Jump {
                    self.state = PlayerState::Walk;
                    self.vel.x = -WALK_SPEED;
                }
            },
            Key::Jump => {
                if self.state != PlayerState::Jump {
                    self.state = PlayerState::Jump;
                    self.vel.y = JUMP_IMPULSE;
                }
            },
            _ => {},
        }
    }

    /// `opposite_held` says whether the key of the other direction is held
    /// while `key`, a movement key, goes up.
    pub fn key_up(&mut self, key: Key, opposite_held: bool)
        ensures
            *final(self) == key_up_spec(*old(self), key, opposite_held),
    {
        match key {
            Key::MoveRight | Key::MoveLeft => {
                if self.state != PlayerState::Jump {
                    self.state = PlayerState::Stand;
                    if !opposite_held {
                        self.vel.x = 0;
                    }
                }
            },
            _ => {},
        }
    }

    /// Advances the player by one frame: see `update_spec`. The walk cycle
    /// has `frame_count` frames; `move_held` says whether a movement key is
    /// held.
    pub fn update(
        &mut self,
        elapsed_ms: u32,
        ground: i64,
        sprite_height: i64,
        frame_count: usize,
        move_held: bool,
    )
        requires
            old(self).wf(frame_count),
            i64::MIN <= ground - sprite_height <= i64::MAX,
        ensures
            *final(self) == update_spec(
                *old(self),
                elapsed_ms,
                ground,
                sprite_height,
                frame_count,
                move_held,
            ),
            final(self).wf(frame_count),
            final(self).score == old(self).score,
    {
        self.pos.x = sat_add_mul_div(self.pos.x, self.vel.x, elapsed_ms as i64, MS_PER_MOVE);
        match self.state {
            PlayerState::Walk => {
                self.last_swap = self.last_swap + elapsed_ms as u64;
                if self.last_swap > self.frame_duration as u64 {
                    self.walk_frame = self.walk_frame + 1;
                    if self.walk_frame >= frame_count {
                        self.walk_frame = 0;
                    }
                    self.last_swap = 0;
                }
            },
            PlayerState::Jump => {
                self.pos.y = sat_add_mul_div(
                    self.pos.y,
                    self.vel.y,
                    elapsed_ms as i64,
                    MS_PER_MOVE,
                );
                self.vel.y = sat_add(self.vel.y, PLAYER_GRAVITY);
                if self.pos.y as i128 + sprite_height as i128 >= ground as i128 {
                    self.pos.y = sat_sub(ground, sprite_height);
                    self.vel.y = 0;
                    self.state = if move_held {
                        PlayerState::Walk
                    } else {
                        PlayerState::Stand
                    };
                }
            },
            PlayerState::Stand => {},
        }
    }
}

/// The player after `n` frames, of which frame `k` takes `elapsed(k)`
/// milliseconds and sees a movement key held where `held(k)` says so.
pub open spec fn after_frames(
    p: Player,
    elapsed: spec_fn(nat) -> u32,
    held: spec_fn(nat) -> bool,
    ground: i64,
    sprite_height: i64,
    frame_count: usize,
    n: nat,
) -> Player
    decreases n,
{
    if n == 0 {
        p
    } else {
        update_spec(
            after_frames(p, elapsed, held, ground, sprite_height, frame_count, (n - 1) as nat),
            elapsed((n - 1) as nat),
            ground,
            sprite_height,
            frame_count,
            held((n - 1) as nat),
        )
    }
}

/// The downward velocity that a player still lacks to come down.
pub open spec fn climb_left(p: Player) -> int {
    if p.vel.y < PLAYER_GRAVITY {
        PLAYER_GRAVITY - p.vel.y
    } else {
        0
    }
}

/// The way down that a player above the ground has left.
pub open spec fn height_left(p: Player, ground: i64, sprite_height: i64) -> int {
    if lands(p.pos.y, sprite_height, ground) {
        0
    } else {
        ground - sprite_height - p.pos.y
    }
}

/// A player that is in the air after `k` frames is on the ground after
/// some later frame `n`, and in the air until then.
proof fn lemma_jump_lands_from(
    p: Player,
    elapsed: spec_fn(nat) -> u32,
    held: spec_fn(nat) -> bool,
    ground: i64,
    sprite_height: i64,
    frame_count: usize,
    k: nat,
) -> (n: nat)
    requires
        i64::MIN <= ground - sprite_height <= i64::MAX,
        forall|j: nat| #[trigger] elapsed(j) >= 1,
        after_frames(p, elapsed, held, ground, sprite_height, frame_count, k).state
            == PlayerState::Jump,
    ensures
        n > k,
        forall|j: nat|
            k <= j < n ==> (#[trigger] after_frames(
                p,
                elapsed,
                held,
                ground,
                sprite_height,
                frame_count,
                j,
            )).state == PlayerState::Jump,
        after_frames(p, elapsed, held, ground, sprite_height, frame_count, n).state != PlayerState::Jump,
    decreases
            climb_left(after_frames(p, elapsed, held, ground, sprite_height, frame_count, k)),
            height_left(
                after_frames(p, elapsed, held, ground, sprite_height, frame_count, k),
                ground,
                sprite_height,
            ),
{
    let before = after_frames(p, elapsed, held, ground, sprite_height, frame_count, k);
    let after = after_frames(p, elapsed, held, ground, sprite_height, frame_count, k + 1);
    let ms = elapsed(k);
    assert(after == update_spec(before, ms, ground, sprite_height, frame_count, held(k)));
    if after.state != PlayerState::Jump {
        k + 1
    } else {
        if before.vel.y >= PLAYER_GRAVITY {
            assert(before.vel.y * ms >= 200) by (nonlinear_arith)
                requires
                    before.vel.y >= 200,
                    ms >= 1,
            ;
            assert(travel(before.vel.y, ms) >= 66);
        }
        lemma_jump_lands_from(p, elapsed, held, ground, sprite_height, frame_count, k + 1)
    }
}

/// A jump ends. Where every frame takes a millisecond or more, a player in
/// the air is on the ground after some number of frames and in the air
/// until then. It is then put on the ground, has no vertical velocity, and
/// walks if a movement key was held in that last frame and stands if none
/// was.
pub proof fn lemma_jump_lands(
    p: Player,
    elapsed: spec_fn(nat) -> u32,
    held: spec_fn(nat) -> bool,
    ground: i64,
    sprite_height: i64,
    frame_count: usize,
) -> (n: nat)
    requires
        i64::MIN <= ground - sprite_height <= i64::MAX,
        forall|j: nat| #[trigger] elapsed(j) >= 1,
        p.state == PlayerState::Jump,
    ensures
        n >= 1,
        forall|j: nat|
            j < n ==> (#[trigger] after_frames(
                p,
                elapsed,
                held,
                ground,
                sprite_height,
                frame_count,
                j,
            )).state == PlayerState::Jump,
        after_frames(p, elapsed, held, ground, sprite_height, frame_count, n).state == if held(
            (n - 1) as nat,
        ) {
            PlayerState::Walk
        } else {
            PlayerState::Stand
        },
        after_frames(p, elapsed, held, ground, sprite_height, frame_count, n).vel.y == 0,
        after_frames(p, elapsed, held, ground, sprite_height, frame_count, n).pos.y == ground
            - sprite_height,
{
    let n = lemma_jump_lands_from(p, elapsed, held, ground, sprite_height, frame_count, 0);
    let before = after_frames(p, elapsed, held, ground, sprite_height, frame_count, (n - 1) as nat);
    assert(before.state == PlayerState::Jump);
    n
}

} // verus!
