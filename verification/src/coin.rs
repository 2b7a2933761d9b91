//! A coin and its physics: one step per frame, with gravity, reflection at
//! the world's sides and a lossy bounce on the ground that stops for good
//! after a fixed number of contacts.

use vstd::prelude::*;
use crate::fixed::{clamp, sat_add, sat_mul_div, sat_neg, sat_sub, trunc_div};
use crate::geometry::{Point, Vector};

verus! {

/// Downward acceleration of a coin, per frame.
pub const GRAVITY: i64 = 1000;

/// Ground contacts after which a coin no longer moves vertically.
pub const COIN_MAX_BOUNCES: usize = 7;

/// A bounce returns seven tenths of the vertical speed, reversed.
pub const RESTITUTION_NUM: i64 = -7;

pub const RESTITUTION_DEN: i64 = 10;

/// The look of a coin. It is chosen when the coin appears and has no part in
/// the physics.
#[derive(Clone, Copy, Debug, PartialEq, Eq, Structural)]
pub enum CoinType {
    Silver,
    Gold,
}

#[derive(Clone, Copy, Debug, PartialEq, Eq, Structural)]
pub struct Coin {
    pub pos: Point,
    pub vel: Vector,
    /// Added to `angle` every frame.
    pub torque: i64,
    pub angle: i64,
    /// Ground contacts so far.
    pub bounce_count: usize,
    pub coin_type: CoinType,
}

/// Whether a coin at height `y` reaches below the ground.
pub open spec fn touches_ground(y: i64, ground: i64, radius: i64) -> bool {
    y + radius > ground
}

/// Whether a coin at `x` is beyond the right or the left side of the world.
pub open spec fn beyond_sides(x: i64, world_width: i64, radius: i64) -> bool {
    x + radius > world_width || x < 0
}

/// The vertical velocity after a ground contact.
pub open spec fn rebound(vy: i64) -> i64 {
    clamp(trunc_div(vy * RESTITUTION_NUM, RESTITUTION_DEN as int))
}

/// The coin one frame later. The coin moves by its velocity, gravity is
/// added to the velocity and the torque to the angle; then the new position
/// is tested against the sides and the ground.
pub open spec fn step_spec(c: Coin, world_width: i64, ground: i64, radius: i64) -> Coin {
    let x = clamp(c.pos.x + c.vel.x);
    let y = clamp(c.pos.y + c.vel.y);
    let fallen = clamp(c.vel.y + GRAVITY);
    let reflect = beyond_sides(x, world_width, radius);
    let contact = touches_ground(y, ground, radius);
    let bounces = if contact {
        c.bounce_count + 1
    } else {
        c.bounce_count as int
    };
    Coin {
        pos: Point {
            x,
            y: if contact {
                (ground - radius) as i64
            } else {
                y
            },
        },
        vel: Vector {
            x: if reflect {
                clamp(-c.vel.x)
            } else {
                c.vel.x
            },
            y: if bounces >= COIN_MAX_BOUNCES {
                0
            } else if contact {
                rebound(fallen)
            } else {
                fallen
            },
        },
        torque: if reflect {
            clamp(-c.torque)
        } else {
            c.torque
        },
        angle: clamp(c.angle + c.torque),
        bounce_count: bounces as usize,
        coin_type: c.coin_type,
    }
}

/// The coin `n` frames later.
pub open spec fn steps_spec(c: Coin, world_width: i64, ground: i64, radius: i64, n: nat) -> Coin
    decreases n,
{
    if n == 0 {
        c
    } else {
        step_spec(
            steps_spec(c, world_width, ground, radius, (n - 1) as nat),
            world_width,
            ground,
            radius,
        )
    }
}

/// A random word counts by its leading 24 bits, read as a fraction of
/// `DRAW_ONE`: a number from 0 up to, but not including, 1.
pub const DRAW_ONE: i64 = 0x100_0000;

/// Height at which a coin appears, above the visible world.
pub const SPAWN_Y: i64 = -10_000;

/// A new coin moves sideways at up to this speed, to either side.
pub const SPAWN_SPREAD: i64 = 3000;

/// Least downward speed of a new coin.
pub const SPAWN_FALL_MIN: i64 = 3000;

/// The downward speed of a new coin is below `SPAWN_FALL_MIN` plus this.
pub const SPAWN_FALL_RANGE: i64 = 5000;

/// The torque of a new coin is this part of its sideways velocity.
pub const TORQUE_DIVISOR: i64 = 100;

/// The fraction that a random word stands for, as a count of `DRAW_ONE`ths.
pub open spec fn draw(word: u32) -> int {
    word as int / 256
}

/// The part of `extent` that the fraction of `word` cuts off, rounded
/// towards zero.
pub open spec fn portion(word: u32, extent: int) -> int {
    trunc_div(draw(word) * extent, DRAW_ONE as int)
}

/// The coin that four random words give in a world of the given width: its
/// sideways velocity, its downward velocity, its place and its look are
/// drawn in this order. It appears in the middle four fifths of the width.
pub open spec fn spawn_spec(
    word_vx: u32,
    word_vy: u32,
    word_x: u32,
    word_kind: u32,
    world_width: i64,
) -> Coin {
    let vx = portion(word_vx, 2 * SPAWN_SPREAD) - SPAWN_SPREAD;
    Coin {
        pos: Point {
            x: (portion(word_x, trunc_div(world_width * 8, 10)) + trunc_div(
                world_width as int,
                10,
            )) as i64,
            y: SPAWN_Y,
        },
        vel: Vector { x: vx as i64, y: (portion(word_vy, SPAWN_FALL_RANGE as int) + SPAWN_FALL_MIN) as i64 },
        torque: trunc_div(vx, TORQUE_DIVISOR as int) as i64,
        angle: 0,
        bounce_count: 0,
        coin_type: if 2 * draw(word_kind) < DRAW_ONE {
            CoinType::Gold
        } else {
            CoinType::Silver
        },
    }
}

/// Whether `c` is a coin as it can appear in a world of the given width.
pub open spec fn is_spawn(c: Coin, world_width: i64) -> bool {
    exists|word_vx: u32, word_vy: u32, word_x: u32, word_kind: u32|
        c == #[trigger] spawn_spec(word_vx, word_vy, word_x, word_kind, world_width)
}

/// A portion of an extent lies between zero and the extent.
pub proof fn lemma_portion_bounds(word: u32, extent: int)
    ensures
        extent >= 0 ==> 0 <= portion(word, extent) <= extent,
        extent > 0 ==> portion(word, extent) < extent,
        extent <= 0 ==> extent <= portion(word, extent) <= 0,
{
    let k = draw(word);
    assert(0 <= k < 0x100_0000);
    if extent >= 0 {
        assert(0 <= k * extent <= 0x100_0000 * extent && (extent > 0 ==> k * extent < 0x100_0000
            * extent)) by (nonlinear_arith)
            requires
                0 <= k < 0x100_0000,
                extent >= 0,
        ;
    } else {
        assert(0x100_0000 * extent <= k * extent <= 0) by (nonlinear_arith)
            requires
                0 <= k < 0x100_0000,
                extent < 0,
        ;
    }
}

/// Every coin appears above the world, unturned and unbounced, with a
/// sideways speed of at most `SPAWN_SPREAD`, a downward speed from
/// `SPAWN_FALL_MIN` on and below `SPAWN_FALL_MIN + SPAWN_FALL_RANGE`, and a
/// torque of a hundredth of its sideways velocity. In a world of
/// non-negative width it appears between one tenth and nine tenths of the
/// width.
pub proof fn lemma_spawn_ranges(c: Coin, world_width: i64)
    requires
        is_spawn(c, world_width),
    ensures
        c.pos.y == SPAWN_Y,
        -SPAWN_SPREAD <= c.vel.x < SPAWN_SPREAD,
        SPAWN_FALL_MIN <= c.vel.y < SPAWN_FALL_MIN + SPAWN_FALL_RANGE,
        c.torque == trunc_div(c.vel.x as int, TORQUE_DIVISOR as int),
        c.angle == 0,
        c.bounce_count == 0,
        world_width >= 0 ==> trunc_div(world_width as int, 10) <= c.pos.x <= trunc_div(
            world_width * 9,
            10,
        ),
        forall|ground: i64, radius: i64| c.wf(ground, radius),
{
    let (word_vx, word_vy, word_x, word_kind) = choose|
        word_vx: u32,
        word_vy: u32,
        word_x: u32,
        word_kind: u32,
    |
        c == #[trigger] spawn_spec(word_vx, word_vy, word_x, word_kind, world_width);
    lemma_portion_bounds(word_vx, 2 * SPAWN_SPREAD);
    lemma_portion_bounds(word_vy, SPAWN_FALL_RANGE as int);
    lemma_portion_bounds(word_x, trunc_div(world_width * 8, 10));
}

/// The leading 24 bits of a random word.
pub fn leading_bits(word: u32) -> (k: i64)
    ensures
        k == draw(word),
        0 <= k < DRAW_ONE,
{
    assert(word >> 8 == word / 256) by (bit_vector);
    assert(word >> 8 < 0x100_0000) by (bit_vector);
    (word >> 8) as i64
}

/// The part of `extent` that the fraction of `word` cuts off.
pub fn take_portion(word: u32, extent: i64) -> (r: i64)
    ensures
        r == portion(word, extent as int),
{
    proof {
        lemma_portion_bounds(word, extent as int);
    }
    sat_mul_div(leading_bits(word), extent, DRAW_ONE)
}

impl Coin {
    /// What holds of every coin that began with no bounce and was only ever
    /// stepped: it has bounced at most `COIN_MAX_BOUNCES` times, and with
    /// that many bounces it lies still on or above the ground.
    pub open spec fn wf(&self, ground: i64, radius: i64) -> bool {
        &&& self.bounce_count <= COIN_MAX_BOUNCES
        &&& self.bounce_count == COIN_MAX_BOUNCES ==> self.vel.y == 0 && !touches_ground(
            self.pos.y,
            ground,
            radius,
        )
    }

    /// A coin that has not turned and not bounced yet.
    pub fn new(pos: Point, vel: Vector, torque: i64, coin_type: CoinType) -> (c: Coin)
        ensures
            c == (Coin { pos, vel, torque, angle: 0, bounce_count: 0, coin_type }),
            forall|ground: i64, radius: i64| c.wf(ground, radius),
    {
        Coin { pos, vel, torque, angle: 0, bounce_count: 0, coin_type }
    }

    /// The coin that four random words give: see `spawn_spec`.
    pub fn spawned(word_vx: u32, word_vy: u32, word_x: u32, word_kind: u32, world_width: i64) -> (c:
        Coin)
        ensures
            c == spawn_spec(word_vx, word_vy, word_x, word_kind, world_width),
            is_spawn(c, world_width),
    {
        proof {
            lemma_portion_bounds(word_vx, 2 * SPAWN_SPREAD);
            lemma_portion_bounds(word_vy, SPAWN_FALL_RANGE as int);
            lemma_portion_bounds(word_x, trunc_div(world_width * 8, 10));
        }
        let vx: i64 = take_portion(word_vx, 2 * SPAWN_SPREAD) - SPAWN_SPREAD;
        let vy: i64 = take_portion(word_vy, SPAWN_FALL_RANGE) + SPAWN_FALL_MIN;
        let span: i64 = sat_mul_div(world_width, 8, 10);
        let margin: i64 = sat_mul_div(world_width, 1, 10);
        let x: i64 = take_portion(word_x, span) + margin;
        let coin_type = if 2 * leading_bits(word_kind) < DRAW_ONE {
            CoinType::Gold
        } else {
            CoinType::Silver
        };
        Coin {
            pos: Point { x, y: SPAWN_Y },
            vel: Vector { x: vx, y: vy },
            torque: sat_mul_div(vx, 1, TORQUE_DIVISOR),
            angle: 0,
            bounce_count: 0,
            coin_type,
        }
    }

    /// Advances the coin by one frame in a world whose right side is at
    /// `world_width` and whose ground is at `ground`, for coins of the given
    /// radius.
    pub fn step(&mut self, world_width: i64, ground: i64, radius: i64)
        requires
            i64::MIN <= ground - radius <= i64::MAX,
            old(self).bounce_count < usize::MAX,
        ensures
            *final(self) == step_spec(*old(self), world_width, ground, radius),
            !touches_ground(final(self).pos.y, ground, radius),
            final(self).bounce_count >= old(self).bounce_count,
            final(self).bounce_count >= COIN_MAX_BOUNCES ==> final(self).vel.y == 0,
            old(self).wf(ground, radius) ==> final(self).wf(ground, radius),
    {
        self.pos.x = sat_add(self.pos.x, self.vel.x);
        self.pos.y = sat_add(self.pos.y, self.vel.y);
        self.vel.y = sat_add(self.vel.y, GRAVITY);
        self.angle = sat_add(self.angle, self.torque);
        if self.pos.x as i128 + radius as i128 > world_width as i128 || self.pos.x < 0 {
            self.vel.x = sat_neg(self.vel.x);
            self.torque = sat_neg(self.torque);
        }
        if self.pos.y as i128 + radius as i128 > ground as i128 {
            self.vel.y = sat_mul_div(self.vel.y, RESTITUTION_NUM, RESTITUTION_DEN);
            self.pos.y = sat_sub(ground, radius);
            self.bounce_count = self.bounce_count + 1;
        }
        if self.bounce_count >= COIN_MAX_BOUNCES {
            self.vel.y = 0;
        }
    }
}

/// After one step or more a coin does not reach below the ground, whatever
/// it was before.
pub proof fn lemma_stepped_coin_rests_on_ground(
    c: Coin,
    world_width: i64,
    ground: i64,
    radius: i64,
    n: nat,
)
    requires
        i64::MIN <= ground - radius <= i64::MAX,
        n >= 1,
    ensures
        steps_spec(c, world_width, ground, radius, n).pos.y + radius <= ground,
{
}

/// Stepping keeps a coin well formed.
pub proof fn lemma_steps_keep_wf(c: Coin, world_width: i64, ground: i64, radius: i64, n: nat)
    requires
        i64::MIN <= ground - radius <= i64::MAX,
        c.wf(ground, radius),
    ensures
        steps_spec(c, world_width, ground, radius, n).wf(ground, radius),
    decreases n,
{
    if n > 0 {
        lemma_steps_keep_wf(c, world_width, ground, radius, (n - 1) as nat);
    }
}

/// The bounce count of a coin never goes down: after `n` steps it is at
/// least what it was after `m <= n` steps.
pub proof fn lemma_bounce_count_never_decreases(
    c: Coin,
    world_width: i64,
    ground: i64,
    radius: i64,
    m: nat,
    n: nat,
)
    requires
        i64::MIN <= ground - radius <= i64::MAX,
        c.wf(ground, radius),
        m <= n,
    ensures
        steps_spec(c, world_width, ground, radius, m).bounce_count <= steps_spec(
            c,
            world_width,
            ground,
            radius,
            n,
        ).bounce_count,
    decreases n,
{
    if m < n {
        lemma_bounce_count_never_decreases(c, world_width, ground, radius, m, (n - 1) as nat);
        lemma_steps_keep_wf(c, world_width, ground, radius, (n - 1) as nat);
    }
}

/// Once a coin has bounced `COIN_MAX_BOUNCES` times it has no vertical
/// velocity after that step, nor after any later one, and it bounces no
/// more.
pub proof fn lemma_exhausted_coin_stays_at_rest(
    c: Coin,
    world_width: i64,
    ground: i64,
    radius: i64,
    m: nat,
    n: nat,
)
    requires
        i64::MIN <= ground - radius <= i64::MAX,
        c.wf(ground, radius),
        m <= n,
        steps_spec(c, world_width, ground, radius, m).bounce_count >= COIN_MAX_BOUNCES,
    ensures
        steps_spec(c, world_width, ground, radius, n).vel.y == 0,
        steps_spec(c, world_width, ground, radius, n).bounce_count == COIN_MAX_BOUNCES,
{
    lemma_bounce_count_never_decreases(c, world_width, ground, radius, m, n);
    lemma_steps_keep_wf(c, world_width, ground, radius, n);
}

} // verus!
