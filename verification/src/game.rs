//! The whole game: the player, the coins and the score, advanced once per
//! frame and turned into a list of things to draw.

use vstd::prelude::*;
use crate::coin::Coin;
use crate::coinspawner::{outside, CoinSpawner, ItemSet, COIN_RADIUS, SPAWN_INTERVAL_MS};
use crate::fixed::{clamp, from_units, sat_add, sat_mul_div, sat_sub, trunc_div, units};
use crate::geometry::{Point, Rect};
use crate::player::{key_down_spec, key_up_spec, lands, update_spec, Key, Player, PlayerState};
use crate::sprites::{normalize_rect, normalized_rect, SpriteDraw};
use crate::text::{score_line, score_text};

verus! {

/// Height of the ground, in whole world units.
pub const GROUND_UNITS: i32 = 500;

/// How far the ground reaches down from its surface.
pub const GROUND_DEPTH: i64 = 300_000;

pub const PLAYER_SPRITE_WIDTH: i64 = 72_000;

pub const PLAYER_SPRITE_HEIGHT: i64 = 97_000;

/// Regions of the frames of the walk cycle in the player's sheet, in pixels.
pub open spec fn walking_pixels() -> Seq<Rect> {
    seq![
        Rect { x: 0, y: 0, w: 72, h: 97 },
        Rect { x: 146, y: 0, w: 72, h: 97 },
        Rect { x: 0, y: 98, w: 72, h: 97 },
        Rect { x: 73, y: 98, w: 72, h: 97 },
        Rect { x: 146, y: 98, w: 72, h: 97 },
        Rect { x: 219, y: 0, w: 72, h: 97 },
        Rect { x: 292, y: 0, w: 72, h: 97 },
    ]
}

/// Region of the standing player in its sheet, in pixels.
pub open spec fn idle_pixels() -> Rect {
    Rect { x: 67, y: 196, w: 66, h: 92 }
}

/// Region of the jumping player in its sheet, in pixels.
pub open spec fn jump_pixels() -> Rect {
    Rect { x: 438, y: 93, w: 67, h: 94 }
}

/// The rectangle in which a player at `pos` picks up coins: the box of its
/// sprite, grown to the left and to the top by half the radius of a coin.
pub open spec fn collection_rect_spec(
    pos: Point,
    sprite_width: i64,
    sprite_height: i64,
    coin_radius: i64,
) -> Rect {
    let pad = trunc_div(coin_radius as int, 2);
    Rect {
        x: clamp(pos.x - pad),
        y: clamp(pos.y - pad),
        w: clamp(sprite_width + pad),
        h: clamp(sprite_height + pad),
    }
}

/// What a frame brought.
#[derive(Clone, Copy, Debug, PartialEq, Eq, Structural)]
pub struct FrameReport {
    /// Coins picked up in this frame.
    pub collected: usize,
    /// Whether the sound of a picked-up coin is due.
    pub play_collect_sound: bool,
}

/// Everything to draw for one frame, in texture space and world coordinates.
pub struct Scene {
    pub ground: Rect,
    pub player: SpriteDraw,
    pub collection_rect: Rect,
    pub coins: Vec<SpriteDraw>,
    /// The line that shows the score.
    pub score_text: String,
}

pub struct Game {
    pub sprite_defs_walking: Vec<Rect>,
    pub sprite_def_idle: Rect,
    pub sprite_def_jump: Rect,
    pub player_sprite_width: i64,
    pub player_sprite_height: i64,
    pub player: Player,
    pub ground: i64,
    pub ground_rect: Rect,
    pub coin_spawner: CoinSpawner,
}

impl Game {
    pub open spec fn wf(&self) -> bool {
        &&& self.coin_spawner.wf()
        &&& self.player.wf(self.sprite_defs_walking.len())
        &&& i64::MIN <= self.ground - self.player_sprite_height <= i64::MAX
    }

    /// Whether everything but the player and the spawner is as in `other`.
    pub open spec fn same_setup(&self, other: &Game) -> bool {
        &&& self.sprite_defs_walking@ == other.sprite_defs_walking@
        &&& self.sprite_def_idle == other.sprite_def_idle
        &&& self.sprite_def_jump == other.sprite_def_jump
        &&& self.player_sprite_width == other.player_sprite_width
        &&& self.player_sprite_height == other.player_sprite_height
        &&& self.ground == other.ground
        &&& self.ground_rect == other.ground_rect
        &&& self.coin_spawner.same_world(&other.coin_spawner)
    }

    /// The rectangle in which the player picks up coins.
    pub open spec fn collection_area(&self) -> Rect {
        collection_rect_spec(
            self.player.pos,
            self.player_sprite_width,
            self.player_sprite_height,
            self.coin_spawner.coin_radius,
        )
    }

    /// The player one frame later, but for its score.
    pub open spec fn moved_player(&self, elapsed_ms: u32, move_held: bool) -> Player {
        update_spec(
            self.player,
            elapsed_ms,
            self.ground,
            self.player_sprite_height,
            self.sprite_defs_walking.len(),
            move_held,
        )
    }

    /// The region of the player's sheet that shows the player as it is.
    pub open spec fn player_region(&self) -> Rect {
        match self.player.state {
            PlayerState::Stand => self.sprite_def_idle,
            PlayerState::Walk => self.sprite_defs_walking@[self.player.walk_frame as int],
            PlayerState::Jump => self.sprite_def_jump,
        }
    }

    /// How to draw the player: mirrored while it moves to the left, and
    /// then placed one sprite width further right, so that the mirrored
    /// sprite fills the same box.
    pub open spec fn player_sprite(&self) -> SpriteDraw {
        let mirrored = self.player.vel.x < 0;
        SpriteDraw {
            src: self.player_region(),
            dest: Point {
                x: if mirrored {
                    clamp(self.player.pos.x + self.player_sprite_width)
                } else {
                    self.player.pos.x
                },
                y: self.player.pos.y,
            },
            offset: Point { x: 0, y: 0 },
            rotation: 0,
            mirrored,
        }
    }

    /// A new game in a world of the given size in whole world units, for a
    /// player sheet and an item sheet of the given sizes in pixels.
    pub fn new(
        world_width: i32,
        world_height: i32,
        player_sheet_width: u32,
        player_sheet_height: u32,
        item_sheet_width: u32,
        item_sheet_height: u32,
    ) -> (g: Game)
        requires
            player_sheet_width > 0,
            player_sheet_height > 0,
            item_sheet_width > 0,
            item_sheet_height > 0,
        ensures
            g.wf(),
            g.sprite_defs_walking@.len() == walking_pixels().len(),
            forall|i: int|
                0 <= i < walking_pixels().len() ==> #[trigger] g.sprite_defs_walking@[i]
                    == normalized_rect(walking_pixels()[i], player_sheet_width, player_sheet_height),
            g.sprite_def_idle == normalized_rect(
                idle_pixels(),
                player_sheet_width,
                player_sheet_height,
            ),
            g.sprite_def_jump == normalized_rect(
                jump_pixels(),
                player_sheet_width,
                player_sheet_height,
            ),
            g.player_sprite_width == PLAYER_SPRITE_WIDTH,
            g.player_sprite_height == PLAYER_SPRITE_HEIGHT,
            g.player.is_new(),
            g.ground == units(GROUND_UNITS as int),
            g.ground_rect == (Rect {
                x: 0,
                y: g.ground,
                w: g.coin_spawner.world_width,
                h: GROUND_DEPTH,
            }),
            g.coin_spawner.item_set == ItemSet::of_sheet(item_sheet_width, item_sheet_height),
            g.coin_spawner.coins@ == Seq::<Coin>::empty(),
            g.coin_spawner.spawn_timer == 0,
            g.coin_spawner.spawn_time == SPAWN_INTERVAL_MS,
            g.coin_spawner.coin_radius == COIN_RADIUS,
            g.coin_spawner.world_width == units(world_width as int),
            g.coin_spawner.world_height == units(world_height as int),
            g.coin_spawner.ground == g.ground,
    {
        let mut walking: Vec<Rect> = Vec::new();
        walking.push(Rect::new(0, 0, 72, 97));
        walking.push(Rect::new(146, 0, 72, 97));
        walking.push(Rect::new(0, 98, 72, 97));
        walking.push(Rect::new(73, 98, 72, 97));
        walking.push(Rect::new(146, 98, 72, 97));
        walking.push(Rect::new(219, 0, 72, 97));
        walking.push(Rect::new(292, 0, 72, 97));
        assert(walking@ =~= walking_pixels());
        let mut i: usize = 0;
        while i < walking.len()
            invariant
                player_sheet_width > 0,
                player_sheet_height > 0,
                i <= walking@.len(),
                walking@.len() == walking_pixels().len(),
                forall|j: int|
                    0 <= j < i ==> #[trigger] walking@[j] == normalized_rect(
                        walking_pixels()[j],
                        player_sheet_width,
                        player_sheet_height,
                    ),
                forall|j: int| i <= j < walking@.len() ==> #[trigger] walking@[j] == walking_pixels()[j],
            decreases walking@.len() - i,
        {
            let def = normalize_rect(walking[i], player_sheet_width, player_sheet_height);
            walking[i] = def;
            i += 1;
        }
        let idle = normalize_rect(Rect::new(67, 196, 66, 92), player_sheet_width, player_sheet_height);
        let jump = normalize_rect(Rect::new(438, 93, 67, 94), player_sheet_width, player_sheet_height);
        let item_set = ItemSet::new(item_sheet_width, item_sheet_height);
        let coin_spawner = CoinSpawner::new(item_set, world_width, world_height, GROUND_UNITS);
        let ground = from_units(GROUND_UNITS);
        let ground_rect = Rect::new(0, ground, coin_spawner.world_width, GROUND_DEPTH);
        Game {
            sprite_defs_walking: walking,
            sprite_def_idle: idle,
            sprite_def_jump: jump,
            player_sprite_width: PLAYER_SPRITE_WIDTH,
            player_sprite_height: PLAYER_SPRITE_HEIGHT,
            player: Player::new(),
            ground,
            ground_rect,
            coin_spawner,
        }
    }

    /// The rectangle in which the player picks up coins.
    pub fn collection_rect(&self) -> (r: Rect)
        ensures
            r == self.collection_area(),
    {
        let pad: i64 = sat_mul_div(self.coin_spawner.coin_radius, 1, 2);
        Rect::new(
            sat_sub(self.player.pos.x, pad),
            sat_sub(self.player.pos.y, pad),
            sat_add(self.player_sprite_width, pad),
            sat_add(self.player_sprite_height, pad),
        )
    }

    /// One frame: the player moves, then the spawner spawns and steps its
    /// coins, then the player picks up every coin whose place its
    /// collection rectangle covers, and scores one for each.
    pub fn update(&mut self, elapsed_ms: u32, move_held: bool) -> (report: FrameReport)
        requires
            old(self).wf(),
        ensures
            final(self).wf(),
            final(self).same_setup(old(self)),
            final(self).player == (Player {
                score: final(self).player.score,
                ..old(self).moved_player(elapsed_ms, move_held)
            }),
            final(self).player.score@ == old(self).player.score@ + report.collected,
            final(self).coin_spawner.spawn_timer == old(self).coin_spawner.timer_after(elapsed_ms),
            exists|stepped: Seq<Coin>|
                {
                    &&& #[trigger] old(self).coin_spawner.update_yields(elapsed_ms, stepped)
                    &&& final(self).coin_spawner.coins@ == stepped.filter(
                        outside(final(self).collection_area()),
                    )
                    &&& report.collected == stepped.len() - final(self).coin_spawner.coins@.len()
                },
            report.play_collect_sound == (report.collected > 0),
    {
        let frame_count = self.sprite_defs_walking.len();
        self.player.update(elapsed_ms, self.ground, self.player_sprite_height, frame_count, move_held);
        self.coin_spawner.update(elapsed_ms);
        let ghost stepped = self.coin_spawner.coins@;
        let player_rect = self.collection_rect();
        let collected = self.coin_spawner.collect(&player_rect);
        self.player.score.increase(collected);
        FrameReport { collected, play_collect_sound: collected > 0 }
    }

    /// A key went down.
    pub fn key_down_event(&mut self, key: Key)
        ensures
            final(self).player == key_down_spec(old(self).player, key),
            final(self).same_setup(old(self)),
            final(self).coin_spawner.coins@ == old(self).coin_spawner.coins@,
            final(self).coin_spawner.spawn_timer == old(self).coin_spawner.spawn_timer,
            old(self).wf() ==> final(self).wf(),
    {
        self.player.key_down(key);
    }

    /// A key went up. `opposite_held` says, for a movement key, whether the
    /// key of the other direction is held. The reset key makes the spawner
    /// spawn on the next frame in which time passes.
    pub fn key_up_event(&mut self, key: Key, opposite_held: bool)
        ensures
            final(self).player == key_up_spec(old(self).player, key, opposite_held),
            final(self).same_setup(old(self)),
            final(self).coin_spawner.coins@ == old(self).coin_spawner.coins@,
            final(self).coin_spawner.spawn_timer == if key == Key::ResetTimer {
                1
            } else {
                old(self).coin_spawner.spawn_timer
            },
            old(self).wf() ==> final(self).wf(),
    {
        self.player.key_up(key, opposite_held);
        if key == Key::ResetTimer {
            self.coin_spawner.reset_timer();
        }
    }

    /// What to draw: the ground, the player as its state shows it, the
    /// rectangle in which it picks up coins, the coins and the score line.
    pub fn draw(&self) -> (scene: Scene)
        requires
            self.wf(),
        ensures
            scene.ground == self.ground_rect,
            scene.player == self.player_sprite(),
            scene.collection_rect == self.collection_area(),
            scene.coins@.len() == self.coin_spawner.coins@.len(),
            forall|i: int|
                0 <= i < self.coin_spawner.coins@.len() ==> #[trigger] scene.coins@[i]
                    == self.coin_spawner.item_set.sprite_of(self.coin_spawner.coins@[i]),
            scene.score_text@ == score_line(self.player.score@),
    {
        let src = match self.player.state {
            PlayerState::Stand => self.sprite_def_idle,
            PlayerState::Walk => self.sprite_defs_walking[self.player.walk_frame],
            PlayerState::Jump => self.sprite_def_jump,
        };
        let mirrored = self.player.vel.x < 0;
        let x = if mirrored {
            sat_add(self.player.pos.x, self.player_sprite_width)
        } else {
            self.player.pos.x
        };
        let player = SpriteDraw {
            src,
            dest: Point { x, y: self.player.pos.y },
            offset: Point { x: 0, y: 0 },
            rotation: 0,
            mirrored,
        };
        Scene {
            ground: self.ground_rect,
            player,
            collection_rect: self.collection_rect(),
            coins: self.coin_spawner.draw(),
            score_text: score_text(&self.player.score),
        }
    }
}

/// A frame in which no time passes leaves the player where and as it is,
/// unless it is in the air at the height of the ground or below, where it
/// lands at once.
pub proof fn lemma_idle_frame_keeps_player(g: Game, move_held: bool)
    requires
        g.wf(),
        !(g.player.state == PlayerState::Jump && lands(
            g.player.pos.y,
            g.player_sprite_height,
            g.ground,
        )),
    ensures
        g.moved_player(0, move_held).pos == g.player.pos,
        g.moved_player(0, move_held).state == g.player.state,
        g.moved_player(0, move_held).walk_frame == g.player.walk_frame,
        g.moved_player(0, move_held).vel.x == g.player.vel.x,
{
}

/// A frame in which no time passes spawns nothing and leaves the countdown
/// as it is, unless the countdown has already run out, as that of a new
/// spawner has.
pub proof fn lemma_idle_frame_spawns_nothing(s: CoinSpawner, coins: Seq<Coin>)
    requires
        s.wf(),
        s.spawn_timer > 0,
        s.update_yields(0, coins),
    ensures
        !s.expires(0),
        s.timer_after(0) == s.spawn_timer,
        coins.len() == s.coins@.len(),
{
}

} // verus!
