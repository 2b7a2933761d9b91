//! The owner of the live coins: it lets two new coins appear whenever its
//! countdown runs out, steps every coin once per frame, and gives up the
//! coins that a collector covers.

use vstd::prelude::*;
use crate::coin::{is_spawn, lemma_spawn_ranges, step_spec, touches_ground, Coin, CoinType};
use crate::fixed::{from_units, units};
use crate::geometry::{Point, Rect};
use crate::rng::{next_word, thread_generator};
use crate::sprites::{normalize_point, normalize_rect, normalized_point, normalized_rect, SpriteDraw};

verus! {

/// Milliseconds between two spawn batches.
pub const SPAWN_INTERVAL_MS: i64 = 100;

/// Coins in a spawn batch.
pub const SPAWN_BATCH: usize = 2;

/// The radius of every coin.
pub const COIN_RADIUS: i64 = 70_000;

/// Region of the gold coin in the item sheet, in pixels.
pub open spec fn gold_coin_pixels() -> Rect {
    Rect { x: 288, y: 360, w: 70, h: 70 }
}

/// Region of the silver coin in the item sheet, in pixels.
pub open spec fn silver_coin_pixels() -> Rect {
    Rect { x: 288, y: 288, w: 70, h: 70 }
}

/// The pivot of the gold coin, in pixels of the sheet: the middle of its
/// region.
pub open spec fn gold_coin_pivot_pixels() -> Point {
    Point { x: 323, y: 395 }
}

/// The pivot of the silver coin, in pixels of the sheet: the top-left corner
/// of its region.
pub open spec fn silver_coin_pivot_pixels() -> Point {
    Point { x: 288, y: 288 }
}

/// Where the two kinds of coin are found in the item sheet, in texture
/// space.
#[derive(Clone, Copy, Debug, PartialEq, Eq, Structural)]
pub struct ItemSet {
    pub gold_coin_def: Rect,
    pub gold_coin_center: Point,
    pub silver_coin_def: Rect,
    pub silver_coin_center: Point,
}

impl ItemSet {
    /// The item set of a sheet of the given size in pixels.
    pub open spec fn of_sheet(sheet_width: u32, sheet_height: u32) -> ItemSet {
        ItemSet {
            gold_coin_def: normalized_rect(gold_coin_pixels(), sheet_width, sheet_height),
            gold_coin_center: normalized_point(gold_coin_pivot_pixels(), sheet_width, sheet_height),
            silver_coin_def: normalized_rect(silver_coin_pixels(), sheet_width, sheet_height),
            silver_coin_center: normalized_point(
                silver_coin_pivot_pixels(),
                sheet_width,
                sheet_height,
            ),
        }
    }

    /// The region of a kind of coin.
    pub open spec fn def_of(&self, coin_type: CoinType) -> Rect {
        match coin_type {
            CoinType::Gold => self.gold_coin_def,
            CoinType::Silver => self.silver_coin_def,
        }
    }

    /// The pivot of a kind of coin.
    pub open spec fn center_of(&self, coin_type: CoinType) -> Point {
        match coin_type {
            CoinType::Gold => self.gold_coin_center,
            CoinType::Silver => self.silver_coin_center,
        }
    }

    /// How to draw a coin: its kind's region and pivot, at the coin's place
    /// and angle.
    pub open spec fn sprite_of(&self, coin: Coin) -> SpriteDraw {
        SpriteDraw {
            src: self.def_of(coin.coin_type),
            dest: coin.pos,
            offset: self.center_of(coin.coin_type),
            rotation: coin.angle,
            mirrored: false,
        }
    }

    pub fn new(sheet_width: u32, sheet_height: u32) -> (set: ItemSet)
        requires
            sheet_width > 0,
            sheet_height > 0,
        ensures
            set == ItemSet::of_sheet(sheet_width, sheet_height),
    {
        let gold = Rect::new(288, 360, 70, 70);
        let silver = Rect::new(288, 288, 70, 70);
        let gold_center = Point { x: gold.x + gold.w / 2, y: gold.y + gold.h / 2 };
        let silver_center = Point { x: silver.x, y: silver.y };
        ItemSet {
            gold_coin_def: normalize_rect(gold, sheet_width, sheet_height),
            gold_coin_center: normalize_point(gold_center, sheet_width, sheet_height),
            silver_coin_def: normalize_rect(silver, sheet_width, sheet_height),
            silver_coin_center: normalize_point(silver_center, sheet_width, sheet_height),
        }
    }

    pub fn sprite(&self, coin: &Coin) -> (s: SpriteDraw)
        ensures
            s == self.sprite_of(*coin),
    {
        let (src, offset) = match coin.coin_type {
            CoinType::Gold => (self.gold_coin_def, self.gold_coin_center),
            CoinType::Silver => (self.silver_coin_def, self.silver_coin_center),
        };
        SpriteDraw { src, dest: coin.pos, offset, rotation: coin.angle, mirrored: false }
    }
}

/// The test that a coin passes where `area` does not cover its place.
pub open spec fn outside(area: Rect) -> spec_fn(Coin) -> bool {
    |c: Coin| !area.covers(c.pos)
}

pub struct CoinSpawner {
    pub item_set: ItemSet,
    /// Milliseconds until the next spawn batch.
    pub spawn_timer: i64,
    /// Milliseconds between two spawn batches.
    pub spawn_time: i64,
    /// The live coins, oldest first.
    pub coins: Vec<Coin>,
    pub world_width: i64,
    pub world_height: i64,
    /// Height of the ground.
    pub ground: i64,
    pub rng: rand::rngs::ThreadRng,
    pub coin_radius: i64,
}

impl CoinSpawner {
    pub open spec fn wf(&self) -> bool {
        &&& 1 <= self.spawn_time
        &&& 0 <= self.spawn_timer <= self.spawn_time
        &&& i64::MIN <= self.ground - self.coin_radius <= i64::MAX
        &&& forall|i: int|
            0 <= i < self.coins@.len() ==> (#[trigger] self.coins@[i]).wf(
                self.ground,
                self.coin_radius,
            )
    }

    /// Whether everything but the coins, the countdown and the generator is
    /// as in `other`.
    pub open spec fn same_world(&self, other: &CoinSpawner) -> bool {
        &&& self.item_set == other.item_set
        &&& self.spawn_time == other.spawn_time
        &&& self.world_width == other.world_width
        &&& self.world_height == other.world_height
        &&& self.ground == other.ground
        &&& self.coin_radius == other.coin_radius
    }

    /// A coin of this spawner's world one frame later.
    pub open spec fn stepped(&self, c: Coin) -> Coin {
        step_spec(c, self.world_width, self.ground, self.coin_radius)
    }

    /// Whether `c` is a coin that appeared in this spawner's world and was
    /// stepped once.
    pub open spec fn is_stepped_spawn(&self, c: Coin) -> bool {
        exists|fresh: Coin| #[trigger] is_spawn(fresh, self.world_width) && c == self.stepped(fresh)
    }

    /// Whether `coins` can be this spawner's coins after a frame of
    /// `elapsed_ms` milliseconds: the coins it has, each stepped once, and
    /// behind them, where the countdown runs out, a batch of stepped new
    /// coins.
    pub open spec fn update_yields(&self, elapsed_ms: u32, coins: Seq<Coin>) -> bool {
        &&& coins.len() == self.coins@.len() + if self.expires(elapsed_ms) {
            SPAWN_BATCH as int
        } else {
            0
        }
        &&& forall|i: int|
            0 <= i < self.coins@.len() ==> #[trigger] coins[i] == self.stepped(self.coins@[i])
        &&& forall|i: int|
            self.coins@.len() <= i < coins.len() ==> self.is_stepped_spawn(#[trigger] coins[i])
    }

    /// The countdown after a frame of `elapsed_ms` milliseconds.
    pub open spec fn timer_after(&self, elapsed_ms: u32) -> int {
        if self.expires(elapsed_ms) {
            self.spawn_time as int
        } else {
            self.spawn_timer - elapsed_ms
        }
    }

    /// Whether the countdown runs out within `elapsed_ms` milliseconds.
    pub open spec fn expires(&self, elapsed_ms: u32) -> bool {
        self.spawn_timer - elapsed_ms <= 0
    }

    /// A spawner without coins, for a world of the given size and ground
    /// height in whole world units. Its countdown has run out: the first
    /// update spawns.
    pub fn new(item_set: ItemSet, world_width: i32, world_height: i32, ground: i32) -> (s:
        CoinSpawner)
        ensures
            s.wf(),
            s.item_set == item_set,
            s.spawn_timer == 0,
            s.spawn_time == SPAWN_INTERVAL_MS,
            s.coins@ == Seq::<Coin>::empty(),
            s.world_width == units(world_width as int),
            s.world_height == units(world_height as int),
            s.ground == units(ground as int),
            s.coin_radius == COIN_RADIUS,
    {
        CoinSpawner {
            item_set,
            spawn_timer: 0,
            spawn_time: SPAWN_INTERVAL_MS,
            coins: Vec::new(),
            rng: thread_generator(),
            world_width: from_units(world_width),
            world_height: from_units(world_height),
            ground: from_units(ground),
            coin_radius: COIN_RADIUS,
        }
    }

    /// Lets one coin appear, drawn from the spawner's generator.
    pub fn spawn_coin(&mut self)
        ensures
            final(self).coins@.len() == old(self).coins@.len() + 1,
            final(self).coins@.drop_last() == old(self).coins@,
            is_spawn(final(self).coins@.last(), old(self).world_width),
            final(self).spawn_timer == old(self).spawn_timer,
            final(self).same_world(old(self)),
            old(self).wf() ==> final(self).wf(),
    {
        let word_vx = next_word(&mut self.rng);
        let word_vy = next_word(&mut self.rng);
        let word_x = next_word(&mut self.rng);
        let word_kind = next_word(&mut self.rng);
        let coin = Coin::spawned(word_vx, word_vy, word_x, word_kind, self.world_width);
        self.coins.push(coin);
        proof {
            assert(self.coins@.drop_last() =~= old(self).coins@);
        }
    }

    /// Makes the next update spawn, if any time passes before it.
    pub fn reset_timer(&mut self)
        ensures
            final(self).spawn_timer == 1,
            forall|elapsed_ms: u32| elapsed_ms >= 1 ==> #[trigger] final(self).expires(elapsed_ms),
            final(self).coins@ == old(self).coins@,
            final(self).same_world(old(self)),
            old(self).wf() ==> final(self).wf(),
    {
        self.spawn_timer = 1;
    }

    /// Steps every live coin once.
    pub fn step_coins(&mut self)
        requires
            old(self).wf(),
        ensures
            final(self).wf(),
            final(self).same_world(old(self)),
            final(self).spawn_timer == old(self).spawn_timer,
            final(self).coins@.len() == old(self).coins@.len(),
            forall|i: int|
                0 <= i < old(self).coins@.len() ==> #[trigger] final(self).coins@[i] == old(
                    self,
                ).stepped(old(self).coins@[i]),
            forall|i: int|
                0 <= i < final(self).coins@.len() ==> !touches_ground(
                    (#[trigger] final(self).coins@[i]).pos.y,
                    old(self).ground,
                    old(self).coin_radius,
                ),
    {
        let world_width = self.world_width;
        let ground = self.ground;
        let radius = self.coin_radius;
        let mut i: usize = 0;
        while i < self.coins.len()
            invariant
                i <= self.coins@.len(),
                self.coins@.len() == old(self).coins@.len(),
                self.same_world(old(self)),
                self.spawn_timer == old(self).spawn_timer,
                world_width == self.world_width,
                ground == self.ground,
                radius == self.coin_radius,
                old(self).wf(),
                forall|j: int|
                    0 <= j < i ==> #[trigger] self.coins@[j] == old(self).stepped(
                        old(self).coins@[j],
                    ),
                forall|j: int|
                    i <= j < self.coins@.len() ==> #[trigger] self.coins@[j] == old(self).coins@[j],
            decreases self.coins@.len() - i,
        {
            let mut coin = self.coins[i];
            coin.step(world_width, ground, radius);
            self.coins[i] = coin;
            i += 1;
        }
    }

    /// One frame of the spawner: the countdown goes down by the time that
    /// has passed; where it runs out it starts again and a batch of coins
    /// appears; then every coin, the new ones too, is stepped once.
    pub fn update(&mut self, elapsed_ms: u32)
        requires
            old(self).wf(),
        ensures
            final(self).wf(),
            final(self).same_world(old(self)),
            final(self).spawn_timer == old(self).timer_after(elapsed_ms),
            old(self).update_yields(elapsed_ms, final(self).coins@),
            forall|i: int|
                0 <= i < final(self).coins@.len() ==> !touches_ground(
                    (#[trigger] final(self).coins@[i]).pos.y,
                    old(self).ground,
                    old(self).coin_radius,
                ),
    {
        let remaining: i64 = self.spawn_timer - elapsed_ms as i64;
        if remaining <= 0 {
            self.spawn_timer = self.spawn_time;
            let mut spawned: usize = 0;
            while spawned < SPAWN_BATCH
                invariant
                    spawned <= SPAWN_BATCH,
                    self.wf(),
                    self.same_world(old(self)),
                    self.spawn_timer == old(self).spawn_time,
                    self.coins@.len() == old(self).coins@.len() + spawned,
                    forall|j: int|
                        0 <= j < old(self).coins@.len() ==> #[trigger] self.coins@[j] == old(
                            self,
                        ).coins@[j],
                    forall|j: int|
                        old(self).coins@.len() <= j < self.coins@.len() ==> is_spawn(
                            #[trigger] self.coins@[j],
                            old(self).world_width,
                        ),
                decreases SPAWN_BATCH - spawned,
            {
                let ghost before = self.coins@;
                self.spawn_coin();
                proof {
                    assert(self.coins@ =~= before.push(self.coins@.last()));
                }
                spawned += 1;
            }
        } else {
            self.spawn_timer = remaining;
        }
        let ghost fresh = self.coins@;
        self.step_coins();
        proof {
            assert forall|i: int|
                old(self).coins@.len() <= i < self.coins@.len() implies old(
                self,
            ).is_stepped_spawn(#[trigger] self.coins@[i]) by {
                assert(is_spawn(fresh[i], old(self).world_width));
                assert(self.coins@[i] == old(self).stepped(fresh[i]));
            }
        }
    }

    /// Takes out every coin whose place `area` covers, and says how many
    /// they were. The other coins stay as they are, in their order.
    pub fn collect(&mut self, area: &Rect) -> (collected: usize)
        ensures
            final(self).coins@ == old(self).coins@.filter(outside(*area)),
            collected == old(self).coins@.len() - final(self).coins@.len(),
            final(self).spawn_timer == old(self).spawn_timer,
            final(self).same_world(old(self)),
            old(self).wf() ==> final(self).wf(),
    {
        let before: usize = self.coins.len();
        let mut kept: Vec<Coin> = Vec::new();
        let mut i: usize = 0;
        proof {
            reveal(Seq::filter);
            assert(self.coins@.take(0) =~= Seq::<Coin>::empty());
        }
        while i < self.coins.len()
            invariant
                i <= self.coins@.len(),
                *self == *old(self),
                kept@ == self.coins@.take(i as int).filter(outside(*area)),
                kept@.len() <= i,
                forall|j: int|
                    0 <= j < kept@.len() ==> exists|k: int|
                        0 <= k < i && #[trigger] kept@[j] == #[trigger] self.coins@[k],
            decreases self.coins@.len() - i,
        {
            let coin = self.coins[i];
            proof {
                reveal(Seq::filter);
                assert(self.coins@.take(i + 1).drop_last() =~= self.coins@.take(i as int));
                assert(self.coins@.take(i + 1).last() == coin);
            }
            let ghost kept_before = kept@;
            if !area.contains(coin.pos) {
                kept.push(coin);
                proof {
                    assert forall|j: int| 0 <= j < kept@.len() implies exists|k: int|
                        0 <= k < i + 1 && #[trigger] kept@[j] == #[trigger] self.coins@[k] by {
                        if j < kept_before.len() {
                            let k = choose|k: int| 0 <= k < i && kept_before[j] == self.coins@[k];
                            assert(kept@[j] == self.coins@[k]);
                        } else {
                            assert(kept@[j] == self.coins@[i as int]);
                        }
                    }
                }
            }
            i += 1;
        }
        proof {
            assert(self.coins@.take(i as int) =~= self.coins@);
        }
        self.coins = kept;
        before - self.coins.len()
    }

    /// What to draw for the live coins: one sprite for each, in their order.
    pub fn draw(&self) -> (sprites: Vec<SpriteDraw>)
        ensures
            sprites@.len() == self.coins@.len(),
            forall|i: int|
                0 <= i < self.coins@.len() ==> #[trigger] sprites@[i] == self.item_set.sprite_of(
                    self.coins@[i],
                ),
    {
        let mut sprites: Vec<SpriteDraw> = Vec::new();
        let mut i: usize = 0;
        while i < self.coins.len()
            invariant
                i <= self.coins@.len(),
                sprites@.len() == i,
                forall|j: int|
                    0 <= j < i ==> #[trigger] sprites@[j] == self.item_set.sprite_of(
                        self.coins@[j],
                    ),
            decreases self.coins@.len() - i,
        {
            let sprite = self.item_set.sprite(&self.coins[i]);
            sprites.push(sprite);
            i += 1;
        }
        sprites
    }
}

/// A frame in which the countdown runs out brings exactly one batch: the
/// coins that were there are still there, stepped, and behind them stand
/// `SPAWN_BATCH` new coins, stepped as well. A frame in which it does not
/// run out brings none.
pub proof fn lemma_expiry_spawns_one_batch(s: CoinSpawner, elapsed_ms: u32, coins: Seq<Coin>)
    requires
        s.update_yields(elapsed_ms, coins),
    ensures
        s.expires(elapsed_ms) ==> coins.len() == s.coins@.len() + 2,
        !s.expires(elapsed_ms) ==> coins.len() == s.coins@.len(),
        forall|i: int|
            s.coins@.len() <= i < coins.len() ==> (#[trigger] coins[i]).coin_type == CoinType::Gold
                || coins[i].coin_type == CoinType::Silver,
        forall|i: int|
            s.coins@.len() <= i < coins.len() ==> (#[trigger] coins[i]).bounce_count <= 1,
{
    assert forall|i: int| s.coins@.len() <= i < coins.len() implies (#[trigger] coins[i]).bounce_count
        <= 1 by {
        assert(s.is_stepped_spawn(coins[i]));
        let fresh = choose|fresh: Coin|
            #[trigger] is_spawn(fresh, s.world_width) && coins[i] == s.stepped(fresh);
        lemma_spawn_ranges(fresh, s.world_width);
    }
}

/// Collecting keeps exactly the coins whose place the collector does not
/// cover: each coin that is left was there before and lies outside, and
/// each coin outside is left.
pub proof fn lemma_collect_keeps_the_uncovered(coins: Seq<Coin>, area: Rect)
    ensures
        forall|c: Coin|
            #[trigger] coins.filter(outside(area)).contains(c) <==> coins.contains(c)
                && !area.covers(c.pos),
    decreases coins.len(),
{
    reveal(Seq::filter);
    let kept = coins.filter(outside(area));
    if coins.len() > 0 {
        let front = coins.drop_last();
        let last = coins.last();
        lemma_collect_keeps_the_uncovered(front, area);
        assert forall|c: Coin| #[trigger] kept.contains(c) <==> coins.contains(c) && !area.covers(
            c.pos,
        ) by {
            if kept.contains(c) {
                let j = choose|j: int| 0 <= j < kept.len() && kept[j] == c;
                if outside(area)(last) && j == kept.len() - 1 {
                    assert(c == last);
                    assert(coins[coins.len() - 1] == c);
                } else {
                    assert(front.filter(outside(area))[j] == c);
                    assert(front.filter(outside(area)).contains(c));
                    let k = choose|k: int| 0 <= k < front.len() && front[k] == c;
                    assert(coins[k] == c);
                }
            }
            if coins.contains(c) && !area.covers(c.pos) {
                let k = choose|k: int| 0 <= k < coins.len() && coins[k] == c;
                if k == coins.len() - 1 {
                    assert(kept[kept.len() - 1] == c);
                } else {
                    assert(front[k] == c);
                    assert(front.contains(c));
                    assert(front.filter(outside(area)).contains(c));
                    let j = choose|j: int|
                        0 <= j < front.filter(outside(area)).len() && front.filter(
                            outside(area),
                        )[j] == c;
                    assert(kept[j] == c);
                }
            }
        }
    }
}

/// Where the collector covers no coin, collecting takes none.
pub proof fn lemma_collect_takes_nothing_uncovered(coins: Seq<Coin>, area: Rect)
    requires
        forall|j: int| 0 <= j < coins.len() ==> !area.covers((#[trigger] coins[j]).pos),
    ensures
        coins.filter(outside(area)) == coins,
    decreases coins.len(),
{
    reveal(Seq::filter);
    if coins.len() > 0 {
        lemma_collect_takes_nothing_uncovered(coins.drop_last(), area);
        assert(coins.drop_last().push(coins.last()) =~= coins);
    }
}

/// Where the collector covers the place of one coin and of no other,
/// collecting takes that coin and leaves every other coin as it is, in its
/// order: the collector scores exactly one.
pub proof fn lemma_collect_takes_the_covered_coin(coins: Seq<Coin>, area: Rect, i: int)
    requires
        0 <= i < coins.len(),
        area.covers(coins[i].pos),
        forall|j: int| 0 <= j < coins.len() && j != i ==> !area.covers((#[trigger] coins[j]).pos),
    ensures
        coins.filter(outside(area)) == coins.remove(i),
        coins.len() - coins.filter(outside(area)).len() == 1,
    decreases coins.len(),
{
    reveal(Seq::filter);
    let front = coins.drop_last();
    if i == coins.len() - 1 {
        lemma_collect_takes_nothing_uncovered(front, area);
        assert(coins.remove(i) =~= front);
    } else {
        lemma_collect_takes_the_covered_coin(front, area, i);
        assert(coins.remove(i) =~= front.remove(i).push(coins.last()));
    }
}

} // verus!
